//! The class-file binary decoder.
//!
//! Layered over the byte readers: constant pool, attributes (recursing
//! through `Code` attributes), field and method records, and the top-level
//! class-file structure. Each layer has a functional spec giving where the
//! decoded region ends (or which error the bytes force) and a relational
//! spec tying the decoded value to the bytes.
//!
//! Policy: every constant-pool entry occupies a single slot here, `Long` and
//! `Double` included; files relying on the two-slot numbering of those
//! entries will resolve later indices differently.

use vstd::prelude::*;
use crate::reader::DecodeError;
use crate::reader::be16;
use crate::reader::be32;
use crate::reader::be64;
use crate::reader::sign32;
use crate::reader::sign64;
use crate::reader::read_u8;
use crate::reader::read_u16;
use crate::reader::read_u32;
use crate::reader::read_u64;
use crate::reader::read_i32;
use crate::reader::read_i64;
use crate::reader::read_bytes;
use crate::reader::bytes_eq;
use crate::class_file::ConstantType;
use crate::class_file::Attribute;
use crate::class_file::CodeBlock;
use crate::class_file::Field;
use crate::class_file::Method;
use crate::class_file::ClassFile;
use crate::class_file::spec_class_name;

verus! {

/// Whether a continuation byte of a multi-byte UTF-8 sequence.
pub open spec fn utf8_cont(c: u8) -> bool {
    0x80 <= c < 0xc0
}

/// Whether `b` is a valid UTF-8 byte sequence.
pub open spec fn is_utf8(b: Seq<u8>) -> bool
    decreases b.len(),
{
    if b.len() == 0 {
        true
    } else {
        let c = b[0];
        if c < 0x80 {
            is_utf8(b.skip(1))
        } else if 0xc2 <= c <= 0xdf {
            b.len() >= 2 && utf8_cont(b[1]) && is_utf8(b.skip(2))
        } else if c == 0xe0 {
            b.len() >= 3 && 0xa0 <= b[1] < 0xc0 && utf8_cont(b[2]) && is_utf8(b.skip(3))
        } else if 0xe1 <= c <= 0xec || c == 0xee || c == 0xef {
            b.len() >= 3 && utf8_cont(b[1]) && utf8_cont(b[2]) && is_utf8(b.skip(3))
        } else if c == 0xed {
            b.len() >= 3 && 0x80 <= b[1] < 0xa0 && utf8_cont(b[2]) && is_utf8(b.skip(3))
        } else if c == 0xf0 {
            b.len() >= 4 && 0x90 <= b[1] < 0xc0 && utf8_cont(b[2]) && utf8_cont(b[3]) && is_utf8(
                b.skip(4),
            )
        } else if 0xf1 <= c <= 0xf3 {
            b.len() >= 4 && utf8_cont(b[1]) && utf8_cont(b[2]) && utf8_cont(b[3]) && is_utf8(
                b.skip(4),
            )
        } else if c == 0xf4 {
            b.len() >= 4 && 0x80 <= b[1] < 0x90 && utf8_cont(b[2]) && utf8_cont(b[3]) && is_utf8(
                b.skip(4),
            )
        } else {
            false
        }
    }
}

/// Checks that `v` is valid UTF-8.
pub fn validate_utf8(v: &Vec<u8>) -> (r: bool)
    ensures
        r == is_utf8(v@),
{
    proof {
        assert(v@.skip(0) =~= v@);
    }
    let mut i: usize = 0;
    while i < v.len()
        invariant
            0 <= i <= v.len(),
            is_utf8(v@) == is_utf8(v@.skip(i as int)),
        decreases v.len() - i,
    {
        let rest: Ghost<Seq<u8>> = Ghost(v@.skip(i as int));
        proof {
            assert(rest@[0] == v@[i as int]);
            assert(rest@.len() == v.len() - i);
            if rest@.len() >= 2 {
                assert(rest@[1] == v@[i + 1]);
            }
            if rest@.len() >= 3 {
                assert(rest@[2] == v@[i + 2]);
            }
            if rest@.len() >= 4 {
                assert(rest@[3] == v@[i + 3]);
            }
        }
        let c = v[i];
        let width: usize = if c < 0x80 {
            1
        } else if 0xc2 <= c && c <= 0xdf {
            if !(v.len() - i >= 2 && 0x80 <= v[i + 1] && v[i + 1] < 0xc0) {
                return false;
            }
            2
        } else if c == 0xe0 {
            if !(v.len() - i >= 3 && 0xa0 <= v[i + 1] && v[i + 1] < 0xc0 && 0x80 <= v[i + 2] && v[i
                + 2] < 0xc0) {
                return false;
            }
            3
        } else if (0xe1 <= c && c <= 0xec) || c == 0xee || c == 0xef {
            if !(v.len() - i >= 3 && 0x80 <= v[i + 1] && v[i + 1] < 0xc0 && 0x80 <= v[i + 2] && v[i
                + 2] < 0xc0) {
                return false;
            }
            3
        } else if c == 0xed {
            if !(v.len() - i >= 3 && 0x80 <= v[i + 1] && v[i + 1] < 0xa0 && 0x80 <= v[i + 2] && v[i
                + 2] < 0xc0) {
                return false;
            }
            3
        } else if c == 0xf0 {
            if !(v.len() - i >= 4 && 0x90 <= v[i + 1] && v[i + 1] < 0xc0 && 0x80 <= v[i + 2] && v[i
                + 2] < 0xc0 && 0x80 <= v[i + 3] && v[i + 3] < 0xc0) {
                return false;
            }
            4
        } else if 0xf1 <= c && c <= 0xf3 {
            if !(v.len() - i >= 4 && 0x80 <= v[i + 1] && v[i + 1] < 0xc0 && 0x80 <= v[i + 2] && v[i
                + 2] < 0xc0 && 0x80 <= v[i + 3] && v[i + 3] < 0xc0) {
                return false;
            }
            4
        } else if c == 0xf4 {
            if !(v.len() - i >= 4 && 0x80 <= v[i + 1] && v[i + 1] < 0x90 && 0x80 <= v[i + 2] && v[i
                + 2] < 0xc0 && 0x80 <= v[i + 3] && v[i + 3] < 0xc0) {
                return false;
            }
            4
        } else {
            return false;
        };
        proof {
            assert(rest@.skip(width as int) =~= v@.skip(i + width));
        }
        i = i + width;
    }
    proof {
        assert(v@.skip(v.len() as int) =~= Seq::<u8>::empty());
    }
    true
}

/// Where the constant-pool entry at `pos` ends, or why it cannot be decoded:
/// an unknown tag is `Malformed`, a Utf8 payload that is not valid UTF-8 is
/// `Encoding`.
pub open spec fn spec_const_end(b: Seq<u8>, pos: int) -> Result<int, DecodeError> {
    if pos < 0 || pos + 1 > b.len() {
        Err(DecodeError::Incomplete(1))
    } else {
        let tag = b[pos];
        if tag == 1 {
            if pos + 3 > b.len() {
                Err(DecodeError::Incomplete(2))
            } else {
                let n = be16(b, pos + 1);
                if pos + 3 + n > b.len() {
                    Err(DecodeError::Incomplete(n as usize))
                } else if is_utf8(b.subrange(pos + 3, pos + 3 + n)) {
                    Ok(pos + 3 + n)
                } else {
                    Err(DecodeError::Encoding)
                }
            }
        } else if tag == 3 || tag == 4 {
            if pos + 5 > b.len() {
                Err(DecodeError::Incomplete(4))
            } else {
                Ok(pos + 5)
            }
        } else if tag == 5 || tag == 6 {
            if pos + 9 > b.len() {
                Err(DecodeError::Incomplete(8))
            } else {
                Ok(pos + 9)
            }
        } else if tag == 7 || tag == 8 || tag == 16 || tag == 19 || tag == 20 {
            if pos + 3 > b.len() {
                Err(DecodeError::Incomplete(2))
            } else {
                Ok(pos + 3)
            }
        } else if tag == 9 || tag == 10 || tag == 11 || tag == 12 || tag == 18 {
            if pos + 5 > b.len() {
                Err(DecodeError::Incomplete(2))
            } else {
                Ok(pos + 5)
            }
        } else if tag == 15 {
            if pos + 2 > b.len() {
                Err(DecodeError::Incomplete(1))
            } else if pos + 4 > b.len() {
                Err(DecodeError::Incomplete(2))
            } else {
                Ok(pos + 4)
            }
        } else {
            Err(DecodeError::Malformed)
        }
    }
}

/// `c` is exactly the constant the bytes at `pos` encode.
pub open spec fn const_encodes(c: ConstantType, b: Seq<u8>, pos: int) -> bool {
    match c {
        ConstantType::Utf8 { value } => b[pos] == 1 && value@.len() == be16(b, pos + 1) && value@
            == b.subrange(pos + 3, pos + 3 + be16(b, pos + 1)) && is_utf8(value@),
        ConstantType::Integer { value } => b[pos] == 3 && value == sign32(be32(b, pos + 1)),
        ConstantType::Float { bits } => b[pos] == 4 && bits == be32(b, pos + 1),
        ConstantType::Long { value } => b[pos] == 5 && value == sign64(be64(b, pos + 1)),
        ConstantType::Double { bits } => b[pos] == 6 && bits == be64(b, pos + 1),
        ConstantType::Class { name_index } => b[pos] == 7 && name_index == be16(b, pos + 1),
        ConstantType::String { string_index } => b[pos] == 8 && string_index == be16(b, pos + 1),
        ConstantType::FieldRef { class_index, name_and_type_index } => b[pos] == 9 && class_index
            == be16(b, pos + 1) && name_and_type_index == be16(b, pos + 3),
        ConstantType::MethodRef { class_index, name_and_type_index } => b[pos] == 10 && class_index
            == be16(b, pos + 1) && name_and_type_index == be16(b, pos + 3),
        ConstantType::InterfaceMethodRef { class_index, name_and_type_index } => b[pos] == 11
            && class_index == be16(b, pos + 1) && name_and_type_index == be16(b, pos + 3),
        ConstantType::NameAndType { name_index, descriptor_index } => b[pos] == 12 && name_index
            == be16(b, pos + 1) && descriptor_index == be16(b, pos + 3),
        ConstantType::MethodHandle { reference_kind, reference_index } => b[pos] == 15
            && reference_kind == b[pos + 1] && reference_index == be16(b, pos + 2),
        ConstantType::MethodType { descriptor_index } => b[pos] == 16 && descriptor_index == be16(
            b,
            pos + 1,
        ),
        ConstantType::InvokeDynamic { bootstrap_method_attr_index, name_and_type_index } => b[pos]
            == 18 && bootstrap_method_attr_index == be16(b, pos + 1) && name_and_type_index
            == be16(b, pos + 3),
        ConstantType::Module { name_index } => b[pos] == 19 && name_index == be16(b, pos + 1),
        ConstantType::Package { name_index } => b[pos] == 20 && name_index == be16(b, pos + 1),
    }
}

/// Decodes the one constant-pool entry at `pos`.
pub fn read_constant(data: &Vec<u8>, pos: usize) -> (r: Result<(ConstantType, usize), DecodeError>)
    ensures
        (r matches Ok(v) ==> spec_const_end(data@, pos as int) == Ok::<int, DecodeError>(
            v.1 as int,
        ) && const_encodes(v.0, data@, pos as int) && pos < v.1 <= data.len()),
        (r matches Err(e) ==> spec_const_end(data@, pos as int) == Err::<int, DecodeError>(e)),
{
    let (tag, p) = match read_u8(data, pos) {
        Ok(v) => v,
        Err(e) => {
            return Err(e);
        },
    };
    match tag {
        1 => {
            let (n, p) = match read_u16(data, p) {
                Ok(v) => v,
                Err(e) => {
                    return Err(e);
                },
            };
            let (value, p) = match read_bytes(data, p, n as usize) {
                Ok(v) => v,
                Err(e) => {
                    return Err(e);
                },
            };
            if validate_utf8(&value) {
                Ok((ConstantType::Utf8 { value }, p))
            } else {
                Err(DecodeError::Encoding)
            }
        },
        3 => {
            let (value, p) = match read_i32(data, p) {
                Ok(v) => v,
                Err(e) => {
                    return Err(e);
                },
            };
            Ok((ConstantType::Integer { value }, p))
        },
        4 => {
            let (bits, p) = match read_u32(data, p) {
                Ok(v) => v,
                Err(e) => {
                    return Err(e);
                },
            };
            Ok((ConstantType::Float { bits }, p))
        },
        5 => {
            let (value, p) = match read_i64(data, p) {
                Ok(v) => v,
                Err(e) => {
                    return Err(e);
                },
            };
            Ok((ConstantType::Long { value }, p))
        },
        6 => {
            let (bits, p) = match read_u64(data, p) {
                Ok(v) => v,
                Err(e) => {
                    return Err(e);
                },
            };
            Ok((ConstantType::Double { bits }, p))
        },
        7 => {
            let (name_index, p) = match read_u16(data, p) {
                Ok(v) => v,
                Err(e) => {
                    return Err(e);
                },
            };
            Ok((ConstantType::Class { name_index }, p))
        },
        8 => {
            let (string_index, p) = match read_u16(data, p) {
                Ok(v) => v,
                Err(e) => {
                    return Err(e);
                },
            };
            Ok((ConstantType::String { string_index }, p))
        },
        9 => {
            let (class_index, p) = match read_u16(data, p) {
                Ok(v) => v,
                Err(e) => {
                    return Err(e);
                },
            };
            let (name_and_type_index, p) = match read_u16(data, p) {
                Ok(v) => v,
                Err(e) => {
                    return Err(e);
                },
            };
            Ok((ConstantType::FieldRef { class_index, name_and_type_index }, p))
        },
        10 => {
            let (class_index, p) = match read_u16(data, p) {
                Ok(v) => v,
                Err(e) => {
                    return Err(e);
                },
            };
            let (name_and_type_index, p) = match read_u16(data, p) {
                Ok(v) => v,
                Err(e) => {
                    return Err(e);
                },
            };
            Ok((ConstantType::MethodRef { class_index, name_and_type_index }, p))
        },
        11 => {
            let (class_index, p) = match read_u16(data, p) {
                Ok(v) => v,
                Err(e) => {
                    return Err(e);
                },
            };
            let (name_and_type_index, p) = match read_u16(data, p) {
                Ok(v) => v,
                Err(e) => {
                    return Err(e);
                },
            };
            Ok((ConstantType::InterfaceMethodRef { class_index, name_and_type_index }, p))
        },
        12 => {
            let (name_index, p) = match read_u16(data, p) {
                Ok(v) => v,
                Err(e) => {
                    return Err(e);
                },
            };
            let (descriptor_index, p) = match read_u16(data, p) {
                Ok(v) => v,
                Err(e) => {
                    return Err(e);
                },
            };
            Ok((ConstantType::NameAndType { name_index, descriptor_index }, p))
        },
        15 => {
            let (reference_kind, p) = match read_u8(data, p) {
                Ok(v) => v,
                Err(e) => {
                    return Err(e);
                },
            };
            let (reference_index, p) = match read_u16(data, p) {
                Ok(v) => v,
                Err(e) => {
                    return Err(e);
                },
            };
            Ok((ConstantType::MethodHandle { reference_kind, reference_index }, p))
        },
        16 => {
            let (descriptor_index, p) = match read_u16(data, p) {
                Ok(v) => v,
                Err(e) => {
                    return Err(e);
                },
            };
            Ok((ConstantType::MethodType { descriptor_index }, p))
        },
        18 => {
            let (bootstrap_method_attr_index, p) = match read_u16(data, p) {
                Ok(v) => v,
                Err(e) => {
                    return Err(e);
                },
            };
            let (name_and_type_index, p) = match read_u16(data, p) {
                Ok(v) => v,
                Err(e) => {
                    return Err(e);
                },
            };
            Ok((ConstantType::InvokeDynamic { bootstrap_method_attr_index, name_and_type_index }, p))
        },
        19 => {
            let (name_index, p) = match read_u16(data, p) {
                Ok(v) => v,
                Err(e) => {
                    return Err(e);
                },
            };
            Ok((ConstantType::Module { name_index }, p))
        },
        20 => {
            let (name_index, p) = match read_u16(data, p) {
                Ok(v) => v,
                Err(e) => {
                    return Err(e);
                },
            };
            Ok((ConstantType::Package { name_index }, p))
        },
        _ => Err(DecodeError::Malformed),
    }
}

/// Where a run of `n` constant-pool entries starting at `pos` ends.
pub open spec fn spec_const_list_end(b: Seq<u8>, pos: int, n: int) -> Result<int, DecodeError>
    decreases n,
{
    if n <= 0 {
        Ok(pos)
    } else {
        match spec_const_end(b, pos) {
            Ok(e) => spec_const_list_end(b, e, n - 1),
            Err(err) => Err(err),
        }
    }
}

/// `cs` is exactly the run of constants the bytes `b[pos..end]` encode.
pub open spec fn consts_encode(cs: Seq<ConstantType>, b: Seq<u8>, pos: int, end: int) -> bool
    decreases cs.len(),
{
    if cs.len() == 0 {
        end == pos
    } else {
        match spec_const_end(b, pos) {
            Ok(e) => const_encodes(cs[0], b, pos) && consts_encode(cs.skip(1), b, e, end),
            Err(_) => false,
        }
    }
}

proof fn lemma_consts_encode_snoc(cs: Seq<ConstantType>, c: ConstantType, b: Seq<u8>, pos: int, mid: int, end: int)
    requires
        consts_encode(cs, b, pos, mid),
        spec_const_end(b, mid) == Ok::<int, DecodeError>(end),
        const_encodes(c, b, mid),
    ensures
        consts_encode(cs.push(c), b, pos, end),
    decreases cs.len(),
{
    if cs.len() == 0 {
        assert(cs.push(c)[0] == c);
        assert(cs.push(c).skip(1) =~= Seq::<ConstantType>::empty());
        assert(consts_encode(Seq::<ConstantType>::empty(), b, end, end));
    } else {
        let e = spec_const_end(b, pos)->Ok_0;
        lemma_consts_encode_snoc(cs.skip(1), c, b, e, mid, end);
        assert(cs.push(c)[0] == cs[0]);
        assert(cs.push(c).skip(1) =~= cs.skip(1).push(c));
    }
}

proof fn lemma_const_list_end_snoc(b: Seq<u8>, pos: int, n: int, mid: int, end: int)
    requires
        n >= 0,
        spec_const_list_end(b, pos, n) == Ok::<int, DecodeError>(mid),
        spec_const_end(b, mid) == Ok::<int, DecodeError>(end),
    ensures
        spec_const_list_end(b, pos, n + 1) == Ok::<int, DecodeError>(end),
    decreases n,
{
    if n > 0 {
        let e = spec_const_end(b, pos)->Ok_0;
        lemma_const_list_end_snoc(b, e, n - 1, mid, end);
    } else {
        assert(spec_const_list_end(b, end, 0) == Ok::<int, DecodeError>(end));
    }
}

/// Decodes a run of `n` constant-pool entries starting at `pos`.
pub fn read_constant_list(data: &Vec<u8>, pos: usize, n: usize) -> (r: Result<
    (Vec<ConstantType>, usize),
    DecodeError,
>)
    ensures
        (r matches Ok(v) ==> spec_const_list_end(data@, pos as int, n as int) == Ok::<
            int,
            DecodeError,
        >(v.1 as int) && consts_encode(v.0@, data@, pos as int, v.1 as int) && v.0.len() == n
            && pos <= v.1 && (n > 0 ==> v.1 <= data.len()) && (n == 0 ==> v.1 == pos)),
        (r matches Err(e) ==> spec_const_list_end(data@, pos as int, n as int) == Err::<
            int,
            DecodeError,
        >(e)),
{
    let mut out: Vec<ConstantType> = Vec::new();
    let mut cur: usize = pos;
    let mut i: usize = 0;
    while i < n
        invariant
            0 <= i <= n,
            pos <= cur,
            i == 0 ==> cur == pos,
            i > 0 ==> cur <= data.len(),
            out.len() == i,
            consts_encode(out@, data@, pos as int, cur as int),
            (spec_const_list_end(data@, cur as int, n - i) matches Ok(e) ==> spec_const_list_end(
                data@,
                pos as int,
                n as int,
            ) == Ok::<int, DecodeError>(e)),
            (spec_const_list_end(data@, cur as int, n - i) matches Err(e) ==> spec_const_list_end(
                data@,
                pos as int,
                n as int,
            ) == Err::<int, DecodeError>(e)),
        decreases n - i,
    {
        match read_constant(data, cur) {
            Ok((c, next)) => {
                proof {
                    lemma_consts_encode_snoc(out@, c, data@, pos as int, cur as int, next as int);
                }
                out.push(c);
                cur = next;
            },
            Err(e) => {
                return Err(e);
            },
        }
        i = i + 1;
    }
    Ok((out, cur))
}

// ---------------------------------------------------------------------------
// Attributes
// ---------------------------------------------------------------------------


/// The bytes of the attribute name "Code".
pub open spec fn code_name() -> Seq<u8> {
    seq![0x43u8, 0x6fu8, 0x64u8, 0x65u8]
}

/// The bytes of the attribute name "LineNumberTable".
pub open spec fn line_table_name() -> Seq<u8> {
    seq![
        0x4cu8,
        0x69u8,
        0x6eu8,
        0x65u8,
        0x4eu8,
        0x75u8,
        0x6du8,
        0x62u8,
        0x65u8,
        0x72u8,
        0x54u8,
        0x61u8,
        0x62u8,
        0x6cu8,
        0x65u8,
    ]
}

/// The Utf8 bytes the attribute name index at `pos` resolves to, if the
/// index is in range and holds a Utf8 entry.
pub open spec fn spec_attr_name(cs: Seq<ConstantType>, b: Seq<u8>, pos: int) -> Option<Seq<u8>> {
    let ni = be16(b, pos);
    if 1 <= ni <= cs.len() {
        match cs[ni - 1] {
            ConstantType::Utf8 { value } => Some(value@),
            _ => None,
        }
    } else {
        None
    }
}

/// Where the attribute at `pos` ends, or why it cannot be decoded. A name
/// index that does not resolve to a Utf8 entry is `Malformed`. The declared
/// 4-byte length is read but the recognized attribute kinds are decoded by
/// structure, not by it.
pub open spec fn spec_attr_end(cs: Seq<ConstantType>, b: Seq<u8>, pos: int) -> Result<
    int,
    DecodeError,
>
    decreases b.len() - pos, 0int, 0int,
{
    if pos < 0 || pos + 2 > b.len() {
        Err(DecodeError::Incomplete(2))
    } else {
        match spec_attr_name(cs, b, pos) {
            None => Err(DecodeError::Malformed),
            Some(name) => if name == line_table_name() {
                if pos + 6 > b.len() {
                    Err(DecodeError::Incomplete(4))
                } else if pos + 8 > b.len() {
                    Err(DecodeError::Incomplete(2))
                } else {
                    let cnt = be16(b, pos + 6);
                    if pos + 8 + 4 * cnt <= b.len() {
                        Ok(pos + 8 + 4 * cnt)
                    } else {
                        Err(DecodeError::Incomplete(2))
                    }
                }
            } else if name == code_name() {
                if pos + 6 > b.len() {
                    Err(DecodeError::Incomplete(4))
                } else if pos + 8 > b.len() {
                    Err(DecodeError::Incomplete(2))
                } else if pos + 10 > b.len() {
                    Err(DecodeError::Incomplete(2))
                } else if pos + 14 > b.len() {
                    Err(DecodeError::Incomplete(4))
                } else {
                    let cl = be32(b, pos + 10);
                    if pos + 14 + cl > b.len() {
                        Err(DecodeError::Incomplete(cl as usize))
                    } else {
                        let p1 = pos + 14 + cl;
                        if p1 + 2 > b.len() {
                            Err(DecodeError::Incomplete(2))
                        } else {
                            let exc = be16(b, p1);
                            if p1 + 2 + 8 * exc > b.len() {
                                Err(DecodeError::Incomplete(2))
                            } else {
                                let p2 = p1 + 2 + 8 * exc;
                                if p2 + 2 > b.len() {
                                    Err(DecodeError::Incomplete(2))
                                } else {
                                    spec_attr_list_end(cs, b, p2 + 2, be16(b, p2))
                                }
                            }
                        }
                    }
                }
            } else {
                if pos + 6 > b.len() {
                    Err(DecodeError::Incomplete(4))
                } else {
                    let l = be32(b, pos + 2);
                    if pos + 6 + l <= b.len() {
                        Ok(pos + 6 + l)
                    } else {
                        Err(DecodeError::Incomplete(l as usize))
                    }
                }
            },
        }
    }
}

/// Where a run of `n` attributes starting at `pos` ends.
pub open spec fn spec_attr_list_end(cs: Seq<ConstantType>, b: Seq<u8>, pos: int, n: int) -> Result<
    int,
    DecodeError,
>
    decreases b.len() - pos, n, 1int,
{
    if n <= 0 {
        Ok(pos)
    } else {
        match spec_attr_end(cs, b, pos) {
            Ok(e) => if pos < e <= b.len() {
                spec_attr_list_end(cs, b, e, n - 1)
            } else {
                Err(DecodeError::Malformed)
            },
            Err(err) => Err(err),
        }
    }
}

/// `a` is exactly the attribute the bytes at `pos` encode, with its name
/// resolved through the constant pool `cs`.
pub open spec fn attr_encodes(a: Attribute, cs: Seq<ConstantType>, b: Seq<u8>, pos: int) -> bool
    decreases b.len() - pos, 0int, 0int,
{
    if pos < 0 {
        false
    } else {
        match a {
            Attribute::LineNumberTable(entries) => {
                &&& spec_attr_name(cs, b, pos) == Some(line_table_name())
                &&& pos + 8 <= b.len()
                &&& entries@.len() == be16(b, pos + 6)
                &&& forall|j: int|
                    0 <= j < entries@.len() ==> #[trigger] entries@[j] == (
                        be16(b, pos + 8 + 4 * j) as u16,
                        be16(b, pos + 10 + 4 * j) as u16,
                    )
            },
            Attribute::CodeAttribute(cb) => {
                &&& spec_attr_name(cs, b, pos) == Some(code_name())
                &&& pos + 14 <= b.len()
                &&& cb.max_stack == be16(b, pos + 6)
                &&& cb.max_locals == be16(b, pos + 8)
                &&& pos + 14 + be32(b, pos + 10) <= b.len()
                &&& cb.code@ == b.subrange(pos + 14, pos + 14 + be32(b, pos + 10))
                &&& {
                    let p1 = pos + 14 + be32(b, pos + 10);
                    &&& p1 + 2 <= b.len()
                    &&& {
                        let p2 = p1 + 2 + 8 * be16(b, p1);
                        &&& p2 + 2 <= b.len()
                        &&& attr_list_encodes(cb.attributes@, cs, b, p2 + 2, be16(b, p2))
                    }
                }
            },
            Attribute::GenericAttribute { name, info } => {
                &&& spec_attr_name(cs, b, pos) == Some(name@)
                &&& name@ != code_name()
                &&& name@ != line_table_name()
                &&& pos + 6 <= b.len()
                &&& pos + 6 + be32(b, pos + 2) <= b.len()
                &&& info@ == b.subrange(pos + 6, pos + 6 + be32(b, pos + 2))
            },
        }
    }
}

/// `attrs` is exactly the run of `n` attributes the bytes at `pos` encode.
pub open spec fn attr_list_encodes(
    attrs: Seq<Attribute>,
    cs: Seq<ConstantType>,
    b: Seq<u8>,
    pos: int,
    n: int,
) -> bool
    decreases b.len() - pos, n, 1int,
{
    if pos < 0 {
        false
    } else if n <= 0 {
        attrs.len() == 0
    } else {
        attrs.len() > 0 && match spec_attr_end(cs, b, pos) {
            Ok(e) => attr_encodes(attrs[0], cs, b, pos) && (if pos < e <= b.len() {
                attr_list_encodes(attrs.skip(1), cs, b, e, n - 1)
            } else {
                false
            }),
            Err(_) => false,
        }
    }
}

proof fn lemma_attr_list_encodes_snoc(
    attrs: Seq<Attribute>,
    a: Attribute,
    cs: Seq<ConstantType>,
    b: Seq<u8>,
    pos: int,
    n: int,
    mid: int,
)
    requires
        attr_list_encodes(attrs, cs, b, pos, n),
        n >= 0,
        attrs.len() == n,
        spec_attr_list_end(cs, b, pos, n) == Ok::<int, DecodeError>(mid),
        attr_encodes(a, cs, b, mid),
        spec_attr_end(cs, b, mid) is Ok,
        mid < spec_attr_end(cs, b, mid)->Ok_0 <= b.len(),
    ensures
        attr_list_encodes(attrs.push(a), cs, b, pos, n + 1),
        spec_attr_list_end(cs, b, pos, n + 1) == Ok::<int, DecodeError>(
            spec_attr_end(cs, b, mid)->Ok_0,
        ),
    decreases n,
{
    if n == 0 {
        assert(mid == pos);
        assert(attrs.push(a)[0] == a);
        assert(attrs.push(a).skip(1) =~= Seq::<Attribute>::empty());
        let e = spec_attr_end(cs, b, mid)->Ok_0;
        assert(attr_list_encodes(Seq::<Attribute>::empty(), cs, b, e, 0));
        assert(spec_attr_list_end(cs, b, e, 0) == Ok::<int, DecodeError>(e));
    } else {
        let e = spec_attr_end(cs, b, pos)->Ok_0;
        lemma_attr_list_encodes_snoc(attrs.skip(1), a, cs, b, e, n - 1, mid);
        assert(attrs.push(a)[0] == attrs[0]);
        assert(attrs.push(a).skip(1) =~= attrs.skip(1).push(a));
    }
}

/// Decodes `cnt` (start pc, line number) pairs at `pos`.
fn read_pairs(data: &Vec<u8>, pos: usize, cnt: usize) -> (r: Result<
    (Vec<(u16, u16)>, usize),
    DecodeError,
>)
    ensures
        (r matches Ok(v) ==> (cnt > 0 ==> pos + 4 * cnt <= data.len()) && v.1 == pos + 4 * cnt
            && v.0.len() == cnt && forall|j: int|
            0 <= j < cnt ==> #[trigger] v.0@[j] == (
                be16(data@, pos + 4 * j) as u16,
                be16(data@, pos + 2 + 4 * j) as u16,
            )),
        (r matches Err(e) ==> e == DecodeError::Incomplete(2) && pos + 4 * cnt > data.len()),
{
    let mut out: Vec<(u16, u16)> = Vec::new();
    let mut k: usize = 0;
    while k < cnt
        invariant
            0 <= k <= cnt,
            out.len() == k,
            pos + 4 * k <= data.len() || k == 0,
            k > 0 ==> pos + 4 * k <= data.len(),
            forall|j: int|
                0 <= j < k ==> #[trigger] out@[j] == (
                    be16(data@, pos + 4 * j) as u16,
                    be16(data@, pos + 2 + 4 * j) as u16,
                ),
        decreases cnt - k,
    {
        let start = match read_u16(data, pos + 4 * k) {
            Ok((v, _)) => v,
            Err(e) => {
                return Err(e);
            },
        };
        let line = match read_u16(data, pos + 4 * k + 2) {
            Ok((v, _)) => v,
            Err(e) => {
                return Err(e);
            },
        };
        out.push((start, line));
        k = k + 1;
    }
    Ok((out, pos + 4 * cnt))
}

/// Skips `cnt` exception-table entries at `pos`: decoded but not retained.
fn read_exceptions(data: &Vec<u8>, pos: usize, cnt: usize) -> (r: Result<usize, DecodeError>)
    ensures
        (r matches Ok(e) ==> (cnt > 0 ==> pos + 8 * cnt <= data.len()) && e == pos + 8 * cnt),
        (r matches Err(e) ==> e == DecodeError::Incomplete(2) && pos + 8 * cnt > data.len()),
{
    let mut k: usize = 0;
    while k < cnt
        invariant
            0 <= k <= cnt,
            k > 0 ==> pos + 8 * k <= data.len(),
        decreases cnt - k,
    {
        let mut q = pos + 8 * k;
        let mut f: usize = 0;
        while f < 4
            invariant
                q == pos + 8 * k + 2 * f,
                0 <= k < cnt,
                0 <= f <= 4,
                f > 0 ==> q <= data.len(),
            decreases 4 - f,
        {
            match read_u16(data, q) {
                Ok((_, next)) => {
                    q = next;
                },
                Err(e) => {
                    return Err(e);
                },
            }
            f = f + 1;
        }
        k = k + 1;
    }
    Ok(pos + 8 * cnt)
}

/// Decodes the one attribute at `pos`, resolving its name through the
/// constant pool.
#[verifier::rlimit(80)]
pub fn read_attribute(data: &Vec<u8>, pos: usize, constants: &Vec<ConstantType>) -> (r: Result<
    (Attribute, usize),
    DecodeError,
>)
    ensures
        (r matches Ok(v) ==> spec_attr_end(constants@, data@, pos as int) == Ok::<
            int,
            DecodeError,
        >(v.1 as int) && attr_encodes(v.0, constants@, data@, pos as int) && pos < v.1
            <= data.len()),
        (r matches Err(e) ==> spec_attr_end(constants@, data@, pos as int) == Err::<
            int,
            DecodeError,
        >(e)),
    decreases data.len() - pos, 0int, 0int,
{
    let (ni, p) = match read_u16(data, pos) {
        Ok(v) => v,
        Err(e) => {
            return Err(e);
        },
    };
    if ni < 1 || ni as usize > constants.len() {
        return Err(DecodeError::Malformed);
    }
    let name = match &constants[(ni - 1) as usize] {
        ConstantType::Utf8 { value } => value,
        _ => {
            return Err(DecodeError::Malformed);
        },
    };
    let lnt_nm: Vec<u8> = vec![
        0x4c, 0x69, 0x6e, 0x65, 0x4e, 0x75, 0x6d, 0x62, 0x65, 0x72, 0x54, 0x61, 0x62, 0x6c, 0x65,
    ];
    let code_nm: Vec<u8> = vec![0x43, 0x6f, 0x64, 0x65];
    proof {
        assert(lnt_nm@ =~= line_table_name());
        assert(code_nm@ =~= code_name());
        assert(spec_attr_name(constants@, data@, pos as int) == Some(name@));
    }
    if bytes_eq(name, &lnt_nm) {
        let (_, p) = match read_u32(data, p) {
            Ok(v) => v,
            Err(e) => {
                return Err(e);
            },
        };
        let (cnt, p) = match read_u16(data, p) {
            Ok(v) => v,
            Err(e) => {
                return Err(e);
            },
        };
        let (entries, end) = match read_pairs(data, p, cnt as usize) {
            Ok(v) => v,
            Err(e) => {
                return Err(e);
            },
        };
        Ok((Attribute::LineNumberTable(entries), end))
    } else if bytes_eq(name, &code_nm) {
        let (_, p) = match read_u32(data, p) {
            Ok(v) => v,
            Err(e) => {
                return Err(e);
            },
        };
        let (max_stack, p) = match read_u16(data, p) {
            Ok(v) => v,
            Err(e) => {
                return Err(e);
            },
        };
        let (max_locals, p) = match read_u16(data, p) {
            Ok(v) => v,
            Err(e) => {
                return Err(e);
            },
        };
        let (code_len, p) = match read_u32(data, p) {
            Ok(v) => v,
            Err(e) => {
                return Err(e);
            },
        };
        let (code, p) = match read_bytes(data, p, code_len as usize) {
            Ok(v) => v,
            Err(e) => {
                return Err(e);
            },
        };
        let (exc, p) = match read_u16(data, p) {
            Ok(v) => v,
            Err(e) => {
                return Err(e);
            },
        };
        let p = match read_exceptions(data, p, exc as usize) {
            Ok(v) => v,
            Err(e) => {
                return Err(e);
            },
        };
        let (nested, p) = match read_u16(data, p) {
            Ok(v) => v,
            Err(e) => {
                return Err(e);
            },
        };
        let (attributes, end) = match read_attribute_list(data, p, nested as usize, constants) {
            Ok(v) => v,
            Err(e) => {
                return Err(e);
            },
        };
        Ok((Attribute::CodeAttribute(CodeBlock { max_stack, max_locals, code, attributes }), end))
    } else {
        let (length, p) = match read_u32(data, p) {
            Ok(v) => v,
            Err(e) => {
                return Err(e);
            },
        };
        let (info, end) = match read_bytes(data, p, length as usize) {
            Ok(v) => v,
            Err(e) => {
                return Err(e);
            },
        };
        let name_copy = crate::reader::copy_bytes(name);
        Ok((Attribute::GenericAttribute { name: name_copy, info }, end))
    }
}

/// Decodes a run of `n` attributes starting at `pos`.
pub fn read_attribute_list(
    data: &Vec<u8>,
    pos: usize,
    n: usize,
    constants: &Vec<ConstantType>,
) -> (r: Result<(Vec<Attribute>, usize), DecodeError>)
    ensures
        (r matches Ok(v) ==> spec_attr_list_end(constants@, data@, pos as int, n as int) == Ok::<
            int,
            DecodeError,
        >(v.1 as int) && attr_list_encodes(v.0@, constants@, data@, pos as int, n as int)
            && v.0.len() == n && pos <= v.1 && (n > 0 ==> v.1 <= data.len()) && (n == 0 ==> v.1
            == pos)),
        (r matches Err(e) ==> spec_attr_list_end(constants@, data@, pos as int, n as int) == Err::<
            int,
            DecodeError,
        >(e)),
    decreases data.len() - pos, n, 1int,
{
    let mut out: Vec<Attribute> = Vec::new();
    let mut cur: usize = pos;
    let mut i: usize = 0;
    while i < n
        invariant
            0 <= i <= n,
            pos <= cur,
            i == 0 ==> cur == pos,
            i > 0 ==> cur <= data.len(),
            out.len() == i,
            attr_list_encodes(out@, constants@, data@, pos as int, i as int),
            spec_attr_list_end(constants@, data@, pos as int, i as int) == Ok::<int, DecodeError>(
                cur as int,
            ),
            (spec_attr_list_end(constants@, data@, cur as int, n - i) matches Ok(e)
                ==> spec_attr_list_end(constants@, data@, pos as int, n as int) == Ok::<
                int,
                DecodeError,
            >(e)),
            (spec_attr_list_end(constants@, data@, cur as int, n - i) matches Err(e)
                ==> spec_attr_list_end(constants@, data@, pos as int, n as int) == Err::<
                int,
                DecodeError,
            >(e)),
        decreases n - i,
    {
        match read_attribute(data, cur, constants) {
            Ok((a, next)) => {
                proof {
                    lemma_attr_list_encodes_snoc(
                        out@,
                        a,
                        constants@,
                        data@,
                        pos as int,
                        i as int,
                        cur as int,
                    );
                }
                out.push(a);
                cur = next;
            },
            Err(e) => {
                return Err(e);
            },
        }
        i = i + 1;
    }
    Ok((out, cur))
}

// ---------------------------------------------------------------------------
// Fields, methods, and the class file
// ---------------------------------------------------------------------------

/// The Utf8 bytes stored at the 1-based pool position `i`, if in range and
/// of that kind.
pub open spec fn spec_utf8_at(cs: Seq<ConstantType>, i: int) -> Option<Seq<u8>> {
    if 1 <= i <= cs.len() {
        match cs[i - 1] {
            ConstantType::Utf8 { value } => Some(value@),
            _ => None,
        }
    } else {
        None
    }
}

/// Where the field record at `pos` ends, or why it cannot be decoded.
pub open spec fn spec_field_end(cs: Seq<ConstantType>, b: Seq<u8>, pos: int) -> Result<
    int,
    DecodeError,
> {
    if pos < 0 || pos + 8 > b.len() {
        Err(DecodeError::Incomplete(2))
    } else {
        spec_attr_list_end(cs, b, pos + 8, be16(b, pos + 6))
    }
}

/// `f` is exactly the field record the bytes at `pos` encode.
pub open spec fn field_encodes(f: Field, cs: Seq<ConstantType>, b: Seq<u8>, pos: int) -> bool {
    &&& pos >= 0
    &&& pos + 8 <= b.len()
    &&& f.access_flags == be16(b, pos)
    &&& f.name_index == be16(b, pos + 2)
    &&& f.descriptor_index == be16(b, pos + 4)
    &&& attr_list_encodes(f.attributes@, cs, b, pos + 8, be16(b, pos + 6))
}

/// Where the method record at `pos` ends: as a field record, except that the
/// name and descriptor indices must resolve to Utf8 entries (`Malformed`
/// otherwise), since the decoded method carries the resolved bytes.
pub open spec fn spec_method_end(cs: Seq<ConstantType>, b: Seq<u8>, pos: int) -> Result<
    int,
    DecodeError,
> {
    if pos < 0 || pos + 8 > b.len() {
        Err(DecodeError::Incomplete(2))
    } else if spec_utf8_at(cs, be16(b, pos + 2)) is None || spec_utf8_at(cs, be16(b, pos + 4))
        is None {
        Err(DecodeError::Malformed)
    } else {
        spec_attr_list_end(cs, b, pos + 8, be16(b, pos + 6))
    }
}

/// `m` is exactly the method record the bytes at `pos` encode.
pub open spec fn method_encodes(m: Method, cs: Seq<ConstantType>, b: Seq<u8>, pos: int) -> bool {
    &&& pos >= 0
    &&& pos + 8 <= b.len()
    &&& m.access_flags == be16(b, pos)
    &&& spec_utf8_at(cs, be16(b, pos + 2)) == Some(m.name@)
    &&& spec_utf8_at(cs, be16(b, pos + 4)) == Some(m.descriptor@)
    &&& attr_list_encodes(m.attributes@, cs, b, pos + 8, be16(b, pos + 6))
}

/// Where a run of `n` field records starting at `pos` ends.
pub open spec fn spec_field_list_end(cs: Seq<ConstantType>, b: Seq<u8>, pos: int, n: int) -> Result<
    int,
    DecodeError,
>
    decreases n,
{
    if n <= 0 {
        Ok(pos)
    } else {
        match spec_field_end(cs, b, pos) {
            Ok(e) => spec_field_list_end(cs, b, e, n - 1),
            Err(err) => Err(err),
        }
    }
}

/// `fs` is exactly the run of `n` field records the bytes at `pos` encode.
pub open spec fn fields_encode(
    fs: Seq<Field>,
    cs: Seq<ConstantType>,
    b: Seq<u8>,
    pos: int,
    n: int,
) -> bool
    decreases n,
{
    if n <= 0 {
        fs.len() == 0
    } else {
        fs.len() > 0 && match spec_field_end(cs, b, pos) {
            Ok(e) => field_encodes(fs[0], cs, b, pos) && fields_encode(fs.skip(1), cs, b, e, n - 1),
            Err(_) => false,
        }
    }
}

/// Where a run of `n` method records starting at `pos` ends.
pub open spec fn spec_method_list_end(
    cs: Seq<ConstantType>,
    b: Seq<u8>,
    pos: int,
    n: int,
) -> Result<int, DecodeError>
    decreases n,
{
    if n <= 0 {
        Ok(pos)
    } else {
        match spec_method_end(cs, b, pos) {
            Ok(e) => spec_method_list_end(cs, b, e, n - 1),
            Err(err) => Err(err),
        }
    }
}

/// `ms` is exactly the run of `n` method records the bytes at `pos` encode.
pub open spec fn methods_encode(
    ms: Seq<Method>,
    cs: Seq<ConstantType>,
    b: Seq<u8>,
    pos: int,
    n: int,
) -> bool
    decreases n,
{
    if n <= 0 {
        ms.len() == 0
    } else {
        ms.len() > 0 && match spec_method_end(cs, b, pos) {
            Ok(e) => method_encodes(ms[0], cs, b, pos) && methods_encode(
                ms.skip(1),
                cs,
                b,
                e,
                n - 1,
            ),
            Err(_) => false,
        }
    }
}

proof fn lemma_fields_encode_snoc(
    fs: Seq<Field>,
    f: Field,
    cs: Seq<ConstantType>,
    b: Seq<u8>,
    pos: int,
    n: int,
    mid: int,
    end: int,
)
    requires
        n >= 0,
        fs.len() == n,
        fields_encode(fs, cs, b, pos, n),
        spec_field_list_end(cs, b, pos, n) == Ok::<int, DecodeError>(mid),
        field_encodes(f, cs, b, mid),
        spec_field_end(cs, b, mid) == Ok::<int, DecodeError>(end),
    ensures
        fields_encode(fs.push(f), cs, b, pos, n + 1),
        spec_field_list_end(cs, b, pos, n + 1) == Ok::<int, DecodeError>(end),
    decreases n,
{
    if n == 0 {
        assert(mid == pos);
        assert(fs.push(f)[0] == f);
        assert(fs.push(f).skip(1) =~= Seq::<Field>::empty());
        assert(fields_encode(Seq::<Field>::empty(), cs, b, end, 0));
        assert(spec_field_list_end(cs, b, end, 0) == Ok::<int, DecodeError>(end));
    } else {
        let e = spec_field_end(cs, b, pos)->Ok_0;
        lemma_fields_encode_snoc(fs.skip(1), f, cs, b, e, n - 1, mid, end);
        assert(fs.push(f)[0] == fs[0]);
        assert(fs.push(f).skip(1) =~= fs.skip(1).push(f));
    }
}

proof fn lemma_methods_encode_snoc(
    ms: Seq<Method>,
    m: Method,
    cs: Seq<ConstantType>,
    b: Seq<u8>,
    pos: int,
    n: int,
    mid: int,
    end: int,
)
    requires
        n >= 0,
        ms.len() == n,
        methods_encode(ms, cs, b, pos, n),
        spec_method_list_end(cs, b, pos, n) == Ok::<int, DecodeError>(mid),
        method_encodes(m, cs, b, mid),
        spec_method_end(cs, b, mid) == Ok::<int, DecodeError>(end),
    ensures
        methods_encode(ms.push(m), cs, b, pos, n + 1),
        spec_method_list_end(cs, b, pos, n + 1) == Ok::<int, DecodeError>(end),
    decreases n,
{
    if n == 0 {
        assert(mid == pos);
        assert(ms.push(m)[0] == m);
        assert(ms.push(m).skip(1) =~= Seq::<Method>::empty());
        assert(methods_encode(Seq::<Method>::empty(), cs, b, end, 0));
        assert(spec_method_list_end(cs, b, end, 0) == Ok::<int, DecodeError>(end));
    } else {
        let e = spec_method_end(cs, b, pos)->Ok_0;
        lemma_methods_encode_snoc(ms.skip(1), m, cs, b, e, n - 1, mid, end);
        assert(ms.push(m)[0] == ms[0]);
        assert(ms.push(m).skip(1) =~= ms.skip(1).push(m));
    }
}

/// Decodes the one field record at `pos`.
pub fn read_field(data: &Vec<u8>, pos: usize, constants: &Vec<ConstantType>) -> (r: Result<
    (Field, usize),
    DecodeError,
>)
    ensures
        (r matches Ok(v) ==> spec_field_end(constants@, data@, pos as int) == Ok::<
            int,
            DecodeError,
        >(v.1 as int) && field_encodes(v.0, constants@, data@, pos as int) && pos < v.1
            <= data.len()),
        (r matches Err(e) ==> spec_field_end(constants@, data@, pos as int) == Err::<
            int,
            DecodeError,
        >(e)),
{
    let (access_flags, p) = match read_u16(data, pos) {
        Ok(v) => v,
        Err(e) => {
            return Err(e);
        },
    };
    let (name_index, p) = match read_u16(data, p) {
        Ok(v) => v,
        Err(e) => {
            return Err(e);
        },
    };
    let (descriptor_index, p) = match read_u16(data, p) {
        Ok(v) => v,
        Err(e) => {
            return Err(e);
        },
    };
    let (attributes_count, p) = match read_u16(data, p) {
        Ok(v) => v,
        Err(e) => {
            return Err(e);
        },
    };
    let (attributes, end) = match read_attribute_list(data, p, attributes_count as usize, constants)
        {
        Ok(v) => v,
        Err(e) => {
            return Err(e);
        },
    };
    Ok((Field { access_flags, name_index, descriptor_index, attributes }, end))
}

/// Decodes the one method record at `pos`, resolving its name and descriptor
/// through the constant pool.
pub fn read_method(data: &Vec<u8>, pos: usize, constants: &Vec<ConstantType>) -> (r: Result<
    (Method, usize),
    DecodeError,
>)
    ensures
        (r matches Ok(v) ==> spec_method_end(constants@, data@, pos as int) == Ok::<
            int,
            DecodeError,
        >(v.1 as int) && method_encodes(v.0, constants@, data@, pos as int) && pos < v.1
            <= data.len()),
        (r matches Err(e) ==> spec_method_end(constants@, data@, pos as int) == Err::<
            int,
            DecodeError,
        >(e)),
{
    let (access_flags, p) = match read_u16(data, pos) {
        Ok(v) => v,
        Err(e) => {
            return Err(e);
        },
    };
    let (name_index, p) = match read_u16(data, p) {
        Ok(v) => v,
        Err(e) => {
            return Err(e);
        },
    };
    let (descriptor_index, p) = match read_u16(data, p) {
        Ok(v) => v,
        Err(e) => {
            return Err(e);
        },
    };
    let (attributes_count, p) = match read_u16(data, p) {
        Ok(v) => v,
        Err(e) => {
            return Err(e);
        },
    };
    if name_index < 1 || name_index as usize > constants.len() {
        return Err(DecodeError::Malformed);
    }
    let name = match &constants[(name_index - 1) as usize] {
        ConstantType::Utf8 { value } => crate::reader::copy_bytes(value),
        _ => {
            return Err(DecodeError::Malformed);
        },
    };
    if descriptor_index < 1 || descriptor_index as usize > constants.len() {
        return Err(DecodeError::Malformed);
    }
    let descriptor = match &constants[(descriptor_index - 1) as usize] {
        ConstantType::Utf8 { value } => crate::reader::copy_bytes(value),
        _ => {
            return Err(DecodeError::Malformed);
        },
    };
    let (attributes, end) = match read_attribute_list(data, p, attributes_count as usize, constants)
        {
        Ok(v) => v,
        Err(e) => {
            return Err(e);
        },
    };
    Ok((Method { access_flags, name, descriptor, attributes }, end))
}

/// Decodes a run of `n` field records starting at `pos`.
pub fn read_field_list(data: &Vec<u8>, pos: usize, n: usize, constants: &Vec<ConstantType>) -> (r:
    Result<(Vec<Field>, usize), DecodeError>)
    ensures
        (r matches Ok(v) ==> spec_field_list_end(constants@, data@, pos as int, n as int) == Ok::<
            int,
            DecodeError,
        >(v.1 as int) && fields_encode(v.0@, constants@, data@, pos as int, n as int) && v.0.len()
            == n && pos <= v.1 && (n > 0 ==> v.1 <= data.len()) && (n == 0 ==> v.1 == pos)),
        (r matches Err(e) ==> spec_field_list_end(constants@, data@, pos as int, n as int) == Err::<
            int,
            DecodeError,
        >(e)),
{
    let mut out: Vec<Field> = Vec::new();
    let mut cur: usize = pos;
    let mut i: usize = 0;
    while i < n
        invariant
            0 <= i <= n,
            pos <= cur,
            i == 0 ==> cur == pos,
            i > 0 ==> cur <= data.len(),
            out.len() == i,
            fields_encode(out@, constants@, data@, pos as int, i as int),
            spec_field_list_end(constants@, data@, pos as int, i as int) == Ok::<int, DecodeError>(
                cur as int,
            ),
            (spec_field_list_end(constants@, data@, cur as int, n - i) matches Ok(e)
                ==> spec_field_list_end(constants@, data@, pos as int, n as int) == Ok::<
                int,
                DecodeError,
            >(e)),
            (spec_field_list_end(constants@, data@, cur as int, n - i) matches Err(e)
                ==> spec_field_list_end(constants@, data@, pos as int, n as int) == Err::<
                int,
                DecodeError,
            >(e)),
        decreases n - i,
    {
        match read_field(data, cur, constants) {
            Ok((f, next)) => {
                proof {
                    lemma_fields_encode_snoc(
                        out@,
                        f,
                        constants@,
                        data@,
                        pos as int,
                        i as int,
                        cur as int,
                        next as int,
                    );
                }
                out.push(f);
                cur = next;
            },
            Err(e) => {
                return Err(e);
            },
        }
        i = i + 1;
    }
    Ok((out, cur))
}

/// Decodes a run of `n` method records starting at `pos`.
pub fn read_method_list(data: &Vec<u8>, pos: usize, n: usize, constants: &Vec<ConstantType>) -> (r:
    Result<(Vec<Method>, usize), DecodeError>)
    ensures
        (r matches Ok(v) ==> spec_method_list_end(constants@, data@, pos as int, n as int) == Ok::<
            int,
            DecodeError,
        >(v.1 as int) && methods_encode(v.0@, constants@, data@, pos as int, n as int) && v.0.len()
            == n && pos <= v.1 && (n > 0 ==> v.1 <= data.len()) && (n == 0 ==> v.1 == pos)),
        (r matches Err(e) ==> spec_method_list_end(constants@, data@, pos as int, n as int)
            == Err::<int, DecodeError>(e)),
{
    let mut out: Vec<Method> = Vec::new();
    let mut cur: usize = pos;
    let mut i: usize = 0;
    while i < n
        invariant
            0 <= i <= n,
            pos <= cur,
            i == 0 ==> cur == pos,
            i > 0 ==> cur <= data.len(),
            out.len() == i,
            methods_encode(out@, constants@, data@, pos as int, i as int),
            spec_method_list_end(constants@, data@, pos as int, i as int) == Ok::<int, DecodeError>(
                cur as int,
            ),
            (spec_method_list_end(constants@, data@, cur as int, n - i) matches Ok(e)
                ==> spec_method_list_end(constants@, data@, pos as int, n as int) == Ok::<
                int,
                DecodeError,
            >(e)),
            (spec_method_list_end(constants@, data@, cur as int, n - i) matches Err(e)
                ==> spec_method_list_end(constants@, data@, pos as int, n as int) == Err::<
                int,
                DecodeError,
            >(e)),
        decreases n - i,
    {
        match read_method(data, cur, constants) {
            Ok((m, next)) => {
                proof {
                    lemma_methods_encode_snoc(
                        out@,
                        m,
                        constants@,
                        data@,
                        pos as int,
                        i as int,
                        cur as int,
                        next as int,
                    );
                }
                out.push(m);
                cur = next;
            },
            Err(e) => {
                return Err(e);
            },
        }
        i = i + 1;
    }
    Ok((out, cur))
}

/// Where the header and the constant pool end: the four magic bytes, minor
/// and major version, the pool count `N`, and `N - 1` pool entries. A pool
/// count of zero cannot be decoded.
pub open spec fn spec_pool_end(b: Seq<u8>) -> Result<int, DecodeError> {
    if b.len() < 4 {
        Err(DecodeError::Incomplete(4))
    } else if !(b[0] == 0xcau8 && b[1] == 0xfeu8 && b[2] == 0xbau8 && b[3] == 0xbeu8) {
        Err(DecodeError::Malformed)
    } else if b.len() < 10 {
        Err(DecodeError::Incomplete(2))
    } else if be16(b, 8) == 0 {
        Err(DecodeError::Malformed)
    } else {
        spec_const_list_end(b, 10, be16(b, 8) - 1)
    }
}

/// Where the rest of the class file ends, given the end `p` of the constant
/// pool and the decoded pool `cs`: access flags, this and super indices,
/// interfaces, fields, methods, and class-level attributes.
pub open spec fn spec_rest_end(cs: Seq<ConstantType>, b: Seq<u8>, p: int) -> Result<
    int,
    DecodeError,
> {
    if p < 0 || p + 8 > b.len() {
        Err(DecodeError::Incomplete(2))
    } else if p + 8 + 2 * be16(b, p + 6) > b.len() {
        Err(DecodeError::Incomplete(2))
    } else {
        let q0 = p + 8 + 2 * be16(b, p + 6);
        if q0 + 2 > b.len() {
            Err(DecodeError::Incomplete(2))
        } else {
            match spec_field_list_end(cs, b, q0 + 2, be16(b, q0)) {
                Err(e) => Err(e),
                Ok(fe) => if fe + 2 > b.len() {
                    Err(DecodeError::Incomplete(2))
                } else {
                    match spec_method_list_end(cs, b, fe + 2, be16(b, fe)) {
                        Err(e) => Err(e),
                        Ok(me) => if me + 2 > b.len() {
                            Err(DecodeError::Incomplete(2))
                        } else {
                            spec_attr_list_end(cs, b, me + 2, be16(b, me))
                        },
                    }
                },
            }
        }
    }
}

/// `cf` is exactly the class file the bytes `b` encode, with the constant
/// pool ending at `p` and the whole structure ending at `end`.
pub open spec fn class_encodes(cf: ClassFile, b: Seq<u8>, p: int, end: int) -> bool {
    &&& spec_pool_end(b) == Ok::<int, DecodeError>(p)
    &&& cf.version == (be16(b, 6) as u16, be16(b, 4) as u16)
    &&& cf.constants.len() == be16(b, 8) - 1
    &&& consts_encode(cf.constants@, b, 10, p)
    &&& spec_rest_end(cf.constants@, b, p) == Ok::<int, DecodeError>(end)
    &&& p + 8 <= b.len()
    &&& cf.access_flags == be16(b, p)
    &&& cf.this_index == be16(b, p + 2)
    &&& cf.super_index == be16(b, p + 4)
    &&& cf.interfaces.len() == be16(b, p + 6)
    &&& forall|j: int|
        0 <= j < cf.interfaces@.len() ==> #[trigger] cf.interfaces@[j] == be16(b, p + 8 + 2 * j)
    &&& {
        let q0 = p + 8 + 2 * be16(b, p + 6);
        &&& q0 + 2 <= b.len()
        &&& cf.fields.len() == be16(b, q0)
        &&& fields_encode(cf.fields@, cf.constants@, b, q0 + 2, be16(b, q0))
        &&& spec_field_list_end(cf.constants@, b, q0 + 2, be16(b, q0)) matches Ok(fe) && {
            &&& fe + 2 <= b.len()
            &&& cf.methods.len() == be16(b, fe)
            &&& methods_encode(cf.methods@, cf.constants@, b, fe + 2, be16(b, fe))
            &&& spec_method_list_end(cf.constants@, b, fe + 2, be16(b, fe)) matches Ok(me) && {
                &&& me + 2 <= b.len()
                &&& cf.attributes.len() == be16(b, me)
                &&& attr_list_encodes(cf.attributes@, cf.constants@, b, me + 2, be16(b, me))
            }
        }
    }
}

/// Decodes a whole class file from `data`, returning it together with the
/// position just past the decoded structure.
#[verifier::loop_isolation(false)]
pub fn read_class_file(data: &Vec<u8>) -> (r: Result<(ClassFile, usize), DecodeError>)
    ensures
        (r matches Ok(v) ==> spec_pool_end(data@) matches Ok(p) && class_encodes(
            v.0,
            data@,
            p,
            v.1 as int,
        ) && v.1 <= data.len()),
        (r matches Err(e) ==> spec_pool_end(data@) == Err::<int, DecodeError>(e) || (spec_pool_end(
            data@,
        ) is Ok && exists|cs: Seq<ConstantType>|
            #[trigger] consts_encode(cs, data@, 10, spec_pool_end(data@)->Ok_0) && spec_rest_end(
                cs,
                data@,
                spec_pool_end(data@)->Ok_0,
            ) == Err::<int, DecodeError>(e))),
        (r matches Err(e) ==> forall|cf: ClassFile, p: int|
            !class_encodes(cf, data@, p, data@.len() as int)),
        (r matches Ok(v) ==> forall|cf: ClassFile, p: int|
            #[trigger] class_encodes(cf, data@, p, data@.len() as int) ==> v.1 == data.len()),
{
    if data.len() < 4 {
        return Err(DecodeError::Incomplete(4));
    }
    if !(data[0] == 0xca && data[1] == 0xfe && data[2] == 0xba && data[3] == 0xbe) {
        return Err(DecodeError::Malformed);
    }
    let (minor, p) = match read_u16(data, 4) {
        Ok(v) => v,
        Err(e) => {
            return Err(e);
        },
    };
    let (major, p) = match read_u16(data, p) {
        Ok(v) => v,
        Err(e) => {
            return Err(e);
        },
    };
    let (constants_length, p) = match read_u16(data, p) {
        Ok(v) => v,
        Err(e) => {
            return Err(e);
        },
    };
    if constants_length == 0 {
        return Err(DecodeError::Malformed);
    }
    let (constants, p) = match read_constant_list(data, p, (constants_length - 1) as usize) {
        Ok(v) => v,
        Err(e) => {
            return Err(e);
        },
    };
    let ghost pool_end: int = p as int;
    let (access_flags, p) = match read_u16(data, p) {
        Ok(v) => v,
        Err(e) => {
            proof {
                assert(spec_pool_end(data@) == Ok::<int, DecodeError>(pool_end));
                assert(consts_encode(constants@, data@, 10, spec_pool_end(data@)->Ok_0));
                assert(spec_rest_end(constants@, data@, spec_pool_end(data@)->Ok_0) == Err::<
                    int,
                    DecodeError,
                >(e));
                assert forall|cf2: ClassFile, p2: int|
                    !class_encodes(cf2, data@, p2, data@.len() as int) by {
                    if class_encodes(cf2, data@, p2, data@.len() as int) {
                        lemma_well_formed_fully_consumed(cf2, data@, p2, data@.len() as int);
                    }
                }
            }
            return Err(e);
        },
    };
    let (this_index, p) = match read_u16(data, p) {
        Ok(v) => v,
        Err(e) => {
            proof {
                assert(spec_pool_end(data@) == Ok::<int, DecodeError>(pool_end));
                assert(consts_encode(constants@, data@, 10, spec_pool_end(data@)->Ok_0));
                assert(spec_rest_end(constants@, data@, spec_pool_end(data@)->Ok_0) == Err::<
                    int,
                    DecodeError,
                >(e));
                assert forall|cf2: ClassFile, p2: int|
                    !class_encodes(cf2, data@, p2, data@.len() as int) by {
                    if class_encodes(cf2, data@, p2, data@.len() as int) {
                        lemma_well_formed_fully_consumed(cf2, data@, p2, data@.len() as int);
                    }
                }
            }
            return Err(e);
        },
    };
    let (super_index, p) = match read_u16(data, p) {
        Ok(v) => v,
        Err(e) => {
            proof {
                assert(spec_pool_end(data@) == Ok::<int, DecodeError>(pool_end));
                assert(consts_encode(constants@, data@, 10, spec_pool_end(data@)->Ok_0));
                assert(spec_rest_end(constants@, data@, spec_pool_end(data@)->Ok_0) == Err::<
                    int,
                    DecodeError,
                >(e));
                assert forall|cf2: ClassFile, p2: int|
                    !class_encodes(cf2, data@, p2, data@.len() as int) by {
                    if class_encodes(cf2, data@, p2, data@.len() as int) {
                        lemma_well_formed_fully_consumed(cf2, data@, p2, data@.len() as int);
                    }
                }
            }
            return Err(e);
        },
    };
    let (interfaces_count, p) = match read_u16(data, p) {
        Ok(v) => v,
        Err(e) => {
            proof {
                assert(spec_pool_end(data@) == Ok::<int, DecodeError>(pool_end));
                assert(consts_encode(constants@, data@, 10, spec_pool_end(data@)->Ok_0));
                assert(spec_rest_end(constants@, data@, spec_pool_end(data@)->Ok_0) == Err::<
                    int,
                    DecodeError,
                >(e));
                assert forall|cf2: ClassFile, p2: int|
                    !class_encodes(cf2, data@, p2, data@.len() as int) by {
                    if class_encodes(cf2, data@, p2, data@.len() as int) {
                        lemma_well_formed_fully_consumed(cf2, data@, p2, data@.len() as int);
                    }
                }
            }
            return Err(e);
        },
    };
    let mut interfaces: Vec<u16> = Vec::new();
    let mut k: usize = 0;
    let mut cur: usize = p;
    while k < interfaces_count as usize
        invariant
            0 <= k <= interfaces_count,
            cur == p + 2 * k,
            k > 0 ==> cur <= data.len(),
            interfaces.len() == k,
            forall|j: int|
                0 <= j < k ==> #[trigger] interfaces@[j] == be16(data@, p + 2 * j),
        decreases interfaces_count as usize - k,
    {
        match read_u16(data, cur) {
            Ok((v, next)) => {
                interfaces.push(v);
                cur = next;
            },
            Err(e) => {
                proof {
                    assert(spec_pool_end(data@) == Ok::<int, DecodeError>(pool_end));
                    assert(consts_encode(constants@, data@, 10, spec_pool_end(data@)->Ok_0));
                    assert(spec_rest_end(constants@, data@, spec_pool_end(data@)->Ok_0) == Err::<
                        int,
                        DecodeError,
                    >(e));
                    assert forall|cf2: ClassFile, p2: int|
                        !class_encodes(cf2, data@, p2, data@.len() as int) by {
                        if class_encodes(cf2, data@, p2, data@.len() as int) {
                            lemma_well_formed_fully_consumed(cf2, data@, p2, data@.len() as int);
                        }
                    }
                }
                return Err(e);
            },
        }
        k = k + 1;
    }
    let (fields_count, p2) = match read_u16(data, cur) {
        Ok(v) => v,
        Err(e) => {
            proof {
                assert(spec_pool_end(data@) == Ok::<int, DecodeError>(pool_end));
                assert(consts_encode(constants@, data@, 10, spec_pool_end(data@)->Ok_0));
                assert(spec_rest_end(constants@, data@, spec_pool_end(data@)->Ok_0) == Err::<
                    int,
                    DecodeError,
                >(e));
                assert forall|cf2: ClassFile, p2: int|
                    !class_encodes(cf2, data@, p2, data@.len() as int) by {
                    if class_encodes(cf2, data@, p2, data@.len() as int) {
                        lemma_well_formed_fully_consumed(cf2, data@, p2, data@.len() as int);
                    }
                }
            }
            return Err(e);
        },
    };
    let (fields, p3) = match read_field_list(data, p2, fields_count as usize, &constants) {
        Ok(v) => v,
        Err(e) => {
            proof {
                assert(spec_pool_end(data@) == Ok::<int, DecodeError>(pool_end));
                assert(consts_encode(constants@, data@, 10, spec_pool_end(data@)->Ok_0));
                assert(spec_rest_end(constants@, data@, spec_pool_end(data@)->Ok_0) == Err::<
                    int,
                    DecodeError,
                >(e));
                assert forall|cf2: ClassFile, p2: int|
                    !class_encodes(cf2, data@, p2, data@.len() as int) by {
                    if class_encodes(cf2, data@, p2, data@.len() as int) {
                        lemma_well_formed_fully_consumed(cf2, data@, p2, data@.len() as int);
                    }
                }
            }
            return Err(e);
        },
    };
    let (methods_count, p4) = match read_u16(data, p3) {
        Ok(v) => v,
        Err(e) => {
            proof {
                assert(spec_pool_end(data@) == Ok::<int, DecodeError>(pool_end));
                assert(consts_encode(constants@, data@, 10, spec_pool_end(data@)->Ok_0));
                assert(spec_rest_end(constants@, data@, spec_pool_end(data@)->Ok_0) == Err::<
                    int,
                    DecodeError,
                >(e));
                assert forall|cf2: ClassFile, p2: int|
                    !class_encodes(cf2, data@, p2, data@.len() as int) by {
                    if class_encodes(cf2, data@, p2, data@.len() as int) {
                        lemma_well_formed_fully_consumed(cf2, data@, p2, data@.len() as int);
                    }
                }
            }
            return Err(e);
        },
    };
    let (methods, p5) = match read_method_list(data, p4, methods_count as usize, &constants) {
        Ok(v) => v,
        Err(e) => {
            proof {
                assert(spec_pool_end(data@) == Ok::<int, DecodeError>(pool_end));
                assert(consts_encode(constants@, data@, 10, spec_pool_end(data@)->Ok_0));
                assert(spec_rest_end(constants@, data@, spec_pool_end(data@)->Ok_0) == Err::<
                    int,
                    DecodeError,
                >(e));
                assert forall|cf2: ClassFile, p2: int|
                    !class_encodes(cf2, data@, p2, data@.len() as int) by {
                    if class_encodes(cf2, data@, p2, data@.len() as int) {
                        lemma_well_formed_fully_consumed(cf2, data@, p2, data@.len() as int);
                    }
                }
            }
            return Err(e);
        },
    };
    let (attributes_count, p6) = match read_u16(data, p5) {
        Ok(v) => v,
        Err(e) => {
            proof {
                assert(spec_pool_end(data@) == Ok::<int, DecodeError>(pool_end));
                assert(consts_encode(constants@, data@, 10, spec_pool_end(data@)->Ok_0));
                assert(spec_rest_end(constants@, data@, spec_pool_end(data@)->Ok_0) == Err::<
                    int,
                    DecodeError,
                >(e));
                assert forall|cf2: ClassFile, p2: int|
                    !class_encodes(cf2, data@, p2, data@.len() as int) by {
                    if class_encodes(cf2, data@, p2, data@.len() as int) {
                        lemma_well_formed_fully_consumed(cf2, data@, p2, data@.len() as int);
                    }
                }
            }
            return Err(e);
        },
    };
    let (attributes, end) = match read_attribute_list(
        data,
        p6,
        attributes_count as usize,
        &constants,
    ) {
        Ok(v) => v,
        Err(e) => {
            proof {
                assert(spec_pool_end(data@) == Ok::<int, DecodeError>(pool_end));
                assert(consts_encode(constants@, data@, 10, spec_pool_end(data@)->Ok_0));
                assert(spec_rest_end(constants@, data@, spec_pool_end(data@)->Ok_0) == Err::<
                    int,
                    DecodeError,
                >(e));
                assert forall|cf2: ClassFile, p2: int|
                    !class_encodes(cf2, data@, p2, data@.len() as int) by {
                    if class_encodes(cf2, data@, p2, data@.len() as int) {
                        lemma_well_formed_fully_consumed(cf2, data@, p2, data@.len() as int);
                    }
                }
            }
            return Err(e);
        },
    };
    proof {
        assert forall|cf2: ClassFile, p2: int|
            #[trigger] class_encodes(cf2, data@, p2, data@.len() as int) implies end
            == data@.len() by {
            lemma_well_formed_fully_consumed(cf2, data@, p2, data@.len() as int);
            assert(consts_encode(constants@, data@, 10, p2));
        }
    }
    Ok(
        (
            ClassFile {
                version: (major, minor),
                constants,
                access_flags,
                this_index,
                super_index,
                interfaces,
                fields,
                methods,
                attributes,
            },
            end,
        ),
    )
}

/// Every decoded Utf8 constant holds valid UTF-8.
pub proof fn lemma_consts_utf8(cs: Seq<ConstantType>, b: Seq<u8>, pos: int, end: int)
    requires
        consts_encode(cs, b, pos, end),
    ensures
        forall|i: int|
            0 <= i < cs.len() ==> ((#[trigger] cs[i]) matches ConstantType::Utf8 { value }
                ==> is_utf8(value@)),
    decreases cs.len(),
{
    if cs.len() > 0 {
        let e = spec_const_end(b, pos)->Ok_0;
        lemma_consts_utf8(cs.skip(1), b, e, end);
        assert forall|i: int|
            0 <= i < cs.len() implies ((#[trigger] cs[i]) matches ConstantType::Utf8 { value }
            ==> is_utf8(value@)) by {
            if i > 0 {
                assert(cs.skip(1)[i - 1] == cs[i]);
            }
        }
    }
}

/// The name of a decoded class file, whenever its own name chain resolves,
/// is a valid UTF-8 string; a well-formed class file's name is non-empty
/// besides.
pub proof fn lemma_class_name_well_formed(cf: ClassFile, b: Seq<u8>, p: int, end: int)
    requires
        class_encodes(cf, b, p, end),
        spec_class_name(cf) is Some,
    ensures
        is_utf8(spec_class_name(cf)->0),
        crate::class_file::well_formed(cf) ==> spec_class_name(cf)->0.len() > 0,
{
    lemma_consts_utf8(cf.constants@, b, 10, p);
}

// ---------------------------------------------------------------------------
// Full consumption of well-formed input
// ---------------------------------------------------------------------------

/// Two pools agree wherever the later stages look: same length and the same
/// Utf8 entries at every position.
pub open spec fn pools_agree(cs1: Seq<ConstantType>, cs2: Seq<ConstantType>) -> bool {
    &&& cs1.len() == cs2.len()
    &&& forall|i: int| #[trigger] spec_utf8_at(cs1, i) == spec_utf8_at(cs2, i)
}

/// A decoded run of constants never moves backwards.
proof fn lemma_consts_encode_monotone(cs: Seq<ConstantType>, b: Seq<u8>, pos: int, end: int)
    requires
        consts_encode(cs, b, pos, end),
    ensures
        pos <= end,
    decreases cs.len(),
{
    if cs.len() > 0 {
        let e = spec_const_end(b, pos)->Ok_0;
        lemma_consts_encode_monotone(cs.skip(1), b, e, end);
    }
}

/// A decoded constant covers at least two bytes.
proof fn lemma_const_end_advances(b: Seq<u8>, pos: int)
    requires
        spec_const_end(b, pos) is Ok,
    ensures
        pos + 2 <= spec_const_end(b, pos)->Ok_0,
{
}

/// Two runs of constants decoded from the same byte range agree wherever the
/// later stages look.
proof fn lemma_consts_encode_agree(
    cs1: Seq<ConstantType>,
    cs2: Seq<ConstantType>,
    b: Seq<u8>,
    pos: int,
    end: int,
)
    requires
        consts_encode(cs1, b, pos, end),
        consts_encode(cs2, b, pos, end),
    ensures
        pools_agree(cs1, cs2),
    decreases cs1.len(),
{
    if cs1.len() == 0 {
        if cs2.len() > 0 {
            let e = spec_const_end(b, pos)->Ok_0;
            lemma_const_end_advances(b, pos);
            lemma_consts_encode_monotone(cs2.skip(1), b, e, end);
        }
        assert(cs2.len() == 0);
        assert forall|i: int| #[trigger] spec_utf8_at(cs1, i) == spec_utf8_at(cs2, i) by {}
    } else {
        if cs2.len() == 0 {
            let e = spec_const_end(b, pos)->Ok_0;
            lemma_const_end_advances(b, pos);
            lemma_consts_encode_monotone(cs1.skip(1), b, e, end);
        }
        assert(cs2.len() > 0);
        let e = spec_const_end(b, pos)->Ok_0;
        lemma_consts_encode_agree(cs1.skip(1), cs2.skip(1), b, e, end);
        assert forall|i: int| #[trigger] spec_utf8_at(cs1, i) == spec_utf8_at(cs2, i) by {
            if 1 <= i <= cs1.len() {
                if i == 1 {
                    assert(const_encodes(cs1[0], b, pos));
                    assert(const_encodes(cs2[0], b, pos));
                    match (cs1[0], cs2[0]) {
                        (
                            ConstantType::Utf8 { value: v1 },
                            ConstantType::Utf8 { value: v2 },
                        ) => {
                            assert(v1@ == v2@);
                        },
                        _ => {},
                    }
                } else {
                    assert(spec_utf8_at(cs1.skip(1), i - 1) == spec_utf8_at(cs2.skip(1), i - 1));
                    assert(cs1.skip(1)[i - 2] == cs1[i - 1]);
                    assert(cs2.skip(1)[i - 2] == cs2[i - 1]);
                }
            }
        }
    }
}

/// Attribute decoding looks at the pool only through its Utf8 entries.
proof fn lemma_attr_end_congruent(
    cs1: Seq<ConstantType>,
    cs2: Seq<ConstantType>,
    b: Seq<u8>,
    pos: int,
)
    requires
        pools_agree(cs1, cs2),
    ensures
        spec_attr_end(cs1, b, pos) == spec_attr_end(cs2, b, pos),
    decreases b.len() - pos, 0int, 0int,
{
    if pos >= 0 && pos + 2 <= b.len() {
        assert(spec_attr_name(cs1, b, pos) == spec_utf8_at(cs1, be16(b, pos)));
        assert(spec_attr_name(cs2, b, pos) == spec_utf8_at(cs2, be16(b, pos)));
        match spec_attr_name(cs1, b, pos) {
            None => {},
            Some(name) => if name == code_name() {
                if pos + 14 <= b.len() {
                    let cl = be32(b, pos + 10);
                    if pos + 14 + cl <= b.len() {
                        let p1 = pos + 14 + cl;
                        if p1 + 2 <= b.len() {
                            let exc = be16(b, p1);
                            if p1 + 2 + 8 * exc <= b.len() {
                                let p2 = p1 + 2 + 8 * exc;
                                if p2 + 2 <= b.len() {
                                    lemma_attr_list_end_congruent(
                                        cs1,
                                        cs2,
                                        b,
                                        p2 + 2,
                                        be16(b, p2),
                                    );
                                }
                            }
                        }
                    }
                }
            } else {
            },
        }
    }
}

/// As `lemma_attr_end_congruent`, for a counted run of attributes.
proof fn lemma_attr_list_end_congruent(
    cs1: Seq<ConstantType>,
    cs2: Seq<ConstantType>,
    b: Seq<u8>,
    pos: int,
    n: int,
)
    requires
        pools_agree(cs1, cs2),
    ensures
        spec_attr_list_end(cs1, b, pos, n) == spec_attr_list_end(cs2, b, pos, n),
    decreases b.len() - pos, n, 1int,
{
    if n > 0 {
        lemma_attr_end_congruent(cs1, cs2, b, pos);
        match spec_attr_end(cs1, b, pos) {
            Ok(e) => if pos < e <= b.len() {
                lemma_attr_list_end_congruent(cs1, cs2, b, e, n - 1);
            } else {
            },
            Err(_) => {},
        }
    }
}

/// As `lemma_attr_end_congruent`, for field and method records.
proof fn lemma_field_list_end_congruent(
    cs1: Seq<ConstantType>,
    cs2: Seq<ConstantType>,
    b: Seq<u8>,
    pos: int,
    n: int,
)
    requires
        pools_agree(cs1, cs2),
    ensures
        spec_field_list_end(cs1, b, pos, n) == spec_field_list_end(cs2, b, pos, n),
    decreases n,
{
    if n > 0 {
        if pos >= 0 && pos + 8 <= b.len() {
            lemma_attr_list_end_congruent(cs1, cs2, b, pos + 8, be16(b, pos + 6));
        }
        match spec_field_end(cs1, b, pos) {
            Ok(e) => {
                lemma_field_list_end_congruent(cs1, cs2, b, e, n - 1);
            },
            Err(_) => {},
        }
    }
}

proof fn lemma_method_list_end_congruent(
    cs1: Seq<ConstantType>,
    cs2: Seq<ConstantType>,
    b: Seq<u8>,
    pos: int,
    n: int,
)
    requires
        pools_agree(cs1, cs2),
    ensures
        spec_method_list_end(cs1, b, pos, n) == spec_method_list_end(cs2, b, pos, n),
    decreases n,
{
    if n > 0 {
        if pos >= 0 && pos + 8 <= b.len() {
            lemma_attr_list_end_congruent(cs1, cs2, b, pos + 8, be16(b, pos + 6));
        }
        match spec_method_end(cs1, b, pos) {
            Ok(e) => {
                lemma_method_list_end_congruent(cs1, cs2, b, e, n - 1);
            },
            Err(_) => {},
        }
    }
}

/// The later stages of the decoder depend on the pool only through its Utf8
/// entries.
proof fn lemma_rest_end_congruent(
    cs1: Seq<ConstantType>,
    cs2: Seq<ConstantType>,
    b: Seq<u8>,
    p: int,
)
    requires
        pools_agree(cs1, cs2),
    ensures
        spec_rest_end(cs1, b, p) == spec_rest_end(cs2, b, p),
{
    if p >= 0 && p + 8 <= b.len() && p + 8 + 2 * be16(b, p + 6) <= b.len() {
        let q0 = p + 8 + 2 * be16(b, p + 6);
        if q0 + 2 <= b.len() {
            lemma_field_list_end_congruent(cs1, cs2, b, q0 + 2, be16(b, q0));
            match spec_field_list_end(cs1, b, q0 + 2, be16(b, q0)) {
                Ok(fe) => if fe + 2 <= b.len() {
                    lemma_method_list_end_congruent(cs1, cs2, b, fe + 2, be16(b, fe));
                    match spec_method_list_end(cs1, b, fe + 2, be16(b, fe)) {
                        Ok(me) => if me + 2 <= b.len() {
                            lemma_attr_list_end_congruent(cs1, cs2, b, me + 2, be16(b, me));
                        } else {
                        },
                        Err(_) => {},
                    }
                } else {
                },
                Err(_) => {},
            }
        }
    }
}

/// A well-formed class file is fully consumed: when the bytes `b` encode a
/// class file that ends exactly at `b.len()`, the decoder's functional spec
/// forces success at that very position, whatever pool value stands in for
/// the decoded constants. Together with the decoder's contract this makes
/// `read_class_file(b)` return the class file and consume all of `b`.
pub proof fn lemma_well_formed_fully_consumed(cf: ClassFile, b: Seq<u8>, p: int, end: int)
    requires
        class_encodes(cf, b, p, end),
    ensures
        spec_pool_end(b) == Ok::<int, DecodeError>(p),
        forall|cs: Seq<ConstantType>|
            #[trigger] consts_encode(cs, b, 10, p) ==> spec_rest_end(cs, b, p) == Ok::<
                int,
                DecodeError,
            >(end),
{
    assert forall|cs: Seq<ConstantType>| #[trigger] consts_encode(cs, b, 10, p) implies
        spec_rest_end(cs, b, p) == Ok::<int, DecodeError>(end) by {
        lemma_consts_encode_agree(cf.constants@, cs, b, 10, p);
        lemma_rest_end_congruent(cf.constants@, cs, b, p);
    }
}

} // verus!
