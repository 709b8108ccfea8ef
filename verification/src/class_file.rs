//! The decoded in-memory representation of a class file and the queries the
//! interpreter makes on it.
//!
//! The constant pool is a 1-indexed table of typed entries that reference
//! each other by index. The decoder does not enforce that those references
//! resolve; the interpreter reports a dangling or wrongly-typed reference as
//! an error at use-time.

use vstd::prelude::*;
use crate::descriptor::MethodDescriptor;
use crate::descriptor::spec_param_tail;
use crate::descriptor::spec_parse_type;
use crate::descriptor::type_encodes;
use crate::descriptor::types_encode;
use crate::descriptor::method_desc;
use crate::instructions::Instruction;
use crate::instructions::ReadInstructionError;
use crate::instructions::spec_read_all;

verus! {

/// One constant-pool entry. The `Float` and `Double` entries keep the raw
/// IEEE-754 bit patterns: the integer subset of the interpreter never reads
/// them as numbers.
#[derive(Debug, PartialEq, Eq)]
pub enum ConstantType {
    Utf8 { value: Vec<u8> },
    Integer { value: i32 },
    Float { bits: u32 },
    Long { value: i64 },
    Double { bits: u64 },
    Class { name_index: u16 },
    String { string_index: u16 },
    FieldRef { class_index: u16, name_and_type_index: u16 },
    MethodRef { class_index: u16, name_and_type_index: u16 },
    InterfaceMethodRef { class_index: u16, name_and_type_index: u16 },
    NameAndType { name_index: u16, descriptor_index: u16 },
    MethodHandle { reference_kind: u8, reference_index: u16 },
    MethodType { descriptor_index: u16 },
    InvokeDynamic { bootstrap_method_attr_index: u16, name_and_type_index: u16 },
    Module { name_index: u16 },
    Package { name_index: u16 },
}

/// A named attribute: recognized kinds are decoded, anything else is kept as
/// an opaque byte range together with its name.
#[derive(Debug, PartialEq, Eq)]
pub enum Attribute {
    LineNumberTable(Vec<(u16, u16)>),
    CodeAttribute(CodeBlock),
    GenericAttribute { name: Vec<u8>, info: Vec<u8> },
}

/// The body of a `Code` attribute: frame sizing, the raw code bytes, and the
/// nested attributes (a line-number table lives here).
#[derive(Debug, PartialEq, Eq)]
pub struct CodeBlock {
    pub max_stack: u16,
    pub max_locals: u16,
    pub code: Vec<u8>,
    pub attributes: Vec<Attribute>,
}

/// A field record: name and descriptor stay as constant-pool indices.
#[derive(Debug, PartialEq, Eq)]
pub struct Field {
    pub access_flags: u16,
    pub name_index: u16,
    pub descriptor_index: u16,
    pub attributes: Vec<Attribute>,
}

/// A method record: name and descriptor are resolved to their Utf8 bytes at
/// decode time.
#[derive(Debug, PartialEq, Eq)]
pub struct Method {
    pub access_flags: u16,
    pub name: Vec<u8>,
    pub descriptor: Vec<u8>,
    pub attributes: Vec<Attribute>,
}

/// One access-flag bit of a method.
#[derive(Debug, Clone, Copy, PartialEq, Eq, Hash)]
pub enum MethodAccess {
    Public,
    Private,
    Protected,
    Static,
    Final,
    Synchronized,
    Native,
    Abstract,
    Strict,
}

/// A decoded class file.
#[derive(Debug, PartialEq, Eq)]
pub struct ClassFile {
    pub version: (u16, u16),
    pub constants: Vec<ConstantType>,
    pub access_flags: u16,
    pub this_index: u16,
    pub super_index: u16,
    pub interfaces: Vec<u16>,
    pub fields: Vec<Field>,
    pub methods: Vec<Method>,
    pub attributes: Vec<Attribute>,
}

/// The constant stored at the 1-based position `index`, if any.
pub open spec fn spec_get_constant(cf: ClassFile, index: int) -> Option<ConstantType> {
    if 1 <= index <= cf.constants.len() {
        Some(cf.constants@[index - 1])
    } else {
        None
    }
}

/// The Utf8 bytes the chain `this_index` -> `Class` -> `Utf8` resolves to,
/// if every link holds.
pub open spec fn spec_class_name(cf: ClassFile) -> Option<Seq<u8>> {
    match spec_get_constant(cf, cf.this_index as int) {
        Some(ConstantType::Class { name_index }) => match spec_get_constant(
            cf,
            name_index as int,
        ) {
            Some(ConstantType::Utf8 { value }) => Some(value@),
            _ => None,
        },
        _ => None,
    }
}

/// The (name, descriptor) Utf8 pair the `NameAndType` entry at `nat_index`
/// resolves to, if every link holds.
pub open spec fn spec_nat_pair(cf: ClassFile, nat_index: int) -> Option<(Seq<u8>, Seq<u8>)> {
    match spec_get_constant(cf, nat_index) {
        Some(ConstantType::NameAndType { name_index, descriptor_index }) => match (
            spec_get_constant(cf, name_index as int),
            spec_get_constant(cf, descriptor_index as int),
        ) {
            (
                Some(ConstantType::Utf8 { value: n }),
                Some(ConstantType::Utf8 { value: d }),
            ) => Some((n@, d@)),
            _ => None,
        },
        _ => None,
    }
}

/// The first index at or after `i` of a method with the given name and
/// descriptor bytes.
pub open spec fn spec_find_method(
    methods: Seq<Method>,
    name: Seq<u8>,
    desc: Seq<u8>,
    i: int,
) -> Option<int>
    decreases methods.len() - i,
{
    if i < 0 || i >= methods.len() {
        None
    } else if methods[i].name@ == name && methods[i].descriptor@ == desc {
        Some(i)
    } else {
        spec_find_method(methods, name, desc, i + 1)
    }
}

/// The first `Code` attribute in `attrs`, if any.
pub open spec fn spec_first_code(attrs: Seq<Attribute>) -> Option<CodeBlock>
    decreases attrs.len(),
{
    if attrs.len() == 0 {
        None
    } else {
        match attrs[0] {
            Attribute::CodeAttribute(code) => Some(code),
            _ => spec_first_code(attrs.skip(1)),
        }
    }
}

/// The first line-number table in `attrs`, if any.
pub open spec fn spec_first_line_table(attrs: Seq<Attribute>) -> Option<Seq<(u16, u16)>>
    decreases attrs.len(),
{
    if attrs.len() == 0 {
        None
    } else {
        match attrs[0] {
            Attribute::LineNumberTable(t) => Some(t@),
            _ => spec_first_line_table(attrs.skip(1)),
        }
    }
}

/// The line number of the last entry whose start is at or before `x`.
pub open spec fn spec_last_line_at_or_before(t: Seq<(u16, u16)>, x: int) -> Option<u16>
    decreases t.len(),
{
    if t.len() == 0 {
        None
    } else if t.last().0 <= x {
        Some(t.last().1)
    } else {
        spec_last_line_at_or_before(t.drop_last(), x)
    }
}

/// Whether the method's flag word has the bit that `flag` stands for.
pub open spec fn spec_has_access(flags: u16, flag: MethodAccess) -> bool {
    match flag {
        MethodAccess::Public => flags & 0x0001 == 0x0001,
        MethodAccess::Private => flags & 0x0002 == 0x0002,
        MethodAccess::Protected => flags & 0x0004 == 0x0004,
        MethodAccess::Static => flags & 0x0008 == 0x0008,
        MethodAccess::Final => flags & 0x0010 == 0x0010,
        MethodAccess::Synchronized => flags & 0x0020 == 0x0020,
        MethodAccess::Native => flags & 0x0040 == 0x0040,
        MethodAccess::Abstract => flags & 0x0400 == 0x0400,
        MethodAccess::Strict => flags & 0x0080 == 0x0080,
    }
}

/// The access flags a method's flag word encodes, one entry per set bit, in
/// bit order.
pub open spec fn spec_access_list(flags: u16) -> Seq<MethodAccess> {
    (if flags & 0x0001 == 0x0001 {
        seq![MethodAccess::Public]
    } else {
        Seq::empty()
    }) + (if flags & 0x0002 == 0x0002 {
        seq![MethodAccess::Private]
    } else {
        Seq::empty()
    }) + (if flags & 0x0004 == 0x0004 {
        seq![MethodAccess::Protected]
    } else {
        Seq::empty()
    }) + (if flags & 0x0008 == 0x0008 {
        seq![MethodAccess::Static]
    } else {
        Seq::empty()
    }) + (if flags & 0x0010 == 0x0010 {
        seq![MethodAccess::Final]
    } else {
        Seq::empty()
    }) + (if flags & 0x0020 == 0x0020 {
        seq![MethodAccess::Synchronized]
    } else {
        Seq::empty()
    }) + (if flags & 0x0040 == 0x0040 {
        seq![MethodAccess::Native]
    } else {
        Seq::empty()
    }) + (if flags & 0x0080 == 0x0080 {
        seq![MethodAccess::Strict]
    } else {
        Seq::empty()
    }) + (if flags & 0x0400 == 0x0400 {
        seq![MethodAccess::Abstract]
    } else {
        Seq::empty()
    })
}

/// Membership in a concatenation is membership in either part.
proof fn lemma_concat_contains<T>(a: Seq<T>, b: Seq<T>, y: T)
    ensures
        (a + b).contains(y) == (a.contains(y) || b.contains(y)),
{
    if a.contains(y) {
        let i = choose|i: int| 0 <= i < a.len() && a[i] == y;
        assert((a + b)[i] == y);
    }
    if b.contains(y) {
        let i = choose|i: int| 0 <= i < b.len() && b[i] == y;
        assert((a + b)[a.len() + i] == y);
    }
    if (a + b).contains(y) {
        let i = choose|i: int| 0 <= i < (a + b).len() && (a + b)[i] == y;
        if i < a.len() {
            assert(a[i] == y);
        } else {
            assert(b[i - a.len()] == y);
        }
    }
}

/// A conditional one-flag piece of the access list holds `flag` exactly when
/// the condition holds of `flag`'s own bit.
proof fn lemma_piece_contains(cond: bool, x: MethodAccess, y: MethodAccess)
    ensures
        (if cond {
            seq![x]
        } else {
            Seq::<MethodAccess>::empty()
        }).contains(y) == (cond && x == y),
{
    if cond {
        assert(seq![x][0] == x);
        if seq![x].contains(y) {
            let i = choose|i: int| 0 <= i < seq![x].len() && seq![x][i] == y;
            assert(i == 0);
        }
        if x == y {
            assert(seq![x][0] == y);
        }
    } else {
        if Seq::<MethodAccess>::empty().contains(y) {
            let i = choose|i: int|
                0 <= i < Seq::<MethodAccess>::empty().len() && Seq::<MethodAccess>::empty()[i]
                    == y;
        }
    }
}

/// The list of flags holds exactly those the flag word has set.
#[verifier::rlimit(30)]
pub proof fn lemma_access_list_contains(flags: u16, flag: MethodAccess)
    ensures
        spec_access_list(flags).contains(flag) == spec_has_access(flags, flag),
{
    let p1 = if flags & 0x0001 == 0x0001 {
        seq![MethodAccess::Public]
    } else {
        Seq::<MethodAccess>::empty()
    };
    let p2 = if flags & 0x0002 == 0x0002 {
        seq![MethodAccess::Private]
    } else {
        Seq::<MethodAccess>::empty()
    };
    let p3 = if flags & 0x0004 == 0x0004 {
        seq![MethodAccess::Protected]
    } else {
        Seq::<MethodAccess>::empty()
    };
    let p4 = if flags & 0x0008 == 0x0008 {
        seq![MethodAccess::Static]
    } else {
        Seq::<MethodAccess>::empty()
    };
    let p5 = if flags & 0x0010 == 0x0010 {
        seq![MethodAccess::Final]
    } else {
        Seq::<MethodAccess>::empty()
    };
    let p6 = if flags & 0x0020 == 0x0020 {
        seq![MethodAccess::Synchronized]
    } else {
        Seq::<MethodAccess>::empty()
    };
    let p7 = if flags & 0x0040 == 0x0040 {
        seq![MethodAccess::Native]
    } else {
        Seq::<MethodAccess>::empty()
    };
    let p8 = if flags & 0x0080 == 0x0080 {
        seq![MethodAccess::Strict]
    } else {
        Seq::<MethodAccess>::empty()
    };
    let p9 = if flags & 0x0400 == 0x0400 {
        seq![MethodAccess::Abstract]
    } else {
        Seq::<MethodAccess>::empty()
    };
    lemma_concat_contains(p1 + p2 + p3 + p4 + p5 + p6 + p7 + p8, p9, flag);
    lemma_concat_contains(p1 + p2 + p3 + p4 + p5 + p6 + p7, p8, flag);
    lemma_concat_contains(p1 + p2 + p3 + p4 + p5 + p6, p7, flag);
    lemma_concat_contains(p1 + p2 + p3 + p4 + p5, p6, flag);
    lemma_concat_contains(p1 + p2 + p3 + p4, p5, flag);
    lemma_concat_contains(p1 + p2 + p3, p4, flag);
    lemma_concat_contains(p1 + p2, p3, flag);
    lemma_concat_contains(p1, p2, flag);
    lemma_piece_contains(flags & 0x0001 == 0x0001, MethodAccess::Public, flag);
    lemma_piece_contains(flags & 0x0002 == 0x0002, MethodAccess::Private, flag);
    lemma_piece_contains(flags & 0x0004 == 0x0004, MethodAccess::Protected, flag);
    lemma_piece_contains(flags & 0x0008 == 0x0008, MethodAccess::Static, flag);
    lemma_piece_contains(flags & 0x0010 == 0x0010, MethodAccess::Final, flag);
    lemma_piece_contains(flags & 0x0020 == 0x0020, MethodAccess::Synchronized, flag);
    lemma_piece_contains(flags & 0x0040 == 0x0040, MethodAccess::Native, flag);
    lemma_piece_contains(flags & 0x0080 == 0x0080, MethodAccess::Strict, flag);
    lemma_piece_contains(flags & 0x0400 == 0x0400, MethodAccess::Abstract, flag);
}

/// The descriptor bytes form a complete method descriptor.
pub open spec fn desc_parses(d: Seq<u8>) -> bool {
    &&& d.len() > 0
    &&& d[0] == 0x28u8
    &&& spec_param_tail(d, 1) is Ok
    &&& spec_parse_type(d, spec_param_tail(d, 1)->Ok_0) is Ok
}

impl ClassFile {
    /// The constant stored at the 1-based position `index`, or none when the
    /// index is out of range (index 0 is reserved by the format).
    pub fn get_constant(&self, index: u16) -> (r: Option<&ConstantType>)
        ensures
            (r matches Some(c) ==> spec_get_constant(*self, index as int) == Some(*c)),
            (r is None ==> spec_get_constant(*self, index as int) is None),
    {
        if index >= 1 && (index as usize) <= self.constants.len() {
            Some(&self.constants[(index - 1) as usize])
        } else {
            None
        }
    }

    /// The name of this class: what the `this_index` chain resolves to.
    pub fn get_class_name(&self) -> (r: &Vec<u8>)
        requires
            spec_class_name(*self) is Some,
        ensures
            r@ == spec_class_name(*self)->0,
    {
        let cls = self.get_constant(self.this_index);
        let name_idx = match cls {
            Some(ConstantType::Class { name_index }) => *name_index,
            _ => unreached(),
        };
        match self.get_constant(name_idx) {
            Some(ConstantType::Utf8 { value }) => value,
            _ => unreached(),
        }
    }

    /// Resolves the `NameAndType` entry at `nat_index` and linearly searches
    /// this class's methods for the one with that name and descriptor.
    pub fn get_method_from_nat(&self, nat_index: u16) -> (r: Option<&Method>)
        ensures
            (r matches Some(m) ==> spec_nat_pair(*self, nat_index as int) matches Some(pair)
                && spec_find_method(self.methods@, pair.0, pair.1, 0) matches Some(i) && *m
                == self.methods@[i]),
            (r is None ==> spec_nat_pair(*self, nat_index as int) is None || (
            spec_nat_pair(*self, nat_index as int) matches Some(pair) && spec_find_method(
                self.methods@,
                pair.0,
                pair.1,
                0,
            ) is None)),
    {
        match self.get_method_index_from_nat(nat_index) {
            Some(i) => Some(&self.methods[i]),
            None => None,
        }
    }

    /// As `get_method_from_nat`, but giving the position of the found method
    /// in this class's method list.
    pub fn get_method_index_from_nat(&self, nat_index: u16) -> (r: Option<usize>)
        ensures
            (r matches Some(i) ==> spec_nat_pair(*self, nat_index as int) matches Some(pair)
                && spec_find_method(self.methods@, pair.0, pair.1, 0) == Some(i as int) && i
                < self.methods.len()),
            (r is None ==> spec_nat_pair(*self, nat_index as int) is None || (
            spec_nat_pair(*self, nat_index as int) matches Some(pair) && spec_find_method(
                self.methods@,
                pair.0,
                pair.1,
                0,
            ) is None)),
    {
        let (name_index, type_index) = match self.get_constant(nat_index) {
            Some(ConstantType::NameAndType { name_index, descriptor_index }) => (
                *name_index,
                *descriptor_index,
            ),
            _ => {
                return None;
            },
        };
        let name = match self.get_constant(name_index) {
            Some(ConstantType::Utf8 { value }) => value,
            _ => {
                return None;
            },
        };
        let type_desc = match self.get_constant(type_index) {
            Some(ConstantType::Utf8 { value }) => value,
            _ => {
                return None;
            },
        };
        let mut i: usize = 0;
        while i < self.methods.len()
            invariant
                0 <= i <= self.methods.len(),
                spec_nat_pair(*self, nat_index as int) == Some((name@, type_desc@)),
                spec_find_method(self.methods@, name@, type_desc@, 0) == spec_find_method(
                    self.methods@,
                    name@,
                    type_desc@,
                    i as int,
                ),
            decreases self.methods.len() - i,
        {
            let m = &self.methods[i];
            if crate::reader::bytes_eq(&m.name, name) && crate::reader::bytes_eq(
                &m.descriptor,
                type_desc,
            ) {
                return Some(i);
            }
            i = i + 1;
        }
        None
    }
}

impl Method {
    /// The first `Code` attribute of this method, whose body it supplies.
    pub fn get_code(&self) -> (r: Option<&CodeBlock>)
        ensures
            (r matches Some(c) ==> spec_first_code(self.attributes@) == Some(*c)),
            (r is None ==> spec_first_code(self.attributes@) is None),
    {
        proof {
            assert(self.attributes@.skip(0) =~= self.attributes@);
        }
        let mut i: usize = 0;
        while i < self.attributes.len()
            invariant
                0 <= i <= self.attributes.len(),
                spec_first_code(self.attributes@) == spec_first_code(
                    self.attributes@.skip(i as int),
                ),
            decreases self.attributes.len() - i,
        {
            proof {
                assert(self.attributes@.skip(i as int).skip(1) =~= self.attributes@.skip(
                    i + 1,
                ));
                assert(self.attributes@.skip(i as int)[0] == self.attributes@[i as int]);
            }
            match &self.attributes[i] {
                Attribute::CodeAttribute(code) => {
                    return Some(code);
                },
                _ => {},
            }
            i = i + 1;
        }
        None
    }

    /// Parses this method's descriptor into its parameter and return types.
    pub fn get_signature(&self) -> (r: MethodDescriptor)
        requires
            desc_parses(self.descriptor@),
        ensures
            types_encode(
                r.arguments@,
                self.descriptor@,
                1,
                spec_param_tail(self.descriptor@, 1)->Ok_0 - 1,
            ),
            type_encodes(
                r.return_type,
                self.descriptor@,
                spec_param_tail(self.descriptor@, 1)->Ok_0,
                spec_parse_type(self.descriptor@, spec_param_tail(self.descriptor@, 1)->Ok_0)->Ok_0,
            ),
    {
        match method_desc(&self.descriptor, 0) {
            Ok((desc, _)) => desc,
            Err(_) => unreached(),
        }
    }

    /// The set of access flags this method's flag word encodes, one entry
    /// per set bit, in bit order.
    #[verifier::rlimit(60)]
    pub fn get_access(&self) -> (r: Vec<MethodAccess>)
        ensures
            r@ == spec_access_list(self.access_flags),
    {
        let mut set: Vec<MethodAccess> = Vec::new();
        let ghost mut partial: Seq<MethodAccess> = Seq::empty();
        proof {
            assert(set@ =~= partial);
        }
        if self.access_flags & 0x0001 == 0x0001 {
            set.push(MethodAccess::Public);
        }
        proof {
            partial = partial + (if self.access_flags & 0x0001 == 0x0001 {
                seq![MethodAccess::Public]
            } else {
                Seq::empty()
            });
            assert(set@ =~= partial);
        }
        if self.access_flags & 0x0002 == 0x0002 {
            set.push(MethodAccess::Private);
        }
        proof {
            partial = partial + (if self.access_flags & 0x0002 == 0x0002 {
                seq![MethodAccess::Private]
            } else {
                Seq::empty()
            });
            assert(set@ =~= partial);
        }
        if self.access_flags & 0x0004 == 0x0004 {
            set.push(MethodAccess::Protected);
        }
        proof {
            partial = partial + (if self.access_flags & 0x0004 == 0x0004 {
                seq![MethodAccess::Protected]
            } else {
                Seq::empty()
            });
            assert(set@ =~= partial);
        }
        if self.access_flags & 0x0008 == 0x0008 {
            set.push(MethodAccess::Static);
        }
        proof {
            partial = partial + (if self.access_flags & 0x0008 == 0x0008 {
                seq![MethodAccess::Static]
            } else {
                Seq::empty()
            });
            assert(set@ =~= partial);
        }
        if self.access_flags & 0x0010 == 0x0010 {
            set.push(MethodAccess::Final);
        }
        proof {
            partial = partial + (if self.access_flags & 0x0010 == 0x0010 {
                seq![MethodAccess::Final]
            } else {
                Seq::empty()
            });
            assert(set@ =~= partial);
        }
        if self.access_flags & 0x0020 == 0x0020 {
            set.push(MethodAccess::Synchronized);
        }
        proof {
            partial = partial + (if self.access_flags & 0x0020 == 0x0020 {
                seq![MethodAccess::Synchronized]
            } else {
                Seq::empty()
            });
            assert(set@ =~= partial);
        }
        if self.access_flags & 0x0040 == 0x0040 {
            set.push(MethodAccess::Native);
        }
        proof {
            partial = partial + (if self.access_flags & 0x0040 == 0x0040 {
                seq![MethodAccess::Native]
            } else {
                Seq::empty()
            });
            assert(set@ =~= partial);
        }
        if self.access_flags & 0x0080 == 0x0080 {
            set.push(MethodAccess::Strict);
        }
        proof {
            partial = partial + (if self.access_flags & 0x0080 == 0x0080 {
                seq![MethodAccess::Strict]
            } else {
                Seq::empty()
            });
            assert(set@ =~= partial);
        }
        if self.access_flags & 0x0400 == 0x0400 {
            set.push(MethodAccess::Abstract);
        }
        proof {
            partial = partial + (if self.access_flags & 0x0400 == 0x0400 {
                seq![MethodAccess::Abstract]
            } else {
                Seq::empty()
            });
            assert(set@ =~= partial);
        }
        proof {
            assert(set@ == spec_access_list(self.access_flags));
        }
        set
    }
}

impl CodeBlock {
    /// Decodes this block's code bytes into instructions.
    pub fn instructions(&self) -> (r: Result<Vec<Instruction>, ReadInstructionError>)
        ensures
            (r matches Ok(v) ==> spec_read_all(self.code@, 0) == Ok::<
                Seq<Instruction>,
                ReadInstructionError,
            >(v@)),
            (r matches Err(e) ==> spec_read_all(self.code@, 0) == Err::<
                Seq<Instruction>,
                ReadInstructionError,
            >(e)),
    {
        Instruction::read_all(&self.code)
    }

    /// The pc-to-line mapping the first line-number table denotes: entry `x`
    /// is the line of the last table entry whose start pc is at or before
    /// `x`, up to the start pc of the table's last entry.
    pub fn get_line_numbers(&self) -> (r: Vec<usize>)
        requires
            spec_first_line_table(self.attributes@) matches Some(t) ==> t.len() > 0 && exists|
                i: int,
            | 0 <= i < t.len() && t[i].0 == 0,
        ensures
            (spec_first_line_table(self.attributes@) is None ==> r.len() == 0),
            (spec_first_line_table(self.attributes@) matches Some(t) ==> r.len() == t.last().0
                + 1 && (forall|x: int|
                0 <= x < r.len() ==> (#[trigger] spec_last_line_at_or_before(t, x)) is Some)
                && (forall|x: int|
                0 <= x < r.len() ==> #[trigger] r@[x] == spec_last_line_at_or_before(t, x)->0
                    as usize)),
    {
        proof {
            assert(self.attributes@.skip(0) =~= self.attributes@);
        }
        let mut found: Option<&Vec<(u16, u16)>> = None;
        let mut i: usize = 0;
        while i < self.attributes.len()
            invariant
                0 <= i <= self.attributes.len(),
                found is None ==> spec_first_line_table(self.attributes@)
                    == spec_first_line_table(self.attributes@.skip(i as int)),
                (found matches Some(t) ==> spec_first_line_table(self.attributes@) == Some(t@)),
            decreases self.attributes.len() - i,
        {
            if found.is_none() {
                proof {
                    assert(self.attributes@.skip(i as int).skip(1) =~= self.attributes@.skip(
                        i + 1,
                    ));
                    assert(self.attributes@.skip(i as int)[0] == self.attributes@[i as int]);
                }
                match &self.attributes[i] {
                    Attribute::LineNumberTable(t) => {
                        found = Some(t);
                    },
                    _ => {},
                }
            }
            i = i + 1;
        }
        let table = match found {
            Some(t) => t,
            None => {
                return Vec::new();
            },
        };
        let max = table[table.len() - 1].0;
        let mut numbers: Vec<usize> = Vec::new();
        let mut x: usize = 0;
        while x < max as usize + 1
            invariant
                spec_first_line_table(self.attributes@) == Some(table@),
                table.len() > 0,
                exists|i: int| 0 <= i < table@.len() && table@[i].0 == 0,
                max == table@.last().0,
                0 <= x <= max + 1,
                numbers.len() == x,
                forall|y: int|
                    0 <= y < x ==> (#[trigger] spec_last_line_at_or_before(table@, y)) is Some,
                forall|y: int|
                    0 <= y < x ==> #[trigger] numbers@[y] == spec_last_line_at_or_before(
                        table@,
                        y,
                    )->0 as usize,
            decreases max + 1 - x,
        {
            proof {
                let i = choose|i: int| 0 <= i < table@.len() && table@[i].0 == 0;
                lemma_line_lookup_some(table@, x as int, i);
            }
            let ln = lookup_line(table, x as u16);
            match ln {
                Some(l) => {
                    numbers.push(l as usize);
                    proof {
                        assert(numbers@[x as int] == l as usize);
                        assert(spec_last_line_at_or_before(table@, x as int) == Some(l));
                    }
                },
                None => unreached(),
            }
            x = x + 1;
        }
        numbers
    }
}

/// The line of the last entry of `table` whose start pc is at or before `x`.
fn lookup_line(table: &Vec<(u16, u16)>, x: u16) -> (r: Option<u16>)
    ensures
        r == spec_last_line_at_or_before(table@, x as int),
{
    proof {
        assert(table@.subrange(0, table.len() as int) =~= table@);
    }
    let mut j: usize = table.len();
    while j > 0
        invariant
            0 <= j <= table.len(),
            spec_last_line_at_or_before(table@, x as int) == spec_last_line_at_or_before(
                table@.subrange(0, j as int),
                x as int,
            ),
        decreases j,
    {
        proof {
            assert(table@.subrange(0, j as int).drop_last() =~= table@.subrange(0, j - 1));
            assert(table@.subrange(0, j as int).last() == table@[j - 1]);
        }
        if table[j - 1].0 <= x {
            return Some(table[j - 1].1);
        }
        j = j - 1;
    }
    proof {
        assert(table@.subrange(0, 0) =~= Seq::<(u16, u16)>::empty());
    }
    None
}

/// An entry with start pc at or before `x` guarantees the lookup finds one.
proof fn lemma_line_lookup_some(t: Seq<(u16, u16)>, x: int, i: int)
    requires
        0 <= i < t.len(),
        t[i].0 <= x,
    ensures
        spec_last_line_at_or_before(t, x) is Some,
    decreases t.len(),
{
    if t.len() > 0 && t.last().0 > x {
        assert(i < t.len() - 1);
        lemma_line_lookup_some(t.drop_last(), x, i);
    }
}

/// The two indices a field, method or interface-method reference carries,
/// if `c` is one.
pub open spec fn ref_target(c: ConstantType) -> Option<(u16, u16)> {
    match c {
        ConstantType::FieldRef { class_index, name_and_type_index } => Some(
            (class_index, name_and_type_index),
        ),
        ConstantType::MethodRef { class_index, name_and_type_index } => Some(
            (class_index, name_and_type_index),
        ),
        ConstantType::InterfaceMethodRef { class_index, name_and_type_index } => Some(
            (class_index, name_and_type_index),
        ),
        _ => None,
    }
}

/// The class index points at a `Class` entry whose name index points at a
/// Utf8 entry, and the name-and-type index points at a `NameAndType` entry
/// both of whose indices point at Utf8 entries.
pub open spec fn ref_chain_ok(cf: ClassFile, ci: u16, ni: u16) -> bool {
    &&& (spec_get_constant(cf, ci as int) matches Some(cls) && cls matches ConstantType::Class {
        name_index,
    } && spec_get_constant(cf, name_index as int) matches Some(n) && n matches
        ConstantType::Utf8 { .. })
    &&& (spec_get_constant(cf, ni as int) matches Some(nat_entry) && nat_entry matches
        ConstantType::NameAndType { name_index, descriptor_index } && spec_get_constant(
        cf,
        name_index as int,
    ) matches Some(nm) && nm matches ConstantType::Utf8 { .. } && spec_get_constant(
        cf,
        descriptor_index as int,
    ) matches Some(d) && d matches ConstantType::Utf8 { .. })
}

/// Every field, method and interface-method reference in the pool resolves:
/// its class index through a `Class` entry to a Utf8 name, and its
/// name-and-type index to a `NameAndType` entry whose two indices both
/// resolve to Utf8 entries.
pub open spec fn refs_resolved(cf: ClassFile) -> bool {
    forall|i: int|
        0 <= i < cf.constants@.len() && ref_target(#[trigger] cf.constants@[i]) is Some
            ==> ref_chain_ok(
            cf,
            (ref_target(cf.constants@[i])->0).0,
            (ref_target(cf.constants@[i])->0).1,
        )
}

/// A class file is well-formed when its references resolve and its own name
/// resolves to a non-empty string.
pub open spec fn well_formed(cf: ClassFile) -> bool {
    &&& refs_resolved(cf)
    &&& spec_class_name(cf) matches Some(n) && n.len() > 0
}

/// In a class file whose references resolve, every reference's class index
/// yields a class name and its name-and-type index yields a name and
/// descriptor pair, through the same resolution functions the interpreter
/// uses.
pub proof fn lemma_refs_resolve(cf: ClassFile, i: int)
    requires
        refs_resolved(cf),
        0 <= i < cf.constants@.len(),
        ref_target(cf.constants@[i]) is Some,
    ensures
        ({
            let ci = (ref_target(cf.constants@[i])->0).0;
            let ni = (ref_target(cf.constants@[i])->0).1;
            &&& (spec_get_constant(cf, ci as int) matches Some(cls) && cls matches
                ConstantType::Class { name_index } && spec_get_constant(cf, name_index as int)
                matches Some(nm) && nm matches ConstantType::Utf8 { .. })
            &&& spec_nat_pair(cf, ni as int) is Some
        }),
{
    assert(ref_chain_ok(
        cf,
        (ref_target(cf.constants@[i])->0).0,
        (ref_target(cf.constants@[i])->0).1,
    ));
}

} // verus!
