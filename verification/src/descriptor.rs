//! Method-descriptor strings.
//!
//! The grammar is `( param-type* ) return-type`, where a type is `V` (void),
//! `I` (integer), `L<name>;` (object) or `[<type>` (array of the recursively
//! parsed element type). Parsing works on the raw descriptor bytes.

use vstd::prelude::*;
use crate::reader::DecodeError;

verus! {

/// The type of a value as the descriptor grammar distinguishes them.
#[derive(Debug, PartialEq, Eq)]
pub enum ValueType {
    Void,
    Integer,
    Object(Vec<u8>),
    Array(Box<ValueType>),
}

/// The parsed form of a method descriptor: its parameter types in order and
/// its return type.
#[derive(Debug, PartialEq, Eq)]
pub struct MethodDescriptor {
    pub return_type: ValueType,
    pub arguments: Vec<ValueType>,
}

/// `v` is exactly what the descriptor bytes `b[start..end]` denote.
pub open spec fn type_encodes(v: ValueType, b: Seq<u8>, start: int, end: int) -> bool
    decreases v,
{
    match v {
        ValueType::Void => 0 <= start && end == start + 1 && end <= b.len() && b[start] == 0x56u8,
        ValueType::Integer => 0 <= start && end == start + 1 && end <= b.len() && b[start]
            == 0x49u8,
        ValueType::Object(name) => 0 <= start && start + 2 <= end && end <= b.len() && b[start]
            == 0x4cu8 && b[end - 1] == 0x3bu8 && name@ == b.subrange(start + 1, end - 1) && (forall|
            i: int,
        |
            start + 1 <= i < end - 1 ==> b[i] != 0x3bu8),
        ValueType::Array(element) => 0 <= start && start + 1 <= end && b[start] == 0x5bu8
            && type_encodes(*element, b, start + 1, end),
    }
}

/// The arguments `vs` are exactly what the descriptor bytes `b[start..end]`
/// denote, one type after the other.
pub open spec fn types_encode(vs: Seq<ValueType>, b: Seq<u8>, start: int, end: int) -> bool
    decreases vs.len(),
{
    if vs.len() == 0 {
        end == start
    } else {
        exists|m: int| #[trigger] type_encodes(vs[0], b, start, m) && types_encode(
            vs.skip(1),
            b,
            m,
            end,
        )
    }
}

/// The position of the first `;` at or after `i`, if any.
pub open spec fn find_semi(b: Seq<u8>, i: int) -> Option<int>
    decreases b.len() - i,
{
    if i < 0 || i >= b.len() {
        None
    } else if b[i] == 0x3bu8 {
        Some(i)
    } else {
        find_semi(b, i + 1)
    }
}

/// Where a single type starting at `pos` ends, or why it cannot be parsed.
pub open spec fn spec_parse_type(b: Seq<u8>, pos: int) -> Result<int, DecodeError>
    decreases b.len() - pos,
{
    if pos < 0 || pos >= b.len() {
        Err(DecodeError::Incomplete(1))
    } else if b[pos] == 0x49u8 || b[pos] == 0x56u8 {
        Ok(pos + 1)
    } else if b[pos] == 0x4cu8 {
        match find_semi(b, pos + 1) {
            Some(j) => Ok(j + 1),
            None => Err(DecodeError::Incomplete(1)),
        }
    } else if b[pos] == 0x5bu8 {
        spec_parse_type(b, pos + 1)
    } else {
        Err(DecodeError::Malformed)
    }
}

/// Where the parameter list starting at `pos` (just after the opening
/// parenthesis) ends, one past its closing parenthesis, or why it cannot be
/// parsed.
pub open spec fn spec_param_tail(b: Seq<u8>, pos: int) -> Result<int, DecodeError>
    decreases b.len() - pos,
{
    if pos < 0 || pos >= b.len() {
        Err(DecodeError::Incomplete(1))
    } else if b[pos] == 0x29u8 {
        Ok(pos + 1)
    } else {
        match spec_parse_type(b, pos) {
            Ok(e) => if pos < e <= b.len() {
                spec_param_tail(b, e)
            } else {
                Err(DecodeError::Malformed)
            },
            Err(err) => Err(err),
        }
    }
}

/// A parsed type covers at least one byte and stays within the buffer.
pub proof fn lemma_spec_parse_type_bounds(b: Seq<u8>, pos: int)
    requires
        spec_parse_type(b, pos) is Ok,
    ensures
        pos < spec_parse_type(b, pos)->Ok_0 <= b.len(),
    decreases b.len() - pos,
{
    if 0 <= pos < b.len() {
        if b[pos] == 0x4cu8 {
            lemma_find_semi_bounds(b, pos + 1);
        } else if b[pos] == 0x5bu8 {
            lemma_spec_parse_type_bounds(b, pos + 1);
        }
    }
}

proof fn lemma_find_semi_bounds(b: Seq<u8>, i: int)
    requires
        find_semi(b, i) is Some,
    ensures
        i <= find_semi(b, i)->0 < b.len(),
        b[find_semi(b, i)->0] == 0x3bu8,
        forall|k: int| i <= k < find_semi(b, i)->0 ==> b[k] != 0x3bu8,
    decreases b.len() - i,
{
    if 0 <= i < b.len() && b[i] != 0x3bu8 {
        lemma_find_semi_bounds(b, i + 1);
    }
}

/// The mathematical shape of a `ValueType`: object names as sequences.
pub enum TypeModel {
    Void,
    Integer,
    Object(Seq<u8>),
    Array(Box<TypeModel>),
}

/// The shape of `v`, with every owned buffer replaced by its contents.
pub open spec fn type_model(v: ValueType) -> TypeModel
    decreases v,
{
    match v {
        ValueType::Void => TypeModel::Void,
        ValueType::Integer => TypeModel::Integer,
        ValueType::Object(name) => TypeModel::Object(name@),
        ValueType::Array(element) => TypeModel::Array(Box::new(type_model(*element))),
    }
}

/// Two parses of the same bytes from the same position agree.
pub proof fn lemma_type_encodes_unique(
    v1: ValueType,
    v2: ValueType,
    b: Seq<u8>,
    start: int,
    e1: int,
    e2: int,
)
    requires
        type_encodes(v1, b, start, e1),
        type_encodes(v2, b, start, e2),
    ensures
        type_model(v1) == type_model(v2),
        e1 == e2,
    decreases v1,
{
    match (v1, v2) {
        (ValueType::Object(n1), ValueType::Object(n2)) => {
            assert(e1 == e2) by {
                if e1 < e2 {
                    assert(b[e1 - 1] == 0x3bu8);
                } else if e2 < e1 {
                    assert(b[e2 - 1] == 0x3bu8);
                }
            }
            assert(n1@ =~= n2@);
        },
        (ValueType::Array(c1), ValueType::Array(c2)) => {
            lemma_type_encodes_unique(*c1, *c2, b, start + 1, e1, e2);
        },
        _ => {},
    }
}

/// Parses one type from `data` at `pos`: the parsed type and the position
/// just past it.
pub fn parse_type(data: &Vec<u8>, pos: usize) -> (r: Result<(ValueType, usize), DecodeError>)
    ensures
        (r matches Ok(v) ==> spec_parse_type(data@, pos as int) == Ok::<int, DecodeError>(
            v.1 as int,
        ) && type_encodes(v.0, data@, pos as int, v.1 as int) && pos < v.1 <= data.len()),
        (r matches Err(e) ==> spec_parse_type(data@, pos as int) == Err::<int, DecodeError>(e)),
    decreases data.len() - pos,
{
    if pos >= data.len() {
        return Err(DecodeError::Incomplete(1));
    }
    let c = data[pos];
    if c == 0x49 {
        Ok((ValueType::Integer, pos + 1))
    } else if c == 0x56 {
        Ok((ValueType::Void, pos + 1))
    } else if c == 0x4c {
        let mut j: usize = pos + 1;
        while j < data.len() && data[j] != 0x3b
            invariant
                pos + 1 <= j <= data.len(),
                forall|k: int| pos + 1 <= k < j ==> data@[k] != 0x3bu8,
            decreases data.len() - j,
        {
            j = j + 1;
        }
        if j >= data.len() {
            proof {
                assert(find_semi(data@, pos + 1) is None) by {
                    if find_semi(data@, pos + 1) is Some {
                        lemma_find_semi_bounds(data@, pos + 1);
                    }
                }
            }
            return Err(DecodeError::Incomplete(1));
        }
        let mut name: Vec<u8> = Vec::new();
        let mut i: usize = pos + 1;
        while i < j
            invariant
                pos + 1 <= i <= j <= data.len(),
                name@ == data@.subrange(pos + 1, i as int),
            decreases j - i,
        {
            name.push(data[i]);
            assert(name@ == data@.subrange(pos + 1, i + 1));
            i = i + 1;
        }
        proof {
            assert(find_semi(data@, pos + 1) == Some(j as int)) by {
                lemma_find_semi_found(data@, pos + 1, j as int);
            }
        }
        Ok((ValueType::Object(name), j + 1))
    } else if c == 0x5b {
        match parse_type(data, pos + 1) {
            Ok((element, end)) => Ok((ValueType::Array(Box::new(element)), end)),
            Err(e) => Err(e),
        }
    } else {
        Err(DecodeError::Malformed)
    }
}

proof fn lemma_find_semi_found(b: Seq<u8>, i: int, j: int)
    requires
        0 <= i <= j < b.len(),
        b[j] == 0x3bu8,
        forall|k: int| i <= k < j ==> b[k] != 0x3bu8,
    ensures
        find_semi(b, i) == Some(j),
    decreases j - i,
{
    if i < j {
        lemma_find_semi_found(b, i + 1, j);
    }
}

/// Parses the parenthesised parameter list at `pos`: the parameter types in
/// order and the position just past the closing parenthesis.
pub fn param_list(data: &Vec<u8>, pos: usize) -> (r: Result<(Vec<ValueType>, usize), DecodeError>)
    ensures
        (r matches Ok(v) ==> pos < data.len() && data@[pos as int] == 0x28u8 && spec_param_tail(
            data@,
            pos + 1,
        ) == Ok::<int, DecodeError>(v.1 as int) && types_encode(
            v.0@,
            data@,
            pos + 1,
            v.1 - 1,
        ) && data@[v.1 - 1] == 0x29u8 && pos < v.1 <= data.len()),
        (r matches Err(e) ==> if pos >= data.len() {
            e == DecodeError::Incomplete(1)
        } else if data@[pos as int] != 0x28u8 {
            e == DecodeError::Incomplete(2)
        } else {
            spec_param_tail(data@, pos + 1) == Err::<int, DecodeError>(e)
        }),
{
    if pos >= data.len() {
        return Err(DecodeError::Incomplete(1));
    }
    if data[pos] != 0x28 {
        return Err(DecodeError::Incomplete(2));
    }
    let mut vec: Vec<ValueType> = Vec::new();
    let mut cur: usize = pos + 1;
    loop
        invariant
            pos + 1 <= cur <= data.len(),
            pos < data.len(),
            data@[pos as int] == 0x28u8,
            types_encode(vec@, data@, pos + 1, cur as int),
            spec_param_tail(data@, pos + 1) == spec_param_tail(data@, cur as int),
        decreases data.len() - cur,
    {
        if cur >= data.len() {
            return Err(DecodeError::Incomplete(1));
        }
        if data[cur] == 0x29 {
            return Ok((vec, cur + 1));
        }
        match parse_type(data, cur) {
            Ok((typ, next)) => {
                proof {
                    lemma_types_encode_snoc(vec@, typ, data@, pos + 1, cur as int, next as int);
                }
                vec.push(typ);
                cur = next;
            },
            Err(err) => {
                return Err(err);
            },
        }
    }
}

/// Parses a whole method descriptor at `pos`: the parameter types, the
/// return type, and the position just past the descriptor.
pub fn method_desc(data: &Vec<u8>, pos: usize) -> (r: Result<(MethodDescriptor, usize), DecodeError>)
    ensures
        (r matches Ok(v) ==> pos < data.len() && data@[pos as int] == 0x28u8 && spec_param_tail(
            data@,
            pos + 1,
        ) is Ok && {
            let mid = spec_param_tail(data@, pos + 1)->Ok_0;
            &&& types_encode(v.0.arguments@, data@, pos + 1, mid - 1)
            &&& data@[mid - 1] == 0x29u8
            &&& spec_parse_type(data@, mid) == Ok::<int, DecodeError>(v.1 as int)
            &&& type_encodes(v.0.return_type, data@, mid, v.1 as int)
            &&& pos < v.1 <= data.len()
        }),
        (r matches Err(e) ==> if pos >= data.len() {
            e == DecodeError::Incomplete(1)
        } else if data@[pos as int] != 0x28u8 {
            e == DecodeError::Incomplete(2)
        } else if spec_param_tail(data@, pos + 1) is Err {
            e == spec_param_tail(data@, pos + 1)->Err_0
        } else {
            spec_parse_type(data@, spec_param_tail(data@, pos + 1)->Ok_0) == Err::<
                int,
                DecodeError,
            >(e)
        }),
{
    match param_list(data, pos) {
        Ok((arguments, mid)) => match parse_type(data, mid) {
            Ok((return_type, end)) => Ok((MethodDescriptor { return_type, arguments }, end)),
            Err(e) => Err(e),
        },
        Err(e) => Err(e),
    }
}

proof fn lemma_types_encode_snoc(
    vs: Seq<ValueType>,
    v: ValueType,
    b: Seq<u8>,
    start: int,
    mid: int,
    end: int,
)
    requires
        types_encode(vs, b, start, mid),
        type_encodes(v, b, mid, end),
    ensures
        types_encode(vs.push(v), b, start, end),
    decreases vs.len(),
{
    if vs.len() == 0 {
        assert(vs.push(v)[0] == v);
        assert(vs.push(v).skip(1) =~= Seq::<ValueType>::empty());
        assert(types_encode(vs.push(v).skip(1), b, end, end));
    } else {
        let m = choose|m: int| #[trigger] type_encodes(vs[0], b, start, m) && types_encode(
            vs.skip(1),
            b,
            m,
            mid,
        );
        lemma_types_encode_snoc(vs.skip(1), v, b, m, mid, end);
        assert(vs.push(v)[0] == vs[0]);
        assert(vs.push(v).skip(1) =~= vs.skip(1).push(v));
    }
}

/// Parses one type at `pos` into its mathematical shape.
pub open spec fn spec_type_at(b: Seq<u8>, pos: int) -> Option<(TypeModel, int)>
    decreases b.len() - pos,
{
    if pos < 0 || pos >= b.len() {
        None
    } else if b[pos] == 0x49u8 {
        Some((TypeModel::Integer, pos + 1))
    } else if b[pos] == 0x56u8 {
        Some((TypeModel::Void, pos + 1))
    } else if b[pos] == 0x4cu8 {
        match find_semi(b, pos + 1) {
            Some(j) => Some((TypeModel::Object(b.subrange(pos + 1, j)), j + 1)),
            None => None,
        }
    } else if b[pos] == 0x5bu8 {
        match spec_type_at(b, pos + 1) {
            Some((element, e)) => Some((TypeModel::Array(Box::new(element)), e)),
            None => None,
        }
    } else {
        None
    }
}

/// Parses the parameter-list tail at `pos` (just after the opening
/// parenthesis) into the shapes of the parameter types, together with the
/// position just past the closing parenthesis.
pub open spec fn spec_params_at(b: Seq<u8>, pos: int) -> Option<(Seq<TypeModel>, int)>
    decreases b.len() - pos,
{
    if pos < 0 || pos >= b.len() {
        None
    } else if b[pos] == 0x29u8 {
        Some((Seq::empty(), pos + 1))
    } else {
        match spec_type_at(b, pos) {
            Some((t, e)) => if pos < e <= b.len() {
                match spec_params_at(b, e) {
                    Some((ts, e2)) => Some((seq![t] + ts, e2)),
                    None => None,
                }
            } else {
                None
            },
            None => None,
        }
    }
}

/// The shapes of a whole method descriptor: its parameter types and its
/// return type.
pub open spec fn spec_descriptor(d: Seq<u8>) -> Option<(Seq<TypeModel>, TypeModel)> {
    if d.len() > 0 && d[0] == 0x28u8 {
        match spec_params_at(d, 1) {
            Some((ps, mid)) => match spec_type_at(d, mid) {
                Some((rt, _)) => Some((ps, rt)),
                None => None,
            },
            None => None,
        }
    } else {
        None
    }
}

/// A parsed type covers at least one byte.
pub proof fn lemma_type_encodes_advances(v: ValueType, b: Seq<u8>, start: int, end: int)
    requires
        type_encodes(v, b, start, end),
    ensures
        start < end <= b.len(),
    decreases v,
{
    match v {
        ValueType::Array(c) => {
            lemma_type_encodes_advances(*c, b, start + 1, end);
        },
        _ => {},
    }
}

/// A parsed type's shape is what the shape parser reads from the same bytes.
pub proof fn lemma_type_encodes_model(v: ValueType, b: Seq<u8>, start: int, end: int)
    requires
        type_encodes(v, b, start, end),
    ensures
        spec_type_at(b, start) == Some((type_model(v), end)),
    decreases v,
{
    match v {
        ValueType::Object(name) => {
            lemma_find_semi_found(b, start + 1, end - 1);
        },
        ValueType::Array(c) => {
            lemma_type_encodes_model(*c, b, start + 1, end);
        },
        _ => {},
    }
}

/// A parsed parameter list's shapes are what the shape parser reads from the
/// same bytes, up to the closing parenthesis.
pub proof fn lemma_types_encode_params(vs: Seq<ValueType>, b: Seq<u8>, start: int, end: int)
    requires
        types_encode(vs, b, start, end),
        0 <= end < b.len(),
        b[end] == 0x29u8,
    ensures
        spec_params_at(b, start) == Some(
            (vs.map_values(|v: ValueType| type_model(v)), end + 1),
        ),
    decreases vs.len(),
{
    if vs.len() == 0 {
        assert(vs.map_values(|v: ValueType| type_model(v)) =~= Seq::<TypeModel>::empty());
    } else {
        let m = choose|m: int| #[trigger] type_encodes(vs[0], b, start, m) && types_encode(
            vs.skip(1),
            b,
            m,
            end,
        );
        lemma_type_encodes_advances(vs[0], b, start, m);
        lemma_type_encodes_model(vs[0], b, start, m);
        lemma_types_encode_params(vs.skip(1), b, m, end);
        assert(vs.map_values(|v: ValueType| type_model(v)) =~= seq![type_model(vs[0])] + vs.skip(
            1,
        ).map_values(|v: ValueType| type_model(v)));
    }
}

/// A parsed method descriptor's shapes are what the shape parser reads from
/// the descriptor bytes.
pub proof fn lemma_method_desc_model(
    args: Seq<ValueType>,
    ret: ValueType,
    d: Seq<u8>,
    mid: int,
    end: int,
)
    requires
        d.len() > 0,
        d[0] == 0x28u8,
        types_encode(args, d, 1, mid - 1),
        1 <= mid <= d.len(),
        d[mid - 1] == 0x29u8,
        type_encodes(ret, d, mid, end),
    ensures
        spec_descriptor(d) == Some(
            (args.map_values(|v: ValueType| type_model(v)), type_model(ret)),
        ),
{
    lemma_types_encode_params(args, d, 1, mid - 1);
    lemma_type_encodes_model(ret, d, mid, end);
}

/// The shape parser and the position parser succeed on the same types.
pub proof fn lemma_type_at_matches_parse(b: Seq<u8>, pos: int)
    ensures
        spec_type_at(b, pos) is Some <==> spec_parse_type(b, pos) is Ok,
        spec_type_at(b, pos) matches Some(v) ==> spec_parse_type(b, pos) == Ok::<
            int,
            DecodeError,
        >(v.1),
    decreases b.len() - pos,
{
    if 0 <= pos < b.len() && b[pos] == 0x5bu8 {
        lemma_type_at_matches_parse(b, pos + 1);
    }
}

/// The shape parser and the position parser succeed on the same parameter
/// lists.
pub proof fn lemma_params_at_matches_tail(b: Seq<u8>, pos: int)
    ensures
        spec_params_at(b, pos) is Some <==> spec_param_tail(b, pos) is Ok,
        spec_params_at(b, pos) matches Some(v) ==> spec_param_tail(b, pos) == Ok::<
            int,
            DecodeError,
        >(v.1),
    decreases b.len() - pos,
{
    if 0 <= pos < b.len() && b[pos] != 0x29u8 {
        lemma_type_at_matches_parse(b, pos);
        if spec_parse_type(b, pos) is Ok {
            let e = spec_parse_type(b, pos)->Ok_0;
            if pos < e <= b.len() {
                lemma_params_at_matches_tail(b, e);
            }
        }
    }
}

/// A descriptor that does not parse has no shape either.
pub proof fn lemma_descriptor_none(d: Seq<u8>)
    requires
        !(d.len() > 0 && d[0] == 0x28u8 && spec_param_tail(d, 1) is Ok && spec_parse_type(
            d,
            spec_param_tail(d, 1)->Ok_0,
        ) is Ok),
    ensures
        spec_descriptor(d) is None,
{
    if d.len() > 0 && d[0] == 0x28u8 {
        lemma_params_at_matches_tail(d, 1);
        if spec_params_at(d, 1) is Some {
            let mid = (spec_params_at(d, 1)->0).1;
            lemma_type_at_matches_parse(d, mid);
        }
    }
}

} // verus!
