//! The bytecode interpreter.
//!
//! A runtime holds the loaded classes; running a method builds a frame from
//! the method's declared sizes, then dispatches the decoded instructions one
//! by one. Static invocations of methods of the same class recurse. Since
//! branches may loop forever, every run carries an explicit step budget and
//! reports a generic error when it is spent.

use vstd::prelude::*;
use vstd::string::StringExecFns;
use vstd::arithmetic::div_mod::lemma_fundamental_div_mod_converse;
use vstd::arithmetic::div_mod::lemma_add_mod_noop;
use vstd::arithmetic::div_mod::lemma_small_mod;
use crate::class_file::ClassFile;
use crate::class_file::Method;
use crate::class_file::ConstantType;
use crate::class_file::spec_class_name;
use crate::class_file::spec_get_constant;
use crate::class_file::spec_nat_pair;
use crate::class_file::spec_find_method;
use crate::class_file::spec_first_code;
use crate::descriptor::ValueType;
use crate::descriptor::MethodDescriptor;
use crate::descriptor::TypeModel;
use crate::descriptor::type_model;
use crate::descriptor::spec_descriptor;
use crate::descriptor::method_desc;
use crate::frame::LocalVariable;
use crate::frame::StackValue;
use crate::frame::StackFrame;
use crate::instructions::Instruction;
use crate::instructions::spec_read_all;
use crate::reader::sign8;
use crate::reader::bytes_eq;

verus! {

/// Errors raised while running bytecode. Conditions that compiler-produced
/// bytecode should never reach surface as `GenericError`.
#[derive(Debug, PartialEq, Eq)]
pub enum RuntimeError {
    GenericError { message: String },
    StackType { expected: String },
    EmptyStack,
    MethodNotFound,
    VariableOutOfScope,
    VariableType { expected: String, offset: usize },
}

/// The variant of a `RuntimeError`, with the diagnostic payloads dropped:
/// what the interpreter's contracts pin down.
pub enum ErrorKind {
    Generic,
    StackKind,
    StackEmpty,
    NoSuchMethod,
    VarScope,
    VarKind,
}

/// The kind of `e`.
pub open spec fn kind_of(e: RuntimeError) -> ErrorKind {
    match e {
        RuntimeError::GenericError { .. } => ErrorKind::Generic,
        RuntimeError::StackType { .. } => ErrorKind::StackKind,
        RuntimeError::EmptyStack => ErrorKind::StackEmpty,
        RuntimeError::MethodNotFound => ErrorKind::NoSuchMethod,
        RuntimeError::VariableOutOfScope => ErrorKind::VarScope,
        RuntimeError::VariableType { .. } => ErrorKind::VarKind,
    }
}

/// The mathematical state of a frame: its locals and its operand stack.
pub struct FrameModel {
    pub locals: Seq<LocalVariable>,
    pub stack: Seq<StackValue>,
}

/// The state of an exec-level frame.
pub open spec fn frame_model(f: StackFrame) -> FrameModel {
    FrameModel { locals: f.local_variables@, stack: f.stack@ }
}

/// What one instruction does to a frame: fall through to the next
/// instruction, branch to a byte offset, return from the method, or fail.
pub enum StepRes {
    Next(FrameModel),
    Jump(FrameModel, int),
    Finish(Option<StackValue>),
    Abort(ErrorKind),
}

/// What running a method yields: a returned value (or none) or a failure.
pub enum RunRes {
    Done(Option<StackValue>),
    Failed(ErrorKind),
}

/// The value `x` reduced to 32-bit two's complement: the unique value in
/// [-2^31, 2^31) congruent to `x` modulo 2^32.
pub open spec fn wrap32(x: int) -> int {
    let m = x % 0x100000000;
    if m < 0x80000000 {
        m
    } else {
        m - 0x100000000
    }
}

/// A frame with `v` pushed.
pub open spec fn push_of(f: FrameModel, v: StackValue) -> FrameModel {
    FrameModel { locals: f.locals, stack: f.stack.push(v) }
}

/// Loading local `n` onto the stack: fails when the slot is unset, holds no
/// integer, or lies out of range.
pub open spec fn spec_iload(f: FrameModel, n: int) -> StepRes {
    if 0 <= n < f.locals.len() {
        match f.locals[n] {
            LocalVariable::Integer(v) => StepRes::Next(push_of(f, StackValue::Integer(v))),
            _ => StepRes::Abort(ErrorKind::Generic),
        }
    } else {
        StepRes::Abort(ErrorKind::Generic)
    }
}

/// Popping an integer into local `n`: fails when the stack top is no
/// integer or the slot lies out of range.
pub open spec fn spec_istore(f: FrameModel, n: int) -> StepRes {
    if f.stack.len() > 0 {
        match f.stack.last() {
            StackValue::Integer(v) => if 0 <= n < f.locals.len() {
                StepRes::Next(
                    FrameModel {
                        locals: f.locals.update(n, LocalVariable::Integer(v)),
                        stack: f.stack.drop_last(),
                    },
                )
            } else {
                StepRes::Abort(ErrorKind::VarScope)
            },
            _ => StepRes::Abort(ErrorKind::Generic),
        }
    } else {
        StepRes::Abort(ErrorKind::Generic)
    }
}

/// Popping two integers and pushing their wrapping 32-bit sum.
pub open spec fn spec_iadd(f: FrameModel) -> StepRes {
    if f.stack.len() >= 2 {
        match (f.stack.last(), f.stack.drop_last().last()) {
            (StackValue::Integer(lh), StackValue::Integer(rh)) => StepRes::Next(
                FrameModel {
                    locals: f.locals,
                    stack: f.stack.drop_last().drop_last().push(
                        StackValue::Integer(wrap32(lh + rh) as i64),
                    ),
                },
            ),
            _ => StepRes::Abort(ErrorKind::StackKind),
        }
    } else {
        StepRes::Abort(ErrorKind::StackEmpty)
    }
}

/// Adding the sign-extended `delta` to local `offset`, wrapping at 32 bits.
pub open spec fn spec_iinc(f: FrameModel, offset: int, delta: u8) -> StepRes {
    if 0 <= offset < f.locals.len() {
        match f.locals[offset] {
            LocalVariable::Integer(v) => StepRes::Next(
                FrameModel {
                    locals: f.locals.update(
                        offset,
                        LocalVariable::Integer(wrap32(v + sign8(delta as int)) as i64),
                    ),
                    stack: f.stack,
                },
            ),
            _ => StepRes::Abort(ErrorKind::VarKind),
        }
    } else {
        StepRes::Abort(ErrorKind::VarScope)
    }
}

/// The comparisons an integer conditional branch can make.
pub enum IntCondition {
    Equal,
    NotEqual,
    Less,
    GreaterEqual,
    Greater,
    LessEqual,
}

/// Whether `lh` compared to `rh` satisfies `cond`.
pub open spec fn cond_holds(cond: IntCondition, lh: i64, rh: i64) -> bool {
    match cond {
        IntCondition::Equal => lh == rh,
        IntCondition::NotEqual => lh != rh,
        IntCondition::Less => lh < rh,
        IntCondition::GreaterEqual => lh >= rh,
        IntCondition::Greater => lh > rh,
        IntCondition::LessEqual => lh <= rh,
    }
}

/// A conditional branch: pops the right-hand then the left-hand integer and
/// branches to `pc + rel` when the comparison holds.
pub open spec fn spec_if_icmp(f: FrameModel, cond: IntCondition, pc: int, rel: int) -> StepRes {
    if f.stack.len() >= 2 {
        match (f.stack.last(), f.stack.drop_last().last()) {
            (StackValue::Integer(rh), StackValue::Integer(lh)) => {
                let f2 = FrameModel { locals: f.locals, stack: f.stack.drop_last().drop_last() };
                if cond_holds(cond, lh, rh) {
                    StepRes::Jump(f2, pc + rel)
                } else {
                    StepRes::Next(f2)
                }
            },
            _ => StepRes::Abort(ErrorKind::StackKind),
        }
    } else {
        StepRes::Abort(ErrorKind::StackEmpty)
    }
}

/// Popping an integer and returning it; `Return` returns none.
///
/// A deliberate choice: a null stack top is rejected here as a stack-type
/// error, since the return instruction itself pops an integer. The
/// return-type verification would accept a null for an integer-returning
/// method, but no instruction of the integer subset can reach it with one.
pub open spec fn spec_ireturn(f: FrameModel) -> StepRes {
    if f.stack.len() > 0 {
        match f.stack.last() {
            StackValue::Integer(v) => StepRes::Finish(Some(StackValue::Integer(v))),
            _ => StepRes::Abort(ErrorKind::StackKind),
        }
    } else {
        StepRes::Abort(ErrorKind::StackEmpty)
    }
}

/// Whether `ins` is one of the instructions the interpreter implements: the
/// integer subset plus static invocation. Anything else fails with a
/// generic error, leaving the frame as it was.
pub open spec fn supported_instruction(ins: Instruction) -> bool {
    match ins {
        Instruction::IConstm1 => true,
        Instruction::IConst0 => true,
        Instruction::IConst1 => true,
        Instruction::IConst2 => true,
        Instruction::IConst3 => true,
        Instruction::IConst4 => true,
        Instruction::IConst5 => true,
        Instruction::BIPush(_) => true,
        Instruction::SIPush(_) => true,
        Instruction::ILoad(_) => true,
        Instruction::ILoad0 => true,
        Instruction::ILoad1 => true,
        Instruction::ILoad2 => true,
        Instruction::ILoad3 => true,
        Instruction::IStore(_) => true,
        Instruction::IStore0 => true,
        Instruction::IStore1 => true,
        Instruction::IStore2 => true,
        Instruction::IStore3 => true,
        Instruction::IAdd => true,
        Instruction::IInc(_, _) => true,
        Instruction::IfICmpEQ(_) => true,
        Instruction::IfICmpNE(_) => true,
        Instruction::IfICmpLT(_) => true,
        Instruction::IfICmpGE(_) => true,
        Instruction::IfICmpGT(_) => true,
        Instruction::IfICmpLE(_) => true,
        Instruction::Goto(_) => true,
        Instruction::IReturn => true,
        Instruction::Return => true,
        Instruction::InvokeStatic(_) => true,
        _ => false,
    }
}

/// What one non-invoking instruction does to the frame. Instructions outside
/// the integer subset fail with a generic error.
pub open spec fn spec_step(ins: Instruction, pc: int, f: FrameModel) -> StepRes {
    match ins {
        Instruction::IConstm1 => StepRes::Next(push_of(f, StackValue::Integer(-1i64))),
        Instruction::IConst0 => StepRes::Next(push_of(f, StackValue::Integer(0i64))),
        Instruction::IConst1 => StepRes::Next(push_of(f, StackValue::Integer(1i64))),
        Instruction::IConst2 => StepRes::Next(push_of(f, StackValue::Integer(2i64))),
        Instruction::IConst3 => StepRes::Next(push_of(f, StackValue::Integer(3i64))),
        Instruction::IConst4 => StepRes::Next(push_of(f, StackValue::Integer(4i64))),
        Instruction::IConst5 => StepRes::Next(push_of(f, StackValue::Integer(5i64))),
        Instruction::BIPush(v) => StepRes::Next(
            push_of(f, StackValue::Integer(sign8(v as int) as i64)),
        ),
        Instruction::SIPush(v) => StepRes::Next(
            push_of(f, StackValue::Integer(crate::reader::sign16(v as int) as i64)),
        ),
        Instruction::ILoad(n) => spec_iload(f, n as int),
        Instruction::ILoad0 => spec_iload(f, 0),
        Instruction::ILoad1 => spec_iload(f, 1),
        Instruction::ILoad2 => spec_iload(f, 2),
        Instruction::ILoad3 => spec_iload(f, 3),
        Instruction::IStore(n) => spec_istore(f, n as int),
        Instruction::IStore0 => spec_istore(f, 0),
        Instruction::IStore1 => spec_istore(f, 1),
        Instruction::IStore2 => spec_istore(f, 2),
        Instruction::IStore3 => spec_istore(f, 3),
        Instruction::IAdd => spec_iadd(f),
        Instruction::IInc(offset, delta) => spec_iinc(f, offset as int, delta),
        Instruction::IfICmpEQ(rel) => spec_if_icmp(f, IntCondition::Equal, pc, rel as int),
        Instruction::IfICmpNE(rel) => spec_if_icmp(f, IntCondition::NotEqual, pc, rel as int),
        Instruction::IfICmpLT(rel) => spec_if_icmp(f, IntCondition::Less, pc, rel as int),
        Instruction::IfICmpGE(rel) => spec_if_icmp(f, IntCondition::GreaterEqual, pc, rel as int),
        Instruction::IfICmpGT(rel) => spec_if_icmp(f, IntCondition::Greater, pc, rel as int),
        Instruction::IfICmpLE(rel) => spec_if_icmp(f, IntCondition::LessEqual, pc, rel as int),
        Instruction::Goto(rel) => StepRes::Jump(f, pc + rel as int),
        Instruction::IReturn => spec_ireturn(f),
        Instruction::Return => StepRes::Finish(None),
        _ => StepRes::Abort(ErrorKind::Generic),
    }
}

/// A popped stack value as the local-variable slot it becomes when passed as
/// an argument.
pub open spec fn sv_to_lv(v: StackValue) -> LocalVariable {
    match v {
        StackValue::Uninitialized => LocalVariable::Uninitialized,
        StackValue::Null => LocalVariable::Null,
        StackValue::Integer(i) => LocalVariable::Integer(i),
    }
}

/// The class name the `Class` entry at pool position `ci` resolves to.
pub open spec fn spec_class_ref_name(cf: ClassFile, ci: int) -> Option<Seq<u8>> {
    match spec_get_constant(cf, ci) {
        Some(ConstantType::Class { name_index }) => match spec_get_constant(cf, name_index as int) {
            Some(ConstantType::Utf8 { value }) => Some(value@),
            _ => None,
        },
        _ => None,
    }
}

/// Whether a returned value matches the method's declared return type:
/// `Void` takes no value; `Integer` takes an integer or null; object and
/// array types are not checked.
pub open spec fn return_matches(ret: TypeModel, v: Option<StackValue>) -> bool {
    match ret {
        TypeModel::Void => v is None,
        TypeModel::Integer => match v {
            Some(StackValue::Integer(_)) => true,
            Some(StackValue::Null) => true,
            _ => false,
        },
        _ => true,
    }
}

/// An error message built from a literal.
fn text(s: &str) -> (r: String)
    ensures
        r@ == s@,
{
    let mut m = String::new();
    m.append(s);
    proof {
        assert(Seq::<char>::empty() + s@ =~= s@);
    }
    m
}

/// The value `x` reduced to 32-bit two's complement.
pub fn to_int32(x: i64) -> (r: i64)
    ensures
        r == wrap32(x as int),
        -0x80000000 <= r < 0x80000000,
{
    if x >= 0 {
        let low = x % 0x100000000;
        if low >= 0x80000000 {
            low - 0x100000000
        } else {
            low
        }
    } else {
        let y = -(x + 1);
        let rem = y % 0x100000000;
        proof {
            let q = y as int / 0x100000000;
            assert(y == q * 0x100000000 + y as int % 0x100000000) by {
                vstd::arithmetic::div_mod::lemma_fundamental_div_mod(y as int, 0x100000000);
            }
            assert(x as int == (-q - 1) * 0x100000000 + (0x100000000 - rem - 1)) by {
                assert(x == -y - 1);
            }
            lemma_fundamental_div_mod_converse(
                x as int,
                0x100000000,
                -q - 1,
                0x100000000 - rem - 1,
            );
        }
        let low = 0xFFFFFFFF - rem;
        if low >= 0x80000000 {
            low - 0x100000000
        } else {
            low
        }
    }
}

/// The wrapping 32-bit two's-complement sum.
pub fn iadd32(lh: i64, rh: i64) -> (r: i64)
    ensures
        r == wrap32(lh + rh),
        -0x80000000 <= r < 0x80000000,
{
    let a = to_int32(lh);
    let b = to_int32(rh);
    let s = a + b;
    proof {
        lemma_wrap32_add(lh as int, rh as int);
    }
    if s >= 0x80000000 {
        proof {
            lemma_wrap32_shift(s as int);
        }
        s - 0x100000000
    } else if s < -0x80000000 {
        proof {
            lemma_wrap32_shift(s as int);
        }
        s + 0x100000000
    } else {
        proof {
            lemma_wrap32_small(s as int);
        }
        s
    }
}

/// Reducing the addends before a sum does not change its reduced value.
proof fn lemma_wrap32_add(x: int, y: int)
    ensures
        wrap32(wrap32(x) + wrap32(y)) == wrap32(x + y),
{
    let m = 0x100000000int;
    lemma_add_mod_noop(x, y, m);
    lemma_congruent_wrap(wrap32(x) + wrap32(y), x + y);
}

/// Values congruent modulo 2^32 reduce to the same value.
proof fn lemma_congruent_wrap(a: int, b: int)
    requires
        a % 0x100000000 == b % 0x100000000,
    ensures
        wrap32(a) == wrap32(b),
{
}

/// Reducing after shifting by one modulus equals reducing directly.
proof fn lemma_wrap32_shift(s: int)
    ensures
        wrap32(s - 0x100000000) == wrap32(s),
        wrap32(s + 0x100000000) == wrap32(s),
{
    let m = 0x100000000int;
    assert((s - m) % m == s % m) by {
        vstd::arithmetic::div_mod::lemma_mod_sub_multiples_vanish(s, m);
    }
    assert((s + m) % m == s % m) by {
        vstd::arithmetic::div_mod::lemma_mod_add_multiples_vanish(s, m);
    }
}

/// A value already in 32-bit range reduces to itself.
proof fn lemma_wrap32_small(s: int)
    requires
        -0x80000000 <= s < 0x80000000,
    ensures
        wrap32(s) == s,
{
    let m = 0x100000000int;
    if s >= 0 {
        lemma_small_mod(s as nat, m as nat);
    } else {
        lemma_fundamental_div_mod_converse(s, m, -1, s + m);
    }
}


/// The class index of a method-reference constant, if `c` is one.
pub open spec fn method_ref_class_index(c: ConstantType) -> Option<u16> {
    match c {
        ConstantType::MethodRef { class_index, .. } => Some(class_index),
        _ => None,
    }
}

/// Some constant of `cs` is a method reference carrying `key` as its class
/// index.
pub open spec fn key_from_method_ref(cs: Seq<ConstantType>, key: u16) -> bool {
    exists|c: int| 0 <= c < cs.len() && method_ref_class_index(#[trigger] cs[c]) == Some(key)
}

/// Whether a stack value may stand for a parameter of the given type: an
/// integer parameter takes an integer or null; other parameter types are
/// not checked.
pub open spec fn arg_matches(param: TypeModel, v: StackValue) -> bool {
    match param {
        TypeModel::Integer => match v {
            StackValue::Integer(_) => true,
            StackValue::Null => true,
            _ => false,
        },
        _ => true,
    }
}

/// Every argument value matches its parameter's type, position by position.
pub open spec fn args_match(params: Seq<TypeModel>, vals: Seq<StackValue>) -> bool {
    forall|i: int|
        0 <= i < params.len() && i < vals.len() ==> arg_matches(
            #[trigger] params[i],
            #[trigger] vals[i],
        )
}

/// What a static invocation through pool position `idx` does to the frame:
/// the reference must name this class itself; the callee's arguments are
/// popped right-to-left, each matched against its parameter's type (integer
/// and null pass for an integer parameter), and its return value, if any,
/// is pushed.
pub open spec fn spec_invoke_static(cf: ClassFile, idx: int, f: FrameModel, fuel: nat) -> StepRes
    decreases fuel, 0int,
{
    match spec_get_constant(cf, idx) {
        Some(ConstantType::MethodRef { class_index, name_and_type_index }) => {
            match spec_class_ref_name(cf, class_index as int) {
                None => StepRes::Abort(ErrorKind::Generic),
                Some(cls_name) => if Some(cls_name) == spec_class_name(cf) {
                    match spec_nat_pair(cf, name_and_type_index as int) {
                        None => StepRes::Abort(ErrorKind::NoSuchMethod),
                        Some(pair) => match spec_find_method(cf.methods@, pair.0, pair.1, 0) {
                            None => StepRes::Abort(ErrorKind::NoSuchMethod),
                            Some(mi) => match spec_descriptor(cf.methods@[mi].descriptor@) {
                                None => StepRes::Abort(ErrorKind::Generic),
                                Some((params, _)) => {
                                    let argc = params.len() as int;
                                    if f.stack.len() < argc {
                                        StepRes::Abort(ErrorKind::StackEmpty)
                                    } else if !args_match(
                                        params,
                                        f.stack.subrange(
                                            f.stack.len() - argc,
                                            f.stack.len() as int,
                                        ),
                                    ) {
                                        StepRes::Abort(ErrorKind::StackKind)
                                    } else if fuel == 0 {
                                        StepRes::Abort(ErrorKind::Generic)
                                    } else {
                                        let args = f.stack.subrange(
                                            f.stack.len() - argc,
                                            f.stack.len() as int,
                                        ).map_values(|v: StackValue| sv_to_lv(v));
                                        match spec_run_method(cf, mi, args, (fuel - 1) as nat) {
                                            RunRes::Done(Some(v)) => StepRes::Next(
                                                FrameModel {
                                                    locals: f.locals,
                                                    stack: f.stack.take(
                                                        f.stack.len() - argc,
                                                    ).push(v),
                                                },
                                            ),
                                            RunRes::Done(None) => StepRes::Next(
                                                FrameModel {
                                                    locals: f.locals,
                                                    stack: f.stack.take(f.stack.len() - argc),
                                                },
                                            ),
                                            RunRes::Failed(k) => StepRes::Abort(k),
                                        }
                                    }
                                },
                            },
                        },
                    }
                } else {
                    StepRes::Abort(ErrorKind::Generic)
                },
            }
        },
        _ => StepRes::Abort(ErrorKind::Generic),
    }
}

/// What one instruction does, static invocations included.
pub open spec fn spec_exec(
    cf: ClassFile,
    ins: Instruction,
    pc: int,
    f: FrameModel,
    fuel: nat,
) -> StepRes
    decreases fuel, 1int,
{
    match ins {
        Instruction::InvokeStatic(idx) => spec_invoke_static(cf, idx as int, f, fuel),
        _ => spec_step(ins, pc, f),
    }
}

/// Running the decoded instructions from index `idx` with `steps` steps of
/// budget left: each step executes one instruction; a branch must land on an
/// instruction boundary; a return is checked against the declared return
/// type of the descriptor `desc`; running off the end of the sequence fails.
pub open spec fn spec_loop(
    cf: ClassFile,
    instrs: Seq<Instruction>,
    desc: Seq<u8>,
    f: FrameModel,
    idx: int,
    steps: nat,
) -> RunRes
    decreases steps, 2int,
{
    if steps == 0 {
        RunRes::Failed(ErrorKind::Generic)
    } else if idx < 0 || idx >= instrs.len() {
        RunRes::Failed(ErrorKind::Generic)
    } else {
        match spec_exec(
            cf,
            instrs[idx],
            crate::stream::offset_at(instrs, idx),
            f,
            (steps - 1) as nat,
        ) {
            StepRes::Next(f2) => spec_loop(cf, instrs, desc, f2, idx + 1, (steps - 1) as nat),
            StepRes::Jump(f2, t) => if exists|j: int|
                0 <= j < instrs.len() && #[trigger] crate::stream::offset_at(instrs, j) == t {
                spec_loop(
                    cf,
                    instrs,
                    desc,
                    f2,
                    choose|j: int|
                        0 <= j < instrs.len() && #[trigger] crate::stream::offset_at(instrs, j)
                            == t,
                    (steps - 1) as nat,
                )
            } else {
                RunRes::Failed(ErrorKind::Generic)
            },
            StepRes::Finish(v) => match spec_descriptor(desc) {
                None => RunRes::Failed(ErrorKind::Generic),
                Some((params, ret)) => if return_matches(ret, v) {
                    RunRes::Done(v)
                } else {
                    RunRes::Failed(ErrorKind::Generic)
                },
            },
            StepRes::Abort(k) => RunRes::Failed(k),
        }
    }
}

/// The first `max_locals` slots: the arguments in order, then unset slots.
pub open spec fn init_frame(args: Seq<LocalVariable>, max_locals: int) -> FrameModel {
    FrameModel {
        locals: Seq::new(
            max_locals as nat,
            |i: int|
                if i < args.len() {
                    args[i]
                } else {
                    LocalVariable::Uninitialized
                },
        ),
        stack: Seq::empty(),
    }
}

/// Running method `mi` of `cf` on `args` with the given step budget: the
/// method must have code that decodes, a code array within the format's
/// 32-bit length bound, and room for the arguments in its declared locals.
pub open spec fn spec_run_method(
    cf: ClassFile,
    mi: int,
    args: Seq<LocalVariable>,
    fuel: nat,
) -> RunRes
    decreases fuel, 3int,
{
    if mi < 0 || mi >= cf.methods.len() {
        RunRes::Failed(ErrorKind::Generic)
    } else {
        let m = cf.methods@[mi];
        match spec_first_code(m.attributes@) {
            None => RunRes::Failed(ErrorKind::Generic),
            Some(code) => if code.code@.len() > 0xFFFFFFFF {
                RunRes::Failed(ErrorKind::Generic)
            } else {
                match spec_read_all(code.code@, 0) {
                    Err(_) => RunRes::Failed(ErrorKind::Generic),
                    Ok(instrs) => if args.len() > code.max_locals {
                        RunRes::Failed(ErrorKind::Generic)
                    } else {
                        spec_loop(
                            cf,
                            instrs,
                            m.descriptor@,
                            init_frame(args, code.max_locals as int),
                            0,
                            fuel,
                        )
                    },
                }
            },
        }
    }
}

/// How the interpreter continues after one instruction: fall through, branch
/// to a byte offset, or return from the method with an optional value.
#[derive(Debug, PartialEq, Eq)]
pub enum InstructionResult {
    Continue,
    Goto(i64),
    Return(Option<StackValue>),
}

impl Runtime {
    /// Whether a stack value may stand for a parameter of the given type.
    fn argument_matches(param: &ValueType, v: StackValue) -> (r: bool)
        ensures
            r == arg_matches(type_model(*param), v),
    {
        match param {
            ValueType::Integer => match v {
                StackValue::Integer(_) => true,
                StackValue::Null => true,
                _ => false,
            },
            _ => true,
        }
    }
}

/// A popped stack value as the local-variable slot it becomes.
fn lv_of_sv(v: StackValue) -> (r: LocalVariable)
    ensures
        r == sv_to_lv(v),
{
    match v {
        StackValue::Uninitialized => LocalVariable::Uninitialized,
        StackValue::Null => LocalVariable::Null,
        StackValue::Integer(i) => LocalVariable::Integer(i),
    }
}

/// The runtime: the loaded classes, the class path, the name of the entry
/// class, and a per-class cache mapping constant-pool class indices to
/// resolved class names.
pub struct Runtime {
    classes: Vec<ClassFile>,
    classpath: Vec<Vec<u8>>,
    main_class: Vec<u8>,
    /// One cache per loaded class, built at load time by walking its method
    /// references. The interpreter resolves references through the pool
    /// directly, which yields the same names the cache holds (what
    /// `build_class_index_map` ensures).
    class_index_map: Vec<Vec<(u16, Vec<u8>)>>,
}

/// The position of the last class in `classes` carrying `name`.
pub open spec fn last_with_name(classes: Seq<ClassFile>, name: Seq<u8>) -> int
    decreases classes.len(),
{
    if classes.len() == 0 {
        -1
    } else if spec_class_name(classes.last()) == Some(name) {
        classes.len() - 1
    } else {
        last_with_name(classes.drop_last(), name)
    }
}

/// The first index at or after `i` of a method with the given name.
pub open spec fn first_method_named(methods: Seq<Method>, name: Seq<u8>, i: int) -> Option<int>
    decreases methods.len() - i,
{
    if i < 0 || i >= methods.len() {
        None
    } else if methods[i].name@ == name {
        Some(i)
    } else {
        first_method_named(methods, name, i + 1)
    }
}

impl Runtime {
    /// The loaded classes, in load order.
    pub closed spec fn spec_classes(self) -> Seq<ClassFile> {
        self.classes@
    }

    /// The name of the entry class.
    pub closed spec fn spec_main_class(self) -> Seq<u8> {
        self.main_class@
    }

    /// Every loaded class has a resolvable name.
    pub closed spec fn classes_named(self) -> bool {
        forall|i: int|
            0 <= i < self.classes@.len() ==> spec_class_name(#[trigger] self.classes@[i]) is Some
    }

    /// Some loaded class carries the entry class's name.
    pub closed spec fn has_main(self) -> bool {
        exists|i: int|
            0 <= i < self.classes@.len() && spec_class_name(#[trigger] self.classes@[i]) == Some(
                self.main_class@,
            )
    }

    /// A runtime whose loaded classes all have resolvable names and whose
    /// entry class is loaded.
    pub open spec fn wf(self) -> bool {
        self.classes_named() && self.has_main()
    }

    /// A runtime with `main_class` as its entry class, loaded.
    pub fn create(main_class: ClassFile) -> (r: Runtime)
        requires
            spec_class_name(main_class) is Some,
        ensures
            r.wf(),
            r.spec_classes() == seq![main_class],
            r.spec_main_class() == spec_class_name(main_class)->0,
    {
        let name = crate::reader::copy_bytes(main_class.get_class_name());
        let mut dot: Vec<u8> = Vec::new();
        dot.push(0x2e);
        let mut classpath: Vec<Vec<u8>> = Vec::new();
        classpath.push(dot);
        let mut rt = Runtime {
            classes: Vec::new(),
            classpath,
            class_index_map: Vec::new(),
            main_class: name,
        };
        rt.load_class(main_class);
        proof {
            assert(rt.classes@ =~= seq![main_class]);
            assert(spec_class_name(rt.classes@[0]) == Some(rt.main_class@));
        }
        rt
    }

    /// Loads a further class.
    pub fn load_class(&mut self, class: ClassFile)
        requires
            spec_class_name(class) is Some,
            old(self).classes_named(),
        ensures
            final(self).classes_named(),
            final(self).spec_classes() == old(self).spec_classes().push(class),
            final(self).spec_main_class() == old(self).spec_main_class(),
            old(self).has_main() ==> final(self).has_main(),
            spec_class_name(class) == Some(old(self).spec_main_class())
                ==> final(self).has_main(),
    {
        let map = Runtime::build_class_index_map(&class);
        self.class_index_map.push(map);
        self.classes.push(class);
        proof {
            if old(self).has_main() {
                let i = choose|i: int|
                    0 <= i < old(self).classes@.len() && spec_class_name(
                        #[trigger] old(self).classes@[i],
                    ) == Some(old(self).main_class@);
                assert(spec_class_name(self.classes@[i]) == Some(self.main_class@));
            }
            if spec_class_name(class) == Some(old(self).main_class@) {
                assert(spec_class_name(self.classes@[self.classes@.len() - 1]) == Some(
                    self.main_class@,
                ));
            }
        }
    }

    /// The cache for one class: exactly the class indices of its method
    /// references whose index resolves through a `Class` entry to a Utf8
    /// name, each paired with that name, each index at most once.
    #[verifier::rlimit(100)]
    #[verifier::spinoff_prover]
    pub fn build_class_index_map(class: &ClassFile) -> (r: Vec<(u16, Vec<u8>)>)
        ensures
            forall|k: int|
                0 <= k < r@.len() ==> spec_class_ref_name(*class, #[trigger] r@[k].0 as int)
                    == Some(r@[k].1@),
            forall|k1: int, k2: int|
                0 <= k1 < k2 < r@.len() ==> #[trigger] r@[k1].0 != #[trigger] r@[k2].0,
            forall|k: int|
                0 <= k < r@.len() ==> key_from_method_ref(
                    class.constants@,
                    (#[trigger] r@[k]).0,
                ),
            forall|c: int|
                0 <= c < class.constants@.len() && method_ref_class_index(
                    #[trigger] class.constants@[c],
                ) is Some && spec_class_ref_name(
                    *class,
                    method_ref_class_index(class.constants@[c])->0 as int,
                ) is Some ==> exists|k: int| 0 <= k < r@.len() && (#[trigger] r@[k]).0
                    == method_ref_class_index(class.constants@[c])->0,
    {
        let mut map: Vec<(u16, Vec<u8>)> = Vec::new();
        let mut c: usize = 0;
        while c < class.constants.len()
            invariant
                0 <= c <= class.constants@.len(),
                forall|k: int|
                    0 <= k < map@.len() ==> spec_class_ref_name(*class, #[trigger] map@[k].0 as int)
                        == Some(map@[k].1@),
                forall|k1: int, k2: int|
                    0 <= k1 < k2 < map@.len() ==> #[trigger] map@[k1].0 != #[trigger] map@[k2].0,
                forall|k: int|
                    0 <= k < map@.len() ==> key_from_method_ref(
                        class.constants@,
                        (#[trigger] map@[k]).0,
                    ),
                forall|c2: int|
                    0 <= c2 < c && method_ref_class_index(
                        #[trigger] class.constants@[c2],
                    ) is Some && spec_class_ref_name(
                        *class,
                        method_ref_class_index(class.constants@[c2])->0 as int,
                    ) is Some ==> exists|k: int| 0 <= k < map@.len() && (#[trigger] map@[k]).0
                        == method_ref_class_index(class.constants@[c2])->0,
            decreases class.constants@.len() - c,
        {
            let class_index: u16 = match &class.constants[c] {
                ConstantType::MethodRef { class_index, .. } => *class_index,
                _ => {
                    c = c + 1;
                    continue ;
                },
            };
            let name_index: u16 = match class.get_constant(class_index) {
                Some(ConstantType::Class { name_index }) => *name_index,
                _ => {
                    c = c + 1;
                    continue ;
                },
            };
            let name: &Vec<u8> = match class.get_constant(name_index) {
                Some(ConstantType::Utf8 { value }) => value,
                _ => {
                    c = c + 1;
                    continue ;
                },
            };
            let mut present = false;
            let mut k: usize = 0;
            while k < map.len()
                invariant
                    0 <= k <= map@.len(),
                    present == exists|k2: int|
                        0 <= k2 < k && (#[trigger] map@[k2]).0 == class_index,
                decreases map@.len() - k,
            {
                if map[k].0 == class_index {
                    present = true;
                }
                k = k + 1;
            }
            let ghost pre = map@;
            if !present {
                map.push((class_index, crate::reader::copy_bytes(name)));
                proof {
                    assert(map@[pre.len() as int].0 == class_index);
                    assert(forall|k: int| 0 <= k < pre.len() ==> #[trigger] map@[k] == pre[k]);
                    assert(method_ref_class_index(class.constants@[c as int]) == Some(
                        class_index,
                    ));
                    assert(key_from_method_ref(class.constants@, class_index));
                    assert forall|k: int|
                        0 <= k < map@.len() implies key_from_method_ref(
                        class.constants@,
                        (#[trigger] map@[k]).0,
                    ) by {
                        if k < pre.len() {
                            assert(map@[k] == pre[k]);
                        } else {
                            assert(map@[k].0 == class_index);
                        }
                    }
                }
            }
            proof {
                assert forall|c2: int|
                    0 <= c2 < c + 1 && method_ref_class_index(
                        #[trigger] class.constants@[c2],
                    ) is Some && spec_class_ref_name(
                        *class,
                        method_ref_class_index(class.constants@[c2])->0 as int,
                    ) is Some implies exists|k: int|
                    0 <= k < map@.len() && (#[trigger] map@[k]).0 == method_ref_class_index(
                        class.constants@[c2],
                    )->0 by {
                    if c2 == c {
                        assert(method_ref_class_index(class.constants@[c2]) == Some(class_index));
                        if present {
                            let kw = choose|k2: int|
                                0 <= k2 < pre.len() && (#[trigger] pre[k2]).0 == class_index;
                            assert((map@[kw]).0 == class_index);
                        } else {
                            assert((map@[pre.len() as int]).0 == class_index);
                        }
                    } else {
                        assert(exists|k: int|
                            0 <= k < pre.len() && (#[trigger] pre[k]).0 == method_ref_class_index(
                                class.constants@[c2],
                            )->0);
                        let kw = choose|k: int|
                            0 <= k < pre.len() && (#[trigger] pre[k]).0 == method_ref_class_index(
                                class.constants@[c2],
                            )->0;
                        assert((map@[kw]).0 == method_ref_class_index(class.constants@[c2])->0);
                    }
                }
            }
            c = c + 1;
        }
        map
    }
}

impl Runtime {
    /// Verifies that a returned value's variant matches the method's
    /// declared return type. `Void` takes no value; `Integer` takes an
    /// integer or null; object and array types pass unchecked.
    pub fn check_return_type(return_type: &ValueType, return_value: &Option<StackValue>) -> (r:
        Result<(), RuntimeError>)
        ensures
            r is Ok == return_matches(type_model(*return_type), *return_value),
            (r matches Err(e) ==> kind_of(e) == ErrorKind::Generic),
    {
        match return_type {
            ValueType::Void => if return_value.is_some() {
                Err(
                    RuntimeError::GenericError {
                        message: text("invalid return type. expected void."),
                    },
                )
            } else {
                Ok(())
            },
            ValueType::Integer => match return_value {
                Some(StackValue::Integer(_)) => Ok(()),
                Some(StackValue::Null) => Ok(()),
                _ => Err(
                    RuntimeError::GenericError {
                        message: text("invalid return type. expected integer."),
                    },
                ),
            },
            _ => Ok(()),
        }
    }

    /// Stores the top stack value into local `offset`: only when the top of
    /// the typed stack is an integer.
    pub fn exec_istore(stack_frame: &mut StackFrame, offset: usize) -> (r: Result<
        (),
        RuntimeError,
    >)
        ensures
            (spec_istore(frame_model(*old(stack_frame)), offset as int) matches StepRes::Next(f2)
                ==> r is Ok && frame_model(*final(stack_frame)) == f2),
            (spec_istore(frame_model(*old(stack_frame)), offset as int) matches StepRes::Abort(k)
                ==> r matches Err(e) && kind_of(e) == k),
            (r matches Err(e) ==> final(stack_frame).local_variables@ == old(
                stack_frame,
            ).local_variables@),
    {
        match stack_frame.pop_stack() {
            Some(StackValue::Integer(intvalue)) => {
                if offset < stack_frame.local_variables.len() {
                    stack_frame.set_variable(offset, LocalVariable::Integer(intvalue));
                    Ok(())
                } else {
                    Err(RuntimeError::VariableOutOfScope)
                }
            },
            _ => Err(
                RuntimeError::GenericError {
                    message: text("stack value is not an integer"),
                },
            ),
        }
    }

    /// Loads the integer in local `offset` onto the stack: fails when the
    /// local is unset, holds no integer, or lies out of range.
    pub fn exec_iload(stack_frame: &mut StackFrame, offset: usize) -> (r: Result<(), RuntimeError>)
        ensures
            (spec_iload(frame_model(*old(stack_frame)), offset as int) matches StepRes::Next(f2)
                ==> r is Ok && frame_model(*final(stack_frame)) == f2),
            (spec_iload(frame_model(*old(stack_frame)), offset as int) matches StepRes::Abort(k)
                ==> r matches Err(e) && kind_of(e) == k),
            (r matches Err(e) ==> final(stack_frame).local_variables@ == old(
                stack_frame,
            ).local_variables@),
    {
        let intvalue = match stack_frame.get_variable(offset) {
            Some(LocalVariable::Integer(intvalue)) => *intvalue,
            Some(LocalVariable::Uninitialized) => {
                return Err(
                    RuntimeError::GenericError {
                        message: text("local variable is not defined"),
                    },
                );
            },
            Some(_) => {
                return Err(
                    RuntimeError::GenericError {
                        message: text("local variable is not an integer"),
                    },
                );
            },
            None => {
                return Err(
                    RuntimeError::GenericError {
                        message: text("local variable is out of range"),
                    },
                );
            },
        };
        stack_frame.push_stack(StackValue::Integer(intvalue));
        Ok(())
    }

    /// Pops the right-hand then the left-hand integer and either branches to
    /// `pc + rel` or falls through, by `cond`.
    fn exec_if_icmp(
        stack_frame: &mut StackFrame,
        cond: IntCondition,
        pc: usize,
        rel: i16,
    ) -> (r: Result<InstructionResult, RuntimeError>)
        requires
            pc <= 0xFFFFFFFF,
        ensures
            ({
                let step = spec_if_icmp(
                    frame_model(*old(stack_frame)),
                    cond,
                    pc as int,
                    rel as int,
                );
                &&& (step matches StepRes::Next(f2) ==> r == Ok::<
                    InstructionResult,
                    RuntimeError,
                >(InstructionResult::Continue) && frame_model(*final(stack_frame)) == f2)
                &&& (step matches StepRes::Jump(f2, t) ==> (r matches Ok(g) && g matches
                    InstructionResult::Goto(tv) && tv == t) && frame_model(*final(stack_frame))
                    == f2)
                &&& (step matches StepRes::Abort(k) ==> r matches Err(e) && kind_of(e) == k)
                &&& (r matches Err(e) ==> final(stack_frame).local_variables@ == old(
                    stack_frame,
                ).local_variables@)
            }),
    {
        let top = stack_frame.pop_stack();
        let under = stack_frame.pop_stack();
        let (rh, lh) = match (top, under) {
            (Some(StackValue::Integer(rh)), Some(StackValue::Integer(lh))) => (rh, lh),
            (Some(_), Some(_)) => {
                return Err(RuntimeError::StackType { expected: text("integer") });
            },
            _ => {
                return Err(RuntimeError::EmptyStack);
            },
        };
        let taken = match cond {
            IntCondition::Equal => lh == rh,
            IntCondition::NotEqual => lh != rh,
            IntCondition::Less => lh < rh,
            IntCondition::GreaterEqual => lh >= rh,
            IntCondition::Greater => lh > rh,
            IntCondition::LessEqual => lh <= rh,
        };
        if taken {
            Ok(InstructionResult::Goto(pc as i64 + rel as i64))
        } else {
            Ok(InstructionResult::Continue)
        }
    }

    /// Executes one instruction against the frame. A branch resolves its
    /// relative immediate against `pc`, the byte offset of the instruction's
    /// own opcode. A static invocation consumes one unit of `fuel` and runs
    /// the named method of this same class with the rest.
    #[verifier::rlimit(100)]
    #[verifier::loop_isolation(false)]
    pub fn exec(
        class: &ClassFile,
        instruction: &Instruction,
        pc: usize,
        stack_frame: &mut StackFrame,
        fuel: u64,
    ) -> (r: Result<InstructionResult, RuntimeError>)
        requires
            spec_class_name(*class) is Some,
            pc <= 0xFFFFFFFF,
        ensures
            ({
                let step = spec_exec(
                    *class,
                    *instruction,
                    pc as int,
                    frame_model(*old(stack_frame)),
                    fuel as nat,
                );
                &&& (step matches StepRes::Next(f2) ==> r == Ok::<
                    InstructionResult,
                    RuntimeError,
                >(InstructionResult::Continue) && frame_model(*final(stack_frame)) == f2)
                &&& (step matches StepRes::Jump(f2, t) ==> (r matches Ok(g) && g matches
                    InstructionResult::Goto(tv) && tv == t) && frame_model(*final(stack_frame))
                    == f2)
                &&& (step matches StepRes::Finish(v) ==> r == Ok::<
                    InstructionResult,
                    RuntimeError,
                >(InstructionResult::Return(v)))
                &&& (step matches StepRes::Abort(k) ==> r matches Err(e) && kind_of(e) == k)
                &&& (!supported_instruction(*instruction) ==> *final(stack_frame) == *old(
                    stack_frame,
                ))
                &&& (r matches Err(e) ==> final(stack_frame).local_variables@ == old(
                    stack_frame,
                ).local_variables@)
            }),
        decreases fuel, 1int,
    {
        match instruction {
            Instruction::IConstm1 => {
                stack_frame.push_stack(StackValue::Integer(-1));
                Ok(InstructionResult::Continue)
            },
            Instruction::IConst0 => {
                stack_frame.push_stack(StackValue::Integer(0));
                Ok(InstructionResult::Continue)
            },
            Instruction::IConst1 => {
                stack_frame.push_stack(StackValue::Integer(1));
                Ok(InstructionResult::Continue)
            },
            Instruction::IConst2 => {
                stack_frame.push_stack(StackValue::Integer(2));
                Ok(InstructionResult::Continue)
            },
            Instruction::IConst3 => {
                stack_frame.push_stack(StackValue::Integer(3));
                Ok(InstructionResult::Continue)
            },
            Instruction::IConst4 => {
                stack_frame.push_stack(StackValue::Integer(4));
                Ok(InstructionResult::Continue)
            },
            Instruction::IConst5 => {
                stack_frame.push_stack(StackValue::Integer(5));
                Ok(InstructionResult::Continue)
            },
            Instruction::BIPush(value) => {
                let v: i64 = if *value < 0x80 {
                    *value as i64
                } else {
                    *value as i64 - 0x100
                };
                stack_frame.push_stack(StackValue::Integer(v));
                Ok(InstructionResult::Continue)
            },
            Instruction::SIPush(value) => {
                let v: i64 = if *value < 0x8000 {
                    *value as i64
                } else {
                    *value as i64 - 0x10000
                };
                stack_frame.push_stack(StackValue::Integer(v));
                Ok(InstructionResult::Continue)
            },
            Instruction::ILoad(offset) => {
                Runtime::exec_iload(stack_frame, *offset as usize)?;
                Ok(InstructionResult::Continue)
            },
            Instruction::ILoad0 => {
                Runtime::exec_iload(stack_frame, 0)?;
                Ok(InstructionResult::Continue)
            },
            Instruction::ILoad1 => {
                Runtime::exec_iload(stack_frame, 1)?;
                Ok(InstructionResult::Continue)
            },
            Instruction::ILoad2 => {
                Runtime::exec_iload(stack_frame, 2)?;
                Ok(InstructionResult::Continue)
            },
            Instruction::ILoad3 => {
                Runtime::exec_iload(stack_frame, 3)?;
                Ok(InstructionResult::Continue)
            },
            Instruction::IStore(offset) => {
                Runtime::exec_istore(stack_frame, *offset as usize)?;
                Ok(InstructionResult::Continue)
            },
            Instruction::IStore0 => {
                Runtime::exec_istore(stack_frame, 0)?;
                Ok(InstructionResult::Continue)
            },
            Instruction::IStore1 => {
                Runtime::exec_istore(stack_frame, 1)?;
                Ok(InstructionResult::Continue)
            },
            Instruction::IStore2 => {
                Runtime::exec_istore(stack_frame, 2)?;
                Ok(InstructionResult::Continue)
            },
            Instruction::IStore3 => {
                Runtime::exec_istore(stack_frame, 3)?;
                Ok(InstructionResult::Continue)
            },
            Instruction::IAdd => {
                let lh = match stack_frame.pop_stack() {
                    Some(v) => v,
                    None => {
                        return Err(RuntimeError::EmptyStack);
                    },
                };
                let rh = match stack_frame.pop_stack() {
                    Some(v) => v,
                    None => {
                        return Err(RuntimeError::EmptyStack);
                    },
                };
                match (lh, rh) {
                    (StackValue::Integer(a), StackValue::Integer(b)) => {
                        stack_frame.push_stack(StackValue::Integer(iadd32(a, b)));
                        Ok(InstructionResult::Continue)
                    },
                    _ => Err(RuntimeError::StackType { expected: text("integer") }),
                }
            },
            Instruction::IInc(offset, delta) => {
                let off = *offset as usize;
                match stack_frame.get_variable(off) {
                    Some(LocalVariable::Integer(v)) => {
                        let d: i64 = if *delta < 0x80 {
                            *delta as i64
                        } else {
                            *delta as i64 - 0x100
                        };
                        let v2 = iadd32(*v, d);
                        stack_frame.set_variable(off, LocalVariable::Integer(v2));
                        Ok(InstructionResult::Continue)
                    },
                    Some(_) => Err(
                        RuntimeError::VariableType { expected: text("integer"), offset: off },
                    ),
                    None => Err(RuntimeError::VariableOutOfScope),
                }
            },
            Instruction::IfICmpEQ(rel) => Runtime::exec_if_icmp(
                stack_frame,
                IntCondition::Equal,
                pc,
                *rel,
            ),
            Instruction::IfICmpNE(rel) => Runtime::exec_if_icmp(
                stack_frame,
                IntCondition::NotEqual,
                pc,
                *rel,
            ),
            Instruction::IfICmpLT(rel) => Runtime::exec_if_icmp(
                stack_frame,
                IntCondition::Less,
                pc,
                *rel,
            ),
            Instruction::IfICmpGE(rel) => Runtime::exec_if_icmp(
                stack_frame,
                IntCondition::GreaterEqual,
                pc,
                *rel,
            ),
            Instruction::IfICmpGT(rel) => Runtime::exec_if_icmp(
                stack_frame,
                IntCondition::Greater,
                pc,
                *rel,
            ),
            Instruction::IfICmpLE(rel) => Runtime::exec_if_icmp(
                stack_frame,
                IntCondition::LessEqual,
                pc,
                *rel,
            ),
            Instruction::Goto(rel) => Ok(InstructionResult::Goto(pc as i64 + *rel as i64)),
            Instruction::IReturn => match stack_frame.pop_stack() {
                Some(StackValue::Integer(ret)) => Ok(
                    InstructionResult::Return(Some(StackValue::Integer(ret))),
                ),
                Some(_) => Err(RuntimeError::StackType { expected: text("Integer") }),
                None => Err(RuntimeError::EmptyStack),
            },
            Instruction::Return => Ok(InstructionResult::Return(None)),
            Instruction::InvokeStatic(method_offset) => Runtime::invoke_static(
                class,
                *method_offset,
                stack_frame,
                fuel,
            ),
            _ => Err(RuntimeError::GenericError { message: text("unknown instruction") }),
        }
    }

    /// Resolves the method reference at pool position `method_offset`,
    /// requires it to name this class itself, pops the callee's arguments
    /// after matching each against its parameter's type, runs it, and
    /// pushes its return value, if any.
    #[verifier::rlimit(100)]
    #[verifier::loop_isolation(false)]
    fn invoke_static(
        class: &ClassFile,
        method_offset: u16,
        stack_frame: &mut StackFrame,
        fuel: u64,
    ) -> (r: Result<InstructionResult, RuntimeError>)
        requires
            spec_class_name(*class) is Some,
        ensures
            ({
                let step = spec_invoke_static(
                    *class,
                    method_offset as int,
                    frame_model(*old(stack_frame)),
                    fuel as nat,
                );
                &&& (step matches StepRes::Next(f2) ==> r == Ok::<
                    InstructionResult,
                    RuntimeError,
                >(InstructionResult::Continue) && frame_model(*final(stack_frame)) == f2)
                &&& (step matches StepRes::Abort(k) ==> r matches Err(e) && kind_of(e) == k)
                &&& (r matches Err(e) ==> final(stack_frame).local_variables@ == old(
                    stack_frame,
                ).local_variables@)
            }),
        decreases fuel, 0int,
    {
        let (class_index, name_and_type_index) = match class.get_constant(method_offset) {
            Some(ConstantType::MethodRef { class_index, name_and_type_index }) => (
                *class_index,
                *name_and_type_index,
            ),
            _ => {
                return Err(
                    RuntimeError::GenericError { message: text("invalid method offset") },
                );
            },
        };
        let ref_name_index = match class.get_constant(class_index) {
            Some(ConstantType::Class { name_index }) => *name_index,
            _ => {
                return Err(RuntimeError::GenericError { message: text("class not found") });
            },
        };
        let cls_name = match class.get_constant(ref_name_index) {
            Some(ConstantType::Utf8 { value }) => value,
            _ => {
                return Err(RuntimeError::GenericError { message: text("class not found") });
            },
        };
        let this_name = class.get_class_name();
        if !bytes_eq(cls_name, this_name) {
            return Err(
                RuntimeError::GenericError {
                    message: text("static invocation of another class is not supported"),
                },
            );
        }
        let midx = match class.get_method_index_from_nat(name_and_type_index) {
            Some(i) => i,
            None => {
                return Err(RuntimeError::MethodNotFound);
            },
        };
        let callee = &class.methods[midx];
        let signature = match method_desc(&callee.descriptor, 0) {
            Ok((sig, _)) => sig,
            Err(_) => {
                proof {
                    crate::descriptor::lemma_descriptor_none(callee.descriptor@);
                }
                return Err(
                    RuntimeError::GenericError { message: text("bad method descriptor") },
                );
            },
        };
        proof {
            crate::descriptor::lemma_method_desc_model(
                signature.arguments@,
                signature.return_type,
                callee.descriptor@,
                crate::descriptor::spec_param_tail(callee.descriptor@, 1)->Ok_0,
                crate::descriptor::spec_parse_type(
                    callee.descriptor@,
                    crate::descriptor::spec_param_tail(callee.descriptor@, 1)->Ok_0,
                )->Ok_0,
            );
        }
        let argc = signature.arguments.len();
        if stack_frame.stack.len() < argc {
            return Err(RuntimeError::EmptyStack);
        }
        let ghost params_spec = signature.arguments@.map_values(|vt: ValueType| type_model(vt));
        let ghost vals = stack_frame.stack@.subrange(
            stack_frame.stack@.len() - argc,
            stack_frame.stack@.len() as int,
        );
        let mut ti: usize = 0;
        while ti < argc
            invariant
                0 <= ti <= argc,
                forall|i: int|
                    0 <= i < ti ==> arg_matches(
                        type_model(signature.arguments@[i]),
                        stack_frame.stack@[stack_frame.stack@.len() - argc + i],
                    ),
            decreases argc - ti,
        {
            let sv = stack_frame.stack[stack_frame.stack.len() - argc + ti];
            if !Runtime::argument_matches(&signature.arguments[ti], sv) {
                proof {
                    assert(params_spec[ti as int] == type_model(
                        signature.arguments@[ti as int],
                    ));
                    assert(vals[ti as int] == stack_frame.stack@[stack_frame.stack@.len() - argc
                        + ti]);
                    assert(!args_match(params_spec, vals));
                }
                return Err(RuntimeError::StackType { expected: text("integer") });
            }
            ti = ti + 1;
        }
        proof {
            assert forall|i: int|
                0 <= i < params_spec.len() && i < vals.len() implies arg_matches(
                #[trigger] params_spec[i],
                #[trigger] vals[i],
            ) by {
                assert(params_spec[i] == type_model(signature.arguments@[i]));
                assert(vals[i] == stack_frame.stack@[stack_frame.stack@.len() - argc + i]);
            }
            assert(args_match(params_spec, vals));
        }
        if fuel == 0 {
            return Err(RuntimeError::GenericError { message: text("call depth limit reached") });
        }
        let ghost stack0 = stack_frame.stack@;
        let mut popped: Vec<StackValue> = Vec::new();
        let mut k: usize = 0;
        while k < argc
            invariant
                k <= argc,
                popped.len() == k,
                stack_frame.stack@ == stack0.take(stack0.len() - k),
                stack_frame.local_variables@ == old(stack_frame).local_variables@,
                forall|j: int| 0 <= j < k ==> #[trigger] popped@[j] == stack0[stack0.len() - 1 - j],
            decreases argc - k,
        {
            match stack_frame.pop_stack() {
                Some(v) => {
                    proof {
                        assert(stack0.take(stack0.len() - k).drop_last() =~= stack0.take(
                            stack0.len() - (k + 1),
                        ));
                        assert(stack0.take(stack0.len() - k).last() == stack0[stack0.len() - 1
                            - k]);
                    }
                    popped.push(v);
                },
                None => unreached(),
            }
            k = k + 1;
        }
        let mut args: Vec<LocalVariable> = Vec::new();
        let mut k2: usize = 0;
        while k2 < argc
            invariant
                k2 <= argc,
                argc == popped.len(),
                args.len() == k2,
                forall|j: int| 0 <= j < argc ==> #[trigger] popped@[j] == stack0[stack0.len() - 1
                    - j],
                forall|j: int|
                    0 <= j < k2 ==> #[trigger] args@[j] == sv_to_lv(
                        stack0[stack0.len() - argc + j],
                    ),
            decreases argc - k2,
        {
            args.push(lv_of_sv(popped[argc - 1 - k2]));
            k2 = k2 + 1;
        }
        proof {
            assert(args@ =~= stack0.subrange(stack0.len() - argc, stack0.len() as int).map_values(
                |v: StackValue| sv_to_lv(v),
            ));
        }
        let return_val = Runtime::run_method(class, midx, args, fuel - 1);
        match return_val {
            Ok(Some(stack_value)) => {
                stack_frame.push_stack(stack_value);
                Ok(InstructionResult::Continue)
            },
            Ok(None) => Ok(InstructionResult::Continue),
            Err(err) => Err(err),
        }
    }
}

impl Runtime {
    /// Runs method `method_idx` of `class` on the given arguments with the
    /// given step budget: builds the frame, decodes the code, and dispatches
    /// instructions until a return, an error, or the spent budget.
    #[verifier::rlimit(100)]
    #[verifier::spinoff_prover]
    #[verifier::loop_isolation(false)]
    pub fn run_method(
        class: &ClassFile,
        method_idx: usize,
        arguments: Vec<LocalVariable>,
        fuel: u64,
    ) -> (r: Result<Option<StackValue>, RuntimeError>)
        requires
            spec_class_name(*class) is Some,
        ensures
            (spec_run_method(*class, method_idx as int, arguments@, fuel as nat) matches
                RunRes::Done(v) ==> r == Ok::<Option<StackValue>, RuntimeError>(v)),
            (spec_run_method(*class, method_idx as int, arguments@, fuel as nat) matches
                RunRes::Failed(k) ==> r matches Err(e) && kind_of(e) == k),
        decreases fuel, 3int,
    {
        let ghost args0 = arguments@;
        if method_idx >= class.methods.len() {
            return Err(RuntimeError::GenericError { message: text("no such method") });
        }
        let method = &class.methods[method_idx];
        let code = match method.get_code() {
            Some(c) => c,
            None => {
                return Err(RuntimeError::GenericError { message: text("method has no code") });
            },
        };
        if code.code.len() as u64 > 0xFFFFFFFF {
            return Err(RuntimeError::GenericError { message: text("code too long") });
        }
        let decoded = match code.instructions() {
            Ok(d) => d,
            Err(_) => {
                return Err(
                    RuntimeError::GenericError { message: text("cannot decode instructions") },
                );
            },
        };
        let ghost instrs = decoded@;
        proof {
            crate::instructions::lemma_spec_read_all_total_size(code.code@, 0);
        }
        if arguments.len() > code.max_locals as usize {
            return Err(RuntimeError::GenericError { message: text("too many arguments") });
        }
        let mut stack_frame = StackFrame::for_method(method, arguments);
        proof {
            assert(frame_model(stack_frame).locals =~= init_frame(
                args0,
                spec_first_code(method.attributes@)->0.max_locals as int,
            ).locals);
        }
        let mut ins = crate::stream::Instructions::create(decoded);
        let mut steps_left: u64 = fuel;
        loop
            invariant
                ins.wf(),
                ins.instrs() == instrs,
                0 <= ins.cur() <= instrs.len(),
                steps_left <= fuel,
                spec_loop(
                    *class,
                    instrs,
                    method.descriptor@,
                    frame_model(stack_frame),
                    ins.cur(),
                    steps_left as nat,
                ) == spec_run_method(*class, method_idx as int, args0, fuel as nat),
            decreases steps_left,
        {
            if steps_left == 0 {
                return Err(RuntimeError::GenericError { message: text("step limit reached") });
            }
            steps_left = steps_left - 1;
            let at = ins.position();
            let instruction = match ins.next() {
                Some(i) => i,
                None => {
                    return Err(
                        RuntimeError::GenericError {
                            message: text("reached end of method with no return"),
                        },
                    );
                },
            };
            let pc = ins.offset_of(at);
            proof {
                crate::stream::lemma_offset_at_bounds(instrs, at as int);
                crate::instructions::lemma_spec_read_all_total_size(code.code@, 0);
            }
            match Runtime::exec(class, &instruction, pc, &mut stack_frame, steps_left) {
                Ok(InstructionResult::Continue) => {},
                Ok(InstructionResult::Goto(target)) => {
                    let ghost step = spec_exec(
                        *class,
                        instruction,
                        pc as int,
                        frame_model(stack_frame),
                        steps_left as nat,
                    );
                    proof {
                        ins.offsets_bounded();
                    }
                    if target < 0 || target as u64 > usize::MAX as u64 {
                        proof {
                            assert(forall|j: int|
                                0 <= j < instrs.len()
                                    ==> #[trigger] crate::stream::offset_at(instrs, j)
                                    != target as int);
                        }
                        return Err(
                            RuntimeError::GenericError { message: text("invalid jump target") },
                        );
                    }
                    let ok = ins.goto(target as usize);
                    if !ok {
                        return Err(
                            RuntimeError::GenericError { message: text("invalid jump target") },
                        );
                    }
                    proof {
                        let j = choose|j: int|
                            0 <= j < instrs.len() && #[trigger] crate::stream::offset_at(
                                instrs,
                                j,
                            ) == target as int;
                        crate::stream::lemma_offset_at_unique(instrs, j, ins.cur());
                    }
                },
                Ok(InstructionResult::Return(return_value)) => {
                    let signature = match method_desc(&method.descriptor, 0) {
                        Ok((sig, _)) => sig,
                        Err(_) => {
                            proof {
                                crate::descriptor::lemma_descriptor_none(method.descriptor@);
                            }
                            return Err(
                                RuntimeError::GenericError {
                                    message: text("bad method descriptor"),
                                },
                            );
                        },
                    };
                    proof {
                        crate::descriptor::lemma_method_desc_model(
                            signature.arguments@,
                            signature.return_type,
                            method.descriptor@,
                            crate::descriptor::spec_param_tail(method.descriptor@, 1)->Ok_0,
                            crate::descriptor::spec_parse_type(
                                method.descriptor@,
                                crate::descriptor::spec_param_tail(method.descriptor@, 1)->Ok_0,
                            )->Ok_0,
                        );
                    }
                    match Runtime::check_return_type(&signature.return_type, &return_value) {
                        Ok(()) => {
                            return Ok(return_value);
                        },
                        Err(e) => {
                            return Err(e);
                        },
                    }
                },
                Err(err) => {
                    return Err(err);
                },
            }
        }
    }

    /// Looks up `method_name` on the entry class (the last loaded class of
    /// that name, searched by name alone) and runs it on no arguments.
    #[verifier::loop_isolation(false)]
    pub fn exec_method_on_main(&self, method_name: &Vec<u8>) -> (r: Result<
        Option<StackValue>,
        RuntimeError,
    >)
        requires
            self.wf(),
        ensures
            ({
                let cf = self.spec_classes()[last_with_name(
                    self.spec_classes(),
                    self.spec_main_class(),
                )];
                match first_method_named(cf.methods@, method_name@, 0) {
                    None => r matches Err(e) && kind_of(e) == ErrorKind::Generic,
                    Some(mi) => {
                        &&& (spec_run_method(cf, mi, Seq::empty(), u64::MAX as nat) matches
                            RunRes::Done(v) ==> r == Ok::<Option<StackValue>, RuntimeError>(v))
                        &&& (spec_run_method(cf, mi, Seq::empty(), u64::MAX as nat) matches
                            RunRes::Failed(k) ==> r matches Err(e) && kind_of(e) == k)
                    },
                }
            }),
    {
        proof {
            lemma_last_with_name_found(self.spec_classes(), self.spec_main_class());
            assert(self.spec_classes().take(self.classes.len() as int) =~= self.spec_classes());
        }
        let mut ci: usize = self.classes.len();
        let mut found: bool = false;
        while ci > 0 && !found
            invariant
                0 <= ci <= self.classes.len(),
                !found ==> last_with_name(self.spec_classes(), self.spec_main_class())
                    == last_with_name(
                    self.spec_classes().take(ci as int),
                    self.spec_main_class(),
                ),
                found ==> ci == last_with_name(self.spec_classes(), self.spec_main_class()),
            decreases ci + (if found {
                0int
            } else {
                1int
            }),
        {
            proof {
                assert(self.spec_classes().take(ci as int).last() == self.spec_classes()[ci - 1]);
                assert(self.spec_classes().take(ci as int).drop_last() =~= self.spec_classes()
                    .take(ci - 1));
            }
            if bytes_eq(self.classes[ci - 1].get_class_name(), &self.main_class) {
                ci = ci - 1;
                found = true;
            } else {
                ci = ci - 1;
            }
        }
        if !found {
            // A well-formed runtime always has its entry class loaded.
            proof {
                assert(self.spec_classes().take(0) =~= Seq::<ClassFile>::empty());
            }
            unreached::<()>();
        }
        let class = &self.classes[ci];
        let mut mi: usize = 0;
        let mut method_found: Option<usize> = None;
        while mi < class.methods.len() && method_found.is_none()
            invariant
                0 <= mi <= class.methods@.len(),
                method_found is None ==> first_method_named(class.methods@, method_name@, 0)
                    == first_method_named(class.methods@, method_name@, mi as int),
                method_found matches Some(m) ==> first_method_named(
                    class.methods@,
                    method_name@,
                    0,
                ) == Some(m as int) && m < class.methods@.len(),
            decreases class.methods@.len() - mi + (if method_found is Some {
                0int
            } else {
                1int
            }),
        {
            if bytes_eq(&class.methods[mi].name, method_name) {
                method_found = Some(mi);
            } else {
                mi = mi + 1;
            }
        }
        let midx = match method_found {
            Some(m) => m,
            None => {
                return Err(
                    RuntimeError::GenericError {
                        message: text("entry class does not have such a method"),
                    },
                );
            },
        };
        Runtime::run_method(class, midx, Vec::new(), u64::MAX)
    }
}

/// The class the runtime's entry name refers to exists and has a resolvable
/// name.
proof fn lemma_last_with_name_found(classes: Seq<ClassFile>, name: Seq<u8>)
    requires
        exists|i: int|
            0 <= i < classes.len() && spec_class_name(#[trigger] classes[i]) == Some(name),
    ensures
        0 <= last_with_name(classes, name) < classes.len(),
        spec_class_name(classes[last_with_name(classes, name)]) == Some(name),
    decreases classes.len(),
{
    if classes.len() > 0 {
        if spec_class_name(classes.last()) == Some(name) {
        } else {
            let i = choose|i: int|
                0 <= i < classes.len() && spec_class_name(#[trigger] classes[i]) == Some(name);
            assert(classes.drop_last()[i] == classes[i]);
            lemma_last_with_name_found(classes.drop_last(), name);
            assert(classes[last_with_name(classes.drop_last(), name)] == classes.drop_last()[
                last_with_name(classes.drop_last(), name)]);
        }
    }
}

} // verus!
