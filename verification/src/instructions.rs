//! The bytecode instruction set.
//!
//! A table maps each opcode byte to a tagged variant carrying the decoded
//! immediate operands and knowing its encoded length. Branch-target
//! immediates are signed 16-bit byte offsets relative to the start of the
//! branch instruction; the wide `GotoW`/`JSRW` forms carry signed 32-bit
//! offsets. `TableSwitch` and `LookupSwitch` are decoded with fixed widths
//! here, although the real formats are padded and variable-length.

use vstd::prelude::*;
use crate::reader::DecodeError;
use crate::reader::be16;
use crate::reader::be32;
use crate::reader::be64;
use crate::reader::sign16;
use crate::reader::sign32;
use crate::reader::read_u8;
use crate::reader::read_u16;
use crate::reader::read_i16;
use crate::reader::read_u32;
use crate::reader::read_i32;
use crate::reader::read_u64;

verus! {

/// Why decoding a code array into instructions failed.
#[derive(Debug, Clone, Copy, PartialEq, Eq)]
pub enum ReadInstructionError {
    /// A parse failure that is neither of the two cases below.
    ParsingError,
    /// The code array ended inside an instruction's immediates.
    ParsingIncomplete,
    /// An opcode byte outside the recognized set, carried along.
    InvalidOpcode { opcode: u8 },
}

/// One decoded bytecode instruction, carrying its immediate operands.
#[derive(Debug, Clone, Copy, PartialEq, Eq)]
pub enum Instruction {
    NOOP,
    AConstNull,
    IConstm1,
    IConst0,
    IConst1,
    IConst2,
    IConst3,
    IConst4,
    IConst5,
    LConst0,
    LConst1,
    FConst0,
    FConst1,
    FConst2,
    DConst0,
    DConst1,
    BIPush(u8),
    SIPush(u16),
    LDC(u8),
    LDCW(u16),
    LDC2W(u16),
    ILoad(u8),
    LLoad(u8),
    FLoad(u8),
    DLoad(u8),
    ALoad(u8),
    ILoad0,
    ILoad1,
    ILoad2,
    ILoad3,
    LLoad0,
    LLoad1,
    LLoad2,
    LLoad3,
    FLoad0,
    FLoad1,
    FLoad2,
    FLoad3,
    DLoad0,
    DLoad1,
    DLoad2,
    DLoad3,
    ALoad0,
    ALoad1,
    ALoad2,
    ALoad3,
    IALoad,
    LALoad,
    FALoad,
    DALoad,
    AALoad,
    BALoad,
    CALoad,
    ScALoad,
    IStore(u8),
    LStore(u8),
    FStore(u8),
    DStore(u8),
    AStore(u8),
    IStore0,
    IStore1,
    IStore2,
    IStore3,
    LStore0,
    LStore1,
    LStore2,
    LStore3,
    FStore0,
    FStore1,
    FStore2,
    FStore3,
    DStore0,
    DStore1,
    DStore2,
    DStore3,
    AStore0,
    AStore1,
    AStore2,
    AStore3,
    IAStore,
    LAStore,
    FAStore,
    DAStore,
    AAStore,
    BAStore,
    CAStore,
    SAStore,
    Pop,
    Pop2,
    Dup,
    DupX1,
    DupX2,
    Dup2,
    Dup2X1,
    Dup2X2,
    Swap,
    IAdd,
    LAdd,
    FAdd,
    DAdd,
    ISub,
    LSub,
    FSub,
    DSub,
    IMul,
    LMul,
    FMul,
    DMul,
    IDiv,
    LDiv,
    FDiv,
    DDiv,
    IRem,
    LRem,
    FRem,
    DRem,
    INeg,
    LNeg,
    FNeg,
    DNeg,
    IShl,
    LShl,
    IShr,
    LShr,
    IUSHR,
    LUSHR,
    IAnd,
    LAnd,
    IOr,
    LOr,
    IXor,
    LXor,
    IInc(u8, u8),
    I2L,
    I2F,
    I2D,
    L2I,
    L2F,
    L2D,
    F2I,
    F2L,
    F2D,
    D2I,
    D2L,
    D2F,
    I2B,
    I2C,
    I2S,
    LCmp,
    FCmpL,
    FCmpG,
    DCmpL,
    DCmpG,
    Ifeq(i16),
    Ifne(i16),
    Iflt(i16),
    Ifge(i16),
    Ifgt(i16),
    Ifle(i16),
    IfICmpEQ(i16),
    IfICmpNE(i16),
    IfICmpLT(i16),
    IfICmpGE(i16),
    IfICmpGT(i16),
    IfICmpLE(i16),
    IfACmpEQ(i16),
    IfACmpNE(i16),
    Goto(i16),
    JSR(i16),
    Ret(u8),
    TableSwitch(u8),
    LookupSwitch(u64, u64),
    IReturn,
    LReturn,
    FReturn,
    DReturn,
    AReturn,
    Return,
    GetStatic(u16),
    PutStatic(u16),
    GetField(u16),
    PutField(u16),
    InvokeVirtual(u16),
    InvokeSpecial(u16),
    InvokeStatic(u16),
    InvokeInterface(u32),
    InvokeDynamic(u32),
    New(u16),
    NewArray(u8),
    ANewArray(u16),
    ArrayLength,
    AThrow,
    CheckCast(u16),
    InstanceOf(u16),
    MonitorEnter,
    MonitorExit,
    Wide(u16, u8),
    MultiANewArray(u16, u8),
    IfNull(i16),
    IfNonNull(i16),
    GotoW(i32),
    JSRW(i32),
    Breakpoint,
    ImpDep1,
    ImpDep2,
}

/// The number of code bytes the encoded form of `ins` occupies, opcode byte
/// included.
pub open spec fn instr_size(ins: Instruction) -> int {
    match ins {
        Instruction::NOOP => 1,
        Instruction::AConstNull => 1,
        Instruction::IConstm1 => 1,
        Instruction::IConst0 => 1,
        Instruction::IConst1 => 1,
        Instruction::IConst2 => 1,
        Instruction::IConst3 => 1,
        Instruction::IConst4 => 1,
        Instruction::IConst5 => 1,
        Instruction::LConst0 => 1,
        Instruction::LConst1 => 1,
        Instruction::FConst0 => 1,
        Instruction::FConst1 => 1,
        Instruction::FConst2 => 1,
        Instruction::DConst0 => 1,
        Instruction::DConst1 => 1,
        Instruction::BIPush(_) => 2,
        Instruction::SIPush(_) => 3,
        Instruction::LDC(_) => 2,
        Instruction::LDCW(_) => 3,
        Instruction::LDC2W(_) => 3,
        Instruction::ILoad(_) => 2,
        Instruction::LLoad(_) => 2,
        Instruction::FLoad(_) => 2,
        Instruction::DLoad(_) => 2,
        Instruction::ALoad(_) => 2,
        Instruction::ILoad0 => 1,
        Instruction::ILoad1 => 1,
        Instruction::ILoad2 => 1,
        Instruction::ILoad3 => 1,
        Instruction::LLoad0 => 1,
        Instruction::LLoad1 => 1,
        Instruction::LLoad2 => 1,
        Instruction::LLoad3 => 1,
        Instruction::FLoad0 => 1,
        Instruction::FLoad1 => 1,
        Instruction::FLoad2 => 1,
        Instruction::FLoad3 => 1,
        Instruction::DLoad0 => 1,
        Instruction::DLoad1 => 1,
        Instruction::DLoad2 => 1,
        Instruction::DLoad3 => 1,
        Instruction::ALoad0 => 1,
        Instruction::ALoad1 => 1,
        Instruction::ALoad2 => 1,
        Instruction::ALoad3 => 1,
        Instruction::IALoad => 1,
        Instruction::LALoad => 1,
        Instruction::FALoad => 1,
        Instruction::DALoad => 1,
        Instruction::AALoad => 1,
        Instruction::BALoad => 1,
        Instruction::CALoad => 1,
        Instruction::ScALoad => 1,
        Instruction::IStore(_) => 2,
        Instruction::LStore(_) => 2,
        Instruction::FStore(_) => 2,
        Instruction::DStore(_) => 2,
        Instruction::AStore(_) => 2,
        Instruction::IStore0 => 1,
        Instruction::IStore1 => 1,
        Instruction::IStore2 => 1,
        Instruction::IStore3 => 1,
        Instruction::LStore0 => 1,
        Instruction::LStore1 => 1,
        Instruction::LStore2 => 1,
        Instruction::LStore3 => 1,
        Instruction::FStore0 => 1,
        Instruction::FStore1 => 1,
        Instruction::FStore2 => 1,
        Instruction::FStore3 => 1,
        Instruction::DStore0 => 1,
        Instruction::DStore1 => 1,
        Instruction::DStore2 => 1,
        Instruction::DStore3 => 1,
        Instruction::AStore0 => 1,
        Instruction::AStore1 => 1,
        Instruction::AStore2 => 1,
        Instruction::AStore3 => 1,
        Instruction::IAStore => 1,
        Instruction::LAStore => 1,
        Instruction::FAStore => 1,
        Instruction::DAStore => 1,
        Instruction::AAStore => 1,
        Instruction::BAStore => 1,
        Instruction::CAStore => 1,
        Instruction::SAStore => 1,
        Instruction::Pop => 1,
        Instruction::Pop2 => 1,
        Instruction::Dup => 1,
        Instruction::DupX1 => 1,
        Instruction::DupX2 => 1,
        Instruction::Dup2 => 1,
        Instruction::Dup2X1 => 1,
        Instruction::Dup2X2 => 1,
        Instruction::Swap => 1,
        Instruction::IAdd => 1,
        Instruction::LAdd => 1,
        Instruction::FAdd => 1,
        Instruction::DAdd => 1,
        Instruction::ISub => 1,
        Instruction::LSub => 1,
        Instruction::FSub => 1,
        Instruction::DSub => 1,
        Instruction::IMul => 1,
        Instruction::LMul => 1,
        Instruction::FMul => 1,
        Instruction::DMul => 1,
        Instruction::IDiv => 1,
        Instruction::LDiv => 1,
        Instruction::FDiv => 1,
        Instruction::DDiv => 1,
        Instruction::IRem => 1,
        Instruction::LRem => 1,
        Instruction::FRem => 1,
        Instruction::DRem => 1,
        Instruction::INeg => 1,
        Instruction::LNeg => 1,
        Instruction::FNeg => 1,
        Instruction::DNeg => 1,
        Instruction::IShl => 1,
        Instruction::LShl => 1,
        Instruction::IShr => 1,
        Instruction::LShr => 1,
        Instruction::IUSHR => 1,
        Instruction::LUSHR => 1,
        Instruction::IAnd => 1,
        Instruction::LAnd => 1,
        Instruction::IOr => 1,
        Instruction::LOr => 1,
        Instruction::IXor => 1,
        Instruction::LXor => 1,
        Instruction::IInc(_, _) => 3,
        Instruction::I2L => 1,
        Instruction::I2F => 1,
        Instruction::I2D => 1,
        Instruction::L2I => 1,
        Instruction::L2F => 1,
        Instruction::L2D => 1,
        Instruction::F2I => 1,
        Instruction::F2L => 1,
        Instruction::F2D => 1,
        Instruction::D2I => 1,
        Instruction::D2L => 1,
        Instruction::D2F => 1,
        Instruction::I2B => 1,
        Instruction::I2C => 1,
        Instruction::I2S => 1,
        Instruction::LCmp => 1,
        Instruction::FCmpL => 1,
        Instruction::FCmpG => 1,
        Instruction::DCmpL => 1,
        Instruction::DCmpG => 1,
        Instruction::Ifeq(_) => 3,
        Instruction::Ifne(_) => 3,
        Instruction::Iflt(_) => 3,
        Instruction::Ifge(_) => 3,
        Instruction::Ifgt(_) => 3,
        Instruction::Ifle(_) => 3,
        Instruction::IfICmpEQ(_) => 3,
        Instruction::IfICmpNE(_) => 3,
        Instruction::IfICmpLT(_) => 3,
        Instruction::IfICmpGE(_) => 3,
        Instruction::IfICmpGT(_) => 3,
        Instruction::IfICmpLE(_) => 3,
        Instruction::IfACmpEQ(_) => 3,
        Instruction::IfACmpNE(_) => 3,
        Instruction::Goto(_) => 3,
        Instruction::JSR(_) => 3,
        Instruction::Ret(_) => 2,
        Instruction::TableSwitch(_) => 2,
        Instruction::LookupSwitch(_, _) => 17,
        Instruction::IReturn => 1,
        Instruction::LReturn => 1,
        Instruction::FReturn => 1,
        Instruction::DReturn => 1,
        Instruction::AReturn => 1,
        Instruction::Return => 1,
        Instruction::GetStatic(_) => 3,
        Instruction::PutStatic(_) => 3,
        Instruction::GetField(_) => 3,
        Instruction::PutField(_) => 3,
        Instruction::InvokeVirtual(_) => 3,
        Instruction::InvokeSpecial(_) => 3,
        Instruction::InvokeStatic(_) => 3,
        Instruction::InvokeInterface(_) => 5,
        Instruction::InvokeDynamic(_) => 5,
        Instruction::New(_) => 3,
        Instruction::NewArray(_) => 2,
        Instruction::ANewArray(_) => 3,
        Instruction::ArrayLength => 1,
        Instruction::AThrow => 1,
        Instruction::CheckCast(_) => 3,
        Instruction::InstanceOf(_) => 3,
        Instruction::MonitorEnter => 1,
        Instruction::MonitorExit => 1,
        Instruction::Wide(_, _) => 4,
        Instruction::MultiANewArray(_, _) => 4,
        Instruction::IfNull(_) => 3,
        Instruction::IfNonNull(_) => 3,
        Instruction::GotoW(_) => 5,
        Instruction::JSRW(_) => 5,
        Instruction::Breakpoint => 1,
        Instruction::ImpDep1 => 1,
        Instruction::ImpDep2 => 1,
    }
}

/// Decodes the one instruction stored at `pos`. `Malformed` stands for an
/// unrecognized opcode byte; `Incomplete` for immediate bytes that run past
/// the end of the buffer.
pub open spec fn spec_read(b: Seq<u8>, pos: int) -> Result<(Instruction, int), DecodeError> {
    if pos < 0 || pos >= b.len() {
        Err(DecodeError::Incomplete(1))
    } else {
        match b[pos] {
            0x00u8 => Ok((Instruction::NOOP, pos + 1)),
            0x01u8 => Ok((Instruction::AConstNull, pos + 1)),
            0x02u8 => Ok((Instruction::IConstm1, pos + 1)),
            0x03u8 => Ok((Instruction::IConst0, pos + 1)),
            0x04u8 => Ok((Instruction::IConst1, pos + 1)),
            0x05u8 => Ok((Instruction::IConst2, pos + 1)),
            0x06u8 => Ok((Instruction::IConst3, pos + 1)),
            0x07u8 => Ok((Instruction::IConst4, pos + 1)),
            0x08u8 => Ok((Instruction::IConst5, pos + 1)),
            0x09u8 => Ok((Instruction::LConst0, pos + 1)),
            0x0au8 => Ok((Instruction::LConst1, pos + 1)),
            0x0bu8 => Ok((Instruction::FConst0, pos + 1)),
            0x0cu8 => Ok((Instruction::FConst1, pos + 1)),
            0x0du8 => Ok((Instruction::FConst2, pos + 1)),
            0x0eu8 => Ok((Instruction::DConst0, pos + 1)),
            0x0fu8 => Ok((Instruction::DConst1, pos + 1)),
            0x10u8 => if pos + 2 <= b.len() {
                Ok((Instruction::BIPush(b[pos + 1]), pos + 2))
            } else {
                Err(DecodeError::Incomplete(1))
            },
            0x11u8 => if pos + 3 <= b.len() {
                Ok((Instruction::SIPush(be16(b, pos + 1) as u16), pos + 3))
            } else {
                Err(DecodeError::Incomplete(2))
            },
            0x12u8 => if pos + 2 <= b.len() {
                Ok((Instruction::LDC(b[pos + 1]), pos + 2))
            } else {
                Err(DecodeError::Incomplete(1))
            },
            0x13u8 => if pos + 3 <= b.len() {
                Ok((Instruction::LDCW(be16(b, pos + 1) as u16), pos + 3))
            } else {
                Err(DecodeError::Incomplete(2))
            },
            0x14u8 => if pos + 3 <= b.len() {
                Ok((Instruction::LDC2W(be16(b, pos + 1) as u16), pos + 3))
            } else {
                Err(DecodeError::Incomplete(2))
            },
            0x15u8 => if pos + 2 <= b.len() {
                Ok((Instruction::ILoad(b[pos + 1]), pos + 2))
            } else {
                Err(DecodeError::Incomplete(1))
            },
            0x16u8 => if pos + 2 <= b.len() {
                Ok((Instruction::LLoad(b[pos + 1]), pos + 2))
            } else {
                Err(DecodeError::Incomplete(1))
            },
            0x17u8 => if pos + 2 <= b.len() {
                Ok((Instruction::FLoad(b[pos + 1]), pos + 2))
            } else {
                Err(DecodeError::Incomplete(1))
            },
            0x18u8 => if pos + 2 <= b.len() {
                Ok((Instruction::DLoad(b[pos + 1]), pos + 2))
            } else {
                Err(DecodeError::Incomplete(1))
            },
            0x19u8 => if pos + 2 <= b.len() {
                Ok((Instruction::ALoad(b[pos + 1]), pos + 2))
            } else {
                Err(DecodeError::Incomplete(1))
            },
            0x1au8 => Ok((Instruction::ILoad0, pos + 1)),
            0x1bu8 => Ok((Instruction::ILoad1, pos + 1)),
            0x1cu8 => Ok((Instruction::ILoad2, pos + 1)),
            0x1du8 => Ok((Instruction::ILoad3, pos + 1)),
            0x1eu8 => Ok((Instruction::LLoad0, pos + 1)),
            0x1fu8 => Ok((Instruction::LLoad1, pos + 1)),
            0x20u8 => Ok((Instruction::LLoad2, pos + 1)),
            0x21u8 => Ok((Instruction::LLoad3, pos + 1)),
            0x22u8 => Ok((Instruction::FLoad0, pos + 1)),
            0x23u8 => Ok((Instruction::FLoad1, pos + 1)),
            0x24u8 => Ok((Instruction::FLoad2, pos + 1)),
            0x25u8 => Ok((Instruction::FLoad3, pos + 1)),
            0x26u8 => Ok((Instruction::DLoad0, pos + 1)),
            0x27u8 => Ok((Instruction::DLoad1, pos + 1)),
            0x28u8 => Ok((Instruction::DLoad2, pos + 1)),
            0x29u8 => Ok((Instruction::DLoad3, pos + 1)),
            0x2au8 => Ok((Instruction::ALoad0, pos + 1)),
            0x2bu8 => Ok((Instruction::ALoad1, pos + 1)),
            0x2cu8 => Ok((Instruction::ALoad2, pos + 1)),
            0x2du8 => Ok((Instruction::ALoad3, pos + 1)),
            0x2eu8 => Ok((Instruction::IALoad, pos + 1)),
            0x2fu8 => Ok((Instruction::LALoad, pos + 1)),
            0x30u8 => Ok((Instruction::FALoad, pos + 1)),
            0x31u8 => Ok((Instruction::DALoad, pos + 1)),
            0x32u8 => Ok((Instruction::AALoad, pos + 1)),
            0x33u8 => Ok((Instruction::BALoad, pos + 1)),
            0x34u8 => Ok((Instruction::CALoad, pos + 1)),
            0x35u8 => Ok((Instruction::ScALoad, pos + 1)),
            0x36u8 => if pos + 2 <= b.len() {
                Ok((Instruction::IStore(b[pos + 1]), pos + 2))
            } else {
                Err(DecodeError::Incomplete(1))
            },
            0x37u8 => if pos + 2 <= b.len() {
                Ok((Instruction::LStore(b[pos + 1]), pos + 2))
            } else {
                Err(DecodeError::Incomplete(1))
            },
            0x38u8 => if pos + 2 <= b.len() {
                Ok((Instruction::FStore(b[pos + 1]), pos + 2))
            } else {
                Err(DecodeError::Incomplete(1))
            },
            0x39u8 => if pos + 2 <= b.len() {
                Ok((Instruction::DStore(b[pos + 1]), pos + 2))
            } else {
                Err(DecodeError::Incomplete(1))
            },
            0x3au8 => if pos + 2 <= b.len() {
                Ok((Instruction::AStore(b[pos + 1]), pos + 2))
            } else {
                Err(DecodeError::Incomplete(1))
            },
            0x3bu8 => Ok((Instruction::IStore0, pos + 1)),
            0x3cu8 => Ok((Instruction::IStore1, pos + 1)),
            0x3du8 => Ok((Instruction::IStore2, pos + 1)),
            0x3eu8 => Ok((Instruction::IStore3, pos + 1)),
            0x3fu8 => Ok((Instruction::LStore0, pos + 1)),
            0x40u8 => Ok((Instruction::LStore1, pos + 1)),
            0x41u8 => Ok((Instruction::LStore2, pos + 1)),
            0x42u8 => Ok((Instruction::LStore3, pos + 1)),
            0x43u8 => Ok((Instruction::FStore0, pos + 1)),
            0x44u8 => Ok((Instruction::FStore1, pos + 1)),
            0x45u8 => Ok((Instruction::FStore2, pos + 1)),
            0x46u8 => Ok((Instruction::FStore3, pos + 1)),
            0x47u8 => Ok((Instruction::DStore0, pos + 1)),
            0x48u8 => Ok((Instruction::DStore1, pos + 1)),
            0x49u8 => Ok((Instruction::DStore2, pos + 1)),
            0x4au8 => Ok((Instruction::DStore3, pos + 1)),
            0x4bu8 => Ok((Instruction::AStore0, pos + 1)),
            0x4cu8 => Ok((Instruction::AStore1, pos + 1)),
            0x4du8 => Ok((Instruction::AStore2, pos + 1)),
            0x4eu8 => Ok((Instruction::AStore3, pos + 1)),
            0x4fu8 => Ok((Instruction::IAStore, pos + 1)),
            0x50u8 => Ok((Instruction::LAStore, pos + 1)),
            0x51u8 => Ok((Instruction::FAStore, pos + 1)),
            0x52u8 => Ok((Instruction::DAStore, pos + 1)),
            0x53u8 => Ok((Instruction::AAStore, pos + 1)),
            0x54u8 => Ok((Instruction::BAStore, pos + 1)),
            0x55u8 => Ok((Instruction::CAStore, pos + 1)),
            0x56u8 => Ok((Instruction::SAStore, pos + 1)),
            0x57u8 => Ok((Instruction::Pop, pos + 1)),
            0x58u8 => Ok((Instruction::Pop2, pos + 1)),
            0x59u8 => Ok((Instruction::Dup, pos + 1)),
            0x5au8 => Ok((Instruction::DupX1, pos + 1)),
            0x5bu8 => Ok((Instruction::DupX2, pos + 1)),
            0x5cu8 => Ok((Instruction::Dup2, pos + 1)),
            0x5du8 => Ok((Instruction::Dup2X1, pos + 1)),
            0x5eu8 => Ok((Instruction::Dup2X2, pos + 1)),
            0x5fu8 => Ok((Instruction::Swap, pos + 1)),
            0x60u8 => Ok((Instruction::IAdd, pos + 1)),
            0x61u8 => Ok((Instruction::LAdd, pos + 1)),
            0x62u8 => Ok((Instruction::FAdd, pos + 1)),
            0x63u8 => Ok((Instruction::DAdd, pos + 1)),
            0x64u8 => Ok((Instruction::ISub, pos + 1)),
            0x65u8 => Ok((Instruction::LSub, pos + 1)),
            0x66u8 => Ok((Instruction::FSub, pos + 1)),
            0x67u8 => Ok((Instruction::DSub, pos + 1)),
            0x68u8 => Ok((Instruction::IMul, pos + 1)),
            0x69u8 => Ok((Instruction::LMul, pos + 1)),
            0x6au8 => Ok((Instruction::FMul, pos + 1)),
            0x6bu8 => Ok((Instruction::DMul, pos + 1)),
            0x6cu8 => Ok((Instruction::IDiv, pos + 1)),
            0x6du8 => Ok((Instruction::LDiv, pos + 1)),
            0x6eu8 => Ok((Instruction::FDiv, pos + 1)),
            0x6fu8 => Ok((Instruction::DDiv, pos + 1)),
            0x70u8 => Ok((Instruction::IRem, pos + 1)),
            0x71u8 => Ok((Instruction::LRem, pos + 1)),
            0x72u8 => Ok((Instruction::FRem, pos + 1)),
            0x73u8 => Ok((Instruction::DRem, pos + 1)),
            0x74u8 => Ok((Instruction::INeg, pos + 1)),
            0x75u8 => Ok((Instruction::LNeg, pos + 1)),
            0x76u8 => Ok((Instruction::FNeg, pos + 1)),
            0x77u8 => Ok((Instruction::DNeg, pos + 1)),
            0x78u8 => Ok((Instruction::IShl, pos + 1)),
            0x79u8 => Ok((Instruction::LShl, pos + 1)),
            0x7au8 => Ok((Instruction::IShr, pos + 1)),
            0x7bu8 => Ok((Instruction::LShr, pos + 1)),
            0x7cu8 => Ok((Instruction::IUSHR, pos + 1)),
            0x7du8 => Ok((Instruction::LUSHR, pos + 1)),
            0x7eu8 => Ok((Instruction::IAnd, pos + 1)),
            0x7fu8 => Ok((Instruction::LAnd, pos + 1)),
            0x80u8 => Ok((Instruction::IOr, pos + 1)),
            0x81u8 => Ok((Instruction::LOr, pos + 1)),
            0x82u8 => Ok((Instruction::IXor, pos + 1)),
            0x83u8 => Ok((Instruction::LXor, pos + 1)),
            0x84u8 => if pos + 3 <= b.len() {
                Ok((Instruction::IInc(b[pos + 1], b[pos + 2]), pos + 3))
            } else {
                Err(DecodeError::Incomplete(1))
            },
            0x85u8 => Ok((Instruction::I2L, pos + 1)),
            0x86u8 => Ok((Instruction::I2F, pos + 1)),
            0x87u8 => Ok((Instruction::I2D, pos + 1)),
            0x88u8 => Ok((Instruction::L2I, pos + 1)),
            0x89u8 => Ok((Instruction::L2F, pos + 1)),
            0x8au8 => Ok((Instruction::L2D, pos + 1)),
            0x8bu8 => Ok((Instruction::F2I, pos + 1)),
            0x8cu8 => Ok((Instruction::F2L, pos + 1)),
            0x8du8 => Ok((Instruction::F2D, pos + 1)),
            0x8eu8 => Ok((Instruction::D2I, pos + 1)),
            0x8fu8 => Ok((Instruction::D2L, pos + 1)),
            0x90u8 => Ok((Instruction::D2F, pos + 1)),
            0x91u8 => Ok((Instruction::I2B, pos + 1)),
            0x92u8 => Ok((Instruction::I2C, pos + 1)),
            0x93u8 => Ok((Instruction::I2S, pos + 1)),
            0x94u8 => Ok((Instruction::LCmp, pos + 1)),
            0x95u8 => Ok((Instruction::FCmpL, pos + 1)),
            0x96u8 => Ok((Instruction::FCmpG, pos + 1)),
            0x97u8 => Ok((Instruction::DCmpL, pos + 1)),
            0x98u8 => Ok((Instruction::DCmpG, pos + 1)),
            0x99u8 => if pos + 3 <= b.len() {
                Ok((Instruction::Ifeq(sign16(be16(b, pos + 1)) as i16), pos + 3))
            } else {
                Err(DecodeError::Incomplete(2))
            },
            0x9au8 => if pos + 3 <= b.len() {
                Ok((Instruction::Ifne(sign16(be16(b, pos + 1)) as i16), pos + 3))
            } else {
                Err(DecodeError::Incomplete(2))
            },
            0x9bu8 => if pos + 3 <= b.len() {
                Ok((Instruction::Iflt(sign16(be16(b, pos + 1)) as i16), pos + 3))
            } else {
                Err(DecodeError::Incomplete(2))
            },
            0x9cu8 => if pos + 3 <= b.len() {
                Ok((Instruction::Ifge(sign16(be16(b, pos + 1)) as i16), pos + 3))
            } else {
                Err(DecodeError::Incomplete(2))
            },
            0x9du8 => if pos + 3 <= b.len() {
                Ok((Instruction::Ifgt(sign16(be16(b, pos + 1)) as i16), pos + 3))
            } else {
                Err(DecodeError::Incomplete(2))
            },
            0x9eu8 => if pos + 3 <= b.len() {
                Ok((Instruction::Ifle(sign16(be16(b, pos + 1)) as i16), pos + 3))
            } else {
                Err(DecodeError::Incomplete(2))
            },
            0x9fu8 => if pos + 3 <= b.len() {
                Ok((Instruction::IfICmpEQ(sign16(be16(b, pos + 1)) as i16), pos + 3))
            } else {
                Err(DecodeError::Incomplete(2))
            },
            0xa0u8 => if pos + 3 <= b.len() {
                Ok((Instruction::IfICmpNE(sign16(be16(b, pos + 1)) as i16), pos + 3))
            } else {
                Err(DecodeError::Incomplete(2))
            },
            0xa1u8 => if pos + 3 <= b.len() {
                Ok((Instruction::IfICmpLT(sign16(be16(b, pos + 1)) as i16), pos + 3))
            } else {
                Err(DecodeError::Incomplete(2))
            },
            0xa2u8 => if pos + 3 <= b.len() {
                Ok((Instruction::IfICmpGE(sign16(be16(b, pos + 1)) as i16), pos + 3))
            } else {
                Err(DecodeError::Incomplete(2))
            },
            0xa3u8 => if pos + 3 <= b.len() {
                Ok((Instruction::IfICmpGT(sign16(be16(b, pos + 1)) as i16), pos + 3))
            } else {
                Err(DecodeError::Incomplete(2))
            },
            0xa4u8 => if pos + 3 <= b.len() {
                Ok((Instruction::IfICmpLE(sign16(be16(b, pos + 1)) as i16), pos + 3))
            } else {
                Err(DecodeError::Incomplete(2))
            },
            0xa5u8 => if pos + 3 <= b.len() {
                Ok((Instruction::IfACmpEQ(sign16(be16(b, pos + 1)) as i16), pos + 3))
            } else {
                Err(DecodeError::Incomplete(2))
            },
            0xa6u8 => if pos + 3 <= b.len() {
                Ok((Instruction::IfACmpNE(sign16(be16(b, pos + 1)) as i16), pos + 3))
            } else {
                Err(DecodeError::Incomplete(2))
            },
            0xa7u8 => if pos + 3 <= b.len() {
                Ok((Instruction::Goto(sign16(be16(b, pos + 1)) as i16), pos + 3))
            } else {
                Err(DecodeError::Incomplete(2))
            },
            0xa8u8 => if pos + 3 <= b.len() {
                Ok((Instruction::JSR(sign16(be16(b, pos + 1)) as i16), pos + 3))
            } else {
                Err(DecodeError::Incomplete(2))
            },
            0xa9u8 => if pos + 2 <= b.len() {
                Ok((Instruction::Ret(b[pos + 1]), pos + 2))
            } else {
                Err(DecodeError::Incomplete(1))
            },
            0xaau8 => if pos + 2 <= b.len() {
                Ok((Instruction::TableSwitch(b[pos + 1]), pos + 2))
            } else {
                Err(DecodeError::Incomplete(1))
            },
            0xabu8 => if pos + 17 <= b.len() {
                Ok((Instruction::LookupSwitch(be64(b, pos + 1) as u64, be64(b, pos + 9) as u64), pos + 17))
            } else {
                Err(DecodeError::Incomplete(8))
            },
            0xacu8 => Ok((Instruction::IReturn, pos + 1)),
            0xadu8 => Ok((Instruction::LReturn, pos + 1)),
            0xaeu8 => Ok((Instruction::FReturn, pos + 1)),
            0xafu8 => Ok((Instruction::DReturn, pos + 1)),
            0xb0u8 => Ok((Instruction::AReturn, pos + 1)),
            0xb1u8 => Ok((Instruction::Return, pos + 1)),
            0xb2u8 => if pos + 3 <= b.len() {
                Ok((Instruction::GetStatic(be16(b, pos + 1) as u16), pos + 3))
            } else {
                Err(DecodeError::Incomplete(2))
            },
            0xb3u8 => if pos + 3 <= b.len() {
                Ok((Instruction::PutStatic(be16(b, pos + 1) as u16), pos + 3))
            } else {
                Err(DecodeError::Incomplete(2))
            },
            0xb4u8 => if pos + 3 <= b.len() {
                Ok((Instruction::GetField(be16(b, pos + 1) as u16), pos + 3))
            } else {
                Err(DecodeError::Incomplete(2))
            },
            0xb5u8 => if pos + 3 <= b.len() {
                Ok((Instruction::PutField(be16(b, pos + 1) as u16), pos + 3))
            } else {
                Err(DecodeError::Incomplete(2))
            },
            0xb6u8 => if pos + 3 <= b.len() {
                Ok((Instruction::InvokeVirtual(be16(b, pos + 1) as u16), pos + 3))
            } else {
                Err(DecodeError::Incomplete(2))
            },
            0xb7u8 => if pos + 3 <= b.len() {
                Ok((Instruction::InvokeSpecial(be16(b, pos + 1) as u16), pos + 3))
            } else {
                Err(DecodeError::Incomplete(2))
            },
            0xb8u8 => if pos + 3 <= b.len() {
                Ok((Instruction::InvokeStatic(be16(b, pos + 1) as u16), pos + 3))
            } else {
                Err(DecodeError::Incomplete(2))
            },
            0xb9u8 => if pos + 5 <= b.len() {
                Ok((Instruction::InvokeInterface(be32(b, pos + 1) as u32), pos + 5))
            } else {
                Err(DecodeError::Incomplete(4))
            },
            0xbau8 => if pos + 5 <= b.len() {
                Ok((Instruction::InvokeDynamic(be32(b, pos + 1) as u32), pos + 5))
            } else {
                Err(DecodeError::Incomplete(4))
            },
            0xbbu8 => if pos + 3 <= b.len() {
                Ok((Instruction::New(be16(b, pos + 1) as u16), pos + 3))
            } else {
                Err(DecodeError::Incomplete(2))
            },
            0xbcu8 => if pos + 2 <= b.len() {
                Ok((Instruction::NewArray(b[pos + 1]), pos + 2))
            } else {
                Err(DecodeError::Incomplete(1))
            },
            0xbdu8 => if pos + 3 <= b.len() {
                Ok((Instruction::ANewArray(be16(b, pos + 1) as u16), pos + 3))
            } else {
                Err(DecodeError::Incomplete(2))
            },
            0xbeu8 => Ok((Instruction::ArrayLength, pos + 1)),
            0xbfu8 => Ok((Instruction::AThrow, pos + 1)),
            0xc0u8 => if pos + 3 <= b.len() {
                Ok((Instruction::CheckCast(be16(b, pos + 1) as u16), pos + 3))
            } else {
                Err(DecodeError::Incomplete(2))
            },
            0xc1u8 => if pos + 3 <= b.len() {
                Ok((Instruction::InstanceOf(be16(b, pos + 1) as u16), pos + 3))
            } else {
                Err(DecodeError::Incomplete(2))
            },
            0xc2u8 => Ok((Instruction::MonitorEnter, pos + 1)),
            0xc3u8 => Ok((Instruction::MonitorExit, pos + 1)),
            0xc4u8 => if pos + 4 <= b.len() {
                Ok((Instruction::Wide(be16(b, pos + 1) as u16, b[pos + 3]), pos + 4))
            } else if pos + 3 <= b.len() {
                Err(DecodeError::Incomplete(1))
            } else {
                Err(DecodeError::Incomplete(2))
            },
            0xc5u8 => if pos + 4 <= b.len() {
                Ok((Instruction::MultiANewArray(be16(b, pos + 1) as u16, b[pos + 3]), pos + 4))
            } else if pos + 3 <= b.len() {
                Err(DecodeError::Incomplete(1))
            } else {
                Err(DecodeError::Incomplete(2))
            },
            0xc6u8 => if pos + 3 <= b.len() {
                Ok((Instruction::IfNull(sign16(be16(b, pos + 1)) as i16), pos + 3))
            } else {
                Err(DecodeError::Incomplete(2))
            },
            0xc7u8 => if pos + 3 <= b.len() {
                Ok((Instruction::IfNonNull(sign16(be16(b, pos + 1)) as i16), pos + 3))
            } else {
                Err(DecodeError::Incomplete(2))
            },
            0xc8u8 => if pos + 5 <= b.len() {
                Ok((Instruction::GotoW(sign32(be32(b, pos + 1)) as i32), pos + 5))
            } else {
                Err(DecodeError::Incomplete(4))
            },
            0xc9u8 => if pos + 5 <= b.len() {
                Ok((Instruction::JSRW(sign32(be32(b, pos + 1)) as i32), pos + 5))
            } else {
                Err(DecodeError::Incomplete(4))
            },
            0xcau8 => Ok((Instruction::Breakpoint, pos + 1)),
            0xfeu8 => Ok((Instruction::ImpDep1, pos + 1)),
            0xffu8 => Ok((Instruction::ImpDep2, pos + 1)),
            _ => Err(DecodeError::Malformed),
        }
    }
}

impl Instruction {
    /// The encoded size of this instruction in bytes, opcode byte included.
    pub fn get_size(&self) -> (r: usize)
        ensures
            r == instr_size(*self),
    {
        match self {
            Instruction::NOOP => 1,
            Instruction::AConstNull => 1,
            Instruction::IConstm1 => 1,
            Instruction::IConst0 => 1,
            Instruction::IConst1 => 1,
            Instruction::IConst2 => 1,
            Instruction::IConst3 => 1,
            Instruction::IConst4 => 1,
            Instruction::IConst5 => 1,
            Instruction::LConst0 => 1,
            Instruction::LConst1 => 1,
            Instruction::FConst0 => 1,
            Instruction::FConst1 => 1,
            Instruction::FConst2 => 1,
            Instruction::DConst0 => 1,
            Instruction::DConst1 => 1,
            Instruction::BIPush(_) => 2,
            Instruction::SIPush(_) => 3,
            Instruction::LDC(_) => 2,
            Instruction::LDCW(_) => 3,
            Instruction::LDC2W(_) => 3,
            Instruction::ILoad(_) => 2,
            Instruction::LLoad(_) => 2,
            Instruction::FLoad(_) => 2,
            Instruction::DLoad(_) => 2,
            Instruction::ALoad(_) => 2,
            Instruction::ILoad0 => 1,
            Instruction::ILoad1 => 1,
            Instruction::ILoad2 => 1,
            Instruction::ILoad3 => 1,
            Instruction::LLoad0 => 1,
            Instruction::LLoad1 => 1,
            Instruction::LLoad2 => 1,
            Instruction::LLoad3 => 1,
            Instruction::FLoad0 => 1,
            Instruction::FLoad1 => 1,
            Instruction::FLoad2 => 1,
            Instruction::FLoad3 => 1,
            Instruction::DLoad0 => 1,
            Instruction::DLoad1 => 1,
            Instruction::DLoad2 => 1,
            Instruction::DLoad3 => 1,
            Instruction::ALoad0 => 1,
            Instruction::ALoad1 => 1,
            Instruction::ALoad2 => 1,
            Instruction::ALoad3 => 1,
            Instruction::IALoad => 1,
            Instruction::LALoad => 1,
            Instruction::FALoad => 1,
            Instruction::DALoad => 1,
            Instruction::AALoad => 1,
            Instruction::BALoad => 1,
            Instruction::CALoad => 1,
            Instruction::ScALoad => 1,
            Instruction::IStore(_) => 2,
            Instruction::LStore(_) => 2,
            Instruction::FStore(_) => 2,
            Instruction::DStore(_) => 2,
            Instruction::AStore(_) => 2,
            Instruction::IStore0 => 1,
            Instruction::IStore1 => 1,
            Instruction::IStore2 => 1,
            Instruction::IStore3 => 1,
            Instruction::LStore0 => 1,
            Instruction::LStore1 => 1,
            Instruction::LStore2 => 1,
            Instruction::LStore3 => 1,
            Instruction::FStore0 => 1,
            Instruction::FStore1 => 1,
            Instruction::FStore2 => 1,
            Instruction::FStore3 => 1,
            Instruction::DStore0 => 1,
            Instruction::DStore1 => 1,
            Instruction::DStore2 => 1,
            Instruction::DStore3 => 1,
            Instruction::AStore0 => 1,
            Instruction::AStore1 => 1,
            Instruction::AStore2 => 1,
            Instruction::AStore3 => 1,
            Instruction::IAStore => 1,
            Instruction::LAStore => 1,
            Instruction::FAStore => 1,
            Instruction::DAStore => 1,
            Instruction::AAStore => 1,
            Instruction::BAStore => 1,
            Instruction::CAStore => 1,
            Instruction::SAStore => 1,
            Instruction::Pop => 1,
            Instruction::Pop2 => 1,
            Instruction::Dup => 1,
            Instruction::DupX1 => 1,
            Instruction::DupX2 => 1,
            Instruction::Dup2 => 1,
            Instruction::Dup2X1 => 1,
            Instruction::Dup2X2 => 1,
            Instruction::Swap => 1,
            Instruction::IAdd => 1,
            Instruction::LAdd => 1,
            Instruction::FAdd => 1,
            Instruction::DAdd => 1,
            Instruction::ISub => 1,
            Instruction::LSub => 1,
            Instruction::FSub => 1,
            Instruction::DSub => 1,
            Instruction::IMul => 1,
            Instruction::LMul => 1,
            Instruction::FMul => 1,
            Instruction::DMul => 1,
            Instruction::IDiv => 1,
            Instruction::LDiv => 1,
            Instruction::FDiv => 1,
            Instruction::DDiv => 1,
            Instruction::IRem => 1,
            Instruction::LRem => 1,
            Instruction::FRem => 1,
            Instruction::DRem => 1,
            Instruction::INeg => 1,
            Instruction::LNeg => 1,
            Instruction::FNeg => 1,
            Instruction::DNeg => 1,
            Instruction::IShl => 1,
            Instruction::LShl => 1,
            Instruction::IShr => 1,
            Instruction::LShr => 1,
            Instruction::IUSHR => 1,
            Instruction::LUSHR => 1,
            Instruction::IAnd => 1,
            Instruction::LAnd => 1,
            Instruction::IOr => 1,
            Instruction::LOr => 1,
            Instruction::IXor => 1,
            Instruction::LXor => 1,
            Instruction::IInc(_, _) => 3,
            Instruction::I2L => 1,
            Instruction::I2F => 1,
            Instruction::I2D => 1,
            Instruction::L2I => 1,
            Instruction::L2F => 1,
            Instruction::L2D => 1,
            Instruction::F2I => 1,
            Instruction::F2L => 1,
            Instruction::F2D => 1,
            Instruction::D2I => 1,
            Instruction::D2L => 1,
            Instruction::D2F => 1,
            Instruction::I2B => 1,
            Instruction::I2C => 1,
            Instruction::I2S => 1,
            Instruction::LCmp => 1,
            Instruction::FCmpL => 1,
            Instruction::FCmpG => 1,
            Instruction::DCmpL => 1,
            Instruction::DCmpG => 1,
            Instruction::Ifeq(_) => 3,
            Instruction::Ifne(_) => 3,
            Instruction::Iflt(_) => 3,
            Instruction::Ifge(_) => 3,
            Instruction::Ifgt(_) => 3,
            Instruction::Ifle(_) => 3,
            Instruction::IfICmpEQ(_) => 3,
            Instruction::IfICmpNE(_) => 3,
            Instruction::IfICmpLT(_) => 3,
            Instruction::IfICmpGE(_) => 3,
            Instruction::IfICmpGT(_) => 3,
            Instruction::IfICmpLE(_) => 3,
            Instruction::IfACmpEQ(_) => 3,
            Instruction::IfACmpNE(_) => 3,
            Instruction::Goto(_) => 3,
            Instruction::JSR(_) => 3,
            Instruction::Ret(_) => 2,
            Instruction::TableSwitch(_) => 2,
            Instruction::LookupSwitch(_, _) => 17,
            Instruction::IReturn => 1,
            Instruction::LReturn => 1,
            Instruction::FReturn => 1,
            Instruction::DReturn => 1,
            Instruction::AReturn => 1,
            Instruction::Return => 1,
            Instruction::GetStatic(_) => 3,
            Instruction::PutStatic(_) => 3,
            Instruction::GetField(_) => 3,
            Instruction::PutField(_) => 3,
            Instruction::InvokeVirtual(_) => 3,
            Instruction::InvokeSpecial(_) => 3,
            Instruction::InvokeStatic(_) => 3,
            Instruction::InvokeInterface(_) => 5,
            Instruction::InvokeDynamic(_) => 5,
            Instruction::New(_) => 3,
            Instruction::NewArray(_) => 2,
            Instruction::ANewArray(_) => 3,
            Instruction::ArrayLength => 1,
            Instruction::AThrow => 1,
            Instruction::CheckCast(_) => 3,
            Instruction::InstanceOf(_) => 3,
            Instruction::MonitorEnter => 1,
            Instruction::MonitorExit => 1,
            Instruction::Wide(_, _) => 4,
            Instruction::MultiANewArray(_, _) => 4,
            Instruction::IfNull(_) => 3,
            Instruction::IfNonNull(_) => 3,
            Instruction::GotoW(_) => 5,
            Instruction::JSRW(_) => 5,
            Instruction::Breakpoint => 1,
            Instruction::ImpDep1 => 1,
            Instruction::ImpDep2 => 1,
        }
    }

    /// Decodes the one instruction stored at `pos`, returning it together
    /// with the position just past its immediates.
    #[verifier::rlimit(60)]
    pub fn read(data: &Vec<u8>, pos: usize) -> (r: Result<(Instruction, usize), DecodeError>)
        ensures
            (r matches Ok(v) ==> spec_read(data@, pos as int) == Ok::<(Instruction, int), DecodeError>((v.0, v.1 as int))
                && v.1 == pos + instr_size(v.0) && v.1 <= data.len()),
            (r matches Err(e) ==> spec_read(data@, pos as int) == Err::<(Instruction, int), DecodeError>(e)),
    {
        if pos >= data.len() {
            return Err(DecodeError::Incomplete(1));
        }
        let opcode = data[pos];
        match opcode {
            0x00 => Ok((Instruction::NOOP, pos + 1)),
            0x01 => Ok((Instruction::AConstNull, pos + 1)),
            0x02 => Ok((Instruction::IConstm1, pos + 1)),
            0x03 => Ok((Instruction::IConst0, pos + 1)),
            0x04 => Ok((Instruction::IConst1, pos + 1)),
            0x05 => Ok((Instruction::IConst2, pos + 1)),
            0x06 => Ok((Instruction::IConst3, pos + 1)),
            0x07 => Ok((Instruction::IConst4, pos + 1)),
            0x08 => Ok((Instruction::IConst5, pos + 1)),
            0x09 => Ok((Instruction::LConst0, pos + 1)),
            0x0a => Ok((Instruction::LConst1, pos + 1)),
            0x0b => Ok((Instruction::FConst0, pos + 1)),
            0x0c => Ok((Instruction::FConst1, pos + 1)),
            0x0d => Ok((Instruction::FConst2, pos + 1)),
            0x0e => Ok((Instruction::DConst0, pos + 1)),
            0x0f => Ok((Instruction::DConst1, pos + 1)),
            0x10 => match read_u8(data, pos + 1) {
                Ok((a, next)) => Ok((Instruction::BIPush(a), next)),
                Err(e) => Err(e),
            },
            0x11 => match read_u16(data, pos + 1) {
                Ok((a, next)) => Ok((Instruction::SIPush(a), next)),
                Err(e) => Err(e),
            },
            0x12 => match read_u8(data, pos + 1) {
                Ok((a, next)) => Ok((Instruction::LDC(a), next)),
                Err(e) => Err(e),
            },
            0x13 => match read_u16(data, pos + 1) {
                Ok((a, next)) => Ok((Instruction::LDCW(a), next)),
                Err(e) => Err(e),
            },
            0x14 => match read_u16(data, pos + 1) {
                Ok((a, next)) => Ok((Instruction::LDC2W(a), next)),
                Err(e) => Err(e),
            },
            0x15 => match read_u8(data, pos + 1) {
                Ok((a, next)) => Ok((Instruction::ILoad(a), next)),
                Err(e) => Err(e),
            },
            0x16 => match read_u8(data, pos + 1) {
                Ok((a, next)) => Ok((Instruction::LLoad(a), next)),
                Err(e) => Err(e),
            },
            0x17 => match read_u8(data, pos + 1) {
                Ok((a, next)) => Ok((Instruction::FLoad(a), next)),
                Err(e) => Err(e),
            },
            0x18 => match read_u8(data, pos + 1) {
                Ok((a, next)) => Ok((Instruction::DLoad(a), next)),
                Err(e) => Err(e),
            },
            0x19 => match read_u8(data, pos + 1) {
                Ok((a, next)) => Ok((Instruction::ALoad(a), next)),
                Err(e) => Err(e),
            },
            0x1a => Ok((Instruction::ILoad0, pos + 1)),
            0x1b => Ok((Instruction::ILoad1, pos + 1)),
            0x1c => Ok((Instruction::ILoad2, pos + 1)),
            0x1d => Ok((Instruction::ILoad3, pos + 1)),
            0x1e => Ok((Instruction::LLoad0, pos + 1)),
            0x1f => Ok((Instruction::LLoad1, pos + 1)),
            0x20 => Ok((Instruction::LLoad2, pos + 1)),
            0x21 => Ok((Instruction::LLoad3, pos + 1)),
            0x22 => Ok((Instruction::FLoad0, pos + 1)),
            0x23 => Ok((Instruction::FLoad1, pos + 1)),
            0x24 => Ok((Instruction::FLoad2, pos + 1)),
            0x25 => Ok((Instruction::FLoad3, pos + 1)),
            0x26 => Ok((Instruction::DLoad0, pos + 1)),
            0x27 => Ok((Instruction::DLoad1, pos + 1)),
            0x28 => Ok((Instruction::DLoad2, pos + 1)),
            0x29 => Ok((Instruction::DLoad3, pos + 1)),
            0x2a => Ok((Instruction::ALoad0, pos + 1)),
            0x2b => Ok((Instruction::ALoad1, pos + 1)),
            0x2c => Ok((Instruction::ALoad2, pos + 1)),
            0x2d => Ok((Instruction::ALoad3, pos + 1)),
            0x2e => Ok((Instruction::IALoad, pos + 1)),
            0x2f => Ok((Instruction::LALoad, pos + 1)),
            0x30 => Ok((Instruction::FALoad, pos + 1)),
            0x31 => Ok((Instruction::DALoad, pos + 1)),
            0x32 => Ok((Instruction::AALoad, pos + 1)),
            0x33 => Ok((Instruction::BALoad, pos + 1)),
            0x34 => Ok((Instruction::CALoad, pos + 1)),
            0x35 => Ok((Instruction::ScALoad, pos + 1)),
            0x36 => match read_u8(data, pos + 1) {
                Ok((a, next)) => Ok((Instruction::IStore(a), next)),
                Err(e) => Err(e),
            },
            0x37 => match read_u8(data, pos + 1) {
                Ok((a, next)) => Ok((Instruction::LStore(a), next)),
                Err(e) => Err(e),
            },
            0x38 => match read_u8(data, pos + 1) {
                Ok((a, next)) => Ok((Instruction::FStore(a), next)),
                Err(e) => Err(e),
            },
            0x39 => match read_u8(data, pos + 1) {
                Ok((a, next)) => Ok((Instruction::DStore(a), next)),
                Err(e) => Err(e),
            },
            0x3a => match read_u8(data, pos + 1) {
                Ok((a, next)) => Ok((Instruction::AStore(a), next)),
                Err(e) => Err(e),
            },
            0x3b => Ok((Instruction::IStore0, pos + 1)),
            0x3c => Ok((Instruction::IStore1, pos + 1)),
            0x3d => Ok((Instruction::IStore2, pos + 1)),
            0x3e => Ok((Instruction::IStore3, pos + 1)),
            0x3f => Ok((Instruction::LStore0, pos + 1)),
            0x40 => Ok((Instruction::LStore1, pos + 1)),
            0x41 => Ok((Instruction::LStore2, pos + 1)),
            0x42 => Ok((Instruction::LStore3, pos + 1)),
            0x43 => Ok((Instruction::FStore0, pos + 1)),
            0x44 => Ok((Instruction::FStore1, pos + 1)),
            0x45 => Ok((Instruction::FStore2, pos + 1)),
            0x46 => Ok((Instruction::FStore3, pos + 1)),
            0x47 => Ok((Instruction::DStore0, pos + 1)),
            0x48 => Ok((Instruction::DStore1, pos + 1)),
            0x49 => Ok((Instruction::DStore2, pos + 1)),
            0x4a => Ok((Instruction::DStore3, pos + 1)),
            0x4b => Ok((Instruction::AStore0, pos + 1)),
            0x4c => Ok((Instruction::AStore1, pos + 1)),
            0x4d => Ok((Instruction::AStore2, pos + 1)),
            0x4e => Ok((Instruction::AStore3, pos + 1)),
            0x4f => Ok((Instruction::IAStore, pos + 1)),
            0x50 => Ok((Instruction::LAStore, pos + 1)),
            0x51 => Ok((Instruction::FAStore, pos + 1)),
            0x52 => Ok((Instruction::DAStore, pos + 1)),
            0x53 => Ok((Instruction::AAStore, pos + 1)),
            0x54 => Ok((Instruction::BAStore, pos + 1)),
            0x55 => Ok((Instruction::CAStore, pos + 1)),
            0x56 => Ok((Instruction::SAStore, pos + 1)),
            0x57 => Ok((Instruction::Pop, pos + 1)),
            0x58 => Ok((Instruction::Pop2, pos + 1)),
            0x59 => Ok((Instruction::Dup, pos + 1)),
            0x5a => Ok((Instruction::DupX1, pos + 1)),
            0x5b => Ok((Instruction::DupX2, pos + 1)),
            0x5c => Ok((Instruction::Dup2, pos + 1)),
            0x5d => Ok((Instruction::Dup2X1, pos + 1)),
            0x5e => Ok((Instruction::Dup2X2, pos + 1)),
            0x5f => Ok((Instruction::Swap, pos + 1)),
            0x60 => Ok((Instruction::IAdd, pos + 1)),
            0x61 => Ok((Instruction::LAdd, pos + 1)),
            0x62 => Ok((Instruction::FAdd, pos + 1)),
            0x63 => Ok((Instruction::DAdd, pos + 1)),
            0x64 => Ok((Instruction::ISub, pos + 1)),
            0x65 => Ok((Instruction::LSub, pos + 1)),
            0x66 => Ok((Instruction::FSub, pos + 1)),
            0x67 => Ok((Instruction::DSub, pos + 1)),
            0x68 => Ok((Instruction::IMul, pos + 1)),
            0x69 => Ok((Instruction::LMul, pos + 1)),
            0x6a => Ok((Instruction::FMul, pos + 1)),
            0x6b => Ok((Instruction::DMul, pos + 1)),
            0x6c => Ok((Instruction::IDiv, pos + 1)),
            0x6d => Ok((Instruction::LDiv, pos + 1)),
            0x6e => Ok((Instruction::FDiv, pos + 1)),
            0x6f => Ok((Instruction::DDiv, pos + 1)),
            0x70 => Ok((Instruction::IRem, pos + 1)),
            0x71 => Ok((Instruction::LRem, pos + 1)),
            0x72 => Ok((Instruction::FRem, pos + 1)),
            0x73 => Ok((Instruction::DRem, pos + 1)),
            0x74 => Ok((Instruction::INeg, pos + 1)),
            0x75 => Ok((Instruction::LNeg, pos + 1)),
            0x76 => Ok((Instruction::FNeg, pos + 1)),
            0x77 => Ok((Instruction::DNeg, pos + 1)),
            0x78 => Ok((Instruction::IShl, pos + 1)),
            0x79 => Ok((Instruction::LShl, pos + 1)),
            0x7a => Ok((Instruction::IShr, pos + 1)),
            0x7b => Ok((Instruction::LShr, pos + 1)),
            0x7c => Ok((Instruction::IUSHR, pos + 1)),
            0x7d => Ok((Instruction::LUSHR, pos + 1)),
            0x7e => Ok((Instruction::IAnd, pos + 1)),
            0x7f => Ok((Instruction::LAnd, pos + 1)),
            0x80 => Ok((Instruction::IOr, pos + 1)),
            0x81 => Ok((Instruction::LOr, pos + 1)),
            0x82 => Ok((Instruction::IXor, pos + 1)),
            0x83 => Ok((Instruction::LXor, pos + 1)),
            0x84 => match read_u8(data, pos + 1) {
                Ok((a, mid)) => match read_u8(data, mid) {
                    Ok((b, next)) => Ok((Instruction::IInc(a, b), next)),
                    Err(e) => Err(e),
                },
                Err(e) => Err(e),
            },
            0x85 => Ok((Instruction::I2L, pos + 1)),
            0x86 => Ok((Instruction::I2F, pos + 1)),
            0x87 => Ok((Instruction::I2D, pos + 1)),
            0x88 => Ok((Instruction::L2I, pos + 1)),
            0x89 => Ok((Instruction::L2F, pos + 1)),
            0x8a => Ok((Instruction::L2D, pos + 1)),
            0x8b => Ok((Instruction::F2I, pos + 1)),
            0x8c => Ok((Instruction::F2L, pos + 1)),
            0x8d => Ok((Instruction::F2D, pos + 1)),
            0x8e => Ok((Instruction::D2I, pos + 1)),
            0x8f => Ok((Instruction::D2L, pos + 1)),
            0x90 => Ok((Instruction::D2F, pos + 1)),
            0x91 => Ok((Instruction::I2B, pos + 1)),
            0x92 => Ok((Instruction::I2C, pos + 1)),
            0x93 => Ok((Instruction::I2S, pos + 1)),
            0x94 => Ok((Instruction::LCmp, pos + 1)),
            0x95 => Ok((Instruction::FCmpL, pos + 1)),
            0x96 => Ok((Instruction::FCmpG, pos + 1)),
            0x97 => Ok((Instruction::DCmpL, pos + 1)),
            0x98 => Ok((Instruction::DCmpG, pos + 1)),
            0x99 => match read_i16(data, pos + 1) {
                Ok((a, next)) => Ok((Instruction::Ifeq(a), next)),
                Err(e) => Err(e),
            },
            0x9a => match read_i16(data, pos + 1) {
                Ok((a, next)) => Ok((Instruction::Ifne(a), next)),
                Err(e) => Err(e),
            },
            0x9b => match read_i16(data, pos + 1) {
                Ok((a, next)) => Ok((Instruction::Iflt(a), next)),
                Err(e) => Err(e),
            },
            0x9c => match read_i16(data, pos + 1) {
                Ok((a, next)) => Ok((Instruction::Ifge(a), next)),
                Err(e) => Err(e),
            },
            0x9d => match read_i16(data, pos + 1) {
                Ok((a, next)) => Ok((Instruction::Ifgt(a), next)),
                Err(e) => Err(e),
            },
            0x9e => match read_i16(data, pos + 1) {
                Ok((a, next)) => Ok((Instruction::Ifle(a), next)),
                Err(e) => Err(e),
            },
            0x9f => match read_i16(data, pos + 1) {
                Ok((a, next)) => Ok((Instruction::IfICmpEQ(a), next)),
                Err(e) => Err(e),
            },
            0xa0 => match read_i16(data, pos + 1) {
                Ok((a, next)) => Ok((Instruction::IfICmpNE(a), next)),
                Err(e) => Err(e),
            },
            0xa1 => match read_i16(data, pos + 1) {
                Ok((a, next)) => Ok((Instruction::IfICmpLT(a), next)),
                Err(e) => Err(e),
            },
            0xa2 => match read_i16(data, pos + 1) {
                Ok((a, next)) => Ok((Instruction::IfICmpGE(a), next)),
                Err(e) => Err(e),
            },
            0xa3 => match read_i16(data, pos + 1) {
                Ok((a, next)) => Ok((Instruction::IfICmpGT(a), next)),
                Err(e) => Err(e),
            },
            0xa4 => match read_i16(data, pos + 1) {
                Ok((a, next)) => Ok((Instruction::IfICmpLE(a), next)),
                Err(e) => Err(e),
            },
            0xa5 => match read_i16(data, pos + 1) {
                Ok((a, next)) => Ok((Instruction::IfACmpEQ(a), next)),
                Err(e) => Err(e),
            },
            0xa6 => match read_i16(data, pos + 1) {
                Ok((a, next)) => Ok((Instruction::IfACmpNE(a), next)),
                Err(e) => Err(e),
            },
            0xa7 => match read_i16(data, pos + 1) {
                Ok((a, next)) => Ok((Instruction::Goto(a), next)),
                Err(e) => Err(e),
            },
            0xa8 => match read_i16(data, pos + 1) {
                Ok((a, next)) => Ok((Instruction::JSR(a), next)),
                Err(e) => Err(e),
            },
            0xa9 => match read_u8(data, pos + 1) {
                Ok((a, next)) => Ok((Instruction::Ret(a), next)),
                Err(e) => Err(e),
            },
            0xaa => match read_u8(data, pos + 1) {
                Ok((a, next)) => Ok((Instruction::TableSwitch(a), next)),
                Err(e) => Err(e),
            },
            0xab => match read_u64(data, pos + 1) {
                Ok((a, mid)) => match read_u64(data, mid) {
                    Ok((b, next)) => Ok((Instruction::LookupSwitch(a, b), next)),
                    Err(e) => Err(e),
                },
                Err(e) => Err(e),
            },
            0xac => Ok((Instruction::IReturn, pos + 1)),
            0xad => Ok((Instruction::LReturn, pos + 1)),
            0xae => Ok((Instruction::FReturn, pos + 1)),
            0xaf => Ok((Instruction::DReturn, pos + 1)),
            0xb0 => Ok((Instruction::AReturn, pos + 1)),
            0xb1 => Ok((Instruction::Return, pos + 1)),
            0xb2 => match read_u16(data, pos + 1) {
                Ok((a, next)) => Ok((Instruction::GetStatic(a), next)),
                Err(e) => Err(e),
            },
            0xb3 => match read_u16(data, pos + 1) {
                Ok((a, next)) => Ok((Instruction::PutStatic(a), next)),
                Err(e) => Err(e),
            },
            0xb4 => match read_u16(data, pos + 1) {
                Ok((a, next)) => Ok((Instruction::GetField(a), next)),
                Err(e) => Err(e),
            },
            0xb5 => match read_u16(data, pos + 1) {
                Ok((a, next)) => Ok((Instruction::PutField(a), next)),
                Err(e) => Err(e),
            },
            0xb6 => match read_u16(data, pos + 1) {
                Ok((a, next)) => Ok((Instruction::InvokeVirtual(a), next)),
                Err(e) => Err(e),
            },
            0xb7 => match read_u16(data, pos + 1) {
                Ok((a, next)) => Ok((Instruction::InvokeSpecial(a), next)),
                Err(e) => Err(e),
            },
            0xb8 => match read_u16(data, pos + 1) {
                Ok((a, next)) => Ok((Instruction::InvokeStatic(a), next)),
                Err(e) => Err(e),
            },
            0xb9 => match read_u32(data, pos + 1) {
                Ok((a, next)) => Ok((Instruction::InvokeInterface(a), next)),
                Err(e) => Err(e),
            },
            0xba => match read_u32(data, pos + 1) {
                Ok((a, next)) => Ok((Instruction::InvokeDynamic(a), next)),
                Err(e) => Err(e),
            },
            0xbb => match read_u16(data, pos + 1) {
                Ok((a, next)) => Ok((Instruction::New(a), next)),
                Err(e) => Err(e),
            },
            0xbc => match read_u8(data, pos + 1) {
                Ok((a, next)) => Ok((Instruction::NewArray(a), next)),
                Err(e) => Err(e),
            },
            0xbd => match read_u16(data, pos + 1) {
                Ok((a, next)) => Ok((Instruction::ANewArray(a), next)),
                Err(e) => Err(e),
            },
            0xbe => Ok((Instruction::ArrayLength, pos + 1)),
            0xbf => Ok((Instruction::AThrow, pos + 1)),
            0xc0 => match read_u16(data, pos + 1) {
                Ok((a, next)) => Ok((Instruction::CheckCast(a), next)),
                Err(e) => Err(e),
            },
            0xc1 => match read_u16(data, pos + 1) {
                Ok((a, next)) => Ok((Instruction::InstanceOf(a), next)),
                Err(e) => Err(e),
            },
            0xc2 => Ok((Instruction::MonitorEnter, pos + 1)),
            0xc3 => Ok((Instruction::MonitorExit, pos + 1)),
            0xc4 => match read_u16(data, pos + 1) {
                Ok((a, mid)) => match read_u8(data, mid) {
                    Ok((b, next)) => Ok((Instruction::Wide(a, b), next)),
                    Err(e) => Err(e),
                },
                Err(e) => Err(e),
            },
            0xc5 => match read_u16(data, pos + 1) {
                Ok((a, mid)) => match read_u8(data, mid) {
                    Ok((b, next)) => Ok((Instruction::MultiANewArray(a, b), next)),
                    Err(e) => Err(e),
                },
                Err(e) => Err(e),
            },
            0xc6 => match read_i16(data, pos + 1) {
                Ok((a, next)) => Ok((Instruction::IfNull(a), next)),
                Err(e) => Err(e),
            },
            0xc7 => match read_i16(data, pos + 1) {
                Ok((a, next)) => Ok((Instruction::IfNonNull(a), next)),
                Err(e) => Err(e),
            },
            0xc8 => match read_i32(data, pos + 1) {
                Ok((a, next)) => Ok((Instruction::GotoW(a), next)),
                Err(e) => Err(e),
            },
            0xc9 => match read_i32(data, pos + 1) {
                Ok((a, next)) => Ok((Instruction::JSRW(a), next)),
                Err(e) => Err(e),
            },
            0xca => Ok((Instruction::Breakpoint, pos + 1)),
            0xfe => Ok((Instruction::ImpDep1, pos + 1)),
            0xff => Ok((Instruction::ImpDep2, pos + 1)),
            _ => Err(DecodeError::Malformed),
        }
    }

    /// Decodes instructions sequentially until the code array is exhausted.
    pub fn read_all(input: &Vec<u8>) -> (r: Result<Vec<Instruction>, ReadInstructionError>)
        ensures
            (r matches Ok(v) ==> spec_read_all(input@, 0) == Ok::<
                Seq<Instruction>,
                ReadInstructionError,
            >(v@)),
            (r matches Err(e) ==> spec_read_all(input@, 0) == Err::<
                Seq<Instruction>,
                ReadInstructionError,
            >(e)),
    {
        let mut vec: Vec<Instruction> = Vec::new();
        let mut pos: usize = 0;
        loop
            invariant
                pos <= input.len(),
                (spec_read_all(input@, pos as int) matches Ok(s) ==> spec_read_all(input@, 0)
                    == Ok::<Seq<Instruction>, ReadInstructionError>(vec@ + s)),
                (spec_read_all(input@, pos as int) matches Err(e) ==> spec_read_all(input@, 0)
                    == Err::<Seq<Instruction>, ReadInstructionError>(e)),
            decreases input.len() - pos,
        {
            if pos >= input.len() {
                proof {
                    assert(vec@ + Seq::<Instruction>::empty() =~= vec@);
                }
                return Ok(vec);
            }
            match Instruction::read(input, pos) {
                Ok((ins, next)) => {
                    proof {
                        let tail = spec_read_all(input@, next as int);
                        if tail is Ok {
                            assert(vec@ + (seq![ins] + tail->Ok_0) =~= vec@.push(ins)
                                + tail->Ok_0);
                        }
                    }
                    vec.push(ins);
                    pos = next;
                },
                Err(DecodeError::Incomplete(_)) => {
                    return Err(ReadInstructionError::ParsingIncomplete);
                },
                Err(DecodeError::Malformed) => {
                    return Err(ReadInstructionError::InvalidOpcode { opcode: input[pos] });
                },
                Err(DecodeError::Encoding) => {
                    return Err(ReadInstructionError::ParsingError);
                },
            }
        }
    }
}

/// Decodes the whole code array `b[pos..]` into an instruction sequence:
/// an `Incomplete` read surfaces as `ParsingIncomplete` and an unrecognized
/// opcode as `InvalidOpcode` with the offending byte.
pub open spec fn spec_read_all(b: Seq<u8>, pos: int) -> Result<
    Seq<Instruction>,
    ReadInstructionError,
>
    decreases b.len() - pos,
{
    if pos < 0 || pos >= b.len() {
        Ok(Seq::empty())
    } else {
        match spec_read(b, pos) {
            Ok((ins, next)) => if pos < next <= b.len() {
                match spec_read_all(b, next) {
                    Ok(rest) => Ok(seq![ins] + rest),
                    Err(e) => Err(e),
                }
            } else {
                Err(ReadInstructionError::ParsingError)
            },
            Err(DecodeError::Incomplete(_)) => Err(ReadInstructionError::ParsingIncomplete),
            Err(DecodeError::Malformed) => Err(
                ReadInstructionError::InvalidOpcode { opcode: b[pos] },
            ),
            Err(DecodeError::Encoding) => Err(ReadInstructionError::ParsingError),
        }
    }
}

/// The number of code bytes the encoded forms of `s` occupy together.
pub open spec fn total_size(s: Seq<Instruction>) -> int
    decreases s.len(),
{
    if s.len() == 0 {
        0
    } else {
        instr_size(s[0]) + total_size(s.skip(1))
    }
}

/// Every instruction occupies at least one byte.
pub proof fn lemma_instr_size_at_least_one(ins: Instruction)
    ensures
        1 <= instr_size(ins) <= 17,
{
}

/// A successful read advances by exactly the instruction's size.
pub proof fn lemma_spec_read_size(b: Seq<u8>, pos: int)
    requires
        spec_read(b, pos) is Ok,
    ensures
        spec_read(b, pos)->Ok_0.1 == pos + instr_size(spec_read(b, pos)->Ok_0.0),
{
}

/// A fully decoded code array is covered exactly by its instructions.
pub proof fn lemma_spec_read_all_total_size(b: Seq<u8>, pos: int)
    requires
        0 <= pos <= b.len(),
        spec_read_all(b, pos) is Ok,
    ensures
        total_size(spec_read_all(b, pos)->Ok_0) == b.len() - pos,
    decreases b.len() - pos,
{
    if pos >= b.len() {
    } else {
        let (ins, next) = spec_read(b, pos)->Ok_0;
        lemma_spec_read_size(b, pos);
        lemma_spec_read_all_total_size(b, next);
        let rest = spec_read_all(b, next)->Ok_0;
        assert((seq![ins] + rest).skip(1) =~= rest);
        assert((seq![ins] + rest)[0] == ins);
    }
}

/// The two's-complement 16-bit encoding of `v` as an unsigned value.
pub open spec fn un16(v: i16) -> int {
    if v < 0 {
        v + 0x10000
    } else {
        v as int
    }
}

/// The two's-complement 32-bit encoding of `v` as an unsigned value.
pub open spec fn un32(v: i32) -> int {
    if v < 0 {
        v + 0x100000000
    } else {
        v as int
    }
}

/// The big-endian bytes of a 16-bit value.
pub open spec fn bytes16(x: int) -> Seq<u8> {
    seq![(x / 0x100) as u8, (x % 0x100) as u8]
}

/// The big-endian bytes of a 32-bit value.
pub open spec fn bytes32(x: int) -> Seq<u8> {
    seq![
        (x / 0x1000000) as u8,
        ((x / 0x10000) % 0x100) as u8,
        ((x / 0x100) % 0x100) as u8,
        (x % 0x100) as u8,
    ]
}

/// The big-endian bytes of a 64-bit value.
pub open spec fn bytes64(x: int) -> Seq<u8> {
    seq![
        (x / 0x100000000000000) as u8,
        ((x / 0x1000000000000) % 0x100) as u8,
        ((x / 0x10000000000) % 0x100) as u8,
        ((x / 0x100000000) % 0x100) as u8,
        ((x / 0x1000000) % 0x100) as u8,
        ((x / 0x10000) % 0x100) as u8,
        ((x / 0x100) % 0x100) as u8,
        (x % 0x100) as u8,
    ]
}

/// The encoded form of `ins`: its opcode byte followed by its immediates,
/// big-endian.
pub open spec fn instr_bytes(ins: Instruction) -> Seq<u8> {
    match ins {
        Instruction::NOOP => seq![0x00u8],
        Instruction::AConstNull => seq![0x01u8],
        Instruction::IConstm1 => seq![0x02u8],
        Instruction::IConst0 => seq![0x03u8],
        Instruction::IConst1 => seq![0x04u8],
        Instruction::IConst2 => seq![0x05u8],
        Instruction::IConst3 => seq![0x06u8],
        Instruction::IConst4 => seq![0x07u8],
        Instruction::IConst5 => seq![0x08u8],
        Instruction::LConst0 => seq![0x09u8],
        Instruction::LConst1 => seq![0x0au8],
        Instruction::FConst0 => seq![0x0bu8],
        Instruction::FConst1 => seq![0x0cu8],
        Instruction::FConst2 => seq![0x0du8],
        Instruction::DConst0 => seq![0x0eu8],
        Instruction::DConst1 => seq![0x0fu8],
        Instruction::BIPush(a) => seq![0x10u8, a],
        Instruction::SIPush(a) => seq![0x11u8] + bytes16(a as int),
        Instruction::LDC(a) => seq![0x12u8, a],
        Instruction::LDCW(a) => seq![0x13u8] + bytes16(a as int),
        Instruction::LDC2W(a) => seq![0x14u8] + bytes16(a as int),
        Instruction::ILoad(a) => seq![0x15u8, a],
        Instruction::LLoad(a) => seq![0x16u8, a],
        Instruction::FLoad(a) => seq![0x17u8, a],
        Instruction::DLoad(a) => seq![0x18u8, a],
        Instruction::ALoad(a) => seq![0x19u8, a],
        Instruction::ILoad0 => seq![0x1au8],
        Instruction::ILoad1 => seq![0x1bu8],
        Instruction::ILoad2 => seq![0x1cu8],
        Instruction::ILoad3 => seq![0x1du8],
        Instruction::LLoad0 => seq![0x1eu8],
        Instruction::LLoad1 => seq![0x1fu8],
        Instruction::LLoad2 => seq![0x20u8],
        Instruction::LLoad3 => seq![0x21u8],
        Instruction::FLoad0 => seq![0x22u8],
        Instruction::FLoad1 => seq![0x23u8],
        Instruction::FLoad2 => seq![0x24u8],
        Instruction::FLoad3 => seq![0x25u8],
        Instruction::DLoad0 => seq![0x26u8],
        Instruction::DLoad1 => seq![0x27u8],
        Instruction::DLoad2 => seq![0x28u8],
        Instruction::DLoad3 => seq![0x29u8],
        Instruction::ALoad0 => seq![0x2au8],
        Instruction::ALoad1 => seq![0x2bu8],
        Instruction::ALoad2 => seq![0x2cu8],
        Instruction::ALoad3 => seq![0x2du8],
        Instruction::IALoad => seq![0x2eu8],
        Instruction::LALoad => seq![0x2fu8],
        Instruction::FALoad => seq![0x30u8],
        Instruction::DALoad => seq![0x31u8],
        Instruction::AALoad => seq![0x32u8],
        Instruction::BALoad => seq![0x33u8],
        Instruction::CALoad => seq![0x34u8],
        Instruction::ScALoad => seq![0x35u8],
        Instruction::IStore(a) => seq![0x36u8, a],
        Instruction::LStore(a) => seq![0x37u8, a],
        Instruction::FStore(a) => seq![0x38u8, a],
        Instruction::DStore(a) => seq![0x39u8, a],
        Instruction::AStore(a) => seq![0x3au8, a],
        Instruction::IStore0 => seq![0x3bu8],
        Instruction::IStore1 => seq![0x3cu8],
        Instruction::IStore2 => seq![0x3du8],
        Instruction::IStore3 => seq![0x3eu8],
        Instruction::LStore0 => seq![0x3fu8],
        Instruction::LStore1 => seq![0x40u8],
        Instruction::LStore2 => seq![0x41u8],
        Instruction::LStore3 => seq![0x42u8],
        Instruction::FStore0 => seq![0x43u8],
        Instruction::FStore1 => seq![0x44u8],
        Instruction::FStore2 => seq![0x45u8],
        Instruction::FStore3 => seq![0x46u8],
        Instruction::DStore0 => seq![0x47u8],
        Instruction::DStore1 => seq![0x48u8],
        Instruction::DStore2 => seq![0x49u8],
        Instruction::DStore3 => seq![0x4au8],
        Instruction::AStore0 => seq![0x4bu8],
        Instruction::AStore1 => seq![0x4cu8],
        Instruction::AStore2 => seq![0x4du8],
        Instruction::AStore3 => seq![0x4eu8],
        Instruction::IAStore => seq![0x4fu8],
        Instruction::LAStore => seq![0x50u8],
        Instruction::FAStore => seq![0x51u8],
        Instruction::DAStore => seq![0x52u8],
        Instruction::AAStore => seq![0x53u8],
        Instruction::BAStore => seq![0x54u8],
        Instruction::CAStore => seq![0x55u8],
        Instruction::SAStore => seq![0x56u8],
        Instruction::Pop => seq![0x57u8],
        Instruction::Pop2 => seq![0x58u8],
        Instruction::Dup => seq![0x59u8],
        Instruction::DupX1 => seq![0x5au8],
        Instruction::DupX2 => seq![0x5bu8],
        Instruction::Dup2 => seq![0x5cu8],
        Instruction::Dup2X1 => seq![0x5du8],
        Instruction::Dup2X2 => seq![0x5eu8],
        Instruction::Swap => seq![0x5fu8],
        Instruction::IAdd => seq![0x60u8],
        Instruction::LAdd => seq![0x61u8],
        Instruction::FAdd => seq![0x62u8],
        Instruction::DAdd => seq![0x63u8],
        Instruction::ISub => seq![0x64u8],
        Instruction::LSub => seq![0x65u8],
        Instruction::FSub => seq![0x66u8],
        Instruction::DSub => seq![0x67u8],
        Instruction::IMul => seq![0x68u8],
        Instruction::LMul => seq![0x69u8],
        Instruction::FMul => seq![0x6au8],
        Instruction::DMul => seq![0x6bu8],
        Instruction::IDiv => seq![0x6cu8],
        Instruction::LDiv => seq![0x6du8],
        Instruction::FDiv => seq![0x6eu8],
        Instruction::DDiv => seq![0x6fu8],
        Instruction::IRem => seq![0x70u8],
        Instruction::LRem => seq![0x71u8],
        Instruction::FRem => seq![0x72u8],
        Instruction::DRem => seq![0x73u8],
        Instruction::INeg => seq![0x74u8],
        Instruction::LNeg => seq![0x75u8],
        Instruction::FNeg => seq![0x76u8],
        Instruction::DNeg => seq![0x77u8],
        Instruction::IShl => seq![0x78u8],
        Instruction::LShl => seq![0x79u8],
        Instruction::IShr => seq![0x7au8],
        Instruction::LShr => seq![0x7bu8],
        Instruction::IUSHR => seq![0x7cu8],
        Instruction::LUSHR => seq![0x7du8],
        Instruction::IAnd => seq![0x7eu8],
        Instruction::LAnd => seq![0x7fu8],
        Instruction::IOr => seq![0x80u8],
        Instruction::LOr => seq![0x81u8],
        Instruction::IXor => seq![0x82u8],
        Instruction::LXor => seq![0x83u8],
        Instruction::IInc(a, b) => seq![0x84u8, a, b],
        Instruction::I2L => seq![0x85u8],
        Instruction::I2F => seq![0x86u8],
        Instruction::I2D => seq![0x87u8],
        Instruction::L2I => seq![0x88u8],
        Instruction::L2F => seq![0x89u8],
        Instruction::L2D => seq![0x8au8],
        Instruction::F2I => seq![0x8bu8],
        Instruction::F2L => seq![0x8cu8],
        Instruction::F2D => seq![0x8du8],
        Instruction::D2I => seq![0x8eu8],
        Instruction::D2L => seq![0x8fu8],
        Instruction::D2F => seq![0x90u8],
        Instruction::I2B => seq![0x91u8],
        Instruction::I2C => seq![0x92u8],
        Instruction::I2S => seq![0x93u8],
        Instruction::LCmp => seq![0x94u8],
        Instruction::FCmpL => seq![0x95u8],
        Instruction::FCmpG => seq![0x96u8],
        Instruction::DCmpL => seq![0x97u8],
        Instruction::DCmpG => seq![0x98u8],
        Instruction::Ifeq(a) => seq![0x99u8] + bytes16(un16(a)),
        Instruction::Ifne(a) => seq![0x9au8] + bytes16(un16(a)),
        Instruction::Iflt(a) => seq![0x9bu8] + bytes16(un16(a)),
        Instruction::Ifge(a) => seq![0x9cu8] + bytes16(un16(a)),
        Instruction::Ifgt(a) => seq![0x9du8] + bytes16(un16(a)),
        Instruction::Ifle(a) => seq![0x9eu8] + bytes16(un16(a)),
        Instruction::IfICmpEQ(a) => seq![0x9fu8] + bytes16(un16(a)),
        Instruction::IfICmpNE(a) => seq![0xa0u8] + bytes16(un16(a)),
        Instruction::IfICmpLT(a) => seq![0xa1u8] + bytes16(un16(a)),
        Instruction::IfICmpGE(a) => seq![0xa2u8] + bytes16(un16(a)),
        Instruction::IfICmpGT(a) => seq![0xa3u8] + bytes16(un16(a)),
        Instruction::IfICmpLE(a) => seq![0xa4u8] + bytes16(un16(a)),
        Instruction::IfACmpEQ(a) => seq![0xa5u8] + bytes16(un16(a)),
        Instruction::IfACmpNE(a) => seq![0xa6u8] + bytes16(un16(a)),
        Instruction::Goto(a) => seq![0xa7u8] + bytes16(un16(a)),
        Instruction::JSR(a) => seq![0xa8u8] + bytes16(un16(a)),
        Instruction::Ret(a) => seq![0xa9u8, a],
        Instruction::TableSwitch(a) => seq![0xaau8, a],
        Instruction::LookupSwitch(a, b) => seq![0xabu8] + bytes64(a as int) + bytes64(b as int),
        Instruction::IReturn => seq![0xacu8],
        Instruction::LReturn => seq![0xadu8],
        Instruction::FReturn => seq![0xaeu8],
        Instruction::DReturn => seq![0xafu8],
        Instruction::AReturn => seq![0xb0u8],
        Instruction::Return => seq![0xb1u8],
        Instruction::GetStatic(a) => seq![0xb2u8] + bytes16(a as int),
        Instruction::PutStatic(a) => seq![0xb3u8] + bytes16(a as int),
        Instruction::GetField(a) => seq![0xb4u8] + bytes16(a as int),
        Instruction::PutField(a) => seq![0xb5u8] + bytes16(a as int),
        Instruction::InvokeVirtual(a) => seq![0xb6u8] + bytes16(a as int),
        Instruction::InvokeSpecial(a) => seq![0xb7u8] + bytes16(a as int),
        Instruction::InvokeStatic(a) => seq![0xb8u8] + bytes16(a as int),
        Instruction::InvokeInterface(a) => seq![0xb9u8] + bytes32(a as int),
        Instruction::InvokeDynamic(a) => seq![0xbau8] + bytes32(a as int),
        Instruction::New(a) => seq![0xbbu8] + bytes16(a as int),
        Instruction::NewArray(a) => seq![0xbcu8, a],
        Instruction::ANewArray(a) => seq![0xbdu8] + bytes16(a as int),
        Instruction::ArrayLength => seq![0xbeu8],
        Instruction::AThrow => seq![0xbfu8],
        Instruction::CheckCast(a) => seq![0xc0u8] + bytes16(a as int),
        Instruction::InstanceOf(a) => seq![0xc1u8] + bytes16(a as int),
        Instruction::MonitorEnter => seq![0xc2u8],
        Instruction::MonitorExit => seq![0xc3u8],
        Instruction::Wide(a, b) => seq![0xc4u8] + bytes16(a as int) + seq![b],
        Instruction::MultiANewArray(a, b) => seq![0xc5u8] + bytes16(a as int) + seq![b],
        Instruction::IfNull(a) => seq![0xc6u8] + bytes16(un16(a)),
        Instruction::IfNonNull(a) => seq![0xc7u8] + bytes16(un16(a)),
        Instruction::GotoW(a) => seq![0xc8u8] + bytes32(un32(a)),
        Instruction::JSRW(a) => seq![0xc9u8] + bytes32(un32(a)),
        Instruction::Breakpoint => seq![0xcau8],
        Instruction::ImpDep1 => seq![0xfeu8],
        Instruction::ImpDep2 => seq![0xffu8],
    }
}

proof fn lemma_digits16(x: int)
    requires
        0 <= x < 0x10000,
    ensures
        (x / 0x100) * 0x100 + x % 0x100 == x,
        0 <= x / 0x100 < 0x100,
        0 <= x % 0x100 < 0x100,
{
}

proof fn lemma_digits32(x: int)
    requires
        0 <= x < 0x100000000,
    ensures
        (x / 0x1000000) * 0x1000000 + ((x / 0x10000) % 0x100) * 0x10000 + ((x / 0x100) % 0x100)
            * 0x100 + x % 0x100 == x,
        0 <= x / 0x1000000 < 0x100,
    decreases 0int,
{
    assert((x / 0x1000000) * 0x1000000 + ((x / 0x10000) % 0x100) * 0x10000 + ((x / 0x100) % 0x100)
        * 0x100 + x % 0x100 == x) by (nonlinear_arith)
        requires
            0 <= x < 0x100000000,
    ;
}

proof fn lemma_digits64(x: u64)
    ensures
        (x / 0x100000000000000) * 0x100000000000000 + ((x / 0x1000000000000) % 0x100)
            * 0x1000000000000 + ((x / 0x10000000000) % 0x100) * 0x10000000000 + ((x / 0x100000000)
            % 0x100) * 0x100000000 + ((x / 0x1000000) % 0x100) * 0x1000000 + ((x / 0x10000)
            % 0x100) * 0x10000 + ((x / 0x100) % 0x100) * 0x100 + x % 0x100 == x,
        0 <= x / 0x100000000000000 < 0x100,
{
    assert(x / 0x100000000000000 * 0x100000000000000 + x / 0x1000000000000 % 0x100
        * 0x1000000000000 + x / 0x10000000000 % 0x100 * 0x10000000000 + x / 0x100000000 % 0x100
        * 0x100000000 + x / 0x1000000 % 0x100 * 0x1000000 + x / 0x10000 % 0x100 * 0x10000 + x
        / 0x100 % 0x100 * 0x100 + x % 0x100 == x) by (bit_vector);
    assert(x / 0x100000000000000 < 0x100) by (bit_vector);
}

/// An instruction's encoded form has exactly its declared size.
#[verifier::rlimit(60)]
pub proof fn lemma_instr_bytes_len(ins: Instruction)
    ensures
        instr_bytes(ins).len() == instr_size(ins),
{
}

/// Decoding the encoded form of any instruction, whatever follows it,
/// yields that instruction back and advances by exactly its size.
#[verifier::rlimit(100)]
#[verifier::spinoff_prover]
pub proof fn lemma_instruction_round_trip(ins: Instruction, rest: Seq<u8>)
    ensures
        spec_read(instr_bytes(ins) + rest, 0) == Ok::<(Instruction, int), DecodeError>(
            (ins, instr_size(ins)),
        ),
{
    let b = instr_bytes(ins) + rest;
    assert(b[0] == instr_bytes(ins)[0]);
    match ins {
        Instruction::NOOP => {},
        Instruction::AConstNull => {},
        Instruction::IConstm1 => {},
        Instruction::IConst0 => {},
        Instruction::IConst1 => {},
        Instruction::IConst2 => {},
        Instruction::IConst3 => {},
        Instruction::IConst4 => {},
        Instruction::IConst5 => {},
        Instruction::LConst0 => {},
        Instruction::LConst1 => {},
        Instruction::FConst0 => {},
        Instruction::FConst1 => {},
        Instruction::FConst2 => {},
        Instruction::DConst0 => {},
        Instruction::DConst1 => {},
        Instruction::BIPush(a) => {
            assert(b[1] == a);
        },
        Instruction::SIPush(a) => {
            lemma_digits16(a as int);
            assert(b[1] == bytes16(a as int)[0]);
            assert(b[2] == bytes16(a as int)[1]);
            assert(be16(b, 1) == a as int);
        },
        Instruction::LDC(a) => {
            assert(b[1] == a);
        },
        Instruction::LDCW(a) => {
            lemma_digits16(a as int);
            assert(b[1] == bytes16(a as int)[0]);
            assert(b[2] == bytes16(a as int)[1]);
            assert(be16(b, 1) == a as int);
        },
        Instruction::LDC2W(a) => {
            lemma_digits16(a as int);
            assert(b[1] == bytes16(a as int)[0]);
            assert(b[2] == bytes16(a as int)[1]);
            assert(be16(b, 1) == a as int);
        },
        Instruction::ILoad(a) => {
            assert(b[1] == a);
        },
        Instruction::LLoad(a) => {
            assert(b[1] == a);
        },
        Instruction::FLoad(a) => {
            assert(b[1] == a);
        },
        Instruction::DLoad(a) => {
            assert(b[1] == a);
        },
        Instruction::ALoad(a) => {
            assert(b[1] == a);
        },
        Instruction::ILoad0 => {},
        Instruction::ILoad1 => {},
        Instruction::ILoad2 => {},
        Instruction::ILoad3 => {},
        Instruction::LLoad0 => {},
        Instruction::LLoad1 => {},
        Instruction::LLoad2 => {},
        Instruction::LLoad3 => {},
        Instruction::FLoad0 => {},
        Instruction::FLoad1 => {},
        Instruction::FLoad2 => {},
        Instruction::FLoad3 => {},
        Instruction::DLoad0 => {},
        Instruction::DLoad1 => {},
        Instruction::DLoad2 => {},
        Instruction::DLoad3 => {},
        Instruction::ALoad0 => {},
        Instruction::ALoad1 => {},
        Instruction::ALoad2 => {},
        Instruction::ALoad3 => {},
        Instruction::IALoad => {},
        Instruction::LALoad => {},
        Instruction::FALoad => {},
        Instruction::DALoad => {},
        Instruction::AALoad => {},
        Instruction::BALoad => {},
        Instruction::CALoad => {},
        Instruction::ScALoad => {},
        Instruction::IStore(a) => {
            assert(b[1] == a);
        },
        Instruction::LStore(a) => {
            assert(b[1] == a);
        },
        Instruction::FStore(a) => {
            assert(b[1] == a);
        },
        Instruction::DStore(a) => {
            assert(b[1] == a);
        },
        Instruction::AStore(a) => {
            assert(b[1] == a);
        },
        Instruction::IStore0 => {},
        Instruction::IStore1 => {},
        Instruction::IStore2 => {},
        Instruction::IStore3 => {},
        Instruction::LStore0 => {},
        Instruction::LStore1 => {},
        Instruction::LStore2 => {},
        Instruction::LStore3 => {},
        Instruction::FStore0 => {},
        Instruction::FStore1 => {},
        Instruction::FStore2 => {},
        Instruction::FStore3 => {},
        Instruction::DStore0 => {},
        Instruction::DStore1 => {},
        Instruction::DStore2 => {},
        Instruction::DStore3 => {},
        Instruction::AStore0 => {},
        Instruction::AStore1 => {},
        Instruction::AStore2 => {},
        Instruction::AStore3 => {},
        Instruction::IAStore => {},
        Instruction::LAStore => {},
        Instruction::FAStore => {},
        Instruction::DAStore => {},
        Instruction::AAStore => {},
        Instruction::BAStore => {},
        Instruction::CAStore => {},
        Instruction::SAStore => {},
        Instruction::Pop => {},
        Instruction::Pop2 => {},
        Instruction::Dup => {},
        Instruction::DupX1 => {},
        Instruction::DupX2 => {},
        Instruction::Dup2 => {},
        Instruction::Dup2X1 => {},
        Instruction::Dup2X2 => {},
        Instruction::Swap => {},
        Instruction::IAdd => {},
        Instruction::LAdd => {},
        Instruction::FAdd => {},
        Instruction::DAdd => {},
        Instruction::ISub => {},
        Instruction::LSub => {},
        Instruction::FSub => {},
        Instruction::DSub => {},
        Instruction::IMul => {},
        Instruction::LMul => {},
        Instruction::FMul => {},
        Instruction::DMul => {},
        Instruction::IDiv => {},
        Instruction::LDiv => {},
        Instruction::FDiv => {},
        Instruction::DDiv => {},
        Instruction::IRem => {},
        Instruction::LRem => {},
        Instruction::FRem => {},
        Instruction::DRem => {},
        Instruction::INeg => {},
        Instruction::LNeg => {},
        Instruction::FNeg => {},
        Instruction::DNeg => {},
        Instruction::IShl => {},
        Instruction::LShl => {},
        Instruction::IShr => {},
        Instruction::LShr => {},
        Instruction::IUSHR => {},
        Instruction::LUSHR => {},
        Instruction::IAnd => {},
        Instruction::LAnd => {},
        Instruction::IOr => {},
        Instruction::LOr => {},
        Instruction::IXor => {},
        Instruction::LXor => {},
        Instruction::IInc(a, c2) => {
            assert(b[1] == a);
            assert(b[2] == c2);
        },
        Instruction::I2L => {},
        Instruction::I2F => {},
        Instruction::I2D => {},
        Instruction::L2I => {},
        Instruction::L2F => {},
        Instruction::L2D => {},
        Instruction::F2I => {},
        Instruction::F2L => {},
        Instruction::F2D => {},
        Instruction::D2I => {},
        Instruction::D2L => {},
        Instruction::D2F => {},
        Instruction::I2B => {},
        Instruction::I2C => {},
        Instruction::I2S => {},
        Instruction::LCmp => {},
        Instruction::FCmpL => {},
        Instruction::FCmpG => {},
        Instruction::DCmpL => {},
        Instruction::DCmpG => {},
        Instruction::Ifeq(a) => {
            lemma_digits16(un16(a));
            assert(b[1] == bytes16(un16(a))[0]);
            assert(b[2] == bytes16(un16(a))[1]);
            assert(be16(b, 1) == un16(a));
        },
        Instruction::Ifne(a) => {
            lemma_digits16(un16(a));
            assert(b[1] == bytes16(un16(a))[0]);
            assert(b[2] == bytes16(un16(a))[1]);
            assert(be16(b, 1) == un16(a));
        },
        Instruction::Iflt(a) => {
            lemma_digits16(un16(a));
            assert(b[1] == bytes16(un16(a))[0]);
            assert(b[2] == bytes16(un16(a))[1]);
            assert(be16(b, 1) == un16(a));
        },
        Instruction::Ifge(a) => {
            lemma_digits16(un16(a));
            assert(b[1] == bytes16(un16(a))[0]);
            assert(b[2] == bytes16(un16(a))[1]);
            assert(be16(b, 1) == un16(a));
        },
        Instruction::Ifgt(a) => {
            lemma_digits16(un16(a));
            assert(b[1] == bytes16(un16(a))[0]);
            assert(b[2] == bytes16(un16(a))[1]);
            assert(be16(b, 1) == un16(a));
        },
        Instruction::Ifle(a) => {
            lemma_digits16(un16(a));
            assert(b[1] == bytes16(un16(a))[0]);
            assert(b[2] == bytes16(un16(a))[1]);
            assert(be16(b, 1) == un16(a));
        },
        Instruction::IfICmpEQ(a) => {
            lemma_digits16(un16(a));
            assert(b[1] == bytes16(un16(a))[0]);
            assert(b[2] == bytes16(un16(a))[1]);
            assert(be16(b, 1) == un16(a));
        },
        Instruction::IfICmpNE(a) => {
            lemma_digits16(un16(a));
            assert(b[1] == bytes16(un16(a))[0]);
            assert(b[2] == bytes16(un16(a))[1]);
            assert(be16(b, 1) == un16(a));
        },
        Instruction::IfICmpLT(a) => {
            lemma_digits16(un16(a));
            assert(b[1] == bytes16(un16(a))[0]);
            assert(b[2] == bytes16(un16(a))[1]);
            assert(be16(b, 1) == un16(a));
        },
        Instruction::IfICmpGE(a) => {
            lemma_digits16(un16(a));
            assert(b[1] == bytes16(un16(a))[0]);
            assert(b[2] == bytes16(un16(a))[1]);
            assert(be16(b, 1) == un16(a));
        },
        Instruction::IfICmpGT(a) => {
            lemma_digits16(un16(a));
            assert(b[1] == bytes16(un16(a))[0]);
            assert(b[2] == bytes16(un16(a))[1]);
            assert(be16(b, 1) == un16(a));
        },
        Instruction::IfICmpLE(a) => {
            lemma_digits16(un16(a));
            assert(b[1] == bytes16(un16(a))[0]);
            assert(b[2] == bytes16(un16(a))[1]);
            assert(be16(b, 1) == un16(a));
        },
        Instruction::IfACmpEQ(a) => {
            lemma_digits16(un16(a));
            assert(b[1] == bytes16(un16(a))[0]);
            assert(b[2] == bytes16(un16(a))[1]);
            assert(be16(b, 1) == un16(a));
        },
        Instruction::IfACmpNE(a) => {
            lemma_digits16(un16(a));
            assert(b[1] == bytes16(un16(a))[0]);
            assert(b[2] == bytes16(un16(a))[1]);
            assert(be16(b, 1) == un16(a));
        },
        Instruction::Goto(a) => {
            lemma_digits16(un16(a));
            assert(b[1] == bytes16(un16(a))[0]);
            assert(b[2] == bytes16(un16(a))[1]);
            assert(be16(b, 1) == un16(a));
        },
        Instruction::JSR(a) => {
            lemma_digits16(un16(a));
            assert(b[1] == bytes16(un16(a))[0]);
            assert(b[2] == bytes16(un16(a))[1]);
            assert(be16(b, 1) == un16(a));
        },
        Instruction::Ret(a) => {
            assert(b[1] == a);
        },
        Instruction::TableSwitch(a) => {
            assert(b[1] == a);
        },
        Instruction::LookupSwitch(a, c2) => {
            lemma_digits64(a);
            lemma_digits64(c2);
            assert(b[1] == bytes64(a as int)[0]);
            assert(b[2] == bytes64(a as int)[1]);
            assert(b[3] == bytes64(a as int)[2]);
            assert(b[4] == bytes64(a as int)[3]);
            assert(b[5] == bytes64(a as int)[4]);
            assert(b[6] == bytes64(a as int)[5]);
            assert(b[7] == bytes64(a as int)[6]);
            assert(b[8] == bytes64(a as int)[7]);
            assert(b[9] == bytes64(c2 as int)[0]);
            assert(b[10] == bytes64(c2 as int)[1]);
            assert(b[11] == bytes64(c2 as int)[2]);
            assert(b[12] == bytes64(c2 as int)[3]);
            assert(b[13] == bytes64(c2 as int)[4]);
            assert(b[14] == bytes64(c2 as int)[5]);
            assert(b[15] == bytes64(c2 as int)[6]);
            assert(b[16] == bytes64(c2 as int)[7]);
            assert(be64(b, 1) == a as int);
            assert(be64(b, 9) == c2 as int);
        },
        Instruction::IReturn => {},
        Instruction::LReturn => {},
        Instruction::FReturn => {},
        Instruction::DReturn => {},
        Instruction::AReturn => {},
        Instruction::Return => {},
        Instruction::GetStatic(a) => {
            lemma_digits16(a as int);
            assert(b[1] == bytes16(a as int)[0]);
            assert(b[2] == bytes16(a as int)[1]);
            assert(be16(b, 1) == a as int);
        },
        Instruction::PutStatic(a) => {
            lemma_digits16(a as int);
            assert(b[1] == bytes16(a as int)[0]);
            assert(b[2] == bytes16(a as int)[1]);
            assert(be16(b, 1) == a as int);
        },
        Instruction::GetField(a) => {
            lemma_digits16(a as int);
            assert(b[1] == bytes16(a as int)[0]);
            assert(b[2] == bytes16(a as int)[1]);
            assert(be16(b, 1) == a as int);
        },
        Instruction::PutField(a) => {
            lemma_digits16(a as int);
            assert(b[1] == bytes16(a as int)[0]);
            assert(b[2] == bytes16(a as int)[1]);
            assert(be16(b, 1) == a as int);
        },
        Instruction::InvokeVirtual(a) => {
            lemma_digits16(a as int);
            assert(b[1] == bytes16(a as int)[0]);
            assert(b[2] == bytes16(a as int)[1]);
            assert(be16(b, 1) == a as int);
        },
        Instruction::InvokeSpecial(a) => {
            lemma_digits16(a as int);
            assert(b[1] == bytes16(a as int)[0]);
            assert(b[2] == bytes16(a as int)[1]);
            assert(be16(b, 1) == a as int);
        },
        Instruction::InvokeStatic(a) => {
            lemma_digits16(a as int);
            assert(b[1] == bytes16(a as int)[0]);
            assert(b[2] == bytes16(a as int)[1]);
            assert(be16(b, 1) == a as int);
        },
        Instruction::InvokeInterface(a) => {
            lemma_digits32(a as int);
            assert(b[1] == bytes32(a as int)[0]);
            assert(b[2] == bytes32(a as int)[1]);
            assert(b[3] == bytes32(a as int)[2]);
            assert(b[4] == bytes32(a as int)[3]);
            assert(be32(b, 1) == a as int);
        },
        Instruction::InvokeDynamic(a) => {
            lemma_digits32(a as int);
            assert(b[1] == bytes32(a as int)[0]);
            assert(b[2] == bytes32(a as int)[1]);
            assert(b[3] == bytes32(a as int)[2]);
            assert(b[4] == bytes32(a as int)[3]);
            assert(be32(b, 1) == a as int);
        },
        Instruction::New(a) => {
            lemma_digits16(a as int);
            assert(b[1] == bytes16(a as int)[0]);
            assert(b[2] == bytes16(a as int)[1]);
            assert(be16(b, 1) == a as int);
        },
        Instruction::NewArray(a) => {
            assert(b[1] == a);
        },
        Instruction::ANewArray(a) => {
            lemma_digits16(a as int);
            assert(b[1] == bytes16(a as int)[0]);
            assert(b[2] == bytes16(a as int)[1]);
            assert(be16(b, 1) == a as int);
        },
        Instruction::ArrayLength => {},
        Instruction::AThrow => {},
        Instruction::CheckCast(a) => {
            lemma_digits16(a as int);
            assert(b[1] == bytes16(a as int)[0]);
            assert(b[2] == bytes16(a as int)[1]);
            assert(be16(b, 1) == a as int);
        },
        Instruction::InstanceOf(a) => {
            lemma_digits16(a as int);
            assert(b[1] == bytes16(a as int)[0]);
            assert(b[2] == bytes16(a as int)[1]);
            assert(be16(b, 1) == a as int);
        },
        Instruction::MonitorEnter => {},
        Instruction::MonitorExit => {},
        Instruction::Wide(a, c2) => {
            lemma_digits16(a as int);
            assert(b[1] == bytes16(a as int)[0]);
            assert(b[2] == bytes16(a as int)[1]);
            assert(b[3] == c2);
            assert(be16(b, 1) == a as int);
        },
        Instruction::MultiANewArray(a, c2) => {
            lemma_digits16(a as int);
            assert(b[1] == bytes16(a as int)[0]);
            assert(b[2] == bytes16(a as int)[1]);
            assert(b[3] == c2);
            assert(be16(b, 1) == a as int);
        },
        Instruction::IfNull(a) => {
            lemma_digits16(un16(a));
            assert(b[1] == bytes16(un16(a))[0]);
            assert(b[2] == bytes16(un16(a))[1]);
            assert(be16(b, 1) == un16(a));
        },
        Instruction::IfNonNull(a) => {
            lemma_digits16(un16(a));
            assert(b[1] == bytes16(un16(a))[0]);
            assert(b[2] == bytes16(un16(a))[1]);
            assert(be16(b, 1) == un16(a));
        },
        Instruction::GotoW(a) => {
            lemma_digits32(un32(a));
            assert(b[1] == bytes32(un32(a))[0]);
            assert(b[2] == bytes32(un32(a))[1]);
            assert(b[3] == bytes32(un32(a))[2]);
            assert(b[4] == bytes32(un32(a))[3]);
            assert(be32(b, 1) == un32(a));
        },
        Instruction::JSRW(a) => {
            lemma_digits32(un32(a));
            assert(b[1] == bytes32(un32(a))[0]);
            assert(b[2] == bytes32(un32(a))[1]);
            assert(b[3] == bytes32(un32(a))[2]);
            assert(b[4] == bytes32(un32(a))[3]);
            assert(be32(b, 1) == un32(a));
        },
        Instruction::Breakpoint => {},
        Instruction::ImpDep1 => {},
        Instruction::ImpDep2 => {},
    }
}
/// Whether `op` is an opcode of the recognized set.
pub open spec fn opcode_known(op: u8) -> bool {
    op <= 0xca || op == 0xfe || op == 0xff
}

/// Exactly the bytes outside the recognized opcode set make a one-instruction
/// decode fail as malformed (a recognized opcode short of immediate bytes
/// fails as incomplete instead).
#[verifier::rlimit(60)]
pub proof fn lemma_unknown_opcode(b: Seq<u8>, pos: int)
    requires
        0 <= pos < b.len(),
    ensures
        (spec_read(b, pos) == Err::<(Instruction, int), DecodeError>(DecodeError::Malformed))
            <==> !opcode_known(b[pos]),
{
}

/// Decoding a whole code array stops at an unrecognized opcode byte and
/// reports that byte.
pub proof fn lemma_read_all_unknown_opcode(b: Seq<u8>, pos: int)
    requires
        0 <= pos < b.len(),
        !opcode_known(b[pos]),
    ensures
        spec_read_all(b, pos) == Err::<Seq<Instruction>, ReadInstructionError>(
            ReadInstructionError::InvalidOpcode { opcode: b[pos] },
        ),
{
    lemma_unknown_opcode(b, pos);
}

} // verus!
