//! A plain-text disassembly of a method's code: one line per decoded
//! instruction, carrying its mnemonic and its decoded immediate operands in
//! decimal.

use vstd::prelude::*;
use vstd::string::StringExecFns;
use crate::class_file::Method;
use crate::class_file::spec_first_code;
use crate::instructions::Instruction;
use crate::instructions::spec_read_all;

verus! {

/// The one-character text of a decimal digit.
pub open spec fn digit_seq(d: nat) -> Seq<char> {
    if d == 0 {
        "0"@
    } else if d == 1 {
        "1"@
    } else if d == 2 {
        "2"@
    } else if d == 3 {
        "3"@
    } else if d == 4 {
        "4"@
    } else if d == 5 {
        "5"@
    } else if d == 6 {
        "6"@
    } else if d == 7 {
        "7"@
    } else if d == 8 {
        "8"@
    } else {
        "9"@
    }
}

/// The decimal digits of `n`, most significant first.
pub open spec fn dec_digits(n: nat) -> Seq<char>
    decreases n,
{
    if n < 10 {
        digit_seq(n)
    } else {
        dec_digits(n / 10) + digit_seq(n % 10)
    }
}

/// The decimal text of `v`, with a leading minus sign when negative.
pub open spec fn dec_int(v: int) -> Seq<char> {
    if v < 0 {
        "-"@ + dec_digits((-v) as nat)
    } else {
        dec_digits(v as nat)
    }
}

/// A mnemonic with one parenthesised operand.
pub open spec fn with_operand(name: Seq<char>, a: int) -> Seq<char> {
    name + "("@ + dec_int(a) + ")"@
}

/// A mnemonic with two parenthesised operands.
pub open spec fn with_operands(name: Seq<char>, a: int, b: int) -> Seq<char> {
    name + "("@ + dec_int(a) + ", "@ + dec_int(b) + ")"@
}

/// The one-character text of a decimal digit.
fn digit_str(d: u64) -> (r: &'static str)
    requires
        d < 10,
    ensures
        r@ == digit_seq(d as nat),
{
    match d {
        0 => "0",
        1 => "1",
        2 => "2",
        3 => "3",
        4 => "4",
        5 => "5",
        6 => "6",
        7 => "7",
        8 => "8",
        9 => "9",
        _ => unreached(),
    }
}

/// The decimal text of `n`.
fn u64_to_dec(n: u64) -> (r: String)
    ensures
        r@ == dec_digits(n as nat),
    decreases n,
{
    if n < 10 {
        let mut s = String::new();
        s.append(digit_str(n));
        proof {
            assert(Seq::<char>::empty() + digit_seq(n as nat) =~= digit_seq(n as nat));
        }
        s
    } else {
        let mut s = u64_to_dec(n / 10);
        s.append(digit_str(n % 10));
        s
    }
}

/// The decimal text of `v`.
fn i64_to_dec(v: i64) -> (r: String)
    ensures
        r@ == dec_int(v as int),
{
    if v >= 0 {
        u64_to_dec(v as u64)
    } else {
        let magnitude: u64 = ((-(v + 1)) as u64) + 1;
        proof {
            assert(magnitude as int == -(v as int));
        }
        let mut s = String::new();
        s.append("-");
        s.append(u64_to_dec(magnitude).as_str());
        proof {
            assert(Seq::<char>::empty() + "-"@ =~= "-"@);
        }
        s
    }
}

/// A mnemonic alone.
fn fmt_plain(name: &str) -> (r: String)
    ensures
        r@ == name@,
{
    let mut s = String::new();
    s.append(name);
    proof {
        assert(Seq::<char>::empty() + name@ =~= name@);
    }
    s
}

/// A mnemonic with one operand.
fn fmt_one(name: &str, a: i64) -> (r: String)
    ensures
        r@ == with_operand(name@, a as int),
{
    let mut s = fmt_plain(name);
    s.append("(");
    s.append(i64_to_dec(a).as_str());
    s.append(")");
    s
}

/// A mnemonic with two operands.
fn fmt_two(name: &str, a: i64, b: i64) -> (r: String)
    ensures
        r@ == with_operands(name@, a as int, b as int),
{
    let mut s = fmt_plain(name);
    s.append("(");
    s.append(i64_to_dec(a).as_str());
    s.append(", ");
    s.append(i64_to_dec(b).as_str());
    s.append(")");
    s
}

/// A mnemonic with two operands too wide for a signed machine word.
fn fmt_two_wide(name: &str, a: u64, b: u64) -> (r: String)
    ensures
        r@ == with_operands(name@, a as int, b as int),
{
    let mut s = fmt_plain(name);
    s.append("(");
    s.append(u64_to_dec(a).as_str());
    s.append(", ");
    s.append(u64_to_dec(b).as_str());
    s.append(")");
    s
}

/// The text of one instruction: its mnemonic, with its decoded immediate
/// operands in decimal.
pub open spec fn instr_text(ins: Instruction) -> Seq<char> {
    match ins {
        Instruction::NOOP => "NOOP"@,
        Instruction::AConstNull => "AConstNull"@,
        Instruction::IConstm1 => "IConstm1"@,
        Instruction::IConst0 => "IConst0"@,
        Instruction::IConst1 => "IConst1"@,
        Instruction::IConst2 => "IConst2"@,
        Instruction::IConst3 => "IConst3"@,
        Instruction::IConst4 => "IConst4"@,
        Instruction::IConst5 => "IConst5"@,
        Instruction::LConst0 => "LConst0"@,
        Instruction::LConst1 => "LConst1"@,
        Instruction::FConst0 => "FConst0"@,
        Instruction::FConst1 => "FConst1"@,
        Instruction::FConst2 => "FConst2"@,
        Instruction::DConst0 => "DConst0"@,
        Instruction::DConst1 => "DConst1"@,
        Instruction::BIPush(a) => with_operand("BIPush"@, a as int),
        Instruction::SIPush(a) => with_operand("SIPush"@, a as int),
        Instruction::LDC(a) => with_operand("LDC"@, a as int),
        Instruction::LDCW(a) => with_operand("LDCW"@, a as int),
        Instruction::LDC2W(a) => with_operand("LDC2W"@, a as int),
        Instruction::ILoad(a) => with_operand("ILoad"@, a as int),
        Instruction::LLoad(a) => with_operand("LLoad"@, a as int),
        Instruction::FLoad(a) => with_operand("FLoad"@, a as int),
        Instruction::DLoad(a) => with_operand("DLoad"@, a as int),
        Instruction::ALoad(a) => with_operand("ALoad"@, a as int),
        Instruction::ILoad0 => "ILoad0"@,
        Instruction::ILoad1 => "ILoad1"@,
        Instruction::ILoad2 => "ILoad2"@,
        Instruction::ILoad3 => "ILoad3"@,
        Instruction::LLoad0 => "LLoad0"@,
        Instruction::LLoad1 => "LLoad1"@,
        Instruction::LLoad2 => "LLoad2"@,
        Instruction::LLoad3 => "LLoad3"@,
        Instruction::FLoad0 => "FLoad0"@,
        Instruction::FLoad1 => "FLoad1"@,
        Instruction::FLoad2 => "FLoad2"@,
        Instruction::FLoad3 => "FLoad3"@,
        Instruction::DLoad0 => "DLoad0"@,
        Instruction::DLoad1 => "DLoad1"@,
        Instruction::DLoad2 => "DLoad2"@,
        Instruction::DLoad3 => "DLoad3"@,
        Instruction::ALoad0 => "ALoad0"@,
        Instruction::ALoad1 => "ALoad1"@,
        Instruction::ALoad2 => "ALoad2"@,
        Instruction::ALoad3 => "ALoad3"@,
        Instruction::IALoad => "IALoad"@,
        Instruction::LALoad => "LALoad"@,
        Instruction::FALoad => "FALoad"@,
        Instruction::DALoad => "DALoad"@,
        Instruction::AALoad => "AALoad"@,
        Instruction::BALoad => "BALoad"@,
        Instruction::CALoad => "CALoad"@,
        Instruction::ScALoad => "ScALoad"@,
        Instruction::IStore(a) => with_operand("IStore"@, a as int),
        Instruction::LStore(a) => with_operand("LStore"@, a as int),
        Instruction::FStore(a) => with_operand("FStore"@, a as int),
        Instruction::DStore(a) => with_operand("DStore"@, a as int),
        Instruction::AStore(a) => with_operand("AStore"@, a as int),
        Instruction::IStore0 => "IStore0"@,
        Instruction::IStore1 => "IStore1"@,
        Instruction::IStore2 => "IStore2"@,
        Instruction::IStore3 => "IStore3"@,
        Instruction::LStore0 => "LStore0"@,
        Instruction::LStore1 => "LStore1"@,
        Instruction::LStore2 => "LStore2"@,
        Instruction::LStore3 => "LStore3"@,
        Instruction::FStore0 => "FStore0"@,
        Instruction::FStore1 => "FStore1"@,
        Instruction::FStore2 => "FStore2"@,
        Instruction::FStore3 => "FStore3"@,
        Instruction::DStore0 => "DStore0"@,
        Instruction::DStore1 => "DStore1"@,
        Instruction::DStore2 => "DStore2"@,
        Instruction::DStore3 => "DStore3"@,
        Instruction::AStore0 => "AStore0"@,
        Instruction::AStore1 => "AStore1"@,
        Instruction::AStore2 => "AStore2"@,
        Instruction::AStore3 => "AStore3"@,
        Instruction::IAStore => "IAStore"@,
        Instruction::LAStore => "LAStore"@,
        Instruction::FAStore => "FAStore"@,
        Instruction::DAStore => "DAStore"@,
        Instruction::AAStore => "AAStore"@,
        Instruction::BAStore => "BAStore"@,
        Instruction::CAStore => "CAStore"@,
        Instruction::SAStore => "SAStore"@,
        Instruction::Pop => "Pop"@,
        Instruction::Pop2 => "Pop2"@,
        Instruction::Dup => "Dup"@,
        Instruction::DupX1 => "DupX1"@,
        Instruction::DupX2 => "DupX2"@,
        Instruction::Dup2 => "Dup2"@,
        Instruction::Dup2X1 => "Dup2X1"@,
        Instruction::Dup2X2 => "Dup2X2"@,
        Instruction::Swap => "Swap"@,
        Instruction::IAdd => "IAdd"@,
        Instruction::LAdd => "LAdd"@,
        Instruction::FAdd => "FAdd"@,
        Instruction::DAdd => "DAdd"@,
        Instruction::ISub => "ISub"@,
        Instruction::LSub => "LSub"@,
        Instruction::FSub => "FSub"@,
        Instruction::DSub => "DSub"@,
        Instruction::IMul => "IMul"@,
        Instruction::LMul => "LMul"@,
        Instruction::FMul => "FMul"@,
        Instruction::DMul => "DMul"@,
        Instruction::IDiv => "IDiv"@,
        Instruction::LDiv => "LDiv"@,
        Instruction::FDiv => "FDiv"@,
        Instruction::DDiv => "DDiv"@,
        Instruction::IRem => "IRem"@,
        Instruction::LRem => "LRem"@,
        Instruction::FRem => "FRem"@,
        Instruction::DRem => "DRem"@,
        Instruction::INeg => "INeg"@,
        Instruction::LNeg => "LNeg"@,
        Instruction::FNeg => "FNeg"@,
        Instruction::DNeg => "DNeg"@,
        Instruction::IShl => "IShl"@,
        Instruction::LShl => "LShl"@,
        Instruction::IShr => "IShr"@,
        Instruction::LShr => "LShr"@,
        Instruction::IUSHR => "IUSHR"@,
        Instruction::LUSHR => "LUSHR"@,
        Instruction::IAnd => "IAnd"@,
        Instruction::LAnd => "LAnd"@,
        Instruction::IOr => "IOr"@,
        Instruction::LOr => "LOr"@,
        Instruction::IXor => "IXor"@,
        Instruction::LXor => "LXor"@,
        Instruction::IInc(a, b) => with_operands("IInc"@, a as int, b as int),
        Instruction::I2L => "I2L"@,
        Instruction::I2F => "I2F"@,
        Instruction::I2D => "I2D"@,
        Instruction::L2I => "L2I"@,
        Instruction::L2F => "L2F"@,
        Instruction::L2D => "L2D"@,
        Instruction::F2I => "F2I"@,
        Instruction::F2L => "F2L"@,
        Instruction::F2D => "F2D"@,
        Instruction::D2I => "D2I"@,
        Instruction::D2L => "D2L"@,
        Instruction::D2F => "D2F"@,
        Instruction::I2B => "I2B"@,
        Instruction::I2C => "I2C"@,
        Instruction::I2S => "I2S"@,
        Instruction::LCmp => "LCmp"@,
        Instruction::FCmpL => "FCmpL"@,
        Instruction::FCmpG => "FCmpG"@,
        Instruction::DCmpL => "DCmpL"@,
        Instruction::DCmpG => "DCmpG"@,
        Instruction::Ifeq(a) => with_operand("Ifeq"@, a as int),
        Instruction::Ifne(a) => with_operand("Ifne"@, a as int),
        Instruction::Iflt(a) => with_operand("Iflt"@, a as int),
        Instruction::Ifge(a) => with_operand("Ifge"@, a as int),
        Instruction::Ifgt(a) => with_operand("Ifgt"@, a as int),
        Instruction::Ifle(a) => with_operand("Ifle"@, a as int),
        Instruction::IfICmpEQ(a) => with_operand("IfICmpEQ"@, a as int),
        Instruction::IfICmpNE(a) => with_operand("IfICmpNE"@, a as int),
        Instruction::IfICmpLT(a) => with_operand("IfICmpLT"@, a as int),
        Instruction::IfICmpGE(a) => with_operand("IfICmpGE"@, a as int),
        Instruction::IfICmpGT(a) => with_operand("IfICmpGT"@, a as int),
        Instruction::IfICmpLE(a) => with_operand("IfICmpLE"@, a as int),
        Instruction::IfACmpEQ(a) => with_operand("IfACmpEQ"@, a as int),
        Instruction::IfACmpNE(a) => with_operand("IfACmpNE"@, a as int),
        Instruction::Goto(a) => with_operand("Goto"@, a as int),
        Instruction::JSR(a) => with_operand("JSR"@, a as int),
        Instruction::Ret(a) => with_operand("Ret"@, a as int),
        Instruction::TableSwitch(a) => with_operand("TableSwitch"@, a as int),
        Instruction::LookupSwitch(a, b) => with_operands("LookupSwitch"@, a as int, b as int),
        Instruction::IReturn => "IReturn"@,
        Instruction::LReturn => "LReturn"@,
        Instruction::FReturn => "FReturn"@,
        Instruction::DReturn => "DReturn"@,
        Instruction::AReturn => "AReturn"@,
        Instruction::Return => "Return"@,
        Instruction::GetStatic(a) => with_operand("GetStatic"@, a as int),
        Instruction::PutStatic(a) => with_operand("PutStatic"@, a as int),
        Instruction::GetField(a) => with_operand("GetField"@, a as int),
        Instruction::PutField(a) => with_operand("PutField"@, a as int),
        Instruction::InvokeVirtual(a) => with_operand("InvokeVirtual"@, a as int),
        Instruction::InvokeSpecial(a) => with_operand("InvokeSpecial"@, a as int),
        Instruction::InvokeStatic(a) => with_operand("InvokeStatic"@, a as int),
        Instruction::InvokeInterface(a) => with_operand("InvokeInterface"@, a as int),
        Instruction::InvokeDynamic(a) => with_operand("InvokeDynamic"@, a as int),
        Instruction::New(a) => with_operand("New"@, a as int),
        Instruction::NewArray(a) => with_operand("NewArray"@, a as int),
        Instruction::ANewArray(a) => with_operand("ANewArray"@, a as int),
        Instruction::ArrayLength => "ArrayLength"@,
        Instruction::AThrow => "AThrow"@,
        Instruction::CheckCast(a) => with_operand("CheckCast"@, a as int),
        Instruction::InstanceOf(a) => with_operand("InstanceOf"@, a as int),
        Instruction::MonitorEnter => "MonitorEnter"@,
        Instruction::MonitorExit => "MonitorExit"@,
        Instruction::Wide(a, b) => with_operands("Wide"@, a as int, b as int),
        Instruction::MultiANewArray(a, b) => with_operands("MultiANewArray"@, a as int, b as int),
        Instruction::IfNull(a) => with_operand("IfNull"@, a as int),
        Instruction::IfNonNull(a) => with_operand("IfNonNull"@, a as int),
        Instruction::GotoW(a) => with_operand("GotoW"@, a as int),
        Instruction::JSRW(a) => with_operand("JSRW"@, a as int),
        Instruction::Breakpoint => "Breakpoint"@,
        Instruction::ImpDep1 => "ImpDep1"@,
        Instruction::ImpDep2 => "ImpDep2"@,
    }
}

/// The text of one instruction.
pub fn instr_line(ins: &Instruction) -> (r: String)
    ensures
        r@ == instr_text(*ins),
{
    match ins {
        Instruction::NOOP => fmt_plain("NOOP"),
        Instruction::AConstNull => fmt_plain("AConstNull"),
        Instruction::IConstm1 => fmt_plain("IConstm1"),
        Instruction::IConst0 => fmt_plain("IConst0"),
        Instruction::IConst1 => fmt_plain("IConst1"),
        Instruction::IConst2 => fmt_plain("IConst2"),
        Instruction::IConst3 => fmt_plain("IConst3"),
        Instruction::IConst4 => fmt_plain("IConst4"),
        Instruction::IConst5 => fmt_plain("IConst5"),
        Instruction::LConst0 => fmt_plain("LConst0"),
        Instruction::LConst1 => fmt_plain("LConst1"),
        Instruction::FConst0 => fmt_plain("FConst0"),
        Instruction::FConst1 => fmt_plain("FConst1"),
        Instruction::FConst2 => fmt_plain("FConst2"),
        Instruction::DConst0 => fmt_plain("DConst0"),
        Instruction::DConst1 => fmt_plain("DConst1"),
        Instruction::BIPush(a) => fmt_one("BIPush", *a as i64),
        Instruction::SIPush(a) => fmt_one("SIPush", *a as i64),
        Instruction::LDC(a) => fmt_one("LDC", *a as i64),
        Instruction::LDCW(a) => fmt_one("LDCW", *a as i64),
        Instruction::LDC2W(a) => fmt_one("LDC2W", *a as i64),
        Instruction::ILoad(a) => fmt_one("ILoad", *a as i64),
        Instruction::LLoad(a) => fmt_one("LLoad", *a as i64),
        Instruction::FLoad(a) => fmt_one("FLoad", *a as i64),
        Instruction::DLoad(a) => fmt_one("DLoad", *a as i64),
        Instruction::ALoad(a) => fmt_one("ALoad", *a as i64),
        Instruction::ILoad0 => fmt_plain("ILoad0"),
        Instruction::ILoad1 => fmt_plain("ILoad1"),
        Instruction::ILoad2 => fmt_plain("ILoad2"),
        Instruction::ILoad3 => fmt_plain("ILoad3"),
        Instruction::LLoad0 => fmt_plain("LLoad0"),
        Instruction::LLoad1 => fmt_plain("LLoad1"),
        Instruction::LLoad2 => fmt_plain("LLoad2"),
        Instruction::LLoad3 => fmt_plain("LLoad3"),
        Instruction::FLoad0 => fmt_plain("FLoad0"),
        Instruction::FLoad1 => fmt_plain("FLoad1"),
        Instruction::FLoad2 => fmt_plain("FLoad2"),
        Instruction::FLoad3 => fmt_plain("FLoad3"),
        Instruction::DLoad0 => fmt_plain("DLoad0"),
        Instruction::DLoad1 => fmt_plain("DLoad1"),
        Instruction::DLoad2 => fmt_plain("DLoad2"),
        Instruction::DLoad3 => fmt_plain("DLoad3"),
        Instruction::ALoad0 => fmt_plain("ALoad0"),
        Instruction::ALoad1 => fmt_plain("ALoad1"),
        Instruction::ALoad2 => fmt_plain("ALoad2"),
        Instruction::ALoad3 => fmt_plain("ALoad3"),
        Instruction::IALoad => fmt_plain("IALoad"),
        Instruction::LALoad => fmt_plain("LALoad"),
        Instruction::FALoad => fmt_plain("FALoad"),
        Instruction::DALoad => fmt_plain("DALoad"),
        Instruction::AALoad => fmt_plain("AALoad"),
        Instruction::BALoad => fmt_plain("BALoad"),
        Instruction::CALoad => fmt_plain("CALoad"),
        Instruction::ScALoad => fmt_plain("ScALoad"),
        Instruction::IStore(a) => fmt_one("IStore", *a as i64),
        Instruction::LStore(a) => fmt_one("LStore", *a as i64),
        Instruction::FStore(a) => fmt_one("FStore", *a as i64),
        Instruction::DStore(a) => fmt_one("DStore", *a as i64),
        Instruction::AStore(a) => fmt_one("AStore", *a as i64),
        Instruction::IStore0 => fmt_plain("IStore0"),
        Instruction::IStore1 => fmt_plain("IStore1"),
        Instruction::IStore2 => fmt_plain("IStore2"),
        Instruction::IStore3 => fmt_plain("IStore3"),
        Instruction::LStore0 => fmt_plain("LStore0"),
        Instruction::LStore1 => fmt_plain("LStore1"),
        Instruction::LStore2 => fmt_plain("LStore2"),
        Instruction::LStore3 => fmt_plain("LStore3"),
        Instruction::FStore0 => fmt_plain("FStore0"),
        Instruction::FStore1 => fmt_plain("FStore1"),
        Instruction::FStore2 => fmt_plain("FStore2"),
        Instruction::FStore3 => fmt_plain("FStore3"),
        Instruction::DStore0 => fmt_plain("DStore0"),
        Instruction::DStore1 => fmt_plain("DStore1"),
        Instruction::DStore2 => fmt_plain("DStore2"),
        Instruction::DStore3 => fmt_plain("DStore3"),
        Instruction::AStore0 => fmt_plain("AStore0"),
        Instruction::AStore1 => fmt_plain("AStore1"),
        Instruction::AStore2 => fmt_plain("AStore2"),
        Instruction::AStore3 => fmt_plain("AStore3"),
        Instruction::IAStore => fmt_plain("IAStore"),
        Instruction::LAStore => fmt_plain("LAStore"),
        Instruction::FAStore => fmt_plain("FAStore"),
        Instruction::DAStore => fmt_plain("DAStore"),
        Instruction::AAStore => fmt_plain("AAStore"),
        Instruction::BAStore => fmt_plain("BAStore"),
        Instruction::CAStore => fmt_plain("CAStore"),
        Instruction::SAStore => fmt_plain("SAStore"),
        Instruction::Pop => fmt_plain("Pop"),
        Instruction::Pop2 => fmt_plain("Pop2"),
        Instruction::Dup => fmt_plain("Dup"),
        Instruction::DupX1 => fmt_plain("DupX1"),
        Instruction::DupX2 => fmt_plain("DupX2"),
        Instruction::Dup2 => fmt_plain("Dup2"),
        Instruction::Dup2X1 => fmt_plain("Dup2X1"),
        Instruction::Dup2X2 => fmt_plain("Dup2X2"),
        Instruction::Swap => fmt_plain("Swap"),
        Instruction::IAdd => fmt_plain("IAdd"),
        Instruction::LAdd => fmt_plain("LAdd"),
        Instruction::FAdd => fmt_plain("FAdd"),
        Instruction::DAdd => fmt_plain("DAdd"),
        Instruction::ISub => fmt_plain("ISub"),
        Instruction::LSub => fmt_plain("LSub"),
        Instruction::FSub => fmt_plain("FSub"),
        Instruction::DSub => fmt_plain("DSub"),
        Instruction::IMul => fmt_plain("IMul"),
        Instruction::LMul => fmt_plain("LMul"),
        Instruction::FMul => fmt_plain("FMul"),
        Instruction::DMul => fmt_plain("DMul"),
        Instruction::IDiv => fmt_plain("IDiv"),
        Instruction::LDiv => fmt_plain("LDiv"),
        Instruction::FDiv => fmt_plain("FDiv"),
        Instruction::DDiv => fmt_plain("DDiv"),
        Instruction::IRem => fmt_plain("IRem"),
        Instruction::LRem => fmt_plain("LRem"),
        Instruction::FRem => fmt_plain("FRem"),
        Instruction::DRem => fmt_plain("DRem"),
        Instruction::INeg => fmt_plain("INeg"),
        Instruction::LNeg => fmt_plain("LNeg"),
        Instruction::FNeg => fmt_plain("FNeg"),
        Instruction::DNeg => fmt_plain("DNeg"),
        Instruction::IShl => fmt_plain("IShl"),
        Instruction::LShl => fmt_plain("LShl"),
        Instruction::IShr => fmt_plain("IShr"),
        Instruction::LShr => fmt_plain("LShr"),
        Instruction::IUSHR => fmt_plain("IUSHR"),
        Instruction::LUSHR => fmt_plain("LUSHR"),
        Instruction::IAnd => fmt_plain("IAnd"),
        Instruction::LAnd => fmt_plain("LAnd"),
        Instruction::IOr => fmt_plain("IOr"),
        Instruction::LOr => fmt_plain("LOr"),
        Instruction::IXor => fmt_plain("IXor"),
        Instruction::LXor => fmt_plain("LXor"),
        Instruction::IInc(a, b) => fmt_two("IInc", *a as i64, *b as i64),
        Instruction::I2L => fmt_plain("I2L"),
        Instruction::I2F => fmt_plain("I2F"),
        Instruction::I2D => fmt_plain("I2D"),
        Instruction::L2I => fmt_plain("L2I"),
        Instruction::L2F => fmt_plain("L2F"),
        Instruction::L2D => fmt_plain("L2D"),
        Instruction::F2I => fmt_plain("F2I"),
        Instruction::F2L => fmt_plain("F2L"),
        Instruction::F2D => fmt_plain("F2D"),
        Instruction::D2I => fmt_plain("D2I"),
        Instruction::D2L => fmt_plain("D2L"),
        Instruction::D2F => fmt_plain("D2F"),
        Instruction::I2B => fmt_plain("I2B"),
        Instruction::I2C => fmt_plain("I2C"),
        Instruction::I2S => fmt_plain("I2S"),
        Instruction::LCmp => fmt_plain("LCmp"),
        Instruction::FCmpL => fmt_plain("FCmpL"),
        Instruction::FCmpG => fmt_plain("FCmpG"),
        Instruction::DCmpL => fmt_plain("DCmpL"),
        Instruction::DCmpG => fmt_plain("DCmpG"),
        Instruction::Ifeq(a) => fmt_one("Ifeq", *a as i64),
        Instruction::Ifne(a) => fmt_one("Ifne", *a as i64),
        Instruction::Iflt(a) => fmt_one("Iflt", *a as i64),
        Instruction::Ifge(a) => fmt_one("Ifge", *a as i64),
        Instruction::Ifgt(a) => fmt_one("Ifgt", *a as i64),
        Instruction::Ifle(a) => fmt_one("Ifle", *a as i64),
        Instruction::IfICmpEQ(a) => fmt_one("IfICmpEQ", *a as i64),
        Instruction::IfICmpNE(a) => fmt_one("IfICmpNE", *a as i64),
        Instruction::IfICmpLT(a) => fmt_one("IfICmpLT", *a as i64),
        Instruction::IfICmpGE(a) => fmt_one("IfICmpGE", *a as i64),
        Instruction::IfICmpGT(a) => fmt_one("IfICmpGT", *a as i64),
        Instruction::IfICmpLE(a) => fmt_one("IfICmpLE", *a as i64),
        Instruction::IfACmpEQ(a) => fmt_one("IfACmpEQ", *a as i64),
        Instruction::IfACmpNE(a) => fmt_one("IfACmpNE", *a as i64),
        Instruction::Goto(a) => fmt_one("Goto", *a as i64),
        Instruction::JSR(a) => fmt_one("JSR", *a as i64),
        Instruction::Ret(a) => fmt_one("Ret", *a as i64),
        Instruction::TableSwitch(a) => fmt_one("TableSwitch", *a as i64),
        Instruction::LookupSwitch(a, b) => fmt_two_wide("LookupSwitch", *a, *b),
        Instruction::IReturn => fmt_plain("IReturn"),
        Instruction::LReturn => fmt_plain("LReturn"),
        Instruction::FReturn => fmt_plain("FReturn"),
        Instruction::DReturn => fmt_plain("DReturn"),
        Instruction::AReturn => fmt_plain("AReturn"),
        Instruction::Return => fmt_plain("Return"),
        Instruction::GetStatic(a) => fmt_one("GetStatic", *a as i64),
        Instruction::PutStatic(a) => fmt_one("PutStatic", *a as i64),
        Instruction::GetField(a) => fmt_one("GetField", *a as i64),
        Instruction::PutField(a) => fmt_one("PutField", *a as i64),
        Instruction::InvokeVirtual(a) => fmt_one("InvokeVirtual", *a as i64),
        Instruction::InvokeSpecial(a) => fmt_one("InvokeSpecial", *a as i64),
        Instruction::InvokeStatic(a) => fmt_one("InvokeStatic", *a as i64),
        Instruction::InvokeInterface(a) => fmt_one("InvokeInterface", *a as i64),
        Instruction::InvokeDynamic(a) => fmt_one("InvokeDynamic", *a as i64),
        Instruction::New(a) => fmt_one("New", *a as i64),
        Instruction::NewArray(a) => fmt_one("NewArray", *a as i64),
        Instruction::ANewArray(a) => fmt_one("ANewArray", *a as i64),
        Instruction::ArrayLength => fmt_plain("ArrayLength"),
        Instruction::AThrow => fmt_plain("AThrow"),
        Instruction::CheckCast(a) => fmt_one("CheckCast", *a as i64),
        Instruction::InstanceOf(a) => fmt_one("InstanceOf", *a as i64),
        Instruction::MonitorEnter => fmt_plain("MonitorEnter"),
        Instruction::MonitorExit => fmt_plain("MonitorExit"),
        Instruction::Wide(a, b) => fmt_two("Wide", *a as i64, *b as i64),
        Instruction::MultiANewArray(a, b) => fmt_two("MultiANewArray", *a as i64, *b as i64),
        Instruction::IfNull(a) => fmt_one("IfNull", *a as i64),
        Instruction::IfNonNull(a) => fmt_one("IfNonNull", *a as i64),
        Instruction::GotoW(a) => fmt_one("GotoW", *a as i64),
        Instruction::JSRW(a) => fmt_one("JSRW", *a as i64),
        Instruction::Breakpoint => fmt_plain("Breakpoint"),
        Instruction::ImpDep1 => fmt_plain("ImpDep1"),
        Instruction::ImpDep2 => fmt_plain("ImpDep2"),
    }
}

/// One disassembly line per instruction: its text, marked and terminated.
pub open spec fn spec_disassemble(instrs: Seq<Instruction>) -> Seq<char>
    decreases instrs.len(),
{
    if instrs.len() == 0 {
        Seq::empty()
    } else {
        "> "@ + instr_text(instrs[0]) + "\n"@ + spec_disassemble(instrs.skip(1))
    }
}

/// A plain-text disassembly of `method`'s code, one line per instruction,
/// operands included.
pub fn disassemble(method: &Method) -> (r: String)
    requires
        spec_first_code(method.attributes@) matches Some(code) && spec_read_all(code.code@, 0)
            is Ok,
    ensures
        r@ == spec_disassemble(
            spec_read_all(spec_first_code(method.attributes@)->0.code@, 0)->Ok_0,
        ),
{
    let code_block = match method.get_code() {
        Some(c) => c,
        None => unreached(),
    };
    let instructions = match code_block.instructions() {
        Ok(instr) => instr,
        Err(_) => unreached(),
    };
    let ghost all = instructions@;
    let mut out = String::new();
    let mut i: usize = 0;
    proof {
        assert(all.skip(0) =~= all);
        assert(Seq::<char>::empty() + spec_disassemble(all) =~= spec_disassemble(all));
    }
    while i < instructions.len()
        invariant
            0 <= i <= instructions.len(),
            all == instructions@,
            out@ + spec_disassemble(all.skip(i as int)) == spec_disassemble(all),
        decreases instructions.len() - i,
    {
        proof {
            assert(all.skip(i as int)[0] == all[i as int]);
            assert(all.skip(i as int).skip(1) =~= all.skip(i + 1));
        }
        out.append("> ");
        out.append(instr_line(&instructions[i]).as_str());
        out.append("\n");
        proof {
            assert(out@ + spec_disassemble(all.skip(i + 1)) =~= spec_disassemble(all));
        }
        i = i + 1;
    }
    proof {
        assert(all.skip(instructions.len() as int) =~= Seq::<Instruction>::empty());
        assert(out@ =~= spec_disassemble(all));
    }
    out
}

} // verus!

