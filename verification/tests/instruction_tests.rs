use minijvm::instructions::Instruction;
use minijvm::instructions::ReadInstructionError;
use minijvm::reader::DecodeError;
use minijvm::stream::Instructions;

#[test]
fn decode_no_immediate_opcode() {
    let (ins, next) = Instruction::read(&vec![0x04], 0).unwrap();
    assert_eq!(ins, Instruction::IConst1);
    assert_eq!(next, 1);
    assert_eq!(ins.get_size(), 1);
}

#[test]
fn decode_one_byte_immediate() {
    let (ins, next) = Instruction::read(&vec![0x10, 0x2A], 0).unwrap();
    assert_eq!(ins, Instruction::BIPush(0x2A));
    assert_eq!(next, 2);
    assert_eq!(ins.get_size(), 2);
}

#[test]
fn decode_two_byte_immediate() {
    let (ins, next) = Instruction::read(&vec![0xB8, 0x01, 0x02], 0).unwrap();
    assert_eq!(ins, Instruction::InvokeStatic(0x0102));
    assert_eq!(next, 3);
    assert_eq!(ins.get_size(), 3);
}

#[test]
fn decode_signed_branch_offset() {
    let (ins, _) = Instruction::read(&vec![0xA7, 0xFF, 0xFE], 0).unwrap();
    assert_eq!(ins, Instruction::Goto(-2));
    assert_eq!(ins.get_size(), 3);
}

#[test]
fn decode_two_immediates() {
    let (ins, next) = Instruction::read(&vec![0x84, 0x01, 0x05], 0).unwrap();
    assert_eq!(ins, Instruction::IInc(1, 5));
    assert_eq!(next, 3);
}

#[test]
fn decode_wide_goto_signed_32() {
    let (ins, next) = Instruction::read(&vec![0xC8, 0xFF, 0xFF, 0xFF, 0xFC], 0).unwrap();
    assert_eq!(ins, Instruction::GotoW(-4));
    assert_eq!(next, 5);
    assert_eq!(ins.get_size(), 5);
}

#[test]
fn decode_lookup_switch_fixed_width() {
    let mut bytes = vec![0xAB];
    bytes.extend_from_slice(&[0, 0, 0, 0, 0, 0, 0, 1]);
    bytes.extend_from_slice(&[0, 0, 0, 0, 0, 0, 0, 2]);
    let (ins, next) = Instruction::read(&bytes, 0).unwrap();
    assert_eq!(ins, Instruction::LookupSwitch(1, 2));
    assert_eq!(next, 17);
    assert_eq!(ins.get_size(), 17);
}

#[test]
fn unknown_opcode_is_reported_with_its_byte() {
    assert_eq!(
        Instruction::read_all(&vec![0x04, 0xCB]),
        Err(ReadInstructionError::InvalidOpcode { opcode: 0xCB })
    );
}

#[test]
fn truncated_immediates_are_incomplete() {
    assert_eq!(
        Instruction::read_all(&vec![0x10]),
        Err(ReadInstructionError::ParsingIncomplete)
    );
    assert_eq!(Instruction::read(&vec![], 0), Err(DecodeError::Incomplete(1)));
}

#[test]
fn read_all_decodes_a_whole_sequence() {
    let code = vec![0x04, 0x3C, 0x1B, 0xAC];
    let decoded = Instruction::read_all(&code).unwrap();
    assert_eq!(
        decoded,
        vec![
            Instruction::IConst1,
            Instruction::IStore1,
            Instruction::ILoad1,
            Instruction::IReturn,
        ]
    );
}

#[test]
fn stream_walks_instructions_in_order() {
    let code = vec![0x04, 0x10, 0x2A, 0xAC];
    let decoded = Instruction::read_all(&code).unwrap();
    let mut stream = Instructions::create(decoded);
    assert_eq!(stream.next(), Some(Instruction::IConst1));
    assert_eq!(stream.next(), Some(Instruction::BIPush(0x2A)));
    assert_eq!(stream.next(), Some(Instruction::IReturn));
    assert_eq!(stream.next(), None);
}

#[test]
fn goto_accepts_only_instruction_boundaries() {
    let code = vec![0x04, 0x10, 0x2A, 0xAC];
    let decoded = Instruction::read_all(&code).unwrap();
    let mut stream = Instructions::create(decoded);
    assert!(stream.goto(1));
    assert_eq!(stream.next(), Some(Instruction::BIPush(0x2A)));
    assert!(!stream.goto(2)); // inside the BIPush immediate
    assert!(!stream.goto(4)); // one past the end
    assert!(stream.goto(0));
    assert_eq!(stream.next(), Some(Instruction::IConst1));
}

#[test]
fn sizes_cover_the_code_exactly() {
    let code = vec![0x04, 0x10, 0x2A, 0xA7, 0x00, 0x03, 0xAC];
    let decoded = Instruction::read_all(&code).unwrap();
    let total: usize = decoded.iter().map(|i| i.get_size()).sum();
    assert_eq!(total, code.len());
}
