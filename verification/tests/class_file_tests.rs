use minijvm::class_file::Attribute;
use minijvm::class_file::CodeBlock;
use minijvm::class_file::ConstantType;
use minijvm::class_file::MethodAccess;
use minijvm::parser::read_class_file;
use minijvm::parser::validate_utf8;
use minijvm::reader::DecodeError;

fn push_u16(v: &mut Vec<u8>, x: u16) {
    v.push((x >> 8) as u8);
    v.push(x as u8);
}

fn push_u32(v: &mut Vec<u8>, x: u32) {
    v.push((x >> 24) as u8);
    v.push((x >> 16) as u8);
    v.push((x >> 8) as u8);
    v.push(x as u8);
}

fn push_utf8(v: &mut Vec<u8>, s: &[u8]) {
    v.push(1);
    push_u16(v, s.len() as u16);
    v.extend_from_slice(s);
}

/// A class file shaped like a compiled `HelloWorld`: version 54.0, a pool of
/// 31 constants, no interfaces, fields, methods or attributes.
fn hello_world_class() -> Vec<u8> {
    let mut v = Vec::new();
    push_u32(&mut v, 0xCAFEBABE);
    push_u16(&mut v, 0); // minor
    push_u16(&mut v, 54); // major
    push_u16(&mut v, 32); // pool count: 31 entries follow
    push_utf8(&mut v, b"HelloWorld"); // 1
    v.push(7); // 2: Class -> 1
    push_u16(&mut v, 1);
    push_utf8(&mut v, b"java/lang/Object"); // 3
    v.push(7); // 4: Class -> 3
    push_u16(&mut v, 3);
    for i in 0..27u16 {
        v.push(3); // 5..=31: Integer constants
        push_u32(&mut v, i as u32);
    }
    push_u16(&mut v, 0x0021); // access flags
    push_u16(&mut v, 2); // this
    push_u16(&mut v, 4); // super
    push_u16(&mut v, 0); // interfaces
    push_u16(&mut v, 0); // fields
    push_u16(&mut v, 0); // methods
    push_u16(&mut v, 0); // attributes
    v
}

#[test]
fn it_can_read_the_complete_class_file() {
    let bytes = hello_world_class();
    let (_, consumed) = read_class_file(&bytes).unwrap();
    if consumed != bytes.len() {
        panic!("cannot read class file");
    }
}

#[test]
fn it_gets_the_version_correct() {
    let bytes = hello_world_class();
    let (cf, _) = read_class_file(&bytes).unwrap();
    assert_eq!((54, 0), cf.version)
}

#[test]
fn it_reads_the_correct_number_of_constants() {
    let bytes = hello_world_class();
    let (cf, _) = read_class_file(&bytes).unwrap();
    assert_eq!(31, cf.constants.len())
}

#[test]
fn it_gets_the_class_name_correct() {
    let bytes = hello_world_class();
    let (cf, _) = read_class_file(&bytes).unwrap();
    assert_eq!(b"HelloWorld".to_vec(), *cf.get_class_name())
}

#[test]
fn bad_magic_is_malformed() {
    let mut bytes = hello_world_class();
    bytes[0] = 0xCB;
    assert_eq!(read_class_file(&bytes), Err(DecodeError::Malformed));
}

#[test]
fn truncated_file_is_incomplete() {
    let mut bytes = hello_world_class();
    bytes.truncate(bytes.len() - 1);
    assert_eq!(read_class_file(&bytes), Err(DecodeError::Incomplete(2)));
}

#[test]
fn invalid_utf8_constant_is_an_encoding_error() {
    let mut v = Vec::new();
    push_u32(&mut v, 0xCAFEBABE);
    push_u16(&mut v, 0);
    push_u16(&mut v, 54);
    push_u16(&mut v, 2);
    v.push(1); // Utf8 of one invalid byte
    push_u16(&mut v, 1);
    v.push(0xFF);
    assert_eq!(read_class_file(&v), Err(DecodeError::Encoding));
}

#[test]
fn accented_class_name_decodes() {
    let mut v = Vec::new();
    push_u32(&mut v, 0xCAFEBABE);
    push_u16(&mut v, 0);
    push_u16(&mut v, 54);
    push_u16(&mut v, 3);
    push_utf8(&mut v, b"caf\xc3\xa9"); // 1
    v.push(7); // 2: Class -> 1
    push_u16(&mut v, 1);
    push_u16(&mut v, 0x0021);
    push_u16(&mut v, 2);
    push_u16(&mut v, 0);
    push_u16(&mut v, 0);
    push_u16(&mut v, 0);
    push_u16(&mut v, 0);
    push_u16(&mut v, 0);
    let (cf, consumed) = read_class_file(&v).unwrap();
    assert_eq!(consumed, v.len());
    assert_eq!(b"caf\xc3\xa9".to_vec(), *cf.get_class_name());
}

#[test]
fn utf8_validation_accepts_and_rejects() {
    assert!(validate_utf8(&b"plain ascii".to_vec()));
    assert!(validate_utf8(&b"caf\xc3\xa9".to_vec()));
    assert!(validate_utf8(&vec![0xE2, 0x82, 0xAC])); // three-byte form
    assert!(validate_utf8(&vec![0xF0, 0x9F, 0x99, 0x82])); // four-byte form
    assert!(!validate_utf8(&vec![0xFF]));
    assert!(!validate_utf8(&vec![0xC3])); // continuation missing
    assert!(!validate_utf8(&vec![0xED, 0xA0, 0x80])); // surrogate range
}

#[test]
fn get_constant_is_one_indexed() {
    let bytes = hello_world_class();
    let (cf, _) = read_class_file(&bytes).unwrap();
    assert!(cf.get_constant(0).is_none());
    match cf.get_constant(1) {
        Some(ConstantType::Utf8 { value }) => assert_eq!(*value, b"HelloWorld".to_vec()),
        _ => panic!("expected a Utf8 entry"),
    }
    assert!(cf.get_constant(32).is_none());
}

#[test]
fn line_number_table_lookup() {
    let block = CodeBlock {
        max_stack: 1,
        max_locals: 1,
        code: vec![],
        attributes: vec![Attribute::LineNumberTable(vec![(0, 10), (3, 12), (5, 11)])],
    };
    let numbers = block.get_line_numbers();
    assert_eq!(numbers, vec![10, 10, 10, 12, 12, 11]);
}

#[test]
fn line_numbers_empty_without_table() {
    let block = CodeBlock { max_stack: 1, max_locals: 1, code: vec![], attributes: vec![] };
    assert_eq!(block.get_line_numbers(), Vec::<usize>::new());
}

#[test]
fn access_flags_decode_in_bit_order() {
    let method = minijvm::class_file::Method {
        access_flags: 0x0009,
        name: b"main".to_vec(),
        descriptor: b"()V".to_vec(),
        attributes: vec![],
    };
    assert_eq!(
        method.get_access(),
        vec![MethodAccess::Public, MethodAccess::Static]
    );
    let native = minijvm::class_file::Method {
        access_flags: 0x00C2,
        name: b"n".to_vec(),
        descriptor: b"()V".to_vec(),
        attributes: vec![],
    };
    assert_eq!(
        native.get_access(),
        vec![MethodAccess::Private, MethodAccess::Native, MethodAccess::Strict]
    );
    let abstract_method = minijvm::class_file::Method {
        access_flags: 0x0401,
        name: b"a".to_vec(),
        descriptor: b"()V".to_vec(),
        attributes: vec![],
    };
    assert_eq!(
        abstract_method.get_access(),
        vec![MethodAccess::Public, MethodAccess::Abstract]
    );
}

#[test]
fn disassemble_lists_instructions_with_operands() {
    let method = minijvm::class_file::Method {
        access_flags: 0x0009,
        name: b"test".to_vec(),
        descriptor: b"()I".to_vec(),
        attributes: vec![Attribute::CodeAttribute(CodeBlock {
            max_stack: 1,
            max_locals: 0,
            code: vec![0x04, 0x10, 0x2A, 0x84, 0x01, 0x05, 0xA7, 0xFF, 0xFD, 0xAC],
            attributes: vec![],
        })],
    };
    let listing = minijvm::disasm::disassemble(&method);
    assert_eq!(
        listing,
        "> IConst1\n> BIPush(42)\n> IInc(1, 5)\n> Goto(-3)\n> IReturn\n"
    );
}

#[test]
fn method_lookup_by_name_and_type() {
    let mut v = Vec::new();
    push_u32(&mut v, 0xCAFEBABE);
    push_u16(&mut v, 0);
    push_u16(&mut v, 54);
    push_u16(&mut v, 7); // six constants
    push_utf8(&mut v, b"Test"); // 1
    v.push(7); // 2: Class -> 1
    push_u16(&mut v, 1);
    push_utf8(&mut v, b"Code"); // 3
    push_utf8(&mut v, b"run"); // 4
    push_utf8(&mut v, b"()V"); // 5
    v.push(12); // 6: NameAndType run ()V
    push_u16(&mut v, 4);
    push_u16(&mut v, 5);
    push_u16(&mut v, 0x0021);
    push_u16(&mut v, 2);
    push_u16(&mut v, 2);
    push_u16(&mut v, 0);
    push_u16(&mut v, 0);
    push_u16(&mut v, 1); // one method, without attributes
    push_u16(&mut v, 0x0009);
    push_u16(&mut v, 4);
    push_u16(&mut v, 5);
    push_u16(&mut v, 0);
    push_u16(&mut v, 0); // class attributes
    let (cf, _) = read_class_file(&v).unwrap();
    let m = cf.get_method_from_nat(6).expect("method should resolve");
    assert_eq!(m.name, b"run".to_vec());
    assert!(cf.get_method_from_nat(5).is_none()); // a Utf8 entry, not a NameAndType
}

#[test]
fn trailing_bytes_are_left_unconsumed() {
    let mut bytes = hello_world_class();
    let class_len = bytes.len();
    bytes.extend_from_slice(&[0xDE, 0xAD]);
    let (cf, consumed) = read_class_file(&bytes).unwrap();
    assert_eq!(consumed, class_len);
    assert_eq!(b"HelloWorld".to_vec(), *cf.get_class_name());
}

#[test]
fn disassemble_formats_wide_operands() {
    let mut code = vec![0xAB];
    code.extend_from_slice(&[0xFF; 8]); // first operand: the largest u64
    code.extend_from_slice(&[0x00; 8]); // second operand: zero
    let method = minijvm::class_file::Method {
        access_flags: 0x0009,
        name: b"test".to_vec(),
        descriptor: b"()V".to_vec(),
        attributes: vec![Attribute::CodeAttribute(CodeBlock {
            max_stack: 0,
            max_locals: 0,
            code,
            attributes: vec![],
        })],
    };
    let listing = minijvm::disasm::disassemble(&method);
    assert_eq!(listing, "> LookupSwitch(18446744073709551615, 0)\n");
}
