use minijvm::class_file::ClassFile;
use minijvm::descriptor::ValueType;
use minijvm::frame::LocalVariable;
use minijvm::frame::StackFrame;
use minijvm::frame::StackValue;
use minijvm::instructions::Instruction;
use minijvm::parser::read_class_file;
use minijvm::runtime::Runtime;
use minijvm::runtime::RuntimeError;

fn push_u16(v: &mut Vec<u8>, x: u16) {
    v.push((x >> 8) as u8);
    v.push(x as u8);
}

fn push_u32(v: &mut Vec<u8>, x: u32) {
    v.push((x >> 24) as u8);
    v.push((x >> 16) as u8);
    v.push((x >> 8) as u8);
    v.push(x as u8);
}

fn push_utf8(v: &mut Vec<u8>, s: &[u8]) {
    v.push(1);
    push_u16(v, s.len() as u16);
    v.extend_from_slice(s);
}

fn push_method(v: &mut Vec<u8>, name_idx: u16, desc_idx: u16, max_stack: u16, max_locals: u16, code: &[u8]) {
    push_u16(v, 0x0009); // public static
    push_u16(v, name_idx);
    push_u16(v, desc_idx);
    push_u16(v, 1); // one attribute: Code
    push_u16(v, 3); // name index of "Code"
    push_u32(v, 12 + code.len() as u32);
    push_u16(v, max_stack);
    push_u16(v, max_locals);
    push_u32(v, code.len() as u32);
    v.extend_from_slice(code);
    push_u16(v, 0); // exception table
    push_u16(v, 0); // nested attributes
}

/// A class named `Test` with one method `test` of the given descriptor.
fn one_method_class(desc: &[u8], max_stack: u16, max_locals: u16, code: &[u8]) -> ClassFile {
    let mut v = Vec::new();
    push_u32(&mut v, 0xCAFEBABE);
    push_u16(&mut v, 0);
    push_u16(&mut v, 54);
    push_u16(&mut v, 6); // five constants
    push_utf8(&mut v, b"Test"); // 1
    v.push(7); // 2: Class -> 1
    push_u16(&mut v, 1);
    push_utf8(&mut v, b"Code"); // 3
    push_utf8(&mut v, b"test"); // 4
    push_utf8(&mut v, desc); // 5
    push_u16(&mut v, 0x0021);
    push_u16(&mut v, 2); // this
    push_u16(&mut v, 2); // super
    push_u16(&mut v, 0); // interfaces
    push_u16(&mut v, 0); // fields
    push_u16(&mut v, 1); // methods
    push_method(&mut v, 4, 5, max_stack, max_locals, code);
    push_u16(&mut v, 0); // attributes
    let (cf, consumed) = read_class_file(&v).unwrap();
    assert_eq!(consumed, v.len());
    cf
}

fn run_test_method(desc: &[u8], max_stack: u16, max_locals: u16, code: &[u8]) -> Result<Option<StackValue>, RuntimeError> {
    let cf = one_method_class(desc, max_stack, max_locals, code);
    let rt = Runtime::create(cf);
    rt.exec_method_on_main(&b"test".to_vec())
}

/// A class named `SimpleMath` whose `testMe` computes 46 through a nested
/// static call of its own `add`, and whose `miss` invokes an absent method.
fn simple_math_class() -> Vec<u8> {
    let mut v = Vec::new();
    push_u32(&mut v, 0xCAFEBABE);
    push_u16(&mut v, 0);
    push_u16(&mut v, 54);
    push_u16(&mut v, 14); // thirteen constants
    push_utf8(&mut v, b"SimpleMath"); // 1
    v.push(7); // 2: Class -> 1
    push_u16(&mut v, 1);
    push_utf8(&mut v, b"Code"); // 3
    push_utf8(&mut v, b"testMe"); // 4
    push_utf8(&mut v, b"()I"); // 5
    push_utf8(&mut v, b"add"); // 6
    push_utf8(&mut v, b"(II)I"); // 7
    v.push(12); // 8: NameAndType add (II)I
    push_u16(&mut v, 6);
    push_u16(&mut v, 7);
    v.push(10); // 9: MethodRef -> Class 2, NameAndType 8
    push_u16(&mut v, 2);
    push_u16(&mut v, 8);
    push_utf8(&mut v, b"miss"); // 10
    push_utf8(&mut v, b"missing"); // 11
    v.push(12); // 12: NameAndType missing ()I
    push_u16(&mut v, 11);
    push_u16(&mut v, 5);
    v.push(10); // 13: MethodRef -> Class 2, NameAndType 12
    push_u16(&mut v, 2);
    push_u16(&mut v, 12);
    push_u16(&mut v, 0x0021);
    push_u16(&mut v, 2);
    push_u16(&mut v, 2);
    push_u16(&mut v, 0);
    push_u16(&mut v, 0);
    push_u16(&mut v, 3); // methods
    // testMe: bipush 44; iconst_2; invokestatic #9; ireturn
    push_method(&mut v, 4, 5, 2, 0, &[0x10, 0x2C, 0x05, 0xB8, 0x00, 0x09, 0xAC]);
    // add: iload_0; iload_1; iadd; ireturn
    push_method(&mut v, 6, 7, 2, 2, &[0x1A, 0x1B, 0x60, 0xAC]);
    // miss: invokestatic #13; ireturn
    push_method(&mut v, 10, 5, 1, 0, &[0xB8, 0x00, 0x0D, 0xAC]);
    push_u16(&mut v, 0);
    v
}

#[test]
fn test_basic_math() {
    let simple_math_sample = simple_math_class();
    let (class, _) = read_class_file(&simple_math_sample).unwrap();
    let rt = Runtime::create(class);
    let result = rt.exec_method_on_main(&b"testMe".to_vec()).unwrap();

    assert_eq!(Some(StackValue::Integer(46)), result)
}

#[test]
fn const_and_return() {
    let r = run_test_method(b"()I", 1, 0, &[0x04, 0xAC]);
    assert_eq!(r, Ok(Some(StackValue::Integer(1))));
}

#[test]
fn bipush_and_return() {
    let r = run_test_method(b"()I", 1, 0, &[0x10, 0x2A, 0xAC]);
    assert_eq!(r, Ok(Some(StackValue::Integer(42))));
}

#[test]
fn add_two_constants() {
    let r = run_test_method(b"()I", 2, 0, &[0x04, 0x05, 0x60, 0xAC]);
    assert_eq!(r, Ok(Some(StackValue::Integer(3))));
}

#[test]
fn store_then_load() {
    let r = run_test_method(b"()I", 1, 2, &[0x04, 0x3C, 0x1B, 0xAC]);
    assert_eq!(r, Ok(Some(StackValue::Integer(1))));
}

#[test]
fn void_return() {
    let r = run_test_method(b"()V", 0, 0, &[0xB1]);
    assert_eq!(r, Ok(None));
}

#[test]
fn return_on_empty_stack() {
    let r = run_test_method(b"()I", 1, 0, &[0xAC]);
    assert_eq!(r, Err(RuntimeError::EmptyStack));
}

#[test]
fn null_passes_the_integer_return_check() {
    assert!(Runtime::check_return_type(&ValueType::Integer, &Some(StackValue::Null)).is_ok());
    assert!(Runtime::check_return_type(&ValueType::Integer, &None).is_err());
    assert!(Runtime::check_return_type(&ValueType::Void, &Some(StackValue::Integer(1))).is_err());
    assert!(Runtime::check_return_type(&ValueType::Void, &None).is_ok());
    // The null-pushing opcode itself is outside the integer subset.
    let r = run_test_method(b"()I", 1, 0, &[0x01, 0xAC]);
    assert!(matches!(r, Err(RuntimeError::GenericError { .. })));
}

#[test]
fn sipush_sign_extends() {
    let r = run_test_method(b"()I", 1, 0, &[0x11, 0xFF, 0xFE, 0xAC]);
    assert_eq!(r, Ok(Some(StackValue::Integer(-2))));
}

#[test]
fn bipush_sign_extends() {
    let r = run_test_method(b"()I", 1, 0, &[0x10, 0xFE, 0xAC]);
    assert_eq!(r, Ok(Some(StackValue::Integer(-2))));
}

#[test]
fn iadd_wraps_at_32_bits() {
    // iload_0 with the largest positive value, iconst_1, iadd: the sum
    // wraps to the smallest negative value
    let cf = one_method_class(b"(I)I", 2, 1, &[0x1A, 0x04, 0x60, 0xAC]);
    let r = Runtime::run_method(&cf, 0, vec![LocalVariable::Integer(0x7FFFFFFF)], 1000);
    assert_eq!(r, Ok(Some(StackValue::Integer(-0x80000000))));
}

#[test]
fn iinc_adds_its_delta() {
    // iconst_1; istore_1; iinc 1, 5; iload_1; ireturn
    let r = run_test_method(b"()I", 1, 2, &[0x04, 0x3C, 0x84, 0x01, 0x05, 0x1B, 0xAC]);
    assert_eq!(r, Ok(Some(StackValue::Integer(6))));
}

#[test]
fn iinc_out_of_scope_local() {
    let r = run_test_method(b"()V", 0, 1, &[0x84, 0x05, 0x01, 0xB1]);
    assert_eq!(r, Err(RuntimeError::VariableOutOfScope));
}

#[test]
fn iinc_on_unset_local() {
    let r = run_test_method(b"()V", 0, 1, &[0x84, 0x00, 0x01, 0xB1]);
    assert!(matches!(r, Err(RuntimeError::VariableType { .. })));
}

#[test]
fn conditional_branch_not_taken() {
    // iconst_1; iconst_2; if_icmpge +6; bipush 7; ireturn; bipush 9; ireturn
    let code = [0x04, 0x05, 0xA2, 0x00, 0x06, 0x10, 0x07, 0xAC, 0x10, 0x09, 0xAC];
    let r = run_test_method(b"()I", 2, 0, &code);
    assert_eq!(r, Ok(Some(StackValue::Integer(7))));
}

#[test]
fn conditional_branch_taken() {
    // iconst_2; iconst_1; if_icmpge +6; bipush 7; ireturn; bipush 9; ireturn
    let code = [0x05, 0x04, 0xA2, 0x00, 0x06, 0x10, 0x07, 0xAC, 0x10, 0x09, 0xAC];
    let r = run_test_method(b"()I", 2, 0, &code);
    assert_eq!(r, Ok(Some(StackValue::Integer(9))));
}

#[test]
fn goto_skips_forward() {
    // goto +4; ireturn (skipped); iconst_1; ireturn
    let code = [0xA7, 0x00, 0x04, 0xAC, 0x04, 0xAC];
    let r = run_test_method(b"()I", 1, 0, &code);
    assert_eq!(r, Ok(Some(StackValue::Integer(1))));
}

#[test]
fn jump_into_an_instruction_fails() {
    // iconst_1; goto +2 lands inside the goto itself
    let code = [0x04, 0xA7, 0x00, 0x02, 0xAC];
    let r = run_test_method(b"()I", 1, 0, &code);
    assert!(matches!(r, Err(RuntimeError::GenericError { .. })));
}

#[test]
fn running_off_the_end_is_an_error() {
    let r = run_test_method(b"()V", 1, 0, &[0x04]);
    assert!(matches!(r, Err(RuntimeError::GenericError { .. })));
}

#[test]
fn wrong_typed_return_is_rejected() {
    let r = run_test_method(b"()V", 1, 0, &[0x04, 0xAC]);
    assert!(matches!(r, Err(RuntimeError::GenericError { .. })));
}

#[test]
fn method_not_found_through_invokestatic() {
    let bytes = simple_math_class();
    let (class, _) = read_class_file(&bytes).unwrap();
    let rt = Runtime::create(class);
    let r = rt.exec_method_on_main(&b"miss".to_vec());
    assert_eq!(r, Err(RuntimeError::MethodNotFound));
}

#[test]
fn missing_entry_method_is_reported() {
    let bytes = simple_math_class();
    let (class, _) = read_class_file(&bytes).unwrap();
    let rt = Runtime::create(class);
    let r = rt.exec_method_on_main(&b"nothing".to_vec());
    assert!(matches!(r, Err(RuntimeError::GenericError { .. })));
}

#[test]
fn run_method_passes_arguments_into_locals() {
    let cf = one_method_class(b"(I)I", 1, 1, &[0x1A, 0xAC]);
    let r = Runtime::run_method(&cf, 0, vec![LocalVariable::Integer(5)], 1000);
    assert_eq!(r, Ok(Some(StackValue::Integer(5))));
}

#[test]
fn endless_loop_spends_the_step_budget() {
    let cf = one_method_class(b"()V", 0, 0, &[0xA7, 0x00, 0x00]);
    let r = Runtime::run_method(&cf, 0, vec![], 100);
    assert!(matches!(r, Err(RuntimeError::GenericError { .. })));
}

#[test]
fn ireturn_of_a_null_top_is_a_stack_type_error() {
    let cf = one_method_class(b"()I", 1, 0, &[0xAC]);
    let mut frame = StackFrame { local_variables: vec![], stack: vec![StackValue::Null] };
    let r = Runtime::exec(&cf, &Instruction::IReturn, 0, &mut frame, 10);
    assert!(matches!(r, Err(RuntimeError::StackType { .. })));
}

#[test]
fn unsupported_opcode_is_a_generic_error() {
    let r = run_test_method(b"()V", 2, 0, &[0x00, 0xB1]); // a no-op is outside the subset
    assert!(matches!(r, Err(RuntimeError::GenericError { .. })));
}

#[test]
fn later_loaded_class_of_the_same_name_wins() {
    let first = one_method_class(b"()I", 1, 0, &[0x04, 0xAC]); // returns 1
    let second = one_method_class(b"()I", 1, 0, &[0x05, 0xAC]); // returns 2
    let mut rt = Runtime::create(first);
    rt.load_class(second);
    let r = rt.exec_method_on_main(&b"test".to_vec());
    assert_eq!(r, Ok(Some(StackValue::Integer(2))));
}

#[test]
fn too_many_arguments_for_the_frame() {
    let cf = one_method_class(b"(I)I", 1, 0, &[0xAC]); // declares no locals
    let r = Runtime::run_method(&cf, 0, vec![LocalVariable::Integer(1)], 10);
    assert!(matches!(r, Err(RuntimeError::GenericError { .. })));
}

#[test]
fn jump_before_the_code_fails() {
    let code = [0xA7, 0xFF, 0xFD, 0xB1]; // goto -3 from offset 0
    let r = run_test_method(b"()V", 0, 0, &code);
    assert!(matches!(r, Err(RuntimeError::GenericError { .. })));
}

#[test]
fn unset_argument_is_a_stack_type_error() {
    let bytes = simple_math_class();
    let (class, _) = read_class_file(&bytes).unwrap();
    // invoking add(II)I with an unset value for the second parameter
    let mut frame = StackFrame {
        local_variables: vec![],
        stack: vec![StackValue::Integer(1), StackValue::Uninitialized],
    };
    let r = Runtime::exec(&class, &Instruction::InvokeStatic(9), 0, &mut frame, 10);
    assert!(matches!(r, Err(RuntimeError::StackType { .. })));
}

#[test]
fn null_argument_passes_the_parameter_check() {
    let bytes = simple_math_class();
    let (class, _) = read_class_file(&bytes).unwrap();
    // null is accepted for an integer parameter, so the call itself starts;
    // the callee then fails loading the null local as an integer, which is
    // a generic error rather than the boundary's stack-type error
    let mut frame = StackFrame {
        local_variables: vec![],
        stack: vec![StackValue::Integer(40), StackValue::Null],
    };
    let r = Runtime::exec(&class, &Instruction::InvokeStatic(9), 0, &mut frame, 10);
    assert!(matches!(r, Err(RuntimeError::GenericError { .. })));
}
