use minijvm::descriptor::MethodDescriptor;
use minijvm::descriptor::ValueType;
use minijvm::descriptor::method_desc;
use minijvm::descriptor::param_list;
use minijvm::descriptor::parse_type;
use minijvm::reader::DecodeError;

#[test]
fn test_param_list_int_int() {
    let res = param_list(&b"(II)".to_vec(), 0);
    let vec = vec![ValueType::Integer, ValueType::Integer];

    match res {
        Ok((rvec, _)) => assert_eq!(rvec, vec),
        _ => assert_eq!(true, false),
    };
}

#[test]
fn test_method_desc_void() {
    let vec: Vec<ValueType> = vec![];
    let retvalue = ValueType::Void;
    match method_desc(&b"()V".to_vec(), 0) {
        Ok((desc, _)) => {
            assert_eq!(desc.arguments, vec);
            assert_eq!(desc.return_type, retvalue);
        },
        _ => assert_eq!(true, false),
    };
}

#[test]
fn descriptor_two_ints_returning_int() {
    let (desc, end) = method_desc(&b"(II)I".to_vec(), 0).unwrap();
    assert_eq!(end, 5);
    assert_eq!(
        desc,
        MethodDescriptor {
            return_type: ValueType::Integer,
            arguments: vec![ValueType::Integer, ValueType::Integer],
        }
    );
}

#[test]
fn descriptor_string_array_returning_void() {
    let (desc, end) = method_desc(&b"([Ljava/lang/String;)V".to_vec(), 0).unwrap();
    assert_eq!(end, 22);
    assert_eq!(desc.return_type, ValueType::Void);
    assert_eq!(
        desc.arguments,
        vec![ValueType::Array(Box::new(ValueType::Object(
            b"java/lang/String".to_vec()
        )))]
    );
}

#[test]
fn parse_type_object_name_stops_at_semicolon() {
    let (t, end) = parse_type(&b"Ljava/lang/Object;I".to_vec(), 0).unwrap();
    assert_eq!(t, ValueType::Object(b"java/lang/Object".to_vec()));
    assert_eq!(end, 18);
}

#[test]
fn parse_type_rejects_unknown_lead_character() {
    assert_eq!(parse_type(&b"X".to_vec(), 0), Err(DecodeError::Malformed));
}

#[test]
fn parse_type_incomplete_object_name() {
    assert_eq!(
        parse_type(&b"Ljava/lang/Object".to_vec(), 0),
        Err(DecodeError::Incomplete(1))
    );
}

#[test]
fn param_list_without_opening_parenthesis() {
    assert_eq!(
        param_list(&b"II)".to_vec(), 0),
        Err(DecodeError::Incomplete(2))
    );
}

#[test]
fn method_desc_with_trailing_bytes_reports_position() {
    let (desc, end) = method_desc(&b"()Vxyz".to_vec(), 0).unwrap();
    assert_eq!(desc.return_type, ValueType::Void);
    assert_eq!(end, 3);
}

#[test]
fn nested_array_descriptor() {
    let (t, end) = parse_type(&b"[[I".to_vec(), 0).unwrap();
    assert_eq!(
        t,
        ValueType::Array(Box::new(ValueType::Array(Box::new(ValueType::Integer))))
    );
    assert_eq!(end, 3);
}

#[test]
fn get_signature_parses_the_method_descriptor() {
    let method = minijvm::class_file::Method {
        access_flags: 0x0009,
        name: b"add".to_vec(),
        descriptor: b"(II)I".to_vec(),
        attributes: vec![],
    };
    let sig = method.get_signature();
    assert_eq!(sig.return_type, ValueType::Integer);
    assert_eq!(sig.arguments, vec![ValueType::Integer, ValueType::Integer]);
}
