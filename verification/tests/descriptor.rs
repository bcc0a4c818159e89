use class_parser::{ErrorKind, FieldDescriptor, FieldType, MethodDescriptor, MethodType};

#[test]
fn field_descriptor() {
    let descriptors = [
        FieldDescriptor::from_str("B").unwrap(),
        FieldDescriptor::from_str("C").unwrap(),
        FieldDescriptor::from_str("D").unwrap(),
        FieldDescriptor::from_str("F").unwrap(),
        FieldDescriptor::from_str("I").unwrap(),
        FieldDescriptor::from_str("J").unwrap(),
        FieldDescriptor::from_str("S").unwrap(),
        FieldDescriptor::from_str("Z").unwrap(),
        FieldDescriptor::from_str("[B").unwrap(),
        FieldDescriptor::from_str("[[Z").unwrap(),
        FieldDescriptor::from_str("Ljava/lang/String;").unwrap(),
        FieldDescriptor::from_str("[[[Ljava/lang/String;").unwrap(),
    ];

    type FT = FieldType;

    let expected_descriptors = [
        FieldDescriptor(FT::Byte),
        FieldDescriptor(FT::Char),
        FieldDescriptor(FT::Double),
        FieldDescriptor(FT::Float),
        FieldDescriptor(FT::Int),
        FieldDescriptor(FT::Long),
        FieldDescriptor(FT::Short),
        FieldDescriptor(FT::Boolean),
        FieldDescriptor(FT::Array(Box::new(FT::Byte))),
        FieldDescriptor(FT::Array(Box::new(FT::Array(Box::new(FT::Boolean))))),
        FieldDescriptor(FT::Object("java/lang/String".to_string())),
        FieldDescriptor(FT::Array(Box::new(FT::Array(Box::new(FT::Array(Box::new(
            FT::Object("java/lang/String".to_string()),
        ))))))),
    ];

    let invalid_descriptors = ["", "Q", "[]", "[", "Ljava/lang/String", "L", "[[[Ljava"];

    descriptors
        .iter()
        .zip(expected_descriptors.iter())
        .for_each(|(a, b)| assert_eq!(a, b));

    invalid_descriptors
        .iter()
        .map(|d| FieldDescriptor::from_str(d))
        .for_each(|rs| {
            if rs.is_ok() {
                panic!("Successfully parsed invalid result, {:?}", rs);
            }
        });
}

#[test]
fn method_descriptor() {
    let descriptors = vec![
        MethodDescriptor::from_str("()V").unwrap(),
        MethodDescriptor::from_str("(B)V").unwrap(),
        MethodDescriptor::from_str("([ZZ)Ljava/lang/Object;").unwrap(),
        MethodDescriptor::from_str("(IDLjava/lang/Thread;)Ljava/lang/Object;").unwrap(),
        MethodDescriptor::from_str("(BBBBBBBBBB)B").unwrap(),
        MethodDescriptor::from_str("()Z").unwrap(),
    ];

    type FT = FieldType;

    let expected_descriptors = [
        MethodDescriptor { parameters: vec![], return_: MethodType::Void },
        MethodDescriptor { parameters: vec![FT::Byte], return_: MethodType::Void },
        MethodDescriptor {
            parameters: vec![FT::Array(Box::new(FT::Boolean)), FT::Boolean],
            return_: MethodType::Value(FT::Object("java/lang/Object".to_string())),
        },
        MethodDescriptor {
            parameters: vec![FT::Int, FT::Double, FT::Object("java/lang/Thread".to_string())],
            return_: MethodType::Value(FT::Object("java/lang/Object".to_string())),
        },
        MethodDescriptor {
            parameters: vec![
                FT::Byte,
                FT::Byte,
                FT::Byte,
                FT::Byte,
                FT::Byte,
                FT::Byte,
                FT::Byte,
                FT::Byte,
                FT::Byte,
                FT::Byte,
            ],
            return_: MethodType::Value(FT::Byte),
        },
        MethodDescriptor { parameters: vec![], return_: MethodType::Value(FT::Boolean) },
    ];

    let invalid_descriptors = ["()", "(V)V", ")V", "(;)Z", "(java/lang/StringZ)", "V"];

    invalid_descriptors
        .iter()
        .map(|d| MethodDescriptor::from_str(d))
        .for_each(|rs| {
            if rs.is_ok() {
                panic!("Successfully parsed invalid result, {:?}", rs);
            }
        });

    descriptors
        .iter()
        .zip(expected_descriptors.iter())
        .for_each(|(a, b)| assert_eq!(a, b));
}

fn detail(kind: ErrorKind) -> String {
    match kind {
        ErrorKind::BadDescriptor { detail } => detail,
        other => panic!("not a descriptor rejection: {:?}", other),
    }
}

#[test]
fn descriptor_rejections_say_why() {
    assert_eq!(detail(FieldDescriptor::from_str("").unwrap_err().kind), "Empty string");
    assert_eq!(
        detail(FieldDescriptor::from_str("Q").unwrap_err().kind),
        "Invalid char in field descriptor Q"
    );
    assert_eq!(
        detail(FieldDescriptor::from_str("[]").unwrap_err().kind),
        "Invalid char in field descriptor ]"
    );
    assert_eq!(
        detail(FieldDescriptor::from_str("L").unwrap_err().kind),
        "Expected ; before end of string"
    );
    assert_eq!(
        detail(FieldDescriptor::from_str("Ljava/lang/String").unwrap_err().kind),
        "Expected ; before end of string"
    );
    assert_eq!(detail(MethodDescriptor::from_str("()").unwrap_err().kind), "Empty string");
    assert_eq!(
        detail(MethodDescriptor::from_str("V").unwrap_err().kind),
        "Needs to start with '('"
    );
    assert_eq!(
        detail(FieldDescriptor::from_str("BB").unwrap_err().kind),
        "Unexpected char after descriptor"
    );
    assert_eq!(
        detail(MethodDescriptor::from_str("()VV").unwrap_err().kind),
        "Unexpected char after descriptor"
    );
}

#[test]
fn array_dimensions_are_bounded() {
    let mut text = "[".repeat(255);
    text.push('I');
    assert!(FieldDescriptor::from_str(&text).is_ok());
    let mut text = "[".repeat(256);
    text.push('I');
    assert_eq!(
        detail(FieldDescriptor::from_str(&text).unwrap_err().kind),
        "Too many array dimensions"
    );
}

#[test]
fn from_char_iter_leaves_the_rest_of_the_stream() {
    let mut chars = "[Ljava/lang/String;IZ".chars();
    assert_eq!(
        FieldType::from_char_iter(&mut chars).unwrap(),
        FieldType::Array(Box::new(FieldType::Object("java/lang/String".to_string())))
    );
    assert_eq!(chars.as_str(), "IZ");
    assert_eq!(FieldType::from_char_iter(&mut chars).unwrap(), FieldType::Int);
    assert_eq!(FieldType::from_char_iter(&mut chars).unwrap(), FieldType::Boolean);
    assert!(FieldType::from_char_iter(&mut chars).is_err());
}

#[test]
fn object_names_may_be_empty_or_hold_any_character() {
    assert_eq!(
        FieldDescriptor::from_str("L;").unwrap(),
        FieldDescriptor(FieldType::Object(String::new()))
    );
    assert_eq!(
        FieldDescriptor::from_str("Lä/[(é;").unwrap(),
        FieldDescriptor(FieldType::Object("ä/[(é".to_string()))
    );
}

#[test]
fn descriptors_print_as_they_were_read() {
    for text in ["B", "[B", "[[[Ljava/lang/String;", "L;", "Ljava/util/Map$Entry;", "[[Z"] {
        assert_eq!(FieldDescriptor::from_str(text).unwrap().to_descriptor(), text);
    }
    for text in [
        "()V",
        "(B)V",
        "([ZZ)Ljava/lang/Object;",
        "(IDLjava/lang/Thread;)Ljava/lang/Object;",
        "(BBBBBBBBBB)B",
        "()Z",
        "([[J[Ljava/lang/String;)[[D",
    ] {
        assert_eq!(MethodDescriptor::from_str(text).unwrap().to_descriptor(), text);
    }
}

#[test]
fn printed_descriptors_read_as_they_were() {
    let types = [
        FieldType::Short,
        FieldType::Array(Box::new(FieldType::Array(Box::new(FieldType::Float)))),
        FieldType::Object("java/lang/Thread".to_string()),
    ];
    for t in types.iter() {
        assert_eq!(&FieldDescriptor::from_str(&t.to_descriptor()).unwrap().0, t);
    }
    assert_eq!(types[1].to_descriptor(), "[[F");
    assert_eq!(types[2].to_descriptor(), "Ljava/lang/Thread;");
    let method = MethodDescriptor {
        parameters: vec![FieldType::Char, FieldType::Object("a/B".to_string())],
        return_: MethodType::Value(FieldType::Array(Box::new(FieldType::Long))),
    };
    assert_eq!(method.to_descriptor(), "(CLa/B;)[J");
    assert_eq!(MethodDescriptor::from_str("(CLa/B;)[J").unwrap(), method);
}

#[test]
fn method_descriptor_with_primitives_and_objects() {
    let method = MethodDescriptor::from_str("(IDLjava/lang/Thread;)Ljava/lang/Object;").unwrap();
    assert_eq!(
        method.parameters,
        vec![FieldType::Int, FieldType::Double, FieldType::Object("java/lang/Thread".to_string())]
    );
    assert_eq!(method.return_, MethodType::Value(FieldType::Object("java/lang/Object".to_string())));
}

#[test]
fn descriptors_parse_through_the_std_trait() {
    let field: FieldDescriptor = "[I".parse().unwrap();
    assert_eq!(field, FieldDescriptor(FieldType::Array(Box::new(FieldType::Int))));
    let method: MethodDescriptor = "()V".parse().unwrap();
    assert_eq!(method, MethodDescriptor { parameters: vec![], return_: MethodType::Void });
    assert!("(".parse::<MethodDescriptor>().is_err());
}
