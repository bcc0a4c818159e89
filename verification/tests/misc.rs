use class_parser::text::str_eq;
use class_parser::{
    parse_vec, AttributeLineNumber, ClassAccessFlag, Data, ErrorKind, FieldAccessFlags, FromPool,
    InnerClassAccessFlags, MethodAccessFlag, ParseErr, VerificationTypeInfo,
};

#[test]
fn access_flags_have_their_bits() {
    assert_eq!(ClassAccessFlag::Public.mask(), 0x0001);
    assert_eq!(ClassAccessFlag::Final.mask(), 0x0010);
    assert_eq!(ClassAccessFlag::Super.mask(), 0x0020);
    assert_eq!(ClassAccessFlag::Interface.mask(), 0x0200);
    assert_eq!(ClassAccessFlag::Abstract.mask(), 0x0400);
    assert_eq!(ClassAccessFlag::Synthetic.mask(), 0x1000);
    assert_eq!(ClassAccessFlag::Annotation.mask(), 0x2000);
    assert_eq!(ClassAccessFlag::Enum.mask(), 0x4000);
    assert_eq!(ClassAccessFlag::MODULE.mask(), 0x8000);
    assert_eq!(MethodAccessFlag::SYNCHRONIZED.mask(), 0x0020);
    assert_eq!(MethodAccessFlag::NATIVE.mask(), 0x0100);
    assert_eq!(MethodAccessFlag::STRICT.mask(), 0x0800);
    assert_eq!(InnerClassAccessFlags::INTERFACE.mask(), 0x0200);
    assert_eq!(InnerClassAccessFlags::ENUM.mask(), 0x4000);
    assert_eq!(FieldAccessFlags::VOLATILE.mask(), 0x0040);
    assert_eq!(FieldAccessFlags::TRANSIENT.mask(), 0x0080);
}

#[test]
fn access_flags_are_found_in_a_mask() {
    let flags = 0x0021;
    assert!(ClassAccessFlag::Public.is_set_in(flags));
    assert!(ClassAccessFlag::Super.is_set_in(flags));
    assert!(!ClassAccessFlag::Final.is_set_in(flags));
    assert!(!ClassAccessFlag::MODULE.is_set_in(flags));
    assert!(FieldAccessFlags::STATIC.is_set_in(0x001A));
    assert!(!FieldAccessFlags::PUBLIC.is_set_in(0x001A));
}

#[test]
fn parse_vec_reads_values_in_a_row() {
    let bytes = [0x00, 0x01, 0x00, 0x02, 0x00, 0x03, 0x00, 0x04, 0xFF];
    let mut data = Data::new(&bytes);
    let lines: Vec<AttributeLineNumber> = parse_vec(2, &mut data).unwrap();
    assert_eq!(
        lines,
        vec![
            AttributeLineNumber { start_pc: 1, line_number: 2 },
            AttributeLineNumber { start_pc: 3, line_number: 4 }
        ]
    );
    assert_eq!(data.remaining(), 1);
    let mut data = Data::new(&bytes);
    let numbers: Vec<u16> = parse_vec(4, &mut data).unwrap();
    assert_eq!(numbers, vec![1, 2, 3, 4]);
    let mut data = Data::new(&bytes);
    let references: Vec<FromPool<u8>> = parse_vec(1, &mut data).unwrap();
    assert_eq!(references, vec![FromPool::new(1)]);
    let mut data = Data::new(&bytes);
    assert_eq!(
        parse_vec::<u16>(5, &mut data).unwrap_err().kind,
        ErrorKind::TruncatedInput
    );
    let mut data = Data::new(&bytes);
    assert_eq!(parse_vec::<u8>(0, &mut data).unwrap(), vec![]);
    let mut data = Data::new(&[1, 7, 0, 2, 9]);
    assert_eq!(
        parse_vec::<VerificationTypeInfo>(3, &mut data).unwrap_err().kind,
        ErrorKind::UnknownVerificationTag { tag: 9 }
    );
}

#[test]
fn strings_are_equal_when_their_characters_are() {
    assert!(str_eq("", ""));
    assert!(str_eq("Code", "Code"));
    assert!(!str_eq("Code", "code"));
    assert!(!str_eq("Code", "Codes"));
    assert!(!str_eq("Code", ""));
    assert!(str_eq("Grüße", "Grüße"));
    assert!(!str_eq("Grüße", "Grusse"));
}

fn message(kind: ErrorKind) -> String {
    ParseErr::new(kind).message()
}

#[test]
fn failures_say_what_went_wrong() {
    assert_eq!(
        message(ErrorKind::TruncatedInput),
        "Could not parse class file: Unexpected end of input"
    );
    assert_eq!(
        message(ErrorKind::BadMagic),
        "Could not parse class file: Magic number is not 0xCAFEBABE"
    );
    assert_eq!(
        message(ErrorKind::UnknownPoolTag { tag: 99 }),
        "Could not parse class file: Invalid CPInfo tag: 99"
    );
    assert_eq!(
        message(ErrorKind::InvalidUtf8),
        "Could not parse class file: Invalid utf8 in CpInfo::Utf8"
    );
    assert_eq!(
        message(ErrorKind::BadMethodHandleKind { kind: 10 }),
        "Could not parse class file: Invalid MethodHandle reference kind: 10"
    );
    assert_eq!(
        message(ErrorKind::UnknownVerificationTag { tag: 255 }),
        "Could not parse class file: Invalid VerificationTypeInfo tag: 255"
    );
    assert_eq!(
        message(ErrorKind::UnknownStackFrameType { ty: 128 }),
        "Could not parse class file: Invalid StackMapFrame type: 128"
    );
    assert_eq!(
        message(ErrorKind::UnknownAnnotationValueTag { ch: 0 }),
        "Could not parse class file: Invalid AnnotationElementValueValue tag: 0"
    );
    assert_eq!(
        message(ErrorKind::UnknownAttributeName { name: "MyCustom".to_string() }),
        "Could not parse class file: Invalid Attribute name: MyCustom"
    );
    assert_eq!(
        message(ErrorKind::OutOfBoundsIndex),
        "Could not parse class file: Constant Pool index out of Bounds"
    );
    assert_eq!(
        message(ErrorKind::BadPoolIndex),
        "Could not parse class file: Constant Pool index names no entry"
    );
    assert_eq!(
        message(ErrorKind::PoolTypeMismatch { expected: 7, found: 12 }),
        "Could not parse class file: Expected constant with tag 7, found tag 12"
    );
    assert_eq!(
        message(ErrorKind::NestingTooDeep),
        "Could not parse class file: Attributes or annotations are nested too deep"
    );
    assert_eq!(
        ParseErr::str("Empty string").message(),
        "Could not parse class file: Invalid descriptor: Empty string"
    );
    assert_eq!(
        ParseErr::string(String::from("no")).kind,
        ErrorKind::BadDescriptor { detail: "no".to_string() }
    );
    assert_eq!(ParseErr::str("no"), ParseErr::string("no".to_string()));
}
