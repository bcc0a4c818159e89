use class_parser::cp_info;
use class_parser::{
    display_class, parse_class_file, resolve_attributes, Annotation, AnnotationElementValue,
    AnnotationElementValuePair, AnnotationElementValueValue, AttributeCodeException,
    AttributeInfo, AttributeInfoInner, AttributeInnerClass, AttributeLineNumber,
    AttributeLocalVariableTable, BootstrapMethod, ClassFile, CpInfo, CpInfoInner, ErrorKind,
    FieldInfo, FromPool, ParameterAnnotation, StackMapFrame, VerificationTypeInfo,
    MAX_NESTING_DEPTH,
};

/// The entries of a constant pool in wire form, with the index of the next slot.
struct Pool {
    bytes: Vec<u8>,
    next: u16,
}

impl Pool {
    fn new() -> Pool {
        Pool { bytes: Vec::new(), next: 1 }
    }

    fn entry(&mut self, tag: u8, payload: &[u8], slots: u16) -> u16 {
        let index = self.next;
        self.bytes.push(tag);
        self.bytes.extend_from_slice(payload);
        self.next += slots;
        index
    }

    fn utf8(&mut self, text: &str) -> u16 {
        let mut payload = (text.len() as u16).to_be_bytes().to_vec();
        payload.extend_from_slice(text.as_bytes());
        self.entry(1, &payload, 1)
    }

    fn one(&mut self, tag: u8, a: u16) -> u16 {
        self.entry(tag, &a.to_be_bytes(), 1)
    }

    fn two(&mut self, tag: u8, a: u16, b: u16) -> u16 {
        let mut payload = a.to_be_bytes().to_vec();
        payload.extend_from_slice(&b.to_be_bytes());
        self.entry(tag, &payload, 1)
    }

    fn word(&mut self, tag: u8, value: u32) -> u16 {
        self.entry(tag, &value.to_be_bytes(), 1)
    }

    fn wide(&mut self, tag: u8, high: u32, low: u32) -> u16 {
        let mut payload = high.to_be_bytes().to_vec();
        payload.extend_from_slice(&low.to_be_bytes());
        self.entry(tag, &payload, 2)
    }

    fn method_handle(&mut self, kind: u8, index: u16) -> u16 {
        let mut payload = vec![kind];
        payload.extend_from_slice(&index.to_be_bytes());
        self.entry(15, &payload, 1)
    }
}

fn u2(n: u16) -> Vec<u8> {
    n.to_be_bytes().to_vec()
}

fn cat(parts: &[&[u8]]) -> Vec<u8> {
    let mut out = Vec::new();
    for part in parts {
        out.extend_from_slice(part);
    }
    out
}

fn attribute(name: u16, payload: &[u8]) -> Vec<u8> {
    cat(&[&u2(name), &(payload.len() as u32).to_be_bytes(), payload])
}

fn member(flags: u16, name: u16, descriptor: u16, attributes: &[Vec<u8>]) -> Vec<u8> {
    let mut out = cat(&[&u2(flags), &u2(name), &u2(descriptor), &u2(attributes.len() as u16)]);
    for a in attributes {
        out.extend_from_slice(a);
    }
    out
}

fn list(items: &[Vec<u8>]) -> Vec<u8> {
    let mut out = u2(items.len() as u16);
    for item in items {
        out.extend_from_slice(item);
    }
    out
}

fn class_file(pool: &Pool, body: &[u8]) -> Vec<u8> {
    cat(&[&[0xCA, 0xFE, 0xBA, 0xBE, 0x00, 0x00, 0x00, 0x3D], &u2(pool.next), &pool.bytes, body])
}

/// A class with a name and a superclass and nothing else, and with the
/// class attributes given.
fn class_with_attributes(pool: &mut Pool, attributes: &[Vec<u8>]) -> Vec<u8> {
    let this_name = pool.utf8("Sample");
    let this = pool.one(7, this_name);
    let parent_name = pool.utf8("java/lang/Object");
    let parent = pool.one(7, parent_name);
    let body = cat(&[
        &u2(0x0021),
        &u2(this),
        &u2(parent),
        &u2(0),
        &u2(0),
        &u2(0),
        &list(attributes),
    ]);
    class_file(pool, &body)
}

fn utf8_entry(text: &str) -> CpInfo {
    CpInfo { tag: 1, inner: CpInfoInner::Utf8(cp_info::Utf8 { bytes: text.to_string() }) }
}

/// `public class Test {}`, compiled for class file version 59.0.
fn empty_class() -> Vec<u8> {
    let mut pool = Pool::new();
    pool.two(10, 2, 3);
    pool.one(7, 4);
    pool.two(12, 5, 6);
    pool.utf8("java/lang/Object");
    pool.utf8("<init>");
    pool.utf8("()V");
    pool.one(7, 8);
    pool.utf8("Test");
    pool.utf8("Code");
    pool.utf8("LineNumberTable");
    pool.utf8("SourceFile");
    pool.utf8("Test.java");
    let line_numbers = attribute(10, &[0x00, 0x01, 0x00, 0x00, 0x00, 0x01]);
    let code = attribute(
        9,
        &cat(&[
            &[0x00, 0x01, 0x00, 0x01, 0x00, 0x00, 0x00, 0x05],
            &[0x2A, 0xB7, 0x00, 0x01, 0xB1],
            &[0x00, 0x00],
            &list(&[line_numbers]),
        ]),
    );
    let init = member(0x0001, 5, 6, &[code]);
    let source_file = attribute(11, &[0x00, 0x0C]);
    let body = cat(&[
        &u2(0x0021),
        &u2(7),
        &u2(2),
        &u2(0),
        &u2(0),
        &list(&[init]),
        &list(&[source_file]),
    ]);
    cat(&[&[0xCA, 0xFE, 0xBA, 0xBE, 0x00, 0x00, 0x00, 0x3B], &u2(13), &pool.bytes, &body])
}

#[test]
fn parse_empty_class() {
    let class = empty_class();
    let parsed = parse_class_file(&class).unwrap();

    assert_eq!(parsed.magic, 0xCAFEBABE);
    assert_eq!(parsed.minor_version, 0);
    assert_eq!(parsed.major_version, 0x003b);
    assert_eq!(parsed.major_version, 59);
    assert_eq!(parsed.constant_pool.len() + 1, 0x000d);
    assert_eq!(parsed.constant_pool.len(), 12);
    assert_eq!(
        parsed.constant_pool,
        vec![
            CpInfo {
                tag: 0x0a,
                inner: CpInfoInner::MethodRef(cp_info::MethodRef {
                    class_index: 2.into(),
                    name_and_type_index: 3.into(),
                })
            },
            CpInfo { tag: 7, inner: CpInfoInner::Class(cp_info::Class { name_index: 4.into() }) },
            CpInfo {
                tag: 0xc,
                inner: CpInfoInner::NameAndType(cp_info::NameAndType {
                    name_index: 5.into(),
                    descriptor_index: 6.into(),
                })
            },
            utf8_entry("java/lang/Object"),
            utf8_entry("<init>"),
            utf8_entry("()V"),
            CpInfo { tag: 7, inner: CpInfoInner::Class(cp_info::Class { name_index: 8.into() }) },
            utf8_entry("Test"),
            utf8_entry("Code"),
            utf8_entry("LineNumberTable"),
            utf8_entry("SourceFile"),
            utf8_entry("Test.java"),
        ]
    );
    assert_eq!(parsed.access_flags, 0x0021);
    assert_eq!(parsed.this_class, 7.into());
    assert_eq!(parsed.super_class, 2.into());
    assert_eq!(parsed.interfaces.len(), 0);
    assert_eq!(parsed.interfaces, vec![]);
    assert_eq!(parsed.fields.len(), 0);
    assert_eq!(parsed.fields, vec![]);
    assert_eq!(parsed.methods.len(), 1);
    assert_eq!(parsed.methods[0].access_flags, 1);
    assert_eq!(parsed.methods[0].name_index, 5.into());
    assert_eq!(parsed.methods[0].descriptor_index, 6.into());
    assert_eq!(parsed.methods[0].attributes.len(), 1);
}

#[test]
fn empty_class_has_its_attributes_resolved() {
    let parsed = parse_class_file(&empty_class()).unwrap();
    let code = &parsed.methods[0].attributes[0];
    assert_eq!(code.attribute_name_index, 9.into());
    assert_eq!(code.attribute_length, 29);
    assert_eq!(
        code.inner,
        AttributeInfoInner::Code {
            max_stack: 1,
            max_locals: 1,
            code: vec![0x2A, 0xB7, 0x00, 0x01, 0xB1],
            exception_table: vec![],
            attributes: vec![AttributeInfo {
                attribute_name_index: 10.into(),
                attribute_length: 6,
                inner: AttributeInfoInner::LineNumberTable {
                    line_number_table: vec![AttributeLineNumber { start_pc: 0, line_number: 1 }]
                }
            }]
        }
    );
    assert_eq!(
        parsed.attributes,
        vec![AttributeInfo {
            attribute_name_index: 11.into(),
            attribute_length: 2,
            inner: AttributeInfoInner::SourceFile { sourcefile_index: 12.into() }
        }]
    );
}

#[test]
fn parsing_twice_gives_the_same_value() {
    let class = empty_class();
    assert_eq!(parse_class_file(&class).unwrap(), parse_class_file(&class).unwrap());
    let cut = &class[..40];
    assert_eq!(parse_class_file(cut).unwrap_err(), parse_class_file(cut).unwrap_err());
}

#[test]
fn bytes_behind_the_class_file_are_not_looked_at() {
    let mut class = empty_class();
    let parsed = parse_class_file(&class).unwrap();
    class.extend_from_slice(&[0xFF, 0xFF, 0xFF]);
    assert_eq!(parse_class_file(&class).unwrap(), parsed);
}

#[test]
fn truncated_input_is_reported_at_every_cut() {
    let class = empty_class();
    for cut in 0..class.len() {
        let err = parse_class_file(&class[..cut]).unwrap_err();
        assert_eq!(err.kind, ErrorKind::TruncatedInput, "cut at {}", cut);
    }
    // in the magic number, in the count of the pool, in an entry of the pool
    assert_eq!(parse_class_file(&class[..2]).unwrap_err().kind, ErrorKind::TruncatedInput);
    assert_eq!(parse_class_file(&class[..9]).unwrap_err().kind, ErrorKind::TruncatedInput);
    assert_eq!(parse_class_file(&class[..12]).unwrap_err().kind, ErrorKind::TruncatedInput);
}

#[test]
fn bad_magic_is_rejected() {
    let mut class = empty_class();
    class[..4].copy_from_slice(&[0xDE, 0xAD, 0xBE, 0xEF]);
    assert_eq!(parse_class_file(&class).unwrap_err().kind, ErrorKind::BadMagic);
}

#[test]
fn unknown_pool_tag_is_rejected() {
    let mut class = empty_class();
    class[10] = 99;
    assert_eq!(parse_class_file(&class).unwrap_err().kind, ErrorKind::UnknownPoolTag { tag: 99 });
    class[10] = 2;
    assert_eq!(parse_class_file(&class).unwrap_err().kind, ErrorKind::UnknownPoolTag { tag: 2 });
    class[10] = 0;
    assert_eq!(parse_class_file(&class).unwrap_err().kind, ErrorKind::UnknownPoolTag { tag: 0 });
}

#[test]
fn method_handle_kind_must_be_one_to_nine() {
    let mut pool = Pool::new();
    pool.method_handle(10, 1);
    let class = class_with_attributes(&mut pool, &[]);
    assert_eq!(
        parse_class_file(&class).unwrap_err().kind,
        ErrorKind::BadMethodHandleKind { kind: 10 }
    );
    let mut pool = Pool::new();
    pool.method_handle(0, 1);
    let class = class_with_attributes(&mut pool, &[]);
    assert_eq!(
        parse_class_file(&class).unwrap_err().kind,
        ErrorKind::BadMethodHandleKind { kind: 0 }
    );
}

#[test]
fn method_handle_kind_decides_the_reference() {
    let mut pool = Pool::new();
    pool.method_handle(1, 7);
    pool.method_handle(4, 8);
    pool.method_handle(5, 9);
    pool.method_handle(8, 10);
    pool.method_handle(9, 11);
    let class = class_with_attributes(&mut pool, &[]);
    let parsed = parse_class_file(&class).unwrap();
    let handles: Vec<cp_info::MethodHandle> = parsed.constant_pool[..5]
        .iter()
        .map(|entry| match &entry.inner {
            CpInfoInner::MethodHandle(handle) => *handle,
            other => panic!("not a method handle: {:?}", other),
        })
        .collect();
    assert_eq!(
        handles,
        vec![
            cp_info::MethodHandle {
                reference_kind: 1,
                reference_index: cp_info::MethodHandleIndex::Field(7.into())
            },
            cp_info::MethodHandle {
                reference_kind: 4,
                reference_index: cp_info::MethodHandleIndex::Field(8.into())
            },
            cp_info::MethodHandle {
                reference_kind: 5,
                reference_index: cp_info::MethodHandleIndex::Method(9.into())
            },
            cp_info::MethodHandle {
                reference_kind: 8,
                reference_index: cp_info::MethodHandleIndex::Method(10.into())
            },
            cp_info::MethodHandle {
                reference_kind: 9,
                reference_index: cp_info::MethodHandleIndex::Interface(11.into())
            },
        ]
    );
}

#[test]
fn utf8_entries_are_decoded() {
    let mut pool = Pool::new();
    let index = pool.utf8("Grüße, 世界");
    let class = class_with_attributes(&mut pool, &[]);
    let parsed = parse_class_file(&class).unwrap();
    assert_eq!(parsed.constant_pool[index as usize - 1], utf8_entry("Grüße, 世界"));
    let text = FromPool::<cp_info::Utf8>::from(index).get(&parsed.constant_pool).unwrap();
    assert_eq!(text, "Grüße, 世界");
    assert_eq!(text.chars().count(), 9);
}

#[test]
fn utf8_entries_must_be_valid() {
    let mut pool = Pool::new();
    pool.entry(1, &[0x00, 0x02, 0xC3, 0x28], 1);
    let class = class_with_attributes(&mut pool, &[]);
    assert_eq!(parse_class_file(&class).unwrap_err().kind, ErrorKind::InvalidUtf8);
    // the way the class-file format writes a null character is not UTF-8
    let mut pool = Pool::new();
    pool.entry(1, &[0x00, 0x02, 0xC0, 0x80], 1);
    let class = class_with_attributes(&mut pool, &[]);
    assert_eq!(parse_class_file(&class).unwrap_err().kind, ErrorKind::InvalidUtf8);
}

#[test]
fn long_takes_two_slots() {
    let mut pool = Pool::new();
    let a = pool.utf8("a");
    let b = pool.utf8("b");
    let long = pool.wide(5, 0x0000_0001, 0x0000_0002);
    let c = pool.utf8("c");
    assert_eq!((a, b, long, c), (1, 2, 3, 5));
    let class = class_with_attributes(&mut pool, &[]);
    let parsed = parse_class_file(&class).unwrap();
    let cp = &parsed.constant_pool;
    assert_eq!(cp.len(), 9);
    assert_eq!(
        cp[2],
        CpInfo {
            tag: 5,
            inner: CpInfoInner::Long(cp_info::Long { high_bytes: 1, low_bytes: 2 })
        }
    );
    assert_eq!(cp[3], CpInfo { tag: 0, inner: CpInfoInner::Reserved });
    assert_eq!(cp[4], utf8_entry("c"));

    assert_eq!(
        FromPool::<cp_info::Long>::from(3).get(cp).unwrap(),
        &cp_info::Long { high_bytes: 1, low_bytes: 2 }
    );
    assert_eq!(FromPool::<cp_info::Utf8>::from(5).get(cp).unwrap(), "c");
    // the slot behind the long is no entry, whatever a reference expects
    assert_eq!(
        FromPool::<cp_info::Long>::from(4).get(cp).unwrap_err().kind,
        ErrorKind::BadPoolIndex
    );
    assert_eq!(
        FromPool::<cp_info::Utf8>::from(4).get(cp).unwrap_err().kind,
        ErrorKind::BadPoolIndex
    );
    assert_eq!(
        FromPool::<CpInfoInner>::from(4).get(cp).unwrap_err().kind,
        ErrorKind::BadPoolIndex
    );
    assert_eq!(
        FromPool::<Option<cp_info::Utf8>>::from(4).maybe_get(cp).unwrap_err().kind,
        ErrorKind::BadPoolIndex
    );
}

#[test]
fn double_takes_two_slots() {
    let mut pool = Pool::new();
    let double = pool.wide(6, 0x4000_0000, 0x0000_0000);
    let after = pool.word(3, 7);
    assert_eq!((double, after), (1, 3));
    let class = class_with_attributes(&mut pool, &[]);
    let parsed = parse_class_file(&class).unwrap();
    assert_eq!(parsed.constant_pool[1], CpInfo { tag: 0, inner: CpInfoInner::Reserved });
    assert_eq!(
        parsed.constant_pool[2],
        CpInfo { tag: 3, inner: CpInfoInner::Integer(cp_info::Integer { bytes: 7 }) }
    );
}

#[test]
fn wide_constant_needs_room_for_its_second_slot() {
    let mut pool = Pool::new();
    pool.utf8("a");
    pool.wide(5, 0, 0);
    // the count gives the pool two slots where the entries need three
    let class = cat(&[
        &[0xCA, 0xFE, 0xBA, 0xBE, 0x00, 0x00, 0x00, 0x3D],
        &u2(3),
        &pool.bytes,
        &[0x00, 0x21, 0x00, 0x00, 0x00, 0x00],
        &[0, 0, 0, 0, 0, 0, 0, 0],
    ]);
    assert_eq!(parse_class_file(&class).unwrap_err().kind, ErrorKind::OutOfBoundsIndex);
}

#[test]
fn pool_count_zero_and_one_give_an_empty_pool() {
    for count in [0u16, 1u16] {
        let class = cat(&[
            &[0xCA, 0xFE, 0xBA, 0xBE, 0x00, 0x03, 0x00, 0x2D],
            &u2(count),
            &[0x00, 0x21, 0x00, 0x00, 0x00, 0x00],
            &[0, 0, 0, 0, 0, 0, 0, 0],
        ]);
        let parsed = parse_class_file(&class).unwrap();
        assert_eq!(parsed.constant_pool, vec![]);
        assert_eq!(parsed.minor_version, 3);
        assert_eq!(parsed.major_version, 45);
        assert_eq!(
            parsed.this_class.get(&parsed.constant_pool).unwrap_err().kind,
            ErrorKind::BadPoolIndex
        );
    }
}

#[test]
fn every_kind_of_entry_is_read() {
    let mut pool = Pool::new();
    pool.utf8("x");
    pool.word(3, 0xFFFF_FFFE);
    pool.word(4, 0x3F80_0000);
    pool.wide(5, 0x1122_3344, 0x5566_7788);
    pool.wide(6, 0x3FF0_0000, 0x0000_0001);
    pool.one(7, 1);
    pool.one(8, 1);
    pool.two(9, 8, 12);
    pool.two(10, 8, 12);
    pool.two(11, 8, 12);
    pool.two(12, 1, 1);
    pool.method_handle(2, 10);
    pool.one(16, 1);
    pool.two(17, 3, 14);
    pool.two(18, 4, 14);
    pool.one(19, 1);
    pool.one(20, 1);
    let class = class_with_attributes(&mut pool, &[]);
    let parsed = parse_class_file(&class).unwrap();
    let inner: Vec<&CpInfoInner> = parsed.constant_pool[..19].iter().map(|e| &e.inner).collect();
    let tags: Vec<u8> = parsed.constant_pool[..19].iter().map(|e| e.tag).collect();
    assert_eq!(tags, vec![1, 3, 4, 5, 0, 6, 0, 7, 8, 9, 10, 11, 12, 15, 16, 17, 18, 19, 20]);
    assert_eq!(tags, inner.iter().map(|e| e.tag()).collect::<Vec<u8>>());
    assert_eq!(inner[1], &CpInfoInner::Integer(cp_info::Integer { bytes: 0xFFFF_FFFE }));
    assert_eq!(inner[2], &CpInfoInner::Float(cp_info::Float { bytes: 0x3F80_0000 }));
    assert_eq!(
        inner[3],
        &CpInfoInner::Long(cp_info::Long { high_bytes: 0x1122_3344, low_bytes: 0x5566_7788 })
    );
    assert_eq!(
        inner[5],
        &CpInfoInner::Double(cp_info::Double { high_bytes: 0x3FF0_0000, low_bytes: 1 })
    );
    assert_eq!(inner[7], &CpInfoInner::Class(cp_info::Class { name_index: 1.into() }));
    assert_eq!(inner[8], &CpInfoInner::String(cp_info::String { string_index: 1.into() }));
    assert_eq!(
        inner[9],
        &CpInfoInner::Fieldref(cp_info::Fieldref {
            class_index: 8.into(),
            name_and_type_index: 12.into()
        })
    );
    assert_eq!(
        inner[11],
        &CpInfoInner::InterfaceMethodref(cp_info::InterfaceMethodref {
            class_index: 8.into(),
            name_and_type_index: 12.into()
        })
    );
    assert_eq!(
        inner[14],
        &CpInfoInner::MethodType(cp_info::MethodType { descriptor_index: 1.into() })
    );
    assert_eq!(
        inner[15],
        &CpInfoInner::Dynamic(cp_info::Dynamic {
            bootstrap_method_attr_index: 3,
            name_and_type_index: 14.into()
        })
    );
    assert_eq!(
        inner[16],
        &CpInfoInner::InvokeDynamic(cp_info::InvokeDynamic {
            bootstrap_method_attr_index: 4,
            name_and_type_index: 14.into()
        })
    );
    assert_eq!(inner[17], &CpInfoInner::Module(cp_info::Module { name_index: 1.into() }));
    assert_eq!(inner[18], &CpInfoInner::Package(cp_info::Package { name_index: 1.into() }));
}

#[test]
fn unknown_attribute_name_is_rejected() {
    let mut pool = Pool::new();
    let name = pool.utf8("MyCustom");
    let class = class_with_attributes(&mut pool, &[attribute(name, &[1, 2, 3])]);
    assert_eq!(
        parse_class_file(&class).unwrap_err().kind,
        ErrorKind::UnknownAttributeName { name: "MyCustom".to_string() }
    );
}

#[test]
fn attribute_name_must_be_a_utf8_entry() {
    let mut pool = Pool::new();
    let number = pool.word(3, 1);
    let class = class_with_attributes(&mut pool, &[attribute(number, &[])]);
    assert_eq!(
        parse_class_file(&class).unwrap_err().kind,
        ErrorKind::PoolTypeMismatch { expected: 1, found: 3 }
    );
    let mut pool = Pool::new();
    let class = class_with_attributes(&mut pool, &[attribute(0, &[])]);
    assert_eq!(parse_class_file(&class).unwrap_err().kind, ErrorKind::BadPoolIndex);
    let mut pool = Pool::new();
    let class = class_with_attributes(&mut pool, &[attribute(700, &[])]);
    assert_eq!(parse_class_file(&class).unwrap_err().kind, ErrorKind::OutOfBoundsIndex);
    let mut pool = Pool::new();
    let long = pool.wide(5, 0, 0);
    let class = class_with_attributes(&mut pool, &[attribute(long + 1, &[])]);
    assert_eq!(parse_class_file(&class).unwrap_err().kind, ErrorKind::BadPoolIndex);
}

fn only_attribute(class: &[u8]) -> AttributeInfoInner {
    let mut parsed = parse_class_file(class).unwrap();
    assert_eq!(parsed.attributes.len(), 1);
    parsed.attributes.pop().unwrap().inner
}

#[test]
fn nested_annotation() {
    let mut pool = Pool::new();
    let name = pool.utf8("RuntimeVisibleAnnotations");
    let outer_type = pool.utf8("LOuter;");
    let inner_type = pool.utf8("LInner;");
    let element = pool.utf8("value");
    let seven = pool.word(3, 7);
    let eight = pool.word(3, 8);
    // @Outer(value = @Inner(value = {7, 8}))
    let array = cat(&[&[b'['], &u2(2), &[b'I'], &u2(seven), &[b'I'], &u2(eight)]);
    let inner = cat(&[&u2(inner_type), &u2(1), &u2(element), &array]);
    let outer = cat(&[&u2(outer_type), &u2(1), &u2(element), &[b'@'], &inner]);
    let payload = cat(&[&u2(1), &outer]);
    let class = class_with_attributes(&mut pool, &[attribute(name, &payload)]);

    let values = vec![
        AnnotationElementValue {
            tag: b'I',
            value: AnnotationElementValueValue::ConstValueIndex { index: seven.into() },
        },
        AnnotationElementValue {
            tag: b'I',
            value: AnnotationElementValueValue::ConstValueIndex { index: eight.into() },
        },
    ];
    let inner = Annotation {
        type_index: inner_type.into(),
        num_element_value_pairs: 1,
        element_value_pairs: vec![AnnotationElementValuePair {
            element_name_index: element.into(),
            element_name_name: AnnotationElementValue {
                tag: b'[',
                value: AnnotationElementValueValue::ArrayValue { values },
            },
        }],
    };
    let outer = Annotation {
        type_index: outer_type.into(),
        num_element_value_pairs: 1,
        element_value_pairs: vec![AnnotationElementValuePair {
            element_name_index: element.into(),
            element_name_name: AnnotationElementValue {
                tag: b'@',
                value: AnnotationElementValueValue::AnnotationValue {
                    annotation: Box::new(inner),
                },
            },
        }],
    };
    assert_eq!(
        only_attribute(&class),
        AttributeInfoInner::RuntimeVisibleAnnotations { annotations: vec![outer] }
    );
}

#[test]
fn element_values_of_every_tag() {
    let mut pool = Pool::new();
    let name = pool.utf8("AnnotationDefault");
    for tag in [b'B', b'C', b'D', b'F', b'I', b'J', b'S', b'Z', b's'] {
        let class =
            class_with_attributes(&mut pool.clone_for_test(), &[attribute(name, &[tag, 0, 9])]);
        assert_eq!(
            only_attribute(&class),
            AttributeInfoInner::AnnotationDefault {
                default_value: AnnotationElementValue {
                    tag,
                    value: AnnotationElementValueValue::ConstValueIndex { index: 9.into() }
                }
            }
        );
    }
    let class = class_with_attributes(
        &mut pool.clone_for_test(),
        &[attribute(name, &[b'e', 0, 3, 0, 4])],
    );
    assert_eq!(
        only_attribute(&class),
        AttributeInfoInner::AnnotationDefault {
            default_value: AnnotationElementValue {
                tag: b'e',
                value: AnnotationElementValueValue::EnumConstValue {
                    type_name_index: 3.into(),
                    const_name_index: 4.into()
                }
            }
        }
    );
    let class =
        class_with_attributes(&mut pool.clone_for_test(), &[attribute(name, &[b'c', 0, 5])]);
    assert_eq!(
        only_attribute(&class),
        AttributeInfoInner::AnnotationDefault {
            default_value: AnnotationElementValue {
                tag: b'c',
                value: AnnotationElementValueValue::ClassInfoIndex { index: 5.into() }
            }
        }
    );
    let class =
        class_with_attributes(&mut pool.clone_for_test(), &[attribute(name, &[b'x', 0, 5])]);
    assert_eq!(
        parse_class_file(&class).unwrap_err().kind,
        ErrorKind::UnknownAnnotationValueTag { ch: b'x' }
    );
}

impl Pool {
    fn clone_for_test(&self) -> Pool {
        Pool { bytes: self.bytes.clone(), next: self.next }
    }
}

fn nested_arrays(levels: usize) -> Vec<u8> {
    let mut value = vec![b'I', 0, 1];
    for _ in 0..levels {
        value = cat(&[&[b'['], &u2(1), &value]);
    }
    value
}

#[test]
fn annotation_nesting_is_bounded() {
    let mut pool = Pool::new();
    let name = pool.utf8("AnnotationDefault");
    let class = class_with_attributes(
        &mut pool.clone_for_test(),
        &[attribute(name, &nested_arrays(MAX_NESTING_DEPTH))],
    );
    assert!(parse_class_file(&class).is_ok());
    let class = class_with_attributes(
        &mut pool.clone_for_test(),
        &[attribute(name, &nested_arrays(MAX_NESTING_DEPTH + 1))],
    );
    assert_eq!(parse_class_file(&class).unwrap_err().kind, ErrorKind::NestingTooDeep);
}

fn nested_code(name: u16, levels: usize) -> Vec<u8> {
    let mut attributes: Vec<Vec<u8>> = vec![];
    for _ in 0..levels {
        let payload = cat(&[&[0, 0, 0, 0, 0, 0, 0, 0], &u2(0), &list(&attributes)]);
        attributes = vec![attribute(name, &payload)];
    }
    attributes.pop().unwrap()
}

#[test]
fn code_nesting_is_bounded() {
    let mut pool = Pool::new();
    let name = pool.utf8("Code");
    let class = class_with_attributes(
        &mut pool.clone_for_test(),
        &[nested_code(name, MAX_NESTING_DEPTH)],
    );
    assert!(parse_class_file(&class).is_ok());
    let class = class_with_attributes(
        &mut pool.clone_for_test(),
        &[nested_code(name, MAX_NESTING_DEPTH + 1)],
    );
    assert_eq!(parse_class_file(&class).unwrap_err().kind, ErrorKind::NestingTooDeep);
}

#[test]
fn stack_map_frames_of_every_shape() {
    let mut pool = Pool::new();
    let name = pool.utf8("StackMapTable");
    let frames = cat(&[
        &u2(8),
        &[12],
        &[70, 1],
        &[247, 0, 5, 7, 0, 9],
        &[249, 0, 6],
        &[251, 0, 7],
        &[253, 0, 8, 2, 8, 0, 3],
        &[254, 0, 9, 0, 3, 4],
        &[255, 0, 10, 0, 1, 5, 0, 2, 6, 1],
    ]);
    let class = class_with_attributes(&mut pool, &[attribute(name, &frames)]);
    assert_eq!(
        only_attribute(&class),
        AttributeInfoInner::StackMapTable {
            number_of_entries: 8,
            entries: vec![
                StackMapFrame::SameFrame { frame_type: 12 },
                StackMapFrame::SameLocals1StackItemFrame {
                    frame_type: 70,
                    stack: VerificationTypeInfo::Integer { tag: 1 }
                },
                StackMapFrame::SameLocals1StackItemFrameExtended {
                    frame_type: 247,
                    offset_delta: 5,
                    stack: VerificationTypeInfo::Object { tag: 7, cpool_index: 9.into() }
                },
                StackMapFrame::ChopFrame { frame_type: 249, offset_delta: 6 },
                StackMapFrame::SameFrameExtended { frame_type: 251, offset_delta: 7 },
                StackMapFrame::AppendFrame {
                    frame_type: 253,
                    offset_delta: 8,
                    locals: vec![
                        VerificationTypeInfo::Float { tag: 2 },
                        VerificationTypeInfo::Uninitialized { tag: 8, offset: 3 }
                    ]
                },
                StackMapFrame::AppendFrame {
                    frame_type: 254,
                    offset_delta: 9,
                    locals: vec![
                        VerificationTypeInfo::Top { tag: 0 },
                        VerificationTypeInfo::Double { tag: 3 },
                        VerificationTypeInfo::Long { tag: 4 }
                    ]
                },
                StackMapFrame::FullFrame {
                    frame_type: 255,
                    offset_delta: 10,
                    locals: vec![VerificationTypeInfo::Null { tag: 5 }],
                    stack: vec![
                        VerificationTypeInfo::UninitializedThis { tag: 6 },
                        VerificationTypeInfo::Integer { tag: 1 }
                    ]
                },
            ]
        }
    );
}

#[test]
fn unknown_frame_types_and_verification_tags_are_rejected() {
    let mut pool = Pool::new();
    let name = pool.utf8("StackMapTable");
    for ty in [128u8, 200, 246] {
        let class = class_with_attributes(
            &mut pool.clone_for_test(),
            &[attribute(name, &[0, 1, ty, 0, 0])],
        );
        assert_eq!(
            parse_class_file(&class).unwrap_err().kind,
            ErrorKind::UnknownStackFrameType { ty }
        );
    }
    let class =
        class_with_attributes(&mut pool.clone_for_test(), &[attribute(name, &[0, 1, 64, 9])]);
    assert_eq!(
        parse_class_file(&class).unwrap_err().kind,
        ErrorKind::UnknownVerificationTag { tag: 9 }
    );
    let class =
        class_with_attributes(&mut pool.clone_for_test(), &[attribute(name, &[0, 1, 252, 0, 1])]);
    assert_eq!(parse_class_file(&class).unwrap_err().kind, ErrorKind::TruncatedInput);
}

#[test]
fn attributes_of_every_name() {
    let mut pool = Pool::new();
    let names: Vec<(&str, u16)> = [
        "ConstantValue",
        "Exceptions",
        "InnerClasses",
        "EnclosingMethod",
        "Synthetic",
        "Signature",
        "SourceFile",
        "SourceDebugExtension",
        "LineNumberTable",
        "LocalVariableTable",
        "LocalVariableTypeTable",
        "Deprecated",
        "RuntimeInvisibleAnnotations",
        "RuntimeVisibleParameterAnnotations",
        "RuntimeInvisibleParameterAnnotations",
        "BootstrapMethods",
    ]
    .iter()
    .map(|name| (*name, pool.utf8(name)))
    .collect();
    let index = |wanted: &str| names.iter().find(|(name, _)| *name == wanted).unwrap().1;
    let local = [0, 1, 0, 2, 0, 3, 0, 4, 0, 5];
    let annotation = [0, 7, 0, 0];
    let attributes = vec![
        attribute(index("ConstantValue"), &[0, 9, 0xEE]),
        attribute(index("Exceptions"), &[0, 2, 0, 3, 0, 4]),
        attribute(index("InnerClasses"), &[0, 1, 0, 5, 0, 0, 0, 6, 0, 0x19]),
        attribute(index("EnclosingMethod"), &[0, 5, 0, 0]),
        attribute(index("Synthetic"), &[]),
        attribute(index("Signature"), &[0, 8]),
        attribute(index("SourceFile"), &[0, 9]),
        attribute(index("SourceDebugExtension"), &[b'S', b'M', b'A', b'P']),
        attribute(index("LineNumberTable"), &[0, 2, 0, 0, 0, 10, 0, 4, 0, 11]),
        attribute(index("LocalVariableTable"), &cat(&[&u2(1), &local])),
        attribute(index("LocalVariableTypeTable"), &cat(&[&u2(1), &local])),
        attribute(index("Deprecated"), &[]),
        attribute(index("RuntimeInvisibleAnnotations"), &cat(&[&u2(1), &annotation])),
        attribute(
            index("RuntimeVisibleParameterAnnotations"),
            &cat(&[&[2], &u2(1), &annotation, &u2(0)]),
        ),
        attribute(index("RuntimeInvisibleParameterAnnotations"), &[0]),
        attribute(index("BootstrapMethods"), &[0, 1, 0, 12, 0, 2, 0, 13, 0, 14]),
    ];
    let class = class_with_attributes(&mut pool, &attributes);
    let parsed = parse_class_file(&class).unwrap();
    let inner: Vec<&AttributeInfoInner> = parsed.attributes.iter().map(|a| &a.inner).collect();
    let local = AttributeLocalVariableTable {
        start_pc: 1,
        length: 2,
        name_index: 3.into(),
        descriptor_or_signature_index: 4.into(),
        index: 5,
    };
    let annotation = || Annotation {
        type_index: 7.into(),
        num_element_value_pairs: 0,
        element_value_pairs: vec![],
    };
    let expected = vec![
        AttributeInfoInner::ConstantValue { constantvalue_index: 9.into() },
        AttributeInfoInner::Exceptions { exception_index_table: vec![3.into(), 4.into()] },
        AttributeInfoInner::InnerClasses {
            classes: vec![AttributeInnerClass {
                inner_class_info_index: 5.into(),
                outer_class_info_index: 0.into(),
                inner_class_name_index: 6.into(),
                inner_class_access_flags: 0x19,
            }],
        },
        AttributeInfoInner::EnclosingMethod { class_index: 5.into(), method_index: 0.into() },
        AttributeInfoInner::Synthetic,
        AttributeInfoInner::Signature { signature_index: 8.into() },
        AttributeInfoInner::SourceFile { sourcefile_index: 9.into() },
        AttributeInfoInner::SourceDebugExtension { debug_extension: b"SMAP".to_vec() },
        AttributeInfoInner::LineNumberTable {
            line_number_table: vec![
                AttributeLineNumber { start_pc: 0, line_number: 10 },
                AttributeLineNumber { start_pc: 4, line_number: 11 },
            ],
        },
        AttributeInfoInner::LocalVariableTable { local_variable_table: vec![local] },
        AttributeInfoInner::LocalVariableTypeTable { local_variable_table: vec![local] },
        AttributeInfoInner::Deprecated,
        AttributeInfoInner::RuntimeInvisibleAnnotations { annotations: vec![annotation()] },
        AttributeInfoInner::RuntimeVisibleParameterAnnotations {
            parameter_annotations: vec![
                ParameterAnnotation { annotations: vec![annotation()] },
                ParameterAnnotation { annotations: vec![] },
            ],
        },
        AttributeInfoInner::RuntimeInvisibleParameterAnnotations { parameter_annotations: vec![] },
        AttributeInfoInner::BootstrapMethods {
            bootstrap_methods: vec![BootstrapMethod {
                bootstrap_method_ref: 12.into(),
                bootstrap_arguments: vec![13.into(), 14.into()],
            }],
        },
    ];
    assert_eq!(inner, expected.iter().collect::<Vec<_>>());
    assert_eq!(parsed.attributes[0].attribute_length, 3);
    assert_eq!(parsed.attributes[7].attribute_length, 4);
}

/// A class with a long constant, an interface, a field with a constant
/// value, and a method with an exception handler and a stack map.
fn larger_class() -> (Vec<u8>, u16) {
    let mut pool = Pool::new();
    let this_name = pool.utf8("Test2");
    let this = pool.one(7, this_name);
    let limit_value = pool.wide(5, 0, 1000);
    let object_name = pool.utf8("java/lang/Object");
    let object = pool.one(7, object_name);
    let runnable_name = pool.utf8("java/lang/Runnable");
    let runnable = pool.one(7, runnable_name);
    let limit = pool.utf8("LIMIT");
    let long_descriptor = pool.utf8("J");
    let constant_value = pool.utf8("ConstantValue");
    let run = pool.utf8("run");
    let void_descriptor = pool.utf8("()V");
    let code = pool.utf8("Code");
    let stack_map = pool.utf8("StackMapTable");
    let exception_name = pool.utf8("java/lang/Exception");
    let exception = pool.one(7, exception_name);
    let exceptions = pool.utf8("Exceptions");
    let source_file = pool.utf8("SourceFile");
    let source = pool.utf8("Test2.java");

    let field = member(0x001A, limit, long_descriptor, &[attribute(constant_value, &u2(limit_value))]);
    let frames = attribute(stack_map, &cat(&[&u2(2), &[71, 7], &u2(exception), &[3]]));
    let code_payload = cat(&[
        &u2(2),
        &u2(1),
        &4u32.to_be_bytes(),
        &[0xB1, 0x4C, 0x2B, 0xBF],
        &u2(1),
        &u2(0),
        &u2(1),
        &u2(1),
        &u2(exception),
        &list(&[frames]),
    ]);
    let method = member(
        0x0001,
        run,
        void_descriptor,
        &[attribute(code, &code_payload), attribute(exceptions, &cat(&[&u2(1), &u2(exception)]))],
    );
    let body = cat(&[
        &u2(0x0031),
        &u2(this),
        &u2(object),
        &list(&[u2(runnable)]),
        &list(&[field]),
        &list(&[method]),
        &list(&[attribute(source_file, &u2(source))]),
    ]);
    (class_file(&pool, &body), exception)
}

#[test]
fn more_complex_file() {
    let (class, _) = larger_class();
    let parsed = parse_class_file(&class).unwrap();
    assert_eq!(parsed.magic, 0xCAFEBABE);
}

#[test]
fn larger_class_is_read_in_full() {
    let (class, exception) = larger_class();
    let parsed = parse_class_file(&class).unwrap();
    let cp = &parsed.constant_pool;
    assert_eq!(parsed.major_version, 61);
    assert_eq!(cp.len(), 20);
    assert_eq!(parsed.access_flags, 0x0031);
    assert_eq!(parsed.this_class.get(cp).unwrap().name_index.get(cp).unwrap(), "Test2");
    assert_eq!(
        parsed.super_class.maybe_get(cp).unwrap().unwrap().name_index.get(cp).unwrap(),
        "java/lang/Object"
    );
    assert_eq!(parsed.interfaces.len(), 1);
    assert_eq!(
        parsed.interfaces[0].get(cp).unwrap().name_index.get(cp).unwrap(),
        "java/lang/Runnable"
    );
    assert_eq!(
        parsed.fields,
        vec![FieldInfo {
            access_flags: 0x001A,
            name_index: 9.into(),
            descriptor_index: 10.into(),
            attributes: vec![AttributeInfo {
                attribute_name_index: 11.into(),
                attribute_length: 2,
                inner: AttributeInfoInner::ConstantValue { constantvalue_index: 3.into() }
            }]
        }]
    );
    assert_eq!(
        parsed.fields[0].attributes[0].inner,
        AttributeInfoInner::ConstantValue { constantvalue_index: 3.into() }
    );
    assert_eq!(parsed.methods.len(), 1);
    assert_eq!(parsed.methods[0].name_index.get(cp).unwrap(), "run");
    assert_eq!(parsed.methods[0].attributes.len(), 2);
    assert_eq!(
        parsed.methods[0].attributes[0].inner,
        AttributeInfoInner::Code {
            max_stack: 2,
            max_locals: 1,
            code: vec![0xB1, 0x4C, 0x2B, 0xBF],
            exception_table: vec![AttributeCodeException {
                start_pc: 0,
                end_pc: 1,
                handler_pc: 1,
                catch_type: exception
            }],
            attributes: vec![AttributeInfo {
                attribute_name_index: 15.into(),
                attribute_length: 7,
                inner: AttributeInfoInner::StackMapTable {
                    number_of_entries: 2,
                    entries: vec![
                        StackMapFrame::SameLocals1StackItemFrame {
                            frame_type: 71,
                            stack: VerificationTypeInfo::Object {
                                tag: 7,
                                cpool_index: exception.into()
                            }
                        },
                        StackMapFrame::SameFrame { frame_type: 3 }
                    ]
                }
            }]
        }
    );
    assert_eq!(
        parsed.methods[0].attributes[1].inner,
        AttributeInfoInner::Exceptions { exception_index_table: vec![exception.into()] }
    );
}

#[test]
fn resolving_again_changes_nothing() {
    let (class, _) = larger_class();
    let mut parsed = parse_class_file(&class).unwrap();
    let expected = parse_class_file(&class).unwrap();
    resolve_attributes(&mut parsed).unwrap();
    assert_eq!(parsed, expected);
}

#[test]
fn resolve_attributes_resolves_fields_methods_and_class() {
    let parsed = parse_class_file(&empty_class()).unwrap();
    let raw = |name: u16, content: Vec<u8>| AttributeInfo {
        attribute_name_index: name.into(),
        attribute_length: content.len() as u32,
        inner: AttributeInfoInner::Unknown { attribute_content: content },
    };
    let mut class = ClassFile {
        magic: 0xCAFEBABE,
        minor_version: 0,
        major_version: 59,
        constant_pool: parsed.constant_pool,
        access_flags: 0x21,
        this_class: 7.into(),
        super_class: 2.into(),
        interfaces: vec![],
        fields: vec![FieldInfo {
            access_flags: 0,
            name_index: 8.into(),
            descriptor_index: 6.into(),
            attributes: vec![raw(11, vec![0, 12])],
        }],
        methods: vec![],
        attributes: vec![raw(10, vec![0, 1, 0, 2, 0, 3])],
    };
    resolve_attributes(&mut class).unwrap();
    assert_eq!(
        class.attributes[0].inner,
        AttributeInfoInner::LineNumberTable {
            line_number_table: vec![AttributeLineNumber { start_pc: 2, line_number: 3 }]
        }
    );
    assert_eq!(
        class.fields[0].attributes[0].inner,
        AttributeInfoInner::SourceFile { sourcefile_index: 12.into() }
    );

    // "Test" names no attribute; the failure leaves the class as it was
    class.methods.push(class_parser::MethodInfo {
        access_flags: 0,
        name_index: 5.into(),
        descriptor_index: 6.into(),
        attributes: vec![raw(11, vec![0, 1])],
    });
    class.fields[0].attributes.push(raw(8, vec![7]));
    let before = class.clone();
    assert_eq!(
        resolve_attributes(&mut class).unwrap_err().kind,
        ErrorKind::UnknownAttributeName { name: "Test".to_string() }
    );
    assert_eq!(class, before);
    assert_eq!(
        class.methods[0].attributes[0].inner,
        AttributeInfoInner::Unknown { attribute_content: vec![0, 1] }
    );
}

#[test]
fn listing_of_the_empty_class() {
    let parsed = parse_class_file(&empty_class()).unwrap();
    let expected = "\
.class (0xCAFEBABE) file version 59.0

class Test extends java/lang/Object {
 Attributes:
  SourceFile

 Fields:

 Methods:
  ()V <init>
}
";
    assert_eq!(display_class(&parsed).unwrap(), expected);
}

#[test]
fn listing_of_the_larger_class() {
    let (class, _) = larger_class();
    let parsed = parse_class_file(&class).unwrap();
    let expected = "\
.class (0xCAFEBABE) file version 61.0

class Test2 extends java/lang/Object implements java/lang/Runnable {
 Attributes:
  SourceFile

 Fields:
  J LIMIT

 Methods:
  ()V run
}
";
    assert_eq!(display_class(&parsed).unwrap(), expected);
}

#[test]
fn listing_names_interfaces_with_commas_and_a_missing_superclass() {
    let mut parsed = parse_class_file(&empty_class()).unwrap();
    parsed.super_class = 0.into();
    parsed.interfaces = vec![2.into(), 7.into(), 2.into()];
    parsed.minor_version = 65535;
    parsed.major_version = 100;
    parsed.magic = 0x1F;
    let text = display_class(&parsed).unwrap();
    let lines: Vec<&str> = text.lines().collect();
    assert_eq!(lines[0], ".class (0x1F) file version 100.65535");
    assert_eq!(
        lines[2],
        "class Test extends <none> implements java/lang/Object,Test,java/lang/Object {"
    );
}

#[test]
fn listing_fails_where_a_lookup_fails() {
    let mut parsed = parse_class_file(&empty_class()).unwrap();
    parsed.this_class = 4.into();
    assert_eq!(
        display_class(&parsed).unwrap_err().kind,
        ErrorKind::PoolTypeMismatch { expected: 7, found: 1 }
    );
    parsed.this_class = 7.into();
    parsed.interfaces = vec![2.into(), 13.into()];
    assert_eq!(display_class(&parsed).unwrap_err().kind, ErrorKind::OutOfBoundsIndex);
    parsed.interfaces = vec![];
    parsed.methods[0].name_index = 0.into();
    assert_eq!(display_class(&parsed).unwrap_err().kind, ErrorKind::BadPoolIndex);
}

#[test]
fn valid_references_pass_validation() {
    let parsed = parse_class_file(&empty_class()).unwrap();
    assert!(parsed.validate());
    let (class, _) = larger_class();
    assert!(parse_class_file(&class).unwrap().validate());
}

#[test]
fn validation_finds_a_reference_that_is_wrong() {
    let parsed = || parse_class_file(&empty_class()).unwrap();

    let mut class = parsed();
    class.this_class = 0.into();
    assert!(!class.validate());

    let mut class = parsed();
    class.super_class = 0.into();
    assert!(class.validate());
    class.super_class = 5.into();
    assert!(!class.validate());

    let mut class = parsed();
    class.interfaces = vec![7.into(), 2.into()];
    assert!(class.validate());
    class.interfaces = vec![7.into(), 40.into()];
    assert!(!class.validate());

    let mut class = parsed();
    class.constant_pool[1] =
        CpInfo { tag: 7, inner: CpInfoInner::Class(cp_info::Class { name_index: 3.into() }) };
    assert!(!class.validate());

    let mut class = parsed();
    class.methods[0].descriptor_index = 2.into();
    assert!(!class.validate());

    let mut class = parsed();
    class.attributes[0].inner = AttributeInfoInner::SourceFile { sourcefile_index: 1.into() };
    assert!(!class.validate());
    class.attributes[0].inner = AttributeInfoInner::SourceFile { sourcefile_index: 4.into() };
    assert!(class.validate());

    let mut class = parsed();
    match &mut class.methods[0].attributes[0].inner {
        AttributeInfoInner::Code { attributes, .. } => {
            attributes[0].attribute_name_index = 13.into();
        }
        other => panic!("not a Code attribute: {:?}", other),
    }
    assert!(!class.validate());
}

#[test]
fn parsing_does_not_check_references() {
    let mut class = empty_class();
    // this class: slot 4, which holds a Utf8 entry
    let header = [0x00, 0x21, 0x00, 0x07, 0x00, 0x02];
    let at = class.windows(6).position(|w| w == header).unwrap();
    class[at + 3] = 4;
    let parsed = parse_class_file(&class).unwrap();
    assert_eq!(parsed.this_class, 4.into());
    assert_eq!(
        parsed.this_class.get(&parsed.constant_pool).unwrap_err().kind,
        ErrorKind::PoolTypeMismatch { expected: 7, found: 1 }
    );
    assert!(!parsed.validate());
}

#[test]
fn a_copy_of_a_class_is_equal_to_it() {
    let (class, _) = larger_class();
    let parsed = parse_class_file(&class).unwrap();
    assert_eq!(parsed.clone(), parsed);
    let mut copy = parsed.clone();
    copy.methods[0].attributes.pop();
    assert_ne!(copy, parsed);
    let err = parse_class_file(&class[..30]).unwrap_err();
    assert_eq!(err.clone(), err);
}
