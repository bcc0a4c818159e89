use class_parser::cp_info;
use class_parser::{CpInfo, CpInfoInner, ErrorKind, FromCpInfo, FromPool, ValidateCpInfo};

fn utf8(text: &str) -> CpInfo {
    CpInfo { tag: 1, inner: CpInfoInner::Utf8(cp_info::Utf8 { bytes: text.to_string() }) }
}

fn pool() -> Vec<CpInfo> {
    vec![
        utf8("java/lang/Object"),
        CpInfo { tag: 7, inner: CpInfoInner::Class(cp_info::Class { name_index: 1.into() }) },
        CpInfo {
            tag: 5,
            inner: CpInfoInner::Long(cp_info::Long { high_bytes: 0, low_bytes: 9 }),
        },
        CpInfo { tag: 0, inner: CpInfoInner::Reserved },
        CpInfo {
            tag: 12,
            inner: CpInfoInner::NameAndType(cp_info::NameAndType {
                name_index: 1.into(),
                descriptor_index: 1.into(),
            }),
        },
    ]
}

#[test]
fn get_hands_out_the_entry() {
    let pool = pool();
    let class = FromPool::<cp_info::Class>::from(2).get(&pool).unwrap();
    assert_eq!(class, &cp_info::Class { name_index: 1.into() });
    assert_eq!(class.name_index.get(&pool).unwrap(), "java/lang/Object");
    assert_eq!(
        FromPool::<cp_info::NameAndType>::from(5).get(&pool).unwrap(),
        &cp_info::NameAndType { name_index: 1.into(), descriptor_index: 1.into() }
    );
}

#[test]
fn get_fails_on_index_zero() {
    let pool = pool();
    assert_eq!(
        FromPool::<cp_info::Class>::from(0).get(&pool).unwrap_err().kind,
        ErrorKind::BadPoolIndex
    );
    assert_eq!(
        FromPool::<CpInfoInner>::from(0).get(&pool).unwrap_err().kind,
        ErrorKind::BadPoolIndex
    );
}

#[test]
fn get_fails_behind_the_pool() {
    let pool = pool();
    assert!(FromPool::<cp_info::NameAndType>::from(5).get(&pool).is_ok());
    assert_eq!(
        FromPool::<cp_info::NameAndType>::from(6).get(&pool).unwrap_err().kind,
        ErrorKind::OutOfBoundsIndex
    );
    assert_eq!(
        FromPool::<cp_info::Class>::from(u16::MAX).get(&pool).unwrap_err().kind,
        ErrorKind::OutOfBoundsIndex
    );
    assert_eq!(
        FromPool::<cp_info::Class>::from(1).get(&[]).unwrap_err().kind,
        ErrorKind::OutOfBoundsIndex
    );
}

#[test]
fn get_fails_on_another_variant() {
    let pool = pool();
    assert_eq!(
        FromPool::<cp_info::Class>::from(1).get(&pool).unwrap_err().kind,
        ErrorKind::PoolTypeMismatch { expected: 7, found: 1 }
    );
    assert_eq!(
        FromPool::<cp_info::Utf8>::from(2).get(&pool).unwrap_err().kind,
        ErrorKind::PoolTypeMismatch { expected: 1, found: 7 }
    );
    assert_eq!(
        FromPool::<cp_info::MethodHandle>::from(3).get(&pool).unwrap_err().kind,
        ErrorKind::PoolTypeMismatch { expected: 15, found: 5 }
    );
    assert_eq!(
        FromPool::<cp_info::InvokeDynamic>::from(5).get(&pool).unwrap_err().kind,
        ErrorKind::PoolTypeMismatch { expected: 18, found: 12 }
    );
}

#[test]
fn the_tag_field_does_not_decide() {
    let pool = vec![CpInfo {
        tag: 7,
        inner: CpInfoInner::Integer(cp_info::Integer { bytes: 3 }),
    }];
    assert_eq!(
        FromPool::<cp_info::Class>::from(1).get(&pool).unwrap_err().kind,
        ErrorKind::PoolTypeMismatch { expected: 7, found: 3 }
    );
    assert_eq!(
        FromPool::<cp_info::Integer>::from(1).get(&pool).unwrap(),
        &cp_info::Integer { bytes: 3 }
    );
}

#[test]
fn open_reference_hands_out_any_entry() {
    let pool = pool();
    assert_eq!(FromPool::<CpInfoInner>::from(1).get(&pool).unwrap(), &pool[0].inner);
    assert_eq!(FromPool::<CpInfoInner>::from(3).get(&pool).unwrap(), &pool[2].inner);
    assert_eq!(
        FromPool::<CpInfoInner>::from(4).get(&pool).unwrap_err().kind,
        ErrorKind::BadPoolIndex
    );
    assert_eq!(
        FromPool::<CpInfoInner>::from(6).get(&pool).unwrap_err().kind,
        ErrorKind::OutOfBoundsIndex
    );
}

#[test]
fn maybe_get_takes_zero_for_absent() {
    let pool = pool();
    let absent: FromPool<Option<cp_info::Class>> = 0.into();
    assert_eq!(absent.maybe_get(&pool).unwrap(), None);
    assert_eq!(absent.get(&pool).unwrap(), None);
    let present: FromPool<Option<cp_info::Class>> = 2.into();
    assert_eq!(
        present.maybe_get(&pool).unwrap(),
        Some(&cp_info::Class { name_index: 1.into() })
    );
    assert_eq!(present.get(&pool).unwrap(), Some(&cp_info::Class { name_index: 1.into() }));
    let wrong: FromPool<Option<cp_info::Class>> = 1.into();
    assert_eq!(
        wrong.maybe_get(&pool).unwrap_err().kind,
        ErrorKind::PoolTypeMismatch { expected: 7, found: 1 }
    );
    let behind: FromPool<Option<cp_info::Utf8>> = 9.into();
    assert_eq!(behind.maybe_get(&pool).unwrap_err().kind, ErrorKind::OutOfBoundsIndex);
    let text: FromPool<Option<cp_info::Utf8>> = 1.into();
    assert_eq!(text.maybe_get(&pool).unwrap(), Some("java/lang/Object"));
}

#[test]
fn validation_agrees_with_lookup() {
    let pool = pool();
    for index in 0..8u16 {
        assert_eq!(
            cp_info::Class::validate_cp_info(&pool, index).map_err(|e| e.kind),
            FromPool::<cp_info::Class>::from(index).get(&pool).map(|_| ()).map_err(|e| e.kind)
        );
        assert_eq!(
            cp_info::Utf8::validate_cp_info(&pool, index).map_err(|e| e.kind),
            FromPool::<cp_info::Utf8>::from(index).get(&pool).map(|_| ()).map_err(|e| e.kind)
        );
        assert_eq!(
            <Option<cp_info::Long>>::validate_cp_info(&pool, index).map_err(|e| e.kind),
            FromPool::<Option<cp_info::Long>>::from(index)
                .get(&pool)
                .map(|_| ())
                .map_err(|e| e.kind)
        );
        assert_eq!(
            CpInfoInner::validate_cp_info(&pool, index).map_err(|e| e.kind),
            FromPool::<CpInfoInner>::from(index).get(&pool).map(|_| ()).map_err(|e| e.kind)
        );
    }
    assert!(cp_info::Class::validate_cp_info(&pool, 2).is_ok());
    assert_eq!(
        cp_info::Class::validate_cp_info(&pool, 0).unwrap_err().kind,
        ErrorKind::BadPoolIndex
    );
    assert!(<Option<cp_info::Class>>::validate_cp_info(&pool, 0).is_ok());
}

#[test]
fn from_cp_info_reads_one_entry() {
    let pool = pool();
    assert_eq!(cp_info::Utf8::from_cp_info(&pool[0]).unwrap(), "java/lang/Object");
    assert_eq!(
        cp_info::Utf8::from_cp_info(&pool[1]).unwrap_err().kind,
        ErrorKind::PoolTypeMismatch { expected: 1, found: 7 }
    );
    assert_eq!(
        cp_info::Long::from_cp_info(&pool[3]).unwrap_err().kind,
        ErrorKind::BadPoolIndex
    );
    assert_eq!(
        <Option<cp_info::Long>>::from_cp_info(&pool[2]).unwrap(),
        Some(&cp_info::Long { high_bytes: 0, low_bytes: 9 })
    );
    assert_eq!(
        cp_info::Long::from_cp_info_with_index(&pool, 3).unwrap(),
        &cp_info::Long { high_bytes: 0, low_bytes: 9 }
    );
}

#[test]
fn a_reference_is_its_index() {
    let reference: FromPool<cp_info::Class> = 513.into();
    assert_eq!(reference.inner(), 513);
    assert_eq!(reference, FromPool::new(513));
    assert_eq!(std::mem::size_of::<FromPool<cp_info::Class>>(), 2);
    let copy = reference;
    assert_eq!(copy, reference);
    assert!(FromPool::<u16>::new(1) < FromPool::new(2));
}
