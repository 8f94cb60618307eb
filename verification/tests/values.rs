use spin_sqlx::{HostValue, SpinSqliteTypeInfo, SpinSqliteValue, SpinSqliteValueRef};

#[test]
fn type_info_names() {
    assert_eq!(SpinSqliteTypeInfo::Null.name(), "NULL");
    assert_eq!(SpinSqliteTypeInfo::Int.name(), "INT");
    assert_eq!(SpinSqliteTypeInfo::Real.name(), "REAL");
    assert_eq!(SpinSqliteTypeInfo::Text.name(), "TEXT");
    assert_eq!(SpinSqliteTypeInfo::Blob.name(), "BINARY");
}

#[test]
fn only_the_null_descriptor_is_null() {
    assert!(SpinSqliteTypeInfo::Null.is_null());
    assert!(!SpinSqliteTypeInfo::Int.is_null());
    assert!(!SpinSqliteTypeInfo::Real.is_null());
    assert!(!SpinSqliteTypeInfo::Text.is_null());
    assert!(!SpinSqliteTypeInfo::Blob.is_null());
}

#[test]
fn value_ref_type_info_follows_the_variant() {
    let cases = vec![
        (HostValue::Null, SpinSqliteTypeInfo::Null),
        (HostValue::Integer(-7), SpinSqliteTypeInfo::Int),
        (HostValue::Real(1.5f64.to_bits()), SpinSqliteTypeInfo::Real),
        (HostValue::Text("x".to_string()), SpinSqliteTypeInfo::Text),
        (HostValue::Blob(vec![1, 2, 3]), SpinSqliteTypeInfo::Blob),
    ];
    for (value, expected) in cases.iter() {
        assert_eq!(SpinSqliteValueRef::new(value).type_info(), *expected);
    }
}

#[test]
fn value_ref_is_null_only_for_null() {
    assert!(SpinSqliteValueRef::new(&HostValue::Null).is_null());
    assert!(!SpinSqliteValueRef::new(&HostValue::Integer(0)).is_null());
    assert!(!SpinSqliteValueRef::new(&HostValue::Text(String::new())).is_null());
    assert!(!SpinSqliteValueRef::new(&HostValue::Blob(Vec::new())).is_null());
    assert!(!SpinSqliteValueRef::new(&HostValue::Real(0)).is_null());
}

#[test]
fn value_ref_lends_the_value_it_was_given() {
    let value = HostValue::Text("Slats".to_string());
    let lent = SpinSqliteValueRef::new(&value);
    assert_eq!(lent.get(), &value);
}

#[test]
fn host_value_clone_keeps_the_content() {
    let values = vec![
        HostValue::Null,
        HostValue::Integer(i64::MIN),
        HostValue::Real(u64::MAX),
        HostValue::Text("héllo".to_string()),
        HostValue::Blob(vec![0, 255, 7]),
    ];
    for value in values.iter() {
        assert_eq!(&value.clone(), value);
    }
}

#[test]
fn owned_value_and_its_reference_agree() {
    let owned = SpinSqliteValue::new(HostValue::Integer(42));
    assert_eq!(owned.type_info(), SpinSqliteTypeInfo::Int);
    assert!(!owned.is_null());
    assert_eq!(owned.as_ref().get(), &HostValue::Integer(42));

    let null = SpinSqliteValue::new(HostValue::Null);
    assert_eq!(null.type_info(), SpinSqliteTypeInfo::Null);
    assert!(null.is_null());
}

#[test]
fn value_ref_to_owned_copies_the_value() {
    let value = HostValue::Blob(vec![9, 8, 7]);
    let owned = SpinSqliteValueRef::new(&value).to_owned();
    assert_eq!(owned.as_ref().get(), &value);
    assert_eq!(owned.type_info(), SpinSqliteTypeInfo::Blob);
}
