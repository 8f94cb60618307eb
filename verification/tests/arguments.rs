use spin_sqlx::{arguments_or_empty, HostValue, RealBits, SpinSqliteArgs};

#[test]
fn a_new_buffer_is_empty() {
    let args = SpinSqliteArgs::default();
    assert!(args.as_slice().is_empty());
}

#[test]
fn add_appends_in_binding_order() {
    let mut args = SpinSqliteArgs::default();
    args.add(18u32);
    args.add("Slats");
    args.add(true);
    args.add(RealBits(f64::from(23.456f32).to_bits()));
    let bytes: &[u8] = &[1, 2, 3];
    args.add(bytes);
    assert_eq!(
        args.as_slice(),
        &[
            HostValue::Integer(18),
            HostValue::Text("Slats".to_string()),
            HostValue::Integer(1),
            HostValue::Real(f64::from(23.456f32).to_bits()),
            HostValue::Blob(vec![1, 2, 3]),
        ]
    );
}

#[test]
fn reserve_changes_no_value() {
    let mut args = SpinSqliteArgs::default();
    args.reserve(16, 128);
    assert!(args.as_slice().is_empty());
    args.add(1u32);
    args.reserve(0, 0);
    args.reserve(1000, 8000);
    assert_eq!(args.as_slice(), &[HostValue::Integer(1)]);
}

#[test]
fn reserve_of_an_impossible_size_is_only_advice() {
    let mut args = SpinSqliteArgs::default();
    args.add(false);
    args.reserve(usize::MAX, usize::MAX);
    assert_eq!(args.as_slice(), &[HostValue::Integer(0)]);
}

#[test]
fn into_arguments_is_the_buffer_itself() {
    let mut args = SpinSqliteArgs::default();
    args.add(3u32);
    args.add("x");
    let args = args.into_arguments();
    assert_eq!(args.as_slice(), &[HostValue::Integer(3), HostValue::Text("x".to_string())]);
}

#[test]
fn into_values_gives_up_the_bound_values() {
    let mut args = SpinSqliteArgs::default();
    args.add(3u32);
    assert_eq!(args.into_values(), vec![HostValue::Integer(3)]);
}

#[test]
fn absent_arguments_become_an_empty_buffer() {
    assert!(arguments_or_empty(None).as_slice().is_empty());
}

#[test]
fn present_arguments_are_kept() {
    let mut args = SpinSqliteArgs::default();
    args.add(9u32);
    args.add(false);
    let kept = arguments_or_empty(Some(args));
    assert_eq!(kept.as_slice(), &[HostValue::Integer(9), HostValue::Integer(0)]);
}

#[test]
fn from_values_holds_the_values_in_order() {
    let values = vec![HostValue::Null, HostValue::Integer(2), HostValue::Text("t".to_string())];
    let mut args = SpinSqliteArgs::from_values(values.clone());
    assert_eq!(args.as_slice(), values.as_slice());
    args.add(true);
    assert_eq!(args.as_slice().len(), 4);
    assert_eq!(args.as_slice()[3], HostValue::Integer(1));
}
