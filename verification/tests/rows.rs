use std::sync::Arc;

use spin_sqlx::{ColumnIndex, Decode, Error, HostValue, SpinSqliteRow};

fn names(columns: &[&str]) -> Arc<Vec<String>> {
    Arc::new(columns.iter().map(|c| c.to_string()).collect())
}

fn row(columns: &[&str], values: Vec<HostValue>) -> SpinSqliteRow {
    SpinSqliteRow::new(names(columns), values).unwrap()
}

#[test]
fn a_row_has_one_value_per_column() {
    let r = row(&["a", "b"], vec![HostValue::Integer(1), HostValue::Null]);
    assert_eq!(r.len(), 2);
    assert_eq!(r.shared_column_names().len(), 2);
}

#[test]
fn a_row_with_too_few_values_is_refused() {
    assert!(SpinSqliteRow::new(names(&["a", "b"]), vec![HostValue::Null]).is_none());
}

#[test]
fn a_row_with_too_many_values_is_refused() {
    assert!(SpinSqliteRow::new(names(&[]), vec![HostValue::Null]).is_none());
}

#[test]
fn an_empty_row_is_a_row() {
    let r = row(&[], Vec::new());
    assert_eq!(r.len(), 0);
    assert_eq!(r.try_get_raw(0usize).unwrap_err(), Error::IndexOutOfBounds { index: 0, len: 0 });
}

#[test]
fn lookup_by_ordinal() {
    let r = row(&["a", "b", "c"], vec![
        HostValue::Integer(1),
        HostValue::Text("two".to_string()),
        HostValue::Blob(vec![3]),
    ]);
    assert_eq!(r.try_get_raw(0usize).unwrap().get(), &HostValue::Integer(1));
    assert_eq!(r.try_get_raw(1usize).unwrap().get(), &HostValue::Text("two".to_string()));
    assert_eq!(r.try_get_raw(2usize).unwrap().get(), &HostValue::Blob(vec![3]));
}

#[test]
fn lookup_by_name() {
    let r = row(&["age", "name"], vec![HostValue::Integer(18), HostValue::Text("Slats".to_string())]);
    assert_eq!(r.try_get_raw("age").unwrap().get(), &HostValue::Integer(18));
    assert_eq!(r.try_get_raw("name").unwrap().get(), &HostValue::Text("Slats".to_string()));
}

#[test]
fn a_repeated_name_resolves_to_its_first_column() {
    let r = row(&["x", "n", "y", "n", "n"], vec![
        HostValue::Integer(0),
        HostValue::Integer(1),
        HostValue::Integer(2),
        HostValue::Integer(3),
        HostValue::Integer(4),
    ]);
    assert_eq!("n".index(&r), Ok(1));
    assert_eq!(r.try_get_raw("n").unwrap().get(), &HostValue::Integer(1));
}

#[test]
fn names_are_compared_exactly() {
    let r = row(&["Name", "name "], vec![HostValue::Integer(1), HostValue::Integer(2)]);
    assert_eq!(r.try_get_raw("name").unwrap_err(), Error::ColumnNotFound("name".to_string()));
    assert_eq!(r.try_get_raw("").unwrap_err(), Error::ColumnNotFound(String::new()));
    assert_eq!(r.try_get_raw("Name").unwrap().get(), &HostValue::Integer(1));
}

#[test]
fn out_of_bounds_on_a_one_column_row() {
    let r = row(&["only"], vec![HostValue::Integer(5)]);
    assert_eq!(r.try_get_raw(0usize).unwrap().get(), &HostValue::Integer(5));
    assert_eq!(r.try_get_raw(1usize).unwrap_err(), Error::IndexOutOfBounds { index: 1, len: 1 });
    assert_eq!(r.try_get_raw("nope").unwrap_err(), Error::ColumnNotFound("nope".to_string()));
}

#[test]
fn ordinal_index_checks_the_width() {
    let r = row(&["a", "b"], vec![HostValue::Null, HostValue::Null]);
    assert_eq!(0usize.index(&r), Ok(0));
    assert_eq!(1usize.index(&r), Ok(1));
    assert_eq!(2usize.index(&r), Err(Error::IndexOutOfBounds { index: 2, len: 2 }));
    assert_eq!(usize::MAX.index(&r), Err(Error::IndexOutOfBounds { index: usize::MAX, len: 2 }));
}

#[test]
fn name_index_finds_or_reports_the_name() {
    let r = row(&["a", "b"], vec![HostValue::Null, HostValue::Null]);
    assert_eq!("a".index(&r), Ok(0));
    assert_eq!("b".index(&r), Ok(1));
    assert_eq!("c".index(&r), Err(Error::ColumnNotFound("c".to_string())));
}

#[test]
fn a_looked_up_value_decodes() {
    let r = row(&["age", "is_finicky"], vec![HostValue::Integer(18), HostValue::Integer(1)]);
    assert_eq!(u32::decode(r.try_get_raw("age").unwrap()), Ok(18));
    assert_eq!(bool::decode(r.try_get_raw(1usize).unwrap()), Ok(true));
}
