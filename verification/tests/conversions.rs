use query_builder::ForceValue;
use query_builder::Query;
use query_builder::Raw;
use query_builder::Statement;
use query_builder::ToStatement;

#[test]
fn string_converts_to_string_value() {
    let s = String::from("hello").to_statement();

    match s {
        Statement::StringValue(t) => assert_eq!(t, "hello"),
        _ => panic!("wrong variant"),
    }
}

#[test]
fn str_converts_to_string_value() {
    let s = "world".to_statement();

    match s {
        Statement::StringValue(t) => assert_eq!(t, "world"),
        _ => panic!("wrong variant"),
    }
}

#[test]
fn integer_converts_to_i32() {
    let s = 42.to_statement();

    assert!(matches!(s, Statement::I32(42)));
}

#[test]
fn float_bits_round_trip() {
    let value = 1.5f32;
    let s = Statement::float_from_bits(value.to_bits());

    match s {
        Statement::F32Bits(bits) => assert_eq!(f32::from_bits(bits), 1.5f32),
        _ => panic!("wrong variant"),
    }
}

#[test]
fn statement_converts_to_itself() {
    let s = Statement::Null.to_statement();

    assert!(matches!(s, Statement::Null));
}

#[test]
fn force_value_null_converts_to_null() {
    let s = ForceValue::Null.to_statement();

    assert!(matches!(s, Statement::Null));
}

#[test]
fn force_value_column_converts_to_column() {
    let s = ForceValue::Column(String::from("id")).to_statement();

    match s {
        Statement::Column(n) => assert_eq!(n, "id"),
        _ => panic!("wrong variant"),
    }
}

#[test]
fn force_value_string_converts_to_string_value() {
    let s = ForceValue::StringValue(String::from("text")).to_statement();

    match s {
        Statement::StringValue(t) => assert_eq!(t, "text"),
        _ => panic!("wrong variant"),
    }
}

#[test]
fn query_converts_to_sub_query() {
    let inner = Query::new().from("inner_table").select("inner_col");
    let s = inner.to_statement();

    match s {
        Statement::Query(q) => {
            match &q.table.value {
                Statement::StringValue(t) => assert_eq!(t, "inner_table"),
                _ => panic!("inner table is not a string literal"),
            }
            assert_eq!(q.columns.len(), 1);
        }
        _ => panic!("wrong variant"),
    }
}

#[test]
fn raw_new_has_no_parameters() {
    let raw = Raw::new(String::from("SELECT 1"));

    assert_eq!(raw.value, "SELECT 1");
    assert!(raw.statements.is_empty());
}

#[test]
fn raw_with_parameter_stores_one_value() {
    let raw = Raw::with_parameter(String::from("id = ?"), 5);

    assert_eq!(raw.value, "id = ?");
    assert_eq!(raw.statements.len(), 1);
    assert!(matches!(raw.statements[0], Statement::I32(5)));
}

#[test]
fn raw_with_parameters_keeps_order() {
    let raw = Raw::with_parameters(String::from("a = ? AND b = ?"), vec![1, 2]);

    assert_eq!(raw.statements.len(), 2);
    assert!(matches!(raw.statements[0], Statement::I32(1)));
    assert!(matches!(raw.statements[1], Statement::I32(2)));
}

#[test]
fn raw_converts_to_raw_statement_with_values() {
    let raw = Raw::with_parameters(String::from("x IN (?, ?)"), vec![8, 9]);
    let s = raw.to_statement();

    match s {
        Statement::Raw(text, values) => {
            assert_eq!(text, "x IN (?, ?)");
            assert_eq!(values.len(), 2);
            assert!(matches!(values[0], Statement::I32(8)));
            assert!(matches!(values[1], Statement::I32(9)));
        }
        _ => panic!("wrong variant"),
    }
}

#[test]
fn default_statement_is_no_statement() {
    let s = Statement::default();

    assert!(matches!(s, Statement::NoStatement));
}
