use sim_property::predicate::{column_value, Predicate};
use sim_property::render::{push_hex, push_integer, push_row, push_value};
use sim_property::table::{table_exists, Column, Table};
use sim_property::text::{chars_of, contains_text};
use sim_property::value::{bytes_equal, clone_row, rows_equal, ColumnType, Value};

fn table_t() -> Table {
    Table {
        name: "t".to_string(),
        columns: vec![
            Column { name: "a".to_string(), column_type: ColumnType::Integer },
            Column { name: "b".to_string(), column_type: ColumnType::Text },
        ],
    }
}

fn row(a: i64, b: &str) -> Vec<Value> {
    vec![Value::Integer(a), Value::Text(b.to_string())]
}

#[test]
fn values_compare_by_variant_and_content() {
    assert!(Value::Null.same_as(&Value::Null));
    assert!(Value::Integer(3).same_as(&Value::Integer(3)));
    assert!(!Value::Integer(3).same_as(&Value::Integer(4)));
    assert!(!Value::Integer(0).same_as(&Value::Null));
    assert!(Value::Text("x".to_string()).same_as(&Value::Text("x".to_string())));
    assert!(!Value::Text("x".to_string()).same_as(&Value::Blob(vec![b'x'])));
    assert!(Value::Blob(vec![1, 2]).same_as(&Value::Blob(vec![1, 2])));
    assert!(!Value::Blob(vec![1, 2]).same_as(&Value::Blob(vec![1])));
    assert!(bytes_equal(&vec![], &vec![]));
    assert!(!bytes_equal(&vec![1, 2], &vec![1, 3]));
}

#[test]
fn rows_compare_component_wise() {
    assert!(rows_equal(&row(1, "x"), &row(1, "x")));
    assert!(!rows_equal(&row(1, "x"), &row(1, "y")));
    assert!(!rows_equal(&row(1, "x"), &vec![Value::Integer(1)]));
    assert!(rows_equal(&vec![], &vec![]));
    let source = row(7, "seven");
    assert!(rows_equal(&clone_row(&source), &source));
}

#[test]
fn value_clone_keeps_content() {
    for v in [
        Value::Null,
        Value::Integer(-5),
        Value::Text("hello".to_string()),
        Value::Blob(vec![0, 255]),
    ] {
        assert!(v.clone().same_as(&v));
    }
}

#[test]
fn integers_render_in_decimal() {
    for (i, expected) in [
        (0i64, "0"),
        (7, "7"),
        (10, "10"),
        (-1, "-1"),
        (1234567890, "1234567890"),
        (i64::MAX, "9223372036854775807"),
        (i64::MIN, "-9223372036854775808"),
    ] {
        let mut text = String::from("n=");
        push_integer(&mut text, i);
        assert_eq!(text, format!("n={}", expected));
    }
}

#[test]
fn bytes_render_in_upper_case_hex() {
    let mut text = String::new();
    push_hex(&mut text, &vec![0x00, 0x0a, 0xff, 0x5c]);
    assert_eq!(text, "000AFF5C");
    let mut empty = String::from("x");
    push_hex(&mut empty, &vec![]);
    assert_eq!(empty, "x");
}

#[test]
fn values_render_as_written_in_a_statement() {
    let cases = [
        (Value::Null, "NULL"),
        (Value::Integer(-42), "-42"),
        (Value::Text("it".to_string()), "'it'"),
        (Value::Text(String::new()), "''"),
        (Value::Blob(vec![1, 171]), "X'01AB'"),
    ];
    for (v, expected) in cases {
        let mut text = String::new();
        push_value(&mut text, &v);
        assert_eq!(text, expected);
    }
}

#[test]
fn rows_render_with_comma_and_space() {
    let mut text = String::from("[");
    push_row(&mut text, &vec![Value::Integer(1), Value::Text("a".to_string()), Value::Null]);
    assert_eq!(text, "[1, 'a', NULL");
    let mut one = String::new();
    push_row(&mut one, &vec![Value::Null]);
    assert_eq!(one, "NULL");
    let mut none = String::new();
    push_row(&mut none, &vec![]);
    assert_eq!(none, "");
}

#[test]
fn chars_of_follows_the_text() {
    assert_eq!(chars_of("héllo"), vec!['h', 'é', 'l', 'l', 'o']);
    assert_eq!(chars_of(""), Vec::<char>::new());
}

#[test]
fn contains_text_is_substring_search() {
    assert!(contains_text("Parse error: Table t already exists", "Table t already exists"));
    assert!(contains_text("abc", ""));
    assert!(contains_text("", ""));
    assert!(contains_text("abc", "abc"));
    assert!(contains_text("abc", "bc"));
    assert!(contains_text("aab", "ab"));
    assert!(!contains_text("abc", "abcd"));
    assert!(!contains_text("", "a"));
    assert!(!contains_text("Table t2 already exists", "Table t already exists"));
    assert!(contains_text("naïve café", "ve ca"));
}

#[test]
fn table_lookup_by_name() {
    let tables = vec![table_t()];
    assert!(table_exists(&tables, &"t".to_string()));
    assert!(!table_exists(&tables, &"u".to_string()));
    assert!(!table_exists(&Vec::new(), &"t".to_string()));
}

#[test]
fn column_value_takes_the_first_column_of_the_name() {
    let table = Table {
        name: "t".to_string(),
        columns: vec![
            Column { name: "a".to_string(), column_type: ColumnType::Integer },
            Column { name: "a".to_string(), column_type: ColumnType::Integer },
            Column { name: "c".to_string(), column_type: ColumnType::Integer },
        ],
    };
    let values = vec![Value::Integer(1), Value::Integer(2)];
    let found = column_value(&table, &values, &"a".to_string());
    assert!(found.is_some() && found.unwrap().same_as(&Value::Integer(1)));
    assert!(column_value(&table, &values, &"c".to_string()).is_none());
    assert!(column_value(&table, &values, &"z".to_string()).is_none());
}

#[test]
fn predicates_evaluate_on_a_row() {
    let t = table_t();
    let r = row(1, "x");
    let eq_a = Predicate::Eq("a".to_string(), Value::Integer(1));
    let eq_b = Predicate::Eq("b".to_string(), Value::Text("y".to_string()));
    assert!(eq_a.test(&r, &t));
    assert!(!eq_b.test(&r, &t));
    assert!(!Predicate::Neq("a".to_string(), Value::Integer(1)).test(&r, &t));
    assert!(Predicate::Neq("a".to_string(), Value::Integer(2)).test(&r, &t));
    assert!(!Predicate::Eq("missing".to_string(), Value::Null).test(&r, &t));
    assert!(Predicate::Neq("missing".to_string(), Value::Null).test(&r, &t));
    assert!(Predicate::always().test(&r, &t));
    assert!(Predicate::And(vec![]).test(&r, &t));
    assert!(!Predicate::Or(vec![]).test(&r, &t));
    assert!(!Predicate::And(vec![eq_a.clone(), eq_b.clone()]).test(&r, &t));
    assert!(Predicate::Or(vec![eq_b.clone(), eq_a.clone()]).test(&r, &t));
    let nested = Predicate::And(vec![
        Predicate::Or(vec![eq_b, eq_a.clone()]),
        Predicate::And(vec![eq_a]),
    ]);
    assert!(nested.test(&r, &t));
    assert!(nested.clone().test(&r, &t));
    assert_eq!(format!("{:?}", nested.clone()), format!("{:?}", nested));
}
