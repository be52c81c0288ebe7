use sim_property::env::{Percent, SimulatorEnv, SimulatorOpts};
use sim_property::plan::{
    already_exists_message, rows_contain, Assertion, Check, ExecutionError, Interaction,
    OracleError, ResultSet,
};
use sim_property::predicate::Predicate;
use sim_property::property::Property;
use sim_property::query::{Create, Delete, Insert, Query, Select};
use sim_property::table::{Column, Table};
use sim_property::value::{rows_equal, ColumnType, Value};

fn table(name: &str) -> Table {
    Table {
        name: name.to_string(),
        columns: vec![
            Column { name: "a".to_string(), column_type: ColumnType::Integer },
            Column { name: "b".to_string(), column_type: ColumnType::Text },
        ],
    }
}

fn row(a: i64, b: &str) -> Vec<Value> {
    vec![Value::Integer(a), Value::Text(b.to_string())]
}

fn env(tables: Vec<Table>) -> SimulatorEnv {
    SimulatorEnv {
        tables,
        opts: SimulatorOpts {
            max_interactions: 10,
            read_percent: Percent::from_whole(50),
            write_percent: Percent::from_whole(50),
            create_percent: Percent::from_whole(0),
        },
    }
}

fn failure(message: &str) -> ResultSet {
    Err(ExecutionError { message: message.to_string() })
}

fn insert_select(fillers: Vec<Query>) -> Property {
    Property::InsertSelect {
        insert: Insert {
            table: "t".to_string(),
            values: vec![row(1, "one"), row(2, "two"), row(3, "three")],
        },
        row_index: 1,
        queries: fillers,
        select: Select {
            table: "t".to_string(),
            predicate: Predicate::Eq("a".to_string(), Value::Integer(2)),
        },
    }
}

fn double_create(fillers: Vec<Query>) -> Property {
    Property::DoubleCreateFailure { create: Create { table: table("t") }, queries: fillers }
}

fn kinds(script: &[Interaction]) -> Vec<&'static str> {
    script
        .iter()
        .map(|step| match step {
            Interaction::Assumption(_) => "assumption",
            Interaction::Assertion(_) => "assertion",
            Interaction::Query(Query::Insert(_)) => "insert",
            Interaction::Query(Query::Select(_)) => "select",
            Interaction::Query(Query::Create(_)) => "create",
            Interaction::Query(Query::Delete(_)) => "delete",
        })
        .collect()
}

fn final_assertion(script: &[Interaction]) -> &Assertion {
    match script.last() {
        Some(Interaction::Assertion(a)) => a,
        _ => panic!("the script does not end in an assertion"),
    }
}

fn first_assumption(script: &[Interaction]) -> &Assertion {
    match script.first() {
        Some(Interaction::Assumption(a)) => a,
        _ => panic!("the script does not start with an assumption"),
    }
}

#[test]
fn property_names() {
    assert_eq!(insert_select(vec![]).name(), "Insert-Select");
    assert_eq!(double_create(vec![]).name(), "Double-Create-Failure");
}

#[test]
fn insert_select_compiles_to_assume_insert_fillers_select_assert() {
    let fillers = vec![
        Query::Delete(Delete { table: "u".to_string(), predicate: Predicate::always() }),
        Query::Create(Create { table: table("v") }),
    ];
    let script = insert_select(fillers).interactions();
    assert_eq!(kinds(&script), vec!["assumption", "insert", "delete", "create", "select", "assertion"]);
    match &script[1] {
        Interaction::Query(Query::Insert(insert)) => {
            assert_eq!(insert.table, "t");
            assert_eq!(insert.values.len(), 3);
        }
        _ => panic!("the second step is not the insert"),
    }
    match &script[2] {
        Interaction::Query(Query::Delete(delete)) => assert_eq!(delete.table, "u"),
        _ => panic!("the fillers are out of order"),
    }
    match &script[3] {
        Interaction::Query(Query::Create(create)) => assert_eq!(create.table.name, "v"),
        _ => panic!("the fillers are out of order"),
    }
    match &script[4] {
        Interaction::Query(Query::Select(select)) => {
            assert_eq!(select.table, "t");
            assert_eq!(
                format!("{:?}", select.predicate),
                format!("{:?}", Predicate::Eq("a".to_string(), Value::Integer(2)))
            );
        }
        _ => panic!("the last query is not the select"),
    }
}

#[test]
fn insert_select_without_fillers_has_four_steps() {
    let script = insert_select(vec![]).interactions();
    assert_eq!(kinds(&script), vec!["assumption", "insert", "select", "assertion"]);
}

#[test]
fn insert_select_checks_carry_table_and_row() {
    let script = insert_select(vec![]).interactions();
    let assumption = first_assumption(&script);
    assert_eq!(assumption.message, "table t exists");
    match &assumption.check {
        Check::TableExists { table } => assert_eq!(table, "t"),
        _ => panic!("the assumption does not test that the table exists"),
    }
    let assertion = final_assertion(&script);
    assert_eq!(assertion.message, "row [2, 'two'] not found in table t");
    match &assertion.check {
        Check::RowInLastResult { row: captured } => assert!(rows_equal(captured, &row(2, "two"))),
        _ => panic!("the assertion does not test for the row"),
    }
}

#[test]
fn compilation_is_repeatable() {
    let property = insert_select(vec![Query::Create(Create { table: table("v") })]);
    let first = format!("{:?}", property.interactions());
    let second = format!("{:?}", property.interactions());
    let of_clone = format!("{:?}", property.clone().interactions());
    assert_eq!(first, second);
    assert_eq!(first, of_clone);
}

#[test]
fn insert_select_assumption_reads_the_environment() {
    let script = insert_select(vec![]).interactions();
    let assumption = first_assumption(&script);
    let stack: Vec<ResultSet> = Vec::new();
    assert!(matches!(assumption.evaluate(&stack, &env(vec![table("t")])), Ok(true)));
    assert!(matches!(assumption.evaluate(&stack, &env(vec![table("u")])), Ok(false)));
    assert!(matches!(assumption.evaluate(&stack, &env(vec![])), Ok(false)));
}

#[test]
fn insert_select_assertion_reads_the_last_result_only() {
    let script = insert_select(vec![]).interactions();
    let assertion = final_assertion(&script);
    let e = env(vec![table("t")]);

    let found: Vec<ResultSet> = vec![Ok(vec![row(1, "one"), row(2, "two")])];
    assert!(matches!(assertion.evaluate(&found, &e), Ok(true)));

    let missing: Vec<ResultSet> = vec![Ok(vec![row(2, "two")]), Ok(vec![row(1, "one"), row(3, "three")])];
    assert!(matches!(assertion.evaluate(&missing, &e), Ok(false)));

    let near: Vec<ResultSet> = vec![Ok(vec![row(2, "TWO"), vec![Value::Integer(2)]])];
    assert!(matches!(assertion.evaluate(&near, &e), Ok(false)));

    let empty: Vec<ResultSet> = vec![Ok(vec![])];
    assert!(matches!(assertion.evaluate(&empty, &e), Ok(false)));
}

#[test]
fn insert_select_assertion_on_a_failed_select_is_an_oracle_error() {
    let script = insert_select(vec![]).interactions();
    let assertion = final_assertion(&script);
    let stack: Vec<ResultSet> = vec![Ok(vec![row(2, "two")]), failure("no such table: t")];
    match assertion.evaluate(&stack, &env(vec![table("t")])) {
        Err(OracleError::Internal(text)) => assert_eq!(text, "no such table: t"),
        other => panic!("expected an oracle error, got {:?}", other),
    }
}

#[test]
fn double_create_compiles_to_assume_create_fillers_create_assert() {
    let fillers = vec![
        Query::Insert(Insert { table: "t".to_string(), values: vec![row(1, "one")] }),
        Query::Create(Create { table: table("other") }),
    ];
    let script = double_create(fillers).interactions();
    assert_eq!(kinds(&script), vec!["assumption", "create", "insert", "create", "create", "assertion"]);
    assert_eq!(format!("{:?}", script[1]), format!("{:?}", script[4]));
    match &script[4] {
        Interaction::Query(Query::Create(create)) => {
            assert_eq!(create.table.name, "t");
            assert_eq!(create.table.columns.len(), 2);
        }
        _ => panic!("the last query is not the create"),
    }
}

#[test]
fn double_create_checks_carry_the_table_name() {
    let script = double_create(vec![]).interactions();
    assert_eq!(kinds(&script), vec!["assumption", "create", "create", "assertion"]);
    let assumption = first_assumption(&script);
    assert_eq!(
        assumption.message,
        "Double-Create-Failure should not be called on an existing table"
    );
    match &assumption.check {
        Check::TableAbsent { table } => assert_eq!(table, "t"),
        _ => panic!("the assumption does not test that the table is absent"),
    }
    let assertion = final_assertion(&script);
    assert_eq!(
        assertion.message,
        "creating two tables with the name should result in a failure for the second query"
    );
    match &assertion.check {
        Check::CreateRejected { table } => assert_eq!(table, "t"),
        _ => panic!("the assertion does not test for the refusal"),
    }
}

#[test]
fn double_create_assumption_wants_the_table_absent() {
    let script = double_create(vec![]).interactions();
    let assumption = first_assumption(&script);
    let stack: Vec<ResultSet> = Vec::new();
    assert!(matches!(assumption.evaluate(&stack, &env(vec![])), Ok(true)));
    assert!(matches!(assumption.evaluate(&stack, &env(vec![table("u")])), Ok(true)));
    assert!(matches!(assumption.evaluate(&stack, &env(vec![table("u"), table("t")])), Ok(false)));
}

#[test]
fn second_create_must_fail_with_already_exists() {
    let script = double_create(vec![]).interactions();
    let assertion = final_assertion(&script);
    let e = env(vec![]);

    let refused: Vec<ResultSet> = vec![Ok(vec![]), failure("Table t already exists")];
    assert!(matches!(assertion.evaluate(&refused, &e), Ok(true)));

    let wrapped: Vec<ResultSet> = vec![Ok(vec![]), failure("Parse error: Table t already exists.")];
    assert!(matches!(assertion.evaluate(&wrapped, &e), Ok(true)));

    let other_text: Vec<ResultSet> = vec![Ok(vec![]), failure("disk is full")];
    assert!(matches!(assertion.evaluate(&other_text, &e), Ok(false)));

    let other_table: Vec<ResultSet> = vec![Ok(vec![]), failure("Table tt already exists")];
    assert!(matches!(assertion.evaluate(&other_table, &e), Ok(false)));

    let lower_case: Vec<ResultSet> = vec![Ok(vec![]), failure("table t already exists")];
    assert!(matches!(assertion.evaluate(&lower_case, &e), Ok(false)));

    let success: Vec<ResultSet> = vec![failure("Table t already exists"), Ok(vec![])];
    assert!(matches!(assertion.evaluate(&success, &e), Ok(false)));
}

#[test]
fn refusal_text_names_the_table() {
    assert_eq!(already_exists_message(&"t".to_string()), "Table t already exists");
    assert_eq!(already_exists_message(&String::new()), "Table  already exists");
}

#[test]
fn rows_contain_compares_whole_rows() {
    let rows = vec![row(1, "one"), row(2, "two")];
    assert!(rows_contain(&rows, &row(2, "two")));
    assert!(!rows_contain(&rows, &row(2, "one")));
    assert!(!rows_contain(&Vec::new(), &row(2, "two")));
}

#[test]
fn check_evaluates_like_its_assertion() {
    let check = Check::TableExists { table: "t".to_string() };
    let stack: Vec<ResultSet> = Vec::new();
    assert!(matches!(check.evaluate(&stack, &env(vec![table("t")])), Ok(true)));
    let assertion = Assertion { message: "m".to_string(), check };
    assert!(matches!(assertion.evaluate(&stack, &env(vec![table("t")])), Ok(true)));
}
