use series_tracker::statement::{SqlValue, Statement};
use sqlx::Arguments;

fn statement(args: Vec<SqlValue>) -> Statement {
    Statement { sql: "SELECT 1".to_string(), args }
}

#[test]
fn no_values_give_an_empty_list() {
    let args = statement(vec![]).arguments();
    assert_eq!(args.len(), 0);
    assert_eq!(format!("{:?}", args), "SqliteArguments { values: [] }");
}

#[test]
fn values_are_added_in_order_with_their_kinds() {
    let stmt = statement(vec![
        SqlValue::Text("%foo%".to_string()),
        SqlValue::Int(12),
        SqlValue::Int64(-5),
        SqlValue::Text("Watching".to_string()),
    ]);
    let args = stmt.arguments();
    assert_eq!(args.len(), 4);
    assert_eq!(
        format!("{:?}", args),
        "SqliteArguments { values: [Text(\"%foo%\"), Int(12), Int64(-5), Text(\"Watching\")] }"
    );
    assert_eq!(stmt.args.len(), 4);
}
