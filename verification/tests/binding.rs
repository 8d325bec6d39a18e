use naturalquerylib::Query;
use naturalquerylib::Value;

/// An INSERT renders one `?` per tracked value and binds the values in
/// insertion order.
#[test]
fn insert_placeholders_match_values() {
    let query = Query::insert_into("t")
        .columns(vec!["a".to_string(), "b".to_string()])
        .values(vec![Value::text("x"), Value::text("y")]);

    let sql = query.build();
    assert_eq!(sql, "INSERT INTO t (a, b) VALUES (?, ?)");
    assert_eq!(sql.matches('?').count(), 2);

    let bound = query.bound_values();
    assert_eq!(
        bound,
        vec![Value::Text("x".to_string()), Value::Text("y".to_string())]
    );
}

/// An UPDATE renders one `col = ?` per pair handed to `set`, in call
/// order, and binds the paired values in the same order.
#[test]
fn update_set_renders_pairs_in_order() {
    let query = Query::update("t").set(vec![
        ("a".to_string(), Value::from(1)),
        ("b".to_string(), Value::from(2)),
    ]);

    let sql = query.build();
    assert_eq!(sql, "UPDATE t SET a = ?, b = ?");

    let bound = query.bound_values();
    assert_eq!(bound, vec![Value::Int(1), Value::Int(2)]);
}

/// Setting the same column twice appends a duplicate fragment and a
/// duplicate bound value; nothing merges.
#[test]
fn duplicate_set_appends() {
    let query = Query::update("t")
        .set(vec![("a".to_string(), Value::from(1))])
        .set(vec![("a".to_string(), Value::from(2))]);
    assert_eq!(query.build(), "UPDATE t SET a = ?, a = ?");
    assert_eq!(query.bound_values(), vec![Value::Int(1), Value::Int(2)]);
}

/// Binding order is all of `values` first, then all of `params`, even
/// when a param was appended before the values.
#[test]
fn params_bind_after_values_whatever_the_call_order() {
    let early_param = Query::insert_into("t")
        .columns(vec!["a".to_string()])
        .add_param(Value::from(9))
        .values(vec![Value::text("x")]);
    let late_param = Query::insert_into("t")
        .columns(vec!["a".to_string()])
        .values(vec![Value::text("x")])
        .add_param(Value::from(9));

    let expected = vec![Value::Text("x".to_string()), Value::Int(9)];
    assert_eq!(early_param.bound_values(), expected);
    assert_eq!(late_param.bound_values(), expected);
}

/// A DELETE's ad-hoc params bind in insertion order.
#[test]
fn delete_params_in_insertion_order() {
    let query = Query::delete_from("users")
        .where_clause("age > ?")
        .where_clause("name = ?")
        .add_param(Value::from(30))
        .add_param(Value::text("ada"));

    assert_eq!(query.build(), "DELETE FROM users WHERE age > ? AND name = ?");
    assert_eq!(
        query.bound_values(),
        vec![Value::Int(30), Value::Text("ada".to_string())]
    );
}

/// The conversions into `Value` keep the payload.
#[test]
fn value_conversions() {
    assert_eq!(Value::from(5), Value::Int(5));
    assert_eq!(Value::from(true), Value::Bool(true));
    assert_eq!(Value::from("abc".to_string()), Value::Text("abc".to_string()));
    assert_eq!(Value::from(vec![1u8, 2u8]), Value::Bytes(vec![1u8, 2u8]));
    assert_eq!(Value::text("abc"), Value::Text("abc".to_string()));
}

/// Placeholder count follows the values tracked, not the column count.
#[test]
fn insert_placeholders_follow_values() {
    let query = Query::insert_into("t")
        .columns(vec!["a".to_string(), "b".to_string()])
        .values(vec![Value::Null, Value::Bool(true), Value::Bytes(vec![7u8])]);
    let sql = query.build();
    assert_eq!(sql, "INSERT INTO t (a, b) VALUES (?, ?, ?)");
    assert_eq!(
        query.bound_values(),
        vec![Value::Null, Value::Bool(true), Value::Bytes(vec![7u8])]
    );
}

/// Every value shape round-trips through the binding list unchanged.
#[test]
fn all_value_shapes_bind_in_order() {
    let query = Query::insert_into("t").values(vec![
        Value::Null,
        Value::Bool(false),
        Value::Int(-3),
        Value::Text("x".to_string()),
        Value::Bytes(vec![1u8, 2u8, 3u8]),
        Value::Json("{\"k\":1}".to_string()),
    ]);
    assert_eq!(
        query.bound_values(),
        vec![
            Value::Null,
            Value::Bool(false),
            Value::Int(-3),
            Value::Text("x".to_string()),
            Value::Bytes(vec![1u8, 2u8, 3u8]),
            Value::Json("{\"k\":1}".to_string()),
        ]
    );
}

/// Every statement the constructors can reach is serializable.
#[test]
fn constructed_statements_are_buildable() {
    assert!(Query::select().is_buildable());
    assert!(Query::insert_into("t").is_buildable());
    assert!(Query::update("t").is_buildable());
    assert!(Query::delete_from("t").is_buildable());
}

/// A statement with no bound values binds nothing.
#[test]
fn empty_binding() {
    let query = Query::select().from("t");
    assert_eq!(query.bound_values(), Vec::<Value>::new());
}

/// An INSERT with no values renders an empty placeholder list.
#[test]
fn insert_without_values() {
    let sql = Query::insert_into("t").columns(vec!["a".to_string()]).build();
    assert_eq!(sql, "INSERT INTO t (a) VALUES ()");
}
