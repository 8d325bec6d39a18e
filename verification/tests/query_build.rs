use naturalquerylib::JoinType;
use naturalquerylib::Query;

/// Builds a SELECT with projection, table, filter, ordering, limit and
/// offset, and checks the exact rendered text and clause order.
#[test]
fn test_select_query_build() {
    let query = Query::select()
        .columns(vec!["id".to_string(), "name".to_string(), "age".to_string()])
        .from("users")
        .where_clause("age > ?")
        .order_by(vec!["age DESC".to_string()])
        .limit(10)
        .offset(5);

    let sql = query.build();

    assert_eq!(
        sql,
        "SELECT id, name, age FROM users WHERE age > ? ORDER BY age DESC LIMIT 10 OFFSET 5"
    );
}

/// Builds a SELECT with a join and checks the join segment's place and text.
#[test]
fn test_join_query_build() {
    let query = Query::select()
        .columns(vec!["u.name".to_string(), "o.order_date".to_string()])
        .from("users u")
        .join(JoinType::Inner, "orders o", "u.id = o.user_id")
        .where_clause("u.id = ?")
        .order_by(vec!["o.order_date DESC".to_string()]);

    let sql = query.build();

    assert_eq!(
        sql,
        "SELECT u.name, o.order_date FROM users u INNER JOIN orders o ON u.id = o.user_id WHERE u.id = ? ORDER BY o.order_date DESC"
    );
}

/// Serializes a SELECT and embeds its text verbatim as a condition
/// fragment of an outer SELECT.
#[test]
fn test_subquery_build() {
    let subquery = Query::select()
        .columns(vec!["id".to_string()])
        .from("users")
        .where_clause("age > ?")
        .build();

    let main_query = Query::select()
        .columns(vec!["name".to_string()])
        .from("employees")
        .where_clause(&format!("user_id IN ({})", subquery));

    let sql = main_query.build();

    assert_eq!(
        sql,
        "SELECT name FROM employees WHERE user_id IN (SELECT id FROM users WHERE age > ?)"
    );
}

/// A SELECT with no columns tracked projects `*`.
#[test]
fn select_without_columns_renders_star() {
    let sql = Query::select().from("users").build();
    assert_eq!(sql, "SELECT * FROM users");
}

/// A table-less SELECT is legal and renders no FROM clause.
#[test]
fn select_without_table() {
    let sql = Query::select().columns(vec!["1".to_string()]).build();
    assert_eq!(sql, "SELECT 1");
}

/// Every join kind renders its own keyword, in insertion order.
#[test]
fn join_keywords_render_in_order() {
    let sql = Query::select()
        .from("a")
        .join(JoinType::Left, "b", "a.x = b.x")
        .join(JoinType::Right, "c", "a.y = c.y")
        .join(JoinType::Full, "d", "a.z = d.z")
        .build();
    assert_eq!(
        sql,
        "SELECT * FROM a LEFT JOIN b ON a.x = b.x RIGHT JOIN c ON a.y = c.y FULL JOIN d ON a.z = d.z"
    );
}

/// Multiple filter fragments are joined with AND under one WHERE.
#[test]
fn conditions_join_with_and() {
    let sql = Query::select()
        .from("t")
        .where_clause("a = ?")
        .where_clause("b = ?")
        .build();
    assert_eq!(sql, "SELECT * FROM t WHERE a = ? AND b = ?");
}

/// GROUP BY and HAVING render between WHERE and ORDER BY.
#[test]
fn group_by_and_having() {
    let sql = Query::select()
        .columns(vec!["dept".to_string(), "COUNT(*)".to_string()])
        .from("emp")
        .where_clause("active = 1")
        .group_by(vec!["dept".to_string()])
        .having("COUNT(*) > 5")
        .order_by(vec!["dept".to_string()])
        .build();
    assert_eq!(
        sql,
        "SELECT dept, COUNT(*) FROM emp WHERE active = 1 GROUP BY dept HAVING COUNT(*) > 5 ORDER BY dept"
    );
}

/// DELETE names its table in the verb clause, not in a FROM clause.
#[test]
fn delete_with_condition() {
    let sql = Query::delete_from("users").where_clause("id = ?").build();
    assert_eq!(sql, "DELETE FROM users WHERE id = ?");
}

/// Large LIMIT and OFFSET numbers render in full decimal.
#[test]
fn limit_and_offset_render_decimal() {
    let sql = Query::select()
        .from("t")
        .limit(1234567890123)
        .offset(0)
        .build();
    assert_eq!(sql, "SELECT * FROM t LIMIT 1234567890123 OFFSET 0");
}

/// Clause order in the output is fixed whatever the call order was.
#[test]
fn call_order_does_not_change_output() {
    let a = Query::select()
        .from("t")
        .order_by(vec!["x".to_string()])
        .where_clause("y = 1")
        .build();
    let b = Query::select()
        .from("t")
        .where_clause("y = 1")
        .order_by(vec!["x".to_string()])
        .build();
    assert_eq!(a, "SELECT * FROM t WHERE y = 1 ORDER BY x");
    assert_eq!(a, b);
}

/// Serializing the same completed statement twice is byte-identical.
#[test]
fn build_twice_is_identical() {
    let query = Query::select()
        .columns(vec!["id".to_string()])
        .from("users")
        .where_clause("age > ?")
        .limit(3);
    let first = query.build();
    let second = query.build();
    assert_eq!(first, second);
}

/// A column list on a Delete is legal and simply shows nowhere.
#[test]
fn columns_on_delete_have_no_effect() {
    let sql = Query::delete_from("t").columns(vec!["a".to_string()]).build();
    assert_eq!(sql, "DELETE FROM t");
}

/// The final trim removes trailing whitespace that a caller-supplied
/// fragment carried into the last clause.
#[test]
fn trailing_whitespace_is_trimmed() {
    let sql = Query::select().from("t").where_clause("x = 1   ").build();
    assert_eq!(sql, "SELECT * FROM t WHERE x = 1");
}
