use propane_sqlgen::builders::{
    sql_insert_with_placeholders, sql_limit, sql_select, sql_update_with_placeholders, Column,
};
use propane_sqlgen::compiler::sql_for_expr;
use propane_sqlgen::query::{BoolExpr, Column as QColumn, Expr, Join};
use propane_sqlgen::schema::{column_default, sql_literal_value, AColumn, Error};
use propane_sqlgen::values::{SqlType, SqlVal};

fn compile(expr: Expr) -> (String, Vec<SqlVal>) {
    let mut values: Vec<SqlVal> = Vec::new();
    let mut w = String::new();
    sql_for_expr(expr, &mut values, &mut w);
    (w, values)
}

fn cond(b: BoolExpr) -> Expr {
    Expr::Condition(Box::new(b))
}

#[test]
fn null_equality_rewrites_to_is_null() {
    let (sql, vals) = compile(cond(BoolExpr::Eq("col", Expr::Val(SqlVal::Null))));
    assert_eq!(sql, "col IS NULL");
    assert!(vals.is_empty());
}

#[test]
fn null_inequality_rewrites_to_is_not_null() {
    let (sql, vals) = compile(cond(BoolExpr::Ne("col", Expr::Val(SqlVal::Null))));
    assert_eq!(sql, "col IS NOT NULL");
    assert!(vals.is_empty());
}

#[test]
fn non_null_equality_binds_a_placeholder() {
    let (sql, vals) = compile(cond(BoolExpr::Eq("col", Expr::Val(SqlVal::Int(3)))));
    assert_eq!(sql, "col = ?");
    assert_eq!(vals, vec![SqlVal::Int(3)]);
}

#[test]
fn all_of_three_conditions_uses_two_separators() {
    let (sql, vals) = compile(cond(BoolExpr::AllOf(vec![
        BoolExpr::Eq("a", Expr::Val(SqlVal::Int(1))),
        BoolExpr::Eq("b", Expr::Val(SqlVal::Int(2))),
        BoolExpr::Eq("c", Expr::Val(SqlVal::Int(3))),
    ])));
    assert_eq!(sql, "a = ? AND b = ? AND c = ?");
    assert_eq!(
        vals,
        vec![SqlVal::Int(1), SqlVal::Int(2), SqlVal::Int(3)]
    );
}

#[test]
fn all_of_one_condition_uses_no_separator() {
    let (sql, _) = compile(cond(BoolExpr::AllOf(vec![BoolExpr::True])));
    assert_eq!(sql, "TRUE");
}

#[test]
fn all_of_nothing_emits_nothing() {
    let (sql, vals) = compile(cond(BoolExpr::AllOf(vec![])));
    assert_eq!(sql, "");
    assert!(vals.is_empty());
}

#[test]
fn in_list_inlines_literals_and_binds_nothing() {
    let (sql, vals) = compile(cond(BoolExpr::In(
        "col",
        vec![SqlVal::Int(1), SqlVal::Int(2)],
    )));
    assert_eq!(sql, "col IN (1, 2)");
    assert!(vals.is_empty());
}

#[test]
fn placeholder_slot_emits_marker_without_binding() {
    let (sql, vals) = compile(Expr::Placeholder);
    assert_eq!(sql, "?");
    assert!(vals.is_empty());
}

#[test]
fn or_nested_in_and_is_parenthesized() {
    let (sql, _) = compile(cond(BoolExpr::And(
        Box::new(BoolExpr::Or(
            Box::new(BoolExpr::Eq("a", Expr::Val(SqlVal::Int(1)))),
            Box::new(BoolExpr::Eq("b", Expr::Val(SqlVal::Int(2)))),
        )),
        Box::new(BoolExpr::Eq("c", Expr::Val(SqlVal::Int(3)))),
    )));
    assert_eq!(sql, "(a = ? OR b = ?) AND c = ?");
}

#[test]
fn and_nested_in_not_is_parenthesized() {
    let (sql, _) = compile(cond(BoolExpr::Not(Box::new(BoolExpr::And(
        Box::new(BoolExpr::True),
        Box::new(BoolExpr::True),
    )))));
    assert_eq!(sql, "NOT (TRUE AND TRUE)");
}

#[test]
fn and_nested_in_and_needs_no_parentheses() {
    let (sql, _) = compile(cond(BoolExpr::And(
        Box::new(BoolExpr::And(
            Box::new(BoolExpr::True),
            Box::new(BoolExpr::True),
        )),
        Box::new(BoolExpr::True),
    )));
    assert_eq!(sql, "TRUE AND TRUE AND TRUE");
}

#[test]
fn subquery_compiles_with_inner_condition() {
    let (sql, vals) = compile(cond(BoolExpr::Subquery {
        col: "blog",
        tbl2: "Blog",
        tbl2_col: "id",
        expr: Box::new(BoolExpr::Eq(
            "name",
            Expr::Val(SqlVal::Text("Bears".to_string())),
        )),
    }));
    assert_eq!(sql, "blog IN (SELECT id FROM Blog WHERE name = ?)");
    assert_eq!(vals, vec![SqlVal::Text("Bears".to_string())]);
}

#[test]
fn subquery_join_compiles_with_join_clause() {
    let (sql, vals) = compile(cond(BoolExpr::SubqueryJoin {
        col: "id",
        tbl2: "PostTags",
        col2: QColumn::new(Some("PostTags"), "post_id"),
        joins: vec![Join::Inner {
            join_table: "Tag",
            col1: QColumn::new(Some("PostTags"), "tag_id"),
            col2: QColumn::new(Some("Tag"), "tag"),
        }],
        expr: Box::new(BoolExpr::True),
    }));
    assert_eq!(
        sql,
        "id IN (SELECT PostTags.post_id FROM PostTags INNER JOIN Tag ON PostTags.tag_id = Tag.tag WHERE TRUE)"
    );
    assert!(vals.is_empty());
}

#[test]
fn explicit_default_wins_over_nullability() {
    let non_nullable = AColumn::new(false, Some(SqlVal::Int(5)), Some(SqlType::Int));
    assert_eq!(column_default(&non_nullable), Ok(SqlVal::Int(5)));
    let nullable = AColumn::new(true, Some(SqlVal::Int(5)), Some(SqlType::Int));
    assert_eq!(column_default(&nullable), Ok(SqlVal::Int(5)));
}

#[test]
fn nullable_column_without_default_resolves_to_null() {
    let col = AColumn::new(true, None, Some(SqlType::Text));
    assert_eq!(column_default(&col), Ok(SqlVal::Null));
}

#[test]
fn defaultless_bool_column_resolves_to_false() {
    let col = AColumn::new(false, None, Some(SqlType::Bool));
    assert_eq!(column_default(&col), Ok(SqlVal::Bool(false)));
}

#[test]
fn zero_values_match_each_type() {
    assert_eq!(
        column_default(&AColumn::new(false, None, Some(SqlType::Int))),
        Ok(SqlVal::Int(0))
    );
    assert_eq!(
        column_default(&AColumn::new(false, None, Some(SqlType::BigInt))),
        Ok(SqlVal::Int(0))
    );
    assert_eq!(
        column_default(&AColumn::new(false, None, Some(SqlType::Real))),
        Ok(SqlVal::Real(0.0f64.to_string()))
    );
    assert_eq!(
        column_default(&AColumn::new(false, None, Some(SqlType::Text))),
        Ok(SqlVal::Text(String::new()))
    );
    assert_eq!(
        column_default(&AColumn::new(false, None, Some(SqlType::Blob))),
        Ok(SqlVal::Blob(Vec::new()))
    );
    assert_eq!(
        column_default(&AColumn::new(false, None, Some(SqlType::Timestamp))),
        Ok(SqlVal::Timestamp(0, 0))
    );
}

#[test]
fn unresolved_type_is_reported() {
    let col = AColumn::new(false, None, None);
    assert_eq!(column_default(&col), Err(Error::TypeUnresolved));
}

#[test]
fn text_literal_is_single_quoted() {
    assert_eq!(sql_literal_value(SqlVal::Text("abc".to_string())), "'abc'");
}

#[test]
fn blob_literal_is_upper_hex() {
    assert_eq!(
        sql_literal_value(SqlVal::Blob(vec![0xAB, 0x01])),
        "x'AB01'"
    );
}

#[test]
fn text_literal_doubles_embedded_quotes() {
    assert_eq!(
        sql_literal_value(SqlVal::Text("it's".to_string())),
        "'it''s'"
    );
}

#[test]
fn scalar_literals_render_naturally() {
    assert_eq!(sql_literal_value(SqlVal::Null), "NULL");
    assert_eq!(sql_literal_value(SqlVal::Bool(true)), "true");
    assert_eq!(sql_literal_value(SqlVal::Bool(false)), "false");
    assert_eq!(sql_literal_value(SqlVal::Int(-42)), "-42");
    assert_eq!(sql_literal_value(SqlVal::BigInt(7)), "7");
    assert_eq!(sql_literal_value(SqlVal::Real(2.5f64.to_string())), "2.5");
}

#[test]
fn extreme_integers_render_exactly() {
    assert_eq!(
        sql_literal_value(SqlVal::Int(i64::MIN)),
        "-9223372036854775808"
    );
    assert_eq!(
        sql_literal_value(SqlVal::Int(i64::MAX)),
        "9223372036854775807"
    );
}

#[test]
fn epoch_timestamp_renders_in_iso_8601() {
    assert_eq!(
        sql_literal_value(SqlVal::Timestamp(0, 0)),
        "1970-01-01T00:00:00+00:00"
    );
}

#[test]
fn select_emits_columns_and_table() {
    let mut w = String::new();
    sql_select(
        &vec![Column::new("id"), Column::new("title")],
        "Post",
        &mut w,
    );
    assert_eq!(w, "SELECT id,title FROM Post");
}

#[test]
fn insert_emits_one_placeholder_per_column() {
    let mut w = String::new();
    sql_insert_with_placeholders(
        "Post",
        &vec![Column::new("id"), Column::new("title")],
        false,
        &mut w,
    );
    assert_eq!(w, "INSERT INTO Post (id,title) VALUES (?, ?)");
}

#[test]
fn insert_with_replace_emits_or_replace() {
    let mut w = String::new();
    sql_insert_with_placeholders("Post", &vec![Column::new("id")], true, &mut w);
    assert_eq!(w, "INSERT OR REPLACE INTO Post (id) VALUES (?)");
}

#[test]
fn update_puts_primary_key_placeholder_last() {
    let mut w = String::new();
    sql_update_with_placeholders(
        "Post",
        Column::new("id"),
        &vec![Column::new("title"), Column::new("likes")],
        &mut w,
    );
    assert_eq!(w, "UPDATE Post SET title = ?, likes = ? WHERE id = ?");
}

#[test]
fn limit_appends_its_count() {
    let mut w = String::new();
    sql_limit(5, &mut w);
    assert_eq!(w, " LIMIT 5");
}

#[test]
fn end_to_end_select_where_limit() {
    let mut w = String::new();
    sql_select(
        &vec![Column::new("id"), Column::new("title")],
        "Post",
        &mut w,
    );
    w.push_str(" WHERE ");
    let mut values: Vec<SqlVal> = Vec::new();
    sql_for_expr(
        cond(BoolExpr::AllOf(vec![
            BoolExpr::Eq("published", Expr::Val(SqlVal::Bool(true))),
            BoolExpr::Lt("likes", Expr::Val(SqlVal::Int(5))),
        ])),
        &mut values,
        &mut w,
    );
    sql_limit(5, &mut w);
    assert_eq!(
        w,
        "SELECT id,title FROM Post WHERE published = ? AND likes < ? LIMIT 5"
    );
    assert_eq!(values, vec![SqlVal::Bool(true), SqlVal::Int(5)]);
}

#[test]
fn placeholder_count_matches_bound_values() {
    let (sql, vals) = compile(cond(BoolExpr::And(
        Box::new(BoolExpr::Eq("a", Expr::Val(SqlVal::Int(1)))),
        Box::new(BoolExpr::Or(
            Box::new(BoolExpr::Ne("b", Expr::Val(SqlVal::Text("x".to_string())))),
            Box::new(BoolExpr::Like(
                "c",
                Expr::Val(SqlVal::Text("%y%".to_string())),
            )),
        )),
    )));
    let markers = sql.chars().filter(|c| *c == '?').count();
    assert_eq!(markers, vals.len());
    assert_eq!(vals.len(), 3);
}

#[test]
fn comparison_operators_render_their_symbols() {
    let (sql, _) = compile(cond(BoolExpr::Lt("a", Expr::Val(SqlVal::Int(1)))));
    assert_eq!(sql, "a < ?");
    let (sql, _) = compile(cond(BoolExpr::Gt("a", Expr::Val(SqlVal::Int(1)))));
    assert_eq!(sql, "a > ?");
    let (sql, _) = compile(cond(BoolExpr::Ge("a", Expr::Val(SqlVal::Int(1)))));
    assert_eq!(sql, "a >= ?");
    let (sql, _) = compile(cond(BoolExpr::Le("a", Expr::Val(SqlVal::Int(1)))));
    assert_eq!(sql, "a <= ?");
    let (sql, _) = compile(cond(BoolExpr::Like(
        "a",
        Expr::Val(SqlVal::Text("%z".to_string())),
    )));
    assert_eq!(sql, "a like ?");
    let (sql, _) = compile(cond(BoolExpr::Eq("a", Expr::Column("b"))));
    assert_eq!(sql, "a = b");
}
