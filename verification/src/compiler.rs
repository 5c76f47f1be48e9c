//! The expression compiler: the recursive-descent renderer that lowers a
//! query expression to SQL text, pushing every bound value onto an output
//! parameter list in left-to-right traversal order.
//!
//! Unlike a renderer that nests `AND`/`OR`/`NOT` without grouping, this one
//! tracks operator precedence and parenthesizes a lower-precedence
//! condition wherever it stands under a higher-precedence combinator, so
//! the emitted text always parses with the tree's own grouping.

use crate::query::{
    bool_list_size, bool_list_wf, bool_size, bool_wf, expr_size, expr_wf, val_list_wf, BoolExpr,
    Column, Expr, Join,
};
use crate::schema::{literal_text, sql_literal_value};
use crate::values::SqlVal;
use vstd::prelude::*;

verus! {

/// Whether `e` is a bound `Null` value (the operand form that turns `=`
/// and `<>` into `IS NULL` / `IS NOT NULL`).
pub open spec fn is_null_val(e: Expr) -> bool {
    match e {
        Expr::Val(SqlVal::Null) => true,
        _ => false,
    }
}

/// The precedence of the SQL text a condition renders to: `OR` lowest,
/// then `AND` (an `AllOf` of at least one condition renders as an `AND`
/// chain), then `NOT`; comparisons and the other atoms bind tightest.
pub open spec fn bool_prec(b: BoolExpr) -> int {
    match b {
        BoolExpr::Or(_, _) => 1,
        BoolExpr::And(_, _) => 2,
        BoolExpr::AllOf(conds) => if conds@.len() == 0 {
            4
        } else {
            2
        },
        BoolExpr::Not(_) => 3,
        _ => 4,
    }
}

/// The SQL text of an expression node: the bare name for a column
/// reference, a `?` marker for a bound value or a placeholder slot, and
/// the condition's text for a wrapped condition.
pub open spec fn expr_sql(e: Expr) -> Seq<char>
    decreases expr_size(e), 0int,
{
    match e {
        Expr::Column(name) => name@,
        Expr::Val(_) => "?"@,
        Expr::Placeholder => "?"@,
        Expr::Condition(c) => bool_sql_paren(*c, 1),
    }
}

/// The SQL text of a condition, wrapped in parentheses when its
/// precedence falls below what its context requires.
pub open spec fn bool_sql_paren(b: BoolExpr, min_prec: int) -> Seq<char>
    decreases bool_size(b), 2int,
{
    if bool_prec(b) < min_prec {
        "("@ + bool_sql(b) + ")"@
    } else {
        bool_sql(b)
    }
}

/// The SQL text of a condition.
pub open spec fn bool_sql(b: BoolExpr) -> Seq<char>
    decreases bool_size(b), 1int,
{
    match b {
        BoolExpr::True => "TRUE"@,
        BoolExpr::Eq(col, e) => if is_null_val(e) {
            col@ + " IS NULL"@
        } else {
            col@ + " = "@ + expr_sql(e)
        },
        BoolExpr::Ne(col, e) => if is_null_val(e) {
            col@ + " IS NOT NULL"@
        } else {
            col@ + " <> "@ + expr_sql(e)
        },
        BoolExpr::Lt(col, e) => col@ + " < "@ + expr_sql(e),
        BoolExpr::Gt(col, e) => col@ + " > "@ + expr_sql(e),
        BoolExpr::Ge(col, e) => col@ + " >= "@ + expr_sql(e),
        BoolExpr::Le(col, e) => col@ + " <= "@ + expr_sql(e),
        BoolExpr::Like(col, e) => col@ + " like "@ + expr_sql(e),
        BoolExpr::AllOf(conds) => all_of_sql(conds@),
        BoolExpr::And(a, b2) => bool_sql_paren(*a, 2) + " AND "@ + bool_sql_paren(*b2, 2),
        BoolExpr::Or(a, b2) => bool_sql_paren(*a, 1) + " OR "@ + bool_sql_paren(*b2, 1),
        BoolExpr::Not(a) => "NOT "@ + bool_sql_paren(*a, 3),
        BoolExpr::Subquery { col, tbl2, tbl2_col, expr } => col@ + " IN (SELECT "@ + tbl2_col@
            + " FROM "@ + tbl2@ + " WHERE "@ + bool_sql_paren(*expr, 1) + ")"@,
        BoolExpr::SubqueryJoin { col, tbl2, col2, joins, expr } => col@ + " IN (SELECT "@
            + qcol_sql(col2) + " FROM "@ + tbl2@ + " "@ + joins_sql(joins@) + " WHERE "@
            + bool_sql_paren(*expr, 1) + ")"@,
        BoolExpr::In(col, vals) => col@ + " IN ("@ + in_list_sql(vals.deep_view()) + ")"@,
    }
}

/// The SQL text of an `AllOf` list: each condition's text with a literal
/// ` AND ` between consecutive items; an empty list emits nothing.
pub open spec fn all_of_sql(cs: Seq<BoolExpr>) -> Seq<char>
    decreases bool_list_size(cs), 3int,
{
    if cs.len() == 0 {
        Seq::empty()
    } else if cs.len() == 1 {
        bool_sql_paren(cs.last(), 2)
    } else {
        all_of_sql(cs.drop_last()) + " AND "@ + bool_sql_paren(cs.last(), 2)
    }
}

/// The text of a qualified column reference: `table.name`, or the bare
/// name without a qualifier.
pub open spec fn qcol_sql(c: Column) -> Seq<char> {
    match c.table {
        Some(t) => t@ + "."@ + c.name@,
        None => c.name@,
    }
}

/// The text of one join descriptor.
pub open spec fn join_sql(j: Join) -> Seq<char> {
    match j {
        Join::Inner { join_table, col1, col2 } => "INNER JOIN "@ + join_table@ + " ON "@
            + qcol_sql(col1) + " = "@ + qcol_sql(col2),
    }
}

/// The text of a join list: each join's text, concatenated in order.
pub open spec fn joins_sql(js: Seq<Join>) -> Seq<char>
    decreases js.len(),
{
    if js.len() == 0 {
        Seq::empty()
    } else {
        joins_sql(js.drop_last()) + join_sql(js.last())
    }
}

/// The text of an `IN` list: each value as an inline literal, with `, `
/// between consecutive items.
pub open spec fn in_list_sql(vs: Seq<crate::values::SqlValM>) -> Seq<char>
    decreases vs.len(),
{
    if vs.len() == 0 {
        Seq::empty()
    } else if vs.len() == 1 {
        literal_text(vs.last())
    } else {
        in_list_sql(vs.drop_last()) + ", "@ + literal_text(vs.last())
    }
}

/// The values an expression binds, in left-to-right traversal order.
pub open spec fn expr_vals(e: Expr) -> Seq<SqlVal>
    decreases expr_size(e), 0int,
{
    match e {
        Expr::Val(v) => seq![v],
        Expr::Condition(c) => bool_vals(*c),
        _ => Seq::empty(),
    }
}

/// The values a condition binds, in left-to-right traversal order. A
/// comparison against a bound `Null` binds nothing (it renders as
/// `IS NULL` / `IS NOT NULL`), and an `IN` list binds nothing (its values
/// are inlined as literals).
pub open spec fn bool_vals(b: BoolExpr) -> Seq<SqlVal>
    decreases bool_size(b), 1int,
{
    match b {
        BoolExpr::True => Seq::empty(),
        BoolExpr::Eq(_, e) => if is_null_val(e) {
            Seq::empty()
        } else {
            expr_vals(e)
        },
        BoolExpr::Ne(_, e) => if is_null_val(e) {
            Seq::empty()
        } else {
            expr_vals(e)
        },
        BoolExpr::Lt(_, e) => expr_vals(e),
        BoolExpr::Gt(_, e) => expr_vals(e),
        BoolExpr::Ge(_, e) => expr_vals(e),
        BoolExpr::Le(_, e) => expr_vals(e),
        BoolExpr::Like(_, e) => expr_vals(e),
        BoolExpr::AllOf(conds) => all_of_vals(conds@),
        BoolExpr::And(a, b2) => bool_vals(*a) + bool_vals(*b2),
        BoolExpr::Or(a, b2) => bool_vals(*a) + bool_vals(*b2),
        BoolExpr::Not(a) => bool_vals(*a),
        BoolExpr::Subquery { expr, .. } => bool_vals(*expr),
        BoolExpr::SubqueryJoin { expr, .. } => bool_vals(*expr),
        BoolExpr::In(_, _) => Seq::empty(),
    }
}

/// The values an `AllOf` list binds, item by item in order.
pub open spec fn all_of_vals(cs: Seq<BoolExpr>) -> Seq<SqlVal>
    decreases bool_list_size(cs), 3int,
{
    if cs.len() == 0 {
        Seq::empty()
    } else {
        all_of_vals(cs.drop_last()) + bool_vals(cs.last())
    }
}

/// Whether `e` is a bound `Null` value.
fn is_val_null(e: &Expr) -> (r: bool)
    ensures
        r == is_null_val(*e),
{
    match e {
        Expr::Val(SqlVal::Null) => true,
        _ => false,
    }
}

/// The precedence of the text `b` renders to.
fn prec_of(b: &BoolExpr) -> (p: u32)
    ensures
        p as int == bool_prec(*b),
{
    match b {
        BoolExpr::Or(_, _) => 1,
        BoolExpr::And(_, _) => 2,
        BoolExpr::AllOf(conds) => if conds.len() == 0 {
            4
        } else {
            2
        },
        BoolExpr::Not(_) => 3,
        _ => 4,
    }
}

/// Writes to `w` the SQL for the expression `expr`. Every value contained
/// in `expr` is rendered as a `?` placeholder in the SQL text and appended
/// to `values`, in exactly the order the markers appear in the text.
pub fn sql_for_expr(expr: Expr, values: &mut Vec<SqlVal>, w: &mut String)
    requires
        expr_wf(expr),
    ensures
        final(w)@ == old(w)@ + expr_sql(expr),
        final(values)@ == old(values)@ + expr_vals(expr),
    decreases expr_size(expr), 0int,
{
    match expr {
        Expr::Column(name) => {
            w.append(name);
        },
        Expr::Val(v) => {
            values.push(v);
            w.append("?");
            proof {
                assert(values@ =~= old(values)@ + expr_vals(expr));
            }
        },
        Expr::Placeholder => {
            w.append("?");
        },
        Expr::Condition(c) => {
            sql_for_bool_paren(*c, 1, values, w);
        },
    }
}

/// Compiles `b`, parenthesized when its precedence falls below `min_prec`.
fn sql_for_bool_paren(b: BoolExpr, min_prec: u32, values: &mut Vec<SqlVal>, w: &mut String)
    requires
        bool_wf(b),
    ensures
        final(w)@ == old(w)@ + bool_sql_paren(b, min_prec as int),
        final(values)@ == old(values)@ + bool_vals(b),
    decreases bool_size(b), 2int,
{
    let p = prec_of(&b);
    if p < min_prec {
        w.append("(");
        sql_for_bool(b, values, w);
        w.append(")");
        proof {
            assert(w@ =~= old(w)@ + bool_sql_paren(b, min_prec as int));
        }
    } else {
        sql_for_bool(b, values, w);
    }
}

/// Compiles one condition node.
#[verifier::rlimit(100)]
fn sql_for_bool(b: BoolExpr, values: &mut Vec<SqlVal>, w: &mut String)
    requires
        bool_wf(b),
    ensures
        final(w)@ == old(w)@ + bool_sql(b),
        final(values)@ == old(values)@ + bool_vals(b),
    decreases bool_size(b), 1int,
{
    match b {
        BoolExpr::True => {
            w.append("TRUE");
        },
        BoolExpr::Eq(col, e) => {
            w.append(col);
            if is_val_null(&e) {
                w.append(" IS NULL");
            } else {
                w.append(" = ");
                sql_for_expr(e, values, w);
            }
            proof {
                assert(w@ =~= old(w)@ + bool_sql(b));
            }
        },
        BoolExpr::Ne(col, e) => {
            w.append(col);
            if is_val_null(&e) {
                w.append(" IS NOT NULL");
            } else {
                w.append(" <> ");
                sql_for_expr(e, values, w);
            }
            proof {
                assert(w@ =~= old(w)@ + bool_sql(b));
            }
        },
        BoolExpr::Lt(col, e) => {
            w.append(col);
            w.append(" < ");
            sql_for_expr(e, values, w);
            proof {
                assert(w@ =~= old(w)@ + bool_sql(b));
            }
        },
        BoolExpr::Gt(col, e) => {
            w.append(col);
            w.append(" > ");
            sql_for_expr(e, values, w);
            proof {
                assert(w@ =~= old(w)@ + bool_sql(b));
            }
        },
        BoolExpr::Ge(col, e) => {
            w.append(col);
            w.append(" >= ");
            sql_for_expr(e, values, w);
            proof {
                assert(w@ =~= old(w)@ + bool_sql(b));
            }
        },
        BoolExpr::Le(col, e) => {
            w.append(col);
            w.append(" <= ");
            sql_for_expr(e, values, w);
            proof {
                assert(w@ =~= old(w)@ + bool_sql(b));
            }
        },
        BoolExpr::Like(col, e) => {
            w.append(col);
            w.append(" like ");
            sql_for_expr(e, values, w);
            proof {
                assert(w@ =~= old(w)@ + bool_sql(b));
            }
        },
        BoolExpr::AllOf(conds) => {
            sql_for_all_of(conds, values, w);
        },
        BoolExpr::And(a, b2) => {
            sql_for_bool_paren(*a, 2, values, w);
            w.append(" AND ");
            sql_for_bool_paren(*b2, 2, values, w);
            proof {
                assert(w@ =~= old(w)@ + bool_sql(b));
                assert(values@ =~= old(values)@ + bool_vals(b));
            }
        },
        BoolExpr::Or(a, b2) => {
            sql_for_bool_paren(*a, 1, values, w);
            w.append(" OR ");
            sql_for_bool_paren(*b2, 1, values, w);
            proof {
                assert(w@ =~= old(w)@ + bool_sql(b));
                assert(values@ =~= old(values)@ + bool_vals(b));
            }
        },
        BoolExpr::Not(a) => {
            w.append("NOT ");
            sql_for_bool_paren(*a, 3, values, w);
            proof {
                assert(w@ =~= old(w)@ + bool_sql(b));
            }
        },
        BoolExpr::Subquery { col, tbl2, tbl2_col, expr } => {
            w.append(col);
            w.append(" IN (SELECT ");
            w.append(tbl2_col);
            w.append(" FROM ");
            w.append(tbl2);
            w.append(" WHERE ");
            sql_for_bool_paren(*expr, 1, values, w);
            w.append(")");
            proof {
                assert(w@ =~= old(w)@ + bool_sql(b));
            }
        },
        BoolExpr::SubqueryJoin { col, tbl2, col2, joins, expr } => {
            w.append(col);
            w.append(" IN (SELECT ");
            sql_column(col2, w);
            w.append(" FROM ");
            w.append(tbl2);
            w.append(" ");
            sql_joins(joins, w);
            w.append(" WHERE ");
            sql_for_bool_paren(*expr, 1, values, w);
            w.append(")");
            proof {
                assert(w@ =~= old(w)@ + bool_sql(b));
            }
        },
        BoolExpr::In(col, vals) => {
            w.append(col);
            w.append(" IN (");
            sql_for_in_list(vals, w);
            w.append(")");
            proof {
                assert(w@ =~= old(w)@ + bool_sql(b));
            }
        },
    }
}

/// Compiles an `AllOf` list, joining consecutive items with ` AND `.
fn sql_for_all_of(mut conds: Vec<BoolExpr>, values: &mut Vec<SqlVal>, w: &mut String)
    requires
        bool_list_wf(conds@),
    ensures
        final(w)@ == old(w)@ + all_of_sql(conds@),
        final(values)@ == old(values)@ + all_of_vals(conds@),
    decreases bool_list_size(conds@), 3int,
{
    let ghost entry = conds@;
    match conds.pop() {
        None => {
            proof {
                assert(w@ =~= old(w)@ + all_of_sql(entry));
                assert(values@ =~= old(values)@ + all_of_vals(entry));
            }
        },
        Some(last) => {
            proof {
                assert(conds@ == entry.drop_last());
                assert(last == entry.last());
            }
            if conds.len() > 0 {
                sql_for_all_of(conds, values, w);
                w.append(" AND ");
                sql_for_bool_paren(last, 2, values, w);
                proof {
                    assert(w@ =~= old(w)@ + all_of_sql(entry));
                    assert(values@ =~= old(values)@ + all_of_vals(entry));
                }
            } else {
                sql_for_bool_paren(last, 2, values, w);
                proof {
                    assert(entry.len() == 1);
                    assert(all_of_vals(entry.drop_last()) =~= Seq::<SqlVal>::empty());
                    assert(w@ =~= old(w)@ + all_of_sql(entry));
                    assert(values@ =~= old(values)@ + all_of_vals(entry));
                }
            }
        },
    }
}

/// Writes a qualified column reference: `table.name`, or the bare name.
fn sql_column(col: Column, w: &mut String)
    ensures
        final(w)@ == old(w)@ + qcol_sql(col),
{
    match col.table {
        Some(t) => {
            w.append(t);
            w.append(".");
            w.append(col.name);
            proof {
                assert(w@ =~= old(w)@ + qcol_sql(col));
            }
        },
        None => {
            w.append(col.name);
        },
    }
}

/// Writes the join clauses, in order.
fn sql_joins(mut joins: Vec<Join>, w: &mut String)
    ensures
        final(w)@ == old(w)@ + joins_sql(joins@),
    decreases joins@.len(),
{
    let ghost entry = joins@;
    match joins.pop() {
        None => {
            proof {
                assert(w@ =~= old(w)@ + joins_sql(entry));
            }
        },
        Some(last) => {
            sql_joins(joins, w);
            match last {
                Join::Inner { join_table, col1, col2 } => {
                    w.append("INNER JOIN ");
                    w.append(join_table);
                    w.append(" ON ");
                    sql_column(col1, w);
                    w.append(" = ");
                    sql_column(col2, w);
                },
            }
            proof {
                assert(w@ =~= old(w)@ + joins_sql(entry));
            }
        },
    }
}

/// Writes an `IN` list's values as inline literals, `, `-separated.
fn sql_for_in_list(mut vals: Vec<SqlVal>, w: &mut String)
    requires
        val_list_wf(vals@),
    ensures
        final(w)@ == old(w)@ + in_list_sql(vals.deep_view()),
    decreases vals@.len(),
{
    let ghost entry = vals.deep_view();
    match vals.pop() {
        None => {
            proof {
                assert(w@ =~= old(w)@ + in_list_sql(entry));
            }
        },
        Some(last) => {
            proof {
                assert(vals.deep_view() =~= entry.drop_last());
                assert(last@ == entry.last());
            }
            if vals.len() > 0 {
                sql_for_in_list(vals, w);
                w.append(", ");
            }
            let lit = sql_literal_value(last);
            w.append(lit.as_str());
            proof {
                assert(w@ =~= old(w)@ + in_list_sql(entry));
            }
        },
    }
}

} // verus!
