//! Crate-level laws: proved statements that relate the compiler's emitted
//! text to its emitted parameter list, and pin down the rewrites the
//! compiler applies.

use crate::compiler::{
    all_of_sql, all_of_vals, bool_prec, bool_sql, bool_sql_paren, bool_vals, expr_sql, expr_vals,
    in_list_sql, is_null_val, joins_sql, qcol_sql,
};
use crate::query::{bool_list_size, bool_size, expr_size, BoolExpr, Expr, Join};
use crate::values::SqlVal;
use vstd::prelude::*;

verus! {

/// How many times `ch` occurs in `s`.
pub open spec fn count_char(s: Seq<char>, ch: char) -> nat
    decreases s.len(),
{
    if s.len() == 0 {
        0
    } else {
        count_char(s.drop_last(), ch) + (if s.last() == ch {
            1nat
        } else {
            0nat
        })
    }
}

/// Occurrence counts add up over concatenation.
pub proof fn lemma_count_concat(a: Seq<char>, b: Seq<char>, ch: char)
    ensures
        count_char(a + b, ch) == count_char(a, ch) + count_char(b, ch),
    decreases b.len(),
{
    if b.len() == 0 {
        assert(a + b =~= a);
    } else {
        lemma_count_concat(a, b.drop_last(), ch);
        assert((a + b).drop_last() =~= a + b.drop_last());
        assert((a + b).last() == b.last());
    }
}

/// A text none of whose characters is `ch` contains zero occurrences.
pub proof fn lemma_count_absent(s: Seq<char>, ch: char)
    requires
        forall|i: int| 0 <= i < s.len() ==> s[i] != ch,
    ensures
        count_char(s, ch) == 0,
    decreases s.len(),
{
    if s.len() > 0 {
        lemma_count_absent(s.drop_last(), ch);
    }
}

/// An identifier that contains no `?` marker character.
pub open spec fn name_clean(s: Seq<char>) -> bool {
    count_char(s, '?') == 0
}

/// A qualified column reference whose texts are clean.
pub open spec fn qcol_clean(c: crate::query::Column) -> bool {
    &&& name_clean(c.name@)
    &&& match c.table {
        Some(t) => name_clean(t@),
        None => true,
    }
}

/// A join list whose table and column texts are clean.
pub open spec fn joins_clean(js: Seq<Join>) -> bool {
    forall|i: int|
        0 <= i < js.len() ==> match #[trigger] js[i] {
            Join::Inner { join_table, col1, col2 } => name_clean(join_table@) && qcol_clean(col1)
                && qcol_clean(col2),
        }
}

/// An expression on which every `?` marker stands for a bound value: it
/// holds no unbound `Placeholder` slot, no `IN` list (whose inlined
/// literals are free-form text), and no `?` inside an identifier.
pub open spec fn expr_aligned(e: Expr) -> bool
    decreases expr_size(e), 0int,
{
    match e {
        Expr::Column(name) => name_clean(name@),
        Expr::Val(_) => true,
        Expr::Placeholder => false,
        Expr::Condition(c) => bool_aligned(*c),
    }
}

/// The condition-level side of [`expr_aligned`].
pub open spec fn bool_aligned(b: BoolExpr) -> bool
    decreases bool_size(b), 1int,
{
    match b {
        BoolExpr::True => true,
        BoolExpr::Eq(col, e) => name_clean(col@) && expr_aligned(e),
        BoolExpr::Ne(col, e) => name_clean(col@) && expr_aligned(e),
        BoolExpr::Lt(col, e) => name_clean(col@) && expr_aligned(e),
        BoolExpr::Gt(col, e) => name_clean(col@) && expr_aligned(e),
        BoolExpr::Ge(col, e) => name_clean(col@) && expr_aligned(e),
        BoolExpr::Le(col, e) => name_clean(col@) && expr_aligned(e),
        BoolExpr::Like(col, e) => name_clean(col@) && expr_aligned(e),
        BoolExpr::AllOf(conds) => all_aligned(conds@),
        BoolExpr::And(a, b2) => bool_aligned(*a) && bool_aligned(*b2),
        BoolExpr::Or(a, b2) => bool_aligned(*a) && bool_aligned(*b2),
        BoolExpr::Not(a) => bool_aligned(*a),
        BoolExpr::Subquery { col, tbl2, tbl2_col, expr } => name_clean(col@) && name_clean(tbl2@)
            && name_clean(tbl2_col@) && bool_aligned(*expr),
        BoolExpr::SubqueryJoin { col, tbl2, col2, joins, expr } => name_clean(col@) && name_clean(
            tbl2@,
        ) && qcol_clean(col2) && joins_clean(joins@) && bool_aligned(*expr),
        BoolExpr::In(_, _) => false,
    }
}

/// The list side of [`bool_aligned`].
pub open spec fn all_aligned(cs: Seq<BoolExpr>) -> bool
    decreases bool_list_size(cs), 3int,
{
    if cs.len() == 0 {
        true
    } else {
        all_aligned(cs.drop_last()) && bool_aligned(cs.last())
    }
}

proof fn lemma_qcol_no_qmark(c: crate::query::Column)
    requires
        qcol_clean(c),
    ensures
        count_char(qcol_sql(c), '?') == 0,
{
    match c.table {
        Some(t) => {
            reveal_strlit(".");
            assert(forall|i: int| 0 <= i < "."@.len() ==> "."@[i] != '?');
            lemma_count_absent("."@, '?');
            lemma_count_concat(t@, "."@, '?');
            lemma_count_concat(t@ + "."@, c.name@, '?');
        },
        None => {},
    }
}

proof fn lemma_joins_no_qmark(js: Seq<Join>)
    requires
        joins_clean(js),
    ensures
        count_char(joins_sql(js), '?') == 0,
    decreases js.len(),
{
    if js.len() > 0 {
        assert(joins_clean(js.drop_last()));
        lemma_joins_no_qmark(js.drop_last());
        match js.last() {
            Join::Inner { join_table, col1, col2 } => {
                reveal_strlit("INNER JOIN ");
                reveal_strlit(" ON ");
                reveal_strlit(" = ");
                assert(forall|i: int|
                    0 <= i < "INNER JOIN "@.len() ==> "INNER JOIN "@[i] != '?');
                assert(forall|i: int| 0 <= i < " ON "@.len() ==> " ON "@[i] != '?');
                assert(forall|i: int| 0 <= i < " = "@.len() ==> " = "@[i] != '?');
                lemma_count_absent("INNER JOIN "@, '?');
                lemma_count_absent(" ON "@, '?');
                lemma_count_absent(" = "@, '?');
                lemma_qcol_no_qmark(col1);
                lemma_qcol_no_qmark(col2);
                let a = "INNER JOIN "@;
                let b = join_table@;
                let c = " ON "@;
                let d = qcol_sql(col1);
                let e = " = "@;
                let f = qcol_sql(col2);
                lemma_count_concat(a, b, '?');
                lemma_count_concat(a + b, c, '?');
                lemma_count_concat(a + b + c, d, '?');
                lemma_count_concat(a + b + c + d, e, '?');
                lemma_count_concat(a + b + c + d + e, f, '?');
                lemma_count_concat(joins_sql(js.drop_last()), a + b + c + d + e + f, '?');
            },
        }
    }
}

proof fn lemma_count_qmark_lit()
    ensures
        count_char("?"@, '?') == 1,
{
    reveal_strlit("?");
    reveal_with_fuel(count_char, 3);
    assert("?"@.drop_last() =~= Seq::<char>::empty());
    assert("?"@.last() == '?');
}

proof fn lemma_cmp_alignment(col: &'static str, op: Seq<char>, e: Expr)
    requires
        name_clean(col@),
        expr_aligned(e),
        count_char(op, '?') == 0,
    ensures
        count_char(col@ + op + expr_sql(e), '?') == expr_vals(e).len(),
    decreases expr_size(e), 1int,
{
    lemma_expr_alignment(e);
    lemma_count_concat(col@, op, '?');
    lemma_count_concat(col@ + op, expr_sql(e), '?');
}

/// Placeholder/parameter alignment, expression side: see
/// [`lemma_placeholder_alignment`].
proof fn lemma_expr_alignment(e: Expr)
    requires
        expr_aligned(e),
    ensures
        count_char(expr_sql(e), '?') == expr_vals(e).len(),
    decreases expr_size(e), 0int,
{
    match e {
        Expr::Column(_) => {},
        Expr::Val(_) => {
            lemma_count_qmark_lit();
        },
        Expr::Placeholder => {},
        Expr::Condition(c) => {
            lemma_bool_paren_alignment(*c, 1);
        },
    }
}

proof fn lemma_bool_paren_alignment(b: BoolExpr, min_prec: int)
    requires
        bool_aligned(b),
    ensures
        count_char(bool_sql_paren(b, min_prec), '?') == bool_vals(b).len(),
    decreases bool_size(b), 2int,
{
    lemma_bool_alignment(b);
    if bool_prec(b) < min_prec {
        reveal_strlit("(");
        reveal_strlit(")");
        assert(forall|i: int| 0 <= i < "("@.len() ==> "("@[i] != '?');
        assert(forall|i: int| 0 <= i < ")"@.len() ==> ")"@[i] != '?');
        lemma_count_absent("("@, '?');
        lemma_count_absent(")"@, '?');
        lemma_count_concat("("@, bool_sql(b), '?');
        lemma_count_concat("("@ + bool_sql(b), ")"@, '?');
    }
}

#[verifier::rlimit(100)]
proof fn lemma_bool_alignment(b: BoolExpr)
    requires
        bool_aligned(b),
    ensures
        count_char(bool_sql(b), '?') == bool_vals(b).len(),
    decreases bool_size(b), 1int,
{
    match b {
        BoolExpr::True => {
            reveal_strlit("TRUE");
            assert(forall|i: int| 0 <= i < "TRUE"@.len() ==> "TRUE"@[i] != '?');
            lemma_count_absent("TRUE"@, '?');
        },
        BoolExpr::Eq(col, e) => {
            if is_null_val(e) {
                reveal_strlit(" IS NULL");
                assert(forall|i: int| 0 <= i < " IS NULL"@.len() ==> " IS NULL"@[i] != '?');
                lemma_count_absent(" IS NULL"@, '?');
                lemma_count_concat(col@, " IS NULL"@, '?');
            } else {
                reveal_strlit(" = ");
                assert(forall|i: int| 0 <= i < " = "@.len() ==> " = "@[i] != '?');
                lemma_count_absent(" = "@, '?');
                lemma_cmp_alignment(col, " = "@, e);
            }
        },
        BoolExpr::Ne(col, e) => {
            if is_null_val(e) {
                reveal_strlit(" IS NOT NULL");
                assert(forall|i: int|
                    0 <= i < " IS NOT NULL"@.len() ==> " IS NOT NULL"@[i] != '?');
                lemma_count_absent(" IS NOT NULL"@, '?');
                lemma_count_concat(col@, " IS NOT NULL"@, '?');
            } else {
                reveal_strlit(" <> ");
                assert(forall|i: int| 0 <= i < " <> "@.len() ==> " <> "@[i] != '?');
                lemma_count_absent(" <> "@, '?');
                lemma_cmp_alignment(col, " <> "@, e);
            }
        },
        BoolExpr::Lt(col, e) => {
            reveal_strlit(" < ");
            assert(forall|i: int| 0 <= i < " < "@.len() ==> " < "@[i] != '?');
            lemma_count_absent(" < "@, '?');
            lemma_cmp_alignment(col, " < "@, e);
        },
        BoolExpr::Gt(col, e) => {
            reveal_strlit(" > ");
            assert(forall|i: int| 0 <= i < " > "@.len() ==> " > "@[i] != '?');
            lemma_count_absent(" > "@, '?');
            lemma_cmp_alignment(col, " > "@, e);
        },
        BoolExpr::Ge(col, e) => {
            reveal_strlit(" >= ");
            assert(forall|i: int| 0 <= i < " >= "@.len() ==> " >= "@[i] != '?');
            lemma_count_absent(" >= "@, '?');
            lemma_cmp_alignment(col, " >= "@, e);
        },
        BoolExpr::Le(col, e) => {
            reveal_strlit(" <= ");
            assert(forall|i: int| 0 <= i < " <= "@.len() ==> " <= "@[i] != '?');
            lemma_count_absent(" <= "@, '?');
            lemma_cmp_alignment(col, " <= "@, e);
        },
        BoolExpr::Like(col, e) => {
            reveal_strlit(" like ");
            assert(forall|i: int| 0 <= i < " like "@.len() ==> " like "@[i] != '?');
            lemma_count_absent(" like "@, '?');
            lemma_cmp_alignment(col, " like "@, e);
        },
        BoolExpr::AllOf(conds) => {
            lemma_all_of_alignment(conds@);
        },
        BoolExpr::And(a, b2) => {
            lemma_bool_paren_alignment(*a, 2);
            lemma_bool_paren_alignment(*b2, 2);
            reveal_strlit(" AND ");
            assert(forall|i: int| 0 <= i < " AND "@.len() ==> " AND "@[i] != '?');
            lemma_count_absent(" AND "@, '?');
            lemma_count_concat(bool_sql_paren(*a, 2), " AND "@, '?');
            lemma_count_concat(bool_sql_paren(*a, 2) + " AND "@, bool_sql_paren(*b2, 2), '?');
        },
        BoolExpr::Or(a, b2) => {
            lemma_bool_paren_alignment(*a, 1);
            lemma_bool_paren_alignment(*b2, 1);
            reveal_strlit(" OR ");
            assert(forall|i: int| 0 <= i < " OR "@.len() ==> " OR "@[i] != '?');
            lemma_count_absent(" OR "@, '?');
            lemma_count_concat(bool_sql_paren(*a, 1), " OR "@, '?');
            lemma_count_concat(bool_sql_paren(*a, 1) + " OR "@, bool_sql_paren(*b2, 1), '?');
        },
        BoolExpr::Not(a) => {
            lemma_bool_paren_alignment(*a, 3);
            reveal_strlit("NOT ");
            assert(forall|i: int| 0 <= i < "NOT "@.len() ==> "NOT "@[i] != '?');
            lemma_count_absent("NOT "@, '?');
            lemma_count_concat("NOT "@, bool_sql_paren(*a, 3), '?');
        },
        BoolExpr::Subquery { col, tbl2, tbl2_col, expr } => {
            lemma_bool_paren_alignment(*expr, 1);
            reveal_strlit(" IN (SELECT ");
            reveal_strlit(" FROM ");
            reveal_strlit(" WHERE ");
            reveal_strlit(")");
            assert(forall|i: int|
                0 <= i < " IN (SELECT "@.len() ==> " IN (SELECT "@[i] != '?');
            assert(forall|i: int| 0 <= i < " FROM "@.len() ==> " FROM "@[i] != '?');
            assert(forall|i: int| 0 <= i < " WHERE "@.len() ==> " WHERE "@[i] != '?');
            assert(forall|i: int| 0 <= i < ")"@.len() ==> ")"@[i] != '?');
            lemma_count_absent(" IN (SELECT "@, '?');
            lemma_count_absent(" FROM "@, '?');
            lemma_count_absent(" WHERE "@, '?');
            lemma_count_absent(")"@, '?');
            let t1 = col@ + " IN (SELECT "@;
            let t2 = t1 + tbl2_col@;
            let t3 = t2 + " FROM "@;
            let t4 = t3 + tbl2@;
            let t5 = t4 + " WHERE "@;
            let t6 = t5 + bool_sql_paren(*expr, 1);
            lemma_count_concat(col@, " IN (SELECT "@, '?');
            lemma_count_concat(t1, tbl2_col@, '?');
            lemma_count_concat(t2, " FROM "@, '?');
            lemma_count_concat(t3, tbl2@, '?');
            lemma_count_concat(t4, " WHERE "@, '?');
            lemma_count_concat(t5, bool_sql_paren(*expr, 1), '?');
            lemma_count_concat(t6, ")"@, '?');
        },
        BoolExpr::SubqueryJoin { col, tbl2, col2, joins, expr } => {
            lemma_bool_paren_alignment(*expr, 1);
            lemma_qcol_no_qmark(col2);
            lemma_joins_no_qmark(joins@);
            reveal_strlit(" IN (SELECT ");
            reveal_strlit(" FROM ");
            reveal_strlit(" WHERE ");
            reveal_strlit(" ");
            reveal_strlit(")");
            assert(forall|i: int|
                0 <= i < " IN (SELECT "@.len() ==> " IN (SELECT "@[i] != '?');
            assert(forall|i: int| 0 <= i < " FROM "@.len() ==> " FROM "@[i] != '?');
            assert(forall|i: int| 0 <= i < " WHERE "@.len() ==> " WHERE "@[i] != '?');
            assert(forall|i: int| 0 <= i < " "@.len() ==> " "@[i] != '?');
            assert(forall|i: int| 0 <= i < ")"@.len() ==> ")"@[i] != '?');
            lemma_count_absent(" IN (SELECT "@, '?');
            lemma_count_absent(" FROM "@, '?');
            lemma_count_absent(" WHERE "@, '?');
            lemma_count_absent(" "@, '?');
            lemma_count_absent(")"@, '?');
            let t1 = col@ + " IN (SELECT "@;
            let t2 = t1 + qcol_sql(col2);
            let t3 = t2 + " FROM "@;
            let t4 = t3 + tbl2@;
            let t5 = t4 + " "@;
            let t6 = t5 + joins_sql(joins@);
            let t7 = t6 + " WHERE "@;
            let t8 = t7 + bool_sql_paren(*expr, 1);
            lemma_count_concat(col@, " IN (SELECT "@, '?');
            lemma_count_concat(t1, qcol_sql(col2), '?');
            lemma_count_concat(t2, " FROM "@, '?');
            lemma_count_concat(t3, tbl2@, '?');
            lemma_count_concat(t4, " "@, '?');
            lemma_count_concat(t5, joins_sql(joins@), '?');
            lemma_count_concat(t6, " WHERE "@, '?');
            lemma_count_concat(t7, bool_sql_paren(*expr, 1), '?');
            lemma_count_concat(t8, ")"@, '?');
        },
        BoolExpr::In(_, _) => {},
    }
}

proof fn lemma_all_of_alignment(cs: Seq<BoolExpr>)
    requires
        all_aligned(cs),
    ensures
        count_char(all_of_sql(cs), '?') == all_of_vals(cs).len(),
    decreases bool_list_size(cs), 3int,
{
    if cs.len() == 0 {
    } else if cs.len() == 1 {
        lemma_bool_paren_alignment(cs.last(), 2);
        assert(all_of_vals(cs) =~= all_of_vals(cs.drop_last()) + bool_vals(cs.last()));
    } else {
        lemma_all_of_alignment(cs.drop_last());
        lemma_bool_paren_alignment(cs.last(), 2);
        reveal_strlit(" AND ");
        assert(forall|i: int| 0 <= i < " AND "@.len() ==> " AND "@[i] != '?');
        lemma_count_absent(" AND "@, '?');
        lemma_count_concat(all_of_sql(cs.drop_last()), " AND "@, '?');
        lemma_count_concat(
            all_of_sql(cs.drop_last()) + " AND "@,
            bool_sql_paren(cs.last(), 2),
            '?',
        );
    }
}

/// Placeholder/parameter alignment: on an expression with no unbound
/// placeholder slot, no `IN` list and no `?` character inside an
/// identifier, the number of `?` markers in the emitted SQL text equals
/// the length of the emitted parameter list.
pub proof fn lemma_placeholder_alignment(e: Expr)
    requires
        expr_aligned(e),
    ensures
        count_char(expr_sql(e), '?') == expr_vals(e).len(),
{
    lemma_expr_alignment(e);
}

/// Null-equality rewrite: equality against a bound `Null` always renders
/// as `IS NULL` (and inequality as `IS NOT NULL`), binding nothing, and
/// never as a `?` placeholder comparison; against anything else, `=` and
/// `<>` render with the compiled right side.
pub proof fn lemma_null_equality_rewrite(col: &'static str, e: Expr)
    ensures
        bool_sql(BoolExpr::Eq(col, Expr::Val(SqlVal::Null))) == col@ + " IS NULL"@,
        bool_vals(BoolExpr::Eq(col, Expr::Val(SqlVal::Null))) == Seq::<SqlVal>::empty(),
        bool_sql(BoolExpr::Ne(col, Expr::Val(SqlVal::Null))) == col@ + " IS NOT NULL"@,
        bool_vals(BoolExpr::Ne(col, Expr::Val(SqlVal::Null))) == Seq::<SqlVal>::empty(),
        !is_null_val(e) ==> bool_sql(BoolExpr::Eq(col, e)) == col@ + " = "@ + expr_sql(e),
        !is_null_val(e) ==> bool_sql(BoolExpr::Ne(col, e)) == col@ + " <> "@ + expr_sql(e),
{
}

/// `AllOf` chaining: three conditions render as the three compiled items
/// with exactly one ` AND ` separator between consecutive items, and one
/// condition renders with no separator at all; the bound values
/// concatenate in item order.
pub proof fn lemma_all_of_chain(a: BoolExpr, b: BoolExpr, c: BoolExpr)
    ensures
        all_of_sql(seq![a, b, c]) == bool_sql_paren(a, 2) + " AND "@ + bool_sql_paren(b, 2)
            + " AND "@ + bool_sql_paren(c, 2),
        all_of_vals(seq![a, b, c]) == bool_vals(a) + bool_vals(b) + bool_vals(c),
        all_of_sql(seq![a]) == bool_sql_paren(a, 2),
        all_of_vals(seq![a]) == bool_vals(a),
{
    reveal_with_fuel(all_of_sql, 4);
    reveal_with_fuel(all_of_vals, 4);
    let s3 = seq![a, b, c];
    let s2 = seq![a, b];
    let s1 = seq![a];
    assert(s3.drop_last() =~= s2);
    assert(s2.drop_last() =~= s1);
    assert(s1.drop_last() =~= Seq::<BoolExpr>::empty());
    assert(all_of_vals(s1) =~= bool_vals(a));
    assert(all_of_vals(s2) =~= bool_vals(a) + bool_vals(b));
    assert(all_of_vals(s3) =~= bool_vals(a) + bool_vals(b) + bool_vals(c));
}

/// In-list literal inlining: an `IN` condition renders its values as
/// inline literals inside the parentheses and adds nothing to the
/// parameter list.
pub proof fn lemma_in_list_inlined(col: &'static str, vals: Vec<SqlVal>)
    ensures
        bool_sql(BoolExpr::In(col, vals)) == col@ + " IN ("@ + in_list_sql(vals.deep_view())
            + ")"@,
        bool_vals(BoolExpr::In(col, vals)) == Seq::<SqlVal>::empty(),
{
}

} // verus!
