//! The query expression AST: conditions, columns, values, placeholders and
//! boolean combinators, together with the join descriptor.

use crate::values::{val_wf, SqlVal};
use vstd::prelude::*;

verus! {

/// A qualified column reference: an optional table qualifier and the
/// column's name.
#[derive(Clone, Copy, Debug, PartialEq)]
pub struct Column {
    pub table: Option<&'static str>,
    pub name: &'static str,
}

impl Column {
    pub fn new(table: Option<&'static str>, name: &'static str) -> (r: Column)
        ensures
            r.table == table,
            r.name == name,
    {
        Column { table, name }
    }

    pub fn table(&self) -> (r: Option<&'static str>)
        ensures
            r == self.table,
    {
        self.table
    }

    pub fn name(&self) -> (r: &'static str)
        ensures
            r == self.name,
    {
        self.name
    }
}

/// How two tables are connected: currently only an inner join on a column
/// pair.
#[derive(Clone, Copy, Debug, PartialEq)]
pub enum Join {
    Inner { join_table: &'static str, col1: Column, col2: Column },
}

/// A query expression: a bare column reference, a value to bind, an
/// unbound placeholder slot, or a wrapped boolean condition. Each node
/// owns its children outright.
#[derive(Debug, PartialEq)]
pub enum Expr {
    Column(&'static str),
    Val(SqlVal),
    Placeholder,
    Condition(Box<BoolExpr>),
}

/// A boolean condition over columns and expressions. Every comparison's
/// left side is a bare column name, never a computed expression.
#[derive(Debug, PartialEq)]
pub enum BoolExpr {
    True,
    Eq(&'static str, Expr),
    Ne(&'static str, Expr),
    Lt(&'static str, Expr),
    Gt(&'static str, Expr),
    Ge(&'static str, Expr),
    Le(&'static str, Expr),
    Like(&'static str, Expr),
    AllOf(Vec<BoolExpr>),
    And(Box<BoolExpr>, Box<BoolExpr>),
    Or(Box<BoolExpr>, Box<BoolExpr>),
    Not(Box<BoolExpr>),
    Subquery { col: &'static str, tbl2: &'static str, tbl2_col: &'static str, expr: Box<BoolExpr> },
    SubqueryJoin {
        col: &'static str,
        tbl2: &'static str,
        col2: Column,
        joins: Vec<Join>,
        expr: Box<BoolExpr>,
    },
    In(&'static str, Vec<SqlVal>),
}

/// The number of nodes of an expression (at least one). Serves as the
/// termination measure of the compiler's recursion.
pub open spec fn expr_size(e: Expr) -> nat
    decreases e,
{
    match e {
        Expr::Condition(c) => 1 + bool_size(*c),
        _ => 1,
    }
}

/// The number of nodes of a condition (at least one).
pub open spec fn bool_size(b: BoolExpr) -> nat
    decreases b,
{
    match b {
        BoolExpr::True => 1,
        BoolExpr::Eq(_, e) => 1 + expr_size(e),
        BoolExpr::Ne(_, e) => 1 + expr_size(e),
        BoolExpr::Lt(_, e) => 1 + expr_size(e),
        BoolExpr::Gt(_, e) => 1 + expr_size(e),
        BoolExpr::Ge(_, e) => 1 + expr_size(e),
        BoolExpr::Le(_, e) => 1 + expr_size(e),
        BoolExpr::Like(_, e) => 1 + expr_size(e),
        BoolExpr::AllOf(conds) => 1 + bool_list_size(conds@),
        BoolExpr::And(a, b) => 1 + bool_size(*a) + bool_size(*b),
        BoolExpr::Or(a, b) => 1 + bool_size(*a) + bool_size(*b),
        BoolExpr::Not(a) => 1 + bool_size(*a),
        BoolExpr::Subquery { expr, .. } => 1 + bool_size(*expr),
        BoolExpr::SubqueryJoin { expr, .. } => 1 + bool_size(*expr),
        BoolExpr::In(_, _) => 1,
    }
}

/// The summed size of a list of conditions.
pub open spec fn bool_list_size(cs: Seq<BoolExpr>) -> nat
    decreases cs,
{
    if cs.len() == 0 {
        0
    } else {
        1 + bool_list_size(cs.drop_last()) + bool_size(cs.last())
    }
}

/// Every value of the list is one the literal renderer accepts.
pub open spec fn val_list_wf(vs: Seq<SqlVal>) -> bool {
    forall|i: int| 0 <= i < vs.len() ==> val_wf(#[trigger] vs[i]@)
}

/// A well-formed expression: every `In` list it contains holds only values
/// the literal renderer accepts.
pub open spec fn expr_wf(e: Expr) -> bool
    decreases e,
{
    match e {
        Expr::Condition(c) => bool_wf(*c),
        _ => true,
    }
}

/// A well-formed condition: every `In` list it contains holds only values
/// the literal renderer accepts.
pub open spec fn bool_wf(b: BoolExpr) -> bool
    decreases b,
{
    match b {
        BoolExpr::True => true,
        BoolExpr::Eq(_, e) => expr_wf(e),
        BoolExpr::Ne(_, e) => expr_wf(e),
        BoolExpr::Lt(_, e) => expr_wf(e),
        BoolExpr::Gt(_, e) => expr_wf(e),
        BoolExpr::Ge(_, e) => expr_wf(e),
        BoolExpr::Le(_, e) => expr_wf(e),
        BoolExpr::Like(_, e) => expr_wf(e),
        BoolExpr::AllOf(conds) => bool_list_wf(conds@),
        BoolExpr::And(a, b) => bool_wf(*a) && bool_wf(*b),
        BoolExpr::Or(a, b) => bool_wf(*a) && bool_wf(*b),
        BoolExpr::Not(a) => bool_wf(*a),
        BoolExpr::Subquery { expr, .. } => bool_wf(*expr),
        BoolExpr::SubqueryJoin { expr, .. } => bool_wf(*expr),
        BoolExpr::In(_, vals) => val_list_wf(vals@),
    }
}

/// Every condition of the list is well-formed.
pub open spec fn bool_list_wf(cs: Seq<BoolExpr>) -> bool
    decreases cs,
{
    if cs.len() == 0 {
        true
    } else {
        bool_list_wf(cs.drop_last()) && bool_wf(cs.last())
    }
}

} // verus!
