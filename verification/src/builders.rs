//! Statement builders: stateless functions assembling complete
//! `SELECT`/`INSERT`/`UPDATE` statement skeletons around a compiled
//! `WHERE` expression. Table and column names come from schema metadata
//! already validated by the caller; none of these functions inspects them.

use crate::render::{dec_int_text, push_i64_decimal};
use vstd::prelude::*;

verus! {

/// A runtime column handle: a stable, process-lifetime name string.
#[derive(Clone, Copy, Debug, PartialEq)]
pub struct Column {
    pub name: &'static str,
}

impl Column {
    pub fn new(name: &'static str) -> (r: Column)
        ensures
            r.name == name,
    {
        Column { name }
    }

    pub fn name(&self) -> (r: &'static str)
        ensures
            r == self.name,
    {
        self.name
    }

    /// The column's name text.
    pub open spec fn spec_name(self) -> Seq<char> {
        self.name@
    }
}

/// The comma-separated column list: names joined with `,` and no spaces.
pub open spec fn columns_text(cols: Seq<Column>) -> Seq<char>
    decreases cols.len(),
{
    if cols.len() == 0 {
        Seq::empty()
    } else if cols.len() == 1 {
        cols.last().spec_name()
    } else {
        columns_text(cols.drop_last()) + ","@ + cols.last().spec_name()
    }
}

/// `n` placeholder markers joined with `, `.
pub open spec fn placeholders_text(n: nat) -> Seq<char>
    decreases n,
{
    if n == 0 {
        Seq::empty()
    } else if n == 1 {
        "?"@
    } else {
        placeholders_text((n - 1) as nat) + ", ?"@
    }
}

/// The `SET` clause list: `name = ?` for each column, joined with `, `.
pub open spec fn set_clauses_text(cols: Seq<Column>) -> Seq<char>
    decreases cols.len(),
{
    if cols.len() == 0 {
        Seq::empty()
    } else if cols.len() == 1 {
        cols.last().spec_name() + " = ?"@
    } else {
        set_clauses_text(cols.drop_last()) + ", "@ + cols.last().spec_name() + " = ?"@
    }
}

/// Writes the comma-separated column list.
fn list_columns(columns: &Vec<Column>, w: &mut String)
    ensures
        final(w)@ == old(w)@ + columns_text(columns@),
{
    let mut i: usize = 0;
    proof {
        assert(columns@.take(0) =~= Seq::<Column>::empty());
        assert(w@ =~= old(w)@ + columns_text(columns@.take(0)));
    }
    while i < columns.len()
        invariant
            i <= columns.len(),
            w@ == old(w)@ + columns_text(columns@.take(i as int)),
        decreases columns.len() - i,
    {
        if i > 0 {
            w.append(",");
        }
        w.append(columns[i].name());
        proof {
            let t1 = columns@.take(i + 1);
            assert(t1.drop_last() =~= columns@.take(i as int));
            assert(t1.last() == columns@[i as int]);
            assert(w@ =~= old(w)@ + columns_text(t1));
        }
        i = i + 1;
    }
    proof {
        assert(columns@.take(columns@.len() as int) =~= columns@);
    }
}

/// The text `sql_select` emits.
pub open spec fn select_sql(cols: Seq<Column>, table: Seq<char>) -> Seq<char> {
    "SELECT "@ + columns_text(cols) + " FROM "@ + table
}

/// Emits `SELECT <columns> FROM <table>`; the caller appends `WHERE` and
/// `LIMIT` clauses separately.
pub fn sql_select(columns: &Vec<Column>, table: &'static str, w: &mut String)
    ensures
        final(w)@ == old(w)@ + select_sql(columns@, table@),
{
    w.append("SELECT ");
    list_columns(columns, w);
    w.append(" FROM ");
    w.append(table);
    proof {
        assert(w@ =~= old(w)@ + select_sql(columns@, table@));
    }
}

/// The text `sql_insert_with_placeholders` emits.
pub open spec fn insert_sql(table: Seq<char>, cols: Seq<Column>, allow_replace: bool) -> Seq<
    char,
> {
    "INSERT "@ + (if allow_replace {
        "OR REPLACE "@
    } else {
        Seq::empty()
    }) + "INTO "@ + table + " ("@ + columns_text(cols) + ") VALUES ("@ + placeholders_text(
        cols.len(),
    ) + ")"@
}

/// Emits `INSERT [OR REPLACE] INTO <table> (<columns>) VALUES (<one ? per
/// column>)`. The replace flag expresses upsert-by-replace.
pub fn sql_insert_with_placeholders(
    table: &'static str,
    columns: &Vec<Column>,
    allow_replace: bool,
    w: &mut String,
)
    ensures
        final(w)@ == old(w)@ + insert_sql(table@, columns@, allow_replace),
{
    w.append("INSERT ");
    if allow_replace {
        w.append("OR REPLACE ");
    }
    w.append("INTO ");
    w.append(table);
    w.append(" (");
    list_columns(columns, w);
    w.append(") VALUES (");
    let ghost mid = w@;
    let mut i: usize = 0;
    while i < columns.len()
        invariant
            i <= columns@.len(),
            w@ == mid + placeholders_text(i as nat),
        decreases columns.len() - i,
    {
        if i > 0 {
            w.append(", ");
        }
        w.append("?");
        proof {
            reveal_strlit(", ");
            reveal_strlit("?");
            reveal_strlit(", ?");
            assert(w@ =~= mid + placeholders_text((i + 1) as nat));
        }
        i = i + 1;
    }
    w.append(")");
    proof {
        assert(w@ =~= old(w)@ + insert_sql(table@, columns@, allow_replace));
    }
}

/// The text `sql_update_with_placeholders` emits.
pub open spec fn update_sql(table: Seq<char>, pkcol: Column, cols: Seq<Column>) -> Seq<char> {
    "UPDATE "@ + table + " SET "@ + set_clauses_text(cols) + " WHERE "@ + pkcol.spec_name()
        + " = ?"@
}

/// Emits `UPDATE <table> SET c1 = ?, c2 = ?, ... WHERE <pkcol> = ?`; the
/// primary-key placeholder is always last.
pub fn sql_update_with_placeholders(
    table: &'static str,
    pkcol: Column,
    columns: &Vec<Column>,
    w: &mut String,
)
    ensures
        final(w)@ == old(w)@ + update_sql(table@, pkcol, columns@),
{
    w.append("UPDATE ");
    w.append(table);
    w.append(" SET ");
    let ghost mid = w@;
    let mut i: usize = 0;
    while i < columns.len()
        invariant
            i <= columns@.len(),
            w@ == mid + set_clauses_text(columns@.take(i as int)),
        decreases columns.len() - i,
    {
        if i > 0 {
            w.append(", ");
        }
        w.append(columns[i].name());
        w.append(" = ?");
        proof {
            let t1 = columns@.take(i + 1);
            assert(t1.drop_last() =~= columns@.take(i as int));
            assert(t1.last() == columns@[i as int]);
            assert(w@ =~= mid + set_clauses_text(t1));
        }
        i = i + 1;
    }
    w.append(" WHERE ");
    w.append(pkcol.name());
    w.append(" = ?");
    proof {
        assert(columns@.take(columns@.len() as int) =~= columns@);
        assert(w@ =~= old(w)@ + update_sql(table@, pkcol, columns@));
    }
}

/// Emits ` LIMIT <n>`.
pub fn sql_limit(limit: i32, w: &mut String)
    ensures
        final(w)@ == old(w)@ + " LIMIT "@ + dec_int_text(limit as int),
{
    w.append(" LIMIT ");
    push_i64_decimal(limit as i64, w);
    proof {
        assert(w@ =~= old(w)@ + " LIMIT "@ + dec_int_text(limit as int));
    }
}

} // verus!
