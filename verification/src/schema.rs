//! The default/literal resolver: turning an abstract column descriptor into
//! a concrete default value, and rendering a value as an inline SQL literal.

use crate::render::{
    dec_int_text, escaped_quotes, format_timestamp, hex_encode_upper, hex_upper, push_escaped,
    push_i64_decimal, timestamp_text,
};
use crate::values::{val_wf, SqlType, SqlVal, SqlValM};
use vstd::prelude::*;

verus! {

/// The failure a default resolution can report: the column's declared type
/// cannot be determined.
#[derive(Clone, Copy, Debug, PartialEq, Eq, Structural)]
pub enum Error {
    TypeUnresolved,
}

/// Schema-time column descriptor: nullability, an optional declared
/// default, and the declared type where it could be determined
/// (`typ == None` stands for an unresolved type).
#[derive(Clone, Debug, PartialEq)]
pub struct AColumn {
    pub nullable: bool,
    pub default: Option<SqlVal>,
    pub typ: Option<SqlType>,
}

impl AColumn {
    pub fn new(nullable: bool, default: Option<SqlVal>, typ: Option<SqlType>) -> (r: AColumn)
        ensures
            r.nullable == nullable,
            r.default == default,
            r.typ == typ,
    {
        AColumn { nullable, default, typ }
    }
}

/// The type-appropriate zero value: `false`, `0`, `0.0` (as text `"0"`),
/// the empty string, the empty byte sequence, or the Unix epoch.
pub open spec fn zero_val(t: SqlType) -> SqlValM {
    match t {
        SqlType::Bool => SqlValM::Bool(false),
        SqlType::Int => SqlValM::Int(0),
        SqlType::BigInt => SqlValM::Int(0),
        SqlType::Real => SqlValM::Real("0"@),
        SqlType::Text => SqlValM::Text(Seq::empty()),
        SqlType::Blob => SqlValM::Blob(Seq::empty()),
        SqlType::Timestamp => SqlValM::Timestamp(0, 0),
    }
}

/// What default resolution yields for `col`: the declared default if there
/// is one; else `Null` for a nullable column; else the type's zero value;
/// and nothing when the type is needed but unresolved.
pub open spec fn default_result(col: AColumn) -> Option<SqlValM> {
    match col.default {
        Some(d) => Some(d@),
        None => if col.nullable {
            Some(SqlValM::Null)
        } else {
            match col.typ {
                Some(t) => Some(zero_val(t)),
                None => None,
            }
        },
    }
}

/// Resolves the default value of `col`: its declared default first, then
/// `Null` if it is nullable, then its type's zero value; fails exactly when
/// the type would be needed but cannot be determined.
pub fn column_default(col: &AColumn) -> (r: Result<SqlVal, Error>)
    ensures
        match r {
            Ok(v) => default_result(*col) == Some(v@),
            Err(e) => default_result(*col) is None && e == Error::TypeUnresolved,
        },
{
    if let Some(val) = &col.default {
        return Ok(val.clone());
    }
    if col.nullable {
        return Ok(SqlVal::Null);
    }
    match col.typ {
        Some(SqlType::Bool) => Ok(SqlVal::Bool(false)),
        Some(SqlType::Int) => Ok(SqlVal::Int(0)),
        Some(SqlType::BigInt) => Ok(SqlVal::Int(0)),
        Some(SqlType::Real) => Ok(SqlVal::Real(String::from_str("0"))),
        Some(SqlType::Text) => Ok(SqlVal::Text(String::new())),
        Some(SqlType::Blob) => Ok(SqlVal::Blob(Vec::new())),
        Some(SqlType::Timestamp) => Ok(SqlVal::Timestamp(0, 0)),
        None => Err(Error::TypeUnresolved),
    }
}

/// The inline SQL literal for `v`: `NULL`; `true`/`false`; decimal text for
/// integers; the held decimal text for reals; the text in single quotes
/// with embedded quotes doubled; `x'..'` upper-case hex for blobs; the
/// fixed ISO-8601 rendering for timestamps.
pub open spec fn literal_text(v: SqlValM) -> Seq<char> {
    match v {
        SqlValM::Null => "NULL"@,
        SqlValM::Bool(b) => if b {
            "true"@
        } else {
            "false"@
        },
        SqlValM::Int(n) => dec_int_text(n),
        SqlValM::BigInt(n) => dec_int_text(n),
        SqlValM::Real(t) => t,
        SqlValM::Text(t) => "'"@ + escaped_quotes(t) + "'"@,
        SqlValM::Blob(b) => "x'"@ + hex_upper(b) + "'"@,
        SqlValM::Timestamp(secs, nanos) => timestamp_text(secs, nanos),
    }
}

/// Renders `val` as an inline SQL literal (used for `IN` lists and
/// anywhere placeholders are not applicable, such as migration DDL).
pub fn sql_literal_value(val: SqlVal) -> (r: String)
    requires
        val_wf(val@),
    ensures
        r@ == literal_text(val@),
{
    match val {
        SqlVal::Null => String::from_str("NULL"),
        SqlVal::Bool(b) => if b {
            String::from_str("true")
        } else {
            String::from_str("false")
        },
        SqlVal::Int(n) => {
            let mut w = String::new();
            push_i64_decimal(n, &mut w);
            w
        },
        SqlVal::BigInt(n) => {
            let mut w = String::new();
            push_i64_decimal(n, &mut w);
            w
        },
        SqlVal::Real(t) => t,
        SqlVal::Text(t) => {
            let mut w = String::new();
            w.append("'");
            push_escaped(t.as_str(), &mut w);
            w.append("'");
            proof {
                assert(w@ =~= literal_text(SqlValM::Text(t@)));
            }
            w
        },
        SqlVal::Blob(b) => {
            let mut w = String::from_str("x'");
            let h = hex_encode_upper(&b);
            w.append(h.as_str());
            w.append("'");
            proof {
                assert(w@ =~= literal_text(SqlValM::Blob(b@)));
            }
            w
        },
        SqlVal::Timestamp(secs, nanos) => format_timestamp(secs, nanos),
    }
}

} // verus!
