//! The tagged value type (`SqlVal`) and the column-type tag (`SqlType`)
//! consumed by every other component of the crate.

use vstd::prelude::*;

verus! {

/// Mathematical model of a [`SqlVal`]: the same tags over abstract payloads.
pub ghost enum SqlValM {
    Null,
    Bool(bool),
    Int(int),
    BigInt(int),
    Real(Seq<char>),
    Text(Seq<char>),
    Blob(Seq<u8>),
    Timestamp(int, int),
}

/// A database-representable value. Exactly one tag is active at a time;
/// `Null` carries no payload and is distinct from every other tag,
/// including empty `Text` and `Blob`.
///
/// `Real` holds the decimal text of the floating value (for example `"0"`
/// or `"2.5"`), which is all the renderer ever reads of it. `Timestamp`
/// holds whole seconds since the Unix epoch and the subsecond nanoseconds.
#[derive(Debug, PartialEq)]
pub enum SqlVal {
    Null,
    Bool(bool),
    Int(i64),
    BigInt(i64),
    Real(String),
    Text(String),
    Blob(Vec<u8>),
    Timestamp(i64, u32),
}

impl View for SqlVal {
    type V = SqlValM;

    open spec fn view(&self) -> SqlValM {
        match self {
            SqlVal::Null => SqlValM::Null,
            SqlVal::Bool(b) => SqlValM::Bool(*b),
            SqlVal::Int(n) => SqlValM::Int(*n as int),
            SqlVal::BigInt(n) => SqlValM::BigInt(*n as int),
            SqlVal::Real(t) => SqlValM::Real(t@),
            SqlVal::Text(t) => SqlValM::Text(t@),
            SqlVal::Blob(b) => SqlValM::Blob(b@),
            SqlVal::Timestamp(s, n) => SqlValM::Timestamp(*s as int, *n as int),
        }
    }
}

impl DeepView for SqlVal {
    type V = SqlValM;

    open spec fn deep_view(&self) -> SqlValM {
        self.view()
    }
}

/// Timestamps the literal renderer accepts: seconds from year 0 to year
/// 9999 inclusive, nanoseconds below one second.
pub open spec fn timestamp_in_range(secs: int, nanos: int) -> bool {
    &&& -62167219200 <= secs <= 253402300799
    &&& 0 <= nanos < 1000000000
}

/// A value the literal renderer accepts: every tag unconditionally, except
/// that a timestamp must lie in [`timestamp_in_range`].
pub open spec fn val_wf(v: SqlValM) -> bool {
    match v {
        SqlValM::Timestamp(secs, nanos) => timestamp_in_range(secs, nanos),
        _ => true,
    }
}

impl Clone for SqlVal {
    /// The clone denotes the same abstract value.
    fn clone(&self) -> (r: Self)
        ensures
            r@ == self@,
    {
        match self {
            SqlVal::Null => SqlVal::Null,
            SqlVal::Bool(b) => SqlVal::Bool(*b),
            SqlVal::Int(n) => SqlVal::Int(*n),
            SqlVal::BigInt(n) => SqlVal::BigInt(*n),
            SqlVal::Real(t) => SqlVal::Real(t.clone()),
            SqlVal::Text(t) => SqlVal::Text(t.clone()),
            SqlVal::Blob(b) => SqlVal::Blob(clone_bytes(b)),
            SqlVal::Timestamp(s, n) => SqlVal::Timestamp(*s, *n),
        }
    }
}

/// Clones a byte vector, keeping its abstract contents.
fn clone_bytes(b: &Vec<u8>) -> (r: Vec<u8>)
    ensures
        r@ == b@,
{
    let mut r: Vec<u8> = Vec::new();
    let mut i: usize = 0;
    while i < b.len()
        invariant
            i <= b.len(),
            r@ == b@.subrange(0, i as int),
        decreases b.len() - i,
    {
        r.push(b[i]);
        i = i + 1;
        proof {
            assert(r@ =~= b@.subrange(0, i as int));
        }
    }
    proof {
        assert(r@ =~= b@);
    }
    r
}

/// A column's declared domain: the tags of [`SqlVal`] minus `Null`
/// (a type describes a domain, not a particular value).
#[derive(Clone, Copy, Debug, PartialEq, Eq, Structural)]
pub enum SqlType {
    Bool,
    Int,
    BigInt,
    Real,
    Text,
    Blob,
    Timestamp,
}

} // verus!
