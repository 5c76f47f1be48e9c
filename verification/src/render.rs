//! Verified text-rendering primitives: decimal integers, quote escaping,
//! and the two outside calls (hex encoding, timestamp formatting) behind
//! trusted wrappers.

use vstd::prelude::*;

verus! {

/// The decimal digit character for `d` (meaningful for `0 <= d <= 9`).
pub open spec fn dec_digit(d: int) -> char {
    if d == 0 {
        '0'
    } else if d == 1 {
        '1'
    } else if d == 2 {
        '2'
    } else if d == 3 {
        '3'
    } else if d == 4 {
        '4'
    } else if d == 5 {
        '5'
    } else if d == 6 {
        '6'
    } else if d == 7 {
        '7'
    } else if d == 8 {
        '8'
    } else {
        '9'
    }
}

/// The decimal digits of `n`, most significant first, without sign.
pub open spec fn dec_digits(n: nat) -> Seq<char>
    decreases n,
{
    if n < 10 {
        seq![dec_digit(n as int)]
    } else {
        dec_digits(n / 10) + seq![dec_digit((n % 10) as int)]
    }
}

/// The decimal text of `n`: a `-` sign for negative values, then the digits.
pub open spec fn dec_int_text(n: int) -> Seq<char> {
    if n < 0 {
        seq!['-'] + dec_digits((-n) as nat)
    } else {
        dec_digits(n as nat)
    }
}

/// The single-character string slice for decimal digit `d`.
fn dec_digit_str(d: u64) -> (r: &'static str)
    requires
        d <= 9,
    ensures
        r@ == seq![dec_digit(d as int)],
{
    let r: &'static str = match d {
        0 => "0",
        1 => "1",
        2 => "2",
        3 => "3",
        4 => "4",
        5 => "5",
        6 => "6",
        7 => "7",
        8 => "8",
        _ => "9",
    };
    proof {
        reveal_strlit("0");
        reveal_strlit("1");
        reveal_strlit("2");
        reveal_strlit("3");
        reveal_strlit("4");
        reveal_strlit("5");
        reveal_strlit("6");
        reveal_strlit("7");
        reveal_strlit("8");
        reveal_strlit("9");
        assert(r@ =~= seq![dec_digit(d as int)]);
    }
    r
}

/// Appends the decimal digits of `n` to `w`.
pub fn push_u64_decimal(n: u64, w: &mut String)
    ensures
        final(w)@ == old(w)@ + dec_digits(n as nat),
    decreases n,
{
    if n < 10 {
        w.append(dec_digit_str(n));
    } else {
        push_u64_decimal(n / 10, w);
        w.append(dec_digit_str(n % 10));
        proof {
            assert(w@ =~= old(w)@ + dec_digits(n as nat));
        }
    }
}

/// Appends the decimal text of `n` to `w`.
pub fn push_i64_decimal(n: i64, w: &mut String)
    ensures
        final(w)@ == old(w)@ + dec_int_text(n as int),
{
    if n < 0 {
        w.append("-");
        let mag: u64 = (-(n as i128)) as u64;
        push_u64_decimal(mag, w);
        proof {
            reveal_strlit("-");
            assert(w@ =~= old(w)@ + dec_int_text(n as int));
        }
    } else {
        push_u64_decimal(n as u64, w);
    }
}

/// The text of `s` with every single-quote character doubled, as the SQL
/// string-literal quoting rule asks.
pub open spec fn escaped_quotes(s: Seq<char>) -> Seq<char>
    decreases s.len(),
{
    if s.len() == 0 {
        Seq::empty()
    } else if s[0] == '\'' {
        seq!['\'', '\''] + escaped_quotes(s.drop_first())
    } else {
        seq![s[0]] + escaped_quotes(s.drop_first())
    }
}

proof fn lemma_escaped_quotes_take(s: Seq<char>, i: int)
    requires
        0 <= i < s.len(),
    ensures
        escaped_quotes(s.take(i + 1)) == escaped_quotes(s.take(i)) + (if s[i] == '\'' {
            seq!['\'', '\'']
        } else {
            seq![s[i]]
        }),
    decreases i,
{
    let t1 = s.take(i + 1);
    let t0 = s.take(i);
    if i == 0 {
        assert(t1 =~= seq![s[0]]);
        assert(t0 =~= Seq::<char>::empty());
        if s[0] == '\'' {
            assert(escaped_quotes(t1) =~= seq!['\'', '\''] + escaped_quotes(t1.drop_first()));
            assert(t1.drop_first() =~= Seq::<char>::empty());
            assert(escaped_quotes(t1) =~= escaped_quotes(t0) + seq!['\'', '\'']);
        } else {
            assert(t1.drop_first() =~= Seq::<char>::empty());
            assert(escaped_quotes(t1) =~= escaped_quotes(t0) + seq![s[0]]);
        }
    } else {
        lemma_escaped_quotes_take(s.drop_first(), i - 1);
        assert(t1.drop_first() =~= s.drop_first().take(i));
        assert(t0.drop_first() =~= s.drop_first().take(i - 1));
        assert(s.drop_first()[i - 1] == s[i]);
        assert(escaped_quotes(t1) =~= escaped_quotes(t0) + (if s[i] == '\'' {
            seq!['\'', '\'']
        } else {
            seq![s[i]]
        }));
    }
}

/// Appends `s` to `w` with every single quote doubled.
pub fn push_escaped(s: &str, w: &mut String)
    ensures
        final(w)@ == old(w)@ + escaped_quotes(s@),
{
    let len = s.unicode_len();
    let mut i: usize = 0;
    proof {
        assert(s@.take(0) =~= Seq::<char>::empty());
        assert(w@ =~= old(w)@ + escaped_quotes(s@.take(0)));
    }
    while i < len
        invariant
            i <= len,
            len == s@.len(),
            w@ == old(w)@ + escaped_quotes(s@.take(i as int)),
        decreases len - i,
    {
        let c = s.get_char(i);
        if c == '\'' {
            w.append("''");
            proof {
                reveal_strlit("''");
                lemma_escaped_quotes_take(s@, i as int);
                assert(w@ =~= old(w)@ + escaped_quotes(s@.take(i + 1)));
            }
        } else {
            let piece = s.substring_char(i, i + 1);
            w.append(piece);
            proof {
                assert(piece@ =~= seq![s@[i as int]]);
                lemma_escaped_quotes_take(s@, i as int);
                assert(w@ =~= old(w)@ + escaped_quotes(s@.take(i + 1)));
            }
        }
        i = i + 1;
    }
    proof {
        assert(s@.take(len as int) =~= s@);
    }
}

/// The upper-case hexadecimal digit character for `d` (meaningful for
/// `0 <= d <= 15`).
pub open spec fn hex_digit_upper(d: int) -> char {
    if d < 10 {
        dec_digit(d)
    } else if d == 10 {
        'A'
    } else if d == 11 {
        'B'
    } else if d == 12 {
        'C'
    } else if d == 13 {
        'D'
    } else if d == 14 {
        'E'
    } else {
        'F'
    }
}

/// The upper-case hexadecimal rendering of `bytes`: two digits per byte,
/// high nibble first.
pub open spec fn hex_upper(bytes: Seq<u8>) -> Seq<char>
    decreases bytes.len(),
{
    if bytes.len() == 0 {
        Seq::empty()
    } else {
        seq![
            hex_digit_upper(bytes[0] as int / 16),
            hex_digit_upper(bytes[0] as int % 16),
        ] + hex_upper(bytes.drop_first())
    }
}

/// Relies on `hex::encode_upper`: it renders each input byte as two
/// upper-case hexadecimal digits, high nibble first, in input order.
#[verifier::external_body]
pub fn hex_encode_upper(bytes: &Vec<u8>) -> (r: String)
    ensures
        r@ == hex_upper(bytes@),
{
    hex::encode_upper(bytes)
}

/// The fixed ISO-8601 (RFC 3339) rendering, at UTC offset `+00:00`, of the
/// instant `secs` whole seconds and `nanos` subsecond nanoseconds after the
/// Unix epoch. The result depends on the two arguments alone.
pub uninterp spec fn timestamp_text(secs: int, nanos: int) -> Seq<char>;

/// Relies on `chrono::DateTime::<Utc>::from_timestamp`, which accepts every
/// instant in [`crate::values::timestamp_in_range`], and on the `%+`
/// (RFC 3339) formatting of the resulting UTC datetime, which depends on
/// the seconds and nanoseconds alone.
#[verifier::external_body]
pub fn format_timestamp(secs: i64, nanos: u32) -> (r: String)
    requires
        crate::values::timestamp_in_range(secs as int, nanos as int),
    ensures
        r@ == timestamp_text(secs as int, nanos as int),
{
    match chrono::DateTime::<chrono::Utc>::from_timestamp(secs, nanos) {
        Some(dt) => dt.format("%+").to_string(),
        None => String::new(),
    }
}

} // verus!
