//! Building the descriptive strings that the value types report.
use vstd::prelude::*;
use vstd::string::StringExecFns;

verus! {

/// The character of a decimal digit.
pub open spec fn digit_char(d: nat) -> char {
    if d == 0 { '0' }
    else if d == 1 { '1' }
    else if d == 2 { '2' }
    else if d == 3 { '3' }
    else if d == 4 { '4' }
    else if d == 5 { '5' }
    else if d == 6 { '6' }
    else if d == 7 { '7' }
    else if d == 8 { '8' }
    else { '9' }
}

/// The decimal digits of `n`, most significant first, without leading zeros.
pub open spec fn decimal(n: nat) -> Seq<char>
    decreases n,
{
    if n < 10 {
        seq![digit_char(n)]
    } else {
        decimal(n / 10) + seq![digit_char(n % 10)]
    }
}

/// The decimal form of a signed integer: a minus sign before negative values.
pub open spec fn signed_decimal(n: int) -> Seq<char> {
    if n < 0 {
        seq!['-'] + decimal((-n) as nat)
    } else {
        decimal(n as nat)
    }
}

/// The literal form of a boolean.
pub open spec fn bool_text(b: bool) -> Seq<char> {
    if b { seq!['t', 'r', 'u', 'e'] } else { seq!['f', 'a', 'l', 's', 'e'] }
}

fn digit_str(d: u64) -> (r: &'static str)
    requires
        d < 10,
    ensures
        r@ == seq![digit_char(d as nat)],
{
    proof {
        reveal_strlit("0");
        reveal_strlit("1");
        reveal_strlit("2");
        reveal_strlit("3");
        reveal_strlit("4");
        reveal_strlit("5");
        reveal_strlit("6");
        reveal_strlit("7");
        reveal_strlit("8");
        reveal_strlit("9");
    }
    if d == 0 { "0" }
    else if d == 1 { "1" }
    else if d == 2 { "2" }
    else if d == 3 { "3" }
    else if d == 4 { "4" }
    else if d == 5 { "5" }
    else if d == 6 { "6" }
    else if d == 7 { "7" }
    else if d == 8 { "8" }
    else { "9" }
}

/// Appends the decimal digits of `n`.
pub fn push_decimal(s: &mut String, n: u64)
    ensures
        final(s)@ == old(s)@ + decimal(n as nat),
    decreases n,
{
    if n >= 10 {
        push_decimal(s, n / 10);
        s.append(digit_str(n % 10));
        assert(final(s)@ =~= old(s)@ + decimal(n as nat));
    } else {
        s.append(digit_str(n));
    }
}

/// Appends the decimal form of a signed integer.
pub fn push_signed(s: &mut String, n: i64)
    ensures
        final(s)@ == old(s)@ + signed_decimal(n as int),
{
    if n < 0 {
        proof {
            reveal_strlit("-");
        }
        s.append("-");
        let magnitude: u64 = (0i128 - n as i128) as u64;
        push_decimal(s, magnitude);
        assert(final(s)@ =~= old(s)@ + signed_decimal(n as int));
    } else {
        push_decimal(s, n as u64);
    }
}

/// Appends `true` or `false`.
pub fn push_bool(s: &mut String, b: bool)
    ensures
        final(s)@ == old(s)@ + bool_text(b),
{
    proof {
        reveal_strlit("true");
        reveal_strlit("false");
    }
    if b {
        s.append("true");
    } else {
        s.append("false");
    }
    assert(final(s)@ =~= old(s)@ + bool_text(b));
}

/// What `{:?}` writes for a string: the text between double quotes, with
/// quotes, backslashes and non-printable characters escaped.
pub uninterp spec fn debug_quoted(s: Seq<char>) -> Seq<char>;

/// Relies on `<str as core::fmt::Debug>::fmt`: the quoted, escaped form of a
/// string depends on its characters alone.
#[verifier::external_body]
pub(crate) fn quote_debug(s: &str) -> (r: String)
    ensures
        r@ == debug_quoted(s@),
{
    format!("{:?}", s)
}

/// What `{:?}` writes for an optional string whose quoted form is given.
pub open spec fn optional_text(quoted: Option<Seq<char>>) -> Seq<char> {
    match quoted {
        Some(q) => "Some("@ + q + ")"@,
        None => "None"@,
    }
}

/// The quoted form of an optional name, as `{:?}` writes it.
pub open spec fn optional_name_text(name: Option<String>) -> Seq<char> {
    match name {
        Some(n) => optional_text(Some(debug_quoted(n@))),
        None => optional_text(None),
    }
}

/// Appends `Some(<quoted>)`, or `None`, given the quoted form of a string.
pub fn push_optional(s: &mut String, quoted: Option<&str>)
    ensures
        final(s)@ == old(s)@ + optional_text(
            match quoted {
                Some(q) => Some(q@),
                None => None,
            },
        ),
{
    match quoted {
        Some(q) => {
            s.append("Some(");
            s.append(q);
            s.append(")");
        },
        None => {
            s.append("None");
        },
    }
}

/// Appends an optional name as `{:?}` writes it.
pub fn push_optional_name(s: &mut String, name: &Option<String>)
    ensures
        final(s)@ == old(s)@ + optional_name_text(*name),
{
    match name {
        Some(n) => {
            let q = quote_debug(n.as_str());
            push_optional(s, Some(q.as_str()));
        },
        None => {
            push_optional(s, None);
        },
    }
}

/// Appends an optional signed integer as `{:?}` writes it.
pub fn push_optional_signed(s: &mut String, value: Option<i64>)
    ensures
        final(s)@ == old(s)@ + match value {
            Some(v) => "Some("@ + signed_decimal(v as int) + ")"@,
            None => "None"@,
        },
{
    match value {
        Some(v) => {
            s.append("Some(");
            push_signed(s, v);
            s.append(")");
        },
        None => {
            s.append("None");
        },
    }
}

} // verus!
