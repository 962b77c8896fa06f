//! Plain-text rendering: decimal integers and newline-joined lines.

use vstd::prelude::*;

verus! {

/// The character of a decimal digit.
pub open spec fn digit_char(d: nat) -> char
    recommends
        d < 10,
{
    seq!['0', '1', '2', '3', '4', '5', '6', '7', '8', '9'][d as int]
}

/// The decimal digits of a natural number, most significant first.
pub open spec fn decimal_digits(n: nat) -> Seq<char>
    decreases n,
{
    if n < 10 {
        seq![digit_char(n)]
    } else {
        decimal_digits(n / 10).push(digit_char(n % 10))
    }
}

/// The decimal text of an integer, with a leading `-` when it is negative.
pub open spec fn decimal_text(v: int) -> Seq<char> {
    if v < 0 {
        seq!['-'] + decimal_digits((-v) as nat)
    } else {
        decimal_digits(v as nat)
    }
}

/// The text of a boolean.
pub open spec fn bool_text(b: bool) -> Seq<char> {
    if b {
        seq!['t', 'r', 'u', 'e']
    } else {
        seq!['f', 'a', 'l', 's', 'e']
    }
}

/// The lines joined with a newline between each two.
pub open spec fn joined_lines(lines: Seq<Seq<char>>) -> Seq<char>
    decreases lines.len(),
{
    if lines.len() == 0 {
        Seq::empty()
    } else if lines.len() == 1 {
        lines[0]
    } else {
        joined_lines(lines.drop_last()) + seq!['\n'] + lines.last()
    }
}

/// The character sequences of a sequence of strings.
pub open spec fn string_views(v: Seq<String>) -> Seq<Seq<char>> {
    v.map_values(|s: String| s@)
}

/// The character sequence of an optional string.
pub open spec fn opt_view(o: Option<String>) -> Option<Seq<char>> {
    match o {
        Some(s) => Some(s@),
        None => None,
    }
}

/// A copy of an optional string.
pub fn copy_opt(o: &Option<String>) -> (r: Option<String>)
    ensures
        opt_view(r) == opt_view(*o),
{
    match o {
        Some(s) => Some(s.clone()),
        None => None,
    }
}

/// Relies on the `Debug` impl of `i64`: the value in decimal, with a leading
/// `-` when negative.
#[verifier::external_body]
fn i64_debug_text(v: i64) -> (r: String)
    ensures
        r@ == decimal_text(v as int),
{
    format!("{:?}", v)
}

/// Relies on the `Debug` impl of `u64`: the value in decimal.
#[verifier::external_body]
fn u64_debug_text(v: u64) -> (r: String)
    ensures
        r@ == decimal_text(v as int),
{
    format!("{:?}", v)
}

/// The debug rendering of a signed integer.
pub fn signed_text(v: i64) -> (r: String)
    ensures
        r@ == decimal_text(v as int),
{
    i64_debug_text(v)
}

/// The debug rendering of an unsigned integer.
pub fn unsigned_text(v: u64) -> (r: String)
    ensures
        r@ == decimal_text(v as int),
{
    u64_debug_text(v)
}

/// The debug rendering of a boolean.
pub fn boolean_text(b: bool) -> (r: String)
    ensures
        r@ == bool_text(b),
{
    proof {
        reveal_strlit("true");
        reveal_strlit("false");
    }
    if b {
        "true".to_owned()
    } else {
        "false".to_owned()
    }
}

/// Joins the lines with a newline between each two.
pub fn join_lines(lines: &Vec<String>) -> (r: String)
    ensures
        r@ == joined_lines(string_views(lines@)),
{
    let mut out = String::new();
    let mut i: usize = 0;
    proof {
        assert(string_views(lines@).take(0) =~= Seq::<Seq<char>>::empty());
    }
    while i < lines.len()
        invariant
            i <= lines@.len(),
            out@ == joined_lines(string_views(lines@).take(i as int)),
        decreases lines@.len() - i,
    {
        let ghost prev = string_views(lines@).take(i as int);
        let ghost next = string_views(lines@).take(i + 1);
        assert(next.drop_last() =~= prev);
        assert(next.len() == i + 1);
        assert(next.last() == lines@[i as int]@);
        if i > 0 {
            proof {
                reveal_strlit("\n");
            }
            out.append("\n");
        } else {
            assert(out@ =~= Seq::<char>::empty());
        }
        out.append(lines[i].as_str());
        i = i + 1;
        assert(out@ =~= joined_lines(next));
    }
    assert(string_views(lines@).take(lines@.len() as int) =~= string_views(lines@));
    out
}

} // verus!
