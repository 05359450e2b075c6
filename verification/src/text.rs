//! Character-level text building: appending characters, turning a
//! comma-separated field list into struct body lines, and rendering a
//! number in decimal.

use vstd::prelude::*;
use vstd::string::StringExecFns;

verus! {

/// Relies on str::chars: it yields exactly the string's characters in
/// order, which is what the view of a `&str` holds.
#[verifier::external_body]
pub(crate) fn chars_of(s: &str) -> (r: Vec<char>)
    ensures
        r@ == s@,
{
    s.chars().collect()
}

/// Relies on String::push: it appends the given character to the string.
#[verifier::external_body]
pub(crate) fn push_char(s: &mut String, c: char)
    ensures
        final(s)@ == old(s)@.push(c),
{
    s.push(c)
}

/// The struct body derived from a comma-separated field list: splitting on
/// `,` and joining the segments with `";\n   "` replaces each comma, one
/// character at a time, with that separator.
pub open spec fn spec_field_lines(s: Seq<char>) -> Seq<char>
    decreases s.len(),
{
    if s.len() == 0 {
        Seq::empty()
    } else {
        spec_field_lines(s.drop_last()) + (if s.last() == ',' {
            ";\n   "@
        } else {
            seq![s.last()]
        })
    }
}

/// Appends the struct body lines for the field list `fields` to `out`.
pub(crate) fn append_field_lines(out: &mut String, fields: &str)
    ensures
        final(out)@ == old(out)@ + spec_field_lines(fields@),
{
    let cs = chars_of(fields);
    let mut i: usize = 0;
    while i < cs.len()
        invariant
            cs@ == fields@,
            i <= cs@.len(),
            out@ == old(out)@ + spec_field_lines(fields@.take(i as int)),
        decreases cs@.len() - i,
    {
        let c = cs[i];
        if c == ',' {
            out.append(";\n   ");
        } else {
            push_char(out, c);
        }
        i += 1;
        proof {
            let t = fields@.take(i as int);
            assert(t.drop_last() =~= fields@.take(i - 1));
            assert(t.last() == fields@[i - 1]);
            assert(out@ =~= old(out)@ + spec_field_lines(t));
        }
    }
    proof {
        assert(fields@.take(cs@.len() as int) =~= fields@);
    }
}

/// The character for a single decimal digit.
pub open spec fn spec_digit(d: nat) -> char {
    if d == 0 {
        '0'
    } else if d == 1 {
        '1'
    } else if d == 2 {
        '2'
    } else if d == 3 {
        '3'
    } else if d == 4 {
        '4'
    } else if d == 5 {
        '5'
    } else if d == 6 {
        '6'
    } else if d == 7 {
        '7'
    } else if d == 8 {
        '8'
    } else {
        '9'
    }
}

/// The decimal rendering of `n`, most significant digit first, with no
/// leading zeros (a single `0` for zero).
pub open spec fn spec_dec(n: nat) -> Seq<char>
    decreases n,
{
    if n < 10 {
        seq![spec_digit(n)]
    } else {
        spec_dec(n / 10).push(spec_digit(n % 10))
    }
}

/// The one-character string for a single decimal digit.
fn digit_str(d: usize) -> (r: &'static str)
    requires
        d < 10,
    ensures
        r@ == seq![spec_digit(d as nat)],
{
    proof {
        reveal_strlit("0");
        reveal_strlit("1");
        reveal_strlit("2");
        reveal_strlit("3");
        reveal_strlit("4");
        reveal_strlit("5");
        reveal_strlit("6");
        reveal_strlit("7");
        reveal_strlit("8");
        reveal_strlit("9");
    }
    if d == 0 {
        proof { assert("0"@ =~= seq![spec_digit(d as nat)]); }
        "0"
    } else if d == 1 {
        proof { assert("1"@ =~= seq![spec_digit(d as nat)]); }
        "1"
    } else if d == 2 {
        proof { assert("2"@ =~= seq![spec_digit(d as nat)]); }
        "2"
    } else if d == 3 {
        proof { assert("3"@ =~= seq![spec_digit(d as nat)]); }
        "3"
    } else if d == 4 {
        proof { assert("4"@ =~= seq![spec_digit(d as nat)]); }
        "4"
    } else if d == 5 {
        proof { assert("5"@ =~= seq![spec_digit(d as nat)]); }
        "5"
    } else if d == 6 {
        proof { assert("6"@ =~= seq![spec_digit(d as nat)]); }
        "6"
    } else if d == 7 {
        proof { assert("7"@ =~= seq![spec_digit(d as nat)]); }
        "7"
    } else if d == 8 {
        proof { assert("8"@ =~= seq![spec_digit(d as nat)]); }
        "8"
    } else {
        proof { assert("9"@ =~= seq![spec_digit(d as nat)]); }
        "9"
    }
}

/// Appends the decimal rendering of `n` to `out`.
pub(crate) fn push_dec(out: &mut String, n: usize)
    ensures
        final(out)@ == old(out)@ + spec_dec(n as nat),
    decreases n,
{
    if n >= 10 {
        push_dec(out, n / 10);
    }
    let d = digit_str(n % 10);
    out.append(d);
    proof {
        if n < 10 {
            assert(out@ =~= old(out)@ + spec_dec(n as nat));
        } else {
            assert(spec_dec(n as nat) =~= spec_dec((n / 10) as nat) + seq![
                spec_digit((n % 10) as nat),
            ]);
            assert(out@ =~= old(out)@ + spec_dec(n as nat));
        }
    }
}

} // verus!
