//! Small shared text helpers: building strings from characters and
//! rendering integers in decimal.

use vstd::prelude::*;

verus! {

/// The decimal digit for a value below ten.
pub open spec fn digit_char_of(d: int) -> char {
    if d == 0 { '0' } else if d == 1 { '1' } else if d == 2 { '2' } else if d == 3 { '3' }
    else if d == 4 { '4' } else if d == 5 { '5' } else if d == 6 { '6' } else if d == 7 { '7' }
    else if d == 8 { '8' } else { '9' }
}

/// The decimal rendering of a non-negative number.
pub open spec fn dec_text_of(n: int) -> Seq<char>
    decreases n,
{
    if n < 10 {
        seq![digit_char_of(n)]
    } else {
        dec_text_of(n / 10) + seq![digit_char_of(n % 10)]
    }
}

/// The decimal rendering of a number, with a leading minus sign when it
/// is negative.
pub open spec fn int_text_of(n: int) -> Seq<char> {
    if n < 0 {
        seq!['-'] + dec_text_of(-n)
    } else {
        dec_text_of(n)
    }
}

/// The decimal digit for a value below ten.
fn digit_char(d: u8) -> (c: char)
    requires
        d < 10,
    ensures
        c == digit_char_of(d as int),
{
    if d == 0 { '0' } else if d == 1 { '1' } else if d == 2 { '2' } else if d == 3 { '3' }
    else if d == 4 { '4' } else if d == 5 { '5' } else if d == 6 { '6' } else if d == 7 { '7' }
    else if d == 8 { '8' } else { '9' }
}

/// Appends the decimal rendering of a number.
fn push_dec(n: u32, out: &mut Vec<char>)
    ensures
        final(out)@ == old(out)@ + dec_text_of(n as int),
    decreases n,
{
    if n < 10 {
        out.push(digit_char(n as u8));
        proof {
            assert(out@ =~= old(out)@ + dec_text_of(n as int));
        }
    } else {
        push_dec(n / 10, out);
        out.push(digit_char((n % 10) as u8));
        proof {
            assert(out@ =~= old(out)@ + dec_text_of(n as int));
        }
    }
}

/// Renders a number in decimal, with a leading minus sign when it is
/// negative.
pub fn int_text(n: i32) -> (s: String)
    ensures
        s@ == int_text_of(n as int),
{
    let mut out: Vec<char> = Vec::new();
    if n < 0 {
        out.push('-');
        let wide: i64 = n as i64;
        let mag: u32 = (-wide) as u32;
        push_dec(mag, &mut out);
    } else {
        push_dec(n as u32, &mut out);
    }
    chars_to_string(&out)
}

/// Relies on `String: FromIterator<char>` (via `Iterator::collect`):
/// collecting characters yields the string of exactly those characters.
#[verifier::external_body]
pub(crate) fn chars_to_string(v: &Vec<char>) -> (s: String)
    ensures
        s@ == v@,
{
    v.iter().collect()
}

} // verus!
