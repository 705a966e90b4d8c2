//! Verified text helpers: qualified-class-name normalization and decimal
//! rendering of handler ids for diagnostics.

use vstd::prelude::*;
use vstd::std_specs::iter::IteratorSpec;
use vstd::string::StringExecFns;

verus! {

broadcast use vstd::string::axiom_spec_iter, vstd::string::next_postcondition;

/// Relies on `String::push`: appends the given character to the end of the
/// string.
#[verifier::external_body]
fn push_char(s: &mut String, c: char)
    ensures
        final(s)@ == old(s)@.push(c),
{
    s.push(c);
}

/// What one character of a qualified class name becomes under
/// [`class_name_to_internal`].
pub open spec fn internal_of_char(c: char) -> char {
    if c == '.' {
        '/'
    } else {
        c
    }
}

/// What one character of an internal class name becomes under
/// [`class_name_to_java`].
pub open spec fn java_of_char(c: char) -> char {
    if c == '/' {
        '.'
    } else {
        c
    }
}

/// Replaces every occurrence of `from` with `to`, leaving all other
/// characters in place.
fn swap_chars(name: &str, from: char, to: char) -> (r: String)
    ensures
        r@ == name@.map_values(|c: char| if c == from { to } else { c }),
{
    let mut out = String::new();
    let mut it = name.chars();
    let ghost mut done: Seq<char> = Seq::empty();
    loop
        invariant
            name@ == done + it.remaining(),
            out@ == done.map_values(|c: char| if c == from { to } else { c }),
        decreases name@.len() - done.len(),
    {
        match it.next() {
            Some(c) => {
                let mapped = if c == from { to } else { c };
                push_char(&mut out, mapped);
                proof {
                    done = done + seq![c];
                    assert(out@ =~= done.map_values(|ch: char| if ch == from { to } else { ch }));
                }
            },
            None => {
                proof {
                    assert(it.remaining().len() == 0);
                    assert(name@ =~= done);
                }
                return out;
            },
        }
    }
}

/// Normalizes a qualified class name to its internal (slash-separated)
/// form: every `.` becomes `/`.
pub fn class_name_to_internal(name: &str) -> (r: String)
    ensures
        r@ == name@.map_values(|c: char| internal_of_char(c)),
{
    swap_chars(name, '.', '/')
}

/// Normalizes an internal class name to its source (dot-separated) form:
/// every `/` becomes `.`.
pub fn class_name_to_java(name: &str) -> (r: String)
    ensures
        r@ == name@.map_values(|c: char| java_of_char(c)),
{
    swap_chars(name, '/', '.')
}

/// The decimal digit character for a value below ten.
pub open spec fn digit_char(d: int) -> char {
    if d == 0 {
        '0'
    } else if d == 1 {
        '1'
    } else if d == 2 {
        '2'
    } else if d == 3 {
        '3'
    } else if d == 4 {
        '4'
    } else if d == 5 {
        '5'
    } else if d == 6 {
        '6'
    } else if d == 7 {
        '7'
    } else if d == 8 {
        '8'
    } else {
        '9'
    }
}

/// The decimal rendering of a nonnegative integer, most significant digit
/// first.
pub open spec fn dec_digits(n: nat) -> Seq<char>
    decreases n,
{
    if n < 10 {
        seq![digit_char(n as int)]
    } else {
        dec_digits(n / 10) + seq![digit_char((n % 10) as int)]
    }
}

/// The decimal rendering of any integer: a minus sign, where negative,
/// followed by the digits of the magnitude.
pub open spec fn dec_int(n: int) -> Seq<char> {
    if n >= 0 {
        dec_digits(n as nat)
    } else {
        seq!['-'] + dec_digits((-n) as nat)
    }
}

fn digit_of(d: u64) -> (r: char)
    requires
        d < 10,
    ensures
        r == digit_char(d as int),
{
    if d == 0 {
        '0'
    } else if d == 1 {
        '1'
    } else if d == 2 {
        '2'
    } else if d == 3 {
        '3'
    } else if d == 4 {
        '4'
    } else if d == 5 {
        '5'
    } else if d == 6 {
        '6'
    } else if d == 7 {
        '7'
    } else if d == 8 {
        '8'
    } else {
        '9'
    }
}

fn u64_to_dec(n: u64) -> (r: String)
    ensures
        r@ == dec_digits(n as nat),
    decreases n,
{
    if n < 10 {
        let mut s = String::new();
        push_char(&mut s, digit_of(n));
        s
    } else {
        let mut s = u64_to_dec(n / 10);
        push_char(&mut s, digit_of(n % 10));
        s
    }
}

/// Renders a 64-bit signed integer in decimal.
pub fn i64_to_dec(n: i64) -> (r: String)
    ensures
        r@ == dec_int(n as int),
{
    if n >= 0 {
        u64_to_dec(n as u64)
    } else {
        let m: u64 = (-(n as i128)) as u64;
        let mut s = String::new();
        push_char(&mut s, '-');
        proof {
            assert(m as nat == (-(n as int)) as nat);
        }
        let digits = u64_to_dec(m);
        s.append(digits.as_str());
        s
    }
}

} // verus!
