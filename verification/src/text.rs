//! Text building blocks for the protocol: decimal rendering of unsigned
//! numbers, logical path joining, and appending a single character to a
//! `String`.

use vstd::prelude::*;

verus! {

/// The character for one decimal digit.
pub open spec fn digit_char(d: nat) -> char {
    if d == 0 {
        '0'
    } else if d == 1 {
        '1'
    } else if d == 2 {
        '2'
    } else if d == 3 {
        '3'
    } else if d == 4 {
        '4'
    } else if d == 5 {
        '5'
    } else if d == 6 {
        '6'
    } else if d == 7 {
        '7'
    } else if d == 8 {
        '8'
    } else {
        '9'
    }
}

/// The decimal rendering of `n`, most significant digit first, no leading
/// zeros (except for `n == 0`, rendered as `0`).
pub open spec fn dec_digits(n: nat) -> Seq<char>
    decreases n,
{
    if n < 10 {
        seq![digit_char(n)]
    } else {
        dec_digits(n / 10).push(digit_char(n % 10))
    }
}

/// Relies on `String::push`: appends the given character to the end of
/// the string.
#[verifier::external_body]
pub fn push_char(s: &mut String, c: char)
    ensures
        final(s)@ == old(s)@.push(c),
{
    s.push(c)
}

/// The character for one decimal digit.
pub fn digit_to_char(d: u64) -> (c: char)
    requires
        d < 10,
    ensures
        c == digit_char(d as nat),
{
    match d {
        0 => '0',
        1 => '1',
        2 => '2',
        3 => '3',
        4 => '4',
        5 => '5',
        6 => '6',
        7 => '7',
        8 => '8',
        _ => '9',
    }
}

/// Appends the decimal rendering of `n` to `s`.
pub fn push_dec_u64(s: &mut String, n: u64)
    ensures
        final(s)@ == old(s)@ + dec_digits(n as nat),
    decreases n,
{
    if n >= 10 {
        push_dec_u64(s, n / 10);
        push_char(s, digit_to_char(n % 10));
        proof {
            assert(s@ =~= old(s)@ + dec_digits(n as nat));
        }
    } else {
        push_char(s, digit_to_char(n));
        proof {
            assert(s@ =~= old(s)@ + dec_digits(n as nat));
        }
    }
}

/// The decimal rendering of `n` as a fresh string.
pub fn u64_to_dec(n: u64) -> (r: String)
    ensures
        r@ == dec_digits(n as nat),
{
    let mut s = String::new();
    push_dec_u64(&mut s, n);
    proof {
        assert(s@ =~= dec_digits(n as nat));
    }
    s
}

/// The logical join of a path onto a working directory: an absolute path
/// replaces the base; otherwise the path is appended, with a separator
/// unless the base already ends in one.
pub open spec fn join_spec(base: Seq<char>, path: Seq<char>) -> Seq<char> {
    if path.len() > 0 && path[0] == '/' {
        path
    } else if base.len() > 0 && base[base.len() - 1] == '/' {
        base + path
    } else {
        base + seq!['/'] + path
    }
}

/// Joins `path` onto the working directory `base`.
pub fn join_path(base: &str, path: &str) -> (r: String)
    ensures
        r@ == join_spec(base@, path@),
{
    let path_len = path.unicode_len();
    let base_len = base.unicode_len();
    if path_len > 0 && path.get_char(0) == '/' {
        path.to_owned()
    } else if base_len > 0 && base.get_char(base_len - 1) == '/' {
        let mut r = base.to_owned();
        r.append(path);
        r
    } else {
        let mut r = base.to_owned();
        push_char(&mut r, '/');
        r.append(path);
        proof {
            assert(r@ =~= base@ + seq!['/'] + path@);
        }
        r
    }
}

} // verus!
