//! Character-level text helpers.
//!
//! The JSON encoding and the registry's name index work over sequences of
//! characters; these helpers bridge between `&str` / `String` and `Vec<char>`
//! and provide a verified decimal rendering of unsigned integers.

use vstd::prelude::*;
use vstd::string::*;

verus! {

/// Compare two string slices character by character.
pub fn str_eq_chars(a: &str, b: &str) -> (r: bool)
    ensures
        r == (a@ == b@),
{
    let la = a.unicode_len();
    let lb = b.unicode_len();
    if la != lb {
        return false;
    }
    let mut i: usize = 0;
    while i < la
        invariant
            la == a@.len(),
            lb == b@.len(),
            la == lb,
            i <= la,
            forall|k: int| 0 <= k < i ==> a@[k] == b@[k],
        decreases la - i,
    {
        if a.get_char(i) != b.get_char(i) {
            return false;
        }
        i += 1;
    }
    proof {
        assert(a@ =~= b@);
    }
    true
}

/// The characters of a string slice, in order.
pub fn chars_of(s: &str) -> (r: Vec<char>)
    ensures
        r@ == s@,
{
    let n = s.unicode_len();
    let mut out: Vec<char> = Vec::new();
    let mut i: usize = 0;
    while i < n
        invariant
            n == s@.len(),
            i <= n,
            out@ == s@.subrange(0, i as int),
        decreases n - i,
    {
        out.push(s.get_char(i));
        i += 1;
        proof {
            assert(out@ =~= s@.subrange(0, i as int));
        }
    }
    proof {
        assert(out@ =~= s@);
    }
    out
}

/// Relies on `String`'s `FromIterator<char>` implementation: collecting
/// characters yields the string of exactly those characters, in order.
#[verifier::external_body]
pub fn string_of_chars(cs: &Vec<char>) -> (s: String)
    ensures
        s@ == cs@,
{
    cs.iter().collect()
}

/// The decimal digit character for a value below ten.
pub open spec fn dec_digit(d: int) -> char {
    if d == 0 {
        '0'
    } else if d == 1 {
        '1'
    } else if d == 2 {
        '2'
    } else if d == 3 {
        '3'
    } else if d == 4 {
        '4'
    } else if d == 5 {
        '5'
    } else if d == 6 {
        '6'
    } else if d == 7 {
        '7'
    } else if d == 8 {
        '8'
    } else {
        '9'
    }
}

/// The usual decimal rendering of a natural number, without leading zeros.
pub open spec fn dec_of(n: nat) -> Seq<char>
    decreases n,
{
    if n < 10 {
        seq![dec_digit(n as int)]
    } else {
        dec_of(n / 10) + seq![dec_digit((n % 10) as int)]
    }
}

fn dec_digit_exec(d: u64) -> (c: char)
    requires
        d < 10,
    ensures
        c == dec_digit(d as int),
{
    match d {
        0 => '0',
        1 => '1',
        2 => '2',
        3 => '3',
        4 => '4',
        5 => '5',
        6 => '6',
        7 => '7',
        8 => '8',
        _ => '9',
    }
}

/// The decimal digits of `n`, as characters.
pub fn dec_chars(n: u64) -> (r: Vec<char>)
    ensures
        r@ == dec_of(n as nat),
    decreases n,
{
    if n < 10 {
        let mut v: Vec<char> = Vec::new();
        v.push(dec_digit_exec(n));
        proof {
            assert(v@ =~= dec_of(n as nat));
        }
        v
    } else {
        let mut v = dec_chars(n / 10);
        v.push(dec_digit_exec(n % 10));
        proof {
            assert(v@ =~= dec_of(n as nat));
        }
        v
    }
}

/// The decimal rendering of `n` as a `String`.
pub fn dec_string(n: u64) -> (s: String)
    ensures
        s@ == dec_of(n as nat),
{
    let cs = dec_chars(n);
    string_of_chars(&cs)
}

/// The decimal rendering of a signed integer, with a leading minus sign
/// when it is negative.
pub open spec fn dec_of_int(v: int) -> Seq<char> {
    if v < 0 {
        seq!['-'] + dec_of((-v) as nat)
    } else {
        dec_of(v as nat)
    }
}

/// The decimal rendering of `v` as a `String`.
pub fn dec_string_i32(v: i32) -> (s: String)
    ensures
        s@ == dec_of_int(v as int),
{
    if v < 0 {
        let mag: u64 = (-(v as i64)) as u64;
        let mut cs: Vec<char> = Vec::new();
        cs.push('-');
        let digits = dec_chars(mag);
        let mut i: usize = 0;
        let n = digits.len();
        while i < n
            invariant
                n == digits@.len(),
                i <= n,
                cs@ == seq!['-'] + digits@.subrange(0, i as int),
            decreases n - i,
        {
            cs.push(digits[i]);
            i += 1;
            proof {
                assert(cs@ =~= seq!['-'] + digits@.subrange(0, i as int));
            }
        }
        proof {
            assert(cs@ =~= seq!['-'] + digits@);
        }
        string_of_chars(&cs)
    } else {
        dec_string(v as u64)
    }
}

} // verus!
