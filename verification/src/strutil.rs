//! String helpers shared by the SQL builders: appending characters,
//! decimal rendering of integers, and ASCII case folding.
use vstd::prelude::*;

verus! {

/// Relies on String::push: appends one character at the end.
#[verifier::external_body]
pub(crate) fn push_char(s: &mut String, c: char)
    ensures
        final(s)@ == old(s)@ + seq![c],
{
    s.push(c)
}

/// The decimal digit character for a value below ten.
pub open spec fn dec_digit(d: nat) -> char {
    if d == 0 {
        '0'
    } else if d == 1 {
        '1'
    } else if d == 2 {
        '2'
    } else if d == 3 {
        '3'
    } else if d == 4 {
        '4'
    } else if d == 5 {
        '5'
    } else if d == 6 {
        '6'
    } else if d == 7 {
        '7'
    } else if d == 8 {
        '8'
    } else {
        '9'
    }
}

/// The decimal text of a natural number, without sign or leading zeros.
pub open spec fn dec_of(n: nat) -> Seq<char>
    decreases n,
{
    if n < 10 {
        seq![dec_digit(n)]
    } else {
        dec_of(n / 10) + seq![dec_digit(n % 10)]
    }
}

/// The decimal text of an integer: a minus sign before the magnitude when negative.
pub open spec fn dec_int_of(i: int) -> Seq<char> {
    if i < 0 {
        seq!['-'] + dec_of((-i) as nat)
    } else {
        dec_of(i as nat)
    }
}

fn digit_char(d: u64) -> (c: char)
    requires
        d < 10,
    ensures
        c == dec_digit(d as nat),
{
    match d {
        0 => '0',
        1 => '1',
        2 => '2',
        3 => '3',
        4 => '4',
        5 => '5',
        6 => '6',
        7 => '7',
        8 => '8',
        _ => '9',
    }
}

/// Renders a natural number as decimal text.
pub fn u64_to_string(n: u64) -> (r: String)
    ensures
        r@ == dec_of(n as nat),
{
    let mut digits: Vec<char> = Vec::new();
    if n == 0 {
        digits.push('0');
        assert(digits@ =~= dec_of(0).reverse());
    } else {
        let mut m = n;
        while m > 0
            invariant
                0 <= m <= n,
                m == 0 ==> digits@.len() > 0,
                m > 0 ==> dec_of(n as nat) == dec_of(m as nat) + digits@.reverse(),
                m == 0 ==> dec_of(n as nat) == digits@.reverse(),
            decreases m,
        {
            let ghost old_digits = digits@;
            let d = m % 10;
            digits.push(digit_char(d));
            proof {
                assert(digits@.reverse() =~= seq![dec_digit(d as nat)] + old_digits.reverse());
            }
            if m >= 10 {
                proof {
                    assert(dec_of(m as nat) == dec_of(m as nat / 10) + seq![
                        dec_digit(m as nat % 10),
                    ]);
                    assert(dec_of(m as nat) + old_digits.reverse() =~= dec_of(m as nat / 10)
                        + digits@.reverse());
                }
            } else {
                proof {
                    assert(dec_of(m as nat) =~= seq![dec_digit(m as nat)]);
                    assert(dec_of(m as nat) + old_digits.reverse() =~= digits@.reverse());
                }
            }
            m = m / 10;
        }
    }
    let mut out = String::new();
    let mut k: usize = digits.len();
    while k > 0
        invariant
            k <= digits@.len(),
            out@ == digits@.reverse().subrange(0, (digits@.len() - k) as int),
        decreases k,
    {
        let c = digits[k - 1];
        push_char(&mut out, c);
        proof {
            assert(digits@.reverse()[digits@.len() - k] == digits@[k - 1]);
            assert(out@ =~= digits@.reverse().subrange(0, (digits@.len() - (k - 1)) as int));
        }
        k = k - 1;
    }
    proof {
        assert(out@ =~= digits@.reverse());
    }
    out
}

/// Renders a signed integer as decimal text.
pub fn i64_to_string(n: i64) -> (r: String)
    ensures
        r@ == dec_int_of(n as int),
{
    if n >= 0 {
        u64_to_string(n as u64)
    } else {
        let mag: u64 = if n == i64::MIN {
            9223372036854775808u64
        } else {
            (-n) as u64
        };
        assert(mag as nat == (-(n as int)) as nat);
        let body = u64_to_string(mag);
        let mut out = String::new();
        push_char(&mut out, '-');
        out.append(body.as_str());
        proof {
            assert(out@ =~= dec_int_of(n as int));
        }
        out
    }
}

/// Renders a usize as decimal text.
pub fn usize_to_string(n: usize) -> (r: String)
    ensures
        r@ == dec_of(n as nat),
{
    u64_to_string(n as u64)
}

/// Whether `sub` occurs contiguously somewhere in `s`.
pub open spec fn contains_sub(s: Seq<char>, sub: Seq<char>) -> bool {
    exists|i: int| 0 <= i && i + sub.len() <= s.len() && #[trigger] s.subrange(i, i + sub.len())
        == sub
}

fn matches_at(s: &str, i: usize, sub: &str) -> (r: bool)
    requires
        i + sub@.len() <= s@.len(),
    ensures
        r == (s@.subrange(i as int, i as int + sub@.len() as int) == sub@),
{
    let n = s.unicode_len();
    let m = sub.unicode_len();
    let mut j: usize = 0;
    while j < m
        invariant
            j <= m,
            m == sub@.len(),
            n == s@.len(),
            i + m <= n,
            forall|k: int| 0 <= k < j ==> s@[i + k] == sub@[k],
        decreases m - j,
    {
        if s.get_char(i + j) != sub.get_char(j) {
            proof {
                if s@.subrange(i as int, i as int + m as int) == sub@ {
                    assert(s@.subrange(i as int, i as int + m as int)[j as int] == sub@[j as int]);
                }
            }
            return false;
        }
        j = j + 1;
    }
    proof {
        assert(s@.subrange(i as int, i as int + m as int) =~= sub@);
    }
    true
}

/// Whether `sub` occurs contiguously in `s`.
pub fn str_contains(s: &str, sub: &str) -> (r: bool)
    ensures
        r == contains_sub(s@, sub@),
{
    let n = s.unicode_len();
    let m = sub.unicode_len();
    if m > n {
        return false;
    }
    if m == 0 {
        proof {
            assert(s@.subrange(0, 0 + sub@.len() as int) =~= sub@);
            assert(contains_sub(s@, sub@));
        }
        return true;
    }
    let mut i: usize = 0;
    while i <= n - m
        invariant
            0 < m <= n,
            n == s@.len(),
            m == sub@.len(),
            i <= n - m + 1,
            forall|k: int| 0 <= k < i ==> #[trigger] s@.subrange(k, k + m as int) != sub@,
        decreases n - m + 1 - i,
    {
        if matches_at(s, i, sub) {
            return true;
        }
        i = i + 1;
    }
    false
}

/// A character folded to lower case, for the ASCII letters only.
pub open spec fn lower_char(c: char) -> char {
    if 'A' <= c && c <= 'Z' {
        (((c as u8) + 32) as u8) as char
    } else {
        c
    }
}

/// A sequence of characters folded with `lower_char`.
pub open spec fn lower_seq(s: Seq<char>) -> Seq<char> {
    s.map_values(|c: char| lower_char(c))
}

pub(crate) fn lower_char_exec(c: char) -> (r: char)
    ensures
        r == lower_char(c),
{
    if 'A' <= c && c <= 'Z' {
        ((c as u8) + 32) as char
    } else {
        c
    }
}

/// The character at a position, folded to lower case.
pub(crate) fn lower_char_at(s: &str, i: usize) -> (r: char)
    requires
        i < s@.len(),
    ensures
        r == lower_char(s@[i as int]),
{
    lower_char_exec(s.get_char(i))
}

/// Folds the ASCII upper-case letters of a string to lower case.
pub fn to_ascii_lowercase(s: &str) -> (r: String)
    ensures
        r@ == lower_seq(s@),
{
    let n = s.unicode_len();
    let mut out = String::new();
    let mut i: usize = 0;
    while i < n
        invariant
            n == s@.len(),
            i <= n,
            out@ == lower_seq(s@.subrange(0, i as int)),
        decreases n - i,
    {
        let c = s.get_char(i);
        push_char(&mut out, lower_char_exec(c));
        proof {
            assert(lower_seq(s@.subrange(0, i + 1)) =~= lower_seq(s@.subrange(0, i as int))
                + seq![lower_char(s@[i as int])]);
        }
        i = i + 1;
    }
    proof {
        assert(s@.subrange(0, n as int) =~= s@);
    }
    out
}

/// The two strings, one after the other.
pub fn concat_str(a: &str, b: &str) -> (r: String)
    ensures
        r@ == a@ + b@,
{
    let mut s = String::new();
    s.append(a);
    s.append(b);
    s
}

/// Whether two strings hold the same characters.
pub fn str_eq(a: &str, b: &str) -> (r: bool)
    ensures
        r == (a@ == b@),
{
    let oa = a.to_owned();
    let ob = b.to_owned();
    oa == ob
}

/// Whether two strings are equal once ASCII case is folded away.
pub fn eq_ignore_ascii_case(a: &str, b: &str) -> (r: bool)
    ensures
        r == (lower_seq(a@) == lower_seq(b@)),
{
    let la = to_ascii_lowercase(a);
    let lb = to_ascii_lowercase(b);
    la == lb
}

} // verus!
