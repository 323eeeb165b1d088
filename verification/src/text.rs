//! Decimal wire text for 64-bit values.
//!
//! Identifiers and timestamps cross the wire as decimal strings, never as
//! native JSON numbers, so that consumers limited to double-precision numbers
//! cannot lose the high bits.  `dec_str` is the canonical form (no sign, no
//! leading zeros); `parse_dec` accepts any all-digit string whose value fits
//! in 64 bits.

use vstd::prelude::*;

verus! {

/// The digit character for `d`, for `0 <= d < 10`.
pub open spec fn digit_char(d: int) -> char {
    if d == 0 {
        '0'
    } else if d == 1 {
        '1'
    } else if d == 2 {
        '2'
    } else if d == 3 {
        '3'
    } else if d == 4 {
        '4'
    } else if d == 5 {
        '5'
    } else if d == 6 {
        '6'
    } else if d == 7 {
        '7'
    } else if d == 8 {
        '8'
    } else {
        '9'
    }
}

/// The value of a digit character; ten for anything that is not a digit.
pub open spec fn digit_val(c: char) -> nat {
    if c == '0' {
        0
    } else if c == '1' {
        1
    } else if c == '2' {
        2
    } else if c == '3' {
        3
    } else if c == '4' {
        4
    } else if c == '5' {
        5
    } else if c == '6' {
        6
    } else if c == '7' {
        7
    } else if c == '8' {
        8
    } else if c == '9' {
        9
    } else {
        10
    }
}

/// Whether `c` is a decimal digit.
pub open spec fn is_digit(c: char) -> bool {
    digit_val(c) < 10
}

/// Whether every character of `s` is a decimal digit.
pub open spec fn all_digits(s: Seq<char>) -> bool {
    forall|i: int| 0 <= i < s.len() ==> is_digit(#[trigger] s[i])
}

/// The digits of `v`, most significant first; empty for zero.
pub open spec fn dec_str_rec(v: nat) -> Seq<char>
    decreases v,
{
    if v == 0 {
        Seq::empty()
    } else {
        dec_str_rec(v / 10).push(digit_char((v % 10) as int))
    }
}

/// The canonical decimal text of `v`: no sign, no leading zeros.
pub open spec fn dec_str(v: nat) -> Seq<char> {
    if v == 0 {
        seq!['0']
    } else {
        dec_str_rec(v)
    }
}

/// The numeric value of a digit string.
pub open spec fn dec_val(s: Seq<char>) -> nat
    decreases s.len(),
{
    if s.len() == 0 {
        0
    } else {
        dec_val(s.drop_last()) * 10 + digit_val(s.last())
    }
}

/// What parsing decimal wire text yields: the value, if `s` is a non-empty
/// all-digit string denoting at most `u64::MAX`; nothing otherwise.
pub open spec fn parse_dec(s: Seq<char>) -> Option<u64> {
    if s.len() > 0 && all_digits(s) && dec_val(s) <= u64::MAX {
        Some(dec_val(s) as u64)
    } else {
        None
    }
}

/// A digit string's value only grows as the string is extended to the right.
proof fn lemma_dec_val_prefix_le(s: Seq<char>, j: int)
    requires
        0 <= j <= s.len(),
    ensures
        dec_val(s.take(j)) <= dec_val(s),
    decreases s.len(),
{
    if j == s.len() {
        assert(s.take(j) =~= s);
    } else {
        let t = s.drop_last();
        assert(s.take(j) =~= t.take(j));
        lemma_dec_val_prefix_le(t, j);
    }
}

/// The digits of a value, read back as a number, give the value again.
proof fn lemma_dec_str_rec_val(v: nat)
    ensures
        dec_val(dec_str_rec(v)) == v,
        all_digits(dec_str_rec(v)),
        v > 0 ==> dec_str_rec(v).len() > 0,
    decreases v,
{
    if v > 0 {
        lemma_dec_str_rec_val(v / 10);
        let t = dec_str_rec(v / 10);
        let c = digit_char((v % 10) as int);
        assert(t.push(c).drop_last() =~= t);
        assert(t.push(c).last() == c);
        assert(digit_val(c) == v % 10);
        vstd::arithmetic::div_mod::lemma_fundamental_div_mod(v as int, 10);
        assert forall|i: int| 0 <= i < t.push(c).len() implies is_digit(#[trigger] t.push(c)[i]) by {
            if i < t.len() {
                assert(t.push(c)[i] == t[i]);
            }
        }
    }
}

/// Parsing inverts formatting: the canonical decimal text of any 64-bit
/// value parses back to exactly that value.
pub proof fn lemma_dec_round_trip(v: u64)
    ensures
        parse_dec(dec_str(v as nat)) == Some(v),
{
    if v == 0 {
        let s = seq!['0'];
        assert(s.drop_last() =~= Seq::<char>::empty());
        assert(dec_val(Seq::<char>::empty()) == 0);
        assert(s.last() == '0');
        assert(dec_val(s) == 0);
        assert(all_digits(s));
    } else {
        lemma_dec_str_rec_val(v as nat);
    }
}

/// Distinct values have distinct decimal texts.
pub proof fn lemma_dec_str_injective(a: u64, b: u64)
    ensures
        dec_str(a as nat) == dec_str(b as nat) ==> a == b,
{
    lemma_dec_round_trip(a);
    lemma_dec_round_trip(b);
}

/// The wire text of a string-coded boolean: the literal text `true` or
/// `false`, carried inside a JSON string rather than as a native boolean.
pub open spec fn bool_str(b: bool) -> Seq<char> {
    if b {
        "true"@
    } else {
        "false"@
    }
}

/// What parsing a string-coded boolean yields: the boolean for the exact
/// texts `true` and `false`, nothing for anything else.
pub open spec fn parse_bool_str(s: Seq<char>) -> Option<bool> {
    if s == "true"@ {
        Some(true)
    } else if s == "false"@ {
        Some(false)
    } else {
        None
    }
}

/// Formats a string-coded boolean.
pub fn bool_text(b: bool) -> (r: String)
    ensures
        r@ == bool_str(b),
{
    if b {
        "true".to_owned()
    } else {
        "false".to_owned()
    }
}

/// Parses a string-coded boolean.
pub fn parse_bool(s: &str) -> (r: Option<bool>)
    ensures
        r == parse_bool_str(s@),
{
    if str_eq(s, "true") {
        Some(true)
    } else if str_eq(s, "false") {
        Some(false)
    } else {
        None
    }
}

/// Whether the characters of `a` and `b` are the same.
pub fn str_eq(a: &str, b: &str) -> (r: bool)
    ensures
        r == (a@ == b@),
{
    let alen = a.unicode_len();
    let blen = b.unicode_len();
    if alen != blen {
        return false;
    }
    let mut i: usize = 0;
    while i < alen
        invariant
            0 <= i <= alen,
            alen == a@.len(),
            alen == b@.len(),
            forall|j: int| 0 <= j < i ==> a@[j] == b@[j],
        decreases alen - i,
    {
        if a.get_char(i) != b.get_char(i) {
            return false;
        }
        i += 1;
    }
    proof {
        assert(a@ =~= b@);
    }
    true
}

/// The decimal digit denoted by `c`, if any.
fn digit_of(c: char) -> (r: Option<u64>)
    ensures
        match r {
            Some(d) => is_digit(c) && d as nat == digit_val(c),
            None => !is_digit(c),
        },
{
    match c {
        '0' => Some(0),
        '1' => Some(1),
        '2' => Some(2),
        '3' => Some(3),
        '4' => Some(4),
        '5' => Some(5),
        '6' => Some(6),
        '7' => Some(7),
        '8' => Some(8),
        '9' => Some(9),
        _ => None,
    }
}

/// A one-character string slice holding the digit character for `d`.
fn digit_slice(d: u64) -> (r: &'static str)
    requires
        d < 10,
    ensures
        r@ =~= seq![digit_char(d as int)],
{
    match d {
        0 => {
            proof {
                reveal_strlit("0");
            }
            "0"
        },
        1 => {
            proof {
                reveal_strlit("1");
            }
            "1"
        },
        2 => {
            proof {
                reveal_strlit("2");
            }
            "2"
        },
        3 => {
            proof {
                reveal_strlit("3");
            }
            "3"
        },
        4 => {
            proof {
                reveal_strlit("4");
            }
            "4"
        },
        5 => {
            proof {
                reveal_strlit("5");
            }
            "5"
        },
        6 => {
            proof {
                reveal_strlit("6");
            }
            "6"
        },
        7 => {
            proof {
                reveal_strlit("7");
            }
            "7"
        },
        8 => {
            proof {
                reveal_strlit("8");
            }
            "8"
        },
        _ => {
            proof {
                reveal_strlit("9");
            }
            "9"
        },
    }
}

/// Appends the digits of `v` (most significant first, none for zero) to `s`.
fn push_digits(v: u64, s: &mut String)
    ensures
        final(s)@ == old(s)@ + dec_str_rec(v as nat),
    decreases v,
{
    if v == 0 {
        proof {
            assert(old(s)@ + dec_str_rec(0) =~= old(s)@);
        }
        return ;
    }
    push_digits(v / 10, s);
    let d = v % 10;
    s.append(digit_slice(d));
    proof {
        assert(old(s)@ + dec_str_rec((v / 10) as nat) + seq![digit_char(d as int)] =~= old(s)@
            + dec_str_rec(v as nat));
    }
}

/// Formats `v` as its canonical decimal wire text.
pub fn format_u64(v: u64) -> (s: String)
    ensures
        s@ == dec_str(v as nat),
{
    if v == 0 {
        let s = digit_slice(0).to_owned();
        proof {
            assert(s@ =~= dec_str(0));
        }
        return s;
    }
    let mut s = String::new();
    push_digits(v, &mut s);
    proof {
        assert(s@ =~= dec_str(v as nat));
    }
    s
}

/// Parses decimal wire text: the value of a non-empty all-digit string,
/// if it fits in 64 bits; nothing otherwise.
pub fn parse_u64(s: &str) -> (r: Option<u64>)
    ensures
        r == parse_dec(s@),
{
    let n = s.unicode_len();
    if n == 0 {
        return None;
    }
    let mut acc: u64 = 0;
    let mut i: usize = 0;
    while i < n
        invariant
            0 <= i <= n,
            n == s@.len(),
            all_digits(s@.take(i as int)),
            acc as nat == dec_val(s@.take(i as int)),
        decreases n - i,
    {
        let c = s.get_char(i);
        proof {
            assert(s@.take(i + 1).drop_last() =~= s@.take(i as int));
            assert(s@.take(i + 1).last() == s@[i as int]);
        }
        match digit_of(c) {
            None => {
                return None;
            },
            Some(d) => {
                if acc > 1844674407370955161 || (acc == 1844674407370955161 && d > 5) {
                    proof {
                        lemma_dec_val_prefix_le(s@, i + 1);
                    }
                    return None;
                }
                acc = acc * 10 + d;
            },
        }
        proof {
            assert forall|j: int| 0 <= j < i + 1 implies is_digit(#[trigger] s@.take(i + 1)[j]) by {
                if j < i {
                    assert(s@.take(i + 1)[j] == s@.take(i as int)[j]);
                }
            }
        }
        i += 1;
    }
    proof {
        assert(s@.take(n as int) =~= s@);
    }
    Some(acc)
}

} // verus!
