//! Prefixes of strings, and numbers as text.

use vstd::prelude::*;

verus! {

/// Whether `s` begins with `prefix`.
pub fn starts_with(s: &str, prefix: &str) -> (found: bool)
    ensures
        found == prefix@.is_prefix_of(s@),
{
    let n = prefix.unicode_len();
    if n > s.unicode_len() {
        return false;
    }
    let mut i: usize = 0;
    while i < n
        invariant
            i <= n,
            n == prefix@.len(),
            n <= s@.len(),
            forall|k: int| 0 <= k < i ==> s@[k] == prefix@[k],
        decreases n - i,
    {
        if s.get_char(i) != prefix.get_char(i) {
            assert(s@.subrange(0, n as int)[i as int] != prefix@[i as int]);
            return false;
        }
        i += 1;
    }
    assert(s@.subrange(0, n as int) =~= prefix@);
    true
}

/// What follows `prefix` in `s`, if `s` begins with `prefix`.
pub fn strip_prefix<'a>(s: &'a str, prefix: &str) -> (rest: Option<&'a str>)
    ensures
        match rest {
            Some(rest) => prefix@.is_prefix_of(s@) && rest@ == s@.skip(prefix@.len() as int),
            None => !prefix@.is_prefix_of(s@),
        },
{
    if starts_with(s, prefix) {
        let rest = s.substring_char(prefix.unicode_len(), s.unicode_len());
        assert(rest@ =~= s@.skip(prefix@.len() as int));
        Some(rest)
    } else {
        None
    }
}

/// The character that stands for the digit `d`.
pub open spec fn digit(d: nat) -> char {
    if d == 0 {
        '0'
    } else if d == 1 {
        '1'
    } else if d == 2 {
        '2'
    } else if d == 3 {
        '3'
    } else if d == 4 {
        '4'
    } else if d == 5 {
        '5'
    } else if d == 6 {
        '6'
    } else if d == 7 {
        '7'
    } else if d == 8 {
        '8'
    } else {
        '9'
    }
}

/// The number `n` in decimal digits, without leading zeros.
pub open spec fn spec_decimal(n: nat) -> Seq<char>
    decreases n,
{
    if n < 10 {
        seq![digit(n)]
    } else {
        spec_decimal(n / 10).push(digit(n % 10))
    }
}

fn digit_str(d: u8) -> (text: &'static str)
    requires
        d < 10,
    ensures
        text@ == seq![digit(d as nat)],
{
    proof {
        reveal_strlit("0");
        reveal_strlit("1");
        reveal_strlit("2");
        reveal_strlit("3");
        reveal_strlit("4");
        reveal_strlit("5");
        reveal_strlit("6");
        reveal_strlit("7");
        reveal_strlit("8");
        reveal_strlit("9");
    }
    let text = if d == 0 {
        "0"
    } else if d == 1 {
        "1"
    } else if d == 2 {
        "2"
    } else if d == 3 {
        "3"
    } else if d == 4 {
        "4"
    } else if d == 5 {
        "5"
    } else if d == 6 {
        "6"
    } else if d == 7 {
        "7"
    } else if d == 8 {
        "8"
    } else {
        "9"
    };
    assert(text@ =~= seq![digit(d as nat)]);
    text
}

/// The number `n` in decimal digits, without leading zeros.
pub fn decimal(n: u128) -> (text: String)
    ensures
        text@ == spec_decimal(n as nat),
{
    let mut text = String::from_str(digit_str((n % 10) as u8));
    let mut rest: u128 = n / 10;
    assert(rest > 0 ==> spec_decimal(n as nat) =~= spec_decimal(rest as nat) + text@);
    while rest > 0
        invariant
            rest > 0 ==> spec_decimal(n as nat) == spec_decimal(rest as nat) + text@,
            rest == 0 ==> spec_decimal(n as nat) == text@,
        decreases rest,
    {
        let ghost before = text@;
        let ghost shown = rest;
        text = String::from_str(digit_str((rest % 10) as u8)).concat(text.as_str());
        rest = rest / 10;
        assert(text@ =~= seq![digit((shown % 10) as nat)] + before);
        assert(rest > 0 ==> spec_decimal(n as nat) =~= spec_decimal(rest as nat) + text@);
        assert(rest == 0 ==> spec_decimal(n as nat) =~= text@);
    }
    text
}

} // verus!
