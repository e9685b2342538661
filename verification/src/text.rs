//! Text: whether two strings are the same, decimal numbers written and read, and
//! the lowercase form of a string.

use vstd::prelude::*;
use vstd::std_specs::iter::IteratorSpec;
use vstd::string::*;

verus! {

/// Whether `a` and `b` hold the same characters.
pub fn same_text(a: &str, b: &str) -> (same: bool)
    ensures
        same == (a@ == b@),
{
    let mut rest = b.chars();
    for c in it: a.chars()
        invariant
            it.seq() == a@,
            it.index() <= b@.len(),
            rest.remaining() == b@.skip(it.index() as int),
            a@.take(it.index() as int) == b@.take(it.index() as int),
    {
        match rest.next() {
            Some(d) => {
                if c != d {
                    return false;
                }
            },
            None => {
                return false;
            },
        }
    }
    let ghost n = a@.len() as int;
    assert(a@.take(n) =~= a@);
    match rest.next() {
        Some(_) => false,
        None => {
            assert(b@.take(n) =~= b@);
            true
        },
    }
}

/// The character that writes the digit `d`; `'0'` where `d` is no digit.
pub open spec fn digit_char(d: nat) -> char {
    if d == 1 {
        '1'
    } else if d == 2 {
        '2'
    } else if d == 3 {
        '3'
    } else if d == 4 {
        '4'
    } else if d == 5 {
        '5'
    } else if d == 6 {
        '6'
    } else if d == 7 {
        '7'
    } else if d == 8 {
        '8'
    } else if d == 9 {
        '9'
    } else {
        '0'
    }
}

/// The digit that `c` writes, if it is one of `'0'` to `'9'`.
pub open spec fn digit_value(c: char) -> Option<nat> {
    if c == '0' {
        Some(0nat)
    } else if c == '1' {
        Some(1nat)
    } else if c == '2' {
        Some(2nat)
    } else if c == '3' {
        Some(3nat)
    } else if c == '4' {
        Some(4nat)
    } else if c == '5' {
        Some(5nat)
    } else if c == '6' {
        Some(6nat)
    } else if c == '7' {
        Some(7nat)
    } else if c == '8' {
        Some(8nat)
    } else if c == '9' {
        Some(9nat)
    } else {
        None
    }
}

/// `n` written in base ten, without sign and without leading zeros.
pub open spec fn decimal(n: nat) -> Seq<char>
    decreases n,
{
    if n < 10 {
        seq![digit_char(n)]
    } else {
        decimal(n / 10).push(digit_char(n % 10))
    }
}

/// Every character of `s` is a decimal digit.
pub open spec fn all_digits(s: Seq<char>) -> bool {
    forall|i: int| 0 <= i < s.len() ==> (#[trigger] digit_value(s[i])) is Some
}

/// The number that the digits of `s` write in base ten; 0 for the empty sequence.
pub open spec fn digits_value(s: Seq<char>) -> nat
    decreases s.len(),
{
    if s.len() == 0 {
        0
    } else {
        digits_value(s.drop_last()) * 10 + match digit_value(s.last()) {
            Some(d) => d,
            None => 0,
        }
    }
}

/// `s` without one leading plus sign.
pub open spec fn unsigned_body(s: Seq<char>) -> Seq<char> {
    if s.len() > 0 && s[0] == '+' {
        s.skip(1)
    } else {
        s
    }
}

/// The number that `s` writes, if `s` is an optional plus sign followed by one or
/// more decimal digits and the number is at most `max`. Anything else in `s`, blanks
/// and a minus sign included, gives `None`.
pub open spec fn unsigned_value(s: Seq<char>, max: nat) -> Option<nat> {
    let body = unsigned_body(s);
    if body.len() > 0 && all_digits(body) && digits_value(body) <= max {
        Some(digits_value(body))
    } else {
        None
    }
}

/// Appending one digit multiplies the value by ten and adds the digit.
pub proof fn lemma_digits_value_push(s: Seq<char>, c: char)
    requires
        digit_value(c) is Some,
    ensures
        digits_value(s.push(c)) == digits_value(s) * 10 + digit_value(c)->0,
{
    assert(s.push(c).drop_last() =~= s);
}

/// The digits read so far never write more than the whole sequence does.
pub proof fn lemma_digits_value_prefix(s: Seq<char>, k: int)
    requires
        0 <= k <= s.len(),
    ensures
        digits_value(s.take(k)) <= digits_value(s),
    decreases s.len() - k,
{
    if k < s.len() {
        lemma_digits_value_prefix(s, k + 1);
        assert(s.take(k + 1).drop_last() =~= s.take(k));
    } else {
        assert(s.take(k) =~= s);
    }
}

/// A number that was written in base ten reads back as itself: what `decimal` writes
/// is digits only, and they write `n`.
pub proof fn lemma_decimal_reads_back(n: nat)
    ensures
        decimal(n).len() > 0,
        all_digits(decimal(n)),
        digits_value(decimal(n)) == n,
    decreases n,
{
    if n < 10 {
        let s = seq![digit_char(n)];
        assert(digits_value(s.drop_last()) == 0);
    } else {
        lemma_decimal_reads_back(n / 10);
        let head = decimal(n / 10);
        let c = digit_char(n % 10);
        lemma_digits_value_push(head, c);
        assert forall|i: int| 0 <= i < head.push(c).len() implies (#[trigger] digit_value(
            head.push(c)[i],
        )) is Some by {}
    }
}

fn digit_str(d: u8) -> (s: &'static str)
    requires
        d < 10,
    ensures
        s@ == seq![digit_char(d as nat)],
{
    proof {
        reveal_strlit("0");
        reveal_strlit("1");
        reveal_strlit("2");
        reveal_strlit("3");
        reveal_strlit("4");
        reveal_strlit("5");
        reveal_strlit("6");
        reveal_strlit("7");
        reveal_strlit("8");
        reveal_strlit("9");
    }
    if d == 0 {
        "0"
    } else if d == 1 {
        "1"
    } else if d == 2 {
        "2"
    } else if d == 3 {
        "3"
    } else if d == 4 {
        "4"
    } else if d == 5 {
        "5"
    } else if d == 6 {
        "6"
    } else if d == 7 {
        "7"
    } else if d == 8 {
        "8"
    } else {
        "9"
    }
}

/// Writes `n` in base ten.
pub fn to_decimal(n: u128) -> (s: String)
    ensures
        s@ == decimal(n as nat),
    decreases n,
{
    if n < 10 {
        String::from_str(digit_str(n as u8))
    } else {
        to_decimal(n / 10).concat(digit_str((n % 10) as u8))
    }
}

fn digit_of(c: char) -> (r: Option<u8>)
    ensures
        match r {
            Some(d) => digit_value(c) == Some(d as nat),
            None => digit_value(c) is None,
        },
{
    if c == '0' {
        Some(0)
    } else if c == '1' {
        Some(1)
    } else if c == '2' {
        Some(2)
    } else if c == '3' {
        Some(3)
    } else if c == '4' {
        Some(4)
    } else if c == '5' {
        Some(5)
    } else if c == '6' {
        Some(6)
    } else if c == '7' {
        Some(7)
    } else if c == '8' {
        Some(8)
    } else if c == '9' {
        Some(9)
    } else {
        None
    }
}

/// Reads an unsigned decimal number of at most `max` from `s`.
pub fn parse_unsigned(s: &str, max: u64) -> (r: Option<u64>)
    ensures
        match unsigned_value(s@, max as nat) {
            Some(n) => r == Some(n as u64),
            None => r is None,
        },
{
    let ghost text = s@;
    let ghost body = unsigned_body(text);
    let mut acc: u64 = 0;
    let mut at_start = true;
    let mut any_digit = false;
    // Where the digits begin: 1 once a leading plus sign has been read. The digits read
    // so far are `text[off..k]`, the first `k - off` characters of `body`.
    let ghost mut off: int = 0;
    for c in it: s.chars()
        invariant
            it.seq() == text,
            text == s@,
            body == unsigned_body(text),
            at_start <==> it.index() == 0,
            at_start ==> acc == 0 && !any_digit && off == 0,
            !at_start ==> off == text.len() - body.len(),
            0 <= off <= 1,
            off <= it.index() || at_start,
            !at_start ==> any_digit == (it.index() > off),
            !at_start ==> all_digits(text.subrange(off, it.index() as int)),
            !at_start ==> acc == digits_value(text.subrange(off, it.index() as int)),
            acc <= max,
    {
        let ghost k = it.index() as int;
        let first = at_start;
        at_start = false;
        if first && c == '+' {
            proof {
                off = 1;
            }
        } else {
            let ghost seen = text.subrange(off, k);
            match digit_of(c) {
                None => {
                    assert(digit_value(body[k - off]) is None);
                    return None;
                },
                Some(d) => {
                    proof {
                        // With `c` the digits write `acc * 10 + d`, and the whole of
                        // `body` writes no less: past `max` there is no way back.
                        lemma_digits_value_push(seen, c);
                        assert(seen.push(c) =~= text.subrange(off, k + 1));
                        assert(body.take(k + 1 - off) =~= text.subrange(off, k + 1));
                        lemma_digits_value_prefix(body, k + 1 - off);
                    }
                    let next = match acc.checked_mul(10) {
                        Some(tens) => tens.checked_add(d as u64),
                        None => None,
                    };
                    match next {
                        Some(value) => {
                            if value > max {
                                return None;
                            }
                            acc = value;
                            any_digit = true;
                        },
                        None => {
                            return None;
                        },
                    }
                },
            }
        }
    }
    proof {
        if !at_start {
            assert(body =~= text.subrange(off, text.len() as int));
        }
    }
    if any_digit {
        Some(acc)
    } else {
        None
    }
}

/// The lowercase form of a string, as `str::to_lowercase` of the standard library
/// gives it: a function of the characters alone.
pub uninterp spec fn lowercase(s: Seq<char>) -> Seq<char>;

/// Calls `str::to_lowercase`. Trusted: the result is the lowercase form of the
/// argument, by the Unicode tables of the standard library.
#[verifier::external_body]
pub(crate) fn to_lowercase(s: &str) -> (r: String)
    ensures
        r@ == lowercase(s@),
{
    s.to_lowercase()
}

} // verus!
