//! Unsigned integers as decimal text: the rendering that identifiers have on
//! the wire, and the reading of it.

use vstd::prelude::*;
use vstd::string::*;

verus! {

/// Whether `c` is one of the ten ASCII digits.
pub open spec fn is_digit(c: char) -> bool {
    '0' <= c <= '9'
}

/// The number that the ASCII digit `c` stands for.
pub open spec fn digit_of(c: char) -> nat {
    (c as nat - '0' as nat) as nat
}

/// The ASCII digit that stands for `d`, a number below ten.
pub open spec fn digit_char(d: nat) -> char {
    if d == 0 {
        '0'
    } else if d == 1 {
        '1'
    } else if d == 2 {
        '2'
    } else if d == 3 {
        '3'
    } else if d == 4 {
        '4'
    } else if d == 5 {
        '5'
    } else if d == 6 {
        '6'
    } else if d == 7 {
        '7'
    } else if d == 8 {
        '8'
    } else {
        '9'
    }
}

/// Whether `s` holds ASCII digits and nothing else.
pub open spec fn all_digits(s: Seq<char>) -> bool {
    forall|i: int| 0 <= i < s.len() ==> is_digit(#[trigger] s[i])
}

/// The number that a run of digits denotes in base ten, most significant
/// digit first. Leading zeros add nothing.
pub open spec fn digits_value(s: Seq<char>) -> nat
    decreases s.len(),
{
    if s.len() == 0 {
        0
    } else {
        digits_value(s.drop_last()) * 10 + digit_of(s.last())
    }
}

/// What is left of `s` when one leading plus sign, if there is one, is taken
/// off.
pub open spec fn unsigned_body(s: Seq<char>) -> Seq<char> {
    if s.len() > 0 && s[0] == '+' {
        s.subrange(1, s.len() as int)
    } else {
        s
    }
}

/// The reading of `s` as an unsigned 64-bit integer in base ten: an optional
/// plus sign, then at least one digit, the whole denoting a number that fits
/// in 64 bits. Anything else has no reading.
pub open spec fn spec_parse_u64(s: Seq<char>) -> Option<u64> {
    let body = unsigned_body(s);
    if body.len() > 0 && all_digits(body) && digits_value(body) <= u64::MAX {
        Some(digits_value(body) as u64)
    } else {
        None
    }
}

/// The canonical decimal rendering of `n`: no sign, no leading zeros, `"0"`
/// for zero.
pub open spec fn decimal(n: nat) -> Seq<char>
    decreases n,
{
    if n < 10 {
        seq![digit_char(n)]
    } else {
        decimal(n / 10).push(digit_char(n % 10))
    }
}

/// Appending a digit multiplies the value by ten and adds the digit.
pub proof fn lemma_digits_value_push(s: Seq<char>, c: char)
    ensures
        digits_value(s.push(c)) == digits_value(s) * 10 + digit_of(c),
{
    assert(s.push(c).drop_last() =~= s);
}

/// A run of digits denotes at least what any of its prefixes denotes.
pub proof fn lemma_digits_value_prefix(s: Seq<char>, k: int)
    requires
        0 <= k <= s.len(),
    ensures
        digits_value(s.subrange(0, k)) <= digits_value(s),
    decreases s.len() - k,
{
    if k == s.len() {
        assert(s.subrange(0, k) =~= s);
    } else {
        lemma_digits_value_prefix(s.drop_last(), k);
        assert(s.drop_last().subrange(0, k) =~= s.subrange(0, k));
    }
}

/// The canonical rendering is a non-empty run of digits that denotes the
/// number it was made from.
pub proof fn lemma_decimal_is_digits(n: nat)
    ensures
        decimal(n).len() > 0,
        all_digits(decimal(n)),
        digits_value(decimal(n)) == n,
    decreases n,
{
    if n < 10 {
        assert(decimal(n).drop_last() =~= Seq::<char>::empty());
        assert(digits_value(Seq::<char>::empty()) == 0);
    } else {
        lemma_decimal_is_digits(n / 10);
        lemma_digits_value_push(decimal(n / 10), digit_char(n % 10));
    }
}

/// Rendering a 64-bit number and reading the text back gives the number.
pub proof fn lemma_parse_decimal(n: u64)
    ensures
        spec_parse_u64(decimal(n as nat)) == Some(n),
{
    lemma_decimal_is_digits(n as nat);
    let s = decimal(n as nat);
    assert(is_digit(s[0]));
}

/// The one-character string for the digit `d`.
fn digit_str(d: u64) -> (r: &'static str)
    requires
        d < 10,
    ensures
        r@ == seq![digit_char(d as nat)],
{
    proof {
        reveal_strlit("0");
        reveal_strlit("1");
        reveal_strlit("2");
        reveal_strlit("3");
        reveal_strlit("4");
        reveal_strlit("5");
        reveal_strlit("6");
        reveal_strlit("7");
        reveal_strlit("8");
        reveal_strlit("9");
    }
    let r = if d == 0 {
        "0"
    } else if d == 1 {
        "1"
    } else if d == 2 {
        "2"
    } else if d == 3 {
        "3"
    } else if d == 4 {
        "4"
    } else if d == 5 {
        "5"
    } else if d == 6 {
        "6"
    } else if d == 7 {
        "7"
    } else if d == 8 {
        "8"
    } else {
        "9"
    };
    assert(r@ =~= seq![digit_char(d as nat)]);
    r
}

/// Renders `n` in base ten.
pub fn u64_to_string(n: u64) -> (r: String)
    ensures
        r@ == decimal(n as nat),
    decreases n,
{
    if n < 10 {
        String::from_str(digit_str(n))
    } else {
        let mut s = u64_to_string(n / 10);
        let d = digit_str(n % 10);
        proof {
            assert(s@ + d@ =~= s@.push(digit_char((n % 10) as nat)));
        }
        s.append(d);
        s
    }
}

/// A string with a character outside ASCII has no reading as a number.
proof fn lemma_non_ascii_has_no_reading(s: Seq<char>)
    requires
        !vstd::utf8::is_ascii_chars(s),
    ensures
        spec_parse_u64(s) is None,
{
    let body = unsigned_body(s);
    if body.len() > 0 && all_digits(body) {
        assert forall|i: int| 0 <= i < s.len() implies '\0' <= #[trigger] s[i] <= '\u{7f}' by {
            if s.len() > 0 && s[0] == '+' {
                if i > 0 {
                    assert(s[i] == body[i - 1]);
                    assert(is_digit(body[i - 1]));
                }
            } else {
                assert(is_digit(body[i]));
            }
        }
    }
}

/// Reads `txt` as an unsigned 64-bit integer in base ten.
pub fn parse_u64(txt: &str) -> (r: Option<u64>)
    ensures
        r == spec_parse_u64(txt@),
{
    if !txt.is_ascii() {
        proof {
            lemma_non_ascii_has_no_reading(txt@);
        }
        return None;
    }
    let bytes = txt.as_bytes();
    proof {
        is_ascii_spec_bytes(txt);
    }
    let n = bytes.len();
    let start: usize = if n > 0 && bytes[0] == 43u8 {
        1
    } else {
        0
    };
    let ghost body = unsigned_body(txt@);
    assert(body =~= txt@.subrange(start as int, n as int));
    if start == n {
        return None;
    }
    let mut acc: u64 = 0;
    let mut i: usize = start;
    assert(body.subrange(0, 0) =~= Seq::<char>::empty());
    while i < n
        invariant
            start <= i <= n,
            n == txt@.len(),
            n == bytes@.len(),
            vstd::utf8::is_ascii_chars(txt@),
            forall|j: int| 0 <= j < n ==> bytes@[j] == txt@[j] as u8,
            body == unsigned_body(txt@),
            body == txt@.subrange(start as int, n as int),
            all_digits(body.subrange(0, i - start)),
            acc == digits_value(body.subrange(0, i - start)),
        decreases n - i,
    {
        let b = bytes[i];
        let ghost c = txt@[i as int];
        assert(c == body[i - start]);
        if b < 48 || b > 57 {
            return None;
        }
        let d: u64 = (b - 48) as u64;
        let ghost next = body.subrange(0, i - start + 1);
        proof {
            assert(next =~= body.subrange(0, i - start).push(c));
            lemma_digits_value_push(body.subrange(0, i - start), c);
            if all_digits(body) {
                lemma_digits_value_prefix(body, i - start + 1);
            }
        }
        match acc.checked_mul(10) {
            None => {
                return None;
            },
            Some(m) => match m.checked_add(d) {
                None => {
                    return None;
                },
                Some(v) => {
                    acc = v;
                },
            },
        }
        i += 1;
    }
    assert(body.subrange(0, n - start) =~= body);
    Some(acc)
}

} // verus!
