//! Text helpers: trimming by Unicode white space, decimal numerals, upper
//! case, and reading bytes as UTF-8.

use vstd::prelude::*;
use vstd::utf8::{decode_utf8, valid_utf8};

verus! {

/// The characters of an optional text.
pub open spec fn opt_text(text: Option<String>) -> Option<Seq<char>> {
    match text {
        Some(t) => Some(t@),
        None => None,
    }
}

/// Calls `String::from_utf8`. Trusted: the result is `Some` exactly when the
/// bytes are valid UTF-8, and then holds the characters they encode.
#[verifier::external_body]
pub(crate) fn string_from_utf8(bytes: Vec<u8>) -> (text: Option<String>)
    ensures
        match text {
            Some(t) => valid_utf8(bytes@) && t@ == decode_utf8(bytes@),
            None => !valid_utf8(bytes@),
        },
{
    String::from_utf8(bytes).ok()
}

/// Whether a character has the Unicode `White_Space` property.
pub uninterp spec fn white_space(c: char) -> bool;

/// Calls `char::is_whitespace`. Trusted: the result is the character's
/// `White_Space` property, a function of the character alone.
#[verifier::external_body]
pub(crate) fn is_whitespace(c: char) -> (r: bool)
    ensures
        r == white_space(c),
{
    c.is_whitespace()
}

/// The index of the first character that is not white space, or the length
/// of the text if there is none.
pub open spec fn solid_start(s: Seq<char>) -> int
    decreases s.len(),
{
    if s.len() == 0 || !white_space(s[0]) {
        0
    } else {
        1 + solid_start(s.drop_first())
    }
}

/// One past the index of the last character that is not white space, or 0 if
/// there is none.
pub open spec fn solid_end(s: Seq<char>) -> int
    decreases s.len(),
{
    if s.len() == 0 || !white_space(s.last()) {
        s.len() as int
    } else {
        solid_end(s.drop_last())
    }
}

/// The text without its leading and trailing white space.
pub open spec fn trimmed(s: Seq<char>) -> Seq<char> {
    if solid_start(s) >= solid_end(s) {
        Seq::empty()
    } else {
        s.subrange(solid_start(s), solid_end(s))
    }
}

proof fn lemma_solid_start(s: Seq<char>, a: int)
    requires
        0 <= a <= s.len(),
        forall|k: int| 0 <= k < a ==> white_space(#[trigger] s[k]),
        a < s.len() ==> !white_space(s[a]),
    ensures
        solid_start(s) == a,
    decreases s.len(),
{
    if a > 0 {
        let rest = s.drop_first();
        assert(white_space(s[0]));
        assert forall|k: int| 0 <= k < a - 1 implies white_space(#[trigger] rest[k]) by {
            assert(rest[k] == s[k + 1]);
        }
        lemma_solid_start(rest, a - 1);
    }
}

proof fn lemma_solid_end(s: Seq<char>, b: int)
    requires
        0 <= b <= s.len(),
        forall|k: int| b <= k < s.len() ==> white_space(#[trigger] s[k]),
        b > 0 ==> !white_space(s[b - 1]),
    ensures
        solid_end(s) == b,
    decreases s.len(),
{
    if b < s.len() {
        let rest = s.drop_last();
        assert(white_space(s.last()));
        assert forall|k: int| b <= k < rest.len() implies white_space(#[trigger] rest[k]) by {
            assert(rest[k] == s[k]);
        }
        lemma_solid_end(rest, b);
    }
}

/// Removes leading and trailing white space.
pub fn trim(s: &str) -> (t: &str)
    ensures
        t@ == trimmed(s@),
{
    let mut start: usize = 0;
    let mut end: usize = 0;
    let mut seen_solid = false;
    let mut i: usize = 0;
    let len = s.unicode_len();
    for c in it: s.chars()
        invariant
            i == it.index(),
            it.seq() == s@,
            len == s@.len(),
            i <= len,
            end <= i,
            seen_solid ==> start < end && !white_space(s@[start as int]),
            seen_solid ==> forall|k: int| 0 <= k < start ==> white_space(#[trigger] s@[k]),
            !seen_solid ==> end == 0 && forall|k: int| 0 <= k < i ==> white_space(#[trigger] s@[k]),
            forall|k: int| end <= k < i ==> white_space(#[trigger] s@[k]),
            end > 0 ==> !white_space(s@[end - 1]),
    {
        if !is_whitespace(c) {
            if !seen_solid {
                start = i;
                seen_solid = true;
            }
            end = i + 1;
        }
        i = i + 1;
    }
    if !seen_solid {
        proof {
            lemma_solid_end(s@, 0);
            lemma_solid_start(s@, s@.len() as int);
        }
        s.substring_char(0, 0)
    } else {
        proof {
            lemma_solid_start(s@, start as int);
            lemma_solid_end(s@, end as int);
        }
        s.substring_char(start, end)
    }
}

/// The upper-case form of a text.
pub uninterp spec fn uppercase_of(text: Seq<char>) -> Seq<char>;

/// Calls `str::to_uppercase`. Trusted: the result is the upper-case
/// equivalent of the text, a function of the text alone.
#[verifier::external_body]
pub(crate) fn to_uppercase(text: &str) -> (upper: String)
    ensures
        upper@ == uppercase_of(text@),
{
    text.to_uppercase()
}

/// The value of a decimal digit.
pub open spec fn digit_value(c: char) -> Option<nat> {
    if '0' <= c && c <= '9' {
        Some((c as int - '0' as int) as nat)
    } else {
        None
    }
}

/// Every character is a decimal digit.
pub open spec fn all_digits(s: Seq<char>) -> bool {
    forall|i: int| 0 <= i < s.len() ==> digit_value(#[trigger] s[i]) is Some
}

/// The number that a run of decimal digits denotes.
pub open spec fn digits_value(s: Seq<char>) -> nat
    decreases s.len(),
{
    if s.len() == 0 {
        0
    } else {
        digits_value(s.drop_last()) * 10 + match digit_value(s.last()) {
            Some(d) => d,
            None => 0,
        }
    }
}

/// The number that the digits after the first `skip` characters denote, if
/// there are such characters, all of them are digits, and the number does
/// not exceed `limit`.
pub open spec fn digits_after_of(s: Seq<char>, skip: int, limit: int) -> Option<u64> {
    if s.len() > skip && all_digits(s.skip(skip)) && digits_value(s.skip(skip)) <= limit {
        Some(digits_value(s.skip(skip)) as u64)
    } else {
        None
    }
}

/// Reads the decimal digits that follow the first `skip` characters.
pub fn digits_after(s: &str, skip: usize, limit: u64) -> (r: Option<u64>)
    requires
        limit <= 1_000_000_000_000_000_000,
    ensures
        r == digits_after_of(s@, skip as int, limit as int),
{
    let len = s.unicode_len();
    if len <= skip {
        return None;
    }
    let ghost digits = s@.skip(skip as int);
    let mut value: u64 = 0;
    let mut too_large = false;
    let mut i: usize = 0;
    assert(digits.take(0) =~= Seq::<char>::empty());
    for c in it: s.chars()
        invariant
            i == it.index(),
            it.seq() == s@,
            len == s@.len(),
            skip < len,
            i <= len,
            digits == s@.skip(skip as int),
            limit <= 1_000_000_000_000_000_000,
            i >= skip ==> all_digits(digits.take(i - skip)),
            i >= skip && !too_large ==> value == digits_value(digits.take(i - skip)),
            !too_large ==> value <= limit,
            i >= skip && too_large ==> digits_value(digits.take(i - skip)) > limit,
            i <= skip ==> value == 0 && !too_large,
    {
        if i >= skip {
            let ghost k = i - skip;
            proof {
                assert(c == s@[i as int]);
                assert(digits[k] == c);
                lemma_digits_step(digits, k);
            }
            if c < '0' || c > '9' {
                proof {
                    assert(digit_value(digits[k]) is None);
                    assert(!all_digits(digits));
                }
                return None;
            }
            assert(all_digits(digits.take(k + 1))) by {
                assert forall|j: int| 0 <= j < k + 1 implies digit_value(
                    #[trigger] digits.take(k + 1)[j],
                ) is Some by {
                    if j < k {
                        assert(digits.take(k)[j] == digits.take(k + 1)[j]);
                    }
                }
            }
            let d: u64 = (c as u32 - '0' as u32) as u64;
            if !too_large {
                value = value * 10 + d;
                if value > limit {
                    too_large = true;
                }
            }
        }
        i = i + 1;
    }
    proof {
        assert(digits.take(len - skip) =~= digits);
    }
    if too_large {
        None
    } else {
        Some(value)
    }
}

/// Whether a numeral begins with a sign.
pub open spec fn signed(s: Seq<char>) -> bool {
    s.len() > 0 && (s[0] == '-' || s[0] == '+')
}

/// The digits of a numeral: what follows the sign, if there is one.
pub open spec fn digits_of(s: Seq<char>) -> Seq<char> {
    if signed(s) {
        s.skip(1)
    } else {
        s
    }
}

/// The 32-bit integer that a text denotes in decimal: an optional `+` or
/// `-`, then one or more digits and nothing else, with a value that fits.
pub open spec fn decimal_i32(s: Seq<char>) -> Option<i32> {
    let digits = digits_of(s);
    let value = if s.len() > 0 && s[0] == '-' {
        -(digits_value(digits) as int)
    } else {
        digits_value(digits) as int
    };
    if digits.len() == 0 || !all_digits(digits) || value < i32::MIN || value > i32::MAX {
        None
    } else {
        Some(value as i32)
    }
}

proof fn lemma_digits_step(s: Seq<char>, k: int)
    requires
        0 <= k < s.len(),
    ensures
        digits_value(s.take(k + 1)) == digits_value(s.take(k)) * 10 + match digit_value(s[k]) {
            Some(d) => d,
            None => 0,
        },
{
    assert(s.take(k + 1).drop_last() =~= s.take(k));
}

/// Reads a 32-bit integer in decimal.
pub fn parse_i32(s: &str) -> (r: Option<i32>)
    ensures
        r == decimal_i32(s@),
{
    let len = s.unicode_len();
    let mut negative = false;
    let mut has_sign = false;
    let mut value: i64 = 0;
    let mut too_large = false;
    let mut i: usize = 0;
    let ghost digits = digits_of(s@);
    assert(digits.take(0) =~= Seq::<char>::empty());
    for c in it: s.chars()
        invariant
            i == it.index(),
            it.seq() == s@,
            len == s@.len(),
            i <= len,
            digits == digits_of(s@),
            i > 0 ==> has_sign == signed(s@),
            i > 0 ==> negative == (s@[0] == '-'),
            i == 0 ==> !has_sign && !negative,
            all_digits(digits.take(i - if has_sign { 1int } else { 0int })),
            !too_large ==> value == digits_value(digits.take(i - if has_sign { 1int } else { 0int })),
            !too_large ==> 0 <= value <= 2147483648,
            too_large ==> digits_value(digits.take(i - if has_sign { 1int } else { 0int })) > 2147483648,
            i == 0 ==> value == 0 && !too_large,
    {
        if i == 0 && (c == '-' || c == '+') {
            has_sign = true;
            negative = c == '-';
            assert(digits.take(0) =~= Seq::<char>::empty());
        } else {
            let ghost k = i - if has_sign { 1int } else { 0int };
            proof {
                assert(c == s@[i as int]);
                if i == 0 {
                    assert(!signed(s@));
                }
                assert(digits[k] == c);
                lemma_digits_step(digits, k);
            }
            if c < '0' || c > '9' {
                proof {
                    assert(digit_value(digits[k]) is None);
                    assert(!all_digits(digits));
                }
                return None;
            }
            assert(all_digits(digits.take(k + 1))) by {
                assert forall|j: int| 0 <= j < k + 1 implies digit_value(
                    #[trigger] digits.take(k + 1)[j],
                ) is Some by {
                    if j < k {
                        assert(digits.take(k)[j] == digits.take(k + 1)[j]);
                    }
                }
            }
            let d: i64 = (c as u32 - '0' as u32) as i64;
            if !too_large {
                value = value * 10 + d;
                if value > 2147483648 {
                    too_large = true;
                }
            }
        }
        i = i + 1;
    }
    let ghost k = i - if has_sign { 1int } else { 0int };
    proof {
        if len > 0 {
            assert(digits.len() == k);
        } else {
            assert(!signed(s@));
            assert(digits.len() == 0);
        }
        assert(digits.take(k) =~= digits);
    }
    if len == 0 || (has_sign && len == 1) || too_large {
        return None;
    }
    if negative {
        Some((-value) as i32)
    } else if value > 2147483647 {
        None
    } else {
        Some(value as i32)
    }
}

/// The character of a decimal digit.
pub open spec fn digit_char(d: nat) -> char {
    if d == 0 {
        '0'
    } else if d == 1 {
        '1'
    } else if d == 2 {
        '2'
    } else if d == 3 {
        '3'
    } else if d == 4 {
        '4'
    } else if d == 5 {
        '5'
    } else if d == 6 {
        '6'
    } else if d == 7 {
        '7'
    } else if d == 8 {
        '8'
    } else {
        '9'
    }
}

/// The decimal digits of a natural number, without leading zeros.
pub open spec fn decimal_digits(n: nat) -> Seq<char>
    decreases n,
{
    if n < 10 {
        seq![digit_char(n)]
    } else {
        decimal_digits(n / 10).push(digit_char(n % 10))
    }
}

/// The decimal text of an integer: a `-` for a negative one, then its
/// digits.
pub open spec fn decimal_text(v: int) -> Seq<char> {
    if v < 0 {
        seq!['-'] + decimal_digits((-v) as nat)
    } else {
        decimal_digits(v as nat)
    }
}

/// The digits of a number are digits, there is at least one of them, and
/// they denote the number.
pub proof fn lemma_decimal_digits(n: nat)
    ensures
        decimal_digits(n).len() >= 1,
        all_digits(decimal_digits(n)),
        digits_value(decimal_digits(n)) == n,
    decreases n,
{
    let digits = decimal_digits(n);
    if n < 10 {
        assert(digits.drop_last() =~= Seq::<char>::empty());
        assert(digits.last() == digit_char(n));
        assert(digits_value(digits.drop_last()) == 0);
    } else {
        lemma_decimal_digits(n / 10);
        let front = decimal_digits(n / 10);
        assert(digits.drop_last() =~= front);
        assert(digits.last() == digit_char(n % 10));
        assert forall|i: int| 0 <= i < digits.len() implies digit_value(#[trigger] digits[i])
            is Some by {
            if i < front.len() {
                assert(digits[i] == front[i]);
            }
        }
    }
}

/// The text of an integer has a sign only in front, and only where the
/// integer is negative; everything after the sign is a digit.
pub proof fn lemma_decimal_text_shape(v: int)
    ensures
        decimal_text(v).len() >= 1,
        v < 0 ==> decimal_text(v).len() >= 2 && decimal_text(v)[0] == '-',
        v >= 0 ==> digit_value(decimal_text(v)[0]) is Some,
        forall|i: int| 1 <= i < decimal_text(v).len() ==> digit_value(#[trigger] decimal_text(v)[i]) is Some,
{
    if v < 0 {
        lemma_decimal_digits((-v) as nat);
        let digits = decimal_digits((-v) as nat);
        assert forall|i: int| 1 <= i < decimal_text(v).len() implies digit_value(
            #[trigger] decimal_text(v)[i],
        ) is Some by {
            assert(decimal_text(v)[i] == digits[i - 1]);
        }
    } else {
        lemma_decimal_digits(v as nat);
    }
}

/// Reading the text of a 32-bit integer gives the integer back.
pub proof fn lemma_decimal_round_trip(v: i32)
    ensures
        decimal_i32(decimal_text(v as int)) == Some(v),
{
    let text = decimal_text(v as int);
    lemma_decimal_text_shape(v as int);
    if v < 0 {
        lemma_decimal_digits((-v) as nat);
        assert(signed(text));
        assert(text.skip(1) =~= decimal_digits((-v) as nat));
    } else {
        lemma_decimal_digits(v as nat);
        assert(!signed(text));
    }
}

/// Two different 32-bit integers have different texts.
pub proof fn lemma_decimal_text_injective(a: i32, b: i32)
    requires
        decimal_text(a as int) == decimal_text(b as int),
    ensures
        a == b,
{
    lemma_decimal_round_trip(a);
    lemma_decimal_round_trip(b);
}

fn digit_text(d: u32) -> (text: &'static str)
    requires
        d < 10,
    ensures
        text@ == seq![digit_char(d as nat)],
{
    proof {
        reveal_strlit("0");
        reveal_strlit("1");
        reveal_strlit("2");
        reveal_strlit("3");
        reveal_strlit("4");
        reveal_strlit("5");
        reveal_strlit("6");
        reveal_strlit("7");
        reveal_strlit("8");
        reveal_strlit("9");
    }
    let text = if d == 0 {
        "0"
    } else if d == 1 {
        "1"
    } else if d == 2 {
        "2"
    } else if d == 3 {
        "3"
    } else if d == 4 {
        "4"
    } else if d == 5 {
        "5"
    } else if d == 6 {
        "6"
    } else if d == 7 {
        "7"
    } else if d == 8 {
        "8"
    } else {
        "9"
    };
    assert(text@ =~= seq![digit_char(d as nat)]);
    text
}

fn digits_text(n: u32) -> (text: String)
    ensures
        text@ == decimal_digits(n as nat),
    decreases n,
{
    if n < 10 {
        digit_text(n).to_owned()
    } else {
        let mut text = digits_text(n / 10);
        text.append(digit_text(n % 10));
        text
    }
}

/// Writes a 32-bit integer in decimal.
pub fn i32_text(v: i32) -> (text: String)
    ensures
        text@ == decimal_text(v as int),
{
    if v < 0 {
        proof {
            reveal_strlit("-");
            assert("-"@ =~= seq!['-']);
        }
        let magnitude: u32 = (-(v as i64)) as u32;
        "-".to_owned().concat(digits_text(magnitude).as_str())
    } else {
        digits_text(v as u32)
    }
}

} // verus!
