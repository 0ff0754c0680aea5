//! Text helpers: decimal rendering of numbers and byte-to-text decoding.

use vstd::prelude::*;
use vstd::utf8::*;
use vstd::string::StrSliceExecFns;

verus! {

/// The ASCII bytes of the decimal rendering of `n` (no sign, no leading zeros).
pub open spec fn decimal_bytes(n: nat) -> Seq<u8>
    decreases n,
{
    if n < 10 {
        seq![(48 + n) as u8]
    } else {
        decimal_bytes(n / 10).push((48 + n % 10) as u8)
    }
}

/// The decimal rendering of `n` as characters.
pub open spec fn decimal(n: nat) -> Seq<char> {
    decimal_bytes(n).map_values(|b: u8| b as char)
}

/// What decoding bytes as UTF-8 gives, with each malformed sequence replaced by
/// U+FFFD (`String::from_utf8_lossy`).
pub uninterp spec fn utf8_lossy(bytes: Seq<u8>) -> Seq<char>;

/// The text of `bytes`: their UTF-8 decoding where they are valid UTF-8, and
/// the lossy decoding otherwise.
pub open spec fn lossy_text(bytes: Seq<u8>) -> Seq<char> {
    if valid_utf8(bytes) {
        decode_utf8(bytes)
    } else {
        utf8_lossy(bytes)
    }
}

/// Calls `String::from_utf8_lossy`. Claimed: valid UTF-8 is decoded exactly
/// (as its documentation states: the input comes back unchanged); what other
/// bytes give is named, not stated.
#[verifier::external_body]
pub(crate) fn bytes_to_string_lossy(bytes: &[u8]) -> (r: String)
    ensures
        valid_utf8(bytes@) ==> r@ == decode_utf8(bytes@),
        !valid_utf8(bytes@) ==> r@ == utf8_lossy(bytes@),
{
    String::from_utf8_lossy(bytes).into_owned()
}

proof fn lemma_decimal_digits(n: nat)
    ensures
        decimal_bytes(n).len() >= 1,
        forall|i: int| 0 <= i < decimal_bytes(n).len() ==> 48 <= #[trigger] decimal_bytes(n)[i] <= 57,
    decreases n,
{
    if n >= 10 {
        lemma_decimal_digits(n / 10);
    }
}

/// The decimal characters are ASCII and their UTF-8 encoding is the digit bytes.
pub proof fn lemma_decimal_encoding(n: nat)
    ensures
        is_ascii_chars(decimal(n)),
        encode_utf8(decimal(n)) == decimal_bytes(n),
        decode_utf8(decimal_bytes(n)) == decimal(n),
        valid_utf8(decimal_bytes(n)),
{
    lemma_decimal_digits(n);
    let chars = decimal(n);
    assert forall|i: int| 0 <= i < chars.len() implies '\0' <= #[trigger] chars[i] <= '\u{7f}' by {
        let b = decimal_bytes(n)[i];
        assert(chars[i] == b as char);
    }
    is_ascii_chars_encode_utf8(chars);
    assert forall|i: int| 0 <= i < chars.len() implies #[trigger] encode_utf8(chars)[i] == decimal_bytes(n)[i] by {
        let b = decimal_bytes(n)[i];
        assert(chars[i] == b as char);
        assert((b as char) as u8 == b);
    }
    assert(encode_utf8(chars) =~= decimal_bytes(n));
    encode_utf8_valid_utf8(chars);
    encode_utf8_decode_utf8(chars);
}

fn push_decimal(n: u64, out: &mut Vec<u8>)
    ensures
        final(out)@ == old(out)@ + decimal_bytes(n as nat),
    decreases n,
{
    if n >= 10 {
        push_decimal(n / 10, out);
    }
    out.push(48 + (n % 10) as u8);
    proof {
        if n >= 10 {
            assert(old(out)@ + decimal_bytes(n as nat) =~= old(out)@ + decimal_bytes((n / 10) as nat) + seq![(48 + n % 10) as u8]);
        } else {
            assert(old(out)@ + decimal_bytes(n as nat) =~= old(out)@ + seq![(48 + n % 10) as u8]);
        }
    }
}

/// Renders `n` in decimal.
pub fn decimal_string(n: u64) -> (r: String)
    ensures
        r@ == decimal(n as nat),
{
    let mut bytes: Vec<u8> = Vec::new();
    push_decimal(n, &mut bytes);
    proof {
        assert(bytes@ =~= decimal_bytes(n as nat));
        lemma_decimal_encoding(n as nat);
    }
    bytes_to_string_lossy(bytes.as_slice())
}

/// The decimal rendering of a signed number, with a leading `-` when negative.
pub open spec fn signed_decimal(n: int) -> Seq<char> {
    if n < 0 {
        seq!['-'] + decimal((-n) as nat)
    } else {
        decimal(n as nat)
    }
}

/// Renders a signed number in decimal.
pub fn signed_decimal_string(n: i64) -> (r: String)
    ensures
        r@ == signed_decimal(n as int),
{
    if n < 0 {
        let magnitude: u64 = if n == i64::MIN { 9223372036854775808u64 } else { (-n) as u64 };
        let mut bytes: Vec<u8> = Vec::new();
        bytes.push(45);
        push_decimal(magnitude, &mut bytes);
        proof {
            let m = magnitude as nat;
            assert(m == -(n as int));
            lemma_decimal_encoding(m);
            let chars = signed_decimal(n as int);
            assert(chars =~= seq!['-'] + decimal(m));
            vstd::utf8::is_ascii_chars_concat(chars, seq!['-'], decimal(m));
            assert(is_ascii_chars(seq!['-']));
            is_ascii_chars_encode_utf8(chars);
            assert forall|i: int| 0 <= i < chars.len() implies #[trigger] encode_utf8(chars)[i] == bytes@[i] by {
                if i == 0 {
                    assert(chars[0] == '-');
                } else {
                    assert(chars[i] == decimal(m)[i - 1]);
                    assert(bytes@[i] == decimal_bytes(m)[i - 1]);
                    assert(decimal(m)[i - 1] == decimal_bytes(m)[i - 1] as char);
                }
            }
            assert(encode_utf8(chars) =~= bytes@);
            encode_utf8_valid_utf8(chars);
            encode_utf8_decode_utf8(chars);
        }
        bytes_to_string_lossy(bytes.as_slice())
    } else {
        decimal_string(n as u64)
    }
}

/// ASCII lowercase of one character (other characters unchanged).
pub open spec fn ascii_lower(c: char) -> char {
    if 'A' <= c <= 'Z' {
        ((c as u32) + 32) as char
    } else {
        c
    }
}

/// Whether `s` equals `word` when ASCII letters of `s` are lowercased.
/// For a lowercase ASCII word without `k` this is exactly
/// `s.to_lowercase() == word`: the only non-ASCII character whose lowercase
/// is ASCII is the Kelvin sign, which lowercases to `k`.
pub open spec fn ascii_ci_eq(s: Seq<char>, word: Seq<char>) -> bool {
    &&& s.len() == word.len()
    &&& forall|i: int| 0 <= i < s.len() ==> ascii_lower(#[trigger] s[i]) == word[i]
}

fn lower_char(c: char) -> (r: char)
    ensures
        r == ascii_lower(c),
{
    if 'A' <= c && c <= 'Z' {
        let b = (c as u8) + 32;
        b as char
    } else {
        c
    }
}

/// Decides `ascii_ci_eq`.
pub fn eq_ignore_ascii_case(s: &str, word: &str) -> (r: bool)
    ensures
        r == ascii_ci_eq(s@, word@),
{
    let n = s.unicode_len();
    if n != word.unicode_len() {
        return false;
    }
    let mut i: usize = 0;
    while i < n
        invariant
            n == s@.len(),
            n == word@.len(),
            i <= n,
            forall|j: int| 0 <= j < i ==> ascii_lower(#[trigger] s@[j]) == word@[j],
        decreases n - i,
    {
        if lower_char(s.get_char(i)) != word.get_char(i) {
            return false;
        }
        i += 1;
    }
    true
}

/// Whether `s` begins with `prefix`.
pub fn starts_with(s: &str, prefix: &str) -> (r: bool)
    ensures
        r == (prefix@.len() <= s@.len() && s@.subrange(0, prefix@.len() as int) == prefix@),
{
    let n = prefix.unicode_len();
    let m = s.unicode_len();
    if n > m {
        return false;
    }
    let mut i: usize = 0;
    while i < n
        invariant
            n == prefix@.len(),
            m == s@.len(),
            n <= m,
            i <= n,
            forall|j: int| 0 <= j < i ==> #[trigger] s@[j] == prefix@[j],
        decreases n - i,
    {
        if s.get_char(i) != prefix.get_char(i) {
            assert(s@.subrange(0, n as int)[i as int] != prefix@[i as int]);
            return false;
        }
        i += 1;
    }
    assert(s@.subrange(0, n as int) =~= prefix@);
    true
}

/// Whether two strings are equal.
pub fn str_eq(a: &str, b: &str) -> (r: bool)
    ensures
        r == (a@ == b@),
{
    let n = a.unicode_len();
    if n != b.unicode_len() {
        return false;
    }
    let mut i: usize = 0;
    while i < n
        invariant
            n == a@.len(),
            n == b@.len(),
            i <= n,
            forall|j: int| 0 <= j < i ==> #[trigger] a@[j] == b@[j],
        decreases n - i,
    {
        if a.get_char(i) != b.get_char(i) {
            return false;
        }
        i += 1;
    }
    assert(a@ =~= b@);
    true
}

/// The value of a string of decimal digits.
pub open spec fn digits_value(s: Seq<char>) -> nat
    decreases s.len(),
{
    if s.len() == 0 {
        0
    } else {
        digits_value(s.drop_last()) * 10 + ((s.last() as u32) - 48) as nat
    }
}

pub open spec fn is_digit(c: char) -> bool {
    '0' <= c <= '9'
}

/// What `str::parse` gives for an unsigned integer type whose largest value
/// is `max`: an optional `+`, then one or more ASCII digits, with a value of
/// at most `max`.
pub open spec fn parse_unsigned(s: Seq<char>, max: nat) -> Option<nat> {
    let digits = unsigned_digits(s);
    if digits.len() > 0 && all_digits(digits) && digits_value(digits) <= max {
        Some(digits_value(digits))
    } else {
        None
    }
}

/// The digits of a number: the text after an optional leading `+`.
pub open spec fn unsigned_digits(s: Seq<char>) -> Seq<char> {
    if s.len() > 0 && s[0] == '+' {
        s.drop_first()
    } else {
        s
    }
}

/// Whether every character is an ASCII digit.
pub open spec fn all_digits(s: Seq<char>) -> bool {
    forall|i: int| 0 <= i < s.len() ==> is_digit(#[trigger] s[i])
}

proof fn lemma_digits_value_mono(s: Seq<char>, k: int)
    requires
        0 <= k <= s.len(),
        forall|i: int| 0 <= i < s.len() ==> is_digit(#[trigger] s[i]),
    ensures
        digits_value(s.take(k)) <= digits_value(s),
    decreases s.len() - k,
{
    if k < s.len() {
        lemma_digits_value_mono(s, k + 1);
        let t = s.take(k + 1);
        assert(t.drop_last() =~= s.take(k));
        assert(is_digit(s[k]));
        assert(t.last() == s[k]);
        assert(digits_value(t) == digits_value(s.take(k)) * 10 + ((s[k] as u32) - 48) as nat);
    } else {
        assert(s.take(k) =~= s);
    }
}

/// Parses an unsigned decimal number of at most `max` (`str::parse` for
/// `u8`, `u16`, `u32`).
pub fn parse_unsigned_str(s: &str, max: u32) -> (r: Option<u32>)
    ensures
        match (r, parse_unsigned(s@, max as nat)) {
            (Some(v), Some(w)) => v as nat == w,
            (None, None) => true,
            _ => false,
        },
{
    let n = s.unicode_len();
    let start: usize = if n > 0 && s.get_char(0) == '+' { 1 } else { 0 };
    let ghost digits = unsigned_digits(s@);
    proof {
        assert(digits =~= s@.subrange(start as int, n as int));
    }
    if start >= n {
        return None;
    }
    let mut value: u64 = 0;
    let mut i: usize = start;
    while i < n
        invariant
            n == s@.len(),
            start <= i <= n,
            digits == s@.subrange(start as int, n as int),
            digits == unsigned_digits(s@),
            forall|j: int| start <= j < i ==> is_digit(#[trigger] s@[j]),
            value as nat == digits_value(s@.subrange(start as int, i as int)),
            value <= max as nat,
        decreases n - i,
    {
        let c = s.get_char(i);
        if c < '0' || c > '9' {
            proof {
                assert(digits[i - start] == c);
                assert(!is_digit(digits[i - start]));
            }
            return None;
        }
        let d = (c as u32 - 48) as u64;
        proof {
            assert(s@.subrange(start as int, i + 1).drop_last() =~= s@.subrange(start as int, i as int));
        }
        value = value * 10 + d;
        if value > max as u64 {
            proof {
                assert(digits.take((i + 1 - start) as int) =~= s@.subrange(start as int, i + 1));
                if all_digits(digits) {
                    lemma_digits_value_mono(digits, (i + 1 - start) as int);
                }
            }
            return None;
        }
        i += 1;
    }
    Some(value as u32)
}

/// The value of `s[start..]` when it is one or more ASCII digits with a
/// value of at most `max`.
fn digits_in(s: &str, start: usize, max: u128) -> (r: Option<u128>)
    requires
        start <= s@.len(),
        max <= u64::MAX,
    ensures
        match r {
            Some(v) => {
                let d = s@.subrange(start as int, s@.len() as int);
                d.len() > 0 && all_digits(d) && digits_value(d) <= max && v as nat == digits_value(d)
            },
            None => {
                let d = s@.subrange(start as int, s@.len() as int);
                !(d.len() > 0 && all_digits(d) && digits_value(d) <= max)
            },
        },
{
    let n = s.unicode_len();
    let ghost digits = s@.subrange(start as int, n as int);
    if start >= n {
        return None;
    }
    let mut value: u128 = 0;
    let mut i: usize = start;
    while i < n
        invariant
            n == s@.len(),
            start <= i <= n,
            max <= u64::MAX,
            digits == s@.subrange(start as int, n as int),
            forall|j: int| start <= j < i ==> is_digit(#[trigger] s@[j]),
            value as nat == digits_value(s@.subrange(start as int, i as int)),
            value <= max,
        decreases n - i,
    {
        let c = s.get_char(i);
        if c < '0' || c > '9' {
            proof {
                assert(digits[i - start] == c);
                assert(!is_digit(digits[i - start]));
            }
            return None;
        }
        let d = (c as u32 - 48) as u128;
        proof {
            assert(s@.subrange(start as int, i + 1).drop_last() =~= s@.subrange(start as int, i as int));
        }
        value = value * 10 + d;
        if value > max {
            proof {
                assert(digits.take((i + 1 - start) as int) =~= s@.subrange(start as int, i + 1));
                if all_digits(digits) {
                    lemma_digits_value_mono(digits, (i + 1 - start) as int);
                }
            }
            return None;
        }
        i += 1;
    }
    proof {
        assert(s@.subrange(start as int, i as int) =~= digits);
        assert forall|j: int| 0 <= j < digits.len() implies is_digit(#[trigger] digits[j]) by {
            assert(digits[j] == s@[start + j]);
        }
    }
    Some(value)
}

/// What `str::parse::<i64>` gives: an optional `+` or `-`, then one or more
/// ASCII digits, with a value in the `i64` range.
pub open spec fn parse_signed(s: Seq<char>) -> Option<int> {
    if s.len() > 0 && s[0] == '-' {
        let d = s.drop_first();
        if d.len() > 0 && all_digits(d) && digits_value(d) <= 9223372036854775808 {
            Some(-(digits_value(d) as int))
        } else {
            None
        }
    } else {
        match parse_unsigned(s, 9223372036854775807) {
            Some(v) => Some(v as int),
            None => None,
        }
    }
}

/// Parses an `i64` as `str::parse` does.
pub fn parse_i64_str(s: &str) -> (r: Option<i64>)
    ensures
        match (r, parse_signed(s@)) {
            (Some(v), Some(w)) => v as int == w,
            (None, None) => true,
            _ => false,
        },
{
    let n = s.unicode_len();
    if n > 0 && s.get_char(0) == '-' {
        proof {
            assert(s@.subrange(1, n as int) =~= s@.drop_first());
        }
        match digits_in(s, 1, 9223372036854775808) {
            Some(v) => {
                if v == 9223372036854775808 {
                    Some(i64::MIN)
                } else {
                    Some(-(v as i64))
                }
            },
            None => None,
        }
    } else {
        let start: usize = if n > 0 && s.get_char(0) == '+' { 1 } else { 0 };
        proof {
            assert(unsigned_digits(s@) =~= s@.subrange(start as int, n as int));
        }
        match digits_in(s, start, 9223372036854775807) {
            Some(v) => Some(v as i64),
            None => None,
        }
    }
}

/// Parses a `u16` as `str::parse` does.
pub fn parse_u16_str(s: &str) -> (r: Option<u16>)
    ensures
        match (r, parse_unsigned(s@, 65535)) {
            (Some(v), Some(w)) => v as nat == w,
            (None, None) => true,
            _ => false,
        },
{
    match parse_unsigned_str(s, 65535) {
        Some(v) => Some(v as u16),
        None => None,
    }
}

/// What `str::to_lowercase` gives for a text: its Unicode lowercase mapping.
pub uninterp spec fn unicode_lowercase(s: Seq<char>) -> Seq<char>;

/// Calls `str::to_lowercase`. Its result is a function of the text alone
/// (the Unicode tables of the standard library); it is named, not stated.
#[verifier::external_body]
pub(crate) fn to_lowercase(s: &str) -> (r: String)
    ensures
        r@ == unicode_lowercase(s@),
{
    s.to_lowercase()
}

/// Whether `a` sorts before `b` as `str` does: character by character by
/// code point (the order of their UTF-8 bytes), a proper prefix first.
pub open spec fn text_lt(a: Seq<char>, b: Seq<char>) -> bool
    decreases a.len(),
{
    if a.len() == 0 {
        b.len() > 0
    } else if b.len() == 0 {
        false
    } else if a[0] != b[0] {
        a[0] < b[0]
    } else {
        text_lt(a.drop_first(), b.drop_first())
    }
}

proof fn lemma_text_lt_skip(a: Seq<char>, b: Seq<char>, i: int)
    requires
        0 <= i < a.len(),
        i < b.len(),
        a[i] == b[i],
    ensures
        text_lt(a.skip(i), b.skip(i)) == text_lt(a.skip(i + 1), b.skip(i + 1)),
{
    assert(a.skip(i).drop_first() =~= a.skip(i + 1));
    assert(b.skip(i).drop_first() =~= b.skip(i + 1));
}

/// Compares two texts as `str`'s `<` does.
pub fn text_less(a: &str, b: &str) -> (r: bool)
    ensures
        r == text_lt(a@, b@),
{
    let n = a.unicode_len();
    let m = b.unicode_len();
    let mut i: usize = 0;
    assert(a@.skip(0) =~= a@);
    assert(b@.skip(0) =~= b@);
    while i < n && i < m
        invariant
            n == a@.len(),
            m == b@.len(),
            i <= n,
            i <= m,
            text_lt(a@, b@) == text_lt(a@.skip(i as int), b@.skip(i as int)),
        decreases n - i,
    {
        let x = a.get_char(i);
        let y = b.get_char(i);
        if x != y {
            return x < y;
        }
        proof {
            lemma_text_lt_skip(a@, b@, i as int);
        }
        i += 1;
    }
    i < m
}

/// `text_lt` is a strict total order: never `a < a`, never both `a < b`
/// and `b < a`, transitive, and any two different texts are ordered.
pub proof fn lemma_text_lt_order(a: Seq<char>, b: Seq<char>, c: Seq<char>)
    ensures
        !text_lt(a, a),
        text_lt(a, b) ==> !text_lt(b, a),
        text_lt(a, b) && text_lt(b, c) ==> text_lt(a, c),
        a != b ==> text_lt(a, b) || text_lt(b, a),
    decreases a.len(),
{
    if a.len() > 0 && b.len() > 0 && c.len() > 0 {
        lemma_text_lt_order(a.drop_first(), b.drop_first(), c.drop_first());
    } else if a.len() > 0 && b.len() > 0 {
        lemma_text_lt_order(a.drop_first(), b.drop_first(), b.drop_first());
    } else if a.len() > 0 {
        lemma_text_lt_order(a.drop_first(), a.drop_first(), a.drop_first());
    }
    if a.len() > 0 && b.len() > 0 && a[0] == b[0] && a != b {
        assert(a.drop_first() != b.drop_first()) by {
            if a.drop_first() == b.drop_first() {
                assert(a =~= seq![a[0]] + a.drop_first());
                assert(b =~= seq![b[0]] + b.drop_first());
            }
        }
    }
    if a.len() == 0 && b.len() == 0 {
        assert(a =~= b);
    }
}

} // verus!
