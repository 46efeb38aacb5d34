//! Text helpers: moving between strings and character sequences, and the
//! decimal and hexadecimal forms in which the wire carries some numbers.

use vstd::prelude::*;
use vstd::string::*;

verus! {

/// Appends one character to a string. Wraps `String::push` of the standard
/// library, which adds the character at the end and changes nothing else.
#[verifier::external_body]
pub(crate) fn push_char(s: &mut String, c: char)
    ensures
        final(s)@ == old(s)@.push(c),
{
    s.push(c)
}

/// An optional text as a mathematical value.
pub open spec fn spec_text(text: Option<String>) -> Option<Seq<char>> {
    match text {
        Some(t) => Some(t@),
        None => None,
    }
}

/// The characters of a string slice, in order.
pub fn chars_of(s: &str) -> (chars: Vec<char>)
    ensures
        chars@ == s@,
{
    let n: usize = s.unicode_len();
    let mut chars: Vec<char> = Vec::new();
    let mut i: usize = 0;
    while i < n
        invariant
            n == s@.len(),
            i <= n,
            chars@ == s@.subrange(0, i as int),
        decreases n - i,
    {
        let c = s.get_char(i);
        chars.push(c);
        i = i + 1;
        assert(chars@ =~= s@.subrange(0, i as int));
    }
    assert(s@.subrange(0, n as int) =~= s@);
    chars
}

/// The string made of the characters `chars[from..to]`.
pub fn string_of(chars: &Vec<char>, from: usize, to: usize) -> (s: String)
    requires
        from <= to <= chars.len(),
    ensures
        s@ == chars@.subrange(from as int, to as int),
{
    let mut s = String::new();
    let mut i: usize = from;
    while i < to
        invariant
            from <= i <= to <= chars.len(),
            s@ == chars@.subrange(from as int, i as int),
        decreases to - i,
    {
        push_char(&mut s, chars[i]);
        i = i + 1;
        assert(s@ =~= chars@.subrange(from as int, i as int));
    }
    s
}

/// Whether the characters `chars[from..to]` spell `word`.
pub fn slice_equals(chars: &Vec<char>, from: usize, to: usize, word: &str) -> (same: bool)
    requires
        from <= to <= chars.len(),
    ensures
        same == (chars@.subrange(from as int, to as int) == word@),
{
    let n: usize = word.unicode_len();
    if to - from != n {
        return false;
    }
    let mut i: usize = 0;
    while i < n
        invariant
            from <= to <= chars.len(),
            to - from == n,
            n == word@.len(),
            i <= n,
            forall|j: int| 0 <= j < i ==> chars@[from + j] == word@[j],
        decreases n - i,
    {
        if chars[from + i] != word.get_char(i) {
            assert(chars@.subrange(from as int, to as int)[i as int] != word@[i as int]);
            return false;
        }
        i = i + 1;
    }
    assert(chars@.subrange(from as int, to as int) =~= word@);
    true
}

// ---------------------------------------------------------------------
// Decimal text
// ---------------------------------------------------------------------

/// Whether `c` is one of the ten decimal digits.
pub open spec fn is_dec_digit(c: char) -> bool {
    '0' <= c <= '9'
}

/// The value of a decimal digit.
pub open spec fn dec_digit_value(c: char) -> nat {
    (c as u32 - '0' as u32) as nat
}

/// The decimal digit that stands for `d`, for `d` below ten.
pub open spec fn dec_digit_char(d: nat) -> char {
    (d + '0' as u32) as char
}

/// Whether every character of `s` is a decimal digit.
pub open spec fn all_dec_digits(s: Seq<char>) -> bool {
    forall|i: int| 0 <= i < s.len() ==> is_dec_digit(#[trigger] s[i])
}

/// The number that a sequence of decimal digits denotes, most significant
/// digit first; the empty sequence denotes zero.
pub open spec fn dec_value(s: Seq<char>) -> nat
    decreases s.len(),
{
    if s.len() == 0 {
        0
    } else {
        dec_value(s.drop_last()) * 10 + dec_digit_value(s.last())
    }
}

/// The shortest decimal form of `n`: no sign, no leading zero but for zero
/// itself.
pub open spec fn dec_digits(n: nat) -> Seq<char>
    decreases n,
{
    if n < 10 {
        seq![dec_digit_char(n)]
    } else {
        dec_digits(n / 10).push(dec_digit_char(n % 10))
    }
}

/// The decimal form of a signed number: a minus sign before the digits of a
/// negative one.
pub open spec fn signed_dec_digits(n: int) -> Seq<char> {
    if n < 0 {
        seq!['-'] + dec_digits((-n) as nat)
    } else {
        dec_digits(n as nat)
    }
}

/// What an unsigned decimal text denotes: an optional plus sign, then at
/// least one digit, the whole no greater than `max`. Anything else denotes
/// nothing.
pub open spec fn parse_unsigned_dec(s: Seq<char>, max: nat) -> Option<nat> {
    let body = if s.len() > 0 && s[0] == '+' {
        s.subrange(1, s.len() as int)
    } else {
        s
    };
    if body.len() > 0 && all_dec_digits(body) && dec_value(body) <= max {
        Some(dec_value(body))
    } else {
        None
    }
}

/// What a signed 32-bit decimal text denotes: an optional sign, then at least
/// one digit, the whole within the range of `i32`.
pub open spec fn parse_signed_dec(s: Seq<char>) -> Option<int> {
    if s.len() > 0 && s[0] == '-' {
        let body = s.subrange(1, s.len() as int);
        if body.len() > 0 && all_dec_digits(body) && dec_value(body) <= 0x8000_0000 {
            Some(-(dec_value(body) as int))
        } else {
            None
        }
    } else {
        match parse_unsigned_dec(s, 0x7fff_ffff) {
            Some(v) => Some(v as int),
            None => None,
        }
    }
}

/// The value of a digit sequence never shrinks when digits are added behind.
pub proof fn lemma_dec_value_prefix(s: Seq<char>, k: int)
    requires
        0 <= k <= s.len(),
    ensures
        dec_value(s.subrange(0, k)) <= dec_value(s),
    decreases s.len(),
{
    if k == s.len() {
        assert(s.subrange(0, k) =~= s);
    } else {
        lemma_dec_value_prefix(s.drop_last(), k);
        assert(s.drop_last().subrange(0, k) =~= s.subrange(0, k));
    }
}

/// The digits of a number are digits, at least one, and denote the number.
pub proof fn lemma_dec_digits_value(n: nat)
    ensures
        dec_digits(n).len() > 0,
        all_dec_digits(dec_digits(n)),
        dec_value(dec_digits(n)) == n,
    decreases n,
{
    if n < 10 {
        let s = dec_digits(n);
        assert(s.drop_last() =~= Seq::<char>::empty());
        assert(dec_value(s.drop_last()) == 0);
        assert(dec_digit_value(s.last()) == n);
    } else {
        lemma_dec_digits_value(n / 10);
        let s = dec_digits(n);
        assert(s.drop_last() =~= dec_digits(n / 10));
        assert(dec_digit_value(s.last()) == n % 10);
        assert forall|i: int| 0 <= i < s.len() implies is_dec_digit(#[trigger] s[i]) by {
            if i < s.len() - 1 {
                assert(s[i] == dec_digits(n / 10)[i]);
            }
        }
    }
}

/// Decoding the decimal form of an unsigned number gives the number back.
pub proof fn lemma_unsigned_dec_round_trip(n: nat, max: nat)
    requires
        n <= max,
    ensures
        parse_unsigned_dec(dec_digits(n), max) == Some(n),
{
    lemma_dec_digits_value(n);
    let s = dec_digits(n);
    assert(is_dec_digit(s[0]));
}

/// Decoding the decimal form of a signed 32-bit number gives the number back.
pub proof fn lemma_signed_dec_round_trip(n: int)
    requires
        -0x8000_0000 <= n <= 0x7fff_ffff,
    ensures
        parse_signed_dec(signed_dec_digits(n)) == Some(n),
{
    if n < 0 {
        let m = (-n) as nat;
        lemma_dec_digits_value(m);
        let s = signed_dec_digits(n);
        assert(s.subrange(1, s.len() as int) =~= dec_digits(m));
    } else {
        lemma_dec_digits_value(n as nat);
        let s = dec_digits(n as nat);
        assert(is_dec_digit(s[0]));
        lemma_unsigned_dec_round_trip(n as nat, 0x7fff_ffff);
    }
}

/// Appends the decimal digits of `n` to `out`.
pub fn push_dec_digits(n: u32, out: &mut Vec<char>)
    ensures
        final(out)@ == old(out)@ + dec_digits(n as nat),
    decreases n,
{
    if n >= 10 {
        push_dec_digits(n / 10, out);
    }
    let d: u32 = n % 10;
    let c: char = digit_to_char(d);
    out.push(c);
    assert(final(out)@ =~= old(out)@ + dec_digits(n as nat));
}

/// The character of a digit below sixteen: `0` to `9`, then `a` to `f`.
pub fn digit_to_char(d: u32) -> (c: char)
    requires
        d < 16,
    ensures
        d < 10 ==> c == dec_digit_char(d as nat),
        c == hex_digit_char(d as nat),
{
    if d < 10 {
        char_from_code(d + 48)
    } else {
        char_from_code(d + 87)
    }
}

/// The character with the given code, for codes of the ASCII range.
fn char_from_code(code: u32) -> (c: char)
    requires
        code < 128,
    ensures
        c as u32 == code,
{
    let byte: u8 = code as u8;
    byte as char
}

/// Scans `chars[from..to]` as decimal digits into a number no greater than
/// `max`.
pub fn scan_dec(chars: &Vec<char>, from: usize, to: usize, max: u64) -> (value: Option<u64>)
    requires
        from <= to <= chars.len(),
        max <= 0xffff_ffff,
    ensures
        value.is_some() == {
            let body = chars@.subrange(from as int, to as int);
            body.len() > 0 && all_dec_digits(body) && dec_value(body) <= max
        },
        value matches Some(v) ==> v == dec_value(chars@.subrange(from as int, to as int)),
{
    let ghost body = chars@.subrange(from as int, to as int);
    if from == to {
        return None;
    }
    let mut acc: u64 = 0;
    let mut i: usize = from;
    while i < to
        invariant
            from <= i <= to <= chars.len(),
            max <= 0xffff_ffff,
            body == chars@.subrange(from as int, to as int),
            all_dec_digits(body.subrange(0, i - from)),
            acc == dec_value(body.subrange(0, i - from)),
            acc <= max,
        decreases to - i,
    {
        let c: char = chars[i];
        assert(c == body[i - from]);
        if c < '0' || c > '9' {
            return None;
        }
        let d: u64 = (c as u32 - '0' as u32) as u64;
        let next: u64 = acc * 10 + d;
        proof {
            let p = body.subrange(0, i - from + 1);
            assert(p.drop_last() =~= body.subrange(0, i - from));
            assert(p.last() == c);
            assert(dec_value(p) == next);
            assert forall|j: int| 0 <= j < p.len() implies is_dec_digit(#[trigger] p[j]) by {
                if j < p.len() - 1 {
                    assert(p[j] == body.subrange(0, i - from)[j]);
                }
            }
        }
        if next > max {
            proof {
                lemma_dec_value_prefix(body, i - from + 1);
            }
            return None;
        }
        acc = next;
        i = i + 1;
    }
    assert(body.subrange(0, to - from) =~= body);
    Some(acc)
}

/// The decimal text of an unsigned 32-bit number.
pub fn u32_to_decimal(x: u32) -> (s: String)
    ensures
        s@ == dec_digits(x as nat),
{
    let mut digits: Vec<char> = Vec::new();
    push_dec_digits(x, &mut digits);
    assert(digits@ =~= dec_digits(x as nat));
    let s = string_of(&digits, 0, digits.len());
    assert(digits@.subrange(0, digits.len() as int) =~= digits@);
    s
}

/// The decimal text of a signed 32-bit number.
pub fn i32_to_decimal(x: i32) -> (s: String)
    ensures
        s@ == signed_dec_digits(x as int),
{
    let mut digits: Vec<char> = Vec::new();
    if x < 0 {
        digits.push('-');
        let magnitude: u32 = if x == i32::MIN {
            0x8000_0000
        } else {
            (-x) as u32
        };
        push_dec_digits(magnitude, &mut digits);
    } else {
        push_dec_digits(x as u32, &mut digits);
    }
    assert(digits@ =~= signed_dec_digits(x as int));
    let s = string_of(&digits, 0, digits.len());
    assert(digits@.subrange(0, digits.len() as int) =~= digits@);
    s
}

/// Reads an unsigned 32-bit number from decimal text.
pub fn parse_u32_decimal(s: &str) -> (value: Option<u32>)
    ensures
        value.is_some() == parse_unsigned_dec(s@, 0xffff_ffff).is_some(),
        value matches Some(v) ==> parse_unsigned_dec(s@, 0xffff_ffff) == Some(v as nat),
{
    let chars = chars_of(s);
    assert(chars@.subrange(0, chars.len() as int) =~= chars@);
    let from: usize = if chars.len() > 0 && chars[0] == '+' {
        1
    } else {
        0
    };
    match scan_dec(&chars, from, chars.len(), 0xffff_ffff) {
        Some(v) => Some(v as u32),
        None => None,
    }
}

/// Reads a signed 32-bit number from decimal text.
pub fn parse_i32_decimal(s: &str) -> (value: Option<i32>)
    ensures
        value.is_some() == parse_signed_dec(s@).is_some(),
        value matches Some(v) ==> parse_signed_dec(s@) == Some(v as int),
{
    let chars = chars_of(s);
    assert(chars@.subrange(0, chars.len() as int) =~= chars@);
    if chars.len() > 0 && chars[0] == '-' {
        match scan_dec(&chars, 1, chars.len(), 0x8000_0000) {
            Some(v) => {
                if v == 0x8000_0000 {
                    Some(i32::MIN)
                } else {
                    Some(-(v as i32))
                }
            },
            None => None,
        }
    } else {
        let from: usize = if chars.len() > 0 && chars[0] == '+' {
            1
        } else {
            0
        };
        match scan_dec(&chars, from, chars.len(), 0x7fff_ffff) {
            Some(v) => Some(v as i32),
            None => None,
        }
    }
}

// ---------------------------------------------------------------------
// Hexadecimal text
// ---------------------------------------------------------------------

/// Whether `c` is a hexadecimal digit, in either case.
pub open spec fn is_hex_digit(c: char) -> bool {
    ('0' <= c <= '9') || ('a' <= c <= 'f') || ('A' <= c <= 'F')
}

/// The value of a hexadecimal digit.
pub open spec fn hex_digit_value(c: char) -> nat {
    if '0' <= c <= '9' {
        (c as u32 - '0' as u32) as nat
    } else if 'a' <= c <= 'f' {
        (c as u32 - 'a' as u32 + 10) as nat
    } else {
        (c as u32 - 'A' as u32 + 10) as nat
    }
}

/// The lower-case hexadecimal digit that stands for `d`, for `d` below
/// sixteen.
pub open spec fn hex_digit_char(d: nat) -> char {
    if d < 10 {
        (d + '0' as u32) as char
    } else {
        (d - 10 + 'a' as u32) as char
    }
}

/// Whether every character of `s` is a hexadecimal digit.
pub open spec fn all_hex_digits(s: Seq<char>) -> bool {
    forall|i: int| 0 <= i < s.len() ==> is_hex_digit(#[trigger] s[i])
}

/// The number that a sequence of hexadecimal digits denotes.
pub open spec fn hex_value(s: Seq<char>) -> nat
    decreases s.len(),
{
    if s.len() == 0 {
        0
    } else {
        hex_value(s.drop_last()) * 16 + hex_digit_value(s.last())
    }
}

/// The shortest lower-case hexadecimal form of `n`.
pub open spec fn hex_digits(n: nat) -> Seq<char>
    decreases n,
{
    if n < 16 {
        seq![hex_digit_char(n)]
    } else {
        hex_digits(n / 16).push(hex_digit_char(n % 16))
    }
}

/// What a hexadecimal text denotes as an unsigned 32-bit number: an optional
/// plus sign, then at least one digit, the whole within range.
pub open spec fn parse_unsigned_hex(s: Seq<char>) -> Option<nat> {
    let body = if s.len() > 0 && s[0] == '+' {
        s.subrange(1, s.len() as int)
    } else {
        s
    };
    if body.len() > 0 && all_hex_digits(body) && hex_value(body) <= 0xffff_ffff {
        Some(hex_value(body))
    } else {
        None
    }
}

/// The value of a hexadecimal digit sequence never shrinks when digits are
/// added behind.
pub proof fn lemma_hex_value_prefix(s: Seq<char>, k: int)
    requires
        0 <= k <= s.len(),
    ensures
        hex_value(s.subrange(0, k)) <= hex_value(s),
    decreases s.len(),
{
    if k == s.len() {
        assert(s.subrange(0, k) =~= s);
    } else {
        lemma_hex_value_prefix(s.drop_last(), k);
        assert(s.drop_last().subrange(0, k) =~= s.subrange(0, k));
    }
}

/// The hexadecimal digits of a number are digits, at least one, and denote
/// the number.
pub proof fn lemma_hex_digits_value(n: nat)
    ensures
        hex_digits(n).len() > 0,
        all_hex_digits(hex_digits(n)),
        hex_value(hex_digits(n)) == n,
    decreases n,
{
    if n < 16 {
        let s = hex_digits(n);
        assert(s.drop_last() =~= Seq::<char>::empty());
        assert(hex_value(s.drop_last()) == 0);
        assert(hex_digit_value(s.last()) == n);
    } else {
        lemma_hex_digits_value(n / 16);
        let s = hex_digits(n);
        assert(s.drop_last() =~= hex_digits(n / 16));
        assert(hex_digit_value(s.last()) == n % 16);
        assert forall|i: int| 0 <= i < s.len() implies is_hex_digit(#[trigger] s[i]) by {
            if i < s.len() - 1 {
                assert(s[i] == hex_digits(n / 16)[i]);
            }
        }
    }
}

/// Decoding the hexadecimal form of an unsigned 32-bit number gives the
/// number back.
pub proof fn lemma_unsigned_hex_round_trip(n: nat)
    requires
        n <= 0xffff_ffff,
    ensures
        parse_unsigned_hex(hex_digits(n)) == Some(n),
{
    lemma_hex_digits_value(n);
    let s = hex_digits(n);
    assert(is_hex_digit(s[0]));
}

/// Appends the lower-case hexadecimal digits of `n` to `out`.
pub fn push_hex_digits(n: u32, out: &mut Vec<char>)
    ensures
        final(out)@ == old(out)@ + hex_digits(n as nat),
    decreases n,
{
    if n >= 16 {
        push_hex_digits(n / 16, out);
    }
    let d: u32 = n % 16;
    let c: char = digit_to_char(d);
    out.push(c);
    assert(final(out)@ =~= old(out)@ + hex_digits(n as nat));
}

/// The lower-case hexadecimal text of an unsigned 32-bit number.
pub fn u32_to_hex(x: u32) -> (s: String)
    ensures
        s@ == hex_digits(x as nat),
{
    let mut digits: Vec<char> = Vec::new();
    push_hex_digits(x, &mut digits);
    assert(digits@ =~= hex_digits(x as nat));
    let s = string_of(&digits, 0, digits.len());
    assert(digits@.subrange(0, digits.len() as int) =~= digits@);
    s
}

/// Scans `chars[from..]` as hexadecimal digits into an unsigned 32-bit
/// number.
pub fn scan_hex(chars: &Vec<char>, from: usize) -> (value: Option<u32>)
    requires
        from <= chars.len(),
    ensures
        value.is_some() == {
            let body = chars@.subrange(from as int, chars.len() as int);
            body.len() > 0 && all_hex_digits(body) && hex_value(body) <= 0xffff_ffff
        },
        value matches Some(v) ==> v == hex_value(
            chars@.subrange(from as int, chars.len() as int),
        ),
{
    let ghost body = chars@.subrange(from as int, chars.len() as int);
    let n: usize = chars.len();
    if from == n {
        return None;
    }
    let mut acc: u64 = 0;
    let mut i: usize = from;
    while i < n
        invariant
            from <= i <= n,
            n == chars.len(),
            body == chars@.subrange(from as int, n as int),
            all_hex_digits(body.subrange(0, i - from)),
            acc == hex_value(body.subrange(0, i - from)),
            acc <= 0xffff_ffff,
        decreases n - i,
    {
        let c: char = chars[i];
        assert(c == body[i - from]);
        let d: u64 = if '0' <= c && c <= '9' {
            (c as u32 - '0' as u32) as u64
        } else if 'a' <= c && c <= 'f' {
            (c as u32 - 'a' as u32 + 10) as u64
        } else if 'A' <= c && c <= 'F' {
            (c as u32 - 'A' as u32 + 10) as u64
        } else {
            assert(!is_hex_digit(body[i - from]));
            return None;
        };
        let next: u64 = acc * 16 + d;
        proof {
            let p = body.subrange(0, i - from + 1);
            assert(p.drop_last() =~= body.subrange(0, i - from));
            assert(p.last() == c);
            assert(hex_value(p) == next);
            assert forall|j: int| 0 <= j < p.len() implies is_hex_digit(#[trigger] p[j]) by {
                if j < p.len() - 1 {
                    assert(p[j] == body.subrange(0, i - from)[j]);
                }
            }
        }
        if next > 0xffff_ffff {
            proof {
                lemma_hex_value_prefix(body, i - from + 1);
            }
            return None;
        }
        acc = next;
        i = i + 1;
    }
    assert(body.subrange(0, n - from) =~= body);
    Some(acc as u32)
}

/// Reads an unsigned 32-bit number from hexadecimal text.
pub fn parse_u32_hex(s: &str) -> (value: Option<u32>)
    ensures
        value.is_some() == parse_unsigned_hex(s@).is_some(),
        value matches Some(v) ==> parse_unsigned_hex(s@) == Some(v as nat),
{
    let chars = chars_of(s);
    assert(chars@.subrange(0, chars.len() as int) =~= chars@);
    let from: usize = if chars.len() > 0 && chars[0] == '+' {
        1
    } else {
        0
    };
    scan_hex(&chars, from)
}

} // verus!
