//! Decimal numbers as they appear in the fields of a data frame.

use vstd::prelude::*;
use vstd::utf8::*;
use crate::text::{ascii_chars, ascii_text, bytes_of, is_ascii_bytes};

verus! {

/// The byte of `+`.
pub const PLUS: u8 = 0x2b;

/// The byte of `-`.
pub const MINUS: u8 = 0x2d;

/// The byte of `.`.
pub const DOT: u8 = 0x2e;

/// The byte of the digit `0`.
pub const ZERO: u8 = 0x30;

/// The byte of the digit `9`.
pub const NINE: u8 = 0x39;

/// Whether a byte is a decimal digit.
pub open spec fn is_digit(b: u8) -> bool {
    ZERO <= b <= NINE
}

/// Whether every byte is a decimal digit.
pub open spec fn all_digits(s: Seq<u8>) -> bool {
    forall|i: int| 0 <= i < s.len() ==> is_digit(#[trigger] s[i])
}

/// The number that a run of decimal digits denotes.
pub open spec fn digits_value(s: Seq<u8>) -> nat
    decreases s.len(),
{
    if s.len() == 0 {
        0
    } else {
        digits_value(s.drop_last()) * 10 + (s.last() - ZERO) as nat
    }
}

/// The magnitude of an unsigned literal: an optional `+`, then one or more
/// digits. Leading zeros are allowed; anything else, blanks included, is not.
pub open spec fn unsigned_literal(s: Seq<u8>) -> Option<nat> {
    let digits = if s.len() > 0 && s[0] == PLUS {
        s.skip(1)
    } else {
        s
    };
    if digits.len() > 0 && all_digits(digits) {
        Some(digits_value(digits))
    } else {
        None
    }
}

/// The value of a signed literal: an optional `+` or `-`, then one or more
/// digits.
pub open spec fn signed_literal(s: Seq<u8>) -> Option<int> {
    if s.len() > 0 && s[0] == MINUS {
        let digits = s.skip(1);
        if digits.len() > 0 && all_digits(digits) {
            Some(-(digits_value(digits) as int))
        } else {
            None
        }
    } else {
        match unsigned_literal(s) {
            Some(n) => Some(n as int),
            None => None,
        }
    }
}

/// The number that a text denotes, where it is an unsigned literal within
/// 64 bits.
pub open spec fn u64_of(s: Seq<u8>) -> Option<u64> {
    match unsigned_literal(s) {
        Some(n) => if n <= u64::MAX {
            Some(n as u64)
        } else {
            None
        },
        None => None,
    }
}

/// The number that a text denotes, where it is an unsigned literal within
/// 32 bits.
pub open spec fn u32_of(s: Seq<u8>) -> Option<u32> {
    match unsigned_literal(s) {
        Some(n) => if n <= u32::MAX {
            Some(n as u32)
        } else {
            None
        },
        None => None,
    }
}

/// The number that a text denotes, where it is a signed literal within 64
/// bits.
pub open spec fn i64_of(s: Seq<u8>) -> Option<i64> {
    match signed_literal(s) {
        Some(n) => if i64::MIN <= n <= i64::MAX {
            Some(n as i64)
        } else {
            None
        },
        None => None,
    }
}

/// The number that a text denotes, where it is a signed literal within 32
/// bits.
pub open spec fn i32_of(s: Seq<u8>) -> Option<i32> {
    match signed_literal(s) {
        Some(n) => if i32::MIN <= n <= i32::MAX {
            Some(n as i32)
        } else {
            None
        },
        None => None,
    }
}

/// A run of digits is worth at least as much as any of its prefixes.
pub proof fn lemma_digits_prefix(s: Seq<u8>, k: int)
    requires
        0 <= k <= s.len(),
    ensures
        digits_value(s.take(k)) <= digits_value(s),
    decreases s.len(),
{
    if k == s.len() {
        assert(s.take(k) == s);
    } else {
        lemma_digits_prefix(s.drop_last(), k);
        assert(s.drop_last().take(k) == s.take(k));
    }
}

/// Reads the digits of `s` from `from` on. Returns their value where there is
/// at least one, all are digits and the value does not exceed `limit`.
fn read_digits(s: &[u8], from: usize, limit: u64) -> (r: Option<u64>)
    requires
        from <= s.len(),
    ensures
        r == if s@.skip(from as int).len() > 0 && all_digits(s@.skip(from as int)) && digits_value(
            s@.skip(from as int),
        ) <= limit {
            Some(digits_value(s@.skip(from as int)) as u64)
        } else {
            None
        },
{
    let ghost t = s@.skip(from as int);
    if from == s.len() {
        return None;
    }
    let mut acc: u64 = 0;
    let mut i: usize = from;
    while i < s.len()
        invariant
            from <= i <= s.len(),
            t == s@.skip(from as int),
            all_digits(t.take(i - from)),
            acc == digits_value(t.take(i - from)),
            acc <= limit,
        decreases s.len() - i,
    {
        let b: u8 = s[i];
        let ghost next = t.take(i - from + 1);
        proof {
            assert(next.drop_last() == t.take(i - from));
            assert(next.last() == b);
            assert(t[i - from] == b);
        }
        if b < ZERO || b > NINE {
            return None;
        }
        let d: u64 = (b - ZERO) as u64;
        if limit < d || acc > (limit - d) / 10 {
            proof {
                if all_digits(t) {
                    lemma_digits_prefix(t, i - from + 1);
                    assert(digits_value(next) == acc * 10 + d);
                }
            }
            return None;
        }
        acc = acc * 10 + d;
        i = i + 1;
    }
    proof {
        assert(t.take(i - from) == t);
    }
    Some(acc)
}

/// Reads an unsigned number of 64 bits; `None` for anything that is not one
/// in full.
pub fn parse_u64(s: &[u8]) -> (r: Option<u64>)
    ensures
        r == u64_of(s@),
{
    let from: usize = if s.len() > 0 && s[0] == PLUS {
        1
    } else {
        0
    };
    proof {
        assert(s@.skip(0) == s@);
    }
    read_digits(s, from, u64::MAX)
}

/// Reads an unsigned number of 32 bits; `None` for anything that is not one
/// in full.
pub fn parse_u32(s: &[u8]) -> (r: Option<u32>)
    ensures
        r == u32_of(s@),
{
    let from: usize = if s.len() > 0 && s[0] == PLUS {
        1
    } else {
        0
    };
    proof {
        assert(s@.skip(0) == s@);
    }
    match read_digits(s, from, 0xffff_ffff) {
        Some(v) => Some(v as u32),
        None => None,
    }
}

/// Reads a signed number of 64 bits; `None` for anything that is not one in
/// full.
pub fn parse_i64(s: &[u8]) -> (r: Option<i64>)
    ensures
        r == i64_of(s@),
{
    proof {
        assert(s@.skip(0) == s@);
    }
    if s.len() > 0 && s[0] == MINUS {
        match read_digits(s, 1, 0x8000_0000_0000_0000) {
            Some(v) => if v == 0x8000_0000_0000_0000 {
                Some(i64::MIN)
            } else {
                Some(0 - (v as i64))
            },
            None => None,
        }
    } else {
        let from: usize = if s.len() > 0 && s[0] == PLUS {
            1
        } else {
            0
        };
        match read_digits(s, from, 0x7fff_ffff_ffff_ffff) {
            Some(v) => Some(v as i64),
            None => None,
        }
    }
}

/// Reads a signed number of 32 bits; `None` for anything that is not one in
/// full.
pub fn parse_i32(s: &[u8]) -> (r: Option<i32>)
    ensures
        r == i32_of(s@),
{
    proof {
        assert(s@.skip(0) == s@);
    }
    if s.len() > 0 && s[0] == MINUS {
        match read_digits(s, 1, 0x8000_0000) {
            Some(v) => Some((0 - (v as i64)) as i32),
            None => None,
        }
    } else {
        let from: usize = if s.len() > 0 && s[0] == PLUS {
            1
        } else {
            0
        };
        match read_digits(s, from, 0x7fff_ffff) {
            Some(v) => Some(v as i32),
            None => None,
        }
    }
}

/// The lower-case form of an ASCII letter; any other byte is unchanged.
pub open spec fn lower(b: u8) -> u8 {
    if 0x41 <= b <= 0x5a {
        (b + 0x20) as u8
    } else {
        b
    }
}

/// Whether `t` spells `word`, letters compared without regard to case.
pub open spec fn spells(t: Seq<u8>, word: Seq<u8>) -> bool {
    &&& t.len() == word.len()
    &&& forall|i: int| 0 <= i < t.len() ==> lower(#[trigger] t[i]) == word[i]
}

/// Where the run of digits that starts at `from` ends.
pub open spec fn digits_end(t: Seq<u8>, from: int) -> int
    decreases t.len() - from,
{
    if 0 <= from < t.len() && is_digit(t[from]) {
        digits_end(t, from + 1)
    } else {
        from
    }
}

/// Whether a byte is `e` or `E`.
pub open spec fn is_exponent_mark(b: u8) -> bool {
    b == 0x65 || b == 0x45
}

/// Whether a byte is `+` or `-`.
pub open spec fn is_sign(b: u8) -> bool {
    b == PLUS || b == MINUS
}

/// `Digit+ | Digit+ '.' Digit* | Digit* '.' Digit+`: digits with at most one
/// dot among them, and at least one digit.
pub open spec fn is_mantissa(m: Seq<u8>) -> bool {
    ||| m.len() > 0 && all_digits(m)
    ||| exists|k: int|
        #![trigger m.take(k)]
        0 <= k < m.len() && m[k] == DOT && m.len() >= 2 && all_digits(m.take(k)) && all_digits(
            m.skip(k + 1),
        )
}

/// `'e' Sign? Digit+`, the `e` in either case.
pub open spec fn is_exponent(x: Seq<u8>) -> bool {
    &&& x.len() >= 2
    &&& is_exponent_mark(x[0])
    &&& {
        let digits = if is_sign(x[1]) {
            x.skip(2)
        } else {
            x.skip(1)
        };
        digits.len() > 0 && all_digits(digits)
    }
}

/// `Number ::= Mantissa Exp?`: a mantissa, alone or followed by an exponent.
pub open spec fn is_number(t: Seq<u8>) -> bool {
    exists|k: int|
        #![trigger t.take(k)]
        0 <= k <= t.len() && is_mantissa(t.take(k)) && (k == t.len() || is_exponent(t.skip(k)))
}

/// What a scan from the left finds: the longest run of digits, a dot and
/// another run if a dot follows, then either the end or an exponent that
/// reaches to the end.
pub open spec fn scans_as_number(t: Seq<u8>) -> bool {
    let whole_end = digits_end(t, 0);
    let has_dot = whole_end < t.len() && t[whole_end] == DOT;
    let mantissa_end = if has_dot {
        digits_end(t, whole_end + 1)
    } else {
        whole_end
    };
    let mantissa_digits = if has_dot {
        mantissa_end - 1
    } else {
        mantissa_end
    };
    let exponent_from = if mantissa_end + 1 < t.len() && is_sign(t[mantissa_end + 1]) {
        mantissa_end + 2
    } else {
        mantissa_end + 1
    };
    &&& mantissa_digits > 0
    &&& mantissa_end == t.len() || {
        &&& is_exponent_mark(t[mantissa_end])
        &&& exponent_from < t.len()
        &&& digits_end(t, exponent_from) == t.len()
    }
}

/// A run of digits ends within the text, holds digits only, and stops at
/// the end or before a byte that is no digit.
pub proof fn lemma_digits_end(t: Seq<u8>, from: int)
    requires
        0 <= from <= t.len(),
    ensures
        from <= digits_end(t, from) <= t.len(),
        forall|i: int| from <= i < digits_end(t, from) ==> is_digit(#[trigger] t[i]),
        digits_end(t, from) == t.len() || !is_digit(t[digits_end(t, from)]),
    decreases t.len() - from,
{
    if from < t.len() && is_digit(t[from]) {
        lemma_digits_end(t, from + 1);
    }
}

/// A run of digits ends where the first byte that is no digit stands.
pub proof fn lemma_digits_end_at(t: Seq<u8>, from: int, end: int)
    requires
        0 <= from <= end <= t.len(),
        forall|i: int| from <= i < end ==> is_digit(#[trigger] t[i]),
        end == t.len() || !is_digit(t[end]),
    ensures
        digits_end(t, from) == end,
    decreases end - from,
{
    if from < end {
        assert(is_digit(t[from]));
        lemma_digits_end_at(t, from + 1, end);
    }
}

/// What the scan from the left accepts is a text of the grammar.
proof fn lemma_scan_in_grammar(t: Seq<u8>)
    requires
        scans_as_number(t),
    ensures
        is_number(t),
{
    let a = digits_end(t, 0);
    lemma_digits_end(t, 0);
    let has_dot = a < t.len() && t[a] == DOT;
    let b = if has_dot {
        digits_end(t, a + 1)
    } else {
        a
    };
    if has_dot {
        lemma_digits_end(t, a + 1);
    }
    let from = if b + 1 < t.len() && is_sign(t[b + 1]) {
        b + 2
    } else {
        b + 1
    };
    let m = t.take(b);
    if has_dot {
        assert(m[a] == DOT);
        assert(all_digits(m.take(a)));
        assert(all_digits(m.skip(a + 1))) by {
            assert forall|i: int| 0 <= i < m.skip(a + 1).len() implies is_digit(
                #[trigger] m.skip(a + 1)[i],
            ) by {
                assert(m.skip(a + 1)[i] == t[a + 1 + i]);
            }
        }
        assert(is_mantissa(m));
    } else {
        assert(all_digits(m));
    }
    if b < t.len() {
        let x = t.skip(b);
        lemma_digits_end(t, from);
        let digits = if is_sign(x[1]) {
            x.skip(2)
        } else {
            x.skip(1)
        };
        assert(digits == t.skip(from));
        assert forall|i: int| 0 <= i < digits.len() implies is_digit(#[trigger] digits[i]) by {
            assert(digits[i] == t[from + i]);
        }
        assert(is_exponent(x));
    }
    assert(is_mantissa(t.take(b)) && (b == t.len() || is_exponent(t.skip(b))));
}

/// Where the mantissa of a text of the grammar ends, the scan from the left
/// ends its mantissa too.
proof fn lemma_mantissa_ends(t: Seq<u8>, k: int)
    requires
        0 <= k <= t.len(),
        is_mantissa(t.take(k)),
        k == t.len() || !is_digit(t[k]) && t[k] != DOT,
    ensures
        ({
            let a = digits_end(t, 0);
            let has_dot = a < t.len() && t[a] == DOT;
            let b = if has_dot {
                digits_end(t, a + 1)
            } else {
                a
            };
            &&& b == k
            &&& if has_dot {
                b - 1 > 0
            } else {
                b > 0
            }
        }),
{
    let m = t.take(k);
    if m.len() > 0 && all_digits(m) {
        assert forall|i: int| 0 <= i < k implies is_digit(#[trigger] t[i]) by {
            assert(m[i] == t[i]);
        }
        lemma_digits_end_at(t, 0, k);
    } else {
        let d = choose|d: int|
            #![trigger m.take(d)]
            0 <= d < m.len() && m[d] == DOT && m.len() >= 2 && all_digits(m.take(d)) && all_digits(
                m.skip(d + 1),
            );
        assert(t[d] == m[d]);
        assert forall|i: int| 0 <= i < d implies is_digit(#[trigger] t[i]) by {
            assert(m.take(d)[i] == t[i]);
        }
        lemma_digits_end_at(t, 0, d);
        assert forall|i: int| d + 1 <= i < k implies is_digit(#[trigger] t[i]) by {
            assert(m.skip(d + 1)[i - d - 1] == t[i]);
        }
        lemma_digits_end_at(t, d + 1, k);
    }
}

/// A text of the grammar is accepted by the scan from the left.
proof fn lemma_grammar_in_scan(t: Seq<u8>)
    requires
        is_number(t),
    ensures
        scans_as_number(t),
{
    let k = choose|k: int|
        #![trigger t.take(k)]
        0 <= k <= t.len() && is_mantissa(t.take(k)) && (k == t.len() || is_exponent(t.skip(k)));
    if k < t.len() {
        assert(t.skip(k)[0] == t[k]);
    }
    lemma_mantissa_ends(t, k);
    if k < t.len() {
        let x = t.skip(k);
        assert(x[1] == t[k + 1]);
        let from = if is_sign(x[1]) {
            k + 2
        } else {
            k + 1
        };
        let digits = if is_sign(x[1]) {
            x.skip(2)
        } else {
            x.skip(1)
        };
        assert(digits == t.skip(from));
        assert forall|i: int| from <= i < t.len() implies is_digit(#[trigger] t[i]) by {
            assert(digits[i - from] == t[i]);
        }
        lemma_digits_end_at(t, from, t.len() as int);
    }
}

/// The scan from the left accepts exactly the texts of the grammar.
pub proof fn lemma_scan_is_grammar(t: Seq<u8>)
    ensures
        scans_as_number(t) == is_number(t),
{
    if scans_as_number(t) {
        lemma_scan_in_grammar(t);
    }
    if is_number(t) {
        lemma_grammar_in_scan(t);
    }
}

/// Whether `s` is the text of a decimal number with an optional fraction and
/// exponent, or one of the words `inf`, `infinity` and `nan`, after an
/// optional sign:
///
/// ```text
/// Text     ::= Sign? ( 'inf' | 'infinity' | 'nan' | Number )
/// Number   ::= Mantissa Exp?
/// Mantissa ::= Digit+ | Digit+ '.' Digit* | Digit* '.' Digit+
/// Exp      ::= 'e' Sign? Digit+
/// ```
///
/// Letters count in either case, and blanks are not accepted anywhere.
pub open spec fn is_decimal_text(s: Seq<u8>) -> bool {
    let t = if s.len() > 0 && is_sign(s[0]) {
        s.skip(1)
    } else {
        s
    };
    &&& is_ascii_bytes(s)
    &&& {
        ||| spells(t, bytes_of("inf"@))
        ||| spells(t, bytes_of("infinity"@))
        ||| spells(t, bytes_of("nan"@))
        ||| is_number(t)
    }
}

fn is_ascii(s: &[u8]) -> (r: bool)
    ensures
        r == is_ascii_bytes(s@),
{
    let mut i: usize = 0;
    while i < s.len()
        invariant
            0 <= i <= s.len(),
            forall|j: int| 0 <= j < i ==> #[trigger] s@[j] < 128,
        decreases s.len() - i,
    {
        if s[i] >= 128 {
            return false;
        }
        i = i + 1;
    }
    true
}

fn spells_word(s: &[u8], from: usize, word: &str) -> (r: bool)
    requires
        from <= s.len(),
    ensures
        r == spells(s@.skip(from as int), bytes_of(word@)),
{
    let w: &[u8] = word.as_bytes();
    if s.len() - from != w.len() {
        return false;
    }
    let ghost t = s@.skip(from as int);
    let mut i: usize = 0;
    while i < w.len()
        invariant
            0 <= i <= w.len(),
            from <= s.len(),
            s.len() - from == w.len(),
            t == s@.skip(from as int),
            w@ == bytes_of(word@),
            forall|j: int| 0 <= j < i ==> lower(#[trigger] t[j]) == w@[j],
        decreases w.len() - i,
    {
        let b: u8 = s[from + i];
        let low: u8 = if 0x41 <= b && b <= 0x5a {
            b + 0x20
        } else {
            b
        };
        assert(t[i as int] == b);
        if low != w[i] {
            return false;
        }
        i = i + 1;
    }
    true
}

fn skip_digits(s: &[u8], from: usize, base: usize) -> (end: usize)
    requires
        base <= from <= s.len(),
    ensures
        from <= end <= s.len(),
        end - base == digits_end(s@.skip(base as int), from - base),
{
    let ghost t = s@.skip(base as int);
    let mut i: usize = from;
    while i < s.len() && ZERO <= s[i] && s[i] <= NINE
        invariant
            from <= i <= s.len(),
            base <= from,
            t == s@.skip(base as int),
            digits_end(t, from - base) == digits_end(t, i - base),
        decreases s.len() - i,
    {
        assert(t[i - base] == s@[i as int]);
        i = i + 1;
    }
    proof {
        if i < s.len() {
            assert(t[i - base] == s@[i as int]);
        }
    }
    i
}

fn check_number(s: &[u8], base: usize) -> (r: bool)
    requires
        base <= s.len(),
    ensures
        r == is_number(s@.skip(base as int)),
{
    let ghost t = s@.skip(base as int);
    proof {
        lemma_scan_is_grammar(t);
    }
    let whole_end: usize = skip_digits(s, base, base);
    proof {
        if whole_end < s.len() {
            assert(t[whole_end - base] == s@[whole_end as int]);
        }
    }
    let has_dot: bool = whole_end < s.len() && s[whole_end] == DOT;
    let mantissa_end: usize = if has_dot {
        skip_digits(s, whole_end + 1, base)
    } else {
        whole_end
    };
    let mantissa_digits: usize = if has_dot {
        mantissa_end - base - 1
    } else {
        mantissa_end - base
    };
    if mantissa_digits == 0 {
        return false;
    }
    if mantissa_end == s.len() {
        return true;
    }
    proof {
        assert(t[mantissa_end - base] == s@[mantissa_end as int]);
        if mantissa_end + 1 < s.len() {
            assert(t[mantissa_end + 1 - base] == s@[mantissa_end + 1]);
        }
    }
    let mark: u8 = s[mantissa_end];
    if mark != 0x65 && mark != 0x45 {
        return false;
    }
    let exponent_from: usize = if mantissa_end + 1 < s.len() && (s[mantissa_end + 1] == PLUS
        || s[mantissa_end + 1] == MINUS) {
        mantissa_end + 2
    } else {
        mantissa_end + 1
    };
    if exponent_from >= s.len() {
        return false;
    }
    skip_digits(s, exponent_from, base) == s.len()
}

/// Whether `s` is the text of a decimal number.
pub fn check_decimal(s: &[u8]) -> (r: bool)
    ensures
        r == is_decimal_text(s@),
{
    if !is_ascii(s) {
        return false;
    }
    let from: usize = if s.len() > 0 && (s[0] == PLUS || s[0] == MINUS) {
        1
    } else {
        0
    };
    proof {
        assert(s@.skip(0) == s@);
    }
    spells_word(s, from, "inf") || spells_word(s, from, "infinity") || spells_word(s, from, "nan")
        || check_number(s, from)
}

/// A decimal number with a fraction, kept as the text it was written in.
///
/// The text is always one that [`is_decimal_text`] accepts, so converting it
/// to a binary floating-point value cannot fail.
#[derive(Debug)]
pub struct Decimal {
    text: String,
}

impl Clone for Decimal {
    fn clone(&self) -> (r: Self)
        ensures
            r@ == self@,
    {
        proof {
            use_type_invariant(self);
        }
        Decimal { text: self.text.clone() }
    }
}

impl View for Decimal {
    type V = Seq<char>;

    closed spec fn view(&self) -> Seq<char> {
        self.text@
    }
}

impl Decimal {
    #[verifier::type_invariant]
    spec fn well_formed(self) -> bool {
        is_decimal_text(bytes_of(self.text@))
    }

    /// The number written in `field`, or `None` where `field` is not the text
    /// of a decimal number.
    pub fn parse(field: &[u8]) -> (r: Option<Decimal>)
        ensures
            r.is_some() == is_decimal_text(field@),
            r matches Some(d) ==> bytes_of(d@) == field@ && d@ == ascii_chars(field@),
    {
        if check_decimal(field) {
            let text = ascii_text(field);
            Some(Decimal { text })
        } else {
            None
        }
    }

    /// The text of the number.
    pub fn text(&self) -> (r: &str)
        ensures
            r@ == self@,
            is_decimal_text(bytes_of(r@)),
    {
        proof {
            use_type_invariant(self);
        }
        self.text.as_str()
    }
}

/// The decimal digits of `n`, padded with zeros on the left to `width`
/// digits where it has fewer.
pub open spec fn padded(n: nat, width: nat) -> Seq<u8>
    decreases n, width,
{
    if n < 10 && width <= 1 {
        seq![(0x30 + n) as u8]
    } else {
        let rest = if width > 0 {
            (width - 1) as nat
        } else {
            0
        };
        padded(n / 10, rest).push((0x30 + n % 10) as u8)
    }
}

/// The decimal digits of a number, without sign or leading zeros.
pub open spec fn decimal_text(n: nat) -> Seq<char> {
    ascii_chars(padded(n, 1))
}

/// Decimal digits are ASCII.
pub proof fn lemma_padded_ascii(n: nat, width: nat)
    ensures
        is_ascii_bytes(padded(n, width)),
        padded(n, width).len() >= width,
        padded(n, width).len() >= 1,
    decreases n, width,
{
    if n < 10 && width <= 1 {
    } else {
        let rest = if width > 0 {
            (width - 1) as nat
        } else {
            0
        };
        lemma_padded_ascii(n / 10, rest);
    }
}

/// The decimal digits of `n`, padded with zeros on the left to `width`.
pub fn pad_digits(n: u64, width: usize) -> (r: Vec<u8>)
    ensures
        r@ == padded(n as nat, width as nat),
    decreases n, width,
{
    if n < 10 && width <= 1 {
        let mut v: Vec<u8> = Vec::new();
        v.push(0x30 + (n as u8));
        assert(v@ == seq![(0x30 + n) as u8]);
        v
    } else {
        let rest: usize = if width > 0 {
            width - 1
        } else {
            0
        };
        let mut v = pad_digits(n / 10, rest);
        v.push(0x30 + ((n % 10) as u8));
        v
    }
}

/// The number in decimal digits, without sign or leading zeros.
pub fn decimal_string(n: u64) -> (r: String)
    ensures
        r@ == decimal_text(n as nat),
{
    let digits = pad_digits(n, 1);
    proof {
        lemma_padded_ascii(n as nat, 1);
    }
    ascii_text(digits.as_slice())
}

/// The digits of a number are read back as that number, whatever the
/// padding.
pub proof fn lemma_digits_round_trip(n: nat, width: nat)
    ensures
        padded(n, width).len() > 0,
        all_digits(padded(n, width)),
        digits_value(padded(n, width)) == n,
    decreases n, width,
{
    if n < 10 && width <= 1 {
        let s = padded(n, width);
        assert(s.drop_last() =~= Seq::<u8>::empty());
        assert(digits_value(s.drop_last()) == 0);
    } else {
        let rest = if width > 0 {
            (width - 1) as nat
        } else {
            0
        };
        lemma_digits_round_trip(n / 10, rest);
        let s = padded(n, width);
        assert(s.drop_last() =~= padded(n / 10, rest));
        assert(s.last() == (0x30 + n % 10) as u8);
    }
}

/// A number that is written in decimal and read again is the same number.
pub proof fn lemma_decimal_round_trip(n: u64)
    ensures
        u64_of(padded(n as nat, 1)) == Some(n),
        n <= u32::MAX ==> u32_of(padded(n as nat, 1)) == Some(n as u32),
        i64_of(padded(n as nat, 1)) == if n <= i64::MAX {
            Some(n as i64)
        } else {
            None
        },
{
    lemma_digits_round_trip(n as nat, 1);
    let s = padded(n as nat, 1);
    assert(is_digit(s[0]));
}

} // verus!
