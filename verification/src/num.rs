//! Numbers that travel as text: floating-point values and decimal quantities.
//!
//! The wire protocol carries every number as decimal text. This library keeps floating-point
//! values and decimal quantities as that text; turning the text into an `f64` or a
//! `rust_decimal::Decimal` is left to the caller.
use vstd::prelude::*;
use vstd::arithmetic::power::{
    lemma_pow0, lemma_pow1, lemma_pow_adds, lemma_pow_increases, lemma_pow_positive,
    lemma_pow_strictly_increases, pow,
};
use vstd::utf8::{encode_utf8, encode_utf8_decode_utf8};

use crate::comm::{lemma_int_text_printable, lemma_printable_utf8, str_eq};
use crate::text::{ascii_bytes, digit_char, int_text, nat_digits, string_push, u64_text};

verus! {

/// The text `f64`'s `Display` writes for the largest finite `f64`, the value the protocol uses
/// to mark a floating-point field as unset: `17976931348623157` followed by 292 zeros.
#[verifier::opaque]
pub open spec fn unset_double_text() -> Seq<char> {
    int_text(17976931348623157) + Seq::new(292, |i: int| '0')
}

/// True when a number's `Display` text denotes a value above zero: it is not negative, not
/// zero and not `NaN`.
pub open spec fn positive_double_text(t: Seq<char>) -> bool {
    &&& t.len() > 0
    &&& t[0] != '-'
    &&& t != "0"@
    &&& t != "NaN"@
}

/// The field text of a floating-point value: positive infinity goes out as `Infinity`, any
/// other value as its text.
pub open spec fn double_field(t: Seq<char>) -> Seq<char> {
    if t == "inf"@ {
        "Infinity"@
    } else {
        t
    }
}

/// The field text of a floating-point value where the unset value, any text that reads as the
/// largest finite `f64`, goes out as an empty field.
pub open spec fn double_nullable_field(t: Seq<char>) -> Seq<char> {
    if unset_double_value(t) {
        Seq::<char>::empty()
    } else {
        double_field(t)
    }
}

/// A floating-point value, held as its decimal text: the text `f64`'s `Display` writes for it
/// when the caller supplies it (`inf` for positive infinity), the text as received when it was
/// decoded.
#[derive(Debug, Clone, PartialEq, Eq)]
pub struct Double {
    /// Decimal text of the value.
    pub text: String,
}

impl Default for Double {
    /// Zero, as `Display` writes it.
    fn default() -> (r: Self)
        ensures
            r.text@ == "0"@,
    {
        Double::zero()
    }
}

impl Double {
    /// A value given by its text.
    pub fn new(text: String) -> (r: Double)
        ensures
            r.text@ == text@,
    {
        Double { text }
    }

    /// Zero.
    pub fn zero() -> (r: Double)
        ensures
            r.text@ == "0"@,
    {
        Double { text: String::from_str("0") }
    }

    /// The unset value.
    pub fn unset() -> (r: Double)
        ensures
            r.text@ == unset_double_text(),
    {
        proof {
            reveal(unset_double_text);
        }
        let mut text = u64_text(17976931348623157u64);
        let mut i: usize = 0;
        while i < 292
            invariant
                i <= 292,
                text@ == int_text(17976931348623157) + Seq::new(i as nat, |k: int| '0'),
            decreases 292 - i,
        {
            string_push(&mut text, '0');
            proof {
                assert(int_text(17976931348623157) + Seq::new((i + 1) as nat, |k: int| '0') =~= (int_text(
                    17976931348623157,
                ) + Seq::new(i as nat, |k: int| '0')).push('0'));
            }
            i = i + 1;
        }
        Double { text }
    }

    /// Whether this is the unset value: whether the text reads as the largest finite `f64`,
    /// however it is spelled.
    pub fn is_unset(&self) -> (r: bool)
        ensures
            r == unset_double_value(self.text@),
    {
        is_unset_double_text(self.text.as_str())
    }

    /// Whether the text reads as a value other than zero (see `nonzero_float_text`).
    pub fn is_nonzero(&self) -> (r: bool)
        ensures
            r == nonzero_float_text(self.text@),
    {
        is_nonzero_float_text(self.text.as_str())
    }

    /// Whether the value is above zero.
    pub fn is_positive(&self) -> (r: bool)
        ensures
            r == positive_double_text(self.text@),
    {
        let t = self.text.as_str();
        proof {
            reveal_strlit("0");
            reveal_strlit("NaN");
            reveal_strlit("-");
        }
        if t.unicode_len() == 0 {
            return false;
        }
        let c = t.get_char(0);
        c != '-' && !str_eq(t, "0") && !str_eq(t, "NaN")
    }

    /// The text this value goes out as in a field.
    pub fn field_text(&self) -> (s: String)
        ensures
            s@ == double_field(self.text@),
    {
        proof {
            reveal_strlit("inf");
            reveal_strlit("Infinity");
        }
        if str_eq(self.text.as_str(), "inf") {
            String::from_str("Infinity")
        } else {
            self.text.clone()
        }
    }

    /// The text this value goes out as in a field where the unset value is an empty field.
    pub fn nullable_field_text(&self) -> (s: String)
        ensures
            s@ == double_nullable_field(self.text@),
    {
        if self.is_unset() {
            String::new()
        } else {
            self.field_text()
        }
    }
}

// ---------------------------------------------------------------------------------------------
// Decimal quantities
// ---------------------------------------------------------------------------------------------

/// Whether `rust_decimal` reads `text` as a decimal number.
pub uninterp spec fn decimal_reads(text: Seq<char>) -> bool;

/// Calls `str::parse::<rust_decimal::Decimal>` (that is, `Decimal::from_str`) and tells whether
/// it read a number. The contract names the texts it accepts; which number it read is of no use
/// here and is not kept.
#[verifier::external_body]
fn decimal_accepts(text: &str) -> (b: bool)
    ensures
        b == decimal_reads(text@),
{
    text.parse::<rust_decimal::Decimal>().is_ok()
}

/// A decimal quantity, held as its decimal text: the text `rust_decimal`'s `Display` writes for
/// it when the caller supplies it, the text as received when it was decoded.
#[derive(Debug, Clone, PartialEq, Eq)]
pub struct DecimalText {
    /// Decimal text of the quantity.
    pub text: String,
}

impl Default for DecimalText {
    /// Zero.
    fn default() -> (r: Self)
        ensures
            r.text@ == "0"@,
    {
        DecimalText::zero()
    }
}

impl DecimalText {
    /// A quantity given by its text.
    pub fn new(text: String) -> (r: DecimalText)
        ensures
            r.text@ == text@,
    {
        DecimalText { text }
    }

    /// Zero.
    pub fn zero() -> (r: DecimalText)
        ensures
            r.text@ == "0"@,
    {
        DecimalText { text: String::from_str("0") }
    }
}

/// What reading a decimal field gives: zero for an empty field, the text itself when
/// `rust_decimal` reads it, and nothing otherwise.
pub open spec fn decimal_field(t: Seq<char>) -> Option<Seq<char>> {
    if t.len() == 0 {
        Some("0"@)
    } else if decimal_reads(t) {
        Some(t)
    } else {
        None
    }
}

/// Reads a decimal field: an empty field reads as zero, other text must be a number that
/// `rust_decimal` reads.
pub fn read_decimal(text: &str) -> (r: Option<DecimalText>)
    ensures
        match decimal_field(text@) {
            Some(t) => r matches Some(d) && d.text@ == t,
            None => r is None,
        },
{
    if text.unicode_len() == 0 {
        return Some(DecimalText::zero());
    }
    if decimal_accepts(text) {
        Some(DecimalText { text: text.to_owned() })
    } else {
        None
    }
}

// ---------------------------------------------------------------------------------------------
// The text of a floating-point number
// ---------------------------------------------------------------------------------------------

/// True for an ASCII digit.
pub open spec fn digit_byte(b: u8) -> bool {
    48 <= b <= 57
}

/// True when every byte is an ASCII digit.
pub open spec fn all_digits(s: Seq<u8>) -> bool {
    forall|i: int| 0 <= i < s.len() ==> digit_byte(#[trigger] s[i])
}

/// The length of the `+` or `-` in front, if there is one.
pub open spec fn sign_len(s: Seq<u8>) -> int {
    if s.len() > 0 && (s[0] == 43u8 || s[0] == 45u8) {
        1
    } else {
        0
    }
}

/// The index of the first byte at or after `i` that is `a` or `b`, or the length.
pub open spec fn first_of(s: Seq<u8>, i: int, a: u8, b: u8) -> int
    decreases s.len() - i,
{
    if i < 0 || i >= s.len() {
        s.len() as int
    } else if s[i] == a || s[i] == b {
        i
    } else {
        first_of(s, i + 1, a, b)
    }
}

/// True when `s` spells the lower-case ASCII word `w`, letter case aside.
pub open spec fn word_ignoring_case(s: Seq<u8>, w: Seq<u8>) -> bool {
    &&& s.len() == w.len()
    &&& forall|i: int| 0 <= i < s.len() ==> #[trigger] s[i] == w[i] || s[i] + 32 == w[i]
}

/// `inf`, `infinity` and `nan` as bytes.
pub open spec fn special_float_word(s: Seq<u8>) -> bool {
    ||| word_ignoring_case(s, seq![105u8, 110u8, 102u8])
    ||| word_ignoring_case(s, seq![105u8, 110u8, 102u8, 105u8, 110u8, 105u8, 116u8, 121u8])
    ||| word_ignoring_case(s, seq![110u8, 97u8, 110u8])
}

/// Digits with at most one `.` among them, and at least one digit.
pub open spec fn float_mantissa(m: Seq<u8>) -> bool {
    let p = first_of(m, 0, 46u8, 46u8);
    &&& m.len() > 0
    &&& all_digits(m.take(p))
    &&& (p == m.len() || (m.len() >= 2 && all_digits(m.skip(p + 1))))
}

/// Nothing, or `e` or `E` followed by an optional sign and at least one digit.
pub open spec fn float_exponent(x: Seq<u8>) -> bool {
    x.len() == 0 || ((x[0] == 101u8 || x[0] == 69u8) && x.len() > 1 + sign_len(x.skip(1))
        && all_digits(x.skip(1 + sign_len(x.skip(1)))))
}

/// The grammar `str::parse::<f64>` documents for the texts it reads, on bytes: an optional
/// sign, then `inf`, `infinity` or `nan` in any letter case, or digits with at most one `.`
/// and at least one digit, followed by an optional exponent.
pub open spec fn float_bytes(s: Seq<u8>) -> bool {
    let r = s.skip(sign_len(s));
    let e = first_of(r, 0, 101u8, 69u8);
    special_float_word(r) || (float_mantissa(r.take(e)) && float_exponent(r.skip(e)))
}

/// True when `str::parse::<f64>` reads the text as a number.
pub open spec fn float_text(t: Seq<char>) -> bool {
    float_bytes(encode_utf8(t))
}

proof fn lemma_first_of_bounds(s: Seq<u8>, i: int, a: u8, b: u8)
    requires
        0 <= i <= s.len(),
    ensures
        i <= first_of(s, i, a, b) <= s.len(),
        first_of(s, i, a, b) < s.len() ==> (s[first_of(s, i, a, b)] == a || s[first_of(s, i, a, b)] == b),
        forall|k: int| i <= k < first_of(s, i, a, b) ==> s[k] != a && s[k] != b,
    decreases s.len() - i,
{
    if i < s.len() && s[i] != a && s[i] != b {
        lemma_first_of_bounds(s, i + 1, a, b);
    }
}

fn find_first_of(s: &[u8], a: u8, b: u8) -> (r: usize)
    ensures
        r == first_of(s@, 0, a, b),
{
    proof {
        lemma_first_of_bounds(s@, 0, a, b);
    }
    let mut i: usize = 0;
    while i < s.len() && s[i] != a && s[i] != b
        invariant
            i <= s@.len(),
            first_of(s@, 0, a, b) == first_of(s@, i as int, a, b),
        decreases s@.len() - i,
    {
        i = i + 1;
    }
    i
}

fn digits_only(s: &[u8]) -> (r: bool)
    ensures
        r == all_digits(s@),
{
    let mut i: usize = 0;
    while i < s.len()
        invariant
            i <= s@.len(),
            forall|k: int| 0 <= k < i ==> digit_byte(#[trigger] s@[k]),
        decreases s@.len() - i,
    {
        if s[i] < 48u8 || s[i] > 57u8 {
            return false;
        }
        i = i + 1;
    }
    true
}

fn sign_length(s: &[u8]) -> (r: usize)
    ensures
        r == sign_len(s@),
{
    if s.len() > 0 && (s[0] == 43u8 || s[0] == 45u8) {
        1
    } else {
        0
    }
}

fn matches_word(s: &[u8], w: &[u8]) -> (r: bool)
    ensures
        r == word_ignoring_case(s@, w@),
{
    if s.len() != w.len() {
        return false;
    }
    let mut i: usize = 0;
    while i < s.len()
        invariant
            i <= s@.len(),
            s@.len() == w@.len(),
            forall|k: int| 0 <= k < i ==> #[trigger] s@[k] == w@[k] || s@[k] + 32 == w@[k],
        decreases s@.len() - i,
    {
        if s[i] != w[i] && (s[i] as u16) + 32 != (w[i] as u16) {
            return false;
        }
        i = i + 1;
    }
    true
}

fn is_special_word(s: &[u8]) -> (r: bool)
    ensures
        r == special_float_word(s@),
{
    let inf: [u8; 3] = [105u8, 110u8, 102u8];
    let infinity: [u8; 8] = [105u8, 110u8, 102u8, 105u8, 110u8, 105u8, 116u8, 121u8];
    let nan: [u8; 3] = [110u8, 97u8, 110u8];
    assert(inf@ =~= seq![105u8, 110u8, 102u8]);
    assert(infinity@ =~= seq![105u8, 110u8, 102u8, 105u8, 110u8, 105u8, 116u8, 121u8]);
    assert(nan@ =~= seq![110u8, 97u8, 110u8]);
    matches_word(s, inf.as_slice()) || matches_word(s, infinity.as_slice()) || matches_word(
        s,
        nan.as_slice(),
    )
}

fn is_mantissa(m: &[u8]) -> (r: bool)
    ensures
        r == float_mantissa(m@),
{
    let p = find_first_of(m, 46u8, 46u8);
    proof {
        lemma_first_of_bounds(m@, 0, 46u8, 46u8);
    }
    if m.len() == 0 {
        return false;
    }
    let before = &m[0..p];
    assert(before@ =~= m@.take(p as int));
    if !digits_only(before) {
        return false;
    }
    if p == m.len() {
        return true;
    }
    let after = &m[p + 1..m.len()];
    assert(after@ =~= m@.skip(p + 1));
    m.len() >= 2 && digits_only(after)
}

fn is_exponent(x: &[u8]) -> (r: bool)
    ensures
        r == float_exponent(x@),
{
    if x.len() == 0 {
        return true;
    }
    if x[0] != 101u8 && x[0] != 69u8 {
        return false;
    }
    let tail = &x[1..x.len()];
    assert(tail@ =~= x@.skip(1));
    let k = sign_length(tail);
    if x.len() <= 1 + k {
        return false;
    }
    let digits = &x[1 + k..x.len()];
    assert(digits@ =~= x@.skip(1 + sign_len(x@.skip(1))));
    digits_only(digits)
}

/// Whether `str::parse::<f64>` reads the text as a number, decided by the grammar its
/// documentation gives.
pub fn is_float_text(text: &str) -> (r: bool)
    ensures
        r == float_text(text@),
{
    let s = text.as_bytes();
    let k = sign_length(s);
    let rest = &s[k..s.len()];
    assert(rest@ =~= s@.skip(sign_len(s@)));
    if is_special_word(rest) {
        return true;
    }
    let e = find_first_of(rest, 101u8, 69u8);
    proof {
        lemma_first_of_bounds(rest@, 0, 101u8, 69u8);
    }
    let mantissa = &rest[0..e];
    let exponent = &rest[e..rest.len()];
    assert(mantissa@ =~= rest@.take(e as int));
    assert(exponent@ =~= rest@.skip(e as int));
    is_mantissa(mantissa) && is_exponent(exponent)
}

/// True when `str::parse::<f64>` reads the text as a value other than zero: an infinity,
/// `NaN`, or a number whose magnitude is above 2^-1075, half the smallest positive `f64` (a
/// magnitude at or below it rounds to zero).
pub open spec fn nonzero_float_text(t: Seq<char>) -> bool {
    let s = encode_utf8(t);
    let r = s.skip(sign_len(s));
    let e = first_of(r, 0, 101u8, 69u8);
    &&& float_bytes(s)
    &&& (special_float_word(r) || above_half_min_positive(
        digits_value(mantissa_digits(r.take(e))),
        exponent_value(r.skip(e)) - fraction_len(r.take(e)),
    ))
}

/// How many digits of a mantissa stand after its `.`.
fn fraction_length(m: &[u8]) -> (r: usize)
    ensures
        r == fraction_len(m@),
{
    let p = find_first_of(m, 46u8, 46u8);
    proof {
        lemma_first_of_bounds(m@, 0, 46u8, 46u8);
    }
    if p < m.len() {
        m.len() - p - 1
    } else {
        0
    }
}

/// Whether `str::parse::<f64>` reads the text as a value other than zero.
pub fn is_nonzero_float_text(text: &str) -> (r: bool)
    ensures
        r == nonzero_float_text(text@),
{
    if !is_float_text(text) {
        return false;
    }
    let s = text.as_bytes();
    let k = sign_length(s);
    let rest = &s[k..s.len()];
    assert(rest@ =~= s@.skip(sign_len(s@)));
    if is_special_word(rest) {
        return true;
    }
    let e = find_first_of(rest, 101u8, 69u8);
    proof {
        lemma_first_of_bounds(rest@, 0, 101u8, 69u8);
    }
    let mantissa = &rest[0..e];
    let exponent = &rest[e..rest.len()];
    assert(mantissa@ =~= rest@.take(e as int));
    assert(exponent@ =~= rest@.skip(e as int));
    let digits = mantissa_digit_bytes(mantissa);
    let ex = exponent_clamped(exponent);
    let f = fraction_length(mantissa);
    digits_above_half_min_positive(digits, ex, f, Ghost(exponent_value(exponent@)))
}

// ---------------------------------------------------------------------------------------------
// Magnitudes that read as zero
// ---------------------------------------------------------------------------------------------

/// The value of ASCII decimal digits, most significant first.
pub open spec fn digits_value(d: Seq<u8>) -> nat
    decreases d.len(),
{
    if d.len() == 0 {
        0
    } else {
        digits_value(d.drop_last()) * 10 + (d.last() as int - 48) as nat
    }
}

/// The digits of a mantissa with its `.` taken out.
pub open spec fn mantissa_digits(m: Seq<u8>) -> Seq<u8> {
    let p = first_of(m, 0, 46u8, 46u8);
    if p < m.len() {
        m.take(p) + m.skip(p + 1)
    } else {
        m
    }
}

/// How many digits of a mantissa stand after its `.`.
pub open spec fn fraction_len(m: Seq<u8>) -> int {
    let p = first_of(m, 0, 46u8, 46u8);
    if p < m.len() {
        m.len() - p - 1
    } else {
        0
    }
}

/// The value of an exponent part: zero when there is none, else its signed digits.
pub open spec fn exponent_value(x: Seq<u8>) -> int {
    if x.len() == 0 {
        0
    } else {
        let y = x.skip(1);
        let v = digits_value(y.skip(sign_len(y))) as int;
        if sign_len(y) == 1 && y[0] == 45u8 {
            -v
        } else {
            v
        }
    }
}

/// True when the magnitude `n · 10^scale` is above 2^-1075, half the smallest positive `f64`,
/// so that reading it gives a value other than zero: a magnitude of exactly 2^-1075 lies half
/// way between zero and the smallest positive `f64` and rounds to zero, the even one of the two.
pub open spec fn above_half_min_positive(n: nat, scale: int) -> bool {
    n > 0 && (scale >= 0 || n * pow(2, 1075) > pow(10, (-scale) as nat))
}

proof fn lemma_pow_step(b: int, e: nat)
    requires
        e > 0,
    ensures
        pow(b, e) == b * pow(b, (e - 1) as nat),
{
    reveal(pow);
}

proof fn lemma_digits_value_push(d: Seq<u8>, b: u8)
    ensures
        digits_value(d.push(b)) == digits_value(d) * 10 + (b as int - 48) as nat,
{
    assert(d.push(b).drop_last() =~= d);
}

/// The value of two digit sequences one after the other.
proof fn lemma_digits_value_concat(a: Seq<u8>, b: Seq<u8>)
    ensures
        digits_value(a + b) == digits_value(a) * pow(10, b.len()) + digits_value(b),
    decreases b.len(),
{
    if b.len() == 0 {
        assert(a + b =~= a);
        assert(pow(10, 0) == 1) by {
            lemma_pow0(10);
        }
    } else {
        lemma_digits_value_concat(a, b.drop_last());
        assert((a + b).drop_last() =~= a + b.drop_last());
        assert((a + b).last() == b.last());
        lemma_pow_step(10, b.len());
        let x = digits_value(a);
        let y = digits_value(b.drop_last());
        let q = pow(10, (b.len() - 1) as nat);
        assert((x * q + y) * 10 == x * (10 * q) + y * 10) by (nonlinear_arith);
    }
}

/// Digits that are all `0` are worth zero.
proof fn lemma_zeros_value(d: Seq<u8>)
    requires
        forall|i: int| 0 <= i < d.len() ==> d[i] == 48u8,
    ensures
        digits_value(d) == 0,
    decreases d.len(),
{
    if d.len() > 0 {
        lemma_zeros_value(d.drop_last());
    }
}

/// Digits whose first is not `0` are worth at least `10^(len - 1)` and less than `10^len`.
proof fn lemma_digits_value_bounds(d: Seq<u8>)
    requires
        all_digits(d),
    ensures
        digits_value(d) < pow(10, d.len()),
        d.len() > 0 && d[0] != 48u8 ==> pow(10, (d.len() - 1) as nat) <= digits_value(d),
    decreases d.len(),
{
    if d.len() == 0 {
        lemma_pow0(10);
    } else {
        let e = d.drop_last();
        lemma_digits_value_bounds(e);
        lemma_pow_step(10, d.len());
        if d.len() == 1 {
            lemma_pow0(10);
            assert(e.len() == 0);
        } else {
            assert(e[0] == d[0]);
            lemma_pow_step(10, e.len());
        }
    }
}

/// Digits whose first is not `0` are worth exactly `10^(len - 1)` when and only when they are a
/// `1` followed by zeros.
proof fn lemma_power_of_ten_digits(d: Seq<u8>)
    requires
        all_digits(d),
        d.len() > 0,
        d[0] != 48u8,
    ensures
        digits_value(d) == pow(10, (d.len() - 1) as nat) <==> (d[0] == 49u8 && forall|i: int|
            1 <= i < d.len() ==> d[i] == 48u8),
{
    let a = d.take(1);
    let b = d.skip(1);
    assert(a + b =~= d);
    lemma_digits_value_concat(a, b);
    assert(a.drop_last() =~= Seq::<u8>::empty());
    assert(digits_value(a.drop_last()) == 0);
    assert(a.last() == d[0]);
    assert(digits_value(a) == (d[0] as int - 48) as nat);
    assert(all_digits(b));
    lemma_digits_value_bounds(b);
    let q = pow(10, b.len());
    assert(b.len() == d.len() - 1);
    lemma_pow_positive(10, b.len());
    if d[0] == 49u8 && forall|i: int| 1 <= i < d.len() ==> d[i] == 48u8 {
        assert forall|i: int| 0 <= i < b.len() implies b[i] == 48u8 by {
            assert(b[i] == d[i + 1]);
        }
        lemma_zeros_value(b);
        let w = d[0] as int - 48;
        assert(w == 1);
        assert(w * q == q) by (nonlinear_arith)
            requires
                w == 1,
        ;
    }
    if digits_value(d) == q {
        let v = (d[0] as int - 48);
        assert(v * q + digits_value(b) == q);
        assert(v >= 1);
        if v >= 2 {
            assert(v * q >= 2 * q) by (nonlinear_arith)
                requires
                    v >= 2,
                    q > 0,
            ;
        }
        assert(v == 1) by (nonlinear_arith)
            requires
                v * q + digits_value(b) == q,
                v >= 1,
                v < 2,
                q > 0,
        ;
        assert(v * q == q) by (nonlinear_arith)
            requires
                v == 1,
        ;
        assert(digits_value(b) == 0);
        assert forall|i: int| 1 <= i < d.len() implies d[i] == 48u8 by {
            assert(b[i - 1] == d[i]);
            if b[i - 1] != 48u8 {
                lemma_nonzero_digit_value(b, i - 1);
            }
        }
    }
}

/// A digit other than `0` makes the value positive.
proof fn lemma_nonzero_digit_value(d: Seq<u8>, i: int)
    requires
        all_digits(d),
        0 <= i < d.len(),
        d[i] != 48u8,
    ensures
        digits_value(d) > 0,
    decreases d.len(),
{
    if i == d.len() - 1 {
    } else {
        lemma_nonzero_digit_value(d.drop_last(), i);
    }
}

/// The carry a digit passes to the one in front of it when digits are doubled: one for `5` and
/// above.
spec fn doubling_carry(d: Seq<u8>, i: int) -> int {
    if 0 <= i < d.len() && d[i] >= 53u8 {
        1
    } else {
        0
    }
}

/// Doubles the value of ASCII decimal digits; the result has one digit more, a leading `0` when
/// nothing is carried out.
fn double_digits(d: &Vec<u8>) -> (r: Vec<u8>)
    requires
        all_digits(d@),
    ensures
        all_digits(r@),
        r@.len() == d@.len() + 1,
        digits_value(r@) == 2 * digits_value(d@),
{
    let n = d.len();
    let mut r: Vec<u8> = Vec::new();
    let first: u8 = if n > 0 && d[0] >= 53u8 {
        49u8
    } else {
        48u8
    };
    r.push(first);
    proof {
        lemma_digits_value_push(Seq::<u8>::empty(), first);
        assert(Seq::<u8>::empty().push(first) =~= r@);
        assert(d@.take(0) =~= Seq::<u8>::empty());
    }
    let mut i: usize = 0;
    while i < n
        invariant
            i <= n,
            n == d@.len(),
            all_digits(d@),
            r@.len() == i + 1,
            all_digits(r@),
            digits_value(r@) == 2 * digits_value(d@.take(i as int)) + doubling_carry(d@, i as int),
        decreases n - i,
    {
        let v: u8 = d[i] - 48u8;
        let low: u8 = (2 * v) % 10;
        let c: u8 = if i + 1 < n && d[i + 1] >= 53u8 {
            1
        } else {
            0
        };
        let b: u8 = 48u8 + low + c;
        proof {
            assert(digit_byte(d@[i as int]));
            lemma_digits_value_push(r@, b);
            lemma_digits_value_push(d@.take(i as int), d@[i as int]);
            assert(d@.take(i as int).push(d@[i as int]) =~= d@.take(i + 1));
            assert(doubling_carry(d@, i as int) * 10 + low == 2 * v);
            assert(c == doubling_carry(d@, i + 1));
        }
        r.push(b);
        i = i + 1;
    }
    assert(d@.take(n as int) =~= d@);
    r
}

/// The digits of a mantissa with its `.` taken out.
fn mantissa_digit_bytes(m: &[u8]) -> (r: Vec<u8>)
    requires
        float_mantissa(m@),
    ensures
        r@ == mantissa_digits(m@),
        all_digits(r@),
{
    let p = find_first_of(m, 46u8, 46u8);
    proof {
        lemma_first_of_bounds(m@, 0, 46u8, 46u8);
    }
    let mut r: Vec<u8> = Vec::new();
    let mut i: usize = 0;
    while i < m.len()
        invariant
            i <= m@.len(),
            p == first_of(m@, 0, 46u8, 46u8),
            p <= m@.len(),
            r@ == (if i <= p {
                m@.take(i as int)
            } else {
                m@.take(p as int) + m@.subrange(p + 1, i as int)
            }),
        decreases m@.len() - i,
    {
        if i != p {
            r.push(m[i]);
        }
        proof {
            if i < p {
                assert(m@.take(i as int).push(m@[i as int]) =~= m@.take(i + 1));
            } else if i == p {
                assert(m@.take(p as int) + m@.subrange(p + 1, p + 1) =~= m@.take(p as int));
            } else {
                assert((m@.take(p as int) + m@.subrange(p + 1, i as int)).push(m@[i as int]) =~= m@.take(
                    p as int,
                ) + m@.subrange(p + 1, i + 1));
            }
        }
        i = i + 1;
    }
    proof {
        if p < m@.len() {
            assert(m@.subrange(p + 1, m@.len() as int) =~= m@.skip(p + 1));
            assert forall|k: int| 0 <= k < r@.len() implies digit_byte(#[trigger] r@[k]) by {
                if k < p {
                    assert(r@[k] == m@.take(p as int)[k]);
                } else {
                    assert(r@[k] == m@.skip(p + 1)[k - p]);
                }
            }
        } else {
            assert(m@.take(m@.len() as int) =~= m@);
        }
    }
    r
}

/// The largest exponent magnitude told apart: any exponent beyond it decides the same way.
spec fn exponent_cap() -> int {
    0x400000000000000000
}

/// An exponent clamped to the magnitude `exponent_cap()`.
spec fn clamped_exponent(v: int) -> int {
    if v > exponent_cap() {
        exponent_cap()
    } else if v < -exponent_cap() {
        -exponent_cap()
    } else {
        v
    }
}

/// The value of an exponent part, clamped to the magnitude `exponent_cap()`.
fn exponent_clamped(x: &[u8]) -> (r: i128)
    requires
        float_exponent(x@),
    ensures
        r == clamped_exponent(exponent_value(x@)),
{
    if x.len() == 0 {
        return 0;
    }
    let cap: i128 = 0x400000000000000000;
    let y = &x[1..x.len()];
    assert(y@ =~= x@.skip(1));
    let k = sign_length(y);
    let ds = &y[k..y.len()];
    assert(ds@ =~= y@.skip(sign_len(y@)));
    let mut acc: i128 = 0;
    let mut i: usize = 0;
    assert(ds@.take(0) =~= Seq::<u8>::empty());
    assert(ds@ =~= x@.skip(1 + sign_len(x@.skip(1))));
    while i < ds.len()
        invariant
            i <= ds@.len(),
            all_digits(ds@),
            cap == exponent_cap(),
            0 <= acc <= 10 * cap + 9,
            digits_value(ds@.take(i as int)) <= cap ==> acc == digits_value(ds@.take(i as int)),
            digits_value(ds@.take(i as int)) > cap ==> acc > cap,
        decreases ds@.len() - i,
    {
        let d: u8 = ds[i] - 48u8;
        proof {
            assert(digit_byte(ds@[i as int]));
            lemma_digits_value_push(ds@.take(i as int), ds@[i as int]);
            assert(ds@.take(i as int).push(ds@[i as int]) =~= ds@.take(i + 1));
        }
        if acc <= cap {
            acc = acc * 10 + (d as i128);
        }
        i = i + 1;
    }
    assert(ds@.take(ds@.len() as int) =~= ds@);
    let v: i128 = if acc > cap {
        cap
    } else {
        acc
    };
    if k == 1 && y[0] == 45u8 {
        -v
    } else {
        v
    }
}

/// Whether the magnitude of some digits times ten to a scale is above half the smallest
/// positive `f64`: the digits are doubled 1075 times, and the significant length of the
/// result is held against the power of ten.
fn digits_above_half_min_positive(digits: Vec<u8>, exponent: i128, fraction: usize, Ghost(e): Ghost<int>) -> (r: bool)
    requires
        all_digits(digits@),
        exponent == clamped_exponent(e),
    ensures
        r == above_half_min_positive(digits_value(digits@), e - fraction),
{
    let ghost n = digits_value(digits@);
    let ghost len0 = digits@.len();
    let mut m = digits;
    let mut j: usize = 0;
    proof {
        lemma_pow0(2);
    }
    while j < 1075
        invariant
            j <= 1075,
            all_digits(m@),
            m@.len() == len0 + j,
            digits_value(m@) == n * pow(2, j as nat),
        decreases 1075 - j,
    {
        m = double_digits(&m);
        proof {
            lemma_pow_step(2, (j + 1) as nat);
            assert(2 * (n * pow(2, j as nat)) == n * (2 * pow(2, j as nat))) by (nonlinear_arith);
        }
        j = j + 1;
    }
    let ghost big = n * pow(2, 1075);
    proof {
        lemma_pow_positive(2, 1075);
    }
    let mut z: usize = 0;
    while z < m.len() && m[z] == 48u8
        invariant
            z <= m@.len(),
            forall|i: int| 0 <= i < z ==> m@[i] == 48u8,
        decreases m@.len() - z,
    {
        z = z + 1;
    }
    let ghost zeros = m@.take(z as int);
    let ghost top = m@.skip(z as int);
    proof {
        assert(zeros + top =~= m@);
        lemma_digits_value_concat(zeros, top);
        lemma_zeros_value(zeros);
        assert(digits_value(zeros) * pow(10, top.len()) == 0) by (nonlinear_arith)
            requires
                digits_value(zeros) == 0,
        ;
        assert(digits_value(m@) == digits_value(top));
        assert(digits_value(top) == big);
        assert(all_digits(top));
    }
    if z == m.len() {
        proof {
            assert(top.len() == 0);
            assert(big == 0);
            assert(n == 0) by (nonlinear_arith)
                requires
                    n * pow(2, 1075) == 0,
                    pow(2, 1075) > 0,
            ;
        }
        return false;
    }
    proof {
        lemma_digits_value_bounds(top);
        lemma_pow_positive(10, (top.len() - 1) as nat);
        assert(n > 0) by (nonlinear_arith)
            requires
                n * pow(2, 1075) == big,
                big >= pow(10, (top.len() - 1) as nat),
                pow(10, (top.len() - 1) as nat) > 0,
        {
        }
    }
    let ghost sc = e - fraction;
    let scale: i128 = exponent - (fraction as i128);
    if scale >= 0 {
        proof {
            assert(sc >= 0);
        }
        return true;
    }
    let k: i128 = -scale;
    let sl: usize = m.len() - z;
    let e1: i128 = (sl as i128) - 1;
    proof {
        assert(top.len() == sl);
        assert(sl <= usize::MAX);
        assert(e1 < exponent_cap());
        if e < -exponent_cap() {
            assert(k == exponent_cap() + fraction);
            assert(-sc > k);
        } else {
            assert(exponent == e);
            assert(-sc == k);
        }
    }
    if e1 > k {
        proof {
            assert(-sc == k);
            lemma_pow_increases(10, (k + 1) as nat, e1 as nat);
            lemma_pow_strictly_increases(10, k as nat, (k + 1) as nat);
        }
        return true;
    }
    if e1 < k {
        proof {
            lemma_pow_increases(10, sl as nat, (-sc) as nat);
        }
        return false;
    }
    proof {
        assert(-sc == k);
        assert(e1 == k);
    }
    let mut i: usize = z + 1;
    let mut exact: bool = m[z] == 49u8;
    while i < m.len()
        invariant
            z < i <= m@.len(),
            exact == (m@[z as int] == 49u8 && forall|q: int| z < q < i ==> m@[q] == 48u8),
        decreases m@.len() - i,
    {
        if m[i] != 48u8 {
            exact = false;
        }
        i = i + 1;
    }
    proof {
        lemma_power_of_ten_digits(top);
    }
    !exact
}


// ---------------------------------------------------------------------------------------------
// The unset value, told by the value a text reads as
// ---------------------------------------------------------------------------------------------

/// True when the magnitude `n · 10^scale` reads as the largest finite `f64`, `(2^53 - 1) · 2^971`:
/// it lies strictly between the midpoints `2^970 · (2^54 - 3)` and `2^970 · (2^54 - 1)` on either
/// side of it (a magnitude on the lower midpoint rounds to the even neighbour below, one on the
/// upper midpoint overflows to infinity).
pub open spec fn reads_as_max_double(n: nat, scale: int) -> bool {
    let lo = pow(2, 970) * (pow(2, 54) - 3);
    let hi = pow(2, 970) * (pow(2, 54) - 1);
    if scale >= 0 {
        lo < n * pow(10, scale as nat) < hi
    } else {
        lo * pow(10, (-scale) as nat) < n && n < hi * pow(10, (-scale) as nat)
    }
}

/// True when `str::parse::<f64>` reads the text as the largest finite `f64`, the value the
/// protocol uses to mark a floating-point field as unset.
pub open spec fn unset_double_value(t: Seq<char>) -> bool {
    let s = encode_utf8(t);
    let r = s.skip(sign_len(s));
    let e = first_of(r, 0, 101u8, 69u8);
    &&& float_bytes(s)
    &&& !(s.len() > 0 && s[0] == 45u8)
    &&& !special_float_word(r)
    &&& reads_as_max_double(
        digits_value(mantissa_digits(r.take(e))),
        exponent_value(r.skip(e)) - fraction_len(r.take(e)),
    )
}

/// The ASCII decimal digits of a number.
fn u64_digits(n: u64) -> (r: Vec<u8>)
    ensures
        all_digits(r@),
        digits_value(r@) == n,
{
    let mut r: Vec<u8> = Vec::new();
    let mut v: u64 = n;
    proof {
        lemma_pow0(10);
    }
    while v > 0
        invariant
            all_digits(r@),
            digits_value(r@) + v * pow(10, r@.len()) == n,
        decreases v,
    {
        let d: u8 = (v % 10) as u8;
        let ghost old_r = r@;
        let ghost old_v = v;
        r.insert(0, 48u8 + d);
        v = v / 10;
        proof {
            assert(r@ =~= seq![(48u8 + d) as u8] + old_r);
            lemma_digits_value_concat(seq![(48u8 + d) as u8], old_r);
            assert(seq![(48u8 + d) as u8].drop_last() =~= Seq::<u8>::empty());
            assert(digits_value(Seq::<u8>::empty()) == 0);
            assert(seq![(48u8 + d) as u8].last() == (48u8 + d) as u8);
            assert(digits_value(seq![(48u8 + d) as u8]) == d);
            lemma_pow_step(10, r@.len());
            assert(r@.len() == old_r.len() + 1);
            let p = pow(10, old_r.len());
            assert(old_v == v * 10 + d);
            assert(d * p + digits_value(old_r) + v * (10 * p) == digits_value(old_r) + old_v * p) by (nonlinear_arith)
                requires
                    old_v == v * 10 + d,
            ;
            assert forall|k: int| 0 <= k < r@.len() implies digit_byte(#[trigger] r@[k]) by {
                if k > 0 {
                    assert(r@[k] == old_r[k - 1]);
                }
            }
        }
    }
    r
}

/// Doubles digits `count` times.
fn double_digits_times(d: Vec<u8>, count: usize) -> (r: Vec<u8>)
    requires
        all_digits(d@),
    ensures
        all_digits(r@),
        r@.len() == d@.len() + count,
        digits_value(r@) == digits_value(d@) * pow(2, count as nat),
{
    let ghost n = digits_value(d@);
    let ghost len0 = d@.len();
    let mut m = d;
    let mut j: usize = 0;
    proof {
        lemma_pow0(2);
    }
    while j < count
        invariant
            j <= count,
            all_digits(m@),
            m@.len() == len0 + j,
            digits_value(m@) == n * pow(2, j as nat),
        decreases count - j,
    {
        m = double_digits(&m);
        proof {
            lemma_pow_step(2, (j + 1) as nat);
            assert(2 * (n * pow(2, j as nat)) == n * (2 * pow(2, j as nat))) by (nonlinear_arith);
        }
        j = j + 1;
    }
    m
}

/// Digits followed by `count` zeros.
fn append_zeros(d: &Vec<u8>, count: usize) -> (r: Vec<u8>)
    requires
        all_digits(d@),
    ensures
        all_digits(r@),
        r@.len() == d@.len() + count,
        digits_value(r@) == digits_value(d@) * pow(10, count as nat),
{
    let mut r: Vec<u8> = d.clone();
    let mut j: usize = 0;
    proof {
        lemma_pow0(10);
        assert(r@ == d@);
    }
    while j < count
        invariant
            j <= count,
            all_digits(r@),
            r@.len() == d@.len() + j,
            digits_value(r@) == digits_value(d@) * pow(10, j as nat),
        decreases count - j,
    {
        proof {
            lemma_digits_value_push(r@, 48u8);
            lemma_pow_step(10, (j + 1) as nat);
            let x = digits_value(d@);
            let p = pow(10, j as nat);
            assert(x * p * 10 == x * (10 * p)) by (nonlinear_arith);
        }
        r.push(48u8);
        j = j + 1;
    }
    r
}

/// Digits with `count` zeros in front, worth the same.
fn prepend_zeros(d: &Vec<u8>, count: usize) -> (r: Vec<u8>)
    requires
        all_digits(d@),
    ensures
        all_digits(r@),
        r@.len() == d@.len() + count,
        digits_value(r@) == digits_value(d@),
{
    let mut r: Vec<u8> = Vec::new();
    let mut j: usize = 0;
    while j < count
        invariant
            j <= count,
            r@.len() == j,
            forall|i: int| 0 <= i < j ==> r@[i] == 48u8,
        decreases count - j,
    {
        r.push(48u8);
        j = j + 1;
    }
    let ghost zeros = r@;
    let mut i: usize = 0;
    while i < d.len()
        invariant
            i <= d@.len(),
            r@ == zeros + d@.take(i as int),
        decreases d@.len() - i,
    {
        r.push(d[i]);
        proof {
            assert(zeros + d@.take(i + 1) =~= (zeros + d@.take(i as int)).push(d@[i as int]));
        }
        i = i + 1;
    }
    proof {
        assert(d@.take(d@.len() as int) =~= d@);
        lemma_zeros_value(zeros);
        lemma_digits_value_concat(zeros, d@);
        assert(digits_value(zeros) * pow(10, d@.len()) == 0) by (nonlinear_arith)
            requires
                digits_value(zeros) == 0,
        ;
        assert forall|k: int| 0 <= k < r@.len() implies digit_byte(#[trigger] r@[k]) by {
            if k >= j {
                assert(r@[k] == d@[k - j]);
            }
        }
    }
    r
}

/// Of two digit sequences of one length that agree before position `i`, the one with the
/// smaller digit at `i` is worth less.
proof fn lemma_first_difference(a: Seq<u8>, b: Seq<u8>, i: int)
    requires
        all_digits(a),
        all_digits(b),
        a.len() == b.len(),
        0 <= i < a.len(),
        a.take(i) == b.take(i),
        a[i] < b[i],
    ensures
        digits_value(a) < digits_value(b),
{
    let n = a.len();
    let m = (n - i - 1) as nat;
    assert(a.take(i + 1) + a.skip(i + 1) =~= a);
    assert(b.take(i + 1) + b.skip(i + 1) =~= b);
    lemma_digits_value_concat(a.take(i + 1), a.skip(i + 1));
    lemma_digits_value_concat(b.take(i + 1), b.skip(i + 1));
    assert(all_digits(a.skip(i + 1)));
    lemma_digits_value_bounds(a.skip(i + 1));
    lemma_digits_value_push(a.take(i), a[i]);
    lemma_digits_value_push(b.take(i), b[i]);
    assert(a.take(i).push(a[i]) =~= a.take(i + 1));
    assert(b.take(i).push(b[i]) =~= b.take(i + 1));
    let p = pow(10, m);
    let va = digits_value(a.take(i + 1));
    let vb = digits_value(b.take(i + 1));
    let ra = digits_value(a.skip(i + 1));
    let rb = digits_value(b.skip(i + 1));
    assert(va + 1 <= vb);
    assert(a.skip(i + 1).len() == m);
    assert(va * p + ra < vb * p + rb) by (nonlinear_arith)
        requires
            va + 1 <= vb,
            ra < p,
            rb >= 0,
    ;
}

/// Compares the values of two digit sequences: `-1`, `0` or `1` as the first is worth less than,
/// as much as or more than the second.
fn compare_digits(a: &Vec<u8>, b: &Vec<u8>) -> (r: i8)
    requires
        all_digits(a@),
        all_digits(b@),
    ensures
        r == -1 <==> digits_value(a@) < digits_value(b@),
        r == 0 <==> digits_value(a@) == digits_value(b@),
        r == 1 <==> digits_value(a@) > digits_value(b@),
{
    let x = if a.len() < b.len() {
        prepend_zeros(a, b.len() - a.len())
    } else {
        a.clone()
    };
    let y = if b.len() < a.len() {
        prepend_zeros(b, a.len() - b.len())
    } else {
        b.clone()
    };
    proof {
        if !(a.len() < b.len()) {
            assert(x@ == a@);
        }
        if !(b.len() < a.len()) {
            assert(y@ == b@);
        }
    }
    let n = x.len();
    let mut i: usize = 0;
    while i < n
        invariant
            i <= n,
            n == x@.len(),
            x@.len() == y@.len(),
            all_digits(x@),
            all_digits(y@),
            digits_value(x@) == digits_value(a@),
            digits_value(y@) == digits_value(b@),
            x@.take(i as int) == y@.take(i as int),
        decreases n - i,
    {
        if x[i] < y[i] {
            proof {
                lemma_first_difference(x@, y@, i as int);
            }
            return -1;
        }
        if x[i] > y[i] {
            proof {
                lemma_first_difference(y@, x@, i as int);
            }
            return 1;
        }
        proof {
            assert(x@.take(i + 1) =~= x@.take(i as int).push(x@[i as int]));
            assert(y@.take(i + 1) =~= y@.take(i as int).push(y@[i as int]));
        }
        i = i + 1;
    }
    proof {
        assert(x@ =~= x@.take(n as int));
        assert(y@ =~= y@.take(n as int));
    }
    0
}

proof fn lemma_two_to_54()
    ensures
        pow(2, 54) == 18014398509481984,
{
    reveal_with_fuel(pow, 55);
}

/// Whether the magnitude of some digits times ten to a scale reads as the largest finite
/// `f64`: it is held against the two midpoints around it, whose digits are made by doubling.
fn digits_read_as_max_double(digits: Vec<u8>, exponent: i128, fraction: usize, Ghost(e): Ghost<int>) -> (r: bool)
    requires
        all_digits(digits@),
        exponent == clamped_exponent(e),
    ensures
        r == reads_as_max_double(digits_value(digits@), e - fraction),
{
    let ghost n = digits_value(digits@);
    let ghost sc = e - fraction;
    let lo = double_digits_times(u64_digits(18014398509481981u64), 970);
    let hi = double_digits_times(u64_digits(18014398509481983u64), 970);
    let ghost vlo = pow(2, 970) * (pow(2, 54) - 3);
    let ghost vhi = pow(2, 970) * (pow(2, 54) - 1);
    proof {
        lemma_two_to_54();
        assert(digits_value(lo@) == vlo) by (nonlinear_arith)
            requires
                digits_value(lo@) == 18014398509481981 * pow(2, 970),
                pow(2, 54) == 18014398509481984,
                vlo == pow(2, 970) * (pow(2, 54) - 3),
        ;
        assert(digits_value(hi@) == vhi) by (nonlinear_arith)
            requires
                digits_value(hi@) == 18014398509481983 * pow(2, 970),
                pow(2, 54) == 18014398509481984,
                vhi == pow(2, 970) * (pow(2, 54) - 1),
        ;
        lemma_pow_positive(2, 970);
        assert(vlo >= 1) by (nonlinear_arith)
            requires
                vlo == pow(2, 970) * (pow(2, 54) - 3),
                pow(2, 970) > 0,
                pow(2, 54) == 18014398509481984,
        ;
        lemma_digits_value_bounds(hi@);
        lemma_digits_value_bounds(digits@);
    }
    let scale: i128 = exponent - (fraction as i128);
    if scale >= 0 {
        if scale >= hi.len() as i128 {
            proof {
                assert(sc >= hi@.len());
                lemma_pow_increases(10, hi@.len(), sc as nat);
                let p = pow(10, sc as nat);
                lemma_pow_positive(10, sc as nat);
                if n > 0 {
                    assert(n * p >= p) by (nonlinear_arith)
                        requires
                            n >= 1,
                            p > 0,
                    ;
                    assert(!(n * p < vhi));
                } else {
                    assert(n * p == 0) by (nonlinear_arith)
                        requires
                            n == 0,
                    ;
                    assert(!(vlo < n * p));
                }
                assert(!reads_as_max_double(n, sc));
            }
            return false;
        }
        proof {
            assert(exponent == e);
            assert(sc == scale);
        }
        let x = append_zeros(&digits, scale as usize);
        let a = compare_digits(&x, &lo);
        let b = compare_digits(&x, &hi);
        return a == 1 && b == -1;
    }
    let k: i128 = -scale;
    if k >= digits.len() as i128 {
        proof {
            assert(-sc >= digits@.len());
            lemma_pow_increases(10, digits@.len(), (-sc) as nat);
            let p = pow(10, (-sc) as nat);
            lemma_pow_positive(10, (-sc) as nat);
            assert(vlo * p >= p) by (nonlinear_arith)
                requires
                    vlo >= 1,
                    p > 0,
            ;
        }
        return false;
    }
    proof {
        assert(exponent == e);
        assert(-sc == k);
    }
    let lo_k = append_zeros(&lo, k as usize);
    let hi_k = append_zeros(&hi, k as usize);
    let a = compare_digits(&lo_k, &digits);
    let b = compare_digits(&digits, &hi_k);
    a == -1 && b == -1
}

/// Whether `str::parse::<f64>` reads the text as the largest finite `f64`.
pub fn is_unset_double_text(text: &str) -> (r: bool)
    ensures
        r == unset_double_value(text@),
{
    if !is_float_text(text) {
        return false;
    }
    let s = text.as_bytes();
    if s.len() > 0 && s[0] == 45u8 {
        return false;
    }
    let k = sign_length(s);
    let rest = &s[k..s.len()];
    assert(rest@ =~= s@.skip(sign_len(s@)));
    if is_special_word(rest) {
        return false;
    }
    let e = find_first_of(rest, 101u8, 69u8);
    proof {
        lemma_first_of_bounds(rest@, 0, 101u8, 69u8);
    }
    let mantissa = &rest[0..e];
    let exponent = &rest[e..rest.len()];
    assert(mantissa@ =~= rest@.take(e as int));
    assert(exponent@ =~= rest@.skip(e as int));
    let digits = mantissa_digit_bytes(mantissa);
    let ex = exponent_clamped(exponent);
    let f = fraction_length(mantissa);
    digits_read_as_max_double(digits, ex, f, Ghost(exponent_value(exponent@)))
}


/// The powers the unset value is held against, worked out.
proof fn lemma_unset_powers()
    ensures
        pow(2, 970) == 9979201547673599058281863565184192830337256302177287707512736212186059459344820328924789827463178505446712234220962476219862189941967968303695858991424157101600028364755428382587688607221814935913266783722719619966654052275604351944444276342240220787535604534378780208211792476151720049639424,
        pow(10, 292) == 10000000000000000000000000000000000000000000000000000000000000000000000000000000000000000000000000000000000000000000000000000000000000000000000000000000000000000000000000000000000000000000000000000000000000000000000000000000000000000000000000000000000000000000000000000000000000000000000000000,
        pow(2, 54) == 18014398509481984,
{
    lemma_pow1(2);
    lemma_pow_adds(2, 1, 1);
    assert(pow(2, 2) == 4);
    lemma_pow_adds(2, 2, 2);
    assert(pow(2, 4) == 16);
    lemma_pow_adds(2, 4, 4);
    assert(pow(2, 8) == 256);
    lemma_pow_adds(2, 8, 8);
    assert(pow(2, 16) == 65536);
    lemma_pow_adds(2, 16, 16);
    assert(pow(2, 32) == 4294967296);
    lemma_pow_adds(2, 32, 32);
    assert(pow(2, 64) == 18446744073709551616);
    lemma_pow_adds(2, 64, 64);
    assert(pow(2, 128) == 340282366920938463463374607431768211456);
    lemma_pow_adds(2, 128, 128);
    assert(pow(2, 256) == 115792089237316195423570985008687907853269984665640564039457584007913129639936);
    lemma_pow_adds(2, 256, 256);
    assert(pow(2, 512) == 13407807929942597099574024998205846127479365820592393377723561443721764030073546976801874298166903427690031858186486050853753882811946569946433649006084096);
    lemma_pow_adds(2, 2, 8);
    assert(pow(2, 10) == 1024);
    lemma_pow_adds(2, 10, 64);
    assert(pow(2, 74) == 18889465931478580854784);
    lemma_pow_adds(2, 74, 128);
    assert(pow(2, 202) == 6427752177035961102167848369364650410088811975131171341205504);
    lemma_pow_adds(2, 202, 256);
    assert(pow(2, 458) == 744282853678701455922507579277316643178128753343813693728245963960974631028119473486019635930893891134220822124816566203939432067701407744);
    lemma_pow_adds(2, 458, 512);
    assert(pow(2, 970) == 9979201547673599058281863565184192830337256302177287707512736212186059459344820328924789827463178505446712234220962476219862189941967968303695858991424157101600028364755428382587688607221814935913266783722719619966654052275604351944444276342240220787535604534378780208211792476151720049639424);
    lemma_pow1(10);
    lemma_pow_adds(10, 1, 1);
    assert(pow(10, 2) == 100);
    lemma_pow_adds(10, 2, 2);
    assert(pow(10, 4) == 10000);
    lemma_pow_adds(10, 4, 4);
    assert(pow(10, 8) == 100000000);
    lemma_pow_adds(10, 8, 8);
    assert(pow(10, 16) == 10000000000000000);
    lemma_pow_adds(10, 16, 16);
    assert(pow(10, 32) == 100000000000000000000000000000000);
    lemma_pow_adds(10, 32, 32);
    assert(pow(10, 64) == 10000000000000000000000000000000000000000000000000000000000000000);
    lemma_pow_adds(10, 64, 64);
    assert(pow(10, 128) == 100000000000000000000000000000000000000000000000000000000000000000000000000000000000000000000000000000000000000000000000000000000);
    lemma_pow_adds(10, 128, 128);
    assert(pow(10, 256) == 10000000000000000000000000000000000000000000000000000000000000000000000000000000000000000000000000000000000000000000000000000000000000000000000000000000000000000000000000000000000000000000000000000000000000000000000000000000000000000000000000000000000000000);
    lemma_pow_adds(10, 4, 32);
    assert(pow(10, 36) == 1000000000000000000000000000000000000);
    lemma_pow_adds(10, 36, 256);
    assert(pow(10, 292) == 10000000000000000000000000000000000000000000000000000000000000000000000000000000000000000000000000000000000000000000000000000000000000000000000000000000000000000000000000000000000000000000000000000000000000000000000000000000000000000000000000000000000000000000000000000000000000000000000000000);
    lemma_pow1(2);
    lemma_pow_adds(2, 1, 1);
    assert(pow(2, 2) == 4);
    lemma_pow_adds(2, 2, 2);
    assert(pow(2, 4) == 16);
    lemma_pow_adds(2, 4, 4);
    assert(pow(2, 8) == 256);
    lemma_pow_adds(2, 8, 8);
    assert(pow(2, 16) == 65536);
    lemma_pow_adds(2, 16, 16);
    assert(pow(2, 32) == 4294967296);
    lemma_pow_adds(2, 2, 4);
    assert(pow(2, 6) == 64);
    lemma_pow_adds(2, 6, 16);
    assert(pow(2, 22) == 4194304);
    lemma_pow_adds(2, 22, 32);
    assert(pow(2, 54) == 18014398509481984);
}

/// The digits of a natural number, as bytes, are worth that number.
proof fn lemma_nat_digits_value(n: nat)
    ensures
        all_digits(ascii_bytes(nat_digits(n))),
        digits_value(ascii_bytes(nat_digits(n))) == n,
    decreases n,
{
    if n < 10 {
        assert(ascii_bytes(nat_digits(n)) =~= seq![(n + 48) as u8]);
        assert(seq![(n + 48) as u8].drop_last() =~= Seq::<u8>::empty());
        assert(digits_value(Seq::<u8>::empty()) == 0);
    } else {
        let q = (n / 10) as nat;
        lemma_nat_digits_value(q);
        let d = (n % 10) as nat;
        assert(ascii_bytes(nat_digits(n)) =~= ascii_bytes(nat_digits(q)).push((d + 48) as u8));
        lemma_digits_value_push(ascii_bytes(nat_digits(q)), (d + 48) as u8);
        assert forall|k: int| 0 <= k < ascii_bytes(nat_digits(n)).len() implies digit_byte(
            #[trigger] ascii_bytes(nat_digits(n))[k],
        ) by {
            if k < ascii_bytes(nat_digits(q)).len() {
                assert(ascii_bytes(nat_digits(n))[k] == ascii_bytes(nat_digits(q))[k]);
            }
        }
    }
}

proof fn lemma_first_of_absent(s: Seq<u8>, i: int, a: u8, b: u8)
    requires
        0 <= i <= s.len(),
        forall|k: int| i <= k < s.len() ==> s[k] != a && s[k] != b,
    ensures
        first_of(s, i, a, b) == s.len(),
    decreases s.len() - i,
{
    if i < s.len() {
        lemma_first_of_absent(s, i + 1, a, b);
    }
}

/// The text of the unset value, as `f64`'s `Display` writes the largest finite `f64`, reads
/// back as that value, so it counts as unset.
pub proof fn lemma_unset_double_text_is_unset()
    ensures
        unset_double_value(unset_double_text()),
{
    reveal(unset_double_text);
    let n: nat = 17976931348623157;
    let a = int_text(n as int);
    let z = Seq::new(292, |i: int| '0');
    let t = unset_double_text();
    lemma_int_text_printable(n as int);
    assert(crate::comm::printable_text(t)) by {
        assert forall|i: int| 0 <= i < t.len() implies crate::comm::printable_char(#[trigger] t[i]) by {
            if i < a.len() {
                assert(t[i] == a[i]);
            } else {
                assert(t[i] == '0');
            }
        }
    }
    lemma_printable_utf8(t);
    let s = encode_utf8(t);
    let zb = Seq::new(292, |i: int| 48u8);
    lemma_nat_digits_value(n);
    assert(a == nat_digits(n));
    let ab = ascii_bytes(a);
    assert(s =~= ab + zb);
    assert(all_digits(s)) by {
        assert forall|k: int| 0 <= k < s.len() implies digit_byte(#[trigger] s[k]) by {
            if k < ab.len() {
                assert(s[k] == ab[k]);
            } else {
                assert(s[k] == zb[k - ab.len()]);
            }
        }
    }
    assert(digit_byte(s[0]));
    assert(sign_len(s) == 0);
    let r = s.skip(0);
    assert(r =~= s);
    lemma_first_of_absent(s, 0, 101u8, 69u8);
    lemma_first_of_absent(s, 0, 46u8, 46u8);
    assert(s.take(s.len() as int) =~= s);
    assert(s.skip(s.len() as int) =~= Seq::<u8>::empty());
    assert(float_mantissa(s));
    assert(float_exponent(Seq::<u8>::empty()));
    assert(float_bytes(s));
    assert(!special_float_word(s));
    assert(mantissa_digits(s) == s);
    assert(fraction_len(s) == 0);
    assert(exponent_value(Seq::<u8>::empty()) == 0);
    lemma_digits_value_concat(ab, zb);
    lemma_zeros_value(zb);
    lemma_unset_powers();
    lemma_pow0(10);
    let v = digits_value(s);
    assert(v == n * pow(10, 292)) by (nonlinear_arith)
        requires
            v == digits_value(ab) * pow(10, 292) + digits_value(zb),
            digits_value(ab) == n,
            digits_value(zb) == 0,
    ;
    assert(v == 17976931348623157 * 10000000000000000000000000000000000000000000000000000000000000000000000000000000000000000000000000000000000000000000000000000000000000000000000000000000000000000000000000000000000000000000000000000000000000000000000000000000000000000000000000000000000000000000000000000000000000000000000000000);
    assert(v * pow(10, 0) == v);
    assert(pow(2, 970) * (pow(2, 54) - 3) < v);
    assert(v < pow(2, 970) * (pow(2, 54) - 1));
}

} // verus!
