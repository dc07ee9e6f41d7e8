//! Decimal text for integers, as the wire protocol writes and reads it.
use vstd::prelude::*;

verus! {

/// The ASCII digit character for a value below ten.
pub open spec fn digit_char(d: nat) -> char {
    (d + 48) as char
}

/// Decimal digits of a natural number, most significant first, without leading zeros.
pub open spec fn nat_digits(n: nat) -> Seq<char>
    decreases n,
{
    if n < 10 {
        seq![digit_char(n)]
    } else {
        nat_digits(n / 10).push(digit_char(n % 10))
    }
}

/// Decimal text of an integer: a `-` in front of negative values, as `to_string` writes it.
pub open spec fn int_text(n: int) -> Seq<char> {
    if n < 0 {
        seq!['-'] + nat_digits((-n) as nat)
    } else {
        nat_digits(n as nat)
    }
}

/// Bytes of an ASCII character sequence, one per character.
pub open spec fn ascii_bytes(cs: Seq<char>) -> Seq<u8> {
    cs.map_values(|c: char| c as u8)
}

/// Why a decimal integer field could not be read.
#[derive(Debug, Clone, Copy, PartialEq, Eq, Structural)]
pub enum IntErrorKind {
    /// The text was empty.
    Empty,
    /// A character other than a sign in front or a decimal digit.
    InvalidDigit,
    /// The value is above the type's maximum.
    PosOverflow,
    /// The value is below the type's minimum.
    NegOverflow,
}

/// True for the bytes `0` to `9`.
pub open spec fn is_digit_byte(b: u8) -> bool {
    48 <= b <= 57
}

/// Reads the digits of `s` from index `i` on, with `acc` the value read so far, failing at the
/// first byte that is not a digit or at the first digit that takes the value out of `lo..=hi`.
pub open spec fn scan_digits(s: Seq<u8>, i: int, acc: int, neg: bool, lo: int, hi: int) -> Result<
    int,
    IntErrorKind,
>
    decreases s.len() - i,
{
    if i >= s.len() || i < 0 {
        Ok(acc)
    } else if !is_digit_byte(s[i]) {
        Err(IntErrorKind::InvalidDigit)
    } else {
        let d = s[i] - 48;
        let a = if neg {
            acc * 10 - d
        } else {
            acc * 10 + d
        };
        if a < lo {
            Err(IntErrorKind::NegOverflow)
        } else if a > hi {
            Err(IntErrorKind::PosOverflow)
        } else {
            scan_digits(s, i + 1, a, neg, lo, hi)
        }
    }
}

/// What reading `s` as a decimal integer in `lo..=hi` gives: an optional `+` or `-` in front of
/// at least one digit, as `str::parse` reads a signed integer.
pub open spec fn parse_int_spec(s: Seq<u8>, lo: int, hi: int) -> Result<int, IntErrorKind> {
    if s.len() == 0 {
        Err(IntErrorKind::Empty)
    } else if s[0] == 43u8 || s[0] == 45u8 {
        if s.len() == 1 {
            Err(IntErrorKind::InvalidDigit)
        } else {
            scan_digits(s, 1, 0, s[0] == 45u8, lo, hi)
        }
    } else {
        scan_digits(s, 0, 0, false, lo, hi)
    }
}

proof fn lemma_scan_extend(s: Seq<u8>, t: Seq<u8>, i: int, acc: int, neg: bool, lo: int, hi: int)
    requires
        0 <= i <= s.len(),
        scan_digits(s, i, acc, neg, lo, hi) is Ok,
    ensures
        scan_digits(s + t, i, acc, neg, lo, hi) == scan_digits(
            s + t,
            s.len() as int,
            scan_digits(s, i, acc, neg, lo, hi)->Ok_0,
            neg,
            lo,
            hi,
        ),
    decreases s.len() - i,
{
    if i < s.len() {
        assert((s + t)[i] == s[i]);
        let d = s[i] - 48;
        let a = if neg {
            acc * 10 - d
        } else {
            acc * 10 + d
        };
        lemma_scan_extend(s, t, i + 1, a, neg, lo, hi);
    }
}

proof fn lemma_digit_byte(d: nat)
    requires
        d < 10,
    ensures
        (digit_char(d) as u8) == (d + 48) as u8,
        is_digit_byte(digit_char(d) as u8),
{
}

proof fn lemma_scan_digits_of(p: Seq<u8>, m: nat, neg: bool, lo: int, hi: int)
    requires
        lo <= 0 <= hi,
        lo <= (if neg { -m } else { m as int }) <= hi,
    ensures
        scan_digits(p + ascii_bytes(nat_digits(m)), p.len() as int, 0, neg, lo, hi) == Ok::<
            int,
            IntErrorKind,
        >(if neg { -m } else { m as int }),
    decreases m,
{
    if m < 10 {
        lemma_digit_byte(m);
        let s = p + ascii_bytes(nat_digits(m));
        assert(ascii_bytes(nat_digits(m)) =~= seq![digit_char(m) as u8]);
        assert(s[p.len() as int] == digit_char(m) as u8);
        assert(scan_digits(s, p.len() as int + 1, if neg { -m } else { m as int }, neg, lo, hi) == Ok::<
            int,
            IntErrorKind,
        >(if neg { -m } else { m as int }));
    } else {
        let q = (m / 10) as nat;
        let d = (m % 10) as nat;
        lemma_digit_byte(d);
        lemma_scan_digits_of(p, q, neg, lo, hi);
        let head = p + ascii_bytes(nat_digits(q));
        let tail = seq![digit_char(d) as u8];
        assert(ascii_bytes(nat_digits(m)) =~= ascii_bytes(nat_digits(q)) + tail);
        assert(p + ascii_bytes(nat_digits(m)) =~= head + tail);
        lemma_scan_extend(head, tail, p.len() as int, 0, neg, lo, hi);
        let s = head + tail;
        assert(s[head.len() as int] == digit_char(d) as u8);
        assert(scan_digits(s, head.len() as int + 1, if neg { -m } else { m as int }, neg, lo, hi) == Ok::<
            int,
            IntErrorKind,
        >(if neg { -m } else { m as int }));
    }
}

/// Reading back the decimal text of an integer gives the integer, for every value in range.
pub proof fn lemma_parse_int_text(n: int, lo: int, hi: int)
    requires
        lo <= 0 <= hi,
        lo <= n <= hi,
    ensures
        parse_int_spec(ascii_bytes(int_text(n)), lo, hi) == Ok::<int, IntErrorKind>(n),
{
    if n < 0 {
        let m = (-n) as nat;
        let p = seq![45u8];
        lemma_scan_digits_of(p, m, true, lo, hi);
        assert(ascii_bytes(int_text(n)) =~= p + ascii_bytes(nat_digits(m)));
    } else {
        let m = n as nat;
        let p = Seq::<u8>::empty();
        lemma_scan_digits_of(p, m, false, lo, hi);
        assert(ascii_bytes(int_text(n)) =~= p + ascii_bytes(nat_digits(m)));
        lemma_first_digit(m);
    }
}

proof fn lemma_first_digit(m: nat)
    ensures
        nat_digits(m).len() >= 1,
        is_digit_byte(nat_digits(m)[0] as u8),
    decreases m,
{
    if m < 10 {
        lemma_digit_byte(m);
    } else {
        lemma_first_digit((m / 10) as nat);
    }
}

proof fn lemma_scan_range(s: Seq<u8>, i: int, acc: int, neg: bool, lo: int, hi: int)
    requires
        lo <= acc <= hi,
    ensures
        scan_digits(s, i, acc, neg, lo, hi) matches Ok(v) ==> lo <= v <= hi,
    decreases s.len() - i,
{
    if 0 <= i < s.len() && is_digit_byte(s[i]) {
        let d = s[i] - 48;
        let a = if neg {
            acc * 10 - d
        } else {
            acc * 10 + d
        };
        if lo <= a <= hi {
            lemma_scan_range(s, i + 1, a, neg, lo, hi);
        }
    }
}

/// A value read as a decimal integer in `lo..=hi` lies in `lo..=hi`.
pub proof fn lemma_parse_int_range(s: Seq<u8>, lo: int, hi: int)
    requires
        lo <= 0 <= hi,
    ensures
        parse_int_spec(s, lo, hi) matches Ok(v) ==> lo <= v <= hi,
{
    lemma_scan_range(s, 0, 0, false, lo, hi);
    lemma_scan_range(s, 1, 0, true, lo, hi);
    lemma_scan_range(s, 1, 0, false, lo, hi);
}

/// Appends one character to a string.
#[verifier::external_body]
pub(crate) fn string_push(s: &mut String, c: char)
    ensures
        final(s)@ == old(s)@.push(c),
{
    s.push(c);
}

/// Appends a string slice to a string.
pub(crate) fn string_push_str(s: &mut String, t: &str)
    ensures
        final(s)@ == old(s)@ + t@,
{
    s.append(t);
}

fn digit_to_char(d: u64) -> (c: char)
    requires
        d < 10,
    ensures
        c == digit_char(d as nat),
{
    let b: u8 = 48u8 + (d as u8);
    b as char
}

fn push_digits(s: &mut String, m: u64)
    ensures
        final(s)@ == old(s)@ + nat_digits(m as nat),
    decreases m,
{
    if m >= 10 {
        push_digits(s, m / 10);
    }
    let c = digit_to_char(m % 10);
    string_push(s, c);
    proof {
        if m >= 10 {
            assert(nat_digits(m as nat) == nat_digits((m / 10) as nat).push(digit_char((m % 10) as nat)));
        } else {
            assert(nat_digits(m as nat) == seq![digit_char(m as nat)]);
        }
    }
}

/// Decimal text of an unsigned value.
pub fn u64_text(n: u64) -> (s: String)
    ensures
        s@ == int_text(n as int),
{
    let mut s = String::new();
    push_digits(&mut s, n);
    assert(s@ =~= nat_digits(n as nat));
    s
}

/// Decimal text of a signed value.
pub fn i64_text(n: i64) -> (s: String)
    ensures
        s@ == int_text(n as int),
{
    let mut s = String::new();
    if n < 0 {
        string_push(&mut s, '-');
        let wide: i128 = n as i128;
        let mag: u64 = (0i128 - wide) as u64;
        push_digits(&mut s, mag);
        assert(s@ =~= seq!['-'] + nat_digits((-n) as nat));
    } else {
        push_digits(&mut s, n as u64);
        assert(s@ =~= nat_digits(n as nat));
    }
    s
}

/// Decimal text of an `i32`.
pub fn i32_text(n: i32) -> (s: String)
    ensures
        s@ == int_text(n as int),
{
    i64_text(n as i64)
}

/// Reads `s` as a decimal integer in `lo..=hi`.
pub fn parse_int(s: &[u8], lo: i64, hi: i64) -> (r: Result<i64, IntErrorKind>)
    requires
        lo <= 0 <= hi,
    ensures
        match parse_int_spec(s@, lo as int, hi as int) {
            Ok(v) => r == Ok::<i64, IntErrorKind>(v as i64),
            Err(k) => r == Err::<i64, IntErrorKind>(k),
        },
        parse_int_spec(s@, lo as int, hi as int) matches Ok(v) ==> lo <= v <= hi,
{
    let len = s.len();
    if len == 0 {
        return Err(IntErrorKind::Empty);
    }
    let first = s[0];
    let mut i: usize = 0;
    let mut neg = false;
    if first == 43u8 || first == 45u8 {
        if len == 1 {
            return Err(IntErrorKind::InvalidDigit);
        }
        i = 1;
        neg = first == 45u8;
    }
    let ghost start = i as int;
    let mut acc: i64 = 0;
    proof {
        assert(parse_int_spec(s@, lo as int, hi as int) == scan_digits(s@, start, 0, neg, lo as int, hi as int));
    }
    while i < len
        invariant
            len == s@.len(),
            lo <= acc <= hi,
            i <= len,
            lo <= 0 <= hi,
            parse_int_spec(s@, lo as int, hi as int) == scan_digits(s@, i as int, acc as int, neg, lo as int, hi as int),
        decreases len - i,
    {
        let b = s[i];
        if !(48u8 <= b && b <= 57u8) {
            return Err(IntErrorKind::InvalidDigit);
        }
        let d: i64 = (b - 48u8) as i64;
        let wide: i128 = if neg {
            (acc as i128) * 10 - (d as i128)
        } else {
            (acc as i128) * 10 + (d as i128)
        };
        if wide < lo as i128 {
            return Err(IntErrorKind::NegOverflow);
        }
        if wide > hi as i128 {
            return Err(IntErrorKind::PosOverflow);
        }
        acc = wide as i64;
        i = i + 1;
    }
    Ok(acc)
}

/// Reads `s` as a decimal `i32`.
pub fn parse_i32(s: &[u8]) -> (r: Result<i32, IntErrorKind>)
    ensures
        match parse_int_spec(s@, i32::MIN as int, i32::MAX as int) {
            Ok(v) => r == Ok::<i32, IntErrorKind>(v as i32),
            Err(k) => r == Err::<i32, IntErrorKind>(k),
        },
{
    match parse_int(s, i32::MIN as i64, i32::MAX as i64) {
        Ok(v) => Ok(v as i32),
        Err(k) => Err(k),
    }
}

/// Reads `s` as a decimal `i64`.
pub fn parse_i64(s: &[u8]) -> (r: Result<i64, IntErrorKind>)
    ensures
        match parse_int_spec(s@, i64::MIN as int, i64::MAX as int) {
            Ok(v) => r == Ok::<i64, IntErrorKind>(v as i64),
            Err(k) => r == Err::<i64, IntErrorKind>(k),
        },
{
    parse_int(s, i64::MIN, i64::MAX)
}

} // verus!
