//! Low-level frame and field encoding.
use vstd::prelude::*;
use vstd::utf8::*;

use crate::constants::UNSET_INTEGER;
use crate::error::TwsApiError;
use crate::num::{double_field, double_nullable_field, Double};
use crate::text::{ascii_bytes, i32_text, i64_text, int_text, string_push, string_push_str, u64_text};

verus! {

// ---------------------------------------------------------------------------------------------
// Bytes and characters
// ---------------------------------------------------------------------------------------------

/// True for the bytes a field may hold: a tab or a printable ASCII character.
pub open spec fn printable_byte(b: u8) -> bool {
    b == 9u8 || (32u8 <= b && b <= 126u8)
}

/// True when every byte may stand in a field.
pub open spec fn all_printable(bs: Seq<u8>) -> bool {
    forall|i: int| 0 <= i < bs.len() ==> printable_byte(#[trigger] bs[i])
}

/// True for the characters a field may hold: a tab or a printable ASCII character.
pub open spec fn printable_char(c: char) -> bool {
    (c as u32) == 9 || (32 <= (c as u32) && (c as u32) <= 126)
}

/// True when every character may stand in a field.
pub open spec fn printable_text(cs: Seq<char>) -> bool {
    forall|i: int| 0 <= i < cs.len() ==> printable_char(#[trigger] cs[i])
}

proof fn lemma_all_printable_add(a: Seq<u8>, b: Seq<u8>)
    ensures
        all_printable(a + b) <==> all_printable(a) && all_printable(b),
{
    if all_printable(a + b) {
        assert forall|i: int| 0 <= i < a.len() implies printable_byte(#[trigger] a[i]) by {
            assert((a + b)[i] == a[i]);
        }
        assert forall|i: int| 0 <= i < b.len() implies printable_byte(#[trigger] b[i]) by {
            assert((a + b)[a.len() + i] == b[i]);
        }
    }
    if all_printable(a) && all_printable(b) {
        assert forall|i: int| 0 <= i < (a + b).len() implies printable_byte(#[trigger] (a + b)[i]) by {
            if i < a.len() {
                assert((a + b)[i] == a[i]);
            } else {
                assert((a + b)[i] == b[i - a.len()]);
            }
        }
    }
}

pub proof fn lemma_scalar_bytes(c: char)
    ensures
        (c as u32) <= 0x7f ==> encode_scalar(c as u32) == seq![c as u8],
        (c as u32) <= 0x7f ==> (c as u8) as int == (c as u32) as int,
        (c as u32) > 0x7f ==> encode_scalar(c as u32).len() >= 1 && encode_scalar(c as u32)[0] >= 0xc0u8,
{
    broadcast use char_is_scalar;

    let s = c as u32;
    if has_width_1_encoding(s) {
        assert((s & 0x7f) == s) by (bit_vector)
            requires
                s <= 0x7f,
        ;
        assert(c as u8 == s as u8);
    } else if has_width_2_encoding(s) {
        let b = ((s >> 6) & 0x1F) as u8;
        assert((0xC0u8 | b) >= 0xc0u8) by (bit_vector);
    } else if has_width_3_encoding(s) {
        let b = ((s >> 12) & 0x0F) as u8;
        assert((0xE0u8 | b) >= 0xc0u8) by (bit_vector);
    } else {
        let b = ((s >> 18) & 0x7) as u8;
        assert((0xF0u8 | b) >= 0xc0u8) by (bit_vector);
    }
}

/// The UTF-8 bytes of printable text are its characters, one byte each, and the check on
/// bytes agrees with the check on characters.
pub proof fn lemma_printable_utf8(cs: Seq<char>)
    ensures
        all_printable(encode_utf8(cs)) <==> printable_text(cs),
        printable_text(cs) ==> encode_utf8(cs) == ascii_bytes(cs),
    decreases cs.len(),
{
    if cs.len() == 0 {
        assert(ascii_bytes(cs) =~= Seq::<u8>::empty());
    } else {
        let rest = cs.drop_first();
        lemma_printable_utf8(rest);
        lemma_scalar_bytes(cs[0]);
        let head = encode_scalar(cs[0] as u32);
        assert(encode_utf8(cs) == head + encode_utf8(rest));
        lemma_all_printable_add(head, encode_utf8(rest));
        if printable_text(cs) {
            assert(printable_char(cs[0]));
            assert(printable_text(rest)) by {
                assert forall|i: int| 0 <= i < rest.len() implies printable_char(#[trigger] rest[i]) by {
                    assert(rest[i] == cs[i + 1]);
                }
            }
            assert(ascii_bytes(cs) =~= seq![cs[0] as u8] + ascii_bytes(rest));
        }
        if all_printable(encode_utf8(cs)) {
            if (cs[0] as u32) > 0x7f {
                assert(!printable_byte(head[0]));
                assert(false);
            }
            assert(printable_byte(head[0]));
            assert(printable_char(cs[0]));
            assert forall|i: int| 0 <= i < cs.len() implies printable_char(#[trigger] cs[i]) by {
                if i > 0 {
                    assert(cs[i] == rest[i - 1]);
                }
            }
        } else {
            if printable_text(cs) {
                assert(printable_char(cs[0]));
                assert(printable_text(rest)) by {
                    assert forall|i: int| 0 <= i < rest.len() implies printable_char(#[trigger] rest[i]) by {
                        assert(rest[i] == cs[i + 1]);
                    }
                }
                assert(all_printable(head));
                assert(false);
            }
        }
    }
}

/// UTF-8 encoding distributes over concatenation.
pub proof fn lemma_utf8_add(a: Seq<char>, b: Seq<char>)
    ensures
        encode_utf8(a + b) == encode_utf8(a) + encode_utf8(b),
    decreases a.len(),
{
    if a.len() == 0 {
        assert(a + b =~= b);
        assert(encode_utf8(a) =~= Seq::<u8>::empty());
        assert(encode_utf8(a) + encode_utf8(b) =~= encode_utf8(b));
    } else {
        lemma_utf8_add(a.drop_first(), b);
        assert((a + b).drop_first() =~= a.drop_first() + b);
        assert((a + b)[0] == a[0]);
        assert(encode_utf8(a + b) =~= encode_scalar(a[0] as u32) + (encode_utf8(a.drop_first()) + encode_utf8(b)));
    }
}

// ---------------------------------------------------------------------------------------------
// Big-endian integers
// ---------------------------------------------------------------------------------------------

/// The four big-endian bytes of a `u32`.
pub open spec fn be_u32(n: u32) -> Seq<u8> {
    seq![
        (n / 0x100_0000) as u8,
        (n / 0x1_0000 % 0x100) as u8,
        (n / 0x100 % 0x100) as u8,
        (n % 0x100) as u8,
    ]
}

/// The value of four big-endian bytes.
pub open spec fn be_value(b: Seq<u8>) -> int {
    b[0] * 0x100_0000 + b[1] * 0x1_0000 + b[2] * 0x100 + b[3]
}

/// Reading back the big-endian bytes of a value gives the value.
pub proof fn lemma_be_u32_value(n: u32)
    ensures
        be_value(be_u32(n)) == n,
        be_u32(n).len() == 4,
{
}

fn push_be_u32(out: &mut Vec<u8>, n: u32)
    ensures
        final(out)@ == old(out)@ + be_u32(n),
{
    out.push((n / 0x100_0000) as u8);
    out.push((n / 0x1_0000 % 0x100) as u8);
    out.push((n / 0x100 % 0x100) as u8);
    out.push((n % 0x100) as u8);
    assert(final(out)@ =~= old(out)@ + be_u32(n));
}

fn extend_bytes(out: &mut Vec<u8>, src: &[u8])
    ensures
        final(out)@ == old(out)@ + src@,
{
    let ghost start = out@;
    let mut i: usize = 0;
    while i < src.len()
        invariant
            i <= src@.len(),
            out@ == start + src@.subrange(0, i as int),
        decreases src@.len() - i,
    {
        out.push(src[i]);
        i = i + 1;
        assert(out@ =~= start + src@.subrange(0, i as int));
    }
    assert(src@.subrange(0, src@.len() as int) =~= src@);
}

/// A payload with its four-byte big-endian length prefix, the length truncated to 32 bits as the
/// wire format holds it.
pub open spec fn length_prefixed(payload: Seq<u8>) -> Seq<u8> {
    be_u32(payload.len() as u32) + payload
}

// ---------------------------------------------------------------------------------------------
// Frames
// ---------------------------------------------------------------------------------------------

/// A parsed length-prefixed frame and the remaining bytes after it.
#[derive(Debug, Clone, PartialEq, Eq)]
pub struct Frame<'a> {
    /// Payload length from the 4-byte big-endian prefix.
    pub size: usize,
    /// Complete frame payload.
    pub payload: &'a [u8],
    /// Bytes following the complete frame.
    pub rest: &'a [u8],
}

/// Builds the enhanced-handshake message body, including the 4-byte length prefix.
pub fn make_initial_msg(text: &str) -> (out: Vec<u8>)
    ensures
        out@ == length_prefixed(encode_utf8(text@)),
{
    let bytes = text.as_bytes();
    let mut out: Vec<u8> = Vec::new();
    push_be_u32(&mut out, bytes.len() as u32);
    extend_bytes(&mut out, bytes);
    out
}

/// The version text of the enhanced handshake: `v<min>..<max>`, then a space and the connect
/// options when they are present and not empty.
pub open spec fn handshake_version(min_client_ver: i32, max_client_ver: i32, options: Option<Seq<char>>) -> Seq<char> {
    let base = seq!['v'] + int_text(min_client_ver as int) + seq!['.', '.'] + int_text(max_client_ver as int);
    match options {
        Some(o) => if o.len() > 0 {
            base + seq![' '] + o
        } else {
            base
        },
        None => base,
    }
}

/// The bytes `API` followed by a NUL, which open the enhanced handshake.
pub open spec fn api_sign() -> Seq<u8> {
    seq![65u8, 80u8, 73u8, 0u8]
}

/// The connect options as text, when present.
pub open spec fn option_text(options: Option<&str>) -> Option<Seq<char>> {
    match options {
        Some(o) => Some(o@),
        None => None,
    }
}

/// Builds the full `API\0` enhanced handshake.
pub fn make_client_handshake(min_client_ver: i32, max_client_ver: i32, options: Option<&str>) -> (out: Vec<u8>)
    ensures
        out@ == api_sign() + length_prefixed(
            encode_utf8(handshake_version(min_client_ver, max_client_ver, option_text(options))),
        ),
{
    let mut version = String::new();
    string_push(&mut version, 'v');
    let lo = i32_text(min_client_ver);
    string_push_str(&mut version, lo.as_str());
    string_push(&mut version, '.');
    string_push(&mut version, '.');
    let hi = i32_text(max_client_ver);
    string_push_str(&mut version, hi.as_str());
    assert(version@ =~= seq!['v'] + int_text(min_client_ver as int) + seq!['.', '.'] + int_text(max_client_ver as int));
    match options {
        Some(o) => {
            if !o.is_empty() {
                string_push(&mut version, ' ');
                string_push_str(&mut version, o);
            }
        },
        None => {},
    }
    assert(version@ =~= handshake_version(min_client_ver, max_client_ver, option_text(options)));
    let mut out: Vec<u8> = Vec::new();
    out.push(65u8);
    out.push(80u8);
    out.push(73u8);
    out.push(0u8);
    let body = make_initial_msg(version.as_str());
    let ghost head = out@;
    extend_bytes(&mut out, body.as_slice());
    assert(head =~= api_sign());
    out
}

/// Builds a length-prefixed protobuf payload with a raw 4-byte message id.
pub fn make_msg_proto(msg_id: i32, protobuf_data: &[u8]) -> (out: Vec<u8>)
    ensures
        out@ == length_prefixed(be_u32(msg_id as u32) + protobuf_data@),
{
    let mut payload: Vec<u8> = Vec::new();
    push_be_u32(&mut payload, msg_id as u32);
    extend_bytes(&mut payload, protobuf_data);
    let mut out: Vec<u8> = Vec::new();
    push_be_u32(&mut out, payload.len() as u32);
    extend_bytes(&mut out, payload.as_slice());
    out
}

/// The payload of a field-based message: the id as four raw bytes when the server reads raw
/// ids, else the id as a NUL-terminated decimal field; then the already encoded fields.
pub open spec fn msg_payload(msg_id: i32, use_raw_int_msg_id: bool, text: Seq<char>) -> Seq<u8> {
    if use_raw_int_msg_id {
        be_u32(msg_id as u32) + encode_utf8(text)
    } else {
        ascii_bytes(field(int_text(msg_id as int))) + encode_utf8(text)
    }
}

/// Builds a length-prefixed field-based payload.
pub fn make_msg(msg_id: i32, use_raw_int_msg_id: bool, text: &str) -> (r: Result<Vec<u8>, TwsApiError>)
    ensures
        r matches Ok(out) && out@ == length_prefixed(msg_payload(msg_id, use_raw_int_msg_id, text@)),
{
    let mut payload: Vec<u8> = Vec::new();
    if use_raw_int_msg_id {
        push_be_u32(&mut payload, msg_id as u32);
        extend_bytes(&mut payload, text.as_bytes());
    } else {
        let id_field = make_field_i32(msg_id)?;
        proof {
            lemma_int_text_printable(msg_id as int);
            lemma_field_printable(int_text(msg_id as int));
            lemma_printable_utf8(field(int_text(msg_id as int)));
        }
        extend_bytes(&mut payload, id_field.as_str().as_bytes());
        extend_bytes(&mut payload, text.as_bytes());
    }
    let mut out: Vec<u8> = Vec::new();
    push_be_u32(&mut out, payload.len() as u32);
    extend_bytes(&mut out, payload.as_slice());
    Ok(out)
}

/// Reads one complete frame from `buf`: nothing while fewer than four bytes or fewer than the
/// announced payload bytes are there.
pub fn read_msg(buf: &[u8]) -> (r: Result<Option<Frame<'_>>, TwsApiError>)
    ensures
        buf@.len() < 4 ==> r matches Ok(None),
        buf@.len() >= 4 && buf@.len() < 4 + be_value(buf@.subrange(0, 4)) ==> r matches Ok(None),
        buf@.len() >= 4 && buf@.len() >= 4 + be_value(buf@.subrange(0, 4)) ==> (r matches Ok(Some(f))
            && f.size == be_value(buf@.subrange(0, 4)) && f.payload@ == buf@.subrange(
            4,
            4 + be_value(buf@.subrange(0, 4)),
        ) && f.rest@ == buf@.subrange(4 + be_value(buf@.subrange(0, 4)), buf@.len() as int)),
{
    if buf.len() < 4 {
        return Ok(None);
    }
    let size: u32 = (buf[0] as u32) * 0x100_0000 + (buf[1] as u32) * 0x1_0000 + (buf[2] as u32) * 0x100
        + (buf[3] as u32);
    let size = size as usize;
    if buf.len() - 4 < size {
        return Ok(None);
    }
    let end = 4 + size;
    Ok(Some(Frame { size, payload: &buf[4..end], rest: &buf[end..buf.len()] }))
}

// ---------------------------------------------------------------------------------------------
// Fields
// ---------------------------------------------------------------------------------------------

/// A NUL-terminated field.
pub open spec fn field(text: Seq<char>) -> Seq<char> {
    text.push('\0')
}

pub proof fn lemma_int_text_printable(n: int)
    ensures
        printable_text(int_text(n)),
{
    lemma_nat_digits_printable(if n < 0 { (-n) as nat } else { n as nat });
    if n < 0 {
        let d = crate::text::nat_digits((-n) as nat);
        assert forall|i: int| 0 <= i < int_text(n).len() implies printable_char(#[trigger] int_text(n)[i]) by {
            if i > 0 {
                assert(int_text(n)[i] == d[i - 1]);
            }
        }
    }
}

proof fn lemma_nat_digits_printable(m: nat)
    ensures
        printable_text(crate::text::nat_digits(m)),
    decreases m,
{
    if m >= 10 {
        lemma_nat_digits_printable((m / 10) as nat);
    }
}

pub proof fn lemma_field_printable(t: Seq<char>)
    requires
        printable_text(t),
    ensures
        encode_utf8(field(t)) == ascii_bytes(t) + seq![0u8],
        ascii_bytes(field(t)) == ascii_bytes(t) + seq![0u8],
{
    lemma_printable_utf8(t);
    lemma_utf8_add(t, seq!['\0']);
    assert(t + seq!['\0'] =~= field(t));
    assert(encode_utf8(seq!['\0']) =~= seq![0u8]) by {
        lemma_scalar_bytes('\0');
        let z = seq!['\0'];
        assert(z.drop_first() =~= Seq::<char>::empty());
        assert(encode_utf8(Seq::<char>::empty()) =~= Seq::<u8>::empty());
        assert(z[0] == '\0');
        assert(('\0' as u32) == 0u32);
        assert(encode_utf8(z) == encode_scalar(z[0] as u32) + encode_utf8(z.drop_first()));
    }
    assert(ascii_bytes(field(t)) =~= ascii_bytes(t) + seq![0u8]);
}

fn ensure_ascii_printable(value: &str) -> (r: Result<(), TwsApiError>)
    ensures
        printable_text(value@) ==> r is Ok,
        !printable_text(value@) ==> (r matches Err(TwsApiError::NonPrintableAscii(s)) && s@ == value@),
{
    let bytes = value.as_bytes();
    proof {
        lemma_printable_utf8(value@);
    }
    let mut i: usize = 0;
    while i < bytes.len()
        invariant
            i <= bytes@.len(),
            bytes@ == encode_utf8(value@),
            all_printable(encode_utf8(value@)) <==> printable_text(value@),
            forall|j: int| 0 <= j < i ==> printable_byte(#[trigger] bytes@[j]),
        decreases bytes@.len() - i,
    {
        let b = bytes[i];
        if !(b == 9u8 || (32u8 <= b && b <= 126u8)) {
            assert(!printable_byte(bytes@[i as int]));
            return Err(TwsApiError::NonPrintableAscii(value.to_owned()));
        }
        i = i + 1;
    }
    Ok(())
}

/// The field of a text, refusing text that holds anything but tabs and printable ASCII.
fn field_of_text(text: &str) -> (r: Result<String, TwsApiError>)
    ensures
        printable_text(text@) ==> (r matches Ok(s) && s@ == field(text@)),
        !printable_text(text@) ==> (r matches Err(TwsApiError::NonPrintableAscii(s)) && s@ == text@),
{
    ensure_ascii_printable(text)?;
    let mut out = String::new();
    string_push_str(&mut out, text);
    string_push(&mut out, '\0');
    assert(out@ =~= field(text@));
    Ok(out)
}

/// A value that can be written as a TWS field.
pub trait TwsField: Sized {
    /// The text the value is written as.
    spec fn field_text(self) -> Seq<char>;

    /// Converts the value into its field text.
    fn to_tws_field(self) -> (r: Result<String, TwsApiError>)
        ensures
            r matches Ok(s) && s@ == self.field_text(),
    ;
}

/// A value that can be written as a TWS field where unset values go out empty.
pub trait TwsNullableField: Sized {
    /// The text the value is written as, or `None` for a missing value.
    spec fn nullable_text(self) -> Option<Seq<char>>;

    /// Converts the value into its field text; a missing value is refused.
    fn to_tws_nullable_field(self) -> (r: Result<String, TwsApiError>)
        ensures
            match self.nullable_text() {
                Some(t) => r matches Ok(s) && s@ == t,
                None => r == Err::<String, TwsApiError>(TwsApiError::MissingField),
            },
    ;
}

impl<'a> TwsField for &'a str {
    open spec fn field_text(self) -> Seq<char> {
        self@
    }

    fn to_tws_field(self) -> (r: Result<String, TwsApiError>) {
        Ok(self.to_owned())
    }
}

impl<'a> TwsField for &'a String {
    open spec fn field_text(self) -> Seq<char> {
        self@
    }

    fn to_tws_field(self) -> (r: Result<String, TwsApiError>) {
        Ok(self.clone())
    }
}

impl TwsField for String {
    open spec fn field_text(self) -> Seq<char> {
        self@
    }

    fn to_tws_field(self) -> (r: Result<String, TwsApiError>) {
        Ok(self)
    }
}

impl TwsField for bool {
    open spec fn field_text(self) -> Seq<char> {
        int_text(if self { 1 } else { 0 })
    }

    fn to_tws_field(self) -> (r: Result<String, TwsApiError>) {
        Ok(i32_text(if self { 1 } else { 0 }))
    }
}

impl TwsField for i32 {
    open spec fn field_text(self) -> Seq<char> {
        int_text(self as int)
    }

    fn to_tws_field(self) -> (r: Result<String, TwsApiError>) {
        Ok(i32_text(self))
    }
}

impl TwsField for i64 {
    open spec fn field_text(self) -> Seq<char> {
        int_text(self as int)
    }

    fn to_tws_field(self) -> (r: Result<String, TwsApiError>) {
        Ok(i64_text(self))
    }
}

impl TwsField for usize {
    open spec fn field_text(self) -> Seq<char> {
        int_text(self as int)
    }

    fn to_tws_field(self) -> (r: Result<String, TwsApiError>) {
        Ok(u64_text(self as u64))
    }
}

impl<'a> TwsField for &'a Double {
    open spec fn field_text(self) -> Seq<char> {
        double_field(self.text@)
    }

    fn to_tws_field(self) -> (r: Result<String, TwsApiError>) {
        Ok(self.field_text())
    }
}

impl TwsNullableField for i32 {
    open spec fn nullable_text(self) -> Option<Seq<char>> {
        if self == UNSET_INTEGER {
            Some(Seq::<char>::empty())
        } else {
            Some(int_text(self as int))
        }
    }

    fn to_tws_nullable_field(self) -> (r: Result<String, TwsApiError>) {
        if self == UNSET_INTEGER {
            return Ok(String::new());
        }
        self.to_tws_field()
    }
}

impl<'a> TwsNullableField for &'a Double {
    open spec fn nullable_text(self) -> Option<Seq<char>> {
        Some(double_nullable_field(self.text@))
    }

    fn to_tws_nullable_field(self) -> (r: Result<String, TwsApiError>) {
        Ok(self.nullable_field_text())
    }
}

impl<T: TwsField> TwsNullableField for Option<T> {
    open spec fn nullable_text(self) -> Option<Seq<char>> {
        match self {
            Some(v) => Some(v.field_text()),
            None => None,
        }
    }

    fn to_tws_nullable_field(self) -> (r: Result<String, TwsApiError>) {
        match self {
            Some(value) => value.to_tws_field(),
            None => Err(TwsApiError::MissingField),
        }
    }
}

/// Encodes a NUL-terminated field, refusing text that holds anything but tabs and printable
/// ASCII.
pub fn make_field<T: TwsField>(value: T) -> (r: Result<String, TwsApiError>)
    ensures
        printable_text(value.field_text()) ==> (r matches Ok(s) && s@ == field(value.field_text())),
        !printable_text(value.field_text()) ==> (r matches Err(TwsApiError::NonPrintableAscii(s)) && s@
            == value.field_text()),
{
    let text = match value.to_tws_field() {
        Ok(s) => s,
        Err(e) => return Err(e),
    };
    field_of_text(text.as_str())
}

/// Encodes a NUL-terminated field where unset values go out as an empty field; a missing value
/// and text that holds anything but tabs and printable ASCII are refused.
pub fn make_field_handle_empty<T: TwsNullableField>(value: T) -> (r: Result<String, TwsApiError>)
    ensures
        match value.nullable_text() {
            Some(t) => if printable_text(t) {
                r matches Ok(s) && s@ == field(t)
            } else {
                r matches Err(TwsApiError::NonPrintableAscii(s)) && s@ == t
            },
            None => r == Err::<String, TwsApiError>(TwsApiError::MissingField),
        },
{
    let text = match value.to_tws_nullable_field() {
        Ok(s) => s,
        Err(e) => return Err(e),
    };
    field_of_text(text.as_str())
}

/// Encodes an integer field.
pub fn make_field_i32(value: i32) -> (r: Result<String, TwsApiError>)
    ensures
        r matches Ok(s) && s@ == field(int_text(value as int)),
{
    let t = i32_text(value);
    proof {
        lemma_int_text_printable(value as int);
    }
    field_of_text(t.as_str())
}

/// Splits `bs` at its NUL bytes from index `i` on, the current piece starting at `start`.
pub open spec fn split_from(bs: Seq<u8>, start: int, i: int) -> Seq<Seq<u8>>
    decreases bs.len() - i,
{
    if i >= bs.len() || i < 0 {
        seq![bs.subrange(start, bs.len() as int)]
    } else if bs[i] == 0u8 {
        seq![bs.subrange(start, i)] + split_from(bs, i + 1, i + 1)
    } else {
        split_from(bs, start, i + 1)
    }
}

/// The pieces of `bs` between NUL bytes, as `split` on a slice gives them.
pub open spec fn split_nul(bs: Seq<u8>) -> Seq<Seq<u8>> {
    split_from(bs, 0, 0)
}

/// The fields of a payload: its NUL-separated pieces without the empty piece after a final NUL.
pub open spec fn fields_of(bs: Seq<u8>) -> Seq<Seq<u8>> {
    let parts = split_nul(bs);
    if parts.len() > 0 && parts.last().len() == 0 {
        parts.drop_last()
    } else {
        parts
    }
}

/// The views of a list of byte slices.
pub open spec fn slice_views(v: Seq<&[u8]>) -> Seq<Seq<u8>> {
    v.map_values(|s: &[u8]| s@)
}

proof fn lemma_split_from_nonempty(bs: Seq<u8>, start: int, i: int)
    ensures
        split_from(bs, start, i).len() >= 1,
    decreases bs.len() - i,
{
    if i >= bs.len() || i < 0 {
    } else if bs[i] == 0u8 {
        lemma_split_from_nonempty(bs, i + 1, i + 1);
    } else {
        lemma_split_from_nonempty(bs, start, i + 1);
    }
}

/// Splits a payload into NUL-terminated fields, dropping the final empty segment.
pub fn read_fields(buf: &[u8]) -> (fields: Vec<&[u8]>)
    ensures
        slice_views(fields@) == fields_of(buf@),
{
    let mut fields: Vec<&[u8]> = Vec::new();
    let mut start: usize = 0;
    let mut i: usize = 0;
    while i < buf.len()
        invariant
            start <= i <= buf@.len(),
            split_nul(buf@) == slice_views(fields@) + split_from(buf@, start as int, i as int),
        decreases buf@.len() - i,
    {
        if buf[i] == 0u8 {
            let piece = &buf[start..i];
            let ghost before = slice_views(fields@);
            fields.push(piece);
            assert(slice_views(fields@) =~= before + seq![buf@.subrange(start as int, i as int)]);
            start = i + 1;
        }
        i = i + 1;
    }
    let piece = &buf[start..buf.len()];
    let ghost before = slice_views(fields@);
    fields.push(piece);
    assert(slice_views(fields@) =~= before + seq![buf@.subrange(start as int, buf@.len() as int)]);
    assert(split_nul(buf@) =~= slice_views(fields@));
    proof {
        lemma_split_from_nonempty(buf@, 0, 0);
    }
    let n = fields.len();
    if fields[n - 1].len() == 0 {
        let ghost whole = slice_views(fields@);
        fields.pop();
        assert(slice_views(fields@) =~= whole.drop_last());
    }
    fields
}

} // verus!

verus! {

// ---------------------------------------------------------------------------------------------
// Laws of framing
// ---------------------------------------------------------------------------------------------

/// True when no byte is NUL.
pub open spec fn nul_free(f: Seq<u8>) -> bool {
    forall|i: int| 0 <= i < f.len() ==> #[trigger] f[i] != 0u8
}

/// The bytes of a list of fields, each followed by a NUL.
pub open spec fn join_fields(fs: Seq<Seq<u8>>) -> Seq<u8>
    decreases fs.len(),
{
    if fs.len() == 0 {
        Seq::<u8>::empty()
    } else {
        fs[0] + seq![0u8] + join_fields(fs.drop_first())
    }
}

proof fn lemma_split_skip(bs: Seq<u8>, start: int, i: int, j: int)
    requires
        0 <= start <= i <= j <= bs.len(),
        forall|k: int| i <= k < j ==> #[trigger] bs[k] != 0u8,
    ensures
        split_from(bs, start, i) == split_from(bs, start, j),
    decreases j - i,
{
    if i < j {
        lemma_split_skip(bs, start, i + 1, j);
    }
}

proof fn lemma_split_shift(p: Seq<u8>, q: Seq<u8>, s: int, i: int)
    requires
        0 <= s <= i <= q.len(),
    ensures
        split_from(p + q, p.len() + s, p.len() + i) == split_from(q, s, i),
    decreases q.len() - i,
{
    let bs = p + q;
    if i >= q.len() {
        assert(bs.subrange(p.len() + s, bs.len() as int) =~= q.subrange(s, q.len() as int));
    } else {
        assert(bs[p.len() + i] == q[i]);
        if q[i] == 0u8 {
            assert(bs.subrange(p.len() + s, p.len() + i) =~= q.subrange(s, i));
            lemma_split_shift(p, q, i + 1, i + 1);
        } else {
            lemma_split_shift(p, q, s, i + 1);
        }
    }
}

proof fn lemma_split_join(fs: Seq<Seq<u8>>)
    requires
        forall|k: int| 0 <= k < fs.len() ==> nul_free(#[trigger] fs[k]),
    ensures
        split_nul(join_fields(fs)) == fs + seq![Seq::<u8>::empty()],
    decreases fs.len(),
{
    if fs.len() == 0 {
        let e = join_fields(fs);
        assert(e =~= Seq::<u8>::empty());
        assert(split_nul(e) == seq![e.subrange(0, 0)]);
        assert(e.subrange(0, 0) =~= Seq::<u8>::empty());
        assert(split_nul(join_fields(fs)) =~= fs + seq![Seq::<u8>::empty()]);
    } else {
        let f0 = fs[0];
        let rest = fs.drop_first();
        assert forall|k: int| 0 <= k < rest.len() implies nul_free(#[trigger] rest[k]) by {
            assert(rest[k] == fs[k + 1]);
        }
        lemma_split_join(rest);
        let p = f0 + seq![0u8];
        let q = join_fields(rest);
        let bs = join_fields(fs);
        assert(bs =~= p + q);
        assert(nul_free(f0));
        assert forall|k: int| 0 <= k < f0.len() implies #[trigger] bs[k] != 0u8 by {
            assert(bs[k] == f0[k]);
        }
        lemma_split_skip(bs, 0, 0, f0.len() as int);
        assert(bs[f0.len() as int] == 0u8);
        assert(bs.subrange(0, f0.len() as int) =~= f0);
        lemma_split_shift(p, q, 0, 0);
        assert(split_nul(bs) == seq![f0] + split_from(bs, f0.len() as int + 1, f0.len() as int + 1));
        assert(split_nul(bs) =~= fs + seq![Seq::<u8>::empty()]);
    }
}

/// Reading the fields of NUL-terminated pieces that hold no NUL gives the pieces back.
pub proof fn lemma_fields_of_join(fs: Seq<Seq<u8>>)
    requires
        forall|k: int| 0 <= k < fs.len() ==> nul_free(#[trigger] fs[k]),
    ensures
        fields_of(join_fields(fs)) == fs,
{
    lemma_split_join(fs);
    let parts = fs + seq![Seq::<u8>::empty()];
    assert(parts.drop_last() =~= fs);
}

/// A length-prefixed payload followed by more bytes reads back as a frame whose payload is the
/// payload and whose rest is the bytes after it.
pub proof fn lemma_frame_roundtrip(payload: Seq<u8>, more: Seq<u8>)
    requires
        payload.len() <= u32::MAX,
    ensures
        (length_prefixed(payload) + more).len() >= 4,
        be_value((length_prefixed(payload) + more).subrange(0, 4)) == payload.len(),
        (length_prefixed(payload) + more).subrange(4, 4 + payload.len() as int) == payload,
        (length_prefixed(payload) + more).subrange(
            4 + payload.len() as int,
            (length_prefixed(payload) + more).len() as int,
        ) == more,
{
    let buf = length_prefixed(payload) + more;
    lemma_be_u32_value(payload.len() as u32);
    assert(buf.subrange(0, 4) =~= be_u32(payload.len() as u32));
    assert(buf.subrange(4, 4 + payload.len() as int) =~= payload);
    assert(buf.subrange(4 + payload.len() as int, buf.len() as int) =~= more);
}

} // verus!

verus! {

/// Compares two string slices.
pub(crate) fn str_eq(a: &str, b: &str) -> (r: bool)
    ensures
        r == (a@ == b@),
{
    let x = a.as_bytes();
    let y = b.as_bytes();
    proof {
        encode_utf8_decode_utf8(a@);
        encode_utf8_decode_utf8(b@);
    }
    if x.len() != y.len() {
        return false;
    }
    let mut i: usize = 0;
    while i < x.len()
        invariant
            i <= x@.len(),
            x@.len() == y@.len(),
            x@ == encode_utf8(a@),
            y@ == encode_utf8(b@),
            forall|j: int| 0 <= j < i ==> x@[j] == y@[j],
        decreases x@.len() - i,
    {
        if x[i] != y[i] {
            return false;
        }
        i = i + 1;
    }
    assert(x@ =~= y@);
    true
}

} // verus!
