//! Reading incoming payloads: the message id in front, and typed reads of the fields after it.
use vstd::prelude::*;
use vstd::utf8::{decode_utf8, encode_utf8, valid_utf8};

use crate::comm::{be_value, fields_of, read_fields, slice_views, str_eq};
use crate::error::TwsApiError;
use crate::events::Event;
use crate::message::{incoming_id_known, lemma_incoming_ids, Incoming, PROTOBUF_MSG_ID};
use fields::{
    account_download_end_decoded, account_summary_decoded, account_summary_end_decoded,
    account_update_multi_decoded, account_update_multi_end_decoded, account_update_time_decoded,
    account_value_decoded, bond_contract_data_decoded, commission_and_fees_report_decoded,
    completed_order_decoded, contract_data_decoded, contract_data_end_decoded,
    current_time_decoded, current_time_in_millis_decoded, decode_account_download_end_fields,
    decode_account_summary_end_fields, decode_account_summary_fields,
    decode_account_update_multi_end_fields, decode_account_update_multi_fields,
    decode_account_update_time_fields, decode_account_value_fields,
    decode_bond_contract_data_fields, decode_commission_and_fees_report_fields,
    decode_completed_order_fields, decode_contract_data_end_fields, decode_contract_data_fields,
    decode_current_time_fields, decode_current_time_in_millis_fields,
    decode_delta_neutral_validation_fields, decode_display_group_list_fields,
    decode_display_group_updated_fields, decode_error_fields, decode_execution_data_end_fields,
    decode_execution_data_fields, decode_family_codes_fields, decode_head_timestamp_fields,
    decode_histogram_data_fields, decode_historical_data_end_fields,
    decode_historical_data_fields, decode_historical_data_update_fields,
    decode_historical_news_end_fields, decode_historical_news_fields,
    decode_historical_schedule_fields, decode_historical_ticks_bid_ask_fields,
    decode_historical_ticks_fields, decode_historical_ticks_last_fields,
    decode_managed_accounts_fields, decode_market_data_type_fields,
    decode_market_depth_exchanges_fields, decode_market_depth_fields, decode_market_rule_fields,
    decode_news_article_fields, decode_news_bulletin_fields, decode_news_providers_fields,
    decode_next_valid_id_fields, decode_open_order_fields, decode_order_bound_fields,
    decode_order_status_fields, decode_pnl_fields, decode_pnl_single_fields,
    decode_portfolio_value_fields, decode_position_fields, decode_position_multi_end_fields,
    decode_position_multi_fields, decode_real_time_bar_fields, decode_receive_fa_fields,
    decode_replace_fa_end_fields, decode_reroute_market_data_fields,
    decode_reroute_market_depth_fields, decode_scanner_data_fields,
    decode_scanner_parameters_fields, decode_security_definition_option_parameter_end_fields,
    decode_security_definition_option_parameter_fields, decode_smart_components_fields,
    decode_soft_dollar_tiers_fields, decode_symbol_samples_fields, decode_tick_by_tick_fields,
    decode_tick_efp_fields, decode_tick_generic_fields, decode_tick_news_fields,
    decode_tick_option_computation_fields, decode_tick_price_fields,
    decode_tick_req_params_fields, decode_tick_size_fields, decode_tick_snapshot_end_fields,
    decode_tick_string_fields, decode_user_info_fields, decode_verify_and_auth_completed_fields,
    decode_verify_and_auth_message_api_fields, decode_verify_completed_fields,
    decode_verify_message_api_fields, decode_wsh_event_data_fields, decode_wsh_meta_data_fields,
    delta_neutral_validation_decoded, display_group_list_decoded, display_group_updated_decoded,
    error_decoded, execution_data_decoded, execution_data_end_decoded, family_codes_decoded,
    head_timestamp_decoded, histogram_data_decoded, historical_data_decoded,
    historical_data_end_decoded, historical_data_update_decoded, historical_news_decoded,
    historical_news_end_decoded, historical_schedule_decoded, historical_ticks_bid_ask_decoded,
    historical_ticks_decoded, historical_ticks_last_decoded, managed_accounts_decoded,
    market_data_type_decoded, market_depth_decoded, market_depth_exchanges_decoded,
    market_rule_decoded, news_article_decoded, news_bulletin_decoded, news_providers_decoded,
    next_valid_id_decoded, open_order_decoded, order_bound_decoded, order_status_decoded,
    pnl_decoded, pnl_single_decoded, portfolio_value_decoded, position_decoded,
    position_multi_decoded, position_multi_end_decoded, real_time_bar_decoded,
    receive_fa_decoded, replace_fa_end_decoded, reroute_market_data_decoded,
    reroute_market_depth_decoded, scanner_data_decoded, scanner_parameters_decoded,
    security_definition_option_parameter_decoded,
    security_definition_option_parameter_end_decoded, smart_components_decoded,
    soft_dollar_tiers_decoded, symbol_samples_decoded, tick_by_tick_decoded, tick_efp_decoded,
    tick_generic_decoded, tick_news_decoded, tick_option_computation_decoded,
    tick_price_decoded, tick_req_params_decoded, tick_size_decoded, tick_snapshot_end_decoded,
    tick_string_decoded, user_info_decoded, verify_and_auth_completed_decoded,
    verify_and_auth_message_api_decoded, verify_completed_decoded, verify_message_api_decoded,
    wsh_event_data_decoded, wsh_meta_data_decoded,
};
use crate::num::{decimal_field, read_decimal, DecimalText, Double};
use crate::requests::text_views;
use crate::text::{
    lemma_parse_int_range, parse_i32 as parse_i32_bytes, parse_i64 as parse_i64_bytes, parse_int_spec,
    IntErrorKind,
};

pub mod fields;

verus! {

/// The text `String::from_utf8_lossy` makes of some bytes.
pub uninterp spec fn lossy_text(bytes: Seq<u8>) -> Seq<char>;

/// Calls `String::from_utf8_lossy` and takes the result as an owned string. Its documentation
/// says that valid UTF-8 is decoded as it is, and each invalid sequence is replaced by
/// U+FFFD; the contract states the first part and leaves the replacements to `lossy_text`.
#[verifier::external_body]
pub(crate) fn text_of_bytes(bytes: &[u8]) -> (s: String)
    ensures
        s@ == lossy_text(bytes@),
        valid_utf8(bytes@) ==> s@ == decode_utf8(bytes@),
{
    String::from_utf8_lossy(bytes).into_owned()
}

/// Reads a decimal `i32` field given as bytes; an unreadable field is refused with its text.
pub fn parse_i32_field(bytes: &[u8]) -> (r: Result<i32, TwsApiError>)
    ensures
        match parse_int_spec(bytes@, i32::MIN as int, i32::MAX as int) {
            Ok(v) => r == Ok::<i32, TwsApiError>(v as i32),
            Err(k) => r matches Err(TwsApiError::InvalidInteger { field, kind }) && kind == k && field@
                == lossy_text(bytes@),
        },
{
    match parse_i32_bytes(bytes) {
        Ok(v) => Ok(v),
        Err(kind) => Err(TwsApiError::InvalidInteger { field: text_of_bytes(bytes), kind }),
    }
}

/// The four bytes in front of a payload as a big-endian `i32`.
pub open spec fn be_i32(b: Seq<u8>) -> i32 {
    (be_value(b) as u32) as i32
}

/// The index of the first NUL byte of `bs` at or after `i`, or the length when there is none.
pub open spec fn first_nul(bs: Seq<u8>, i: int) -> int
    decreases bs.len() - i,
{
    if i >= bs.len() || i < 0 {
        bs.len() as int
    } else if bs[i] == 0u8 {
        i
    } else {
        first_nul(bs, i + 1)
    }
}

proof fn lemma_first_nul_bounds(bs: Seq<u8>, i: int)
    requires
        0 <= i <= bs.len(),
    ensures
        i <= first_nul(bs, i) <= bs.len(),
        first_nul(bs, i) < bs.len() ==> bs[first_nul(bs, i)] == 0u8,
        forall|k: int| i <= k < first_nul(bs, i) ==> bs[k] != 0u8,
    decreases bs.len() - i,
{
    if i < bs.len() && bs[i] != 0u8 {
        lemma_first_nul_bounds(bs, i + 1);
    }
}

/// The message id in front of an incoming payload and the bytes after it: four raw big-endian
/// bytes when the server sends raw ids, else the decimal text in front of the first NUL.
pub open spec fn payload_id(raw: bool, p: Seq<u8>) -> Option<(i32, Seq<u8>)> {
    if raw {
        if p.len() < 4 {
            None
        } else {
            Some((be_i32(p.subrange(0, 4)), p.skip(4)))
        }
    } else {
        let n = first_nul(p, 0);
        if n == p.len() {
            None
        } else {
            match parse_int_spec(p.take(n), i32::MIN as int, i32::MAX as int) {
                Ok(v) => Some((v as i32, p.skip(n + 1))),
                Err(_) => None,
            }
        }
    }
}

/// The error for a payload whose message id cannot be split off: too few bytes for a raw id, no
/// NUL after a text id, or a text id that is not a decimal `i32`.
pub open spec fn id_split_error(raw: bool, p: Seq<u8>, e: TwsApiError) -> bool {
    if raw {
        e == TwsApiError::IncompleteFrame { needed: 4, available: p.len() as usize }
    } else if first_nul(p, 0) == p.len() {
        e == TwsApiError::MalformedHandshake
    } else {
        match parse_int_spec(p.take(first_nul(p, 0)), i32::MIN as int, i32::MAX as int) {
            Ok(_) => false,
            Err(k) => e matches TwsApiError::InvalidInteger { field, kind } && kind == k && field@
                == lossy_text(p.take(first_nul(p, 0))),
        }
    }
}

/// Splits the message id off an incoming payload: four raw big-endian bytes when the server
/// sends raw ids, else the decimal text in front of the first NUL.
pub fn split_message_id(raw: bool, payload: &[u8]) -> (r: Result<(i32, &[u8]), TwsApiError>)
    ensures
        match payload_id(raw, payload@) {
            Some((id, body)) => r matches Ok((i, b)) && i == id && b@ == body,
            None => r matches Err(e) && id_split_error(raw, payload@, e),
        },
{
    if raw {
        if payload.len() < 4 {
            return Err(TwsApiError::IncompleteFrame { needed: 4, available: payload.len() });
        }
        let value: u32 = (payload[0] as u32) * 0x100_0000 + (payload[1] as u32) * 0x1_0000 + (
        payload[2] as u32) * 0x100 + (payload[3] as u32);
        let body = &payload[4..payload.len()];
        return Ok((value as i32, body));
    }
    proof {
        lemma_first_nul_bounds(payload@, 0);
    }
    let mut nul: usize = 0;
    while nul < payload.len() && payload[nul] != 0u8
        invariant
            nul <= payload@.len(),
            first_nul(payload@, 0) == first_nul(payload@, nul as int),
        decreases payload@.len() - nul,
    {
        nul = nul + 1;
    }
    if nul == payload.len() {
        return Err(TwsApiError::MalformedHandshake);
    }
    let id_bytes = &payload[0..nul];
    proof {
        assert(id_bytes@ =~= payload@.take(nul as int));
        crate::text::lemma_parse_int_range(id_bytes@, i32::MIN as int, i32::MAX as int);
    }
    let id = parse_i32_field(id_bytes)?;
    let body = &payload[nul + 1..payload.len()];
    assert(body@ =~= payload@.skip(nul + 1));
    Ok((id, body))
}

// ---------------------------------------------------------------------------------------------
// Typed field reads
// ---------------------------------------------------------------------------------------------

/// True for the texts a boolean field reads as true.
pub open spec fn bool_field(t: Seq<char>) -> bool {
    t == "1"@ || t == "true"@ || t == "True"@
}

/// True for the texts a condition connector reads as a conjunction.
pub open spec fn conjunction_field(t: Seq<char>) -> bool {
    t == "a"@ || t == "A"@ || t == "1"@ || t == "true"@ || t == "True"@
}

/// What reading a decimal integer out of a field's text gives.
pub open spec fn int_field(t: Seq<char>, lo: int, hi: int) -> Result<int, IntErrorKind> {
    parse_int_spec(encode_utf8(t), lo, hi)
}

/// The text of field `i`, empty when there is no such field.
pub open spec fn text_at(t: Seq<Seq<char>>, i: int) -> Seq<char> {
    if 0 <= i < t.len() {
        t[i]
    } else {
        Seq::<char>::empty()
    }
}

/// Field `i` read as a decimal `i32`.
pub open spec fn i32_at(t: Seq<Seq<char>>, i: int) -> Result<int, IntErrorKind> {
    int_field(text_at(t, i), i32::MIN as int, i32::MAX as int)
}

/// Field `i` read as a decimal `i64`.
pub open spec fn i64_at(t: Seq<Seq<char>>, i: int) -> Result<int, IntErrorKind> {
    int_field(text_at(t, i), i64::MIN as int, i64::MAX as int)
}

/// Field `i` read as a decimal `i32`, zero when it cannot be read.
pub open spec fn i32_or_zero(t: Seq<Seq<char>>, i: int) -> int {
    match i32_at(t, i) {
        Ok(v) => v,
        Err(_) => 0,
    }
}

/// Field `i` read as a boolean.
pub open spec fn bool_at(t: Seq<Seq<char>>, i: int) -> bool {
    bool_field(text_at(t, i))
}

/// Field `i` read as a decimal quantity.
pub open spec fn decimal_at(t: Seq<Seq<char>>, i: int) -> Option<Seq<char>> {
    decimal_field(text_at(t, i))
}

/// Field `i` read as a decimal quantity, zero when it cannot be read.
pub open spec fn decimal_or_zero(t: Seq<Seq<char>>, i: int) -> Seq<char> {
    match decimal_at(t, i) {
        Some(d) => d,
        None => "0"@,
    }
}

/// True when `e` reports that field `i` is not a decimal integer, for the reason `k`.
pub open spec fn int_error(e: TwsApiError, t: Seq<Seq<char>>, i: int, k: IntErrorKind) -> bool {
    e matches TwsApiError::InvalidInteger { field, kind } && kind == k && field@ == text_at(t, i)
}

/// True when `e` reports that field `i` is not a decimal quantity.
pub open spec fn decimal_error(e: TwsApiError, t: Seq<Seq<char>>, i: int) -> bool {
    e matches TwsApiError::InvalidDecimal { field } && field@ == text_at(t, i)
}

/// The text of an optional field, empty when missing.
pub open spec fn optional_text(value: Option<&String>) -> Seq<char> {
    match value {
        Some(s) => s@,
        None => Seq::<char>::empty(),
    }
}

/// Reads a boolean field: `1`, `true` and `True` are true, anything else or no field is false.
pub fn parse_bool(value: Option<&String>) -> (r: bool)
    ensures
        r == (value matches Some(s) && bool_field(s@)),
{
    proof {
        reveal_strlit("1");
        reveal_strlit("true");
        reveal_strlit("True");
    }
    match value {
        Some(s) => {
            let t = s.as_str();
            str_eq(t, "1") || str_eq(t, "true") || str_eq(t, "True")
        },
        None => false,
    }
}

/// Reads a condition connector: `a`, `A`, `1`, `true` and `True` join conditions with AND.
pub fn parse_condition_connector(value: &str) -> (r: bool)
    ensures
        r == conjunction_field(value@),
{
    str_eq(value, "a") || str_eq(value, "A") || str_eq(value, "1") || str_eq(value, "true") || str_eq(
        value,
        "True",
    )
}

/// Reads a decimal `i32` out of an optional field; no field reads as empty text, which is
/// refused.
pub fn parse_i32(value: Option<&String>) -> (r: Result<i32, TwsApiError>)
    ensures
        match int_field(optional_text(value), i32::MIN as int, i32::MAX as int) {
            Ok(v) => r == Ok::<i32, TwsApiError>(v as i32),
            Err(k) => r matches Err(TwsApiError::InvalidInteger { field, kind }) && kind == k && field@
                == optional_text(value),
        },
{
    let field = match value {
        Some(s) => s.clone(),
        None => String::new(),
    };
    match parse_i32_bytes(field.as_str().as_bytes()) {
        Ok(v) => Ok(v),
        Err(kind) => Err(TwsApiError::InvalidInteger { field, kind }),
    }
}

/// Reads a decimal `i64` out of an optional field; no field reads as empty text, which is
/// refused.
pub fn parse_i64(value: Option<&String>) -> (r: Result<i64, TwsApiError>)
    ensures
        match int_field(optional_text(value), i64::MIN as int, i64::MAX as int) {
            Ok(v) => r == Ok::<i64, TwsApiError>(v as i64),
            Err(k) => r matches Err(TwsApiError::InvalidInteger { field, kind }) && kind == k && field@
                == optional_text(value),
        },
{
    let field = match value {
        Some(s) => s.clone(),
        None => String::new(),
    };
    match parse_i64_bytes(field.as_str().as_bytes()) {
        Ok(v) => Ok(v),
        Err(kind) => Err(TwsApiError::InvalidInteger { field, kind }),
    }
}

/// Reads a decimal quantity out of an optional field: no field or an empty one reads as zero,
/// other text must be a number `rust_decimal` reads.
pub fn parse_decimal(value: Option<&String>) -> (r: Result<DecimalText, TwsApiError>)
    ensures
        match decimal_field(optional_text(value)) {
            Some(d) => r matches Ok(x) && x.text@ == d,
            None => r matches Err(TwsApiError::InvalidDecimal { field }) && field@ == optional_text(value),
        },
{
    let field = match value {
        Some(s) => s.clone(),
        None => String::new(),
    };
    match read_decimal(field.as_str()) {
        Some(d) => Ok(d),
        None => Err(TwsApiError::InvalidDecimal { field }),
    }
}

fn field_get<'a>(fields: &'a [String], i: usize) -> (r: Option<&'a String>)
    ensures
        i < fields@.len() ==> r == Some(&fields@[i as int]),
        i >= fields@.len() ==> r is None,
{
    if i < fields.len() {
        Some(&fields[i])
    } else {
        None
    }
}

/// A cursor over the fields of a decoded payload. Reading past the last field gives empty
/// text, as a missing field does.
pub struct FieldReader<'a> {
    fields: &'a [String],
    index: usize,
    position: Ghost<int>,
}

impl<'a> FieldReader<'a> {
    /// The texts of the fields read.
    pub closed spec fn texts(&self) -> Seq<Seq<char>> {
        text_views(self.fields@)
    }

    /// The index of the next field, which may lie past the last one.
    pub closed spec fn position(&self) -> int {
        self.position@
    }

    /// The reader's index stands at its position, or at the end when the position is past it.
    pub closed spec fn wf(&self) -> bool {
        &&& 0 <= self.position@
        &&& self.index <= self.fields@.len()
        &&& (self.position@ <= self.fields@.len() ==> self.index == self.position@)
        &&& (self.position@ > self.fields@.len() ==> self.index == self.fields@.len())
    }

    proof fn lemma_at_index(&self)
        requires
            self.wf(),
        ensures
            text_at(self.texts(), self.position()) == (if self.index < self.fields@.len() {
                self.fields@[self.index as int]@
            } else {
                Seq::<char>::empty()
            }),
            (self.index < self.fields@.len()) == (self.position() < self.texts().len()),
            self.texts().len() == self.fields@.len(),
    {
    }

    /// A reader at the first field.
    pub fn new(fields: &'a [String]) -> (r: Self)
        ensures
            r.wf(),
            r.texts() == text_views(fields@),
            r.position() == 0,
    {
        Self { fields, index: 0, position: Ghost(0) }
    }

    fn advance(&mut self)
        requires
            old(self).wf(),
        ensures
            final(self).wf(),
            final(self).texts() == old(self).texts(),
            final(self).position() == old(self).position() + 1,
    {
        if self.index < self.fields.len() {
            self.index = self.index + 1;
        }
        self.position = Ghost(self.position@ + 1);
    }

    fn current(&self) -> (r: Option<&'a String>)
        requires
            self.wf(),
        ensures
            optional_text(r) == text_at(self.texts(), self.position()),
    {
        proof {
            self.lemma_at_index();
        }
        field_get(self.fields, self.index)
    }

    /// The field `offset` places ahead of the next one, if there is one.
    pub fn peek(&self, offset: usize) -> (r: Option<&'a String>)
        requires
            self.wf(),
        ensures
            self.position() + offset < self.texts().len() ==> (r matches Some(s) && s@ == text_at(
                self.texts(),
                self.position() + offset,
            )),
            self.position() + offset >= self.texts().len() ==> r is None,
    {
        proof {
            self.lemma_at_index();
        }
        if offset < self.fields.len() - self.index {
            field_get(self.fields, self.index + offset)
        } else {
            None
        }
    }

    /// Whether a field is left to read.
    pub fn has_more(&self) -> (r: bool)
        requires
            self.wf(),
        ensures
            r == (self.position() < self.texts().len()),
    {
        proof {
            self.lemma_at_index();
        }
        self.index < self.fields.len()
    }

    /// How many fields are left to read.
    pub fn remaining(&self) -> (r: usize)
        requires
            self.wf(),
        ensures
            self.position() <= self.texts().len() ==> r == self.texts().len() - self.position(),
            self.position() > self.texts().len() ==> r == 0,
    {
        proof {
            self.lemma_at_index();
        }
        self.fields.len() - self.index
    }

    /// Reads the next field as text, empty when missing.
    pub fn next_string(&mut self) -> (r: String)
        requires
            old(self).wf(),
        ensures
            final(self).wf(),
            r@ == text_at(old(self).texts(), old(self).position()),
            final(self).texts() == old(self).texts(),
            final(self).position() == old(self).position() + 1,
    {
        let value = match self.current() {
            Some(s) => s.clone(),
            None => String::new(),
        };
        self.advance();
        value
    }

    /// Reads the next field as a floating-point value, kept as its text.
    pub fn next_double(&mut self) -> (r: Double)
        requires
            old(self).wf(),
        ensures
            final(self).wf(),
            r.text@ == text_at(old(self).texts(), old(self).position()),
            final(self).texts() == old(self).texts(),
            final(self).position() == old(self).position() + 1,
    {
        Double::new(self.next_string())
    }

    /// Reads the next field as a decimal `i32`.
    pub fn next_i32(&mut self) -> (r: Result<i32, TwsApiError>)
        requires
            old(self).wf(),
        ensures
            final(self).wf(),
            match i32_at(old(self).texts(), old(self).position()) {
                Ok(v) => r matches Ok(x) && x == v,
                Err(k) => r matches Err(e) && int_error(e, old(self).texts(), old(self).position(), k),
            },
            final(self).texts() == old(self).texts(),
            final(self).position() == old(self).position() + 1,
    {
        proof {
            lemma_parse_int_range(
                encode_utf8(text_at(self.texts(), self.position())),
                i32::MIN as int,
                i32::MAX as int,
            );
        }
        let value = parse_i32(self.current());
        self.advance();
        value
    }

    /// Reads the next field as a decimal `i64`.
    pub fn next_i64(&mut self) -> (r: Result<i64, TwsApiError>)
        requires
            old(self).wf(),
        ensures
            final(self).wf(),
            match i64_at(old(self).texts(), old(self).position()) {
                Ok(v) => r matches Ok(x) && x == v,
                Err(k) => r matches Err(e) && int_error(e, old(self).texts(), old(self).position(), k),
            },
            final(self).texts() == old(self).texts(),
            final(self).position() == old(self).position() + 1,
    {
        proof {
            lemma_parse_int_range(
                encode_utf8(text_at(self.texts(), self.position())),
                i64::MIN as int,
                i64::MAX as int,
            );
        }
        let value = parse_i64(self.current());
        self.advance();
        value
    }

    /// Reads the next field as a decimal `i32`, zero when it cannot be read.
    pub fn next_i32_or_default(&mut self) -> (r: i32)
        requires
            old(self).wf(),
        ensures
            final(self).wf(),
            r == i32_or_zero(old(self).texts(), old(self).position()),
            final(self).texts() == old(self).texts(),
            final(self).position() == old(self).position() + 1,
    {
        proof {
            lemma_parse_int_range(
                encode_utf8(text_at(self.texts(), self.position())),
                i32::MIN as int,
                i32::MAX as int,
            );
        }
        match self.next_i32() {
            Ok(v) => v,
            Err(_) => 0,
        }
    }

    /// Reads the next field as a boolean.
    pub fn next_bool(&mut self) -> (r: bool)
        requires
            old(self).wf(),
        ensures
            final(self).wf(),
            r == bool_at(old(self).texts(), old(self).position()),
            final(self).texts() == old(self).texts(),
            final(self).position() == old(self).position() + 1,
    {
        proof {
            reveal_strlit("1");
            reveal_strlit("true");
            reveal_strlit("True");
        }
        let cur = self.current();
        let value = parse_bool(cur);
        proof {
            match cur {
                Some(s) => {
                    assert(optional_text(cur) == s@);
                    assert(s@ == text_at(self.texts(), self.position()));
                    assert(value == bool_field(s@));
                },
                None => {
                    assert(text_at(self.texts(), self.position()) == Seq::<char>::empty());
                    assert(!bool_field(Seq::<char>::empty()));
                },
            }
        }
        self.advance();
        value
    }

    /// Reads the next field as a decimal quantity.
    pub fn next_decimal(&mut self) -> (r: Result<DecimalText, TwsApiError>)
        requires
            old(self).wf(),
        ensures
            final(self).wf(),
            match decimal_at(old(self).texts(), old(self).position()) {
                Some(d) => r matches Ok(x) && x.text@ == d,
                None => r matches Err(e) && decimal_error(e, old(self).texts(), old(self).position()),
            },
            final(self).texts() == old(self).texts(),
            final(self).position() == old(self).position() + 1,
    {
        let value = parse_decimal(self.current());
        self.advance();
        value
    }

    /// Reads the next field as a decimal quantity, zero when it cannot be read.
    pub fn next_decimal_or_default(&mut self) -> (r: DecimalText)
        requires
            old(self).wf(),
        ensures
            final(self).wf(),
            r.text@ == decimal_or_zero(old(self).texts(), old(self).position()),
            final(self).texts() == old(self).texts(),
            final(self).position() == old(self).position() + 1,
    {
        match self.next_decimal() {
            Ok(d) => d,
            Err(_) => DecimalText::zero(),
        }
    }
}

/// The texts a field payload reads as: its NUL-terminated fields, each decoded as UTF-8 with
/// invalid sequences replaced.
pub open spec fn lossy_fields(body: Seq<u8>) -> Seq<Seq<char>> {
    fields_of(body).map_values(|b: Seq<u8>| lossy_text(b))
}

/// The texts a field payload reads as when each of its fields is valid UTF-8.
pub open spec fn utf8_fields(body: Seq<u8>) -> Seq<Seq<char>> {
    fields_of(body).map_values(|b: Seq<u8>| decode_utf8(b))
}

/// True when each NUL-terminated field of a payload is valid UTF-8.
pub open spec fn fields_valid_utf8(body: Seq<u8>) -> bool {
    forall|i: int| 0 <= i < fields_of(body).len() ==> valid_utf8(#[trigger] fields_of(body)[i])
}

/// Splits a field payload into its fields, each as text; a field that is valid UTF-8 reads as
/// its decoding.
pub fn read_text_fields(body: &[u8]) -> (r: Vec<String>)
    ensures
        text_views(r@) == lossy_fields(body@),
        forall|i: int|
            0 <= i < fields_of(body@).len() && valid_utf8(#[trigger] fields_of(body@)[i]) ==> r@[i]@
                == decode_utf8(fields_of(body@)[i]),
        fields_valid_utf8(body@) ==> text_views(r@) == utf8_fields(body@),
{
    let parts = read_fields(body);
    let mut out: Vec<String> = Vec::new();
    let mut i: usize = 0;
    while i < parts.len()
        invariant
            i <= parts@.len(),
            slice_views(parts@) == fields_of(body@),
            text_views(out@) == lossy_fields(body@).take(i as int),
            out@.len() == i,
            forall|k: int|
                0 <= k < i && valid_utf8(#[trigger] fields_of(body@)[k]) ==> out@[k]@ == decode_utf8(
                    fields_of(body@)[k],
                ),
        decreases parts@.len() - i,
    {
        let ghost before = text_views(out@);
        out.push(text_of_bytes(parts[i]));
        proof {
            assert(slice_views(parts@)[i as int] == parts@[i as int]@);
            assert(fields_of(body@)[i as int] == parts@[i as int]@);
            assert(lossy_fields(body@)[i as int] == lossy_text(parts@[i as int]@));
            assert(text_views(out@) =~= before.push(lossy_text(parts@[i as int]@)));
            assert(text_views(out@) =~= lossy_fields(body@).take(i + 1));
        }
        i = i + 1;
    }
    assert(lossy_fields(body@).take(parts@.len() as int) =~= lossy_fields(body@));
    proof {
        if fields_valid_utf8(body@) {
            assert forall|k: int| 0 <= k < fields_of(body@).len() implies text_views(out@)[k]
                == utf8_fields(body@)[k] by {
                assert(valid_utf8(fields_of(body@)[k]));
            }
            assert(text_views(out@) =~= utf8_fields(body@));
        }
    }
    out
}


/// The incoming message a numeric id names, if any.
pub open spec fn incoming_message(id: i32) -> Option<Incoming> {
    if incoming_id_known(id) {
        Some(choose|e: Incoming| e.wire_id() == id)
    } else {
        None
    }
}

/// What decoding the fields `t` of a field-based message with id `id` gives: the decoder of the
/// message the id names, and for an id this library does not decode, the id and the fields as
/// they came.
pub open spec fn fields_event(raw: bool, id: i32, t: Seq<Seq<char>>, r: Result<Event, TwsApiError>) -> bool {
    match incoming_message(id) {
        Some(Incoming::TickPrice) => tick_price_decoded(t, r),
        Some(Incoming::TickSize) => tick_size_decoded(t, r),
        Some(Incoming::OrderStatus) => order_status_decoded(t, raw, r),
        Some(Incoming::ErrorMessage) => error_decoded(t, r),
        Some(Incoming::OpenOrder) => open_order_decoded(t, r),
        Some(Incoming::AccountValue) => account_value_decoded(t, r),
        Some(Incoming::PortfolioValue) => portfolio_value_decoded(t, r),
        Some(Incoming::AccountUpdateTime) => account_update_time_decoded(t, r),
        Some(Incoming::NextValidId) => next_valid_id_decoded(t, r),
        Some(Incoming::ContractData) => contract_data_decoded(t, r),
        Some(Incoming::ExecutionData) => execution_data_decoded(t, r),
        Some(Incoming::MarketDepth) => market_depth_decoded(t, false, r),
        Some(Incoming::MarketDepthL2) => market_depth_decoded(t, true, r),
        Some(Incoming::NewsBulletins) => news_bulletin_decoded(t, r),
        Some(Incoming::ManagedAccounts) => managed_accounts_decoded(t, r),
        Some(Incoming::ReceiveFa) => receive_fa_decoded(t, r),
        Some(Incoming::HistoricalData) => historical_data_decoded(t, r),
        Some(Incoming::BondContractData) => bond_contract_data_decoded(t, r),
        Some(Incoming::ScannerParameters) => scanner_parameters_decoded(t, r),
        Some(Incoming::ScannerData) => scanner_data_decoded(t, r),
        Some(Incoming::TickOptionComputation) => tick_option_computation_decoded(t, r),
        Some(Incoming::TickGeneric) => tick_generic_decoded(t, r),
        Some(Incoming::TickString) => tick_string_decoded(t, r),
        Some(Incoming::TickEfp) => tick_efp_decoded(t, r),
        Some(Incoming::CurrentTime) => current_time_decoded(t, r),
        Some(Incoming::RealTimeBars) => real_time_bar_decoded(t, r),
        Some(Incoming::ContractDataEnd) => contract_data_end_decoded(t, r),
        Some(Incoming::OpenOrderEnd) => r == Ok::<Event, TwsApiError>(Event::OpenOrderEnd),
        Some(Incoming::AccountDownloadEnd) => account_download_end_decoded(t, r),
        Some(Incoming::ExecutionDataEnd) => execution_data_end_decoded(t, r),
        Some(Incoming::DeltaNeutralValidation) => delta_neutral_validation_decoded(t, r),
        Some(Incoming::TickSnapshotEnd) => tick_snapshot_end_decoded(t, r),
        Some(Incoming::MarketDataType) => market_data_type_decoded(t, r),
        Some(Incoming::CommissionAndFeesReport) => commission_and_fees_report_decoded(t, r),
        Some(Incoming::PositionData) => position_decoded(t, r),
        Some(Incoming::PositionEnd) => r == Ok::<Event, TwsApiError>(Event::PositionEnd),
        Some(Incoming::AccountSummary) => account_summary_decoded(t, r),
        Some(Incoming::AccountSummaryEnd) => account_summary_end_decoded(t, r),
        Some(Incoming::VerifyMessageApi) => verify_message_api_decoded(t, r),
        Some(Incoming::VerifyCompleted) => verify_completed_decoded(t, r),
        Some(Incoming::DisplayGroupList) => display_group_list_decoded(t, r),
        Some(Incoming::DisplayGroupUpdated) => display_group_updated_decoded(t, r),
        Some(Incoming::VerifyAndAuthMessageApi) => verify_and_auth_message_api_decoded(t, r),
        Some(Incoming::VerifyAndAuthCompleted) => verify_and_auth_completed_decoded(t, r),
        Some(Incoming::PositionMulti) => position_multi_decoded(t, r),
        Some(Incoming::PositionMultiEnd) => position_multi_end_decoded(t, r),
        Some(Incoming::AccountUpdateMulti) => account_update_multi_decoded(t, r),
        Some(Incoming::AccountUpdateMultiEnd) => account_update_multi_end_decoded(t, r),
        Some(Incoming::SecurityDefinitionOptionParameter) => security_definition_option_parameter_decoded(t, r),
        Some(Incoming::SecurityDefinitionOptionParameterEnd) => security_definition_option_parameter_end_decoded(t, r),
        Some(Incoming::SoftDollarTiers) => soft_dollar_tiers_decoded(t, r),
        Some(Incoming::FamilyCodes) => family_codes_decoded(t, r),
        Some(Incoming::SymbolSamples) => symbol_samples_decoded(t, r),
        Some(Incoming::MarketDepthExchanges) => market_depth_exchanges_decoded(t, r),
        Some(Incoming::TickRequestParameters) => tick_req_params_decoded(t, r),
        Some(Incoming::SmartComponents) => smart_components_decoded(t, r),
        Some(Incoming::NewsArticle) => news_article_decoded(t, r),
        Some(Incoming::TickNews) => tick_news_decoded(t, r),
        Some(Incoming::NewsProviders) => news_providers_decoded(t, r),
        Some(Incoming::HistoricalNews) => historical_news_decoded(t, r),
        Some(Incoming::HistoricalNewsEnd) => historical_news_end_decoded(t, r),
        Some(Incoming::HeadTimestamp) => head_timestamp_decoded(t, r),
        Some(Incoming::HistogramData) => histogram_data_decoded(t, r),
        Some(Incoming::HistoricalDataUpdate) => historical_data_update_decoded(t, r),
        Some(Incoming::RerouteMarketDataRequest) => reroute_market_data_decoded(t, r),
        Some(Incoming::RerouteMarketDepthRequest) => reroute_market_depth_decoded(t, r),
        Some(Incoming::MarketRule) => market_rule_decoded(t, r),
        Some(Incoming::Pnl) => pnl_decoded(t, r),
        Some(Incoming::PnlSingle) => pnl_single_decoded(t, r),
        Some(Incoming::HistoricalTicks) => historical_ticks_decoded(t, r),
        Some(Incoming::HistoricalTicksBidAsk) => historical_ticks_bid_ask_decoded(t, r),
        Some(Incoming::HistoricalTicksLast) => historical_ticks_last_decoded(t, r),
        Some(Incoming::TickByTick) => tick_by_tick_decoded(t, r),
        Some(Incoming::OrderBound) => order_bound_decoded(t, r),
        Some(Incoming::CompletedOrder) => completed_order_decoded(t, r),
        Some(Incoming::CompletedOrdersEnd) => r == Ok::<Event, TwsApiError>(Event::CompletedOrdersEnd),
        Some(Incoming::ReplaceFaEnd) => replace_fa_end_decoded(t, r),
        Some(Incoming::WshMetaData) => wsh_meta_data_decoded(t, r),
        Some(Incoming::WshEventData) => wsh_event_data_decoded(t, r),
        Some(Incoming::HistoricalSchedule) => historical_schedule_decoded(t, r),
        Some(Incoming::UserInfo) => user_info_decoded(t, r),
        Some(Incoming::HistoricalDataEnd) => historical_data_end_decoded(t, r),
        Some(Incoming::CurrentTimeInMillis) => current_time_in_millis_decoded(t, r),
        _ => r matches Ok(Event::Raw { msg_id, fields }) && msg_id == id && text_views(fields@) == t,
    }
}

/// What decoding an incoming payload gives: the error of a message id that cannot be split off;
/// for an id above the protobuf offset, the id less the offset and the bytes after it, passed
/// on undecoded; else what the fields after the id decode to.
///
/// Passing protobuf messages on undecoded is this library's choice: it holds no protobuf
/// message definitions to decode them with, so a caller that wants their contents decodes the
/// bytes of [`Event::RawProtobuf`] itself.
pub open spec fn payload_decoded(raw: bool, p: Seq<u8>, r: Result<Event, TwsApiError>) -> bool {
    match payload_id(raw, p) {
        None => r matches Err(e) && id_split_error(raw, p, e),
        Some((id, body)) => if id > PROTOBUF_MSG_ID {
            r matches Ok(Event::RawProtobuf { msg_id, payload }) && msg_id == id - PROTOBUF_MSG_ID && payload@ == body
        } else {
            fields_event(raw, id, lossy_fields(body), r)
        },
    }
}

/// Decodes an incoming payload: splits off its message id, passes a protobuf payload on
/// undecoded as [`Event::RawProtobuf`] (this library does not decode protobuf messages), and
/// hands the fields of any other to the decoder of its message.
#[verifier::rlimit(60)]
pub fn decode_payload(server_uses_raw_msg_id: bool, payload: &[u8]) -> (r: Result<Event, TwsApiError>)
    ensures
        payload_decoded(server_uses_raw_msg_id, payload@, r),
        payload_id(server_uses_raw_msg_id, payload@) matches Some((id, body)) ==> (id <= PROTOBUF_MSG_ID
            && fields_valid_utf8(body) ==> fields_event(server_uses_raw_msg_id, id, utf8_fields(body), r)),
{
    let (msg_id, body) = match split_message_id(server_uses_raw_msg_id, payload) {
        Ok(x) => x,
        Err(e) => return Err(e),
    };
    if msg_id > PROTOBUF_MSG_ID {
        return Ok(Event::RawProtobuf { msg_id: msg_id - PROTOBUF_MSG_ID, payload: vstd::slice::slice_to_vec(body) });
    }
    let fields = read_text_fields(body);
    proof {
        if fields_valid_utf8(body@) {
            assert(lossy_fields(body@) == utf8_fields(body@));
        }
    }
    let m = Incoming::try_from(msg_id);
    proof {
        if let Ok(e) = m {
            lemma_incoming_ids(e, choose|x: Incoming| x.wire_id() == msg_id);
            assert(incoming_message(msg_id) == Some(e));
        } else {
            assert(incoming_message(msg_id) is None);
        }
    }
    match m {
        Ok(Incoming::TickPrice) => decode_tick_price_fields(fields.as_slice()),
        Ok(Incoming::TickSize) => decode_tick_size_fields(fields.as_slice()),
        Ok(Incoming::OrderStatus) => decode_order_status_fields(fields.as_slice(), server_uses_raw_msg_id),
        Ok(Incoming::ErrorMessage) => decode_error_fields(fields.as_slice()),
        Ok(Incoming::OpenOrder) => decode_open_order_fields(fields.as_slice()),
        Ok(Incoming::AccountValue) => decode_account_value_fields(fields.as_slice()),
        Ok(Incoming::PortfolioValue) => decode_portfolio_value_fields(fields.as_slice()),
        Ok(Incoming::AccountUpdateTime) => decode_account_update_time_fields(fields.as_slice()),
        Ok(Incoming::NextValidId) => decode_next_valid_id_fields(fields.as_slice()),
        Ok(Incoming::ContractData) => decode_contract_data_fields(fields.as_slice()),
        Ok(Incoming::ExecutionData) => decode_execution_data_fields(fields.as_slice()),
        Ok(Incoming::MarketDepth) => decode_market_depth_fields(fields.as_slice(), false),
        Ok(Incoming::MarketDepthL2) => decode_market_depth_fields(fields.as_slice(), true),
        Ok(Incoming::NewsBulletins) => decode_news_bulletin_fields(fields.as_slice()),
        Ok(Incoming::ManagedAccounts) => decode_managed_accounts_fields(fields.as_slice()),
        Ok(Incoming::ReceiveFa) => decode_receive_fa_fields(fields.as_slice()),
        Ok(Incoming::HistoricalData) => decode_historical_data_fields(fields.as_slice()),
        Ok(Incoming::BondContractData) => decode_bond_contract_data_fields(fields.as_slice()),
        Ok(Incoming::ScannerParameters) => decode_scanner_parameters_fields(fields.as_slice()),
        Ok(Incoming::ScannerData) => decode_scanner_data_fields(fields.as_slice()),
        Ok(Incoming::TickOptionComputation) => decode_tick_option_computation_fields(fields.as_slice()),
        Ok(Incoming::TickGeneric) => decode_tick_generic_fields(fields.as_slice()),
        Ok(Incoming::TickString) => decode_tick_string_fields(fields.as_slice()),
        Ok(Incoming::TickEfp) => decode_tick_efp_fields(fields.as_slice()),
        Ok(Incoming::CurrentTime) => decode_current_time_fields(fields.as_slice()),
        Ok(Incoming::RealTimeBars) => decode_real_time_bar_fields(fields.as_slice()),
        Ok(Incoming::ContractDataEnd) => decode_contract_data_end_fields(fields.as_slice()),
        Ok(Incoming::OpenOrderEnd) => Ok(Event::OpenOrderEnd),
        Ok(Incoming::AccountDownloadEnd) => decode_account_download_end_fields(fields.as_slice()),
        Ok(Incoming::ExecutionDataEnd) => decode_execution_data_end_fields(fields.as_slice()),
        Ok(Incoming::DeltaNeutralValidation) => decode_delta_neutral_validation_fields(fields.as_slice()),
        Ok(Incoming::TickSnapshotEnd) => decode_tick_snapshot_end_fields(fields.as_slice()),
        Ok(Incoming::MarketDataType) => decode_market_data_type_fields(fields.as_slice()),
        Ok(Incoming::CommissionAndFeesReport) => decode_commission_and_fees_report_fields(fields.as_slice()),
        Ok(Incoming::PositionData) => decode_position_fields(fields.as_slice()),
        Ok(Incoming::PositionEnd) => Ok(Event::PositionEnd),
        Ok(Incoming::AccountSummary) => decode_account_summary_fields(fields.as_slice()),
        Ok(Incoming::AccountSummaryEnd) => decode_account_summary_end_fields(fields.as_slice()),
        Ok(Incoming::VerifyMessageApi) => decode_verify_message_api_fields(fields.as_slice()),
        Ok(Incoming::VerifyCompleted) => decode_verify_completed_fields(fields.as_slice()),
        Ok(Incoming::DisplayGroupList) => decode_display_group_list_fields(fields.as_slice()),
        Ok(Incoming::DisplayGroupUpdated) => decode_display_group_updated_fields(fields.as_slice()),
        Ok(Incoming::VerifyAndAuthMessageApi) => decode_verify_and_auth_message_api_fields(fields.as_slice()),
        Ok(Incoming::VerifyAndAuthCompleted) => decode_verify_and_auth_completed_fields(fields.as_slice()),
        Ok(Incoming::PositionMulti) => decode_position_multi_fields(fields.as_slice()),
        Ok(Incoming::PositionMultiEnd) => decode_position_multi_end_fields(fields.as_slice()),
        Ok(Incoming::AccountUpdateMulti) => decode_account_update_multi_fields(fields.as_slice()),
        Ok(Incoming::AccountUpdateMultiEnd) => decode_account_update_multi_end_fields(fields.as_slice()),
        Ok(Incoming::SecurityDefinitionOptionParameter) => decode_security_definition_option_parameter_fields(fields.as_slice()),
        Ok(Incoming::SecurityDefinitionOptionParameterEnd) => decode_security_definition_option_parameter_end_fields(fields.as_slice()),
        Ok(Incoming::SoftDollarTiers) => decode_soft_dollar_tiers_fields(fields.as_slice()),
        Ok(Incoming::FamilyCodes) => decode_family_codes_fields(fields.as_slice()),
        Ok(Incoming::SymbolSamples) => decode_symbol_samples_fields(fields.as_slice()),
        Ok(Incoming::MarketDepthExchanges) => decode_market_depth_exchanges_fields(fields.as_slice()),
        Ok(Incoming::TickRequestParameters) => decode_tick_req_params_fields(fields.as_slice()),
        Ok(Incoming::SmartComponents) => decode_smart_components_fields(fields.as_slice()),
        Ok(Incoming::NewsArticle) => decode_news_article_fields(fields.as_slice()),
        Ok(Incoming::TickNews) => decode_tick_news_fields(fields.as_slice()),
        Ok(Incoming::NewsProviders) => decode_news_providers_fields(fields.as_slice()),
        Ok(Incoming::HistoricalNews) => decode_historical_news_fields(fields.as_slice()),
        Ok(Incoming::HistoricalNewsEnd) => decode_historical_news_end_fields(fields.as_slice()),
        Ok(Incoming::HeadTimestamp) => decode_head_timestamp_fields(fields.as_slice()),
        Ok(Incoming::HistogramData) => decode_histogram_data_fields(fields.as_slice()),
        Ok(Incoming::HistoricalDataUpdate) => decode_historical_data_update_fields(fields.as_slice()),
        Ok(Incoming::RerouteMarketDataRequest) => decode_reroute_market_data_fields(fields.as_slice()),
        Ok(Incoming::RerouteMarketDepthRequest) => decode_reroute_market_depth_fields(fields.as_slice()),
        Ok(Incoming::MarketRule) => decode_market_rule_fields(fields.as_slice()),
        Ok(Incoming::Pnl) => decode_pnl_fields(fields.as_slice()),
        Ok(Incoming::PnlSingle) => decode_pnl_single_fields(fields.as_slice()),
        Ok(Incoming::HistoricalTicks) => decode_historical_ticks_fields(fields.as_slice()),
        Ok(Incoming::HistoricalTicksBidAsk) => decode_historical_ticks_bid_ask_fields(fields.as_slice()),
        Ok(Incoming::HistoricalTicksLast) => decode_historical_ticks_last_fields(fields.as_slice()),
        Ok(Incoming::TickByTick) => decode_tick_by_tick_fields(fields.as_slice()),
        Ok(Incoming::OrderBound) => decode_order_bound_fields(fields.as_slice()),
        Ok(Incoming::CompletedOrder) => decode_completed_order_fields(fields.as_slice()),
        Ok(Incoming::CompletedOrdersEnd) => Ok(Event::CompletedOrdersEnd),
        Ok(Incoming::ReplaceFaEnd) => decode_replace_fa_end_fields(fields.as_slice()),
        Ok(Incoming::WshMetaData) => decode_wsh_meta_data_fields(fields.as_slice()),
        Ok(Incoming::WshEventData) => decode_wsh_event_data_fields(fields.as_slice()),
        Ok(Incoming::HistoricalSchedule) => decode_historical_schedule_fields(fields.as_slice()),
        Ok(Incoming::UserInfo) => decode_user_info_fields(fields.as_slice()),
        Ok(Incoming::HistoricalDataEnd) => decode_historical_data_end_fields(fields.as_slice()),
        Ok(Incoming::CurrentTimeInMillis) => decode_current_time_in_millis_fields(fields.as_slice()),
        _ => Ok(Event::Raw { msg_id, fields }),
    }
}

} // verus!
