//! Request encoders and request payload types.
use vstd::prelude::*;

use vstd::utf8::{decode_utf8, encode_utf8, encode_utf8_decode_utf8, encode_utf8_valid_utf8, valid_utf8};

use crate::comm::{
    make_field_handle_empty, TwsField, TwsNullableField,
    be_u32, field, fields_of, join_fields, lemma_fields_of_join, lemma_utf8_add, length_prefixed,
    make_field, make_msg, make_msg_proto, msg_payload, nul_free, printable_char, printable_text,
};
use crate::decoder::{be_i32, fields_valid_utf8, first_nul, utf8_fields};
use crate::text::{ascii_bytes, parse_int_spec, IntErrorKind};
use crate::constants::UNSET_INTEGER;
use crate::error::TwsApiError;
use crate::message::{Outgoing, PROTOBUF_MSG_ID};
use crate::server_versions::{
    MAX_CLIENT_VER, MIN_SERVER_VER_PROTOBUF, MIN_SERVER_VER_PROTOBUF_ACCOUNTS_POSITIONS,
    MIN_SERVER_VER_PROTOBUF_COMPLETED_ORDER, MIN_SERVER_VER_PROTOBUF_CONTRACT_DATA,
    MIN_SERVER_VER_PROTOBUF_HISTORICAL_DATA, MIN_SERVER_VER_PROTOBUF_MARKET_DATA,
    MIN_SERVER_VER_PROTOBUF_NEWS_DATA, MIN_SERVER_VER_PROTOBUF_PLACE_ORDER,
    MIN_SERVER_VER_PROTOBUF_REST_MESSAGES_1, MIN_SERVER_VER_PROTOBUF_REST_MESSAGES_2,
    MIN_SERVER_VER_PROTOBUF_REST_MESSAGES_3, MIN_SERVER_VER_PROTOBUF_SCAN_DATA,
};
use crate::text::{i32_text, i64_text, int_text, string_push_str, u64_text};
use crate::types::{ExecutionFilter, OrderCancel, TagValue};

verus! {

// ---------------------------------------------------------------------------------------------
// Field texts
// ---------------------------------------------------------------------------------------------

/// The text of a boolean field: `1` or `0`.
pub open spec fn bool_text(b: bool) -> Seq<char> {
    int_text(if b { 1 } else { 0 })
}

/// The texts held by a list of strings.
pub open spec fn text_views(v: Seq<String>) -> Seq<Seq<char>> {
    v.map_values(|s: String| s@)
}

/// The tag and value texts of tag/value pairs, in order.
pub open spec fn tag_value_pairs(tags: Seq<TagValue>) -> Seq<Seq<char>>
    decreases tags.len(),
{
    if tags.len() == 0 {
        Seq::<Seq<char>>::empty()
    } else {
        tag_value_pairs(tags.drop_last()) + seq![tags.last().tag@, tags.last().value@]
    }
}

/// The fields of a list of tag/value pairs: its count, then each tag and value.
pub open spec fn tag_value_texts(tags: Seq<TagValue>) -> Seq<Seq<char>> {
    seq![int_text(tags.len() as int)] + tag_value_pairs(tags)
}

/// The fields of `texts` encoded one after the other, or the first text that cannot be a field.
pub open spec fn encode_texts(texts: Seq<Seq<char>>) -> Result<Seq<char>, Seq<char>>
    decreases texts.len(),
{
    if texts.len() == 0 {
        Ok(Seq::<char>::empty())
    } else {
        match encode_texts(texts.drop_last()) {
            Ok(done) => if printable_text(texts.last()) {
                Ok(done + field(texts.last()))
            } else {
                Err(texts.last())
            },
            Err(f) => Err(f),
        }
    }
}

/// Why the fields of a request cannot be encoded.
pub enum EncodeFailure {
    /// A text that cannot be a field.
    Unprintable(Seq<char>),
    /// The server is older than the request needs.
    ServerTooOld {
        /// Negotiated server version.
        server_version: i32,
        /// Version the request needs.
        min_version: i32,
    },
}

/// The fields of `texts` encoded one after the other, or the first text that cannot be one.
pub open spec fn text_encoding(texts: Seq<Seq<char>>) -> Result<Seq<char>, EncodeFailure> {
    match encode_texts(texts) {
        Ok(t) => Ok(t),
        Err(bad) => Err(EncodeFailure::Unprintable(bad)),
    }
}

/// The encoding of `texts` for a request that needs at least `min_version`.
pub open spec fn gated_encoding(server_version: i32, min_version: i32, texts: Seq<Seq<char>>) -> Result<
    Seq<char>,
    EncodeFailure,
> {
    if server_version < min_version {
        Err(EncodeFailure::ServerTooOld { server_version, min_version })
    } else {
        text_encoding(texts)
    }
}

/// True when `e` is the error that reports `f`.
pub open spec fn reports_failure(f: EncodeFailure, e: TwsApiError) -> bool {
    match f {
        EncodeFailure::Unprintable(bad) => e matches TwsApiError::NonPrintableAscii(s) && s@ == bad,
        EncodeFailure::ServerTooOld { server_version, min_version } => e
            == TwsApiError::UnsupportedServerVersion { server_version, min_version },
    }
}

proof fn lemma_encode_texts_err_extends(texts: Seq<Seq<char>>, more: Seq<Seq<char>>)
    requires
        encode_texts(texts) is Err,
    ensures
        encode_texts(texts + more) == encode_texts(texts),
    decreases more.len(),
{
    if more.len() == 0 {
        assert(texts + more =~= texts);
    } else {
        lemma_encode_texts_err_extends(texts, more.drop_last());
        assert((texts + more).drop_last() =~= texts + more.drop_last());
    }
}

pub(crate) fn push_i32_text(v: &mut Vec<String>, n: i32)
    ensures
        text_views(final(v)@) == text_views(old(v)@).push(int_text(n as int)),
{
    let t = i32_text(n);
    v.push(t);
    assert(text_views(final(v)@) =~= text_views(old(v)@).push(int_text(n as int)));
}

pub(crate) fn push_bool_text(v: &mut Vec<String>, b: bool)
    ensures
        text_views(final(v)@) == text_views(old(v)@).push(bool_text(b)),
{
    let t = i32_text(if b { 1 } else { 0 });
    v.push(t);
    assert(text_views(final(v)@) =~= text_views(old(v)@).push(bool_text(b)));
}

pub(crate) fn push_string_text(v: &mut Vec<String>, s: &String)
    ensures
        text_views(final(v)@) == text_views(old(v)@).push(s@),
{
    v.push(s.clone());
    assert(text_views(final(v)@) =~= text_views(old(v)@).push(s@));
}

pub(crate) fn push_tag_value_texts(v: &mut Vec<String>, tags: &Vec<TagValue>)
    ensures
        text_views(final(v)@) == text_views(old(v)@) + tag_value_texts(tags@),
{
    let ghost start = text_views(v@);
    let count = u64_text(tags.len() as u64);
    v.push(count);
    assert(text_views(v@) =~= start + seq![int_text(tags@.len() as int)]);
    let mut i: usize = 0;
    while i < tags.len()
        invariant
            i <= tags@.len(),
            text_views(v@) == start + seq![int_text(tags@.len() as int)] + tag_value_pairs(tags@.take(i as int)),
        decreases tags@.len() - i,
    {
        let ghost before = text_views(v@);
        v.push(tags[i].tag.clone());
        v.push(tags[i].value.clone());
        proof {
            assert(text_views(v@) =~= before + seq![tags@[i as int].tag@, tags@[i as int].value@]);
            assert(tags@.take(i + 1).drop_last() =~= tags@.take(i as int));
            assert(tags@.take(i + 1).last() == tags@[i as int]);
            assert(tag_value_pairs(tags@.take(i + 1)) == tag_value_pairs(tags@.take(i as int)) + seq![tags@[i as int].tag@, tags@[i as int].value@]);
        }
        i = i + 1;
        assert(text_views(v@) =~= start + seq![int_text(tags@.len() as int)] + tag_value_pairs(tags@.take(i as int)));
    }
    assert(tags@.take(tags@.len() as int) =~= tags@);
    assert(text_views(v@) =~= start + tag_value_texts(tags@));
}

/// The fields of tag/value pairs as one `tag=value;` options field.
pub open spec fn tws_options_text(tags: Seq<TagValue>) -> Seq<char>
    decreases tags.len(),
{
    if tags.len() == 0 {
        Seq::<char>::empty()
    } else {
        tws_options_text(tags.drop_last()) + tags.last().tag@ + seq!['='] + tags.last().value@ + seq![';']
    }
}

/// Joins tag/value pairs into the `tag=value;` form of an options field.
pub fn tag_values_to_tws_options(values: &Vec<TagValue>) -> (s: String)
    ensures
        s@ == tws_options_text(values@),
{
    let mut s = String::new();
    let mut i: usize = 0;
    while i < values.len()
        invariant
            i <= values@.len(),
            s@ == tws_options_text(values@.take(i as int)),
        decreases values@.len() - i,
    {
        string_push_str(&mut s, values[i].tag.as_str());
        string_push_str(&mut s, "=");
        string_push_str(&mut s, values[i].value.as_str());
        string_push_str(&mut s, ";");
        proof {
            reveal_strlit("=");
            reveal_strlit(";");
            assert(values@.take(i + 1).drop_last() =~= values@.take(i as int));
            assert(values@.take(i + 1).last() == values@[i as int]);
        }
        i = i + 1;
        assert(s@ =~= tws_options_text(values@.take(i as int)));
    }
    assert(values@.take(values@.len() as int) =~= values@);
    s
}

// ---------------------------------------------------------------------------------------------
// Field sink
// ---------------------------------------------------------------------------------------------

/// Field encoder with TWS sentinel handling.
#[derive(Debug, Clone)]
pub struct FieldSink {
    fields: String,
}

impl View for FieldSink {
    type V = Seq<char>;

    closed spec fn view(&self) -> Seq<char> {
        self.fields@
    }
}

/// What encoding a request's fields into a sink owes: the encoded fields appended when every
/// text can be a field; else the error that names the first text that cannot, or the error
/// that refuses a server too old for the request, in which case the sink is left as it was.
pub open spec fn encoding_outcome(
    enc: Result<Seq<char>, EncodeFailure>,
    before: Seq<char>,
    after: Seq<char>,
    r: Result<(), TwsApiError>,
) -> bool {
    match enc {
        Ok(t) => r is Ok && after == before + t,
        Err(f) => {
            &&& r matches Err(e) && reports_failure(f, e)
            &&& f is ServerTooOld ==> after == before
        },
    }
}

impl Default for FieldSink {
    fn default() -> (r: Self)
        ensures
            r@ == Seq::<char>::empty(),
    {
        FieldSink { fields: String::new() }
    }
}

impl FieldSink {
    /// An empty sink.
    pub fn new() -> (r: Self)
        ensures
            r@ == Seq::<char>::empty(),
    {
        FieldSink { fields: String::new() }
    }

    /// Appends a text field; text with anything but tabs and printable ASCII is refused and
    /// leaves the sink as it was.
    pub fn push_str(&mut self, value: &str) -> (r: Result<(), TwsApiError>)
        ensures
            printable_text(value@) ==> r is Ok && final(self)@ == old(self)@ + field(value@),
            !printable_text(value@) ==> (r matches Err(TwsApiError::NonPrintableAscii(s)) && s@
                == value@) && final(self)@ == old(self)@,
    {
        let f = make_field(value)?;
        string_push_str(&mut self.fields, f.as_str());
        Ok(())
    }

    /// Appends the field of any value that can be written as one; text with anything but tabs
    /// and printable ASCII is refused and leaves the sink as it was.
    pub fn push<T: TwsField>(&mut self, value: T) -> (r: Result<(), TwsApiError>)
        ensures
            printable_text(value.field_text()) ==> r is Ok && final(self)@ == old(self)@ + field(
                value.field_text(),
            ),
            !printable_text(value.field_text()) ==> (r matches Err(TwsApiError::NonPrintableAscii(s))
                && s@ == value.field_text()) && final(self)@ == old(self)@,
    {
        let f = make_field(value)?;
        string_push_str(&mut self.fields, f.as_str());
        Ok(())
    }

    /// Appends a field where unset values go out empty; a missing value, and text with anything
    /// but tabs and printable ASCII, are refused and leave the sink as it was.
    pub fn push_empty<T: TwsNullableField>(&mut self, value: T) -> (r: Result<(), TwsApiError>)
        ensures
            match value.nullable_text() {
                Some(t) => if printable_text(t) {
                    r is Ok && final(self)@ == old(self)@ + field(t)
                } else {
                    (r matches Err(TwsApiError::NonPrintableAscii(s)) && s@ == t) && final(self)@ == old(self)@
                },
                None => r == Err::<(), TwsApiError>(TwsApiError::MissingField) && final(self)@ == old(self)@,
            },
    {
        let f = make_field_handle_empty(value)?;
        string_push_str(&mut self.fields, f.as_str());
        Ok(())
    }

    /// Appends an integer field.
    pub fn push_i32(&mut self, value: i32) -> (r: Result<(), TwsApiError>)
        ensures
            r is Ok,
            final(self)@ == old(self)@ + field(int_text(value as int)),
    {
        let t = i32_text(value);
        proof {
            crate::comm::lemma_int_text_printable(value as int);
        }
        self.push_str(t.as_str())
    }

    /// Appends a 64-bit integer field.
    pub fn push_i64(&mut self, value: i64) -> (r: Result<(), TwsApiError>)
        ensures
            r is Ok,
            final(self)@ == old(self)@ + field(int_text(value as int)),
    {
        let t = i64_text(value);
        proof {
            crate::comm::lemma_int_text_printable(value as int);
        }
        self.push_str(t.as_str())
    }

    /// Appends a count field.
    pub fn push_usize(&mut self, value: usize) -> (r: Result<(), TwsApiError>)
        ensures
            r is Ok,
            final(self)@ == old(self)@ + field(int_text(value as int)),
    {
        let t = u64_text(value as u64);
        proof {
            crate::comm::lemma_int_text_printable(value as int);
        }
        self.push_str(t.as_str())
    }

    /// Appends a boolean field as `1` or `0`.
    pub fn push_bool(&mut self, value: bool) -> (r: Result<(), TwsApiError>)
        ensures
            r is Ok,
            final(self)@ == old(self)@ + field(bool_text(value)),
    {
        self.push_i32(if value { 1 } else { 0 })
    }

    /// Appends an integer field where the unset sentinel is encoded as an empty value.
    pub fn push_empty_i32(&mut self, value: i32) -> (r: Result<(), TwsApiError>)
        ensures
            r is Ok,
            value == UNSET_INTEGER ==> final(self)@ == old(self)@ + field(Seq::<char>::empty()),
            value != UNSET_INTEGER ==> final(self)@ == old(self)@ + field(int_text(value as int)),
    {
        if value == UNSET_INTEGER {
            let r = self.push_str("");
            proof {
                reveal_strlit("");
            }
            r
        } else {
            self.push_i32(value)
        }
    }

    /// Appends a field that may be missing: a missing value is refused.
    pub fn push_opt_str(&mut self, value: Option<&str>) -> (r: Result<(), TwsApiError>)
        ensures
            match value {
                None => r matches Err(TwsApiError::MissingField),
                Some(v) => if printable_text(v@) {
                    r is Ok && final(self)@ == old(self)@ + field(v@)
                } else {
                    r matches Err(TwsApiError::NonPrintableAscii(s)) && s@ == v@
                },
            },
    {
        match value {
            Some(v) => self.push_str(v),
            None => Err(TwsApiError::MissingField),
        }
    }

    /// Appends pre-encoded raw fields.
    pub fn push_raw(&mut self, raw: &str)
        ensures
            final(self)@ == old(self)@ + raw@,
    {
        string_push_str(&mut self.fields, raw);
    }

    /// Returns encoded fields.
    pub fn into_string(self) -> (s: String)
        ensures
            s@ == self@,
    {
        self.fields
    }
}

/// Appends each text as a field, stopping at the first text that cannot be a field.
pub(crate) fn push_texts(fields: &mut FieldSink, texts: &Vec<String>) -> (r: Result<(), TwsApiError>)
    ensures
        encoding_outcome(text_encoding(text_views(texts@)), old(fields)@, final(fields)@, r),
{
    let ghost start = fields@;
    let mut i: usize = 0;
    assert(text_views(texts@).take(0) =~= Seq::<Seq<char>>::empty());
    while i < texts.len()
        invariant
            i <= texts@.len(),
            encode_texts(text_views(texts@).take(i as int)) matches Ok(done) && fields@ == start + done,
        decreases texts@.len() - i,
    {
        let ghost prefix = text_views(texts@).take(i as int);
        let ghost next = text_views(texts@).take(i + 1);
        proof {
            assert(next.drop_last() =~= prefix);
            assert(next.last() == texts@[i as int]@);
        }
        let r = fields.push_str(texts[i].as_str());
        match r {
            Ok(()) => {},
            Err(e) => {
                proof {
                    lemma_encode_texts_err_extends(next, text_views(texts@).skip(i + 1));
                    assert(next + text_views(texts@).skip(i + 1) =~= text_views(texts@));
                }
                return Err(e);
            },
        }
        i = i + 1;
    }
    assert(text_views(texts@).take(texts@.len() as int) =~= text_views(texts@));
    Ok(())
}

// ---------------------------------------------------------------------------------------------
// Requests
// ---------------------------------------------------------------------------------------------

/// A request that can be encoded as TWS NUL-separated fields.
pub trait EncodableRequest {
    /// The outgoing message.
    spec fn outgoing(&self) -> Outgoing;

    /// The fields after the message id as the given server version reads them, or the first
    /// text that cannot be a field.
    spec fn encoding(&self, server_version: i32) -> Result<Seq<char>, EncodeFailure>;

    /// The protobuf payload of this request, when it has one. This library writes protobuf only
    /// for requests whose protobuf message sets no field, which is encoded as no bytes; a request
    /// whose protobuf message carries fields has no protobuf form here and goes out as fields.
    spec fn protobuf_payload(&self) -> Option<Seq<u8>>;

    /// Outgoing message id.
    fn message(&self) -> (m: Outgoing)
        ensures
            m == self.outgoing(),
    ;

    /// Appends fields after the message id.
    fn encode_fields(&self, fields: &mut FieldSink) -> (r: Result<(), TwsApiError>)
        ensures
            encoding_outcome(self.encoding(MAX_CLIENT_VER), old(fields)@, final(fields)@, r),
    ;

    /// Appends fields for a negotiated server version.
    fn encode_fields_for_server_version(&self, fields: &mut FieldSink, server_version: i32) -> (r: Result<(), TwsApiError>)
        ensures
            encoding_outcome(self.encoding(server_version), old(fields)@, final(fields)@, r),
    ;

    /// Encodes this request as protobuf when the request type has a protobuf form.
    fn encode_protobuf(&self) -> (r: Result<Option<Vec<u8>>, TwsApiError>)
        ensures
            r matches Ok(p) && (match p {
                Some(v) => self.protobuf_payload() == Some(v@),
                None => self.protobuf_payload() is None,
            }),
    ;
}

/// Minimum server version for protobuf encoding of an outgoing message.
pub open spec fn protobuf_min_version(message: Outgoing) -> Option<i32> {
    match message {
        Outgoing::ReqExecutions => Some(MIN_SERVER_VER_PROTOBUF),
        Outgoing::PlaceOrder | Outgoing::CancelOrder | Outgoing::ReqGlobalCancel => Some(MIN_SERVER_VER_PROTOBUF_PLACE_ORDER),
        Outgoing::ReqAllOpenOrders | Outgoing::ReqAutoOpenOrders | Outgoing::ReqOpenOrders | Outgoing::ReqCompletedOrders => Some(MIN_SERVER_VER_PROTOBUF_COMPLETED_ORDER),
        Outgoing::ReqContractData => Some(MIN_SERVER_VER_PROTOBUF_CONTRACT_DATA),
        Outgoing::ReqMktData | Outgoing::CancelMktData | Outgoing::ReqMktDepth | Outgoing::CancelMktDepth | Outgoing::ReqMarketDataType => Some(MIN_SERVER_VER_PROTOBUF_MARKET_DATA),
        Outgoing::ReqAcctData | Outgoing::ReqManagedAccounts | Outgoing::ReqPositions | Outgoing::CancelPositions | Outgoing::ReqAccountSummary | Outgoing::CancelAccountSummary | Outgoing::ReqPositionsMulti | Outgoing::CancelPositionsMulti | Outgoing::ReqAccountUpdatesMulti | Outgoing::CancelAccountUpdatesMulti => Some(MIN_SERVER_VER_PROTOBUF_ACCOUNTS_POSITIONS),
        Outgoing::ReqHistoricalData | Outgoing::CancelHistoricalData | Outgoing::ReqRealTimeBars | Outgoing::CancelRealTimeBars | Outgoing::ReqHeadTimestamp | Outgoing::CancelHeadTimestamp | Outgoing::ReqHistogramData | Outgoing::CancelHistogramData | Outgoing::ReqHistoricalTicks | Outgoing::ReqTickByTickData | Outgoing::CancelTickByTickData => Some(MIN_SERVER_VER_PROTOBUF_HISTORICAL_DATA),
        Outgoing::ReqNewsBulletins | Outgoing::CancelNewsBulletins | Outgoing::ReqNewsArticle | Outgoing::ReqNewsProviders | Outgoing::ReqHistoricalNews | Outgoing::ReqWshMetaData | Outgoing::CancelWshMetaData | Outgoing::ReqWshEventData | Outgoing::CancelWshEventData => Some(MIN_SERVER_VER_PROTOBUF_NEWS_DATA),
        Outgoing::ReqScannerParameters | Outgoing::ReqScannerSubscription | Outgoing::CancelScannerSubscription | Outgoing::ReqPnl | Outgoing::CancelPnl | Outgoing::ReqPnlSingle | Outgoing::CancelPnlSingle => Some(MIN_SERVER_VER_PROTOBUF_SCAN_DATA),
        Outgoing::ReqFa | Outgoing::ReplaceFa | Outgoing::ExerciseOptions | Outgoing::ReqCalcImpliedVolat | Outgoing::CancelCalcImpliedVolat | Outgoing::ReqCalcOptionPrice | Outgoing::CancelCalcOptionPrice => Some(MIN_SERVER_VER_PROTOBUF_REST_MESSAGES_1),
        Outgoing::ReqSecDefOptParams | Outgoing::ReqSoftDollarTiers | Outgoing::ReqFamilyCodes | Outgoing::ReqMatchingSymbols | Outgoing::ReqSmartComponents | Outgoing::ReqMarketRule | Outgoing::ReqUserInfo => Some(MIN_SERVER_VER_PROTOBUF_REST_MESSAGES_2),
        Outgoing::ReqIds | Outgoing::ReqCurrentTime | Outgoing::ReqCurrentTimeInMillis | Outgoing::SetServerLogLevel | Outgoing::VerifyRequest | Outgoing::VerifyMessage | Outgoing::QueryDisplayGroups | Outgoing::SubscribeToGroupEvents | Outgoing::UpdateDisplayGroup | Outgoing::UnsubscribeFromGroupEvents | Outgoing::ReqMktDepthExchanges => Some(MIN_SERVER_VER_PROTOBUF_REST_MESSAGES_3),
        Outgoing::VerifyAndAuthRequest | Outgoing::VerifyAndAuthMessage | Outgoing::StartApi | Outgoing::CancelContractData | Outgoing::CancelHistoricalTicks | Outgoing::ReqConfig | Outgoing::UpdateConfig => None,
    }
}

/// Returns the minimum server version for protobuf encoding of an outgoing message.
pub fn protobuf_min_server_version(message: Outgoing) -> (r: Option<i32>)
    ensures
        r == protobuf_min_version(message),
{
    match message {
        Outgoing::ReqExecutions => Some(MIN_SERVER_VER_PROTOBUF),
        Outgoing::PlaceOrder | Outgoing::CancelOrder | Outgoing::ReqGlobalCancel => Some(MIN_SERVER_VER_PROTOBUF_PLACE_ORDER),
        Outgoing::ReqAllOpenOrders | Outgoing::ReqAutoOpenOrders | Outgoing::ReqOpenOrders | Outgoing::ReqCompletedOrders => Some(MIN_SERVER_VER_PROTOBUF_COMPLETED_ORDER),
        Outgoing::ReqContractData => Some(MIN_SERVER_VER_PROTOBUF_CONTRACT_DATA),
        Outgoing::ReqMktData | Outgoing::CancelMktData | Outgoing::ReqMktDepth | Outgoing::CancelMktDepth | Outgoing::ReqMarketDataType => Some(MIN_SERVER_VER_PROTOBUF_MARKET_DATA),
        Outgoing::ReqAcctData | Outgoing::ReqManagedAccounts | Outgoing::ReqPositions | Outgoing::CancelPositions | Outgoing::ReqAccountSummary | Outgoing::CancelAccountSummary | Outgoing::ReqPositionsMulti | Outgoing::CancelPositionsMulti | Outgoing::ReqAccountUpdatesMulti | Outgoing::CancelAccountUpdatesMulti => Some(MIN_SERVER_VER_PROTOBUF_ACCOUNTS_POSITIONS),
        Outgoing::ReqHistoricalData | Outgoing::CancelHistoricalData | Outgoing::ReqRealTimeBars | Outgoing::CancelRealTimeBars | Outgoing::ReqHeadTimestamp | Outgoing::CancelHeadTimestamp | Outgoing::ReqHistogramData | Outgoing::CancelHistogramData | Outgoing::ReqHistoricalTicks | Outgoing::ReqTickByTickData | Outgoing::CancelTickByTickData => Some(MIN_SERVER_VER_PROTOBUF_HISTORICAL_DATA),
        Outgoing::ReqNewsBulletins | Outgoing::CancelNewsBulletins | Outgoing::ReqNewsArticle | Outgoing::ReqNewsProviders | Outgoing::ReqHistoricalNews | Outgoing::ReqWshMetaData | Outgoing::CancelWshMetaData | Outgoing::ReqWshEventData | Outgoing::CancelWshEventData => Some(MIN_SERVER_VER_PROTOBUF_NEWS_DATA),
        Outgoing::ReqScannerParameters | Outgoing::ReqScannerSubscription | Outgoing::CancelScannerSubscription | Outgoing::ReqPnl | Outgoing::CancelPnl | Outgoing::ReqPnlSingle | Outgoing::CancelPnlSingle => Some(MIN_SERVER_VER_PROTOBUF_SCAN_DATA),
        Outgoing::ReqFa | Outgoing::ReplaceFa | Outgoing::ExerciseOptions | Outgoing::ReqCalcImpliedVolat | Outgoing::CancelCalcImpliedVolat | Outgoing::ReqCalcOptionPrice | Outgoing::CancelCalcOptionPrice => Some(MIN_SERVER_VER_PROTOBUF_REST_MESSAGES_1),
        Outgoing::ReqSecDefOptParams | Outgoing::ReqSoftDollarTiers | Outgoing::ReqFamilyCodes | Outgoing::ReqMatchingSymbols | Outgoing::ReqSmartComponents | Outgoing::ReqMarketRule | Outgoing::ReqUserInfo => Some(MIN_SERVER_VER_PROTOBUF_REST_MESSAGES_2),
        Outgoing::ReqIds | Outgoing::ReqCurrentTime | Outgoing::ReqCurrentTimeInMillis | Outgoing::SetServerLogLevel | Outgoing::VerifyRequest | Outgoing::VerifyMessage | Outgoing::QueryDisplayGroups | Outgoing::SubscribeToGroupEvents | Outgoing::UpdateDisplayGroup | Outgoing::UnsubscribeFromGroupEvents | Outgoing::ReqMktDepthExchanges => Some(MIN_SERVER_VER_PROTOBUF_REST_MESSAGES_3),
        Outgoing::VerifyAndAuthRequest | Outgoing::VerifyAndAuthMessage | Outgoing::StartApi | Outgoing::CancelContractData | Outgoing::CancelHistoricalTicks | Outgoing::ReqConfig | Outgoing::UpdateConfig => None,
    }
}

/// True when a request goes out as protobuf: protobuf is preferred, the server is new enough for
/// the message, and the request has a protobuf form.
pub open spec fn sends_protobuf(message: Outgoing, server_version: i32, prefer_protobuf: bool, payload: Option<Seq<u8>>) -> bool {
    &&& prefer_protobuf
    &&& protobuf_min_version(message) matches Some(min_version) && server_version >= min_version
    &&& payload is Some
}

/// The frame a request goes out as, or the first text that cannot be a field.
pub open spec fn request_frame(
    message: Outgoing,
    server_version: i32,
    prefer_protobuf: bool,
    payload: Option<Seq<u8>>,
    enc: Result<Seq<char>, EncodeFailure>,
) -> Result<Seq<u8>, EncodeFailure> {
    if sends_protobuf(message, server_version, prefer_protobuf, payload) {
        Ok(length_prefixed(be_u32((message.wire_id() + PROTOBUF_MSG_ID) as u32) + payload->0))
    } else {
        match enc {
            Ok(t) => Ok(length_prefixed(msg_payload(message.wire_id(), server_version >= MIN_SERVER_VER_PROTOBUF, t))),
            Err(f) => Err(f),
        }
    }
}

/// Encodes a request frame, optionally allowing protobuf when supported.
pub fn encode_request_frame_with_protobuf<R: EncodableRequest>(
    request: &R,
    server_version: i32,
    prefer_protobuf: bool,
) -> (r: Result<Vec<u8>, TwsApiError>)
    ensures
        match request_frame(
            request.outgoing(),
            server_version,
            prefer_protobuf,
            request.protobuf_payload(),
            request.encoding(server_version),
        ) {
            Ok(bytes) => r matches Ok(v) && v@ == bytes,
            Err(f) => r matches Err(e) && reports_failure(f, e),
        },
{
    let message = request.message();
    if prefer_protobuf {
        match protobuf_min_server_version(message) {
            Some(min_version) => {
                if server_version >= min_version {
                    match request.encode_protobuf()? {
                        Some(payload) => {
                            let id = message.protobuf_id();
                            return Ok(make_msg_proto(id, payload.as_slice()));
                        },
                        None => {},
                    }
                }
            },
            None => {},
        }
    }
    let mut fields = FieldSink::new();
    request.encode_fields_for_server_version(&mut fields, server_version)?;
    let text = fields.into_string();
    make_msg(message.id(), server_version >= MIN_SERVER_VER_PROTOBUF, text.as_str())
}

/// Encodes a request frame, preferring protobuf when supported by server and request type.
pub fn encode_request_frame<R: EncodableRequest>(request: &R, server_version: i32) -> (r: Result<
    Vec<u8>,
    TwsApiError,
>)
    ensures
        match request_frame(
            request.outgoing(),
            server_version,
            true,
            request.protobuf_payload(),
            request.encoding(server_version),
        ) {
            Ok(bytes) => r matches Ok(v) && v@ == bytes,
            Err(f) => r matches Err(e) && reports_failure(f, e),
        },
{
    encode_request_frame_with_protobuf(request, server_version, true)
}

/// A raw request for migration and protocol coverage.
#[derive(Debug, Clone, PartialEq, Eq)]
pub struct RawRequest {
    /// Message id.
    pub message: Outgoing,
    /// Already encoded NUL-separated fields after the message id.
    pub fields: String,
}

impl EncodableRequest for RawRequest {
    open spec fn outgoing(&self) -> Outgoing {
        self.message
    }

    open spec fn encoding(&self, server_version: i32) -> Result<Seq<char>, EncodeFailure> {
        Ok(self.fields@)
    }

    open spec fn protobuf_payload(&self) -> Option<Seq<u8>> {
        None
    }

    fn message(&self) -> (m: Outgoing) {
        self.message
    }

    fn encode_fields(&self, fields: &mut FieldSink) -> (r: Result<(), TwsApiError>) {
        fields.push_raw(self.fields.as_str());
        Ok(())
    }

    fn encode_fields_for_server_version(&self, fields: &mut FieldSink, server_version: i32) -> (r: Result<(), TwsApiError>) {
        self.encode_fields(fields)
    }

    fn encode_protobuf(&self) -> (r: Result<Option<Vec<u8>>, TwsApiError>) {
        Ok(None)
    }
}

/// Request for `startApi`.
#[derive(Debug, Clone, Default, PartialEq, Eq)]
pub struct StartApiRequest {
    /// Client id.
    pub client_id: i32,
    /// Optional capabilities.
    pub optional_capabilities: Option<String>,
    /// Whether to encode optional capabilities.
    pub include_optional_capabilities: bool,
}

impl StartApiRequest {
    /// The texts of the fields after the message id: the version, the client id, and, when asked
    /// for, the optional capabilities (empty when there are none).
    pub open spec fn field_texts(&self) -> Seq<Seq<char>> {
        seq![int_text(2), int_text(self.client_id as int)] + if self.include_optional_capabilities {
            match self.optional_capabilities {
                Some(c) => seq![c@],
                None => seq![Seq::<char>::empty()],
            }
        } else {
            Seq::<Seq<char>>::empty()
        }
    }

    fn texts(&self) -> (v: Vec<String>)
        ensures
            text_views(v@) == self.field_texts(),
    {
        let mut v: Vec<String> = Vec::new();
        push_i32_text(&mut v, 2);
        push_i32_text(&mut v, self.client_id);
        if self.include_optional_capabilities {
            match &self.optional_capabilities {
                Some(c) => push_string_text(&mut v, c),
                None => {
                    let e = String::new();
                    push_string_text(&mut v, &e);
                },
            }
        }
        assert(text_views(v@) =~= self.field_texts());
        v
    }
}

impl EncodableRequest for StartApiRequest {
    open spec fn outgoing(&self) -> Outgoing {
        Outgoing::StartApi
    }

    open spec fn encoding(&self, server_version: i32) -> Result<Seq<char>, EncodeFailure> {
        text_encoding(self.field_texts())
    }

    open spec fn protobuf_payload(&self) -> Option<Seq<u8>> {
        None
    }

    fn message(&self) -> (m: Outgoing) {
        Outgoing::StartApi
    }

    fn encode_fields(&self, fields: &mut FieldSink) -> (r: Result<(), TwsApiError>) {
        let texts = self.texts();
        push_texts(fields, &texts)
    }

    fn encode_fields_for_server_version(&self, fields: &mut FieldSink, server_version: i32) -> (r: Result<(), TwsApiError>) {
        self.encode_fields(fields)
    }

    fn encode_protobuf(&self) -> (r: Result<Option<Vec<u8>>, TwsApiError>) {
        Ok(None)
    }
}

/// Request with only an id field.
#[derive(Debug, Clone, Copy, PartialEq, Eq)]
pub struct IdRequest {
    /// Message id.
    pub message: Outgoing,
    /// Protocol version.
    pub version: Option<i32>,
    /// Request id.
    pub req_id: i32,
}

impl IdRequest {
    /// The texts of the fields after the message id: the version when there is one, then the id.
    pub open spec fn field_texts(&self) -> Seq<Seq<char>> {
        match self.version {
            Some(v) => seq![int_text(v as int), int_text(self.req_id as int)],
            None => seq![int_text(self.req_id as int)],
        }
    }

    fn texts(&self) -> (v: Vec<String>)
        ensures
            text_views(v@) == self.field_texts(),
    {
        let mut v: Vec<String> = Vec::new();
        match self.version {
            Some(version) => push_i32_text(&mut v, version),
            None => {},
        }
        push_i32_text(&mut v, self.req_id);
        assert(text_views(v@) =~= self.field_texts());
        v
    }
}

impl EncodableRequest for IdRequest {
    open spec fn outgoing(&self) -> Outgoing {
        self.message
    }

    open spec fn encoding(&self, server_version: i32) -> Result<Seq<char>, EncodeFailure> {
        text_encoding(self.field_texts())
    }

    open spec fn protobuf_payload(&self) -> Option<Seq<u8>> {
        None
    }

    fn message(&self) -> (m: Outgoing) {
        self.message
    }

    fn encode_fields(&self, fields: &mut FieldSink) -> (r: Result<(), TwsApiError>) {
        let texts = self.texts();
        push_texts(fields, &texts)
    }

    fn encode_fields_for_server_version(&self, fields: &mut FieldSink, server_version: i32) -> (r: Result<(), TwsApiError>) {
        self.encode_fields(fields)
    }

    fn encode_protobuf(&self) -> (r: Result<Option<Vec<u8>>, TwsApiError>) {
        Ok(None)
    }
}

/// Request with an id and a counted list of tag/value options.
#[derive(Debug, Clone, PartialEq, Eq)]
pub struct IdOptionsRequest {
    /// Message id.
    pub message: Outgoing,
    /// Request id.
    pub req_id: i32,
    /// Options.
    pub options: Vec<TagValue>,
}

impl IdOptionsRequest {
    /// The texts of the fields after the message id: the id, the number of options, then each
    /// tag and value.
    pub open spec fn field_texts(&self) -> Seq<Seq<char>> {
        seq![int_text(self.req_id as int)] + tag_value_texts(self.options@)
    }

    fn texts(&self) -> (v: Vec<String>)
        ensures
            text_views(v@) == self.field_texts(),
    {
        let mut v: Vec<String> = Vec::new();
        push_i32_text(&mut v, self.req_id);
        push_tag_value_texts(&mut v, &self.options);
        assert(text_views(v@) =~= self.field_texts());
        v
    }
}

impl EncodableRequest for IdOptionsRequest {
    open spec fn outgoing(&self) -> Outgoing {
        self.message
    }

    open spec fn encoding(&self, server_version: i32) -> Result<Seq<char>, EncodeFailure> {
        text_encoding(self.field_texts())
    }

    open spec fn protobuf_payload(&self) -> Option<Seq<u8>> {
        None
    }

    fn message(&self) -> (m: Outgoing) {
        self.message
    }

    fn encode_fields(&self, fields: &mut FieldSink) -> (r: Result<(), TwsApiError>) {
        let texts = self.texts();
        push_texts(fields, &texts)
    }

    fn encode_fields_for_server_version(&self, fields: &mut FieldSink, server_version: i32) -> (r: Result<(), TwsApiError>) {
        self.encode_fields(fields)
    }

    fn encode_protobuf(&self) -> (r: Result<Option<Vec<u8>>, TwsApiError>) {
        Ok(None)
    }
}

/// The messages an [`EmptyRequest`] can also send as protobuf. Each goes out as a protobuf
/// message with no field set, and such a message is encoded as no bytes at all.
pub open spec fn empty_request_has_protobuf_form(message: Outgoing) -> bool {
    match message {
        Outgoing::ReqMktDepthExchanges
        | Outgoing::ReqNewsProviders
        | Outgoing::ReqFamilyCodes
        | Outgoing::ReqCurrentTimeInMillis => true,
        _ => false,
    }
}

/// The messages a [`VersionedRequest`] can also send as protobuf: each as a protobuf message
/// with no field set, that is as no bytes (the version field has no protobuf counterpart).
pub open spec fn versioned_request_has_protobuf_form(message: Outgoing) -> bool {
    match message {
        Outgoing::ReqCurrentTime
        | Outgoing::ReqCurrentTimeInMillis
        | Outgoing::ReqPositions
        | Outgoing::CancelPositions
        | Outgoing::ReqOpenOrders
        | Outgoing::ReqAllOpenOrders
        | Outgoing::ReqManagedAccounts
        | Outgoing::ReqScannerParameters
        | Outgoing::CancelNewsBulletins => true,
        _ => false,
    }
}

/// Request with no field payload.
#[derive(Debug, Clone, Copy, PartialEq, Eq)]
pub struct EmptyRequest {
    /// Message id.
    pub message: Outgoing,
}

impl EmptyRequest {
    /// The texts of the fields after the message id.
    pub open spec fn field_texts(&self) -> Seq<Seq<char>> {
        Seq::<Seq<char>>::empty()
    }

    fn texts(&self) -> (v: Vec<String>)
        ensures
            text_views(v@) == self.field_texts(),
    {
        let mut v: Vec<String> = Vec::new();
        assert(text_views(v@) =~= self.field_texts());
        v
    }
}

impl EncodableRequest for EmptyRequest {
    open spec fn outgoing(&self) -> Outgoing {
        self.message
    }

    open spec fn encoding(&self, server_version: i32) -> Result<Seq<char>, EncodeFailure> {
        text_encoding(self.field_texts())
    }

    open spec fn protobuf_payload(&self) -> Option<Seq<u8>> {
        if empty_request_has_protobuf_form(self.message) {
            Some(Seq::<u8>::empty())
        } else {
            None
        }
    }

    fn message(&self) -> (m: Outgoing) {
        self.message
    }

    fn encode_fields(&self, fields: &mut FieldSink) -> (r: Result<(), TwsApiError>) {
        let texts = self.texts();
        push_texts(fields, &texts)
    }

    fn encode_fields_for_server_version(&self, fields: &mut FieldSink, server_version: i32) -> (r: Result<(), TwsApiError>) {
        self.encode_fields(fields)
    }

    fn encode_protobuf(&self) -> (r: Result<Option<Vec<u8>>, TwsApiError>) {
        match self.message {
            Outgoing::ReqMktDepthExchanges
            | Outgoing::ReqNewsProviders
            | Outgoing::ReqFamilyCodes
            | Outgoing::ReqCurrentTimeInMillis => {
                let payload: Vec<u8> = Vec::new();
                proof {
                    assert(payload@ =~= Seq::<u8>::empty());
                }
                Ok(Some(payload))
            },
            _ => Ok(None),
        }
    }
}

/// Request with only a protocol version field.
#[derive(Debug, Clone, Copy, PartialEq, Eq)]
pub struct VersionedRequest {
    /// Message id.
    pub message: Outgoing,
    /// Protocol version.
    pub version: i32,
}

impl VersionedRequest {
    /// The texts of the fields after the message id.
    pub open spec fn field_texts(&self) -> Seq<Seq<char>> {
        seq![int_text(self.version as int)]
    }

    fn texts(&self) -> (v: Vec<String>)
        ensures
            text_views(v@) == self.field_texts(),
    {
        let mut v: Vec<String> = Vec::new();
        push_i32_text(&mut v, self.version);
        assert(text_views(v@) =~= self.field_texts());
        v
    }
}

impl EncodableRequest for VersionedRequest {
    open spec fn outgoing(&self) -> Outgoing {
        self.message
    }

    open spec fn encoding(&self, server_version: i32) -> Result<Seq<char>, EncodeFailure> {
        text_encoding(self.field_texts())
    }

    open spec fn protobuf_payload(&self) -> Option<Seq<u8>> {
        if versioned_request_has_protobuf_form(self.message) {
            Some(Seq::<u8>::empty())
        } else {
            None
        }
    }

    fn message(&self) -> (m: Outgoing) {
        self.message
    }

    fn encode_fields(&self, fields: &mut FieldSink) -> (r: Result<(), TwsApiError>) {
        let texts = self.texts();
        push_texts(fields, &texts)
    }

    fn encode_fields_for_server_version(&self, fields: &mut FieldSink, server_version: i32) -> (r: Result<(), TwsApiError>) {
        self.encode_fields(fields)
    }

    fn encode_protobuf(&self) -> (r: Result<Option<Vec<u8>>, TwsApiError>) {
        match self.message {
            Outgoing::ReqCurrentTime
            | Outgoing::ReqCurrentTimeInMillis
            | Outgoing::ReqPositions
            | Outgoing::CancelPositions
            | Outgoing::ReqOpenOrders
            | Outgoing::ReqAllOpenOrders
            | Outgoing::ReqManagedAccounts
            | Outgoing::ReqScannerParameters
            | Outgoing::CancelNewsBulletins => {
                let payload: Vec<u8> = Vec::new();
                proof {
                    assert(payload@ =~= Seq::<u8>::empty());
                }
                Ok(Some(payload))
            },
            _ => Ok(None),
        }
    }
}

/// Server log-level request.
#[derive(Debug, Clone, Copy, PartialEq, Eq)]
pub struct SetServerLogLevelRequest {
    /// Log level.
    pub log_level: i32,
}

impl SetServerLogLevelRequest {
    /// The texts of the fields after the message id.
    pub open spec fn field_texts(&self) -> Seq<Seq<char>> {
        seq![int_text(1)] + seq![int_text(self.log_level as int)]
    }

    fn texts(&self) -> (v: Vec<String>)
        ensures
            text_views(v@) == self.field_texts(),
    {
        let mut v: Vec<String> = Vec::new();
        push_i32_text(&mut v, 1);
        push_i32_text(&mut v, self.log_level);
        assert(text_views(v@) =~= self.field_texts());
        v
    }
}

impl EncodableRequest for SetServerLogLevelRequest {
    open spec fn outgoing(&self) -> Outgoing {
        Outgoing::SetServerLogLevel
    }

    open spec fn encoding(&self, server_version: i32) -> Result<Seq<char>, EncodeFailure> {
        text_encoding(self.field_texts())
    }

    open spec fn protobuf_payload(&self) -> Option<Seq<u8>> {
        None
    }

    fn message(&self) -> (m: Outgoing) {
        Outgoing::SetServerLogLevel
    }

    fn encode_fields(&self, fields: &mut FieldSink) -> (r: Result<(), TwsApiError>) {
        let texts = self.texts();
        push_texts(fields, &texts)
    }

    fn encode_fields_for_server_version(&self, fields: &mut FieldSink, server_version: i32) -> (r: Result<(), TwsApiError>) {
        self.encode_fields(fields)
    }

    fn encode_protobuf(&self) -> (r: Result<Option<Vec<u8>>, TwsApiError>) {
        Ok(None)
    }
}

/// Request a market data type switch.
#[derive(Debug, Clone, Copy, PartialEq, Eq)]
pub struct MarketDataTypeRequest {
    /// Market data type.
    pub market_data_type: i32,
}

impl MarketDataTypeRequest {
    /// The texts of the fields after the message id.
    pub open spec fn field_texts(&self) -> Seq<Seq<char>> {
        seq![int_text(1)] + seq![int_text(self.market_data_type as int)]
    }

    fn texts(&self) -> (v: Vec<String>)
        ensures
            text_views(v@) == self.field_texts(),
    {
        let mut v: Vec<String> = Vec::new();
        push_i32_text(&mut v, 1);
        push_i32_text(&mut v, self.market_data_type);
        assert(text_views(v@) =~= self.field_texts());
        v
    }
}

impl EncodableRequest for MarketDataTypeRequest {
    open spec fn outgoing(&self) -> Outgoing {
        Outgoing::ReqMarketDataType
    }

    open spec fn encoding(&self, server_version: i32) -> Result<Seq<char>, EncodeFailure> {
        text_encoding(self.field_texts())
    }

    open spec fn protobuf_payload(&self) -> Option<Seq<u8>> {
        None
    }

    fn message(&self) -> (m: Outgoing) {
        Outgoing::ReqMarketDataType
    }

    fn encode_fields(&self, fields: &mut FieldSink) -> (r: Result<(), TwsApiError>) {
        let texts = self.texts();
        push_texts(fields, &texts)
    }

    fn encode_fields_for_server_version(&self, fields: &mut FieldSink, server_version: i32) -> (r: Result<(), TwsApiError>) {
        self.encode_fields(fields)
    }

    fn encode_protobuf(&self) -> (r: Result<Option<Vec<u8>>, TwsApiError>) {
        Ok(None)
    }
}

/// Smart components request.
#[derive(Debug, Clone, PartialEq, Eq)]
pub struct SmartComponentsRequest {
    /// Request id.
    pub req_id: i32,
    /// BBO exchange.
    pub bbo_exchange: String,
}

impl SmartComponentsRequest {
    /// The texts of the fields after the message id.
    pub open spec fn field_texts(&self) -> Seq<Seq<char>> {
        seq![int_text(self.req_id as int)] + seq![self.bbo_exchange@]
    }

    fn texts(&self) -> (v: Vec<String>)
        ensures
            text_views(v@) == self.field_texts(),
    {
        let mut v: Vec<String> = Vec::new();
        push_i32_text(&mut v, self.req_id);
        push_string_text(&mut v, &self.bbo_exchange);
        assert(text_views(v@) =~= self.field_texts());
        v
    }
}

impl EncodableRequest for SmartComponentsRequest {
    open spec fn outgoing(&self) -> Outgoing {
        Outgoing::ReqSmartComponents
    }

    open spec fn encoding(&self, server_version: i32) -> Result<Seq<char>, EncodeFailure> {
        text_encoding(self.field_texts())
    }

    open spec fn protobuf_payload(&self) -> Option<Seq<u8>> {
        None
    }

    fn message(&self) -> (m: Outgoing) {
        Outgoing::ReqSmartComponents
    }

    fn encode_fields(&self, fields: &mut FieldSink) -> (r: Result<(), TwsApiError>) {
        let texts = self.texts();
        push_texts(fields, &texts)
    }

    fn encode_fields_for_server_version(&self, fields: &mut FieldSink, server_version: i32) -> (r: Result<(), TwsApiError>) {
        self.encode_fields(fields)
    }

    fn encode_protobuf(&self) -> (r: Result<Option<Vec<u8>>, TwsApiError>) {
        Ok(None)
    }
}

/// Cancel market depth request.
#[derive(Debug, Clone, Copy, PartialEq, Eq)]
pub struct CancelMarketDepthRequest {
    /// Request id.
    pub req_id: i32,
    /// Smart depth.
    pub is_smart_depth: bool,
}

impl CancelMarketDepthRequest {
    /// The texts of the fields after the message id.
    pub open spec fn field_texts(&self) -> Seq<Seq<char>> {
        seq![int_text(1)] + seq![int_text(self.req_id as int)] + seq![bool_text(self.is_smart_depth)]
    }

    fn texts(&self) -> (v: Vec<String>)
        ensures
            text_views(v@) == self.field_texts(),
    {
        let mut v: Vec<String> = Vec::new();
        push_i32_text(&mut v, 1);
        push_i32_text(&mut v, self.req_id);
        push_bool_text(&mut v, self.is_smart_depth);
        assert(text_views(v@) =~= self.field_texts());
        v
    }
}

impl EncodableRequest for CancelMarketDepthRequest {
    open spec fn outgoing(&self) -> Outgoing {
        Outgoing::CancelMktDepth
    }

    open spec fn encoding(&self, server_version: i32) -> Result<Seq<char>, EncodeFailure> {
        text_encoding(self.field_texts())
    }

    open spec fn protobuf_payload(&self) -> Option<Seq<u8>> {
        None
    }

    fn message(&self) -> (m: Outgoing) {
        Outgoing::CancelMktDepth
    }

    fn encode_fields(&self, fields: &mut FieldSink) -> (r: Result<(), TwsApiError>) {
        let texts = self.texts();
        push_texts(fields, &texts)
    }

    fn encode_fields_for_server_version(&self, fields: &mut FieldSink, server_version: i32) -> (r: Result<(), TwsApiError>) {
        self.encode_fields(fields)
    }

    fn encode_protobuf(&self) -> (r: Result<Option<Vec<u8>>, TwsApiError>) {
        Ok(None)
    }
}

/// Auto-open-orders request.
#[derive(Debug, Clone, Copy, PartialEq, Eq)]
pub struct AutoOpenOrdersRequest {
    /// Auto-bind flag.
    pub auto_bind: bool,
}

impl AutoOpenOrdersRequest {
    /// The texts of the fields after the message id.
    pub open spec fn field_texts(&self) -> Seq<Seq<char>> {
        seq![int_text(1)] + seq![bool_text(self.auto_bind)]
    }

    fn texts(&self) -> (v: Vec<String>)
        ensures
            text_views(v@) == self.field_texts(),
    {
        let mut v: Vec<String> = Vec::new();
        push_i32_text(&mut v, 1);
        push_bool_text(&mut v, self.auto_bind);
        assert(text_views(v@) =~= self.field_texts());
        v
    }
}

impl EncodableRequest for AutoOpenOrdersRequest {
    open spec fn outgoing(&self) -> Outgoing {
        Outgoing::ReqAutoOpenOrders
    }

    open spec fn encoding(&self, server_version: i32) -> Result<Seq<char>, EncodeFailure> {
        text_encoding(self.field_texts())
    }

    open spec fn protobuf_payload(&self) -> Option<Seq<u8>> {
        None
    }

    fn message(&self) -> (m: Outgoing) {
        Outgoing::ReqAutoOpenOrders
    }

    fn encode_fields(&self, fields: &mut FieldSink) -> (r: Result<(), TwsApiError>) {
        let texts = self.texts();
        push_texts(fields, &texts)
    }

    fn encode_fields_for_server_version(&self, fields: &mut FieldSink, server_version: i32) -> (r: Result<(), TwsApiError>) {
        self.encode_fields(fields)
    }

    fn encode_protobuf(&self) -> (r: Result<Option<Vec<u8>>, TwsApiError>) {
        Ok(None)
    }
}

/// Global cancel request.
#[derive(Debug, Clone, Default, PartialEq, Eq)]
pub struct GlobalCancelRequest {
    /// Cancel metadata.
    pub order_cancel: OrderCancel,
}

impl GlobalCancelRequest {
    /// The texts of the fields after the message id.
    pub open spec fn field_texts(&self) -> Seq<Seq<char>> {
        seq![int_text(1)] + seq![self.order_cancel.manual_order_cancel_time@] + seq![self.order_cancel.ext_operator@] + seq![int_text(self.order_cancel.manual_order_indicator as int)]
    }

    fn texts(&self) -> (v: Vec<String>)
        ensures
            text_views(v@) == self.field_texts(),
    {
        let mut v: Vec<String> = Vec::new();
        push_i32_text(&mut v, 1);
        push_string_text(&mut v, &self.order_cancel.manual_order_cancel_time);
        push_string_text(&mut v, &self.order_cancel.ext_operator);
        push_i32_text(&mut v, self.order_cancel.manual_order_indicator);
        assert(text_views(v@) =~= self.field_texts());
        v
    }
}

impl EncodableRequest for GlobalCancelRequest {
    open spec fn outgoing(&self) -> Outgoing {
        Outgoing::ReqGlobalCancel
    }

    open spec fn encoding(&self, server_version: i32) -> Result<Seq<char>, EncodeFailure> {
        text_encoding(self.field_texts())
    }

    open spec fn protobuf_payload(&self) -> Option<Seq<u8>> {
        None
    }

    fn message(&self) -> (m: Outgoing) {
        Outgoing::ReqGlobalCancel
    }

    fn encode_fields(&self, fields: &mut FieldSink) -> (r: Result<(), TwsApiError>) {
        let texts = self.texts();
        push_texts(fields, &texts)
    }

    fn encode_fields_for_server_version(&self, fields: &mut FieldSink, server_version: i32) -> (r: Result<(), TwsApiError>) {
        self.encode_fields(fields)
    }

    fn encode_protobuf(&self) -> (r: Result<Option<Vec<u8>>, TwsApiError>) {
        Ok(None)
    }
}

/// Account data subscription request.
#[derive(Debug, Clone, PartialEq, Eq)]
pub struct AccountDataRequest {
    /// Subscribe or unsubscribe.
    pub subscribe: bool,
    /// Account code.
    pub account_code: String,
}

impl AccountDataRequest {
    /// The texts of the fields after the message id.
    pub open spec fn field_texts(&self) -> Seq<Seq<char>> {
        seq![int_text(2)] + seq![bool_text(self.subscribe)] + seq![self.account_code@]
    }

    fn texts(&self) -> (v: Vec<String>)
        ensures
            text_views(v@) == self.field_texts(),
    {
        let mut v: Vec<String> = Vec::new();
        push_i32_text(&mut v, 2);
        push_bool_text(&mut v, self.subscribe);
        push_string_text(&mut v, &self.account_code);
        assert(text_views(v@) =~= self.field_texts());
        v
    }
}

impl EncodableRequest for AccountDataRequest {
    open spec fn outgoing(&self) -> Outgoing {
        Outgoing::ReqAcctData
    }

    open spec fn encoding(&self, server_version: i32) -> Result<Seq<char>, EncodeFailure> {
        text_encoding(self.field_texts())
    }

    open spec fn protobuf_payload(&self) -> Option<Seq<u8>> {
        None
    }

    fn message(&self) -> (m: Outgoing) {
        Outgoing::ReqAcctData
    }

    fn encode_fields(&self, fields: &mut FieldSink) -> (r: Result<(), TwsApiError>) {
        let texts = self.texts();
        push_texts(fields, &texts)
    }

    fn encode_fields_for_server_version(&self, fields: &mut FieldSink, server_version: i32) -> (r: Result<(), TwsApiError>) {
        self.encode_fields(fields)
    }

    fn encode_protobuf(&self) -> (r: Result<Option<Vec<u8>>, TwsApiError>) {
        Ok(None)
    }
}

/// Account summary request.
#[derive(Debug, Clone, PartialEq, Eq)]
pub struct AccountSummaryRequest {
    /// Request id.
    pub req_id: i32,
    /// Group name.
    pub group_name: String,
    /// Tags.
    pub tags: String,
}

impl AccountSummaryRequest {
    /// The texts of the fields after the message id.
    pub open spec fn field_texts(&self) -> Seq<Seq<char>> {
        seq![int_text(1)] + seq![int_text(self.req_id as int)] + seq![self.group_name@] + seq![self.tags@]
    }

    fn texts(&self) -> (v: Vec<String>)
        ensures
            text_views(v@) == self.field_texts(),
    {
        let mut v: Vec<String> = Vec::new();
        push_i32_text(&mut v, 1);
        push_i32_text(&mut v, self.req_id);
        push_string_text(&mut v, &self.group_name);
        push_string_text(&mut v, &self.tags);
        assert(text_views(v@) =~= self.field_texts());
        v
    }
}

impl EncodableRequest for AccountSummaryRequest {
    open spec fn outgoing(&self) -> Outgoing {
        Outgoing::ReqAccountSummary
    }

    open spec fn encoding(&self, server_version: i32) -> Result<Seq<char>, EncodeFailure> {
        text_encoding(self.field_texts())
    }

    open spec fn protobuf_payload(&self) -> Option<Seq<u8>> {
        None
    }

    fn message(&self) -> (m: Outgoing) {
        Outgoing::ReqAccountSummary
    }

    fn encode_fields(&self, fields: &mut FieldSink) -> (r: Result<(), TwsApiError>) {
        let texts = self.texts();
        push_texts(fields, &texts)
    }

    fn encode_fields_for_server_version(&self, fields: &mut FieldSink, server_version: i32) -> (r: Result<(), TwsApiError>) {
        self.encode_fields(fields)
    }

    fn encode_protobuf(&self) -> (r: Result<Option<Vec<u8>>, TwsApiError>) {
        Ok(None)
    }
}

/// Positions multi request.
#[derive(Debug, Clone, PartialEq, Eq)]
pub struct PositionsMultiRequest {
    /// Request id.
    pub req_id: i32,
    /// Account.
    pub account: String,
    /// Model code.
    pub model_code: String,
}

impl PositionsMultiRequest {
    /// The texts of the fields after the message id.
    pub open spec fn field_texts(&self) -> Seq<Seq<char>> {
        seq![int_text(1)] + seq![int_text(self.req_id as int)] + seq![self.account@] + seq![self.model_code@]
    }

    fn texts(&self) -> (v: Vec<String>)
        ensures
            text_views(v@) == self.field_texts(),
    {
        let mut v: Vec<String> = Vec::new();
        push_i32_text(&mut v, 1);
        push_i32_text(&mut v, self.req_id);
        push_string_text(&mut v, &self.account);
        push_string_text(&mut v, &self.model_code);
        assert(text_views(v@) =~= self.field_texts());
        v
    }
}

impl EncodableRequest for PositionsMultiRequest {
    open spec fn outgoing(&self) -> Outgoing {
        Outgoing::ReqPositionsMulti
    }

    open spec fn encoding(&self, server_version: i32) -> Result<Seq<char>, EncodeFailure> {
        text_encoding(self.field_texts())
    }

    open spec fn protobuf_payload(&self) -> Option<Seq<u8>> {
        None
    }

    fn message(&self) -> (m: Outgoing) {
        Outgoing::ReqPositionsMulti
    }

    fn encode_fields(&self, fields: &mut FieldSink) -> (r: Result<(), TwsApiError>) {
        let texts = self.texts();
        push_texts(fields, &texts)
    }

    fn encode_fields_for_server_version(&self, fields: &mut FieldSink, server_version: i32) -> (r: Result<(), TwsApiError>) {
        self.encode_fields(fields)
    }

    fn encode_protobuf(&self) -> (r: Result<Option<Vec<u8>>, TwsApiError>) {
        Ok(None)
    }
}

/// Account updates multi request.
#[derive(Debug, Clone, PartialEq, Eq)]
pub struct AccountUpdatesMultiRequest {
    /// Request id.
    pub req_id: i32,
    /// Account.
    pub account: String,
    /// Model code.
    pub model_code: String,
    /// Whether to include ledger and NLV.
    pub ledger_and_nlv: bool,
}

impl AccountUpdatesMultiRequest {
    /// The texts of the fields after the message id.
    pub open spec fn field_texts(&self) -> Seq<Seq<char>> {
        seq![int_text(1)] + seq![int_text(self.req_id as int)] + seq![self.account@] + seq![self.model_code@] + seq![bool_text(self.ledger_and_nlv)]
    }

    fn texts(&self) -> (v: Vec<String>)
        ensures
            text_views(v@) == self.field_texts(),
    {
        let mut v: Vec<String> = Vec::new();
        push_i32_text(&mut v, 1);
        push_i32_text(&mut v, self.req_id);
        push_string_text(&mut v, &self.account);
        push_string_text(&mut v, &self.model_code);
        push_bool_text(&mut v, self.ledger_and_nlv);
        assert(text_views(v@) =~= self.field_texts());
        v
    }
}

impl EncodableRequest for AccountUpdatesMultiRequest {
    open spec fn outgoing(&self) -> Outgoing {
        Outgoing::ReqAccountUpdatesMulti
    }

    open spec fn encoding(&self, server_version: i32) -> Result<Seq<char>, EncodeFailure> {
        text_encoding(self.field_texts())
    }

    open spec fn protobuf_payload(&self) -> Option<Seq<u8>> {
        None
    }

    fn message(&self) -> (m: Outgoing) {
        Outgoing::ReqAccountUpdatesMulti
    }

    fn encode_fields(&self, fields: &mut FieldSink) -> (r: Result<(), TwsApiError>) {
        let texts = self.texts();
        push_texts(fields, &texts)
    }

    fn encode_fields_for_server_version(&self, fields: &mut FieldSink, server_version: i32) -> (r: Result<(), TwsApiError>) {
        self.encode_fields(fields)
    }

    fn encode_protobuf(&self) -> (r: Result<Option<Vec<u8>>, TwsApiError>) {
        Ok(None)
    }
}

/// PnL request.
#[derive(Debug, Clone, PartialEq, Eq)]
pub struct PnlRequest {
    /// Request id.
    pub req_id: i32,
    /// Account.
    pub account: String,
    /// Model code.
    pub model_code: String,
}

impl PnlRequest {
    /// The texts of the fields after the message id.
    pub open spec fn field_texts(&self) -> Seq<Seq<char>> {
        seq![int_text(self.req_id as int)] + seq![self.account@] + seq![self.model_code@]
    }

    fn texts(&self) -> (v: Vec<String>)
        ensures
            text_views(v@) == self.field_texts(),
    {
        let mut v: Vec<String> = Vec::new();
        push_i32_text(&mut v, self.req_id);
        push_string_text(&mut v, &self.account);
        push_string_text(&mut v, &self.model_code);
        assert(text_views(v@) =~= self.field_texts());
        v
    }
}

impl EncodableRequest for PnlRequest {
    open spec fn outgoing(&self) -> Outgoing {
        Outgoing::ReqPnl
    }

    open spec fn encoding(&self, server_version: i32) -> Result<Seq<char>, EncodeFailure> {
        text_encoding(self.field_texts())
    }

    open spec fn protobuf_payload(&self) -> Option<Seq<u8>> {
        None
    }

    fn message(&self) -> (m: Outgoing) {
        Outgoing::ReqPnl
    }

    fn encode_fields(&self, fields: &mut FieldSink) -> (r: Result<(), TwsApiError>) {
        let texts = self.texts();
        push_texts(fields, &texts)
    }

    fn encode_fields_for_server_version(&self, fields: &mut FieldSink, server_version: i32) -> (r: Result<(), TwsApiError>) {
        self.encode_fields(fields)
    }

    fn encode_protobuf(&self) -> (r: Result<Option<Vec<u8>>, TwsApiError>) {
        Ok(None)
    }
}

/// Single-position PnL request.
#[derive(Debug, Clone, PartialEq, Eq)]
pub struct PnlSingleRequest {
    /// Request id.
    pub req_id: i32,
    /// Account.
    pub account: String,
    /// Model code.
    pub model_code: String,
    /// Contract id.
    pub con_id: i32,
}

impl PnlSingleRequest {
    /// The texts of the fields after the message id.
    pub open spec fn field_texts(&self) -> Seq<Seq<char>> {
        seq![int_text(self.req_id as int)] + seq![self.account@] + seq![self.model_code@] + seq![int_text(self.con_id as int)]
    }

    fn texts(&self) -> (v: Vec<String>)
        ensures
            text_views(v@) == self.field_texts(),
    {
        let mut v: Vec<String> = Vec::new();
        push_i32_text(&mut v, self.req_id);
        push_string_text(&mut v, &self.account);
        push_string_text(&mut v, &self.model_code);
        push_i32_text(&mut v, self.con_id);
        assert(text_views(v@) =~= self.field_texts());
        v
    }
}

impl EncodableRequest for PnlSingleRequest {
    open spec fn outgoing(&self) -> Outgoing {
        Outgoing::ReqPnlSingle
    }

    open spec fn encoding(&self, server_version: i32) -> Result<Seq<char>, EncodeFailure> {
        text_encoding(self.field_texts())
    }

    open spec fn protobuf_payload(&self) -> Option<Seq<u8>> {
        None
    }

    fn message(&self) -> (m: Outgoing) {
        Outgoing::ReqPnlSingle
    }

    fn encode_fields(&self, fields: &mut FieldSink) -> (r: Result<(), TwsApiError>) {
        let texts = self.texts();
        push_texts(fields, &texts)
    }

    fn encode_fields_for_server_version(&self, fields: &mut FieldSink, server_version: i32) -> (r: Result<(), TwsApiError>) {
        self.encode_fields(fields)
    }

    fn encode_protobuf(&self) -> (r: Result<Option<Vec<u8>>, TwsApiError>) {
        Ok(None)
    }
}

/// News bulletin subscription request.
#[derive(Debug, Clone, Copy, PartialEq, Eq)]
pub struct NewsBulletinsRequest {
    /// Include all messages.
    pub all_messages: bool,
}

impl NewsBulletinsRequest {
    /// The texts of the fields after the message id.
    pub open spec fn field_texts(&self) -> Seq<Seq<char>> {
        seq![int_text(1)] + seq![bool_text(self.all_messages)]
    }

    fn texts(&self) -> (v: Vec<String>)
        ensures
            text_views(v@) == self.field_texts(),
    {
        let mut v: Vec<String> = Vec::new();
        push_i32_text(&mut v, 1);
        push_bool_text(&mut v, self.all_messages);
        assert(text_views(v@) =~= self.field_texts());
        v
    }
}

impl EncodableRequest for NewsBulletinsRequest {
    open spec fn outgoing(&self) -> Outgoing {
        Outgoing::ReqNewsBulletins
    }

    open spec fn encoding(&self, server_version: i32) -> Result<Seq<char>, EncodeFailure> {
        text_encoding(self.field_texts())
    }

    open spec fn protobuf_payload(&self) -> Option<Seq<u8>> {
        None
    }

    fn message(&self) -> (m: Outgoing) {
        Outgoing::ReqNewsBulletins
    }

    fn encode_fields(&self, fields: &mut FieldSink) -> (r: Result<(), TwsApiError>) {
        let texts = self.texts();
        push_texts(fields, &texts)
    }

    fn encode_fields_for_server_version(&self, fields: &mut FieldSink, server_version: i32) -> (r: Result<(), TwsApiError>) {
        self.encode_fields(fields)
    }

    fn encode_protobuf(&self) -> (r: Result<Option<Vec<u8>>, TwsApiError>) {
        Ok(None)
    }
}

/// News article request.
#[derive(Debug, Clone, Default, PartialEq, Eq)]
pub struct NewsArticleRequest {
    /// Request id.
    pub req_id: i32,
    /// Provider code.
    pub provider_code: String,
    /// Article id.
    pub article_id: String,
    /// Request options.
    pub options: Vec<TagValue>,
}

impl NewsArticleRequest {
    /// The texts of the fields after the message id.
    pub open spec fn field_texts(&self) -> Seq<Seq<char>> {
        seq![int_text(self.req_id as int)] + seq![self.provider_code@] + seq![self.article_id@] + tag_value_texts(self.options@)
    }

    fn texts(&self) -> (v: Vec<String>)
        ensures
            text_views(v@) == self.field_texts(),
    {
        let mut v: Vec<String> = Vec::new();
        push_i32_text(&mut v, self.req_id);
        push_string_text(&mut v, &self.provider_code);
        push_string_text(&mut v, &self.article_id);
        push_tag_value_texts(&mut v, &self.options);
        assert(text_views(v@) =~= self.field_texts());
        v
    }
}

impl EncodableRequest for NewsArticleRequest {
    open spec fn outgoing(&self) -> Outgoing {
        Outgoing::ReqNewsArticle
    }

    open spec fn encoding(&self, server_version: i32) -> Result<Seq<char>, EncodeFailure> {
        text_encoding(self.field_texts())
    }

    open spec fn protobuf_payload(&self) -> Option<Seq<u8>> {
        None
    }

    fn message(&self) -> (m: Outgoing) {
        Outgoing::ReqNewsArticle
    }

    fn encode_fields(&self, fields: &mut FieldSink) -> (r: Result<(), TwsApiError>) {
        let texts = self.texts();
        push_texts(fields, &texts)
    }

    fn encode_fields_for_server_version(&self, fields: &mut FieldSink, server_version: i32) -> (r: Result<(), TwsApiError>) {
        self.encode_fields(fields)
    }

    fn encode_protobuf(&self) -> (r: Result<Option<Vec<u8>>, TwsApiError>) {
        Ok(None)
    }
}

/// Historical news request.
#[derive(Debug, Clone, Default, PartialEq, Eq)]
pub struct HistoricalNewsRequest {
    /// Request id.
    pub req_id: i32,
    /// Contract id.
    pub con_id: i32,
    /// Provider codes.
    pub provider_codes: String,
    /// Start date/time.
    pub start_date_time: String,
    /// End date/time.
    pub end_date_time: String,
    /// Total results.
    pub total_results: i32,
    /// Request options.
    pub options: Vec<TagValue>,
}

impl HistoricalNewsRequest {
    /// The texts of the fields after the message id.
    pub open spec fn field_texts(&self) -> Seq<Seq<char>> {
        seq![int_text(self.req_id as int)] + seq![int_text(self.con_id as int)] + seq![self.provider_codes@] + seq![self.start_date_time@] + seq![self.end_date_time@] + seq![int_text(self.total_results as int)] + tag_value_texts(self.options@)
    }

    fn texts(&self) -> (v: Vec<String>)
        ensures
            text_views(v@) == self.field_texts(),
    {
        let mut v: Vec<String> = Vec::new();
        push_i32_text(&mut v, self.req_id);
        push_i32_text(&mut v, self.con_id);
        push_string_text(&mut v, &self.provider_codes);
        push_string_text(&mut v, &self.start_date_time);
        push_string_text(&mut v, &self.end_date_time);
        push_i32_text(&mut v, self.total_results);
        push_tag_value_texts(&mut v, &self.options);
        assert(text_views(v@) =~= self.field_texts());
        v
    }
}

impl EncodableRequest for HistoricalNewsRequest {
    open spec fn outgoing(&self) -> Outgoing {
        Outgoing::ReqHistoricalNews
    }

    open spec fn encoding(&self, server_version: i32) -> Result<Seq<char>, EncodeFailure> {
        text_encoding(self.field_texts())
    }

    open spec fn protobuf_payload(&self) -> Option<Seq<u8>> {
        None
    }

    fn message(&self) -> (m: Outgoing) {
        Outgoing::ReqHistoricalNews
    }

    fn encode_fields(&self, fields: &mut FieldSink) -> (r: Result<(), TwsApiError>) {
        let texts = self.texts();
        push_texts(fields, &texts)
    }

    fn encode_fields_for_server_version(&self, fields: &mut FieldSink, server_version: i32) -> (r: Result<(), TwsApiError>) {
        self.encode_fields(fields)
    }

    fn encode_protobuf(&self) -> (r: Result<Option<Vec<u8>>, TwsApiError>) {
        Ok(None)
    }
}

/// Security-definition option parameters request.
#[derive(Debug, Clone, PartialEq, Eq)]
pub struct SecDefOptParamsRequest {
    /// Request id.
    pub req_id: i32,
    /// Underlying symbol.
    pub underlying_symbol: String,
    /// FUT/FOP exchange.
    pub fut_fop_exchange: String,
    /// Underlying security type.
    pub underlying_sec_type: String,
    /// Underlying contract id.
    pub underlying_con_id: i32,
}

impl SecDefOptParamsRequest {
    /// The texts of the fields after the message id.
    pub open spec fn field_texts(&self) -> Seq<Seq<char>> {
        seq![int_text(self.req_id as int)] + seq![self.underlying_symbol@] + seq![self.fut_fop_exchange@] + seq![self.underlying_sec_type@] + seq![int_text(self.underlying_con_id as int)]
    }

    fn texts(&self) -> (v: Vec<String>)
        ensures
            text_views(v@) == self.field_texts(),
    {
        let mut v: Vec<String> = Vec::new();
        push_i32_text(&mut v, self.req_id);
        push_string_text(&mut v, &self.underlying_symbol);
        push_string_text(&mut v, &self.fut_fop_exchange);
        push_string_text(&mut v, &self.underlying_sec_type);
        push_i32_text(&mut v, self.underlying_con_id);
        assert(text_views(v@) =~= self.field_texts());
        v
    }
}

impl EncodableRequest for SecDefOptParamsRequest {
    open spec fn outgoing(&self) -> Outgoing {
        Outgoing::ReqSecDefOptParams
    }

    open spec fn encoding(&self, server_version: i32) -> Result<Seq<char>, EncodeFailure> {
        text_encoding(self.field_texts())
    }

    open spec fn protobuf_payload(&self) -> Option<Seq<u8>> {
        None
    }

    fn message(&self) -> (m: Outgoing) {
        Outgoing::ReqSecDefOptParams
    }

    fn encode_fields(&self, fields: &mut FieldSink) -> (r: Result<(), TwsApiError>) {
        let texts = self.texts();
        push_texts(fields, &texts)
    }

    fn encode_fields_for_server_version(&self, fields: &mut FieldSink, server_version: i32) -> (r: Result<(), TwsApiError>) {
        self.encode_fields(fields)
    }

    fn encode_protobuf(&self) -> (r: Result<Option<Vec<u8>>, TwsApiError>) {
        Ok(None)
    }
}

/// Matching-symbols request.
#[derive(Debug, Clone, PartialEq, Eq)]
pub struct MatchingSymbolsRequest {
    /// Request id.
    pub req_id: i32,
    /// Search pattern.
    pub pattern: String,
}

impl MatchingSymbolsRequest {
    /// The texts of the fields after the message id.
    pub open spec fn field_texts(&self) -> Seq<Seq<char>> {
        seq![int_text(self.req_id as int)] + seq![self.pattern@]
    }

    fn texts(&self) -> (v: Vec<String>)
        ensures
            text_views(v@) == self.field_texts(),
    {
        let mut v: Vec<String> = Vec::new();
        push_i32_text(&mut v, self.req_id);
        push_string_text(&mut v, &self.pattern);
        assert(text_views(v@) =~= self.field_texts());
        v
    }
}

impl EncodableRequest for MatchingSymbolsRequest {
    open spec fn outgoing(&self) -> Outgoing {
        Outgoing::ReqMatchingSymbols
    }

    open spec fn encoding(&self, server_version: i32) -> Result<Seq<char>, EncodeFailure> {
        text_encoding(self.field_texts())
    }

    open spec fn protobuf_payload(&self) -> Option<Seq<u8>> {
        None
    }

    fn message(&self) -> (m: Outgoing) {
        Outgoing::ReqMatchingSymbols
    }

    fn encode_fields(&self, fields: &mut FieldSink) -> (r: Result<(), TwsApiError>) {
        let texts = self.texts();
        push_texts(fields, &texts)
    }

    fn encode_fields_for_server_version(&self, fields: &mut FieldSink, server_version: i32) -> (r: Result<(), TwsApiError>) {
        self.encode_fields(fields)
    }

    fn encode_protobuf(&self) -> (r: Result<Option<Vec<u8>>, TwsApiError>) {
        Ok(None)
    }
}

/// Completed-orders request.
#[derive(Debug, Clone, Copy, PartialEq, Eq)]
pub struct CompletedOrdersRequest {
    /// Include API-only orders.
    pub api_only: bool,
}

impl CompletedOrdersRequest {
    /// The texts of the fields after the message id.
    pub open spec fn field_texts(&self) -> Seq<Seq<char>> {
        seq![bool_text(self.api_only)]
    }

    fn texts(&self) -> (v: Vec<String>)
        ensures
            text_views(v@) == self.field_texts(),
    {
        let mut v: Vec<String> = Vec::new();
        push_bool_text(&mut v, self.api_only);
        assert(text_views(v@) =~= self.field_texts());
        v
    }
}

impl EncodableRequest for CompletedOrdersRequest {
    open spec fn outgoing(&self) -> Outgoing {
        Outgoing::ReqCompletedOrders
    }

    open spec fn encoding(&self, server_version: i32) -> Result<Seq<char>, EncodeFailure> {
        text_encoding(self.field_texts())
    }

    open spec fn protobuf_payload(&self) -> Option<Seq<u8>> {
        None
    }

    fn message(&self) -> (m: Outgoing) {
        Outgoing::ReqCompletedOrders
    }

    fn encode_fields(&self, fields: &mut FieldSink) -> (r: Result<(), TwsApiError>) {
        let texts = self.texts();
        push_texts(fields, &texts)
    }

    fn encode_fields_for_server_version(&self, fields: &mut FieldSink, server_version: i32) -> (r: Result<(), TwsApiError>) {
        self.encode_fields(fields)
    }

    fn encode_protobuf(&self) -> (r: Result<Option<Vec<u8>>, TwsApiError>) {
        Ok(None)
    }
}

/// Financial-advisor data request.
#[derive(Debug, Clone, Copy, PartialEq, Eq)]
pub struct FinancialAdvisorRequest {
    /// FA data type.
    pub fa_data_type: i32,
}

impl FinancialAdvisorRequest {
    /// The texts of the fields after the message id.
    pub open spec fn field_texts(&self) -> Seq<Seq<char>> {
        seq![int_text(1)] + seq![int_text(self.fa_data_type as int)]
    }

    fn texts(&self) -> (v: Vec<String>)
        ensures
            text_views(v@) == self.field_texts(),
    {
        let mut v: Vec<String> = Vec::new();
        push_i32_text(&mut v, 1);
        push_i32_text(&mut v, self.fa_data_type);
        assert(text_views(v@) =~= self.field_texts());
        v
    }
}

impl EncodableRequest for FinancialAdvisorRequest {
    open spec fn outgoing(&self) -> Outgoing {
        Outgoing::ReqFa
    }

    open spec fn encoding(&self, server_version: i32) -> Result<Seq<char>, EncodeFailure> {
        text_encoding(self.field_texts())
    }

    open spec fn protobuf_payload(&self) -> Option<Seq<u8>> {
        None
    }

    fn message(&self) -> (m: Outgoing) {
        Outgoing::ReqFa
    }

    fn encode_fields(&self, fields: &mut FieldSink) -> (r: Result<(), TwsApiError>) {
        let texts = self.texts();
        push_texts(fields, &texts)
    }

    fn encode_fields_for_server_version(&self, fields: &mut FieldSink, server_version: i32) -> (r: Result<(), TwsApiError>) {
        self.encode_fields(fields)
    }

    fn encode_protobuf(&self) -> (r: Result<Option<Vec<u8>>, TwsApiError>) {
        Ok(None)
    }
}

/// Financial-advisor replace request.
#[derive(Debug, Clone, PartialEq, Eq)]
pub struct ReplaceFinancialAdvisorRequest {
    /// Request id.
    pub req_id: i32,
    /// FA data type.
    pub fa_data_type: i32,
    /// XML payload.
    pub xml: String,
}

impl ReplaceFinancialAdvisorRequest {
    /// The texts of the fields after the message id.
    pub open spec fn field_texts(&self) -> Seq<Seq<char>> {
        seq![int_text(1)] + seq![int_text(self.req_id as int)] + seq![int_text(self.fa_data_type as int)] + seq![self.xml@]
    }

    fn texts(&self) -> (v: Vec<String>)
        ensures
            text_views(v@) == self.field_texts(),
    {
        let mut v: Vec<String> = Vec::new();
        push_i32_text(&mut v, 1);
        push_i32_text(&mut v, self.req_id);
        push_i32_text(&mut v, self.fa_data_type);
        push_string_text(&mut v, &self.xml);
        assert(text_views(v@) =~= self.field_texts());
        v
    }
}

impl EncodableRequest for ReplaceFinancialAdvisorRequest {
    open spec fn outgoing(&self) -> Outgoing {
        Outgoing::ReplaceFa
    }

    open spec fn encoding(&self, server_version: i32) -> Result<Seq<char>, EncodeFailure> {
        text_encoding(self.field_texts())
    }

    open spec fn protobuf_payload(&self) -> Option<Seq<u8>> {
        None
    }

    fn message(&self) -> (m: Outgoing) {
        Outgoing::ReplaceFa
    }

    fn encode_fields(&self, fields: &mut FieldSink) -> (r: Result<(), TwsApiError>) {
        let texts = self.texts();
        push_texts(fields, &texts)
    }

    fn encode_fields_for_server_version(&self, fields: &mut FieldSink, server_version: i32) -> (r: Result<(), TwsApiError>) {
        self.encode_fields(fields)
    }

    fn encode_protobuf(&self) -> (r: Result<Option<Vec<u8>>, TwsApiError>) {
        Ok(None)
    }
}

/// Subscribe to display-group events.
#[derive(Debug, Clone, Copy, PartialEq, Eq)]
pub struct SubscribeToGroupEventsRequest {
    /// Request id.
    pub req_id: i32,
    /// Group id.
    pub group_id: i32,
}

impl SubscribeToGroupEventsRequest {
    /// The texts of the fields after the message id.
    pub open spec fn field_texts(&self) -> Seq<Seq<char>> {
        seq![int_text(1)] + seq![int_text(self.req_id as int)] + seq![int_text(self.group_id as int)]
    }

    fn texts(&self) -> (v: Vec<String>)
        ensures
            text_views(v@) == self.field_texts(),
    {
        let mut v: Vec<String> = Vec::new();
        push_i32_text(&mut v, 1);
        push_i32_text(&mut v, self.req_id);
        push_i32_text(&mut v, self.group_id);
        assert(text_views(v@) =~= self.field_texts());
        v
    }
}

impl EncodableRequest for SubscribeToGroupEventsRequest {
    open spec fn outgoing(&self) -> Outgoing {
        Outgoing::SubscribeToGroupEvents
    }

    open spec fn encoding(&self, server_version: i32) -> Result<Seq<char>, EncodeFailure> {
        text_encoding(self.field_texts())
    }

    open spec fn protobuf_payload(&self) -> Option<Seq<u8>> {
        None
    }

    fn message(&self) -> (m: Outgoing) {
        Outgoing::SubscribeToGroupEvents
    }

    fn encode_fields(&self, fields: &mut FieldSink) -> (r: Result<(), TwsApiError>) {
        let texts = self.texts();
        push_texts(fields, &texts)
    }

    fn encode_fields_for_server_version(&self, fields: &mut FieldSink, server_version: i32) -> (r: Result<(), TwsApiError>) {
        self.encode_fields(fields)
    }

    fn encode_protobuf(&self) -> (r: Result<Option<Vec<u8>>, TwsApiError>) {
        Ok(None)
    }
}

/// Update display group.
#[derive(Debug, Clone, PartialEq, Eq)]
pub struct UpdateDisplayGroupRequest {
    /// Request id.
    pub req_id: i32,
    /// Contract info.
    pub contract_info: String,
}

impl UpdateDisplayGroupRequest {
    /// The texts of the fields after the message id.
    pub open spec fn field_texts(&self) -> Seq<Seq<char>> {
        seq![int_text(1)] + seq![int_text(self.req_id as int)] + seq![self.contract_info@]
    }

    fn texts(&self) -> (v: Vec<String>)
        ensures
            text_views(v@) == self.field_texts(),
    {
        let mut v: Vec<String> = Vec::new();
        push_i32_text(&mut v, 1);
        push_i32_text(&mut v, self.req_id);
        push_string_text(&mut v, &self.contract_info);
        assert(text_views(v@) =~= self.field_texts());
        v
    }
}

impl EncodableRequest for UpdateDisplayGroupRequest {
    open spec fn outgoing(&self) -> Outgoing {
        Outgoing::UpdateDisplayGroup
    }

    open spec fn encoding(&self, server_version: i32) -> Result<Seq<char>, EncodeFailure> {
        text_encoding(self.field_texts())
    }

    open spec fn protobuf_payload(&self) -> Option<Seq<u8>> {
        None
    }

    fn message(&self) -> (m: Outgoing) {
        Outgoing::UpdateDisplayGroup
    }

    fn encode_fields(&self, fields: &mut FieldSink) -> (r: Result<(), TwsApiError>) {
        let texts = self.texts();
        push_texts(fields, &texts)
    }

    fn encode_fields_for_server_version(&self, fields: &mut FieldSink, server_version: i32) -> (r: Result<(), TwsApiError>) {
        self.encode_fields(fields)
    }

    fn encode_protobuf(&self) -> (r: Result<Option<Vec<u8>>, TwsApiError>) {
        Ok(None)
    }
}

/// Verify request.
#[derive(Debug, Clone, PartialEq, Eq)]
pub struct VerifyRequest {
    /// API name.
    pub api_name: String,
    /// API version.
    pub api_version: String,
}

impl VerifyRequest {
    /// The texts of the fields after the message id.
    pub open spec fn field_texts(&self) -> Seq<Seq<char>> {
        seq![int_text(1)] + seq![self.api_name@] + seq![self.api_version@]
    }

    fn texts(&self) -> (v: Vec<String>)
        ensures
            text_views(v@) == self.field_texts(),
    {
        let mut v: Vec<String> = Vec::new();
        push_i32_text(&mut v, 1);
        push_string_text(&mut v, &self.api_name);
        push_string_text(&mut v, &self.api_version);
        assert(text_views(v@) =~= self.field_texts());
        v
    }
}

impl EncodableRequest for VerifyRequest {
    open spec fn outgoing(&self) -> Outgoing {
        Outgoing::VerifyRequest
    }

    open spec fn encoding(&self, server_version: i32) -> Result<Seq<char>, EncodeFailure> {
        text_encoding(self.field_texts())
    }

    open spec fn protobuf_payload(&self) -> Option<Seq<u8>> {
        None
    }

    fn message(&self) -> (m: Outgoing) {
        Outgoing::VerifyRequest
    }

    fn encode_fields(&self, fields: &mut FieldSink) -> (r: Result<(), TwsApiError>) {
        let texts = self.texts();
        push_texts(fields, &texts)
    }

    fn encode_fields_for_server_version(&self, fields: &mut FieldSink, server_version: i32) -> (r: Result<(), TwsApiError>) {
        self.encode_fields(fields)
    }

    fn encode_protobuf(&self) -> (r: Result<Option<Vec<u8>>, TwsApiError>) {
        Ok(None)
    }
}

/// Verify message request.
#[derive(Debug, Clone, PartialEq, Eq)]
pub struct VerifyMessageRequest {
    /// API data.
    pub api_data: String,
}

impl VerifyMessageRequest {
    /// The texts of the fields after the message id.
    pub open spec fn field_texts(&self) -> Seq<Seq<char>> {
        seq![int_text(1)] + seq![self.api_data@]
    }

    fn texts(&self) -> (v: Vec<String>)
        ensures
            text_views(v@) == self.field_texts(),
    {
        let mut v: Vec<String> = Vec::new();
        push_i32_text(&mut v, 1);
        push_string_text(&mut v, &self.api_data);
        assert(text_views(v@) =~= self.field_texts());
        v
    }
}

impl EncodableRequest for VerifyMessageRequest {
    open spec fn outgoing(&self) -> Outgoing {
        Outgoing::VerifyMessage
    }

    open spec fn encoding(&self, server_version: i32) -> Result<Seq<char>, EncodeFailure> {
        text_encoding(self.field_texts())
    }

    open spec fn protobuf_payload(&self) -> Option<Seq<u8>> {
        None
    }

    fn message(&self) -> (m: Outgoing) {
        Outgoing::VerifyMessage
    }

    fn encode_fields(&self, fields: &mut FieldSink) -> (r: Result<(), TwsApiError>) {
        let texts = self.texts();
        push_texts(fields, &texts)
    }

    fn encode_fields_for_server_version(&self, fields: &mut FieldSink, server_version: i32) -> (r: Result<(), TwsApiError>) {
        self.encode_fields(fields)
    }

    fn encode_protobuf(&self) -> (r: Result<Option<Vec<u8>>, TwsApiError>) {
        Ok(None)
    }
}

/// Verify-and-auth request.
#[derive(Debug, Clone, PartialEq, Eq)]
pub struct VerifyAndAuthRequest {
    /// API name.
    pub api_name: String,
    /// API version.
    pub api_version: String,
    /// Opaque ISV key.
    pub opaque_isv_key: String,
}

impl VerifyAndAuthRequest {
    /// The texts of the fields after the message id.
    pub open spec fn field_texts(&self) -> Seq<Seq<char>> {
        seq![int_text(1)] + seq![self.api_name@] + seq![self.api_version@] + seq![self.opaque_isv_key@]
    }

    fn texts(&self) -> (v: Vec<String>)
        ensures
            text_views(v@) == self.field_texts(),
    {
        let mut v: Vec<String> = Vec::new();
        push_i32_text(&mut v, 1);
        push_string_text(&mut v, &self.api_name);
        push_string_text(&mut v, &self.api_version);
        push_string_text(&mut v, &self.opaque_isv_key);
        assert(text_views(v@) =~= self.field_texts());
        v
    }
}

impl EncodableRequest for VerifyAndAuthRequest {
    open spec fn outgoing(&self) -> Outgoing {
        Outgoing::VerifyAndAuthRequest
    }

    open spec fn encoding(&self, server_version: i32) -> Result<Seq<char>, EncodeFailure> {
        text_encoding(self.field_texts())
    }

    open spec fn protobuf_payload(&self) -> Option<Seq<u8>> {
        None
    }

    fn message(&self) -> (m: Outgoing) {
        Outgoing::VerifyAndAuthRequest
    }

    fn encode_fields(&self, fields: &mut FieldSink) -> (r: Result<(), TwsApiError>) {
        let texts = self.texts();
        push_texts(fields, &texts)
    }

    fn encode_fields_for_server_version(&self, fields: &mut FieldSink, server_version: i32) -> (r: Result<(), TwsApiError>) {
        self.encode_fields(fields)
    }

    fn encode_protobuf(&self) -> (r: Result<Option<Vec<u8>>, TwsApiError>) {
        Ok(None)
    }
}

/// Verify-and-auth message request.
#[derive(Debug, Clone, PartialEq, Eq)]
pub struct VerifyAndAuthMessageRequest {
    /// API data.
    pub api_data: String,
    /// Challenge response.
    pub xyz_response: String,
}

impl VerifyAndAuthMessageRequest {
    /// The texts of the fields after the message id.
    pub open spec fn field_texts(&self) -> Seq<Seq<char>> {
        seq![int_text(1)] + seq![self.api_data@] + seq![self.xyz_response@]
    }

    fn texts(&self) -> (v: Vec<String>)
        ensures
            text_views(v@) == self.field_texts(),
    {
        let mut v: Vec<String> = Vec::new();
        push_i32_text(&mut v, 1);
        push_string_text(&mut v, &self.api_data);
        push_string_text(&mut v, &self.xyz_response);
        assert(text_views(v@) =~= self.field_texts());
        v
    }
}

impl EncodableRequest for VerifyAndAuthMessageRequest {
    open spec fn outgoing(&self) -> Outgoing {
        Outgoing::VerifyAndAuthMessage
    }

    open spec fn encoding(&self, server_version: i32) -> Result<Seq<char>, EncodeFailure> {
        text_encoding(self.field_texts())
    }

    open spec fn protobuf_payload(&self) -> Option<Seq<u8>> {
        None
    }

    fn message(&self) -> (m: Outgoing) {
        Outgoing::VerifyAndAuthMessage
    }

    fn encode_fields(&self, fields: &mut FieldSink) -> (r: Result<(), TwsApiError>) {
        let texts = self.texts();
        push_texts(fields, &texts)
    }

    fn encode_fields_for_server_version(&self, fields: &mut FieldSink, server_version: i32) -> (r: Result<(), TwsApiError>) {
        self.encode_fields(fields)
    }

    fn encode_protobuf(&self) -> (r: Result<Option<Vec<u8>>, TwsApiError>) {
        Ok(None)
    }
}

/// WSH event data request.
#[derive(Debug, Clone, Default, PartialEq, Eq)]
pub struct WshEventDataRequest {
    /// Request id.
    pub req_id: i32,
    /// Contract id.
    pub con_id: i32,
    /// Filter JSON.
    pub filter: String,
    /// Fill watchlist flag.
    pub fill_watchlist: bool,
    /// Fill portfolio flag.
    pub fill_portfolio: bool,
    /// Fill competitors flag.
    pub fill_competitors: bool,
    /// Start date.
    pub start_date: String,
    /// End date.
    pub end_date: String,
    /// Total limit.
    pub total_limit: i32,
}

impl WshEventDataRequest {
    /// The texts of the fields after the message id.
    pub open spec fn field_texts(&self) -> Seq<Seq<char>> {
        seq![int_text(self.req_id as int)] + seq![int_text(self.con_id as int)] + seq![self.filter@] + seq![bool_text(self.fill_watchlist)] + seq![bool_text(self.fill_portfolio)] + seq![bool_text(self.fill_competitors)] + seq![self.start_date@] + seq![self.end_date@] + seq![int_text(self.total_limit as int)]
    }

    fn texts(&self) -> (v: Vec<String>)
        ensures
            text_views(v@) == self.field_texts(),
    {
        let mut v: Vec<String> = Vec::new();
        push_i32_text(&mut v, self.req_id);
        push_i32_text(&mut v, self.con_id);
        push_string_text(&mut v, &self.filter);
        push_bool_text(&mut v, self.fill_watchlist);
        push_bool_text(&mut v, self.fill_portfolio);
        push_bool_text(&mut v, self.fill_competitors);
        push_string_text(&mut v, &self.start_date);
        push_string_text(&mut v, &self.end_date);
        push_i32_text(&mut v, self.total_limit);
        assert(text_views(v@) =~= self.field_texts());
        v
    }
}

impl EncodableRequest for WshEventDataRequest {
    open spec fn outgoing(&self) -> Outgoing {
        Outgoing::ReqWshEventData
    }

    open spec fn encoding(&self, server_version: i32) -> Result<Seq<char>, EncodeFailure> {
        text_encoding(self.field_texts())
    }

    open spec fn protobuf_payload(&self) -> Option<Seq<u8>> {
        None
    }

    fn message(&self) -> (m: Outgoing) {
        Outgoing::ReqWshEventData
    }

    fn encode_fields(&self, fields: &mut FieldSink) -> (r: Result<(), TwsApiError>) {
        let texts = self.texts();
        push_texts(fields, &texts)
    }

    fn encode_fields_for_server_version(&self, fields: &mut FieldSink, server_version: i32) -> (r: Result<(), TwsApiError>) {
        self.encode_fields(fields)
    }

    fn encode_protobuf(&self) -> (r: Result<Option<Vec<u8>>, TwsApiError>) {
        Ok(None)
    }
}

/// Cancel order request.
#[derive(Debug, Clone, Default, PartialEq, Eq)]
pub struct CancelOrderRequest {
    /// Order id.
    pub order_id: i32,
    /// Cancel metadata.
    pub order_cancel: OrderCancel,
}

impl CancelOrderRequest {
    /// The texts of the fields after the message id.
    pub open spec fn field_texts(&self) -> Seq<Seq<char>> {
        seq![int_text(1)] + seq![int_text(self.order_id as int)] + seq![self.order_cancel.manual_order_cancel_time@] + seq![self.order_cancel.ext_operator@] + seq![int_text(self.order_cancel.manual_order_indicator as int)]
    }

    fn texts(&self) -> (v: Vec<String>)
        ensures
            text_views(v@) == self.field_texts(),
    {
        let mut v: Vec<String> = Vec::new();
        push_i32_text(&mut v, 1);
        push_i32_text(&mut v, self.order_id);
        push_string_text(&mut v, &self.order_cancel.manual_order_cancel_time);
        push_string_text(&mut v, &self.order_cancel.ext_operator);
        push_i32_text(&mut v, self.order_cancel.manual_order_indicator);
        assert(text_views(v@) =~= self.field_texts());
        v
    }
}

impl EncodableRequest for CancelOrderRequest {
    open spec fn outgoing(&self) -> Outgoing {
        Outgoing::CancelOrder
    }

    open spec fn encoding(&self, server_version: i32) -> Result<Seq<char>, EncodeFailure> {
        text_encoding(self.field_texts())
    }

    open spec fn protobuf_payload(&self) -> Option<Seq<u8>> {
        None
    }

    fn message(&self) -> (m: Outgoing) {
        Outgoing::CancelOrder
    }

    fn encode_fields(&self, fields: &mut FieldSink) -> (r: Result<(), TwsApiError>) {
        let texts = self.texts();
        push_texts(fields, &texts)
    }

    fn encode_fields_for_server_version(&self, fields: &mut FieldSink, server_version: i32) -> (r: Result<(), TwsApiError>) {
        self.encode_fields(fields)
    }

    fn encode_protobuf(&self) -> (r: Result<Option<Vec<u8>>, TwsApiError>) {
        Ok(None)
    }
}

/// Execution request.
#[derive(Debug, Clone, Default, PartialEq, Eq)]
pub struct ExecutionRequest {
    /// Request id.
    pub req_id: i32,
    /// Execution filter.
    pub filter: ExecutionFilter,
}

impl ExecutionRequest {
    /// The texts of the fields after the message id.
    pub open spec fn field_texts(&self) -> Seq<Seq<char>> {
        seq![int_text(3)] + seq![int_text(self.req_id as int)] + seq![int_text(self.filter.client_id as int)] + seq![self.filter.acct_code@] + seq![self.filter.time@] + seq![self.filter.symbol@] + seq![self.filter.sec_type@] + seq![self.filter.exchange@] + seq![self.filter.side@]
    }

    fn texts(&self) -> (v: Vec<String>)
        ensures
            text_views(v@) == self.field_texts(),
    {
        let mut v: Vec<String> = Vec::new();
        push_i32_text(&mut v, 3);
        push_i32_text(&mut v, self.req_id);
        push_i32_text(&mut v, self.filter.client_id);
        push_string_text(&mut v, &self.filter.acct_code);
        push_string_text(&mut v, &self.filter.time);
        push_string_text(&mut v, &self.filter.symbol);
        push_string_text(&mut v, &self.filter.sec_type);
        push_string_text(&mut v, &self.filter.exchange);
        push_string_text(&mut v, &self.filter.side);
        assert(text_views(v@) =~= self.field_texts());
        v
    }
}

impl EncodableRequest for ExecutionRequest {
    open spec fn outgoing(&self) -> Outgoing {
        Outgoing::ReqExecutions
    }

    open spec fn encoding(&self, server_version: i32) -> Result<Seq<char>, EncodeFailure> {
        text_encoding(self.field_texts())
    }

    open spec fn protobuf_payload(&self) -> Option<Seq<u8>> {
        None
    }

    fn message(&self) -> (m: Outgoing) {
        Outgoing::ReqExecutions
    }

    fn encode_fields(&self, fields: &mut FieldSink) -> (r: Result<(), TwsApiError>) {
        let texts = self.texts();
        push_texts(fields, &texts)
    }

    fn encode_fields_for_server_version(&self, fields: &mut FieldSink, server_version: i32) -> (r: Result<(), TwsApiError>) {
        self.encode_fields(fields)
    }

    fn encode_protobuf(&self) -> (r: Result<Option<Vec<u8>>, TwsApiError>) {
        Ok(None)
    }
}

} // verus!

verus! {

// ---------------------------------------------------------------------------------------------
// Laws of request encoding
// ---------------------------------------------------------------------------------------------

proof fn lemma_join_push(fs: Seq<Seq<u8>>, f: Seq<u8>)
    ensures
        join_fields(fs.push(f)) == join_fields(fs) + f + seq![0u8],
    decreases fs.len(),
{
    if fs.len() == 0 {
        assert(fs.push(f).drop_first() =~= Seq::<Seq<u8>>::empty());
        assert(fs.push(f)[0] == f);
        assert(join_fields(Seq::<Seq<u8>>::empty()) =~= Seq::<u8>::empty());
        assert(join_fields(fs.push(f)) =~= join_fields(fs) + f + seq![0u8]);
    } else {
        lemma_join_push(fs.drop_first(), f);
        assert(fs.push(f).drop_first() =~= fs.drop_first().push(f));
        assert(fs.push(f)[0] == fs[0]);
        assert(join_fields(fs.push(f)) =~= join_fields(fs) + f + seq![0u8]);
    }
}

proof fn lemma_printable_nul_free(t: Seq<char>)
    requires
        printable_text(t),
    ensures
        nul_free(ascii_bytes(t)),
{
    assert forall|i: int| 0 <= i < ascii_bytes(t).len() implies #[trigger] ascii_bytes(t)[i] != 0u8 by {
        let c = t[i];
        assert(printable_char(c));
        let v = c as u32;
        assert(9 <= v <= 126);
        crate::comm::lemma_scalar_bytes(c);
    }
}

/// The bytes of the fields of texts that can all be fields: each text is printable, and the
/// encoded fields are the texts' bytes, each followed by a NUL.
pub proof fn lemma_encode_texts_bytes(texts: Seq<Seq<char>>)
    requires
        encode_texts(texts) is Ok,
    ensures
        forall|k: int| 0 <= k < texts.len() ==> printable_text(#[trigger] texts[k]),
        encode_utf8(encode_texts(texts)->Ok_0) == join_fields(texts.map_values(|t: Seq<char>| ascii_bytes(t))),
    decreases texts.len(),
{
    let f = |t: Seq<char>| ascii_bytes(t);
    if texts.len() == 0 {
        assert(encode_utf8(Seq::<char>::empty()) =~= Seq::<u8>::empty());
        assert(texts.map_values(f) =~= Seq::<Seq<u8>>::empty());
    } else {
        let init = texts.drop_last();
        let last = texts.last();
        lemma_encode_texts_bytes(init);
        let done = encode_texts(init)->Ok_0;
        assert(printable_text(last));
        assert forall|k: int| 0 <= k < texts.len() implies printable_text(#[trigger] texts[k]) by {
            if k < texts.len() - 1 {
                assert(texts[k] == init[k]);
            }
        }
        lemma_utf8_add(done, field(last));
        crate::comm::lemma_field_printable(last);
        assert(texts.map_values(f) =~= init.map_values(f).push(ascii_bytes(last)));
        lemma_join_push(init.map_values(f), ascii_bytes(last));
    }
}

/// What a reader gets back from the payload of a field-based request frame: with decimal ids,
/// the id's text as the first field and then the bytes of each field text; with raw ids, the
/// id's four big-endian bytes and then the same fields. The id text reads back as the id.
pub proof fn lemma_request_fields_roundtrip(msg_id: i32, texts: Seq<Seq<char>>)
    requires
        encode_texts(texts) is Ok,
    ensures
        fields_of(msg_payload(msg_id, false, encode_texts(texts)->Ok_0)) == seq![ascii_bytes(int_text(msg_id as int))]
            + texts.map_values(|t: Seq<char>| ascii_bytes(t)),
        msg_payload(msg_id, true, encode_texts(texts)->Ok_0).subrange(0, 4) == be_u32(msg_id as u32),
        fields_of(msg_payload(msg_id, true, encode_texts(texts)->Ok_0).skip(4)) == texts.map_values(
            |t: Seq<char>| ascii_bytes(t),
        ),
        crate::text::parse_int_spec(ascii_bytes(int_text(msg_id as int)), i32::MIN as int, i32::MAX as int)
            == Ok::<int, crate::text::IntErrorKind>(msg_id as int),
{
    let f = |t: Seq<char>| ascii_bytes(t);
    lemma_encode_texts_bytes(texts);
    let bytes = texts.map_values(f);
    let id_text = int_text(msg_id as int);
    crate::comm::lemma_int_text_printable(msg_id as int);
    crate::comm::lemma_field_printable(id_text);
    lemma_printable_nul_free(id_text);
    assert forall|k: int| 0 <= k < bytes.len() implies nul_free(#[trigger] bytes[k]) by {
        lemma_printable_nul_free(texts[k]);
    }
    let all = seq![ascii_bytes(id_text)] + bytes;
    assert(all.drop_first() =~= bytes);
    assert(join_fields(all) == ascii_bytes(id_text) + seq![0u8] + join_fields(bytes));
    assert(msg_payload(msg_id, false, encode_texts(texts)->Ok_0) =~= join_fields(all));
    assert forall|k: int| 0 <= k < all.len() implies nul_free(#[trigger] all[k]) by {
        if k > 0 {
            assert(all[k] == bytes[k - 1]);
        }
    }
    lemma_fields_of_join(all);
    lemma_fields_of_join(bytes);
    let raw = msg_payload(msg_id, true, encode_texts(texts)->Ok_0);
    assert(raw.subrange(0, 4) =~= be_u32(msg_id as u32));
    assert(raw.skip(4) =~= join_fields(bytes));
    crate::text::lemma_parse_int_text(msg_id as int, i32::MIN as int, i32::MAX as int);
}

} // verus!

verus! {

proof fn lemma_first_nul_at(bs: Seq<u8>, i: int, k: int)
    requires
        0 <= i <= k < bs.len(),
        bs[k] == 0u8,
        forall|j: int| i <= j < k ==> #[trigger] bs[j] != 0u8,
    ensures
        first_nul(bs, i) == k,
    decreases k - i,
{
    if i < k {
        lemma_first_nul_at(bs, i + 1, k);
    }
}

/// A field-based request payload, read back as an incoming payload, gives the message id and
/// then the bytes of each field text: from four raw bytes when the server reads raw ids, else
/// from the decimal text in front of the first NUL.
pub proof fn lemma_request_payload_reads_back(msg_id: i32, raw: bool, texts: Seq<Seq<char>>)
    requires
        encode_texts(texts) is Ok,
    ensures
        raw ==> msg_payload(msg_id, raw, encode_texts(texts)->Ok_0).len() >= 4 && be_i32(
            msg_payload(msg_id, raw, encode_texts(texts)->Ok_0).subrange(0, 4),
        ) == msg_id && fields_of(msg_payload(msg_id, raw, encode_texts(texts)->Ok_0).skip(4))
            == texts.map_values(|t: Seq<char>| ascii_bytes(t)),
        !raw ==> {
            let p = msg_payload(msg_id, raw, encode_texts(texts)->Ok_0);
            &&& first_nul(p, 0) < p.len()
            &&& parse_int_spec(p.take(first_nul(p, 0)), i32::MIN as int, i32::MAX as int) == Ok::<
                int,
                IntErrorKind,
            >(msg_id as int)
            &&& fields_of(p.skip(first_nul(p, 0) + 1)) == texts.map_values(|t: Seq<char>| ascii_bytes(t))
        },
{
    let p = msg_payload(msg_id, raw, encode_texts(texts)->Ok_0);
    lemma_request_fields_roundtrip(msg_id, texts);
    lemma_encode_texts_bytes(texts);
    let bytes = texts.map_values(|t: Seq<char>| ascii_bytes(t));
    assert forall|k: int| 0 <= k < bytes.len() implies nul_free(#[trigger] bytes[k]) by {
        lemma_printable_nul_free(texts[k]);
    }
    lemma_fields_of_join(bytes);
    if raw {
        crate::comm::lemma_be_u32_value(msg_id as u32);
        assert(p.subrange(0, 4) =~= be_u32(msg_id as u32));
        assert(((msg_id as u32) as i32) == msg_id) by (bit_vector);
        assert(p.skip(4) =~= join_fields(bytes));
    } else {
        let id_text = int_text(msg_id as int);
        crate::comm::lemma_int_text_printable(msg_id as int);
        crate::comm::lemma_field_printable(id_text);
        lemma_printable_nul_free(id_text);
        let k = ascii_bytes(id_text).len() as int;
        assert(p =~= ascii_bytes(id_text) + seq![0u8] + join_fields(bytes));
        assert forall|j: int| 0 <= j < k implies #[trigger] p[j] != 0u8 by {
            assert(p[j] == ascii_bytes(id_text)[j]);
        }
        lemma_first_nul_at(p, 0, k);
        assert(p.take(k) =~= ascii_bytes(id_text));
        assert(p.skip(k + 1) =~= join_fields(bytes));
        crate::text::lemma_parse_int_text(msg_id as int, i32::MIN as int, i32::MAX as int);
    }
}


/// Texts that can all be fields, once encoded, read back field by field as those texts: each
/// field is valid UTF-8 and decodes to its text.
pub proof fn lemma_encoded_texts_read_back(texts: Seq<Seq<char>>)
    requires
        encode_texts(texts) is Ok,
    ensures
        fields_valid_utf8(encode_utf8(encode_texts(texts)->Ok_0)),
        utf8_fields(encode_utf8(encode_texts(texts)->Ok_0)) == texts,
{
    let f = |t: Seq<char>| ascii_bytes(t);
    lemma_encode_texts_bytes(texts);
    let bytes = texts.map_values(f);
    assert forall|k: int| 0 <= k < bytes.len() implies nul_free(#[trigger] bytes[k]) by {
        lemma_printable_nul_free(texts[k]);
    }
    lemma_fields_of_join(bytes);
    let b = encode_utf8(encode_texts(texts)->Ok_0);
    assert(fields_of(b) == bytes);
    assert forall|k: int| 0 <= k < texts.len() implies valid_utf8(#[trigger] fields_of(b)[k])
        && decode_utf8(fields_of(b)[k]) == texts[k] by {
        crate::comm::lemma_printable_utf8(texts[k]);
        assert(fields_of(b)[k] == encode_utf8(texts[k]));
        encode_utf8_valid_utf8(texts[k]);
        encode_utf8_decode_utf8(texts[k]);
    }
    assert(utf8_fields(b) =~= texts);
}
} // verus!
