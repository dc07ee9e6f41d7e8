//! Encoders for the requests that carry a contract or an order: the contract field groups, order
//! conditions, order placement, and the market data, historical data, calculation, exercise and
//! scanner requests.
use vstd::prelude::*;

use crate::comm::{lemma_int_text_printable, lemma_printable_utf8};
use crate::decoder::fields::{condition_ok, condition_out, condition_size};
use crate::decoder::{
    bool_field, conjunction_field, fields_valid_utf8, i32_or_zero, int_field, text_at, utf8_fields,
};
use vstd::utf8::encode_utf8;
use crate::text::{lemma_parse_int_text, IntErrorKind};

use crate::client::ensure_server_version;
use crate::comm::str_eq;
use crate::constants::UNSET_INTEGER;
use crate::error::TwsApiError;
use crate::message::Outgoing;
use crate::num::{
    double_field, double_nullable_field, positive_double_text, unset_double_value, Double,
};
use crate::requests::{
    bool_text, encoding_outcome, lemma_encoded_texts_read_back, gated_encoding, push_bool_text, push_i32_text, push_string_text,
    push_tag_value_texts, push_texts, tag_value_texts, tag_values_to_tws_options, text_encoding,
    text_views, tws_options_text, EncodableRequest, EncodeFailure, FieldSink,
};
use crate::server_versions::{
    MAX_CLIENT_VER, MIN_SERVER_VER_ADVANCED_ORDER_REJECT, MIN_SERVER_VER_ALGO_ID,
    MIN_SERVER_VER_ALGO_ORDERS, MIN_SERVER_VER_AUTO_CANCEL_PARENT,
    MIN_SERVER_VER_AUTO_PRICE_FOR_HEDGE, MIN_SERVER_VER_BOND_ISSUERID, MIN_SERVER_VER_CASH_QTY,
    MIN_SERVER_VER_CME_TAGGING_FIELDS, MIN_SERVER_VER_CONTRACT_DATA_CHAIN,
    MIN_SERVER_VER_CUSTOMER_ACCOUNT, MIN_SERVER_VER_DECISION_MAKER,
    MIN_SERVER_VER_DELTA_NEUTRAL, MIN_SERVER_VER_DELTA_NEUTRAL_CONID,
    MIN_SERVER_VER_DELTA_NEUTRAL_OPEN_CLOSE, MIN_SERVER_VER_DURATION,
    MIN_SERVER_VER_D_PEG_ORDERS, MIN_SERVER_VER_EXT_OPERATOR, MIN_SERVER_VER_HEDGE_ORDERS,
    MIN_SERVER_VER_HISTORICAL_TICKS, MIN_SERVER_VER_IMBALANCE_ONLY,
    MIN_SERVER_VER_INCLUDE_OVERNIGHT, MIN_SERVER_VER_LINKING, MIN_SERVER_VER_MANUAL_ORDER_TIME,
    MIN_SERVER_VER_MANUAL_ORDER_TIME_EXERCISE_OPTIONS, MIN_SERVER_VER_MIFID_EXECUTION,
    MIN_SERVER_VER_MODELS_SUPPORT, MIN_SERVER_VER_NOT_HELD,
    MIN_SERVER_VER_OPT_OUT_SMART_ROUTING, MIN_SERVER_VER_ORDER_COMBO_LEGS_PRICE,
    MIN_SERVER_VER_ORDER_CONTAINER, MIN_SERVER_VER_ORDER_SOLICITED,
    MIN_SERVER_VER_PEGGED_TO_BENCHMARK, MIN_SERVER_VER_PLACE_ORDER_CONID,
    MIN_SERVER_VER_POST_TO_ATS, MIN_SERVER_VER_PRICE_MGMT_ALGO, MIN_SERVER_VER_PRIMARYEXCH,
    MIN_SERVER_VER_PROFESSIONAL_CUSTOMER, MIN_SERVER_VER_PTA_ORDERS,
    MIN_SERVER_VER_RANDOMIZE_SIZE_AND_PRICE, MIN_SERVER_VER_REQ_CALC_IMPLIED_VOLAT,
    MIN_SERVER_VER_REQ_MKT_DATA_CONID, MIN_SERVER_VER_REQ_SMART_COMPONENTS,
    MIN_SERVER_VER_SCALE_ORDERS2, MIN_SERVER_VER_SCALE_ORDERS3, MIN_SERVER_VER_SCALE_TABLE,
    MIN_SERVER_VER_SEC_ID_TYPE, MIN_SERVER_VER_SMART_COMBO_ROUTING_PARAMS,
    MIN_SERVER_VER_SOFT_DOLLAR_TIER, MIN_SERVER_VER_SSHORTX_OLD,
    MIN_SERVER_VER_SYNT_REALTIME_BARS, MIN_SERVER_VER_TICK_BY_TICK,
    MIN_SERVER_VER_TICK_BY_TICK_IGNORE_SIZE, MIN_SERVER_VER_TRADING_CLASS,
    MIN_SERVER_VER_TRAILING_PERCENT,
};
use crate::text::{i32_text, int_text, u64_text};
use crate::types::{
    ComboLeg, Contract, DeltaNeutralContract, Order, OrderComboLeg, OrderCondition,
    ScannerSubscription, TagValue, TickerId,
};

verus! {

// ---------------------------------------------------------------------------------------------
// Single field texts
// ---------------------------------------------------------------------------------------------

/// The text of an integer field where the unset value goes out as an empty field.
pub open spec fn empty_int_text(n: i32) -> Seq<char> {
    if n == UNSET_INTEGER {
        Seq::<char>::empty()
    } else {
        int_text(n as int)
    }
}

/// The text of a condition connector: `a` joins with AND, `o` with OR.
pub open spec fn connector_text(conjunction: bool) -> Seq<char> {
    if conjunction {
        "a"@
    } else {
        "o"@
    }
}

fn push_empty_i32_text(v: &mut Vec<String>, n: i32)
    ensures
        text_views(final(v)@) == text_views(old(v)@).push(empty_int_text(n)),
{
    if n == UNSET_INTEGER {
        v.push(String::new());
    } else {
        v.push(i32_text(n));
    }
    assert(text_views(final(v)@) =~= text_views(old(v)@).push(empty_int_text(n)));
}

fn push_str_text(v: &mut Vec<String>, s: &str)
    ensures
        text_views(final(v)@) == text_views(old(v)@).push(s@),
{
    v.push(s.to_owned());
    assert(text_views(final(v)@) =~= text_views(old(v)@).push(s@));
}

fn push_usize_text(v: &mut Vec<String>, n: usize)
    ensures
        text_views(final(v)@) == text_views(old(v)@).push(int_text(n as int)),
{
    v.push(u64_text(n as u64));
    assert(text_views(final(v)@) =~= text_views(old(v)@).push(int_text(n as int)));
}

fn push_double_text(v: &mut Vec<String>, d: &Double)
    ensures
        text_views(final(v)@) == text_views(old(v)@).push(double_field(d.text@)),
{
    v.push(d.field_text());
    assert(text_views(final(v)@) =~= text_views(old(v)@).push(double_field(d.text@)));
}

fn push_nullable_double_text(v: &mut Vec<String>, d: &Double)
    ensures
        text_views(final(v)@) == text_views(old(v)@).push(double_nullable_field(d.text@)),
{
    v.push(d.nullable_field_text());
    assert(text_views(final(v)@) =~= text_views(old(v)@).push(double_nullable_field(d.text@)));
}

fn push_options_text(v: &mut Vec<String>, tags: &Vec<TagValue>)
    ensures
        text_views(final(v)@) == text_views(old(v)@).push(tws_options_text(tags@)),
{
    v.push(tag_values_to_tws_options(tags));
    assert(text_views(final(v)@) =~= text_views(old(v)@).push(tws_options_text(tags@)));
}

fn push_delta_neutral(v: &mut Vec<String>, d: &Option<DeltaNeutralContract>)
    ensures
        text_views(final(v)@) == text_views(old(v)@) + match *d {
            Some(d) => seq![bool_text(true), int_text(d.con_id as int), double_field(d.delta.text@), double_field(d.price.text@)],
            None => seq![bool_text(false)],
        },
{
    let ghost start = text_views(v@);
    match d {
        Some(d) => {
            push_bool_text(v, true);
            push_i32_text(v, d.con_id);
            push_double_text(v, &d.delta);
            push_double_text(v, &d.price);
        },
        None => {
            push_bool_text(v, false);
        },
    }
    assert(text_views(v@) =~= start + match *d {
        Some(d) => seq![bool_text(true), int_text(d.con_id as int), double_field(d.delta.text@), double_field(d.price.text@)],
        None => seq![bool_text(false)],
    });
}

/// The exchange field of a contract details request to a server that has no primary-exchange
/// field: `exchange:primary` for `BEST` and `SMART` routing with a primary exchange, the
/// exchange alone otherwise.
pub open spec fn linked_exchange_text(c: Contract) -> Seq<char> {
    if !(c.primary_exchange@.len() == 0) && (c.exchange@ == "BEST"@ || c.exchange@ == "SMART"@) {
        c.exchange@ + ":"@ + c.primary_exchange@
    } else {
        c.exchange@
    }
}

fn push_linked_exchange_text(v: &mut Vec<String>, c: &Contract)
    ensures
        text_views(final(v)@) == text_views(old(v)@).push(linked_exchange_text(*c)),
{
    proof {
        reveal_strlit("BEST");
        reveal_strlit("SMART");
        reveal_strlit(":");
    }
    let routed = str_eq(c.exchange.as_str(), "BEST") || str_eq(c.exchange.as_str(), "SMART");
    if !c.primary_exchange.as_str().is_empty() && routed {
        let mut s = c.exchange.clone();
        crate::text::string_push_str(&mut s, ":");
        crate::text::string_push_str(&mut s, c.primary_exchange.as_str());
        v.push(s);
    } else {
        v.push(c.exchange.clone());
    }
    assert(text_views(final(v)@) =~= text_views(old(v)@).push(linked_exchange_text(*c)));
}

// ---------------------------------------------------------------------------------------------
// Lists
// ---------------------------------------------------------------------------------------------

/// The con id, ratio, action and exchange of each combo leg, as market and historical data
/// requests send them.
pub open spec fn combo_leg_brief_texts(legs: Seq<ComboLeg>) -> Seq<Seq<char>>
    decreases legs.len(),
{
    if legs.len() == 0 {
        Seq::<Seq<char>>::empty()
    } else {
        let l = legs.last();
        combo_leg_brief_texts(legs.drop_last()) + seq![int_text(l.con_id as int), int_text(l.ratio as int), l.action@, l.exchange@]
    }
}

fn push_combo_leg_brief_texts(v: &mut Vec<String>, legs: &Vec<ComboLeg>)
    ensures
        text_views(final(v)@) == text_views(old(v)@) + combo_leg_brief_texts(legs@),
{
    let ghost start = text_views(v@);
    let mut i: usize = 0;
    assert(legs@.take(0) =~= Seq::<ComboLeg>::empty());
    assert(text_views(v@) =~= start + combo_leg_brief_texts(legs@.take(0)));
    while i < legs.len()
        invariant
            i <= legs@.len(),
            text_views(v@) == start + combo_leg_brief_texts(legs@.take(i as int)),
        decreases legs@.len() - i,
    {
        let ghost before = text_views(v@);
        let leg = &legs[i];
        push_i32_text(v, leg.con_id);
        push_i32_text(v, leg.ratio);
        push_string_text(v, &leg.action);
        push_string_text(v, &leg.exchange);
        proof {
            assert(legs@.take(i + 1).drop_last() =~= legs@.take(i as int));
            assert(legs@.take(i + 1).last() == legs@[i as int]);
        }
        i = i + 1;
        assert(text_views(v@) =~= start + combo_leg_brief_texts(legs@.take(i as int)));
    }
    assert(legs@.take(legs@.len() as int) =~= legs@);
}

/// The fields of one combo leg of a placed order.
pub open spec fn combo_leg_order_leg_texts(l: ComboLeg, server_version: i32) -> Seq<Seq<char>> {
    seq![
        int_text(l.con_id as int),
        int_text(l.ratio as int),
        l.action@,
        l.exchange@,
        int_text(l.open_close.wire_value() as int),
        int_text(l.short_sale_slot as int),
        l.designated_location@,
    ] + if server_version >= MIN_SERVER_VER_SSHORTX_OLD {
        seq![int_text(l.exempt_code as int)]
    } else {
        Seq::<Seq<char>>::empty()
    }
}

/// The fields of the combo legs of a placed order, leg after leg.
pub open spec fn combo_leg_order_texts(legs: Seq<ComboLeg>, server_version: i32) -> Seq<Seq<char>>
    decreases legs.len(),
{
    if legs.len() == 0 {
        Seq::<Seq<char>>::empty()
    } else {
        combo_leg_order_texts(legs.drop_last(), server_version) + combo_leg_order_leg_texts(legs.last(), server_version)
    }
}

fn push_combo_leg_order_texts(v: &mut Vec<String>, legs: &Vec<ComboLeg>, server_version: i32)
    ensures
        text_views(final(v)@) == text_views(old(v)@) + combo_leg_order_texts(legs@, server_version),
{
    let ghost start = text_views(v@);
    let mut i: usize = 0;
    assert(legs@.take(0) =~= Seq::<ComboLeg>::empty());
    assert(text_views(v@) =~= start + combo_leg_order_texts(legs@.take(0), server_version));
    while i < legs.len()
        invariant
            i <= legs@.len(),
            text_views(v@) == start + combo_leg_order_texts(legs@.take(i as int), server_version),
        decreases legs@.len() - i,
    {
        let ghost before = text_views(v@);
        let leg = &legs[i];
        push_i32_text(v, leg.con_id);
        push_i32_text(v, leg.ratio);
        push_string_text(v, &leg.action);
        push_string_text(v, &leg.exchange);
        push_i32_text(v, leg.open_close.value());
        push_i32_text(v, leg.short_sale_slot);
        push_string_text(v, &leg.designated_location);
        if server_version >= MIN_SERVER_VER_SSHORTX_OLD {
            push_i32_text(v, leg.exempt_code);
        }
        proof {
            assert(text_views(v@) =~= before + combo_leg_order_leg_texts(legs@[i as int], server_version));
            assert(legs@.take(i + 1).drop_last() =~= legs@.take(i as int));
            assert(legs@.take(i + 1).last() == legs@[i as int]);
        }
        i = i + 1;
        assert(text_views(v@) =~= start + combo_leg_order_texts(legs@.take(i as int), server_version));
    }
    assert(legs@.take(legs@.len() as int) =~= legs@);
}

/// The price of each order combo leg, an unset price as an empty field.
pub open spec fn order_combo_leg_texts(legs: Seq<OrderComboLeg>) -> Seq<Seq<char>>
    decreases legs.len(),
{
    if legs.len() == 0 {
        Seq::<Seq<char>>::empty()
    } else {
        order_combo_leg_texts(legs.drop_last()) + seq![double_nullable_field(legs.last().price.text@)]
    }
}

fn push_order_combo_leg_texts(v: &mut Vec<String>, legs: &Vec<OrderComboLeg>)
    ensures
        text_views(final(v)@) == text_views(old(v)@) + order_combo_leg_texts(legs@),
{
    let ghost start = text_views(v@);
    let mut i: usize = 0;
    assert(legs@.take(0) =~= Seq::<OrderComboLeg>::empty());
    assert(text_views(v@) =~= start + order_combo_leg_texts(legs@.take(0)));
    while i < legs.len()
        invariant
            i <= legs@.len(),
            text_views(v@) == start + order_combo_leg_texts(legs@.take(i as int)),
        decreases legs@.len() - i,
    {
        push_nullable_double_text(v, &legs[i].price);
        proof {
            assert(legs@.take(i + 1).drop_last() =~= legs@.take(i as int));
            assert(legs@.take(i + 1).last() == legs@[i as int]);
        }
        i = i + 1;
        assert(text_views(v@) =~= start + order_combo_leg_texts(legs@.take(i as int)));
    }
    assert(legs@.take(legs@.len() as int) =~= legs@);
}

// ---------------------------------------------------------------------------------------------
// Order conditions
// ---------------------------------------------------------------------------------------------

/// The fields of an order condition: its type code, the connector, then the condition's own
/// fields.
pub open spec fn condition_texts(c: OrderCondition) -> Seq<Seq<char>> {
    match c {
        OrderCondition::Price { is_conjunction_connection, trigger_method, con_id, exchange, is_more, price } => seq![
            int_text(1),
            connector_text(is_conjunction_connection),
            bool_text(is_more),
            double_field(price.text@),
            int_text(con_id as int),
            exchange@,
            int_text(trigger_method as int),
        ],
        OrderCondition::Time { is_conjunction_connection, is_more, time } => seq![
            int_text(3),
            connector_text(is_conjunction_connection),
            bool_text(is_more),
            time@,
        ],
        OrderCondition::Margin { is_conjunction_connection, is_more, percent } => seq![
            int_text(4),
            connector_text(is_conjunction_connection),
            bool_text(is_more),
            double_field(percent.text@),
        ],
        OrderCondition::Execution { is_conjunction_connection, sec_type, exchange, symbol } => seq![
            int_text(5),
            connector_text(is_conjunction_connection),
            sec_type@,
            exchange@,
            symbol@,
        ],
        OrderCondition::Volume { is_conjunction_connection, con_id, exchange, is_more, volume } => seq![
            int_text(6),
            connector_text(is_conjunction_connection),
            bool_text(is_more),
            int_text(volume as int),
            int_text(con_id as int),
            exchange@,
        ],
        OrderCondition::PercentChange { is_conjunction_connection, con_id, exchange, is_more, change_percent } => seq![
            int_text(7),
            connector_text(is_conjunction_connection),
            bool_text(is_more),
            double_field(change_percent.text@),
            int_text(con_id as int),
            exchange@,
        ],
    }
}

fn push_connector_text(v: &mut Vec<String>, conjunction: bool)
    ensures
        text_views(final(v)@) == text_views(old(v)@).push(connector_text(conjunction)),
{
    proof {
        reveal_strlit("a");
        reveal_strlit("o");
    }
    if conjunction {
        push_str_text(v, "a");
    } else {
        push_str_text(v, "o");
    }
}

fn push_condition_texts(v: &mut Vec<String>, condition: &OrderCondition)
    ensures
        text_views(final(v)@) == text_views(old(v)@) + condition_texts(*condition),
{
    let ghost start = text_views(v@);
    match condition {
        OrderCondition::Price { is_conjunction_connection, trigger_method, con_id, exchange, is_more, price } => {
            push_i32_text(v, 1);
            push_connector_text(v, *is_conjunction_connection);
            push_bool_text(v, *is_more);
            push_double_text(v, price);
            push_i32_text(v, *con_id);
            push_string_text(v, exchange);
            push_i32_text(v, *trigger_method);
        },
        OrderCondition::Time { is_conjunction_connection, is_more, time } => {
            push_i32_text(v, 3);
            push_connector_text(v, *is_conjunction_connection);
            push_bool_text(v, *is_more);
            push_string_text(v, time);
        },
        OrderCondition::Margin { is_conjunction_connection, is_more, percent } => {
            push_i32_text(v, 4);
            push_connector_text(v, *is_conjunction_connection);
            push_bool_text(v, *is_more);
            push_double_text(v, percent);
        },
        OrderCondition::Execution { is_conjunction_connection, sec_type, exchange, symbol } => {
            push_i32_text(v, 5);
            push_connector_text(v, *is_conjunction_connection);
            push_string_text(v, sec_type);
            push_string_text(v, exchange);
            push_string_text(v, symbol);
        },
        OrderCondition::Volume { is_conjunction_connection, con_id, exchange, is_more, volume } => {
            push_i32_text(v, 6);
            push_connector_text(v, *is_conjunction_connection);
            push_bool_text(v, *is_more);
            push_i32_text(v, *volume);
            push_i32_text(v, *con_id);
            push_string_text(v, exchange);
        },
        OrderCondition::PercentChange { is_conjunction_connection, con_id, exchange, is_more, change_percent } => {
            push_i32_text(v, 7);
            push_connector_text(v, *is_conjunction_connection);
            push_bool_text(v, *is_more);
            push_double_text(v, change_percent);
            push_i32_text(v, *con_id);
            push_string_text(v, exchange);
        },
    }
    assert(text_views(v@) =~= start + condition_texts(*condition));
}

/// The conditions whose fields read back as themselves: time and execution conditions, and
/// margin conditions whose percent is not positive infinity (which goes out as `Infinity`).
/// The price, volume and percent-change conditions are read in another field order than they
/// are written in, so theirs do not.
pub open spec fn condition_reads_back(c: OrderCondition) -> bool {
    match c {
        OrderCondition::Time { .. } => true,
        OrderCondition::Margin { percent, .. } => percent.text@ != "inf"@,
        OrderCondition::Execution { .. } => true,
        _ => false,
    }
}

/// True when two conditions are of the same kind and their fields hold the same values.
pub open spec fn same_condition(a: OrderCondition, b: OrderCondition) -> bool {
    match (a, b) {
        (
            OrderCondition::Time { is_conjunction_connection: c1, is_more: m1, time: t1 },
            OrderCondition::Time { is_conjunction_connection: c2, is_more: m2, time: t2 },
        ) => c1 == c2 && m1 == m2 && t1@ == t2@,
        (
            OrderCondition::Margin { is_conjunction_connection: c1, is_more: m1, percent: p1 },
            OrderCondition::Margin { is_conjunction_connection: c2, is_more: m2, percent: p2 },
        ) => c1 == c2 && m1 == m2 && p1.text@ == p2.text@,
        (
            OrderCondition::Execution { is_conjunction_connection: c1, sec_type: k1, exchange: e1, symbol: y1 },
            OrderCondition::Execution { is_conjunction_connection: c2, sec_type: k2, exchange: e2, symbol: y2 },
        ) => c1 == c2 && k1@ == k2@ && e1@ == e2@ && y1@ == y2@,
        (
            OrderCondition::Price {
                is_conjunction_connection: c1,
                trigger_method: g1,
                con_id: i1,
                exchange: e1,
                is_more: m1,
                price: p1,
            },
            OrderCondition::Price {
                is_conjunction_connection: c2,
                trigger_method: g2,
                con_id: i2,
                exchange: e2,
                is_more: m2,
                price: p2,
            },
        ) => c1 == c2 && g1 == g2 && i1 == i2 && e1@ == e2@ && m1 == m2 && p1.text@ == p2.text@,
        (
            OrderCondition::Volume { is_conjunction_connection: c1, con_id: i1, exchange: e1, is_more: m1, volume: v1 },
            OrderCondition::Volume { is_conjunction_connection: c2, con_id: i2, exchange: e2, is_more: m2, volume: v2 },
        ) => c1 == c2 && i1 == i2 && e1@ == e2@ && m1 == m2 && v1 == v2,
        (
            OrderCondition::PercentChange {
                is_conjunction_connection: c1,
                con_id: i1,
                exchange: e1,
                is_more: m1,
                change_percent: p1,
            },
            OrderCondition::PercentChange {
                is_conjunction_connection: c2,
                con_id: i2,
                exchange: e2,
                is_more: m2,
                change_percent: p2,
            },
        ) => c1 == c2 && i1 == i2 && e1@ == e2@ && m1 == m2 && p1.text@ == p2.text@,
        _ => false,
    }
}

proof fn lemma_small_int_text(n: int)
    requires
        0 <= n < 10,
    ensures
        int_text(n) == seq![(n + 48) as char],
        int_field(int_text(n), i32::MIN as int, i32::MAX as int) == Ok::<int, IntErrorKind>(n),
{
    lemma_int_text_printable(n);
    lemma_printable_utf8(int_text(n));
    lemma_parse_int_text(n, i32::MIN as int, i32::MAX as int);
}

proof fn lemma_connector_reads_back(b: bool)
    ensures
        conjunction_field(connector_text(b)) == b,
{
    reveal_strlit("a");
    reveal_strlit("A");
    reveal_strlit("o");
    reveal_strlit("1");
    reveal_strlit("true");
    reveal_strlit("True");
    if !b {
        assert("o"@ != "a"@ && "o"@ != "A"@ && "o"@ != "1"@) by {
            assert("o"@[0] != "a"@[0] && "o"@[0] != "A"@[0] && "o"@[0] != "1"@[0]);
        }
        assert("o"@.len() != "true"@.len() && "o"@.len() != "True"@.len());
    }
}

proof fn lemma_bool_reads_back(b: bool)
    ensures
        bool_field(bool_text(b)) == b,
{
    reveal_strlit("1");
    reveal_strlit("true");
    reveal_strlit("True");
    lemma_small_int_text(0);
    lemma_small_int_text(1);
    if b {
        assert(bool_text(b) =~= "1"@);
    } else {
        assert(bool_text(b)[0] != "1"@[0]);
        assert(bool_text(b).len() != "true"@.len() && bool_text(b).len() != "True"@.len());
    }
}

/// Reading back the fields of an order condition gives the condition back, for the conditions
/// whose fields are read in the order they are written (`condition_reads_back`): wherever those
/// fields stand in a list of field texts, the condition there can be read, it takes exactly the
/// fields written, and the condition read is the one written.
pub proof fn lemma_condition_round_trip(
    before: Seq<Seq<char>>,
    c: OrderCondition,
    after: Seq<Seq<char>>,
    d: OrderCondition,
)
    requires
        condition_reads_back(c),
        condition_out(before + condition_texts(c) + after, before.len() as int, d),
    ensures
        condition_ok(before + condition_texts(c) + after, before.len() as int),
        condition_size(i32_or_zero(before + condition_texts(c) + after, before.len() as int))
            == condition_texts(c).len(),
        same_condition(c, d),
{
    let t = before + condition_texts(c) + after;
    let p = before.len() as int;
    let ct = condition_texts(c);
    assert forall|k: int| 0 <= k < ct.len() implies text_at(t, p + k) == #[trigger] ct[k] by {
        assert(t[p + k] == ct[k]);
    }
    match c {
        OrderCondition::Time { is_conjunction_connection, is_more, .. } => {
            lemma_connector_reads_back(is_conjunction_connection);
            lemma_bool_reads_back(is_more);
        },
        OrderCondition::Margin { is_conjunction_connection, is_more, .. } => {
            lemma_connector_reads_back(is_conjunction_connection);
            lemma_bool_reads_back(is_more);
        },
        OrderCondition::Execution { is_conjunction_connection, .. } => {
            lemma_connector_reads_back(is_conjunction_connection);
        },
        _ => {},
    }
    match c {
        OrderCondition::Time { .. } => {
            lemma_small_int_text(3);
            assert(text_at(t, p) == ct[0]);
            assert(text_at(t, p + 1) == ct[1]);
            assert(text_at(t, p + 2) == ct[2]);
            assert(text_at(t, p + 3) == ct[3]);
        },
        OrderCondition::Margin { .. } => {
            lemma_small_int_text(4);
            assert(text_at(t, p) == ct[0]);
            assert(text_at(t, p + 1) == ct[1]);
            assert(text_at(t, p + 2) == ct[2]);
            assert(text_at(t, p + 3) == ct[3]);
        },
        OrderCondition::Execution { .. } => {
            lemma_small_int_text(5);
            assert(text_at(t, p) == ct[0]);
            assert(text_at(t, p + 1) == ct[1]);
            assert(text_at(t, p + 2) == ct[2]);
            assert(text_at(t, p + 3) == ct[3]);
            assert(text_at(t, p + 4) == ct[4]);
        },
        _ => {},
    }
}

/// What `encode_order_condition` writes into an empty sink reads back as the condition, for the
/// conditions whose fields read back as themselves: the bytes split into valid UTF-8 fields
/// that are the condition's field texts, `decode_order_condition` can read the condition from
/// the first of them, it takes all of them, and the condition read is the one written.
pub proof fn lemma_condition_encoding_reads_back(c: OrderCondition, d: OrderCondition)
    requires
        condition_reads_back(c),
        text_encoding(condition_texts(c)) is Ok,
        condition_out(utf8_fields(encode_utf8(text_encoding(condition_texts(c))->Ok_0)), 0, d),
    ensures
        fields_valid_utf8(encode_utf8(text_encoding(condition_texts(c))->Ok_0)),
        utf8_fields(encode_utf8(text_encoding(condition_texts(c))->Ok_0)) == condition_texts(c),
        condition_ok(utf8_fields(encode_utf8(text_encoding(condition_texts(c))->Ok_0)), 0),
        condition_size(i32_or_zero(utf8_fields(encode_utf8(text_encoding(condition_texts(c))->Ok_0)), 0))
            == condition_texts(c).len(),
        same_condition(c, d),
{
    let ct = condition_texts(c);
    lemma_encoded_texts_read_back(ct);
    let e = Seq::<Seq<char>>::empty();
    assert(e + ct + e =~= ct);
    lemma_condition_round_trip(e, c, e, d);
}

/// Appends the fields of an order condition: its type code, the connector (`a` for AND, `o`
/// for OR), then the condition's own fields.
pub fn encode_order_condition(fields: &mut FieldSink, condition: &OrderCondition) -> (r: Result<(), TwsApiError>)
    ensures
        encoding_outcome(text_encoding(condition_texts(*condition)), old(fields)@, final(fields)@, r),
{
    let mut texts: Vec<String> = Vec::new();
    push_condition_texts(&mut texts, condition);
    assert(text_views(texts@) =~= condition_texts(*condition));
    push_texts(fields, &texts)
}

/// The fields of a list of order conditions, condition after condition.
pub open spec fn conditions_texts(cs: Seq<OrderCondition>) -> Seq<Seq<char>>
    decreases cs.len(),
{
    if cs.len() == 0 {
        Seq::<Seq<char>>::empty()
    } else {
        conditions_texts(cs.drop_last()) + condition_texts(cs.last())
    }
}

fn push_conditions_texts(v: &mut Vec<String>, cs: &Vec<OrderCondition>)
    ensures
        text_views(final(v)@) == text_views(old(v)@) + conditions_texts(cs@),
{
    let ghost start = text_views(v@);
    let mut i: usize = 0;
    assert(cs@.take(0) =~= Seq::<OrderCondition>::empty());
    assert(text_views(v@) =~= start + conditions_texts(cs@.take(0)));
    while i < cs.len()
        invariant
            i <= cs@.len(),
            text_views(v@) == start + conditions_texts(cs@.take(i as int)),
        decreases cs@.len() - i,
    {
        push_condition_texts(v, &cs[i]);
        proof {
            assert(cs@.take(i + 1).drop_last() =~= cs@.take(i as int));
            assert(cs@.take(i + 1).last() == cs@[i as int]);
        }
        i = i + 1;
        assert(text_views(v@) =~= start + conditions_texts(cs@.take(i as int)));
    }
    assert(cs@.take(cs@.len() as int) =~= cs@);
}

// ---------------------------------------------------------------------------------------------
// Contract field groups and order sections
// ---------------------------------------------------------------------------------------------

/// `acc` followed by the contract fields requests without a server-version switch send.
pub open spec fn contract_core_texts(acc: Seq<Seq<char>>, c: Contract) -> Seq<Seq<char>> {
    acc.push(int_text((c.con_id) as int)).push(c.symbol@).push(c.sec_type@).push(c.last_trade_date_or_contract_month@).push(double_nullable_field(c.strike.text@)).push(c.right@).push(c.multiplier@).push(c.exchange@).push(c.primary_exchange@).push(c.currency@).push(c.local_symbol@).push(c.trading_class@).push(bool_text(c.include_expired)).push(c.sec_id_type@).push(c.sec_id@)
}

fn push_contract_core_texts(v: &mut Vec<String>, c: &Contract)
    ensures
        text_views(final(v)@) == contract_core_texts(text_views(old(v)@), *c),
{
        push_i32_text(v, c.con_id);
        push_string_text(v, &c.symbol);
        push_string_text(v, &c.sec_type);
        push_string_text(v, &c.last_trade_date_or_contract_month);
        push_nullable_double_text(v, &c.strike);
        push_string_text(v, &c.right);
        push_string_text(v, &c.multiplier);
        push_string_text(v, &c.exchange);
        push_string_text(v, &c.primary_exchange);
        push_string_text(v, &c.currency);
        push_string_text(v, &c.local_symbol);
        push_string_text(v, &c.trading_class);
        push_bool_text(v, c.include_expired);
        push_string_text(v, &c.sec_id_type);
        push_string_text(v, &c.sec_id);
}

/// `acc` followed by the contract fields of a market data request.
pub open spec fn contract_market_data_texts(acc: Seq<Seq<char>>, c: Contract, server_version: i32) -> Seq<Seq<char>> {
    {
        let texts = acc.push(c.symbol@).push(c.sec_type@).push(c.last_trade_date_or_contract_month@).push(double_nullable_field(c.strike.text@)).push(c.right@).push(c.multiplier@).push(c.exchange@).push(c.primary_exchange@).push(c.currency@).push(c.local_symbol@);
        let texts = if server_version >= MIN_SERVER_VER_TRADING_CLASS { texts.push(c.trading_class@) } else { texts };
        texts
    }
}

fn push_contract_market_data_texts(v: &mut Vec<String>, c: &Contract, server_version: i32)
    ensures
        text_views(final(v)@) == contract_market_data_texts(text_views(old(v)@), *c, server_version),
{
        push_string_text(v, &c.symbol);
        push_string_text(v, &c.sec_type);
        push_string_text(v, &c.last_trade_date_or_contract_month);
        push_nullable_double_text(v, &c.strike);
        push_string_text(v, &c.right);
        push_string_text(v, &c.multiplier);
        push_string_text(v, &c.exchange);
        push_string_text(v, &c.primary_exchange);
        push_string_text(v, &c.currency);
        push_string_text(v, &c.local_symbol);
        if server_version >= MIN_SERVER_VER_TRADING_CLASS {
            push_string_text(v, &c.trading_class);
        }
}

/// `acc` followed by the contract fields of a historical data request.
pub open spec fn contract_historical_data_texts(acc: Seq<Seq<char>>, c: Contract, server_version: i32) -> Seq<Seq<char>> {
    {
        let texts = acc.push(c.symbol@).push(c.sec_type@).push(c.last_trade_date_or_contract_month@).push(double_nullable_field(c.strike.text@)).push(c.right@).push(c.multiplier@).push(c.exchange@).push(c.primary_exchange@).push(c.currency@).push(c.local_symbol@);
        let texts = if server_version >= MIN_SERVER_VER_TRADING_CLASS { texts.push(c.trading_class@) } else { texts };
        texts.push(bool_text(c.include_expired))
    }
}

fn push_contract_historical_data_texts(v: &mut Vec<String>, c: &Contract, server_version: i32)
    ensures
        text_views(final(v)@) == contract_historical_data_texts(text_views(old(v)@), *c, server_version),
{
        push_string_text(v, &c.symbol);
        push_string_text(v, &c.sec_type);
        push_string_text(v, &c.last_trade_date_or_contract_month);
        push_nullable_double_text(v, &c.strike);
        push_string_text(v, &c.right);
        push_string_text(v, &c.multiplier);
        push_string_text(v, &c.exchange);
        push_string_text(v, &c.primary_exchange);
        push_string_text(v, &c.currency);
        push_string_text(v, &c.local_symbol);
        if server_version >= MIN_SERVER_VER_TRADING_CLASS {
            push_string_text(v, &c.trading_class);
        }
        push_bool_text(v, c.include_expired);
}

/// `acc` followed by the contract fields of an option calculation request.
pub open spec fn contract_calculation_texts(acc: Seq<Seq<char>>, c: Contract, server_version: i32) -> Seq<Seq<char>> {
    {
        let texts = acc.push(int_text((c.con_id) as int)).push(c.symbol@).push(c.sec_type@).push(c.last_trade_date_or_contract_month@).push(double_nullable_field(c.strike.text@)).push(c.right@).push(c.multiplier@).push(c.exchange@).push(c.primary_exchange@).push(c.currency@).push(c.local_symbol@);
        let texts = if server_version >= MIN_SERVER_VER_TRADING_CLASS { texts.push(c.trading_class@) } else { texts };
        texts
    }
}

fn push_contract_calculation_texts(v: &mut Vec<String>, c: &Contract, server_version: i32)
    ensures
        text_views(final(v)@) == contract_calculation_texts(text_views(old(v)@), *c, server_version),
{
        push_i32_text(v, c.con_id);
        push_string_text(v, &c.symbol);
        push_string_text(v, &c.sec_type);
        push_string_text(v, &c.last_trade_date_or_contract_month);
        push_nullable_double_text(v, &c.strike);
        push_string_text(v, &c.right);
        push_string_text(v, &c.multiplier);
        push_string_text(v, &c.exchange);
        push_string_text(v, &c.primary_exchange);
        push_string_text(v, &c.currency);
        push_string_text(v, &c.local_symbol);
        if server_version >= MIN_SERVER_VER_TRADING_CLASS {
            push_string_text(v, &c.trading_class);
        }
}

/// `acc` followed by the delta-neutral part of a contract: a flag, then the delta-neutral contract when there is one.
pub open spec fn delta_neutral_texts(acc: Seq<Seq<char>>, c: Contract) -> Seq<Seq<char>> {
    (acc + (match c.delta_neutral_contract { Some(d) => seq![bool_text(true), int_text(d.con_id as int), double_field(d.delta.text@), double_field(d.price.text@)], None => seq![bool_text(false)] }))
}

fn push_delta_neutral_texts(v: &mut Vec<String>, c: &Contract)
    ensures
        text_views(final(v)@) == delta_neutral_texts(text_views(old(v)@), *c),
{
        push_delta_neutral(v, &c.delta_neutral_contract);
}

/// `acc` followed by the order id and contract fields in front of a placed order.
pub open spec fn place_order_head_texts(acc: Seq<Seq<char>>, server_version: i32, order_id: i32, c: Contract) -> Seq<Seq<char>> {
    {
        let texts = acc;
        let texts = if server_version < MIN_SERVER_VER_ORDER_CONTAINER { texts.push(int_text(45)) } else { texts };
        let texts = texts.push(int_text((order_id) as int));
        let texts = if server_version >= MIN_SERVER_VER_PLACE_ORDER_CONID { texts.push(int_text((c.con_id) as int)) } else { texts };
        let texts = texts.push(c.symbol@).push(c.sec_type@).push(c.last_trade_date_or_contract_month@).push(double_nullable_field(c.strike.text@)).push(c.right@).push(c.multiplier@).push(c.exchange@).push(c.primary_exchange@).push(c.currency@).push(c.local_symbol@);
        let texts = if server_version >= MIN_SERVER_VER_TRADING_CLASS { texts.push(c.trading_class@) } else { texts };
        let texts = if server_version >= MIN_SERVER_VER_SEC_ID_TYPE { texts.push(c.sec_id_type@).push(c.sec_id@) } else { texts };
        texts
    }
}

fn push_place_order_head_texts(v: &mut Vec<String>, server_version: i32, order_id: i32, c: &Contract)
    ensures
        text_views(final(v)@) == place_order_head_texts(text_views(old(v)@), server_version, order_id, *c),
{
        if server_version < MIN_SERVER_VER_ORDER_CONTAINER {
            push_i32_text(v, 45);
        }
        push_i32_text(v, order_id);
        if server_version >= MIN_SERVER_VER_PLACE_ORDER_CONID {
            push_i32_text(v, c.con_id);
        }
        push_string_text(v, &c.symbol);
        push_string_text(v, &c.sec_type);
        push_string_text(v, &c.last_trade_date_or_contract_month);
        push_nullable_double_text(v, &c.strike);
        push_string_text(v, &c.right);
        push_string_text(v, &c.multiplier);
        push_string_text(v, &c.exchange);
        push_string_text(v, &c.primary_exchange);
        push_string_text(v, &c.currency);
        push_string_text(v, &c.local_symbol);
        if server_version >= MIN_SERVER_VER_TRADING_CLASS {
            push_string_text(v, &c.trading_class);
        }
        if server_version >= MIN_SERVER_VER_SEC_ID_TYPE {
            push_string_text(v, &c.sec_id_type);
            push_string_text(v, &c.sec_id);
        }
}

/// `acc` followed by the basic order fields of a placed order.
pub open spec fn place_order_basic_texts(acc: Seq<Seq<char>>, o: Order) -> Seq<Seq<char>> {
    (acc.push(o.action@).push(o.total_quantity.text@).push(o.order_type@).push(double_nullable_field(o.limit_price.text@)).push(double_nullable_field(o.aux_price.text@)).push(o.tif@).push(o.oca_group@).push(o.account@).push(o.open_close@) + seq![int_text(o.origin.wire_value() as int)]).push(o.order_ref@).push(bool_text(o.transmit)).push(int_text((o.parent_id) as int)).push(bool_text(o.block_order)).push(bool_text(o.sweep_to_fill)).push(int_text((o.display_size) as int)).push(int_text((o.trigger_method) as int)).push(bool_text(o.outside_rth)).push(bool_text(o.hidden))
}

fn push_place_order_basic_texts(v: &mut Vec<String>, o: &Order)
    ensures
        text_views(final(v)@) == place_order_basic_texts(text_views(old(v)@), *o),
{
        push_string_text(v, &o.action);
        push_string_text(v, &o.total_quantity.text);
        push_string_text(v, &o.order_type);
        push_nullable_double_text(v, &o.limit_price);
        push_nullable_double_text(v, &o.aux_price);
        push_string_text(v, &o.tif);
        push_string_text(v, &o.oca_group);
        push_string_text(v, &o.account);
        push_string_text(v, &o.open_close);
        push_i32_text(v, o.origin.value());
        push_string_text(v, &o.order_ref);
        push_bool_text(v, o.transmit);
        push_i32_text(v, o.parent_id);
        push_bool_text(v, o.block_order);
        push_bool_text(v, o.sweep_to_fill);
        push_i32_text(v, o.display_size);
        push_i32_text(v, o.trigger_method);
        push_bool_text(v, o.outside_rth);
        push_bool_text(v, o.hidden);
}

/// `acc` followed by the combo-leg fields of a placed order, sent for `BAG` contracts.
pub open spec fn place_order_combo_texts(acc: Seq<Seq<char>>, server_version: i32, c: Contract, o: Order) -> Seq<Seq<char>> {
    {
        let texts = acc;
        let texts = if c.sec_type@ == "BAG"@ { (texts.push(int_text(c.combo_legs@.len() as int)) + combo_leg_order_texts(c.combo_legs@, server_version)) } else { texts };
        let texts = if server_version >= MIN_SERVER_VER_ORDER_COMBO_LEGS_PRICE && c.sec_type@ == "BAG"@ { (texts.push(int_text(o.order_combo_legs@.len() as int)) + order_combo_leg_texts(o.order_combo_legs@)) } else { texts };
        let texts = if server_version >= MIN_SERVER_VER_SMART_COMBO_ROUTING_PARAMS && c.sec_type@ == "BAG"@ { (texts + tag_value_texts(o.smart_combo_routing_params@)) } else { texts };
        texts
    }
}

fn push_place_order_combo_texts(v: &mut Vec<String>, server_version: i32, c: &Contract, o: &Order)
    ensures
        text_views(final(v)@) == place_order_combo_texts(text_views(old(v)@), server_version, *c, *o),
{
        proof {
            reveal_strlit("BAG");
        }
        if str_eq(c.sec_type.as_str(), "BAG") {
            push_usize_text(v, c.combo_legs.len());
            push_combo_leg_order_texts(v, &c.combo_legs, server_version);
        }
        if server_version >= MIN_SERVER_VER_ORDER_COMBO_LEGS_PRICE && str_eq(c.sec_type.as_str(), "BAG") {
            push_usize_text(v, o.order_combo_legs.len());
            push_order_combo_leg_texts(v, &o.order_combo_legs);
        }
        if server_version >= MIN_SERVER_VER_SMART_COMBO_ROUTING_PARAMS && str_eq(c.sec_type.as_str(), "BAG") {
            push_tag_value_texts(v, &o.smart_combo_routing_params);
        }
}

/// `acc` followed by the allocation, short-sale, pricing and volatility fields of a placed order.
pub open spec fn place_order_misc_texts(acc: Seq<Seq<char>>, server_version: i32, o: Order) -> Seq<Seq<char>> {
    {
        let texts = acc.push(""@).push(double_field(o.discretionary_amount.text@)).push(o.good_after_time@).push(o.good_till_date@).push(o.fa_group@).push(o.fa_method@).push(o.fa_percentage@);
        let texts = if server_version < 177 { texts.push(""@) } else { texts };
        let texts = if server_version >= MIN_SERVER_VER_MODELS_SUPPORT { texts.push(o.model_code@) } else { texts };
        let texts = texts.push(int_text((o.short_sale_slot) as int)).push(o.designated_location@);
        let texts = if server_version >= MIN_SERVER_VER_SSHORTX_OLD { texts.push(int_text((o.exempt_code) as int)) } else { texts };
        (texts.push(int_text((o.oca_type) as int)).push(o.rule80a@).push(o.settling_firm@).push(bool_text(o.all_or_none)).push(empty_int_text(o.min_qty)).push(double_nullable_field(o.percent_offset.text@)).push(bool_text(false)).push(bool_text(false)).push(""@) + seq![int_text(o.auction_strategy.wire_value() as int)]).push(double_nullable_field(o.starting_price.text@)).push(double_nullable_field(o.stock_ref_price.text@)).push(double_nullable_field(o.delta.text@)).push(double_nullable_field(o.stock_range_lower.text@)).push(double_nullable_field(o.stock_range_upper.text@)).push(bool_text(o.override_percentage_constraints)).push(double_nullable_field(o.volatility.text@)).push(empty_int_text(o.volatility_type)).push(o.delta_neutral_order_type@).push(double_nullable_field(o.delta_neutral_aux_price.text@))
    }
}

#[verifier::spinoff_prover]
#[verifier::rlimit(100)]
fn push_place_order_misc_texts(v: &mut Vec<String>, server_version: i32, o: &Order)
    ensures
        text_views(final(v)@) == place_order_misc_texts(text_views(old(v)@), server_version, *o),
{
        proof {
            reveal_strlit("");
        }
        push_str_text(v, "");
        push_double_text(v, &o.discretionary_amount);
        push_string_text(v, &o.good_after_time);
        push_string_text(v, &o.good_till_date);
        push_string_text(v, &o.fa_group);
        push_string_text(v, &o.fa_method);
        push_string_text(v, &o.fa_percentage);
        if server_version < 177 {
            push_str_text(v, "");
        }
        if server_version >= MIN_SERVER_VER_MODELS_SUPPORT {
            push_string_text(v, &o.model_code);
        }
        push_i32_text(v, o.short_sale_slot);
        push_string_text(v, &o.designated_location);
        if server_version >= MIN_SERVER_VER_SSHORTX_OLD {
            push_i32_text(v, o.exempt_code);
        }
        push_i32_text(v, o.oca_type);
        push_string_text(v, &o.rule80a);
        push_string_text(v, &o.settling_firm);
        push_bool_text(v, o.all_or_none);
        push_empty_i32_text(v, o.min_qty);
        push_nullable_double_text(v, &o.percent_offset);
        push_bool_text(v, false);
        push_bool_text(v, false);
        push_str_text(v, "");
        push_i32_text(v, o.auction_strategy.value());
        push_nullable_double_text(v, &o.starting_price);
        push_nullable_double_text(v, &o.stock_ref_price);
        push_nullable_double_text(v, &o.delta);
        push_nullable_double_text(v, &o.stock_range_lower);
        push_nullable_double_text(v, &o.stock_range_upper);
        push_bool_text(v, o.override_percentage_constraints);
        push_nullable_double_text(v, &o.volatility);
        push_empty_i32_text(v, o.volatility_type);
        push_string_text(v, &o.delta_neutral_order_type);
        push_nullable_double_text(v, &o.delta_neutral_aux_price);
}

/// `acc` followed by the delta-neutral order fields of a placed order.
pub open spec fn place_order_delta_neutral_texts(acc: Seq<Seq<char>>, server_version: i32, o: Order) -> Seq<Seq<char>> {
    {
        let texts = acc;
        let texts = if server_version >= MIN_SERVER_VER_DELTA_NEUTRAL_CONID && !(o.delta_neutral_order_type@.len() == 0) { texts.push(int_text((o.delta_neutral_con_id) as int)).push(o.delta_neutral_settling_firm@).push(o.delta_neutral_clearing_account@).push(o.delta_neutral_clearing_intent@) } else { texts };
        let texts = if server_version >= MIN_SERVER_VER_DELTA_NEUTRAL_OPEN_CLOSE && !(o.delta_neutral_order_type@.len() == 0) { texts.push(o.delta_neutral_open_close@).push(bool_text(o.delta_neutral_short_sale)).push(int_text((o.delta_neutral_short_sale_slot) as int)).push(o.delta_neutral_designated_location@) } else { texts };
        texts
    }
}

fn push_place_order_delta_neutral_texts(v: &mut Vec<String>, server_version: i32, o: &Order)
    ensures
        text_views(final(v)@) == place_order_delta_neutral_texts(text_views(old(v)@), server_version, *o),
{
        if server_version >= MIN_SERVER_VER_DELTA_NEUTRAL_CONID && !o.delta_neutral_order_type.as_str().is_empty() {
            push_i32_text(v, o.delta_neutral_con_id);
            push_string_text(v, &o.delta_neutral_settling_firm);
            push_string_text(v, &o.delta_neutral_clearing_account);
            push_string_text(v, &o.delta_neutral_clearing_intent);
        }
        if server_version >= MIN_SERVER_VER_DELTA_NEUTRAL_OPEN_CLOSE && !o.delta_neutral_order_type.as_str().is_empty() {
            push_string_text(v, &o.delta_neutral_open_close);
            push_bool_text(v, o.delta_neutral_short_sale);
            push_i32_text(v, o.delta_neutral_short_sale_slot);
            push_string_text(v, &o.delta_neutral_designated_location);
        }
}

/// `acc` followed by the trailing and scale fields of a placed order; the scale price fields go out only for a positive, set price increment.
pub open spec fn place_order_scale_texts(acc: Seq<Seq<char>>, server_version: i32, o: Order) -> Seq<Seq<char>> {
    {
        let texts = acc.push(bool_text(o.continuous_update)).push(empty_int_text(o.reference_price_type)).push(double_nullable_field(o.trail_stop_price.text@));
        let texts = if server_version >= MIN_SERVER_VER_TRAILING_PERCENT { texts.push(double_nullable_field(o.trailing_percent.text@)) } else { texts };
        let texts = if server_version >= MIN_SERVER_VER_SCALE_ORDERS2 { texts.push(empty_int_text(o.scale_init_level_size)).push(empty_int_text(o.scale_subs_level_size)) } else { texts.push(""@).push(empty_int_text(o.scale_init_level_size)) };
        let texts = texts.push(double_nullable_field(o.scale_price_increment.text@));
        let texts = if server_version >= MIN_SERVER_VER_SCALE_ORDERS3 && !unset_double_value(o.scale_price_increment.text@) && positive_double_text(o.scale_price_increment.text@) { texts.push(double_nullable_field(o.scale_price_adjust_value.text@)).push(empty_int_text(o.scale_price_adjust_interval)).push(double_nullable_field(o.scale_profit_offset.text@)).push(bool_text(o.scale_auto_reset)).push(empty_int_text(o.scale_init_position)).push(empty_int_text(o.scale_init_fill_qty)).push(bool_text(o.scale_random_percent)) } else { texts };
        let texts = if server_version >= MIN_SERVER_VER_SCALE_TABLE { texts.push(o.scale_table@).push(o.active_start_time@).push(o.active_stop_time@) } else { texts };
        texts
    }
}

fn push_place_order_scale_texts(v: &mut Vec<String>, server_version: i32, o: &Order)
    ensures
        text_views(final(v)@) == place_order_scale_texts(text_views(old(v)@), server_version, *o),
{
        proof {
            reveal_strlit("");
        }
        push_bool_text(v, o.continuous_update);
        push_empty_i32_text(v, o.reference_price_type);
        push_nullable_double_text(v, &o.trail_stop_price);
        if server_version >= MIN_SERVER_VER_TRAILING_PERCENT {
            push_nullable_double_text(v, &o.trailing_percent);
        }
        if server_version >= MIN_SERVER_VER_SCALE_ORDERS2 {
            push_empty_i32_text(v, o.scale_init_level_size);
            push_empty_i32_text(v, o.scale_subs_level_size);
        } else {
            push_str_text(v, "");
            push_empty_i32_text(v, o.scale_init_level_size);
        }
        push_nullable_double_text(v, &o.scale_price_increment);
        if server_version >= MIN_SERVER_VER_SCALE_ORDERS3 && !o.scale_price_increment.is_unset() && o.scale_price_increment.is_positive() {
            push_nullable_double_text(v, &o.scale_price_adjust_value);
            push_empty_i32_text(v, o.scale_price_adjust_interval);
            push_nullable_double_text(v, &o.scale_profit_offset);
            push_bool_text(v, o.scale_auto_reset);
            push_empty_i32_text(v, o.scale_init_position);
            push_empty_i32_text(v, o.scale_init_fill_qty);
            push_bool_text(v, o.scale_random_percent);
        }
        if server_version >= MIN_SERVER_VER_SCALE_TABLE {
            push_string_text(v, &o.scale_table);
            push_string_text(v, &o.active_start_time);
            push_string_text(v, &o.active_stop_time);
        }
}

/// `acc` followed by the hedge, routing, delta-neutral contract and algorithm fields of a placed order.
pub open spec fn place_order_routing_texts(acc: Seq<Seq<char>>, server_version: i32, c: Contract, o: Order) -> Seq<Seq<char>> {
    {
        let texts = acc;
        let texts = if server_version >= MIN_SERVER_VER_HEDGE_ORDERS { {
            let texts = texts.push(o.hedge_type@);
            let texts = if !(o.hedge_type@.len() == 0) { texts.push(o.hedge_param@) } else { texts };
            texts
        } } else { texts };
        let texts = if server_version >= MIN_SERVER_VER_OPT_OUT_SMART_ROUTING { texts.push(bool_text(o.opt_out_smart_routing)) } else { texts };
        let texts = if server_version >= MIN_SERVER_VER_PTA_ORDERS { texts.push(o.clearing_account@).push(o.clearing_intent@) } else { texts };
        let texts = if server_version >= MIN_SERVER_VER_NOT_HELD { texts.push(bool_text(o.not_held)) } else { texts };
        let texts = if server_version >= MIN_SERVER_VER_DELTA_NEUTRAL { delta_neutral_texts(texts, c) } else { texts };
        let texts = if server_version >= MIN_SERVER_VER_ALGO_ORDERS { {
            let texts = texts.push(o.algo_strategy@);
            let texts = if !(o.algo_strategy@.len() == 0) { (texts + tag_value_texts(o.algo_params@)) } else { texts };
            texts
        } } else { texts };
        let texts = if server_version >= MIN_SERVER_VER_ALGO_ID { texts.push(o.algo_id@) } else { texts };
        let texts = texts.push(bool_text(o.what_if));
        let texts = if server_version >= MIN_SERVER_VER_LINKING { texts.push(tws_options_text(o.order_misc_options@)) } else { texts };
        let texts = if server_version >= MIN_SERVER_VER_ORDER_SOLICITED { texts.push(bool_text(o.solicited)) } else { texts };
        let texts = if server_version >= MIN_SERVER_VER_RANDOMIZE_SIZE_AND_PRICE { texts.push(bool_text(o.randomize_size)).push(bool_text(o.randomize_price)) } else { texts };
        texts
    }
}

fn push_place_order_routing_texts(v: &mut Vec<String>, server_version: i32, c: &Contract, o: &Order)
    ensures
        text_views(final(v)@) == place_order_routing_texts(text_views(old(v)@), server_version, *c, *o),
{
        if server_version >= MIN_SERVER_VER_HEDGE_ORDERS {
            push_string_text(v, &o.hedge_type);
            if !o.hedge_type.as_str().is_empty() {
                push_string_text(v, &o.hedge_param);
            }
        }
        if server_version >= MIN_SERVER_VER_OPT_OUT_SMART_ROUTING {
            push_bool_text(v, o.opt_out_smart_routing);
        }
        if server_version >= MIN_SERVER_VER_PTA_ORDERS {
            push_string_text(v, &o.clearing_account);
            push_string_text(v, &o.clearing_intent);
        }
        if server_version >= MIN_SERVER_VER_NOT_HELD {
            push_bool_text(v, o.not_held);
        }
        if server_version >= MIN_SERVER_VER_DELTA_NEUTRAL {
            push_delta_neutral_texts(v, c);
        }
        if server_version >= MIN_SERVER_VER_ALGO_ORDERS {
            push_string_text(v, &o.algo_strategy);
            if !o.algo_strategy.as_str().is_empty() {
                push_tag_value_texts(v, &o.algo_params);
            }
        }
        if server_version >= MIN_SERVER_VER_ALGO_ID {
            push_string_text(v, &o.algo_id);
        }
        push_bool_text(v, o.what_if);
        if server_version >= MIN_SERVER_VER_LINKING {
            push_options_text(v, &o.order_misc_options);
        }
        if server_version >= MIN_SERVER_VER_ORDER_SOLICITED {
            push_bool_text(v, o.solicited);
        }
        if server_version >= MIN_SERVER_VER_RANDOMIZE_SIZE_AND_PRICE {
            push_bool_text(v, o.randomize_size);
            push_bool_text(v, o.randomize_price);
        }
}

/// `acc` followed by the conditions and adjusted-stop fields of a placed order.
pub open spec fn place_order_condition_texts(acc: Seq<Seq<char>>, server_version: i32, o: Order) -> Seq<Seq<char>> {
    {
        let texts = acc;
        let texts = if server_version >= MIN_SERVER_VER_PEGGED_TO_BENCHMARK { {
            let texts = texts.push(int_text(o.conditions@.len() as int));
            let texts = if !(o.conditions@.len() == 0) { (texts + conditions_texts(o.conditions@)).push(bool_text(o.conditions_ignore_rth)).push(bool_text(o.conditions_cancel_order)) } else { texts };
            texts.push(o.adjusted_order_type@).push(double_field(o.trigger_price.text@)).push(double_field(o.limit_price_offset.text@)).push(double_field(o.adjusted_stop_price.text@)).push(double_field(o.adjusted_stop_limit_price.text@)).push(double_field(o.adjusted_trailing_amount.text@)).push(int_text((o.adjustable_trailing_unit) as int))
        } } else { texts };
        texts
    }
}

fn push_place_order_condition_texts(v: &mut Vec<String>, server_version: i32, o: &Order)
    ensures
        text_views(final(v)@) == place_order_condition_texts(text_views(old(v)@), server_version, *o),
{
        if server_version >= MIN_SERVER_VER_PEGGED_TO_BENCHMARK {
            push_usize_text(v, o.conditions.len());
            if o.conditions.len() != 0 {
                push_conditions_texts(v, &o.conditions);
                push_bool_text(v, o.conditions_ignore_rth);
                push_bool_text(v, o.conditions_cancel_order);
            }
            push_string_text(v, &o.adjusted_order_type);
            push_double_text(v, &o.trigger_price);
            push_double_text(v, &o.limit_price_offset);
            push_double_text(v, &o.adjusted_stop_price);
            push_double_text(v, &o.adjusted_stop_limit_price);
            push_double_text(v, &o.adjusted_trailing_amount);
            push_i32_text(v, o.adjustable_trailing_unit);
        }
}

/// `acc` followed by the operator, MiFID II, container and later order fields of a placed order.
pub open spec fn place_order_tail_texts(acc: Seq<Seq<char>>, server_version: i32, o: Order) -> Seq<Seq<char>> {
    {
        let texts = acc;
        let texts = if server_version >= MIN_SERVER_VER_EXT_OPERATOR { texts.push(o.ext_operator@) } else { texts };
        let texts = if server_version >= MIN_SERVER_VER_SOFT_DOLLAR_TIER { texts.push(o.soft_dollar_tier.name@).push(o.soft_dollar_tier.value@) } else { texts };
        let texts = if server_version >= MIN_SERVER_VER_CASH_QTY { texts.push(double_field(o.cash_qty.text@)) } else { texts };
        let texts = if server_version >= MIN_SERVER_VER_DECISION_MAKER { texts.push(o.mifid2_decision_maker@).push(o.mifid2_decision_algo@) } else { texts };
        let texts = if server_version >= MIN_SERVER_VER_MIFID_EXECUTION { texts.push(o.mifid2_execution_trader@).push(o.mifid2_execution_algo@) } else { texts };
        let texts = if server_version >= MIN_SERVER_VER_AUTO_PRICE_FOR_HEDGE { texts.push(bool_text(o.dont_use_auto_price_for_hedge)) } else { texts };
        let texts = if server_version >= MIN_SERVER_VER_ORDER_CONTAINER { texts.push(bool_text(o.is_oms_container)) } else { texts };
        let texts = if server_version >= MIN_SERVER_VER_D_PEG_ORDERS { texts.push(bool_text(o.discretionary_up_to_limit_price)) } else { texts };
        let texts = if server_version >= MIN_SERVER_VER_PRICE_MGMT_ALGO { {
            let texts = if o.use_price_mgmt_algo == UNSET_INTEGER { texts.push(""@) } else { texts.push(bool_text(o.use_price_mgmt_algo != 0)) };
            texts
        } } else { texts };
        let texts = if server_version >= MIN_SERVER_VER_DURATION { texts.push(int_text((o.duration) as int)) } else { texts };
        let texts = if server_version >= MIN_SERVER_VER_POST_TO_ATS { texts.push(int_text((o.post_to_ats) as int)) } else { texts };
        let texts = if server_version >= MIN_SERVER_VER_AUTO_CANCEL_PARENT { texts.push(bool_text(o.auto_cancel_parent)) } else { texts };
        let texts = if server_version >= MIN_SERVER_VER_ADVANCED_ORDER_REJECT { texts.push(o.advanced_error_override@) } else { texts };
        let texts = if server_version >= MIN_SERVER_VER_MANUAL_ORDER_TIME { texts.push(o.manual_order_time@) } else { texts };
        let texts = if server_version >= MIN_SERVER_VER_CUSTOMER_ACCOUNT { texts.push(o.customer_account@) } else { texts };
        let texts = if server_version >= MIN_SERVER_VER_PROFESSIONAL_CUSTOMER { texts.push(bool_text(o.professional_customer)) } else { texts };
        let texts = if server_version >= MIN_SERVER_VER_INCLUDE_OVERNIGHT { texts.push(bool_text(o.include_overnight)) } else { texts };
        let texts = if server_version >= MIN_SERVER_VER_CME_TAGGING_FIELDS { texts.push(int_text((o.manual_order_indicator) as int)) } else { texts };
        let texts = if server_version >= MIN_SERVER_VER_IMBALANCE_ONLY { texts.push(bool_text(o.imbalance_only)) } else { texts };
        texts
    }
}

fn push_place_order_tail_texts(v: &mut Vec<String>, server_version: i32, o: &Order)
    ensures
        text_views(final(v)@) == place_order_tail_texts(text_views(old(v)@), server_version, *o),
{
        proof {
            reveal_strlit("");
        }
        if server_version >= MIN_SERVER_VER_EXT_OPERATOR {
            push_string_text(v, &o.ext_operator);
        }
        if server_version >= MIN_SERVER_VER_SOFT_DOLLAR_TIER {
            push_string_text(v, &o.soft_dollar_tier.name);
            push_string_text(v, &o.soft_dollar_tier.value);
        }
        if server_version >= MIN_SERVER_VER_CASH_QTY {
            push_double_text(v, &o.cash_qty);
        }
        if server_version >= MIN_SERVER_VER_DECISION_MAKER {
            push_string_text(v, &o.mifid2_decision_maker);
            push_string_text(v, &o.mifid2_decision_algo);
        }
        if server_version >= MIN_SERVER_VER_MIFID_EXECUTION {
            push_string_text(v, &o.mifid2_execution_trader);
            push_string_text(v, &o.mifid2_execution_algo);
        }
        if server_version >= MIN_SERVER_VER_AUTO_PRICE_FOR_HEDGE {
            push_bool_text(v, o.dont_use_auto_price_for_hedge);
        }
        if server_version >= MIN_SERVER_VER_ORDER_CONTAINER {
            push_bool_text(v, o.is_oms_container);
        }
        if server_version >= MIN_SERVER_VER_D_PEG_ORDERS {
            push_bool_text(v, o.discretionary_up_to_limit_price);
        }
        if server_version >= MIN_SERVER_VER_PRICE_MGMT_ALGO {
            if o.use_price_mgmt_algo == UNSET_INTEGER {
                push_str_text(v, "");
            } else {
                push_bool_text(v, o.use_price_mgmt_algo != 0);
            }
        }
        if server_version >= MIN_SERVER_VER_DURATION {
            push_i32_text(v, o.duration);
        }
        if server_version >= MIN_SERVER_VER_POST_TO_ATS {
            push_i32_text(v, o.post_to_ats);
        }
        if server_version >= MIN_SERVER_VER_AUTO_CANCEL_PARENT {
            push_bool_text(v, o.auto_cancel_parent);
        }
        if server_version >= MIN_SERVER_VER_ADVANCED_ORDER_REJECT {
            push_string_text(v, &o.advanced_error_override);
        }
        if server_version >= MIN_SERVER_VER_MANUAL_ORDER_TIME {
            push_string_text(v, &o.manual_order_time);
        }
        if server_version >= MIN_SERVER_VER_CUSTOMER_ACCOUNT {
            push_string_text(v, &o.customer_account);
        }
        if server_version >= MIN_SERVER_VER_PROFESSIONAL_CUSTOMER {
            push_bool_text(v, o.professional_customer);
        }
        if server_version >= MIN_SERVER_VER_INCLUDE_OVERNIGHT {
            push_bool_text(v, o.include_overnight);
        }
        if server_version >= MIN_SERVER_VER_CME_TAGGING_FIELDS {
            push_i32_text(v, o.manual_order_indicator);
        }
        if server_version >= MIN_SERVER_VER_IMBALANCE_ONLY {
            push_bool_text(v, o.imbalance_only);
        }
}

// ---------------------------------------------------------------------------------------------
// Placing an order
// ---------------------------------------------------------------------------------------------

/// The fields of a placed order, in the order the server of `server_version` reads them.
#[verifier::opaque]
pub open spec fn place_order_texts(server_version: i32, order_id: i32, c: Contract, o: Order) -> Seq<Seq<char>> {
    let head = place_order_head_texts(Seq::<Seq<char>>::empty(), server_version, order_id, c);
    let basic = place_order_basic_texts(head, o);
    let combo = place_order_combo_texts(basic, server_version, c, o);
    let misc = place_order_misc_texts(combo, server_version, o);
    let delta_neutral = place_order_delta_neutral_texts(misc, server_version, o);
    let scale = place_order_scale_texts(delta_neutral, server_version, o);
    let routing = place_order_routing_texts(scale, server_version, c, o);
    let conditions = place_order_condition_texts(routing, server_version, o);
    place_order_tail_texts(conditions, server_version, o)
}

/// What placing an order encodes: its fields, then the pre-encoded extra fields as they are.
pub open spec fn place_order_encoding(
    server_version: i32,
    order_id: i32,
    c: Contract,
    o: Order,
    extra: Seq<char>,
) -> Result<Seq<char>, EncodeFailure> {
    match text_encoding(place_order_texts(server_version, order_id, c, o)) {
        Ok(t) => Ok(t + extra),
        Err(f) => Err(f),
    }
}

fn place_order_field_texts(server_version: i32, order_id: i32, c: &Contract, o: &Order) -> (v: Vec<
    String,
>)
    ensures
        text_views(v@) == place_order_texts(server_version, order_id, *c, *o),
{
    let mut v: Vec<String> = Vec::new();
    assert(text_views(v@) =~= Seq::<Seq<char>>::empty());
    proof {
        reveal(place_order_texts);
    }
    push_place_order_head_texts(&mut v, server_version, order_id, c);
    push_place_order_basic_texts(&mut v, o);
    push_place_order_combo_texts(&mut v, server_version, c, o);
    push_place_order_misc_texts(&mut v, server_version, o);
    push_place_order_delta_neutral_texts(&mut v, server_version, o);
    push_place_order_scale_texts(&mut v, server_version, o);
    push_place_order_routing_texts(&mut v, server_version, c, o);
    push_place_order_condition_texts(&mut v, server_version, o);
    push_place_order_tail_texts(&mut v, server_version, o);
    v
}

/// Appends the fields of a placed order for a negotiated server version, then the
/// pre-encoded extra fields as they are.
pub fn encode_place_order_fields(
    fields: &mut FieldSink,
    server_version: i32,
    order_id: i32,
    contract: &Contract,
    order: &Order,
    extra_fields: &str,
) -> (r: Result<(), TwsApiError>)
    ensures
        encoding_outcome(
            place_order_encoding(server_version, order_id, *contract, *order, extra_fields@),
            old(fields)@,
            final(fields)@,
            r,
        ),
{
    let ghost before = fields@;
    let texts = place_order_field_texts(server_version, order_id, contract, order);
    match push_texts(fields, &texts) {
        Ok(()) => {},
        Err(e) => return Err(e),
    }
    let ghost middle = fields@;
    fields.push_raw(extra_fields);
    proof {
        let t = text_encoding(place_order_texts(server_version, order_id, *contract, *order))->Ok_0;
        assert(fields@ =~= before + (t + extra_fields@));
    }
    Ok(())
}

/// Place order request.
#[derive(Debug, Clone, PartialEq)]
pub struct PlaceOrderRequest {
    /// Order id.
    pub order_id: i32,
    /// Contract.
    pub contract: Contract,
    /// Order.
    pub order: Order,
    /// Pre-encoded extra fields appended after the standard field set.
    pub extra_fields: String,
}

impl Default for PlaceOrderRequest {
    fn default() -> (r: Self)
        ensures
            r.order_id == 0,
            r.contract.has_defaults(),
            r.order.has_defaults(),
            r.extra_fields@.len() == 0,
    {
        PlaceOrderRequest {
            order_id: 0,
            contract: Contract::default(),
            order: Order::default(),
            extra_fields: String::new(),
        }
    }
}

impl EncodableRequest for PlaceOrderRequest {
    open spec fn outgoing(&self) -> Outgoing {
        Outgoing::PlaceOrder
    }

    open spec fn encoding(&self, server_version: i32) -> Result<Seq<char>, EncodeFailure> {
        place_order_encoding(server_version, self.order_id, self.contract, self.order, self.extra_fields@)
    }

    open spec fn protobuf_payload(&self) -> Option<Seq<u8>> {
        None
    }

    fn message(&self) -> (m: Outgoing) {
        Outgoing::PlaceOrder
    }

    fn encode_fields(&self, fields: &mut FieldSink) -> (r: Result<(), TwsApiError>) {
        self.encode_fields_for_server_version(fields, MAX_CLIENT_VER)
    }

    fn encode_fields_for_server_version(&self, fields: &mut FieldSink, server_version: i32) -> (r: Result<(), TwsApiError>) {
        encode_place_order_fields(
            fields,
            server_version,
            self.order_id,
            &self.contract,
            &self.order,
            self.extra_fields.as_str(),
        )
    }

    fn encode_protobuf(&self) -> (r: Result<Option<Vec<u8>>, TwsApiError>) {
        Ok(None)
    }
}

// ---------------------------------------------------------------------------------------------
// Requests that carry a contract
// ---------------------------------------------------------------------------------------------

/// Market data request.
#[derive(Debug, Clone, PartialEq)]
pub struct MarketDataRequest {
    /// Request id.
    pub req_id: TickerId,
    /// Contract.
    pub contract: Contract,
    /// Generic tick list.
    pub generic_tick_list: String,
    /// Snapshot flag.
    pub snapshot: bool,
    /// Regulatory snapshot flag.
    pub regulatory_snapshot: bool,
    /// Market data options.
    pub market_data_options: Vec<TagValue>,
}

impl Default for MarketDataRequest {
    fn default() -> (r: Self)
        ensures
            r.req_id == 0,
            r.contract.has_defaults(),
            r.generic_tick_list@.len() == 0,
            !r.snapshot,
            !r.regulatory_snapshot,
            r.market_data_options@.len() == 0,
    {
        MarketDataRequest {
            req_id: 0,
            contract: Contract::default(),
            generic_tick_list: String::new(),
            snapshot: false,
            regulatory_snapshot: false,
            market_data_options: Vec::new(),
        }
    }
}

impl MarketDataRequest {
    /// The texts of the fields after the message id for a server version.
    pub open spec fn field_texts(&self, server_version: i32) -> Seq<Seq<char>> {
        {
        let texts = Seq::<Seq<char>>::empty().push(int_text(11)).push(int_text((self.req_id) as int));
        let texts = if server_version >= MIN_SERVER_VER_REQ_MKT_DATA_CONID { texts.push(int_text((self.contract.con_id) as int)) } else { texts };
        let texts = contract_market_data_texts(texts, self.contract, server_version);
        let texts = if self.contract.sec_type@ == "BAG"@ { (texts.push(int_text(self.contract.combo_legs@.len() as int)) + combo_leg_brief_texts(self.contract.combo_legs@)) } else { texts };
        let texts = if server_version >= MIN_SERVER_VER_DELTA_NEUTRAL { delta_neutral_texts(texts, self.contract) } else { texts };
        let texts = texts.push(self.generic_tick_list@).push(bool_text(self.snapshot));
        let texts = if server_version >= MIN_SERVER_VER_REQ_SMART_COMPONENTS { texts.push(bool_text(self.regulatory_snapshot)) } else { texts };
        let texts = if server_version >= MIN_SERVER_VER_LINKING { texts.push(tws_options_text(self.market_data_options@)) } else { texts };
        texts
    }
    }

    fn texts(&self, server_version: i32) -> (out: Vec<String>)
        ensures
            text_views(out@) == self.field_texts(server_version),
    {
        let mut out: Vec<String> = Vec::new();
        assert(text_views(out@) =~= Seq::<Seq<char>>::empty());
        proof {
            reveal_strlit("BAG");
        }
        push_i32_text(&mut out, 11);
        push_i32_text(&mut out, self.req_id);
        if server_version >= MIN_SERVER_VER_REQ_MKT_DATA_CONID {
            push_i32_text(&mut out, self.contract.con_id);
        }
        push_contract_market_data_texts(&mut out, &self.contract, server_version);
        if str_eq(self.contract.sec_type.as_str(), "BAG") {
            push_usize_text(&mut out, self.contract.combo_legs.len());
            push_combo_leg_brief_texts(&mut out, &self.contract.combo_legs);
        }
        if server_version >= MIN_SERVER_VER_DELTA_NEUTRAL {
            push_delta_neutral_texts(&mut out, &self.contract);
        }
        push_string_text(&mut out, &self.generic_tick_list);
        push_bool_text(&mut out, self.snapshot);
        if server_version >= MIN_SERVER_VER_REQ_SMART_COMPONENTS {
            push_bool_text(&mut out, self.regulatory_snapshot);
        }
        if server_version >= MIN_SERVER_VER_LINKING {
            push_options_text(&mut out, &self.market_data_options);
        }
        out
    }
}

impl EncodableRequest for MarketDataRequest {
    open spec fn outgoing(&self) -> Outgoing {
        Outgoing::ReqMktData
    }

    open spec fn encoding(&self, server_version: i32) -> Result<Seq<char>, EncodeFailure> {
        text_encoding(self.field_texts(server_version))
    }

    open spec fn protobuf_payload(&self) -> Option<Seq<u8>> {
        None
    }

    fn message(&self) -> (m: Outgoing) {
        Outgoing::ReqMktData
    }

    fn encode_fields(&self, fields: &mut FieldSink) -> (r: Result<(), TwsApiError>) {
        self.encode_fields_for_server_version(fields, MAX_CLIENT_VER)
    }

    fn encode_fields_for_server_version(&self, fields: &mut FieldSink, server_version: i32) -> (r: Result<(), TwsApiError>) {

        let texts = self.texts(server_version);
        push_texts(fields, &texts)
    }

    fn encode_protobuf(&self) -> (r: Result<Option<Vec<u8>>, TwsApiError>) {
        Ok(None)
    }
}

/// Market depth request.
#[derive(Debug, Clone, PartialEq)]
pub struct MarketDepthRequest {
    /// Request id.
    pub req_id: TickerId,
    /// Contract.
    pub contract: Contract,
    /// Number of rows.
    pub num_rows: i32,
    /// Smart-depth flag.
    pub is_smart_depth: bool,
    /// Market depth options.
    pub market_depth_options: Vec<TagValue>,
}

impl Default for MarketDepthRequest {
    fn default() -> (r: Self)
        ensures
            r.req_id == 0,
            r.contract.has_defaults(),
            r.num_rows == 0,
            !r.is_smart_depth,
            r.market_depth_options@.len() == 0,
    {
        MarketDepthRequest {
            req_id: 0,
            contract: Contract::default(),
            num_rows: 0,
            is_smart_depth: false,
            market_depth_options: Vec::new(),
        }
    }
}

impl MarketDepthRequest {
    /// The texts of the fields after the message id.
    pub open spec fn field_texts(&self) -> Seq<Seq<char>> {
        (contract_core_texts(Seq::<Seq<char>>::empty().push(int_text(5)).push(int_text((self.req_id) as int)), self.contract).push(int_text((self.num_rows) as int)).push(bool_text(self.is_smart_depth)) + tag_value_texts(self.market_depth_options@))
    }

    fn texts(&self) -> (out: Vec<String>)
        ensures
            text_views(out@) == self.field_texts(),
    {
        let mut out: Vec<String> = Vec::new();
        assert(text_views(out@) =~= Seq::<Seq<char>>::empty());
        push_i32_text(&mut out, 5);
        push_i32_text(&mut out, self.req_id);
        push_contract_core_texts(&mut out, &self.contract);
        push_i32_text(&mut out, self.num_rows);
        push_bool_text(&mut out, self.is_smart_depth);
        push_tag_value_texts(&mut out, &self.market_depth_options);
        out
    }
}

impl EncodableRequest for MarketDepthRequest {
    open spec fn outgoing(&self) -> Outgoing {
        Outgoing::ReqMktDepth
    }

    open spec fn encoding(&self, server_version: i32) -> Result<Seq<char>, EncodeFailure> {
        text_encoding(self.field_texts())
    }

    open spec fn protobuf_payload(&self) -> Option<Seq<u8>> {
        None
    }

    fn message(&self) -> (m: Outgoing) {
        Outgoing::ReqMktDepth
    }

    fn encode_fields(&self, fields: &mut FieldSink) -> (r: Result<(), TwsApiError>) {
        self.encode_fields_for_server_version(fields, MAX_CLIENT_VER)
    }

    fn encode_fields_for_server_version(&self, fields: &mut FieldSink, server_version: i32) -> (r: Result<(), TwsApiError>) {

        let texts = self.texts();
        push_texts(fields, &texts)
    }

    fn encode_protobuf(&self) -> (r: Result<Option<Vec<u8>>, TwsApiError>) {
        Ok(None)
    }
}

/// Head timestamp request.
#[derive(Debug, Clone, PartialEq)]
pub struct HeadTimestampRequest {
    /// Request id.
    pub req_id: i32,
    /// Contract.
    pub contract: Contract,
    /// Regular trading hours only.
    pub use_rth: bool,
    /// Data type.
    pub what_to_show: String,
    /// Date format.
    pub format_date: i32,
}

impl Default for HeadTimestampRequest {
    fn default() -> (r: Self)
        ensures
            r.req_id == 0,
            r.contract.has_defaults(),
            !r.use_rth,
            r.what_to_show@.len() == 0,
            r.format_date == 0,
    {
        HeadTimestampRequest {
            req_id: 0,
            contract: Contract::default(),
            use_rth: false,
            what_to_show: String::new(),
            format_date: 0,
        }
    }
}

impl HeadTimestampRequest {
    /// The texts of the fields after the message id.
    pub open spec fn field_texts(&self) -> Seq<Seq<char>> {
        contract_core_texts(Seq::<Seq<char>>::empty().push(int_text((self.req_id) as int)), self.contract).push(bool_text(self.use_rth)).push(self.what_to_show@).push(int_text((self.format_date) as int))
    }

    fn texts(&self) -> (out: Vec<String>)
        ensures
            text_views(out@) == self.field_texts(),
    {
        let mut out: Vec<String> = Vec::new();
        assert(text_views(out@) =~= Seq::<Seq<char>>::empty());
        push_i32_text(&mut out, self.req_id);
        push_contract_core_texts(&mut out, &self.contract);
        push_bool_text(&mut out, self.use_rth);
        push_string_text(&mut out, &self.what_to_show);
        push_i32_text(&mut out, self.format_date);
        out
    }
}

impl EncodableRequest for HeadTimestampRequest {
    open spec fn outgoing(&self) -> Outgoing {
        Outgoing::ReqHeadTimestamp
    }

    open spec fn encoding(&self, server_version: i32) -> Result<Seq<char>, EncodeFailure> {
        text_encoding(self.field_texts())
    }

    open spec fn protobuf_payload(&self) -> Option<Seq<u8>> {
        None
    }

    fn message(&self) -> (m: Outgoing) {
        Outgoing::ReqHeadTimestamp
    }

    fn encode_fields(&self, fields: &mut FieldSink) -> (r: Result<(), TwsApiError>) {
        self.encode_fields_for_server_version(fields, MAX_CLIENT_VER)
    }

    fn encode_fields_for_server_version(&self, fields: &mut FieldSink, server_version: i32) -> (r: Result<(), TwsApiError>) {

        let texts = self.texts();
        push_texts(fields, &texts)
    }

    fn encode_protobuf(&self) -> (r: Result<Option<Vec<u8>>, TwsApiError>) {
        Ok(None)
    }
}

/// Histogram data request.
#[derive(Debug, Clone, PartialEq)]
pub struct HistogramDataRequest {
    /// Request id.
    pub req_id: i32,
    /// Contract.
    pub contract: Contract,
    /// Regular trading hours only.
    pub use_rth: bool,
    /// Time period.
    pub time_period: String,
}

impl Default for HistogramDataRequest {
    fn default() -> (r: Self)
        ensures
            r.req_id == 0,
            r.contract.has_defaults(),
            !r.use_rth,
            r.time_period@.len() == 0,
    {
        HistogramDataRequest {
            req_id: 0,
            contract: Contract::default(),
            use_rth: false,
            time_period: String::new(),
        }
    }
}

impl HistogramDataRequest {
    /// The texts of the fields after the message id.
    pub open spec fn field_texts(&self) -> Seq<Seq<char>> {
        contract_core_texts(Seq::<Seq<char>>::empty().push(int_text((self.req_id) as int)), self.contract).push(bool_text(self.use_rth)).push(self.time_period@)
    }

    fn texts(&self) -> (out: Vec<String>)
        ensures
            text_views(out@) == self.field_texts(),
    {
        let mut out: Vec<String> = Vec::new();
        assert(text_views(out@) =~= Seq::<Seq<char>>::empty());
        push_i32_text(&mut out, self.req_id);
        push_contract_core_texts(&mut out, &self.contract);
        push_bool_text(&mut out, self.use_rth);
        push_string_text(&mut out, &self.time_period);
        out
    }
}

impl EncodableRequest for HistogramDataRequest {
    open spec fn outgoing(&self) -> Outgoing {
        Outgoing::ReqHistogramData
    }

    open spec fn encoding(&self, server_version: i32) -> Result<Seq<char>, EncodeFailure> {
        text_encoding(self.field_texts())
    }

    open spec fn protobuf_payload(&self) -> Option<Seq<u8>> {
        None
    }

    fn message(&self) -> (m: Outgoing) {
        Outgoing::ReqHistogramData
    }

    fn encode_fields(&self, fields: &mut FieldSink) -> (r: Result<(), TwsApiError>) {
        self.encode_fields_for_server_version(fields, MAX_CLIENT_VER)
    }

    fn encode_fields_for_server_version(&self, fields: &mut FieldSink, server_version: i32) -> (r: Result<(), TwsApiError>) {

        let texts = self.texts();
        push_texts(fields, &texts)
    }

    fn encode_protobuf(&self) -> (r: Result<Option<Vec<u8>>, TwsApiError>) {
        Ok(None)
    }
}

/// Real-time bars request.
#[derive(Debug, Clone, PartialEq)]
pub struct RealTimeBarsRequest {
    /// Request id.
    pub req_id: i32,
    /// Contract.
    pub contract: Contract,
    /// Bar size.
    pub bar_size: i32,
    /// Data type.
    pub what_to_show: String,
    /// Regular trading hours only.
    pub use_rth: bool,
    /// Request options.
    pub options: Vec<TagValue>,
}

impl Default for RealTimeBarsRequest {
    fn default() -> (r: Self)
        ensures
            r.req_id == 0,
            r.contract.has_defaults(),
            r.bar_size == 0,
            r.what_to_show@.len() == 0,
            !r.use_rth,
            r.options@.len() == 0,
    {
        RealTimeBarsRequest {
            req_id: 0,
            contract: Contract::default(),
            bar_size: 0,
            what_to_show: String::new(),
            use_rth: false,
            options: Vec::new(),
        }
    }
}

impl RealTimeBarsRequest {
    /// The texts of the fields after the message id.
    pub open spec fn field_texts(&self) -> Seq<Seq<char>> {
        (contract_core_texts(Seq::<Seq<char>>::empty().push(int_text(3)).push(int_text((self.req_id) as int)), self.contract).push(int_text((self.bar_size) as int)).push(self.what_to_show@).push(bool_text(self.use_rth)) + tag_value_texts(self.options@))
    }

    fn texts(&self) -> (out: Vec<String>)
        ensures
            text_views(out@) == self.field_texts(),
    {
        let mut out: Vec<String> = Vec::new();
        assert(text_views(out@) =~= Seq::<Seq<char>>::empty());
        push_i32_text(&mut out, 3);
        push_i32_text(&mut out, self.req_id);
        push_contract_core_texts(&mut out, &self.contract);
        push_i32_text(&mut out, self.bar_size);
        push_string_text(&mut out, &self.what_to_show);
        push_bool_text(&mut out, self.use_rth);
        push_tag_value_texts(&mut out, &self.options);
        out
    }
}

impl EncodableRequest for RealTimeBarsRequest {
    open spec fn outgoing(&self) -> Outgoing {
        Outgoing::ReqRealTimeBars
    }

    open spec fn encoding(&self, server_version: i32) -> Result<Seq<char>, EncodeFailure> {
        text_encoding(self.field_texts())
    }

    open spec fn protobuf_payload(&self) -> Option<Seq<u8>> {
        None
    }

    fn message(&self) -> (m: Outgoing) {
        Outgoing::ReqRealTimeBars
    }

    fn encode_fields(&self, fields: &mut FieldSink) -> (r: Result<(), TwsApiError>) {
        self.encode_fields_for_server_version(fields, MAX_CLIENT_VER)
    }

    fn encode_fields_for_server_version(&self, fields: &mut FieldSink, server_version: i32) -> (r: Result<(), TwsApiError>) {

        let texts = self.texts();
        push_texts(fields, &texts)
    }

    fn encode_protobuf(&self) -> (r: Result<Option<Vec<u8>>, TwsApiError>) {
        Ok(None)
    }
}

/// Tick-by-tick data request.
#[derive(Debug, Clone, PartialEq)]
pub struct TickByTickRequest {
    /// Request id.
    pub req_id: i32,
    /// Contract.
    pub contract: Contract,
    /// Tick type.
    pub tick_type: String,
    /// Number of ticks.
    pub number_of_ticks: i32,
    /// Ignore size flag.
    pub ignore_size: bool,
}

impl Default for TickByTickRequest {
    fn default() -> (r: Self)
        ensures
            r.req_id == 0,
            r.contract.has_defaults(),
            r.tick_type@.len() == 0,
            r.number_of_ticks == 0,
            !r.ignore_size,
    {
        TickByTickRequest {
            req_id: 0,
            contract: Contract::default(),
            tick_type: String::new(),
            number_of_ticks: 0,
            ignore_size: false,
        }
    }
}

impl TickByTickRequest {
    /// The texts of the fields after the message id for a server version.
    pub open spec fn field_texts(&self, server_version: i32) -> Seq<Seq<char>> {
        {
        let texts = Seq::<Seq<char>>::empty().push(int_text((self.req_id) as int)).push(int_text((self.contract.con_id) as int)).push(self.contract.symbol@).push(self.contract.sec_type@).push(self.contract.last_trade_date_or_contract_month@).push(double_nullable_field(self.contract.strike.text@)).push(self.contract.right@).push(self.contract.multiplier@).push(self.contract.exchange@).push(self.contract.primary_exchange@).push(self.contract.currency@).push(self.contract.local_symbol@).push(self.contract.trading_class@).push(self.tick_type@);
        let texts = if server_version >= MIN_SERVER_VER_TICK_BY_TICK_IGNORE_SIZE { texts.push(int_text((self.number_of_ticks) as int)).push(bool_text(self.ignore_size)) } else { texts };
        texts
    }
    }

    fn texts(&self, server_version: i32) -> (out: Vec<String>)
        ensures
            text_views(out@) == self.field_texts(server_version),
    {
        let mut out: Vec<String> = Vec::new();
        assert(text_views(out@) =~= Seq::<Seq<char>>::empty());
        push_i32_text(&mut out, self.req_id);
        push_i32_text(&mut out, self.contract.con_id);
        push_string_text(&mut out, &self.contract.symbol);
        push_string_text(&mut out, &self.contract.sec_type);
        push_string_text(&mut out, &self.contract.last_trade_date_or_contract_month);
        push_nullable_double_text(&mut out, &self.contract.strike);
        push_string_text(&mut out, &self.contract.right);
        push_string_text(&mut out, &self.contract.multiplier);
        push_string_text(&mut out, &self.contract.exchange);
        push_string_text(&mut out, &self.contract.primary_exchange);
        push_string_text(&mut out, &self.contract.currency);
        push_string_text(&mut out, &self.contract.local_symbol);
        push_string_text(&mut out, &self.contract.trading_class);
        push_string_text(&mut out, &self.tick_type);
        if server_version >= MIN_SERVER_VER_TICK_BY_TICK_IGNORE_SIZE {
            push_i32_text(&mut out, self.number_of_ticks);
            push_bool_text(&mut out, self.ignore_size);
        }
        out
    }
}

impl EncodableRequest for TickByTickRequest {
    open spec fn outgoing(&self) -> Outgoing {
        Outgoing::ReqTickByTickData
    }

    open spec fn encoding(&self, server_version: i32) -> Result<Seq<char>, EncodeFailure> {
        gated_encoding(server_version, MIN_SERVER_VER_TICK_BY_TICK, self.field_texts(server_version))
    }

    open spec fn protobuf_payload(&self) -> Option<Seq<u8>> {
        None
    }

    fn message(&self) -> (m: Outgoing) {
        Outgoing::ReqTickByTickData
    }

    fn encode_fields(&self, fields: &mut FieldSink) -> (r: Result<(), TwsApiError>) {
        self.encode_fields_for_server_version(fields, MAX_CLIENT_VER)
    }

    fn encode_fields_for_server_version(&self, fields: &mut FieldSink, server_version: i32) -> (r: Result<(), TwsApiError>) {

        match ensure_server_version(server_version, MIN_SERVER_VER_TICK_BY_TICK) {
            Ok(()) => {},
            Err(e) => return Err(e),
        }
        let texts = self.texts(server_version);
        push_texts(fields, &texts)
    }

    fn encode_protobuf(&self) -> (r: Result<Option<Vec<u8>>, TwsApiError>) {
        Ok(None)
    }
}

/// Calculate implied volatility request.
#[derive(Debug, Clone, PartialEq)]
pub struct CalculateImpliedVolatilityRequest {
    /// Request id.
    pub req_id: i32,
    /// Contract.
    pub contract: Contract,
    /// Option price.
    pub option_price: Double,
    /// Underlying price.
    pub under_price: Double,
    /// Request options.
    pub options: Vec<TagValue>,
}

impl Default for CalculateImpliedVolatilityRequest {
    fn default() -> (r: Self)
        ensures
            r.req_id == 0,
            r.contract.has_defaults(),
            r.option_price.text@ == "0"@,
            r.under_price.text@ == "0"@,
            r.options@.len() == 0,
    {
        CalculateImpliedVolatilityRequest {
            req_id: 0,
            contract: Contract::default(),
            option_price: Double::zero(),
            under_price: Double::zero(),
            options: Vec::new(),
        }
    }
}

impl CalculateImpliedVolatilityRequest {
    /// The texts of the fields after the message id for a server version.
    pub open spec fn field_texts(&self, server_version: i32) -> Seq<Seq<char>> {
        {
        let texts = contract_calculation_texts(Seq::<Seq<char>>::empty().push(int_text(3)).push(int_text((self.req_id) as int)), self.contract, server_version).push(double_field(self.option_price.text@)).push(double_field(self.under_price.text@));
        let texts = if server_version >= MIN_SERVER_VER_LINKING { texts.push(tws_options_text(self.options@)) } else { texts };
        texts
    }
    }

    fn texts(&self, server_version: i32) -> (out: Vec<String>)
        ensures
            text_views(out@) == self.field_texts(server_version),
    {
        let mut out: Vec<String> = Vec::new();
        assert(text_views(out@) =~= Seq::<Seq<char>>::empty());
        push_i32_text(&mut out, 3);
        push_i32_text(&mut out, self.req_id);
        push_contract_calculation_texts(&mut out, &self.contract, server_version);
        push_double_text(&mut out, &self.option_price);
        push_double_text(&mut out, &self.under_price);
        if server_version >= MIN_SERVER_VER_LINKING {
            push_options_text(&mut out, &self.options);
        }
        out
    }
}

impl EncodableRequest for CalculateImpliedVolatilityRequest {
    open spec fn outgoing(&self) -> Outgoing {
        Outgoing::ReqCalcImpliedVolat
    }

    open spec fn encoding(&self, server_version: i32) -> Result<Seq<char>, EncodeFailure> {
        gated_encoding(server_version, MIN_SERVER_VER_REQ_CALC_IMPLIED_VOLAT, self.field_texts(server_version))
    }

    open spec fn protobuf_payload(&self) -> Option<Seq<u8>> {
        None
    }

    fn message(&self) -> (m: Outgoing) {
        Outgoing::ReqCalcImpliedVolat
    }

    fn encode_fields(&self, fields: &mut FieldSink) -> (r: Result<(), TwsApiError>) {
        self.encode_fields_for_server_version(fields, MAX_CLIENT_VER)
    }

    fn encode_fields_for_server_version(&self, fields: &mut FieldSink, server_version: i32) -> (r: Result<(), TwsApiError>) {

        match ensure_server_version(server_version, MIN_SERVER_VER_REQ_CALC_IMPLIED_VOLAT) {
            Ok(()) => {},
            Err(e) => return Err(e),
        }
        let texts = self.texts(server_version);
        push_texts(fields, &texts)
    }

    fn encode_protobuf(&self) -> (r: Result<Option<Vec<u8>>, TwsApiError>) {
        Ok(None)
    }
}

/// Calculate option price request.
#[derive(Debug, Clone, PartialEq)]
pub struct CalculateOptionPriceRequest {
    /// Request id.
    pub req_id: i32,
    /// Contract.
    pub contract: Contract,
    /// Volatility.
    pub volatility: Double,
    /// Underlying price.
    pub under_price: Double,
    /// Request options.
    pub options: Vec<TagValue>,
}

impl Default for CalculateOptionPriceRequest {
    fn default() -> (r: Self)
        ensures
            r.req_id == 0,
            r.contract.has_defaults(),
            r.volatility.text@ == "0"@,
            r.under_price.text@ == "0"@,
            r.options@.len() == 0,
    {
        CalculateOptionPriceRequest {
            req_id: 0,
            contract: Contract::default(),
            volatility: Double::zero(),
            under_price: Double::zero(),
            options: Vec::new(),
        }
    }
}

impl CalculateOptionPriceRequest {
    /// The texts of the fields after the message id for a server version.
    pub open spec fn field_texts(&self, server_version: i32) -> Seq<Seq<char>> {
        {
        let texts = contract_calculation_texts(Seq::<Seq<char>>::empty().push(int_text(3)).push(int_text((self.req_id) as int)), self.contract, server_version).push(double_field(self.volatility.text@)).push(double_field(self.under_price.text@));
        let texts = if server_version >= MIN_SERVER_VER_LINKING { texts.push(tws_options_text(self.options@)) } else { texts };
        texts
    }
    }

    fn texts(&self, server_version: i32) -> (out: Vec<String>)
        ensures
            text_views(out@) == self.field_texts(server_version),
    {
        let mut out: Vec<String> = Vec::new();
        assert(text_views(out@) =~= Seq::<Seq<char>>::empty());
        push_i32_text(&mut out, 3);
        push_i32_text(&mut out, self.req_id);
        push_contract_calculation_texts(&mut out, &self.contract, server_version);
        push_double_text(&mut out, &self.volatility);
        push_double_text(&mut out, &self.under_price);
        if server_version >= MIN_SERVER_VER_LINKING {
            push_options_text(&mut out, &self.options);
        }
        out
    }
}

impl EncodableRequest for CalculateOptionPriceRequest {
    open spec fn outgoing(&self) -> Outgoing {
        Outgoing::ReqCalcOptionPrice
    }

    open spec fn encoding(&self, server_version: i32) -> Result<Seq<char>, EncodeFailure> {
        gated_encoding(server_version, MIN_SERVER_VER_REQ_CALC_IMPLIED_VOLAT, self.field_texts(server_version))
    }

    open spec fn protobuf_payload(&self) -> Option<Seq<u8>> {
        None
    }

    fn message(&self) -> (m: Outgoing) {
        Outgoing::ReqCalcOptionPrice
    }

    fn encode_fields(&self, fields: &mut FieldSink) -> (r: Result<(), TwsApiError>) {
        self.encode_fields_for_server_version(fields, MAX_CLIENT_VER)
    }

    fn encode_fields_for_server_version(&self, fields: &mut FieldSink, server_version: i32) -> (r: Result<(), TwsApiError>) {

        match ensure_server_version(server_version, MIN_SERVER_VER_REQ_CALC_IMPLIED_VOLAT) {
            Ok(()) => {},
            Err(e) => return Err(e),
        }
        let texts = self.texts(server_version);
        push_texts(fields, &texts)
    }

    fn encode_protobuf(&self) -> (r: Result<Option<Vec<u8>>, TwsApiError>) {
        Ok(None)
    }
}

/// Exercise options request.
#[derive(Debug, Clone, PartialEq)]
pub struct ExerciseOptionsRequest {
    /// Order/request id.
    pub order_id: i32,
    /// Contract.
    pub contract: Contract,
    /// Exercise action.
    pub exercise_action: i32,
    /// Exercise quantity.
    pub exercise_quantity: i32,
    /// Account.
    pub account: String,
    /// Override natural action.
    pub override_system_action: bool,
    /// Manual order time.
    pub manual_order_time: String,
    /// Customer account.
    pub customer_account: String,
    /// Professional customer flag.
    pub professional_customer: bool,
}

impl Default for ExerciseOptionsRequest {
    fn default() -> (r: Self)
        ensures
            r.order_id == 0,
            r.contract.has_defaults(),
            r.exercise_action == 0,
            r.exercise_quantity == 0,
            r.account@.len() == 0,
            !r.override_system_action,
            r.manual_order_time@.len() == 0,
            r.customer_account@.len() == 0,
            !r.professional_customer,
    {
        ExerciseOptionsRequest {
            order_id: 0,
            contract: Contract::default(),
            exercise_action: 0,
            exercise_quantity: 0,
            account: String::new(),
            override_system_action: false,
            manual_order_time: String::new(),
            customer_account: String::new(),
            professional_customer: false,
        }
    }
}

impl ExerciseOptionsRequest {
    /// The texts of the fields after the message id for a server version.
    pub open spec fn field_texts(&self, server_version: i32) -> Seq<Seq<char>> {
        {
        let texts = Seq::<Seq<char>>::empty().push(int_text(2)).push(int_text((self.order_id) as int));
        let texts = if server_version >= MIN_SERVER_VER_TRADING_CLASS { texts.push(int_text((self.contract.con_id) as int)) } else { texts };
        let texts = texts.push(self.contract.symbol@).push(self.contract.sec_type@).push(self.contract.last_trade_date_or_contract_month@).push(double_nullable_field(self.contract.strike.text@)).push(self.contract.right@).push(self.contract.multiplier@).push(self.contract.exchange@).push(self.contract.currency@).push(self.contract.local_symbol@);
        let texts = if server_version >= MIN_SERVER_VER_TRADING_CLASS { texts.push(self.contract.trading_class@) } else { texts };
        let texts = texts.push(int_text((self.exercise_action) as int)).push(int_text((self.exercise_quantity) as int)).push(self.account@).push(bool_text(self.override_system_action));
        let texts = if server_version >= MIN_SERVER_VER_MANUAL_ORDER_TIME_EXERCISE_OPTIONS { texts.push(self.manual_order_time@) } else { texts };
        let texts = if server_version >= MIN_SERVER_VER_CUSTOMER_ACCOUNT { texts.push(self.customer_account@) } else { texts };
        let texts = if server_version >= MIN_SERVER_VER_PROFESSIONAL_CUSTOMER { texts.push(bool_text(self.professional_customer)) } else { texts };
        texts
    }
    }

    fn texts(&self, server_version: i32) -> (out: Vec<String>)
        ensures
            text_views(out@) == self.field_texts(server_version),
    {
        let mut out: Vec<String> = Vec::new();
        assert(text_views(out@) =~= Seq::<Seq<char>>::empty());
        push_i32_text(&mut out, 2);
        push_i32_text(&mut out, self.order_id);
        if server_version >= MIN_SERVER_VER_TRADING_CLASS {
            push_i32_text(&mut out, self.contract.con_id);
        }
        push_string_text(&mut out, &self.contract.symbol);
        push_string_text(&mut out, &self.contract.sec_type);
        push_string_text(&mut out, &self.contract.last_trade_date_or_contract_month);
        push_nullable_double_text(&mut out, &self.contract.strike);
        push_string_text(&mut out, &self.contract.right);
        push_string_text(&mut out, &self.contract.multiplier);
        push_string_text(&mut out, &self.contract.exchange);
        push_string_text(&mut out, &self.contract.currency);
        push_string_text(&mut out, &self.contract.local_symbol);
        if server_version >= MIN_SERVER_VER_TRADING_CLASS {
            push_string_text(&mut out, &self.contract.trading_class);
        }
        push_i32_text(&mut out, self.exercise_action);
        push_i32_text(&mut out, self.exercise_quantity);
        push_string_text(&mut out, &self.account);
        push_bool_text(&mut out, self.override_system_action);
        if server_version >= MIN_SERVER_VER_MANUAL_ORDER_TIME_EXERCISE_OPTIONS {
            push_string_text(&mut out, &self.manual_order_time);
        }
        if server_version >= MIN_SERVER_VER_CUSTOMER_ACCOUNT {
            push_string_text(&mut out, &self.customer_account);
        }
        if server_version >= MIN_SERVER_VER_PROFESSIONAL_CUSTOMER {
            push_bool_text(&mut out, self.professional_customer);
        }
        out
    }
}

impl EncodableRequest for ExerciseOptionsRequest {
    open spec fn outgoing(&self) -> Outgoing {
        Outgoing::ExerciseOptions
    }

    open spec fn encoding(&self, server_version: i32) -> Result<Seq<char>, EncodeFailure> {
        text_encoding(self.field_texts(server_version))
    }

    open spec fn protobuf_payload(&self) -> Option<Seq<u8>> {
        None
    }

    fn message(&self) -> (m: Outgoing) {
        Outgoing::ExerciseOptions
    }

    fn encode_fields(&self, fields: &mut FieldSink) -> (r: Result<(), TwsApiError>) {
        self.encode_fields_for_server_version(fields, MAX_CLIENT_VER)
    }

    fn encode_fields_for_server_version(&self, fields: &mut FieldSink, server_version: i32) -> (r: Result<(), TwsApiError>) {

        let texts = self.texts(server_version);
        push_texts(fields, &texts)
    }

    fn encode_protobuf(&self) -> (r: Result<Option<Vec<u8>>, TwsApiError>) {
        Ok(None)
    }
}

/// Historical ticks request.
#[derive(Debug, Clone, PartialEq)]
pub struct HistoricalTicksRequest {
    /// Request id.
    pub req_id: i32,
    /// Contract.
    pub contract: Contract,
    /// Start date/time.
    pub start_date_time: String,
    /// End date/time.
    pub end_date_time: String,
    /// Number of ticks.
    pub number_of_ticks: i32,
    /// Data type.
    pub what_to_show: String,
    /// Use regular trading hours.
    pub use_rth: bool,
    /// Ignore size flag.
    pub ignore_size: bool,
    /// Request options.
    pub misc_options: Vec<TagValue>,
}

impl Default for HistoricalTicksRequest {
    fn default() -> (r: Self)
        ensures
            r.req_id == 0,
            r.contract.has_defaults(),
            r.start_date_time@.len() == 0,
            r.end_date_time@.len() == 0,
            r.number_of_ticks == 0,
            r.what_to_show@.len() == 0,
            !r.use_rth,
            !r.ignore_size,
            r.misc_options@.len() == 0,
    {
        HistoricalTicksRequest {
            req_id: 0,
            contract: Contract::default(),
            start_date_time: String::new(),
            end_date_time: String::new(),
            number_of_ticks: 0,
            what_to_show: String::new(),
            use_rth: false,
            ignore_size: false,
            misc_options: Vec::new(),
        }
    }
}

impl HistoricalTicksRequest {
    /// The texts of the fields after the message id for a server version.
    pub open spec fn field_texts(&self, server_version: i32) -> Seq<Seq<char>> {
        Seq::<Seq<char>>::empty().push(int_text((self.req_id) as int)).push(int_text((self.contract.con_id) as int)).push(self.contract.symbol@).push(self.contract.sec_type@).push(self.contract.last_trade_date_or_contract_month@).push(double_nullable_field(self.contract.strike.text@)).push(self.contract.right@).push(self.contract.multiplier@).push(self.contract.exchange@).push(self.contract.primary_exchange@).push(self.contract.currency@).push(self.contract.local_symbol@).push(self.contract.trading_class@).push(bool_text(self.contract.include_expired)).push(self.start_date_time@).push(self.end_date_time@).push(int_text((self.number_of_ticks) as int)).push(self.what_to_show@).push(bool_text(self.use_rth)).push(bool_text(self.ignore_size)).push(tws_options_text(self.misc_options@))
    }

    fn texts(&self, server_version: i32) -> (out: Vec<String>)
        ensures
            text_views(out@) == self.field_texts(server_version),
    {
        let mut out: Vec<String> = Vec::new();
        assert(text_views(out@) =~= Seq::<Seq<char>>::empty());
        push_i32_text(&mut out, self.req_id);
        push_i32_text(&mut out, self.contract.con_id);
        push_string_text(&mut out, &self.contract.symbol);
        push_string_text(&mut out, &self.contract.sec_type);
        push_string_text(&mut out, &self.contract.last_trade_date_or_contract_month);
        push_nullable_double_text(&mut out, &self.contract.strike);
        push_string_text(&mut out, &self.contract.right);
        push_string_text(&mut out, &self.contract.multiplier);
        push_string_text(&mut out, &self.contract.exchange);
        push_string_text(&mut out, &self.contract.primary_exchange);
        push_string_text(&mut out, &self.contract.currency);
        push_string_text(&mut out, &self.contract.local_symbol);
        push_string_text(&mut out, &self.contract.trading_class);
        push_bool_text(&mut out, self.contract.include_expired);
        push_string_text(&mut out, &self.start_date_time);
        push_string_text(&mut out, &self.end_date_time);
        push_i32_text(&mut out, self.number_of_ticks);
        push_string_text(&mut out, &self.what_to_show);
        push_bool_text(&mut out, self.use_rth);
        push_bool_text(&mut out, self.ignore_size);
        push_options_text(&mut out, &self.misc_options);
        out
    }
}

impl EncodableRequest for HistoricalTicksRequest {
    open spec fn outgoing(&self) -> Outgoing {
        Outgoing::ReqHistoricalTicks
    }

    open spec fn encoding(&self, server_version: i32) -> Result<Seq<char>, EncodeFailure> {
        gated_encoding(server_version, MIN_SERVER_VER_HISTORICAL_TICKS, self.field_texts(server_version))
    }

    open spec fn protobuf_payload(&self) -> Option<Seq<u8>> {
        None
    }

    fn message(&self) -> (m: Outgoing) {
        Outgoing::ReqHistoricalTicks
    }

    fn encode_fields(&self, fields: &mut FieldSink) -> (r: Result<(), TwsApiError>) {
        self.encode_fields_for_server_version(fields, MAX_CLIENT_VER)
    }

    fn encode_fields_for_server_version(&self, fields: &mut FieldSink, server_version: i32) -> (r: Result<(), TwsApiError>) {

        match ensure_server_version(server_version, MIN_SERVER_VER_HISTORICAL_TICKS) {
            Ok(()) => {},
            Err(e) => return Err(e),
        }
        let texts = self.texts(server_version);
        push_texts(fields, &texts)
    }

    fn encode_protobuf(&self) -> (r: Result<Option<Vec<u8>>, TwsApiError>) {
        Ok(None)
    }
}

/// Contract details request.
#[derive(Debug, Clone, PartialEq)]
pub struct ContractDetailsRequest {
    /// Request id.
    pub req_id: i32,
    /// Contract.
    pub contract: Contract,
}

impl Default for ContractDetailsRequest {
    fn default() -> (r: Self)
        ensures
            r.req_id == 0,
            r.contract.has_defaults(),
    {
        ContractDetailsRequest {
            req_id: 0,
            contract: Contract::default(),
        }
    }
}

impl ContractDetailsRequest {
    /// The texts of the fields after the message id for a server version.
    pub open spec fn field_texts(&self, server_version: i32) -> Seq<Seq<char>> {
        {
        let texts = Seq::<Seq<char>>::empty().push(int_text(8));
        let texts = if server_version >= MIN_SERVER_VER_CONTRACT_DATA_CHAIN { texts.push(int_text((self.req_id) as int)) } else { texts };
        let texts = texts.push(int_text((self.contract.con_id) as int)).push(self.contract.symbol@).push(self.contract.sec_type@).push(self.contract.last_trade_date_or_contract_month@).push(double_nullable_field(self.contract.strike.text@)).push(self.contract.right@).push(self.contract.multiplier@);
        let texts = if server_version >= MIN_SERVER_VER_PRIMARYEXCH { texts.push(self.contract.exchange@).push(self.contract.primary_exchange@) } else { {
            let texts = if server_version >= MIN_SERVER_VER_LINKING { (texts + seq![linked_exchange_text(self.contract)]) } else { texts };
            texts
        } };
        let texts = texts.push(self.contract.currency@).push(self.contract.local_symbol@);
        let texts = if server_version >= MIN_SERVER_VER_TRADING_CLASS { texts.push(self.contract.trading_class@) } else { texts };
        let texts = texts.push(bool_text(self.contract.include_expired));
        let texts = if server_version >= MIN_SERVER_VER_SEC_ID_TYPE { texts.push(self.contract.sec_id_type@).push(self.contract.sec_id@) } else { texts };
        let texts = if server_version >= MIN_SERVER_VER_BOND_ISSUERID { texts.push(self.contract.issuer_id@) } else { texts };
        texts
    }
    }

    fn texts(&self, server_version: i32) -> (out: Vec<String>)
        ensures
            text_views(out@) == self.field_texts(server_version),
    {
        let mut out: Vec<String> = Vec::new();
        assert(text_views(out@) =~= Seq::<Seq<char>>::empty());
        push_i32_text(&mut out, 8);
        if server_version >= MIN_SERVER_VER_CONTRACT_DATA_CHAIN {
            push_i32_text(&mut out, self.req_id);
        }
        push_i32_text(&mut out, self.contract.con_id);
        push_string_text(&mut out, &self.contract.symbol);
        push_string_text(&mut out, &self.contract.sec_type);
        push_string_text(&mut out, &self.contract.last_trade_date_or_contract_month);
        push_nullable_double_text(&mut out, &self.contract.strike);
        push_string_text(&mut out, &self.contract.right);
        push_string_text(&mut out, &self.contract.multiplier);
        if server_version >= MIN_SERVER_VER_PRIMARYEXCH {
            push_string_text(&mut out, &self.contract.exchange);
            push_string_text(&mut out, &self.contract.primary_exchange);
        } else {
            if server_version >= MIN_SERVER_VER_LINKING {
                push_linked_exchange_text(&mut out, &self.contract);
            }
        }
        push_string_text(&mut out, &self.contract.currency);
        push_string_text(&mut out, &self.contract.local_symbol);
        if server_version >= MIN_SERVER_VER_TRADING_CLASS {
            push_string_text(&mut out, &self.contract.trading_class);
        }
        push_bool_text(&mut out, self.contract.include_expired);
        if server_version >= MIN_SERVER_VER_SEC_ID_TYPE {
            push_string_text(&mut out, &self.contract.sec_id_type);
            push_string_text(&mut out, &self.contract.sec_id);
        }
        if server_version >= MIN_SERVER_VER_BOND_ISSUERID {
            push_string_text(&mut out, &self.contract.issuer_id);
        }
        out
    }
}

impl EncodableRequest for ContractDetailsRequest {
    open spec fn outgoing(&self) -> Outgoing {
        Outgoing::ReqContractData
    }

    open spec fn encoding(&self, server_version: i32) -> Result<Seq<char>, EncodeFailure> {
        text_encoding(self.field_texts(server_version))
    }

    open spec fn protobuf_payload(&self) -> Option<Seq<u8>> {
        None
    }

    fn message(&self) -> (m: Outgoing) {
        Outgoing::ReqContractData
    }

    fn encode_fields(&self, fields: &mut FieldSink) -> (r: Result<(), TwsApiError>) {
        self.encode_fields_for_server_version(fields, MAX_CLIENT_VER)
    }

    fn encode_fields_for_server_version(&self, fields: &mut FieldSink, server_version: i32) -> (r: Result<(), TwsApiError>) {

        let texts = self.texts(server_version);
        push_texts(fields, &texts)
    }

    fn encode_protobuf(&self) -> (r: Result<Option<Vec<u8>>, TwsApiError>) {
        Ok(None)
    }
}

/// Historical data request.
#[derive(Debug, Clone, PartialEq)]
pub struct HistoricalDataRequest {
    /// Request id.
    pub req_id: i32,
    /// Contract.
    pub contract: Contract,
    /// End date/time.
    pub end_date_time: String,
    /// Duration string.
    pub duration_str: String,
    /// Bar size setting.
    pub bar_size_setting: String,
    /// Data type.
    pub what_to_show: String,
    /// Use regular trading hours.
    pub use_rth: i32,
    /// Date format.
    pub format_date: i32,
    /// Keep bars up to date.
    pub keep_up_to_date: bool,
    /// Chart options.
    pub chart_options: Vec<TagValue>,
}

impl Default for HistoricalDataRequest {
    fn default() -> (r: Self)
        ensures
            r.req_id == 0,
            r.contract.has_defaults(),
            r.end_date_time@.len() == 0,
            r.duration_str@.len() == 0,
            r.bar_size_setting@.len() == 0,
            r.what_to_show@.len() == 0,
            r.use_rth == 0,
            r.format_date == 0,
            !r.keep_up_to_date,
            r.chart_options@.len() == 0,
    {
        HistoricalDataRequest {
            req_id: 0,
            contract: Contract::default(),
            end_date_time: String::new(),
            duration_str: String::new(),
            bar_size_setting: String::new(),
            what_to_show: String::new(),
            use_rth: 0,
            format_date: 0,
            keep_up_to_date: false,
            chart_options: Vec::new(),
        }
    }
}

impl HistoricalDataRequest {
    /// The texts of the fields after the message id for a server version.
    pub open spec fn field_texts(&self, server_version: i32) -> Seq<Seq<char>> {
        {
        let texts = Seq::<Seq<char>>::empty();
        let texts = if server_version < MIN_SERVER_VER_SYNT_REALTIME_BARS { texts.push(int_text(6)) } else { texts };
        let texts = texts.push(int_text((self.req_id) as int));
        let texts = if server_version >= MIN_SERVER_VER_TRADING_CLASS { texts.push(int_text((self.contract.con_id) as int)) } else { texts };
        let texts = contract_historical_data_texts(texts, self.contract, server_version).push(self.end_date_time@).push(self.bar_size_setting@).push(self.duration_str@).push(int_text((self.use_rth) as int)).push(self.what_to_show@).push(int_text((self.format_date) as int));
        let texts = if self.contract.sec_type@ == "BAG"@ { (texts.push(int_text(self.contract.combo_legs@.len() as int)) + combo_leg_brief_texts(self.contract.combo_legs@)) } else { texts };
        let texts = if server_version >= MIN_SERVER_VER_SYNT_REALTIME_BARS { texts.push(bool_text(self.keep_up_to_date)) } else { texts };
        let texts = if server_version >= MIN_SERVER_VER_LINKING { texts.push(tws_options_text(self.chart_options@)) } else { texts };
        texts
    }
    }

    fn texts(&self, server_version: i32) -> (out: Vec<String>)
        ensures
            text_views(out@) == self.field_texts(server_version),
    {
        let mut out: Vec<String> = Vec::new();
        assert(text_views(out@) =~= Seq::<Seq<char>>::empty());
        proof {
            reveal_strlit("BAG");
        }
        if server_version < MIN_SERVER_VER_SYNT_REALTIME_BARS {
            push_i32_text(&mut out, 6);
        }
        push_i32_text(&mut out, self.req_id);
        if server_version >= MIN_SERVER_VER_TRADING_CLASS {
            push_i32_text(&mut out, self.contract.con_id);
        }
        push_contract_historical_data_texts(&mut out, &self.contract, server_version);
        push_string_text(&mut out, &self.end_date_time);
        push_string_text(&mut out, &self.bar_size_setting);
        push_string_text(&mut out, &self.duration_str);
        push_i32_text(&mut out, self.use_rth);
        push_string_text(&mut out, &self.what_to_show);
        push_i32_text(&mut out, self.format_date);
        if str_eq(self.contract.sec_type.as_str(), "BAG") {
            push_usize_text(&mut out, self.contract.combo_legs.len());
            push_combo_leg_brief_texts(&mut out, &self.contract.combo_legs);
        }
        if server_version >= MIN_SERVER_VER_SYNT_REALTIME_BARS {
            push_bool_text(&mut out, self.keep_up_to_date);
        }
        if server_version >= MIN_SERVER_VER_LINKING {
            push_options_text(&mut out, &self.chart_options);
        }
        out
    }
}

impl EncodableRequest for HistoricalDataRequest {
    open spec fn outgoing(&self) -> Outgoing {
        Outgoing::ReqHistoricalData
    }

    open spec fn encoding(&self, server_version: i32) -> Result<Seq<char>, EncodeFailure> {
        text_encoding(self.field_texts(server_version))
    }

    open spec fn protobuf_payload(&self) -> Option<Seq<u8>> {
        None
    }

    fn message(&self) -> (m: Outgoing) {
        Outgoing::ReqHistoricalData
    }

    fn encode_fields(&self, fields: &mut FieldSink) -> (r: Result<(), TwsApiError>) {
        self.encode_fields_for_server_version(fields, MAX_CLIENT_VER)
    }

    fn encode_fields_for_server_version(&self, fields: &mut FieldSink, server_version: i32) -> (r: Result<(), TwsApiError>) {

        let texts = self.texts(server_version);
        push_texts(fields, &texts)
    }

    fn encode_protobuf(&self) -> (r: Result<Option<Vec<u8>>, TwsApiError>) {
        Ok(None)
    }
}

/// Scanner subscription request.
#[derive(Debug, Clone, PartialEq)]
pub struct ScannerSubscriptionRequest {
    /// Request id.
    pub req_id: i32,
    /// Subscription.
    pub subscription: ScannerSubscription,
    /// Subscription options.
    pub scanner_subscription_options: Vec<TagValue>,
    /// Subscription filter options.
    pub scanner_subscription_filter_options: Vec<TagValue>,
}

impl Default for ScannerSubscriptionRequest {
    fn default() -> (r: Self)
        ensures
            r.req_id == 0,
            r.subscription.has_defaults(),
            r.scanner_subscription_options@.len() == 0,
            r.scanner_subscription_filter_options@.len() == 0,
    {
        ScannerSubscriptionRequest {
            req_id: 0,
            subscription: ScannerSubscription::default(),
            scanner_subscription_options: Vec::new(),
            scanner_subscription_filter_options: Vec::new(),
        }
    }
}

impl ScannerSubscriptionRequest {
    /// The texts of the fields after the message id.
    pub open spec fn field_texts(&self) -> Seq<Seq<char>> {
        ((Seq::<Seq<char>>::empty().push(int_text(4)).push(int_text((self.req_id) as int)).push(int_text((self.subscription.number_of_rows) as int)).push(self.subscription.instrument@).push(self.subscription.location_code@).push(self.subscription.scan_code@).push(double_nullable_field(self.subscription.above_price.text@)).push(double_nullable_field(self.subscription.below_price.text@)).push(empty_int_text(self.subscription.above_volume)).push(double_nullable_field(self.subscription.market_cap_above.text@)).push(double_nullable_field(self.subscription.market_cap_below.text@)).push(self.subscription.moody_rating_above@).push(self.subscription.moody_rating_below@).push(self.subscription.sp_rating_above@).push(self.subscription.sp_rating_below@).push(self.subscription.maturity_date_above@).push(self.subscription.maturity_date_below@).push(double_nullable_field(self.subscription.coupon_rate_above.text@)).push(double_nullable_field(self.subscription.coupon_rate_below.text@)).push(bool_text(self.subscription.exclude_convertible)).push(empty_int_text(self.subscription.average_option_volume_above)).push(self.subscription.scanner_setting_pairs@).push(self.subscription.stock_type_filter@) + tag_value_texts(self.scanner_subscription_options@)) + tag_value_texts(self.scanner_subscription_filter_options@))
    }

    fn texts(&self) -> (out: Vec<String>)
        ensures
            text_views(out@) == self.field_texts(),
    {
        let mut out: Vec<String> = Vec::new();
        assert(text_views(out@) =~= Seq::<Seq<char>>::empty());
        push_i32_text(&mut out, 4);
        push_i32_text(&mut out, self.req_id);
        push_i32_text(&mut out, self.subscription.number_of_rows);
        push_string_text(&mut out, &self.subscription.instrument);
        push_string_text(&mut out, &self.subscription.location_code);
        push_string_text(&mut out, &self.subscription.scan_code);
        push_nullable_double_text(&mut out, &self.subscription.above_price);
        push_nullable_double_text(&mut out, &self.subscription.below_price);
        push_empty_i32_text(&mut out, self.subscription.above_volume);
        push_nullable_double_text(&mut out, &self.subscription.market_cap_above);
        push_nullable_double_text(&mut out, &self.subscription.market_cap_below);
        push_string_text(&mut out, &self.subscription.moody_rating_above);
        push_string_text(&mut out, &self.subscription.moody_rating_below);
        push_string_text(&mut out, &self.subscription.sp_rating_above);
        push_string_text(&mut out, &self.subscription.sp_rating_below);
        push_string_text(&mut out, &self.subscription.maturity_date_above);
        push_string_text(&mut out, &self.subscription.maturity_date_below);
        push_nullable_double_text(&mut out, &self.subscription.coupon_rate_above);
        push_nullable_double_text(&mut out, &self.subscription.coupon_rate_below);
        push_bool_text(&mut out, self.subscription.exclude_convertible);
        push_empty_i32_text(&mut out, self.subscription.average_option_volume_above);
        push_string_text(&mut out, &self.subscription.scanner_setting_pairs);
        push_string_text(&mut out, &self.subscription.stock_type_filter);
        push_tag_value_texts(&mut out, &self.scanner_subscription_options);
        push_tag_value_texts(&mut out, &self.scanner_subscription_filter_options);
        out
    }
}

impl EncodableRequest for ScannerSubscriptionRequest {
    open spec fn outgoing(&self) -> Outgoing {
        Outgoing::ReqScannerSubscription
    }

    open spec fn encoding(&self, server_version: i32) -> Result<Seq<char>, EncodeFailure> {
        text_encoding(self.field_texts())
    }

    open spec fn protobuf_payload(&self) -> Option<Seq<u8>> {
        None
    }

    fn message(&self) -> (m: Outgoing) {
        Outgoing::ReqScannerSubscription
    }

    fn encode_fields(&self, fields: &mut FieldSink) -> (r: Result<(), TwsApiError>) {
        self.encode_fields_for_server_version(fields, MAX_CLIENT_VER)
    }

    fn encode_fields_for_server_version(&self, fields: &mut FieldSink, server_version: i32) -> (r: Result<(), TwsApiError>) {

        let texts = self.texts();
        push_texts(fields, &texts)
    }

    fn encode_protobuf(&self) -> (r: Result<Option<Vec<u8>>, TwsApiError>) {
        Ok(None)
    }
}

// ---------------------------------------------------------------------------------------------
// Where fields stand in encoded requests
// ---------------------------------------------------------------------------------------------

/// True when `b` begins with the fields of `a`.
pub open spec fn begins_with(b: Seq<Seq<char>>, a: Seq<Seq<char>>) -> bool {
    a.len() <= b.len() && forall|i: int| 0 <= i < a.len() ==> #[trigger] b[i] == a[i]
}

/// The field text of a price that may be unset: empty when the price reads as the unset value.
pub open spec fn price_field(t: Seq<char>) -> Seq<char> {
    if unset_double_value(t) {
        Seq::<char>::empty()
    } else if t == "inf"@ {
        "Infinity"@
    } else {
        t
    }
}

/// 1 when `b` holds, else 0.
pub open spec fn one_if(b: bool) -> int {
    if b {
        1
    } else {
        0
    }
}

proof fn lemma_combo_section_extends(acc: Seq<Seq<char>>, sv: i32, c: Contract, o: Order)
    ensures
        begins_with(place_order_combo_texts(acc, sv, c, o), acc),
{
    let r = place_order_combo_texts(acc, sv, c, o);
    assert forall|i: int| 0 <= i < acc.len() implies #[trigger] r[i] == acc[i] by {}
}

proof fn lemma_misc_section_extends(acc: Seq<Seq<char>>, sv: i32, o: Order)
    ensures
        begins_with(place_order_misc_texts(acc, sv, o), acc),
{
    let r = place_order_misc_texts(acc, sv, o);
    assert forall|i: int| 0 <= i < acc.len() implies #[trigger] r[i] == acc[i] by {}
}

proof fn lemma_delta_neutral_section_extends(acc: Seq<Seq<char>>, sv: i32, o: Order)
    ensures
        begins_with(place_order_delta_neutral_texts(acc, sv, o), acc),
{
    let r = place_order_delta_neutral_texts(acc, sv, o);
    assert forall|i: int| 0 <= i < acc.len() implies #[trigger] r[i] == acc[i] by {}
}

proof fn lemma_scale_section_extends(acc: Seq<Seq<char>>, sv: i32, o: Order)
    ensures
        begins_with(place_order_scale_texts(acc, sv, o), acc),
{
    let r = place_order_scale_texts(acc, sv, o);
    assert forall|i: int| 0 <= i < acc.len() implies #[trigger] r[i] == acc[i] by {}
}

proof fn lemma_begins_with_trans(a: Seq<Seq<char>>, b: Seq<Seq<char>>, c: Seq<Seq<char>>)
    requires
        begins_with(b, a),
        begins_with(c, b),
    ensures
        begins_with(c, a),
{
    assert forall|i: int| 0 <= i < a.len() implies #[trigger] c[i] == a[i] by {
        assert(c[i] == b[i]);
    }
}

proof fn lemma_routing_section_extends(acc: Seq<Seq<char>>, sv: i32, c: Contract, o: Order)
    ensures
        begins_with(place_order_routing_texts(acc, sv, c, o), acc),
{
    let t0 = acc;
    let t1 = if sv >= MIN_SERVER_VER_HEDGE_ORDERS {
        let x = t0.push(o.hedge_type@);
        if !(o.hedge_type@.len() == 0) { x.push(o.hedge_param@) } else { x }
    } else { t0 };
    assert(begins_with(t1, t0));
    let t2 = if sv >= MIN_SERVER_VER_OPT_OUT_SMART_ROUTING { t1.push(bool_text(o.opt_out_smart_routing)) } else { t1 };
    assert(begins_with(t2, t1));
    lemma_begins_with_trans(t0, t1, t2);
    let t3 = if sv >= MIN_SERVER_VER_PTA_ORDERS { t2.push(o.clearing_account@).push(o.clearing_intent@) } else { t2 };
    assert(begins_with(t3, t2));
    lemma_begins_with_trans(t0, t2, t3);
    let t4 = if sv >= MIN_SERVER_VER_NOT_HELD { t3.push(bool_text(o.not_held)) } else { t3 };
    assert(begins_with(t4, t3));
    lemma_begins_with_trans(t0, t3, t4);
    let t5 = if sv >= MIN_SERVER_VER_DELTA_NEUTRAL { delta_neutral_texts(t4, c) } else { t4 };
    assert(begins_with(t5, t4));
    lemma_begins_with_trans(t0, t4, t5);
    let t6 = if sv >= MIN_SERVER_VER_ALGO_ORDERS {
        let x = t5.push(o.algo_strategy@);
        if !(o.algo_strategy@.len() == 0) { x + tag_value_texts(o.algo_params@) } else { x }
    } else { t5 };
    assert(begins_with(t6, t5));
    lemma_begins_with_trans(t0, t5, t6);
    let t7 = if sv >= MIN_SERVER_VER_ALGO_ID { t6.push(o.algo_id@) } else { t6 };
    assert(begins_with(t7, t6));
    lemma_begins_with_trans(t0, t6, t7);
    let t8 = t7.push(bool_text(o.what_if));
    assert(begins_with(t8, t7));
    lemma_begins_with_trans(t0, t7, t8);
    let t9 = if sv >= MIN_SERVER_VER_LINKING { t8.push(tws_options_text(o.order_misc_options@)) } else { t8 };
    assert(begins_with(t9, t8));
    lemma_begins_with_trans(t0, t8, t9);
    let t10 = if sv >= MIN_SERVER_VER_ORDER_SOLICITED { t9.push(bool_text(o.solicited)) } else { t9 };
    assert(begins_with(t10, t9));
    lemma_begins_with_trans(t0, t9, t10);
    let t11 = if sv >= MIN_SERVER_VER_RANDOMIZE_SIZE_AND_PRICE { t10.push(bool_text(o.randomize_size)).push(bool_text(o.randomize_price)) } else { t10 };
    assert(begins_with(t11, t10));
    lemma_begins_with_trans(t0, t10, t11);
    assert(t11 == place_order_routing_texts(acc, sv, c, o));
}

proof fn lemma_condition_section_extends(acc: Seq<Seq<char>>, sv: i32, o: Order)
    ensures
        begins_with(place_order_condition_texts(acc, sv, o), acc),
{
    let r = place_order_condition_texts(acc, sv, o);
    assert forall|i: int| 0 <= i < acc.len() implies #[trigger] r[i] == acc[i] by {}
}

#[verifier::rlimit(100)]
proof fn lemma_tail_section_extends(acc: Seq<Seq<char>>, sv: i32, o: Order)
    ensures
        begins_with(place_order_tail_texts(acc, sv, o), acc),
{
    let r = place_order_tail_texts(acc, sv, o);
    assert forall|i: int| 0 <= i < acc.len() implies #[trigger] r[i] == acc[i] by {}
}

/// True when the ten contract fields every request writes stand at `p` in `f`: symbol,
/// security type, expiry, strike (empty when unset), right, multiplier, exchange, primary
/// exchange, currency and local symbol.
pub open spec fn contract_fields_at(f: Seq<Seq<char>>, p: int, c: Contract) -> bool {
    &&& 0 <= p
    &&& p + 10 <= f.len()
    &&& f[p] == c.symbol@
    &&& f[p + 1] == c.sec_type@
    &&& f[p + 2] == c.last_trade_date_or_contract_month@
    &&& f[p + 3] == price_field(c.strike.text@)
    &&& f[p + 4] == c.right@
    &&& f[p + 5] == c.multiplier@
    &&& f[p + 6] == c.exchange@
    &&& f[p + 7] == c.primary_exchange@
    &&& f[p + 8] == c.currency@
    &&& f[p + 9] == c.local_symbol@
}

/// In the fields of a placed order, for every server version, contract and order, the order's
/// own fields begin right after the order id and the contract (`k` fields in front of them):
/// its action, total quantity and order type, then its limit price and its aux price, each an
/// empty field when unset, then its time in force.
#[verifier::rlimit(100)]
pub proof fn lemma_place_order_price_fields(server_version: i32, order_id: i32, c: Contract, o: Order)
    ensures
        ({
            let f = place_order_texts(server_version, order_id, c, o);
            let k = one_if(server_version < MIN_SERVER_VER_ORDER_CONTAINER) + 1 + one_if(
                server_version >= MIN_SERVER_VER_PLACE_ORDER_CONID,
            ) + 10 + one_if(server_version >= MIN_SERVER_VER_TRADING_CLASS) + 2 * one_if(
                server_version >= MIN_SERVER_VER_SEC_ID_TYPE,
            );
            &&& k + 6 <= f.len()
            &&& f[k] == o.action@
            &&& f[k + 1] == o.total_quantity.text@
            &&& f[k + 2] == o.order_type@
            &&& f[k + 3] == price_field(o.limit_price.text@)
            &&& f[k + 4] == price_field(o.aux_price.text@)
            &&& f[k + 5] == o.tif@
            &&& f[k + 6] == o.oca_group@
            &&& f[k + 7] == o.account@
            &&& f[k + 8] == o.open_close@
            &&& f[k + 9] == int_text(o.origin.wire_value() as int)
            &&& f[k + 10] == o.order_ref@
            &&& f[k + 11] == bool_text(o.transmit)
            &&& f[k + 12] == int_text(o.parent_id as int)
            &&& f[k + 13] == bool_text(o.block_order)
            &&& f[k + 14] == bool_text(o.sweep_to_fill)
            &&& f[k + 15] == int_text(o.display_size as int)
            &&& f[k + 16] == int_text(o.trigger_method as int)
            &&& f[k + 17] == bool_text(o.outside_rth)
            &&& f[k + 18] == bool_text(o.hidden)
        }),
        ({
            let f = place_order_texts(server_version, order_id, c, o);
            let a = one_if(server_version < MIN_SERVER_VER_ORDER_CONTAINER);
            let b = a + 1 + one_if(server_version >= MIN_SERVER_VER_PLACE_ORDER_CONID);
            &&& (server_version < MIN_SERVER_VER_ORDER_CONTAINER ==> f[0] == int_text(45))
            &&& f[a] == int_text(order_id as int)
            &&& (server_version >= MIN_SERVER_VER_PLACE_ORDER_CONID ==> f[a + 1] == int_text(c.con_id as int))
            &&& contract_fields_at(f, b, c)
            &&& (server_version >= MIN_SERVER_VER_TRADING_CLASS ==> f[b + 10] == c.trading_class@)
            &&& (server_version >= MIN_SERVER_VER_SEC_ID_TYPE ==> f[b + 10 + one_if(
                server_version >= MIN_SERVER_VER_TRADING_CLASS,
            )] == c.sec_id_type@ && f[b + 11 + one_if(server_version >= MIN_SERVER_VER_TRADING_CLASS)]
                == c.sec_id@)
        }),
{
    lemma_place_order_begins_with_basic(server_version, order_id, c, o);
    reveal_strlit("inf");
    reveal_strlit("Infinity");
    let head = place_order_head_texts(Seq::<Seq<char>>::empty(), server_version, order_id, c);
    let basic = place_order_basic_texts(head, o);
    let f = place_order_texts(server_version, order_id, c, o);
    let k = head.len() as int;
    assert(k == one_if(server_version < MIN_SERVER_VER_ORDER_CONTAINER) + 1 + one_if(
        server_version >= MIN_SERVER_VER_PLACE_ORDER_CONID,
    ) + 10 + one_if(server_version >= MIN_SERVER_VER_TRADING_CLASS) + 2 * one_if(
        server_version >= MIN_SERVER_VER_SEC_ID_TYPE,
    ));
    assert(basic.len() == k + 19);
    assert forall|i: int| 0 <= i < k implies #[trigger] basic[i] == head[i] by {}
    assert forall|i: int| 0 <= i < k + 19 implies #[trigger] f[i] == basic[i] by {}
}

#[verifier::rlimit(100)]
proof fn lemma_place_order_begins_with_basic(server_version: i32, order_id: i32, c: Contract, o: Order)
    ensures
        begins_with(
            place_order_texts(server_version, order_id, c, o),
            place_order_basic_texts(
                place_order_head_texts(Seq::<Seq<char>>::empty(), server_version, order_id, c),
                o,
            ),
        ),
{
    reveal(place_order_texts);
    let head = place_order_head_texts(Seq::<Seq<char>>::empty(), server_version, order_id, c);
    let basic = place_order_basic_texts(head, o);
    let combo = place_order_combo_texts(basic, server_version, c, o);
    let misc = place_order_misc_texts(combo, server_version, o);
    let delta_neutral = place_order_delta_neutral_texts(misc, server_version, o);
    let scale = place_order_scale_texts(delta_neutral, server_version, o);
    let routing = place_order_routing_texts(scale, server_version, c, o);
    let conditions = place_order_condition_texts(routing, server_version, o);
    let f = place_order_tail_texts(conditions, server_version, o);
    lemma_combo_section_extends(basic, server_version, c, o);
    lemma_misc_section_extends(combo, server_version, o);
    lemma_begins_with_trans(basic, combo, misc);
    lemma_delta_neutral_section_extends(misc, server_version, o);
    lemma_begins_with_trans(basic, misc, delta_neutral);
    lemma_scale_section_extends(delta_neutral, server_version, o);
    lemma_begins_with_trans(basic, delta_neutral, scale);
    lemma_routing_section_extends(scale, server_version, c, o);
    lemma_begins_with_trans(basic, scale, routing);
    lemma_condition_section_extends(routing, server_version, o);
    lemma_begins_with_trans(basic, routing, conditions);
    lemma_tail_section_extends(conditions, server_version, o);
    lemma_begins_with_trans(basic, conditions, f);
}

/// In the fields of a historical-data request, for every server version and request, the
/// end date and time comes right after the request id and the contract (`k` fields in front of
/// it), followed by the bar size setting, the duration, the regular-trading-hours flag, what to
/// show and the date format.
pub proof fn lemma_historical_data_fields(r: HistoricalDataRequest, server_version: i32)
    ensures
        ({
            let f = r.field_texts(server_version);
            let k = one_if(server_version < MIN_SERVER_VER_SYNT_REALTIME_BARS) + 1 + one_if(
                server_version >= MIN_SERVER_VER_TRADING_CLASS,
            ) + 10 + one_if(server_version >= MIN_SERVER_VER_TRADING_CLASS) + 1;
            &&& k + 6 <= f.len()
            &&& f[k] == r.end_date_time@
            &&& f[k + 1] == r.bar_size_setting@
            &&& f[k + 2] == r.duration_str@
            &&& f[k + 3] == int_text(r.use_rth as int)
            &&& f[k + 4] == r.what_to_show@
            &&& f[k + 5] == int_text(r.format_date as int)
            &&& (server_version < MIN_SERVER_VER_SYNT_REALTIME_BARS ==> f[0] == int_text(6))
            &&& f[k - 12 - 2 * one_if(server_version >= MIN_SERVER_VER_TRADING_CLASS)] == int_text(
                r.req_id as int,
            )
            &&& (server_version >= MIN_SERVER_VER_TRADING_CLASS ==> f[k - 13] == int_text(
                r.contract.con_id as int,
            ))
            &&& contract_fields_at(f, k - 11 - one_if(server_version >= MIN_SERVER_VER_TRADING_CLASS), r.contract)
            &&& (server_version >= MIN_SERVER_VER_TRADING_CLASS ==> f[k - 2] == r.contract.trading_class@)
            &&& f[k - 1] == bool_text(r.contract.include_expired)
        }),
        ({
            let f = r.field_texts(server_version);
            let options = one_if(server_version >= MIN_SERVER_VER_LINKING);
            &&& (server_version >= MIN_SERVER_VER_LINKING ==> f[f.len() - 1] == tws_options_text(
                r.chart_options@,
            ))
            &&& (server_version >= MIN_SERVER_VER_SYNT_REALTIME_BARS ==> f[f.len() - 1 - options]
                == bool_text(r.keep_up_to_date))
        }),
{
    let f = r.field_texts(server_version);
    let k = one_if(server_version < MIN_SERVER_VER_SYNT_REALTIME_BARS) + 1 + one_if(
        server_version >= MIN_SERVER_VER_TRADING_CLASS,
    ) + 10 + one_if(server_version >= MIN_SERVER_VER_TRADING_CLASS) + 1;
    let t0 = Seq::<Seq<char>>::empty();
    let t1 = if server_version < MIN_SERVER_VER_SYNT_REALTIME_BARS { t0.push(int_text(6)) } else { t0 };
    let t2 = t1.push(int_text((r.req_id) as int));
    let t3 = if server_version >= MIN_SERVER_VER_TRADING_CLASS { t2.push(int_text((r.contract.con_id) as int)) } else { t2 };
    let t4 = contract_historical_data_texts(t3, r.contract, server_version).push(r.end_date_time@).push(
        r.bar_size_setting@,
    ).push(r.duration_str@).push(int_text((r.use_rth) as int)).push(r.what_to_show@).push(
        int_text((r.format_date) as int),
    );
    assert(contract_historical_data_texts(t3, r.contract, server_version).len() == k);
    assert forall|i: int| 0 <= i < k + 6 implies #[trigger] f[i] == t4[i] by {}
    let t5 = if r.contract.sec_type@ == "BAG"@ { (t4.push(int_text(r.contract.combo_legs@.len() as int)) + combo_leg_brief_texts(r.contract.combo_legs@)) } else { t4 };
    let t6 = if server_version >= MIN_SERVER_VER_SYNT_REALTIME_BARS { t5.push(bool_text(r.keep_up_to_date)) } else { t5 };
    let t7 = if server_version >= MIN_SERVER_VER_LINKING { t6.push(tws_options_text(r.chart_options@)) } else { t6 };
    assert(f == t7);
}

/// In the fields of a market-data request, for every server version and request, the generic
/// tick list is followed by the snapshot flag and then, for servers that read it, by the
/// regulatory-snapshot flag; only the market-data options, for servers that read them, come
/// after.
#[verifier::rlimit(100)]
pub proof fn lemma_market_data_snapshot_fields(r: MarketDataRequest, server_version: i32)
    ensures
        ({
            let f = r.field_texts(server_version);
            let regulatory = one_if(server_version >= MIN_SERVER_VER_REQ_SMART_COMPONENTS);
            let options = one_if(server_version >= MIN_SERVER_VER_LINKING);
            let g = f.len() - options - regulatory - 2;
            &&& 0 <= g
            &&& f[g] == r.generic_tick_list@
            &&& f[g + 1] == bool_text(r.snapshot)
            &&& (server_version >= MIN_SERVER_VER_REQ_SMART_COMPONENTS ==> f[g + 2] == bool_text(
                r.regulatory_snapshot,
            ))
            &&& (server_version >= MIN_SERVER_VER_LINKING ==> f[f.len() - 1] == tws_options_text(
                r.market_data_options@,
            ))
        }),
        ({
            let f = r.field_texts(server_version);
            let b = 2 + one_if(server_version >= MIN_SERVER_VER_REQ_MKT_DATA_CONID);
            &&& f[0] == int_text(11)
            &&& f[1] == int_text(r.req_id as int)
            &&& (server_version >= MIN_SERVER_VER_REQ_MKT_DATA_CONID ==> f[2] == int_text(r.contract.con_id as int))
            &&& contract_fields_at(f, b, r.contract)
            &&& (server_version >= MIN_SERVER_VER_TRADING_CLASS ==> f[b + 10] == r.contract.trading_class@)
        }),
{
    reveal_strlit("inf");
    reveal_strlit("Infinity");
    reveal_strlit("BAG");
    let f = r.field_texts(server_version);
    let c = r.contract;
    let t1 = Seq::<Seq<char>>::empty().push(int_text(11)).push(int_text((r.req_id) as int));
    let t2 = if server_version >= MIN_SERVER_VER_REQ_MKT_DATA_CONID { t1.push(int_text((c.con_id) as int)) } else { t1 };
    let t3 = contract_market_data_texts(t2, c, server_version);
    let t4 = if c.sec_type@ == "BAG"@ { (t3.push(int_text(c.combo_legs@.len() as int)) + combo_leg_brief_texts(c.combo_legs@)) } else { t3 };
    assert(begins_with(t4, t3));
    let t5 = if server_version >= MIN_SERVER_VER_DELTA_NEUTRAL { delta_neutral_texts(t4, c) } else { t4 };
    assert(begins_with(t5, t4));
    lemma_begins_with_trans(t3, t4, t5);
    let t6 = t5.push(r.generic_tick_list@).push(bool_text(r.snapshot));
    let t7 = if server_version >= MIN_SERVER_VER_REQ_SMART_COMPONENTS { t6.push(bool_text(r.regulatory_snapshot)) } else { t6 };
    let t8 = if server_version >= MIN_SERVER_VER_LINKING { t7.push(tws_options_text(r.market_data_options@)) } else { t7 };
    assert(begins_with(t8, t5));
    lemma_begins_with_trans(t3, t5, t8);
    assert(f == t8);
    let b = 2 + one_if(server_version >= MIN_SERVER_VER_REQ_MKT_DATA_CONID);
    assert(t3.len() == b + 10 + one_if(server_version >= MIN_SERVER_VER_TRADING_CLASS));
    assert forall|i: int| 0 <= i < t3.len() implies #[trigger] f[i] == t3[i] by {}
}


/// True when the full contract stands at `p` in `f`: its id, then the ten fields every request
/// writes, then its trading class, the include-expired flag, the security id type and the
/// security id.
pub open spec fn full_contract_fields_at(f: Seq<Seq<char>>, p: int, c: Contract) -> bool {
    &&& p + 15 <= f.len()
    &&& f[p] == int_text(c.con_id as int)
    &&& contract_fields_at(f, p + 1, c)
    &&& f[p + 11] == c.trading_class@
    &&& f[p + 12] == bool_text(c.include_expired)
    &&& f[p + 13] == c.sec_id_type@
    &&& f[p + 14] == c.sec_id@
}

/// In the fields of the real-time-bars, head-timestamp, histogram and market-depth requests,
/// for every request, the request's own values stand in their places around the contract: the
/// version (where the request has one) and request id in front, then the contract, then, in
/// order, the bar size, what to show and the regular-trading-hours flag (real-time bars), the
/// regular-trading-hours flag, what to show and the date format (head timestamp), the
/// regular-trading-hours flag and the time period (histogram), the number of rows and the
/// smart-depth flag (market depth).
pub proof fn lemma_contract_request_fields(
    bars: RealTimeBarsRequest,
    head: HeadTimestampRequest,
    histogram: HistogramDataRequest,
    depth: MarketDepthRequest,
)
    ensures
        ({
            let f = bars.field_texts();
            &&& f[0] == int_text(3)
            &&& f[1] == int_text(bars.req_id as int)
            &&& full_contract_fields_at(f, 2, bars.contract)
            &&& f[17] == int_text(bars.bar_size as int)
            &&& f[18] == bars.what_to_show@
            &&& f[19] == bool_text(bars.use_rth)
        }),
        ({
            let f = head.field_texts();
            &&& f.len() == 19
            &&& f[0] == int_text(head.req_id as int)
            &&& full_contract_fields_at(f, 1, head.contract)
            &&& f[16] == bool_text(head.use_rth)
            &&& f[17] == head.what_to_show@
            &&& f[18] == int_text(head.format_date as int)
        }),
        ({
            let f = histogram.field_texts();
            &&& f.len() == 18
            &&& f[0] == int_text(histogram.req_id as int)
            &&& full_contract_fields_at(f, 1, histogram.contract)
            &&& f[16] == bool_text(histogram.use_rth)
            &&& f[17] == histogram.time_period@
        }),
        ({
            let f = depth.field_texts();
            &&& f[0] == int_text(5)
            &&& f[1] == int_text(depth.req_id as int)
            &&& full_contract_fields_at(f, 2, depth.contract)
            &&& f[17] == int_text(depth.num_rows as int)
            &&& f[18] == bool_text(depth.is_smart_depth)
        }),
{
    reveal_strlit("inf");
    reveal_strlit("Infinity");
}

/// In the fields of a historical-ticks request, for every request, the request id and the
/// contract (without its security id) come first, then the start and end times, the number of
/// ticks, what to show, the regular-trading-hours flag, the ignore-size flag and the options.
pub proof fn lemma_historical_ticks_fields(r: HistoricalTicksRequest, server_version: i32)
    ensures
        ({
            let f = r.field_texts(server_version);
            &&& f.len() == 21
            &&& f[0] == int_text(r.req_id as int)
            &&& f[1] == int_text(r.contract.con_id as int)
            &&& contract_fields_at(f, 2, r.contract)
            &&& f[12] == r.contract.trading_class@
            &&& f[13] == bool_text(r.contract.include_expired)
            &&& f[14] == r.start_date_time@
            &&& f[15] == r.end_date_time@
            &&& f[16] == int_text(r.number_of_ticks as int)
            &&& f[17] == r.what_to_show@
            &&& f[18] == bool_text(r.use_rth)
            &&& f[19] == bool_text(r.ignore_size)
            &&& f[20] == tws_options_text(r.misc_options@)
        }),
{
    reveal_strlit("inf");
    reveal_strlit("Infinity");
}


/// The field text of a floating-point value that is always sent: positive infinity goes out as
/// `Infinity`, any other value as its text.
pub open spec fn value_field(t: Seq<char>) -> Seq<char> {
    if t == "inf"@ {
        "Infinity"@
    } else {
        t
    }
}

/// In the fields that follow the combo legs of a placed order, for every server version and
/// order, each value stands in its place, in the order the server reads them: an empty field,
/// the discretionary amount, the good-after and good-till times, the FA group, method and
/// percentage, an empty field for servers before version 177, the model code for servers that
/// read it, the short-sale slot, the designated location, the exempt code for servers that read
/// it, then the OCA type, rule 80A, settling firm, all-or-none flag, minimum quantity, percent
/// offset, two false flags, an empty field, the auction strategy, the starting price, the stock
/// reference price, the delta, the stock range bounds, the override flag, the volatility and
/// its type, and the delta-neutral order type and aux price. Prices and integers that are unset
/// go out as empty fields.
#[verifier::rlimit(100)]
pub proof fn lemma_place_order_misc_fields(acc: Seq<Seq<char>>, server_version: i32, o: Order)
    ensures
        ({
            let f = place_order_misc_texts(acc, server_version, o);
            let p = acc.len() as int;
            let a = one_if(server_version < 177);
            let m = one_if(server_version >= MIN_SERVER_VER_MODELS_SUPPORT);
            let x = one_if(server_version >= MIN_SERVER_VER_SSHORTX_OLD);
            let b = p + 9 + a + m + x;
            &&& begins_with(f, acc)
            &&& f.len() == b + 20
            &&& f[p] == Seq::<char>::empty()
            &&& f[p + 1] == value_field(o.discretionary_amount.text@)
            &&& f[p + 2] == o.good_after_time@
            &&& f[p + 3] == o.good_till_date@
            &&& f[p + 4] == o.fa_group@
            &&& f[p + 5] == o.fa_method@
            &&& f[p + 6] == o.fa_percentage@
            &&& (server_version < 177 ==> f[p + 7] == Seq::<char>::empty())
            &&& (server_version >= MIN_SERVER_VER_MODELS_SUPPORT ==> f[p + 7 + a] == o.model_code@)
            &&& f[p + 7 + a + m] == int_text(o.short_sale_slot as int)
            &&& f[p + 8 + a + m] == o.designated_location@
            &&& (server_version >= MIN_SERVER_VER_SSHORTX_OLD ==> f[p + 9 + a + m] == int_text(
                o.exempt_code as int,
            ))
            &&& f[b] == int_text(o.oca_type as int)
            &&& f[b + 1] == o.rule80a@
            &&& f[b + 2] == o.settling_firm@
            &&& f[b + 3] == bool_text(o.all_or_none)
            &&& f[b + 4] == empty_int_text(o.min_qty)
            &&& f[b + 5] == price_field(o.percent_offset.text@)
            &&& f[b + 6] == bool_text(false)
            &&& f[b + 7] == bool_text(false)
            &&& f[b + 8] == Seq::<char>::empty()
            &&& f[b + 9] == int_text(o.auction_strategy.wire_value() as int)
            &&& f[b + 10] == price_field(o.starting_price.text@)
            &&& f[b + 11] == price_field(o.stock_ref_price.text@)
            &&& f[b + 12] == price_field(o.delta.text@)
            &&& f[b + 13] == price_field(o.stock_range_lower.text@)
            &&& f[b + 14] == price_field(o.stock_range_upper.text@)
            &&& f[b + 15] == bool_text(o.override_percentage_constraints)
            &&& f[b + 16] == price_field(o.volatility.text@)
            &&& f[b + 17] == empty_int_text(o.volatility_type)
            &&& f[b + 18] == o.delta_neutral_order_type@
            &&& f[b + 19] == price_field(o.delta_neutral_aux_price.text@)
        }),
{
    reveal_strlit("inf");
    reveal_strlit("Infinity");
    reveal_strlit("");
    let f = place_order_misc_texts(acc, server_version, o);
    let p = acc.len() as int;
    let t1 = acc.push(""@).push(double_field(o.discretionary_amount.text@)).push(o.good_after_time@).push(
        o.good_till_date@,
    ).push(o.fa_group@).push(o.fa_method@).push(o.fa_percentage@);
    assert(begins_with(t1, acc));
    let t2 = if server_version < 177 { t1.push(""@) } else { t1 };
    assert(begins_with(t2, t1));
    let t3 = if server_version >= MIN_SERVER_VER_MODELS_SUPPORT { t2.push(o.model_code@) } else { t2 };
    assert(begins_with(t3, t2));
    let t4 = t3.push(int_text((o.short_sale_slot) as int)).push(o.designated_location@);
    assert(begins_with(t4, t3));
    let t5 = if server_version >= MIN_SERVER_VER_SSHORTX_OLD { t4.push(int_text((o.exempt_code) as int)) } else { t4 };
    assert(begins_with(t5, t4));
    let t6 = (t5.push(int_text((o.oca_type) as int)).push(o.rule80a@).push(o.settling_firm@).push(bool_text(
        o.all_or_none,
    )).push(empty_int_text(o.min_qty)).push(double_nullable_field(o.percent_offset.text@)).push(bool_text(
        false,
    )).push(bool_text(false)).push(""@) + seq![int_text(o.auction_strategy.wire_value() as int)]).push(
        double_nullable_field(o.starting_price.text@),
    ).push(double_nullable_field(o.stock_ref_price.text@)).push(double_nullable_field(o.delta.text@)).push(
        double_nullable_field(o.stock_range_lower.text@),
    ).push(double_nullable_field(o.stock_range_upper.text@)).push(bool_text(o.override_percentage_constraints)).push(
        double_nullable_field(o.volatility.text@),
    ).push(empty_int_text(o.volatility_type)).push(o.delta_neutral_order_type@).push(
        double_nullable_field(o.delta_neutral_aux_price.text@),
    );
    assert(f == t6);
    assert(begins_with(t6, t5));
    lemma_begins_with_trans(t4, t5, t6);
    lemma_begins_with_trans(t3, t4, t6);
    lemma_begins_with_trans(t2, t3, t6);
    lemma_begins_with_trans(t1, t2, t6);
    lemma_begins_with_trans(acc, t1, t6);
    assert(t1.len() == p + 7);
    assert(t1[p + 1] == value_field(o.discretionary_amount.text@));
    assert(f[p + 1] == t1[p + 1]);
    assert(f[p] == t1[p] && f[p + 2] == t1[p + 2] && f[p + 3] == t1[p + 3] && f[p + 4] == t1[p + 4] && f[p + 5]
        == t1[p + 5] && f[p + 6] == t1[p + 6]);
    let a = one_if(server_version < 177);
    let m = one_if(server_version >= MIN_SERVER_VER_MODELS_SUPPORT);
    let x = one_if(server_version >= MIN_SERVER_VER_SSHORTX_OLD);
    assert(t2.len() == p + 7 + a);
    if server_version < 177 {
        assert(f[p + 7] == t2[p + 7]);
    }
    assert(t3.len() == p + 7 + a + m);
    if server_version >= MIN_SERVER_VER_MODELS_SUPPORT {
        assert(f[p + 7 + a] == t3[p + 7 + a]);
    }
    assert(t4.len() == p + 9 + a + m);
    assert(f[p + 7 + a + m] == t4[p + 7 + a + m]);
    assert(f[p + 8 + a + m] == t4[p + 8 + a + m]);
    assert(t5.len() == p + 9 + a + m + x);
    if server_version >= MIN_SERVER_VER_SSHORTX_OLD {
        assert(f[p + 9 + a + m] == t5[p + 9 + a + m]);
    }
    let b = p + 9 + a + m + x;
    let u = t5.push(int_text((o.oca_type) as int)).push(o.rule80a@).push(o.settling_firm@).push(bool_text(
        o.all_or_none,
    )).push(empty_int_text(o.min_qty)).push(double_nullable_field(o.percent_offset.text@)).push(bool_text(
        false,
    )).push(bool_text(false)).push(""@);
    let v = u + seq![int_text(o.auction_strategy.wire_value() as int)];
    assert(u.len() == b + 9);
    assert(v.len() == b + 10);
    assert(v[b + 9] == int_text(o.auction_strategy.wire_value() as int));
    assert forall|i: int| b <= i < b + 9 implies #[trigger] v[i] == u[i] by {}
    assert(f.len() == b + 20);
    assert forall|i: int| b <= i < b + 10 implies #[trigger] f[i] == v[i] by {}
    assert(f[b + 10] == price_field(o.starting_price.text@));
    assert(f[b + 19] == price_field(o.delta_neutral_aux_price.text@));
}

/// In the trailing and scale fields of a placed order, for every server version and order,
/// each value stands in its place: the continuous-update flag, the reference price type, the
/// trailing stop price, the trailing percent for servers that read it, the scale initial and
/// subsequent level sizes (for older servers an empty field and the initial size), the scale
/// price increment, then, for servers that read them and a set positive increment, the price
/// adjustment value and interval, the profit offset, the auto-reset flag, the initial position
/// and fill quantity and the random-percent flag, and last, for servers that read them, the
/// scale table and the active start and stop times. Unset values go out as empty fields.
pub proof fn lemma_place_order_scale_fields(acc: Seq<Seq<char>>, server_version: i32, o: Order)
    ensures
        ({
            let f = place_order_scale_texts(acc, server_version, o);
            let p = acc.len() as int;
            let tp = one_if(server_version >= MIN_SERVER_VER_TRAILING_PERCENT);
            let q = p + 3 + tp;
            let adj = server_version >= MIN_SERVER_VER_SCALE_ORDERS3 && !unset_double_value(
                o.scale_price_increment.text@,
            ) && positive_double_text(o.scale_price_increment.text@);
            let e = q + 3 + 7 * one_if(adj);
            &&& begins_with(f, acc)
            &&& f.len() == e + 3 * one_if(server_version >= MIN_SERVER_VER_SCALE_TABLE)
            &&& f[p] == bool_text(o.continuous_update)
            &&& f[p + 1] == empty_int_text(o.reference_price_type)
            &&& f[p + 2] == price_field(o.trail_stop_price.text@)
            &&& (server_version >= MIN_SERVER_VER_TRAILING_PERCENT ==> f[p + 3] == price_field(
                o.trailing_percent.text@,
            ))
            &&& (server_version >= MIN_SERVER_VER_SCALE_ORDERS2 ==> f[q] == empty_int_text(
                o.scale_init_level_size,
            ) && f[q + 1] == empty_int_text(o.scale_subs_level_size))
            &&& (server_version < MIN_SERVER_VER_SCALE_ORDERS2 ==> f[q] == Seq::<char>::empty()
                && f[q + 1] == empty_int_text(o.scale_init_level_size))
            &&& f[q + 2] == price_field(o.scale_price_increment.text@)
            &&& (adj ==> {
                &&& f[q + 3] == price_field(o.scale_price_adjust_value.text@)
                &&& f[q + 4] == empty_int_text(o.scale_price_adjust_interval)
                &&& f[q + 5] == price_field(o.scale_profit_offset.text@)
                &&& f[q + 6] == bool_text(o.scale_auto_reset)
                &&& f[q + 7] == empty_int_text(o.scale_init_position)
                &&& f[q + 8] == empty_int_text(o.scale_init_fill_qty)
                &&& f[q + 9] == bool_text(o.scale_random_percent)
            })
            &&& (server_version >= MIN_SERVER_VER_SCALE_TABLE ==> {
                &&& f[e] == o.scale_table@
                &&& f[e + 1] == o.active_start_time@
                &&& f[e + 2] == o.active_stop_time@
            })
        }),
{
    reveal_strlit("inf");
    reveal_strlit("Infinity");
    reveal_strlit("");
    let f = place_order_scale_texts(acc, server_version, o);
    let p = acc.len() as int;
    let t1 = acc.push(bool_text(o.continuous_update)).push(empty_int_text(o.reference_price_type)).push(
        double_nullable_field(o.trail_stop_price.text@),
    );
    assert(begins_with(t1, acc));
    let t2 = if server_version >= MIN_SERVER_VER_TRAILING_PERCENT { t1.push(double_nullable_field(o.trailing_percent.text@)) } else { t1 };
    assert(begins_with(t2, t1));
    let t3 = if server_version >= MIN_SERVER_VER_SCALE_ORDERS2 { t2.push(empty_int_text(o.scale_init_level_size)).push(empty_int_text(o.scale_subs_level_size)) } else { t2.push(""@).push(empty_int_text(o.scale_init_level_size)) };
    assert(begins_with(t3, t2));
    let t4 = t3.push(double_nullable_field(o.scale_price_increment.text@));
    assert(begins_with(t4, t3));
    let adj = server_version >= MIN_SERVER_VER_SCALE_ORDERS3 && !unset_double_value(o.scale_price_increment.text@)
        && positive_double_text(o.scale_price_increment.text@);
    let t5 = if adj { t4.push(double_nullable_field(o.scale_price_adjust_value.text@)).push(empty_int_text(o.scale_price_adjust_interval)).push(double_nullable_field(o.scale_profit_offset.text@)).push(bool_text(o.scale_auto_reset)).push(empty_int_text(o.scale_init_position)).push(empty_int_text(o.scale_init_fill_qty)).push(bool_text(o.scale_random_percent)) } else { t4 };
    assert(begins_with(t5, t4));
    let t6 = if server_version >= MIN_SERVER_VER_SCALE_TABLE { t5.push(o.scale_table@).push(o.active_start_time@).push(o.active_stop_time@) } else { t5 };
    assert(begins_with(t6, t5));
    assert(f == t6);
    lemma_begins_with_trans(t4, t5, t6);
    lemma_begins_with_trans(t3, t4, t6);
    lemma_begins_with_trans(t2, t3, t6);
    lemma_begins_with_trans(t1, t2, t6);
    lemma_begins_with_trans(acc, t1, t6);
    let tp = one_if(server_version >= MIN_SERVER_VER_TRAILING_PERCENT);
    let q = p + 3 + tp;
    assert(t1.len() == p + 3);
    assert(f[p] == t1[p] && f[p + 1] == t1[p + 1] && f[p + 2] == t1[p + 2]);
    assert(t2.len() == q);
    if server_version >= MIN_SERVER_VER_TRAILING_PERCENT {
        assert(f[p + 3] == t2[p + 3]);
    }
    assert(t3.len() == q + 2);
    assert(f[q] == t3[q] && f[q + 1] == t3[q + 1]);
    assert(t4.len() == q + 3);
    assert(f[q + 2] == t4[q + 2]);
    if adj {
        assert(t5.len() == q + 10);
        assert(f[q + 3] == t5[q + 3] && f[q + 4] == t5[q + 4] && f[q + 5] == t5[q + 5] && f[q + 6] == t5[q + 6]
            && f[q + 7] == t5[q + 7] && f[q + 8] == t5[q + 8] && f[q + 9] == t5[q + 9]);
    }
}

} // verus!
