//! Decoders of the field-based payloads, one per incoming message. Each states, field by field,
//! what it gives for the texts of the fields: the text at each position, read as the type its
//! place holds, and the error of the first field that cannot be read.
use vstd::prelude::*;

use crate::comm::str_eq;
use crate::constants::UNSET_INTEGER;
use crate::decoder::{
    bool_at, conjunction_field, decimal_at, decimal_error, decimal_or_zero, i32_at, i32_or_zero, i64_at,
    int_error, int_field, parse_condition_connector, parse_i32, parse_i64, text_at, FieldReader,
};
use crate::error::TwsApiError;
use crate::events::{Event, ScannerDataRow};
use crate::num::{float_text, is_float_text, nonzero_float_text, unset_double_text, DecimalText, Double};
use crate::requests::text_views;
use crate::text::{i32_text, int_text, parse_int, parse_int_spec, string_push_str};
use crate::types::{
    AuctionStrategy, BarData, CommissionAndFeesReport, Contract, ContractDescription, ContractDetails, DeltaNeutralContract, Execution,
    HistoricalSession, HistoricalTick, HistoricalTickBidAsk, HistoricalTickLast, IneligibilityReason,
    Order, OrderAllocation, OrderCondition, OrderState, Origin, SmartComponent, SoftDollarTier, TagValue,
    TickAttribBidAsk, TickAttribLast, TickByTick,
};

verus! {

/// `x`, or zero when `x` is negative.
pub open spec fn max_zero(x: int) -> int {
    if x < 0 {
        0
    } else {
        x
    }
}

/// Field `i` read as a decimal `i64`, zero when it cannot be read.
pub open spec fn i64_or_zero(t: Seq<Seq<char>>, i: int) -> int {
    match i64_at(t, i) {
        Ok(v) => v,
        Err(_) => 0,
    }
}

/// A text read as a decimal `i64`, zero when it is not one.
pub open spec fn i64_text_or_zero(s: Seq<char>) -> int {
    match int_field(s, i64::MIN as int, i64::MAX as int) {
        Ok(v) => v,
        Err(_) => 0,
    }
}

fn i64_or_zero_of(s: &String) -> (r: i64)
    ensures
        r == i64_text_or_zero(s@),
{
    proof {
        crate::text::lemma_parse_int_range(vstd::utf8::encode_utf8(s@), i64::MIN as int, i64::MAX as int);
    }
    match parse_i64(Some(s)) {
        Ok(v) => v,
        Err(_) => 0,
    }
}

/// Skips `per` fields for each of `count` entries, none when `count` is negative.
fn skip_groups(reader: &mut FieldReader, count: i32, per: usize)
    requires
        old(reader).wf(),
        per <= 2,
    ensures
        final(reader).wf(),
        final(reader).texts() == old(reader).texts(),
        final(reader).position() == old(reader).position() + max_zero(count as int) * per,
{
    let n: usize = if count < 0 {
        0
    } else {
        count as usize
    };
    let ghost p = reader.position();
    let mut j: usize = 0;
    while j < n
        invariant
            reader.wf(),
            reader.texts() == old(reader).texts(),
            j <= n,
            n == max_zero(count as int),
            reader.position() == p + j * per,
            per <= 2,
        decreases n - j,
    {
        let mut k: usize = 0;
        while k < per
            invariant
                reader.wf(),
                reader.texts() == old(reader).texts(),
                k <= per,
                reader.position() == p + j * per + k,
            decreases per - k,
        {
            let _ = reader.next_string();
            k = k + 1;
        }
        assert(p + j * per + per == p + (j + 1) * per) by (nonlinear_arith);
        j = j + 1;
    }
}

/// Whether the next field is not a floating-point number, or there is none.
fn strike_not_next(reader: &FieldReader) -> (r: bool)
    requires
        reader.wf(),
    ensures
        r == !(reader.position() < reader.texts().len() && float_text(text_at(reader.texts(), reader.position()))),
{
    match reader.peek(0) {
        Some(s) => !is_float_text(s.as_str()),
        None => true,
    }
}

/// A count field read as an unsigned decimal integer: an optional `+` and at least one digit.
pub open spec fn count_field(s: Seq<char>) -> Option<int> {
    let b = vstd::utf8::encode_utf8(s);
    if b.len() > 0 && b[0] == 45u8 {
        None
    } else {
        match parse_int_spec(b, 0, i64::MAX as int) {
            Ok(v) => Some(v),
            Err(_) => None,
        }
    }
}

/// True when the field at `p` is a count of bars that fill the rest of the fields exactly, eight
/// fields a bar.
pub open spec fn bars_follow_at(t: Seq<Seq<char>>, p: int) -> bool {
    count_field(text_at(t, p)) matches Some(c) && t.len() == p + 1 + c * 8
}

fn bars_follow(reader: &FieldReader) -> (r: bool)
    requires
        reader.wf(),
    ensures
        r == bars_follow_at(reader.texts(), reader.position()),
{
    match reader.peek(0) {
        Some(s) => {
            let b = s.as_str().as_bytes();
            if b.len() > 0 && b[0] == 45u8 {
                return false;
            }
            match parse_int(b, 0, i64::MAX) {
                Ok(c) => {
                    let rest = reader.remaining();
                    rest >= 1 && (rest - 1) as u64 / 8 == c as u64 && (rest - 1) % 8 == 0
                },
                Err(_) => false,
            }
        },
        None => {
            proof {
                assert(text_at(reader.texts(), reader.position()) == Seq::<char>::empty());
                assert(vstd::utf8::encode_utf8(Seq::<char>::empty()) =~= Seq::<u8>::empty()) by {
                    vstd::utf8::encode_utf8_decode_utf8(Seq::<char>::empty());
                }
            }
            false
        },
    }
}

/// The description of a market-depth exchange: its exchange, security type, listing exchange,
/// service data type and aggregate group, joined by `:`.
pub open spec fn depth_exchange_text(
    exchange: Seq<char>,
    sec_type: Seq<char>,
    listing: Seq<char>,
    service: Seq<char>,
    group: int,
) -> Seq<char> {
    exchange + ":"@ + sec_type + ":"@ + listing + ":"@ + service + ":"@ + int_text(group)
}

fn depth_exchange_description(
    exchange: &String,
    sec_type: &String,
    listing: &String,
    service: &String,
    group: i32,
) -> (r: String)
    ensures
        r@ == depth_exchange_text(exchange@, sec_type@, listing@, service@, group as int),
{
    proof {
        reveal_strlit(":");
    }
    let mut s = exchange.clone();
    string_push_str(&mut s, ":");
    string_push_str(&mut s, sec_type.as_str());
    string_push_str(&mut s, ":");
    string_push_str(&mut s, listing.as_str());
    string_push_str(&mut s, ":");
    string_push_str(&mut s, service.as_str());
    string_push_str(&mut s, ":");
    let g = i32_text(group);
    string_push_str(&mut s, g.as_str());
    s
}

// ---------------------------------------------------------------------------------------------
// Ineligibility reasons: pairs of id and description, as many as the count asks for and whole
// pairs are left
// ---------------------------------------------------------------------------------------------

/// How many reasons are read at `p` for `count`: the count, but no more than the whole pairs of
/// fields left.
pub open spec fn ineligibility_reasons_count(t: Seq<Seq<char>>, p: int, count: int) -> int {
    let left = if t.len() > p {
        (t.len() - p) / 2
    } else {
        0
    };
    if max_zero(count) < left {
        max_zero(count)
    } else {
        left
    }
}

/// The position after the reasons read at `p`.
pub open spec fn ineligibility_reasons_end(t: Seq<Seq<char>>, p: int, count: int) -> int {
    p + 2 * ineligibility_reasons_count(t, p, count)
}

/// The reasons read at `p`: each an id and a description, pair after pair.
pub open spec fn ineligibility_reasons_out(t: Seq<Seq<char>>, p: int, count: int, v: Vec<IneligibilityReason>) -> bool {
    &&& v@.len() == ineligibility_reasons_count(t, p, count)
    &&& forall|j: int|
        0 <= j < v@.len() ==> #[trigger] v@[j].id@ == text_at(t, p + 2 * j) && v@[j].description@ == text_at(t, p + 2 * j + 1)
}

#[verifier::spinoff_prover]
#[verifier::rlimit(30)]
fn read_ineligibility_reasons(reader: &mut FieldReader, count: i32) -> (v: Vec<IneligibilityReason>)
    requires
        old(reader).wf(),
    ensures
        final(reader).wf(),
        final(reader).texts() == old(reader).texts(),
        ineligibility_reasons_out(old(reader).texts(), old(reader).position(), count as int, v),
        final(reader).position() == ineligibility_reasons_end(old(reader).texts(), old(reader).position(), count as int),
{
    let ghost t = reader.texts();
    let ghost p = reader.position();
    let n: usize = if count < 0 {
        0
    } else {
        count as usize
    };
    let mut v: Vec<IneligibilityReason> = Vec::new();
    let mut j: usize = 0;
    let mut stopped = false;
    while j < n && !stopped
        invariant
            reader.wf(),
            reader.texts() == t,
            old(reader).texts() == t,
            old(reader).position() == p,
            j <= n,
            n == max_zero(count as int),
            reader.position() == p + 2 * j,
            v@.len() == j,
            j > 0 ==> p + 2 * j <= t.len(),
            stopped ==> t.len() - (p + 2 * j) <= 1,
            forall|i: int|
                0 <= i < j ==> #[trigger] v@[i].id@ == text_at(t, p + 2 * i) && v@[i].description@ == text_at(t, p + 2 * i + 1),
        decreases n - j, (if stopped { 0int } else { 1int }),
    {
        if reader.remaining() <= 1 {
            stopped = true;
        } else {
            let id = reader.next_string();
            let description = reader.next_string();
            v.push(IneligibilityReason { id, description });
            j = j + 1;
        }
    }
    proof {
        let left = if t.len() > p {
            (t.len() - p) / 2
        } else {
            0
        };
        if stopped {
            assert(j == left);
        } else {
            assert(j == n);
            assert(n <= left);
        }
        assert(v@.len() == ineligibility_reasons_count(t, p, count as int));
        assert(old(reader).texts() == t && old(reader).position() == p);
    }
    v
}

// ---------------------------------------------------------------------------------------------
// Order origin and order conditions
// ---------------------------------------------------------------------------------------------

/// The origin an order's origin code stands for: `1` a firm, `2` unknown, anything else a
/// customer.
pub open spec fn origin_for(code: int) -> Origin {
    if code == 1 {
        Origin::Firm
    } else if code == 2 {
        Origin::Unknown
    } else {
        Origin::Customer
    }
}

fn origin_from_code(code: i32) -> (r: Origin)
    ensures
        r == origin_for(code as int),
{
    if code == 1 {
        Origin::Firm
    } else if code == 2 {
        Origin::Unknown
    } else {
        Origin::Customer
    }
}

/// How many fields a condition of the type with code `kind` takes, its code and connector
/// included; a type the decoder does not know takes those two only.
pub open spec fn condition_size(kind: int) -> int {
    if kind == 1 {
        7
    } else if kind == 3 || kind == 4 {
        4
    } else if kind == 5 {
        5
    } else if kind == 6 || kind == 7 {
        6
    } else {
        2
    }
}

/// The position of condition `k` of a list whose first condition starts at `p`.
pub open spec fn condition_pos(t: Seq<Seq<char>>, p: int, k: nat) -> int
    decreases k,
{
    if k == 0 {
        p
    } else {
        let q = condition_pos(t, p, (k - 1) as nat);
        q + condition_size(i32_or_zero(t, q))
    }
}

/// True when the condition at `p` can be read: its integer fields are integers.
pub open spec fn condition_ok(t: Seq<Seq<char>>, p: int) -> bool {
    let kind = i32_or_zero(t, p);
    if kind == 1 {
        i32_at(t, p + 2) is Ok && i32_at(t, p + 3) is Ok
    } else if kind == 6 {
        i32_at(t, p + 2) is Ok && i32_at(t, p + 5) is Ok
    } else if kind == 7 {
        i32_at(t, p + 2) is Ok
    } else {
        true
    }
}

/// The error reading the condition at `p` gives: that of its first integer field that is not
/// an integer.
pub open spec fn condition_err(t: Seq<Seq<char>>, p: int, e: TwsApiError) -> bool {
    let kind = i32_or_zero(t, p);
    if kind == 1 {
        ||| (i32_at(t, p + 2) matches Err(k) && int_error(e, t, p + 2, k))
        ||| (i32_at(t, p + 2) is Ok && (i32_at(t, p + 3) matches Err(k) && int_error(e, t, p + 3, k)))
    } else if kind == 6 {
        ||| (i32_at(t, p + 2) matches Err(k) && int_error(e, t, p + 2, k))
        ||| (i32_at(t, p + 2) is Ok && (i32_at(t, p + 5) matches Err(k) && int_error(e, t, p + 5, k)))
    } else if kind == 7 {
        i32_at(t, p + 2) matches Err(k) && int_error(e, t, p + 2, k)
    } else {
        false
    }
}

/// The condition read at `p`: its type code, then its connector, then the fields of its type;
/// a type the decoder does not know gives an empty time condition.
pub open spec fn condition_out(t: Seq<Seq<char>>, p: int, c: OrderCondition) -> bool {
    let kind = i32_or_zero(t, p);
    let conj = conjunction_field(text_at(t, p + 1));
    if kind == 1 {
        c matches OrderCondition::Price { is_conjunction_connection, trigger_method, con_id, exchange, is_more, price }
            && is_conjunction_connection == conj && trigger_method == i32_or_zero(t, p + 2) && con_id
            == i32_or_zero(t, p + 3) && exchange@ == text_at(t, p + 4) && is_more == bool_at(t, p + 5)
            && price.text@ == text_at(t, p + 6)
    } else if kind == 3 {
        c matches OrderCondition::Time { is_conjunction_connection, is_more, time } && is_conjunction_connection
            == conj && is_more == bool_at(t, p + 2) && time@ == text_at(t, p + 3)
    } else if kind == 4 {
        c matches OrderCondition::Margin { is_conjunction_connection, is_more, percent }
            && is_conjunction_connection == conj && is_more == bool_at(t, p + 2) && percent.text@ == text_at(
            t,
            p + 3,
        )
    } else if kind == 5 {
        c matches OrderCondition::Execution { is_conjunction_connection, sec_type, exchange, symbol }
            && is_conjunction_connection == conj && sec_type@ == text_at(t, p + 2) && exchange@ == text_at(
            t,
            p + 3,
        ) && symbol@ == text_at(t, p + 4)
    } else if kind == 6 {
        c matches OrderCondition::Volume { is_conjunction_connection, con_id, exchange, is_more, volume }
            && is_conjunction_connection == conj && con_id == i32_or_zero(t, p + 2) && exchange@ == text_at(
            t,
            p + 3,
        ) && is_more == bool_at(t, p + 4) && volume == i32_or_zero(t, p + 5)
    } else if kind == 7 {
        c matches OrderCondition::PercentChange {
            is_conjunction_connection,
            con_id,
            exchange,
            is_more,
            change_percent,
        } && is_conjunction_connection == conj && con_id == i32_or_zero(t, p + 2) && exchange@ == text_at(
            t,
            p + 3,
        ) && is_more == bool_at(t, p + 4) && change_percent.text@ == text_at(t, p + 5)
    } else {
        c matches OrderCondition::Time { is_conjunction_connection, is_more, time } && is_conjunction_connection
            == conj && !is_more && time@ == Seq::<char>::empty()
    }
}

/// Reads one order condition at the reader's position: its type code, its connector, then the
/// fields of its type (see `condition_out`); an integer field that cannot be read is refused.
pub fn decode_order_condition(reader: &mut FieldReader) -> (r: Result<OrderCondition, TwsApiError>)
    requires
        old(reader).wf(),
    ensures
        final(reader).wf(),
        final(reader).texts() == old(reader).texts(),
        match r {
            Ok(c) => condition_ok(old(reader).texts(), old(reader).position()) && condition_out(
                old(reader).texts(),
                old(reader).position(),
                c,
            ) && final(reader).position() == old(reader).position() + condition_size(
                i32_or_zero(old(reader).texts(), old(reader).position()),
            ),
            Err(e) => !condition_ok(old(reader).texts(), old(reader).position()) && condition_err(
                old(reader).texts(),
                old(reader).position(),
                e,
            ),
        },
{
    let kind = reader.next_i32_or_default();
    let connector = reader.next_string();
    let is_conjunction_connection = parse_condition_connector(connector.as_str());
    if kind == 1 {
        let trigger_method = match reader.next_i32() {
            Ok(v) => v,
            Err(e) => return Err(e),
        };
        let con_id = match reader.next_i32() {
            Ok(v) => v,
            Err(e) => return Err(e),
        };
        let exchange = reader.next_string();
        let is_more = reader.next_bool();
        let price = reader.next_double();
        Ok(OrderCondition::Price { is_conjunction_connection, trigger_method, con_id, exchange, is_more, price })
    } else if kind == 3 {
        let is_more = reader.next_bool();
        let time = reader.next_string();
        Ok(OrderCondition::Time { is_conjunction_connection, is_more, time })
    } else if kind == 4 {
        let is_more = reader.next_bool();
        let percent = reader.next_double();
        Ok(OrderCondition::Margin { is_conjunction_connection, is_more, percent })
    } else if kind == 5 {
        let sec_type = reader.next_string();
        let exchange = reader.next_string();
        let symbol = reader.next_string();
        Ok(OrderCondition::Execution { is_conjunction_connection, sec_type, exchange, symbol })
    } else if kind == 6 {
        let con_id = match reader.next_i32() {
            Ok(v) => v,
            Err(e) => return Err(e),
        };
        let exchange = reader.next_string();
        let is_more = reader.next_bool();
        let volume = match reader.next_i32() {
            Ok(v) => v,
            Err(e) => return Err(e),
        };
        Ok(OrderCondition::Volume { is_conjunction_connection, con_id, exchange, is_more, volume })
    } else if kind == 7 {
        let con_id = match reader.next_i32() {
            Ok(v) => v,
            Err(e) => return Err(e),
        };
        let exchange = reader.next_string();
        let is_more = reader.next_bool();
        let change_percent = reader.next_double();
        Ok(OrderCondition::PercentChange { is_conjunction_connection, con_id, exchange, is_more, change_percent })
    } else {
        Ok(OrderCondition::Time { is_conjunction_connection, is_more: false, time: String::new() })
    }
}

/// How many conditions the list at `q` holds: its count field, zero when negative.
pub open spec fn order_conditions_count(t: Seq<Seq<char>>, q: int) -> int {
    max_zero(i32_or_zero(t, q))
}

/// `condition_ok` for condition `k` of the list at `q`.
pub open spec fn condition_ok_at(t: Seq<Seq<char>>, q: int, k: int) -> bool {
    condition_ok(t, condition_pos(t, q + 1, k as nat))
}

/// True when every condition of the list at `q` can be read.
pub open spec fn order_conditions_ok(t: Seq<Seq<char>>, q: int) -> bool {
    forall|k: int| 0 <= k < order_conditions_count(t, q) ==> #[trigger] condition_ok_at(t, q, k)
}

/// The conditions read from the list at `q`: a count, then the conditions one after another.
pub open spec fn order_conditions_out(t: Seq<Seq<char>>, q: int, v: Vec<OrderCondition>) -> bool {
    &&& v@.len() == order_conditions_count(t, q)
    &&& forall|k: int|
        0 <= k < v@.len() ==> condition_out(t, condition_pos(t, q + 1, k as nat), #[trigger] v@[k])
}

/// The error reading the list at `q` gives: that of its first condition that cannot be read.
pub open spec fn order_conditions_err(t: Seq<Seq<char>>, q: int, e: TwsApiError) -> bool {
    exists|k: int|
        0 <= k < order_conditions_count(t, q) && (forall|i: int| 0 <= i < k ==> #[trigger] condition_ok_at(t, q, i))
            && !condition_ok_at(t, q, k) && #[trigger] condition_err(t, condition_pos(t, q + 1, k as nat), e)
}

/// The position after the list at `q`.
pub open spec fn order_conditions_end(t: Seq<Seq<char>>, q: int) -> int {
    condition_pos(t, q + 1, order_conditions_count(t, q) as nat)
}

fn read_order_conditions(reader: &mut FieldReader) -> (r: Result<Vec<OrderCondition>, TwsApiError>)
    requires
        old(reader).wf(),
    ensures
        final(reader).wf(),
        final(reader).texts() == old(reader).texts(),
        match r {
            Ok(v) => order_conditions_ok(old(reader).texts(), old(reader).position()) && order_conditions_out(
                old(reader).texts(),
                old(reader).position(),
                v,
            ) && final(reader).position() == order_conditions_end(old(reader).texts(), old(reader).position()),
            Err(e) => !order_conditions_ok(old(reader).texts(), old(reader).position()) && order_conditions_err(
                old(reader).texts(),
                old(reader).position(),
                e,
            ),
        },
{
    let ghost t = reader.texts();
    let ghost q = reader.position();
    let count = reader.next_i32_or_default();
    let n: usize = if count < 0 {
        0
    } else {
        count as usize
    };
    let mut v: Vec<OrderCondition> = Vec::new();
    let mut j: usize = 0;
    while j < n
        invariant
            reader.wf(),
            reader.texts() == t,
            old(reader).texts() == t,
            old(reader).position() == q,
            n == order_conditions_count(t, q),
            j <= n,
            reader.position() == condition_pos(t, q + 1, j as nat),
            v@.len() == j,
            forall|i: int| 0 <= i < j ==> #[trigger] condition_ok_at(t, q, i),
            forall|i: int| 0 <= i < j ==> condition_out(t, condition_pos(t, q + 1, i as nat), #[trigger] v@[i]),
        decreases n - j,
    {
        let ghost pj = reader.position();
        let ghost prev = v@;
        match decode_order_condition(reader) {
            Ok(c) => {
                v.push(c);
            },
            Err(e) => {
                proof {
                    assert(!condition_ok_at(t, q, j as int));
                    assert(condition_err(t, condition_pos(t, q + 1, j as nat), e));
                }
                return Err(e);
            },
        }
        proof {
            assert(condition_ok_at(t, q, j as int));
            assert(condition_pos(t, q + 1, (j + 1) as nat) == pj + condition_size(i32_or_zero(t, pj)));
            assert forall|i: int| 0 <= i < j + 1 implies condition_out(
                t,
                condition_pos(t, q + 1, i as nat),
                #[trigger] v@[i],
            ) by {
                if i < j {
                    assert(v@[i] == prev[i]);
                }
            }
        }
        j = j + 1;
    }
    Ok(v)
}

} // verus!

verus! {

/// True when the scanner row at position `q` can be read.
pub open spec fn scanner_row_ok(t: Seq<Seq<char>>, q: int) -> bool {
    i32_at(t, q) is Ok
        && i32_at(t, q + 1) is Ok
}

/// The scanner row read at position `q`: what each of its fields holds.
pub open spec fn scanner_row_out(t: Seq<Seq<char>>, q: int, x: ScannerDataRow) -> bool {
    x.rank == i32_or_zero(t, q)
        && x.contract.con_id == i32_or_zero(t, q + 1)
        && x.contract.symbol@ == text_at(t, q + 2)
        && x.contract.sec_type@ == text_at(t, q + 3)
        && x.contract.last_trade_date_or_contract_month@ == text_at(t, q + 4)
        && x.contract.last_trade_date@ == Seq::<char>::empty()
        && x.contract.strike.text@ == text_at(t, q + 5)
        && x.contract.right@ == text_at(t, q + 6)
        && x.contract.multiplier@ == Seq::<char>::empty()
        && x.contract.exchange@ == text_at(t, q + 7)
        && x.contract.primary_exchange@ == Seq::<char>::empty()
        && x.contract.currency@ == text_at(t, q + 8)
        && x.contract.local_symbol@ == text_at(t, q + 9)
        && x.contract.trading_class@ == text_at(t, q + 11)
        && x.contract.include_expired == false
        && x.contract.sec_id_type@ == Seq::<char>::empty()
        && x.contract.sec_id@ == Seq::<char>::empty()
        && x.contract.description@ == Seq::<char>::empty()
        && x.contract.issuer_id@ == Seq::<char>::empty()
        && x.contract.combo_legs_description@ == Seq::<char>::empty()
        && x.contract.combo_legs@.len() == 0
        && x.contract.delta_neutral_contract is None
        && x.market_name@ == text_at(t, q + 10)
        && x.distance@ == text_at(t, q + 12)
        && x.benchmark@ == text_at(t, q + 13)
        && x.projection@ == text_at(t, q + 14)
        && x.combo_key@ == text_at(t, q + 15)
}

/// The error reading the scanner row at position `q` gives: that of its first unreadable field.
pub open spec fn scanner_row_err(t: Seq<Seq<char>>, q: int, e: TwsApiError) -> bool {
    (!(i32_at(t, q) is Ok) && (i32_at(t, q) matches Err(k) && int_error(e, t, q, k)))
            || (i32_at(t, q) is Ok && !(i32_at(t, q + 1) is Ok) && (i32_at(t, q + 1) matches Err(k) && int_error(e, t, q + 1, k)))
}

/// `scanner_row_ok` for the element at index `j` of a list that starts at `p`.
pub open spec fn scanner_row_ok_at(t: Seq<Seq<char>>, p: int, j: int) -> bool {
    scanner_row_ok(t, p + j * 16)
}

/// `scanner_row_out` for the element at index `j` of a list that starts at `p`.
pub open spec fn scanner_row_out_at(t: Seq<Seq<char>>, p: int, j: int, x: ScannerDataRow) -> bool {
    scanner_row_out(t, p + j * 16, x)
}

/// `scanner_row_err` for the element at index `j` of a list that starts at `p`.
pub open spec fn scanner_row_err_at(t: Seq<Seq<char>>, p: int, j: int, e: TwsApiError) -> bool {
    scanner_row_err(t, p + j * 16, e)
}

/// True when each of the `n` elements of the list at `p` can be read.
pub open spec fn scanner_row_list_ok(t: Seq<Seq<char>>, p: int, n: int) -> bool {
    forall|j: int| 0 <= j < n ==> #[trigger] scanner_row_ok_at(t, p, j)
}

/// The `n` elements read from the list at `p`, in order.
pub open spec fn scanner_row_list_out(t: Seq<Seq<char>>, p: int, n: int, v: Seq<ScannerDataRow>) -> bool {
    v.len() == n && forall|j: int| 0 <= j < n ==> #[trigger] scanner_row_out_at(t, p, j, v[j])
}

/// The error reading the list at `p` of `n` elements gives: that of its first element that
/// cannot be read.
pub open spec fn scanner_row_list_err(t: Seq<Seq<char>>, p: int, n: int, e: TwsApiError) -> bool {
    exists|j: int|
        0 <= j < n && !scanner_row_ok_at(t, p, j) && #[trigger] scanner_row_err_at(t, p, j, e) && forall|i: int|
            0 <= i < j ==> #[trigger] scanner_row_ok_at(t, p, i)
}

fn read_scanner_row(reader: &mut FieldReader) -> (r: Result<ScannerDataRow, TwsApiError>)
    requires
        old(reader).wf(),
    ensures
        final(reader).wf(),
        final(reader).texts() == old(reader).texts(),
        match r {
            Ok(x) => scanner_row_ok(old(reader).texts(), old(reader).position()) && scanner_row_out(
                old(reader).texts(),
                old(reader).position(),
                x,
            ) && final(reader).position() == old(reader).position() + 16,
            Err(e) => !scanner_row_ok(old(reader).texts(), old(reader).position()) && scanner_row_err(
                old(reader).texts(),
                old(reader).position(),
                e,
            ),
        },
{
    let mut contract_con_id: i32 = 0;
    let mut contract_symbol: String = String::new();
    let mut contract_sec_type: String = String::new();
    let mut contract_last_trade_date_or_contract_month: String = String::new();
    let mut contract_strike: Double = Double::unset();
    let mut contract_right: String = String::new();
    let mut contract_exchange: String = String::new();
    let mut contract_currency: String = String::new();
    let mut contract_local_symbol: String = String::new();
    let mut contract_trading_class: String = String::new();
    let rank: i32 = match reader.next_i32() {
        Ok(v) => v,
        Err(e) => return Err(e),
    };
    contract_con_id = match reader.next_i32() {
        Ok(v) => v,
        Err(e) => return Err(e),
    };
    contract_symbol = reader.next_string();
    contract_sec_type = reader.next_string();
    contract_last_trade_date_or_contract_month = reader.next_string();
    contract_strike = reader.next_double();
    contract_right = reader.next_string();
    contract_exchange = reader.next_string();
    contract_currency = reader.next_string();
    contract_local_symbol = reader.next_string();
    let market_name: String = reader.next_string();
    contract_trading_class = reader.next_string();
    let distance: String = reader.next_string();
    let benchmark: String = reader.next_string();
    let projection: String = reader.next_string();
    let combo_key: String = reader.next_string();
    Ok(ScannerDataRow { rank, contract: Box::new(Contract { con_id: contract_con_id, symbol: contract_symbol, sec_type: contract_sec_type, last_trade_date_or_contract_month: contract_last_trade_date_or_contract_month, last_trade_date: String::new(), strike: contract_strike, right: contract_right, multiplier: String::new(), exchange: contract_exchange, primary_exchange: String::new(), currency: contract_currency, local_symbol: contract_local_symbol, trading_class: contract_trading_class, include_expired: false, sec_id_type: String::new(), sec_id: String::new(), description: String::new(), issuer_id: String::new(), combo_legs_description: String::new(), combo_legs: Vec::new(), delta_neutral_contract: None }), market_name, distance, benchmark, projection, combo_key })
}

fn read_scanner_row_list(reader: &mut FieldReader, count: i32) -> (r: Result<Vec<ScannerDataRow>, TwsApiError>)
    requires
        old(reader).wf(),
    ensures
        final(reader).wf(),
        final(reader).texts() == old(reader).texts(),
        match r {
            Ok(v) => scanner_row_list_ok(old(reader).texts(), old(reader).position(), max_zero(count as int))
                && scanner_row_list_out(old(reader).texts(), old(reader).position(), max_zero(count as int), v@)
                && final(reader).position() == old(reader).position() + max_zero(count as int) * 16,
            Err(e) => !scanner_row_list_ok(old(reader).texts(), old(reader).position(), max_zero(count as int))
                && scanner_row_list_err(old(reader).texts(), old(reader).position(), max_zero(count as int), e),
        },
{
    let ghost t = reader.texts();
    let ghost p = reader.position();
    let n: usize = if count < 0 { 0 } else { count as usize };
    let mut v: Vec<ScannerDataRow> = Vec::new();
    let mut j: usize = 0;
    while j < n
        invariant
            reader.wf(),
            reader.texts() == t,
            old(reader).texts() == t,
            old(reader).position() == p,
            n == max_zero(count as int),
            j <= n,
            reader.position() == p + j * 16,
            v@.len() == j,
            forall|i: int| 0 <= i < j ==> #[trigger] scanner_row_ok_at(t, p, i),
            forall|i: int| 0 <= i < j ==> #[trigger] scanner_row_out_at(t, p, i, v@[i]),
        decreases n - j,
    {
        match read_scanner_row(reader) {
            Ok(x) => {
                v.push(x);
            },
            Err(e) => {
                proof {
                    assert(scanner_row_err_at(t, p, j as int, e));
                    assert(!scanner_row_ok_at(t, p, j as int));
                }
                return Err(e);
            },
        }
        proof {
            assert(scanner_row_ok_at(t, p, j as int));
            assert(scanner_row_out_at(t, p, j as int, v@[j as int]));
        }
        j = j + 1;
    }
    Ok(v)
}

/// True when the soft-dollar tier at position `q` can be read.
pub open spec fn tier_ok(t: Seq<Seq<char>>, q: int) -> bool {
    true
}

/// The soft-dollar tier read at position `q`: what each of its fields holds.
pub open spec fn tier_out(t: Seq<Seq<char>>, q: int, x: SoftDollarTier) -> bool {
    x.name@ == text_at(t, q)
        && x.value@ == text_at(t, q + 1)
        && x.display_name@ == text_at(t, q + 2)
}

/// The error reading the soft-dollar tier at position `q` gives: that of its first unreadable field.
pub open spec fn tier_err(t: Seq<Seq<char>>, q: int, e: TwsApiError) -> bool {
    false
}

/// `tier_ok` for the element at index `j` of a list that starts at `p`.
pub open spec fn tier_ok_at(t: Seq<Seq<char>>, p: int, j: int) -> bool {
    tier_ok(t, p + j * 3)
}

/// `tier_out` for the element at index `j` of a list that starts at `p`.
pub open spec fn tier_out_at(t: Seq<Seq<char>>, p: int, j: int, x: SoftDollarTier) -> bool {
    tier_out(t, p + j * 3, x)
}

/// `tier_err` for the element at index `j` of a list that starts at `p`.
pub open spec fn tier_err_at(t: Seq<Seq<char>>, p: int, j: int, e: TwsApiError) -> bool {
    tier_err(t, p + j * 3, e)
}

/// True when each of the `n` elements of the list at `p` can be read.
pub open spec fn tier_list_ok(t: Seq<Seq<char>>, p: int, n: int) -> bool {
    forall|j: int| 0 <= j < n ==> #[trigger] tier_ok_at(t, p, j)
}

/// The `n` elements read from the list at `p`, in order.
pub open spec fn tier_list_out(t: Seq<Seq<char>>, p: int, n: int, v: Seq<SoftDollarTier>) -> bool {
    v.len() == n && forall|j: int| 0 <= j < n ==> #[trigger] tier_out_at(t, p, j, v[j])
}

/// The error reading the list at `p` of `n` elements gives: that of its first element that
/// cannot be read.
pub open spec fn tier_list_err(t: Seq<Seq<char>>, p: int, n: int, e: TwsApiError) -> bool {
    exists|j: int|
        0 <= j < n && !tier_ok_at(t, p, j) && #[trigger] tier_err_at(t, p, j, e) && forall|i: int|
            0 <= i < j ==> #[trigger] tier_ok_at(t, p, i)
}

fn read_tier(reader: &mut FieldReader) -> (x: SoftDollarTier)
    requires
        old(reader).wf(),
    ensures
        final(reader).wf(),
        final(reader).texts() == old(reader).texts(),
        tier_out(old(reader).texts(), old(reader).position(), x),
        final(reader).position() == old(reader).position() + 3,
{
    let name: String = reader.next_string();
    let value: String = reader.next_string();
    let display_name: String = reader.next_string();
    SoftDollarTier { name, value, display_name }
}

fn read_tier_list(reader: &mut FieldReader, count: i32) -> (v: Vec<SoftDollarTier>)
    requires
        old(reader).wf(),
    ensures
        final(reader).wf(),
        final(reader).texts() == old(reader).texts(),
        tier_list_out(old(reader).texts(), old(reader).position(), max_zero(count as int), v@),
        final(reader).position() == old(reader).position() + max_zero(count as int) * 3,
{
    let ghost t = reader.texts();
    let ghost p = reader.position();
    let n: usize = if count < 0 { 0 } else { count as usize };
    let mut v: Vec<SoftDollarTier> = Vec::new();
    let mut j: usize = 0;
    while j < n
        invariant
            reader.wf(),
            reader.texts() == t,
            old(reader).texts() == t,
            old(reader).position() == p,
            n == max_zero(count as int),
            j <= n,
            reader.position() == p + j * 3,
            v@.len() == j,
            forall|i: int| 0 <= i < j ==> #[trigger] tier_out_at(t, p, i, v@[i]),
        decreases n - j,
    {
        let x = read_tier(reader);
        v.push(x);
        proof {
            assert(tier_out_at(t, p, j as int, v@[j as int]));
        }
        j = j + 1;
    }
    v
}

/// True when the pair of texts at position `q` can be read.
pub open spec fn text_pair_ok(t: Seq<Seq<char>>, q: int) -> bool {
    true
}

/// The pair of texts read at position `q`: what each of its fields holds.
pub open spec fn text_pair_out(t: Seq<Seq<char>>, q: int, x: (String, String)) -> bool {
    x.0@ == text_at(t, q)
        && x.1@ == text_at(t, q + 1)
}

/// The error reading the pair of texts at position `q` gives: that of its first unreadable field.
pub open spec fn text_pair_err(t: Seq<Seq<char>>, q: int, e: TwsApiError) -> bool {
    false
}

/// `text_pair_ok` for the element at index `j` of a list that starts at `p`.
pub open spec fn text_pair_ok_at(t: Seq<Seq<char>>, p: int, j: int) -> bool {
    text_pair_ok(t, p + j * 2)
}

/// `text_pair_out` for the element at index `j` of a list that starts at `p`.
pub open spec fn text_pair_out_at(t: Seq<Seq<char>>, p: int, j: int, x: (String, String)) -> bool {
    text_pair_out(t, p + j * 2, x)
}

/// `text_pair_err` for the element at index `j` of a list that starts at `p`.
pub open spec fn text_pair_err_at(t: Seq<Seq<char>>, p: int, j: int, e: TwsApiError) -> bool {
    text_pair_err(t, p + j * 2, e)
}

/// True when each of the `n` elements of the list at `p` can be read.
pub open spec fn text_pair_list_ok(t: Seq<Seq<char>>, p: int, n: int) -> bool {
    forall|j: int| 0 <= j < n ==> #[trigger] text_pair_ok_at(t, p, j)
}

/// The `n` elements read from the list at `p`, in order.
pub open spec fn text_pair_list_out(t: Seq<Seq<char>>, p: int, n: int, v: Seq<(String, String)>) -> bool {
    v.len() == n && forall|j: int| 0 <= j < n ==> #[trigger] text_pair_out_at(t, p, j, v[j])
}

/// The error reading the list at `p` of `n` elements gives: that of its first element that
/// cannot be read.
pub open spec fn text_pair_list_err(t: Seq<Seq<char>>, p: int, n: int, e: TwsApiError) -> bool {
    exists|j: int|
        0 <= j < n && !text_pair_ok_at(t, p, j) && #[trigger] text_pair_err_at(t, p, j, e) && forall|i: int|
            0 <= i < j ==> #[trigger] text_pair_ok_at(t, p, i)
}

fn read_text_pair(reader: &mut FieldReader) -> (x: (String, String))
    requires
        old(reader).wf(),
    ensures
        final(reader).wf(),
        final(reader).texts() == old(reader).texts(),
        text_pair_out(old(reader).texts(), old(reader).position(), x),
        final(reader).position() == old(reader).position() + 2,
{
    let a: String = reader.next_string();
    let b: String = reader.next_string();
    (a, b)
}

fn read_text_pair_list(reader: &mut FieldReader, count: i32) -> (v: Vec<(String, String)>)
    requires
        old(reader).wf(),
    ensures
        final(reader).wf(),
        final(reader).texts() == old(reader).texts(),
        text_pair_list_out(old(reader).texts(), old(reader).position(), max_zero(count as int), v@),
        final(reader).position() == old(reader).position() + max_zero(count as int) * 2,
{
    let ghost t = reader.texts();
    let ghost p = reader.position();
    let n: usize = if count < 0 { 0 } else { count as usize };
    let mut v: Vec<(String, String)> = Vec::new();
    let mut j: usize = 0;
    while j < n
        invariant
            reader.wf(),
            reader.texts() == t,
            old(reader).texts() == t,
            old(reader).position() == p,
            n == max_zero(count as int),
            j <= n,
            reader.position() == p + j * 2,
            v@.len() == j,
            forall|i: int| 0 <= i < j ==> #[trigger] text_pair_out_at(t, p, i, v@[i]),
        decreases n - j,
    {
        let x = read_text_pair(reader);
        v.push(x);
        proof {
            assert(text_pair_out_at(t, p, j as int, v@[j as int]));
        }
        j = j + 1;
    }
    v
}

/// True when the smart component at position `q` can be read.
pub open spec fn smart_component_ok(t: Seq<Seq<char>>, q: int) -> bool {
    i32_at(t, q) is Ok
}

/// The smart component read at position `q`: what each of its fields holds.
pub open spec fn smart_component_out(t: Seq<Seq<char>>, q: int, x: SmartComponent) -> bool {
    x.bit_number == i32_or_zero(t, q)
        && x.exchange@ == text_at(t, q + 1)
        && x.exchange_letter@ == text_at(t, q + 2)
}

/// The error reading the smart component at position `q` gives: that of its first unreadable field.
pub open spec fn smart_component_err(t: Seq<Seq<char>>, q: int, e: TwsApiError) -> bool {
    (!(i32_at(t, q) is Ok) && (i32_at(t, q) matches Err(k) && int_error(e, t, q, k)))
}

/// `smart_component_ok` for the element at index `j` of a list that starts at `p`.
pub open spec fn smart_component_ok_at(t: Seq<Seq<char>>, p: int, j: int) -> bool {
    smart_component_ok(t, p + j * 3)
}

/// `smart_component_out` for the element at index `j` of a list that starts at `p`.
pub open spec fn smart_component_out_at(t: Seq<Seq<char>>, p: int, j: int, x: SmartComponent) -> bool {
    smart_component_out(t, p + j * 3, x)
}

/// `smart_component_err` for the element at index `j` of a list that starts at `p`.
pub open spec fn smart_component_err_at(t: Seq<Seq<char>>, p: int, j: int, e: TwsApiError) -> bool {
    smart_component_err(t, p + j * 3, e)
}

/// True when each of the `n` elements of the list at `p` can be read.
pub open spec fn smart_component_list_ok(t: Seq<Seq<char>>, p: int, n: int) -> bool {
    forall|j: int| 0 <= j < n ==> #[trigger] smart_component_ok_at(t, p, j)
}

/// The `n` elements read from the list at `p`, in order.
pub open spec fn smart_component_list_out(t: Seq<Seq<char>>, p: int, n: int, v: Seq<SmartComponent>) -> bool {
    v.len() == n && forall|j: int| 0 <= j < n ==> #[trigger] smart_component_out_at(t, p, j, v[j])
}

/// The error reading the list at `p` of `n` elements gives: that of its first element that
/// cannot be read.
pub open spec fn smart_component_list_err(t: Seq<Seq<char>>, p: int, n: int, e: TwsApiError) -> bool {
    exists|j: int|
        0 <= j < n && !smart_component_ok_at(t, p, j) && #[trigger] smart_component_err_at(t, p, j, e) && forall|i: int|
            0 <= i < j ==> #[trigger] smart_component_ok_at(t, p, i)
}

fn read_smart_component(reader: &mut FieldReader) -> (r: Result<SmartComponent, TwsApiError>)
    requires
        old(reader).wf(),
    ensures
        final(reader).wf(),
        final(reader).texts() == old(reader).texts(),
        match r {
            Ok(x) => smart_component_ok(old(reader).texts(), old(reader).position()) && smart_component_out(
                old(reader).texts(),
                old(reader).position(),
                x,
            ) && final(reader).position() == old(reader).position() + 3,
            Err(e) => !smart_component_ok(old(reader).texts(), old(reader).position()) && smart_component_err(
                old(reader).texts(),
                old(reader).position(),
                e,
            ),
        },
{
    let bit_number: i32 = match reader.next_i32() {
        Ok(v) => v,
        Err(e) => return Err(e),
    };
    let exchange: String = reader.next_string();
    let exchange_letter: String = reader.next_string();
    Ok(SmartComponent { bit_number, exchange, exchange_letter })
}

fn read_smart_component_list(reader: &mut FieldReader, count: i32) -> (r: Result<Vec<SmartComponent>, TwsApiError>)
    requires
        old(reader).wf(),
    ensures
        final(reader).wf(),
        final(reader).texts() == old(reader).texts(),
        match r {
            Ok(v) => smart_component_list_ok(old(reader).texts(), old(reader).position(), max_zero(count as int))
                && smart_component_list_out(old(reader).texts(), old(reader).position(), max_zero(count as int), v@)
                && final(reader).position() == old(reader).position() + max_zero(count as int) * 3,
            Err(e) => !smart_component_list_ok(old(reader).texts(), old(reader).position(), max_zero(count as int))
                && smart_component_list_err(old(reader).texts(), old(reader).position(), max_zero(count as int), e),
        },
{
    let ghost t = reader.texts();
    let ghost p = reader.position();
    let n: usize = if count < 0 { 0 } else { count as usize };
    let mut v: Vec<SmartComponent> = Vec::new();
    let mut j: usize = 0;
    while j < n
        invariant
            reader.wf(),
            reader.texts() == t,
            old(reader).texts() == t,
            old(reader).position() == p,
            n == max_zero(count as int),
            j <= n,
            reader.position() == p + j * 3,
            v@.len() == j,
            forall|i: int| 0 <= i < j ==> #[trigger] smart_component_ok_at(t, p, i),
            forall|i: int| 0 <= i < j ==> #[trigger] smart_component_out_at(t, p, i, v@[i]),
        decreases n - j,
    {
        match read_smart_component(reader) {
            Ok(x) => {
                v.push(x);
            },
            Err(e) => {
                proof {
                    assert(smart_component_err_at(t, p, j as int, e));
                    assert(!smart_component_ok_at(t, p, j as int));
                }
                return Err(e);
            },
        }
        proof {
            assert(smart_component_ok_at(t, p, j as int));
            assert(smart_component_out_at(t, p, j as int, v@[j as int]));
        }
        j = j + 1;
    }
    Ok(v)
}

/// True when the market-depth exchange description at position `q` can be read.
pub open spec fn depth_exchange_ok(t: Seq<Seq<char>>, q: int) -> bool {
    true
}

/// The market-depth exchange description read at position `q`: what each of its fields holds.
pub open spec fn depth_exchange_out(t: Seq<Seq<char>>, q: int, x: String) -> bool {
    x@ == depth_exchange_text(text_at(t, q), text_at(t, q + 1), text_at(t, q + 2), text_at(t, q + 3), i32_or_zero(t, q + 4))
}

/// The error reading the market-depth exchange description at position `q` gives: that of its first unreadable field.
pub open spec fn depth_exchange_err(t: Seq<Seq<char>>, q: int, e: TwsApiError) -> bool {
    false
}

/// `depth_exchange_ok` for the element at index `j` of a list that starts at `p`.
pub open spec fn depth_exchange_ok_at(t: Seq<Seq<char>>, p: int, j: int) -> bool {
    depth_exchange_ok(t, p + j * 5)
}

/// `depth_exchange_out` for the element at index `j` of a list that starts at `p`.
pub open spec fn depth_exchange_out_at(t: Seq<Seq<char>>, p: int, j: int, x: String) -> bool {
    depth_exchange_out(t, p + j * 5, x)
}

/// `depth_exchange_err` for the element at index `j` of a list that starts at `p`.
pub open spec fn depth_exchange_err_at(t: Seq<Seq<char>>, p: int, j: int, e: TwsApiError) -> bool {
    depth_exchange_err(t, p + j * 5, e)
}

/// True when each of the `n` elements of the list at `p` can be read.
pub open spec fn depth_exchange_list_ok(t: Seq<Seq<char>>, p: int, n: int) -> bool {
    forall|j: int| 0 <= j < n ==> #[trigger] depth_exchange_ok_at(t, p, j)
}

/// The `n` elements read from the list at `p`, in order.
pub open spec fn depth_exchange_list_out(t: Seq<Seq<char>>, p: int, n: int, v: Seq<String>) -> bool {
    v.len() == n && forall|j: int| 0 <= j < n ==> #[trigger] depth_exchange_out_at(t, p, j, v[j])
}

/// The error reading the list at `p` of `n` elements gives: that of its first element that
/// cannot be read.
pub open spec fn depth_exchange_list_err(t: Seq<Seq<char>>, p: int, n: int, e: TwsApiError) -> bool {
    exists|j: int|
        0 <= j < n && !depth_exchange_ok_at(t, p, j) && #[trigger] depth_exchange_err_at(t, p, j, e) && forall|i: int|
            0 <= i < j ==> #[trigger] depth_exchange_ok_at(t, p, i)
}

fn read_depth_exchange(reader: &mut FieldReader) -> (x: String)
    requires
        old(reader).wf(),
    ensures
        final(reader).wf(),
        final(reader).texts() == old(reader).texts(),
        depth_exchange_out(old(reader).texts(), old(reader).position(), x),
        final(reader).position() == old(reader).position() + 5,
{
    let exchange: String = reader.next_string();
    let sec_type: String = reader.next_string();
    let listing_exch: String = reader.next_string();
    let service_data_type: String = reader.next_string();
    let agg_group: i32 = reader.next_i32_or_default();
    depth_exchange_description(&exchange, &sec_type, &listing_exch, &service_data_type, agg_group)
}

fn read_depth_exchange_list(reader: &mut FieldReader, count: i32) -> (v: Vec<String>)
    requires
        old(reader).wf(),
    ensures
        final(reader).wf(),
        final(reader).texts() == old(reader).texts(),
        depth_exchange_list_out(old(reader).texts(), old(reader).position(), max_zero(count as int), v@),
        final(reader).position() == old(reader).position() + max_zero(count as int) * 5,
{
    let ghost t = reader.texts();
    let ghost p = reader.position();
    let n: usize = if count < 0 { 0 } else { count as usize };
    let mut v: Vec<String> = Vec::new();
    let mut j: usize = 0;
    while j < n
        invariant
            reader.wf(),
            reader.texts() == t,
            old(reader).texts() == t,
            old(reader).position() == p,
            n == max_zero(count as int),
            j <= n,
            reader.position() == p + j * 5,
            v@.len() == j,
            forall|i: int| 0 <= i < j ==> #[trigger] depth_exchange_out_at(t, p, i, v@[i]),
        decreases n - j,
    {
        let x = read_depth_exchange(reader);
        v.push(x);
        proof {
            assert(depth_exchange_out_at(t, p, j as int, v@[j as int]));
        }
        j = j + 1;
    }
    v
}

/// True when the histogram item at position `q` can be read.
pub open spec fn histogram_item_ok(t: Seq<Seq<char>>, q: int) -> bool {
    decimal_at(t, q + 1) is Some
}

/// The histogram item read at position `q`: what each of its fields holds.
pub open spec fn histogram_item_out(t: Seq<Seq<char>>, q: int, x: (Double, DecimalText)) -> bool {
    x.0.text@ == text_at(t, q)
        && x.1.text@ == decimal_or_zero(t, q + 1)
}

/// The error reading the histogram item at position `q` gives: that of its first unreadable field.
pub open spec fn histogram_item_err(t: Seq<Seq<char>>, q: int, e: TwsApiError) -> bool {
    (!(decimal_at(t, q + 1) is Some) && decimal_error(e, t, q + 1))
}

/// `histogram_item_ok` for the element at index `j` of a list that starts at `p`.
pub open spec fn histogram_item_ok_at(t: Seq<Seq<char>>, p: int, j: int) -> bool {
    histogram_item_ok(t, p + j * 2)
}

/// `histogram_item_out` for the element at index `j` of a list that starts at `p`.
pub open spec fn histogram_item_out_at(t: Seq<Seq<char>>, p: int, j: int, x: (Double, DecimalText)) -> bool {
    histogram_item_out(t, p + j * 2, x)
}

/// `histogram_item_err` for the element at index `j` of a list that starts at `p`.
pub open spec fn histogram_item_err_at(t: Seq<Seq<char>>, p: int, j: int, e: TwsApiError) -> bool {
    histogram_item_err(t, p + j * 2, e)
}

/// True when each of the `n` elements of the list at `p` can be read.
pub open spec fn histogram_item_list_ok(t: Seq<Seq<char>>, p: int, n: int) -> bool {
    forall|j: int| 0 <= j < n ==> #[trigger] histogram_item_ok_at(t, p, j)
}

/// The `n` elements read from the list at `p`, in order.
pub open spec fn histogram_item_list_out(t: Seq<Seq<char>>, p: int, n: int, v: Seq<(Double, DecimalText)>) -> bool {
    v.len() == n && forall|j: int| 0 <= j < n ==> #[trigger] histogram_item_out_at(t, p, j, v[j])
}

/// The error reading the list at `p` of `n` elements gives: that of its first element that
/// cannot be read.
pub open spec fn histogram_item_list_err(t: Seq<Seq<char>>, p: int, n: int, e: TwsApiError) -> bool {
    exists|j: int|
        0 <= j < n && !histogram_item_ok_at(t, p, j) && #[trigger] histogram_item_err_at(t, p, j, e) && forall|i: int|
            0 <= i < j ==> #[trigger] histogram_item_ok_at(t, p, i)
}

fn read_histogram_item(reader: &mut FieldReader) -> (r: Result<(Double, DecimalText), TwsApiError>)
    requires
        old(reader).wf(),
    ensures
        final(reader).wf(),
        final(reader).texts() == old(reader).texts(),
        match r {
            Ok(x) => histogram_item_ok(old(reader).texts(), old(reader).position()) && histogram_item_out(
                old(reader).texts(),
                old(reader).position(),
                x,
            ) && final(reader).position() == old(reader).position() + 2,
            Err(e) => !histogram_item_ok(old(reader).texts(), old(reader).position()) && histogram_item_err(
                old(reader).texts(),
                old(reader).position(),
                e,
            ),
        },
{
    let a: Double = reader.next_double();
    let b: DecimalText = match reader.next_decimal() {
        Ok(v) => v,
        Err(e) => return Err(e),
    };
    Ok((a, b))
}

fn read_histogram_item_list(reader: &mut FieldReader, count: i32) -> (r: Result<Vec<(Double, DecimalText)>, TwsApiError>)
    requires
        old(reader).wf(),
    ensures
        final(reader).wf(),
        final(reader).texts() == old(reader).texts(),
        match r {
            Ok(v) => histogram_item_list_ok(old(reader).texts(), old(reader).position(), max_zero(count as int))
                && histogram_item_list_out(old(reader).texts(), old(reader).position(), max_zero(count as int), v@)
                && final(reader).position() == old(reader).position() + max_zero(count as int) * 2,
            Err(e) => !histogram_item_list_ok(old(reader).texts(), old(reader).position(), max_zero(count as int))
                && histogram_item_list_err(old(reader).texts(), old(reader).position(), max_zero(count as int), e),
        },
{
    let ghost t = reader.texts();
    let ghost p = reader.position();
    let n: usize = if count < 0 { 0 } else { count as usize };
    let mut v: Vec<(Double, DecimalText)> = Vec::new();
    let mut j: usize = 0;
    while j < n
        invariant
            reader.wf(),
            reader.texts() == t,
            old(reader).texts() == t,
            old(reader).position() == p,
            n == max_zero(count as int),
            j <= n,
            reader.position() == p + j * 2,
            v@.len() == j,
            forall|i: int| 0 <= i < j ==> #[trigger] histogram_item_ok_at(t, p, i),
            forall|i: int| 0 <= i < j ==> #[trigger] histogram_item_out_at(t, p, i, v@[i]),
        decreases n - j,
    {
        match read_histogram_item(reader) {
            Ok(x) => {
                v.push(x);
            },
            Err(e) => {
                proof {
                    assert(histogram_item_err_at(t, p, j as int, e));
                    assert(!histogram_item_ok_at(t, p, j as int));
                }
                return Err(e);
            },
        }
        proof {
            assert(histogram_item_ok_at(t, p, j as int));
            assert(histogram_item_out_at(t, p, j as int, v@[j as int]));
        }
        j = j + 1;
    }
    Ok(v)
}

/// True when the price increment at position `q` can be read.
pub open spec fn price_increment_ok(t: Seq<Seq<char>>, q: int) -> bool {
    true
}

/// The price increment read at position `q`: what each of its fields holds.
pub open spec fn price_increment_out(t: Seq<Seq<char>>, q: int, x: (Double, Double)) -> bool {
    x.0.text@ == text_at(t, q)
        && x.1.text@ == text_at(t, q + 1)
}

/// The error reading the price increment at position `q` gives: that of its first unreadable field.
pub open spec fn price_increment_err(t: Seq<Seq<char>>, q: int, e: TwsApiError) -> bool {
    false
}

/// `price_increment_ok` for the element at index `j` of a list that starts at `p`.
pub open spec fn price_increment_ok_at(t: Seq<Seq<char>>, p: int, j: int) -> bool {
    price_increment_ok(t, p + j * 2)
}

/// `price_increment_out` for the element at index `j` of a list that starts at `p`.
pub open spec fn price_increment_out_at(t: Seq<Seq<char>>, p: int, j: int, x: (Double, Double)) -> bool {
    price_increment_out(t, p + j * 2, x)
}

/// `price_increment_err` for the element at index `j` of a list that starts at `p`.
pub open spec fn price_increment_err_at(t: Seq<Seq<char>>, p: int, j: int, e: TwsApiError) -> bool {
    price_increment_err(t, p + j * 2, e)
}

/// True when each of the `n` elements of the list at `p` can be read.
pub open spec fn price_increment_list_ok(t: Seq<Seq<char>>, p: int, n: int) -> bool {
    forall|j: int| 0 <= j < n ==> #[trigger] price_increment_ok_at(t, p, j)
}

/// The `n` elements read from the list at `p`, in order.
pub open spec fn price_increment_list_out(t: Seq<Seq<char>>, p: int, n: int, v: Seq<(Double, Double)>) -> bool {
    v.len() == n && forall|j: int| 0 <= j < n ==> #[trigger] price_increment_out_at(t, p, j, v[j])
}

/// The error reading the list at `p` of `n` elements gives: that of its first element that
/// cannot be read.
pub open spec fn price_increment_list_err(t: Seq<Seq<char>>, p: int, n: int, e: TwsApiError) -> bool {
    exists|j: int|
        0 <= j < n && !price_increment_ok_at(t, p, j) && #[trigger] price_increment_err_at(t, p, j, e) && forall|i: int|
            0 <= i < j ==> #[trigger] price_increment_ok_at(t, p, i)
}

fn read_price_increment(reader: &mut FieldReader) -> (x: (Double, Double))
    requires
        old(reader).wf(),
    ensures
        final(reader).wf(),
        final(reader).texts() == old(reader).texts(),
        price_increment_out(old(reader).texts(), old(reader).position(), x),
        final(reader).position() == old(reader).position() + 2,
{
    let a: Double = reader.next_double();
    let b: Double = reader.next_double();
    (a, b)
}

fn read_price_increment_list(reader: &mut FieldReader, count: i32) -> (v: Vec<(Double, Double)>)
    requires
        old(reader).wf(),
    ensures
        final(reader).wf(),
        final(reader).texts() == old(reader).texts(),
        price_increment_list_out(old(reader).texts(), old(reader).position(), max_zero(count as int), v@),
        final(reader).position() == old(reader).position() + max_zero(count as int) * 2,
{
    let ghost t = reader.texts();
    let ghost p = reader.position();
    let n: usize = if count < 0 { 0 } else { count as usize };
    let mut v: Vec<(Double, Double)> = Vec::new();
    let mut j: usize = 0;
    while j < n
        invariant
            reader.wf(),
            reader.texts() == t,
            old(reader).texts() == t,
            old(reader).position() == p,
            n == max_zero(count as int),
            j <= n,
            reader.position() == p + j * 2,
            v@.len() == j,
            forall|i: int| 0 <= i < j ==> #[trigger] price_increment_out_at(t, p, i, v@[i]),
        decreases n - j,
    {
        let x = read_price_increment(reader);
        v.push(x);
        proof {
            assert(price_increment_out_at(t, p, j as int, v@[j as int]));
        }
        j = j + 1;
    }
    v
}

/// True when the historical session at position `q` can be read.
pub open spec fn session_ok(t: Seq<Seq<char>>, q: int) -> bool {
    true
}

/// The historical session read at position `q`: what each of its fields holds.
pub open spec fn session_out(t: Seq<Seq<char>>, q: int, x: HistoricalSession) -> bool {
    x.start_date_time@ == text_at(t, q)
        && x.end_date_time@ == text_at(t, q + 1)
        && x.ref_date@ == text_at(t, q + 2)
}

/// The error reading the historical session at position `q` gives: that of its first unreadable field.
pub open spec fn session_err(t: Seq<Seq<char>>, q: int, e: TwsApiError) -> bool {
    false
}

/// `session_ok` for the element at index `j` of a list that starts at `p`.
pub open spec fn session_ok_at(t: Seq<Seq<char>>, p: int, j: int) -> bool {
    session_ok(t, p + j * 3)
}

/// `session_out` for the element at index `j` of a list that starts at `p`.
pub open spec fn session_out_at(t: Seq<Seq<char>>, p: int, j: int, x: HistoricalSession) -> bool {
    session_out(t, p + j * 3, x)
}

/// `session_err` for the element at index `j` of a list that starts at `p`.
pub open spec fn session_err_at(t: Seq<Seq<char>>, p: int, j: int, e: TwsApiError) -> bool {
    session_err(t, p + j * 3, e)
}

/// True when each of the `n` elements of the list at `p` can be read.
pub open spec fn session_list_ok(t: Seq<Seq<char>>, p: int, n: int) -> bool {
    forall|j: int| 0 <= j < n ==> #[trigger] session_ok_at(t, p, j)
}

/// The `n` elements read from the list at `p`, in order.
pub open spec fn session_list_out(t: Seq<Seq<char>>, p: int, n: int, v: Seq<HistoricalSession>) -> bool {
    v.len() == n && forall|j: int| 0 <= j < n ==> #[trigger] session_out_at(t, p, j, v[j])
}

/// The error reading the list at `p` of `n` elements gives: that of its first element that
/// cannot be read.
pub open spec fn session_list_err(t: Seq<Seq<char>>, p: int, n: int, e: TwsApiError) -> bool {
    exists|j: int|
        0 <= j < n && !session_ok_at(t, p, j) && #[trigger] session_err_at(t, p, j, e) && forall|i: int|
            0 <= i < j ==> #[trigger] session_ok_at(t, p, i)
}

fn read_session(reader: &mut FieldReader) -> (x: HistoricalSession)
    requires
        old(reader).wf(),
    ensures
        final(reader).wf(),
        final(reader).texts() == old(reader).texts(),
        session_out(old(reader).texts(), old(reader).position(), x),
        final(reader).position() == old(reader).position() + 3,
{
    let start_date_time: String = reader.next_string();
    let end_date_time: String = reader.next_string();
    let ref_date: String = reader.next_string();
    HistoricalSession { start_date_time, end_date_time, ref_date }
}

fn read_session_list(reader: &mut FieldReader, count: i32) -> (v: Vec<HistoricalSession>)
    requires
        old(reader).wf(),
    ensures
        final(reader).wf(),
        final(reader).texts() == old(reader).texts(),
        session_list_out(old(reader).texts(), old(reader).position(), max_zero(count as int), v@),
        final(reader).position() == old(reader).position() + max_zero(count as int) * 3,
{
    let ghost t = reader.texts();
    let ghost p = reader.position();
    let n: usize = if count < 0 { 0 } else { count as usize };
    let mut v: Vec<HistoricalSession> = Vec::new();
    let mut j: usize = 0;
    while j < n
        invariant
            reader.wf(),
            reader.texts() == t,
            old(reader).texts() == t,
            old(reader).position() == p,
            n == max_zero(count as int),
            j <= n,
            reader.position() == p + j * 3,
            v@.len() == j,
            forall|i: int| 0 <= i < j ==> #[trigger] session_out_at(t, p, i, v@[i]),
        decreases n - j,
    {
        let x = read_session(reader);
        v.push(x);
        proof {
            assert(session_out_at(t, p, j as int, v@[j as int]));
        }
        j = j + 1;
    }
    v
}

/// True when the bar at position `q` can be read.
pub open spec fn bar_ok(t: Seq<Seq<char>>, q: int) -> bool {
    decimal_at(t, q + 5) is Some
        && decimal_at(t, q + 6) is Some
        && i32_at(t, q + 7) is Ok
}

/// The bar read at position `q`: what each of its fields holds.
pub open spec fn bar_out(t: Seq<Seq<char>>, q: int, x: BarData) -> bool {
    x.date@ == text_at(t, q)
        && x.open.text@ == text_at(t, q + 1)
        && x.high.text@ == text_at(t, q + 2)
        && x.low.text@ == text_at(t, q + 3)
        && x.close.text@ == text_at(t, q + 4)
        && x.volume.text@ == decimal_or_zero(t, q + 5)
        && x.wap.text@ == decimal_or_zero(t, q + 6)
        && x.bar_count == i32_or_zero(t, q + 7)
}

/// The error reading the bar at position `q` gives: that of its first unreadable field.
pub open spec fn bar_err(t: Seq<Seq<char>>, q: int, e: TwsApiError) -> bool {
    (!(decimal_at(t, q + 5) is Some) && decimal_error(e, t, q + 5))
            || (decimal_at(t, q + 5) is Some && !(decimal_at(t, q + 6) is Some) && decimal_error(e, t, q + 6))
            || (decimal_at(t, q + 5) is Some && decimal_at(t, q + 6) is Some && !(i32_at(t, q + 7) is Ok) && (i32_at(t, q + 7) matches Err(k) && int_error(e, t, q + 7, k)))
}

/// `bar_ok` for the element at index `j` of a list that starts at `p`.
pub open spec fn bar_ok_at(t: Seq<Seq<char>>, p: int, j: int) -> bool {
    bar_ok(t, p + j * 8)
}

/// `bar_out` for the element at index `j` of a list that starts at `p`.
pub open spec fn bar_out_at(t: Seq<Seq<char>>, p: int, j: int, x: BarData) -> bool {
    bar_out(t, p + j * 8, x)
}

/// `bar_err` for the element at index `j` of a list that starts at `p`.
pub open spec fn bar_err_at(t: Seq<Seq<char>>, p: int, j: int, e: TwsApiError) -> bool {
    bar_err(t, p + j * 8, e)
}

/// True when each of the `n` elements of the list at `p` can be read.
pub open spec fn bar_list_ok(t: Seq<Seq<char>>, p: int, n: int) -> bool {
    forall|j: int| 0 <= j < n ==> #[trigger] bar_ok_at(t, p, j)
}

/// The `n` elements read from the list at `p`, in order.
pub open spec fn bar_list_out(t: Seq<Seq<char>>, p: int, n: int, v: Seq<BarData>) -> bool {
    v.len() == n && forall|j: int| 0 <= j < n ==> #[trigger] bar_out_at(t, p, j, v[j])
}

/// The error reading the list at `p` of `n` elements gives: that of its first element that
/// cannot be read.
pub open spec fn bar_list_err(t: Seq<Seq<char>>, p: int, n: int, e: TwsApiError) -> bool {
    exists|j: int|
        0 <= j < n && !bar_ok_at(t, p, j) && #[trigger] bar_err_at(t, p, j, e) && forall|i: int|
            0 <= i < j ==> #[trigger] bar_ok_at(t, p, i)
}

fn read_bar(reader: &mut FieldReader) -> (r: Result<BarData, TwsApiError>)
    requires
        old(reader).wf(),
    ensures
        final(reader).wf(),
        final(reader).texts() == old(reader).texts(),
        match r {
            Ok(x) => bar_ok(old(reader).texts(), old(reader).position()) && bar_out(
                old(reader).texts(),
                old(reader).position(),
                x,
            ) && final(reader).position() == old(reader).position() + 8,
            Err(e) => !bar_ok(old(reader).texts(), old(reader).position()) && bar_err(
                old(reader).texts(),
                old(reader).position(),
                e,
            ),
        },
{
    let date: String = reader.next_string();
    let open: Double = reader.next_double();
    let high: Double = reader.next_double();
    let low: Double = reader.next_double();
    let close: Double = reader.next_double();
    let volume: DecimalText = match reader.next_decimal() {
        Ok(v) => v,
        Err(e) => return Err(e),
    };
    let wap: DecimalText = match reader.next_decimal() {
        Ok(v) => v,
        Err(e) => return Err(e),
    };
    let bar_count: i32 = match reader.next_i32() {
        Ok(v) => v,
        Err(e) => return Err(e),
    };
    Ok(BarData { date, open, high, low, close, volume, wap, bar_count })
}

fn read_bar_list(reader: &mut FieldReader, count: i32) -> (r: Result<Vec<BarData>, TwsApiError>)
    requires
        old(reader).wf(),
    ensures
        final(reader).wf(),
        final(reader).texts() == old(reader).texts(),
        match r {
            Ok(v) => bar_list_ok(old(reader).texts(), old(reader).position(), max_zero(count as int))
                && bar_list_out(old(reader).texts(), old(reader).position(), max_zero(count as int), v@)
                && final(reader).position() == old(reader).position() + max_zero(count as int) * 8,
            Err(e) => !bar_list_ok(old(reader).texts(), old(reader).position(), max_zero(count as int))
                && bar_list_err(old(reader).texts(), old(reader).position(), max_zero(count as int), e),
        },
{
    let ghost t = reader.texts();
    let ghost p = reader.position();
    let n: usize = if count < 0 { 0 } else { count as usize };
    let mut v: Vec<BarData> = Vec::new();
    let mut j: usize = 0;
    while j < n
        invariant
            reader.wf(),
            reader.texts() == t,
            old(reader).texts() == t,
            old(reader).position() == p,
            n == max_zero(count as int),
            j <= n,
            reader.position() == p + j * 8,
            v@.len() == j,
            forall|i: int| 0 <= i < j ==> #[trigger] bar_ok_at(t, p, i),
            forall|i: int| 0 <= i < j ==> #[trigger] bar_out_at(t, p, i, v@[i]),
        decreases n - j,
    {
        match read_bar(reader) {
            Ok(x) => {
                v.push(x);
            },
            Err(e) => {
                proof {
                    assert(bar_err_at(t, p, j as int, e));
                    assert(!bar_ok_at(t, p, j as int));
                }
                return Err(e);
            },
        }
        proof {
            assert(bar_ok_at(t, p, j as int));
            assert(bar_out_at(t, p, j as int, v@[j as int]));
        }
        j = j + 1;
    }
    Ok(v)
}

/// True when the historical tick at position `q` can be read.
pub open spec fn tick_ok(t: Seq<Seq<char>>, q: int) -> bool {
    i32_at(t, q) is Ok
        && decimal_at(t, q + 3) is Some
}

/// The historical tick read at position `q`: what each of its fields holds.
pub open spec fn tick_out(t: Seq<Seq<char>>, q: int, x: HistoricalTick) -> bool {
    x.time == i32_or_zero(t, q)
        && x.price.text@ == text_at(t, q + 2)
        && x.size.text@ == decimal_or_zero(t, q + 3)
}

/// The error reading the historical tick at position `q` gives: that of its first unreadable field.
pub open spec fn tick_err(t: Seq<Seq<char>>, q: int, e: TwsApiError) -> bool {
    (!(i32_at(t, q) is Ok) && (i32_at(t, q) matches Err(k) && int_error(e, t, q, k)))
            || (i32_at(t, q) is Ok && !(decimal_at(t, q + 3) is Some) && decimal_error(e, t, q + 3))
}

/// `tick_ok` for the element at index `j` of a list that starts at `p`.
pub open spec fn tick_ok_at(t: Seq<Seq<char>>, p: int, j: int) -> bool {
    tick_ok(t, p + j * 4)
}

/// `tick_out` for the element at index `j` of a list that starts at `p`.
pub open spec fn tick_out_at(t: Seq<Seq<char>>, p: int, j: int, x: HistoricalTick) -> bool {
    tick_out(t, p + j * 4, x)
}

/// `tick_err` for the element at index `j` of a list that starts at `p`.
pub open spec fn tick_err_at(t: Seq<Seq<char>>, p: int, j: int, e: TwsApiError) -> bool {
    tick_err(t, p + j * 4, e)
}

/// True when each of the `n` elements of the list at `p` can be read.
pub open spec fn tick_list_ok(t: Seq<Seq<char>>, p: int, n: int) -> bool {
    forall|j: int| 0 <= j < n ==> #[trigger] tick_ok_at(t, p, j)
}

/// The `n` elements read from the list at `p`, in order.
pub open spec fn tick_list_out(t: Seq<Seq<char>>, p: int, n: int, v: Seq<HistoricalTick>) -> bool {
    v.len() == n && forall|j: int| 0 <= j < n ==> #[trigger] tick_out_at(t, p, j, v[j])
}

/// The error reading the list at `p` of `n` elements gives: that of its first element that
/// cannot be read.
pub open spec fn tick_list_err(t: Seq<Seq<char>>, p: int, n: int, e: TwsApiError) -> bool {
    exists|j: int|
        0 <= j < n && !tick_ok_at(t, p, j) && #[trigger] tick_err_at(t, p, j, e) && forall|i: int|
            0 <= i < j ==> #[trigger] tick_ok_at(t, p, i)
}

fn read_tick(reader: &mut FieldReader) -> (r: Result<HistoricalTick, TwsApiError>)
    requires
        old(reader).wf(),
    ensures
        final(reader).wf(),
        final(reader).texts() == old(reader).texts(),
        match r {
            Ok(x) => tick_ok(old(reader).texts(), old(reader).position()) && tick_out(
                old(reader).texts(),
                old(reader).position(),
                x,
            ) && final(reader).position() == old(reader).position() + 4,
            Err(e) => !tick_ok(old(reader).texts(), old(reader).position()) && tick_err(
                old(reader).texts(),
                old(reader).position(),
                e,
            ),
        },
{
    let time: i64 = match reader.next_i32() {
        Ok(v) => v as i64,
        Err(e) => return Err(e),
    };
    let _ = reader.next_string();
    let price: Double = reader.next_double();
    let size: DecimalText = match reader.next_decimal() {
        Ok(v) => v,
        Err(e) => return Err(e),
    };
    Ok(HistoricalTick { time, price, size })
}

fn read_tick_list(reader: &mut FieldReader, count: i32) -> (r: Result<Vec<HistoricalTick>, TwsApiError>)
    requires
        old(reader).wf(),
    ensures
        final(reader).wf(),
        final(reader).texts() == old(reader).texts(),
        match r {
            Ok(v) => tick_list_ok(old(reader).texts(), old(reader).position(), max_zero(count as int))
                && tick_list_out(old(reader).texts(), old(reader).position(), max_zero(count as int), v@)
                && final(reader).position() == old(reader).position() + max_zero(count as int) * 4,
            Err(e) => !tick_list_ok(old(reader).texts(), old(reader).position(), max_zero(count as int))
                && tick_list_err(old(reader).texts(), old(reader).position(), max_zero(count as int), e),
        },
{
    let ghost t = reader.texts();
    let ghost p = reader.position();
    let n: usize = if count < 0 { 0 } else { count as usize };
    let mut v: Vec<HistoricalTick> = Vec::new();
    let mut j: usize = 0;
    while j < n
        invariant
            reader.wf(),
            reader.texts() == t,
            old(reader).texts() == t,
            old(reader).position() == p,
            n == max_zero(count as int),
            j <= n,
            reader.position() == p + j * 4,
            v@.len() == j,
            forall|i: int| 0 <= i < j ==> #[trigger] tick_ok_at(t, p, i),
            forall|i: int| 0 <= i < j ==> #[trigger] tick_out_at(t, p, i, v@[i]),
        decreases n - j,
    {
        match read_tick(reader) {
            Ok(x) => {
                v.push(x);
            },
            Err(e) => {
                proof {
                    assert(tick_err_at(t, p, j as int, e));
                    assert(!tick_ok_at(t, p, j as int));
                }
                return Err(e);
            },
        }
        proof {
            assert(tick_ok_at(t, p, j as int));
            assert(tick_out_at(t, p, j as int, v@[j as int]));
        }
        j = j + 1;
    }
    Ok(v)
}

/// True when the bid/ask tick at position `q` can be read.
pub open spec fn tick_bid_ask_ok(t: Seq<Seq<char>>, q: int) -> bool {
    i32_at(t, q) is Ok
        && i32_at(t, q + 1) is Ok
        && decimal_at(t, q + 4) is Some
        && decimal_at(t, q + 5) is Some
}

/// The bid/ask tick read at position `q`: what each of its fields holds.
pub open spec fn tick_bid_ask_out(t: Seq<Seq<char>>, q: int, x: HistoricalTickBidAsk) -> bool {
    x.time == i32_or_zero(t, q)
        && x.tick_attrib_bid_ask.ask_past_high == (((i32_or_zero(t, q + 1)) as i32) & 1i32 != 0i32)
        && x.tick_attrib_bid_ask.bid_past_low == (((i32_or_zero(t, q + 1)) as i32) & 2i32 != 0i32)
        && x.price_bid.text@ == text_at(t, q + 2)
        && x.price_ask.text@ == text_at(t, q + 3)
        && x.size_bid.text@ == decimal_or_zero(t, q + 4)
        && x.size_ask.text@ == decimal_or_zero(t, q + 5)
}

/// The error reading the bid/ask tick at position `q` gives: that of its first unreadable field.
pub open spec fn tick_bid_ask_err(t: Seq<Seq<char>>, q: int, e: TwsApiError) -> bool {
    (!(i32_at(t, q) is Ok) && (i32_at(t, q) matches Err(k) && int_error(e, t, q, k)))
            || (i32_at(t, q) is Ok && !(i32_at(t, q + 1) is Ok) && (i32_at(t, q + 1) matches Err(k) && int_error(e, t, q + 1, k)))
            || (i32_at(t, q) is Ok && i32_at(t, q + 1) is Ok && !(decimal_at(t, q + 4) is Some) && decimal_error(e, t, q + 4))
            || (i32_at(t, q) is Ok && i32_at(t, q + 1) is Ok && decimal_at(t, q + 4) is Some && !(decimal_at(t, q + 5) is Some) && decimal_error(e, t, q + 5))
}

/// `tick_bid_ask_ok` for the element at index `j` of a list that starts at `p`.
pub open spec fn tick_bid_ask_ok_at(t: Seq<Seq<char>>, p: int, j: int) -> bool {
    tick_bid_ask_ok(t, p + j * 6)
}

/// `tick_bid_ask_out` for the element at index `j` of a list that starts at `p`.
pub open spec fn tick_bid_ask_out_at(t: Seq<Seq<char>>, p: int, j: int, x: HistoricalTickBidAsk) -> bool {
    tick_bid_ask_out(t, p + j * 6, x)
}

/// `tick_bid_ask_err` for the element at index `j` of a list that starts at `p`.
pub open spec fn tick_bid_ask_err_at(t: Seq<Seq<char>>, p: int, j: int, e: TwsApiError) -> bool {
    tick_bid_ask_err(t, p + j * 6, e)
}

/// True when each of the `n` elements of the list at `p` can be read.
pub open spec fn tick_bid_ask_list_ok(t: Seq<Seq<char>>, p: int, n: int) -> bool {
    forall|j: int| 0 <= j < n ==> #[trigger] tick_bid_ask_ok_at(t, p, j)
}

/// The `n` elements read from the list at `p`, in order.
pub open spec fn tick_bid_ask_list_out(t: Seq<Seq<char>>, p: int, n: int, v: Seq<HistoricalTickBidAsk>) -> bool {
    v.len() == n && forall|j: int| 0 <= j < n ==> #[trigger] tick_bid_ask_out_at(t, p, j, v[j])
}

/// The error reading the list at `p` of `n` elements gives: that of its first element that
/// cannot be read.
pub open spec fn tick_bid_ask_list_err(t: Seq<Seq<char>>, p: int, n: int, e: TwsApiError) -> bool {
    exists|j: int|
        0 <= j < n && !tick_bid_ask_ok_at(t, p, j) && #[trigger] tick_bid_ask_err_at(t, p, j, e) && forall|i: int|
            0 <= i < j ==> #[trigger] tick_bid_ask_ok_at(t, p, i)
}

fn read_tick_bid_ask(reader: &mut FieldReader) -> (r: Result<HistoricalTickBidAsk, TwsApiError>)
    requires
        old(reader).wf(),
    ensures
        final(reader).wf(),
        final(reader).texts() == old(reader).texts(),
        match r {
            Ok(x) => tick_bid_ask_ok(old(reader).texts(), old(reader).position()) && tick_bid_ask_out(
                old(reader).texts(),
                old(reader).position(),
                x,
            ) && final(reader).position() == old(reader).position() + 6,
            Err(e) => !tick_bid_ask_ok(old(reader).texts(), old(reader).position()) && tick_bid_ask_err(
                old(reader).texts(),
                old(reader).position(),
                e,
            ),
        },
{
    let time: i64 = match reader.next_i32() {
        Ok(v) => v as i64,
        Err(e) => return Err(e),
    };
    let mask: i32 = match reader.next_i32() {
        Ok(v) => v,
        Err(e) => return Err(e),
    };
    let price_bid: Double = reader.next_double();
    let price_ask: Double = reader.next_double();
    let size_bid: DecimalText = match reader.next_decimal() {
        Ok(v) => v,
        Err(e) => return Err(e),
    };
    let size_ask: DecimalText = match reader.next_decimal() {
        Ok(v) => v,
        Err(e) => return Err(e),
    };
    Ok(HistoricalTickBidAsk { time, tick_attrib_bid_ask: TickAttribBidAsk { ask_past_high: mask & 1 != 0, bid_past_low: mask & 2 != 0 }, price_bid, price_ask, size_bid, size_ask })
}

fn read_tick_bid_ask_list(reader: &mut FieldReader, count: i32) -> (r: Result<Vec<HistoricalTickBidAsk>, TwsApiError>)
    requires
        old(reader).wf(),
    ensures
        final(reader).wf(),
        final(reader).texts() == old(reader).texts(),
        match r {
            Ok(v) => tick_bid_ask_list_ok(old(reader).texts(), old(reader).position(), max_zero(count as int))
                && tick_bid_ask_list_out(old(reader).texts(), old(reader).position(), max_zero(count as int), v@)
                && final(reader).position() == old(reader).position() + max_zero(count as int) * 6,
            Err(e) => !tick_bid_ask_list_ok(old(reader).texts(), old(reader).position(), max_zero(count as int))
                && tick_bid_ask_list_err(old(reader).texts(), old(reader).position(), max_zero(count as int), e),
        },
{
    let ghost t = reader.texts();
    let ghost p = reader.position();
    let n: usize = if count < 0 { 0 } else { count as usize };
    let mut v: Vec<HistoricalTickBidAsk> = Vec::new();
    let mut j: usize = 0;
    while j < n
        invariant
            reader.wf(),
            reader.texts() == t,
            old(reader).texts() == t,
            old(reader).position() == p,
            n == max_zero(count as int),
            j <= n,
            reader.position() == p + j * 6,
            v@.len() == j,
            forall|i: int| 0 <= i < j ==> #[trigger] tick_bid_ask_ok_at(t, p, i),
            forall|i: int| 0 <= i < j ==> #[trigger] tick_bid_ask_out_at(t, p, i, v@[i]),
        decreases n - j,
    {
        match read_tick_bid_ask(reader) {
            Ok(x) => {
                v.push(x);
            },
            Err(e) => {
                proof {
                    assert(tick_bid_ask_err_at(t, p, j as int, e));
                    assert(!tick_bid_ask_ok_at(t, p, j as int));
                }
                return Err(e);
            },
        }
        proof {
            assert(tick_bid_ask_ok_at(t, p, j as int));
            assert(tick_bid_ask_out_at(t, p, j as int, v@[j as int]));
        }
        j = j + 1;
    }
    Ok(v)
}

/// True when the last-trade tick at position `q` can be read.
pub open spec fn tick_last_ok(t: Seq<Seq<char>>, q: int) -> bool {
    i32_at(t, q) is Ok
        && i32_at(t, q + 1) is Ok
        && decimal_at(t, q + 3) is Some
}

/// The last-trade tick read at position `q`: what each of its fields holds.
pub open spec fn tick_last_out(t: Seq<Seq<char>>, q: int, x: HistoricalTickLast) -> bool {
    x.time == i32_or_zero(t, q)
        && x.tick_attrib_last.past_limit == (((i32_or_zero(t, q + 1)) as i32) & 1i32 != 0i32)
        && x.tick_attrib_last.unreported == (((i32_or_zero(t, q + 1)) as i32) & 2i32 != 0i32)
        && x.price.text@ == text_at(t, q + 2)
        && x.size.text@ == decimal_or_zero(t, q + 3)
        && x.exchange@ == text_at(t, q + 4)
        && x.special_conditions@ == text_at(t, q + 5)
}

/// The error reading the last-trade tick at position `q` gives: that of its first unreadable field.
pub open spec fn tick_last_err(t: Seq<Seq<char>>, q: int, e: TwsApiError) -> bool {
    (!(i32_at(t, q) is Ok) && (i32_at(t, q) matches Err(k) && int_error(e, t, q, k)))
            || (i32_at(t, q) is Ok && !(i32_at(t, q + 1) is Ok) && (i32_at(t, q + 1) matches Err(k) && int_error(e, t, q + 1, k)))
            || (i32_at(t, q) is Ok && i32_at(t, q + 1) is Ok && !(decimal_at(t, q + 3) is Some) && decimal_error(e, t, q + 3))
}

/// `tick_last_ok` for the element at index `j` of a list that starts at `p`.
pub open spec fn tick_last_ok_at(t: Seq<Seq<char>>, p: int, j: int) -> bool {
    tick_last_ok(t, p + j * 6)
}

/// `tick_last_out` for the element at index `j` of a list that starts at `p`.
pub open spec fn tick_last_out_at(t: Seq<Seq<char>>, p: int, j: int, x: HistoricalTickLast) -> bool {
    tick_last_out(t, p + j * 6, x)
}

/// `tick_last_err` for the element at index `j` of a list that starts at `p`.
pub open spec fn tick_last_err_at(t: Seq<Seq<char>>, p: int, j: int, e: TwsApiError) -> bool {
    tick_last_err(t, p + j * 6, e)
}

/// True when each of the `n` elements of the list at `p` can be read.
pub open spec fn tick_last_list_ok(t: Seq<Seq<char>>, p: int, n: int) -> bool {
    forall|j: int| 0 <= j < n ==> #[trigger] tick_last_ok_at(t, p, j)
}

/// The `n` elements read from the list at `p`, in order.
pub open spec fn tick_last_list_out(t: Seq<Seq<char>>, p: int, n: int, v: Seq<HistoricalTickLast>) -> bool {
    v.len() == n && forall|j: int| 0 <= j < n ==> #[trigger] tick_last_out_at(t, p, j, v[j])
}

/// The error reading the list at `p` of `n` elements gives: that of its first element that
/// cannot be read.
pub open spec fn tick_last_list_err(t: Seq<Seq<char>>, p: int, n: int, e: TwsApiError) -> bool {
    exists|j: int|
        0 <= j < n && !tick_last_ok_at(t, p, j) && #[trigger] tick_last_err_at(t, p, j, e) && forall|i: int|
            0 <= i < j ==> #[trigger] tick_last_ok_at(t, p, i)
}

fn read_tick_last(reader: &mut FieldReader) -> (r: Result<HistoricalTickLast, TwsApiError>)
    requires
        old(reader).wf(),
    ensures
        final(reader).wf(),
        final(reader).texts() == old(reader).texts(),
        match r {
            Ok(x) => tick_last_ok(old(reader).texts(), old(reader).position()) && tick_last_out(
                old(reader).texts(),
                old(reader).position(),
                x,
            ) && final(reader).position() == old(reader).position() + 6,
            Err(e) => !tick_last_ok(old(reader).texts(), old(reader).position()) && tick_last_err(
                old(reader).texts(),
                old(reader).position(),
                e,
            ),
        },
{
    let time: i64 = match reader.next_i32() {
        Ok(v) => v as i64,
        Err(e) => return Err(e),
    };
    let mask: i32 = match reader.next_i32() {
        Ok(v) => v,
        Err(e) => return Err(e),
    };
    let price: Double = reader.next_double();
    let size: DecimalText = match reader.next_decimal() {
        Ok(v) => v,
        Err(e) => return Err(e),
    };
    let exchange: String = reader.next_string();
    let special_conditions: String = reader.next_string();
    Ok(HistoricalTickLast { time, tick_attrib_last: TickAttribLast { past_limit: mask & 1 != 0, unreported: mask & 2 != 0 }, price, size, exchange, special_conditions })
}

fn read_tick_last_list(reader: &mut FieldReader, count: i32) -> (r: Result<Vec<HistoricalTickLast>, TwsApiError>)
    requires
        old(reader).wf(),
    ensures
        final(reader).wf(),
        final(reader).texts() == old(reader).texts(),
        match r {
            Ok(v) => tick_last_list_ok(old(reader).texts(), old(reader).position(), max_zero(count as int))
                && tick_last_list_out(old(reader).texts(), old(reader).position(), max_zero(count as int), v@)
                && final(reader).position() == old(reader).position() + max_zero(count as int) * 6,
            Err(e) => !tick_last_list_ok(old(reader).texts(), old(reader).position(), max_zero(count as int))
                && tick_last_list_err(old(reader).texts(), old(reader).position(), max_zero(count as int), e),
        },
{
    let ghost t = reader.texts();
    let ghost p = reader.position();
    let n: usize = if count < 0 { 0 } else { count as usize };
    let mut v: Vec<HistoricalTickLast> = Vec::new();
    let mut j: usize = 0;
    while j < n
        invariant
            reader.wf(),
            reader.texts() == t,
            old(reader).texts() == t,
            old(reader).position() == p,
            n == max_zero(count as int),
            j <= n,
            reader.position() == p + j * 6,
            v@.len() == j,
            forall|i: int| 0 <= i < j ==> #[trigger] tick_last_ok_at(t, p, i),
            forall|i: int| 0 <= i < j ==> #[trigger] tick_last_out_at(t, p, i, v@[i]),
        decreases n - j,
    {
        match read_tick_last(reader) {
            Ok(x) => {
                v.push(x);
            },
            Err(e) => {
                proof {
                    assert(tick_last_err_at(t, p, j as int, e));
                    assert(!tick_last_ok_at(t, p, j as int));
                }
                return Err(e);
            },
        }
        proof {
            assert(tick_last_ok_at(t, p, j as int));
            assert(tick_last_out_at(t, p, j as int, v@[j as int]));
        }
        j = j + 1;
    }
    Ok(v)
}

/// True when the text field at position `q` can be read.
pub open spec fn text_ok(t: Seq<Seq<char>>, q: int) -> bool {
    true
}

/// The text field read at position `q`: what each of its fields holds.
pub open spec fn text_out(t: Seq<Seq<char>>, q: int, x: String) -> bool {
    x@ == text_at(t, q)
}

/// The error reading the text field at position `q` gives: that of its first unreadable field.
pub open spec fn text_err(t: Seq<Seq<char>>, q: int, e: TwsApiError) -> bool {
    false
}

/// `text_ok` for the element at index `j` of a list that starts at `p`.
pub open spec fn text_ok_at(t: Seq<Seq<char>>, p: int, j: int) -> bool {
    text_ok(t, p + j * 1)
}

/// `text_out` for the element at index `j` of a list that starts at `p`.
pub open spec fn text_out_at(t: Seq<Seq<char>>, p: int, j: int, x: String) -> bool {
    text_out(t, p + j * 1, x)
}

/// `text_err` for the element at index `j` of a list that starts at `p`.
pub open spec fn text_err_at(t: Seq<Seq<char>>, p: int, j: int, e: TwsApiError) -> bool {
    text_err(t, p + j * 1, e)
}

/// True when each of the `n` elements of the list at `p` can be read.
pub open spec fn text_list_ok(t: Seq<Seq<char>>, p: int, n: int) -> bool {
    forall|j: int| 0 <= j < n ==> #[trigger] text_ok_at(t, p, j)
}

/// The `n` elements read from the list at `p`, in order.
pub open spec fn text_list_out(t: Seq<Seq<char>>, p: int, n: int, v: Seq<String>) -> bool {
    v.len() == n && forall|j: int| 0 <= j < n ==> #[trigger] text_out_at(t, p, j, v[j])
}

/// The error reading the list at `p` of `n` elements gives: that of its first element that
/// cannot be read.
pub open spec fn text_list_err(t: Seq<Seq<char>>, p: int, n: int, e: TwsApiError) -> bool {
    exists|j: int|
        0 <= j < n && !text_ok_at(t, p, j) && #[trigger] text_err_at(t, p, j, e) && forall|i: int|
            0 <= i < j ==> #[trigger] text_ok_at(t, p, i)
}

fn read_text(reader: &mut FieldReader) -> (x: String)
    requires
        old(reader).wf(),
    ensures
        final(reader).wf(),
        final(reader).texts() == old(reader).texts(),
        text_out(old(reader).texts(), old(reader).position(), x),
        final(reader).position() == old(reader).position() + 1,
{
    let a: String = reader.next_string();
    a
}

fn read_text_list(reader: &mut FieldReader, count: i32) -> (v: Vec<String>)
    requires
        old(reader).wf(),
    ensures
        final(reader).wf(),
        final(reader).texts() == old(reader).texts(),
        text_list_out(old(reader).texts(), old(reader).position(), max_zero(count as int), v@),
        final(reader).position() == old(reader).position() + max_zero(count as int) * 1,
{
    let ghost t = reader.texts();
    let ghost p = reader.position();
    let n: usize = if count < 0 { 0 } else { count as usize };
    let mut v: Vec<String> = Vec::new();
    let mut j: usize = 0;
    while j < n
        invariant
            reader.wf(),
            reader.texts() == t,
            old(reader).texts() == t,
            old(reader).position() == p,
            n == max_zero(count as int),
            j <= n,
            reader.position() == p + j * 1,
            v@.len() == j,
            forall|i: int| 0 <= i < j ==> #[trigger] text_out_at(t, p, i, v@[i]),
        decreases n - j,
    {
        let x = read_text(reader);
        v.push(x);
        proof {
            assert(text_out_at(t, p, j as int, v@[j as int]));
        }
        j = j + 1;
    }
    v
}

/// True when the floating-point field at position `q` can be read.
pub open spec fn double_ok(t: Seq<Seq<char>>, q: int) -> bool {
    true
}

/// The floating-point field read at position `q`: what each of its fields holds.
pub open spec fn double_out(t: Seq<Seq<char>>, q: int, x: Double) -> bool {
    x.text@ == text_at(t, q)
}

/// The error reading the floating-point field at position `q` gives: that of its first unreadable field.
pub open spec fn double_err(t: Seq<Seq<char>>, q: int, e: TwsApiError) -> bool {
    false
}

/// `double_ok` for the element at index `j` of a list that starts at `p`.
pub open spec fn double_ok_at(t: Seq<Seq<char>>, p: int, j: int) -> bool {
    double_ok(t, p + j * 1)
}

/// `double_out` for the element at index `j` of a list that starts at `p`.
pub open spec fn double_out_at(t: Seq<Seq<char>>, p: int, j: int, x: Double) -> bool {
    double_out(t, p + j * 1, x)
}

/// `double_err` for the element at index `j` of a list that starts at `p`.
pub open spec fn double_err_at(t: Seq<Seq<char>>, p: int, j: int, e: TwsApiError) -> bool {
    double_err(t, p + j * 1, e)
}

/// True when each of the `n` elements of the list at `p` can be read.
pub open spec fn double_list_ok(t: Seq<Seq<char>>, p: int, n: int) -> bool {
    forall|j: int| 0 <= j < n ==> #[trigger] double_ok_at(t, p, j)
}

/// The `n` elements read from the list at `p`, in order.
pub open spec fn double_list_out(t: Seq<Seq<char>>, p: int, n: int, v: Seq<Double>) -> bool {
    v.len() == n && forall|j: int| 0 <= j < n ==> #[trigger] double_out_at(t, p, j, v[j])
}

/// The error reading the list at `p` of `n` elements gives: that of its first element that
/// cannot be read.
pub open spec fn double_list_err(t: Seq<Seq<char>>, p: int, n: int, e: TwsApiError) -> bool {
    exists|j: int|
        0 <= j < n && !double_ok_at(t, p, j) && #[trigger] double_err_at(t, p, j, e) && forall|i: int|
            0 <= i < j ==> #[trigger] double_ok_at(t, p, i)
}

fn read_double(reader: &mut FieldReader) -> (x: Double)
    requires
        old(reader).wf(),
    ensures
        final(reader).wf(),
        final(reader).texts() == old(reader).texts(),
        double_out(old(reader).texts(), old(reader).position(), x),
        final(reader).position() == old(reader).position() + 1,
{
    let a: Double = reader.next_double();
    a
}

fn read_double_list(reader: &mut FieldReader, count: i32) -> (v: Vec<Double>)
    requires
        old(reader).wf(),
    ensures
        final(reader).wf(),
        final(reader).texts() == old(reader).texts(),
        double_list_out(old(reader).texts(), old(reader).position(), max_zero(count as int), v@),
        final(reader).position() == old(reader).position() + max_zero(count as int) * 1,
{
    let ghost t = reader.texts();
    let ghost p = reader.position();
    let n: usize = if count < 0 { 0 } else { count as usize };
    let mut v: Vec<Double> = Vec::new();
    let mut j: usize = 0;
    while j < n
        invariant
            reader.wf(),
            reader.texts() == t,
            old(reader).texts() == t,
            old(reader).position() == p,
            n == max_zero(count as int),
            j <= n,
            reader.position() == p + j * 1,
            v@.len() == j,
            forall|i: int| 0 <= i < j ==> #[trigger] double_out_at(t, p, i, v@[i]),
        decreases n - j,
    {
        let x = read_double(reader);
        v.push(x);
        proof {
            assert(double_out_at(t, p, j as int, v@[j as int]));
        }
        j = j + 1;
    }
    v
}

/// True when the tag/value pair at position `q` can be read.
pub open spec fn tag_value_ok(t: Seq<Seq<char>>, q: int) -> bool {
    true
}

/// The tag/value pair read at position `q`: what each of its fields holds.
pub open spec fn tag_value_out(t: Seq<Seq<char>>, q: int, x: TagValue) -> bool {
    x.tag@ == text_at(t, q)
        && x.value@ == text_at(t, q + 1)
}

/// The error reading the tag/value pair at position `q` gives: that of its first unreadable field.
pub open spec fn tag_value_err(t: Seq<Seq<char>>, q: int, e: TwsApiError) -> bool {
    false
}

/// `tag_value_ok` for the element at index `j` of a list that starts at `p`.
pub open spec fn tag_value_ok_at(t: Seq<Seq<char>>, p: int, j: int) -> bool {
    tag_value_ok(t, p + j * 2)
}

/// `tag_value_out` for the element at index `j` of a list that starts at `p`.
pub open spec fn tag_value_out_at(t: Seq<Seq<char>>, p: int, j: int, x: TagValue) -> bool {
    tag_value_out(t, p + j * 2, x)
}

/// `tag_value_err` for the element at index `j` of a list that starts at `p`.
pub open spec fn tag_value_err_at(t: Seq<Seq<char>>, p: int, j: int, e: TwsApiError) -> bool {
    tag_value_err(t, p + j * 2, e)
}

/// True when each of the `n` elements of the list at `p` can be read.
pub open spec fn tag_value_list_ok(t: Seq<Seq<char>>, p: int, n: int) -> bool {
    forall|j: int| 0 <= j < n ==> #[trigger] tag_value_ok_at(t, p, j)
}

/// The `n` elements read from the list at `p`, in order.
pub open spec fn tag_value_list_out(t: Seq<Seq<char>>, p: int, n: int, v: Seq<TagValue>) -> bool {
    v.len() == n && forall|j: int| 0 <= j < n ==> #[trigger] tag_value_out_at(t, p, j, v[j])
}

/// The error reading the list at `p` of `n` elements gives: that of its first element that
/// cannot be read.
pub open spec fn tag_value_list_err(t: Seq<Seq<char>>, p: int, n: int, e: TwsApiError) -> bool {
    exists|j: int|
        0 <= j < n && !tag_value_ok_at(t, p, j) && #[trigger] tag_value_err_at(t, p, j, e) && forall|i: int|
            0 <= i < j ==> #[trigger] tag_value_ok_at(t, p, i)
}

fn read_tag_value(reader: &mut FieldReader) -> (x: TagValue)
    requires
        old(reader).wf(),
    ensures
        final(reader).wf(),
        final(reader).texts() == old(reader).texts(),
        tag_value_out(old(reader).texts(), old(reader).position(), x),
        final(reader).position() == old(reader).position() + 2,
{
    let tag: String = reader.next_string();
    let value: String = reader.next_string();
    TagValue { tag, value }
}

fn read_tag_value_list(reader: &mut FieldReader, count: i32) -> (v: Vec<TagValue>)
    requires
        old(reader).wf(),
    ensures
        final(reader).wf(),
        final(reader).texts() == old(reader).texts(),
        tag_value_list_out(old(reader).texts(), old(reader).position(), max_zero(count as int), v@),
        final(reader).position() == old(reader).position() + max_zero(count as int) * 2,
{
    let ghost t = reader.texts();
    let ghost p = reader.position();
    let n: usize = if count < 0 { 0 } else { count as usize };
    let mut v: Vec<TagValue> = Vec::new();
    let mut j: usize = 0;
    while j < n
        invariant
            reader.wf(),
            reader.texts() == t,
            old(reader).texts() == t,
            old(reader).position() == p,
            n == max_zero(count as int),
            j <= n,
            reader.position() == p + j * 2,
            v@.len() == j,
            forall|i: int| 0 <= i < j ==> #[trigger] tag_value_out_at(t, p, i, v@[i]),
        decreases n - j,
    {
        let x = read_tag_value(reader);
        v.push(x);
        proof {
            assert(tag_value_out_at(t, p, j as int, v@[j as int]));
        }
        j = j + 1;
    }
    v
}

/// True when the order allocation at position `q` can be read.
pub open spec fn allocation_ok(t: Seq<Seq<char>>, q: int) -> bool {
    decimal_at(t, q + 1) is Some
        && decimal_at(t, q + 2) is Some
        && decimal_at(t, q + 3) is Some
        && decimal_at(t, q + 4) is Some
        && decimal_at(t, q + 5) is Some
}

/// The order allocation read at position `q`: what each of its fields holds.
pub open spec fn allocation_out(t: Seq<Seq<char>>, q: int, x: OrderAllocation) -> bool {
    x.account@ == text_at(t, q)
        && x.position.text@ == decimal_or_zero(t, q + 1)
        && x.position_desired.text@ == decimal_or_zero(t, q + 2)
        && x.position_after.text@ == decimal_or_zero(t, q + 3)
        && x.desired_alloc_qty.text@ == decimal_or_zero(t, q + 4)
        && x.allowed_alloc_qty.text@ == decimal_or_zero(t, q + 5)
        && x.is_monetary == bool_at(t, q + 6)
}

/// The error reading the order allocation at position `q` gives: that of its first unreadable field.
pub open spec fn allocation_err(t: Seq<Seq<char>>, q: int, e: TwsApiError) -> bool {
    (!(decimal_at(t, q + 1) is Some) && decimal_error(e, t, q + 1))
            || (decimal_at(t, q + 1) is Some && !(decimal_at(t, q + 2) is Some) && decimal_error(e, t, q + 2))
            || (decimal_at(t, q + 1) is Some && decimal_at(t, q + 2) is Some && !(decimal_at(t, q + 3) is Some) && decimal_error(e, t, q + 3))
            || (decimal_at(t, q + 1) is Some && decimal_at(t, q + 2) is Some && decimal_at(t, q + 3) is Some && !(decimal_at(t, q + 4) is Some) && decimal_error(e, t, q + 4))
            || (decimal_at(t, q + 1) is Some && decimal_at(t, q + 2) is Some && decimal_at(t, q + 3) is Some && decimal_at(t, q + 4) is Some && !(decimal_at(t, q + 5) is Some) && decimal_error(e, t, q + 5))
}

/// `allocation_ok` for the element at index `j` of a list that starts at `p`.
pub open spec fn allocation_ok_at(t: Seq<Seq<char>>, p: int, j: int) -> bool {
    allocation_ok(t, p + j * 7)
}

/// `allocation_out` for the element at index `j` of a list that starts at `p`.
pub open spec fn allocation_out_at(t: Seq<Seq<char>>, p: int, j: int, x: OrderAllocation) -> bool {
    allocation_out(t, p + j * 7, x)
}

/// `allocation_err` for the element at index `j` of a list that starts at `p`.
pub open spec fn allocation_err_at(t: Seq<Seq<char>>, p: int, j: int, e: TwsApiError) -> bool {
    allocation_err(t, p + j * 7, e)
}

/// True when each of the `n` elements of the list at `p` can be read.
pub open spec fn allocation_list_ok(t: Seq<Seq<char>>, p: int, n: int) -> bool {
    forall|j: int| 0 <= j < n ==> #[trigger] allocation_ok_at(t, p, j)
}

/// The `n` elements read from the list at `p`, in order.
pub open spec fn allocation_list_out(t: Seq<Seq<char>>, p: int, n: int, v: Seq<OrderAllocation>) -> bool {
    v.len() == n && forall|j: int| 0 <= j < n ==> #[trigger] allocation_out_at(t, p, j, v[j])
}

/// The error reading the list at `p` of `n` elements gives: that of its first element that
/// cannot be read.
pub open spec fn allocation_list_err(t: Seq<Seq<char>>, p: int, n: int, e: TwsApiError) -> bool {
    exists|j: int|
        0 <= j < n && !allocation_ok_at(t, p, j) && #[trigger] allocation_err_at(t, p, j, e) && forall|i: int|
            0 <= i < j ==> #[trigger] allocation_ok_at(t, p, i)
}

fn read_allocation(reader: &mut FieldReader) -> (r: Result<OrderAllocation, TwsApiError>)
    requires
        old(reader).wf(),
    ensures
        final(reader).wf(),
        final(reader).texts() == old(reader).texts(),
        match r {
            Ok(x) => allocation_ok(old(reader).texts(), old(reader).position()) && allocation_out(
                old(reader).texts(),
                old(reader).position(),
                x,
            ) && final(reader).position() == old(reader).position() + 7,
            Err(e) => !allocation_ok(old(reader).texts(), old(reader).position()) && allocation_err(
                old(reader).texts(),
                old(reader).position(),
                e,
            ),
        },
{
    let account: String = reader.next_string();
    let position: DecimalText = match reader.next_decimal() {
        Ok(v) => v,
        Err(e) => return Err(e),
    };
    let position_desired: DecimalText = match reader.next_decimal() {
        Ok(v) => v,
        Err(e) => return Err(e),
    };
    let position_after: DecimalText = match reader.next_decimal() {
        Ok(v) => v,
        Err(e) => return Err(e),
    };
    let desired_alloc_qty: DecimalText = match reader.next_decimal() {
        Ok(v) => v,
        Err(e) => return Err(e),
    };
    let allowed_alloc_qty: DecimalText = match reader.next_decimal() {
        Ok(v) => v,
        Err(e) => return Err(e),
    };
    let is_monetary: bool = reader.next_bool();
    Ok(OrderAllocation { account, position, position_desired, position_after, desired_alloc_qty, allowed_alloc_qty, is_monetary })
}

fn read_allocation_list(reader: &mut FieldReader, count: i32) -> (r: Result<Vec<OrderAllocation>, TwsApiError>)
    requires
        old(reader).wf(),
    ensures
        final(reader).wf(),
        final(reader).texts() == old(reader).texts(),
        match r {
            Ok(v) => allocation_list_ok(old(reader).texts(), old(reader).position(), max_zero(count as int))
                && allocation_list_out(old(reader).texts(), old(reader).position(), max_zero(count as int), v@)
                && final(reader).position() == old(reader).position() + max_zero(count as int) * 7,
            Err(e) => !allocation_list_ok(old(reader).texts(), old(reader).position(), max_zero(count as int))
                && allocation_list_err(old(reader).texts(), old(reader).position(), max_zero(count as int), e),
        },
{
    let ghost t = reader.texts();
    let ghost p = reader.position();
    let n: usize = if count < 0 { 0 } else { count as usize };
    let mut v: Vec<OrderAllocation> = Vec::new();
    let mut j: usize = 0;
    while j < n
        invariant
            reader.wf(),
            reader.texts() == t,
            old(reader).texts() == t,
            old(reader).position() == p,
            n == max_zero(count as int),
            j <= n,
            reader.position() == p + j * 7,
            v@.len() == j,
            forall|i: int| 0 <= i < j ==> #[trigger] allocation_ok_at(t, p, i),
            forall|i: int| 0 <= i < j ==> #[trigger] allocation_out_at(t, p, i, v@[i]),
        decreases n - j,
    {
        match read_allocation(reader) {
            Ok(x) => {
                v.push(x);
            },
            Err(e) => {
                proof {
                    assert(allocation_err_at(t, p, j as int, e));
                    assert(!allocation_ok_at(t, p, j as int));
                }
                return Err(e);
            },
        }
        proof {
            assert(allocation_ok_at(t, p, j as int));
            assert(allocation_out_at(t, p, j as int, v@[j as int]));
        }
        j = j + 1;
    }
    Ok(v)
}

/// What decoding a next-valid-id message gives, field by field; `t` holds the texts of the fields.
pub open spec fn next_valid_id_decoded(t: Seq<Seq<char>>, r: Result<Event, TwsApiError>) -> bool {
    if i32_at(t, 0int) is Ok {
        r matches Ok(Event::NextValidId { order_id })
            && order_id == i32_or_zero(t, 0int)
    } else {
        r matches Err(e) && ((!(i32_at(t, 0int) is Ok) && (i32_at(t, 0int) matches Err(k) && int_error(e, t, 0int, k))))
    }
}

/// Decodes a next-valid-id message.
pub fn decode_next_valid_id_fields(fields: &[String]) -> (r: Result<Event, TwsApiError>)
    ensures
        next_valid_id_decoded(text_views(fields@), r),
{
    let mut reader = FieldReader::new(fields);
    let ghost t = text_views(fields@);

    let order_id: i32 = match reader.next_i32() {
        Ok(v) => v,
        Err(e) => return Err(e),
    };


    Ok(Event::NextValidId { order_id })
}

/// What decoding a current-time message gives, field by field; `t` holds the texts of the fields.
pub open spec fn current_time_decoded(t: Seq<Seq<char>>, r: Result<Event, TwsApiError>) -> bool {
    if i64_at(t, 0int) is Ok {
        r matches Ok(Event::CurrentTime { time })
            && time == i64_or_zero(t, 0int)
    } else {
        r matches Err(e) && ((!(i64_at(t, 0int) is Ok) && (i64_at(t, 0int) matches Err(k) && int_error(e, t, 0int, k))))
    }
}

/// Decodes a current-time message.
pub fn decode_current_time_fields(fields: &[String]) -> (r: Result<Event, TwsApiError>)
    ensures
        current_time_decoded(text_views(fields@), r),
{
    let mut reader = FieldReader::new(fields);
    let ghost t = text_views(fields@);

    let time: i64 = match reader.next_i64() {
        Ok(v) => v,
        Err(e) => return Err(e),
    };


    Ok(Event::CurrentTime { time })
}

/// What decoding a current-time-in-milliseconds message gives, field by field; `t` holds the texts of the fields.
pub open spec fn current_time_in_millis_decoded(t: Seq<Seq<char>>, r: Result<Event, TwsApiError>) -> bool {
    if i64_at(t, 0int) is Ok {
        r matches Ok(Event::CurrentTimeInMillis { time_in_millis })
            && time_in_millis == i64_or_zero(t, 0int)
    } else {
        r matches Err(e) && ((!(i64_at(t, 0int) is Ok) && (i64_at(t, 0int) matches Err(k) && int_error(e, t, 0int, k))))
    }
}

/// Decodes a current-time-in-milliseconds message.
pub fn decode_current_time_in_millis_fields(fields: &[String]) -> (r: Result<Event, TwsApiError>)
    ensures
        current_time_in_millis_decoded(text_views(fields@), r),
{
    let mut reader = FieldReader::new(fields);
    let ghost t = text_views(fields@);

    let time_in_millis: i64 = match reader.next_i64() {
        Ok(v) => v,
        Err(e) => return Err(e),
    };


    Ok(Event::CurrentTimeInMillis { time_in_millis })
}

/// What decoding an error message gives, field by field; `t` holds the texts of the fields.
pub open spec fn error_decoded(t: Seq<Seq<char>>, r: Result<Event, TwsApiError>) -> bool {
    if i32_at(t, 0int) is Ok
        && i32_at(t, 1int) is Ok {
        r matches Ok(Event::Error { req_id, code, message, advanced_order_reject_json, time })
            && req_id == i32_or_zero(t, 0int)
            && code == i32_or_zero(t, 1int)
            && message@ == text_at(t, 2int)
            && advanced_order_reject_json@ == text_at(t, 3int)
            && time == ((0) as int)
    } else {
        r matches Err(e) && ((!(i32_at(t, 0int) is Ok) && (i32_at(t, 0int) matches Err(k) && int_error(e, t, 0int, k)))
            || (i32_at(t, 0int) is Ok && !(i32_at(t, 1int) is Ok) && (i32_at(t, 1int) matches Err(k) && int_error(e, t, 1int, k))))
    }
}

/// Decodes an error message.
pub fn decode_error_fields(fields: &[String]) -> (r: Result<Event, TwsApiError>)
    ensures
        error_decoded(text_views(fields@), r),
{
    let mut reader = FieldReader::new(fields);
    let ghost t = text_views(fields@);

    let req_id: i32 = match reader.next_i32() {
        Ok(v) => v,
        Err(e) => return Err(e),
    };
    let code: i32 = match reader.next_i32() {
        Ok(v) => v,
        Err(e) => return Err(e),
    };
    let message: String = reader.next_string();
    let advanced_order_reject_json: String = reader.next_string();
    let time: i64 = 0;


    Ok(Event::Error { req_id, code, message, advanced_order_reject_json, time })
}

/// What decoding a managed-accounts message gives, field by field; `t` holds the texts of the fields.
pub open spec fn managed_accounts_decoded(t: Seq<Seq<char>>, r: Result<Event, TwsApiError>) -> bool {
    if true {
        r matches Ok(Event::ManagedAccounts { accounts })
            && accounts@ == text_at(t, 0int)
    } else {
        r matches Err(e) && (false)
    }
}

/// Decodes a managed-accounts message.
pub fn decode_managed_accounts_fields(fields: &[String]) -> (r: Result<Event, TwsApiError>)
    ensures
        managed_accounts_decoded(text_views(fields@), r),
{
    let mut reader = FieldReader::new(fields);
    let ghost t = text_views(fields@);

    let accounts: String = reader.next_string();


    Ok(Event::ManagedAccounts { accounts })
}

/// What decoding an account-value message gives, field by field; `t` holds the texts of the fields.
pub open spec fn account_value_decoded(t: Seq<Seq<char>>, r: Result<Event, TwsApiError>) -> bool {
    if true {
        r matches Ok(Event::AccountValue { key, value, currency, account_name })
            && key@ == text_at(t, 0int)
            && value@ == text_at(t, 1int)
            && currency@ == text_at(t, 2int)
            && account_name@ == text_at(t, 3int)
    } else {
        r matches Err(e) && (false)
    }
}

/// Decodes an account-value message.
pub fn decode_account_value_fields(fields: &[String]) -> (r: Result<Event, TwsApiError>)
    ensures
        account_value_decoded(text_views(fields@), r),
{
    let mut reader = FieldReader::new(fields);
    let ghost t = text_views(fields@);

    let key: String = reader.next_string();
    let value: String = reader.next_string();
    let currency: String = reader.next_string();
    let account_name: String = reader.next_string();


    Ok(Event::AccountValue { key, value, currency, account_name })
}

/// What decoding an account-update-time message gives, field by field; `t` holds the texts of the fields.
pub open spec fn account_update_time_decoded(t: Seq<Seq<char>>, r: Result<Event, TwsApiError>) -> bool {
    if true {
        r matches Ok(Event::AccountUpdateTime { timestamp })
            && timestamp@ == text_at(t, 0int)
    } else {
        r matches Err(e) && (false)
    }
}

/// Decodes an account-update-time message.
pub fn decode_account_update_time_fields(fields: &[String]) -> (r: Result<Event, TwsApiError>)
    ensures
        account_update_time_decoded(text_views(fields@), r),
{
    let mut reader = FieldReader::new(fields);
    let ghost t = text_views(fields@);

    let timestamp: String = reader.next_string();


    Ok(Event::AccountUpdateTime { timestamp })
}

/// What decoding an account-download-end message gives, field by field; `t` holds the texts of the fields.
pub open spec fn account_download_end_decoded(t: Seq<Seq<char>>, r: Result<Event, TwsApiError>) -> bool {
    if true {
        r matches Ok(Event::AccountDownloadEnd { account_name })
            && account_name@ == text_at(t, 0int)
    } else {
        r matches Err(e) && (false)
    }
}

/// Decodes an account-download-end message.
pub fn decode_account_download_end_fields(fields: &[String]) -> (r: Result<Event, TwsApiError>)
    ensures
        account_download_end_decoded(text_views(fields@), r),
{
    let mut reader = FieldReader::new(fields);
    let ghost t = text_views(fields@);

    let account_name: String = reader.next_string();


    Ok(Event::AccountDownloadEnd { account_name })
}

/// What decoding a news bulletin gives, field by field; `t` holds the texts of the fields.
pub open spec fn news_bulletin_decoded(t: Seq<Seq<char>>, r: Result<Event, TwsApiError>) -> bool {
    if i32_at(t, 0int) is Ok
        && i32_at(t, 1int) is Ok {
        r matches Ok(Event::NewsBulletin { news_msg_id, news_msg_type, news_message, originating_exch })
            && news_msg_id == i32_or_zero(t, 0int)
            && news_msg_type == i32_or_zero(t, 1int)
            && news_message@ == text_at(t, 2int)
            && originating_exch@ == text_at(t, 3int)
    } else {
        r matches Err(e) && ((!(i32_at(t, 0int) is Ok) && (i32_at(t, 0int) matches Err(k) && int_error(e, t, 0int, k)))
            || (i32_at(t, 0int) is Ok && !(i32_at(t, 1int) is Ok) && (i32_at(t, 1int) matches Err(k) && int_error(e, t, 1int, k))))
    }
}

/// Decodes a news bulletin.
pub fn decode_news_bulletin_fields(fields: &[String]) -> (r: Result<Event, TwsApiError>)
    ensures
        news_bulletin_decoded(text_views(fields@), r),
{
    let mut reader = FieldReader::new(fields);
    let ghost t = text_views(fields@);

    let news_msg_id: i32 = match reader.next_i32() {
        Ok(v) => v,
        Err(e) => return Err(e),
    };
    let news_msg_type: i32 = match reader.next_i32() {
        Ok(v) => v,
        Err(e) => return Err(e),
    };
    let news_message: String = reader.next_string();
    let originating_exch: String = reader.next_string();


    Ok(Event::NewsBulletin { news_msg_id, news_msg_type, news_message, originating_exch })
}

/// What decoding a financial-advisor data message gives, field by field; `t` holds the texts of the fields.
pub open spec fn receive_fa_decoded(t: Seq<Seq<char>>, r: Result<Event, TwsApiError>) -> bool {
    if i32_at(t, 0int) is Ok {
        r matches Ok(Event::ReceiveFa { fa_data_type, xml })
            && fa_data_type == i32_or_zero(t, 0int)
            && xml@ == text_at(t, 1int)
    } else {
        r matches Err(e) && ((!(i32_at(t, 0int) is Ok) && (i32_at(t, 0int) matches Err(k) && int_error(e, t, 0int, k))))
    }
}

/// Decodes a financial-advisor data message.
pub fn decode_receive_fa_fields(fields: &[String]) -> (r: Result<Event, TwsApiError>)
    ensures
        receive_fa_decoded(text_views(fields@), r),
{
    let mut reader = FieldReader::new(fields);
    let ghost t = text_views(fields@);

    let fa_data_type: i32 = match reader.next_i32() {
        Ok(v) => v,
        Err(e) => return Err(e),
    };
    let xml: String = reader.next_string();


    Ok(Event::ReceiveFa { fa_data_type, xml })
}

/// What decoding a scanner-parameters message gives, field by field; `t` holds the texts of the fields.
pub open spec fn scanner_parameters_decoded(t: Seq<Seq<char>>, r: Result<Event, TwsApiError>) -> bool {
    if true {
        r matches Ok(Event::ScannerParameters { xml })
            && xml@ == text_at(t, 0int)
    } else {
        r matches Err(e) && (false)
    }
}

/// Decodes a scanner-parameters message.
pub fn decode_scanner_parameters_fields(fields: &[String]) -> (r: Result<Event, TwsApiError>)
    ensures
        scanner_parameters_decoded(text_views(fields@), r),
{
    let mut reader = FieldReader::new(fields);
    let ghost t = text_views(fields@);

    let xml: String = reader.next_string();


    Ok(Event::ScannerParameters { xml })
}

/// What decoding a head-timestamp message gives, field by field; `t` holds the texts of the fields.
pub open spec fn head_timestamp_decoded(t: Seq<Seq<char>>, r: Result<Event, TwsApiError>) -> bool {
    if i32_at(t, 0int) is Ok {
        r matches Ok(Event::HeadTimestamp { req_id, head_timestamp })
            && req_id == i32_or_zero(t, 0int)
            && head_timestamp@ == text_at(t, 1int)
    } else {
        r matches Err(e) && ((!(i32_at(t, 0int) is Ok) && (i32_at(t, 0int) matches Err(k) && int_error(e, t, 0int, k))))
    }
}

/// Decodes a head-timestamp message.
pub fn decode_head_timestamp_fields(fields: &[String]) -> (r: Result<Event, TwsApiError>)
    ensures
        head_timestamp_decoded(text_views(fields@), r),
{
    let mut reader = FieldReader::new(fields);
    let ghost t = text_views(fields@);

    let req_id: i32 = match reader.next_i32() {
        Ok(v) => v,
        Err(e) => return Err(e),
    };
    let head_timestamp: String = reader.next_string();


    Ok(Event::HeadTimestamp { req_id, head_timestamp })
}

/// What decoding a market-data reroute message gives, field by field; `t` holds the texts of the fields.
pub open spec fn reroute_market_data_decoded(t: Seq<Seq<char>>, r: Result<Event, TwsApiError>) -> bool {
    if i32_at(t, 0int) is Ok
        && i32_at(t, 1int) is Ok {
        r matches Ok(Event::RerouteMarketDataRequest { req_id, con_id, exchange })
            && req_id == i32_or_zero(t, 0int)
            && con_id == i32_or_zero(t, 1int)
            && exchange@ == text_at(t, 2int)
    } else {
        r matches Err(e) && ((!(i32_at(t, 0int) is Ok) && (i32_at(t, 0int) matches Err(k) && int_error(e, t, 0int, k)))
            || (i32_at(t, 0int) is Ok && !(i32_at(t, 1int) is Ok) && (i32_at(t, 1int) matches Err(k) && int_error(e, t, 1int, k))))
    }
}

/// Decodes a market-data reroute message.
pub fn decode_reroute_market_data_fields(fields: &[String]) -> (r: Result<Event, TwsApiError>)
    ensures
        reroute_market_data_decoded(text_views(fields@), r),
{
    let mut reader = FieldReader::new(fields);
    let ghost t = text_views(fields@);

    let req_id: i32 = match reader.next_i32() {
        Ok(v) => v,
        Err(e) => return Err(e),
    };
    let con_id: i32 = match reader.next_i32() {
        Ok(v) => v,
        Err(e) => return Err(e),
    };
    let exchange: String = reader.next_string();


    Ok(Event::RerouteMarketDataRequest { req_id, con_id, exchange })
}

/// What decoding a market-depth reroute message gives, field by field; `t` holds the texts of the fields.
pub open spec fn reroute_market_depth_decoded(t: Seq<Seq<char>>, r: Result<Event, TwsApiError>) -> bool {
    if i32_at(t, 0int) is Ok
        && i32_at(t, 1int) is Ok {
        r matches Ok(Event::RerouteMarketDepthRequest { req_id, con_id, exchange })
            && req_id == i32_or_zero(t, 0int)
            && con_id == i32_or_zero(t, 1int)
            && exchange@ == text_at(t, 2int)
    } else {
        r matches Err(e) && ((!(i32_at(t, 0int) is Ok) && (i32_at(t, 0int) matches Err(k) && int_error(e, t, 0int, k)))
            || (i32_at(t, 0int) is Ok && !(i32_at(t, 1int) is Ok) && (i32_at(t, 1int) matches Err(k) && int_error(e, t, 1int, k))))
    }
}

/// Decodes a market-depth reroute message.
pub fn decode_reroute_market_depth_fields(fields: &[String]) -> (r: Result<Event, TwsApiError>)
    ensures
        reroute_market_depth_decoded(text_views(fields@), r),
{
    let mut reader = FieldReader::new(fields);
    let ghost t = text_views(fields@);

    let req_id: i32 = match reader.next_i32() {
        Ok(v) => v,
        Err(e) => return Err(e),
    };
    let con_id: i32 = match reader.next_i32() {
        Ok(v) => v,
        Err(e) => return Err(e),
    };
    let exchange: String = reader.next_string();


    Ok(Event::RerouteMarketDepthRequest { req_id, con_id, exchange })
}

/// What decoding a display-group list gives, field by field; `t` holds the texts of the fields.
pub open spec fn display_group_list_decoded(t: Seq<Seq<char>>, r: Result<Event, TwsApiError>) -> bool {
    if i32_at(t, 0int) is Ok {
        r matches Ok(Event::DisplayGroupList { req_id, groups })
            && req_id == i32_or_zero(t, 0int)
            && groups@ == text_at(t, 1int)
    } else {
        r matches Err(e) && ((!(i32_at(t, 0int) is Ok) && (i32_at(t, 0int) matches Err(k) && int_error(e, t, 0int, k))))
    }
}

/// Decodes a display-group list.
pub fn decode_display_group_list_fields(fields: &[String]) -> (r: Result<Event, TwsApiError>)
    ensures
        display_group_list_decoded(text_views(fields@), r),
{
    let mut reader = FieldReader::new(fields);
    let ghost t = text_views(fields@);

    let req_id: i32 = match reader.next_i32() {
        Ok(v) => v,
        Err(e) => return Err(e),
    };
    let groups: String = reader.next_string();


    Ok(Event::DisplayGroupList { req_id, groups })
}

/// What decoding a display-group update gives, field by field; `t` holds the texts of the fields.
pub open spec fn display_group_updated_decoded(t: Seq<Seq<char>>, r: Result<Event, TwsApiError>) -> bool {
    if i32_at(t, 0int) is Ok {
        r matches Ok(Event::DisplayGroupUpdated { req_id, contract_info })
            && req_id == i32_or_zero(t, 0int)
            && contract_info@ == text_at(t, 1int)
    } else {
        r matches Err(e) && ((!(i32_at(t, 0int) is Ok) && (i32_at(t, 0int) matches Err(k) && int_error(e, t, 0int, k))))
    }
}

/// Decodes a display-group update.
pub fn decode_display_group_updated_fields(fields: &[String]) -> (r: Result<Event, TwsApiError>)
    ensures
        display_group_updated_decoded(text_views(fields@), r),
{
    let mut reader = FieldReader::new(fields);
    let ghost t = text_views(fields@);

    let req_id: i32 = match reader.next_i32() {
        Ok(v) => v,
        Err(e) => return Err(e),
    };
    let contract_info: String = reader.next_string();


    Ok(Event::DisplayGroupUpdated { req_id, contract_info })
}

/// What decoding a market-data-type message gives, field by field; `t` holds the texts of the fields.
pub open spec fn market_data_type_decoded(t: Seq<Seq<char>>, r: Result<Event, TwsApiError>) -> bool {
    if i32_at(t, 0int) is Ok
        && i32_at(t, 1int) is Ok {
        r matches Ok(Event::MarketDataType { req_id, market_data_type })
            && req_id == i32_or_zero(t, 0int)
            && market_data_type == i32_or_zero(t, 1int)
    } else {
        r matches Err(e) && ((!(i32_at(t, 0int) is Ok) && (i32_at(t, 0int) matches Err(k) && int_error(e, t, 0int, k)))
            || (i32_at(t, 0int) is Ok && !(i32_at(t, 1int) is Ok) && (i32_at(t, 1int) matches Err(k) && int_error(e, t, 1int, k))))
    }
}

/// Decodes a market-data-type message.
pub fn decode_market_data_type_fields(fields: &[String]) -> (r: Result<Event, TwsApiError>)
    ensures
        market_data_type_decoded(text_views(fields@), r),
{
    let mut reader = FieldReader::new(fields);
    let ghost t = text_views(fields@);

    let req_id: i32 = match reader.next_i32() {
        Ok(v) => v,
        Err(e) => return Err(e),
    };
    let market_data_type: i32 = match reader.next_i32() {
        Ok(v) => v,
        Err(e) => return Err(e),
    };


    Ok(Event::MarketDataType { req_id, market_data_type })
}

/// What decoding a price tick gives, field by field; `t` holds the texts of the fields.
pub open spec fn tick_price_decoded(t: Seq<Seq<char>>, r: Result<Event, TwsApiError>) -> bool {
    if i32_at(t, 0int) is Ok
        && i32_at(t, 1int) is Ok {
        r matches Ok(Event::TickPrice { req_id, tick_type, price, attrib })
            && req_id == i32_or_zero(t, 0int)
            && tick_type == i32_or_zero(t, 1int)
            && price.text@ == text_at(t, 2int)
            && attrib == i32_or_zero(t, 3int)
    } else {
        r matches Err(e) && ((!(i32_at(t, 0int) is Ok) && (i32_at(t, 0int) matches Err(k) && int_error(e, t, 0int, k)))
            || (i32_at(t, 0int) is Ok && !(i32_at(t, 1int) is Ok) && (i32_at(t, 1int) matches Err(k) && int_error(e, t, 1int, k))))
    }
}

/// Decodes a price tick.
pub fn decode_tick_price_fields(fields: &[String]) -> (r: Result<Event, TwsApiError>)
    ensures
        tick_price_decoded(text_views(fields@), r),
{
    let mut reader = FieldReader::new(fields);
    let ghost t = text_views(fields@);

    let req_id: i32 = match reader.next_i32() {
        Ok(v) => v,
        Err(e) => return Err(e),
    };
    let tick_type: i32 = match reader.next_i32() {
        Ok(v) => v,
        Err(e) => return Err(e),
    };
    let price: Double = reader.next_double();
    let attrib: i32 = reader.next_i32_or_default();


    Ok(Event::TickPrice { req_id, tick_type, price, attrib })
}

/// What decoding a size tick gives, field by field; `t` holds the texts of the fields.
pub open spec fn tick_size_decoded(t: Seq<Seq<char>>, r: Result<Event, TwsApiError>) -> bool {
    if i32_at(t, 0int) is Ok
        && i32_at(t, 1int) is Ok
        && decimal_at(t, 2int) is Some {
        r matches Ok(Event::TickSize { req_id, tick_type, size })
            && req_id == i32_or_zero(t, 0int)
            && tick_type == i32_or_zero(t, 1int)
            && size.text@ == decimal_or_zero(t, 2int)
    } else {
        r matches Err(e) && ((!(i32_at(t, 0int) is Ok) && (i32_at(t, 0int) matches Err(k) && int_error(e, t, 0int, k)))
            || (i32_at(t, 0int) is Ok && !(i32_at(t, 1int) is Ok) && (i32_at(t, 1int) matches Err(k) && int_error(e, t, 1int, k)))
            || (i32_at(t, 0int) is Ok && i32_at(t, 1int) is Ok && !(decimal_at(t, 2int) is Some) && decimal_error(e, t, 2int)))
    }
}

/// Decodes a size tick.
pub fn decode_tick_size_fields(fields: &[String]) -> (r: Result<Event, TwsApiError>)
    ensures
        tick_size_decoded(text_views(fields@), r),
{
    let mut reader = FieldReader::new(fields);
    let ghost t = text_views(fields@);

    let req_id: i32 = match reader.next_i32() {
        Ok(v) => v,
        Err(e) => return Err(e),
    };
    let tick_type: i32 = match reader.next_i32() {
        Ok(v) => v,
        Err(e) => return Err(e),
    };
    let size: DecimalText = match reader.next_decimal() {
        Ok(v) => v,
        Err(e) => return Err(e),
    };


    Ok(Event::TickSize { req_id, tick_type, size })
}

/// What decoding a generic tick gives, field by field; `t` holds the texts of the fields.
pub open spec fn tick_generic_decoded(t: Seq<Seq<char>>, r: Result<Event, TwsApiError>) -> bool {
    if i32_at(t, 0int) is Ok
        && i32_at(t, 1int) is Ok {
        r matches Ok(Event::TickGeneric { req_id, tick_type, value })
            && req_id == i32_or_zero(t, 0int)
            && tick_type == i32_or_zero(t, 1int)
            && value.text@ == text_at(t, 2int)
    } else {
        r matches Err(e) && ((!(i32_at(t, 0int) is Ok) && (i32_at(t, 0int) matches Err(k) && int_error(e, t, 0int, k)))
            || (i32_at(t, 0int) is Ok && !(i32_at(t, 1int) is Ok) && (i32_at(t, 1int) matches Err(k) && int_error(e, t, 1int, k))))
    }
}

/// Decodes a generic tick.
pub fn decode_tick_generic_fields(fields: &[String]) -> (r: Result<Event, TwsApiError>)
    ensures
        tick_generic_decoded(text_views(fields@), r),
{
    let mut reader = FieldReader::new(fields);
    let ghost t = text_views(fields@);

    let req_id: i32 = match reader.next_i32() {
        Ok(v) => v,
        Err(e) => return Err(e),
    };
    let tick_type: i32 = match reader.next_i32() {
        Ok(v) => v,
        Err(e) => return Err(e),
    };
    let value: Double = reader.next_double();


    Ok(Event::TickGeneric { req_id, tick_type, value })
}

/// What decoding a string tick gives, field by field; `t` holds the texts of the fields.
pub open spec fn tick_string_decoded(t: Seq<Seq<char>>, r: Result<Event, TwsApiError>) -> bool {
    if i32_at(t, 0int) is Ok
        && i32_at(t, 1int) is Ok {
        r matches Ok(Event::TickString { req_id, tick_type, value })
            && req_id == i32_or_zero(t, 0int)
            && tick_type == i32_or_zero(t, 1int)
            && value@ == text_at(t, 2int)
    } else {
        r matches Err(e) && ((!(i32_at(t, 0int) is Ok) && (i32_at(t, 0int) matches Err(k) && int_error(e, t, 0int, k)))
            || (i32_at(t, 0int) is Ok && !(i32_at(t, 1int) is Ok) && (i32_at(t, 1int) matches Err(k) && int_error(e, t, 1int, k))))
    }
}

/// Decodes a string tick.
pub fn decode_tick_string_fields(fields: &[String]) -> (r: Result<Event, TwsApiError>)
    ensures
        tick_string_decoded(text_views(fields@), r),
{
    let mut reader = FieldReader::new(fields);
    let ghost t = text_views(fields@);

    let req_id: i32 = match reader.next_i32() {
        Ok(v) => v,
        Err(e) => return Err(e),
    };
    let tick_type: i32 = match reader.next_i32() {
        Ok(v) => v,
        Err(e) => return Err(e),
    };
    let value: String = reader.next_string();


    Ok(Event::TickString { req_id, tick_type, value })
}

/// What decoding an EFP tick gives, field by field; `t` holds the texts of the fields.
pub open spec fn tick_efp_decoded(t: Seq<Seq<char>>, r: Result<Event, TwsApiError>) -> bool {
    if i32_at(t, 0int) is Ok
        && i32_at(t, 1int) is Ok
        && i32_at(t, 5int) is Ok {
        r matches Ok(Event::TickEfp { req_id, tick_type, basis_points, formatted_basis_points, total_dividends, hold_days, future_last_trade_date, dividend_impact, dividends_to_last_trade_date })
            && req_id == i32_or_zero(t, 0int)
            && tick_type == i32_or_zero(t, 1int)
            && basis_points.text@ == text_at(t, 2int)
            && formatted_basis_points@ == text_at(t, 3int)
            && total_dividends.text@ == text_at(t, 4int)
            && hold_days == i32_or_zero(t, 5int)
            && future_last_trade_date@ == text_at(t, 6int)
            && dividend_impact.text@ == text_at(t, 7int)
            && dividends_to_last_trade_date.text@ == text_at(t, 8int)
    } else {
        r matches Err(e) && ((!(i32_at(t, 0int) is Ok) && (i32_at(t, 0int) matches Err(k) && int_error(e, t, 0int, k)))
            || (i32_at(t, 0int) is Ok && !(i32_at(t, 1int) is Ok) && (i32_at(t, 1int) matches Err(k) && int_error(e, t, 1int, k)))
            || (i32_at(t, 0int) is Ok && i32_at(t, 1int) is Ok && !(i32_at(t, 5int) is Ok) && (i32_at(t, 5int) matches Err(k) && int_error(e, t, 5int, k))))
    }
}

/// Decodes an EFP tick.
pub fn decode_tick_efp_fields(fields: &[String]) -> (r: Result<Event, TwsApiError>)
    ensures
        tick_efp_decoded(text_views(fields@), r),
{
    let mut reader = FieldReader::new(fields);
    let ghost t = text_views(fields@);

    let req_id: i32 = match reader.next_i32() {
        Ok(v) => v,
        Err(e) => return Err(e),
    };
    let tick_type: i32 = match reader.next_i32() {
        Ok(v) => v,
        Err(e) => return Err(e),
    };
    let basis_points: Double = reader.next_double();
    let formatted_basis_points: String = reader.next_string();
    let total_dividends: Double = reader.next_double();
    let hold_days: i32 = match reader.next_i32() {
        Ok(v) => v,
        Err(e) => return Err(e),
    };
    let future_last_trade_date: String = reader.next_string();
    let dividend_impact: Double = reader.next_double();
    let dividends_to_last_trade_date: Double = reader.next_double();


    Ok(Event::TickEfp { req_id, tick_type, basis_points, formatted_basis_points, total_dividends, hold_days, future_last_trade_date, dividend_impact, dividends_to_last_trade_date })
}

/// What decoding a tick-request-parameters message gives, field by field; `t` holds the texts of the fields.
pub open spec fn tick_req_params_decoded(t: Seq<Seq<char>>, r: Result<Event, TwsApiError>) -> bool {
    if i32_at(t, 0int) is Ok
        && i32_at(t, 3int) is Ok {
        r matches Ok(Event::TickReqParams { req_id, min_tick, bbo_exchange, snapshot_permissions, last_price_precision, last_size_precision })
            && req_id == i32_or_zero(t, 0int)
            && min_tick@ == text_at(t, 1int)
            && bbo_exchange@ == text_at(t, 2int)
            && snapshot_permissions == i32_or_zero(t, 3int)
            && last_price_precision@ == Seq::<char>::empty()
            && last_size_precision@ == Seq::<char>::empty()
    } else {
        r matches Err(e) && ((!(i32_at(t, 0int) is Ok) && (i32_at(t, 0int) matches Err(k) && int_error(e, t, 0int, k)))
            || (i32_at(t, 0int) is Ok && !(i32_at(t, 3int) is Ok) && (i32_at(t, 3int) matches Err(k) && int_error(e, t, 3int, k))))
    }
}

/// Decodes a tick-request-parameters message.
pub fn decode_tick_req_params_fields(fields: &[String]) -> (r: Result<Event, TwsApiError>)
    ensures
        tick_req_params_decoded(text_views(fields@), r),
{
    let mut reader = FieldReader::new(fields);
    let ghost t = text_views(fields@);

    let req_id: i32 = match reader.next_i32() {
        Ok(v) => v,
        Err(e) => return Err(e),
    };
    let min_tick: String = reader.next_string();
    let bbo_exchange: String = reader.next_string();
    let snapshot_permissions: i32 = match reader.next_i32() {
        Ok(v) => v,
        Err(e) => return Err(e),
    };
    let last_price_precision: String = String::new();
    let last_size_precision: String = String::new();


    Ok(Event::TickReqParams { req_id, min_tick, bbo_exchange, snapshot_permissions, last_price_precision, last_size_precision })
}

/// What decoding a tick-snapshot-end message gives, field by field; `t` holds the texts of the fields.
pub open spec fn tick_snapshot_end_decoded(t: Seq<Seq<char>>, r: Result<Event, TwsApiError>) -> bool {
    if i32_at(t, 0int) is Ok {
        r matches Ok(Event::TickSnapshotEnd { req_id })
            && req_id == i32_or_zero(t, 0int)
    } else {
        r matches Err(e) && ((!(i32_at(t, 0int) is Ok) && (i32_at(t, 0int) matches Err(k) && int_error(e, t, 0int, k))))
    }
}

/// Decodes a tick-snapshot-end message.
pub fn decode_tick_snapshot_end_fields(fields: &[String]) -> (r: Result<Event, TwsApiError>)
    ensures
        tick_snapshot_end_decoded(text_views(fields@), r),
{
    let mut reader = FieldReader::new(fields);
    let ghost t = text_views(fields@);

    let req_id: i32 = match reader.next_i32() {
        Ok(v) => v,
        Err(e) => return Err(e),
    };


    Ok(Event::TickSnapshotEnd { req_id })
}

/// What decoding a contract-data-end message gives, field by field; `t` holds the texts of the fields.
pub open spec fn contract_data_end_decoded(t: Seq<Seq<char>>, r: Result<Event, TwsApiError>) -> bool {
    if i32_at(t, 0int) is Ok {
        r matches Ok(Event::ContractDetailsEnd { req_id })
            && req_id == i32_or_zero(t, 0int)
    } else {
        r matches Err(e) && ((!(i32_at(t, 0int) is Ok) && (i32_at(t, 0int) matches Err(k) && int_error(e, t, 0int, k))))
    }
}

/// Decodes a contract-data-end message.
pub fn decode_contract_data_end_fields(fields: &[String]) -> (r: Result<Event, TwsApiError>)
    ensures
        contract_data_end_decoded(text_views(fields@), r),
{
    let mut reader = FieldReader::new(fields);
    let ghost t = text_views(fields@);

    let req_id: i32 = match reader.next_i32() {
        Ok(v) => v,
        Err(e) => return Err(e),
    };


    Ok(Event::ContractDetailsEnd { req_id })
}

/// What decoding an execution-data-end message gives, field by field; `t` holds the texts of the fields.
pub open spec fn execution_data_end_decoded(t: Seq<Seq<char>>, r: Result<Event, TwsApiError>) -> bool {
    if i32_at(t, 0int) is Ok {
        r matches Ok(Event::ExecutionDetailsEnd { req_id })
            && req_id == i32_or_zero(t, 0int)
    } else {
        r matches Err(e) && ((!(i32_at(t, 0int) is Ok) && (i32_at(t, 0int) matches Err(k) && int_error(e, t, 0int, k))))
    }
}

/// Decodes an execution-data-end message.
pub fn decode_execution_data_end_fields(fields: &[String]) -> (r: Result<Event, TwsApiError>)
    ensures
        execution_data_end_decoded(text_views(fields@), r),
{
    let mut reader = FieldReader::new(fields);
    let ghost t = text_views(fields@);

    let req_id: i32 = match reader.next_i32() {
        Ok(v) => v,
        Err(e) => return Err(e),
    };


    Ok(Event::ExecutionDetailsEnd { req_id })
}

/// What decoding a position-multi-end message gives, field by field; `t` holds the texts of the fields.
pub open spec fn position_multi_end_decoded(t: Seq<Seq<char>>, r: Result<Event, TwsApiError>) -> bool {
    if i32_at(t, 0int) is Ok {
        r matches Ok(Event::PositionMultiEnd { req_id })
            && req_id == i32_or_zero(t, 0int)
    } else {
        r matches Err(e) && ((!(i32_at(t, 0int) is Ok) && (i32_at(t, 0int) matches Err(k) && int_error(e, t, 0int, k))))
    }
}

/// Decodes a position-multi-end message.
pub fn decode_position_multi_end_fields(fields: &[String]) -> (r: Result<Event, TwsApiError>)
    ensures
        position_multi_end_decoded(text_views(fields@), r),
{
    let mut reader = FieldReader::new(fields);
    let ghost t = text_views(fields@);

    let req_id: i32 = match reader.next_i32() {
        Ok(v) => v,
        Err(e) => return Err(e),
    };


    Ok(Event::PositionMultiEnd { req_id })
}

/// What decoding an account-summary message gives, field by field; `t` holds the texts of the fields.
pub open spec fn account_summary_decoded(t: Seq<Seq<char>>, r: Result<Event, TwsApiError>) -> bool {
    if i32_at(t, 0int) is Ok {
        r matches Ok(Event::AccountSummary { req_id, account, tag, value, currency })
            && req_id == i32_or_zero(t, 0int)
            && account@ == text_at(t, 1int)
            && tag@ == text_at(t, 2int)
            && value@ == text_at(t, 3int)
            && currency@ == text_at(t, 4int)
    } else {
        r matches Err(e) && ((!(i32_at(t, 0int) is Ok) && (i32_at(t, 0int) matches Err(k) && int_error(e, t, 0int, k))))
    }
}

/// Decodes an account-summary message.
pub fn decode_account_summary_fields(fields: &[String]) -> (r: Result<Event, TwsApiError>)
    ensures
        account_summary_decoded(text_views(fields@), r),
{
    let mut reader = FieldReader::new(fields);
    let ghost t = text_views(fields@);

    let req_id: i32 = match reader.next_i32() {
        Ok(v) => v,
        Err(e) => return Err(e),
    };
    let account: String = reader.next_string();
    let tag: String = reader.next_string();
    let value: String = reader.next_string();
    let currency: String = reader.next_string();


    Ok(Event::AccountSummary { req_id, account, tag, value, currency })
}

/// What decoding an account-summary-end message gives, field by field; `t` holds the texts of the fields.
pub open spec fn account_summary_end_decoded(t: Seq<Seq<char>>, r: Result<Event, TwsApiError>) -> bool {
    if i32_at(t, 0int) is Ok {
        r matches Ok(Event::AccountSummaryEnd { req_id })
            && req_id == i32_or_zero(t, 0int)
    } else {
        r matches Err(e) && ((!(i32_at(t, 0int) is Ok) && (i32_at(t, 0int) matches Err(k) && int_error(e, t, 0int, k))))
    }
}

/// Decodes an account-summary-end message.
pub fn decode_account_summary_end_fields(fields: &[String]) -> (r: Result<Event, TwsApiError>)
    ensures
        account_summary_end_decoded(text_views(fields@), r),
{
    let mut reader = FieldReader::new(fields);
    let ghost t = text_views(fields@);

    let req_id: i32 = match reader.next_i32() {
        Ok(v) => v,
        Err(e) => return Err(e),
    };


    Ok(Event::AccountSummaryEnd { req_id })
}

/// What decoding an account-update-multi message gives, field by field; `t` holds the texts of the fields.
pub open spec fn account_update_multi_decoded(t: Seq<Seq<char>>, r: Result<Event, TwsApiError>) -> bool {
    if i32_at(t, 0int) is Ok {
        r matches Ok(Event::AccountUpdateMulti { req_id, account, model_code, key, value, currency })
            && req_id == i32_or_zero(t, 0int)
            && account@ == text_at(t, 1int)
            && model_code@ == text_at(t, 2int)
            && key@ == text_at(t, 3int)
            && value@ == text_at(t, 4int)
            && currency@ == text_at(t, 5int)
    } else {
        r matches Err(e) && ((!(i32_at(t, 0int) is Ok) && (i32_at(t, 0int) matches Err(k) && int_error(e, t, 0int, k))))
    }
}

/// Decodes an account-update-multi message.
pub fn decode_account_update_multi_fields(fields: &[String]) -> (r: Result<Event, TwsApiError>)
    ensures
        account_update_multi_decoded(text_views(fields@), r),
{
    let mut reader = FieldReader::new(fields);
    let ghost t = text_views(fields@);

    let req_id: i32 = match reader.next_i32() {
        Ok(v) => v,
        Err(e) => return Err(e),
    };
    let account: String = reader.next_string();
    let model_code: String = reader.next_string();
    let key: String = reader.next_string();
    let value: String = reader.next_string();
    let currency: String = reader.next_string();


    Ok(Event::AccountUpdateMulti { req_id, account, model_code, key, value, currency })
}

/// What decoding an account-update-multi-end message gives, field by field; `t` holds the texts of the fields.
pub open spec fn account_update_multi_end_decoded(t: Seq<Seq<char>>, r: Result<Event, TwsApiError>) -> bool {
    if i32_at(t, 0int) is Ok {
        r matches Ok(Event::AccountUpdateMultiEnd { req_id })
            && req_id == i32_or_zero(t, 0int)
    } else {
        r matches Err(e) && ((!(i32_at(t, 0int) is Ok) && (i32_at(t, 0int) matches Err(k) && int_error(e, t, 0int, k))))
    }
}

/// Decodes an account-update-multi-end message.
pub fn decode_account_update_multi_end_fields(fields: &[String]) -> (r: Result<Event, TwsApiError>)
    ensures
        account_update_multi_end_decoded(text_views(fields@), r),
{
    let mut reader = FieldReader::new(fields);
    let ghost t = text_views(fields@);

    let req_id: i32 = match reader.next_i32() {
        Ok(v) => v,
        Err(e) => return Err(e),
    };


    Ok(Event::AccountUpdateMultiEnd { req_id })
}

/// What decoding a verify-message message gives, field by field; `t` holds the texts of the fields.
pub open spec fn verify_message_api_decoded(t: Seq<Seq<char>>, r: Result<Event, TwsApiError>) -> bool {
    if true {
        r matches Ok(Event::VerifyMessageApi { api_data })
            && api_data@ == text_at(t, 0int)
    } else {
        r matches Err(e) && (false)
    }
}

/// Decodes a verify-message message.
pub fn decode_verify_message_api_fields(fields: &[String]) -> (r: Result<Event, TwsApiError>)
    ensures
        verify_message_api_decoded(text_views(fields@), r),
{
    let mut reader = FieldReader::new(fields);
    let ghost t = text_views(fields@);

    let api_data: String = reader.next_string();


    Ok(Event::VerifyMessageApi { api_data })
}

/// What decoding a verify-completed message gives, field by field; `t` holds the texts of the fields.
pub open spec fn verify_completed_decoded(t: Seq<Seq<char>>, r: Result<Event, TwsApiError>) -> bool {
    if true {
        r matches Ok(Event::VerifyCompleted { is_successful, error_text })
            && is_successful == bool_at(t, 0int)
            && error_text@ == text_at(t, 1int)
    } else {
        r matches Err(e) && (false)
    }
}

/// Decodes a verify-completed message.
pub fn decode_verify_completed_fields(fields: &[String]) -> (r: Result<Event, TwsApiError>)
    ensures
        verify_completed_decoded(text_views(fields@), r),
{
    let mut reader = FieldReader::new(fields);
    let ghost t = text_views(fields@);

    let is_successful: bool = reader.next_bool();
    let error_text: String = reader.next_string();


    Ok(Event::VerifyCompleted { is_successful, error_text })
}

/// What decoding a verify-and-auth message gives, field by field; `t` holds the texts of the fields.
pub open spec fn verify_and_auth_message_api_decoded(t: Seq<Seq<char>>, r: Result<Event, TwsApiError>) -> bool {
    if true {
        r matches Ok(Event::VerifyAndAuthMessageApi { api_data, challenge })
            && api_data@ == text_at(t, 0int)
            && challenge@ == text_at(t, 1int)
    } else {
        r matches Err(e) && (false)
    }
}

/// Decodes a verify-and-auth message.
pub fn decode_verify_and_auth_message_api_fields(fields: &[String]) -> (r: Result<Event, TwsApiError>)
    ensures
        verify_and_auth_message_api_decoded(text_views(fields@), r),
{
    let mut reader = FieldReader::new(fields);
    let ghost t = text_views(fields@);

    let api_data: String = reader.next_string();
    let challenge: String = reader.next_string();


    Ok(Event::VerifyAndAuthMessageApi { api_data, challenge })
}

/// What decoding a verify-and-auth-completed message gives, field by field; `t` holds the texts of the fields.
pub open spec fn verify_and_auth_completed_decoded(t: Seq<Seq<char>>, r: Result<Event, TwsApiError>) -> bool {
    if true {
        r matches Ok(Event::VerifyAndAuthCompleted { is_successful, error_text })
            && is_successful == bool_at(t, 0int)
            && error_text@ == text_at(t, 1int)
    } else {
        r matches Err(e) && (false)
    }
}

/// Decodes a verify-and-auth-completed message.
pub fn decode_verify_and_auth_completed_fields(fields: &[String]) -> (r: Result<Event, TwsApiError>)
    ensures
        verify_and_auth_completed_decoded(text_views(fields@), r),
{
    let mut reader = FieldReader::new(fields);
    let ghost t = text_views(fields@);

    let is_successful: bool = reader.next_bool();
    let error_text: String = reader.next_string();


    Ok(Event::VerifyAndAuthCompleted { is_successful, error_text })
}

/// What decoding an option-parameters-end message gives, field by field; `t` holds the texts of the fields.
pub open spec fn security_definition_option_parameter_end_decoded(t: Seq<Seq<char>>, r: Result<Event, TwsApiError>) -> bool {
    if i32_at(t, 0int) is Ok {
        r matches Ok(Event::SecurityDefinitionOptionParameterEnd { req_id })
            && req_id == i32_or_zero(t, 0int)
    } else {
        r matches Err(e) && ((!(i32_at(t, 0int) is Ok) && (i32_at(t, 0int) matches Err(k) && int_error(e, t, 0int, k))))
    }
}

/// Decodes an option-parameters-end message.
pub fn decode_security_definition_option_parameter_end_fields(fields: &[String]) -> (r: Result<Event, TwsApiError>)
    ensures
        security_definition_option_parameter_end_decoded(text_views(fields@), r),
{
    let mut reader = FieldReader::new(fields);
    let ghost t = text_views(fields@);

    let req_id: i32 = match reader.next_i32() {
        Ok(v) => v,
        Err(e) => return Err(e),
    };


    Ok(Event::SecurityDefinitionOptionParameterEnd { req_id })
}

/// What decoding a news article gives, field by field; `t` holds the texts of the fields.
pub open spec fn news_article_decoded(t: Seq<Seq<char>>, r: Result<Event, TwsApiError>) -> bool {
    if i32_at(t, 0int) is Ok
        && i32_at(t, 1int) is Ok {
        r matches Ok(Event::NewsArticle { req_id, article_type, article_text })
            && req_id == i32_or_zero(t, 0int)
            && article_type == i32_or_zero(t, 1int)
            && article_text@ == text_at(t, 2int)
    } else {
        r matches Err(e) && ((!(i32_at(t, 0int) is Ok) && (i32_at(t, 0int) matches Err(k) && int_error(e, t, 0int, k)))
            || (i32_at(t, 0int) is Ok && !(i32_at(t, 1int) is Ok) && (i32_at(t, 1int) matches Err(k) && int_error(e, t, 1int, k))))
    }
}

/// Decodes a news article.
pub fn decode_news_article_fields(fields: &[String]) -> (r: Result<Event, TwsApiError>)
    ensures
        news_article_decoded(text_views(fields@), r),
{
    let mut reader = FieldReader::new(fields);
    let ghost t = text_views(fields@);

    let req_id: i32 = match reader.next_i32() {
        Ok(v) => v,
        Err(e) => return Err(e),
    };
    let article_type: i32 = match reader.next_i32() {
        Ok(v) => v,
        Err(e) => return Err(e),
    };
    let article_text: String = reader.next_string();


    Ok(Event::NewsArticle { req_id, article_type, article_text })
}

/// What decoding a historical news headline gives, field by field; `t` holds the texts of the fields.
pub open spec fn historical_news_decoded(t: Seq<Seq<char>>, r: Result<Event, TwsApiError>) -> bool {
    if i32_at(t, 0int) is Ok {
        r matches Ok(Event::HistoricalNews { req_id, time, provider_code, article_id, headline })
            && req_id == i32_or_zero(t, 0int)
            && time@ == text_at(t, 1int)
            && provider_code@ == text_at(t, 2int)
            && article_id@ == text_at(t, 3int)
            && headline@ == text_at(t, 4int)
    } else {
        r matches Err(e) && ((!(i32_at(t, 0int) is Ok) && (i32_at(t, 0int) matches Err(k) && int_error(e, t, 0int, k))))
    }
}

/// Decodes a historical news headline.
pub fn decode_historical_news_fields(fields: &[String]) -> (r: Result<Event, TwsApiError>)
    ensures
        historical_news_decoded(text_views(fields@), r),
{
    let mut reader = FieldReader::new(fields);
    let ghost t = text_views(fields@);

    let req_id: i32 = match reader.next_i32() {
        Ok(v) => v,
        Err(e) => return Err(e),
    };
    let time: String = reader.next_string();
    let provider_code: String = reader.next_string();
    let article_id: String = reader.next_string();
    let headline: String = reader.next_string();


    Ok(Event::HistoricalNews { req_id, time, provider_code, article_id, headline })
}

/// What decoding a historical-news-end message gives, field by field; `t` holds the texts of the fields.
pub open spec fn historical_news_end_decoded(t: Seq<Seq<char>>, r: Result<Event, TwsApiError>) -> bool {
    if i32_at(t, 0int) is Ok {
        r matches Ok(Event::HistoricalNewsEnd { req_id, has_more })
            && req_id == i32_or_zero(t, 0int)
            && has_more == bool_at(t, 1int)
    } else {
        r matches Err(e) && ((!(i32_at(t, 0int) is Ok) && (i32_at(t, 0int) matches Err(k) && int_error(e, t, 0int, k))))
    }
}

/// Decodes a historical-news-end message.
pub fn decode_historical_news_end_fields(fields: &[String]) -> (r: Result<Event, TwsApiError>)
    ensures
        historical_news_end_decoded(text_views(fields@), r),
{
    let mut reader = FieldReader::new(fields);
    let ghost t = text_views(fields@);

    let req_id: i32 = match reader.next_i32() {
        Ok(v) => v,
        Err(e) => return Err(e),
    };
    let has_more: bool = reader.next_bool();


    Ok(Event::HistoricalNewsEnd { req_id, has_more })
}

/// What decoding a news tick gives, field by field; `t` holds the texts of the fields.
pub open spec fn tick_news_decoded(t: Seq<Seq<char>>, r: Result<Event, TwsApiError>) -> bool {
    if i32_at(t, 0int) is Ok
        && i64_at(t, 1int) is Ok {
        r matches Ok(Event::TickNews { req_id, timestamp, provider_code, article_id, headline, extra_data })
            && req_id == i32_or_zero(t, 0int)
            && timestamp == i64_or_zero(t, 1int)
            && provider_code@ == text_at(t, 2int)
            && article_id@ == text_at(t, 3int)
            && headline@ == text_at(t, 4int)
            && extra_data@ == text_at(t, 5int)
    } else {
        r matches Err(e) && ((!(i32_at(t, 0int) is Ok) && (i32_at(t, 0int) matches Err(k) && int_error(e, t, 0int, k)))
            || (i32_at(t, 0int) is Ok && !(i64_at(t, 1int) is Ok) && (i64_at(t, 1int) matches Err(k) && int_error(e, t, 1int, k))))
    }
}

/// Decodes a news tick.
pub fn decode_tick_news_fields(fields: &[String]) -> (r: Result<Event, TwsApiError>)
    ensures
        tick_news_decoded(text_views(fields@), r),
{
    let mut reader = FieldReader::new(fields);
    let ghost t = text_views(fields@);

    let req_id: i32 = match reader.next_i32() {
        Ok(v) => v,
        Err(e) => return Err(e),
    };
    let timestamp: i64 = match reader.next_i64() {
        Ok(v) => v,
        Err(e) => return Err(e),
    };
    let provider_code: String = reader.next_string();
    let article_id: String = reader.next_string();
    let headline: String = reader.next_string();
    let extra_data: String = reader.next_string();


    Ok(Event::TickNews { req_id, timestamp, provider_code, article_id, headline, extra_data })
}

/// What decoding a historical-data-end message gives, field by field; `t` holds the texts of the fields.
pub open spec fn historical_data_end_decoded(t: Seq<Seq<char>>, r: Result<Event, TwsApiError>) -> bool {
    if i32_at(t, 0int) is Ok {
        r matches Ok(Event::HistoricalDataEnd { req_id, start, end })
            && req_id == i32_or_zero(t, 0int)
            && start@ == text_at(t, 1int)
            && end@ == text_at(t, 2int)
    } else {
        r matches Err(e) && ((!(i32_at(t, 0int) is Ok) && (i32_at(t, 0int) matches Err(k) && int_error(e, t, 0int, k))))
    }
}

/// Decodes a historical-data-end message.
pub fn decode_historical_data_end_fields(fields: &[String]) -> (r: Result<Event, TwsApiError>)
    ensures
        historical_data_end_decoded(text_views(fields@), r),
{
    let mut reader = FieldReader::new(fields);
    let ghost t = text_views(fields@);

    let req_id: i32 = match reader.next_i32() {
        Ok(v) => v,
        Err(e) => return Err(e),
    };
    let start: String = reader.next_string();
    let end: String = reader.next_string();


    Ok(Event::HistoricalDataEnd { req_id, start, end })
}

/// What decoding a replace-FA-end message gives, field by field; `t` holds the texts of the fields.
pub open spec fn replace_fa_end_decoded(t: Seq<Seq<char>>, r: Result<Event, TwsApiError>) -> bool {
    if i32_at(t, 0int) is Ok {
        r matches Ok(Event::ReplaceFaEnd { req_id, text })
            && req_id == i32_or_zero(t, 0int)
            && text@ == text_at(t, 1int)
    } else {
        r matches Err(e) && ((!(i32_at(t, 0int) is Ok) && (i32_at(t, 0int) matches Err(k) && int_error(e, t, 0int, k))))
    }
}

/// Decodes a replace-FA-end message.
pub fn decode_replace_fa_end_fields(fields: &[String]) -> (r: Result<Event, TwsApiError>)
    ensures
        replace_fa_end_decoded(text_views(fields@), r),
{
    let mut reader = FieldReader::new(fields);
    let ghost t = text_views(fields@);

    let req_id: i32 = match reader.next_i32() {
        Ok(v) => v,
        Err(e) => return Err(e),
    };
    let text: String = reader.next_string();


    Ok(Event::ReplaceFaEnd { req_id, text })
}

/// What decoding a WSH metadata message gives, field by field; `t` holds the texts of the fields.
pub open spec fn wsh_meta_data_decoded(t: Seq<Seq<char>>, r: Result<Event, TwsApiError>) -> bool {
    if i32_at(t, 0int) is Ok {
        r matches Ok(Event::WshMetaData { req_id, data_json })
            && req_id == i32_or_zero(t, 0int)
            && data_json@ == text_at(t, 1int)
    } else {
        r matches Err(e) && ((!(i32_at(t, 0int) is Ok) && (i32_at(t, 0int) matches Err(k) && int_error(e, t, 0int, k))))
    }
}

/// Decodes a WSH metadata message.
pub fn decode_wsh_meta_data_fields(fields: &[String]) -> (r: Result<Event, TwsApiError>)
    ensures
        wsh_meta_data_decoded(text_views(fields@), r),
{
    let mut reader = FieldReader::new(fields);
    let ghost t = text_views(fields@);

    let req_id: i32 = match reader.next_i32() {
        Ok(v) => v,
        Err(e) => return Err(e),
    };
    let data_json: String = reader.next_string();


    Ok(Event::WshMetaData { req_id, data_json })
}

/// What decoding a WSH event-data message gives, field by field; `t` holds the texts of the fields.
pub open spec fn wsh_event_data_decoded(t: Seq<Seq<char>>, r: Result<Event, TwsApiError>) -> bool {
    if i32_at(t, 0int) is Ok {
        r matches Ok(Event::WshEventData { req_id, data_json })
            && req_id == i32_or_zero(t, 0int)
            && data_json@ == text_at(t, 1int)
    } else {
        r matches Err(e) && ((!(i32_at(t, 0int) is Ok) && (i32_at(t, 0int) matches Err(k) && int_error(e, t, 0int, k))))
    }
}

/// Decodes a WSH event-data message.
pub fn decode_wsh_event_data_fields(fields: &[String]) -> (r: Result<Event, TwsApiError>)
    ensures
        wsh_event_data_decoded(text_views(fields@), r),
{
    let mut reader = FieldReader::new(fields);
    let ghost t = text_views(fields@);

    let req_id: i32 = match reader.next_i32() {
        Ok(v) => v,
        Err(e) => return Err(e),
    };
    let data_json: String = reader.next_string();


    Ok(Event::WshEventData { req_id, data_json })
}

/// What decoding an order-bound message gives, field by field; `t` holds the texts of the fields.
pub open spec fn order_bound_decoded(t: Seq<Seq<char>>, r: Result<Event, TwsApiError>) -> bool {
    if i64_at(t, 0int) is Ok
        && i32_at(t, 1int) is Ok
        && i32_at(t, 2int) is Ok {
        r matches Ok(Event::OrderBound { perm_id, client_id, order_id })
            && perm_id == i64_or_zero(t, 0int)
            && client_id == i32_or_zero(t, 1int)
            && order_id == i32_or_zero(t, 2int)
    } else {
        r matches Err(e) && ((!(i64_at(t, 0int) is Ok) && (i64_at(t, 0int) matches Err(k) && int_error(e, t, 0int, k)))
            || (i64_at(t, 0int) is Ok && !(i32_at(t, 1int) is Ok) && (i32_at(t, 1int) matches Err(k) && int_error(e, t, 1int, k)))
            || (i64_at(t, 0int) is Ok && i32_at(t, 1int) is Ok && !(i32_at(t, 2int) is Ok) && (i32_at(t, 2int) matches Err(k) && int_error(e, t, 2int, k))))
    }
}

/// Decodes an order-bound message.
pub fn decode_order_bound_fields(fields: &[String]) -> (r: Result<Event, TwsApiError>)
    ensures
        order_bound_decoded(text_views(fields@), r),
{
    let mut reader = FieldReader::new(fields);
    let ghost t = text_views(fields@);

    let perm_id: i64 = match reader.next_i64() {
        Ok(v) => v,
        Err(e) => return Err(e),
    };
    let client_id: i32 = match reader.next_i32() {
        Ok(v) => v,
        Err(e) => return Err(e),
    };
    let order_id: i32 = match reader.next_i32() {
        Ok(v) => v,
        Err(e) => return Err(e),
    };


    Ok(Event::OrderBound { perm_id, client_id, order_id })
}

/// What decoding a user-info message gives, field by field; `t` holds the texts of the fields.
pub open spec fn user_info_decoded(t: Seq<Seq<char>>, r: Result<Event, TwsApiError>) -> bool {
    if i32_at(t, 0int) is Ok {
        r matches Ok(Event::UserInfo { req_id, white_branding_id })
            && req_id == i32_or_zero(t, 0int)
            && white_branding_id@ == text_at(t, 1int)
    } else {
        r matches Err(e) && ((!(i32_at(t, 0int) is Ok) && (i32_at(t, 0int) matches Err(k) && int_error(e, t, 0int, k))))
    }
}

/// Decodes a user-info message.
pub fn decode_user_info_fields(fields: &[String]) -> (r: Result<Event, TwsApiError>)
    ensures
        user_info_decoded(text_views(fields@), r),
{
    let mut reader = FieldReader::new(fields);
    let ghost t = text_views(fields@);

    let req_id: i32 = match reader.next_i32() {
        Ok(v) => v,
        Err(e) => return Err(e),
    };
    let white_branding_id: String = reader.next_string();


    Ok(Event::UserInfo { req_id, white_branding_id })
}

/// What decoding an order-status message gives, field by field; `t` holds the texts of the fields.
/// A server that sends raw ids sends no version field in front.
pub open spec fn order_status_decoded(t: Seq<Seq<char>>, raw: bool, r: Result<Event, TwsApiError>) -> bool {
    let has_version_field: bool = !raw;
    let order_id_pos: int = if has_version_field { 1int } else { 0int };
    if i32_at(t, order_id_pos) is Ok
        && decimal_at(t, order_id_pos + 2) is Some
        && decimal_at(t, order_id_pos + 3) is Some
        && i64_at(t, order_id_pos + 5) is Ok
        && i32_at(t, order_id_pos + 6) is Ok
        && i32_at(t, order_id_pos + 8) is Ok {
        r matches Ok(Event::OrderStatus { order_id, status, filled, remaining, avg_fill_price, perm_id, parent_id, last_fill_price, client_id, why_held, market_cap_price })
            && order_id == i32_or_zero(t, order_id_pos)
            && status@ == text_at(t, order_id_pos + 1)
            && filled.text@ == decimal_or_zero(t, order_id_pos + 2)
            && remaining.text@ == decimal_or_zero(t, order_id_pos + 3)
            && avg_fill_price.text@ == text_at(t, order_id_pos + 4)
            && perm_id == i64_or_zero(t, order_id_pos + 5)
            && parent_id == i32_or_zero(t, order_id_pos + 6)
            && last_fill_price.text@ == text_at(t, order_id_pos + 7)
            && client_id == i32_or_zero(t, order_id_pos + 8)
            && why_held@ == text_at(t, order_id_pos + 9)
            && market_cap_price.text@ == text_at(t, order_id_pos + 10)
    } else {
        r matches Err(e) && ((!(i32_at(t, order_id_pos) is Ok) && (i32_at(t, order_id_pos) matches Err(k) && int_error(e, t, order_id_pos, k)))
            || (i32_at(t, order_id_pos) is Ok && !(decimal_at(t, order_id_pos + 2) is Some) && decimal_error(e, t, order_id_pos + 2))
            || (i32_at(t, order_id_pos) is Ok && decimal_at(t, order_id_pos + 2) is Some && !(decimal_at(t, order_id_pos + 3) is Some) && decimal_error(e, t, order_id_pos + 3))
            || (i32_at(t, order_id_pos) is Ok && decimal_at(t, order_id_pos + 2) is Some && decimal_at(t, order_id_pos + 3) is Some && !(i64_at(t, order_id_pos + 5) is Ok) && (i64_at(t, order_id_pos + 5) matches Err(k) && int_error(e, t, order_id_pos + 5, k)))
            || (i32_at(t, order_id_pos) is Ok && decimal_at(t, order_id_pos + 2) is Some && decimal_at(t, order_id_pos + 3) is Some && i64_at(t, order_id_pos + 5) is Ok && !(i32_at(t, order_id_pos + 6) is Ok) && (i32_at(t, order_id_pos + 6) matches Err(k) && int_error(e, t, order_id_pos + 6, k)))
            || (i32_at(t, order_id_pos) is Ok && decimal_at(t, order_id_pos + 2) is Some && decimal_at(t, order_id_pos + 3) is Some && i64_at(t, order_id_pos + 5) is Ok && i32_at(t, order_id_pos + 6) is Ok && !(i32_at(t, order_id_pos + 8) is Ok) && (i32_at(t, order_id_pos + 8) matches Err(k) && int_error(e, t, order_id_pos + 8, k))))
    }
}

/// Decodes an order-status message; a server that sends raw ids sends no version field in front.
pub fn decode_order_status_fields(fields: &[String], raw: bool) -> (r: Result<Event, TwsApiError>)
    ensures
        order_status_decoded(text_views(fields@), raw, r),
{
    let mut reader = FieldReader::new(fields);
    let ghost t = text_views(fields@);
    let ghost has_version_field: bool = !raw;
    let ghost order_id_pos: int = if has_version_field { 1int } else { 0int };

    if !raw {
        let _ = reader.next_string();
    }
    proof {
        assert(reader.position() == order_id_pos);
    }
    let order_id: i32 = match reader.next_i32() {
        Ok(v) => v,
        Err(e) => return Err(e),
    };
    let status: String = reader.next_string();
    let filled: DecimalText = match reader.next_decimal() {
        Ok(v) => v,
        Err(e) => return Err(e),
    };
    let remaining: DecimalText = match reader.next_decimal() {
        Ok(v) => v,
        Err(e) => return Err(e),
    };
    let avg_fill_price: Double = reader.next_double();
    let perm_id: i64 = match reader.next_i64() {
        Ok(v) => v,
        Err(e) => return Err(e),
    };
    let parent_id: i32 = match reader.next_i32() {
        Ok(v) => v,
        Err(e) => return Err(e),
    };
    let last_fill_price: Double = reader.next_double();
    let client_id: i32 = match reader.next_i32() {
        Ok(v) => v,
        Err(e) => return Err(e),
    };
    let why_held: String = reader.next_string();
    let market_cap_price: Double = reader.next_double();


    Ok(Event::OrderStatus { order_id, status, filled, remaining, avg_fill_price, perm_id, parent_id, last_fill_price, client_id, why_held, market_cap_price })
}

/// What decoding a delta-neutral validation message gives, field by field; `t` holds the texts of the fields.
pub open spec fn delta_neutral_validation_decoded(t: Seq<Seq<char>>, r: Result<Event, TwsApiError>) -> bool {
    if i32_at(t, 1int) is Ok
        && i32_at(t, 2int) is Ok {
        r matches Ok(Event::DeltaNeutralValidation { req_id, delta_neutral_contract })
            && req_id == i32_or_zero(t, 1int)
            && delta_neutral_contract.con_id == i32_or_zero(t, 2int)
            && delta_neutral_contract.delta.text@ == text_at(t, 3int)
            && delta_neutral_contract.price.text@ == text_at(t, 4int)
    } else {
        r matches Err(e) && ((!(i32_at(t, 1int) is Ok) && (i32_at(t, 1int) matches Err(k) && int_error(e, t, 1int, k)))
            || (i32_at(t, 1int) is Ok && !(i32_at(t, 2int) is Ok) && (i32_at(t, 2int) matches Err(k) && int_error(e, t, 2int, k))))
    }
}

/// Decodes a delta-neutral validation message.
pub fn decode_delta_neutral_validation_fields(fields: &[String]) -> (r: Result<Event, TwsApiError>)
    ensures
        delta_neutral_validation_decoded(text_views(fields@), r),
{
    let mut reader = FieldReader::new(fields);
    let ghost t = text_views(fields@);
    let mut dnc_con_id: i32 = 0;
    let mut dnc_delta: Double = Double::zero();
    let mut dnc_price: Double = Double::zero();
    let _ = reader.next_string();
    let req_id: i32 = match reader.next_i32() {
        Ok(v) => v,
        Err(e) => return Err(e),
    };
    dnc_con_id = match reader.next_i32() {
        Ok(v) => v,
        Err(e) => return Err(e),
    };
    dnc_delta = reader.next_double();
    dnc_price = reader.next_double();
    let dnc = DeltaNeutralContract { con_id: dnc_con_id, delta: dnc_delta, price: dnc_price };

    Ok(Event::DeltaNeutralValidation { req_id, delta_neutral_contract: dnc })
}

/// What decoding a commission-and-fees report gives, field by field; `t` holds the texts of the fields.
pub open spec fn commission_and_fees_report_decoded(t: Seq<Seq<char>>, r: Result<Event, TwsApiError>) -> bool {
    if true {
        r matches Ok(Event::CommissionAndFeesReport { report })
            && report.exec_id@ == text_at(t, 1int)
            && report.commission_and_fees.text@ == text_at(t, 2int)
            && report.currency@ == text_at(t, 3int)
            && report.realized_pnl.text@ == text_at(t, 4int)
            && report.bond_yield.text@ == text_at(t, 5int)
            && report.yield_redemption_date@ == text_at(t, 6int)
    } else {
        r matches Err(e) && (false)
    }
}

/// Decodes a commission-and-fees report.
pub fn decode_commission_and_fees_report_fields(fields: &[String]) -> (r: Result<Event, TwsApiError>)
    ensures
        commission_and_fees_report_decoded(text_views(fields@), r),
{
    let mut reader = FieldReader::new(fields);
    let ghost t = text_views(fields@);
    let mut report_exec_id: String = String::new();
    let mut report_commission_and_fees: Double = Double::zero();
    let mut report_currency: String = String::new();
    let mut report_realized_pnl: Double = Double::zero();
    let mut report_bond_yield: Double = Double::zero();
    let mut report_yield_redemption_date: String = String::new();
    let _ = reader.next_string();
    report_exec_id = reader.next_string();
    report_commission_and_fees = reader.next_double();
    report_currency = reader.next_string();
    report_realized_pnl = reader.next_double();
    report_bond_yield = reader.next_double();
    report_yield_redemption_date = reader.next_string();
    let report = CommissionAndFeesReport { exec_id: report_exec_id, commission_and_fees: report_commission_and_fees, currency: report_currency, realized_pnl: report_realized_pnl, bond_yield: report_bond_yield, yield_redemption_date: report_yield_redemption_date };

    Ok(Event::CommissionAndFeesReport { report })
}

/// What decoding a portfolio-value message gives, field by field; `t` holds the texts of the fields.
pub open spec fn portfolio_value_decoded(t: Seq<Seq<char>>, r: Result<Event, TwsApiError>) -> bool {
    let cond_1: bool = (i32_or_zero(t, 0int)) >= 7;
    let currency_pos: int = if cond_1 { 9int } else { 7int };
    let cond_3: bool = (i32_or_zero(t, 0int)) >= 8;
    let position_pos: int = if cond_3 { currency_pos + 3 } else { currency_pos + 2 };
    if i32_at(t, 0int) is Ok
        && i32_at(t, 1int) is Ok
        && decimal_at(t, position_pos) is Some {
        r matches Ok(Event::PortfolioValue { contract, position, market_price, market_value, average_cost, unrealized_pnl, realized_pnl, account_name })
            && (*contract).con_id == i32_or_zero(t, 1int)
            && (*contract).symbol@ == text_at(t, 2int)
            && (*contract).sec_type@ == text_at(t, 3int)
            && (*contract).last_trade_date_or_contract_month@ == text_at(t, 4int)
            && (*contract).last_trade_date@ == Seq::<char>::empty()
            && (*contract).strike.text@ == text_at(t, 5int)
            && (*contract).right@ == text_at(t, 6int)
            && (*contract).multiplier@ == (if cond_1 { text_at(t, 7int) } else { Seq::<char>::empty() })
            && (*contract).exchange@ == Seq::<char>::empty()
            && (*contract).primary_exchange@ == (if cond_1 { text_at(t, 8int) } else { Seq::<char>::empty() })
            && (*contract).currency@ == text_at(t, currency_pos)
            && (*contract).local_symbol@ == text_at(t, currency_pos + 1)
            && (*contract).trading_class@ == (if cond_3 { text_at(t, currency_pos + 2) } else { Seq::<char>::empty() })
            && (*contract).include_expired == false
            && (*contract).sec_id_type@ == Seq::<char>::empty()
            && (*contract).sec_id@ == Seq::<char>::empty()
            && (*contract).description@ == Seq::<char>::empty()
            && (*contract).issuer_id@ == Seq::<char>::empty()
            && (*contract).combo_legs_description@ == Seq::<char>::empty()
            && (*contract).combo_legs@.len() == 0
            && (*contract).delta_neutral_contract is None
            && position.text@ == decimal_or_zero(t, position_pos)
            && market_price.text@ == text_at(t, position_pos + 1)
            && market_value.text@ == text_at(t, position_pos + 2)
            && average_cost.text@ == text_at(t, position_pos + 3)
            && unrealized_pnl.text@ == text_at(t, position_pos + 4)
            && realized_pnl.text@ == text_at(t, position_pos + 5)
            && account_name@ == text_at(t, position_pos + 6)
    } else {
        r matches Err(e) && ((!(i32_at(t, 0int) is Ok) && (i32_at(t, 0int) matches Err(k) && int_error(e, t, 0int, k)))
            || (i32_at(t, 0int) is Ok && !(i32_at(t, 1int) is Ok) && (i32_at(t, 1int) matches Err(k) && int_error(e, t, 1int, k)))
            || (i32_at(t, 0int) is Ok && i32_at(t, 1int) is Ok && !(decimal_at(t, position_pos) is Some) && decimal_error(e, t, position_pos)))
    }
}

/// Decodes a portfolio-value message.
pub fn decode_portfolio_value_fields(fields: &[String]) -> (r: Result<Event, TwsApiError>)
    ensures
        portfolio_value_decoded(text_views(fields@), r),
{
    let mut reader = FieldReader::new(fields);
    let ghost t = text_views(fields@);
    let ghost cond_1: bool = (i32_or_zero(t, 0int)) >= 7;
    let ghost currency_pos: int = if cond_1 { 9int } else { 7int };
    let ghost cond_3: bool = (i32_or_zero(t, 0int)) >= 8;
    let ghost position_pos: int = if cond_3 { currency_pos + 3 } else { currency_pos + 2 };
    let mut contract_con_id: i32 = 0;
    let mut contract_symbol: String = String::new();
    let mut contract_sec_type: String = String::new();
    let mut contract_last_trade_date_or_contract_month: String = String::new();
    let mut contract_strike: Double = Double::unset();
    let mut contract_right: String = String::new();
    let mut contract_multiplier: String = String::new();
    let mut contract_primary_exchange: String = String::new();
    let mut contract_currency: String = String::new();
    let mut contract_local_symbol: String = String::new();
    let mut contract_trading_class: String = String::new();
    let version: i32 = match reader.next_i32() {
        Ok(v) => v,
        Err(e) => return Err(e),
    };
    contract_con_id = match reader.next_i32() {
        Ok(v) => v,
        Err(e) => return Err(e),
    };
    contract_symbol = reader.next_string();
    contract_sec_type = reader.next_string();
    contract_last_trade_date_or_contract_month = reader.next_string();
    contract_strike = reader.next_double();
    contract_right = reader.next_string();
    if version >= 7 {
        contract_multiplier = reader.next_string();
        contract_primary_exchange = reader.next_string();
    }
    proof {
        assert(reader.position() == currency_pos);
    }
    contract_currency = reader.next_string();
    contract_local_symbol = reader.next_string();
    if version >= 8 {
        contract_trading_class = reader.next_string();
    }
    proof {
        assert(reader.position() == position_pos);
    }
    let position: DecimalText = match reader.next_decimal() {
        Ok(v) => v,
        Err(e) => return Err(e),
    };
    let market_price: Double = reader.next_double();
    let market_value: Double = reader.next_double();
    let average_cost: Double = reader.next_double();
    let unrealized_pnl: Double = reader.next_double();
    let realized_pnl: Double = reader.next_double();
    let account_name: String = reader.next_string();
    let contract = Contract { con_id: contract_con_id, symbol: contract_symbol, sec_type: contract_sec_type, last_trade_date_or_contract_month: contract_last_trade_date_or_contract_month, last_trade_date: String::new(), strike: contract_strike, right: contract_right, multiplier: contract_multiplier, exchange: String::new(), primary_exchange: contract_primary_exchange, currency: contract_currency, local_symbol: contract_local_symbol, trading_class: contract_trading_class, include_expired: false, sec_id_type: String::new(), sec_id: String::new(), description: String::new(), issuer_id: String::new(), combo_legs_description: String::new(), combo_legs: Vec::new(), delta_neutral_contract: None };

    Ok(Event::PortfolioValue { contract: Box::new(contract), position, market_price, market_value, average_cost, unrealized_pnl, realized_pnl, account_name })
}

/// What decoding a market-depth message gives, field by field; `t` holds the texts of the fields.
/// Level-two messages carry a market maker and a smart-depth flag.
pub open spec fn market_depth_decoded(t: Seq<Seq<char>>, is_l2: bool, r: Result<Event, TwsApiError>) -> bool {
    let cond_1: bool = is_l2;
    let operation_pos: int = if cond_1 { 4int } else { 3int };
    let cond_3: bool = is_l2;
    let pos_4: int = if cond_3 { operation_pos + 5 } else { operation_pos + 4 };
    if i32_at(t, 1int) is Ok
        && i32_at(t, 2int) is Ok
        && i32_at(t, operation_pos) is Ok
        && i32_at(t, operation_pos + 1) is Ok
        && decimal_at(t, operation_pos + 3) is Some {
        r matches Ok(Event::MarketDepth { req_id, position, operation, side, price, size, market_maker, is_smart_depth })
            && req_id == i32_or_zero(t, 1int)
            && position == i32_or_zero(t, 2int)
            && operation == i32_or_zero(t, operation_pos)
            && side == i32_or_zero(t, operation_pos + 1)
            && price.text@ == text_at(t, operation_pos + 2)
            && size.text@ == decimal_or_zero(t, operation_pos + 3)
            && market_maker@ == (if cond_1 { text_at(t, 3int) } else { Seq::<char>::empty() })
            && is_smart_depth == (if cond_3 { bool_at(t, operation_pos + 4) } else { false })
    } else {
        r matches Err(e) && ((!(i32_at(t, 1int) is Ok) && (i32_at(t, 1int) matches Err(k) && int_error(e, t, 1int, k)))
            || (i32_at(t, 1int) is Ok && !(i32_at(t, 2int) is Ok) && (i32_at(t, 2int) matches Err(k) && int_error(e, t, 2int, k)))
            || (i32_at(t, 1int) is Ok && i32_at(t, 2int) is Ok && !(i32_at(t, operation_pos) is Ok) && (i32_at(t, operation_pos) matches Err(k) && int_error(e, t, operation_pos, k)))
            || (i32_at(t, 1int) is Ok && i32_at(t, 2int) is Ok && i32_at(t, operation_pos) is Ok && !(i32_at(t, operation_pos + 1) is Ok) && (i32_at(t, operation_pos + 1) matches Err(k) && int_error(e, t, operation_pos + 1, k)))
            || (i32_at(t, 1int) is Ok && i32_at(t, 2int) is Ok && i32_at(t, operation_pos) is Ok && i32_at(t, operation_pos + 1) is Ok && !(decimal_at(t, operation_pos + 3) is Some) && decimal_error(e, t, operation_pos + 3)))
    }
}

/// Decodes a market-depth message; level-two messages carry a market maker and a smart-depth flag.
pub fn decode_market_depth_fields(fields: &[String], is_l2: bool) -> (r: Result<Event, TwsApiError>)
    ensures
        market_depth_decoded(text_views(fields@), is_l2, r),
{
    let mut reader = FieldReader::new(fields);
    let ghost t = text_views(fields@);
    let ghost cond_1: bool = is_l2;
    let ghost operation_pos: int = if cond_1 { 4int } else { 3int };
    let ghost cond_3: bool = is_l2;
    let ghost pos_4: int = if cond_3 { operation_pos + 5 } else { operation_pos + 4 };

    let _ = reader.next_string();
    let req_id: i32 = match reader.next_i32() {
        Ok(v) => v,
        Err(e) => return Err(e),
    };
    let position: i32 = match reader.next_i32() {
        Ok(v) => v,
        Err(e) => return Err(e),
    };
    let mut market_maker: String = String::new();
    if is_l2 {
        market_maker = reader.next_string();
    } else {
        market_maker = String::new();
    }
    proof {
        assert(reader.position() == operation_pos);
    }
    let operation: i32 = match reader.next_i32() {
        Ok(v) => v,
        Err(e) => return Err(e),
    };
    let side: i32 = match reader.next_i32() {
        Ok(v) => v,
        Err(e) => return Err(e),
    };
    let price: Double = reader.next_double();
    let size: DecimalText = match reader.next_decimal() {
        Ok(v) => v,
        Err(e) => return Err(e),
    };
    let mut is_smart_depth: bool = false;
    if is_l2 {
        is_smart_depth = reader.next_bool();
    } else {
        is_smart_depth = false;
    }
    proof {
        assert(reader.position() == pos_4);
    }


    Ok(Event::MarketDepth { req_id, position, operation, side, price, size, market_maker, is_smart_depth })
}

/// What decoding an option-computation tick gives, field by field; `t` holds the texts of the fields.
/// A message of more than eleven fields carries a version in front.
pub open spec fn tick_option_computation_decoded(t: Seq<Seq<char>>, r: Result<Event, TwsApiError>) -> bool {
    let cond_1: bool = (t.len() > 11);
    let req_id_pos: int = if cond_1 { 1int } else { 0int };
    let cond_3: bool = (t.len() > 11) && t.len() == 10;
    let implied_vol_pos: int = if cond_3 { req_id_pos + 2 } else { req_id_pos + 2 + 1 };
    let cond_5: bool = (implied_vol_pos + 2) < t.len();
    let pv_dividend_pos: int = if cond_5 { implied_vol_pos + 3 } else { implied_vol_pos + 2 };
    let has_pv_dividend: bool = (pv_dividend_pos) < t.len();
    let gamma_pos: int = if has_pv_dividend { pv_dividend_pos + 1 } else { pv_dividend_pos };
    let has_gamma: bool = (gamma_pos) < t.len();
    let vega_pos: int = if has_gamma { gamma_pos + 1 } else { gamma_pos };
    let has_vega: bool = (vega_pos) < t.len();
    let theta_pos: int = if has_vega { vega_pos + 1 } else { vega_pos };
    let has_theta: bool = (theta_pos) < t.len();
    let und_price_pos: int = if has_theta { theta_pos + 1 } else { theta_pos };
    let has_und_price: bool = (und_price_pos) < t.len();
    let pos_16: int = if has_und_price { und_price_pos + 1 } else { und_price_pos };
    if i32_at(t, req_id_pos) is Ok
        && i32_at(t, req_id_pos + 1) is Ok {
        r matches Ok(Event::TickOptionComputation { req_id, tick_type, tick_attrib, implied_vol, delta, opt_price, pv_dividend, gamma, vega, theta, und_price })
            && req_id == i32_or_zero(t, req_id_pos)
            && tick_type == i32_or_zero(t, req_id_pos + 1)
            && tick_attrib == (if cond_3 { ((0) as int) } else { i32_or_zero(t, req_id_pos + 2) })
            && implied_vol.text@ == text_at(t, implied_vol_pos)
            && delta.text@ == text_at(t, implied_vol_pos + 1)
            && opt_price.text@ == (if cond_5 { text_at(t, implied_vol_pos + 2) } else { "0"@ })
            && pv_dividend.text@ == (if has_pv_dividend { text_at(t, pv_dividend_pos) } else { "0"@ })
            && gamma.text@ == (if has_gamma { text_at(t, gamma_pos) } else { "0"@ })
            && vega.text@ == (if has_vega { text_at(t, vega_pos) } else { "0"@ })
            && theta.text@ == (if has_theta { text_at(t, theta_pos) } else { "0"@ })
            && und_price.text@ == (if has_und_price { text_at(t, und_price_pos) } else { "0"@ })
    } else {
        r matches Err(e) && ((!(i32_at(t, req_id_pos) is Ok) && (i32_at(t, req_id_pos) matches Err(k) && int_error(e, t, req_id_pos, k)))
            || (i32_at(t, req_id_pos) is Ok && !(i32_at(t, req_id_pos + 1) is Ok) && (i32_at(t, req_id_pos + 1) matches Err(k) && int_error(e, t, req_id_pos + 1, k))))
    }
}

/// Decodes an option-computation tick; a message of more than eleven fields carries a version in front.
pub fn decode_tick_option_computation_fields(fields: &[String]) -> (r: Result<Event, TwsApiError>)
    ensures
        tick_option_computation_decoded(text_views(fields@), r),
{
    let mut reader = FieldReader::new(fields);
    let ghost t = text_views(fields@);
    let ghost cond_1: bool = (t.len() > 11);
    let ghost req_id_pos: int = if cond_1 { 1int } else { 0int };
    let ghost cond_3: bool = (t.len() > 11) && t.len() == 10;
    let ghost implied_vol_pos: int = if cond_3 { req_id_pos + 2 } else { req_id_pos + 2 + 1 };
    let ghost cond_5: bool = (implied_vol_pos + 2) < t.len();
    let ghost pv_dividend_pos: int = if cond_5 { implied_vol_pos + 3 } else { implied_vol_pos + 2 };
    let ghost has_pv_dividend: bool = (pv_dividend_pos) < t.len();
    let ghost gamma_pos: int = if has_pv_dividend { pv_dividend_pos + 1 } else { pv_dividend_pos };
    let ghost has_gamma: bool = (gamma_pos) < t.len();
    let ghost vega_pos: int = if has_gamma { gamma_pos + 1 } else { gamma_pos };
    let ghost has_vega: bool = (vega_pos) < t.len();
    let ghost theta_pos: int = if has_vega { vega_pos + 1 } else { vega_pos };
    let ghost has_theta: bool = (theta_pos) < t.len();
    let ghost und_price_pos: int = if has_theta { theta_pos + 1 } else { theta_pos };
    let ghost has_und_price: bool = (und_price_pos) < t.len();
    let ghost pos_16: int = if has_und_price { und_price_pos + 1 } else { und_price_pos };

    let has_version: bool = fields.len() > 11;
    if has_version {
        let _ = reader.next_string();
    }
    proof {
        assert(reader.position() == req_id_pos);
    }
    let req_id: i32 = match reader.next_i32() {
        Ok(v) => v,
        Err(e) => return Err(e),
    };
    let tick_type: i32 = match reader.next_i32() {
        Ok(v) => v,
        Err(e) => return Err(e),
    };
    let mut tick_attrib: i32 = 0;
    if has_version && fields.len() == 10 {
        tick_attrib = 0;
    } else {
        tick_attrib = reader.next_i32_or_default();
    }
    proof {
        assert(reader.position() == implied_vol_pos);
    }
    let implied_vol: Double = reader.next_double();
    let delta: Double = reader.next_double();
    let mut opt_price: Double = Double::zero();
    if reader.has_more() {
        opt_price = reader.next_double();
    } else {
        opt_price = Double::zero();
    }
    proof {
        assert(reader.position() == pv_dividend_pos);
    }
    let mut pv_dividend: Double = Double::zero();
    if reader.has_more() {
        pv_dividend = reader.next_double();
    } else {
        pv_dividend = Double::zero();
    }
    proof {
        assert(reader.position() == gamma_pos);
    }
    let mut gamma: Double = Double::zero();
    if reader.has_more() {
        gamma = reader.next_double();
    } else {
        gamma = Double::zero();
    }
    proof {
        assert(reader.position() == vega_pos);
    }
    let mut vega: Double = Double::zero();
    if reader.has_more() {
        vega = reader.next_double();
    } else {
        vega = Double::zero();
    }
    proof {
        assert(reader.position() == theta_pos);
    }
    let mut theta: Double = Double::zero();
    if reader.has_more() {
        theta = reader.next_double();
    } else {
        theta = Double::zero();
    }
    proof {
        assert(reader.position() == und_price_pos);
    }
    let mut und_price: Double = Double::zero();
    if reader.has_more() {
        und_price = reader.next_double();
    } else {
        und_price = Double::zero();
    }
    proof {
        assert(reader.position() == pos_16);
    }


    Ok(Event::TickOptionComputation { req_id, tick_type, tick_attrib, implied_vol, delta, opt_price, pv_dividend, gamma, vega, theta, und_price })
}

/// What decoding scanner data gives, field by field; `t` holds the texts of the fields.
pub open spec fn scanner_data_decoded(t: Seq<Seq<char>>, r: Result<Event, TwsApiError>) -> bool {
    let scanner_row_count: int = max_zero((i32_or_zero(t, 2int)));
    let scanner_rows_start: int = 3int;
    if i32_at(t, 1int) is Ok
        && i32_at(t, 2int) is Ok
        && scanner_row_list_ok(t, scanner_rows_start, scanner_row_count) {
        r matches Ok(Event::ScannerData { req_id, rows })
            && req_id == i32_or_zero(t, 1int)
            && scanner_row_list_out(t, scanner_rows_start, scanner_row_count, rows@)
    } else {
        r matches Err(e) && ((!(i32_at(t, 1int) is Ok) && (i32_at(t, 1int) matches Err(k) && int_error(e, t, 1int, k)))
            || (i32_at(t, 1int) is Ok && !(i32_at(t, 2int) is Ok) && (i32_at(t, 2int) matches Err(k) && int_error(e, t, 2int, k)))
            || (i32_at(t, 1int) is Ok && i32_at(t, 2int) is Ok && !scanner_row_list_ok(t, scanner_rows_start, scanner_row_count) && scanner_row_list_err(t, scanner_rows_start, scanner_row_count, e)))
    }
}

/// Decodes scanner data.
pub fn decode_scanner_data_fields(fields: &[String]) -> (r: Result<Event, TwsApiError>)
    ensures
        scanner_data_decoded(text_views(fields@), r),
{
    let mut reader = FieldReader::new(fields);
    let ghost t = text_views(fields@);
    let ghost scanner_row_count: int = max_zero((i32_or_zero(t, 2int)));
    let ghost scanner_rows_start: int = 3int;

    let _ = reader.next_string();
    let req_id: i32 = match reader.next_i32() {
        Ok(v) => v,
        Err(e) => return Err(e),
    };
    let row_count: i32 = match reader.next_i32() {
        Ok(v) => v,
        Err(e) => return Err(e),
    };
    proof {
        assert(reader.position() == 3int);
    }
    let rows = match read_scanner_row_list(&mut reader, row_count) {
        Ok(v) => v,
        Err(e) => return Err(e),
    };


    Ok(Event::ScannerData { req_id, rows })
}

/// What decoding soft-dollar tiers gives, field by field; `t` holds the texts of the fields.
pub open spec fn soft_dollar_tiers_decoded(t: Seq<Seq<char>>, r: Result<Event, TwsApiError>) -> bool {
    let tier_count: int = max_zero((i32_or_zero(t, 1int)));
    let tiers_start: int = 2int;
    if i32_at(t, 0int) is Ok
        && i32_at(t, 1int) is Ok {
        r matches Ok(Event::SoftDollarTiers { req_id, tiers })
            && req_id == i32_or_zero(t, 0int)
            && tier_list_out(t, tiers_start, tier_count, tiers@)
    } else {
        r matches Err(e) && ((!(i32_at(t, 0int) is Ok) && (i32_at(t, 0int) matches Err(k) && int_error(e, t, 0int, k)))
            || (i32_at(t, 0int) is Ok && !(i32_at(t, 1int) is Ok) && (i32_at(t, 1int) matches Err(k) && int_error(e, t, 1int, k))))
    }
}

/// Decodes soft-dollar tiers.
pub fn decode_soft_dollar_tiers_fields(fields: &[String]) -> (r: Result<Event, TwsApiError>)
    ensures
        soft_dollar_tiers_decoded(text_views(fields@), r),
{
    let mut reader = FieldReader::new(fields);
    let ghost t = text_views(fields@);
    let ghost tier_count: int = max_zero((i32_or_zero(t, 1int)));
    let ghost tiers_start: int = 2int;

    let req_id: i32 = match reader.next_i32() {
        Ok(v) => v,
        Err(e) => return Err(e),
    };
    let count: i32 = match reader.next_i32() {
        Ok(v) => v,
        Err(e) => return Err(e),
    };
    proof {
        assert(reader.position() == 2int);
    }
    let tiers = read_tier_list(&mut reader, count);


    Ok(Event::SoftDollarTiers { req_id, tiers })
}

/// What decoding family codes gives, field by field; `t` holds the texts of the fields.
pub open spec fn family_codes_decoded(t: Seq<Seq<char>>, r: Result<Event, TwsApiError>) -> bool {
    let text_pair_count: int = max_zero((i32_or_zero(t, 0int)));
    let text_pairs_start: int = 1int;
    if i32_at(t, 0int) is Ok {
        r matches Ok(Event::FamilyCodes { family_codes })
            && text_pair_list_out(t, text_pairs_start, text_pair_count, family_codes@)
    } else {
        r matches Err(e) && ((!(i32_at(t, 0int) is Ok) && (i32_at(t, 0int) matches Err(k) && int_error(e, t, 0int, k))))
    }
}

/// Decodes family codes.
pub fn decode_family_codes_fields(fields: &[String]) -> (r: Result<Event, TwsApiError>)
    ensures
        family_codes_decoded(text_views(fields@), r),
{
    let mut reader = FieldReader::new(fields);
    let ghost t = text_views(fields@);
    let ghost text_pair_count: int = max_zero((i32_or_zero(t, 0int)));
    let ghost text_pairs_start: int = 1int;

    let count: i32 = match reader.next_i32() {
        Ok(v) => v,
        Err(e) => return Err(e),
    };
    proof {
        assert(reader.position() == 1int);
    }
    let family_codes = read_text_pair_list(&mut reader, count);


    Ok(Event::FamilyCodes { family_codes })
}

/// What decoding smart components gives, field by field; `t` holds the texts of the fields.
pub open spec fn smart_components_decoded(t: Seq<Seq<char>>, r: Result<Event, TwsApiError>) -> bool {
    let smart_component_count: int = max_zero((i32_or_zero(t, 1int)));
    let smart_components_start: int = 2int;
    if i32_at(t, 0int) is Ok
        && i32_at(t, 1int) is Ok
        && smart_component_list_ok(t, smart_components_start, smart_component_count) {
        r matches Ok(Event::SmartComponents { req_id, components })
            && req_id == i32_or_zero(t, 0int)
            && smart_component_list_out(t, smart_components_start, smart_component_count, components@)
    } else {
        r matches Err(e) && ((!(i32_at(t, 0int) is Ok) && (i32_at(t, 0int) matches Err(k) && int_error(e, t, 0int, k)))
            || (i32_at(t, 0int) is Ok && !(i32_at(t, 1int) is Ok) && (i32_at(t, 1int) matches Err(k) && int_error(e, t, 1int, k)))
            || (i32_at(t, 0int) is Ok && i32_at(t, 1int) is Ok && !smart_component_list_ok(t, smart_components_start, smart_component_count) && smart_component_list_err(t, smart_components_start, smart_component_count, e)))
    }
}

/// Decodes smart components.
pub fn decode_smart_components_fields(fields: &[String]) -> (r: Result<Event, TwsApiError>)
    ensures
        smart_components_decoded(text_views(fields@), r),
{
    let mut reader = FieldReader::new(fields);
    let ghost t = text_views(fields@);
    let ghost smart_component_count: int = max_zero((i32_or_zero(t, 1int)));
    let ghost smart_components_start: int = 2int;

    let req_id: i32 = match reader.next_i32() {
        Ok(v) => v,
        Err(e) => return Err(e),
    };
    let count: i32 = match reader.next_i32() {
        Ok(v) => v,
        Err(e) => return Err(e),
    };
    proof {
        assert(reader.position() == 2int);
    }
    let components = match read_smart_component_list(&mut reader, count) {
        Ok(v) => v,
        Err(e) => return Err(e),
    };


    Ok(Event::SmartComponents { req_id, components })
}

/// What decoding market-depth exchanges, each as `exchange:sec_type:listing:service_data_type:aggregate_group` gives, field by field; `t` holds the texts of the fields.
pub open spec fn market_depth_exchanges_decoded(t: Seq<Seq<char>>, r: Result<Event, TwsApiError>) -> bool {
    let depth_exchange_count: int = max_zero((i32_or_zero(t, 0int)));
    let depth_exchanges_start: int = 1int;
    if i32_at(t, 0int) is Ok {
        r matches Ok(Event::MarketDepthExchanges { descriptions })
            && depth_exchange_list_out(t, depth_exchanges_start, depth_exchange_count, descriptions@)
    } else {
        r matches Err(e) && ((!(i32_at(t, 0int) is Ok) && (i32_at(t, 0int) matches Err(k) && int_error(e, t, 0int, k))))
    }
}

/// Decodes market-depth exchanges, each as `exchange:sec_type:listing:service_data_type:aggregate_group`.
pub fn decode_market_depth_exchanges_fields(fields: &[String]) -> (r: Result<Event, TwsApiError>)
    ensures
        market_depth_exchanges_decoded(text_views(fields@), r),
{
    let mut reader = FieldReader::new(fields);
    let ghost t = text_views(fields@);
    let ghost depth_exchange_count: int = max_zero((i32_or_zero(t, 0int)));
    let ghost depth_exchanges_start: int = 1int;

    let count: i32 = match reader.next_i32() {
        Ok(v) => v,
        Err(e) => return Err(e),
    };
    proof {
        assert(reader.position() == 1int);
    }
    let descriptions = read_depth_exchange_list(&mut reader, count);


    Ok(Event::MarketDepthExchanges { descriptions })
}

/// What decoding histogram data gives, field by field; `t` holds the texts of the fields.
pub open spec fn histogram_data_decoded(t: Seq<Seq<char>>, r: Result<Event, TwsApiError>) -> bool {
    let histogram_item_count: int = max_zero((i32_or_zero(t, 1int)));
    let histogram_items_start: int = 2int;
    if i32_at(t, 0int) is Ok
        && i32_at(t, 1int) is Ok
        && histogram_item_list_ok(t, histogram_items_start, histogram_item_count) {
        r matches Ok(Event::HistogramData { req_id, items })
            && req_id == i32_or_zero(t, 0int)
            && histogram_item_list_out(t, histogram_items_start, histogram_item_count, items@)
    } else {
        r matches Err(e) && ((!(i32_at(t, 0int) is Ok) && (i32_at(t, 0int) matches Err(k) && int_error(e, t, 0int, k)))
            || (i32_at(t, 0int) is Ok && !(i32_at(t, 1int) is Ok) && (i32_at(t, 1int) matches Err(k) && int_error(e, t, 1int, k)))
            || (i32_at(t, 0int) is Ok && i32_at(t, 1int) is Ok && !histogram_item_list_ok(t, histogram_items_start, histogram_item_count) && histogram_item_list_err(t, histogram_items_start, histogram_item_count, e)))
    }
}

/// Decodes histogram data.
pub fn decode_histogram_data_fields(fields: &[String]) -> (r: Result<Event, TwsApiError>)
    ensures
        histogram_data_decoded(text_views(fields@), r),
{
    let mut reader = FieldReader::new(fields);
    let ghost t = text_views(fields@);
    let ghost histogram_item_count: int = max_zero((i32_or_zero(t, 1int)));
    let ghost histogram_items_start: int = 2int;

    let req_id: i32 = match reader.next_i32() {
        Ok(v) => v,
        Err(e) => return Err(e),
    };
    let count: i32 = match reader.next_i32() {
        Ok(v) => v,
        Err(e) => return Err(e),
    };
    proof {
        assert(reader.position() == 2int);
    }
    let items = match read_histogram_item_list(&mut reader, count) {
        Ok(v) => v,
        Err(e) => return Err(e),
    };


    Ok(Event::HistogramData { req_id, items })
}

/// What decoding a market rule gives, field by field; `t` holds the texts of the fields.
pub open spec fn market_rule_decoded(t: Seq<Seq<char>>, r: Result<Event, TwsApiError>) -> bool {
    let price_increment_count: int = max_zero((i32_or_zero(t, 1int)));
    let price_increments_start: int = 2int;
    if i32_at(t, 0int) is Ok
        && i32_at(t, 1int) is Ok {
        r matches Ok(Event::MarketRule { market_rule_id, price_increments })
            && market_rule_id == i32_or_zero(t, 0int)
            && price_increment_list_out(t, price_increments_start, price_increment_count, price_increments@)
    } else {
        r matches Err(e) && ((!(i32_at(t, 0int) is Ok) && (i32_at(t, 0int) matches Err(k) && int_error(e, t, 0int, k)))
            || (i32_at(t, 0int) is Ok && !(i32_at(t, 1int) is Ok) && (i32_at(t, 1int) matches Err(k) && int_error(e, t, 1int, k))))
    }
}

/// Decodes a market rule.
pub fn decode_market_rule_fields(fields: &[String]) -> (r: Result<Event, TwsApiError>)
    ensures
        market_rule_decoded(text_views(fields@), r),
{
    let mut reader = FieldReader::new(fields);
    let ghost t = text_views(fields@);
    let ghost price_increment_count: int = max_zero((i32_or_zero(t, 1int)));
    let ghost price_increments_start: int = 2int;

    let market_rule_id: i32 = match reader.next_i32() {
        Ok(v) => v,
        Err(e) => return Err(e),
    };
    let count: i32 = match reader.next_i32() {
        Ok(v) => v,
        Err(e) => return Err(e),
    };
    proof {
        assert(reader.position() == 2int);
    }
    let price_increments = read_price_increment_list(&mut reader, count);


    Ok(Event::MarketRule { market_rule_id, price_increments })
}

/// What decoding account PnL gives, field by field; `t` holds the texts of the fields.
pub open spec fn pnl_decoded(t: Seq<Seq<char>>, r: Result<Event, TwsApiError>) -> bool {
    let cond_1: bool = (2int) < t.len();
    let realized_pnl_pos: int = if cond_1 { 3int } else { 2int };
    let has_realized_pnl: bool = (realized_pnl_pos) < t.len();
    let pos_4: int = if has_realized_pnl { realized_pnl_pos + 1 } else { realized_pnl_pos };
    if i32_at(t, 0int) is Ok {
        r matches Ok(Event::Pnl { req_id, daily_pnl, unrealized_pnl, realized_pnl })
            && req_id == i32_or_zero(t, 0int)
            && daily_pnl.text@ == text_at(t, 1int)
            && unrealized_pnl.text@ == (if cond_1 { text_at(t, 2int) } else { "0"@ })
            && realized_pnl.text@ == (if has_realized_pnl { text_at(t, realized_pnl_pos) } else { "0"@ })
    } else {
        r matches Err(e) && ((!(i32_at(t, 0int) is Ok) && (i32_at(t, 0int) matches Err(k) && int_error(e, t, 0int, k))))
    }
}

/// Decodes account PnL.
pub fn decode_pnl_fields(fields: &[String]) -> (r: Result<Event, TwsApiError>)
    ensures
        pnl_decoded(text_views(fields@), r),
{
    let mut reader = FieldReader::new(fields);
    let ghost t = text_views(fields@);
    let ghost cond_1: bool = (2int) < t.len();
    let ghost realized_pnl_pos: int = if cond_1 { 3int } else { 2int };
    let ghost has_realized_pnl: bool = (realized_pnl_pos) < t.len();
    let ghost pos_4: int = if has_realized_pnl { realized_pnl_pos + 1 } else { realized_pnl_pos };

    let req_id: i32 = match reader.next_i32() {
        Ok(v) => v,
        Err(e) => return Err(e),
    };
    let daily_pnl: Double = reader.next_double();
    let mut unrealized_pnl: Double = Double::zero();
    if reader.has_more() {
        unrealized_pnl = reader.next_double();
    } else {
        unrealized_pnl = Double::zero();
    }
    proof {
        assert(reader.position() == realized_pnl_pos);
    }
    let mut realized_pnl: Double = Double::zero();
    if reader.has_more() {
        realized_pnl = reader.next_double();
    } else {
        realized_pnl = Double::zero();
    }
    proof {
        assert(reader.position() == pos_4);
    }


    Ok(Event::Pnl { req_id, daily_pnl, unrealized_pnl, realized_pnl })
}

/// What decoding single-position PnL gives, field by field; `t` holds the texts of the fields.
pub open spec fn pnl_single_decoded(t: Seq<Seq<char>>, r: Result<Event, TwsApiError>) -> bool {
    let cond_1: bool = (t.len() - (3int) >= 3);
    let realized_pnl_pos: int = if cond_1 { 4int } else { 3int };
    let has_realized_pnl: bool = (t.len() - (3int) >= 3);
    let value_pos: int = if has_realized_pnl { realized_pnl_pos + 1 } else { realized_pnl_pos };
    let has_value: bool = (value_pos) < t.len();
    let pos_6: int = if has_value { value_pos + 1 } else { value_pos };
    if i32_at(t, 0int) is Ok
        && decimal_at(t, 1int) is Some {
        r matches Ok(Event::PnlSingle { req_id, position, daily_pnl, unrealized_pnl, realized_pnl, value })
            && req_id == i32_or_zero(t, 0int)
            && position.text@ == decimal_or_zero(t, 1int)
            && daily_pnl.text@ == text_at(t, 2int)
            && unrealized_pnl.text@ == (if cond_1 { text_at(t, 3int) } else { "0"@ })
            && realized_pnl.text@ == (if has_realized_pnl { text_at(t, realized_pnl_pos) } else { "0"@ })
            && value.text@ == (if has_value { text_at(t, value_pos) } else { "0"@ })
    } else {
        r matches Err(e) && ((!(i32_at(t, 0int) is Ok) && (i32_at(t, 0int) matches Err(k) && int_error(e, t, 0int, k)))
            || (i32_at(t, 0int) is Ok && !(decimal_at(t, 1int) is Some) && decimal_error(e, t, 1int)))
    }
}

/// Decodes single-position PnL.
pub fn decode_pnl_single_fields(fields: &[String]) -> (r: Result<Event, TwsApiError>)
    ensures
        pnl_single_decoded(text_views(fields@), r),
{
    let mut reader = FieldReader::new(fields);
    let ghost t = text_views(fields@);
    let ghost cond_1: bool = (t.len() - (3int) >= 3);
    let ghost realized_pnl_pos: int = if cond_1 { 4int } else { 3int };
    let ghost has_realized_pnl: bool = (t.len() - (3int) >= 3);
    let ghost value_pos: int = if has_realized_pnl { realized_pnl_pos + 1 } else { realized_pnl_pos };
    let ghost has_value: bool = (value_pos) < t.len();
    let ghost pos_6: int = if has_value { value_pos + 1 } else { value_pos };

    let req_id: i32 = match reader.next_i32() {
        Ok(v) => v,
        Err(e) => return Err(e),
    };
    let position: DecimalText = match reader.next_decimal() {
        Ok(v) => v,
        Err(e) => return Err(e),
    };
    let daily_pnl: Double = reader.next_double();
    let enough: bool = reader.remaining() >= 3;
    let mut unrealized_pnl: Double = Double::zero();
    if enough {
        unrealized_pnl = reader.next_double();
    } else {
        unrealized_pnl = Double::zero();
    }
    proof {
        assert(reader.position() == realized_pnl_pos);
    }
    let mut realized_pnl: Double = Double::zero();
    if enough {
        realized_pnl = reader.next_double();
    } else {
        realized_pnl = Double::zero();
    }
    proof {
        assert(reader.position() == value_pos);
    }
    let mut value: Double = Double::zero();
    if reader.has_more() {
        value = reader.next_double();
    } else {
        value = Double::zero();
    }
    proof {
        assert(reader.position() == pos_6);
    }


    Ok(Event::PnlSingle { req_id, position, daily_pnl, unrealized_pnl, realized_pnl, value })
}

/// What decoding news providers gives, field by field; `t` holds the texts of the fields.
pub open spec fn news_providers_decoded(t: Seq<Seq<char>>, r: Result<Event, TwsApiError>) -> bool {
    let text_pair_count: int = max_zero((i32_or_zero(t, 0int)));
    let text_pairs_start: int = 1int;
    if i32_at(t, 0int) is Ok {
        r matches Ok(Event::NewsProviders { providers })
            && text_pair_list_out(t, text_pairs_start, text_pair_count, providers@)
    } else {
        r matches Err(e) && ((!(i32_at(t, 0int) is Ok) && (i32_at(t, 0int) matches Err(k) && int_error(e, t, 0int, k))))
    }
}

/// Decodes news providers.
pub fn decode_news_providers_fields(fields: &[String]) -> (r: Result<Event, TwsApiError>)
    ensures
        news_providers_decoded(text_views(fields@), r),
{
    let mut reader = FieldReader::new(fields);
    let ghost t = text_views(fields@);
    let ghost text_pair_count: int = max_zero((i32_or_zero(t, 0int)));
    let ghost text_pairs_start: int = 1int;

    let count: i32 = match reader.next_i32() {
        Ok(v) => v,
        Err(e) => return Err(e),
    };
    proof {
        assert(reader.position() == 1int);
    }
    let providers = read_text_pair_list(&mut reader, count);


    Ok(Event::NewsProviders { providers })
}

/// What decoding a historical schedule gives, field by field; `t` holds the texts of the fields.
pub open spec fn historical_schedule_decoded(t: Seq<Seq<char>>, r: Result<Event, TwsApiError>) -> bool {
    let session_count: int = max_zero((i32_or_zero(t, 4int)));
    let sessions_start: int = 5int;
    if i32_at(t, 0int) is Ok
        && i32_at(t, 4int) is Ok {
        r matches Ok(Event::HistoricalSchedule { req_id, start_date_time, end_date_time, time_zone, sessions })
            && req_id == i32_or_zero(t, 0int)
            && start_date_time@ == text_at(t, 1int)
            && end_date_time@ == text_at(t, 2int)
            && time_zone@ == text_at(t, 3int)
            && session_list_out(t, sessions_start, session_count, sessions@)
    } else {
        r matches Err(e) && ((!(i32_at(t, 0int) is Ok) && (i32_at(t, 0int) matches Err(k) && int_error(e, t, 0int, k)))
            || (i32_at(t, 0int) is Ok && !(i32_at(t, 4int) is Ok) && (i32_at(t, 4int) matches Err(k) && int_error(e, t, 4int, k))))
    }
}

/// Decodes a historical schedule.
pub fn decode_historical_schedule_fields(fields: &[String]) -> (r: Result<Event, TwsApiError>)
    ensures
        historical_schedule_decoded(text_views(fields@), r),
{
    let mut reader = FieldReader::new(fields);
    let ghost t = text_views(fields@);
    let ghost session_count: int = max_zero((i32_or_zero(t, 4int)));
    let ghost sessions_start: int = 5int;

    let req_id: i32 = match reader.next_i32() {
        Ok(v) => v,
        Err(e) => return Err(e),
    };
    let start_date_time: String = reader.next_string();
    let end_date_time: String = reader.next_string();
    let time_zone: String = reader.next_string();
    let count: i32 = match reader.next_i32() {
        Ok(v) => v,
        Err(e) => return Err(e),
    };
    proof {
        assert(reader.position() == 5int);
    }
    let sessions = read_session_list(&mut reader, count);


    Ok(Event::HistoricalSchedule { req_id, start_date_time, end_date_time, time_zone, sessions })
}

/// What decoding execution details gives, field by field; `t` holds the texts of the fields.
/// A version field in front when the fourth field is an integer.
pub open spec fn execution_data_decoded(t: Seq<Seq<char>>, r: Result<Event, TwsApiError>) -> bool {
    let cond_1: bool = ((i32_at(t, 0int + 3) is Ok));
    let req_id_pos: int = if cond_1 { 1int } else { 0int };
    let has_req_id: bool = ((if cond_1 { i32_or_zero(t, 0int) } else { ((i32::MAX) as int) })) >= 7;
    let pos_4: int = if has_req_id { req_id_pos + 1 } else { req_id_pos };
    let cond_5: bool = ((if cond_1 { i32_or_zero(t, 0int) } else { ((i32::MAX) as int) })) >= 9;
    let exchange_pos: int = if cond_5 { pos_4 + 8 } else { pos_4 + 7 };
    let cond_7: bool = ((if cond_1 { i32_or_zero(t, 0int) } else { ((i32::MAX) as int) })) >= 10;
    let exec_id_pos: int = if cond_7 { exchange_pos + 4 } else { exchange_pos + 3 };
    let cond_9: bool = ((if cond_1 { i32_or_zero(t, 0int) } else { ((i32::MAX) as int) })) >= 6;
    let order_ref_pos: int = if cond_9 { exec_id_pos + 12 } else { exec_id_pos + 10 };
    let has_order_ref: bool = ((if cond_1 { i32_or_zero(t, 0int) } else { ((i32::MAX) as int) })) >= 8;
    let ev_rule_pos: int = if has_order_ref { order_ref_pos + 1 } else { order_ref_pos };
    let has_ev_rule: bool = ((if cond_1 { i32_or_zero(t, 0int) } else { ((i32::MAX) as int) })) >= 9;
    let model_code_pos: int = if has_ev_rule { ev_rule_pos + 2 } else { ev_rule_pos };
    let has_model_code: bool = (model_code_pos) < t.len();
    let last_liquidity_pos: int = if has_model_code { model_code_pos + 1 } else { model_code_pos };
    let has_last_liquidity: bool = (last_liquidity_pos) < t.len();
    let pending_price_revision_pos: int = if has_last_liquidity { last_liquidity_pos + 1 } else { last_liquidity_pos };
    let has_pending_price_revision: bool = (pending_price_revision_pos) < t.len();
    let submitter_pos: int = if has_pending_price_revision { pending_price_revision_pos + 1 } else { pending_price_revision_pos };
    let has_submitter: bool = (submitter_pos) < t.len();
    let pos_22: int = if has_submitter { submitter_pos + 1 } else { submitter_pos };
    if (cond_1 ==> i32_at(t, 0int) is Ok)
        && (has_req_id ==> i32_at(t, req_id_pos) is Ok)
        && i32_at(t, pos_4) is Ok
        && i32_at(t, pos_4 + 1) is Ok
        && decimal_at(t, exec_id_pos + 5) is Some
        && i32_at(t, exec_id_pos + 7) is Ok
        && i32_at(t, exec_id_pos + 8) is Ok
        && i32_at(t, exec_id_pos + 9) is Ok
        && (cond_9 ==> decimal_at(t, exec_id_pos + 10) is Some)
        && (has_last_liquidity ==> i32_at(t, last_liquidity_pos) is Ok) {
        r matches Ok(Event::ExecutionDetails { req_id, contract, execution })
            && req_id == (if has_req_id { i32_or_zero(t, req_id_pos) } else { ((-1) as int) })
            && (*contract).con_id == i32_or_zero(t, pos_4 + 1)
            && (*contract).symbol@ == text_at(t, pos_4 + 2)
            && (*contract).sec_type@ == text_at(t, pos_4 + 3)
            && (*contract).last_trade_date_or_contract_month@ == text_at(t, pos_4 + 4)
            && (*contract).last_trade_date@ == Seq::<char>::empty()
            && (*contract).strike.text@ == text_at(t, pos_4 + 5)
            && (*contract).right@ == text_at(t, pos_4 + 6)
            && (*contract).multiplier@ == (if cond_5 { text_at(t, pos_4 + 7) } else { Seq::<char>::empty() })
            && (*contract).exchange@ == text_at(t, exchange_pos)
            && (*contract).primary_exchange@ == Seq::<char>::empty()
            && (*contract).currency@ == text_at(t, exchange_pos + 1)
            && (*contract).local_symbol@ == text_at(t, exchange_pos + 2)
            && (*contract).trading_class@ == (if cond_7 { text_at(t, exchange_pos + 3) } else { Seq::<char>::empty() })
            && (*contract).include_expired == false
            && (*contract).sec_id_type@ == Seq::<char>::empty()
            && (*contract).sec_id@ == Seq::<char>::empty()
            && (*contract).description@ == Seq::<char>::empty()
            && (*contract).issuer_id@ == Seq::<char>::empty()
            && (*contract).combo_legs_description@ == Seq::<char>::empty()
            && (*contract).combo_legs@.len() == 0
            && (*contract).delta_neutral_contract is None
            && execution.order_id == (((i32_or_zero(t, pos_4))) as int)
            && execution.exec_id@ == text_at(t, exec_id_pos)
            && execution.time@ == text_at(t, exec_id_pos + 1)
            && execution.acct_number@ == text_at(t, exec_id_pos + 2)
            && execution.exchange@ == text_at(t, exec_id_pos + 3)
            && execution.side@ == text_at(t, exec_id_pos + 4)
            && execution.shares.text@ == decimal_or_zero(t, exec_id_pos + 5)
            && execution.price.text@ == text_at(t, exec_id_pos + 6)
            && execution.perm_id == i32_or_zero(t, exec_id_pos + 7)
            && execution.client_id == i32_or_zero(t, exec_id_pos + 8)
            && execution.liquidation == i32_or_zero(t, exec_id_pos + 9)
            && execution.cum_qty.text@ == (if cond_9 { decimal_or_zero(t, exec_id_pos + 10) } else { "0"@ })
            && execution.avg_price.text@ == (if cond_9 { text_at(t, exec_id_pos + 11) } else { "0"@ })
            && execution.order_ref@ == (if has_order_ref { text_at(t, order_ref_pos) } else { Seq::<char>::empty() })
            && execution.ev_rule@ == (if has_ev_rule { text_at(t, ev_rule_pos) } else { Seq::<char>::empty() })
            && execution.ev_multiplier.text@ == (if has_ev_rule { text_at(t, ev_rule_pos + 1) } else { "0"@ })
            && execution.model_code@ == (if has_model_code { text_at(t, model_code_pos) } else { Seq::<char>::empty() })
            && execution.last_liquidity == (if has_last_liquidity { i32_or_zero(t, last_liquidity_pos) } else { 0 })
            && execution.pending_price_revision == (if has_pending_price_revision { bool_at(t, pending_price_revision_pos) } else { false })
            && execution.submitter@ == (if has_submitter { text_at(t, submitter_pos) } else { Seq::<char>::empty() })
            && execution.opt_exercise_or_lapse_type == 0
    } else {
        r matches Err(e) && ((cond_1 && !(i32_at(t, 0int) is Ok) && (i32_at(t, 0int) matches Err(k) && int_error(e, t, 0int, k)))
            || (has_req_id && (cond_1 ==> i32_at(t, 0int) is Ok) && !(i32_at(t, req_id_pos) is Ok) && (i32_at(t, req_id_pos) matches Err(k) && int_error(e, t, req_id_pos, k)))
            || ((cond_1 ==> i32_at(t, 0int) is Ok) && (has_req_id ==> i32_at(t, req_id_pos) is Ok) && !(i32_at(t, pos_4) is Ok) && (i32_at(t, pos_4) matches Err(k) && int_error(e, t, pos_4, k)))
            || ((cond_1 ==> i32_at(t, 0int) is Ok) && (has_req_id ==> i32_at(t, req_id_pos) is Ok) && i32_at(t, pos_4) is Ok && !(i32_at(t, pos_4 + 1) is Ok) && (i32_at(t, pos_4 + 1) matches Err(k) && int_error(e, t, pos_4 + 1, k)))
            || ((cond_1 ==> i32_at(t, 0int) is Ok) && (has_req_id ==> i32_at(t, req_id_pos) is Ok) && i32_at(t, pos_4) is Ok && i32_at(t, pos_4 + 1) is Ok && !(decimal_at(t, exec_id_pos + 5) is Some) && decimal_error(e, t, exec_id_pos + 5))
            || ((cond_1 ==> i32_at(t, 0int) is Ok) && (has_req_id ==> i32_at(t, req_id_pos) is Ok) && i32_at(t, pos_4) is Ok && i32_at(t, pos_4 + 1) is Ok && decimal_at(t, exec_id_pos + 5) is Some && !(i32_at(t, exec_id_pos + 7) is Ok) && (i32_at(t, exec_id_pos + 7) matches Err(k) && int_error(e, t, exec_id_pos + 7, k)))
            || ((cond_1 ==> i32_at(t, 0int) is Ok) && (has_req_id ==> i32_at(t, req_id_pos) is Ok) && i32_at(t, pos_4) is Ok && i32_at(t, pos_4 + 1) is Ok && decimal_at(t, exec_id_pos + 5) is Some && i32_at(t, exec_id_pos + 7) is Ok && !(i32_at(t, exec_id_pos + 8) is Ok) && (i32_at(t, exec_id_pos + 8) matches Err(k) && int_error(e, t, exec_id_pos + 8, k)))
            || ((cond_1 ==> i32_at(t, 0int) is Ok) && (has_req_id ==> i32_at(t, req_id_pos) is Ok) && i32_at(t, pos_4) is Ok && i32_at(t, pos_4 + 1) is Ok && decimal_at(t, exec_id_pos + 5) is Some && i32_at(t, exec_id_pos + 7) is Ok && i32_at(t, exec_id_pos + 8) is Ok && !(i32_at(t, exec_id_pos + 9) is Ok) && (i32_at(t, exec_id_pos + 9) matches Err(k) && int_error(e, t, exec_id_pos + 9, k)))
            || (cond_9 && (cond_1 ==> i32_at(t, 0int) is Ok) && (has_req_id ==> i32_at(t, req_id_pos) is Ok) && i32_at(t, pos_4) is Ok && i32_at(t, pos_4 + 1) is Ok && decimal_at(t, exec_id_pos + 5) is Some && i32_at(t, exec_id_pos + 7) is Ok && i32_at(t, exec_id_pos + 8) is Ok && i32_at(t, exec_id_pos + 9) is Ok && !(decimal_at(t, exec_id_pos + 10) is Some) && decimal_error(e, t, exec_id_pos + 10))
            || (has_last_liquidity && (cond_1 ==> i32_at(t, 0int) is Ok) && (has_req_id ==> i32_at(t, req_id_pos) is Ok) && i32_at(t, pos_4) is Ok && i32_at(t, pos_4 + 1) is Ok && decimal_at(t, exec_id_pos + 5) is Some && i32_at(t, exec_id_pos + 7) is Ok && i32_at(t, exec_id_pos + 8) is Ok && i32_at(t, exec_id_pos + 9) is Ok && (cond_9 ==> decimal_at(t, exec_id_pos + 10) is Some) && !(i32_at(t, last_liquidity_pos) is Ok) && (i32_at(t, last_liquidity_pos) matches Err(k) && int_error(e, t, last_liquidity_pos, k))))
    }
}

/// Decodes execution details; a version field in front when the fourth field is an integer.
#[verifier::spinoff_prover]
#[verifier::rlimit(60)]
pub fn decode_execution_data_fields(fields: &[String]) -> (r: Result<Event, TwsApiError>)
    ensures
        execution_data_decoded(text_views(fields@), r),
{
    let mut reader = FieldReader::new(fields);
    let ghost t = text_views(fields@);
    let ghost cond_1: bool = ((i32_at(t, 0int + 3) is Ok));
    let ghost req_id_pos: int = if cond_1 { 1int } else { 0int };
    let ghost has_req_id: bool = ((if cond_1 { i32_or_zero(t, 0int) } else { ((i32::MAX) as int) })) >= 7;
    let ghost pos_4: int = if has_req_id { req_id_pos + 1 } else { req_id_pos };
    let ghost cond_5: bool = ((if cond_1 { i32_or_zero(t, 0int) } else { ((i32::MAX) as int) })) >= 9;
    let ghost exchange_pos: int = if cond_5 { pos_4 + 8 } else { pos_4 + 7 };
    let ghost cond_7: bool = ((if cond_1 { i32_or_zero(t, 0int) } else { ((i32::MAX) as int) })) >= 10;
    let ghost exec_id_pos: int = if cond_7 { exchange_pos + 4 } else { exchange_pos + 3 };
    let ghost cond_9: bool = ((if cond_1 { i32_or_zero(t, 0int) } else { ((i32::MAX) as int) })) >= 6;
    let ghost order_ref_pos: int = if cond_9 { exec_id_pos + 12 } else { exec_id_pos + 10 };
    let ghost has_order_ref: bool = ((if cond_1 { i32_or_zero(t, 0int) } else { ((i32::MAX) as int) })) >= 8;
    let ghost ev_rule_pos: int = if has_order_ref { order_ref_pos + 1 } else { order_ref_pos };
    let ghost has_ev_rule: bool = ((if cond_1 { i32_or_zero(t, 0int) } else { ((i32::MAX) as int) })) >= 9;
    let ghost model_code_pos: int = if has_ev_rule { ev_rule_pos + 2 } else { ev_rule_pos };
    let ghost has_model_code: bool = (model_code_pos) < t.len();
    let ghost last_liquidity_pos: int = if has_model_code { model_code_pos + 1 } else { model_code_pos };
    let ghost has_last_liquidity: bool = (last_liquidity_pos) < t.len();
    let ghost pending_price_revision_pos: int = if has_last_liquidity { last_liquidity_pos + 1 } else { last_liquidity_pos };
    let ghost has_pending_price_revision: bool = (pending_price_revision_pos) < t.len();
    let ghost submitter_pos: int = if has_pending_price_revision { pending_price_revision_pos + 1 } else { pending_price_revision_pos };
    let ghost has_submitter: bool = (submitter_pos) < t.len();
    let ghost pos_22: int = if has_submitter { submitter_pos + 1 } else { submitter_pos };
    let mut contract_con_id: i32 = 0;
    let mut contract_symbol: String = String::new();
    let mut contract_sec_type: String = String::new();
    let mut contract_last_trade_date_or_contract_month: String = String::new();
    let mut contract_strike: Double = Double::unset();
    let mut contract_right: String = String::new();
    let mut contract_multiplier: String = String::new();
    let mut contract_exchange: String = String::new();
    let mut contract_currency: String = String::new();
    let mut contract_local_symbol: String = String::new();
    let mut contract_trading_class: String = String::new();
    let mut execution_order_id: i32 = 0;
    let mut execution_exec_id: String = String::new();
    let mut execution_time: String = String::new();
    let mut execution_acct_number: String = String::new();
    let mut execution_exchange: String = String::new();
    let mut execution_side: String = String::new();
    let mut execution_shares: DecimalText = DecimalText::zero();
    let mut execution_price: Double = Double::zero();
    let mut execution_perm_id: i64 = 0i64;
    let mut execution_client_id: i32 = 0;
    let mut execution_liquidation: i32 = 0;
    let mut execution_cum_qty: DecimalText = DecimalText::zero();
    let mut execution_avg_price: Double = Double::zero();
    let mut execution_order_ref: String = String::new();
    let mut execution_ev_rule: String = String::new();
    let mut execution_ev_multiplier: Double = Double::zero();
    let mut execution_model_code: String = String::new();
    let mut execution_last_liquidity: i32 = 0;
    let mut execution_pending_price_revision: bool = false;
    let mut execution_submitter: String = String::new();
    let has_version = match reader.peek(3) {
        Some(s) => parse_i32(Some(s)).is_ok(),
        None => false,
    };
    let mut version: i32 = 0;
    if has_version {
        version = match reader.next_i32() {
            Ok(v) => v,
            Err(e) => return Err(e),
        };
    } else {
        version = i32::MAX;
    }
    proof {
        assert(reader.position() == req_id_pos);
    }
    let mut req_id: i32 = 0;
    if version >= 7 {
        req_id = match reader.next_i32() {
            Ok(v) => v,
            Err(e) => return Err(e),
        };
    } else {
        req_id = -1;
    }
    proof {
        assert(reader.position() == pos_4);
    }
    let order_id: i32 = match reader.next_i32() {
        Ok(v) => v,
        Err(e) => return Err(e),
    };
    contract_con_id = match reader.next_i32() {
        Ok(v) => v,
        Err(e) => return Err(e),
    };
    contract_symbol = reader.next_string();
    contract_sec_type = reader.next_string();
    contract_last_trade_date_or_contract_month = reader.next_string();
    contract_strike = reader.next_double();
    contract_right = reader.next_string();
    if version >= 9 {
        contract_multiplier = reader.next_string();
    }
    proof {
        assert(reader.position() == exchange_pos);
    }
    contract_exchange = reader.next_string();
    contract_currency = reader.next_string();
    contract_local_symbol = reader.next_string();
    if version >= 10 {
        contract_trading_class = reader.next_string();
    }
    proof {
        assert(reader.position() == exec_id_pos);
    }
    execution_order_id = order_id;
    execution_exec_id = reader.next_string();
    execution_time = reader.next_string();
    execution_acct_number = reader.next_string();
    execution_exchange = reader.next_string();
    execution_side = reader.next_string();
    execution_shares = match reader.next_decimal() {
        Ok(v) => v,
        Err(e) => return Err(e),
    };
    execution_price = reader.next_double();
    execution_perm_id = match reader.next_i32() {
        Ok(v) => v as i64,
        Err(e) => return Err(e),
    };
    execution_client_id = match reader.next_i32() {
        Ok(v) => v,
        Err(e) => return Err(e),
    };
    execution_liquidation = match reader.next_i32() {
        Ok(v) => v,
        Err(e) => return Err(e),
    };
    if version >= 6 {
        execution_cum_qty = match reader.next_decimal() {
            Ok(v) => v,
            Err(e) => return Err(e),
        };
        execution_avg_price = reader.next_double();
    }
    proof {
        assert(reader.position() == order_ref_pos);
    }
    if version >= 8 {
        execution_order_ref = reader.next_string();
    }
    proof {
        assert(reader.position() == ev_rule_pos);
    }
    if version >= 9 {
        execution_ev_rule = reader.next_string();
        execution_ev_multiplier = reader.next_double();
    }
    proof {
        assert(reader.position() == model_code_pos);
    }
    if reader.has_more() {
        execution_model_code = reader.next_string();
    }
    proof {
        assert(reader.position() == last_liquidity_pos);
    }
    if reader.has_more() {
        execution_last_liquidity = match reader.next_i32() {
            Ok(v) => v,
            Err(e) => return Err(e),
        };
    }
    proof {
        assert(reader.position() == pending_price_revision_pos);
    }
    if reader.has_more() {
        execution_pending_price_revision = reader.next_bool();
    }
    proof {
        assert(reader.position() == submitter_pos);
    }
    if reader.has_more() {
        execution_submitter = reader.next_string();
    }
    proof {
        assert(reader.position() == pos_22);
    }
    let contract = Contract { con_id: contract_con_id, symbol: contract_symbol, sec_type: contract_sec_type, last_trade_date_or_contract_month: contract_last_trade_date_or_contract_month, last_trade_date: String::new(), strike: contract_strike, right: contract_right, multiplier: contract_multiplier, exchange: contract_exchange, primary_exchange: String::new(), currency: contract_currency, local_symbol: contract_local_symbol, trading_class: contract_trading_class, include_expired: false, sec_id_type: String::new(), sec_id: String::new(), description: String::new(), issuer_id: String::new(), combo_legs_description: String::new(), combo_legs: Vec::new(), delta_neutral_contract: None };
    let execution = Execution { order_id: execution_order_id, exec_id: execution_exec_id, time: execution_time, acct_number: execution_acct_number, exchange: execution_exchange, side: execution_side, shares: execution_shares, price: execution_price, perm_id: execution_perm_id, client_id: execution_client_id, liquidation: execution_liquidation, cum_qty: execution_cum_qty, avg_price: execution_avg_price, order_ref: execution_order_ref, ev_rule: execution_ev_rule, ev_multiplier: execution_ev_multiplier, model_code: execution_model_code, last_liquidity: execution_last_liquidity, pending_price_revision: execution_pending_price_revision, submitter: execution_submitter, opt_exercise_or_lapse_type: 0 };

    Ok(Event::ExecutionDetails { req_id, contract: Box::new(contract), execution })
}

/// The optional fields that follow the price magnifier in contract details, as read.
pub struct ContractDetailsTail {
    /// The value read for `under_con_id`.
    pub under_con_id: i32,
    /// The value read for `long_name`.
    pub long_name: String,
    /// The value read for `contract_month`.
    pub contract_month: String,
    /// The value read for `industry`.
    pub industry: String,
    /// The value read for `category`.
    pub category: String,
    /// The value read for `subcategory`.
    pub subcategory: String,
    /// The value read for `time_zone_id`.
    pub time_zone_id: String,
    /// The value read for `trading_hours`.
    pub trading_hours: String,
    /// The value read for `liquid_hours`.
    pub liquid_hours: String,
    /// The value read for `market_rule_ids`.
    pub market_rule_ids: String,
    /// The value read for `real_expiration_date`.
    pub real_expiration_date: String,
    /// The value read for `stock_type`.
    pub stock_type: String,
    /// The value read for `min_size`.
    pub min_size: DecimalText,
    /// The value read for `size_increment`.
    pub size_increment: DecimalText,
    /// The value read for `suggested_size_increment`.
    pub suggested_size_increment: DecimalText,
    /// The value read for `primary_exchange`.
    pub primary_exchange: String,
}

/// The fund fields and ineligibility reasons at the end of contract details, as read.
pub struct ContractDetailsFund {
    /// The value read for `fund_name`.
    pub fund_name: String,
    /// The value read for `fund_family`.
    pub fund_family: String,
    /// The value read for `fund_type`.
    pub fund_type: String,
    /// The value read for `fund_front_load`.
    pub fund_front_load: String,
    /// The value read for `fund_back_load`.
    pub fund_back_load: String,
    /// The value read for `fund_back_load_time_interval`.
    pub fund_back_load_time_interval: String,
    /// The value read for `fund_management_fee`.
    pub fund_management_fee: String,
    /// The value read for `fund_closed`.
    pub fund_closed: bool,
    /// The value read for `fund_closed_for_new_investors`.
    pub fund_closed_for_new_investors: bool,
    /// The value read for `fund_closed_for_new_money`.
    pub fund_closed_for_new_money: bool,
    /// The value read for `fund_notify_amount`.
    pub fund_notify_amount: String,
    /// The value read for `fund_minimum_initial_purchase`.
    pub fund_minimum_initial_purchase: String,
    /// The value read for `fund_minimum_subsequent_purchase`.
    pub fund_minimum_subsequent_purchase: String,
    /// The value read for `fund_blue_sky_states`.
    pub fund_blue_sky_states: String,
    /// The value read for `fund_blue_sky_territories`.
    pub fund_blue_sky_territories: String,
    /// The value read for `fund_distribution_policy_indicator`.
    pub fund_distribution_policy_indicator: String,
    /// The value read for `fund_asset_type`.
    pub fund_asset_type: String,
    /// The value read for `ineligibility_reason_list`.
    pub ineligibility_reason_list: Vec<IneligibilityReason>,
}

/// The position after the optional fields that follow the price magnifier in contract details read at position `q`.
#[verifier::opaque]
pub open spec fn contract_data_tail_end(t: Seq<Seq<char>>, q: int, version: int) -> int {
    let cond_1: bool = (version) >= 4 && (q) < t.len();
    let long_name_pos: int = if cond_1 { q + 1 } else { q };
    let has_long_name: bool = (version) >= 5 && t.len() - (long_name_pos) > 1;
    let contract_month_pos: int = if has_long_name { long_name_pos + 2 } else { long_name_pos };
    let has_contract_month: bool = (version) >= 6 && t.len() - (contract_month_pos) > 6;
    let pos_6: int = if has_contract_month { contract_month_pos + 7 } else { contract_month_pos };
    let cond_7: bool = (version) >= 8 && t.len() - (pos_6) > 1;
    let pos_8: int = if cond_7 { pos_6 + 2 } else { pos_6 };
    let cond_9: bool = (version) >= 7 && (pos_8) < t.len();
    let count_10: int = max_zero((i32_or_zero(t, pos_8)));
    let pos_11: int = if cond_9 { (pos_8 + 1 + count_10 * 2) } else { pos_8 };
    let cond_12: bool = (pos_11) < t.len();
    let pos_13: int = if cond_12 { pos_11 + 1 } else { pos_11 };
    let cond_14: bool = t.len() - (pos_13) > 1;
    let market_rule_ids_pos: int = if cond_14 { pos_13 + 2 } else { pos_13 };
    let has_market_rule_ids: bool = (market_rule_ids_pos) < t.len();
    let real_expiration_date_pos: int = if has_market_rule_ids { market_rule_ids_pos + 1 } else { market_rule_ids_pos };
    let has_real_expiration_date: bool = (real_expiration_date_pos) < t.len();
    let stock_type_pos: int = if has_real_expiration_date { real_expiration_date_pos + 1 } else { real_expiration_date_pos };
    let has_stock_type: bool = (stock_type_pos) < t.len();
    let min_size_pos: int = if has_stock_type { stock_type_pos + 1 } else { stock_type_pos };
    let has_min_size: bool = (min_size_pos) < t.len();
    let size_increment_pos: int = if has_min_size { min_size_pos + 1 } else { min_size_pos };
    let has_size_increment: bool = (size_increment_pos) < t.len();
    let suggested_size_increment_pos: int = if has_size_increment { size_increment_pos + 1 } else { size_increment_pos };
    let has_suggested_size_increment: bool = (suggested_size_increment_pos) < t.len();
    let pos_27: int = if has_suggested_size_increment { suggested_size_increment_pos + 1 } else { suggested_size_increment_pos };
    pos_27
}

/// What the optional fields that follow the price magnifier in contract details read at position `q` holds, field by field.
#[verifier::opaque]
pub open spec fn contract_data_tail_out(t: Seq<Seq<char>>, q: int, version: int, after: ContractDetailsTail) -> bool {
    let cond_1: bool = (version) >= 4 && (q) < t.len();
    let long_name_pos: int = if cond_1 { q + 1 } else { q };
    let has_long_name: bool = (version) >= 5 && t.len() - (long_name_pos) > 1;
    let contract_month_pos: int = if has_long_name { long_name_pos + 2 } else { long_name_pos };
    let has_contract_month: bool = (version) >= 6 && t.len() - (contract_month_pos) > 6;
    let pos_6: int = if has_contract_month { contract_month_pos + 7 } else { contract_month_pos };
    let cond_7: bool = (version) >= 8 && t.len() - (pos_6) > 1;
    let pos_8: int = if cond_7 { pos_6 + 2 } else { pos_6 };
    let cond_9: bool = (version) >= 7 && (pos_8) < t.len();
    let count_10: int = max_zero((i32_or_zero(t, pos_8)));
    let pos_11: int = if cond_9 { (pos_8 + 1 + count_10 * 2) } else { pos_8 };
    let cond_12: bool = (pos_11) < t.len();
    let pos_13: int = if cond_12 { pos_11 + 1 } else { pos_11 };
    let cond_14: bool = t.len() - (pos_13) > 1;
    let market_rule_ids_pos: int = if cond_14 { pos_13 + 2 } else { pos_13 };
    let has_market_rule_ids: bool = (market_rule_ids_pos) < t.len();
    let real_expiration_date_pos: int = if has_market_rule_ids { market_rule_ids_pos + 1 } else { market_rule_ids_pos };
    let has_real_expiration_date: bool = (real_expiration_date_pos) < t.len();
    let stock_type_pos: int = if has_real_expiration_date { real_expiration_date_pos + 1 } else { real_expiration_date_pos };
    let has_stock_type: bool = (stock_type_pos) < t.len();
    let min_size_pos: int = if has_stock_type { stock_type_pos + 1 } else { stock_type_pos };
    let has_min_size: bool = (min_size_pos) < t.len();
    let size_increment_pos: int = if has_min_size { min_size_pos + 1 } else { min_size_pos };
    let has_size_increment: bool = (size_increment_pos) < t.len();
    let suggested_size_increment_pos: int = if has_size_increment { size_increment_pos + 1 } else { size_increment_pos };
    let has_suggested_size_increment: bool = (suggested_size_increment_pos) < t.len();
    let pos_27: int = if has_suggested_size_increment { suggested_size_increment_pos + 1 } else { suggested_size_increment_pos };
    after.under_con_id == (if cond_1 { i32_or_zero(t, q) } else { 0 })
            && after.long_name@ == (if has_long_name { text_at(t, long_name_pos) } else { Seq::<char>::empty() })
            && after.contract_month@ == (if has_contract_month { text_at(t, contract_month_pos) } else { Seq::<char>::empty() })
            && after.industry@ == (if has_contract_month { text_at(t, contract_month_pos + 1) } else { Seq::<char>::empty() })
            && after.category@ == (if has_contract_month { text_at(t, contract_month_pos + 2) } else { Seq::<char>::empty() })
            && after.subcategory@ == (if has_contract_month { text_at(t, contract_month_pos + 3) } else { Seq::<char>::empty() })
            && after.time_zone_id@ == (if has_contract_month { text_at(t, contract_month_pos + 4) } else { Seq::<char>::empty() })
            && after.trading_hours@ == (if has_contract_month { text_at(t, contract_month_pos + 5) } else { Seq::<char>::empty() })
            && after.liquid_hours@ == (if has_contract_month { text_at(t, contract_month_pos + 6) } else { Seq::<char>::empty() })
            && after.market_rule_ids@ == (if has_market_rule_ids { text_at(t, market_rule_ids_pos) } else { Seq::<char>::empty() })
            && after.real_expiration_date@ == (if has_real_expiration_date { text_at(t, real_expiration_date_pos) } else { Seq::<char>::empty() })
            && after.stock_type@ == (if has_stock_type { text_at(t, stock_type_pos) } else { Seq::<char>::empty() })
            && after.min_size.text@ == (if has_min_size { decimal_or_zero(t, min_size_pos) } else { "0"@ })
            && after.size_increment.text@ == (if has_size_increment { decimal_or_zero(t, size_increment_pos) } else { "0"@ })
            && after.suggested_size_increment.text@ == (if has_suggested_size_increment { decimal_or_zero(t, suggested_size_increment_pos) } else { "0"@ })
            && after.primary_exchange@ == (if has_long_name { text_at(t, long_name_pos + 1) } else { Seq::<char>::empty() })
}

/// What reading the optional fields that follow the price magnifier in contract details at position `q` gives: `after`, and the position `end` after it.
pub open spec fn contract_data_tail_read(t: Seq<Seq<char>>, q: int, version: int, after: ContractDetailsTail, end: int) -> bool {
    end == contract_data_tail_end(t, q, version) && contract_data_tail_out(t, q, version, after)
}

/// Reads the optional fields that follow the price magnifier in contract details.
#[verifier::spinoff_prover]
#[verifier::rlimit(60)]
fn read_contract_data_tail(reader: &mut FieldReader, version: i32) -> (x: ContractDetailsTail)
    requires
        old(reader).wf(),
    ensures
        final(reader).wf(),
        final(reader).texts() == old(reader).texts(),
        contract_data_tail_read(old(reader).texts(), old(reader).position(), version as int, x, final(reader).position()),
{
    proof {
        reveal(contract_data_tail_end);
        reveal(contract_data_tail_out);
    }
    let ghost t = reader.texts();
    let ghost q = reader.position();
    let ghost cond_1: bool = ((version as int)) >= 4 && (q) < t.len();
    let ghost pos_2: int = if cond_1 { q + 1 } else { q };
    let ghost cond_3: bool = ((version as int)) >= 5 && t.len() - (pos_2) > 1;
    let ghost pos_4: int = if cond_3 { pos_2 + 2 } else { pos_2 };
    let ghost cond_5: bool = ((version as int)) >= 6 && t.len() - (pos_4) > 6;
    let ghost pos_6: int = if cond_5 { pos_4 + 7 } else { pos_4 };
    let ghost cond_7: bool = ((version as int)) >= 8 && t.len() - (pos_6) > 1;
    let ghost pos_8: int = if cond_7 { pos_6 + 2 } else { pos_6 };
    let ghost cond_9: bool = ((version as int)) >= 7 && (pos_8) < t.len();
    let ghost count_10: int = max_zero((i32_or_zero(t, pos_8)));
    let ghost pos_11: int = if cond_9 { (pos_8 + 1 + count_10 * 2) } else { pos_8 };
    let ghost cond_12: bool = (pos_11) < t.len();
    let ghost pos_13: int = if cond_12 { pos_11 + 1 } else { pos_11 };
    let ghost cond_14: bool = t.len() - (pos_13) > 1;
    let ghost pos_15: int = if cond_14 { pos_13 + 2 } else { pos_13 };
    let ghost cond_16: bool = (pos_15) < t.len();
    let ghost pos_17: int = if cond_16 { pos_15 + 1 } else { pos_15 };
    let ghost cond_18: bool = (pos_17) < t.len();
    let ghost pos_19: int = if cond_18 { pos_17 + 1 } else { pos_17 };
    let ghost cond_20: bool = (pos_19) < t.len();
    let ghost pos_21: int = if cond_20 { pos_19 + 1 } else { pos_19 };
    let ghost cond_22: bool = (pos_21) < t.len();
    let ghost pos_23: int = if cond_22 { pos_21 + 1 } else { pos_21 };
    let ghost cond_24: bool = (pos_23) < t.len();
    let ghost pos_25: int = if cond_24 { pos_23 + 1 } else { pos_23 };
    let ghost cond_26: bool = (pos_25) < t.len();
    let ghost pos_27: int = if cond_26 { pos_25 + 1 } else { pos_25 };
    let mut tail_under_con_id: i32 = 0;
    let mut tail_long_name: String = String::new();
    let mut tail_primary_exchange: String = String::new();
    let mut tail_contract_month: String = String::new();
    let mut tail_industry: String = String::new();
    let mut tail_category: String = String::new();
    let mut tail_subcategory: String = String::new();
    let mut tail_time_zone_id: String = String::new();
    let mut tail_trading_hours: String = String::new();
    let mut tail_liquid_hours: String = String::new();
    let mut tail_market_rule_ids: String = String::new();
    let mut tail_real_expiration_date: String = String::new();
    let mut tail_stock_type: String = String::new();
    let mut tail_min_size: DecimalText = DecimalText::zero();
    let mut tail_size_increment: DecimalText = DecimalText::zero();
    let mut tail_suggested_size_increment: DecimalText = DecimalText::zero();
    if version >= 4 && reader.has_more() {
        tail_under_con_id = reader.next_i32_or_default();
    }
    proof {
        assert(reader.position() == pos_2);
    }
    if version >= 5 && reader.remaining() > 1 {
        tail_long_name = reader.next_string();
        tail_primary_exchange = reader.next_string();
    }
    proof {
        assert(reader.position() == pos_4);
    }
    if version >= 6 && reader.remaining() > 6 {
        tail_contract_month = reader.next_string();
        tail_industry = reader.next_string();
        tail_category = reader.next_string();
        tail_subcategory = reader.next_string();
        tail_time_zone_id = reader.next_string();
        tail_trading_hours = reader.next_string();
        tail_liquid_hours = reader.next_string();
    }
    proof {
        assert(reader.position() == pos_6);
    }
    if version >= 8 && reader.remaining() > 1 {
        let _ = reader.next_string();
        let _ = reader.next_double();
    }
    proof {
        assert(reader.position() == pos_8);
    }
    let mut sec_id_count: i32 = 0;
    if version >= 7 && reader.has_more() {
        sec_id_count = reader.next_i32_or_default();
        skip_groups(reader, sec_id_count, 2);
    }
    proof {
        assert(reader.position() == pos_11);
    }
    if reader.has_more() {
        let _ = reader.next_i32_or_default();
    }
    proof {
        assert(reader.position() == pos_13);
    }
    if reader.remaining() > 1 {
        let _ = reader.next_string();
        let _ = reader.next_string();
    }
    proof {
        assert(reader.position() == pos_15);
    }
    if reader.has_more() {
        tail_market_rule_ids = reader.next_string();
    }
    proof {
        assert(reader.position() == pos_17);
    }
    if reader.has_more() {
        tail_real_expiration_date = reader.next_string();
    }
    proof {
        assert(reader.position() == pos_19);
    }
    if reader.has_more() {
        tail_stock_type = reader.next_string();
    }
    proof {
        assert(reader.position() == pos_21);
    }
    if reader.has_more() {
        tail_min_size = reader.next_decimal_or_default();
    }
    proof {
        assert(reader.position() == pos_23);
    }
    if reader.has_more() {
        tail_size_increment = reader.next_decimal_or_default();
    }
    proof {
        assert(reader.position() == pos_25);
    }
    if reader.has_more() {
        tail_suggested_size_increment = reader.next_decimal_or_default();
    }
    proof {
        assert(reader.position() == pos_27);
    }
    let tail = ContractDetailsTail { under_con_id: tail_under_con_id, long_name: tail_long_name, contract_month: tail_contract_month, industry: tail_industry, category: tail_category, subcategory: tail_subcategory, time_zone_id: tail_time_zone_id, trading_hours: tail_trading_hours, liquid_hours: tail_liquid_hours, market_rule_ids: tail_market_rule_ids, real_expiration_date: tail_real_expiration_date, stock_type: tail_stock_type, min_size: tail_min_size, size_increment: tail_size_increment, suggested_size_increment: tail_suggested_size_increment, primary_exchange: tail_primary_exchange };

    tail
}

/// The position after the fund fields and ineligibility reasons at the end of contract details read at position `q`.
/// The fund fields are read only for a fund.
#[verifier::opaque]
pub open spec fn contract_data_fund_end(t: Seq<Seq<char>>, q: int, is_fund: bool) -> int {
    let cond_1: bool = (is_fund) && t.len() - (q) > 16;
    let pos_2: int = if cond_1 { q + 17 } else { q };
    let cond_3: bool = (pos_2) < t.len();
    let start_4: int = pos_2 + 1;
    let pos_5: int = if cond_3 { ineligibility_reasons_end(t, start_4, (i32_or_zero(t, pos_2))) } else { pos_2 };
    pos_5
}

/// What the fund fields and ineligibility reasons at the end of contract details read at position `q` holds, field by field.
/// The fund fields are read only for a fund.
#[verifier::opaque]
pub open spec fn contract_data_fund_out(t: Seq<Seq<char>>, q: int, is_fund: bool, after: ContractDetailsFund) -> bool {
    let cond_1: bool = (is_fund) && t.len() - (q) > 16;
    let pos_2: int = if cond_1 { q + 17 } else { q };
    let cond_3: bool = (pos_2) < t.len();
    let start_4: int = pos_2 + 1;
    let pos_5: int = if cond_3 { ineligibility_reasons_end(t, start_4, (i32_or_zero(t, pos_2))) } else { pos_2 };
    after.fund_name@ == (if cond_1 { text_at(t, q) } else { Seq::<char>::empty() })
            && after.fund_family@ == (if cond_1 { text_at(t, q + 1) } else { Seq::<char>::empty() })
            && after.fund_type@ == (if cond_1 { text_at(t, q + 2) } else { Seq::<char>::empty() })
            && after.fund_front_load@ == (if cond_1 { text_at(t, q + 3) } else { Seq::<char>::empty() })
            && after.fund_back_load@ == (if cond_1 { text_at(t, q + 4) } else { Seq::<char>::empty() })
            && after.fund_back_load_time_interval@ == (if cond_1 { text_at(t, q + 5) } else { Seq::<char>::empty() })
            && after.fund_management_fee@ == (if cond_1 { text_at(t, q + 6) } else { Seq::<char>::empty() })
            && after.fund_closed == (if cond_1 { bool_at(t, q + 7) } else { false })
            && after.fund_closed_for_new_investors == (if cond_1 { bool_at(t, q + 8) } else { false })
            && after.fund_closed_for_new_money == (if cond_1 { bool_at(t, q + 9) } else { false })
            && after.fund_notify_amount@ == (if cond_1 { text_at(t, q + 10) } else { Seq::<char>::empty() })
            && after.fund_minimum_initial_purchase@ == (if cond_1 { text_at(t, q + 11) } else { Seq::<char>::empty() })
            && after.fund_minimum_subsequent_purchase@ == (if cond_1 { text_at(t, q + 12) } else { Seq::<char>::empty() })
            && after.fund_blue_sky_states@ == (if cond_1 { text_at(t, q + 13) } else { Seq::<char>::empty() })
            && after.fund_blue_sky_territories@ == (if cond_1 { text_at(t, q + 14) } else { Seq::<char>::empty() })
            && after.fund_distribution_policy_indicator@ == (if cond_1 { text_at(t, q + 15) } else { Seq::<char>::empty() })
            && after.fund_asset_type@ == (if cond_1 { text_at(t, q + 16) } else { Seq::<char>::empty() })
            && (if cond_3 { ineligibility_reasons_out(t, start_4, (i32_or_zero(t, pos_2)), after.ineligibility_reason_list) } else { after.ineligibility_reason_list@.len() == 0 })
}

/// What reading the fund fields and ineligibility reasons at the end of contract details at position `q` gives: `after`, and the position `end` after it.
/// The fund fields are read only for a fund.
pub open spec fn contract_data_fund_read(t: Seq<Seq<char>>, q: int, is_fund: bool, after: ContractDetailsFund, end: int) -> bool {
    end == contract_data_fund_end(t, q, is_fund) && contract_data_fund_out(t, q, is_fund, after)
}

/// Reads the fund fields and ineligibility reasons at the end of contract details; the fund fields only for a fund.
fn read_contract_data_fund(reader: &mut FieldReader, is_fund: bool) -> (x: ContractDetailsFund)
    requires
        old(reader).wf(),
    ensures
        final(reader).wf(),
        final(reader).texts() == old(reader).texts(),
        contract_data_fund_read(old(reader).texts(), old(reader).position(), is_fund, x, final(reader).position()),
{
    proof {
        reveal(contract_data_fund_end);
        reveal(contract_data_fund_out);
    }
    let ghost t = reader.texts();
    let ghost q = reader.position();
    let ghost cond_1: bool = (is_fund) && t.len() - (q) > 16;
    let ghost pos_2: int = if cond_1 { q + 17 } else { q };
    let ghost cond_3: bool = (pos_2) < t.len();
    let ghost start_4: int = pos_2 + 1;
    let ghost pos_5: int = if cond_3 { ineligibility_reasons_end(t, start_4, (i32_or_zero(t, pos_2))) } else { pos_2 };
    let mut fund_fund_name: String = String::new();
    let mut fund_fund_family: String = String::new();
    let mut fund_fund_type: String = String::new();
    let mut fund_fund_front_load: String = String::new();
    let mut fund_fund_back_load: String = String::new();
    let mut fund_fund_back_load_time_interval: String = String::new();
    let mut fund_fund_management_fee: String = String::new();
    let mut fund_fund_closed: bool = false;
    let mut fund_fund_closed_for_new_investors: bool = false;
    let mut fund_fund_closed_for_new_money: bool = false;
    let mut fund_fund_notify_amount: String = String::new();
    let mut fund_fund_minimum_initial_purchase: String = String::new();
    let mut fund_fund_minimum_subsequent_purchase: String = String::new();
    let mut fund_fund_blue_sky_states: String = String::new();
    let mut fund_fund_blue_sky_territories: String = String::new();
    let mut fund_fund_distribution_policy_indicator: String = String::new();
    let mut fund_fund_asset_type: String = String::new();
    let mut fund_ineligibility_reason_list: Vec<IneligibilityReason> = Vec::new();
    if is_fund && reader.remaining() > 16 {
        fund_fund_name = reader.next_string();
        fund_fund_family = reader.next_string();
        fund_fund_type = reader.next_string();
        fund_fund_front_load = reader.next_string();
        fund_fund_back_load = reader.next_string();
        fund_fund_back_load_time_interval = reader.next_string();
        fund_fund_management_fee = reader.next_string();
        fund_fund_closed = reader.next_bool();
        fund_fund_closed_for_new_investors = reader.next_bool();
        fund_fund_closed_for_new_money = reader.next_bool();
        fund_fund_notify_amount = reader.next_string();
        fund_fund_minimum_initial_purchase = reader.next_string();
        fund_fund_minimum_subsequent_purchase = reader.next_string();
        fund_fund_blue_sky_states = reader.next_string();
        fund_fund_blue_sky_territories = reader.next_string();
        fund_fund_distribution_policy_indicator = reader.next_string();
        fund_fund_asset_type = reader.next_string();
    }
    proof {
        assert(reader.position() == pos_2);
    }
    let mut reason_count: i32 = 0;
    if reader.has_more() {
        reason_count = reader.next_i32_or_default();
        proof {
            assert(reader.position() == pos_2 + 1);
        }
        fund_ineligibility_reason_list = read_ineligibility_reasons(reader, reason_count);
    }
    proof {
        assert(reader.position() == pos_5);
    }
    let fund = ContractDetailsFund { fund_name: fund_fund_name, fund_family: fund_fund_family, fund_type: fund_fund_type, fund_front_load: fund_fund_front_load, fund_back_load: fund_fund_back_load, fund_back_load_time_interval: fund_fund_back_load_time_interval, fund_management_fee: fund_fund_management_fee, fund_closed: fund_fund_closed, fund_closed_for_new_investors: fund_fund_closed_for_new_investors, fund_closed_for_new_money: fund_fund_closed_for_new_money, fund_notify_amount: fund_fund_notify_amount, fund_minimum_initial_purchase: fund_fund_minimum_initial_purchase, fund_minimum_subsequent_purchase: fund_fund_minimum_subsequent_purchase, fund_blue_sky_states: fund_fund_blue_sky_states, fund_blue_sky_territories: fund_fund_blue_sky_territories, fund_distribution_policy_indicator: fund_fund_distribution_policy_indicator, fund_asset_type: fund_fund_asset_type, ineligibility_reason_list: fund_ineligibility_reason_list };

    fund
}

/// What decoding contract details gives, field by field; `t` holds the texts of the fields.
/// A version field in front when the second field is an integer.
pub open spec fn contract_data_decoded(t: Seq<Seq<char>>, r: Result<Event, TwsApiError>) -> bool {
    let has_version_field: bool = ((i32_at(t, 0int + 1) is Ok));
    let req_id_pos: int = if has_version_field { 1int } else { 0int };
    let has_req_id: bool = ((if has_version_field { i32_or_zero(t, 0int) } else { ((8) as int) })) >= 3;
    let symbol_pos: int = if has_req_id { req_id_pos + 1 } else { req_id_pos };
    let has_last_trade_date: bool = !((i32_at(t, 0int + 1) is Ok)) || (!((symbol_pos + 3) < t.len() && float_text(text_at(t, (symbol_pos + 3)))));
    let strike_pos: int = if has_last_trade_date { symbol_pos + 4 } else { symbol_pos + 3 };
    let has_under_con_id: bool = (((if has_version_field { i32_or_zero(t, 0int) } else { ((8) as int) }))) >= 4 && (strike_pos + 13) < t.len();
    let long_name_pos: int = if has_under_con_id { strike_pos + 13 + 1 } else { strike_pos + 13 };
    let has_long_name: bool = (((if has_version_field { i32_or_zero(t, 0int) } else { ((8) as int) }))) >= 5 && t.len() - (long_name_pos) > 1;
    let contract_month_pos: int = if has_long_name { long_name_pos + 2 } else { long_name_pos };
    let has_contract_month: bool = (((if has_version_field { i32_or_zero(t, 0int) } else { ((8) as int) }))) >= 6 && t.len() - (contract_month_pos) > 6;
    let ev_rule_pos: int = if has_contract_month { contract_month_pos + 7 } else { contract_month_pos };
    let has_ev_rule: bool = (((if has_version_field { i32_or_zero(t, 0int) } else { ((8) as int) }))) >= 8 && t.len() - (ev_rule_pos) > 1;
    let sec_id_count_pos: int = if has_ev_rule { ev_rule_pos + 2 } else { ev_rule_pos };
    let has_sec_id_list: bool = (((if has_version_field { i32_or_zero(t, 0int) } else { ((8) as int) }))) >= 7 && (sec_id_count_pos) < t.len();
    let sec_id_count: int = max_zero((i32_or_zero(t, sec_id_count_pos)));
    let agg_group_pos: int = if has_sec_id_list { (sec_id_count_pos + 1 + sec_id_count * 2) } else { sec_id_count_pos };
    let has_agg_group: bool = (agg_group_pos) < t.len();
    let under_symbol_pos: int = if has_agg_group { agg_group_pos + 1 } else { agg_group_pos };
    let has_under_symbol: bool = t.len() - (under_symbol_pos) > 1;
    let market_rule_ids_pos: int = if has_under_symbol { under_symbol_pos + 2 } else { under_symbol_pos };
    let has_market_rule_ids: bool = (market_rule_ids_pos) < t.len();
    let real_expiration_date_pos: int = if has_market_rule_ids { market_rule_ids_pos + 1 } else { market_rule_ids_pos };
    let has_real_expiration_date: bool = (real_expiration_date_pos) < t.len();
    let stock_type_pos: int = if has_real_expiration_date { real_expiration_date_pos + 1 } else { real_expiration_date_pos };
    let has_stock_type: bool = (stock_type_pos) < t.len();
    let min_size_pos: int = if has_stock_type { stock_type_pos + 1 } else { stock_type_pos };
    let has_min_size: bool = (min_size_pos) < t.len();
    let size_increment_pos: int = if has_min_size { min_size_pos + 1 } else { min_size_pos };
    let has_size_increment: bool = (size_increment_pos) < t.len();
    let suggested_size_increment_pos: int = if has_size_increment { size_increment_pos + 1 } else { size_increment_pos };
    let has_suggested_size_increment: bool = (suggested_size_increment_pos) < t.len();
    let fund_name_pos: int = if has_suggested_size_increment { suggested_size_increment_pos + 1 } else { suggested_size_increment_pos };
    let has_fund_name: bool = (((text_at(t, symbol_pos + 1)) == "FUND"@)) && t.len() - (fund_name_pos) > 16;
    let ineligibility_count_pos: int = if has_fund_name { fund_name_pos + 17 } else { fund_name_pos };
    let has_ineligibility_reasons: bool = (ineligibility_count_pos) < t.len();
    let ineligibility_reasons_start: int = ineligibility_count_pos + 1;
    let end_pos: int = if has_ineligibility_reasons { ineligibility_reasons_end(t, ineligibility_reasons_start, (i32_or_zero(t, ineligibility_count_pos))) } else { ineligibility_count_pos };
    if (has_version_field ==> i32_at(t, 0int) is Ok)
        && (has_req_id ==> i32_at(t, req_id_pos) is Ok)
        && i32_at(t, strike_pos + 7) is Ok
        && i32_at(t, strike_pos + 12) is Ok {
        r matches Ok(Event::ContractDetails { req_id, details })
            && req_id == (if has_req_id { i32_or_zero(t, req_id_pos) } else { ((-1) as int) })
            && (*details).contract.con_id == i32_or_zero(t, strike_pos + 7)
            && (*details).contract.symbol@ == text_at(t, symbol_pos)
            && (*details).contract.sec_type@ == text_at(t, symbol_pos + 1)
            && (*details).contract.last_trade_date_or_contract_month@ == text_at(t, symbol_pos + 2)
            && (*details).contract.last_trade_date@ == (if has_last_trade_date { text_at(t, symbol_pos + 3) } else { Seq::<char>::empty() })
            && (*details).contract.strike.text@ == text_at(t, strike_pos)
            && (*details).contract.right@ == text_at(t, strike_pos + 1)
            && (*details).contract.multiplier@ == text_at(t, strike_pos + 9)
            && (*details).contract.exchange@ == text_at(t, strike_pos + 2)
            && (*details).contract.primary_exchange@ == (if has_long_name { text_at(t, long_name_pos + 1) } else { Seq::<char>::empty() })
            && (*details).contract.currency@ == text_at(t, strike_pos + 3)
            && (*details).contract.local_symbol@ == text_at(t, strike_pos + 4)
            && (*details).contract.trading_class@ == text_at(t, strike_pos + 6)
            && (*details).contract.include_expired == false
            && (*details).contract.sec_id_type@ == Seq::<char>::empty()
            && (*details).contract.sec_id@ == Seq::<char>::empty()
            && (*details).contract.description@ == Seq::<char>::empty()
            && (*details).contract.issuer_id@ == Seq::<char>::empty()
            && (*details).contract.combo_legs_description@ == Seq::<char>::empty()
            && (*details).contract.combo_legs@.len() == 0
            && (*details).contract.delta_neutral_contract is None
            && (*details).market_name@ == text_at(t, strike_pos + 5)
            && (*details).min_tick.text@ == text_at(t, strike_pos + 8)
            && (*details).order_types@ == text_at(t, strike_pos + 10)
            && (*details).valid_exchanges@ == text_at(t, strike_pos + 11)
            && (*details).price_magnifier == i32_or_zero(t, strike_pos + 12)
            && (*details).under_con_id == (if has_under_con_id { i32_or_zero(t, strike_pos + 13) } else { 0 })
            && (*details).long_name@ == (if has_long_name { text_at(t, long_name_pos) } else { Seq::<char>::empty() })
            && (*details).contract_month@ == (if has_contract_month { text_at(t, contract_month_pos) } else { Seq::<char>::empty() })
            && (*details).industry@ == (if has_contract_month { text_at(t, contract_month_pos + 1) } else { Seq::<char>::empty() })
            && (*details).category@ == (if has_contract_month { text_at(t, contract_month_pos + 2) } else { Seq::<char>::empty() })
            && (*details).subcategory@ == (if has_contract_month { text_at(t, contract_month_pos + 3) } else { Seq::<char>::empty() })
            && (*details).time_zone_id@ == (if has_contract_month { text_at(t, contract_month_pos + 4) } else { Seq::<char>::empty() })
            && (*details).trading_hours@ == (if has_contract_month { text_at(t, contract_month_pos + 5) } else { Seq::<char>::empty() })
            && (*details).liquid_hours@ == (if has_contract_month { text_at(t, contract_month_pos + 6) } else { Seq::<char>::empty() })
            && (*details).market_rule_ids@ == (if has_market_rule_ids { text_at(t, market_rule_ids_pos) } else { Seq::<char>::empty() })
            && (*details).cusip@ == Seq::<char>::empty()
            && (*details).issue_date@ == Seq::<char>::empty()
            && (*details).ratings@ == Seq::<char>::empty()
            && (*details).bond_type@ == Seq::<char>::empty()
            && (*details).coupon.text@ == "0"@
            && (*details).coupon_type@ == Seq::<char>::empty()
            && (*details).convertible == false
            && (*details).callable == false
            && (*details).puttable == false
            && (*details).desc_append@ == Seq::<char>::empty()
            && (*details).next_option_date@ == Seq::<char>::empty()
            && (*details).next_option_type@ == Seq::<char>::empty()
            && (*details).next_option_partial == false
            && (*details).bond_notes@ == Seq::<char>::empty()
            && (*details).real_expiration_date@ == (if has_real_expiration_date { text_at(t, real_expiration_date_pos) } else { Seq::<char>::empty() })
            && (*details).stock_type@ == (if has_stock_type { text_at(t, stock_type_pos) } else { Seq::<char>::empty() })
            && (*details).min_size.text@ == (if has_min_size { decimal_or_zero(t, min_size_pos) } else { "0"@ })
            && (*details).size_increment.text@ == (if has_size_increment { decimal_or_zero(t, size_increment_pos) } else { "0"@ })
            && (*details).suggested_size_increment.text@ == (if has_suggested_size_increment { decimal_or_zero(t, suggested_size_increment_pos) } else { "0"@ })
            && (*details).fund_name@ == (if has_fund_name { text_at(t, fund_name_pos) } else { Seq::<char>::empty() })
            && (*details).fund_family@ == (if has_fund_name { text_at(t, fund_name_pos + 1) } else { Seq::<char>::empty() })
            && (*details).fund_type@ == (if has_fund_name { text_at(t, fund_name_pos + 2) } else { Seq::<char>::empty() })
            && (*details).fund_front_load@ == (if has_fund_name { text_at(t, fund_name_pos + 3) } else { Seq::<char>::empty() })
            && (*details).fund_back_load@ == (if has_fund_name { text_at(t, fund_name_pos + 4) } else { Seq::<char>::empty() })
            && (*details).fund_back_load_time_interval@ == (if has_fund_name { text_at(t, fund_name_pos + 5) } else { Seq::<char>::empty() })
            && (*details).fund_management_fee@ == (if has_fund_name { text_at(t, fund_name_pos + 6) } else { Seq::<char>::empty() })
            && (*details).fund_closed == (if has_fund_name { bool_at(t, fund_name_pos + 7) } else { false })
            && (*details).fund_closed_for_new_investors == (if has_fund_name { bool_at(t, fund_name_pos + 8) } else { false })
            && (*details).fund_closed_for_new_money == (if has_fund_name { bool_at(t, fund_name_pos + 9) } else { false })
            && (*details).fund_notify_amount@ == (if has_fund_name { text_at(t, fund_name_pos + 10) } else { Seq::<char>::empty() })
            && (*details).fund_minimum_initial_purchase@ == (if has_fund_name { text_at(t, fund_name_pos + 11) } else { Seq::<char>::empty() })
            && (*details).fund_minimum_subsequent_purchase@ == (if has_fund_name { text_at(t, fund_name_pos + 12) } else { Seq::<char>::empty() })
            && (*details).fund_blue_sky_states@ == (if has_fund_name { text_at(t, fund_name_pos + 13) } else { Seq::<char>::empty() })
            && (*details).fund_blue_sky_territories@ == (if has_fund_name { text_at(t, fund_name_pos + 14) } else { Seq::<char>::empty() })
            && (*details).fund_distribution_policy_indicator@ == (if has_fund_name { text_at(t, fund_name_pos + 15) } else { Seq::<char>::empty() })
            && (*details).fund_asset_type@ == (if has_fund_name { text_at(t, fund_name_pos + 16) } else { Seq::<char>::empty() })
            && (if has_ineligibility_reasons { ineligibility_reasons_out(t, ineligibility_reasons_start, (i32_or_zero(t, ineligibility_count_pos)), (*details).ineligibility_reason_list) } else { (*details).ineligibility_reason_list@.len() == 0 })
            && (*details).event_contract1@ == Seq::<char>::empty()
            && (*details).event_contract_description1@ == Seq::<char>::empty()
            && (*details).event_contract_description2@ == Seq::<char>::empty()
            && (*details).min_algo_size.text@ == "0"@
            && (*details).last_price_precision.text@ == "0"@
            && (*details).last_size_precision.text@ == "0"@
    } else {
        r matches Err(e) && ((has_version_field && !(i32_at(t, 0int) is Ok) && (i32_at(t, 0int) matches Err(k) && int_error(e, t, 0int, k)))
            || (has_req_id && (has_version_field ==> i32_at(t, 0int) is Ok) && !(i32_at(t, req_id_pos) is Ok) && (i32_at(t, req_id_pos) matches Err(k) && int_error(e, t, req_id_pos, k)))
            || ((has_version_field ==> i32_at(t, 0int) is Ok) && (has_req_id ==> i32_at(t, req_id_pos) is Ok) && !(i32_at(t, strike_pos + 7) is Ok) && (i32_at(t, strike_pos + 7) matches Err(k) && int_error(e, t, strike_pos + 7, k)))
            || ((has_version_field ==> i32_at(t, 0int) is Ok) && (has_req_id ==> i32_at(t, req_id_pos) is Ok) && i32_at(t, strike_pos + 7) is Ok && !(i32_at(t, strike_pos + 12) is Ok) && (i32_at(t, strike_pos + 12) matches Err(k) && int_error(e, t, strike_pos + 12, k))))
    }
}

/// Decodes contract details; a version field in front when the second field is an integer.
#[verifier::spinoff_prover]
#[verifier::rlimit(100)]
pub fn decode_contract_data_fields(fields: &[String]) -> (r: Result<Event, TwsApiError>)
    ensures
        contract_data_decoded(text_views(fields@), r),
{
    let mut reader = FieldReader::new(fields);
    let ghost t = text_views(fields@);
    let ghost c1: bool = ((i32_at(t, 0int + 1) is Ok));
    let ghost p2: int = if c1 { 1int } else { 0int };
    let ghost c3: bool = ((if c1 { i32_or_zero(t, 0int) } else { ((8) as int) })) >= 3;
    let ghost p4: int = if c3 { p2 + 1 } else { p2 };
    let ghost c5: bool = !((i32_at(t, 0int + 1) is Ok)) || (!((p4 + 3) < t.len() && float_text(text_at(t, (p4 + 3)))));
    let ghost p6: int = if c5 { p4 + 4 } else { p4 + 3 };
    let ghost c7: bool = (((if c1 { i32_or_zero(t, 0int) } else { ((8) as int) }))) >= 4 && (p6 + 13) < t.len();
    let ghost p8: int = if c7 { p6 + 13 + 1 } else { p6 + 13 };
    let ghost c9: bool = (((if c1 { i32_or_zero(t, 0int) } else { ((8) as int) }))) >= 5 && t.len() - (p8) > 1;
    let ghost p10: int = if c9 { p8 + 2 } else { p8 };
    let ghost c11: bool = (((if c1 { i32_or_zero(t, 0int) } else { ((8) as int) }))) >= 6 && t.len() - (p10) > 6;
    let ghost p12: int = if c11 { p10 + 7 } else { p10 };
    let ghost c13: bool = (((if c1 { i32_or_zero(t, 0int) } else { ((8) as int) }))) >= 8 && t.len() - (p12) > 1;
    let ghost p14: int = if c13 { p12 + 2 } else { p12 };
    let ghost c15: bool = (((if c1 { i32_or_zero(t, 0int) } else { ((8) as int) }))) >= 7 && (p14) < t.len();
    let ghost n16: int = max_zero((i32_or_zero(t, p14)));
    let ghost p17: int = if c15 { (p14 + 1 + n16 * 2) } else { p14 };
    let ghost c18: bool = (p17) < t.len();
    let ghost p19: int = if c18 { p17 + 1 } else { p17 };
    let ghost c20: bool = t.len() - (p19) > 1;
    let ghost p21: int = if c20 { p19 + 2 } else { p19 };
    let ghost c22: bool = (p21) < t.len();
    let ghost p23: int = if c22 { p21 + 1 } else { p21 };
    let ghost c24: bool = (p23) < t.len();
    let ghost p25: int = if c24 { p23 + 1 } else { p23 };
    let ghost c26: bool = (p25) < t.len();
    let ghost p27: int = if c26 { p25 + 1 } else { p25 };
    let ghost c28: bool = (p27) < t.len();
    let ghost p29: int = if c28 { p27 + 1 } else { p27 };
    let ghost c30: bool = (p29) < t.len();
    let ghost p31: int = if c30 { p29 + 1 } else { p29 };
    let ghost c32: bool = (p31) < t.len();
    let ghost p33: int = if c32 { p31 + 1 } else { p31 };
    let ghost c34: bool = (((text_at(t, p4 + 1)) == "FUND"@)) && t.len() - (p33) > 16;
    let ghost p35: int = if c34 { p33 + 17 } else { p33 };
    let ghost c36: bool = (p35) < t.len();
    let ghost q37: int = p35 + 1;
    let ghost p38: int = if c36 { ineligibility_reasons_end(t, q37, (i32_or_zero(t, p35))) } else { p35 };
    let mut details__contract__symbol: String = String::new();
    let mut details__contract__sec_type: String = String::new();
    let mut details__contract__last_trade_date_or_contract_month: String = String::new();
    let mut details__contract__last_trade_date: String = String::new();
    let mut details__contract__strike: Double = Double::unset();
    let mut details__contract__right: String = String::new();
    let mut details__contract__exchange: String = String::new();
    let mut details__contract__currency: String = String::new();
    let mut details__contract__local_symbol: String = String::new();
    let mut details__market_name: String = String::new();
    let mut details__contract__trading_class: String = String::new();
    let mut details__contract__con_id: i32 = 0;
    let mut details__min_tick: Double = Double::zero();
    let mut details__contract__multiplier: String = String::new();
    let mut details__order_types: String = String::new();
    let mut details__valid_exchanges: String = String::new();
    let mut details__price_magnifier: i32 = 0;
    let mut details__under_con_id: i32 = 0;
    let mut details__long_name: String = String::new();
    let mut details__contract_month: String = String::new();
    let mut details__industry: String = String::new();
    let mut details__category: String = String::new();
    let mut details__subcategory: String = String::new();
    let mut details__time_zone_id: String = String::new();
    let mut details__trading_hours: String = String::new();
    let mut details__liquid_hours: String = String::new();
    let mut details__market_rule_ids: String = String::new();
    let mut details__real_expiration_date: String = String::new();
    let mut details__stock_type: String = String::new();
    let mut details__min_size: DecimalText = DecimalText::zero();
    let mut details__size_increment: DecimalText = DecimalText::zero();
    let mut details__suggested_size_increment: DecimalText = DecimalText::zero();
    let mut details__contract__primary_exchange: String = String::new();
    let mut details__fund_name: String = String::new();
    let mut details__fund_family: String = String::new();
    let mut details__fund_type: String = String::new();
    let mut details__fund_front_load: String = String::new();
    let mut details__fund_back_load: String = String::new();
    let mut details__fund_back_load_time_interval: String = String::new();
    let mut details__fund_management_fee: String = String::new();
    let mut details__fund_closed: bool = false;
    let mut details__fund_closed_for_new_investors: bool = false;
    let mut details__fund_closed_for_new_money: bool = false;
    let mut details__fund_notify_amount: String = String::new();
    let mut details__fund_minimum_initial_purchase: String = String::new();
    let mut details__fund_minimum_subsequent_purchase: String = String::new();
    let mut details__fund_blue_sky_states: String = String::new();
    let mut details__fund_blue_sky_territories: String = String::new();
    let mut details__fund_distribution_policy_indicator: String = String::new();
    let mut details__fund_asset_type: String = String::new();
    let mut details__ineligibility_reason_list: Vec<IneligibilityReason> = Vec::new();
    let has_version = match reader.peek(1) {
        Some(s) => parse_i32(Some(s)).is_ok(),
        None => false,
    };
    let mut version: i32 = 0;
    if has_version {
        version = match reader.next_i32() {
            Ok(v) => v,
            Err(e) => return Err(e),
        };
    } else {
        version = 8;
    }
    proof {
        assert(reader.position() == p2);
    }
    let mut req_id: i32 = 0;
    if version >= 3 {
        req_id = match reader.next_i32() {
            Ok(v) => v,
            Err(e) => return Err(e),
        };
    } else {
        req_id = -1;
    }
    proof {
        assert(reader.position() == p4);
    }
    details__contract__symbol = reader.next_string();
    details__contract__sec_type = reader.next_string();
    details__contract__last_trade_date_or_contract_month = reader.next_string();
    let strike_not_next: bool = strike_not_next(&reader);
    if !has_version || strike_not_next {
        details__contract__last_trade_date = reader.next_string();
    }
    proof {
        assert(reader.position() == p6);
    }
    details__contract__strike = reader.next_double();
    details__contract__right = reader.next_string();
    details__contract__exchange = reader.next_string();
    details__contract__currency = reader.next_string();
    details__contract__local_symbol = reader.next_string();
    details__market_name = reader.next_string();
    details__contract__trading_class = reader.next_string();
    details__contract__con_id = match reader.next_i32() {
        Ok(v) => v,
        Err(e) => return Err(e),
    };
    details__min_tick = reader.next_double();
    details__contract__multiplier = reader.next_string();
    details__order_types = reader.next_string();
    details__valid_exchanges = reader.next_string();
    details__price_magnifier = match reader.next_i32() {
        Ok(v) => v,
        Err(e) => return Err(e),
    };
    proof {
        assert(reader.position() == p6 + 13);
    }
    proof {
        reveal(contract_data_tail_end);
        reveal(contract_data_tail_out);
    }
    let mut tail = read_contract_data_tail(&mut reader, version);
    details__under_con_id = tail.under_con_id;
    details__long_name = tail.long_name;
    details__contract_month = tail.contract_month;
    details__industry = tail.industry;
    details__category = tail.category;
    details__subcategory = tail.subcategory;
    details__time_zone_id = tail.time_zone_id;
    details__trading_hours = tail.trading_hours;
    details__liquid_hours = tail.liquid_hours;
    details__market_rule_ids = tail.market_rule_ids;
    details__real_expiration_date = tail.real_expiration_date;
    details__stock_type = tail.stock_type;
    details__min_size = tail.min_size;
    details__size_increment = tail.size_increment;
    details__suggested_size_increment = tail.suggested_size_increment;
    details__contract__primary_exchange = tail.primary_exchange;
    let is_fund: bool = str_eq(details__contract__sec_type.as_str(), "FUND");
    proof {
        assert(reader.position() == p33);
    }
    proof {
        reveal(contract_data_fund_end);
        reveal(contract_data_fund_out);
    }
    let mut fund = read_contract_data_fund(&mut reader, is_fund);
    details__fund_name = fund.fund_name;
    details__fund_family = fund.fund_family;
    details__fund_type = fund.fund_type;
    details__fund_front_load = fund.fund_front_load;
    details__fund_back_load = fund.fund_back_load;
    details__fund_back_load_time_interval = fund.fund_back_load_time_interval;
    details__fund_management_fee = fund.fund_management_fee;
    details__fund_closed = fund.fund_closed;
    details__fund_closed_for_new_investors = fund.fund_closed_for_new_investors;
    details__fund_closed_for_new_money = fund.fund_closed_for_new_money;
    details__fund_notify_amount = fund.fund_notify_amount;
    details__fund_minimum_initial_purchase = fund.fund_minimum_initial_purchase;
    details__fund_minimum_subsequent_purchase = fund.fund_minimum_subsequent_purchase;
    details__fund_blue_sky_states = fund.fund_blue_sky_states;
    details__fund_blue_sky_territories = fund.fund_blue_sky_territories;
    details__fund_distribution_policy_indicator = fund.fund_distribution_policy_indicator;
    details__fund_asset_type = fund.fund_asset_type;
    details__ineligibility_reason_list = fund.ineligibility_reason_list;
    let details = ContractDetails { contract: Contract { con_id: details__contract__con_id, symbol: details__contract__symbol, sec_type: details__contract__sec_type, last_trade_date_or_contract_month: details__contract__last_trade_date_or_contract_month, last_trade_date: details__contract__last_trade_date, strike: details__contract__strike, right: details__contract__right, multiplier: details__contract__multiplier, exchange: details__contract__exchange, primary_exchange: details__contract__primary_exchange, currency: details__contract__currency, local_symbol: details__contract__local_symbol, trading_class: details__contract__trading_class, include_expired: false, sec_id_type: String::new(), sec_id: String::new(), description: String::new(), issuer_id: String::new(), combo_legs_description: String::new(), combo_legs: Vec::new(), delta_neutral_contract: None }, market_name: details__market_name, min_tick: details__min_tick, order_types: details__order_types, valid_exchanges: details__valid_exchanges, price_magnifier: details__price_magnifier, under_con_id: details__under_con_id, long_name: details__long_name, contract_month: details__contract_month, industry: details__industry, category: details__category, subcategory: details__subcategory, time_zone_id: details__time_zone_id, trading_hours: details__trading_hours, liquid_hours: details__liquid_hours, market_rule_ids: details__market_rule_ids, cusip: String::new(), issue_date: String::new(), ratings: String::new(), bond_type: String::new(), coupon: Double::zero(), coupon_type: String::new(), convertible: false, callable: false, puttable: false, desc_append: String::new(), next_option_date: String::new(), next_option_type: String::new(), next_option_partial: false, bond_notes: String::new(), real_expiration_date: details__real_expiration_date, stock_type: details__stock_type, min_size: details__min_size, size_increment: details__size_increment, suggested_size_increment: details__suggested_size_increment, fund_name: details__fund_name, fund_family: details__fund_family, fund_type: details__fund_type, fund_front_load: details__fund_front_load, fund_back_load: details__fund_back_load, fund_back_load_time_interval: details__fund_back_load_time_interval, fund_management_fee: details__fund_management_fee, fund_closed: details__fund_closed, fund_closed_for_new_investors: details__fund_closed_for_new_investors, fund_closed_for_new_money: details__fund_closed_for_new_money, fund_notify_amount: details__fund_notify_amount, fund_minimum_initial_purchase: details__fund_minimum_initial_purchase, fund_minimum_subsequent_purchase: details__fund_minimum_subsequent_purchase, fund_blue_sky_states: details__fund_blue_sky_states, fund_blue_sky_territories: details__fund_blue_sky_territories, fund_distribution_policy_indicator: details__fund_distribution_policy_indicator, fund_asset_type: details__fund_asset_type, ineligibility_reason_list: details__ineligibility_reason_list, event_contract1: String::new(), event_contract_description1: String::new(), event_contract_description2: String::new(), min_algo_size: DecimalText::zero(), last_price_precision: DecimalText::zero(), last_size_precision: DecimalText::zero() };

    Ok(Event::ContractDetails { req_id, details: Box::new(details) })
}

/// What decoding bond contract details gives, field by field; `t` holds the texts of the fields.
/// A version field in front when the second field is an integer.
pub open spec fn bond_contract_data_decoded(t: Seq<Seq<char>>, r: Result<Event, TwsApiError>) -> bool {
    let cond_1: bool = ((i32_at(t, 0int + 1) is Ok));
    let req_id_pos: int = if cond_1 { 1int } else { 0int };
    let has_req_id: bool = ((if cond_1 { i32_or_zero(t, 0int) } else { ((6) as int) })) >= 3;
    let symbol_pos: int = if has_req_id { req_id_pos + 1 } else { req_id_pos };
    let cond_5: bool = ((if cond_1 { i32_or_zero(t, 0int) } else { ((6) as int) })) >= 4 && (symbol_pos + 25) < t.len();
    let time_zone_id_pos: int = if cond_5 { symbol_pos + 26 } else { symbol_pos + 25 };
    let has_time_zone_id: bool = t.len() - (time_zone_id_pos) > 2;
    let pos_8: int = if has_time_zone_id { time_zone_id_pos + 3 } else { time_zone_id_pos };
    let cond_9: bool = ((if cond_1 { i32_or_zero(t, 0int) } else { ((6) as int) })) >= 6 && t.len() - (pos_8) > 1;
    let pos_10: int = if cond_9 { pos_8 + 2 } else { pos_8 };
    let cond_11: bool = ((if cond_1 { i32_or_zero(t, 0int) } else { ((6) as int) })) >= 5 && (pos_10) < t.len();
    let count_12: int = max_zero((i32_or_zero(t, pos_10)));
    let pos_13: int = if cond_11 { (pos_10 + 1 + count_12 * 2) } else { pos_10 };
    let cond_14: bool = (pos_13) < t.len();
    let market_rule_ids_pos: int = if cond_14 { pos_13 + 1 } else { pos_13 };
    let has_market_rule_ids: bool = (market_rule_ids_pos) < t.len();
    let pos_17: int = if has_market_rule_ids { market_rule_ids_pos + 1 } else { market_rule_ids_pos };
    if (cond_1 ==> i32_at(t, 0int) is Ok)
        && (has_req_id ==> i32_at(t, req_id_pos) is Ok)
        && i32_at(t, symbol_pos + 17) is Ok {
        r matches Ok(Event::BondContractDetails { req_id, details })
            && req_id == (if has_req_id { i32_or_zero(t, req_id_pos) } else { ((-1) as int) })
            && (*details).contract.con_id == i32_or_zero(t, symbol_pos + 17)
            && (*details).contract.symbol@ == text_at(t, symbol_pos)
            && (*details).contract.sec_type@ == text_at(t, symbol_pos + 1)
            && (*details).contract.last_trade_date_or_contract_month@ == text_at(t, symbol_pos + 4)
            && (*details).contract.last_trade_date@ == Seq::<char>::empty()
            && (*details).contract.strike.text@ == unset_double_text()
            && (*details).contract.right@ == Seq::<char>::empty()
            && (*details).contract.multiplier@ == Seq::<char>::empty()
            && (*details).contract.exchange@ == text_at(t, symbol_pos + 13)
            && (*details).contract.primary_exchange@ == Seq::<char>::empty()
            && (*details).contract.currency@ == text_at(t, symbol_pos + 14)
            && (*details).contract.local_symbol@ == Seq::<char>::empty()
            && (*details).contract.trading_class@ == text_at(t, symbol_pos + 16)
            && (*details).contract.include_expired == false
            && (*details).contract.sec_id_type@ == Seq::<char>::empty()
            && (*details).contract.sec_id@ == Seq::<char>::empty()
            && (*details).contract.description@ == Seq::<char>::empty()
            && (*details).contract.issuer_id@ == Seq::<char>::empty()
            && (*details).contract.combo_legs_description@ == Seq::<char>::empty()
            && (*details).contract.combo_legs@.len() == 0
            && (*details).contract.delta_neutral_contract is None
            && (*details).market_name@ == text_at(t, symbol_pos + 15)
            && (*details).min_tick.text@ == text_at(t, symbol_pos + 18)
            && (*details).order_types@ == text_at(t, symbol_pos + 19)
            && (*details).valid_exchanges@ == text_at(t, symbol_pos + 20)
            && (*details).price_magnifier == 0
            && (*details).under_con_id == 0
            && (*details).long_name@ == (if cond_5 { text_at(t, symbol_pos + 25) } else { Seq::<char>::empty() })
            && (*details).contract_month@ == Seq::<char>::empty()
            && (*details).industry@ == Seq::<char>::empty()
            && (*details).category@ == Seq::<char>::empty()
            && (*details).subcategory@ == Seq::<char>::empty()
            && (*details).time_zone_id@ == (if has_time_zone_id { text_at(t, time_zone_id_pos) } else { Seq::<char>::empty() })
            && (*details).trading_hours@ == (if has_time_zone_id { text_at(t, time_zone_id_pos + 1) } else { Seq::<char>::empty() })
            && (*details).liquid_hours@ == (if has_time_zone_id { text_at(t, time_zone_id_pos + 2) } else { Seq::<char>::empty() })
            && (*details).market_rule_ids@ == (if has_market_rule_ids { text_at(t, market_rule_ids_pos) } else { Seq::<char>::empty() })
            && (*details).cusip@ == text_at(t, symbol_pos + 2)
            && (*details).issue_date@ == text_at(t, symbol_pos + 5)
            && (*details).ratings@ == text_at(t, symbol_pos + 6)
            && (*details).bond_type@ == text_at(t, symbol_pos + 7)
            && (*details).coupon.text@ == text_at(t, symbol_pos + 3)
            && (*details).coupon_type@ == text_at(t, symbol_pos + 8)
            && (*details).convertible == bool_at(t, symbol_pos + 9)
            && (*details).callable == bool_at(t, symbol_pos + 10)
            && (*details).puttable == bool_at(t, symbol_pos + 11)
            && (*details).desc_append@ == text_at(t, symbol_pos + 12)
            && (*details).next_option_date@ == text_at(t, symbol_pos + 21)
            && (*details).next_option_type@ == text_at(t, symbol_pos + 22)
            && (*details).next_option_partial == bool_at(t, symbol_pos + 23)
            && (*details).bond_notes@ == text_at(t, symbol_pos + 24)
            && (*details).real_expiration_date@ == Seq::<char>::empty()
            && (*details).stock_type@ == Seq::<char>::empty()
            && (*details).min_size.text@ == "0"@
            && (*details).size_increment.text@ == "0"@
            && (*details).suggested_size_increment.text@ == "0"@
            && (*details).fund_name@ == Seq::<char>::empty()
            && (*details).fund_family@ == Seq::<char>::empty()
            && (*details).fund_type@ == Seq::<char>::empty()
            && (*details).fund_front_load@ == Seq::<char>::empty()
            && (*details).fund_back_load@ == Seq::<char>::empty()
            && (*details).fund_back_load_time_interval@ == Seq::<char>::empty()
            && (*details).fund_management_fee@ == Seq::<char>::empty()
            && (*details).fund_closed == false
            && (*details).fund_closed_for_new_investors == false
            && (*details).fund_closed_for_new_money == false
            && (*details).fund_notify_amount@ == Seq::<char>::empty()
            && (*details).fund_minimum_initial_purchase@ == Seq::<char>::empty()
            && (*details).fund_minimum_subsequent_purchase@ == Seq::<char>::empty()
            && (*details).fund_blue_sky_states@ == Seq::<char>::empty()
            && (*details).fund_blue_sky_territories@ == Seq::<char>::empty()
            && (*details).fund_distribution_policy_indicator@ == Seq::<char>::empty()
            && (*details).fund_asset_type@ == Seq::<char>::empty()
            && (*details).ineligibility_reason_list@.len() == 0
            && (*details).event_contract1@ == Seq::<char>::empty()
            && (*details).event_contract_description1@ == Seq::<char>::empty()
            && (*details).event_contract_description2@ == Seq::<char>::empty()
            && (*details).min_algo_size.text@ == "0"@
            && (*details).last_price_precision.text@ == "0"@
            && (*details).last_size_precision.text@ == "0"@
    } else {
        r matches Err(e) && ((cond_1 && !(i32_at(t, 0int) is Ok) && (i32_at(t, 0int) matches Err(k) && int_error(e, t, 0int, k)))
            || (has_req_id && (cond_1 ==> i32_at(t, 0int) is Ok) && !(i32_at(t, req_id_pos) is Ok) && (i32_at(t, req_id_pos) matches Err(k) && int_error(e, t, req_id_pos, k)))
            || ((cond_1 ==> i32_at(t, 0int) is Ok) && (has_req_id ==> i32_at(t, req_id_pos) is Ok) && !(i32_at(t, symbol_pos + 17) is Ok) && (i32_at(t, symbol_pos + 17) matches Err(k) && int_error(e, t, symbol_pos + 17, k))))
    }
}

/// Decodes bond contract details; a version field in front when the second field is an integer.
#[verifier::spinoff_prover]
#[verifier::rlimit(60)]
pub fn decode_bond_contract_data_fields(fields: &[String]) -> (r: Result<Event, TwsApiError>)
    ensures
        bond_contract_data_decoded(text_views(fields@), r),
{
    let mut reader = FieldReader::new(fields);
    let ghost t = text_views(fields@);
    let ghost cond_1: bool = ((i32_at(t, 0int + 1) is Ok));
    let ghost req_id_pos: int = if cond_1 { 1int } else { 0int };
    let ghost has_req_id: bool = ((if cond_1 { i32_or_zero(t, 0int) } else { ((6) as int) })) >= 3;
    let ghost symbol_pos: int = if has_req_id { req_id_pos + 1 } else { req_id_pos };
    let ghost cond_5: bool = ((if cond_1 { i32_or_zero(t, 0int) } else { ((6) as int) })) >= 4 && (symbol_pos + 25) < t.len();
    let ghost time_zone_id_pos: int = if cond_5 { symbol_pos + 26 } else { symbol_pos + 25 };
    let ghost has_time_zone_id: bool = t.len() - (time_zone_id_pos) > 2;
    let ghost pos_8: int = if has_time_zone_id { time_zone_id_pos + 3 } else { time_zone_id_pos };
    let ghost cond_9: bool = ((if cond_1 { i32_or_zero(t, 0int) } else { ((6) as int) })) >= 6 && t.len() - (pos_8) > 1;
    let ghost pos_10: int = if cond_9 { pos_8 + 2 } else { pos_8 };
    let ghost cond_11: bool = ((if cond_1 { i32_or_zero(t, 0int) } else { ((6) as int) })) >= 5 && (pos_10) < t.len();
    let ghost count_12: int = max_zero((i32_or_zero(t, pos_10)));
    let ghost pos_13: int = if cond_11 { (pos_10 + 1 + count_12 * 2) } else { pos_10 };
    let ghost cond_14: bool = (pos_13) < t.len();
    let ghost market_rule_ids_pos: int = if cond_14 { pos_13 + 1 } else { pos_13 };
    let ghost has_market_rule_ids: bool = (market_rule_ids_pos) < t.len();
    let ghost pos_17: int = if has_market_rule_ids { market_rule_ids_pos + 1 } else { market_rule_ids_pos };
    let mut details_contract_symbol: String = String::new();
    let mut details_contract_sec_type: String = String::new();
    let mut details_cusip: String = String::new();
    let mut details_coupon: Double = Double::zero();
    let mut details_contract_last_trade_date_or_contract_month: String = String::new();
    let mut details_issue_date: String = String::new();
    let mut details_ratings: String = String::new();
    let mut details_bond_type: String = String::new();
    let mut details_coupon_type: String = String::new();
    let mut details_convertible: bool = false;
    let mut details_callable: bool = false;
    let mut details_puttable: bool = false;
    let mut details_desc_append: String = String::new();
    let mut details_contract_exchange: String = String::new();
    let mut details_contract_currency: String = String::new();
    let mut details_market_name: String = String::new();
    let mut details_contract_trading_class: String = String::new();
    let mut details_contract_con_id: i32 = 0;
    let mut details_min_tick: Double = Double::zero();
    let mut details_order_types: String = String::new();
    let mut details_valid_exchanges: String = String::new();
    let mut details_next_option_date: String = String::new();
    let mut details_next_option_type: String = String::new();
    let mut details_next_option_partial: bool = false;
    let mut details_bond_notes: String = String::new();
    let mut details_long_name: String = String::new();
    let mut details_time_zone_id: String = String::new();
    let mut details_trading_hours: String = String::new();
    let mut details_liquid_hours: String = String::new();
    let mut details_market_rule_ids: String = String::new();
    let has_version = match reader.peek(1) {
        Some(s) => parse_i32(Some(s)).is_ok(),
        None => false,
    };
    let mut version: i32 = 0;
    if has_version {
        version = match reader.next_i32() {
            Ok(v) => v,
            Err(e) => return Err(e),
        };
    } else {
        version = 6;
    }
    proof {
        assert(reader.position() == req_id_pos);
    }
    let mut req_id: i32 = 0;
    if version >= 3 {
        req_id = match reader.next_i32() {
            Ok(v) => v,
            Err(e) => return Err(e),
        };
    } else {
        req_id = -1;
    }
    proof {
        assert(reader.position() == symbol_pos);
    }
    details_contract_symbol = reader.next_string();
    details_contract_sec_type = reader.next_string();
    details_cusip = reader.next_string();
    details_coupon = reader.next_double();
    details_contract_last_trade_date_or_contract_month = reader.next_string();
    details_issue_date = reader.next_string();
    details_ratings = reader.next_string();
    details_bond_type = reader.next_string();
    details_coupon_type = reader.next_string();
    details_convertible = reader.next_bool();
    details_callable = reader.next_bool();
    details_puttable = reader.next_bool();
    details_desc_append = reader.next_string();
    details_contract_exchange = reader.next_string();
    details_contract_currency = reader.next_string();
    details_market_name = reader.next_string();
    details_contract_trading_class = reader.next_string();
    details_contract_con_id = match reader.next_i32() {
        Ok(v) => v,
        Err(e) => return Err(e),
    };
    details_min_tick = reader.next_double();
    details_order_types = reader.next_string();
    details_valid_exchanges = reader.next_string();
    details_next_option_date = reader.next_string();
    details_next_option_type = reader.next_string();
    details_next_option_partial = reader.next_bool();
    details_bond_notes = reader.next_string();
    if version >= 4 && reader.has_more() {
        details_long_name = reader.next_string();
    }
    proof {
        assert(reader.position() == time_zone_id_pos);
    }
    if reader.remaining() > 2 {
        details_time_zone_id = reader.next_string();
        details_trading_hours = reader.next_string();
        details_liquid_hours = reader.next_string();
    }
    proof {
        assert(reader.position() == pos_8);
    }
    if version >= 6 && reader.remaining() > 1 {
        let _ = reader.next_string();
        let _ = reader.next_double();
    }
    proof {
        assert(reader.position() == pos_10);
    }
    let mut sec_id_count: i32 = 0;
    if version >= 5 && reader.has_more() {
        sec_id_count = reader.next_i32_or_default();
        skip_groups(&mut reader, sec_id_count, 2);
    }
    proof {
        assert(reader.position() == pos_13);
    }
    if reader.has_more() {
        let _ = reader.next_i32_or_default();
    }
    proof {
        assert(reader.position() == market_rule_ids_pos);
    }
    if reader.has_more() {
        details_market_rule_ids = reader.next_string();
    }
    proof {
        assert(reader.position() == pos_17);
    }
    let details = ContractDetails { contract: Contract { con_id: details_contract_con_id, symbol: details_contract_symbol, sec_type: details_contract_sec_type, last_trade_date_or_contract_month: details_contract_last_trade_date_or_contract_month, last_trade_date: String::new(), strike: Double::unset(), right: String::new(), multiplier: String::new(), exchange: details_contract_exchange, primary_exchange: String::new(), currency: details_contract_currency, local_symbol: String::new(), trading_class: details_contract_trading_class, include_expired: false, sec_id_type: String::new(), sec_id: String::new(), description: String::new(), issuer_id: String::new(), combo_legs_description: String::new(), combo_legs: Vec::new(), delta_neutral_contract: None }, market_name: details_market_name, min_tick: details_min_tick, order_types: details_order_types, valid_exchanges: details_valid_exchanges, price_magnifier: 0, under_con_id: 0, long_name: details_long_name, contract_month: String::new(), industry: String::new(), category: String::new(), subcategory: String::new(), time_zone_id: details_time_zone_id, trading_hours: details_trading_hours, liquid_hours: details_liquid_hours, market_rule_ids: details_market_rule_ids, cusip: details_cusip, issue_date: details_issue_date, ratings: details_ratings, bond_type: details_bond_type, coupon: details_coupon, coupon_type: details_coupon_type, convertible: details_convertible, callable: details_callable, puttable: details_puttable, desc_append: details_desc_append, next_option_date: details_next_option_date, next_option_type: details_next_option_type, next_option_partial: details_next_option_partial, bond_notes: details_bond_notes, real_expiration_date: String::new(), stock_type: String::new(), min_size: DecimalText::zero(), size_increment: DecimalText::zero(), suggested_size_increment: DecimalText::zero(), fund_name: String::new(), fund_family: String::new(), fund_type: String::new(), fund_front_load: String::new(), fund_back_load: String::new(), fund_back_load_time_interval: String::new(), fund_management_fee: String::new(), fund_closed: false, fund_closed_for_new_investors: false, fund_closed_for_new_money: false, fund_notify_amount: String::new(), fund_minimum_initial_purchase: String::new(), fund_minimum_subsequent_purchase: String::new(), fund_blue_sky_states: String::new(), fund_blue_sky_territories: String::new(), fund_distribution_policy_indicator: String::new(), fund_asset_type: String::new(), ineligibility_reason_list: Vec::new(), event_contract1: String::new(), event_contract_description1: String::new(), event_contract_description2: String::new(), min_algo_size: DecimalText::zero(), last_price_precision: DecimalText::zero(), last_size_precision: DecimalText::zero() };

    Ok(Event::BondContractDetails { req_id, details: Box::new(details) })
}

/// What decoding historical bars gives, field by field; `t` holds the texts of the fields.
/// The request id is left out when the field after the first is a count that the bars fill exactly.
pub open spec fn historical_data_decoded(t: Seq<Seq<char>>, r: Result<Event, TwsApiError>) -> bool {
    let cond_1: bool = (bars_follow_at(t, (1int)));
    let pos_2: int = if cond_1 { 1int } else { 1int + 1 };
    let bar_count: int = max_zero((i32_or_zero(t, pos_2)));
    let bars_start: int = pos_2 + 1;
    if i32_at(t, 0int) is Ok
        && (!cond_1 ==> i32_at(t, 1int) is Ok)
        && i32_at(t, pos_2) is Ok
        && bar_list_ok(t, bars_start, bar_count) {
        r matches Ok(Event::HistoricalDataBars { req_id, bars })
            && req_id == (if cond_1 { (((i32_or_zero(t, 0int))) as int) } else { i32_or_zero(t, 1int) })
            && bar_list_out(t, bars_start, bar_count, bars@)
    } else {
        r matches Err(e) && ((!(i32_at(t, 0int) is Ok) && (i32_at(t, 0int) matches Err(k) && int_error(e, t, 0int, k)))
            || (!cond_1 && i32_at(t, 0int) is Ok && !(i32_at(t, 1int) is Ok) && (i32_at(t, 1int) matches Err(k) && int_error(e, t, 1int, k)))
            || (i32_at(t, 0int) is Ok && (!cond_1 ==> i32_at(t, 1int) is Ok) && !(i32_at(t, pos_2) is Ok) && (i32_at(t, pos_2) matches Err(k) && int_error(e, t, pos_2, k)))
            || (i32_at(t, 0int) is Ok && (!cond_1 ==> i32_at(t, 1int) is Ok) && i32_at(t, pos_2) is Ok && !bar_list_ok(t, bars_start, bar_count) && bar_list_err(t, bars_start, bar_count, e)))
    }
}

/// Decodes historical bars; the request id is left out when the field after the first is a count that the bars fill exactly.
#[verifier::spinoff_prover]
#[verifier::rlimit(30)]
pub fn decode_historical_data_fields(fields: &[String]) -> (r: Result<Event, TwsApiError>)
    ensures
        historical_data_decoded(text_views(fields@), r),
{
    let mut reader = FieldReader::new(fields);
    let ghost t = text_views(fields@);
    let ghost cond_1: bool = (bars_follow_at(t, (1int)));
    let ghost pos_2: int = if cond_1 { 1int } else { 1int + 1 };
    let ghost count_3: int = max_zero((i32_or_zero(t, pos_2)));
    let ghost bars_start: int = pos_2 + 1;

    let first: i32 = match reader.next_i32() {
        Ok(v) => v,
        Err(e) => return Err(e),
    };
    let bars_follow: bool = bars_follow(&reader);
    let mut req_id: i32 = 0;
    if bars_follow {
        req_id = first;
    } else {
        req_id = match reader.next_i32() {
            Ok(v) => v,
            Err(e) => return Err(e),
        };
    }
    proof {
        assert(reader.position() == pos_2);
    }
    let bar_count: i32 = match reader.next_i32() {
        Ok(v) => v,
        Err(e) => return Err(e),
    };
    proof {
        assert(reader.position() == pos_2 + 1);
    }
    let bars = match read_bar_list(&mut reader, bar_count) {
        Ok(v) => v,
        Err(e) => return Err(e),
    };


    Ok(Event::HistoricalDataBars { req_id, bars })
}

/// What decoding a historical-data update gives, field by field; `t` holds the texts of the fields.
pub open spec fn historical_data_update_decoded(t: Seq<Seq<char>>, r: Result<Event, TwsApiError>) -> bool {
    if i32_at(t, 0int) is Ok
        && i32_at(t, 1int) is Ok
        && decimal_at(t, 7int) is Some
        && decimal_at(t, 8int) is Some {
        r matches Ok(Event::HistoricalDataUpdate { req_id, bar })
            && req_id == i32_or_zero(t, 0int)
            && bar.date@ == text_at(t, 2int)
            && bar.open.text@ == text_at(t, 3int)
            && bar.high.text@ == text_at(t, 5int)
            && bar.low.text@ == text_at(t, 6int)
            && bar.close.text@ == text_at(t, 4int)
            && bar.volume.text@ == decimal_or_zero(t, 8int)
            && bar.wap.text@ == decimal_or_zero(t, 7int)
            && bar.bar_count == (((i32_or_zero(t, 1int))) as int)
    } else {
        r matches Err(e) && ((!(i32_at(t, 0int) is Ok) && (i32_at(t, 0int) matches Err(k) && int_error(e, t, 0int, k)))
            || (i32_at(t, 0int) is Ok && !(i32_at(t, 1int) is Ok) && (i32_at(t, 1int) matches Err(k) && int_error(e, t, 1int, k)))
            || (i32_at(t, 0int) is Ok && i32_at(t, 1int) is Ok && !(decimal_at(t, 7int) is Some) && decimal_error(e, t, 7int))
            || (i32_at(t, 0int) is Ok && i32_at(t, 1int) is Ok && decimal_at(t, 7int) is Some && !(decimal_at(t, 8int) is Some) && decimal_error(e, t, 8int)))
    }
}

/// Decodes a historical-data update.
pub fn decode_historical_data_update_fields(fields: &[String]) -> (r: Result<Event, TwsApiError>)
    ensures
        historical_data_update_decoded(text_views(fields@), r),
{
    let mut reader = FieldReader::new(fields);
    let ghost t = text_views(fields@);
    let mut bar_date: String = String::new();
    let mut bar_open: Double = Double::zero();
    let mut bar_close: Double = Double::zero();
    let mut bar_high: Double = Double::zero();
    let mut bar_low: Double = Double::zero();
    let mut bar_wap: DecimalText = DecimalText::zero();
    let mut bar_volume: DecimalText = DecimalText::zero();
    let mut bar_bar_count: i32 = 0;
    let req_id: i32 = match reader.next_i32() {
        Ok(v) => v,
        Err(e) => return Err(e),
    };
    let bar_count: i32 = match reader.next_i32() {
        Ok(v) => v,
        Err(e) => return Err(e),
    };
    bar_date = reader.next_string();
    bar_open = reader.next_double();
    bar_close = reader.next_double();
    bar_high = reader.next_double();
    bar_low = reader.next_double();
    bar_wap = match reader.next_decimal() {
        Ok(v) => v,
        Err(e) => return Err(e),
    };
    bar_volume = match reader.next_decimal() {
        Ok(v) => v,
        Err(e) => return Err(e),
    };
    bar_bar_count = bar_count;
    let bar = BarData { date: bar_date, open: bar_open, high: bar_high, low: bar_low, close: bar_close, volume: bar_volume, wap: bar_wap, bar_count: bar_bar_count };

    Ok(Event::HistoricalDataUpdate { req_id, bar })
}

/// What decoding historical ticks gives, field by field; `t` holds the texts of the fields.
pub open spec fn historical_ticks_decoded(t: Seq<Seq<char>>, r: Result<Event, TwsApiError>) -> bool {
    let tick_count: int = max_zero((i32_or_zero(t, 1int)));
    let ticks_start: int = 2int;
    if i32_at(t, 0int) is Ok
        && i32_at(t, 1int) is Ok
        && tick_list_ok(t, ticks_start, tick_count) {
        r matches Ok(Event::HistoricalTicks { req_id, ticks, done })
            && req_id == i32_or_zero(t, 0int)
            && tick_list_out(t, ticks_start, tick_count, ticks@)
            && done == bool_at(t, (ticks_start + tick_count * 4))
    } else {
        r matches Err(e) && ((!(i32_at(t, 0int) is Ok) && (i32_at(t, 0int) matches Err(k) && int_error(e, t, 0int, k)))
            || (i32_at(t, 0int) is Ok && !(i32_at(t, 1int) is Ok) && (i32_at(t, 1int) matches Err(k) && int_error(e, t, 1int, k)))
            || (i32_at(t, 0int) is Ok && i32_at(t, 1int) is Ok && !tick_list_ok(t, ticks_start, tick_count) && tick_list_err(t, ticks_start, tick_count, e)))
    }
}

/// Decodes historical ticks.
pub fn decode_historical_ticks_fields(fields: &[String]) -> (r: Result<Event, TwsApiError>)
    ensures
        historical_ticks_decoded(text_views(fields@), r),
{
    let mut reader = FieldReader::new(fields);
    let ghost t = text_views(fields@);
    let ghost tick_count: int = max_zero((i32_or_zero(t, 1int)));
    let ghost ticks_start: int = 2int;

    let req_id: i32 = match reader.next_i32() {
        Ok(v) => v,
        Err(e) => return Err(e),
    };
    let count: i32 = match reader.next_i32() {
        Ok(v) => v,
        Err(e) => return Err(e),
    };
    proof {
        assert(reader.position() == 2int);
    }
    let ticks = match read_tick_list(&mut reader, count) {
        Ok(v) => v,
        Err(e) => return Err(e),
    };
    let done: bool = reader.next_bool();


    Ok(Event::HistoricalTicks { req_id, ticks, done })
}

/// What decoding historical ticks bid ask gives, field by field; `t` holds the texts of the fields.
pub open spec fn historical_ticks_bid_ask_decoded(t: Seq<Seq<char>>, r: Result<Event, TwsApiError>) -> bool {
    let tick_bid_ask_count: int = max_zero((i32_or_zero(t, 1int)));
    let tick_bid_asks_start: int = 2int;
    if i32_at(t, 0int) is Ok
        && i32_at(t, 1int) is Ok
        && tick_bid_ask_list_ok(t, tick_bid_asks_start, tick_bid_ask_count) {
        r matches Ok(Event::HistoricalTicksBidAsk { req_id, ticks, done })
            && req_id == i32_or_zero(t, 0int)
            && tick_bid_ask_list_out(t, tick_bid_asks_start, tick_bid_ask_count, ticks@)
            && done == bool_at(t, (tick_bid_asks_start + tick_bid_ask_count * 6))
    } else {
        r matches Err(e) && ((!(i32_at(t, 0int) is Ok) && (i32_at(t, 0int) matches Err(k) && int_error(e, t, 0int, k)))
            || (i32_at(t, 0int) is Ok && !(i32_at(t, 1int) is Ok) && (i32_at(t, 1int) matches Err(k) && int_error(e, t, 1int, k)))
            || (i32_at(t, 0int) is Ok && i32_at(t, 1int) is Ok && !tick_bid_ask_list_ok(t, tick_bid_asks_start, tick_bid_ask_count) && tick_bid_ask_list_err(t, tick_bid_asks_start, tick_bid_ask_count, e)))
    }
}

/// Decodes historical ticks bid ask.
pub fn decode_historical_ticks_bid_ask_fields(fields: &[String]) -> (r: Result<Event, TwsApiError>)
    ensures
        historical_ticks_bid_ask_decoded(text_views(fields@), r),
{
    let mut reader = FieldReader::new(fields);
    let ghost t = text_views(fields@);
    let ghost tick_bid_ask_count: int = max_zero((i32_or_zero(t, 1int)));
    let ghost tick_bid_asks_start: int = 2int;

    let req_id: i32 = match reader.next_i32() {
        Ok(v) => v,
        Err(e) => return Err(e),
    };
    let count: i32 = match reader.next_i32() {
        Ok(v) => v,
        Err(e) => return Err(e),
    };
    proof {
        assert(reader.position() == 2int);
    }
    let ticks = match read_tick_bid_ask_list(&mut reader, count) {
        Ok(v) => v,
        Err(e) => return Err(e),
    };
    let done: bool = reader.next_bool();


    Ok(Event::HistoricalTicksBidAsk { req_id, ticks, done })
}

/// What decoding historical ticks last gives, field by field; `t` holds the texts of the fields.
pub open spec fn historical_ticks_last_decoded(t: Seq<Seq<char>>, r: Result<Event, TwsApiError>) -> bool {
    let tick_last_count: int = max_zero((i32_or_zero(t, 1int)));
    let tick_lasts_start: int = 2int;
    if i32_at(t, 0int) is Ok
        && i32_at(t, 1int) is Ok
        && tick_last_list_ok(t, tick_lasts_start, tick_last_count) {
        r matches Ok(Event::HistoricalTicksLast { req_id, ticks, done })
            && req_id == i32_or_zero(t, 0int)
            && tick_last_list_out(t, tick_lasts_start, tick_last_count, ticks@)
            && done == bool_at(t, (tick_lasts_start + tick_last_count * 6))
    } else {
        r matches Err(e) && ((!(i32_at(t, 0int) is Ok) && (i32_at(t, 0int) matches Err(k) && int_error(e, t, 0int, k)))
            || (i32_at(t, 0int) is Ok && !(i32_at(t, 1int) is Ok) && (i32_at(t, 1int) matches Err(k) && int_error(e, t, 1int, k)))
            || (i32_at(t, 0int) is Ok && i32_at(t, 1int) is Ok && !tick_last_list_ok(t, tick_lasts_start, tick_last_count) && tick_last_list_err(t, tick_lasts_start, tick_last_count, e)))
    }
}

/// Decodes historical ticks last.
pub fn decode_historical_ticks_last_fields(fields: &[String]) -> (r: Result<Event, TwsApiError>)
    ensures
        historical_ticks_last_decoded(text_views(fields@), r),
{
    let mut reader = FieldReader::new(fields);
    let ghost t = text_views(fields@);
    let ghost tick_last_count: int = max_zero((i32_or_zero(t, 1int)));
    let ghost tick_lasts_start: int = 2int;

    let req_id: i32 = match reader.next_i32() {
        Ok(v) => v,
        Err(e) => return Err(e),
    };
    let count: i32 = match reader.next_i32() {
        Ok(v) => v,
        Err(e) => return Err(e),
    };
    proof {
        assert(reader.position() == 2int);
    }
    let ticks = match read_tick_last_list(&mut reader, count) {
        Ok(v) => v,
        Err(e) => return Err(e),
    };
    let done: bool = reader.next_bool();


    Ok(Event::HistoricalTicksLast { req_id, ticks, done })
}

/// What decoding a real-time bar gives, field by field; `t` holds the texts of the fields.
/// Its time is its date read as an integer, zero when it is not one.
pub open spec fn real_time_bar_decoded(t: Seq<Seq<char>>, r: Result<Event, TwsApiError>) -> bool {
    if i32_at(t, 1int) is Ok
        && decimal_at(t, 7int) is Some
        && decimal_at(t, 8int) is Some
        && i32_at(t, 9int) is Ok {
        r matches Ok(Event::RealTimeBar { req_id, time, bar })
            && req_id == i32_or_zero(t, 1int)
            && time == ((i64_text_or_zero((text_at(t, 2int)))) as int)
            && bar.date@ == text_at(t, 2int)
            && bar.open.text@ == text_at(t, 3int)
            && bar.high.text@ == text_at(t, 4int)
            && bar.low.text@ == text_at(t, 5int)
            && bar.close.text@ == text_at(t, 6int)
            && bar.volume.text@ == decimal_or_zero(t, 7int)
            && bar.wap.text@ == decimal_or_zero(t, 8int)
            && bar.bar_count == i32_or_zero(t, 9int)
    } else {
        r matches Err(e) && ((!(i32_at(t, 1int) is Ok) && (i32_at(t, 1int) matches Err(k) && int_error(e, t, 1int, k)))
            || (i32_at(t, 1int) is Ok && !(decimal_at(t, 7int) is Some) && decimal_error(e, t, 7int))
            || (i32_at(t, 1int) is Ok && decimal_at(t, 7int) is Some && !(decimal_at(t, 8int) is Some) && decimal_error(e, t, 8int))
            || (i32_at(t, 1int) is Ok && decimal_at(t, 7int) is Some && decimal_at(t, 8int) is Some && !(i32_at(t, 9int) is Ok) && (i32_at(t, 9int) matches Err(k) && int_error(e, t, 9int, k))))
    }
}

/// Decodes a real-time bar; its time is its date read as an integer, zero when it is not one.
pub fn decode_real_time_bar_fields(fields: &[String]) -> (r: Result<Event, TwsApiError>)
    ensures
        real_time_bar_decoded(text_views(fields@), r),
{
    let mut reader = FieldReader::new(fields);
    let ghost t = text_views(fields@);
    let mut bar_date: String = String::new();
    let mut bar_open: Double = Double::zero();
    let mut bar_high: Double = Double::zero();
    let mut bar_low: Double = Double::zero();
    let mut bar_close: Double = Double::zero();
    let mut bar_volume: DecimalText = DecimalText::zero();
    let mut bar_wap: DecimalText = DecimalText::zero();
    let mut bar_bar_count: i32 = 0;
    let _ = reader.next_string();
    let req_id: i32 = match reader.next_i32() {
        Ok(v) => v,
        Err(e) => return Err(e),
    };
    bar_date = reader.next_string();
    bar_open = reader.next_double();
    bar_high = reader.next_double();
    bar_low = reader.next_double();
    bar_close = reader.next_double();
    bar_volume = match reader.next_decimal() {
        Ok(v) => v,
        Err(e) => return Err(e),
    };
    bar_wap = match reader.next_decimal() {
        Ok(v) => v,
        Err(e) => return Err(e),
    };
    bar_bar_count = match reader.next_i32() {
        Ok(v) => v,
        Err(e) => return Err(e),
    };
    let time: i64 = i64_or_zero_of(&bar_date);
    let bar = BarData { date: bar_date, open: bar_open, high: bar_high, low: bar_low, close: bar_close, volume: bar_volume, wap: bar_wap, bar_count: bar_bar_count };

    Ok(Event::RealTimeBar { req_id, time, bar })
}

/// The position after the contract of a position message read at position `q`.
#[verifier::opaque]
pub open spec fn position_contract_end(t: Seq<Seq<char>>, q: int, include_trading_class: bool) -> int {
    let when_include_trading_class: bool = (include_trading_class);
    let pos_2: int = if when_include_trading_class { q + 11 } else { q + 10 };
    pos_2
}

/// What the contract of a position message read at position `q` holds, field by field.
#[verifier::opaque]
pub open spec fn position_contract_out(t: Seq<Seq<char>>, q: int, include_trading_class: bool, after: Contract) -> bool {
    let when_include_trading_class: bool = (include_trading_class);
    let pos_2: int = if when_include_trading_class { q + 11 } else { q + 10 };
    after.con_id == i32_or_zero(t, q)
            && after.symbol@ == text_at(t, q + 1)
            && after.sec_type@ == text_at(t, q + 2)
            && after.last_trade_date_or_contract_month@ == text_at(t, q + 3)
            && after.last_trade_date@ == Seq::<char>::empty()
            && after.strike.text@ == text_at(t, q + 4)
            && after.right@ == text_at(t, q + 5)
            && after.multiplier@ == text_at(t, q + 6)
            && after.exchange@ == text_at(t, q + 7)
            && after.primary_exchange@ == Seq::<char>::empty()
            && after.currency@ == text_at(t, q + 8)
            && after.local_symbol@ == text_at(t, q + 9)
            && after.trading_class@ == (if when_include_trading_class { text_at(t, q + 10) } else { Seq::<char>::empty() })
            && after.include_expired == false
            && after.sec_id_type@ == Seq::<char>::empty()
            && after.sec_id@ == Seq::<char>::empty()
            && after.description@ == Seq::<char>::empty()
            && after.issuer_id@ == Seq::<char>::empty()
            && after.combo_legs_description@ == Seq::<char>::empty()
            && after.combo_legs@.len() == 0
            && after.delta_neutral_contract is None
}

/// True when every field of the contract of a position message at position `q` can be read.
#[verifier::opaque]
pub open spec fn position_contract_ok(t: Seq<Seq<char>>, q: int, include_trading_class: bool) -> bool {
    let when_include_trading_class: bool = (include_trading_class);
    let pos_2: int = if when_include_trading_class { q + 11 } else { q + 10 };
    i32_at(t, q) is Ok
}

/// The error reading the contract of a position message at position `q` gives: that of its first field that cannot be read.
#[verifier::opaque]
pub open spec fn position_contract_err(t: Seq<Seq<char>>, q: int, include_trading_class: bool, e: TwsApiError) -> bool {
    let when_include_trading_class: bool = (include_trading_class);
    let pos_2: int = if when_include_trading_class { q + 11 } else { q + 10 };
    (!(i32_at(t, q) is Ok) && (i32_at(t, q) matches Err(k) && int_error(e, t, q, k)))
}

/// What reading the contract of a position message at position `q` gives: the value and the position `end` after it when
/// every field can be read, else the error of the first that cannot.
pub open spec fn position_contract_read(t: Seq<Seq<char>>, q: int, include_trading_class: bool, r: Result<Contract, TwsApiError>, end: int) -> bool {
    if position_contract_ok(t, q, include_trading_class) {
        r matches Ok(after) && end == position_contract_end(t, q, include_trading_class) && position_contract_out(t, q, include_trading_class, after)
    } else {
        r matches Err(e) && position_contract_err(t, q, include_trading_class, e)
    }
}

/// Reads the contract of a position message.
fn read_position_contract(reader: &mut FieldReader, include_trading_class: bool) -> (r: Result<Contract, TwsApiError>)
    requires
        old(reader).wf(),
    ensures
        final(reader).wf(),
        final(reader).texts() == old(reader).texts(),
        position_contract_read(old(reader).texts(), old(reader).position(), include_trading_class, r, final(reader).position()),
{
    proof {
        reveal(position_contract_end);
        reveal(position_contract_out);
        reveal(position_contract_ok);
        reveal(position_contract_err);
    }
    let ghost t = reader.texts();
    let ghost q = reader.position();
    let ghost when_include_trading_class: bool = (include_trading_class);
    let ghost pos_2: int = if when_include_trading_class { q + 11 } else { q + 10 };
    let mut contract_con_id: i32 = 0;
    let mut contract_symbol: String = String::new();
    let mut contract_sec_type: String = String::new();
    let mut contract_last_trade_date_or_contract_month: String = String::new();
    let mut contract_strike: Double = Double::unset();
    let mut contract_right: String = String::new();
    let mut contract_multiplier: String = String::new();
    let mut contract_exchange: String = String::new();
    let mut contract_currency: String = String::new();
    let mut contract_local_symbol: String = String::new();
    let mut contract_trading_class: String = String::new();
    contract_con_id = match reader.next_i32() {
        Ok(v) => v,
        Err(e) => return Err(e),
    };
    contract_symbol = reader.next_string();
    contract_sec_type = reader.next_string();
    contract_last_trade_date_or_contract_month = reader.next_string();
    contract_strike = reader.next_double();
    contract_right = reader.next_string();
    contract_multiplier = reader.next_string();
    contract_exchange = reader.next_string();
    contract_currency = reader.next_string();
    contract_local_symbol = reader.next_string();
    if include_trading_class {
        contract_trading_class = reader.next_string();
    }
    proof {
        assert(reader.position() == pos_2);
    }
    let contract = Contract { con_id: contract_con_id, symbol: contract_symbol, sec_type: contract_sec_type, last_trade_date_or_contract_month: contract_last_trade_date_or_contract_month, last_trade_date: String::new(), strike: contract_strike, right: contract_right, multiplier: contract_multiplier, exchange: contract_exchange, primary_exchange: String::new(), currency: contract_currency, local_symbol: contract_local_symbol, trading_class: contract_trading_class, include_expired: false, sec_id_type: String::new(), sec_id: String::new(), description: String::new(), issuer_id: String::new(), combo_legs_description: String::new(), combo_legs: Vec::new(), delta_neutral_contract: None };

    Ok(contract)
}

/// What decoding a position message gives, field by field; `t` holds the texts of the fields.
pub open spec fn position_decoded(t: Seq<Seq<char>>, r: Result<Event, TwsApiError>) -> bool {
    let cond_1: bool = ((i32_or_zero(t, 0int)) >= 2);
    let position_pos: int = if cond_1 { 2int + 11 } else { 2int + 10 };
    let cond_3: bool = (i32_or_zero(t, 0int)) >= 3;
    let pos_4: int = if cond_3 { position_pos + 2 } else { position_pos + 1 };
    if i32_at(t, 0int) is Ok
        && i32_at(t, 2int) is Ok
        && decimal_at(t, position_pos) is Some {
        r matches Ok(Event::Position { account, contract, position, avg_cost })
            && account@ == text_at(t, 1int)
            && (*contract).con_id == i32_or_zero(t, 2int)
            && (*contract).symbol@ == text_at(t, 2int + 1)
            && (*contract).sec_type@ == text_at(t, 2int + 2)
            && (*contract).last_trade_date_or_contract_month@ == text_at(t, 2int + 3)
            && (*contract).last_trade_date@ == Seq::<char>::empty()
            && (*contract).strike.text@ == text_at(t, 2int + 4)
            && (*contract).right@ == text_at(t, 2int + 5)
            && (*contract).multiplier@ == text_at(t, 2int + 6)
            && (*contract).exchange@ == text_at(t, 2int + 7)
            && (*contract).primary_exchange@ == Seq::<char>::empty()
            && (*contract).currency@ == text_at(t, 2int + 8)
            && (*contract).local_symbol@ == text_at(t, 2int + 9)
            && (*contract).trading_class@ == (if cond_1 { text_at(t, 2int + 10) } else { Seq::<char>::empty() })
            && (*contract).include_expired == false
            && (*contract).sec_id_type@ == Seq::<char>::empty()
            && (*contract).sec_id@ == Seq::<char>::empty()
            && (*contract).description@ == Seq::<char>::empty()
            && (*contract).issuer_id@ == Seq::<char>::empty()
            && (*contract).combo_legs_description@ == Seq::<char>::empty()
            && (*contract).combo_legs@.len() == 0
            && (*contract).delta_neutral_contract is None
            && position.text@ == decimal_or_zero(t, position_pos)
            && avg_cost.text@ == (if cond_3 { text_at(t, position_pos + 1) } else { "0"@ })
    } else {
        r matches Err(e) && ((!(i32_at(t, 0int) is Ok) && (i32_at(t, 0int) matches Err(k) && int_error(e, t, 0int, k)))
            || (i32_at(t, 0int) is Ok && !(i32_at(t, 2int) is Ok) && (i32_at(t, 2int) matches Err(k) && int_error(e, t, 2int, k)))
            || (i32_at(t, 0int) is Ok && i32_at(t, 2int) is Ok && !(decimal_at(t, position_pos) is Some) && decimal_error(e, t, position_pos)))
    }
}

/// Decodes a position message.
pub fn decode_position_fields(fields: &[String]) -> (r: Result<Event, TwsApiError>)
    ensures
        position_decoded(text_views(fields@), r),
{
    let mut reader = FieldReader::new(fields);
    let ghost t = text_views(fields@);
    let ghost cond_1: bool = ((i32_or_zero(t, 0int)) >= 2);
    let ghost position_pos: int = if cond_1 { 2int + 11 } else { 2int + 10 };
    let ghost cond_3: bool = (i32_or_zero(t, 0int)) >= 3;
    let ghost pos_4: int = if cond_3 { position_pos + 2 } else { position_pos + 1 };

    let version: i32 = match reader.next_i32() {
        Ok(v) => v,
        Err(e) => return Err(e),
    };
    let account: String = reader.next_string();
    proof {
        assert(reader.position() == 2int);
    }
    proof {
        reveal(position_contract_end);
        reveal(position_contract_out);
        reveal(position_contract_ok);
        reveal(position_contract_err);
    }
    let mut contract = match read_position_contract(&mut reader, version >= 2) {
        Ok(v) => v,
        Err(e) => return Err(e),
    };
    let position: DecimalText = match reader.next_decimal() {
        Ok(v) => v,
        Err(e) => return Err(e),
    };
    let mut avg_cost: Double = Double::zero();
    if version >= 3 {
        avg_cost = reader.next_double();
    } else {
        avg_cost = Double::zero();
    }
    proof {
        assert(reader.position() == pos_4);
    }


    Ok(Event::Position { account, contract: Box::new(contract), position, avg_cost })
}

/// What decoding a position-multi message gives, field by field; `t` holds the texts of the fields.
pub open spec fn position_multi_decoded(t: Seq<Seq<char>>, r: Result<Event, TwsApiError>) -> bool {
    let when_true: bool = (true);
    let position_pos: int = if when_true { 3int + 11 } else { 3int + 10 };
    if i32_at(t, 1int) is Ok
        && i32_at(t, 3int) is Ok
        && decimal_at(t, position_pos) is Some {
        r matches Ok(Event::PositionMulti { req_id, account, model_code, contract, position, avg_cost })
            && req_id == i32_or_zero(t, 1int)
            && account@ == text_at(t, 2int)
            && model_code@ == text_at(t, position_pos + 2)
            && (*contract).con_id == i32_or_zero(t, 3int)
            && (*contract).symbol@ == text_at(t, 3int + 1)
            && (*contract).sec_type@ == text_at(t, 3int + 2)
            && (*contract).last_trade_date_or_contract_month@ == text_at(t, 3int + 3)
            && (*contract).last_trade_date@ == Seq::<char>::empty()
            && (*contract).strike.text@ == text_at(t, 3int + 4)
            && (*contract).right@ == text_at(t, 3int + 5)
            && (*contract).multiplier@ == text_at(t, 3int + 6)
            && (*contract).exchange@ == text_at(t, 3int + 7)
            && (*contract).primary_exchange@ == Seq::<char>::empty()
            && (*contract).currency@ == text_at(t, 3int + 8)
            && (*contract).local_symbol@ == text_at(t, 3int + 9)
            && (*contract).trading_class@ == (if when_true { text_at(t, 3int + 10) } else { Seq::<char>::empty() })
            && (*contract).include_expired == false
            && (*contract).sec_id_type@ == Seq::<char>::empty()
            && (*contract).sec_id@ == Seq::<char>::empty()
            && (*contract).description@ == Seq::<char>::empty()
            && (*contract).issuer_id@ == Seq::<char>::empty()
            && (*contract).combo_legs_description@ == Seq::<char>::empty()
            && (*contract).combo_legs@.len() == 0
            && (*contract).delta_neutral_contract is None
            && position.text@ == decimal_or_zero(t, position_pos)
            && avg_cost.text@ == text_at(t, position_pos + 1)
    } else {
        r matches Err(e) && ((!(i32_at(t, 1int) is Ok) && (i32_at(t, 1int) matches Err(k) && int_error(e, t, 1int, k)))
            || (i32_at(t, 1int) is Ok && !(i32_at(t, 3int) is Ok) && (i32_at(t, 3int) matches Err(k) && int_error(e, t, 3int, k)))
            || (i32_at(t, 1int) is Ok && i32_at(t, 3int) is Ok && !(decimal_at(t, position_pos) is Some) && decimal_error(e, t, position_pos)))
    }
}

/// Decodes a position-multi message.
pub fn decode_position_multi_fields(fields: &[String]) -> (r: Result<Event, TwsApiError>)
    ensures
        position_multi_decoded(text_views(fields@), r),
{
    let mut reader = FieldReader::new(fields);
    let ghost t = text_views(fields@);
    let ghost when_true: bool = (true);
    let ghost position_pos: int = if when_true { 3int + 11 } else { 3int + 10 };

    let _ = reader.next_string();
    let req_id: i32 = match reader.next_i32() {
        Ok(v) => v,
        Err(e) => return Err(e),
    };
    let account: String = reader.next_string();
    proof {
        assert(reader.position() == 3int);
    }
    proof {
        reveal(position_contract_end);
        reveal(position_contract_out);
        reveal(position_contract_ok);
        reveal(position_contract_err);
    }
    let mut contract = match read_position_contract(&mut reader, true) {
        Ok(v) => v,
        Err(e) => return Err(e),
    };
    let position: DecimalText = match reader.next_decimal() {
        Ok(v) => v,
        Err(e) => return Err(e),
    };
    let avg_cost: Double = reader.next_double();
    let model_code: String = reader.next_string();


    Ok(Event::PositionMulti { req_id, account, model_code, contract: Box::new(contract), position, avg_cost })
}

/// What decoding option parameters of a security definition gives, field by field; `t` holds the texts of the fields.
pub open spec fn security_definition_option_parameter_decoded(t: Seq<Seq<char>>, r: Result<Event, TwsApiError>) -> bool {
    let text_count: int = max_zero((i32_or_zero(t, 5int)));
    let texts_start: int = 6int;
    let double_count: int = max_zero((i32_or_zero(t, (texts_start + text_count * 1))));
    let doubles_start: int = (texts_start + text_count * 1) + 1;
    if i32_at(t, 0int) is Ok
        && i32_at(t, 2int) is Ok {
        r matches Ok(Event::SecurityDefinitionOptionParameter { req_id, exchange, underlying_con_id, trading_class, multiplier, expirations, strikes })
            && req_id == i32_or_zero(t, 0int)
            && exchange@ == text_at(t, 1int)
            && underlying_con_id == i32_or_zero(t, 2int)
            && trading_class@ == text_at(t, 3int)
            && multiplier@ == text_at(t, 4int)
            && text_list_out(t, texts_start, text_count, expirations@)
            && double_list_out(t, doubles_start, double_count, strikes@)
    } else {
        r matches Err(e) && ((!(i32_at(t, 0int) is Ok) && (i32_at(t, 0int) matches Err(k) && int_error(e, t, 0int, k)))
            || (i32_at(t, 0int) is Ok && !(i32_at(t, 2int) is Ok) && (i32_at(t, 2int) matches Err(k) && int_error(e, t, 2int, k))))
    }
}

/// Decodes option parameters of a security definition.
pub fn decode_security_definition_option_parameter_fields(fields: &[String]) -> (r: Result<Event, TwsApiError>)
    ensures
        security_definition_option_parameter_decoded(text_views(fields@), r),
{
    let mut reader = FieldReader::new(fields);
    let ghost t = text_views(fields@);
    let ghost text_count: int = max_zero((i32_or_zero(t, 5int)));
    let ghost texts_start: int = 6int;
    let ghost double_count: int = max_zero((i32_or_zero(t, (texts_start + text_count * 1))));
    let ghost doubles_start: int = (texts_start + text_count * 1) + 1;

    let req_id: i32 = match reader.next_i32() {
        Ok(v) => v,
        Err(e) => return Err(e),
    };
    let exchange: String = reader.next_string();
    let underlying_con_id: i32 = match reader.next_i32() {
        Ok(v) => v,
        Err(e) => return Err(e),
    };
    let trading_class: String = reader.next_string();
    let multiplier: String = reader.next_string();
    let expiration_count: i32 = reader.next_i32_or_default();
    proof {
        assert(reader.position() == 6int);
    }
    let expirations = read_text_list(&mut reader, expiration_count);
    let strike_count: i32 = reader.next_i32_or_default();
    proof {
        assert(reader.position() == (texts_start + text_count * 1) + 1);
    }
    let strikes = read_double_list(&mut reader, strike_count);


    Ok(Event::SecurityDefinitionOptionParameter { req_id, exchange, underlying_con_id, trading_class, multiplier, expirations, strikes })
}

/// The order fields that follow the contract of an open or completed order, as read.
pub struct OrderCore {
    /// The value read for `action`.
    pub action: String,
    /// The value read for `total_quantity`.
    pub total_quantity: DecimalText,
    /// The value read for `order_type`.
    pub order_type: String,
    /// The value read for `limit_price`.
    pub limit_price: Double,
    /// The value read for `aux_price`.
    pub aux_price: Double,
    /// The value read for `tif`.
    pub tif: String,
    /// The value read for `oca_group`.
    pub oca_group: String,
    /// The value read for `account`.
    pub account: String,
    /// The value read for `open_close`.
    pub open_close: String,
    /// The value read for `origin`.
    pub origin: Origin,
    /// The value read for `order_ref`.
    pub order_ref: String,
}

/// The algorithm of an order and its parameters, as read.
pub struct OrderAlgo {
    /// The value read for `algo_strategy`.
    pub algo_strategy: String,
    /// The value read for `algo_params`.
    pub algo_params: Vec<TagValue>,
}

/// The order fields from the outside-regular-hours flag to the volatility type, as read.
pub struct OrderCommonHead {
    /// The value read for `outside_rth`.
    pub outside_rth: bool,
    /// The value read for `hidden`.
    pub hidden: bool,
    /// The value read for `discretionary_amount`.
    pub discretionary_amount: Double,
    /// The value read for `good_after_time`.
    pub good_after_time: String,
    /// The value read for `fa_group`.
    pub fa_group: String,
    /// The value read for `fa_method`.
    pub fa_method: String,
    /// The value read for `fa_percentage`.
    pub fa_percentage: String,
    /// The value read for `model_code`.
    pub model_code: String,
    /// The value read for `good_till_date`.
    pub good_till_date: String,
    /// The value read for `rule80a`.
    pub rule80a: String,
    /// The value read for `percent_offset`.
    pub percent_offset: Double,
    /// The value read for `settling_firm`.
    pub settling_firm: String,
    /// The value read for `short_sale_slot`.
    pub short_sale_slot: i32,
    /// The value read for `designated_location`.
    pub designated_location: String,
    /// The value read for `exempt_code`.
    pub exempt_code: i32,
    /// The value read for `oca_type`.
    pub oca_type: i32,
    /// The value read for `all_or_none`.
    pub all_or_none: bool,
    /// The value read for `min_qty`.
    pub min_qty: i32,
    /// The value read for `parent_id`.
    pub parent_id: i32,
    /// The value read for `trigger_method`.
    pub trigger_method: i32,
    /// The value read for `volatility`.
    pub volatility: Double,
    /// The value read for `volatility_type`.
    pub volatility_type: i32,
}

/// The delta-neutral, trailing and scale fields of an order, as read.
pub struct OrderDeltaNeutralScale {
    /// The value read for `delta_neutral_order_type`.
    pub delta_neutral_order_type: String,
    /// The value read for `delta_neutral_aux_price`.
    pub delta_neutral_aux_price: Double,
    /// The value read for `delta_neutral_con_id`.
    pub delta_neutral_con_id: i32,
    /// The value read for `delta_neutral_settling_firm`.
    pub delta_neutral_settling_firm: String,
    /// The value read for `delta_neutral_clearing_account`.
    pub delta_neutral_clearing_account: String,
    /// The value read for `delta_neutral_clearing_intent`.
    pub delta_neutral_clearing_intent: String,
    /// The value read for `delta_neutral_open_close`.
    pub delta_neutral_open_close: String,
    /// The value read for `delta_neutral_short_sale`.
    pub delta_neutral_short_sale: bool,
    /// The value read for `delta_neutral_short_sale_slot`.
    pub delta_neutral_short_sale_slot: i32,
    /// The value read for `delta_neutral_designated_location`.
    pub delta_neutral_designated_location: String,
    /// The value read for `continuous_update`.
    pub continuous_update: bool,
    /// The value read for `reference_price_type`.
    pub reference_price_type: i32,
    /// The value read for `trail_stop_price`.
    pub trail_stop_price: Double,
    /// The value read for `trailing_percent`.
    pub trailing_percent: Double,
    /// The value read for `scale_init_level_size`.
    pub scale_init_level_size: i32,
    /// The value read for `scale_subs_level_size`.
    pub scale_subs_level_size: i32,
    /// The value read for `scale_price_increment`.
    pub scale_price_increment: Double,
    /// The value read for `scale_price_adjust_value`.
    pub scale_price_adjust_value: Double,
    /// The value read for `scale_price_adjust_interval`.
    pub scale_price_adjust_interval: i32,
    /// The value read for `scale_profit_offset`.
    pub scale_profit_offset: Double,
    /// The value read for `scale_auto_reset`.
    pub scale_auto_reset: bool,
    /// The value read for `scale_init_position`.
    pub scale_init_position: i32,
    /// The value read for `scale_init_fill_qty`.
    pub scale_init_fill_qty: i32,
    /// The value read for `scale_random_percent`.
    pub scale_random_percent: bool,
}

/// The order fields from the scale table to the algorithm parameters, as read.
pub struct OrderCommonRest {
    /// The value read for `scale_table`.
    pub scale_table: String,
    /// The value read for `active_start_time`.
    pub active_start_time: String,
    /// The value read for `active_stop_time`.
    pub active_stop_time: String,
    /// The value read for `hedge_type`.
    pub hedge_type: String,
    /// The value read for `hedge_param`.
    pub hedge_param: String,
    /// The value read for `opt_out_smart_routing`.
    pub opt_out_smart_routing: bool,
    /// The value read for `clearing_account`.
    pub clearing_account: String,
    /// The value read for `clearing_intent`.
    pub clearing_intent: String,
    /// The value read for `not_held`.
    pub not_held: bool,
    /// The value read for `algo_strategy`.
    pub algo_strategy: String,
    /// The value read for `algo_params`.
    pub algo_params: Vec<TagValue>,
}

/// The order fields that open and completed orders share after the permanent id, as read.
pub struct OrderCommon {
    /// The value read for `outside_rth`.
    pub outside_rth: bool,
    /// The value read for `hidden`.
    pub hidden: bool,
    /// The value read for `discretionary_amount`.
    pub discretionary_amount: Double,
    /// The value read for `good_after_time`.
    pub good_after_time: String,
    /// The value read for `fa_group`.
    pub fa_group: String,
    /// The value read for `fa_method`.
    pub fa_method: String,
    /// The value read for `fa_percentage`.
    pub fa_percentage: String,
    /// The value read for `model_code`.
    pub model_code: String,
    /// The value read for `good_till_date`.
    pub good_till_date: String,
    /// The value read for `rule80a`.
    pub rule80a: String,
    /// The value read for `percent_offset`.
    pub percent_offset: Double,
    /// The value read for `settling_firm`.
    pub settling_firm: String,
    /// The value read for `short_sale_slot`.
    pub short_sale_slot: i32,
    /// The value read for `designated_location`.
    pub designated_location: String,
    /// The value read for `exempt_code`.
    pub exempt_code: i32,
    /// The value read for `oca_type`.
    pub oca_type: i32,
    /// The value read for `all_or_none`.
    pub all_or_none: bool,
    /// The value read for `min_qty`.
    pub min_qty: i32,
    /// The value read for `parent_id`.
    pub parent_id: i32,
    /// The value read for `trigger_method`.
    pub trigger_method: i32,
    /// The value read for `volatility`.
    pub volatility: Double,
    /// The value read for `volatility_type`.
    pub volatility_type: i32,
    /// The value read for `delta_neutral_order_type`.
    pub delta_neutral_order_type: String,
    /// The value read for `delta_neutral_aux_price`.
    pub delta_neutral_aux_price: Double,
    /// The value read for `delta_neutral_con_id`.
    pub delta_neutral_con_id: i32,
    /// The value read for `delta_neutral_settling_firm`.
    pub delta_neutral_settling_firm: String,
    /// The value read for `delta_neutral_clearing_account`.
    pub delta_neutral_clearing_account: String,
    /// The value read for `delta_neutral_clearing_intent`.
    pub delta_neutral_clearing_intent: String,
    /// The value read for `delta_neutral_open_close`.
    pub delta_neutral_open_close: String,
    /// The value read for `delta_neutral_short_sale`.
    pub delta_neutral_short_sale: bool,
    /// The value read for `delta_neutral_short_sale_slot`.
    pub delta_neutral_short_sale_slot: i32,
    /// The value read for `delta_neutral_designated_location`.
    pub delta_neutral_designated_location: String,
    /// The value read for `continuous_update`.
    pub continuous_update: bool,
    /// The value read for `reference_price_type`.
    pub reference_price_type: i32,
    /// The value read for `trail_stop_price`.
    pub trail_stop_price: Double,
    /// The value read for `trailing_percent`.
    pub trailing_percent: Double,
    /// The value read for `scale_init_level_size`.
    pub scale_init_level_size: i32,
    /// The value read for `scale_subs_level_size`.
    pub scale_subs_level_size: i32,
    /// The value read for `scale_price_increment`.
    pub scale_price_increment: Double,
    /// The value read for `scale_price_adjust_value`.
    pub scale_price_adjust_value: Double,
    /// The value read for `scale_price_adjust_interval`.
    pub scale_price_adjust_interval: i32,
    /// The value read for `scale_profit_offset`.
    pub scale_profit_offset: Double,
    /// The value read for `scale_auto_reset`.
    pub scale_auto_reset: bool,
    /// The value read for `scale_init_position`.
    pub scale_init_position: i32,
    /// The value read for `scale_init_fill_qty`.
    pub scale_init_fill_qty: i32,
    /// The value read for `scale_random_percent`.
    pub scale_random_percent: bool,
    /// The value read for `scale_table`.
    pub scale_table: String,
    /// The value read for `active_start_time`.
    pub active_start_time: String,
    /// The value read for `active_stop_time`.
    pub active_stop_time: String,
    /// The value read for `hedge_type`.
    pub hedge_type: String,
    /// The value read for `hedge_param`.
    pub hedge_param: String,
    /// The value read for `opt_out_smart_routing`.
    pub opt_out_smart_routing: bool,
    /// The value read for `clearing_account`.
    pub clearing_account: String,
    /// The value read for `clearing_intent`.
    pub clearing_intent: String,
    /// The value read for `not_held`.
    pub not_held: bool,
    /// The value read for `algo_strategy`.
    pub algo_strategy: String,
    /// The value read for `algo_params`.
    pub algo_params: Vec<TagValue>,
}

/// The order fields at the end of open and completed orders, as read.
pub struct OrderTail {
    /// The value read for `min_trade_qty`.
    pub min_trade_qty: i32,
    /// The value read for `min_compete_size`.
    pub min_compete_size: i32,
    /// The value read for `compete_against_best_offset`.
    pub compete_against_best_offset: Double,
    /// The value read for `mid_offset_at_whole`.
    pub mid_offset_at_whole: Double,
    /// The value read for `mid_offset_at_half`.
    pub mid_offset_at_half: Double,
    /// The value read for `customer_account`.
    pub customer_account: String,
    /// The value read for `professional_customer`.
    pub professional_customer: bool,
    /// The value read for `bond_accrued_interest`.
    pub bond_accrued_interest: String,
    /// The value read for `include_overnight`.
    pub include_overnight: bool,
    /// The value read for `manual_order_indicator`.
    pub manual_order_indicator: i32,
    /// The value read for `submitter`.
    pub submitter: String,
}

/// The position after the contract in front of an open or completed order read at position `q`.
#[verifier::opaque]
pub open spec fn order_contract_prefix_end(t: Seq<Seq<char>>, q: int, version: int) -> int {
    let since_version_32: bool = (version) >= 32;
    let exchange_pos: int = if since_version_32 { q + 7 } else { q + 6 };
    let since_version_32_2: bool = (version) >= 32;
    let pos_4: int = if since_version_32_2 { exchange_pos + 4 } else { exchange_pos + 3 };
    pos_4
}

/// What the contract in front of an open or completed order read at position `q` holds, field by field.
#[verifier::opaque]
pub open spec fn order_contract_prefix_out(t: Seq<Seq<char>>, q: int, version: int, after: Contract) -> bool {
    let since_version_32: bool = (version) >= 32;
    let exchange_pos: int = if since_version_32 { q + 7 } else { q + 6 };
    let since_version_32_2: bool = (version) >= 32;
    let pos_4: int = if since_version_32_2 { exchange_pos + 4 } else { exchange_pos + 3 };
    after.con_id == i32_or_zero(t, q)
            && after.symbol@ == text_at(t, q + 1)
            && after.sec_type@ == text_at(t, q + 2)
            && after.last_trade_date_or_contract_month@ == text_at(t, q + 3)
            && after.last_trade_date@ == Seq::<char>::empty()
            && after.strike.text@ == text_at(t, q + 4)
            && after.right@ == text_at(t, q + 5)
            && after.multiplier@ == (if since_version_32 { text_at(t, q + 6) } else { Seq::<char>::empty() })
            && after.exchange@ == text_at(t, exchange_pos)
            && after.primary_exchange@ == Seq::<char>::empty()
            && after.currency@ == text_at(t, exchange_pos + 1)
            && after.local_symbol@ == text_at(t, exchange_pos + 2)
            && after.trading_class@ == (if since_version_32_2 { text_at(t, exchange_pos + 3) } else { Seq::<char>::empty() })
            && after.include_expired == false
            && after.sec_id_type@ == Seq::<char>::empty()
            && after.sec_id@ == Seq::<char>::empty()
            && after.description@ == Seq::<char>::empty()
            && after.issuer_id@ == Seq::<char>::empty()
            && after.combo_legs_description@ == Seq::<char>::empty()
            && after.combo_legs@.len() == 0
            && after.delta_neutral_contract is None
}

/// True when every field of the contract in front of an open or completed order at position `q` can be read.
#[verifier::opaque]
pub open spec fn order_contract_prefix_ok(t: Seq<Seq<char>>, q: int, version: int) -> bool {
    let since_version_32: bool = (version) >= 32;
    let exchange_pos: int = if since_version_32 { q + 7 } else { q + 6 };
    let since_version_32_2: bool = (version) >= 32;
    let pos_4: int = if since_version_32_2 { exchange_pos + 4 } else { exchange_pos + 3 };
    i32_at(t, q) is Ok
}

/// The error reading the contract in front of an open or completed order at position `q` gives: that of its first field that cannot be read.
#[verifier::opaque]
pub open spec fn order_contract_prefix_err(t: Seq<Seq<char>>, q: int, version: int, e: TwsApiError) -> bool {
    let since_version_32: bool = (version) >= 32;
    let exchange_pos: int = if since_version_32 { q + 7 } else { q + 6 };
    let since_version_32_2: bool = (version) >= 32;
    let pos_4: int = if since_version_32_2 { exchange_pos + 4 } else { exchange_pos + 3 };
    (!(i32_at(t, q) is Ok) && (i32_at(t, q) matches Err(k) && int_error(e, t, q, k)))
}

/// What reading the contract in front of an open or completed order at position `q` gives: the value and the position `end` after it when
/// every field can be read, else the error of the first that cannot.
pub open spec fn order_contract_prefix_read(t: Seq<Seq<char>>, q: int, version: int, r: Result<Contract, TwsApiError>, end: int) -> bool {
    if order_contract_prefix_ok(t, q, version) {
        r matches Ok(after) && end == order_contract_prefix_end(t, q, version) && order_contract_prefix_out(t, q, version, after)
    } else {
        r matches Err(e) && order_contract_prefix_err(t, q, version, e)
    }
}

/// Reads the contract in front of an open or completed order.
fn read_order_contract_prefix(reader: &mut FieldReader, version: i32) -> (r: Result<Contract, TwsApiError>)
    requires
        old(reader).wf(),
    ensures
        final(reader).wf(),
        final(reader).texts() == old(reader).texts(),
        order_contract_prefix_read(old(reader).texts(), old(reader).position(), version as int, r, final(reader).position()),
{
    proof {
        reveal(order_contract_prefix_end);
        reveal(order_contract_prefix_out);
        reveal(order_contract_prefix_ok);
        reveal(order_contract_prefix_err);
    }
    let ghost t = reader.texts();
    let ghost q = reader.position();
    let ghost cond_1: bool = ((version as int)) >= 32;
    let ghost pos_2: int = if cond_1 { q + 7 } else { q + 6 };
    let ghost cond_3: bool = ((version as int)) >= 32;
    let ghost pos_4: int = if cond_3 { pos_2 + 4 } else { pos_2 + 3 };
    let mut contract_con_id: i32 = 0;
    let mut contract_symbol: String = String::new();
    let mut contract_sec_type: String = String::new();
    let mut contract_last_trade_date_or_contract_month: String = String::new();
    let mut contract_strike: Double = Double::unset();
    let mut contract_right: String = String::new();
    let mut contract_multiplier: String = String::new();
    let mut contract_exchange: String = String::new();
    let mut contract_currency: String = String::new();
    let mut contract_local_symbol: String = String::new();
    let mut contract_trading_class: String = String::new();
    contract_con_id = match reader.next_i32() {
        Ok(v) => v,
        Err(e) => return Err(e),
    };
    contract_symbol = reader.next_string();
    contract_sec_type = reader.next_string();
    contract_last_trade_date_or_contract_month = reader.next_string();
    contract_strike = reader.next_double();
    contract_right = reader.next_string();
    if version >= 32 {
        contract_multiplier = reader.next_string();
    }
    proof {
        assert(reader.position() == pos_2);
    }
    contract_exchange = reader.next_string();
    contract_currency = reader.next_string();
    contract_local_symbol = reader.next_string();
    if version >= 32 {
        contract_trading_class = reader.next_string();
    }
    proof {
        assert(reader.position() == pos_4);
    }
    let contract = Contract { con_id: contract_con_id, symbol: contract_symbol, sec_type: contract_sec_type, last_trade_date_or_contract_month: contract_last_trade_date_or_contract_month, last_trade_date: String::new(), strike: contract_strike, right: contract_right, multiplier: contract_multiplier, exchange: contract_exchange, primary_exchange: String::new(), currency: contract_currency, local_symbol: contract_local_symbol, trading_class: contract_trading_class, include_expired: false, sec_id_type: String::new(), sec_id: String::new(), description: String::new(), issuer_id: String::new(), combo_legs_description: String::new(), combo_legs: Vec::new(), delta_neutral_contract: None };

    Ok(contract)
}

/// The position after the order fields that follow the contract read at position `q`.
/// The origin code `1` is a firm, `2` unknown, else a customer.
#[verifier::opaque]
pub open spec fn order_core_end(t: Seq<Seq<char>>, q: int) -> int {
    q + 11
}

/// What the order fields that follow the contract read at position `q` holds, field by field.
/// The origin code `1` is a firm, `2` unknown, else a customer.
#[verifier::opaque]
pub open spec fn order_core_out(t: Seq<Seq<char>>, q: int, after: OrderCore) -> bool {
    after.action@ == text_at(t, q)
            && after.total_quantity.text@ == decimal_or_zero(t, q + 1)
            && after.order_type@ == text_at(t, q + 2)
            && after.limit_price.text@ == text_at(t, q + 3)
            && after.aux_price.text@ == text_at(t, q + 4)
            && after.tif@ == text_at(t, q + 5)
            && after.oca_group@ == text_at(t, q + 6)
            && after.account@ == text_at(t, q + 7)
            && after.open_close@ == text_at(t, q + 8)
            && after.origin == origin_for((i32_or_zero(t, q + 9)))
            && after.order_ref@ == text_at(t, q + 10)
}

/// True when every field of the order fields that follow the contract at position `q` can be read.
/// The origin code `1` is a firm, `2` unknown, else a customer.
#[verifier::opaque]
pub open spec fn order_core_ok(t: Seq<Seq<char>>, q: int) -> bool {
    decimal_at(t, q + 1) is Some
}

/// The error reading the order fields that follow the contract at position `q` gives: that of its first field that cannot be read.
/// The origin code `1` is a firm, `2` unknown, else a customer.
#[verifier::opaque]
pub open spec fn order_core_err(t: Seq<Seq<char>>, q: int, e: TwsApiError) -> bool {
    (!(decimal_at(t, q + 1) is Some) && decimal_error(e, t, q + 1))
}

/// What reading the order fields that follow the contract at position `q` gives: the value and the position `end` after it when
/// every field can be read, else the error of the first that cannot.
/// The origin code `1` is a firm, `2` unknown, else a customer.
pub open spec fn order_core_read(t: Seq<Seq<char>>, q: int, r: Result<OrderCore, TwsApiError>, end: int) -> bool {
    if order_core_ok(t, q) {
        r matches Ok(after) && end == order_core_end(t, q) && order_core_out(t, q, after)
    } else {
        r matches Err(e) && order_core_err(t, q, e)
    }
}

/// Reads the order fields that follow the contract; the origin code `1` is a firm, `2` unknown, else a customer.
fn read_order_core(reader: &mut FieldReader) -> (r: Result<OrderCore, TwsApiError>)
    requires
        old(reader).wf(),
    ensures
        final(reader).wf(),
        final(reader).texts() == old(reader).texts(),
        order_core_read(old(reader).texts(), old(reader).position(), r, final(reader).position()),
{
    proof {
        reveal(order_core_end);
        reveal(order_core_out);
        reveal(order_core_ok);
        reveal(order_core_err);
    }
    let ghost t = reader.texts();
    let ghost q = reader.position();
    let mut core_action: String = String::new();
    let mut core_total_quantity: DecimalText = DecimalText::zero();
    let mut core_order_type: String = String::new();
    let mut core_limit_price: Double = Double::unset();
    let mut core_aux_price: Double = Double::unset();
    let mut core_tif: String = String::new();
    let mut core_oca_group: String = String::new();
    let mut core_account: String = String::new();
    let mut core_open_close: String = String::new();
    let mut core_origin: Origin = Origin::Customer;
    let mut core_order_ref: String = String::new();
    core_action = reader.next_string();
    core_total_quantity = match reader.next_decimal() {
        Ok(v) => v,
        Err(e) => return Err(e),
    };
    core_order_type = reader.next_string();
    core_limit_price = reader.next_double();
    core_aux_price = reader.next_double();
    core_tif = reader.next_string();
    core_oca_group = reader.next_string();
    core_account = reader.next_string();
    core_open_close = reader.next_string();
    let origin_code: i32 = reader.next_i32_or_default();
    core_origin = origin_from_code(origin_code);
    core_order_ref = reader.next_string();
    let core = OrderCore { action: core_action, total_quantity: core_total_quantity, order_type: core_order_type, limit_price: core_limit_price, aux_price: core_aux_price, tif: core_tif, oca_group: core_oca_group, account: core_account, open_close: core_open_close, origin: core_origin, order_ref: core_order_ref };

    Ok(core)
}

/// The position after an order's algorithm read at position `q`.
/// Its parameters follow only when it names one.
#[verifier::opaque]
pub open spec fn order_algo_end(t: Seq<Seq<char>>, q: int) -> int {
    let cond_1: bool = (text_at(t, q)).len() > 0;
    let tag_value_count: int = max_zero((i32_or_zero(t, q + 1)));
    let tag_values_start: int = q + 2;
    let pos_4: int = if cond_1 { (tag_values_start + tag_value_count * 2) } else { q + 1 };
    pos_4
}

/// What an order's algorithm read at position `q` holds, field by field.
/// Its parameters follow only when it names one.
#[verifier::opaque]
pub open spec fn order_algo_out(t: Seq<Seq<char>>, q: int, after: OrderAlgo) -> bool {
    let cond_1: bool = (text_at(t, q)).len() > 0;
    let tag_value_count: int = max_zero((i32_or_zero(t, q + 1)));
    let tag_values_start: int = q + 2;
    let pos_4: int = if cond_1 { (tag_values_start + tag_value_count * 2) } else { q + 1 };
    after.algo_strategy@ == text_at(t, q)
            && (if cond_1 { tag_value_list_out(t, tag_values_start, tag_value_count, after.algo_params@) } else { after.algo_params@.len() == 0 })
}

/// What reading an order's algorithm at position `q` gives: `after`, and the position `end` after it.
/// Its parameters follow only when it names one.
pub open spec fn order_algo_read(t: Seq<Seq<char>>, q: int, after: OrderAlgo, end: int) -> bool {
    end == order_algo_end(t, q) && order_algo_out(t, q, after)
}

/// Reads an order's algorithm; its parameters follow only when it names one.
fn read_order_algo(reader: &mut FieldReader) -> (x: OrderAlgo)
    requires
        old(reader).wf(),
    ensures
        final(reader).wf(),
        final(reader).texts() == old(reader).texts(),
        order_algo_read(old(reader).texts(), old(reader).position(), x, final(reader).position()),
{
    proof {
        reveal(order_algo_end);
        reveal(order_algo_out);
    }
    let ghost t = reader.texts();
    let ghost q = reader.position();
    let ghost cond_1: bool = (text_at(t, q)).len() > 0;
    let ghost count_2: int = max_zero((i32_or_zero(t, q + 1)));
    let ghost start_3: int = q + 2;
    let ghost pos_4: int = if cond_1 { (start_3 + count_2 * 2) } else { q + 1 };
    let mut algo_algo_strategy: String = String::new();
    let mut algo_algo_params: Vec<TagValue> = Vec::new();
    algo_algo_strategy = reader.next_string();
    let mut algo_count: i32 = 0;
    if !algo_algo_strategy.as_str().is_empty() {
        algo_count = reader.next_i32_or_default();
        proof {
            assert(reader.position() == q + 2);
        }
        algo_algo_params = read_tag_value_list(reader, algo_count);
    }
    proof {
        assert(reader.position() == pos_4);
    }
    let algo = OrderAlgo { algo_strategy: algo_algo_strategy, algo_params: algo_algo_params };

    algo
}

/// The position after the order fields from the outside-regular-hours flag to the volatility type read at position `q`.
#[verifier::opaque]
pub open spec fn order_common_head_end(t: Seq<Seq<char>>, q: int, version: int) -> int {
    let before_version_177: bool = (version) < 177;
    let model_code_pos: int = if before_version_177 { q + 9 } else { q + 8 };
    let since_version_177: bool = (version) >= 177;
    let good_till_date_pos: int = if since_version_177 { model_code_pos + 1 } else { model_code_pos };
    let since_version_156: bool = (version) >= 156;
    let oca_type_pos: int = if since_version_156 { good_till_date_pos + 7 } else { good_till_date_pos + 6 };
    oca_type_pos + 13
}

/// What the order fields from the outside-regular-hours flag to the volatility type read at position `q` holds, field by field.
#[verifier::opaque]
pub open spec fn order_common_head_out(t: Seq<Seq<char>>, q: int, version: int, after: OrderCommonHead) -> bool {
    let before_version_177: bool = (version) < 177;
    let model_code_pos: int = if before_version_177 { q + 9 } else { q + 8 };
    let since_version_177: bool = (version) >= 177;
    let good_till_date_pos: int = if since_version_177 { model_code_pos + 1 } else { model_code_pos };
    let since_version_156: bool = (version) >= 156;
    let oca_type_pos: int = if since_version_156 { good_till_date_pos + 7 } else { good_till_date_pos + 6 };
    after.outside_rth == bool_at(t, q)
            && after.hidden == bool_at(t, q + 1)
            && after.discretionary_amount.text@ == text_at(t, q + 2)
            && after.good_after_time@ == text_at(t, q + 3)
            && after.fa_group@ == text_at(t, q + 5)
            && after.fa_method@ == text_at(t, q + 6)
            && after.fa_percentage@ == text_at(t, q + 7)
            && after.model_code@ == (if since_version_177 { text_at(t, model_code_pos) } else { Seq::<char>::empty() })
            && after.good_till_date@ == text_at(t, good_till_date_pos)
            && after.rule80a@ == text_at(t, oca_type_pos + 1)
            && after.percent_offset.text@ == text_at(t, oca_type_pos + 5)
            && after.settling_firm@ == text_at(t, oca_type_pos + 2)
            && after.short_sale_slot == i32_or_zero(t, good_till_date_pos + 4)
            && after.designated_location@ == text_at(t, good_till_date_pos + 5)
            && after.exempt_code == (if since_version_156 { i32_or_zero(t, good_till_date_pos + 6) } else { -1 })
            && after.oca_type == i32_or_zero(t, oca_type_pos)
            && after.all_or_none == bool_at(t, oca_type_pos + 3)
            && after.min_qty == i32_or_zero(t, oca_type_pos + 4)
            && after.parent_id == i32_or_zero(t, oca_type_pos + 9)
            && after.trigger_method == i32_or_zero(t, oca_type_pos + 10)
            && after.volatility.text@ == text_at(t, oca_type_pos + 11)
            && after.volatility_type == i32_or_zero(t, oca_type_pos + 12)
}

/// What reading the order fields from the outside-regular-hours flag to the volatility type at position `q` gives: `after`, and the position `end` after it.
pub open spec fn order_common_head_read(t: Seq<Seq<char>>, q: int, version: int, after: OrderCommonHead, end: int) -> bool {
    end == order_common_head_end(t, q, version) && order_common_head_out(t, q, version, after)
}

/// Reads the order fields from the outside-regular-hours flag to the volatility type.
#[verifier::spinoff_prover]
#[verifier::rlimit(80)]
fn read_order_common_head(reader: &mut FieldReader, version: i32) -> (x: OrderCommonHead)
    requires
        old(reader).wf(),
    ensures
        final(reader).wf(),
        final(reader).texts() == old(reader).texts(),
        order_common_head_read(old(reader).texts(), old(reader).position(), version as int, x, final(reader).position()),
{
    proof {
        reveal(order_common_head_end);
        reveal(order_common_head_out);
    }
    let ghost t = reader.texts();
    let ghost q = reader.position();
    let ghost cond_1: bool = ((version as int)) < 177;
    let ghost pos_2: int = if cond_1 { q + 9 } else { q + 8 };
    let ghost cond_3: bool = ((version as int)) >= 177;
    let ghost pos_4: int = if cond_3 { pos_2 + 1 } else { pos_2 };
    let ghost cond_5: bool = ((version as int)) >= 156;
    let ghost pos_6: int = if cond_5 { pos_4 + 7 } else { pos_4 + 6 };
    let mut head_outside_rth: bool = false;
    let mut head_hidden: bool = false;
    let mut head_discretionary_amount: Double = Double::zero();
    let mut head_good_after_time: String = String::new();
    let mut head_fa_group: String = String::new();
    let mut head_fa_method: String = String::new();
    let mut head_fa_percentage: String = String::new();
    let mut head_model_code: String = String::new();
    let mut head_good_till_date: String = String::new();
    let mut head_rule80a: String = String::new();
    let mut head_percent_offset: Double = Double::unset();
    let mut head_settling_firm: String = String::new();
    let mut head_short_sale_slot: i32 = 0;
    let mut head_designated_location: String = String::new();
    let mut head_exempt_code: i32 = -1;
    let mut head_oca_type: i32 = 0;
    let mut head_all_or_none: bool = false;
    let mut head_min_qty: i32 = UNSET_INTEGER;
    let mut head_parent_id: i32 = 0;
    let mut head_trigger_method: i32 = 0;
    let mut head_volatility: Double = Double::unset();
    let mut head_volatility_type: i32 = UNSET_INTEGER;
    head_outside_rth = reader.next_bool();
    head_hidden = reader.next_bool();
    head_discretionary_amount = reader.next_double();
    head_good_after_time = reader.next_string();
    let _ = reader.next_string();
    head_fa_group = reader.next_string();
    head_fa_method = reader.next_string();
    head_fa_percentage = reader.next_string();
    if version < 177 {
        let _ = reader.next_string();
    }
    proof {
        assert(reader.position() == pos_2);
    }
    if version >= 177 {
        head_model_code = reader.next_string();
    }
    proof {
        assert(reader.position() == pos_4);
    }
    head_good_till_date = reader.next_string();
    head_rule80a = reader.next_string();
    head_percent_offset = reader.next_double();
    head_settling_firm = reader.next_string();
    head_short_sale_slot = reader.next_i32_or_default();
    head_designated_location = reader.next_string();
    if version >= 156 {
        head_exempt_code = reader.next_i32_or_default();
    }
    proof {
        assert(reader.position() == pos_6);
    }
    head_oca_type = reader.next_i32_or_default();
    head_rule80a = reader.next_string();
    head_settling_firm = reader.next_string();
    head_all_or_none = reader.next_bool();
    head_min_qty = reader.next_i32_or_default();
    head_percent_offset = reader.next_double();
    let _ = reader.next_bool();
    let _ = reader.next_bool();
    let _ = reader.next_double();
    head_parent_id = reader.next_i32_or_default();
    head_trigger_method = reader.next_i32_or_default();
    head_volatility = reader.next_double();
    head_volatility_type = reader.next_i32_or_default();
    let head = OrderCommonHead { outside_rth: head_outside_rth, hidden: head_hidden, discretionary_amount: head_discretionary_amount, good_after_time: head_good_after_time, fa_group: head_fa_group, fa_method: head_fa_method, fa_percentage: head_fa_percentage, model_code: head_model_code, good_till_date: head_good_till_date, rule80a: head_rule80a, percent_offset: head_percent_offset, settling_firm: head_settling_firm, short_sale_slot: head_short_sale_slot, designated_location: head_designated_location, exempt_code: head_exempt_code, oca_type: head_oca_type, all_or_none: head_all_or_none, min_qty: head_min_qty, parent_id: head_parent_id, trigger_method: head_trigger_method, volatility: head_volatility, volatility_type: head_volatility_type };

    head
}

/// The position after the delta-neutral, trailing and scale fields of an order read at position `q`.
/// The scale adjustments are read only for a price increment other than zero.
#[verifier::opaque]
pub open spec fn order_delta_neutral_scale_end(t: Seq<Seq<char>>, q: int, version: int) -> int {
    let cond_1: bool = (version) >= 27 && (text_at(t, q)).len() > 0;
    let delta_neutral_open_close_pos: int = if cond_1 { q + 6 } else { q + 2 };
    let has_delta_neutral_open_close: bool = (version) >= 31 && (text_at(t, q)).len() > 0;
    let continuous_update_pos: int = if has_delta_neutral_open_close { delta_neutral_open_close_pos + 4 } else { delta_neutral_open_close_pos };
    let since_version_30: bool = (version) >= 30;
    let scale_init_level_size_pos: int = if since_version_30 { continuous_update_pos + 4 } else { continuous_update_pos + 3 };
    let since_version_20: bool = (version) >= 20;
    let cond_8: bool = (version) >= 28 && nonzero_float_text((text_at(t, scale_init_level_size_pos + 2)));
    let pos_9: int = if cond_8 { scale_init_level_size_pos + 2 + 8 } else { scale_init_level_size_pos + 2 + 1 };
    pos_9
}

/// What the delta-neutral, trailing and scale fields of an order read at position `q` holds, field by field.
/// The scale adjustments are read only for a price increment other than zero.
#[verifier::opaque]
pub open spec fn order_delta_neutral_scale_out(t: Seq<Seq<char>>, q: int, version: int, after: OrderDeltaNeutralScale) -> bool {
    let cond_1: bool = (version) >= 27 && (text_at(t, q)).len() > 0;
    let delta_neutral_open_close_pos: int = if cond_1 { q + 6 } else { q + 2 };
    let has_delta_neutral_open_close: bool = (version) >= 31 && (text_at(t, q)).len() > 0;
    let continuous_update_pos: int = if has_delta_neutral_open_close { delta_neutral_open_close_pos + 4 } else { delta_neutral_open_close_pos };
    let since_version_30: bool = (version) >= 30;
    let scale_init_level_size_pos: int = if since_version_30 { continuous_update_pos + 4 } else { continuous_update_pos + 3 };
    let since_version_20: bool = (version) >= 20;
    let cond_8: bool = (version) >= 28 && nonzero_float_text((text_at(t, scale_init_level_size_pos + 2)));
    let pos_9: int = if cond_8 { scale_init_level_size_pos + 2 + 8 } else { scale_init_level_size_pos + 2 + 1 };
    after.delta_neutral_order_type@ == text_at(t, q)
            && after.delta_neutral_aux_price.text@ == text_at(t, q + 1)
            && after.delta_neutral_con_id == (if cond_1 { i32_or_zero(t, q + 2) } else { 0 })
            && after.delta_neutral_settling_firm@ == (if cond_1 { text_at(t, q + 3) } else { Seq::<char>::empty() })
            && after.delta_neutral_clearing_account@ == (if cond_1 { text_at(t, q + 4) } else { Seq::<char>::empty() })
            && after.delta_neutral_clearing_intent@ == (if cond_1 { text_at(t, q + 5) } else { Seq::<char>::empty() })
            && after.delta_neutral_open_close@ == (if has_delta_neutral_open_close { text_at(t, delta_neutral_open_close_pos) } else { Seq::<char>::empty() })
            && after.delta_neutral_short_sale == (if has_delta_neutral_open_close { bool_at(t, delta_neutral_open_close_pos + 1) } else { false })
            && after.delta_neutral_short_sale_slot == (if has_delta_neutral_open_close { i32_or_zero(t, delta_neutral_open_close_pos + 2) } else { 0 })
            && after.delta_neutral_designated_location@ == (if has_delta_neutral_open_close { text_at(t, delta_neutral_open_close_pos + 3) } else { Seq::<char>::empty() })
            && after.continuous_update == bool_at(t, continuous_update_pos)
            && after.reference_price_type == i32_or_zero(t, continuous_update_pos + 1)
            && after.trail_stop_price.text@ == text_at(t, continuous_update_pos + 2)
            && after.trailing_percent.text@ == (if since_version_30 { text_at(t, continuous_update_pos + 3) } else { unset_double_text() })
            && after.scale_init_level_size == (if since_version_20 { i32_or_zero(t, scale_init_level_size_pos) } else { i32_or_zero(t, scale_init_level_size_pos + 1) })
            && after.scale_subs_level_size == (if since_version_20 { i32_or_zero(t, scale_init_level_size_pos + 1) } else { ((UNSET_INTEGER) as int) })
            && after.scale_price_increment.text@ == text_at(t, scale_init_level_size_pos + 2)
            && after.scale_price_adjust_value.text@ == (if cond_8 { text_at(t, scale_init_level_size_pos + 2 + 1) } else { unset_double_text() })
            && after.scale_price_adjust_interval == (if cond_8 { i32_or_zero(t, scale_init_level_size_pos + 2 + 2) } else { ((UNSET_INTEGER) as int) })
            && after.scale_profit_offset.text@ == (if cond_8 { text_at(t, scale_init_level_size_pos + 2 + 3) } else { unset_double_text() })
            && after.scale_auto_reset == (if cond_8 { bool_at(t, scale_init_level_size_pos + 2 + 4) } else { false })
            && after.scale_init_position == (if cond_8 { i32_or_zero(t, scale_init_level_size_pos + 2 + 5) } else { ((UNSET_INTEGER) as int) })
            && after.scale_init_fill_qty == (if cond_8 { i32_or_zero(t, scale_init_level_size_pos + 2 + 6) } else { ((UNSET_INTEGER) as int) })
            && after.scale_random_percent == (if cond_8 { bool_at(t, scale_init_level_size_pos + 2 + 7) } else { false })
}

/// What reading the delta-neutral, trailing and scale fields of an order at position `q` gives: `after`, and the position `end` after it.
/// The scale adjustments are read only for a price increment other than zero.
pub open spec fn order_delta_neutral_scale_read(t: Seq<Seq<char>>, q: int, version: int, after: OrderDeltaNeutralScale, end: int) -> bool {
    end == order_delta_neutral_scale_end(t, q, version) && order_delta_neutral_scale_out(t, q, version, after)
}

/// Reads the delta-neutral, trailing and scale fields of an order; the scale adjustments only for a price increment other than zero.
#[verifier::spinoff_prover]
#[verifier::rlimit(80)]
fn read_order_delta_neutral_scale(reader: &mut FieldReader, version: i32) -> (x: OrderDeltaNeutralScale)
    requires
        old(reader).wf(),
    ensures
        final(reader).wf(),
        final(reader).texts() == old(reader).texts(),
        order_delta_neutral_scale_read(old(reader).texts(), old(reader).position(), version as int, x, final(reader).position()),
{
    proof {
        reveal(order_delta_neutral_scale_end);
        reveal(order_delta_neutral_scale_out);
    }
    let ghost t = reader.texts();
    let ghost q = reader.position();
    let ghost cond_1: bool = ((version as int)) >= 27 && (text_at(t, q)).len() > 0;
    let ghost pos_2: int = if cond_1 { q + 6 } else { q + 2 };
    let ghost cond_3: bool = ((version as int)) >= 31 && (text_at(t, q)).len() > 0;
    let ghost pos_4: int = if cond_3 { pos_2 + 4 } else { pos_2 };
    let ghost cond_5: bool = ((version as int)) >= 30;
    let ghost pos_6: int = if cond_5 { pos_4 + 4 } else { pos_4 + 3 };
    let ghost cond_7: bool = ((version as int)) >= 20;
    let ghost cond_8: bool = ((version as int)) >= 28 && nonzero_float_text((text_at(t, pos_6 + 2)));
    let ghost pos_9: int = if cond_8 { pos_6 + 2 + 8 } else { pos_6 + 2 + 1 };
    let mut scale_delta_neutral_order_type: String = String::new();
    let mut scale_delta_neutral_aux_price: Double = Double::unset();
    let mut scale_delta_neutral_con_id: i32 = 0;
    let mut scale_delta_neutral_settling_firm: String = String::new();
    let mut scale_delta_neutral_clearing_account: String = String::new();
    let mut scale_delta_neutral_clearing_intent: String = String::new();
    let mut scale_delta_neutral_open_close: String = String::new();
    let mut scale_delta_neutral_short_sale: bool = false;
    let mut scale_delta_neutral_short_sale_slot: i32 = 0;
    let mut scale_delta_neutral_designated_location: String = String::new();
    let mut scale_continuous_update: bool = false;
    let mut scale_reference_price_type: i32 = UNSET_INTEGER;
    let mut scale_trail_stop_price: Double = Double::unset();
    let mut scale_trailing_percent: Double = Double::unset();
    let mut scale_scale_init_level_size: i32 = UNSET_INTEGER;
    let mut scale_scale_subs_level_size: i32 = UNSET_INTEGER;
    let mut scale_scale_price_increment: Double = Double::unset();
    let mut scale_scale_price_adjust_value: Double = Double::unset();
    let mut scale_scale_price_adjust_interval: i32 = UNSET_INTEGER;
    let mut scale_scale_profit_offset: Double = Double::unset();
    let mut scale_scale_auto_reset: bool = false;
    let mut scale_scale_init_position: i32 = UNSET_INTEGER;
    let mut scale_scale_init_fill_qty: i32 = UNSET_INTEGER;
    let mut scale_scale_random_percent: bool = false;
    scale_delta_neutral_order_type = reader.next_string();
    scale_delta_neutral_aux_price = reader.next_double();
    if version >= 27 && !scale_delta_neutral_order_type.as_str().is_empty() {
        scale_delta_neutral_con_id = reader.next_i32_or_default();
        scale_delta_neutral_settling_firm = reader.next_string();
        scale_delta_neutral_clearing_account = reader.next_string();
        scale_delta_neutral_clearing_intent = reader.next_string();
    }
    proof {
        assert(reader.position() == pos_2);
    }
    if version >= 31 && !scale_delta_neutral_order_type.as_str().is_empty() {
        scale_delta_neutral_open_close = reader.next_string();
        scale_delta_neutral_short_sale = reader.next_bool();
        scale_delta_neutral_short_sale_slot = reader.next_i32_or_default();
        scale_delta_neutral_designated_location = reader.next_string();
    }
    proof {
        assert(reader.position() == pos_4);
    }
    scale_continuous_update = reader.next_bool();
    scale_reference_price_type = reader.next_i32_or_default();
    scale_trail_stop_price = reader.next_double();
    if version >= 30 {
        scale_trailing_percent = reader.next_double();
    }
    proof {
        assert(reader.position() == pos_6);
    }
    if version >= 20 {
        scale_scale_init_level_size = reader.next_i32_or_default();
        scale_scale_subs_level_size = reader.next_i32_or_default();
    } else {
        let _ = reader.next_string();
        scale_scale_init_level_size = reader.next_i32_or_default();
    }
    proof {
        assert(reader.position() == pos_6 + 2);
    }
    scale_scale_price_increment = reader.next_double();
    if version >= 28 && scale_scale_price_increment.is_nonzero() {
        scale_scale_price_adjust_value = reader.next_double();
        scale_scale_price_adjust_interval = reader.next_i32_or_default();
        scale_scale_profit_offset = reader.next_double();
        scale_scale_auto_reset = reader.next_bool();
        scale_scale_init_position = reader.next_i32_or_default();
        scale_scale_init_fill_qty = reader.next_i32_or_default();
        scale_scale_random_percent = reader.next_bool();
    }
    proof {
        assert(reader.position() == pos_9);
    }
    let scale = OrderDeltaNeutralScale { delta_neutral_order_type: scale_delta_neutral_order_type, delta_neutral_aux_price: scale_delta_neutral_aux_price, delta_neutral_con_id: scale_delta_neutral_con_id, delta_neutral_settling_firm: scale_delta_neutral_settling_firm, delta_neutral_clearing_account: scale_delta_neutral_clearing_account, delta_neutral_clearing_intent: scale_delta_neutral_clearing_intent, delta_neutral_open_close: scale_delta_neutral_open_close, delta_neutral_short_sale: scale_delta_neutral_short_sale, delta_neutral_short_sale_slot: scale_delta_neutral_short_sale_slot, delta_neutral_designated_location: scale_delta_neutral_designated_location, continuous_update: scale_continuous_update, reference_price_type: scale_reference_price_type, trail_stop_price: scale_trail_stop_price, trailing_percent: scale_trailing_percent, scale_init_level_size: scale_scale_init_level_size, scale_subs_level_size: scale_scale_subs_level_size, scale_price_increment: scale_scale_price_increment, scale_price_adjust_value: scale_scale_price_adjust_value, scale_price_adjust_interval: scale_scale_price_adjust_interval, scale_profit_offset: scale_scale_profit_offset, scale_auto_reset: scale_scale_auto_reset, scale_init_position: scale_scale_init_position, scale_init_fill_qty: scale_scale_init_fill_qty, scale_random_percent: scale_scale_random_percent };

    scale
}

/// The fields of `OrderCommonRest` that order algo reads, as its own value.
pub open spec fn order_algo_in_order_common_rest(x: OrderCommonRest) -> OrderAlgo {
    OrderAlgo { algo_strategy: x.algo_strategy, algo_params: x.algo_params }
}

/// The position after the order fields from the scale table to the algorithm parameters read at position `q`.
#[verifier::opaque]
pub open spec fn order_common_rest_end(t: Seq<Seq<char>>, q: int, version: int) -> int {
    let cond_1: bool = (text_at(t, q + 3)).len() > 0;
    let opt_out_smart_routing_pos: int = if cond_1 { q + 5 } else { q + 4 };
    let since_version_20: bool = (version) >= 20;
    let cond_4: bool = (bool_at(t, opt_out_smart_routing_pos + 4));
    let pos_5: int = if cond_4 { opt_out_smart_routing_pos + 8 } else { opt_out_smart_routing_pos + 5 };
    let pos_6: int = if since_version_20 { pos_5 } else { opt_out_smart_routing_pos + 4 };
    let start_7: int = pos_6;
    order_algo_end(t, start_7)
}

/// What the order fields from the scale table to the algorithm parameters read at position `q` holds, field by field.
#[verifier::opaque]
pub open spec fn order_common_rest_out(t: Seq<Seq<char>>, q: int, version: int, after: OrderCommonRest) -> bool {
    let cond_1: bool = (text_at(t, q + 3)).len() > 0;
    let opt_out_smart_routing_pos: int = if cond_1 { q + 5 } else { q + 4 };
    let since_version_20: bool = (version) >= 20;
    let cond_4: bool = (bool_at(t, opt_out_smart_routing_pos + 4));
    let pos_5: int = if cond_4 { opt_out_smart_routing_pos + 8 } else { opt_out_smart_routing_pos + 5 };
    let pos_6: int = if since_version_20 { pos_5 } else { opt_out_smart_routing_pos + 4 };
    let start_7: int = pos_6;
    after.scale_table@ == text_at(t, q)
            && after.active_start_time@ == text_at(t, q + 1)
            && after.active_stop_time@ == text_at(t, q + 2)
            && after.hedge_type@ == text_at(t, q + 3)
            && after.hedge_param@ == (if cond_1 { text_at(t, q + 4) } else { Seq::<char>::empty() })
            && after.opt_out_smart_routing == bool_at(t, opt_out_smart_routing_pos)
            && after.clearing_account@ == text_at(t, opt_out_smart_routing_pos + 1)
            && after.clearing_intent@ == text_at(t, opt_out_smart_routing_pos + 2)
            && after.not_held == bool_at(t, opt_out_smart_routing_pos + 3)
            && order_algo_out(t, start_7, order_algo_in_order_common_rest(after))
}

/// What reading the order fields from the scale table to the algorithm parameters at position `q` gives: `after`, and the position `end` after it.
pub open spec fn order_common_rest_read(t: Seq<Seq<char>>, q: int, version: int, after: OrderCommonRest, end: int) -> bool {
    end == order_common_rest_end(t, q, version) && order_common_rest_out(t, q, version, after)
}

/// Reads the order fields from the scale table to the algorithm parameters.
#[verifier::spinoff_prover]
#[verifier::rlimit(40)]
fn read_order_common_rest(reader: &mut FieldReader, version: i32) -> (x: OrderCommonRest)
    requires
        old(reader).wf(),
    ensures
        final(reader).wf(),
        final(reader).texts() == old(reader).texts(),
        order_common_rest_read(old(reader).texts(), old(reader).position(), version as int, x, final(reader).position()),
{
    proof {
        reveal(order_common_rest_end);
        reveal(order_common_rest_out);
    }
    let ghost t = reader.texts();
    let ghost q = reader.position();
    let ghost cond_1: bool = (text_at(t, q + 3)).len() > 0;
    let ghost pos_2: int = if cond_1 { q + 5 } else { q + 4 };
    let ghost cond_3: bool = ((version as int)) >= 20;
    let ghost cond_4: bool = (bool_at(t, pos_2 + 4));
    let ghost pos_5: int = if cond_4 { pos_2 + 8 } else { pos_2 + 5 };
    let ghost pos_6: int = if cond_3 { pos_5 } else { pos_2 + 4 };
    let ghost start_7: int = pos_6;
    let mut rest_scale_table: String = String::new();
    let mut rest_active_start_time: String = String::new();
    let mut rest_active_stop_time: String = String::new();
    let mut rest_hedge_type: String = String::new();
    let mut rest_hedge_param: String = String::new();
    let mut rest_opt_out_smart_routing: bool = false;
    let mut rest_clearing_account: String = String::new();
    let mut rest_clearing_intent: String = String::new();
    let mut rest_not_held: bool = false;
    let mut rest_algo_strategy: String = String::new();
    let mut rest_algo_params: Vec<TagValue> = Vec::new();
    rest_scale_table = reader.next_string();
    rest_active_start_time = reader.next_string();
    rest_active_stop_time = reader.next_string();
    rest_hedge_type = reader.next_string();
    if !rest_hedge_type.as_str().is_empty() {
        rest_hedge_param = reader.next_string();
    }
    proof {
        assert(reader.position() == pos_2);
    }
    rest_opt_out_smart_routing = reader.next_bool();
    rest_clearing_account = reader.next_string();
    rest_clearing_intent = reader.next_string();
    rest_not_held = reader.next_bool();
    let mut has_delta_neutral: bool = false;
    if version >= 20 {
        has_delta_neutral = reader.next_bool();
        if has_delta_neutral {
            let _ = reader.next_i32_or_default();
            let _ = reader.next_double();
            let _ = reader.next_double();
        }
        proof {
            assert(reader.position() == pos_5);
        }
    }
    proof {
        assert(reader.position() == pos_6);
    }
    proof {
        assert(reader.position() == pos_6);
    }
    let algo = read_order_algo(reader);
    let ghost algo_g = algo;
    rest_algo_strategy = algo.algo_strategy;
    rest_algo_params = algo.algo_params;
    let rest = OrderCommonRest { scale_table: rest_scale_table, active_start_time: rest_active_start_time, active_stop_time: rest_active_stop_time, hedge_type: rest_hedge_type, hedge_param: rest_hedge_param, opt_out_smart_routing: rest_opt_out_smart_routing, clearing_account: rest_clearing_account, clearing_intent: rest_clearing_intent, not_held: rest_not_held, algo_strategy: rest_algo_strategy, algo_params: rest_algo_params };
    proof {
        assert(order_algo_in_order_common_rest(rest) == algo_g);
    }

    rest
}

/// The fields of `OrderCommon` that order common head reads, as its own value.
pub open spec fn order_common_head_in_order_common(x: OrderCommon) -> OrderCommonHead {
    OrderCommonHead { outside_rth: x.outside_rth, hidden: x.hidden, discretionary_amount: x.discretionary_amount, good_after_time: x.good_after_time, fa_group: x.fa_group, fa_method: x.fa_method, fa_percentage: x.fa_percentage, model_code: x.model_code, good_till_date: x.good_till_date, rule80a: x.rule80a, percent_offset: x.percent_offset, settling_firm: x.settling_firm, short_sale_slot: x.short_sale_slot, designated_location: x.designated_location, exempt_code: x.exempt_code, oca_type: x.oca_type, all_or_none: x.all_or_none, min_qty: x.min_qty, parent_id: x.parent_id, trigger_method: x.trigger_method, volatility: x.volatility, volatility_type: x.volatility_type }
}

/// The fields of `OrderCommon` that order delta neutral scale reads, as its own value.
pub open spec fn order_delta_neutral_scale_in_order_common(x: OrderCommon) -> OrderDeltaNeutralScale {
    OrderDeltaNeutralScale { delta_neutral_order_type: x.delta_neutral_order_type, delta_neutral_aux_price: x.delta_neutral_aux_price, delta_neutral_con_id: x.delta_neutral_con_id, delta_neutral_settling_firm: x.delta_neutral_settling_firm, delta_neutral_clearing_account: x.delta_neutral_clearing_account, delta_neutral_clearing_intent: x.delta_neutral_clearing_intent, delta_neutral_open_close: x.delta_neutral_open_close, delta_neutral_short_sale: x.delta_neutral_short_sale, delta_neutral_short_sale_slot: x.delta_neutral_short_sale_slot, delta_neutral_designated_location: x.delta_neutral_designated_location, continuous_update: x.continuous_update, reference_price_type: x.reference_price_type, trail_stop_price: x.trail_stop_price, trailing_percent: x.trailing_percent, scale_init_level_size: x.scale_init_level_size, scale_subs_level_size: x.scale_subs_level_size, scale_price_increment: x.scale_price_increment, scale_price_adjust_value: x.scale_price_adjust_value, scale_price_adjust_interval: x.scale_price_adjust_interval, scale_profit_offset: x.scale_profit_offset, scale_auto_reset: x.scale_auto_reset, scale_init_position: x.scale_init_position, scale_init_fill_qty: x.scale_init_fill_qty, scale_random_percent: x.scale_random_percent }
}

/// The fields of `OrderCommon` that order common rest reads, as its own value.
pub open spec fn order_common_rest_in_order_common(x: OrderCommon) -> OrderCommonRest {
    OrderCommonRest { scale_table: x.scale_table, active_start_time: x.active_start_time, active_stop_time: x.active_stop_time, hedge_type: x.hedge_type, hedge_param: x.hedge_param, opt_out_smart_routing: x.opt_out_smart_routing, clearing_account: x.clearing_account, clearing_intent: x.clearing_intent, not_held: x.not_held, algo_strategy: x.algo_strategy, algo_params: x.algo_params }
}

/// The position after the order fields that open and completed orders share after the permanent id read at position `q`.
#[verifier::opaque]
pub open spec fn order_common_end(t: Seq<Seq<char>>, q: int, version: int) -> int {
    let start_1: int = q;
    let start_2: int = order_common_head_end(t, start_1, (version));
    let start_3: int = order_delta_neutral_scale_end(t, start_2, (version));
    order_common_rest_end(t, start_3, (version))
}

/// What the order fields that open and completed orders share after the permanent id read at position `q` holds, field by field.
#[verifier::opaque]
pub open spec fn order_common_out(t: Seq<Seq<char>>, q: int, version: int, after: OrderCommon) -> bool {
    let start_1: int = q;
    let start_2: int = order_common_head_end(t, start_1, (version));
    let start_3: int = order_delta_neutral_scale_end(t, start_2, (version));
    order_common_head_out(t, start_1, (version), order_common_head_in_order_common(after))
            && order_delta_neutral_scale_out(t, start_2, (version), order_delta_neutral_scale_in_order_common(after))
            && order_common_rest_out(t, start_3, (version), order_common_rest_in_order_common(after))
}

/// What reading the order fields that open and completed orders share after the permanent id at position `q` gives: `after`, and the position `end` after it.
pub open spec fn order_common_read(t: Seq<Seq<char>>, q: int, version: int, after: OrderCommon, end: int) -> bool {
    end == order_common_end(t, q, version) && order_common_out(t, q, version, after)
}

/// Reads the order fields that open and completed orders share after the permanent id.
fn read_order_common(reader: &mut FieldReader, version: i32) -> (x: OrderCommon)
    requires
        old(reader).wf(),
    ensures
        final(reader).wf(),
        final(reader).texts() == old(reader).texts(),
        order_common_read(old(reader).texts(), old(reader).position(), version as int, x, final(reader).position()),
{
    proof {
        reveal(order_common_end);
        reveal(order_common_out);
    }
    let ghost t = reader.texts();
    let ghost q = reader.position();
    let ghost start_1: int = q;
    let ghost start_2: int = order_common_head_end(t, start_1, ((version as int)));
    let ghost start_3: int = order_delta_neutral_scale_end(t, start_2, ((version as int)));
    let mut common_outside_rth: bool = false;
    let mut common_hidden: bool = false;
    let mut common_discretionary_amount: Double = Double::zero();
    let mut common_good_after_time: String = String::new();
    let mut common_fa_group: String = String::new();
    let mut common_fa_method: String = String::new();
    let mut common_fa_percentage: String = String::new();
    let mut common_model_code: String = String::new();
    let mut common_good_till_date: String = String::new();
    let mut common_rule80a: String = String::new();
    let mut common_percent_offset: Double = Double::unset();
    let mut common_settling_firm: String = String::new();
    let mut common_short_sale_slot: i32 = 0;
    let mut common_designated_location: String = String::new();
    let mut common_exempt_code: i32 = -1;
    let mut common_oca_type: i32 = 0;
    let mut common_all_or_none: bool = false;
    let mut common_min_qty: i32 = UNSET_INTEGER;
    let mut common_parent_id: i32 = 0;
    let mut common_trigger_method: i32 = 0;
    let mut common_volatility: Double = Double::unset();
    let mut common_volatility_type: i32 = UNSET_INTEGER;
    let mut common_delta_neutral_order_type: String = String::new();
    let mut common_delta_neutral_aux_price: Double = Double::unset();
    let mut common_delta_neutral_con_id: i32 = 0;
    let mut common_delta_neutral_settling_firm: String = String::new();
    let mut common_delta_neutral_clearing_account: String = String::new();
    let mut common_delta_neutral_clearing_intent: String = String::new();
    let mut common_delta_neutral_open_close: String = String::new();
    let mut common_delta_neutral_short_sale: bool = false;
    let mut common_delta_neutral_short_sale_slot: i32 = 0;
    let mut common_delta_neutral_designated_location: String = String::new();
    let mut common_continuous_update: bool = false;
    let mut common_reference_price_type: i32 = UNSET_INTEGER;
    let mut common_trail_stop_price: Double = Double::unset();
    let mut common_trailing_percent: Double = Double::unset();
    let mut common_scale_init_level_size: i32 = UNSET_INTEGER;
    let mut common_scale_subs_level_size: i32 = UNSET_INTEGER;
    let mut common_scale_price_increment: Double = Double::unset();
    let mut common_scale_price_adjust_value: Double = Double::unset();
    let mut common_scale_price_adjust_interval: i32 = UNSET_INTEGER;
    let mut common_scale_profit_offset: Double = Double::unset();
    let mut common_scale_auto_reset: bool = false;
    let mut common_scale_init_position: i32 = UNSET_INTEGER;
    let mut common_scale_init_fill_qty: i32 = UNSET_INTEGER;
    let mut common_scale_random_percent: bool = false;
    let mut common_scale_table: String = String::new();
    let mut common_active_start_time: String = String::new();
    let mut common_active_stop_time: String = String::new();
    let mut common_hedge_type: String = String::new();
    let mut common_hedge_param: String = String::new();
    let mut common_opt_out_smart_routing: bool = false;
    let mut common_clearing_account: String = String::new();
    let mut common_clearing_intent: String = String::new();
    let mut common_not_held: bool = false;
    let mut common_algo_strategy: String = String::new();
    let mut common_algo_params: Vec<TagValue> = Vec::new();
    proof {
        assert(reader.position() == q);
    }
    let head = read_order_common_head(reader, version);
    let ghost head_g = head;
    common_outside_rth = head.outside_rth;
    common_hidden = head.hidden;
    common_discretionary_amount = head.discretionary_amount;
    common_good_after_time = head.good_after_time;
    common_fa_group = head.fa_group;
    common_fa_method = head.fa_method;
    common_fa_percentage = head.fa_percentage;
    common_model_code = head.model_code;
    common_good_till_date = head.good_till_date;
    common_rule80a = head.rule80a;
    common_percent_offset = head.percent_offset;
    common_settling_firm = head.settling_firm;
    common_short_sale_slot = head.short_sale_slot;
    common_designated_location = head.designated_location;
    common_exempt_code = head.exempt_code;
    common_oca_type = head.oca_type;
    common_all_or_none = head.all_or_none;
    common_min_qty = head.min_qty;
    common_parent_id = head.parent_id;
    common_trigger_method = head.trigger_method;
    common_volatility = head.volatility;
    common_volatility_type = head.volatility_type;
    proof {
        assert(reader.position() == order_common_head_end(t, start_1, ((version as int))));
    }
    let scale = read_order_delta_neutral_scale(reader, version);
    let ghost scale_g = scale;
    common_delta_neutral_order_type = scale.delta_neutral_order_type;
    common_delta_neutral_aux_price = scale.delta_neutral_aux_price;
    common_delta_neutral_con_id = scale.delta_neutral_con_id;
    common_delta_neutral_settling_firm = scale.delta_neutral_settling_firm;
    common_delta_neutral_clearing_account = scale.delta_neutral_clearing_account;
    common_delta_neutral_clearing_intent = scale.delta_neutral_clearing_intent;
    common_delta_neutral_open_close = scale.delta_neutral_open_close;
    common_delta_neutral_short_sale = scale.delta_neutral_short_sale;
    common_delta_neutral_short_sale_slot = scale.delta_neutral_short_sale_slot;
    common_delta_neutral_designated_location = scale.delta_neutral_designated_location;
    common_continuous_update = scale.continuous_update;
    common_reference_price_type = scale.reference_price_type;
    common_trail_stop_price = scale.trail_stop_price;
    common_trailing_percent = scale.trailing_percent;
    common_scale_init_level_size = scale.scale_init_level_size;
    common_scale_subs_level_size = scale.scale_subs_level_size;
    common_scale_price_increment = scale.scale_price_increment;
    common_scale_price_adjust_value = scale.scale_price_adjust_value;
    common_scale_price_adjust_interval = scale.scale_price_adjust_interval;
    common_scale_profit_offset = scale.scale_profit_offset;
    common_scale_auto_reset = scale.scale_auto_reset;
    common_scale_init_position = scale.scale_init_position;
    common_scale_init_fill_qty = scale.scale_init_fill_qty;
    common_scale_random_percent = scale.scale_random_percent;
    proof {
        assert(reader.position() == order_delta_neutral_scale_end(t, start_2, ((version as int))));
    }
    let rest = read_order_common_rest(reader, version);
    let ghost rest_g = rest;
    common_scale_table = rest.scale_table;
    common_active_start_time = rest.active_start_time;
    common_active_stop_time = rest.active_stop_time;
    common_hedge_type = rest.hedge_type;
    common_hedge_param = rest.hedge_param;
    common_opt_out_smart_routing = rest.opt_out_smart_routing;
    common_clearing_account = rest.clearing_account;
    common_clearing_intent = rest.clearing_intent;
    common_not_held = rest.not_held;
    common_algo_strategy = rest.algo_strategy;
    common_algo_params = rest.algo_params;
    let common = OrderCommon { outside_rth: common_outside_rth, hidden: common_hidden, discretionary_amount: common_discretionary_amount, good_after_time: common_good_after_time, fa_group: common_fa_group, fa_method: common_fa_method, fa_percentage: common_fa_percentage, model_code: common_model_code, good_till_date: common_good_till_date, rule80a: common_rule80a, percent_offset: common_percent_offset, settling_firm: common_settling_firm, short_sale_slot: common_short_sale_slot, designated_location: common_designated_location, exempt_code: common_exempt_code, oca_type: common_oca_type, all_or_none: common_all_or_none, min_qty: common_min_qty, parent_id: common_parent_id, trigger_method: common_trigger_method, volatility: common_volatility, volatility_type: common_volatility_type, delta_neutral_order_type: common_delta_neutral_order_type, delta_neutral_aux_price: common_delta_neutral_aux_price, delta_neutral_con_id: common_delta_neutral_con_id, delta_neutral_settling_firm: common_delta_neutral_settling_firm, delta_neutral_clearing_account: common_delta_neutral_clearing_account, delta_neutral_clearing_intent: common_delta_neutral_clearing_intent, delta_neutral_open_close: common_delta_neutral_open_close, delta_neutral_short_sale: common_delta_neutral_short_sale, delta_neutral_short_sale_slot: common_delta_neutral_short_sale_slot, delta_neutral_designated_location: common_delta_neutral_designated_location, continuous_update: common_continuous_update, reference_price_type: common_reference_price_type, trail_stop_price: common_trail_stop_price, trailing_percent: common_trailing_percent, scale_init_level_size: common_scale_init_level_size, scale_subs_level_size: common_scale_subs_level_size, scale_price_increment: common_scale_price_increment, scale_price_adjust_value: common_scale_price_adjust_value, scale_price_adjust_interval: common_scale_price_adjust_interval, scale_profit_offset: common_scale_profit_offset, scale_auto_reset: common_scale_auto_reset, scale_init_position: common_scale_init_position, scale_init_fill_qty: common_scale_init_fill_qty, scale_random_percent: common_scale_random_percent, scale_table: common_scale_table, active_start_time: common_active_start_time, active_stop_time: common_active_stop_time, hedge_type: common_hedge_type, hedge_param: common_hedge_param, opt_out_smart_routing: common_opt_out_smart_routing, clearing_account: common_clearing_account, clearing_intent: common_clearing_intent, not_held: common_not_held, algo_strategy: common_algo_strategy, algo_params: common_algo_params };
    proof {
        assert(order_common_head_in_order_common(common) == head_g);
        assert(order_delta_neutral_scale_in_order_common(common) == scale_g);
        assert(order_common_rest_in_order_common(common) == rest_g);
    }

    common
}

/// The position after the state of an open order: status, margins, commissions, allocations and completion read at position `q`.
#[verifier::opaque]
pub open spec fn order_open_state_end(t: Seq<Seq<char>>, q: int) -> int {
    let allocation_count: int = max_zero((i32_or_zero(t, q + 26)));
    let allocations_start: int = q + 27;
    (allocations_start + allocation_count * 7) + 3
}

/// What the state of an open order: status, margins, commissions, allocations and completion read at position `q` holds, field by field.
#[verifier::opaque]
pub open spec fn order_open_state_out(t: Seq<Seq<char>>, q: int, after: OrderState) -> bool {
    let allocation_count: int = max_zero((i32_or_zero(t, q + 26)));
    let allocations_start: int = q + 27;
    after.status@ == text_at(t, q)
            && after.init_margin_before.text@ == text_at(t, q + 1)
            && after.maint_margin_before.text@ == text_at(t, q + 2)
            && after.equity_with_loan_before.text@ == text_at(t, q + 3)
            && after.init_margin_change.text@ == text_at(t, q + 4)
            && after.maint_margin_change.text@ == text_at(t, q + 5)
            && after.equity_with_loan_change.text@ == text_at(t, q + 6)
            && after.init_margin_after.text@ == text_at(t, q + 7)
            && after.maint_margin_after.text@ == text_at(t, q + 8)
            && after.equity_with_loan_after.text@ == text_at(t, q + 9)
            && after.commission_and_fees.text@ == text_at(t, q + 10)
            && after.min_commission_and_fees.text@ == text_at(t, q + 11)
            && after.max_commission_and_fees.text@ == text_at(t, q + 12)
            && after.commission_and_fees_currency@ == text_at(t, q + 13)
            && after.margin_currency@ == text_at(t, q + 14)
            && after.init_margin_before_outside_rth.text@ == text_at(t, q + 15)
            && after.maint_margin_before_outside_rth.text@ == text_at(t, q + 16)
            && after.equity_with_loan_before_outside_rth.text@ == text_at(t, q + 17)
            && after.init_margin_change_outside_rth.text@ == text_at(t, q + 18)
            && after.maint_margin_change_outside_rth.text@ == text_at(t, q + 19)
            && after.equity_with_loan_change_outside_rth.text@ == text_at(t, q + 20)
            && after.init_margin_after_outside_rth.text@ == text_at(t, q + 21)
            && after.maint_margin_after_outside_rth.text@ == text_at(t, q + 22)
            && after.equity_with_loan_after_outside_rth.text@ == text_at(t, q + 23)
            && after.suggested_size@ == text_at(t, q + 24)
            && after.reject_reason@ == text_at(t, q + 25)
            && allocation_list_out(t, allocations_start, allocation_count, after.order_allocations@)
            && after.warning_text@ == text_at(t, (allocations_start + allocation_count * 7))
            && after.completed_time@ == text_at(t, (allocations_start + allocation_count * 7) + 1)
            && after.completed_status@ == text_at(t, (allocations_start + allocation_count * 7) + 2)
}

/// True when every field of the state of an open order: status, margins, commissions, allocations and completion at position `q` can be read.
#[verifier::opaque]
pub open spec fn order_open_state_ok(t: Seq<Seq<char>>, q: int) -> bool {
    let allocation_count: int = max_zero((i32_or_zero(t, q + 26)));
    let allocations_start: int = q + 27;
    allocation_list_ok(t, allocations_start, allocation_count)
}

/// The error reading the state of an open order: status, margins, commissions, allocations and completion at position `q` gives: that of its first field that cannot be read.
#[verifier::opaque]
pub open spec fn order_open_state_err(t: Seq<Seq<char>>, q: int, e: TwsApiError) -> bool {
    let allocation_count: int = max_zero((i32_or_zero(t, q + 26)));
    let allocations_start: int = q + 27;
    (!allocation_list_ok(t, allocations_start, allocation_count) && allocation_list_err(t, allocations_start, allocation_count, e))
}

/// What reading the state of an open order: status, margins, commissions, allocations and completion at position `q` gives: the value and the position `end` after it when
/// every field can be read, else the error of the first that cannot.
pub open spec fn order_open_state_read(t: Seq<Seq<char>>, q: int, r: Result<OrderState, TwsApiError>, end: int) -> bool {
    if order_open_state_ok(t, q) {
        r matches Ok(after) && end == order_open_state_end(t, q) && order_open_state_out(t, q, after)
    } else {
        r matches Err(e) && order_open_state_err(t, q, e)
    }
}

/// Reads the state of an open order: status, margins, commissions, allocations and completion.
#[verifier::spinoff_prover]
#[verifier::rlimit(40)]
fn read_order_open_state(reader: &mut FieldReader) -> (r: Result<OrderState, TwsApiError>)
    requires
        old(reader).wf(),
    ensures
        final(reader).wf(),
        final(reader).texts() == old(reader).texts(),
        order_open_state_read(old(reader).texts(), old(reader).position(), r, final(reader).position()),
{
    proof {
        reveal(order_open_state_end);
        reveal(order_open_state_out);
        reveal(order_open_state_ok);
        reveal(order_open_state_err);
    }
    let ghost t = reader.texts();
    let ghost q = reader.position();
    let ghost count_1: int = max_zero((i32_or_zero(t, q + 26)));
    let ghost start_2: int = q + 27;
    let mut state_status: String = String::new();
    let mut state_init_margin_before: Double = Double::zero();
    let mut state_maint_margin_before: Double = Double::zero();
    let mut state_equity_with_loan_before: Double = Double::zero();
    let mut state_init_margin_change: Double = Double::zero();
    let mut state_maint_margin_change: Double = Double::zero();
    let mut state_equity_with_loan_change: Double = Double::zero();
    let mut state_init_margin_after: Double = Double::zero();
    let mut state_maint_margin_after: Double = Double::zero();
    let mut state_equity_with_loan_after: Double = Double::zero();
    let mut state_commission_and_fees: Double = Double::zero();
    let mut state_min_commission_and_fees: Double = Double::zero();
    let mut state_max_commission_and_fees: Double = Double::zero();
    let mut state_commission_and_fees_currency: String = String::new();
    let mut state_margin_currency: String = String::new();
    let mut state_init_margin_before_outside_rth: Double = Double::zero();
    let mut state_maint_margin_before_outside_rth: Double = Double::zero();
    let mut state_equity_with_loan_before_outside_rth: Double = Double::zero();
    let mut state_init_margin_change_outside_rth: Double = Double::zero();
    let mut state_maint_margin_change_outside_rth: Double = Double::zero();
    let mut state_equity_with_loan_change_outside_rth: Double = Double::zero();
    let mut state_init_margin_after_outside_rth: Double = Double::zero();
    let mut state_maint_margin_after_outside_rth: Double = Double::zero();
    let mut state_equity_with_loan_after_outside_rth: Double = Double::zero();
    let mut state_suggested_size: String = String::new();
    let mut state_reject_reason: String = String::new();
    let mut state_order_allocations: Vec<OrderAllocation> = Vec::new();
    let mut state_warning_text: String = String::new();
    let mut state_completed_time: String = String::new();
    let mut state_completed_status: String = String::new();
    state_status = reader.next_string();
    state_init_margin_before = reader.next_double();
    state_maint_margin_before = reader.next_double();
    state_equity_with_loan_before = reader.next_double();
    state_init_margin_change = reader.next_double();
    state_maint_margin_change = reader.next_double();
    state_equity_with_loan_change = reader.next_double();
    state_init_margin_after = reader.next_double();
    state_maint_margin_after = reader.next_double();
    state_equity_with_loan_after = reader.next_double();
    state_commission_and_fees = reader.next_double();
    state_min_commission_and_fees = reader.next_double();
    state_max_commission_and_fees = reader.next_double();
    state_commission_and_fees_currency = reader.next_string();
    state_margin_currency = reader.next_string();
    state_init_margin_before_outside_rth = reader.next_double();
    state_maint_margin_before_outside_rth = reader.next_double();
    state_equity_with_loan_before_outside_rth = reader.next_double();
    state_init_margin_change_outside_rth = reader.next_double();
    state_maint_margin_change_outside_rth = reader.next_double();
    state_equity_with_loan_change_outside_rth = reader.next_double();
    state_init_margin_after_outside_rth = reader.next_double();
    state_maint_margin_after_outside_rth = reader.next_double();
    state_equity_with_loan_after_outside_rth = reader.next_double();
    state_suggested_size = reader.next_string();
    state_reject_reason = reader.next_string();
    let allocation_count: i32 = reader.next_i32_or_default();
    proof {
        assert(reader.position() == q + 27);
    }
    state_order_allocations = match read_allocation_list(reader, allocation_count) {
        Ok(v) => v,
        Err(e) => return Err(e),
    };
    state_warning_text = reader.next_string();
    state_completed_time = reader.next_string();
    state_completed_status = reader.next_string();
    let state = OrderState { status: state_status, init_margin_before: state_init_margin_before, maint_margin_before: state_maint_margin_before, equity_with_loan_before: state_equity_with_loan_before, init_margin_change: state_init_margin_change, maint_margin_change: state_maint_margin_change, equity_with_loan_change: state_equity_with_loan_change, init_margin_after: state_init_margin_after, maint_margin_after: state_maint_margin_after, equity_with_loan_after: state_equity_with_loan_after, commission_and_fees: state_commission_and_fees, min_commission_and_fees: state_min_commission_and_fees, max_commission_and_fees: state_max_commission_and_fees, commission_and_fees_currency: state_commission_and_fees_currency, margin_currency: state_margin_currency, init_margin_before_outside_rth: state_init_margin_before_outside_rth, maint_margin_before_outside_rth: state_maint_margin_before_outside_rth, equity_with_loan_before_outside_rth: state_equity_with_loan_before_outside_rth, init_margin_change_outside_rth: state_init_margin_change_outside_rth, maint_margin_change_outside_rth: state_maint_margin_change_outside_rth, equity_with_loan_change_outside_rth: state_equity_with_loan_change_outside_rth, init_margin_after_outside_rth: state_init_margin_after_outside_rth, maint_margin_after_outside_rth: state_maint_margin_after_outside_rth, equity_with_loan_after_outside_rth: state_equity_with_loan_after_outside_rth, suggested_size: state_suggested_size, reject_reason: state_reject_reason, order_allocations: state_order_allocations, warning_text: state_warning_text, completed_time: state_completed_time, completed_status: state_completed_status };

    Ok(state)
}

/// The position after the order fields at the end of open and completed orders read at position `q`.
#[verifier::opaque]
pub open spec fn order_state_tail_end(t: Seq<Seq<char>>, q: int) -> int {
    q + 11
}

/// What the order fields at the end of open and completed orders read at position `q` holds, field by field.
#[verifier::opaque]
pub open spec fn order_state_tail_out(t: Seq<Seq<char>>, q: int, after: OrderTail) -> bool {
    after.min_trade_qty == i32_or_zero(t, q)
            && after.min_compete_size == i32_or_zero(t, q + 1)
            && after.compete_against_best_offset.text@ == text_at(t, q + 2)
            && after.mid_offset_at_whole.text@ == text_at(t, q + 3)
            && after.mid_offset_at_half.text@ == text_at(t, q + 4)
            && after.customer_account@ == text_at(t, q + 5)
            && after.professional_customer == bool_at(t, q + 6)
            && after.bond_accrued_interest@ == text_at(t, q + 7)
            && after.include_overnight == bool_at(t, q + 8)
            && after.manual_order_indicator == i32_or_zero(t, q + 9)
            && after.submitter@ == text_at(t, q + 10)
}

/// What reading the order fields at the end of open and completed orders at position `q` gives: `after`, and the position `end` after it.
pub open spec fn order_state_tail_read(t: Seq<Seq<char>>, q: int, after: OrderTail, end: int) -> bool {
    end == order_state_tail_end(t, q) && order_state_tail_out(t, q, after)
}

/// Reads the order fields at the end of open and completed orders.
fn read_order_state_tail(reader: &mut FieldReader) -> (x: OrderTail)
    requires
        old(reader).wf(),
    ensures
        final(reader).wf(),
        final(reader).texts() == old(reader).texts(),
        order_state_tail_read(old(reader).texts(), old(reader).position(), x, final(reader).position()),
{
    proof {
        reveal(order_state_tail_end);
        reveal(order_state_tail_out);
    }
    let ghost t = reader.texts();
    let ghost q = reader.position();
    let mut tail_min_trade_qty: i32 = UNSET_INTEGER;
    let mut tail_min_compete_size: i32 = UNSET_INTEGER;
    let mut tail_compete_against_best_offset: Double = Double::unset();
    let mut tail_mid_offset_at_whole: Double = Double::unset();
    let mut tail_mid_offset_at_half: Double = Double::unset();
    let mut tail_customer_account: String = String::new();
    let mut tail_professional_customer: bool = false;
    let mut tail_bond_accrued_interest: String = String::new();
    let mut tail_include_overnight: bool = false;
    let mut tail_manual_order_indicator: i32 = UNSET_INTEGER;
    let mut tail_submitter: String = String::new();
    tail_min_trade_qty = reader.next_i32_or_default();
    tail_min_compete_size = reader.next_i32_or_default();
    tail_compete_against_best_offset = reader.next_double();
    tail_mid_offset_at_whole = reader.next_double();
    tail_mid_offset_at_half = reader.next_double();
    tail_customer_account = reader.next_string();
    tail_professional_customer = reader.next_bool();
    tail_bond_accrued_interest = reader.next_string();
    tail_include_overnight = reader.next_bool();
    tail_manual_order_indicator = reader.next_i32_or_default();
    tail_submitter = reader.next_string();
    let tail = OrderTail { min_trade_qty: tail_min_trade_qty, min_compete_size: tail_min_compete_size, compete_against_best_offset: tail_compete_against_best_offset, mid_offset_at_whole: tail_mid_offset_at_whole, mid_offset_at_half: tail_mid_offset_at_half, customer_account: tail_customer_account, professional_customer: tail_professional_customer, bond_accrued_interest: tail_bond_accrued_interest, include_overnight: tail_include_overnight, manual_order_indicator: tail_manual_order_indicator, submitter: tail_submitter };

    tail
}

/// The fields of `Order` that order common reads, as its own value.
pub open spec fn order_common_in_order(x: Order) -> OrderCommon {
    OrderCommon { outside_rth: x.outside_rth, hidden: x.hidden, discretionary_amount: x.discretionary_amount, good_after_time: x.good_after_time, fa_group: x.fa_group, fa_method: x.fa_method, fa_percentage: x.fa_percentage, model_code: x.model_code, good_till_date: x.good_till_date, rule80a: x.rule80a, percent_offset: x.percent_offset, settling_firm: x.settling_firm, short_sale_slot: x.short_sale_slot, designated_location: x.designated_location, exempt_code: x.exempt_code, oca_type: x.oca_type, all_or_none: x.all_or_none, min_qty: x.min_qty, parent_id: x.parent_id, trigger_method: x.trigger_method, volatility: x.volatility, volatility_type: x.volatility_type, delta_neutral_order_type: x.delta_neutral_order_type, delta_neutral_aux_price: x.delta_neutral_aux_price, delta_neutral_con_id: x.delta_neutral_con_id, delta_neutral_settling_firm: x.delta_neutral_settling_firm, delta_neutral_clearing_account: x.delta_neutral_clearing_account, delta_neutral_clearing_intent: x.delta_neutral_clearing_intent, delta_neutral_open_close: x.delta_neutral_open_close, delta_neutral_short_sale: x.delta_neutral_short_sale, delta_neutral_short_sale_slot: x.delta_neutral_short_sale_slot, delta_neutral_designated_location: x.delta_neutral_designated_location, continuous_update: x.continuous_update, reference_price_type: x.reference_price_type, trail_stop_price: x.trail_stop_price, trailing_percent: x.trailing_percent, scale_init_level_size: x.scale_init_level_size, scale_subs_level_size: x.scale_subs_level_size, scale_price_increment: x.scale_price_increment, scale_price_adjust_value: x.scale_price_adjust_value, scale_price_adjust_interval: x.scale_price_adjust_interval, scale_profit_offset: x.scale_profit_offset, scale_auto_reset: x.scale_auto_reset, scale_init_position: x.scale_init_position, scale_init_fill_qty: x.scale_init_fill_qty, scale_random_percent: x.scale_random_percent, scale_table: x.scale_table, active_start_time: x.active_start_time, active_stop_time: x.active_stop_time, hedge_type: x.hedge_type, hedge_param: x.hedge_param, opt_out_smart_routing: x.opt_out_smart_routing, clearing_account: x.clearing_account, clearing_intent: x.clearing_intent, not_held: x.not_held, algo_strategy: x.algo_strategy, algo_params: x.algo_params }
}

/// The fields of `Order` that order state tail reads, as its own value.
pub open spec fn order_state_tail_in_order(x: Order) -> OrderTail {
    OrderTail { min_trade_qty: x.min_trade_qty, min_compete_size: x.min_compete_size, compete_against_best_offset: x.compete_against_best_offset, mid_offset_at_whole: x.mid_offset_at_whole, mid_offset_at_half: x.mid_offset_at_half, customer_account: x.customer_account, professional_customer: x.professional_customer, bond_accrued_interest: x.bond_accrued_interest, include_overnight: x.include_overnight, manual_order_indicator: x.manual_order_indicator, submitter: x.submitter }
}

/// The fields of `Order` that order core reads, as its own value.
pub open spec fn order_core_in_order(x: Order) -> OrderCore {
    OrderCore { action: x.action, total_quantity: x.total_quantity, order_type: x.order_type, limit_price: x.limit_price, aux_price: x.aux_price, tif: x.tif, oca_group: x.oca_group, account: x.account, open_close: x.open_close, origin: x.origin, order_ref: x.order_ref }
}

/// What decoding an open order gives, field by field; `t` holds the texts of the fields.
/// A version field in front when the third field is an integer.
pub open spec fn open_order_decoded(t: Seq<Seq<char>>, r: Result<Event, TwsApiError>) -> bool {
    let cond_1: bool = ((i32_at(t, 0int + 2) is Ok));
    let order_id_pos: int = if cond_1 { 1int } else { 0int };
    let start_3: int = order_id_pos + 1;
    let start_4: int = order_contract_prefix_end(t, start_3, ((if cond_1 { i32_or_zero(t, 0int) } else { ((i32::MAX) as int) })));
    let start_5: int = order_core_end(t, start_4) + 2;
    let start_6: int = order_common_end(t, start_5, ((if cond_1 { i32_or_zero(t, 0int) } else { ((i32::MAX) as int) }))) + 1;
    let start_7: int = order_open_state_end(t, start_6);
    if (cond_1 ==> i32_at(t, 0int) is Ok)
        && i32_at(t, order_id_pos) is Ok
        && order_contract_prefix_ok(t, start_3, ((if cond_1 { i32_or_zero(t, 0int) } else { ((i32::MAX) as int) })))
        && order_core_ok(t, start_4)
        && order_open_state_ok(t, start_6) {
        r matches Ok(Event::OpenOrder { order_id, contract, order, order_state })
            && order_id == i32_or_zero(t, order_id_pos)
            && order_contract_prefix_out(t, start_3, ((if cond_1 { i32_or_zero(t, 0int) } else { ((i32::MAX) as int) })), (*contract))
            && (*order).soft_dollar_tier.name@.len() == 0 && (*order).soft_dollar_tier.value@.len() == 0 && (*order).soft_dollar_tier.display_name@.len() == 0
            && (*order).order_id == (((i32_or_zero(t, order_id_pos))) as int)
            && (*order).client_id == i32_or_zero(t, order_core_end(t, start_4))
            && (*order).perm_id == i32_or_zero(t, order_core_end(t, start_4) + 1)
            && (*order).transmit == true
            && (*order).block_order == false
            && (*order).sweep_to_fill == false
            && (*order).display_size == 0
            && (*order).override_percentage_constraints == false
            && (*order).auction_strategy == AuctionStrategy::Unset
            && (*order).starting_price.text@ == unset_double_text()
            && (*order).stock_ref_price.text@ == unset_double_text()
            && (*order).delta.text@ == unset_double_text()
            && (*order).stock_range_lower.text@ == unset_double_text()
            && (*order).stock_range_upper.text@ == unset_double_text()
            && (*order).randomize_price == false
            && (*order).randomize_size == false
            && (*order).basis_points.text@ == unset_double_text()
            && (*order).basis_points_type == ((UNSET_INTEGER) as int)
            && (*order).hedge_max_size == ((UNSET_INTEGER) as int)
            && (*order).smart_combo_routing_params@.len() == 0
            && (*order).algo_id@ == Seq::<char>::empty()
            && (*order).what_if == bool_at(t, order_common_end(t, start_5, ((if cond_1 { i32_or_zero(t, 0int) } else { ((i32::MAX) as int) }))))
            && (*order).solicited == false
            && (*order).order_combo_legs@.len() == 0
            && (*order).order_misc_options@.len() == 0
            && (*order).reference_contract_id == 0
            && (*order).pegged_change_amount.text@ == "0"@
            && (*order).is_pegged_change_amount_decrease == false
            && (*order).reference_change_amount.text@ == "0"@
            && (*order).reference_exchange_id@ == Seq::<char>::empty()
            && (*order).adjusted_order_type@ == Seq::<char>::empty()
            && (*order).trigger_price.text@ == unset_double_text()
            && (*order).adjusted_stop_price.text@ == unset_double_text()
            && (*order).adjusted_stop_limit_price.text@ == unset_double_text()
            && (*order).adjusted_trailing_amount.text@ == unset_double_text()
            && (*order).adjustable_trailing_unit == 0
            && (*order).limit_price_offset.text@ == unset_double_text()
            && (*order).conditions@.len() == 0
            && (*order).conditions_cancel_order == false
            && (*order).conditions_ignore_rth == false
            && (*order).ext_operator@ == Seq::<char>::empty()
            && (*order).cash_qty.text@ == unset_double_text()
            && (*order).mifid2_decision_maker@ == Seq::<char>::empty()
            && (*order).mifid2_decision_algo@ == Seq::<char>::empty()
            && (*order).mifid2_execution_trader@ == Seq::<char>::empty()
            && (*order).mifid2_execution_algo@ == Seq::<char>::empty()
            && (*order).dont_use_auto_price_for_hedge == false
            && (*order).is_oms_container == false
            && (*order).discretionary_up_to_limit_price == false
            && (*order).auto_cancel_date@ == Seq::<char>::empty()
            && (*order).filled_quantity.text@ == "0"@
            && (*order).ref_futures_con_id == 0
            && (*order).auto_cancel_parent == false
            && (*order).shareholder@ == Seq::<char>::empty()
            && (*order).imbalance_only == bool_at(t, order_state_tail_end(t, start_7))
            && (*order).route_marketable_to_bbo == ((UNSET_INTEGER) as int)
            && (*order).parent_perm_id == 0
            && (*order).use_price_mgmt_algo == ((UNSET_INTEGER) as int)
            && (*order).duration == ((UNSET_INTEGER) as int)
            && (*order).post_to_ats == ((UNSET_INTEGER) as int)
            && (*order).advanced_error_override@ == Seq::<char>::empty()
            && (*order).manual_order_time@ == Seq::<char>::empty()
            && (*order).post_only == false
            && (*order).allow_pre_open == false
            && (*order).ignore_open_auction == false
            && (*order).deactivate == false
            && (*order).seek_price_improvement == ((UNSET_INTEGER) as int)
            && (*order).what_if_type == ((UNSET_INTEGER) as int)
            && (*order).stop_loss_order_id == ((UNSET_INTEGER) as int)
            && (*order).stop_loss_order_type@ == Seq::<char>::empty()
            && (*order).profit_taker_order_id == ((UNSET_INTEGER) as int)
            && (*order).profit_taker_order_type@ == Seq::<char>::empty()
            && order_open_state_out(t, start_6, (*order_state))
            && order_common_out(t, start_5, ((if cond_1 { i32_or_zero(t, 0int) } else { ((i32::MAX) as int) })), order_common_in_order((*order)))
            && order_state_tail_out(t, start_7, order_state_tail_in_order((*order)))
            && order_core_out(t, start_4, order_core_in_order((*order)))
    } else {
        r matches Err(e) && ((cond_1 && !(i32_at(t, 0int) is Ok) && (i32_at(t, 0int) matches Err(k) && int_error(e, t, 0int, k)))
            || ((cond_1 ==> i32_at(t, 0int) is Ok) && !(i32_at(t, order_id_pos) is Ok) && (i32_at(t, order_id_pos) matches Err(k) && int_error(e, t, order_id_pos, k)))
            || ((cond_1 ==> i32_at(t, 0int) is Ok) && i32_at(t, order_id_pos) is Ok && !order_contract_prefix_ok(t, start_3, ((if cond_1 { i32_or_zero(t, 0int) } else { ((i32::MAX) as int) }))) && order_contract_prefix_err(t, start_3, ((if cond_1 { i32_or_zero(t, 0int) } else { ((i32::MAX) as int) })), e))
            || ((cond_1 ==> i32_at(t, 0int) is Ok) && i32_at(t, order_id_pos) is Ok && order_contract_prefix_ok(t, start_3, ((if cond_1 { i32_or_zero(t, 0int) } else { ((i32::MAX) as int) }))) && !order_core_ok(t, start_4) && order_core_err(t, start_4, e))
            || ((cond_1 ==> i32_at(t, 0int) is Ok) && i32_at(t, order_id_pos) is Ok && order_contract_prefix_ok(t, start_3, ((if cond_1 { i32_or_zero(t, 0int) } else { ((i32::MAX) as int) }))) && order_core_ok(t, start_4) && !order_open_state_ok(t, start_6) && order_open_state_err(t, start_6, e)))
    }
}

/// Decodes an open order; a version field in front when the third field is an integer.
#[verifier::spinoff_prover]
#[verifier::rlimit(60)]
pub fn decode_open_order_fields(fields: &[String]) -> (r: Result<Event, TwsApiError>)
    ensures
        open_order_decoded(text_views(fields@), r),
{
    let mut reader = FieldReader::new(fields);
    let ghost t = text_views(fields@);
    let ghost cond_1: bool = ((i32_at(t, 0int + 2) is Ok));
    let ghost order_id_pos: int = if cond_1 { 1int } else { 0int };
    let ghost start_3: int = order_id_pos + 1;
    let ghost start_4: int = order_contract_prefix_end(t, start_3, ((if cond_1 { i32_or_zero(t, 0int) } else { ((i32::MAX) as int) })));
    let ghost start_5: int = order_core_end(t, start_4) + 2;
    let ghost start_6: int = order_common_end(t, start_5, ((if cond_1 { i32_or_zero(t, 0int) } else { ((i32::MAX) as int) }))) + 1;
    let ghost start_7: int = order_open_state_end(t, start_6);
    let mut order_action: String = String::new();
    let mut order_total_quantity: DecimalText = DecimalText::zero();
    let mut order_order_type: String = String::new();
    let mut order_limit_price: Double = Double::unset();
    let mut order_aux_price: Double = Double::unset();
    let mut order_tif: String = String::new();
    let mut order_oca_group: String = String::new();
    let mut order_account: String = String::new();
    let mut order_open_close: String = String::new();
    let mut order_origin: Origin = Origin::Customer;
    let mut order_order_ref: String = String::new();
    let mut order_order_id: i32 = 0;
    let mut order_client_id: i32 = 0;
    let mut order_perm_id: i64 = 0i64;
    let mut order_outside_rth: bool = false;
    let mut order_hidden: bool = false;
    let mut order_discretionary_amount: Double = Double::zero();
    let mut order_good_after_time: String = String::new();
    let mut order_fa_group: String = String::new();
    let mut order_fa_method: String = String::new();
    let mut order_fa_percentage: String = String::new();
    let mut order_model_code: String = String::new();
    let mut order_good_till_date: String = String::new();
    let mut order_rule80a: String = String::new();
    let mut order_percent_offset: Double = Double::unset();
    let mut order_settling_firm: String = String::new();
    let mut order_short_sale_slot: i32 = 0;
    let mut order_designated_location: String = String::new();
    let mut order_exempt_code: i32 = -1;
    let mut order_oca_type: i32 = 0;
    let mut order_all_or_none: bool = false;
    let mut order_min_qty: i32 = UNSET_INTEGER;
    let mut order_parent_id: i32 = 0;
    let mut order_trigger_method: i32 = 0;
    let mut order_volatility: Double = Double::unset();
    let mut order_volatility_type: i32 = UNSET_INTEGER;
    let mut order_delta_neutral_order_type: String = String::new();
    let mut order_delta_neutral_aux_price: Double = Double::unset();
    let mut order_delta_neutral_con_id: i32 = 0;
    let mut order_delta_neutral_settling_firm: String = String::new();
    let mut order_delta_neutral_clearing_account: String = String::new();
    let mut order_delta_neutral_clearing_intent: String = String::new();
    let mut order_delta_neutral_open_close: String = String::new();
    let mut order_delta_neutral_short_sale: bool = false;
    let mut order_delta_neutral_short_sale_slot: i32 = 0;
    let mut order_delta_neutral_designated_location: String = String::new();
    let mut order_continuous_update: bool = false;
    let mut order_reference_price_type: i32 = UNSET_INTEGER;
    let mut order_trail_stop_price: Double = Double::unset();
    let mut order_trailing_percent: Double = Double::unset();
    let mut order_scale_init_level_size: i32 = UNSET_INTEGER;
    let mut order_scale_subs_level_size: i32 = UNSET_INTEGER;
    let mut order_scale_price_increment: Double = Double::unset();
    let mut order_scale_price_adjust_value: Double = Double::unset();
    let mut order_scale_price_adjust_interval: i32 = UNSET_INTEGER;
    let mut order_scale_profit_offset: Double = Double::unset();
    let mut order_scale_auto_reset: bool = false;
    let mut order_scale_init_position: i32 = UNSET_INTEGER;
    let mut order_scale_init_fill_qty: i32 = UNSET_INTEGER;
    let mut order_scale_random_percent: bool = false;
    let mut order_scale_table: String = String::new();
    let mut order_active_start_time: String = String::new();
    let mut order_active_stop_time: String = String::new();
    let mut order_hedge_type: String = String::new();
    let mut order_hedge_param: String = String::new();
    let mut order_opt_out_smart_routing: bool = false;
    let mut order_clearing_account: String = String::new();
    let mut order_clearing_intent: String = String::new();
    let mut order_not_held: bool = false;
    let mut order_algo_strategy: String = String::new();
    let mut order_algo_params: Vec<TagValue> = Vec::new();
    let mut order_what_if: bool = false;
    let mut order_min_trade_qty: i32 = UNSET_INTEGER;
    let mut order_min_compete_size: i32 = UNSET_INTEGER;
    let mut order_compete_against_best_offset: Double = Double::unset();
    let mut order_mid_offset_at_whole: Double = Double::unset();
    let mut order_mid_offset_at_half: Double = Double::unset();
    let mut order_customer_account: String = String::new();
    let mut order_professional_customer: bool = false;
    let mut order_bond_accrued_interest: String = String::new();
    let mut order_include_overnight: bool = false;
    let mut order_manual_order_indicator: i32 = UNSET_INTEGER;
    let mut order_submitter: String = String::new();
    let mut order_imbalance_only: bool = false;
    let has_version = match reader.peek(2) {
        Some(s) => parse_i32(Some(s)).is_ok(),
        None => false,
    };
    let mut version: i32 = 0;
    if has_version {
        version = match reader.next_i32() {
            Ok(v) => v,
            Err(e) => return Err(e),
        };
    } else {
        version = i32::MAX;
    }
    proof {
        assert(reader.position() == order_id_pos);
    }
    let order_id: i32 = match reader.next_i32() {
        Ok(v) => v,
        Err(e) => return Err(e),
    };
    proof {
        assert(reader.position() == order_id_pos + 1);
    }
    let contract = match read_order_contract_prefix(&mut reader, version) {
        Ok(v) => v,
        Err(e) => return Err(e),
    };
    let ghost contract_g = contract;
    proof {
        assert(reader.position() == order_contract_prefix_end(t, start_3, ((if cond_1 { i32_or_zero(t, 0int) } else { ((i32::MAX) as int) }))));
    }
    let core = match read_order_core(&mut reader) {
        Ok(v) => v,
        Err(e) => return Err(e),
    };
    let ghost core_g = core;
    order_action = core.action;
    order_total_quantity = core.total_quantity;
    order_order_type = core.order_type;
    order_limit_price = core.limit_price;
    order_aux_price = core.aux_price;
    order_tif = core.tif;
    order_oca_group = core.oca_group;
    order_account = core.account;
    order_open_close = core.open_close;
    order_origin = core.origin;
    order_order_ref = core.order_ref;
    order_order_id = order_id;
    order_client_id = reader.next_i32_or_default();
    order_perm_id = reader.next_i32_or_default() as i64;
    proof {
        assert(reader.position() == order_core_end(t, start_4) + 2);
    }
    let common = read_order_common(&mut reader, version);
    let ghost common_g = common;
    order_outside_rth = common.outside_rth;
    order_hidden = common.hidden;
    order_discretionary_amount = common.discretionary_amount;
    order_good_after_time = common.good_after_time;
    order_fa_group = common.fa_group;
    order_fa_method = common.fa_method;
    order_fa_percentage = common.fa_percentage;
    order_model_code = common.model_code;
    order_good_till_date = common.good_till_date;
    order_rule80a = common.rule80a;
    order_percent_offset = common.percent_offset;
    order_settling_firm = common.settling_firm;
    order_short_sale_slot = common.short_sale_slot;
    order_designated_location = common.designated_location;
    order_exempt_code = common.exempt_code;
    order_oca_type = common.oca_type;
    order_all_or_none = common.all_or_none;
    order_min_qty = common.min_qty;
    order_parent_id = common.parent_id;
    order_trigger_method = common.trigger_method;
    order_volatility = common.volatility;
    order_volatility_type = common.volatility_type;
    order_delta_neutral_order_type = common.delta_neutral_order_type;
    order_delta_neutral_aux_price = common.delta_neutral_aux_price;
    order_delta_neutral_con_id = common.delta_neutral_con_id;
    order_delta_neutral_settling_firm = common.delta_neutral_settling_firm;
    order_delta_neutral_clearing_account = common.delta_neutral_clearing_account;
    order_delta_neutral_clearing_intent = common.delta_neutral_clearing_intent;
    order_delta_neutral_open_close = common.delta_neutral_open_close;
    order_delta_neutral_short_sale = common.delta_neutral_short_sale;
    order_delta_neutral_short_sale_slot = common.delta_neutral_short_sale_slot;
    order_delta_neutral_designated_location = common.delta_neutral_designated_location;
    order_continuous_update = common.continuous_update;
    order_reference_price_type = common.reference_price_type;
    order_trail_stop_price = common.trail_stop_price;
    order_trailing_percent = common.trailing_percent;
    order_scale_init_level_size = common.scale_init_level_size;
    order_scale_subs_level_size = common.scale_subs_level_size;
    order_scale_price_increment = common.scale_price_increment;
    order_scale_price_adjust_value = common.scale_price_adjust_value;
    order_scale_price_adjust_interval = common.scale_price_adjust_interval;
    order_scale_profit_offset = common.scale_profit_offset;
    order_scale_auto_reset = common.scale_auto_reset;
    order_scale_init_position = common.scale_init_position;
    order_scale_init_fill_qty = common.scale_init_fill_qty;
    order_scale_random_percent = common.scale_random_percent;
    order_scale_table = common.scale_table;
    order_active_start_time = common.active_start_time;
    order_active_stop_time = common.active_stop_time;
    order_hedge_type = common.hedge_type;
    order_hedge_param = common.hedge_param;
    order_opt_out_smart_routing = common.opt_out_smart_routing;
    order_clearing_account = common.clearing_account;
    order_clearing_intent = common.clearing_intent;
    order_not_held = common.not_held;
    order_algo_strategy = common.algo_strategy;
    order_algo_params = common.algo_params;
    order_what_if = reader.next_bool();
    proof {
        assert(reader.position() == order_common_end(t, start_5, ((if cond_1 { i32_or_zero(t, 0int) } else { ((i32::MAX) as int) }))) + 1);
    }
    let state = match read_order_open_state(&mut reader) {
        Ok(v) => v,
        Err(e) => return Err(e),
    };
    let ghost state_g = state;
    proof {
        assert(reader.position() == order_open_state_end(t, start_6));
    }
    let tail = read_order_state_tail(&mut reader);
    let ghost tail_g = tail;
    order_min_trade_qty = tail.min_trade_qty;
    order_min_compete_size = tail.min_compete_size;
    order_compete_against_best_offset = tail.compete_against_best_offset;
    order_mid_offset_at_whole = tail.mid_offset_at_whole;
    order_mid_offset_at_half = tail.mid_offset_at_half;
    order_customer_account = tail.customer_account;
    order_professional_customer = tail.professional_customer;
    order_bond_accrued_interest = tail.bond_accrued_interest;
    order_include_overnight = tail.include_overnight;
    order_manual_order_indicator = tail.manual_order_indicator;
    order_submitter = tail.submitter;
    order_imbalance_only = reader.next_bool();
    let order = Order { soft_dollar_tier: SoftDollarTier { name: String::new(), value: String::new(), display_name: String::new() }, order_id: order_order_id, client_id: order_client_id, perm_id: order_perm_id, action: order_action, total_quantity: order_total_quantity, order_type: order_order_type, limit_price: order_limit_price, aux_price: order_aux_price, tif: order_tif, active_start_time: order_active_start_time, active_stop_time: order_active_stop_time, oca_group: order_oca_group, oca_type: order_oca_type, order_ref: order_order_ref, transmit: true, parent_id: order_parent_id, block_order: false, sweep_to_fill: false, display_size: 0, trigger_method: order_trigger_method, outside_rth: order_outside_rth, hidden: order_hidden, good_after_time: order_good_after_time, good_till_date: order_good_till_date, rule80a: order_rule80a, all_or_none: order_all_or_none, min_qty: order_min_qty, percent_offset: order_percent_offset, override_percentage_constraints: false, trail_stop_price: order_trail_stop_price, trailing_percent: order_trailing_percent, fa_group: order_fa_group, fa_method: order_fa_method, fa_percentage: order_fa_percentage, designated_location: order_designated_location, open_close: order_open_close, origin: order_origin, short_sale_slot: order_short_sale_slot, exempt_code: order_exempt_code, discretionary_amount: order_discretionary_amount, opt_out_smart_routing: order_opt_out_smart_routing, auction_strategy: AuctionStrategy::Unset, starting_price: Double::unset(), stock_ref_price: Double::unset(), delta: Double::unset(), stock_range_lower: Double::unset(), stock_range_upper: Double::unset(), randomize_price: false, randomize_size: false, volatility: order_volatility, volatility_type: order_volatility_type, delta_neutral_order_type: order_delta_neutral_order_type, delta_neutral_aux_price: order_delta_neutral_aux_price, delta_neutral_con_id: order_delta_neutral_con_id, delta_neutral_settling_firm: order_delta_neutral_settling_firm, delta_neutral_clearing_account: order_delta_neutral_clearing_account, delta_neutral_clearing_intent: order_delta_neutral_clearing_intent, delta_neutral_open_close: order_delta_neutral_open_close, delta_neutral_short_sale: order_delta_neutral_short_sale, delta_neutral_short_sale_slot: order_delta_neutral_short_sale_slot, delta_neutral_designated_location: order_delta_neutral_designated_location, continuous_update: order_continuous_update, reference_price_type: order_reference_price_type, basis_points: Double::unset(), basis_points_type: UNSET_INTEGER, scale_init_level_size: order_scale_init_level_size, scale_subs_level_size: order_scale_subs_level_size, scale_price_increment: order_scale_price_increment, scale_price_adjust_value: order_scale_price_adjust_value, scale_price_adjust_interval: order_scale_price_adjust_interval, scale_profit_offset: order_scale_profit_offset, scale_auto_reset: order_scale_auto_reset, scale_init_position: order_scale_init_position, scale_init_fill_qty: order_scale_init_fill_qty, scale_random_percent: order_scale_random_percent, scale_table: order_scale_table, hedge_type: order_hedge_type, hedge_param: order_hedge_param, hedge_max_size: UNSET_INTEGER, account: order_account, settling_firm: order_settling_firm, clearing_account: order_clearing_account, clearing_intent: order_clearing_intent, model_code: order_model_code, algo_strategy: order_algo_strategy, algo_params: order_algo_params, smart_combo_routing_params: Vec::new(), algo_id: String::new(), what_if: order_what_if, not_held: order_not_held, solicited: false, order_combo_legs: Vec::new(), order_misc_options: Vec::new(), reference_contract_id: 0, pegged_change_amount: Double::zero(), is_pegged_change_amount_decrease: false, reference_change_amount: Double::zero(), reference_exchange_id: String::new(), adjusted_order_type: String::new(), trigger_price: Double::unset(), adjusted_stop_price: Double::unset(), adjusted_stop_limit_price: Double::unset(), adjusted_trailing_amount: Double::unset(), adjustable_trailing_unit: 0, limit_price_offset: Double::unset(), conditions: Vec::new(), conditions_cancel_order: false, conditions_ignore_rth: false, ext_operator: String::new(), cash_qty: Double::unset(), mifid2_decision_maker: String::new(), mifid2_decision_algo: String::new(), mifid2_execution_trader: String::new(), mifid2_execution_algo: String::new(), dont_use_auto_price_for_hedge: false, is_oms_container: false, discretionary_up_to_limit_price: false, auto_cancel_date: String::new(), filled_quantity: DecimalText::zero(), ref_futures_con_id: 0, auto_cancel_parent: false, shareholder: String::new(), imbalance_only: order_imbalance_only, route_marketable_to_bbo: UNSET_INTEGER, parent_perm_id: 0i64, use_price_mgmt_algo: UNSET_INTEGER, duration: UNSET_INTEGER, post_to_ats: UNSET_INTEGER, advanced_error_override: String::new(), manual_order_time: String::new(), min_trade_qty: order_min_trade_qty, min_compete_size: order_min_compete_size, compete_against_best_offset: order_compete_against_best_offset, mid_offset_at_whole: order_mid_offset_at_whole, mid_offset_at_half: order_mid_offset_at_half, customer_account: order_customer_account, professional_customer: order_professional_customer, bond_accrued_interest: order_bond_accrued_interest, include_overnight: order_include_overnight, manual_order_indicator: order_manual_order_indicator, submitter: order_submitter, post_only: false, allow_pre_open: false, ignore_open_auction: false, deactivate: false, seek_price_improvement: UNSET_INTEGER, what_if_type: UNSET_INTEGER, stop_loss_order_id: UNSET_INTEGER, stop_loss_order_type: String::new(), profit_taker_order_id: UNSET_INTEGER, profit_taker_order_type: String::new() };
    proof {
        assert(order_common_in_order(order) == common_g);
        assert(order_state_tail_in_order(order) == tail_g);
        assert(order_core_in_order(order) == core_g);
    }
    Ok(Event::OpenOrder { order_id, contract: Box::new(contract), order: Box::new(order), order_state: Box::new(state) })
}

/// The order fields a completed order carries between its status and its completion, as read.
pub struct CompletedOrderFields {
    /// The value read for `randomize_size`.
    pub randomize_size: bool,
    /// The value read for `randomize_price`.
    pub randomize_price: bool,
    /// The value read for `reference_contract_id`.
    pub reference_contract_id: i32,
    /// The value read for `is_pegged_change_amount_decrease`.
    pub is_pegged_change_amount_decrease: bool,
    /// The value read for `pegged_change_amount`.
    pub pegged_change_amount: Double,
    /// The value read for `reference_change_amount`.
    pub reference_change_amount: Double,
    /// The value read for `reference_exchange_id`.
    pub reference_exchange_id: String,
    /// The value read for `conditions`.
    pub conditions: Vec<OrderCondition>,
    /// The value read for `adjusted_order_type`.
    pub adjusted_order_type: String,
    /// The value read for `trigger_price`.
    pub trigger_price: Double,
    /// The value read for `limit_price_offset`.
    pub limit_price_offset: Double,
    /// The value read for `adjusted_stop_price`.
    pub adjusted_stop_price: Double,
    /// The value read for `adjusted_stop_limit_price`.
    pub adjusted_stop_limit_price: Double,
    /// The value read for `adjusted_trailing_amount`.
    pub adjusted_trailing_amount: Double,
    /// The value read for `adjustable_trailing_unit`.
    pub adjustable_trailing_unit: i32,
    /// The value read for `cash_qty`.
    pub cash_qty: Double,
    /// The value read for `dont_use_auto_price_for_hedge`.
    pub dont_use_auto_price_for_hedge: bool,
    /// The value read for `is_oms_container`.
    pub is_oms_container: bool,
    /// The value read for `auto_cancel_date`.
    pub auto_cancel_date: String,
    /// The value read for `filled_quantity`.
    pub filled_quantity: DecimalText,
    /// The value read for `ref_futures_con_id`.
    pub ref_futures_con_id: i32,
    /// The value read for `auto_cancel_parent`.
    pub auto_cancel_parent: bool,
    /// The value read for `shareholder`.
    pub shareholder: String,
    /// The value read for `imbalance_only`.
    pub imbalance_only: bool,
    /// The value read for `route_marketable_to_bbo`.
    pub route_marketable_to_bbo: i32,
    /// The value read for `parent_perm_id`.
    pub parent_perm_id: i64,
}

/// The position after the order fields a completed order carries between its status and its completion read at position `q`.
#[verifier::opaque]
pub open spec fn completed_order_fields_end(t: Seq<Seq<char>>, q: int) -> int {
    let start_1: int = q + 7;
    order_conditions_end(t, start_1) + 18
}

/// What the order fields a completed order carries between its status and its completion read at position `q` holds, field by field.
#[verifier::opaque]
pub open spec fn completed_order_fields_out(t: Seq<Seq<char>>, q: int, after: CompletedOrderFields) -> bool {
    let start_1: int = q + 7;
    after.randomize_size == bool_at(t, q)
            && after.randomize_price == bool_at(t, q + 1)
            && after.reference_contract_id == i32_or_zero(t, q + 2)
            && after.is_pegged_change_amount_decrease == bool_at(t, q + 3)
            && after.pegged_change_amount.text@ == text_at(t, q + 4)
            && after.reference_change_amount.text@ == text_at(t, q + 5)
            && after.reference_exchange_id@ == text_at(t, q + 6)
            && order_conditions_out(t, start_1, after.conditions)
            && after.adjusted_order_type@ == text_at(t, order_conditions_end(t, start_1))
            && after.trigger_price.text@ == text_at(t, order_conditions_end(t, start_1) + 1)
            && after.limit_price_offset.text@ == text_at(t, order_conditions_end(t, start_1) + 2)
            && after.adjusted_stop_price.text@ == text_at(t, order_conditions_end(t, start_1) + 3)
            && after.adjusted_stop_limit_price.text@ == text_at(t, order_conditions_end(t, start_1) + 4)
            && after.adjusted_trailing_amount.text@ == text_at(t, order_conditions_end(t, start_1) + 5)
            && after.adjustable_trailing_unit == i32_or_zero(t, order_conditions_end(t, start_1) + 6)
            && after.cash_qty.text@ == text_at(t, order_conditions_end(t, start_1) + 7)
            && after.dont_use_auto_price_for_hedge == bool_at(t, order_conditions_end(t, start_1) + 8)
            && after.is_oms_container == bool_at(t, order_conditions_end(t, start_1) + 9)
            && after.auto_cancel_date@ == text_at(t, order_conditions_end(t, start_1) + 10)
            && after.filled_quantity.text@ == decimal_or_zero(t, order_conditions_end(t, start_1) + 11)
            && after.ref_futures_con_id == i32_or_zero(t, order_conditions_end(t, start_1) + 12)
            && after.auto_cancel_parent == bool_at(t, order_conditions_end(t, start_1) + 13)
            && after.shareholder@ == text_at(t, order_conditions_end(t, start_1) + 14)
            && after.imbalance_only == bool_at(t, order_conditions_end(t, start_1) + 15)
            && after.route_marketable_to_bbo == (if bool_at(t, order_conditions_end(t, start_1) + 16) { 1int } else { 0int })
            && after.parent_perm_id == i32_or_zero(t, order_conditions_end(t, start_1) + 17)
}

/// True when every field of the order fields a completed order carries between its status and its completion at position `q` can be read.
#[verifier::opaque]
pub open spec fn completed_order_fields_ok(t: Seq<Seq<char>>, q: int) -> bool {
    let start_1: int = q + 7;
    order_conditions_ok(t, start_1)
}

/// The error reading the order fields a completed order carries between its status and its completion at position `q` gives: that of its first field that cannot be read.
#[verifier::opaque]
pub open spec fn completed_order_fields_err(t: Seq<Seq<char>>, q: int, e: TwsApiError) -> bool {
    let start_1: int = q + 7;
    (!order_conditions_ok(t, start_1) && order_conditions_err(t, start_1, e))
}

/// What reading the order fields a completed order carries between its status and its completion at position `q` gives: the value and the position `end` after it when
/// every field can be read, else the error of the first that cannot.
pub open spec fn completed_order_fields_read(t: Seq<Seq<char>>, q: int, r: Result<CompletedOrderFields, TwsApiError>, end: int) -> bool {
    if completed_order_fields_ok(t, q) {
        r matches Ok(after) && end == completed_order_fields_end(t, q) && completed_order_fields_out(t, q, after)
    } else {
        r matches Err(e) && completed_order_fields_err(t, q, e)
    }
}

/// Reads the order fields a completed order carries between its status and its completion.
#[verifier::spinoff_prover]
#[verifier::rlimit(60)]
fn read_completed_order_fields(reader: &mut FieldReader) -> (r: Result<CompletedOrderFields, TwsApiError>)
    requires
        old(reader).wf(),
    ensures
        final(reader).wf(),
        final(reader).texts() == old(reader).texts(),
        completed_order_fields_read(old(reader).texts(), old(reader).position(), r, final(reader).position()),
{
    proof {
        reveal(completed_order_fields_end);
        reveal(completed_order_fields_out);
        reveal(completed_order_fields_ok);
        reveal(completed_order_fields_err);
    }
    let ghost t = reader.texts();
    let ghost q = reader.position();
    let ghost start_1: int = q + 7;
    let mut mid_randomize_size: bool = false;
    let mut mid_randomize_price: bool = false;
    let mut mid_reference_contract_id: i32 = 0;
    let mut mid_is_pegged_change_amount_decrease: bool = false;
    let mut mid_pegged_change_amount: Double = Double::zero();
    let mut mid_reference_change_amount: Double = Double::zero();
    let mut mid_reference_exchange_id: String = String::new();
    let mut mid_conditions: Vec<OrderCondition> = Vec::new();
    let mut mid_adjusted_order_type: String = String::new();
    let mut mid_trigger_price: Double = Double::unset();
    let mut mid_limit_price_offset: Double = Double::unset();
    let mut mid_adjusted_stop_price: Double = Double::unset();
    let mut mid_adjusted_stop_limit_price: Double = Double::unset();
    let mut mid_adjusted_trailing_amount: Double = Double::unset();
    let mut mid_adjustable_trailing_unit: i32 = 0;
    let mut mid_cash_qty: Double = Double::unset();
    let mut mid_dont_use_auto_price_for_hedge: bool = false;
    let mut mid_is_oms_container: bool = false;
    let mut mid_auto_cancel_date: String = String::new();
    let mut mid_filled_quantity: DecimalText = DecimalText::zero();
    let mut mid_ref_futures_con_id: i32 = 0;
    let mut mid_auto_cancel_parent: bool = false;
    let mut mid_shareholder: String = String::new();
    let mut mid_imbalance_only: bool = false;
    let mut mid_route_marketable_to_bbo: i32 = UNSET_INTEGER;
    let mut mid_parent_perm_id: i64 = 0i64;
    mid_randomize_size = reader.next_bool();
    mid_randomize_price = reader.next_bool();
    mid_reference_contract_id = reader.next_i32_or_default();
    mid_is_pegged_change_amount_decrease = reader.next_bool();
    mid_pegged_change_amount = reader.next_double();
    mid_reference_change_amount = reader.next_double();
    mid_reference_exchange_id = reader.next_string();
    proof {
        assert(reader.position() == q + 7);
    }
    mid_conditions = match read_order_conditions(reader) {
        Ok(v) => v,
        Err(e) => return Err(e),
    };
    mid_adjusted_order_type = reader.next_string();
    mid_trigger_price = reader.next_double();
    mid_limit_price_offset = reader.next_double();
    mid_adjusted_stop_price = reader.next_double();
    mid_adjusted_stop_limit_price = reader.next_double();
    mid_adjusted_trailing_amount = reader.next_double();
    mid_adjustable_trailing_unit = reader.next_i32_or_default();
    mid_cash_qty = reader.next_double();
    mid_dont_use_auto_price_for_hedge = reader.next_bool();
    mid_is_oms_container = reader.next_bool();
    mid_auto_cancel_date = reader.next_string();
    mid_filled_quantity = reader.next_decimal_or_default();
    mid_ref_futures_con_id = reader.next_i32_or_default();
    mid_auto_cancel_parent = reader.next_bool();
    mid_shareholder = reader.next_string();
    mid_imbalance_only = reader.next_bool();
    mid_route_marketable_to_bbo = if reader.next_bool() { 1 } else { 0 };
    mid_parent_perm_id = reader.next_i32_or_default() as i64;
    let mid = CompletedOrderFields { randomize_size: mid_randomize_size, randomize_price: mid_randomize_price, reference_contract_id: mid_reference_contract_id, is_pegged_change_amount_decrease: mid_is_pegged_change_amount_decrease, pegged_change_amount: mid_pegged_change_amount, reference_change_amount: mid_reference_change_amount, reference_exchange_id: mid_reference_exchange_id, conditions: mid_conditions, adjusted_order_type: mid_adjusted_order_type, trigger_price: mid_trigger_price, limit_price_offset: mid_limit_price_offset, adjusted_stop_price: mid_adjusted_stop_price, adjusted_stop_limit_price: mid_adjusted_stop_limit_price, adjusted_trailing_amount: mid_adjusted_trailing_amount, adjustable_trailing_unit: mid_adjustable_trailing_unit, cash_qty: mid_cash_qty, dont_use_auto_price_for_hedge: mid_dont_use_auto_price_for_hedge, is_oms_container: mid_is_oms_container, auto_cancel_date: mid_auto_cancel_date, filled_quantity: mid_filled_quantity, ref_futures_con_id: mid_ref_futures_con_id, auto_cancel_parent: mid_auto_cancel_parent, shareholder: mid_shareholder, imbalance_only: mid_imbalance_only, route_marketable_to_bbo: mid_route_marketable_to_bbo, parent_perm_id: mid_parent_perm_id };

    Ok(mid)
}

/// The fields of `Order` that completed order fields reads, as its own value.
pub open spec fn completed_order_fields_in_order(x: Order) -> CompletedOrderFields {
    CompletedOrderFields { randomize_size: x.randomize_size, randomize_price: x.randomize_price, reference_contract_id: x.reference_contract_id, is_pegged_change_amount_decrease: x.is_pegged_change_amount_decrease, pegged_change_amount: x.pegged_change_amount, reference_change_amount: x.reference_change_amount, reference_exchange_id: x.reference_exchange_id, conditions: x.conditions, adjusted_order_type: x.adjusted_order_type, trigger_price: x.trigger_price, limit_price_offset: x.limit_price_offset, adjusted_stop_price: x.adjusted_stop_price, adjusted_stop_limit_price: x.adjusted_stop_limit_price, adjusted_trailing_amount: x.adjusted_trailing_amount, adjustable_trailing_unit: x.adjustable_trailing_unit, cash_qty: x.cash_qty, dont_use_auto_price_for_hedge: x.dont_use_auto_price_for_hedge, is_oms_container: x.is_oms_container, auto_cancel_date: x.auto_cancel_date, filled_quantity: x.filled_quantity, ref_futures_con_id: x.ref_futures_con_id, auto_cancel_parent: x.auto_cancel_parent, shareholder: x.shareholder, imbalance_only: x.imbalance_only, route_marketable_to_bbo: x.route_marketable_to_bbo, parent_perm_id: x.parent_perm_id }
}

/// What decoding a completed order gives, field by field; `t` holds the texts of the fields.
pub open spec fn completed_order_decoded(t: Seq<Seq<char>>, r: Result<Event, TwsApiError>) -> bool {
    let start_1: int = 0int;
    let start_2: int = order_contract_prefix_end(t, start_1, (((i32::MAX) as int)));
    let start_3: int = order_core_end(t, start_2) + 1;
    let start_4: int = order_common_end(t, start_3, (((i32::MAX) as int))) + 2;
    let start_5: int = completed_order_fields_end(t, start_4) + 2;
    if order_contract_prefix_ok(t, start_1, (((i32::MAX) as int)))
        && order_core_ok(t, start_2)
        && completed_order_fields_ok(t, start_4) {
        r matches Ok(Event::CompletedOrder { contract, order, order_state })
            && order_contract_prefix_out(t, start_1, (((i32::MAX) as int)), (*contract))
            && (*order).soft_dollar_tier.name@.len() == 0 && (*order).soft_dollar_tier.value@.len() == 0 && (*order).soft_dollar_tier.display_name@.len() == 0
            && (*order).order_id == 0
            && (*order).client_id == 0
            && (*order).perm_id == i32_or_zero(t, order_core_end(t, start_2))
            && (*order).transmit == true
            && (*order).block_order == false
            && (*order).sweep_to_fill == false
            && (*order).display_size == 0
            && (*order).override_percentage_constraints == false
            && (*order).auction_strategy == AuctionStrategy::Unset
            && (*order).starting_price.text@ == unset_double_text()
            && (*order).stock_ref_price.text@ == unset_double_text()
            && (*order).delta.text@ == unset_double_text()
            && (*order).stock_range_lower.text@ == unset_double_text()
            && (*order).stock_range_upper.text@ == unset_double_text()
            && (*order).basis_points.text@ == unset_double_text()
            && (*order).basis_points_type == ((UNSET_INTEGER) as int)
            && (*order).hedge_max_size == ((UNSET_INTEGER) as int)
            && (*order).smart_combo_routing_params@.len() == 0
            && (*order).algo_id@ == Seq::<char>::empty()
            && (*order).what_if == false
            && (*order).solicited == bool_at(t, order_common_end(t, start_3, (((i32::MAX) as int))))
            && (*order).order_combo_legs@.len() == 0
            && (*order).order_misc_options@.len() == 0
            && (*order).conditions_cancel_order == false
            && (*order).conditions_ignore_rth == false
            && (*order).ext_operator@ == Seq::<char>::empty()
            && (*order).mifid2_decision_maker@ == Seq::<char>::empty()
            && (*order).mifid2_decision_algo@ == Seq::<char>::empty()
            && (*order).mifid2_execution_trader@ == Seq::<char>::empty()
            && (*order).mifid2_execution_algo@ == Seq::<char>::empty()
            && (*order).discretionary_up_to_limit_price == false
            && (*order).use_price_mgmt_algo == ((UNSET_INTEGER) as int)
            && (*order).duration == ((UNSET_INTEGER) as int)
            && (*order).post_to_ats == ((UNSET_INTEGER) as int)
            && (*order).advanced_error_override@ == Seq::<char>::empty()
            && (*order).manual_order_time@ == Seq::<char>::empty()
            && (*order).post_only == false
            && (*order).allow_pre_open == false
            && (*order).ignore_open_auction == false
            && (*order).deactivate == false
            && (*order).seek_price_improvement == ((UNSET_INTEGER) as int)
            && (*order).what_if_type == ((UNSET_INTEGER) as int)
            && (*order).stop_loss_order_id == ((UNSET_INTEGER) as int)
            && (*order).stop_loss_order_type@ == Seq::<char>::empty()
            && (*order).profit_taker_order_id == ((UNSET_INTEGER) as int)
            && (*order).profit_taker_order_type@ == Seq::<char>::empty()
            && (*order_state).status@ == text_at(t, order_common_end(t, start_3, (((i32::MAX) as int))) + 1)
            && (*order_state).init_margin_before.text@ == "0"@
            && (*order_state).maint_margin_before.text@ == "0"@
            && (*order_state).equity_with_loan_before.text@ == "0"@
            && (*order_state).init_margin_change.text@ == "0"@
            && (*order_state).maint_margin_change.text@ == "0"@
            && (*order_state).equity_with_loan_change.text@ == "0"@
            && (*order_state).init_margin_after.text@ == "0"@
            && (*order_state).maint_margin_after.text@ == "0"@
            && (*order_state).equity_with_loan_after.text@ == "0"@
            && (*order_state).commission_and_fees.text@ == "0"@
            && (*order_state).min_commission_and_fees.text@ == "0"@
            && (*order_state).max_commission_and_fees.text@ == "0"@
            && (*order_state).commission_and_fees_currency@ == Seq::<char>::empty()
            && (*order_state).margin_currency@ == Seq::<char>::empty()
            && (*order_state).init_margin_before_outside_rth.text@ == "0"@
            && (*order_state).maint_margin_before_outside_rth.text@ == "0"@
            && (*order_state).equity_with_loan_before_outside_rth.text@ == "0"@
            && (*order_state).init_margin_change_outside_rth.text@ == "0"@
            && (*order_state).maint_margin_change_outside_rth.text@ == "0"@
            && (*order_state).equity_with_loan_change_outside_rth.text@ == "0"@
            && (*order_state).init_margin_after_outside_rth.text@ == "0"@
            && (*order_state).maint_margin_after_outside_rth.text@ == "0"@
            && (*order_state).equity_with_loan_after_outside_rth.text@ == "0"@
            && (*order_state).suggested_size@ == Seq::<char>::empty()
            && (*order_state).reject_reason@ == Seq::<char>::empty()
            && (*order_state).order_allocations@.len() == 0
            && (*order_state).warning_text@ == Seq::<char>::empty()
            && (*order_state).completed_time@ == text_at(t, completed_order_fields_end(t, start_4))
            && (*order_state).completed_status@ == text_at(t, completed_order_fields_end(t, start_4) + 1)
            && order_core_out(t, start_2, order_core_in_order((*order)))
            && order_common_out(t, start_3, (((i32::MAX) as int)), order_common_in_order((*order)))
            && completed_order_fields_out(t, start_4, completed_order_fields_in_order((*order)))
            && order_state_tail_out(t, start_5, order_state_tail_in_order((*order)))
    } else {
        r matches Err(e) && ((!order_contract_prefix_ok(t, start_1, (((i32::MAX) as int))) && order_contract_prefix_err(t, start_1, (((i32::MAX) as int)), e))
            || (order_contract_prefix_ok(t, start_1, (((i32::MAX) as int))) && !order_core_ok(t, start_2) && order_core_err(t, start_2, e))
            || (order_contract_prefix_ok(t, start_1, (((i32::MAX) as int))) && order_core_ok(t, start_2) && !completed_order_fields_ok(t, start_4) && completed_order_fields_err(t, start_4, e)))
    }
}

/// Decodes a completed order.
#[verifier::spinoff_prover]
#[verifier::rlimit(100)]
pub fn decode_completed_order_fields(fields: &[String]) -> (r: Result<Event, TwsApiError>)
    ensures
        completed_order_decoded(text_views(fields@), r),
{
    let mut reader = FieldReader::new(fields);
    let ghost t = text_views(fields@);
    let ghost start_1: int = 0int;
    let ghost start_2: int = order_contract_prefix_end(t, start_1, (((i32::MAX) as int)));
    let ghost start_3: int = order_core_end(t, start_2) + 1;
    let ghost start_4: int = order_common_end(t, start_3, (((i32::MAX) as int))) + 2;
    let ghost start_5: int = completed_order_fields_end(t, start_4) + 2;
    let mut order_action: String = String::new();
    let mut order_total_quantity: DecimalText = DecimalText::zero();
    let mut order_order_type: String = String::new();
    let mut order_limit_price: Double = Double::unset();
    let mut order_aux_price: Double = Double::unset();
    let mut order_tif: String = String::new();
    let mut order_oca_group: String = String::new();
    let mut order_account: String = String::new();
    let mut order_open_close: String = String::new();
    let mut order_origin: Origin = Origin::Customer;
    let mut order_order_ref: String = String::new();
    let mut order_perm_id: i64 = 0i64;
    let mut order_outside_rth: bool = false;
    let mut order_hidden: bool = false;
    let mut order_discretionary_amount: Double = Double::zero();
    let mut order_good_after_time: String = String::new();
    let mut order_fa_group: String = String::new();
    let mut order_fa_method: String = String::new();
    let mut order_fa_percentage: String = String::new();
    let mut order_model_code: String = String::new();
    let mut order_good_till_date: String = String::new();
    let mut order_rule80a: String = String::new();
    let mut order_percent_offset: Double = Double::unset();
    let mut order_settling_firm: String = String::new();
    let mut order_short_sale_slot: i32 = 0;
    let mut order_designated_location: String = String::new();
    let mut order_exempt_code: i32 = -1;
    let mut order_oca_type: i32 = 0;
    let mut order_all_or_none: bool = false;
    let mut order_min_qty: i32 = UNSET_INTEGER;
    let mut order_parent_id: i32 = 0;
    let mut order_trigger_method: i32 = 0;
    let mut order_volatility: Double = Double::unset();
    let mut order_volatility_type: i32 = UNSET_INTEGER;
    let mut order_delta_neutral_order_type: String = String::new();
    let mut order_delta_neutral_aux_price: Double = Double::unset();
    let mut order_delta_neutral_con_id: i32 = 0;
    let mut order_delta_neutral_settling_firm: String = String::new();
    let mut order_delta_neutral_clearing_account: String = String::new();
    let mut order_delta_neutral_clearing_intent: String = String::new();
    let mut order_delta_neutral_open_close: String = String::new();
    let mut order_delta_neutral_short_sale: bool = false;
    let mut order_delta_neutral_short_sale_slot: i32 = 0;
    let mut order_delta_neutral_designated_location: String = String::new();
    let mut order_continuous_update: bool = false;
    let mut order_reference_price_type: i32 = UNSET_INTEGER;
    let mut order_trail_stop_price: Double = Double::unset();
    let mut order_trailing_percent: Double = Double::unset();
    let mut order_scale_init_level_size: i32 = UNSET_INTEGER;
    let mut order_scale_subs_level_size: i32 = UNSET_INTEGER;
    let mut order_scale_price_increment: Double = Double::unset();
    let mut order_scale_price_adjust_value: Double = Double::unset();
    let mut order_scale_price_adjust_interval: i32 = UNSET_INTEGER;
    let mut order_scale_profit_offset: Double = Double::unset();
    let mut order_scale_auto_reset: bool = false;
    let mut order_scale_init_position: i32 = UNSET_INTEGER;
    let mut order_scale_init_fill_qty: i32 = UNSET_INTEGER;
    let mut order_scale_random_percent: bool = false;
    let mut order_scale_table: String = String::new();
    let mut order_active_start_time: String = String::new();
    let mut order_active_stop_time: String = String::new();
    let mut order_hedge_type: String = String::new();
    let mut order_hedge_param: String = String::new();
    let mut order_opt_out_smart_routing: bool = false;
    let mut order_clearing_account: String = String::new();
    let mut order_clearing_intent: String = String::new();
    let mut order_not_held: bool = false;
    let mut order_algo_strategy: String = String::new();
    let mut order_algo_params: Vec<TagValue> = Vec::new();
    let mut order_solicited: bool = false;
    let mut state_status: String = String::new();
    let mut order_randomize_size: bool = false;
    let mut order_randomize_price: bool = false;
    let mut order_reference_contract_id: i32 = 0;
    let mut order_is_pegged_change_amount_decrease: bool = false;
    let mut order_pegged_change_amount: Double = Double::zero();
    let mut order_reference_change_amount: Double = Double::zero();
    let mut order_reference_exchange_id: String = String::new();
    let mut order_conditions: Vec<OrderCondition> = Vec::new();
    let mut order_adjusted_order_type: String = String::new();
    let mut order_trigger_price: Double = Double::unset();
    let mut order_limit_price_offset: Double = Double::unset();
    let mut order_adjusted_stop_price: Double = Double::unset();
    let mut order_adjusted_stop_limit_price: Double = Double::unset();
    let mut order_adjusted_trailing_amount: Double = Double::unset();
    let mut order_adjustable_trailing_unit: i32 = 0;
    let mut order_cash_qty: Double = Double::unset();
    let mut order_dont_use_auto_price_for_hedge: bool = false;
    let mut order_is_oms_container: bool = false;
    let mut order_auto_cancel_date: String = String::new();
    let mut order_filled_quantity: DecimalText = DecimalText::zero();
    let mut order_ref_futures_con_id: i32 = 0;
    let mut order_auto_cancel_parent: bool = false;
    let mut order_shareholder: String = String::new();
    let mut order_imbalance_only: bool = false;
    let mut order_route_marketable_to_bbo: i32 = UNSET_INTEGER;
    let mut order_parent_perm_id: i64 = 0i64;
    let mut state_completed_time: String = String::new();
    let mut state_completed_status: String = String::new();
    let mut order_min_trade_qty: i32 = UNSET_INTEGER;
    let mut order_min_compete_size: i32 = UNSET_INTEGER;
    let mut order_compete_against_best_offset: Double = Double::unset();
    let mut order_mid_offset_at_whole: Double = Double::unset();
    let mut order_mid_offset_at_half: Double = Double::unset();
    let mut order_customer_account: String = String::new();
    let mut order_professional_customer: bool = false;
    let mut order_bond_accrued_interest: String = String::new();
    let mut order_include_overnight: bool = false;
    let mut order_manual_order_indicator: i32 = UNSET_INTEGER;
    let mut order_submitter: String = String::new();
    let version: i32 = i32::MAX;
    proof {
        assert(reader.position() == 0int);
    }
    let contract = match read_order_contract_prefix(&mut reader, version) {
        Ok(v) => v,
        Err(e) => return Err(e),
    };
    let ghost contract_g = contract;
    proof {
        assert(reader.position() == order_contract_prefix_end(t, start_1, (((i32::MAX) as int))));
    }
    let core = match read_order_core(&mut reader) {
        Ok(v) => v,
        Err(e) => return Err(e),
    };
    let ghost core_g = core;
    order_action = core.action;
    order_total_quantity = core.total_quantity;
    order_order_type = core.order_type;
    order_limit_price = core.limit_price;
    order_aux_price = core.aux_price;
    order_tif = core.tif;
    order_oca_group = core.oca_group;
    order_account = core.account;
    order_open_close = core.open_close;
    order_origin = core.origin;
    order_order_ref = core.order_ref;
    order_perm_id = reader.next_i32_or_default() as i64;
    proof {
        assert(reader.position() == order_core_end(t, start_2) + 1);
    }
    let common = read_order_common(&mut reader, version);
    let ghost common_g = common;
    order_outside_rth = common.outside_rth;
    order_hidden = common.hidden;
    order_discretionary_amount = common.discretionary_amount;
    order_good_after_time = common.good_after_time;
    order_fa_group = common.fa_group;
    order_fa_method = common.fa_method;
    order_fa_percentage = common.fa_percentage;
    order_model_code = common.model_code;
    order_good_till_date = common.good_till_date;
    order_rule80a = common.rule80a;
    order_percent_offset = common.percent_offset;
    order_settling_firm = common.settling_firm;
    order_short_sale_slot = common.short_sale_slot;
    order_designated_location = common.designated_location;
    order_exempt_code = common.exempt_code;
    order_oca_type = common.oca_type;
    order_all_or_none = common.all_or_none;
    order_min_qty = common.min_qty;
    order_parent_id = common.parent_id;
    order_trigger_method = common.trigger_method;
    order_volatility = common.volatility;
    order_volatility_type = common.volatility_type;
    order_delta_neutral_order_type = common.delta_neutral_order_type;
    order_delta_neutral_aux_price = common.delta_neutral_aux_price;
    order_delta_neutral_con_id = common.delta_neutral_con_id;
    order_delta_neutral_settling_firm = common.delta_neutral_settling_firm;
    order_delta_neutral_clearing_account = common.delta_neutral_clearing_account;
    order_delta_neutral_clearing_intent = common.delta_neutral_clearing_intent;
    order_delta_neutral_open_close = common.delta_neutral_open_close;
    order_delta_neutral_short_sale = common.delta_neutral_short_sale;
    order_delta_neutral_short_sale_slot = common.delta_neutral_short_sale_slot;
    order_delta_neutral_designated_location = common.delta_neutral_designated_location;
    order_continuous_update = common.continuous_update;
    order_reference_price_type = common.reference_price_type;
    order_trail_stop_price = common.trail_stop_price;
    order_trailing_percent = common.trailing_percent;
    order_scale_init_level_size = common.scale_init_level_size;
    order_scale_subs_level_size = common.scale_subs_level_size;
    order_scale_price_increment = common.scale_price_increment;
    order_scale_price_adjust_value = common.scale_price_adjust_value;
    order_scale_price_adjust_interval = common.scale_price_adjust_interval;
    order_scale_profit_offset = common.scale_profit_offset;
    order_scale_auto_reset = common.scale_auto_reset;
    order_scale_init_position = common.scale_init_position;
    order_scale_init_fill_qty = common.scale_init_fill_qty;
    order_scale_random_percent = common.scale_random_percent;
    order_scale_table = common.scale_table;
    order_active_start_time = common.active_start_time;
    order_active_stop_time = common.active_stop_time;
    order_hedge_type = common.hedge_type;
    order_hedge_param = common.hedge_param;
    order_opt_out_smart_routing = common.opt_out_smart_routing;
    order_clearing_account = common.clearing_account;
    order_clearing_intent = common.clearing_intent;
    order_not_held = common.not_held;
    order_algo_strategy = common.algo_strategy;
    order_algo_params = common.algo_params;
    order_solicited = reader.next_bool();
    state_status = reader.next_string();
    proof {
        assert(reader.position() == order_common_end(t, start_3, (((i32::MAX) as int))) + 2);
    }
    let mid = match read_completed_order_fields(&mut reader) {
        Ok(v) => v,
        Err(e) => return Err(e),
    };
    let ghost mid_g = mid;
    order_randomize_size = mid.randomize_size;
    order_randomize_price = mid.randomize_price;
    order_reference_contract_id = mid.reference_contract_id;
    order_is_pegged_change_amount_decrease = mid.is_pegged_change_amount_decrease;
    order_pegged_change_amount = mid.pegged_change_amount;
    order_reference_change_amount = mid.reference_change_amount;
    order_reference_exchange_id = mid.reference_exchange_id;
    order_conditions = mid.conditions;
    order_adjusted_order_type = mid.adjusted_order_type;
    order_trigger_price = mid.trigger_price;
    order_limit_price_offset = mid.limit_price_offset;
    order_adjusted_stop_price = mid.adjusted_stop_price;
    order_adjusted_stop_limit_price = mid.adjusted_stop_limit_price;
    order_adjusted_trailing_amount = mid.adjusted_trailing_amount;
    order_adjustable_trailing_unit = mid.adjustable_trailing_unit;
    order_cash_qty = mid.cash_qty;
    order_dont_use_auto_price_for_hedge = mid.dont_use_auto_price_for_hedge;
    order_is_oms_container = mid.is_oms_container;
    order_auto_cancel_date = mid.auto_cancel_date;
    order_filled_quantity = mid.filled_quantity;
    order_ref_futures_con_id = mid.ref_futures_con_id;
    order_auto_cancel_parent = mid.auto_cancel_parent;
    order_shareholder = mid.shareholder;
    order_imbalance_only = mid.imbalance_only;
    order_route_marketable_to_bbo = mid.route_marketable_to_bbo;
    order_parent_perm_id = mid.parent_perm_id;
    state_completed_time = reader.next_string();
    state_completed_status = reader.next_string();
    proof {
        assert(reader.position() == completed_order_fields_end(t, start_4) + 2);
    }
    let tail = read_order_state_tail(&mut reader);
    let ghost tail_g = tail;
    order_min_trade_qty = tail.min_trade_qty;
    order_min_compete_size = tail.min_compete_size;
    order_compete_against_best_offset = tail.compete_against_best_offset;
    order_mid_offset_at_whole = tail.mid_offset_at_whole;
    order_mid_offset_at_half = tail.mid_offset_at_half;
    order_customer_account = tail.customer_account;
    order_professional_customer = tail.professional_customer;
    order_bond_accrued_interest = tail.bond_accrued_interest;
    order_include_overnight = tail.include_overnight;
    order_manual_order_indicator = tail.manual_order_indicator;
    order_submitter = tail.submitter;
    let order = Order { soft_dollar_tier: SoftDollarTier { name: String::new(), value: String::new(), display_name: String::new() }, order_id: 0, client_id: 0, perm_id: order_perm_id, action: order_action, total_quantity: order_total_quantity, order_type: order_order_type, limit_price: order_limit_price, aux_price: order_aux_price, tif: order_tif, active_start_time: order_active_start_time, active_stop_time: order_active_stop_time, oca_group: order_oca_group, oca_type: order_oca_type, order_ref: order_order_ref, transmit: true, parent_id: order_parent_id, block_order: false, sweep_to_fill: false, display_size: 0, trigger_method: order_trigger_method, outside_rth: order_outside_rth, hidden: order_hidden, good_after_time: order_good_after_time, good_till_date: order_good_till_date, rule80a: order_rule80a, all_or_none: order_all_or_none, min_qty: order_min_qty, percent_offset: order_percent_offset, override_percentage_constraints: false, trail_stop_price: order_trail_stop_price, trailing_percent: order_trailing_percent, fa_group: order_fa_group, fa_method: order_fa_method, fa_percentage: order_fa_percentage, designated_location: order_designated_location, open_close: order_open_close, origin: order_origin, short_sale_slot: order_short_sale_slot, exempt_code: order_exempt_code, discretionary_amount: order_discretionary_amount, opt_out_smart_routing: order_opt_out_smart_routing, auction_strategy: AuctionStrategy::Unset, starting_price: Double::unset(), stock_ref_price: Double::unset(), delta: Double::unset(), stock_range_lower: Double::unset(), stock_range_upper: Double::unset(), randomize_price: order_randomize_price, randomize_size: order_randomize_size, volatility: order_volatility, volatility_type: order_volatility_type, delta_neutral_order_type: order_delta_neutral_order_type, delta_neutral_aux_price: order_delta_neutral_aux_price, delta_neutral_con_id: order_delta_neutral_con_id, delta_neutral_settling_firm: order_delta_neutral_settling_firm, delta_neutral_clearing_account: order_delta_neutral_clearing_account, delta_neutral_clearing_intent: order_delta_neutral_clearing_intent, delta_neutral_open_close: order_delta_neutral_open_close, delta_neutral_short_sale: order_delta_neutral_short_sale, delta_neutral_short_sale_slot: order_delta_neutral_short_sale_slot, delta_neutral_designated_location: order_delta_neutral_designated_location, continuous_update: order_continuous_update, reference_price_type: order_reference_price_type, basis_points: Double::unset(), basis_points_type: UNSET_INTEGER, scale_init_level_size: order_scale_init_level_size, scale_subs_level_size: order_scale_subs_level_size, scale_price_increment: order_scale_price_increment, scale_price_adjust_value: order_scale_price_adjust_value, scale_price_adjust_interval: order_scale_price_adjust_interval, scale_profit_offset: order_scale_profit_offset, scale_auto_reset: order_scale_auto_reset, scale_init_position: order_scale_init_position, scale_init_fill_qty: order_scale_init_fill_qty, scale_random_percent: order_scale_random_percent, scale_table: order_scale_table, hedge_type: order_hedge_type, hedge_param: order_hedge_param, hedge_max_size: UNSET_INTEGER, account: order_account, settling_firm: order_settling_firm, clearing_account: order_clearing_account, clearing_intent: order_clearing_intent, model_code: order_model_code, algo_strategy: order_algo_strategy, algo_params: order_algo_params, smart_combo_routing_params: Vec::new(), algo_id: String::new(), what_if: false, not_held: order_not_held, solicited: order_solicited, order_combo_legs: Vec::new(), order_misc_options: Vec::new(), reference_contract_id: order_reference_contract_id, pegged_change_amount: order_pegged_change_amount, is_pegged_change_amount_decrease: order_is_pegged_change_amount_decrease, reference_change_amount: order_reference_change_amount, reference_exchange_id: order_reference_exchange_id, adjusted_order_type: order_adjusted_order_type, trigger_price: order_trigger_price, adjusted_stop_price: order_adjusted_stop_price, adjusted_stop_limit_price: order_adjusted_stop_limit_price, adjusted_trailing_amount: order_adjusted_trailing_amount, adjustable_trailing_unit: order_adjustable_trailing_unit, limit_price_offset: order_limit_price_offset, conditions: order_conditions, conditions_cancel_order: false, conditions_ignore_rth: false, ext_operator: String::new(), cash_qty: order_cash_qty, mifid2_decision_maker: String::new(), mifid2_decision_algo: String::new(), mifid2_execution_trader: String::new(), mifid2_execution_algo: String::new(), dont_use_auto_price_for_hedge: order_dont_use_auto_price_for_hedge, is_oms_container: order_is_oms_container, discretionary_up_to_limit_price: false, auto_cancel_date: order_auto_cancel_date, filled_quantity: order_filled_quantity, ref_futures_con_id: order_ref_futures_con_id, auto_cancel_parent: order_auto_cancel_parent, shareholder: order_shareholder, imbalance_only: order_imbalance_only, route_marketable_to_bbo: order_route_marketable_to_bbo, parent_perm_id: order_parent_perm_id, use_price_mgmt_algo: UNSET_INTEGER, duration: UNSET_INTEGER, post_to_ats: UNSET_INTEGER, advanced_error_override: String::new(), manual_order_time: String::new(), min_trade_qty: order_min_trade_qty, min_compete_size: order_min_compete_size, compete_against_best_offset: order_compete_against_best_offset, mid_offset_at_whole: order_mid_offset_at_whole, mid_offset_at_half: order_mid_offset_at_half, customer_account: order_customer_account, professional_customer: order_professional_customer, bond_accrued_interest: order_bond_accrued_interest, include_overnight: order_include_overnight, manual_order_indicator: order_manual_order_indicator, submitter: order_submitter, post_only: false, allow_pre_open: false, ignore_open_auction: false, deactivate: false, seek_price_improvement: UNSET_INTEGER, what_if_type: UNSET_INTEGER, stop_loss_order_id: UNSET_INTEGER, stop_loss_order_type: String::new(), profit_taker_order_id: UNSET_INTEGER, profit_taker_order_type: String::new() };
    let state = OrderState { status: state_status, init_margin_before: Double::zero(), maint_margin_before: Double::zero(), equity_with_loan_before: Double::zero(), init_margin_change: Double::zero(), maint_margin_change: Double::zero(), equity_with_loan_change: Double::zero(), init_margin_after: Double::zero(), maint_margin_after: Double::zero(), equity_with_loan_after: Double::zero(), commission_and_fees: Double::zero(), min_commission_and_fees: Double::zero(), max_commission_and_fees: Double::zero(), commission_and_fees_currency: String::new(), margin_currency: String::new(), init_margin_before_outside_rth: Double::zero(), maint_margin_before_outside_rth: Double::zero(), equity_with_loan_before_outside_rth: Double::zero(), init_margin_change_outside_rth: Double::zero(), maint_margin_change_outside_rth: Double::zero(), equity_with_loan_change_outside_rth: Double::zero(), init_margin_after_outside_rth: Double::zero(), maint_margin_after_outside_rth: Double::zero(), equity_with_loan_after_outside_rth: Double::zero(), suggested_size: String::new(), reject_reason: String::new(), order_allocations: Vec::new(), warning_text: String::new(), completed_time: state_completed_time, completed_status: state_completed_status };
    proof {
        assert(order_core_in_order(order) == core_g);
        assert(order_common_in_order(order) == common_g);
        assert(completed_order_fields_in_order(order) == mid_g);
        assert(order_state_tail_in_order(order) == tail_g);
    }
    Ok(Event::CompletedOrder { contract: Box::new(contract), order: Box::new(order), order_state: Box::new(state) })
}

// ---------------------------------------------------------------------------------------------
// Tick-by-tick data: what follows the time depends on the tick type
// ---------------------------------------------------------------------------------------------

/// What decoding a tick-by-tick message gives: a request id, a tick type and a time, then a
/// last-trade tick for the types `1` and `2`, a bid/ask tick for `3`, a midpoint tick for `4`, and
/// no tick for any other type; `t` holds the texts of the fields.
pub open spec fn tick_by_tick_decoded(t: Seq<Seq<char>>, r: Result<Event, TwsApiError>) -> bool {
    let kind = i32_or_zero(t, 1);
    let time = i32_or_zero(t, 2);
    if !(i32_at(t, 0) is Ok) {
        r matches Err(e) && (i32_at(t, 0) matches Err(k) && int_error(e, t, 0, k))
    } else if !(i32_at(t, 1) is Ok) {
        r matches Err(e) && (i32_at(t, 1) matches Err(k) && int_error(e, t, 1, k))
    } else if !(i32_at(t, 2) is Ok) {
        r matches Err(e) && (i32_at(t, 2) matches Err(k) && int_error(e, t, 2, k))
    } else if kind == 1 || kind == 2 {
        if decimal_at(t, 4) is None {
            r matches Err(e) && decimal_error(e, t, 4)
        } else if !(i32_at(t, 5) is Ok) {
            r matches Err(e) && (i32_at(t, 5) matches Err(k) && int_error(e, t, 5, k))
        } else {
            let mask = i32_or_zero(t, 5) as i32;
            &&& r matches Ok(Event::TickByTick { req_id, tick_type, tick: Some(TickByTick::Last(x)) })
            &&& req_id == i32_or_zero(t, 0) && tick_type == kind && x.time == time
            &&& x.tick_attrib_last.past_limit == (mask & 1i32 != 0i32)
            &&& x.tick_attrib_last.unreported == (mask & 2i32 != 0i32)
            &&& x.price.text@ == text_at(t, 3) && x.size.text@ == decimal_or_zero(t, 4)
            &&& x.exchange@ == text_at(t, 6) && x.special_conditions@ == text_at(t, 7)
        }
    } else if kind == 3 {
        if decimal_at(t, 5) is None {
            r matches Err(e) && decimal_error(e, t, 5)
        } else if decimal_at(t, 6) is None {
            r matches Err(e) && decimal_error(e, t, 6)
        } else if !(i32_at(t, 7) is Ok) {
            r matches Err(e) && (i32_at(t, 7) matches Err(k) && int_error(e, t, 7, k))
        } else {
            let mask = i32_or_zero(t, 7) as i32;
            &&& r matches Ok(Event::TickByTick { req_id, tick_type, tick: Some(TickByTick::BidAsk(x)) })
            &&& req_id == i32_or_zero(t, 0) && tick_type == kind && x.time == time
            &&& x.tick_attrib_bid_ask.bid_past_low == (mask & 1i32 != 0i32)
            &&& x.tick_attrib_bid_ask.ask_past_high == (mask & 2i32 != 0i32)
            &&& x.price_bid.text@ == text_at(t, 3) && x.price_ask.text@ == text_at(t, 4)
            &&& x.size_bid.text@ == decimal_or_zero(t, 5) && x.size_ask.text@ == decimal_or_zero(t, 6)
        }
    } else if kind == 4 {
        &&& r matches Ok(Event::TickByTick { req_id, tick_type, tick: Some(TickByTick::MidPoint(x)) })
        &&& req_id == i32_or_zero(t, 0) && tick_type == kind && x.time == time
        &&& x.price.text@ == text_at(t, 3) && x.size.text@ == "0"@
    } else {
        r matches Ok(Event::TickByTick { req_id, tick_type, tick: None }) && req_id == i32_or_zero(t, 0)
            && tick_type == kind
    }
}

/// Decodes a tick-by-tick message.
#[verifier::spinoff_prover]
#[verifier::rlimit(30)]
pub fn decode_tick_by_tick_fields(fields: &[String]) -> (r: Result<Event, TwsApiError>)
    ensures
        tick_by_tick_decoded(text_views(fields@), r),
{
    let mut reader = FieldReader::new(fields);
    let req_id = match reader.next_i32() {
        Ok(v) => v,
        Err(e) => return Err(e),
    };
    let tick_type = match reader.next_i32() {
        Ok(v) => v,
        Err(e) => return Err(e),
    };
    let time = match reader.next_i32() {
        Ok(v) => v as i64,
        Err(e) => return Err(e),
    };
    let tick = if tick_type == 1 || tick_type == 2 {
        let price = reader.next_double();
        let size = match reader.next_decimal() {
            Ok(v) => v,
            Err(e) => return Err(e),
        };
        let mask = match reader.next_i32() {
            Ok(v) => v,
            Err(e) => return Err(e),
        };
        let exchange = reader.next_string();
        let special_conditions = reader.next_string();
        Some(
            TickByTick::Last(
                HistoricalTickLast {
                    time,
                    tick_attrib_last: TickAttribLast { past_limit: mask & 1 != 0, unreported: mask & 2 != 0 },
                    price,
                    size,
                    exchange,
                    special_conditions,
                },
            ),
        )
    } else if tick_type == 3 {
        let price_bid = reader.next_double();
        let price_ask = reader.next_double();
        let size_bid = match reader.next_decimal() {
            Ok(v) => v,
            Err(e) => return Err(e),
        };
        let size_ask = match reader.next_decimal() {
            Ok(v) => v,
            Err(e) => return Err(e),
        };
        let mask = match reader.next_i32() {
            Ok(v) => v,
            Err(e) => return Err(e),
        };
        Some(
            TickByTick::BidAsk(
                HistoricalTickBidAsk {
                    time,
                    tick_attrib_bid_ask: TickAttribBidAsk { bid_past_low: mask & 1 != 0, ask_past_high: mask & 2 != 0 },
                    price_bid,
                    price_ask,
                    size_bid,
                    size_ask,
                },
            ),
        )
    } else if tick_type == 4 {
        let price = reader.next_double();
        Some(TickByTick::MidPoint(HistoricalTick { time, price, size: DecimalText::zero() }))
    } else {
        None
    };
    Ok(Event::TickByTick { req_id, tick_type, tick })
}

// ---------------------------------------------------------------------------------------------
// Symbol samples: contract descriptions of varying length
// ---------------------------------------------------------------------------------------------

/// How many derivative security types the description at `p` lists.
pub open spec fn derivative_count(t: Seq<Seq<char>>, p: int) -> int {
    max_zero(i32_or_zero(t, p + 5))
}

/// True when a description at `p` carries a description and an issuer id after its derivative
/// security types: at least two fields are left there.
pub open spec fn has_description_text(t: Seq<Seq<char>>, p: int) -> bool {
    p + 6 + derivative_count(t, p) + 1 < t.len()
}

/// How many fields the description at `p` takes.
pub open spec fn description_size(t: Seq<Seq<char>>, p: int) -> int {
    6 + derivative_count(t, p) + if has_description_text(t, p) {
        2int
    } else {
        0int
    }
}

/// The position of description `k` of a list whose first description starts at `p`.
pub open spec fn description_pos(t: Seq<Seq<char>>, p: int, k: nat) -> int
    decreases k,
{
    if k == 0 {
        p
    } else {
        let q = description_pos(t, p, (k - 1) as nat);
        q + description_size(t, q)
    }
}

/// True when the description at `p` can be read: its contract id and its count are integers.
pub open spec fn description_ok(t: Seq<Seq<char>>, p: int) -> bool {
    i32_at(t, p) is Ok && i32_at(t, p + 5) is Ok
}

/// The error reading the description at `p` gives.
pub open spec fn description_err(t: Seq<Seq<char>>, p: int, e: TwsApiError) -> bool {
    ||| (i32_at(t, p) matches Err(k) && int_error(e, t, p, k))
    ||| (i32_at(t, p) is Ok && (i32_at(t, p + 5) matches Err(k) && int_error(e, t, p + 5, k)))
}

/// The description read at `p`: contract id, symbol, security type, primary exchange and
/// currency, then the counted derivative security types, then a description and an issuer id
/// when two fields are left for them; the other contract fields keep their defaults.
pub open spec fn description_out(t: Seq<Seq<char>>, p: int, d: ContractDescription) -> bool {
    let m = derivative_count(t, p);
    let c = d.contract;
    &&& c.con_id == i32_or_zero(t, p) && c.symbol@ == text_at(t, p + 1) && c.sec_type@ == text_at(t, p + 2)
    &&& c.primary_exchange@ == text_at(t, p + 3) && c.currency@ == text_at(t, p + 4)
    &&& d.derivative_sec_types@.len() == m
    &&& forall|i: int| 0 <= i < m ==> #[trigger] d.derivative_sec_types@[i]@ == text_at(t, p + 6 + i)
    &&& c.description@ == (if has_description_text(t, p) { text_at(t, p + 6 + m) } else { Seq::<char>::empty() })
    &&& c.issuer_id@ == (if has_description_text(t, p) { text_at(t, p + 7 + m) } else { Seq::<char>::empty() })
    &&& c.last_trade_date_or_contract_month@ == Seq::<char>::empty() && c.last_trade_date@ == Seq::<char>::empty()
    &&& c.strike.text@ == unset_double_text() && c.right@ == Seq::<char>::empty() && c.multiplier@ == Seq::<char>::empty()
    &&& c.exchange@ == Seq::<char>::empty() && c.local_symbol@ == Seq::<char>::empty()
    &&& c.trading_class@ == Seq::<char>::empty() && !c.include_expired && c.sec_id_type@ == Seq::<char>::empty()
    &&& c.sec_id@ == Seq::<char>::empty() && c.combo_legs_description@ == Seq::<char>::empty()
    &&& c.combo_legs@.len() == 0 && c.delta_neutral_contract is None
}

/// `description_ok` for description `k` of the list at `p`.
pub open spec fn description_ok_at(t: Seq<Seq<char>>, p: int, k: int) -> bool {
    description_ok(t, description_pos(t, p, k as nat))
}

/// True when each of the first `n` descriptions of the list at position 2 can be read.
pub open spec fn descriptions_ok(t: Seq<Seq<char>>, n: int) -> bool {
    forall|k: int| 0 <= k < n ==> #[trigger] description_ok_at(t, 2, k)
}

/// The error reading the first `n` descriptions of the list at position 2 gives: that of the
/// first description that cannot be read.
pub open spec fn descriptions_err(t: Seq<Seq<char>>, n: int, e: TwsApiError) -> bool {
    exists|k: int|
        0 <= k < n && (forall|i: int| 0 <= i < k ==> #[trigger] description_ok_at(t, 2, i)) && !description_ok_at(
            t,
            2,
            k,
        ) && #[trigger] description_err(t, description_pos(t, 2, k as nat), e)
}

/// What decoding symbol samples gives: a request id, a count, then that many contract
/// descriptions, each of the length its own fields give; `t` holds the texts of the fields.
pub open spec fn symbol_samples_decoded(t: Seq<Seq<char>>, r: Result<Event, TwsApiError>) -> bool {
    let n = max_zero(i32_or_zero(t, 1));
    if !(i32_at(t, 0) is Ok) {
        r matches Err(e) && (i32_at(t, 0) matches Err(k) && int_error(e, t, 0, k))
    } else if !(i32_at(t, 1) is Ok) {
        r matches Err(e) && (i32_at(t, 1) matches Err(k) && int_error(e, t, 1, k))
    } else if !descriptions_ok(t, n) {
        r matches Err(e) && descriptions_err(t, n, e)
    } else {
        &&& r matches Ok(Event::SymbolSamples { req_id, descriptions })
        &&& req_id == i32_or_zero(t, 0) && descriptions@.len() == n
        &&& forall|k: int| 0 <= k < n ==> description_out(t, description_pos(t, 2, k as nat), #[trigger] descriptions@[k])
    }
}

fn read_description(reader: &mut FieldReader) -> (r: Result<ContractDescription, TwsApiError>)
    requires
        old(reader).wf(),
    ensures
        final(reader).wf(),
        final(reader).texts() == old(reader).texts(),
        match r {
            Ok(d) => description_ok(old(reader).texts(), old(reader).position()) && description_out(
                old(reader).texts(),
                old(reader).position(),
                d,
            ) && final(reader).position() == old(reader).position() + description_size(
                old(reader).texts(),
                old(reader).position(),
            ),
            Err(e) => !description_ok(old(reader).texts(), old(reader).position()) && description_err(
                old(reader).texts(),
                old(reader).position(),
                e,
            ),
        },
{
    let ghost t = reader.texts();
    let ghost p = reader.position();
    let con_id = match reader.next_i32() {
        Ok(v) => v,
        Err(e) => return Err(e),
    };
    let symbol = reader.next_string();
    let sec_type = reader.next_string();
    let primary_exchange = reader.next_string();
    let currency = reader.next_string();
    let count = match reader.next_i32() {
        Ok(v) => v,
        Err(e) => return Err(e),
    };
    let n: usize = if count < 0 {
        0
    } else {
        count as usize
    };
    let mut derivative_sec_types: Vec<String> = Vec::new();
    let mut j: usize = 0;
    while j < n
        invariant
            reader.wf(),
            reader.texts() == t,
            n == derivative_count(t, p),
            j <= n,
            reader.position() == p + 6 + j,
            derivative_sec_types@.len() == j,
            forall|i: int| 0 <= i < j ==> #[trigger] derivative_sec_types@[i]@ == text_at(t, p + 6 + i),
        decreases n - j,
    {
        let s = reader.next_string();
        derivative_sec_types.push(s);
        j = j + 1;
    }
    let mut description = String::new();
    let mut issuer_id = String::new();
    if reader.remaining() > 1 {
        description = reader.next_string();
        issuer_id = reader.next_string();
    }
    let contract = Contract {
        con_id,
        symbol,
        sec_type,
        last_trade_date_or_contract_month: String::new(),
        last_trade_date: String::new(),
        strike: Double::unset(),
        right: String::new(),
        multiplier: String::new(),
        exchange: String::new(),
        primary_exchange,
        currency,
        local_symbol: String::new(),
        trading_class: String::new(),
        include_expired: false,
        sec_id_type: String::new(),
        sec_id: String::new(),
        description,
        issuer_id,
        combo_legs_description: String::new(),
        combo_legs: Vec::new(),
        delta_neutral_contract: None,
    };
    Ok(ContractDescription { contract, derivative_sec_types })
}

/// Decodes symbol samples.
#[verifier::spinoff_prover]
#[verifier::rlimit(30)]
pub fn decode_symbol_samples_fields(fields: &[String]) -> (r: Result<Event, TwsApiError>)
    ensures
        symbol_samples_decoded(text_views(fields@), r),
{
    let mut reader = FieldReader::new(fields);
    let ghost t = text_views(fields@);
    let req_id = match reader.next_i32() {
        Ok(v) => v,
        Err(e) => return Err(e),
    };
    let count = match reader.next_i32() {
        Ok(v) => v,
        Err(e) => return Err(e),
    };
    let n: usize = if count < 0 {
        0
    } else {
        count as usize
    };
    let mut descriptions: Vec<ContractDescription> = Vec::new();
    let mut j: usize = 0;
    while j < n
        invariant
            reader.wf(),
            reader.texts() == t,
            t == text_views(fields@),
            i32_at(t, 0) is Ok,
            i32_at(t, 1) is Ok,
            req_id == i32_or_zero(t, 0),
            n == max_zero(i32_or_zero(t, 1)),
            j <= n,
            reader.position() == description_pos(t, 2, j as nat),
            descriptions@.len() == j,
            forall|i: int| 0 <= i < j ==> #[trigger] description_ok_at(t, 2, i),
            forall|i: int| 0 <= i < j ==> description_out(t, description_pos(t, 2, i as nat), #[trigger] descriptions@[i]),
        decreases n - j,
    {
        let ghost pj = reader.position();
        let ghost prev = descriptions@;
        match read_description(&mut reader) {
            Ok(d) => {
                descriptions.push(d);
            },
            Err(e) => {
                proof {
                    let k: int = j as int;
                    assert(description_pos(t, 2, k as nat) == pj);
                    assert(!description_ok_at(t, 2, k));
                    assert(!descriptions_ok(t, n as int));
                    assert(description_err(t, description_pos(t, 2, k as nat), e));
                    assert(forall|i: int| 0 <= i < k ==> #[trigger] description_ok_at(t, 2, i));
                    assert(descriptions_err(t, n as int, e));
                }
                return Err(e);
            },
        }
        proof {
            assert(description_ok_at(t, 2, j as int));
            assert(description_pos(t, 2, (j + 1) as nat) == pj + description_size(t, pj));
            assert forall|i: int| 0 <= i < j + 1 implies description_out(
                t,
                description_pos(t, 2, i as nat),
                #[trigger] descriptions@[i],
            ) by {
                if i < j {
                    assert(descriptions@[i] == prev[i]);
                }
            }
        }
        j = j + 1;
    }
    proof {
        assert(descriptions_ok(t, n as int));
    }
    Ok(Event::SymbolSamples { req_id, descriptions })
}

// ---------------------------------------------------------------------------------------------
// Where decoded values come from
// ---------------------------------------------------------------------------------------------

/// Every value of a decoded order-status message comes from its own field, in the order the
/// server writes them: after a version field when ids are sent as text, the order id, the
/// status, the filled and remaining quantities, the average fill price, the perm id, the
/// parent id, the last fill price, the client id, why the order is held and the market cap
/// price.
pub proof fn lemma_order_status_wire_order(t: Seq<Seq<char>>, raw: bool, r: Result<Event, TwsApiError>)
    requires
        order_status_decoded(t, raw, r),
    ensures
        r is Ok ==> r->Ok_0 is OrderStatus,
        r matches Ok(
            Event::OrderStatus {
                order_id,
                status,
                filled,
                remaining,
                avg_fill_price,
                perm_id,
                parent_id,
                last_fill_price,
                client_id,
                why_held,
                market_cap_price,
            },
        ) ==> ({
            let p: int = if raw {
                0
            } else {
                1
            };
            &&& order_id == i32_or_zero(t, p)
            &&& status@ == text_at(t, p + 1)
            &&& filled.text@ == decimal_or_zero(t, p + 2)
            &&& remaining.text@ == decimal_or_zero(t, p + 3)
            &&& avg_fill_price.text@ == text_at(t, p + 4)
            &&& perm_id == i64_or_zero(t, p + 5)
            &&& parent_id == i32_or_zero(t, p + 6)
            &&& last_fill_price.text@ == text_at(t, p + 7)
            &&& client_id == i32_or_zero(t, p + 8)
            &&& why_held@ == text_at(t, p + 9)
            &&& market_cap_price.text@ == text_at(t, p + 10)
        }),
{
}

/// Every bar of decoded historical data takes its values from eight fields of its own, bar
/// after bar from the first bar's place (the field after the bar count), in the order the
/// server writes them: date, open, high, low, close, volume, average price and trade count.
pub proof fn lemma_historical_bars_wire_order(t: Seq<Seq<char>>, r: Result<Event, TwsApiError>)
    requires
        historical_data_decoded(t, r),
    ensures
        r is Ok ==> r->Ok_0 is HistoricalDataBars,
        r matches Ok(Event::HistoricalDataBars { req_id, bars }) ==> forall|j: int|
            0 <= j < bars@.len() ==> {
                let q = (if bars_follow_at(t, 1) {
                    2int
                } else {
                    3int
                }) + 8 * j;
                &&& #[trigger] bars@[j].date@ == text_at(t, q)
                &&& bars@[j].open.text@ == text_at(t, q + 1)
                &&& bars@[j].high.text@ == text_at(t, q + 2)
                &&& bars@[j].low.text@ == text_at(t, q + 3)
                &&& bars@[j].close.text@ == text_at(t, q + 4)
                &&& bars@[j].volume.text@ == decimal_or_zero(t, q + 5)
                &&& bars@[j].wap.text@ == decimal_or_zero(t, q + 6)
                &&& bars@[j].bar_count == i32_or_zero(t, q + 7)
            },
{
    if let Ok(Event::HistoricalDataBars { req_id, bars }) = r {
        let start = (if bars_follow_at(t, 1) {
            2int
        } else {
            3int
        });
        assert forall|j: int| 0 <= j < bars@.len() implies {
            let q = start + 8 * j;
            &&& #[trigger] bars@[j].date@ == text_at(t, q)
            &&& bars@[j].open.text@ == text_at(t, q + 1)
            &&& bars@[j].high.text@ == text_at(t, q + 2)
            &&& bars@[j].low.text@ == text_at(t, q + 3)
            &&& bars@[j].close.text@ == text_at(t, q + 4)
            &&& bars@[j].volume.text@ == decimal_or_zero(t, q + 5)
            &&& bars@[j].wap.text@ == decimal_or_zero(t, q + 6)
            &&& bars@[j].bar_count == i32_or_zero(t, q + 7)
        } by {
            assert(bar_out_at(t, start, j, bars@[j]));
        }
    }
}


/// Every value of a decoded execution report comes from its own field, in the order the server
/// writes them. Shown for the reports of current servers: with no version field in front (the
/// fourth field is then not an integer), or with a version of 10 or more in front, which moves
/// every field one place on. The fields are the request id, the order id, the contract's id,
/// symbol, security type, expiry, strike, right, multiplier, exchange, currency, local symbol
/// and trading class, then the execution's id, time, account, exchange, side, shares, price,
/// perm id, client id, liquidation, cumulative quantity, average price and order reference.
pub proof fn lemma_execution_wire_order(t: Seq<Seq<char>>, r: Result<Event, TwsApiError>)
    requires
        execution_data_decoded(t, r),
        !(i32_at(t, 3) is Ok) || i32_or_zero(t, 0) >= 10,
    ensures
        r is Ok ==> r->Ok_0 is ExecutionDetails,
        r matches Ok(Event::ExecutionDetails { req_id, contract, execution }) ==> ({
            let s: int = if i32_at(t, 3) is Ok {
                1
            } else {
                0
            };
            &&& req_id == i32_or_zero(t, s)
            &&& execution.order_id == i32_or_zero(t, s + 1)
            &&& contract.con_id == i32_or_zero(t, s + 2)
            &&& contract.symbol@ == text_at(t, s + 3)
            &&& contract.sec_type@ == text_at(t, s + 4)
            &&& contract.last_trade_date_or_contract_month@ == text_at(t, s + 5)
            &&& contract.strike.text@ == text_at(t, s + 6)
            &&& contract.right@ == text_at(t, s + 7)
            &&& contract.multiplier@ == text_at(t, s + 8)
            &&& contract.exchange@ == text_at(t, s + 9)
            &&& contract.currency@ == text_at(t, s + 10)
            &&& contract.local_symbol@ == text_at(t, s + 11)
            &&& contract.trading_class@ == text_at(t, s + 12)
            &&& execution.exec_id@ == text_at(t, s + 13)
            &&& execution.time@ == text_at(t, s + 14)
            &&& execution.acct_number@ == text_at(t, s + 15)
            &&& execution.exchange@ == text_at(t, s + 16)
            &&& execution.side@ == text_at(t, s + 17)
            &&& execution.shares.text@ == decimal_or_zero(t, s + 18)
            &&& execution.price.text@ == text_at(t, s + 19)
            &&& execution.perm_id == i32_or_zero(t, s + 20)
            &&& execution.client_id == i32_or_zero(t, s + 21)
            &&& execution.liquidation == i32_or_zero(t, s + 22)
            &&& execution.cum_qty.text@ == decimal_or_zero(t, s + 23)
            &&& execution.avg_price.text@ == text_at(t, s + 24)
            &&& execution.order_ref@ == text_at(t, s + 25)
        }),
{
}


/// True when the contract and the leading order fields of an open or completed order stand from
/// position `p` on, in the order the server writes them: the contract's id, symbol, security
/// type, expiry, strike, right, multiplier, exchange, currency, local symbol and trading class,
/// then the order's action, total quantity, order type, limit price, aux price, time in force,
/// OCA group, account, open/close flag, origin and order reference.
pub open spec fn order_report_fields_at(t: Seq<Seq<char>>, p: int, contract: Contract, order: Order) -> bool {
    &&& contract.con_id == i32_or_zero(t, p)
    &&& contract.symbol@ == text_at(t, p + 1)
    &&& contract.sec_type@ == text_at(t, p + 2)
    &&& contract.last_trade_date_or_contract_month@ == text_at(t, p + 3)
    &&& contract.strike.text@ == text_at(t, p + 4)
    &&& contract.right@ == text_at(t, p + 5)
    &&& contract.multiplier@ == text_at(t, p + 6)
    &&& contract.exchange@ == text_at(t, p + 7)
    &&& contract.currency@ == text_at(t, p + 8)
    &&& contract.local_symbol@ == text_at(t, p + 9)
    &&& contract.trading_class@ == text_at(t, p + 10)
    &&& order.action@ == text_at(t, p + 11)
    &&& order.total_quantity.text@ == decimal_or_zero(t, p + 12)
    &&& order.order_type@ == text_at(t, p + 13)
    &&& order.limit_price.text@ == text_at(t, p + 14)
    &&& order.aux_price.text@ == text_at(t, p + 15)
    &&& order.tif@ == text_at(t, p + 16)
    &&& order.oca_group@ == text_at(t, p + 17)
    &&& order.account@ == text_at(t, p + 18)
    &&& order.open_close@ == text_at(t, p + 19)
    &&& order.origin == origin_for(i32_or_zero(t, p + 20))
    &&& order.order_ref@ == text_at(t, p + 21)
}

/// A decoded open order takes its id, its contract and its leading order fields from their own
/// fields, in the order the server writes them, followed by the client id and the perm id.
/// Shown for the messages of current servers: with no version field in front (the third field
/// is then not an integer), or with a version of 32 or more in front, which moves every field
/// one place on.
pub proof fn lemma_open_order_wire_order(t: Seq<Seq<char>>, r: Result<Event, TwsApiError>)
    requires
        open_order_decoded(t, r),
        !(i32_at(t, 2) is Ok) || i32_or_zero(t, 0) >= 32,
    ensures
        r is Ok ==> r->Ok_0 is OpenOrder,
        r matches Ok(Event::OpenOrder { order_id, contract, order, order_state }) ==> ({
            let s: int = if i32_at(t, 2) is Ok {
                1
            } else {
                0
            };
            &&& order_id == i32_or_zero(t, s)
            &&& order.order_id == i32_or_zero(t, s)
            &&& order_report_fields_at(t, s + 1, *contract, *order)
            &&& order.client_id == i32_or_zero(t, s + 23)
            &&& order.perm_id == i32_or_zero(t, s + 24)
        }),
{
    reveal(order_contract_prefix_out);
    reveal(order_contract_prefix_end);
    reveal(order_core_out);
    reveal(order_core_end);
}

/// A decoded completed order takes its contract and its leading order fields from their own
/// fields, from the first field on, in the order the server writes them.
pub proof fn lemma_completed_order_wire_order(t: Seq<Seq<char>>, r: Result<Event, TwsApiError>)
    requires
        completed_order_decoded(t, r),
    ensures
        r is Ok ==> r->Ok_0 is CompletedOrder,
        r matches Ok(Event::CompletedOrder { contract, order, order_state }) ==> order_report_fields_at(
            t,
            0,
            *contract,
            *order,
        ),
{
    reveal(order_contract_prefix_out);
    reveal(order_contract_prefix_end);
    reveal(order_core_out);
    reveal(order_core_end);
}


/// A decoded bar update takes its values from their own fields, in the order the server writes
/// them: the request id, the bar count, the date, the open, close, high and low prices, the
/// average price and the volume.
pub proof fn lemma_historical_data_update_wire_order(t: Seq<Seq<char>>, r: Result<Event, TwsApiError>)
    requires
        historical_data_update_decoded(t, r),
    ensures
        r is Ok ==> r->Ok_0 is HistoricalDataUpdate,
        r matches Ok(Event::HistoricalDataUpdate { req_id, bar }) ==> {
            &&& req_id == i32_or_zero(t, 0)
            &&& bar.bar_count == i32_or_zero(t, 1)
            &&& bar.date@ == text_at(t, 2)
            &&& bar.open.text@ == text_at(t, 3)
            &&& bar.close.text@ == text_at(t, 4)
            &&& bar.high.text@ == text_at(t, 5)
            &&& bar.low.text@ == text_at(t, 6)
            &&& bar.wap.text@ == decimal_or_zero(t, 7)
            &&& bar.volume.text@ == decimal_or_zero(t, 8)
        },
{
}

/// A decoded real-time bar takes its values from their own fields, in the order the server
/// writes them after a version field: the request id, the time, the open, high, low and close
/// prices, the volume, the average price and the trade count.
pub proof fn lemma_real_time_bar_wire_order(t: Seq<Seq<char>>, r: Result<Event, TwsApiError>)
    requires
        real_time_bar_decoded(t, r),
    ensures
        r is Ok ==> r->Ok_0 is RealTimeBar,
        r matches Ok(Event::RealTimeBar { req_id, time, bar }) ==> {
            &&& req_id == i32_or_zero(t, 1)
            &&& bar.date@ == text_at(t, 2)
            &&& bar.open.text@ == text_at(t, 3)
            &&& bar.high.text@ == text_at(t, 4)
            &&& bar.low.text@ == text_at(t, 5)
            &&& bar.close.text@ == text_at(t, 6)
            &&& bar.volume.text@ == decimal_or_zero(t, 7)
            &&& bar.wap.text@ == decimal_or_zero(t, 8)
            &&& bar.bar_count == i32_or_zero(t, 9)
        },
{
}

/// A decoded price tick takes the request id, the tick type, the price and the attributes from
/// the first four fields, in that order; a size tick takes the request id, the tick type and
/// the size from the first three.
pub proof fn lemma_tick_wire_order(t: Seq<Seq<char>>, r: Result<Event, TwsApiError>, s: Result<Event, TwsApiError>)
    requires
        tick_price_decoded(t, r),
        tick_size_decoded(t, s),
    ensures
        r is Ok ==> r->Ok_0 is TickPrice,
        r matches Ok(Event::TickPrice { req_id, tick_type, price, attrib }) ==> {
            &&& req_id == i32_or_zero(t, 0)
            &&& tick_type == i32_or_zero(t, 1)
            &&& price.text@ == text_at(t, 2)
            &&& attrib == i32_or_zero(t, 3)
        },
        s is Ok ==> s->Ok_0 is TickSize,
        s matches Ok(Event::TickSize { req_id, tick_type, size }) ==> {
            &&& req_id == i32_or_zero(t, 0)
            &&& tick_type == i32_or_zero(t, 1)
            &&& size.text@ == decimal_or_zero(t, 2)
        },
{
}

} // verus!
