use truefix_twsapi_client::client::follow_up_event;
use truefix_twsapi_client::decoder::decode_payload;
use truefix_twsapi_client::decoder::fields::{
    decode_completed_order_fields, decode_open_order_fields, decode_symbol_samples_fields,
    decode_tick_by_tick_fields,
};
use truefix_twsapi_client::error::TwsApiError;
use truefix_twsapi_client::events::{Event, ScannerDataRow};
use truefix_twsapi_client::num::{Double, DecimalText};
use truefix_twsapi_client::text::IntErrorKind;
use truefix_twsapi_client::types::{Contract, OrderCondition, Origin, TickByTick};

fn text_payload(id: &str, fields: &[&str]) -> Vec<u8> {
    let mut out = Vec::new();
    out.extend_from_slice(id.as_bytes());
    out.push(0);
    for f in fields {
        out.extend_from_slice(f.as_bytes());
        out.push(0);
    }
    out
}

fn owned(fields: &[&str]) -> Vec<String> {
    fields.iter().map(|s| s.to_string()).collect()
}

fn dbl(s: &str) -> Double {
    Double { text: s.to_string() }
}

fn dec(s: &str) -> DecimalText {
    DecimalText { text: s.to_string() }
}

#[test]
fn next_valid_id_payload() {
    let event = decode_payload(false, &text_payload("9", &["42"])).unwrap();
    assert_eq!(event, Event::NextValidId { order_id: 42 });
}

#[test]
fn error_payload_reads_code_and_message() {
    let event = decode_payload(false, &text_payload("4", &["-1", "2104", "Market data farm OK", ""])).unwrap();
    assert_eq!(
        event,
        Event::Error {
            req_id: -1,
            time: 0,
            code: 2104,
            message: "Market data farm OK".to_string(),
            advanced_order_reject_json: String::new(),
        }
    );
}

#[test]
fn tick_price_keeps_the_price_text() {
    let event = decode_payload(false, &text_payload("1", &["5", "1", "123.5", "3"])).unwrap();
    assert_eq!(event, Event::TickPrice { req_id: 5, tick_type: 1, price: dbl("123.5"), attrib: 3 });
    let event = decode_payload(false, &text_payload("1", &["5", "1", "123.5", "x"])).unwrap();
    assert_eq!(event, Event::TickPrice { req_id: 5, tick_type: 1, price: dbl("123.5"), attrib: 0 });
}

#[test]
fn unreadable_integer_field_is_refused() {
    match decode_payload(false, &text_payload("9", &["x"])) {
        Err(TwsApiError::InvalidInteger { field, kind }) => {
            assert_eq!(field, "x");
            assert_eq!(kind, IntErrorKind::InvalidDigit);
        }
        other => panic!("{other:?}"),
    }
    match decode_payload(false, &text_payload("2", &["1", "0", "abc"])) {
        Err(TwsApiError::InvalidDecimal { field }) => assert_eq!(field, "abc"),
        other => panic!("{other:?}"),
    }
}

#[test]
fn unknown_ids_come_back_raw() {
    let event = decode_payload(false, &text_payload("110", &["a", "b"])).unwrap();
    assert_eq!(event, Event::Raw { msg_id: 110, fields: owned(&["a", "b"]) });
    let event = decode_payload(false, &text_payload("48", &[])).unwrap();
    assert_eq!(event, Event::Raw { msg_id: 48, fields: Vec::new() });
}

#[test]
fn protobuf_payloads_are_passed_on() {
    let event = decode_payload(true, &[0, 0, 0, 209, 1, 2, 3]).unwrap();
    assert_eq!(event, Event::RawProtobuf { msg_id: 9, payload: vec![1, 2, 3] });
}

#[test]
fn end_markers_carry_no_fields() {
    assert_eq!(decode_payload(false, &text_payload("53", &[])).unwrap(), Event::OpenOrderEnd);
    assert_eq!(decode_payload(false, &text_payload("62", &["1"])).unwrap(), Event::PositionEnd);
    assert_eq!(decode_payload(true, &[0, 0, 0, 102]).unwrap(), Event::CompletedOrdersEnd);
}

#[test]
fn order_status_version_field_depends_on_id_form() {
    let fields = ["7", "Filled", "10", "0", "1.5", "123456789012", "0", "1.5", "3", "", "0"];
    let with_version: Vec<&str> = std::iter::once("1").chain(fields.iter().copied()).collect();
    let text = decode_payload(false, &text_payload("3", &with_version)).unwrap();
    let mut raw = vec![0, 0, 0, 3];
    raw.extend_from_slice(&text_payload("", &fields)[1..]);
    let raw = decode_payload(true, &raw).unwrap();
    assert_eq!(text, raw);
    match text {
        Event::OrderStatus { order_id, status, filled, perm_id, client_id, .. } => {
            assert_eq!(order_id, 7);
            assert_eq!(status, "Filled");
            assert_eq!(filled, dec("10"));
            assert_eq!(perm_id, 123456789012);
            assert_eq!(client_id, 3);
        }
        other => panic!("{other:?}"),
    }
}

#[test]
fn tick_by_tick_last_trade() {
    let fields = owned(&["7", "1", "1700000000", "10.5", "100", "3", "NASDAQ", ""]);
    match decode_tick_by_tick_fields(&fields).unwrap() {
        Event::TickByTick { req_id: 7, tick_type: 1, tick: Some(TickByTick::Last(t)) } => {
            assert_eq!(t.time, 1700000000);
            assert!(t.tick_attrib_last.past_limit);
            assert!(t.tick_attrib_last.unreported);
            assert_eq!(t.price, dbl("10.5"));
            assert_eq!(t.size, dec("100"));
            assert_eq!(t.exchange, "NASDAQ");
            assert_eq!(t.special_conditions, "");
        }
        other => panic!("{other:?}"),
    }
}

#[test]
fn tick_by_tick_bid_ask_and_midpoint() {
    let fields = owned(&["7", "3", "5", "10.5", "10.6", "100", "200", "1"]);
    match decode_tick_by_tick_fields(&fields).unwrap() {
        Event::TickByTick { tick: Some(TickByTick::BidAsk(t)), .. } => {
            assert!(t.tick_attrib_bid_ask.bid_past_low);
            assert!(!t.tick_attrib_bid_ask.ask_past_high);
            assert_eq!(t.price_bid, dbl("10.5"));
            assert_eq!(t.price_ask, dbl("10.6"));
            assert_eq!(t.size_bid, dec("100"));
            assert_eq!(t.size_ask, dec("200"));
        }
        other => panic!("{other:?}"),
    }
    let fields = owned(&["7", "4", "5", "10.55"]);
    match decode_tick_by_tick_fields(&fields).unwrap() {
        Event::TickByTick { tick: Some(TickByTick::MidPoint(t)), .. } => {
            assert_eq!(t.time, 5);
            assert_eq!(t.price, dbl("10.55"));
            assert_eq!(t.size, dec("0"));
        }
        other => panic!("{other:?}"),
    }
    let fields = owned(&["7", "9", "5"]);
    assert_eq!(
        decode_tick_by_tick_fields(&fields).unwrap(),
        Event::TickByTick { req_id: 7, tick_type: 9, tick: None }
    );
}

#[test]
fn symbol_samples_read_descriptions_of_varying_length() {
    let fields = owned(&[
        "3", "2", "265598", "AAPL", "STK", "NASDAQ", "USD", "2", "OPT", "WAR", "Apple Inc", "ISSUER1", "8314",
        "IBM", "STK", "NYSE", "USD", "0", "x",
    ]);
    match decode_symbol_samples_fields(&fields).unwrap() {
        Event::SymbolSamples { req_id, descriptions } => {
            assert_eq!(req_id, 3);
            assert_eq!(descriptions.len(), 2);
            let a = &descriptions[0];
            assert_eq!(a.contract.con_id, 265598);
            assert_eq!(a.contract.symbol, "AAPL");
            assert_eq!(a.contract.primary_exchange, "NASDAQ");
            assert_eq!(a.derivative_sec_types, owned(&["OPT", "WAR"]));
            assert_eq!(a.contract.description, "Apple Inc");
            assert_eq!(a.contract.issuer_id, "ISSUER1");
            let b = &descriptions[1];
            assert_eq!(b.contract.symbol, "IBM");
            assert!(b.derivative_sec_types.is_empty());
            assert_eq!(b.contract.description, "");
            assert_eq!(b.contract.issuer_id, "");
        }
        other => panic!("{other:?}"),
    }
    let bad = owned(&["3", "1", "x"]);
    assert!(matches!(
        decode_symbol_samples_fields(&bad),
        Err(TwsApiError::InvalidInteger { kind: IntErrorKind::InvalidDigit, .. })
    ));
}

/// The fields that open and completed orders share after the permanent id, for a recent server:
/// no delta-neutral order type, a zero price increment, no hedge type, no algorithm.
fn shared_order_fields() -> Vec<&'static str> {
    vec![
        "1", "0", "0.5", "20240101 10:00:00", "", "grp", "method", "pct", "model", "20240201", "R", "1.5", "firm",
        "2", "loc", "4", "3", "R2", "firm2", "1", "5", "2.5", "0", "0", "0", "11", "2", "0.3", "1", "", "0", "1", "0",
        "99.5", "1.25", "10", "20", "0", "table", "09:30", "16:00", "", "1", "clr", "intent", "1", "0", "",
    ]
}

#[test]
fn completed_order_with_conditions() {
    let mut f: Vec<&str> = vec![
        "265598", "AAPL", "STK", "", "0", "", "1", "SMART", "USD", "AAPL", "NMS", "BUY", "100", "LMT", "150.5",
        "0", "DAY", "", "DU123", "O", "1", "ref1", "123456",
    ];
    f.extend(shared_order_fields());
    f.extend([
        "1", "Filled", "0", "1", "7", "0", "0.5", "0.25", "X", "3", "1", "a", "2", "8314", "SMART", "1", "150.0",
        "3", "o", "1", "20240101", "9", "o", "adj", "1.0", "0.1", "2.0", "3.0", "4.0", "1", "500", "0", "1",
        "20240301", "50", "12", "1", "holder", "1", "1", "77", "20240102 10:00:00", "done",
    ]);
    f.extend(["1", "2", "0.5", "0.25", "0.75", "cust", "1", "acc", "0", "4", "me"]);
    let fields = owned(&f);
    match decode_completed_order_fields(&fields).unwrap() {
        Event::CompletedOrder { contract, order, order_state } => {
            assert_eq!(contract.con_id, 265598);
            assert_eq!(contract.multiplier, "1");
            assert_eq!(contract.trading_class, "NMS");
            assert_eq!(order.order_id, 0);
            assert_eq!(order.action, "BUY");
            assert_eq!(order.total_quantity, dec("100"));
            assert_eq!(order.limit_price, dbl("150.5"));
            assert_eq!(order.origin, Origin::Firm);
            assert_eq!(order.perm_id, 123456);
            assert!(order.outside_rth);
            assert_eq!(order.model_code, "model");
            assert_eq!(order.rule80a, "R2");
            assert_eq!(order.settling_firm, "firm2");
            assert_eq!(order.percent_offset, dbl("2.5"));
            assert_eq!(order.exempt_code, 4);
            assert_eq!(order.parent_id, 11);
            assert_eq!(order.trailing_percent, dbl("1.25"));
            assert_eq!(order.scale_subs_level_size, 20);
            assert_eq!(order.scale_table, "table");
            assert_eq!(order.clearing_account, "clr");
            assert!(order.not_held);
            assert!(order.solicited);
            assert_eq!(order_state.status, "Filled");
            assert!(order.randomize_price);
            assert_eq!(order.reference_contract_id, 7);
            assert_eq!(order.reference_exchange_id, "X");
            assert_eq!(order.conditions.len(), 3);
            assert_eq!(
                order.conditions[0],
                OrderCondition::Price {
                    is_conjunction_connection: true,
                    trigger_method: 2,
                    con_id: 8314,
                    exchange: "SMART".to_string(),
                    is_more: true,
                    price: dbl("150.0"),
                }
            );
            assert_eq!(
                order.conditions[1],
                OrderCondition::Time { is_conjunction_connection: false, is_more: true, time: "20240101".to_string() }
            );
            assert_eq!(
                order.conditions[2],
                OrderCondition::Time { is_conjunction_connection: false, is_more: false, time: String::new() }
            );
            assert_eq!(order.adjusted_order_type, "adj");
            assert_eq!(order.cash_qty, dbl("500"));
            assert_eq!(order.filled_quantity, dec("50"));
            assert_eq!(order.route_marketable_to_bbo, 1);
            assert_eq!(order.parent_perm_id, 77);
            assert_eq!(order_state.completed_time, "20240102 10:00:00");
            assert_eq!(order_state.completed_status, "done");
            assert_eq!(order.min_trade_qty, 1);
            assert_eq!(order.customer_account, "cust");
            assert_eq!(order.submitter, "me");
        }
        other => panic!("{other:?}"),
    }
}

#[test]
fn open_order_with_state() {
    let mut f: Vec<&str> = vec![
        "17", "265598", "AAPL", "STK", "", "0", "", "1", "SMART", "USD", "AAPL", "NMS", "SELL", "5", "MKT", "0",
        "0", "GTC", "", "DU1", "C", "0", "", "3", "999",
    ];
    f.extend(shared_order_fields());
    f.push("1");
    f.extend([
        "Submitted", "1", "2", "3", "4", "5", "6", "7", "8", "9", "1.5", "1", "2", "USD", "EUR", "1", "2", "3",
        "4", "5", "6", "7", "8", "9", "100", "", "1", "DU1", "1", "2", "3", "4", "5", "0", "warn", "", "",
    ]);
    f.extend(["1", "2", "0.5", "0.25", "0.75", "cust", "0", "acc", "0", "4", "me", "1"]);
    let fields = owned(&f);
    match decode_open_order_fields(&fields).unwrap() {
        Event::OpenOrder { order_id, contract, order, order_state } => {
            assert_eq!(order_id, 17);
            assert_eq!(order.order_id, 17);
            assert_eq!(contract.symbol, "AAPL");
            assert_eq!(order.action, "SELL");
            assert_eq!(order.origin, Origin::Customer);
            assert_eq!(order.client_id, 3);
            assert_eq!(order.perm_id, 999);
            assert!(order.what_if);
            assert_eq!(order_state.status, "Submitted");
            assert_eq!(order_state.commission_and_fees, dbl("1.5"));
            assert_eq!(order_state.margin_currency, "EUR");
            assert_eq!(order_state.suggested_size, "100");
            assert_eq!(order_state.order_allocations.len(), 1);
            assert_eq!(order_state.order_allocations[0].account, "DU1");
            assert_eq!(order_state.order_allocations[0].allowed_alloc_qty, dec("5"));
            assert_eq!(order_state.warning_text, "warn");
            assert_eq!(order.submitter, "me");
            assert!(order.imbalance_only);
        }
        other => panic!("{other:?}"),
    }
}

#[test]
fn nonzero_price_increment_reads_the_scale_adjustments() {
    assert!(dbl("0.01").is_nonzero());
    assert!(dbl("-1e3").is_nonzero());
    assert!(dbl("inf").is_nonzero());
    assert!(dbl("NaN").is_nonzero());
    assert!(!dbl("0").is_nonzero());
    assert!(!dbl("-0.000").is_nonzero());
    assert!(!dbl("0e10").is_nonzero());
    assert!(!dbl("").is_nonzero());
    assert!(!dbl("abc").is_nonzero());
}

#[test]
fn tiny_magnitudes_read_as_zero_as_parsing_rounds_them() {
    // 2^-1075, half the smallest positive f64, is 5^1075 * 10^-1075.
    let five_to_1075 = "24703282292062327208828439643411068618252990130716238221279284125033775363510437593264991818081799618989828234772285886546332835517796989819938739800539093906315035659515570226392290858392449105184435931802849936536152500319370457678249219365623669863658480757001585769269903706311928279558551332927834338409351978015531246597263579574622766465272827220056374006485499977096599470454020828166226237857393450736339007967761930577506740176324673600968951340535537458516661134223766678604162159680461914467291840300530057530849048765391711386591646239524912623653881879636239373280423891018672348497668235089863388587925628302755995657524455507255189313690836254779186948667994968324049705821028513185451396213837722826145437693412532098591327667236328125";
    let half_min = format!("0.{five_to_1075}e-323");
    let above_half_min = format!("0.{five_to_1075}1e-323");
    let cases = [
        "3e-324".to_string(),
        "2e-324".to_string(),
        "1e-400".to_string(),
        "-2.4703282292062328e-324".to_string(),
        "2.4703282292062327e-324".to_string(),
        "0.00001e-319".to_string(),
        "1e400".to_string(),
        "5e-324".to_string(),
        half_min.clone(),
        above_half_min.clone(),
        "1e-99999999999999999999999".to_string(),
        "1e99999999999999999999999".to_string(),
    ];
    for text in cases {
        let parsed: f64 = text.parse().unwrap();
        assert_eq!(dbl(&text).is_nonzero(), parsed != 0.0, "{text}");
    }
    assert!(!dbl(&half_min).is_nonzero());
    assert!(dbl(&above_half_min).is_nonzero());
    assert!(dbl("2.4703282292062328e-324").is_nonzero());
    assert!(!dbl("2.4703282292062327e-324").is_nonzero());
}

#[test]
fn scanner_data_enqueues_end_event() {
    let event = Event::ScannerData {
        req_id: 7,
        rows: vec![ScannerDataRow {
            rank: 1,
            contract: Box::new(Contract::default()),
            market_name: "NASDAQ".to_owned(),
            distance: "0".to_owned(),
            benchmark: "bm".to_owned(),
            projection: "proj".to_owned(),
            combo_key: "ck".to_owned(),
        }],
    };
    assert_eq!(follow_up_event(&event), Some(Event::ScannerDataEnd { req_id: 7 }));
    assert_eq!(follow_up_event(&Event::OpenOrderEnd), None);
}

#[test]
fn invalid_utf8_is_replaced() {
    let event = decode_payload(false, b"110\0a\xffb\0").unwrap();
    assert_eq!(event, Event::Raw { msg_id: 110, fields: vec!["a\u{FFFD}b".to_string()] });
}

#[test]
fn unset_is_told_by_the_value_the_text_reads_as() {
    let cases = [
        "1.7976931348623157e308",
        "1.7976931348623157E+308",
        "+1.7976931348623157e308",
        "179769313486231570000000000000000000000000000000000000000000000000000000000000000000000000000000000000000000000000000000000000000000000000000000000000000000000000000000000000000000000000000000000000000000000000000000000000000000000000000000000000000000000000000000000000000000000000000000000000000000000000000.0",
        "1.7976931348623158e308",
        "1.7976931348623159e308",
        "1.7976931348623156e308",
        "1.7976931348623155e308",
        "-1.7976931348623157e308",
        "0.17976931348623157e309",
        "17976931348623157e292",
        "1e308",
        "inf",
        "0",
    ];
    for text in cases {
        let parsed: f64 = text.parse().unwrap();
        assert_eq!(dbl(text).is_unset(), parsed == f64::MAX, "{text}");
    }
    assert!(Double::unset().is_unset());
    assert!(dbl("1.7976931348623157e308").is_unset());
    assert_eq!(dbl("1.7976931348623157e308").nullable_field_text(), "");
    assert!(!dbl("1e308").is_unset());
    assert_eq!(dbl("1e308").nullable_field_text(), "1e308");
}
