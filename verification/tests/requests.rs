use truefix_twsapi_client::client::{
    check_payload_size, ensure_server_version, parse_handshake_reply, validate_attached_orders_parameters,
    validate_order_parameters, ClientConfig, ClientSession, ConnectionState, EventQueue,
};
use truefix_twsapi_client::contract_requests::{encode_order_condition, TickByTickRequest};
use truefix_twsapi_client::decoder::fields::decode_order_condition;
use truefix_twsapi_client::decoder::FieldReader;
use truefix_twsapi_client::events::Event;
use truefix_twsapi_client::num::Double;
use truefix_twsapi_client::types::OrderCondition;
use truefix_twsapi_client::comm::{read_fields, read_msg};
use truefix_twsapi_client::constants::ErrorCode;
use truefix_twsapi_client::decoder::split_message_id;
use truefix_twsapi_client::error::TwsApiError;
use truefix_twsapi_client::message::{Incoming, Outgoing};
use truefix_twsapi_client::requests::{
    encode_request_frame, encode_request_frame_with_protobuf, protobuf_min_server_version,
    tag_values_to_tws_options, AccountSummaryRequest, CancelOrderRequest, EmptyRequest,
    EncodableRequest, ExecutionRequest, FieldSink, IdRequest, NewsArticleRequest, PnlRequest,
    RawRequest, StartApiRequest, VersionedRequest, WshEventDataRequest,
};
use truefix_twsapi_client::server_versions::{
    MIN_SERVER_VER_ADDITIONAL_ORDER_PARAMS_1, MIN_SERVER_VER_ATTACHED_ORDERS,
    MIN_SERVER_VER_HEDGE_MAX_SIZE, MIN_SERVER_VER_POSITIONS, MIN_SERVER_VER_PROTOBUF,
    MIN_SERVER_VER_PROTOBUF_PLACE_ORDER,
};
use truefix_twsapi_client::types::{ExecutionFilter, Order, OrderCancel, TagValue};

fn fields_of_frame(frame: &[u8], raw: bool) -> (i32, Vec<String>) {
    let parsed = read_msg(frame).unwrap().unwrap();
    assert!(parsed.rest.is_empty());
    let (id, body) = split_message_id(raw, parsed.payload).unwrap();
    let fields = read_fields(body)
        .into_iter()
        .map(|f| String::from_utf8(f.to_vec()).unwrap())
        .collect();
    (id, fields)
}

#[test]
fn validate_order_parameters_rejects_new_fields_on_old_server_versions() {
    let mut order = Order::default();
    order.deactivate = true;
    let validation = validate_order_parameters(&order, MIN_SERVER_VER_ADDITIONAL_ORDER_PARAMS_1 - 1)
        .expect("expected deactivate to be rejected");
    assert_eq!(validation.parameter, "deactivate");
    assert_eq!(validation.min_version, MIN_SERVER_VER_ADDITIONAL_ORDER_PARAMS_1);

    let mut order = Order::default();
    order.hedge_max_size = 1;
    let validation = validate_order_parameters(&order, MIN_SERVER_VER_HEDGE_MAX_SIZE - 1)
        .expect("expected hedgeMaxSize to be rejected");
    assert_eq!(validation.parameter, "hedgeMaxSize");
    assert_eq!(validation.min_version, MIN_SERVER_VER_HEDGE_MAX_SIZE);
}

#[test]
fn validate_attached_orders_parameters_rejects_low_versions() {
    let mut order = Order::default();
    order.stop_loss_order_id = 1;
    let validation = validate_attached_orders_parameters(&order, MIN_SERVER_VER_ATTACHED_ORDERS - 1)
        .expect("expected attached orders to be rejected");
    assert_eq!(validation.parameter, "slOrderId");
    assert_eq!(validation.min_version, MIN_SERVER_VER_ATTACHED_ORDERS);
}

#[test]
fn validate_order_parameters_allows_supported_defaults() {
    let order = Order::default();
    assert!(validate_order_parameters(&order, MIN_SERVER_VER_ADDITIONAL_ORDER_PARAMS_1 - 1).is_none());
    assert!(validate_attached_orders_parameters(&order, MIN_SERVER_VER_ATTACHED_ORDERS - 1).is_none());
}

#[test]
fn order_checks_run_in_order() {
    let mut order = Order::default();
    order.post_only = true;
    order.what_if_type = 2;
    order.profit_taker_order_type = "LMT".to_owned();
    let v = validate_order_parameters(&order, 100).unwrap();
    assert_eq!(v.parameter, "postOnly");
    let v = validate_order_parameters(&order, MIN_SERVER_VER_ADDITIONAL_ORDER_PARAMS_1).unwrap();
    assert_eq!(v.parameter, "whatIfType");
    assert!(validate_order_parameters(&order, MIN_SERVER_VER_HEDGE_MAX_SIZE).is_none());
    let v = validate_attached_orders_parameters(&order, 100).unwrap();
    assert_eq!(v.parameter, "ptOrderType");
}

#[test]
fn pnl_request_frame_with_text_id() {
    let request = PnlRequest { req_id: 7, account: "DU1".to_owned(), model_code: String::new() };
    let frame = encode_request_frame(&request, 100).unwrap();
    let mut expected = vec![0, 0, 0, 10];
    expected.extend_from_slice(b"92\x007\x00DU1\x00\x00");
    assert_eq!(frame, expected);
    let (id, fields) = fields_of_frame(&frame, false);
    assert_eq!(id, Outgoing::ReqPnl.id());
    assert_eq!(fields, vec!["7", "DU1", ""]);
}

#[test]
fn request_frames_use_raw_ids_on_protobuf_servers() {
    let request = AccountSummaryRequest { req_id: 3, group_name: "All".to_owned(), tags: "NetLiquidation".to_owned() };
    let frame = encode_request_frame_with_protobuf(&request, MIN_SERVER_VER_PROTOBUF, false).unwrap();
    assert_eq!(&frame[4..8], &[0, 0, 0, 62]);
    let (id, fields) = fields_of_frame(&frame, true);
    assert_eq!(id, 62);
    assert_eq!(fields, vec!["1", "3", "All", "NetLiquidation"]);
}

#[test]
fn request_with_bad_text_is_refused() {
    let request = PnlRequest { req_id: 1, account: "bad\nvalue".to_owned(), model_code: "m\u{1}".to_owned() };
    match encode_request_frame(&request, 100) {
        Err(TwsApiError::NonPrintableAscii(s)) => assert_eq!(s, "bad\nvalue"),
        other => panic!("{other:?}"),
    }
}

#[test]
fn each_request_encodes_its_fields() {
    let cases: Vec<(Box<dyn Fn(&mut FieldSink) -> Result<(), TwsApiError>>, &str)> = vec![
        (Box::new(|s| EmptyRequest { message: Outgoing::ReqFamilyCodes }.encode_fields(s)), ""),
        (Box::new(|s| VersionedRequest { message: Outgoing::ReqCurrentTime, version: 1 }.encode_fields(s)), "1\0"),
        (Box::new(|s| IdRequest { message: Outgoing::CancelMktData, version: Some(2), req_id: 9 }.encode_fields(s)), "2\09\0"),
        (Box::new(|s| IdRequest { message: Outgoing::ReqMarketRule, version: None, req_id: 26 }.encode_fields(s)), "26\0"),
        (
            Box::new(|s| StartApiRequest { client_id: 5, optional_capabilities: None, include_optional_capabilities: true }.encode_fields(s)),
            "2\05\0\0",
        ),
        (
            Box::new(|s| StartApiRequest { client_id: 5, optional_capabilities: Some("x".to_owned()), include_optional_capabilities: false }.encode_fields(s)),
            "2\05\0",
        ),
        (
            Box::new(|s| CancelOrderRequest { order_id: 11, order_cancel: OrderCancel { manual_order_cancel_time: String::new(), ext_operator: "op".to_owned(), manual_order_indicator: 1 } }.encode_fields(s)),
            "1\011\0\0op\01\0",
        ),
        (
            Box::new(|s| ExecutionRequest { req_id: 4, filter: ExecutionFilter { client_id: 2, side: "BUY".to_owned(), ..Default::default() } }.encode_fields(s)),
            "3\04\02\0\0\0\0\0\0BUY\0",
        ),
        (
            Box::new(|s| NewsArticleRequest { req_id: 1, provider_code: "BZ".to_owned(), article_id: "A1".to_owned(), options: vec![TagValue { tag: "k".to_owned(), value: "v".to_owned() }] }.encode_fields(s)),
            "1\0BZ\0A1\01\0k\0v\0",
        ),
        (
            Box::new(|s| WshEventDataRequest { req_id: 1, con_id: 2, fill_portfolio: true, total_limit: 5, ..Default::default() }.encode_fields(s)),
            "1\02\0\00\01\00\0\0\05\0",
        ),
        (Box::new(|s| RawRequest { message: Outgoing::ReqIds, fields: "1\0\u{1}".to_owned() }.encode_fields(s)), "1\0\u{1}"),
    ];
    for (encode, expected) in cases {
        let mut sink = FieldSink::new();
        encode(&mut sink).unwrap();
        assert_eq!(sink.into_string(), expected);
    }
}

#[test]
fn field_sink_pushes() {
    let mut sink = FieldSink::default();
    sink.push_i32(-3).unwrap();
    sink.push_bool(true).unwrap();
    sink.push_empty_i32(i32::MAX).unwrap();
    sink.push_empty_i32(4).unwrap();
    sink.push_usize(12).unwrap();
    sink.push_i64(-9_000_000_000).unwrap();
    assert_eq!(sink.push_opt_str(None).unwrap_err(), TwsApiError::MissingField);
    sink.push_opt_str(Some("z")).unwrap();
    assert!(sink.push_str("\u{7f}").is_err());
    sink.push_raw("r\0");
    assert_eq!(sink.into_string(), "-3\01\0\04\012\0-9000000000\0z\0r\0");
}

#[test]
fn options_field_text() {
    let tags = vec![
        TagValue { tag: "a".to_owned(), value: "1".to_owned() },
        TagValue { tag: "b".to_owned(), value: "2".to_owned() },
    ];
    assert_eq!(tag_values_to_tws_options(&tags), "a=1;b=2;");
    assert_eq!(tag_values_to_tws_options(&Vec::new()), "");
}

#[test]
fn protobuf_versions_by_message() {
    assert_eq!(protobuf_min_server_version(Outgoing::ReqExecutions), Some(MIN_SERVER_VER_PROTOBUF));
    assert_eq!(protobuf_min_server_version(Outgoing::CancelOrder), Some(MIN_SERVER_VER_PROTOBUF_PLACE_ORDER));
    assert_eq!(protobuf_min_server_version(Outgoing::StartApi), None);
    assert_eq!(protobuf_min_server_version(Outgoing::UpdateConfig), None);
}

#[test]
fn message_ids() {
    assert_eq!(Outgoing::ReqMktData.id(), 1);
    assert_eq!(Outgoing::UpdateConfig.id(), 109);
    assert_eq!(Outgoing::PlaceOrder.protobuf_id(), 203);
    assert_eq!(Incoming::try_from(9), Ok(Incoming::NextValidId));
    assert_eq!(Incoming::try_from(111), Ok(Incoming::UpdateConfigResponse));
    assert_eq!(Incoming::try_from(22), Err(()));
    assert_eq!(Incoming::try_from(60), Err(()));
    assert_eq!(Incoming::ScannerData.id(), 20);
}

#[test]
fn error_catalog() {
    let e = ErrorCode::from_code(513).unwrap();
    assert_eq!(e.code, 513);
    assert_eq!(e.message, "Account Update Request Sending Error - ");
    assert_eq!(ErrorCode::fail_send_cancel_order().message, "Cancel Order Sending Error - ");
    assert_eq!(ErrorCode::from_code(501).unwrap().message, "Already connected.");
    assert!(ErrorCode::from_code(509).is_none());
    assert!(ErrorCode::from_code(586).is_none());
}

#[test]
fn client_configuration_and_session() {
    let config = ClientConfig::new(String::new(), 7497, 3);
    assert_eq!(config.host, "127.0.0.1");
    assert!(config.prefer_protobuf);
    assert_eq!(ClientConfig::new("gw".to_owned(), 4001, 1).host, "gw");

    let mut session = ClientSession::connecting(config);
    assert_eq!(session.state(), ConnectionState::Connecting);
    assert!(session.check_positions_supported().is_err());
    session.complete_handshake(MIN_SERVER_VER_POSITIONS, "20240101 00:00:00".to_owned());
    assert_eq!(session.state(), ConnectionState::Connected);
    assert!(session.check_positions_supported().is_ok());
    assert!(!session.start_api_request().include_optional_capabilities);
    assert!(!session.prefer_protobuf_now());
    session.note_event(false);
    assert!(!session.api_ready());
    session.note_event(true);
    session.note_event(false);
    assert!(session.api_ready());
    assert!(session.prefer_protobuf_now());
    assert!(!session.use_protobuf(Outgoing::ReqExecutions));
    assert_eq!(
        session.check_protobuf_request(Outgoing::StartApi).unwrap_err(),
        TwsApiError::UnsupportedServerVersion { server_version: MIN_SERVER_VER_POSITIONS, min_version: i32::MAX }
    );
    session.disconnect();
    assert_eq!(session.state(), ConnectionState::Disconnected);
    assert_eq!(session.connection_time(), "20240101 00:00:00");
}

#[test]
fn place_order_checks_only_for_protobuf_servers() {
    let mut order = Order::default();
    order.deactivate = true;
    let mut old = ClientSession::connecting(ClientConfig::new(String::new(), 1, 1));
    old.complete_handshake(200, String::new());
    assert!(old.check_place_order(&order).is_ok());
    let mut newer = ClientSession::connecting(ClientConfig::new(String::new(), 1, 1));
    newer.complete_handshake(MIN_SERVER_VER_PROTOBUF_PLACE_ORDER, String::new());
    assert_eq!(
        newer.check_place_order(&order).unwrap_err(),
        TwsApiError::UnsupportedRequestParameter {
            server_version: MIN_SERVER_VER_PROTOBUF_PLACE_ORDER,
            min_version: MIN_SERVER_VER_ADDITIONAL_ORDER_PARAMS_1,
            parameter: "deactivate",
        }
    );
}

#[test]
fn handshake_and_sizes() {
    let reply = parse_handshake_reply(b"176\x0020240101 10:00:00 EST\x00").unwrap();
    assert_eq!(reply, Some((176, "20240101 10:00:00 EST".to_owned())));
    assert_eq!(parse_handshake_reply(b"15\x001\x00DU1\x00").unwrap(), None);
    assert!(matches!(parse_handshake_reply(b"x\x00y\x00"), Err(TwsApiError::InvalidInteger { .. })));
    assert_eq!(check_payload_size(0xFF_FFFF).unwrap(), 0xFF_FFFF);
    assert_eq!(check_payload_size(0x100_0000).unwrap_err(), TwsApiError::FrameTooLarge(0x100_0000));
    assert_eq!(
        ensure_server_version(10, 11).unwrap_err(),
        TwsApiError::UnsupportedServerVersion { server_version: 10, min_version: 11 }
    );
}

#[test]
fn every_incoming_message_is_listed_once_in_id_order() {
    let all = Incoming::all();
    assert_eq!(all.len(), 85);
    assert_eq!(all[0], Incoming::TickPrice);
    for pair in all.windows(2) {
        assert!(pair[0].id() < pair[1].id());
    }
    for id in 0..130 {
        assert_eq!(Incoming::try_from(id).is_ok(), all.iter().any(|m| m.id() == id));
    }
}

#[test]
fn every_error_code_is_in_the_catalog() {
    let all = ErrorCode::all();
    assert_eq!(all.len(), 87);
    for pair in all.windows(2) {
        assert!(pair[0].code < pair[1].code);
    }
    for e in &all {
        assert_eq!(ErrorCode::from_code(e.code), Some(*e));
    }
    for code in 400..700 {
        assert_eq!(ErrorCode::from_code(code).is_some(), all.iter().any(|e| e.code == code));
    }
}

#[test]
fn family_codes_go_out_as_empty_protobuf_on_new_servers() {
    let r = EmptyRequest { message: Outgoing::ReqFamilyCodes };
    assert_eq!(encode_request_frame_with_protobuf(&r, 212, true).unwrap(), vec![0, 0, 0, 4, 0, 0, 1, 24]);
    assert_eq!(encode_request_frame_with_protobuf(&r, 211, true).unwrap(), vec![0, 0, 0, 4, 0, 0, 0, 80]);
    assert_eq!(encode_request_frame_with_protobuf(&r, 212, false).unwrap(), vec![0, 0, 0, 4, 0, 0, 0, 80]);
    assert_eq!(r.encode_protobuf().unwrap(), Some(vec![]));
    assert_eq!(EmptyRequest { message: Outgoing::ReqIds }.encode_protobuf().unwrap(), None);
}

#[test]
fn current_time_goes_out_as_empty_protobuf_on_new_servers() {
    let r = VersionedRequest { message: Outgoing::ReqCurrentTime, version: 1 };
    assert_eq!(encode_request_frame_with_protobuf(&r, 100, true).unwrap(), vec![0, 0, 0, 5, b'4', b'9', 0, b'1', 0]);
    assert_eq!(encode_request_frame_with_protobuf(&r, 201, true).unwrap(), vec![0, 0, 0, 6, 0, 0, 0, 49, b'1', 0]);
    assert_eq!(encode_request_frame_with_protobuf(&r, 213, true).unwrap(), vec![0, 0, 0, 4, 0, 0, 0, 249]);
}

#[test]
fn refused_server_version_leaves_the_sink_as_it_was() {
    let mut sink = FieldSink::new();
    sink.push_str("x").unwrap();
    let r = TickByTickRequest::default();
    match r.encode_fields_for_server_version(&mut sink, 136) {
        Err(TwsApiError::UnsupportedServerVersion { server_version, min_version }) => {
            assert_eq!(server_version, 136);
            assert_eq!(min_version, 137);
        }
        other => panic!("unexpected {other:?}"),
    }
    assert_eq!(sink.into_string(), "x\0");
}

#[test]
fn received_events_mark_readiness_and_queue_follow_ups() {
    let mut session = ClientSession::connecting(ClientConfig::new(String::new(), 1, 1));
    let mut queue = EventQueue::new();
    assert!(!session.api_ready());
    session.receive_event(&mut queue, &Event::CurrentTime { time: 5 });
    assert!(!session.api_ready());
    assert!(queue.is_empty());
    session.receive_event(&mut queue, &Event::NextValidId { order_id: 7 });
    assert!(session.api_ready());
    assert!(queue.is_empty());
    session.receive_event(&mut queue, &Event::ScannerData { req_id: 3, rows: vec![] });
    assert_eq!(queue.pop_front(), Some(Event::ScannerDataEnd { req_id: 3 }));
    assert_eq!(queue.pop_front(), None);
    queue.queue_early_event(Event::CurrentTime { time: 9 });
    queue.queue_early_event(Event::ScannerData { req_id: 4, rows: vec![] });
    assert_eq!(queue.pop_front(), Some(Event::CurrentTime { time: 9 }));
    assert_eq!(queue.pop_front(), Some(Event::ScannerData { req_id: 4, rows: vec![] }));
    assert_eq!(queue.pop_front(), Some(Event::ScannerDataEnd { req_id: 4 }));
    assert!(queue.is_empty());
}

#[test]
fn order_condition_fields() {
    let mut sink = FieldSink::new();
    let c = OrderCondition::Margin { is_conjunction_connection: false, is_more: true, percent: Double::new("30".to_string()) };
    encode_order_condition(&mut sink, &c).unwrap();
    assert_eq!(sink.into_string(), "4\0o\01\030\0");
    let mut sink = FieldSink::new();
    let c = OrderCondition::Execution {
        is_conjunction_connection: true,
        sec_type: "STK".to_string(),
        exchange: "SMART".to_string(),
        symbol: "AAPL".to_string(),
    };
    encode_order_condition(&mut sink, &c).unwrap();
    assert_eq!(sink.into_string(), "5\0a\0STK\0SMART\0AAPL\0");
}

#[test]
fn encoded_order_conditions_read_back() {
    let conditions = vec![
        OrderCondition::Time { is_conjunction_connection: true, is_more: false, time: "20240102 10:00:00".to_string() },
        OrderCondition::Margin { is_conjunction_connection: false, is_more: true, percent: Double::new("12.5".to_string()) },
        OrderCondition::Execution {
            is_conjunction_connection: false,
            sec_type: "STK".to_string(),
            exchange: "SMART".to_string(),
            symbol: "IBM".to_string(),
        },
    ];
    for c in conditions {
        let mut sink = FieldSink::new();
        encode_order_condition(&mut sink, &c).unwrap();
        let text = sink.into_string();
        let fields: Vec<String> =
            read_fields(text.as_bytes()).into_iter().map(|f| String::from_utf8(f.to_vec()).unwrap()).collect();
        let mut reader = FieldReader::new(&fields);
        assert_eq!(decode_order_condition(&mut reader).unwrap(), c);
    }
}

#[test]
fn reading_hands_out_queued_events_first() {
    let mut session = ClientSession::connecting(ClientConfig::new(String::new(), 1, 1));
    let mut queue = EventQueue::new();
    assert_eq!(session.take_queued_event(&mut queue), None);
    let event = session.accept_payload(&mut queue, b"20\03\07\00\0").unwrap();
    assert!(matches!(event, Event::ScannerData { req_id: 7, .. }));
    assert_eq!(session.take_queued_event(&mut queue), Some(Event::ScannerDataEnd { req_id: 7 }));
    assert_eq!(session.take_queued_event(&mut queue), None);
    let event = session.accept_payload(&mut queue, b"9\042\0").unwrap();
    assert_eq!(event, Event::NextValidId { order_id: 42 });
    assert!(session.api_ready());
    assert!(session.accept_payload(&mut queue, b"x\0").is_err());
    assert!(queue.is_empty());
}
