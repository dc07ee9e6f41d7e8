use truefix_twsapi_client::comm::{
    make_client_handshake, make_field, make_field_handle_empty, make_field_i32, make_initial_msg, make_msg, make_msg_proto,
    read_fields, read_msg,
};
use truefix_twsapi_client::decoder::{
    parse_bool, parse_condition_connector, parse_i32, parse_i64, split_message_id, FieldReader,
};
use truefix_twsapi_client::constants::UNSET_INTEGER;
use truefix_twsapi_client::error::TwsApiError;
use truefix_twsapi_client::num::Double;
use truefix_twsapi_client::requests::FieldSink;
use truefix_twsapi_client::text::{i32_text, i64_text, parse_i32 as parse_i32_text, u64_text, IntErrorKind};

#[test]
fn integer_text_matches_to_string() {
    for n in [0i64, 7, -7, 10, 99, 100, i32::MAX as i64, i32::MIN as i64, i64::MAX, i64::MIN] {
        assert_eq!(i64_text(n), n.to_string());
    }
    assert_eq!(i32_text(-2147483648), "-2147483648");
    assert_eq!(u64_text(u64::MAX), "18446744073709551615");
}

#[test]
fn integer_parsing_matches_std() {
    let cases = [
        "0", "42", "-42", "+42", "", "-", "+", "2147483647", "2147483648", "-2147483648",
        "-2147483649", "12a", "a", " 1", "99999999999x", "--1", "007",
    ];
    for c in cases {
        let ours = parse_i32_text(c.as_bytes());
        let std = c.parse::<i32>();
        match (ours, std) {
            (Ok(a), Ok(b)) => assert_eq!(a, b),
            (Err(k), Err(e)) => {
                let expected = match e.kind() {
                    std::num::IntErrorKind::Empty => IntErrorKind::Empty,
                    std::num::IntErrorKind::InvalidDigit => IntErrorKind::InvalidDigit,
                    std::num::IntErrorKind::PosOverflow => IntErrorKind::PosOverflow,
                    std::num::IntErrorKind::NegOverflow => IntErrorKind::NegOverflow,
                    _ => unreachable!(),
                };
                assert_eq!(k, expected, "{c}");
            }
            (a, b) => panic!("{c}: {a:?} vs {b:?}"),
        }
    }
}

#[test]
fn initial_message_has_a_length_prefix() {
    assert_eq!(make_initial_msg("abc"), vec![0, 0, 0, 3, b'a', b'b', b'c']);
    assert_eq!(make_initial_msg(""), vec![0, 0, 0, 0]);
}

#[test]
fn client_handshake_bytes() {
    let mut expected = b"API\0".to_vec();
    expected.extend_from_slice(&[0, 0, 0, 9]);
    expected.extend_from_slice(b"v100..225");
    assert_eq!(make_client_handshake(100, 225, None), expected);
    assert_eq!(make_client_handshake(100, 225, Some("")), expected);

    let mut with_options = b"API\0".to_vec();
    with_options.extend_from_slice(&[0, 0, 0, 15]);
    with_options.extend_from_slice(b"v100..225 +PACE");
    assert_eq!(make_client_handshake(100, 225, Some("+PACE")), with_options);
}

#[test]
fn protobuf_message_frame() {
    let frame = make_msg_proto(249, &[1, 2, 3]);
    assert_eq!(frame, vec![0, 0, 0, 7, 0, 0, 0, 249, 1, 2, 3]);
    let negative = make_msg_proto(-1, &[]);
    assert_eq!(negative, vec![0, 0, 0, 4, 255, 255, 255, 255]);
}

#[test]
fn field_messages_with_text_and_raw_ids() {
    let text_id = make_msg(49, false, "1\0").unwrap();
    assert_eq!(text_id, vec![0, 0, 0, 5, b'4', b'9', 0, b'1', 0]);
    let raw_id = make_msg(49, true, "1\0").unwrap();
    assert_eq!(raw_id, vec![0, 0, 0, 6, 0, 0, 0, 49, b'1', 0]);
}

#[test]
fn fields_must_be_printable_ascii() {
    assert_eq!(make_field("AAPL").unwrap(), "AAPL\0");
    assert_eq!(make_field("a\tb").unwrap(), "a\tb\0");
    assert_eq!(make_field("").unwrap(), "\0");
    match make_field("bad\u{1}") {
        Err(TwsApiError::NonPrintableAscii(s)) => assert_eq!(s, "bad\u{1}"),
        other => panic!("{other:?}"),
    }
    assert!(matches!(make_field("caf\u{e9}"), Err(TwsApiError::NonPrintableAscii(_))));
    assert!(matches!(make_field("a\0"), Err(TwsApiError::NonPrintableAscii(_))));
    assert_eq!(make_field_i32(-15).unwrap(), "-15\0");
}

#[test]
fn reading_frames() {
    assert_eq!(read_msg(&[0, 0, 0]).unwrap(), None);
    assert_eq!(read_msg(&[0, 0, 0, 3, 1, 2]).unwrap(), None);
    let buf = [0, 0, 0, 2, 7, 8, 9, 10];
    let frame = read_msg(&buf).unwrap().unwrap();
    assert_eq!(frame.size, 2);
    assert_eq!(frame.payload, &[7, 8]);
    assert_eq!(frame.rest, &[9, 10]);

    let encoded = make_msg(49, false, "1\0").unwrap();
    let frame = read_msg(&encoded).unwrap().unwrap();
    assert_eq!(frame.payload, b"49\x001\x00");
    assert!(frame.rest.is_empty());
}

#[test]
fn reading_fields() {
    assert_eq!(read_fields(b"a\0bc\0\0d\0"), vec![&b"a"[..], &b"bc"[..], &b""[..], &b"d"[..]]);
    assert_eq!(read_fields(b"a\0b"), vec![&b"a"[..], &b"b"[..]]);
    assert_eq!(read_fields(b""), Vec::<&[u8]>::new());
    assert_eq!(read_fields(b"\0"), vec![&b""[..]]);
}

#[test]
fn splitting_message_ids() {
    let (id, body) = split_message_id(false, b"17\0x\0").unwrap();
    assert_eq!(id, 17);
    assert_eq!(body, b"x\0");
    let (id, body) = split_message_id(true, &[0, 0, 0, 17, b'x']).unwrap();
    assert_eq!(id, 17);
    assert_eq!(body, b"x");
    let (id, _) = split_message_id(true, &[255, 255, 255, 254]).unwrap();
    assert_eq!(id, -2);
    assert_eq!(
        split_message_id(true, &[0, 1]).unwrap_err(),
        TwsApiError::IncompleteFrame { needed: 4, available: 2 }
    );
    assert_eq!(split_message_id(false, b"17").unwrap_err(), TwsApiError::MalformedHandshake);
    match split_message_id(false, b"x7\0") {
        Err(TwsApiError::InvalidInteger { field, kind }) => {
            assert_eq!(field, "x7");
            assert_eq!(kind, IntErrorKind::InvalidDigit);
        }
        other => panic!("{other:?}"),
    }
}

#[test]
fn typed_field_reads() {
    let fields: Vec<String> = ["12", "true", "x", "1", "-5"].iter().map(|s| s.to_string()).collect();
    assert!(parse_bool(Some(&fields[1])));
    assert!(parse_bool(Some(&fields[3])));
    assert!(!parse_bool(Some(&fields[2])));
    assert!(!parse_bool(None));
    assert!(parse_condition_connector("a"));
    assert!(parse_condition_connector("A"));
    assert!(!parse_condition_connector("o"));
    assert_eq!(parse_i32(Some(&fields[0])).unwrap(), 12);
    assert!(matches!(
        parse_i32(None),
        Err(TwsApiError::InvalidInteger { kind: IntErrorKind::Empty, .. })
    ));
    assert_eq!(parse_i64(Some(&fields[4])).unwrap(), -5);

    let mut reader = FieldReader::new(&fields);
    assert_eq!(reader.peek(2).map(String::as_str), Some("x"));
    assert_eq!(reader.next_i32_or_default(), 12);
    assert!(reader.next_bool());
    assert_eq!(reader.next_i32_or_default(), 0);
    assert_eq!(reader.next_string(), "1");
    assert_eq!(reader.next_i32().unwrap(), -5);
    assert_eq!(reader.next_string(), "");
    assert!(!reader.next_bool());
    assert_eq!(reader.peek(0), None);
}

#[test]
fn fields_of_any_value() {
    assert_eq!(make_field(42i32).unwrap(), "42\0");
    assert_eq!(make_field(true).unwrap(), "1\0");
    assert_eq!(make_field(7usize).unwrap(), "7\0");
    assert_eq!(make_field(-9i64).unwrap(), "-9\0");
    assert_eq!(make_field(String::from("x")).unwrap(), "x\0");
    assert_eq!(make_field(&Double { text: "inf".to_string() }).unwrap(), "Infinity\0");
    assert_eq!(make_field(&Double { text: "1.5".to_string() }).unwrap(), "1.5\0");
    assert_eq!(make_field_handle_empty(UNSET_INTEGER).unwrap(), "\0");
    assert_eq!(make_field_handle_empty(5i32).unwrap(), "5\0");
    assert_eq!(make_field_handle_empty(None::<i32>).unwrap_err(), TwsApiError::MissingField);
    assert_eq!(make_field_handle_empty(Some("ab")).unwrap(), "ab\0");
    assert_eq!(make_field_handle_empty(&Double::unset()).unwrap(), "\0");
    assert!(matches!(make_field_handle_empty(Some("a\u{1}")), Err(TwsApiError::NonPrintableAscii(_))));
    let mut sink = FieldSink::new();
    sink.push(3i32).unwrap();
    sink.push("a").unwrap();
    sink.push_empty(UNSET_INTEGER).unwrap();
    assert_eq!(sink.push_empty(None::<&str>).unwrap_err(), TwsApiError::MissingField);
    assert_eq!(sink.into_string(), "3\0a\0\0");
}
