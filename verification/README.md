# truefix-twsapi-client

A client library for the TWS/Gateway socket protocol whose protocol logic is proved with Verus:
framing, field encoding and decoding, message ids, wire enums, request encoders, the decoders
of every field-based incoming message, and the decisions of a client session.

## Layout

- `src/` — the verified library.
  - `text.rs` — decimal integer text, both ways.
  - `comm.rs` — length-prefixed frames, NUL-terminated fields, the handshake bytes.
  - `message.rs`, `server_versions.rs`, `constants.rs`, `enums.rs` — message ids, server
    versions, protocol constants and wire enums, each with its wire value.
  - `num.rs` — floating-point values and decimal quantities held as their decimal text; whether
    a text reads as zero, or as the largest `f64` that marks a value as unset, is decided exactly
    from the digits.
  - `types.rs`, `events.rs`, `error.rs` — the data the protocol carries.
  - `requests.rs`, `contract_requests.rs` — request encoders: what each request writes, field by
    field, for a given server version.
  - `decoder.rs` — the message id in front of a payload, typed field reads and the dispatch of a
    payload to its decoder.
  - `decoder/fields.rs` — one decoder per incoming message, each with a relation that says, for
    the texts of the fields, what it gives.
  - `client.rs` — the state of a client session and the checks a client makes before it sends.
- `tests/` — tests of the library on concrete values.
- `app/` — the asynchronous socket client (Tokio), the error type with its messages,
  conversions to `f64` and `rust_decimal::Decimal`, and the WSH JSON payload (serde).

## Protobuf

The TWS API can carry messages as protobuf. This library holds no protobuf message
definitions, so its protobuf support is limited to what needs none:

- Incoming protobuf messages (ids above 200) are not decoded. `decode_payload` hands them to
  the caller as `Event::RawProtobuf`, with the id less 200 and the message bytes; there is no
  protobuf decoding error.
- Outgoing, only requests whose protobuf message sets no field have a protobuf form: such a
  message is encoded as no bytes, so the frame is the protobuf id and nothing else
  (`EmptyRequest` and `VersionedRequest` for the messages their `protobuf_payload` names).
  Every other request goes out as fields, whatever `prefer_protobuf` says.
