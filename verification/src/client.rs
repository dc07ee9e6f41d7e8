//! Connection state and the decisions of the TWS API client that do not touch the socket.
use vstd::prelude::*;
use vstd::utf8::{decode_utf8, valid_utf8};

use crate::comm::{fields_of, read_fields, slice_views};
use crate::constants::{MAX_MSG_LEN, UNSET_INTEGER};
use crate::decoder::{decode_payload, lossy_text, parse_i32_field, payload_decoded, text_of_bytes};
use crate::error::TwsApiError;
use crate::events::Event;
use crate::types::Order;
use crate::message::Outgoing;
use crate::requests::{protobuf_min_server_version, protobuf_min_version, StartApiRequest};
use crate::server_versions::{
    MIN_SERVER_VER_ADDITIONAL_ORDER_PARAMS_1, MIN_SERVER_VER_ADDITIONAL_ORDER_PARAMS_2,
    MIN_SERVER_VER_ATTACHED_ORDERS, MIN_SERVER_VER_HEDGE_MAX_SIZE,
    MIN_SERVER_VER_OPTIONAL_CAPABILITIES, MIN_SERVER_VER_POSITIONS, MIN_SERVER_VER_PROTOBUF,
};
use crate::text::{parse_int_spec, IntErrorKind};

verus! {

/// Client connection state.
#[derive(Debug, Clone, Copy, PartialEq, Eq, Structural)]
pub enum ConnectionState {
    /// No active socket.
    Disconnected,
    /// Socket opened and handshake in progress.
    Connecting,
    /// Handshake completed.
    Connected,
}

/// TWS/Gateway client configuration.
#[derive(Debug, Clone, PartialEq, Eq)]
pub struct ClientConfig {
    /// Host name or IP address. Empty values are normalized to `127.0.0.1`.
    pub host: String,
    /// TWS/Gateway socket port.
    pub port: u16,
    /// TWS API client id.
    pub client_id: i32,
    /// Optional connect options appended to the enhanced handshake version string.
    pub connect_options: Option<String>,
    /// Optional capabilities sent by `start_api` when supported by the server.
    pub optional_capabilities: Option<String>,
    /// Whether to use the IB protobuf extension after `startApi`. With it, the requests that
    /// have a protobuf form here (those whose protobuf message sets no field, see
    /// `EncodableRequest::protobuf_payload`) go out as protobuf; every other request still goes
    /// out as fields, and incoming protobuf messages are handed on undecoded as
    /// `Event::RawProtobuf`.
    pub prefer_protobuf: bool,
}

impl ClientConfig {
    /// Creates a new configuration: an empty host becomes `127.0.0.1`, there are no connect
    /// options or optional capabilities, and protobuf is preferred.
    pub fn new(host: String, port: u16, client_id: i32) -> (r: Self)
        ensures
            host@.len() == 0 ==> r.host@ == "127.0.0.1"@,
            host@.len() > 0 ==> r.host@ == host@,
            r.port == port,
            r.client_id == client_id,
            r.connect_options is None,
            r.optional_capabilities is None,
            r.prefer_protobuf,
    {
        let host = if host.as_str().is_empty() {
            "127.0.0.1".to_owned()
        } else {
            host
        };
        Self {
            host,
            port,
            client_id,
            connect_options: None,
            optional_capabilities: None,
            prefer_protobuf: true,
        }
    }
}

/// The state of a client connection that the protocol decisions read: the configuration, the
/// connection state, the negotiated server version and whether the API is ready.
#[derive(Debug, Clone)]
pub struct ClientSession {
    config: ClientConfig,
    state: ConnectionState,
    server_version: i32,
    connection_time: String,
    api_ready: bool,
}

impl ClientSession {
    /// The configuration.
    pub closed spec fn spec_config(&self) -> ClientConfig {
        self.config
    }

    /// The connection state.
    pub closed spec fn spec_state(&self) -> ConnectionState {
        self.state
    }

    /// The negotiated server version, zero before the handshake.
    pub closed spec fn spec_server_version(&self) -> i32 {
        self.server_version
    }

    /// The connection time the server reported.
    pub closed spec fn spec_connection_time(&self) -> Seq<char> {
        self.connection_time@
    }

    /// Whether the first API callbacks after `startApi` have arrived.
    pub closed spec fn spec_api_ready(&self) -> bool {
        self.api_ready
    }

    /// A session whose socket was just opened and whose handshake is in progress.
    pub fn connecting(config: ClientConfig) -> (r: Self)
        ensures
            r.spec_config() == config,
            r.spec_state() == ConnectionState::Connecting,
            r.spec_server_version() == 0,
            r.spec_connection_time().len() == 0,
            !r.spec_api_ready(),
    {
        ClientSession {
            config,
            state: ConnectionState::Connecting,
            server_version: 0,
            connection_time: String::new(),
            api_ready: false,
        }
    }

    /// Records the server version and connection time of the handshake reply; the session is
    /// then connected.
    pub fn complete_handshake(&mut self, server_version: i32, connection_time: String)
        ensures
            final(self).spec_config() == old(self).spec_config(),
            final(self).spec_state() == ConnectionState::Connected,
            final(self).spec_server_version() == server_version,
            final(self).spec_connection_time() == connection_time@,
            final(self).spec_api_ready() == old(self).spec_api_ready(),
    {
        self.server_version = server_version;
        self.connection_time = connection_time;
        self.state = ConnectionState::Connected;
    }

    /// Marks the session disconnected; nothing else changes.
    pub fn disconnect(&mut self)
        ensures
            final(self).spec_config() == old(self).spec_config(),
            final(self).spec_state() == ConnectionState::Disconnected,
            final(self).spec_server_version() == old(self).spec_server_version(),
            final(self).spec_connection_time() == old(self).spec_connection_time(),
            final(self).spec_api_ready() == old(self).spec_api_ready(),
    {
        self.state = ConnectionState::Disconnected;
    }

    /// Records an incoming event: the API becomes ready at the first next-valid-id or
    /// managed-accounts event, and stays ready.
    pub fn note_event(&mut self, is_next_valid_id_or_managed_accounts: bool)
        ensures
            final(self).spec_config() == old(self).spec_config(),
            final(self).spec_state() == old(self).spec_state(),
            final(self).spec_server_version() == old(self).spec_server_version(),
            final(self).spec_connection_time() == old(self).spec_connection_time(),
            final(self).spec_api_ready() == (old(self).spec_api_ready()
                || is_next_valid_id_or_managed_accounts),
    {
        if is_next_valid_id_or_managed_accounts {
            self.api_ready = true;
        }
    }

    /// Returns the configuration.
    pub fn config(&self) -> (r: &ClientConfig)
        ensures
            *r == self.spec_config(),
    {
        &self.config
    }

    /// Returns the negotiated server version.
    pub fn server_version(&self) -> (r: i32)
        ensures
            r == self.spec_server_version(),
    {
        self.server_version
    }

    /// Returns the connection time reported by TWS/Gateway.
    pub fn connection_time(&self) -> (r: &str)
        ensures
            r@ == self.spec_connection_time(),
    {
        self.connection_time.as_str()
    }

    /// Returns the current connection state.
    pub fn state(&self) -> (r: ConnectionState)
        ensures
            r == self.spec_state(),
    {
        self.state
    }

    /// Returns whether initial API callbacks have been received after `startApi`.
    pub fn api_ready(&self) -> (r: bool)
        ensures
            r == self.spec_api_ready(),
    {
        self.api_ready
    }

    /// Whether requests may go out as protobuf now: the API is ready and the configuration
    /// prefers protobuf.
    pub fn prefer_protobuf_now(&self) -> (r: bool)
        ensures
            r == (self.spec_api_ready() && self.spec_config().prefer_protobuf),
    {
        self.api_ready && self.config.prefer_protobuf
    }

    /// Whether the server sends message ids as four raw bytes: servers that speak protobuf do.
    pub fn uses_raw_ids(&self) -> (r: bool)
        ensures
            r == (self.spec_server_version() >= MIN_SERVER_VER_PROTOBUF),
    {
        self.server_version >= MIN_SERVER_VER_PROTOBUF
    }

    /// Returns whether this server version supports protobuf for `message`.
    pub fn use_protobuf(&self, message: Outgoing) -> (r: bool)
        ensures
            r == (protobuf_min_version(message) matches Some(min_version)
                && self.spec_server_version() >= min_version),
    {
        match protobuf_min_server_version(message) {
            Some(min_version) => self.server_version >= min_version,
            None => false,
        }
    }

    /// The `startApi` request: the configured client id and optional capabilities, which are
    /// sent only to servers that read them.
    pub fn start_api_request(&self) -> (r: StartApiRequest)
        ensures
            r.client_id == self.spec_config().client_id,
            r.optional_capabilities == self.spec_config().optional_capabilities,
            r.include_optional_capabilities == (self.spec_server_version()
                >= MIN_SERVER_VER_OPTIONAL_CAPABILITIES),
    {
        StartApiRequest {
            client_id: self.config.client_id,
            optional_capabilities: self.config.optional_capabilities.clone(),
            include_optional_capabilities: self.server_version
                >= MIN_SERVER_VER_OPTIONAL_CAPABILITIES,
        }
    }

    /// Whether `reqPositions` may be sent: refused below the positions server version.
    pub fn check_positions_supported(&self) -> (r: Result<(), TwsApiError>)
        ensures
            self.spec_server_version() >= MIN_SERVER_VER_POSITIONS ==> r is Ok,
            self.spec_server_version() < MIN_SERVER_VER_POSITIONS ==> r == Err::<(), TwsApiError>(
                TwsApiError::UnsupportedServerVersion {
                    server_version: self.spec_server_version(),
                    min_version: MIN_SERVER_VER_POSITIONS,
                },
            ),
    {
        ensure_server_version(self.server_version, MIN_SERVER_VER_POSITIONS)
    }

    /// Whether an already-serialized protobuf payload for `message` may be sent: refused when
    /// the server does not read protobuf for it, naming its minimum version, or the largest
    /// `i32` when it has none.
    pub fn check_protobuf_request(&self, message: Outgoing) -> (r: Result<(), TwsApiError>)
        ensures
            (protobuf_min_version(message) matches Some(m) && self.spec_server_version() >= m)
                ==> r is Ok,
            !(protobuf_min_version(message) matches Some(m) && self.spec_server_version() >= m)
                ==> r == Err::<(), TwsApiError>(
                TwsApiError::UnsupportedServerVersion {
                    server_version: self.spec_server_version(),
                    min_version: match protobuf_min_version(message) {
                        Some(m) => m,
                        None => i32::MAX,
                    },
                },
            ),
    {
        if !self.use_protobuf(message) {
            let min_version = match protobuf_min_server_version(message) {
                Some(m) => m,
                None => i32::MAX,
            };
            return Err(TwsApiError::UnsupportedServerVersion {
                server_version: self.server_version,
                min_version,
            });
        }
        Ok(())
    }

    /// Whether an order may be placed: when it goes out as protobuf, fields the server version
    /// does not read are refused, the first one found naming the parameter.
    pub fn check_place_order(&self, order: &Order) -> (r: Result<(), TwsApiError>)
        ensures
            !(protobuf_min_version(Outgoing::PlaceOrder) matches Some(m) && self.spec_server_version() >= m)
                ==> r is Ok,
            (protobuf_min_version(Outgoing::PlaceOrder) matches Some(m) && self.spec_server_version() >= m)
                ==> match first_unsupported(order, self.spec_server_version()) {
                None => r is Ok,
                Some(v) => r == Err::<(), TwsApiError>(
                    TwsApiError::UnsupportedRequestParameter {
                        server_version: self.spec_server_version(),
                        min_version: v.min_version,
                        parameter: v.parameter,
                    },
                ),
            },
    {
        if self.use_protobuf(Outgoing::PlaceOrder) {
            match validate_order_parameters(order, self.server_version) {
                Some(validation) => {
                    return Err(TwsApiError::UnsupportedRequestParameter {
                        server_version: self.server_version,
                        min_version: validation.min_version,
                        parameter: validation.parameter,
                    });
                },
                None => {},
            }
            match validate_attached_orders_parameters(order, self.server_version) {
                Some(validation) => {
                    return Err(TwsApiError::UnsupportedRequestParameter {
                        server_version: self.server_version,
                        min_version: validation.min_version,
                        parameter: validation.parameter,
                    });
                },
                None => {},
            }
        }
        Ok(())
    }
}

/// Refuses a server version below `min_version`.
pub fn ensure_server_version(server_version: i32, min_version: i32) -> (r: Result<(), TwsApiError>)
    ensures
        server_version >= min_version ==> r is Ok,
        server_version < min_version ==> r == Err::<(), TwsApiError>(
            TwsApiError::UnsupportedServerVersion { server_version, min_version },
        ),
{
    if server_version < min_version {
        return Err(TwsApiError::UnsupportedServerVersion { server_version, min_version });
    }
    Ok(())
}

/// Checks an announced payload size: sizes above the maximum message length are refused.
pub fn check_payload_size(size: u32) -> (r: Result<usize, TwsApiError>)
    ensures
        size as int <= MAX_MSG_LEN ==> r == Ok::<usize, TwsApiError>(size as usize),
        size as int > MAX_MSG_LEN ==> r == Err::<usize, TwsApiError>(TwsApiError::FrameTooLarge(size)),
{
    let size_usize = size as usize;
    if size_usize > MAX_MSG_LEN {
        return Err(TwsApiError::FrameTooLarge(size));
    }
    Ok(size_usize)
}

/// What a handshake payload is: the server's reply when it holds exactly two fields, whose
/// first must read as the server version; any other payload is an early event.
pub open spec fn handshake_fields(payload: Seq<u8>) -> bool {
    fields_of(payload).len() == 2
}

/// Reads the handshake reply: `Some((server_version, connection_time))` when the payload holds
/// exactly two fields, `None` when it holds another number of fields (an event that came
/// first); an unreadable version is refused.
pub fn parse_handshake_reply(payload: &[u8]) -> (r: Result<Option<(i32, String)>, TwsApiError>)
    ensures
        !handshake_fields(payload@) ==> r matches Ok(None),
        handshake_fields(payload@) ==> match parse_int_spec(
            fields_of(payload@)[0],
            i32::MIN as int,
            i32::MAX as int,
        ) {
            Ok(v) => r matches Ok(Some((sv, t))) && sv == v && t@ == lossy_text(fields_of(payload@)[1]),
            Err(k) => r matches Err(TwsApiError::InvalidInteger { field, kind }) && kind == k && field@
                == lossy_text(fields_of(payload@)[0]),
        },
        r matches Ok(Some((_, t))) ==> (valid_utf8(fields_of(payload@)[1]) ==> t@ == decode_utf8(
            fields_of(payload@)[1],
        )),
{
    let fields = read_fields(payload);
    if fields.len() != 2 {
        return Ok(None);
    }
    proof {
        assert(slice_views(fields@)[0] == fields@[0]@);
        assert(slice_views(fields@)[1] == fields@[1]@);
    }
    proof {
        crate::text::lemma_parse_int_range(fields@[0]@, i32::MIN as int, i32::MAX as int);
    }
    let server_version = parse_i32_field(fields[0])?;
    let connection_time = text_of_bytes(fields[1]);
    Ok(Some((server_version, connection_time)))
}

// ---------------------------------------------------------------------------------------------
// Order fields that depend on the server version
// ---------------------------------------------------------------------------------------------

/// An order field that the negotiated server version does not read.
#[derive(Debug, Clone, Copy, PartialEq, Eq)]
pub struct OrderFieldValidation {
    /// Unsupported parameter name.
    pub parameter: &'static str,
    /// Minimum supported server version.
    pub min_version: i32,
}

/// The refusal naming `parameter` and its minimum server version.
pub open spec fn refusal(parameter: &'static str, min_version: i32) -> Option<OrderFieldValidation> {
    Some(OrderFieldValidation { parameter, min_version })
}

/// The first order field, in the order the checks run, that the server version does not read.
pub open spec fn unsupported_order_parameter(order: &Order, server_version: i32) -> Option<
    OrderFieldValidation,
> {
    let p1 = MIN_SERVER_VER_ADDITIONAL_ORDER_PARAMS_1;
    let p2 = MIN_SERVER_VER_ADDITIONAL_ORDER_PARAMS_2;
    if server_version < p1 && order.deactivate {
        refusal("deactivate", p1)
    } else if server_version < p1 && order.post_only {
        refusal("postOnly", p1)
    } else if server_version < p1 && order.allow_pre_open {
        refusal("allowPreOpen", p1)
    } else if server_version < p1 && order.ignore_open_auction {
        refusal("ignoreOpenAuction", p1)
    } else if server_version < p2 && order.route_marketable_to_bbo != UNSET_INTEGER {
        refusal("routeMarketableToBbo", p2)
    } else if server_version < p2 && order.seek_price_improvement != UNSET_INTEGER {
        refusal("seekPriceImprovement", p2)
    } else if server_version < p2 && order.what_if_type != UNSET_INTEGER {
        refusal("whatIfType", p2)
    } else if server_version < MIN_SERVER_VER_HEDGE_MAX_SIZE && order.hedge_max_size != UNSET_INTEGER {
        refusal("hedgeMaxSize", MIN_SERVER_VER_HEDGE_MAX_SIZE)
    } else {
        None
    }
}

/// The first attached-order field that the server version does not read.
pub open spec fn unsupported_attached_order_parameter(order: &Order, server_version: i32) -> Option<
    OrderFieldValidation,
> {
    let m = MIN_SERVER_VER_ATTACHED_ORDERS;
    if server_version < m && order.stop_loss_order_id != UNSET_INTEGER {
        refusal("slOrderId", m)
    } else if server_version < m && order.stop_loss_order_type@.len() != 0 {
        refusal("slOrderType", m)
    } else if server_version < m && order.profit_taker_order_id != UNSET_INTEGER {
        refusal("ptOrderId", m)
    } else if server_version < m && order.profit_taker_order_type@.len() != 0 {
        refusal("ptOrderType", m)
    } else {
        None
    }
}

/// The first refusal of either check, order fields first.
pub open spec fn first_unsupported(order: &Order, server_version: i32) -> Option<
    OrderFieldValidation,
> {
    match unsupported_order_parameter(order, server_version) {
        Some(v) => Some(v),
        None => unsupported_attached_order_parameter(order, server_version),
    }
}

/// Validates the order fields added in later server versions.
pub fn validate_order_parameters(order: &Order, server_version: i32) -> (r: Option<
    OrderFieldValidation,
>)
    ensures
        r == unsupported_order_parameter(order, server_version),
{
    if server_version < MIN_SERVER_VER_ADDITIONAL_ORDER_PARAMS_1 {
        if order.deactivate {
            return Some(OrderFieldValidation {
                parameter: "deactivate",
                min_version: MIN_SERVER_VER_ADDITIONAL_ORDER_PARAMS_1,
            });
        }
        if order.post_only {
            return Some(OrderFieldValidation {
                parameter: "postOnly",
                min_version: MIN_SERVER_VER_ADDITIONAL_ORDER_PARAMS_1,
            });
        }
        if order.allow_pre_open {
            return Some(OrderFieldValidation {
                parameter: "allowPreOpen",
                min_version: MIN_SERVER_VER_ADDITIONAL_ORDER_PARAMS_1,
            });
        }
        if order.ignore_open_auction {
            return Some(OrderFieldValidation {
                parameter: "ignoreOpenAuction",
                min_version: MIN_SERVER_VER_ADDITIONAL_ORDER_PARAMS_1,
            });
        }
    }
    if server_version < MIN_SERVER_VER_ADDITIONAL_ORDER_PARAMS_2 {
        if order.route_marketable_to_bbo != UNSET_INTEGER {
            return Some(OrderFieldValidation {
                parameter: "routeMarketableToBbo",
                min_version: MIN_SERVER_VER_ADDITIONAL_ORDER_PARAMS_2,
            });
        }
        if order.seek_price_improvement != UNSET_INTEGER {
            return Some(OrderFieldValidation {
                parameter: "seekPriceImprovement",
                min_version: MIN_SERVER_VER_ADDITIONAL_ORDER_PARAMS_2,
            });
        }
        if order.what_if_type != UNSET_INTEGER {
            return Some(OrderFieldValidation {
                parameter: "whatIfType",
                min_version: MIN_SERVER_VER_ADDITIONAL_ORDER_PARAMS_2,
            });
        }
    }
    if server_version < MIN_SERVER_VER_HEDGE_MAX_SIZE && order.hedge_max_size != UNSET_INTEGER {
        return Some(OrderFieldValidation {
            parameter: "hedgeMaxSize",
            min_version: MIN_SERVER_VER_HEDGE_MAX_SIZE,
        });
    }
    None
}

/// Validates the attached-order fields added in later server versions.
pub fn validate_attached_orders_parameters(order: &Order, server_version: i32) -> (r: Option<
    OrderFieldValidation,
>)
    ensures
        r == unsupported_attached_order_parameter(order, server_version),
{
    if server_version < MIN_SERVER_VER_ATTACHED_ORDERS {
        if order.stop_loss_order_id != UNSET_INTEGER {
            return Some(OrderFieldValidation {
                parameter: "slOrderId",
                min_version: MIN_SERVER_VER_ATTACHED_ORDERS,
            });
        }
        if !order.stop_loss_order_type.as_str().is_empty() {
            return Some(OrderFieldValidation {
                parameter: "slOrderType",
                min_version: MIN_SERVER_VER_ATTACHED_ORDERS,
            });
        }
        if order.profit_taker_order_id != UNSET_INTEGER {
            return Some(OrderFieldValidation {
                parameter: "ptOrderId",
                min_version: MIN_SERVER_VER_ATTACHED_ORDERS,
            });
        }
        if !order.profit_taker_order_type.as_str().is_empty() {
            return Some(OrderFieldValidation {
                parameter: "ptOrderType",
                min_version: MIN_SERVER_VER_ATTACHED_ORDERS,
            });
        }
    }
    None
}

/// A server version at or above the newest order gate refuses nothing.
pub proof fn lemma_new_servers_accept_every_order(order: &Order, server_version: i32)
    requires
        server_version >= MIN_SERVER_VER_HEDGE_MAX_SIZE,
    ensures
        first_unsupported(order, server_version) is None,
{
}

/// The event that follows a decoded one: scanner data is followed by the end of that scan, as
/// the server sends no end marker of its own.
pub open spec fn follow_up(event: Event) -> Option<Event> {
    match event {
        Event::ScannerData { req_id, .. } => Some(Event::ScannerDataEnd { req_id }),
        _ => None,
    }
}

/// The event queued after a decoded one: scanner data is followed by the end of that scan, as
/// the server sends no end marker of its own.
pub fn follow_up_event(event: &Event) -> (r: Option<Event>)
    ensures
        r == (match *event {
            Event::ScannerData { req_id, .. } => Some(Event::ScannerDataEnd { req_id }),
            _ => None,
        }),
        r == follow_up(*event),
{
    match event {
        Event::ScannerData { req_id, .. } => Some(Event::ScannerDataEnd { req_id: *req_id }),
        _ => None,
    }
}

/// The events that show the API is ready after `startApi`: the next valid order id and the
/// managed accounts.
pub open spec fn signals_api_ready(event: Event) -> bool {
    event is NextValidId || event is ManagedAccounts
}

/// Whether an event shows the API is ready after `startApi`.
pub fn marks_api_ready(event: &Event) -> (r: bool)
    ensures
        r == signals_api_ready(*event),
{
    match event {
        Event::NextValidId { .. } | Event::ManagedAccounts { .. } => true,
        _ => false,
    }
}

/// Events decoded but not handed out yet, first in first out.
#[derive(Debug, Clone)]
pub struct EventQueue {
    events: Vec<Event>,
}

impl View for EventQueue {
    type V = Seq<Event>;

    closed spec fn view(&self) -> Seq<Event> {
        self.events@
    }
}

impl EventQueue {
    /// An empty queue.
    pub fn new() -> (r: Self)
        ensures
            r@ == Seq::<Event>::empty(),
    {
        EventQueue { events: Vec::new() }
    }

    /// Whether no event is queued.
    pub fn is_empty(&self) -> (r: bool)
        ensures
            r == (self@.len() == 0),
    {
        self.events.len() == 0
    }

    /// Takes the first queued event, if there is one.
    pub fn pop_front(&mut self) -> (r: Option<Event>)
        ensures
            old(self)@.len() == 0 ==> r is None && final(self)@ == old(self)@,
            old(self)@.len() > 0 ==> r == Some(old(self)@[0]) && final(self)@ == old(self)@.drop_first(),
    {
        if self.events.len() == 0 {
            None
        } else {
            let e = self.events.remove(0);
            proof {
                assert(self.events@ =~= old(self)@.drop_first());
            }
            Some(e)
        }
    }

    /// Queues an event after the others.
    pub fn push_back(&mut self, event: Event)
        ensures
            final(self)@ == old(self)@.push(event),
    {
        self.events.push(event);
    }

    /// Queues an event that arrived before the handshake reply, followed by its follow-up event.
    pub fn queue_early_event(&mut self, event: Event)
        ensures
            final(self)@ == match follow_up(event) {
                Some(f) => old(self)@.push(event).push(f),
                None => old(self)@.push(event),
            },
    {
        let next = follow_up_event(&event);
        self.events.push(event);
        match next {
            Some(f) => self.events.push(f),
            None => {},
        }
    }
}

impl ClientSession {
    /// Takes in an event read and decoded after the handshake: the API counts as ready once a
    /// next valid id or the managed accounts arrive, and the event's follow-up event is queued
    /// to be handed out after it. Nothing else changes.
    pub fn receive_event(&mut self, queue: &mut EventQueue, event: &Event)
        ensures
            final(self).spec_config() == old(self).spec_config(),
            final(self).spec_state() == old(self).spec_state(),
            final(self).spec_server_version() == old(self).spec_server_version(),
            final(self).spec_connection_time() == old(self).spec_connection_time(),
            final(self).spec_api_ready() == (old(self).spec_api_ready() || signals_api_ready(*event)),
            final(queue)@ == match follow_up(*event) {
                Some(f) => old(queue)@.push(f),
                None => old(queue)@,
            },
    {
        self.note_event(marks_api_ready(event));
        match follow_up_event(event) {
            Some(f) => queue.push_back(f),
            None => {},
        }
    }
}

impl ClientSession {
    /// The first step of reading an event: an event already queued is handed out first, and
    /// nothing is read for it; `None` when the queue is empty and a payload must be read.
    pub fn take_queued_event(&self, queue: &mut EventQueue) -> (r: Option<Event>)
        ensures
            old(queue)@.len() == 0 ==> r is None && final(queue)@ == old(queue)@,
            old(queue)@.len() > 0 ==> r == Some(old(queue)@[0]) && final(queue)@ == old(queue)@.drop_first(),
    {
        queue.pop_front()
    }

    /// The second step of reading an event: decodes the payload read, with raw message ids when
    /// the server speaks protobuf, and takes the event in (see `receive_event`). A payload that
    /// cannot be decoded is refused, and then nothing changes.
    pub fn accept_payload(&mut self, queue: &mut EventQueue, payload: &[u8]) -> (r: Result<Event, TwsApiError>)
        ensures
            payload_decoded(old(self).spec_server_version() >= MIN_SERVER_VER_PROTOBUF, payload@, r),
            final(self).spec_config() == old(self).spec_config(),
            final(self).spec_state() == old(self).spec_state(),
            final(self).spec_server_version() == old(self).spec_server_version(),
            final(self).spec_connection_time() == old(self).spec_connection_time(),
            match r {
                Ok(e) => {
                    &&& final(self).spec_api_ready() == (old(self).spec_api_ready() || signals_api_ready(e))
                    &&& final(queue)@ == match follow_up(e) {
                        Some(f) => old(queue)@.push(f),
                        None => old(queue)@,
                    }
                },
                Err(_) => final(self).spec_api_ready() == old(self).spec_api_ready() && final(queue)@
                    == old(queue)@,
            },
    {
        let raw = self.uses_raw_ids();
        let event = decode_payload(raw, payload)?;
        self.receive_event(queue, &event);
        Ok(event)
    }
}

} // verus!
