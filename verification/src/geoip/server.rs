//! The HTTP service that Geoclue asks for the location.

use vstd::prelude::*;
use vstd::string::StringSliceAdditionalSpecFns;

use crate::config::Config;
use crate::geoip::location::{device_tracker_path, LocationProvider};
use crate::home_assistant::{acceptable_api_key, bearer, json_media_type, ClientView};
use crate::http::{is_location_request, location_request_line, respond, response};
use crate::text::{ascii_chars, decimal, push_decimal_chars};

verus! {

/// What happened on a connection, as the service reports it to the
/// decisions of `Server::handle_connection`.
pub enum ConnectionEvent {
    /// The first line of the request arrived (without its line ending).
    RequestLine(String),
    /// The connection ended before a first line.
    NoRequestLine,
    /// The first line could not be read.
    UnreadableRequestLine,
    /// The location was fetched; this is its Ichnaea reply as JSON.
    LocationJson(String),
    /// The location could not be fetched or encoded; this says why.
    LocationFailed(String),
}

/// Why a connection was given up.
#[derive(Debug, PartialEq, Eq)]
pub enum ConnectionError {
    NoRequestLine,
    UnreadableRequestLine,
    /// The location could not be had, for the reason given.
    LocationFailed(String),
}

impl ConnectionError {
    /// The message that the service logs for the error.
    pub fn message(&self) -> (text: String)
        ensures
            text@ == connection_error_message(self),
    {
        match self {
            ConnectionError::NoRequestLine => String::from_str("Request has no lines"),
            ConnectionError::UnreadableRequestLine => String::from_str(
                "Failed to read request line",
            ),
            ConnectionError::LocationFailed(reason) => reason.clone(),
        }
    }
}

/// The message logged for each error.
pub open spec fn connection_error_message(error: &ConnectionError) -> Seq<char> {
    match error {
        ConnectionError::NoRequestLine => "Request has no lines"@,
        ConnectionError::UnreadableRequestLine => "Failed to read request line"@,
        ConnectionError::LocationFailed(reason) => reason@,
    }
}

/// What the service does next on a connection.
pub enum ConnectionAction {
    /// Fetch the device tracker's state from this URL, turn it into an
    /// Ichnaea reply, and report its JSON as `LocationJson`.
    FetchLocation(String),
    /// Write these bytes to the client; the connection is then done.
    Reply(Vec<u8>),
    /// Give up on the connection and log the error.
    Fail(ConnectionError),
}

/// What a server holds: its port and the client of its location provider.
pub struct ServerView {
    pub port: u16,
    pub client: ClientView,
}

/// The GeoIP service.
pub struct Server {
    port: u16,
    location_provider: LocationProvider,
}

impl View for Server {
    type V = ServerView;

    closed spec fn view(&self) -> ServerView {
        ServerView { port: self.port, client: self.location_provider@ }
    }
}

/// The address on which the service listens for a port.
pub open spec fn listen_address_of(port: u16) -> Seq<char> {
    "127.0.0.1:"@ + ascii_chars(decimal(port as nat))
}

/// The UTF-8 bytes of a string.
pub open spec fn utf8(s: Seq<char>) -> Seq<u8> {
    vstd::utf8::encode_utf8(s)
}

impl Server {
    /// A server on the port of `config` that reports the location of its
    /// phone.
    pub fn new(config: Config) -> (server: Server)
        requires
            acceptable_api_key(config.api_key@),
        ensures
            server@.port == config.port,
            server@.client.base_url == config.base_url@,
            server@.client.device_id == config.device_id@,
            server@.client.accept == json_media_type(),
            server@.client.authorization == bearer(config.api_key@),
    {
        let port = config.port;
        let location_provider = LocationProvider::new(config);
        Server { port, location_provider }
    }

    /// The port on which the server listens.
    pub fn port(&self) -> (port: u16)
        ensures
            port == self@.port,
    {
        self.port
    }

    /// The provider that the server asks for the location.
    pub fn location_provider(&self) -> (provider: &LocationProvider)
        ensures
            provider@ == self@.client,
    {
        &self.location_provider
    }

    /// The address on which the server listens: the loopback address and
    /// its port.
    pub fn listen_address(&self) -> (address: String)
        ensures
            address@ == listen_address_of(self@.port),
    {
        let mut address = String::from_str("127.0.0.1:");
        push_decimal_chars(&mut address, self.port as u64);
        address
    }

    /// The next step on a connection, given what just happened on it. A
    /// request whose first line is exactly `POST / HTTP/1.1` is answered
    /// with the location (`200 OK` and its JSON); any other request with
    /// `404 Not Found` and the body `{}`. A location that could not be had
    /// ends the connection with its reason, and nothing is written.
    pub fn handle_connection(&self, event: ConnectionEvent) -> (action: ConnectionAction)
        ensures
            match event {
                ConnectionEvent::RequestLine(line) => if line@ == location_request_line() {
                    action matches ConnectionAction::FetchLocation(url) && url@ == self@.client.base_url
                        + device_tracker_path(self@.client.device_id)
                } else {
                    action matches ConnectionAction::Reply(reply) && reply@ == response(
                        "404 Not Found".spec_bytes(),
                        None,
                    )
                },
                ConnectionEvent::LocationJson(json) => action matches ConnectionAction::Reply(
                    reply,
                ) && reply@ == response("200 OK".spec_bytes(), Some(utf8(json@))),
                ConnectionEvent::NoRequestLine => action == ConnectionAction::Fail(
                    ConnectionError::NoRequestLine,
                ),
                ConnectionEvent::UnreadableRequestLine => action == ConnectionAction::Fail(
                    ConnectionError::UnreadableRequestLine,
                ),
                ConnectionEvent::LocationFailed(reason) => action matches ConnectionAction::Fail(
                    ConnectionError::LocationFailed(logged),
                ) && logged@ == reason@,
            },
    {
        match event {
            ConnectionEvent::RequestLine(line) => {
                if is_location_request(line.as_str()) {
                    ConnectionAction::FetchLocation(self.location_provider.location_url())
                } else {
                    ConnectionAction::Reply(respond("404 Not Found", None))
                }
            },
            ConnectionEvent::LocationJson(json) => {
                ConnectionAction::Reply(respond("200 OK", Some(json.as_str())))
            },
            ConnectionEvent::NoRequestLine => ConnectionAction::Fail(ConnectionError::NoRequestLine),
            ConnectionEvent::UnreadableRequestLine => ConnectionAction::Fail(
                ConnectionError::UnreadableRequestLine,
            ),
            ConnectionEvent::LocationFailed(reason) => ConnectionAction::Fail(
                ConnectionError::LocationFailed(reason),
            ),
        }
    }
}

} // verus!
