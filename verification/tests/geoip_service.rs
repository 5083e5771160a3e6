use ha_localizer::config::Config;
use ha_localizer::geoip::location::{
    device_tracker_path_of, ichnaea_response, DeviceLocation, LocationProvider, LocationResponse,
};
use ha_localizer::geoip::server::{ConnectionAction, ConnectionError, ConnectionEvent, Server};

fn config() -> Config {
    Config {
        api_key: "abc123".to_string(),
        base_url: "https://homeassistant.example.com".to_string(),
        device_id: "foobar".to_string(),
        port: 58573,
    }
}

#[test]
fn provider_asks_for_the_device_tracker() {
    let provider = LocationProvider::new(config());
    assert_eq!(
        provider.location_url(),
        "https://homeassistant.example.com/api/states/device_tracker.foobar"
    );
    assert_eq!(provider.client().authorization(), "Bearer abc123");
    assert_eq!(provider.client().accept(), "application/json");
    assert_eq!(device_tracker_path_of("x"), "/api/states/device_tracker.x");
}

#[test]
fn location_carries_the_attributes_unchanged() {
    let provider = LocationProvider::new(config());
    let response = LocationResponse {
        attributes: DeviceLocation {
            latitude: 37.774929f32.to_bits(),
            longitude: (-122.419416f32).to_bits(),
            gps_accuracy: 12.5f32.to_bits(),
        },
    };
    let location = provider.get_location(response);
    assert_eq!(f32::from_bits(location.location.lat), 37.774929f32);
    assert_eq!(f32::from_bits(location.location.lng), -122.419416f32);
    assert_eq!(f32::from_bits(location.accuracy), 12.5f32);
    assert_eq!(ichnaea_response(response.attributes), location);
}

#[test]
fn server_listens_on_the_configured_port() {
    let server = Server::new(config());
    assert_eq!(server.port(), 58573);
    assert_eq!(server.listen_address(), "127.0.0.1:58573");
    let mut other = config();
    other.port = 0;
    assert_eq!(Server::new(other).listen_address(), "127.0.0.1:0");
}

#[test]
fn location_request_fetches_the_location() {
    let server = Server::new(config());
    match server.handle_connection(ConnectionEvent::RequestLine("POST / HTTP/1.1".to_string())) {
        ConnectionAction::FetchLocation(url) => assert_eq!(
            url,
            "https://homeassistant.example.com/api/states/device_tracker.foobar"
        ),
        _ => panic!("expected a fetch"),
    }
}

#[test]
fn other_requests_are_not_found() {
    let server = Server::new(config());
    for line in ["GET / HTTP/1.1", "POST /x HTTP/1.1", ""] {
        match server.handle_connection(ConnectionEvent::RequestLine(line.to_string())) {
            ConnectionAction::Reply(bytes) => assert_eq!(
                bytes,
                b"HTTP/1.1 404 Not Found\r\nContent-Type: application/json\r\nContent-Length: 4\r\n\r\n\r\n{}".to_vec()
            ),
            _ => panic!("expected a reply"),
        }
    }
}

#[test]
fn fetched_location_is_sent_as_json() {
    let server = Server::new(config());
    let json = "{\"accuracy\":12.5,\"location\":{\"lat\":1.0,\"lng\":2.0}}";
    match server.handle_connection(ConnectionEvent::LocationJson(json.to_string())) {
        ConnectionAction::Reply(bytes) => {
            let expected = format!(
                "HTTP/1.1 200 OK\r\nContent-Type: application/json\r\nContent-Length: {}\r\n\r\n\r\n{}",
                json.len() + 2,
                json
            );
            assert_eq!(bytes, expected.into_bytes());
        }
        _ => panic!("expected a reply"),
    }
}

#[test]
fn connections_without_a_request_line_fail() {
    let server = Server::new(config());
    match server.handle_connection(ConnectionEvent::NoRequestLine) {
        ConnectionAction::Fail(e) => {
            assert_eq!(e, ConnectionError::NoRequestLine);
            assert_eq!(e.message(), "Request has no lines");
        }
        _ => panic!("expected a failure"),
    }
    match server.handle_connection(ConnectionEvent::LocationFailed("Location request failed".to_string())) {
        ConnectionAction::Fail(e) => {
            assert_eq!(e, ConnectionError::LocationFailed("Location request failed".to_string()));
            assert_eq!(e.message(), "Location request failed");
        }
        _ => panic!("expected a failure"),
    }
    match server.handle_connection(ConnectionEvent::UnreadableRequestLine) {
        ConnectionAction::Fail(e) => {
            assert_eq!(e, ConnectionError::UnreadableRequestLine);
            assert_eq!(e.message(), "Failed to read request line");
        }
        _ => panic!("expected a failure"),
    }
}
