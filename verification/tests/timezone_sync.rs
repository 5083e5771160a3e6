use ha_localizer::config::Config;
use ha_localizer::timezone::{
    DeviceTimezone, SyncAction, SyncError, SyncEvent, SyncState, TimezoneProvider, TimezoneResponse,
};

fn provider() -> TimezoneProvider {
    TimezoneProvider::new(Config {
        api_key: "abc123".to_string(),
        base_url: "https://homeassistant.example.com".to_string(),
        device_id: "foobar".to_string(),
        port: 58573,
    })
}

fn fetched(tz: &str) -> SyncEvent {
    SyncEvent::TimezoneFetched(Ok(TimezoneResponse {
        attributes: DeviceTimezone { time_zone_id: tz.to_string() },
    }))
}

fn done(action: SyncAction) -> Result<String, SyncError> {
    match action {
        SyncAction::Done(r) => r,
        _ => panic!("expected the end"),
    }
}

#[test]
fn synchronisation_starts_with_the_sensor() {
    let p = provider();
    assert_eq!(
        p.timezone_url(),
        "https://homeassistant.example.com/api/states/sensor.foobar_current_time_zone"
    );
    let (state, action) = p.sync_timezone();
    assert!(matches!(state, SyncState::AwaitingTimezone));
    match action {
        SyncAction::FetchTimezone(url) => assert_eq!(
            url,
            "https://homeassistant.example.com/api/states/sensor.foobar_current_time_zone"
        ),
        _ => panic!("expected a fetch"),
    }
}

#[test]
fn successful_synchronisation() {
    let p = provider();
    let (state, _) = p.sync_timezone();
    let (state, action) = p.step(state, fetched("Europe/Paris"));
    match &action {
        SyncAction::CheckZone(path) => assert_eq!(path, "/usr/share/zoneinfo/Europe/Paris"),
        _ => panic!("expected a check"),
    }
    let (state, action) = p.step(state, SyncEvent::ZoneChecked(Ok(true)));
    match &action {
        SyncAction::RemoveLocaltime(path) => assert_eq!(path, "/etc/localtime"),
        _ => panic!("expected a removal"),
    }
    let (state, action) = p.step(state, SyncEvent::LocaltimeRemoved(Ok(())));
    match &action {
        SyncAction::LinkLocaltime(original, link) => {
            assert_eq!(original, "/usr/share/zoneinfo/Europe/Paris");
            assert_eq!(link, "/etc/localtime");
        }
        _ => panic!("expected a link"),
    }
    let (state, action) = p.step(state, SyncEvent::LocaltimeLinked(Ok(())));
    assert!(matches!(state, SyncState::Finished));
    assert_eq!(done(action), Ok("Europe/Paris".to_string()));
}

#[test]
fn missing_zone_stops_before_the_link() {
    let p = provider();
    let (state, _) = p.sync_timezone();
    let (state, _) = p.step(state, fetched("Mars/Olympus"));
    let (state, action) = p.step(state, SyncEvent::ZoneChecked(Ok(false)));
    assert!(matches!(state, SyncState::Finished));
    let err = done(action).unwrap_err();
    assert_eq!(err, SyncError::MissingZone("Mars/Olympus".to_string()));
    assert_eq!(err.message(), "Mars/Olympus does not exist in zoneinfo.");
}

#[test]
fn unverifiable_zone_reports_the_reason() {
    let p = provider();
    let (state, _) = p.sync_timezone();
    let (state, _) = p.step(state, fetched("Asia/Tokyo"));
    let (_, action) = p.step(state, SyncEvent::ZoneChecked(Err("Permission denied (os error 13)".to_string())));
    let err = done(action).unwrap_err();
    assert_eq!(
        err.message(),
        "Unable to verify whether Asia/Tokyo exists. Check the application has permission to read /usr/share/zoneinfo. Permission denied (os error 13)"
    );
}

#[test]
fn request_and_filesystem_errors_end_the_synchronisation() {
    let p = provider();
    let (state, _) = p.sync_timezone();
    let (_, action) = p.step(state, SyncEvent::TimezoneFetched(Err("connection refused".to_string())));
    let err = done(action).unwrap_err();
    assert_eq!(err, SyncError::Request("connection refused".to_string()));
    assert_eq!(err.message(), "connection refused");

    let (state, _) = p.sync_timezone();
    let (state, _) = p.step(state, fetched("UTC"));
    let (state, _) = p.step(state, SyncEvent::ZoneChecked(Ok(true)));
    let (_, action) = p.step(state, SyncEvent::LocaltimeRemoved(Err("busy".to_string())));
    assert_eq!(done(action), Err(SyncError::Filesystem("busy".to_string())));

    let (state, _) = p.sync_timezone();
    let (state, _) = p.step(state, fetched("UTC"));
    let (state, _) = p.step(state, SyncEvent::ZoneChecked(Ok(true)));
    let (state, _) = p.step(state, SyncEvent::LocaltimeRemoved(Ok(())));
    let (_, action) = p.step(state, SyncEvent::LocaltimeLinked(Err("exists".to_string())));
    assert_eq!(done(action), Err(SyncError::Filesystem("exists".to_string())));
}

#[test]
fn events_out_of_order_are_refused() {
    let p = provider();
    let (state, _) = p.sync_timezone();
    let (state, action) = p.step(state, SyncEvent::LocaltimeLinked(Ok(())));
    assert!(matches!(state, SyncState::Finished));
    assert_eq!(done(action), Err(SyncError::OutOfOrder));
    let (_, action) = p.step(state, fetched("UTC"));
    assert_eq!(done(action), Err(SyncError::OutOfOrder));
}

/// The actions of a synchronisation whose outside work all succeeds.
fn successful_actions(p: &TimezoneProvider, tz: &str) -> Vec<String> {
    let mut seen = Vec::new();
    let (mut state, mut action) = p.sync_timezone();
    let mut events = vec![
        fetched(tz),
        SyncEvent::ZoneChecked(Ok(true)),
        SyncEvent::LocaltimeRemoved(Ok(())),
        SyncEvent::LocaltimeLinked(Ok(())),
    ]
    .into_iter();
    loop {
        match &action {
            SyncAction::FetchTimezone(url) => seen.push(format!("fetch {url}")),
            SyncAction::CheckZone(path) => seen.push(format!("check {path}")),
            SyncAction::RemoveLocaltime(path) => seen.push(format!("remove {path}")),
            SyncAction::LinkLocaltime(o, l) => seen.push(format!("link {l} -> {o}")),
            SyncAction::Done(r) => {
                seen.push(format!("done {:?}", r));
                return seen;
            }
        }
        let (s, a) = p.step(state, events.next().unwrap());
        state = s;
        action = a;
    }
}

#[test]
fn synchronising_twice_does_the_same_work() {
    let p = provider();
    let first = successful_actions(&p, "Europe/Paris");
    let second = successful_actions(&p, "Europe/Paris");
    assert_eq!(first, second);
    assert_eq!(first[3], "link /etc/localtime -> /usr/share/zoneinfo/Europe/Paris");
    assert_eq!(first[4], "done Ok(\"Europe/Paris\")");
}
