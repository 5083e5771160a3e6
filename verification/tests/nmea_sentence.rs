use ha_localizer::config::Config;
use ha_localizer::nmea::{
    checksum_of, from_fix, sentence_at, sentence_at_timestamp, unix_time_now, utc_time_of_day, Fix,
    LocationProvider, TimeOfDay,
};

fn fix() -> Fix {
    Fix {
        latitude: "3746.4957400".to_string(),
        north: true,
        longitude: "12225.1649600".to_string(),
        east: false,
        altitude: "16.000".to_string(),
    }
}

fn xor(bytes: &[u8]) -> u8 {
    bytes.iter().fold(0, |a, b| a ^ b)
}

#[test]
fn sentence_at_a_given_time() {
    let text = sentence_at(TimeOfDay { hour: 9, minute: 5, second: 7 }, &fix());
    let content = "GPGGA,090507,3746.4957400,N,12225.1649600,W,1,,,16.000,M,,,,,";
    let expected = format!("${}*{}", content, xor(content.as_bytes()));
    assert_eq!(String::from_utf8(text).unwrap(), expected);
}

#[test]
fn southern_and_eastern_hemispheres() {
    let mut f = fix();
    f.north = false;
    f.east = true;
    let text = String::from_utf8(sentence_at(TimeOfDay { hour: 23, minute: 59, second: 59 }, &f)).unwrap();
    assert!(text.starts_with("$GPGGA,235959,3746.4957400,S,12225.1649600,E,1,,,16.000,M,,,,,*"));
}

#[test]
fn checksum_is_the_xor_of_the_content() {
    assert_eq!(checksum_of(b""), 0);
    assert_eq!(checksum_of(&[1, 2, 3]), 0);
    assert_eq!(checksum_of(b"A"), 65);
    let text = String::from_utf8(sentence_at(TimeOfDay { hour: 0, minute: 0, second: 0 }, &fix())).unwrap();
    let star = text.rfind('*').unwrap();
    let declared: u8 = text[star + 1..].parse().unwrap();
    assert_eq!(declared, xor(text[1..star].as_bytes()));
}

#[test]
fn time_of_day_of_a_timestamp() {
    assert_eq!(utc_time_of_day(0), Some(TimeOfDay { hour: 0, minute: 0, second: 0 }));
    // 2015-05-15 00:00:00 UTC
    assert_eq!(utc_time_of_day(1431648000), Some(TimeOfDay { hour: 0, minute: 0, second: 0 }));
    // 2024-08-30 14:57:49 UTC
    assert_eq!(utc_time_of_day(1725029869), Some(TimeOfDay { hour: 14, minute: 57, second: 49 }));
    assert_eq!(utc_time_of_day(86399), Some(TimeOfDay { hour: 23, minute: 59, second: 59 }));
    assert_eq!(utc_time_of_day(1 << 40).map(|t| t.hour < 24), Some(true));
    assert_eq!(utc_time_of_day(u64::MAX), None);
}

#[test]
fn sentence_at_a_timestamp() {
    let text = sentence_at_timestamp(1725029869, &fix()).unwrap();
    assert_eq!(text, sentence_at(TimeOfDay { hour: 14, minute: 57, second: 49 }, &fix()));
    assert!(String::from_utf8(text).unwrap().starts_with("$GPGGA,145749,"));
    assert_eq!(sentence_at_timestamp(u64::MAX, &fix()), None);
}

#[test]
fn clock_reads_after_the_epoch() {
    let seconds = unix_time_now().expect("the clock reads after 1970");
    assert!(seconds > 1_600_000_000);
    assert!(utc_time_of_day(seconds).is_some());
}

#[test]
fn sentence_now_has_a_valid_time_field() {
    let text = String::from_utf8(from_fix(&fix()).expect("the clock reads after 1970")).unwrap();
    assert!(text.starts_with("$GPGGA,"));
    let time = &text[7..13];
    let hour: u32 = time[0..2].parse().unwrap();
    let minute: u32 = time[2..4].parse().unwrap();
    let second: u32 = time[4..6].parse().unwrap();
    assert!(hour < 24 && minute < 60 && second < 60);
    assert_eq!(&text[13..], &String::from_utf8(sentence_at(TimeOfDay { hour, minute, second }, &fix())).unwrap()[13..]);
}

#[test]
fn nmea_provider_asks_for_the_device_tracker() {
    let provider = LocationProvider::new(Config {
        api_key: "k".to_string(),
        base_url: "http://ha.local:8123".to_string(),
        device_id: "pixel".to_string(),
        port: 1,
    });
    assert_eq!(provider.location_url(), "http://ha.local:8123/api/states/device_tracker.pixel");
    assert_eq!(provider.client().authorization(), "Bearer k");
}
