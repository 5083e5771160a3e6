//! The NMEA service: writes the phone's position to Geoclue as a GGA
//! sentence.

use vstd::prelude::*;
use vstd::string::StringSliceAdditionalSpecFns;

use chrono::Timelike;

use crate::config::Config;
use crate::geoip::location::{device_tracker_path, device_tracker_path_of};
use crate::home_assistant::{acceptable_api_key, bearer, json_media_type, Client, ClientView};
use crate::text::{
    decimal, digits_value, lemma_decimal_round_trip, lemma_two_digits, push_bytes, push_decimal,
    push_str, push_two_digits, two_digits,
};

verus! {

#[verifier::external_type_specification]
#[verifier::external_body]
pub struct ExSystemTime(std::time::SystemTime);

/// `std::time::SystemTime::now`: the time of the system clock. Nothing is
/// stated of it: it depends on the clock.
#[verifier::external_body]
fn system_time_now() -> std::time::SystemTime {
    std::time::SystemTime::now()
}

/// `SystemTime::duration_since(UNIX_EPOCH)`: how long after the Unix epoch
/// `time` is, or `None` (its error) when `time` is earlier. Nothing is
/// stated of the duration: `SystemTime` is opaque here.
#[verifier::external_body]
fn duration_since_unix_epoch(time: &std::time::SystemTime) -> Option<std::time::Duration> {
    time.duration_since(std::time::UNIX_EPOCH).ok()
}

/// `Duration::as_secs`: the whole seconds of a duration. Nothing is stated:
/// `Duration` is opaque here.
#[verifier::external_body]
fn whole_seconds(duration: &std::time::Duration) -> u64 {
    duration.as_secs()
}

/// `chrono::DateTime::<Utc>::from_timestamp(seconds, 0)`, read as its hour,
/// minute and second (`Timelike`). In its source (`DateTime::from_timestamp`
/// and `NaiveTime::hms`) the time of day is `seconds.rem_euclid(86_400)`
/// seconds after midnight, split into that divided by 3600, that divided by
/// 60 modulo 60, and that modulo 60: `time_of_day`. It returns `None` only
/// when the day falls outside the dates that `NaiveDate` holds (years
/// -262,143 to 262,142), which no count of seconds from 0 to 2^40 (some
/// 34,800 years) reaches. It does not panic.
#[verifier::external_body]
fn utc_time_of_day_at(seconds: i64) -> (time: Option<TimeOfDay>)
    ensures
        time matches Some(t) ==> t == time_of_day(seconds as int),
        0 <= seconds <= 0x100_0000_0000 ==> time is Some,
{
    match chrono::DateTime::from_timestamp(seconds, 0) {
        Some(t) => Some(TimeOfDay { hour: t.hour(), minute: t.minute(), second: t.second() }),
        None => None,
    }
}

/// A UTC time of day, to the second.
#[derive(Clone, Copy, Debug, PartialEq, Eq, Structural)]
pub struct TimeOfDay {
    pub hour: u32,
    pub minute: u32,
    pub second: u32,
}

/// A time that a clock can show.
pub open spec fn valid_time(time: TimeOfDay) -> bool {
    time.hour < 24 && time.minute < 60 && time.second < 60
}

/// The UTC time of day `seconds` after the Unix epoch (counting back for a
/// negative number).
pub open spec fn time_of_day(seconds: int) -> TimeOfDay {
    let s = seconds % 86400;
    TimeOfDay { hour: (s / 3600) as u32, minute: (s / 60 % 60) as u32, second: (s % 60) as u32 }
}

/// Every time of day that a count of seconds gives is one that a clock can
/// show.
pub proof fn lemma_time_of_day_valid(seconds: int)
    ensures
        valid_time(time_of_day(seconds)),
{
    let s = seconds % 86400;
    assert(0 <= s < 86400);
    assert(s / 3600 < 24);
}

/// The largest count of seconds for which the time of day is owed.
pub open spec fn max_timestamp() -> int {
    0x100_0000_0000
}

/// The position of a sentence. The numbers are already printed: latitude
/// and longitude as whole degrees (at least two digits) followed by
/// minutes, the altitude in metres.
pub struct Fix {
    pub latitude: String,
    /// The latitude is north of the equator (or on it).
    pub north: bool,
    pub longitude: String,
    /// The longitude is east of Greenwich (or on it).
    pub east: bool,
    pub altitude: String,
}

/// The UTF-8 bytes of a string.
pub open spec fn utf8(s: Seq<char>) -> Seq<u8> {
    vstd::utf8::encode_utf8(s)
}

/// The sentence between `$` and `*`: a GGA sentence with the time, the
/// position, fix quality 1 and the altitude in metres; the other fields are
/// empty.
pub open spec fn gga_content(time: TimeOfDay, fix: Fix) -> Seq<u8> {
    "GPGGA,".spec_bytes() + two_digits(time.hour as nat) + two_digits(time.minute as nat)
        + two_digits(time.second as nat) + ",".spec_bytes() + utf8(fix.latitude@)
        + ",".spec_bytes() + (if fix.north {
        "N".spec_bytes()
    } else {
        "S".spec_bytes()
    }) + ",".spec_bytes() + utf8(fix.longitude@) + ",".spec_bytes() + (if fix.east {
        "E".spec_bytes()
    } else {
        "W".spec_bytes()
    }) + ",1,,,".spec_bytes() + utf8(fix.altitude@) + ",M,,,,,".spec_bytes()
}

/// The exclusive or of all bytes, the NMEA checksum.
pub open spec fn checksum(bytes: Seq<u8>) -> u8
    decreases bytes.len(),
{
    if bytes.len() == 0 {
        0
    } else {
        checksum(bytes.drop_last()) ^ bytes.last()
    }
}

/// The whole sentence: `$`, the content, `*`, and the checksum of the
/// content in decimal.
pub open spec fn sentence(time: TimeOfDay, fix: Fix) -> Seq<u8> {
    "$".spec_bytes() + gga_content(time, fix) + "*".spec_bytes() + decimal(
        checksum(gga_content(time, fix)) as nat,
    )
}

/// What a receiver reads back from a sentence: it starts with `$GPGGA,`;
/// the six bytes after that are the hour, minute and second of its time,
/// two digits each; and the digits after the `*` denote the exclusive or of
/// every byte between the `$` and the `*`.
pub proof fn lemma_sentence_fields(time: TimeOfDay, fix: Fix)
    requires
        valid_time(time),
    ensures
        ({
            let text = sentence(time, fix);
            let content = gga_content(time, fix);
            &&& text.subrange(0, 7) == "$GPGGA,".spec_bytes()
            &&& digits_value(text.subrange(7, 9)) == time.hour
            &&& digits_value(text.subrange(9, 11)) == time.minute
            &&& digits_value(text.subrange(11, 13)) == time.second
            &&& text == "$".spec_bytes() + content + "*".spec_bytes() + decimal(
                checksum(content) as nat,
            )
            &&& digits_value(decimal(checksum(content) as nat)) == checksum(content)
        }),
{
    reveal_strlit("$");
    reveal_strlit("GPGGA,");
    reveal_strlit("$GPGGA,");
    assert(vstd::string::is_ascii("$"));
    assert(vstd::string::is_ascii("GPGGA,"));
    assert(vstd::string::is_ascii("$GPGGA,"));
    lemma_two_digits(time.hour as nat);
    lemma_two_digits(time.minute as nat);
    lemma_two_digits(time.second as nat);
    let content = gga_content(time, fix);
    lemma_decimal_round_trip(checksum(content) as nat);
    let text = sentence(time, fix);
    let h = two_digits(time.hour as nat);
    let m = two_digits(time.minute as nat);
    let sec = two_digits(time.second as nat);
    assert(text.subrange(0, 7) =~= "$GPGGA,".spec_bytes());
    assert(text.subrange(7, 9) =~= h);
    assert(text.subrange(9, 11) =~= m);
    assert(text.subrange(11, 13) =~= sec);
}

/// The fields of a GGA sentence's content, byte by byte: `GPGGA,`; the
/// hour, minute and second, two digits each; a comma; the latitude exactly
/// as given; `,N,` when the fix is north and `,S,` otherwise; the longitude
/// exactly as given; `,E,` when the fix is east and `,W,` otherwise (the
/// hemispheres depend on nothing else); `1,,,`; the altitude exactly as
/// given; and `,M,,,,,`, which ends it.
pub proof fn lemma_gga_fields(time: TimeOfDay, fix: Fix)
    requires
        valid_time(time),
    ensures
        ({
            let c = gga_content(time, fix);
            let lat = utf8(fix.latitude@);
            let lng = utf8(fix.longitude@);
            let alt = utf8(fix.altitude@);
            let l = lat.len() as int;
            let g = lng.len() as int;
            let a = alt.len() as int;
            &&& c.len() == 13 + l + 3 + g + 3 + 4 + a + 7
            &&& c.subrange(0, 6) =~= seq![71u8, 80u8, 71u8, 71u8, 65u8, 44u8]
            &&& digits_value(c.subrange(6, 8)) == time.hour
            &&& digits_value(c.subrange(8, 10)) == time.minute
            &&& digits_value(c.subrange(10, 12)) == time.second
            &&& c[12] == 44u8
            &&& c.subrange(13, 13 + l) =~= lat
            &&& c.subrange(13 + l, 16 + l) =~= seq![
                44u8,
                if fix.north {
                    78u8
                } else {
                    83u8
                },
                44u8,
            ]
            &&& c.subrange(16 + l, 16 + l + g) =~= lng
            &&& c.subrange(16 + l + g, 19 + l + g) =~= seq![
                44u8,
                if fix.east {
                    69u8
                } else {
                    87u8
                },
                44u8,
            ]
            &&& c.subrange(19 + l + g, 23 + l + g) =~= seq![49u8, 44u8, 44u8, 44u8]
            &&& c.subrange(23 + l + g, 23 + l + g + a) =~= alt
            &&& c.subrange(23 + l + g + a, 30 + l + g + a) =~= seq![
                44u8,
                77u8,
                44u8,
                44u8,
                44u8,
                44u8,
                44u8,
            ]
        }),
{
    reveal_strlit("GPGGA,");
    reveal_strlit(",");
    reveal_strlit("N");
    reveal_strlit("S");
    reveal_strlit("E");
    reveal_strlit("W");
    reveal_strlit(",1,,,");
    reveal_strlit(",M,,,,,");
    assert(vstd::string::is_ascii("GPGGA,"));
    assert(vstd::string::is_ascii(","));
    assert(vstd::string::is_ascii("N"));
    assert(vstd::string::is_ascii("S"));
    assert(vstd::string::is_ascii("E"));
    assert(vstd::string::is_ascii("W"));
    assert(vstd::string::is_ascii(",1,,,"));
    assert(vstd::string::is_ascii(",M,,,,,"));
    lemma_two_digits(time.hour as nat);
    lemma_two_digits(time.minute as nat);
    lemma_two_digits(time.second as nat);
    let c = gga_content(time, fix);
    let h = two_digits(time.hour as nat);
    let m = two_digits(time.minute as nat);
    let sec = two_digits(time.second as nat);
    assert(c.subrange(6, 8) =~= h);
    assert(c.subrange(8, 10) =~= m);
    assert(c.subrange(10, 12) =~= sec);
}

/// The checksum of `bytes`.
pub fn checksum_of(bytes: &[u8]) -> (sum: u8)
    ensures
        sum == checksum(bytes@),
{
    let mut sum: u8 = 0;
    let n = bytes.len();
    for i in 0..n
        invariant
            n == bytes@.len(),
            sum == checksum(bytes@.take(i as int)),
    {
        assert(bytes@.take(i + 1).drop_last() =~= bytes@.take(i as int));
        sum = sum ^ bytes[i];
    }
    assert(bytes@.take(n as int) =~= bytes@);
    sum
}

/// The GGA sentence of `fix` at `time`.
pub fn sentence_at(time: TimeOfDay, fix: &Fix) -> (text: Vec<u8>)
    ensures
        text@ == sentence(time, *fix),
{
    let mut content: Vec<u8> = Vec::new();
    push_str(&mut content, "GPGGA,");
    push_two_digits(&mut content, time.hour);
    push_two_digits(&mut content, time.minute);
    push_two_digits(&mut content, time.second);
    push_str(&mut content, ",");
    push_str(&mut content, fix.latitude.as_str());
    push_str(&mut content, ",");
    if fix.north {
        push_str(&mut content, "N");
    } else {
        push_str(&mut content, "S");
    }
    push_str(&mut content, ",");
    push_str(&mut content, fix.longitude.as_str());
    push_str(&mut content, ",");
    if fix.east {
        push_str(&mut content, "E");
    } else {
        push_str(&mut content, "W");
    }
    push_str(&mut content, ",1,,,");
    push_str(&mut content, fix.altitude.as_str());
    push_str(&mut content, ",M,,,,,");
    assert(content@ =~= gga_content(time, *fix));
    let sum = checksum_of(content.as_slice());
    let mut text: Vec<u8> = Vec::new();
    push_str(&mut text, "$");
    push_bytes(&mut text, content.as_slice());
    push_str(&mut text, "*");
    push_decimal(&mut text, sum as u128);
    assert(text@ =~= sentence(time, *fix));
    text
}

/// The whole seconds since the Unix epoch on the system clock, or `None`
/// when the clock reads before the epoch. Nothing is stated of the count: it
/// depends on the clock.
pub fn unix_time_now() -> (seconds: Option<u64>) {
    let now = system_time_now();
    match duration_since_unix_epoch(&now) {
        Some(d) => Some(whole_seconds(&d)),
        None => None,
    }
}

/// The UTC time of day `seconds` after the Unix epoch, as chrono reads it:
/// owed for every count up to 2^40; `None` beyond the counts chrono holds.
pub fn utc_time_of_day(seconds: u64) -> (time: Option<TimeOfDay>)
    ensures
        seconds <= max_timestamp() ==> time == Some(time_of_day(seconds as int)),
        time matches Some(t) ==> t == time_of_day(seconds as int) && valid_time(t),
        seconds > i64::MAX ==> time is None,
{
    proof {
        lemma_time_of_day_valid(seconds as int);
    }
    if seconds > 0x7fff_ffff_ffff_ffff {
        None
    } else {
        utc_time_of_day_at(seconds as i64)
    }
}

/// The GGA sentence of `fix` at the UTC time `seconds` after the Unix epoch:
/// owed for every count up to 2^40, and always the sentence at that count's
/// time of day.
pub fn sentence_at_timestamp(seconds: u64, fix: &Fix) -> (text: Option<Vec<u8>>)
    ensures
        seconds <= max_timestamp() ==> text is Some,
        text matches Some(t) ==> t@ == sentence(time_of_day(seconds as int), *fix),
{
    match utc_time_of_day(seconds) {
        Some(time) => Some(sentence_at(time, fix)),
        None => None,
    }
}

/// The GGA sentence of `fix` at the current UTC time, or `None` when the
/// clock cannot be read as a time of day: it is the sentence at the time of
/// day of some count of seconds since the epoch (the clock's, which is not
/// stated).
pub fn from_fix(fix: &Fix) -> (text: Option<Vec<u8>>)
    ensures
        text matches Some(t) ==> exists|seconds: u64|
            t@ == sentence(time_of_day(seconds as int), *fix),
{
    match unix_time_now() {
        Some(seconds) => sentence_at_timestamp(seconds, fix),
        None => None,
    }
}

/// Asks Home Assistant where the phone is.
pub struct LocationProvider {
    client: Client,
}

impl View for LocationProvider {
    type V = ClientView;

    closed spec fn view(&self) -> ClientView {
        self.client@
    }
}

impl LocationProvider {
    /// A provider that asks the Home Assistant of `config` about its phone.
    pub fn new(config: Config) -> (provider: LocationProvider)
        requires
            acceptable_api_key(config.api_key@),
        ensures
            provider@.base_url == config.base_url@,
            provider@.device_id == config.device_id@,
            provider@.accept == json_media_type(),
            provider@.authorization == bearer(config.api_key@),
    {
        LocationProvider { client: Client::new(config) }
    }

    /// The client with which the provider asks.
    pub fn client(&self) -> (client: &Client)
        ensures
            client@ == self@,
    {
        &self.client
    }

    /// The URL of the device tracker of the phone.
    pub fn location_url(&self) -> (url: String)
        ensures
            url@ == self@.base_url + device_tracker_path(self@.device_id),
    {
        let path = device_tracker_path_of(self.client.device_id());
        self.client.get(path.as_str())
    }
}

} // verus!
