//! The phone's location, as Home Assistant's device tracker reports it.

use vstd::prelude::*;

use crate::config::Config;
use crate::geoip::ichnaea;
use crate::home_assistant::{acceptable_api_key, bearer, json_media_type, Client, ClientView};

verus! {

/// The attributes of a device tracker that the service reads. Each is the
/// bit pattern (`f32::to_bits`) of a single-precision number: degrees for
/// the coordinates, metres for the accuracy.
#[derive(Clone, Copy, Debug, PartialEq, Eq, Structural)]
pub struct DeviceLocation {
    pub latitude: u32,
    pub longitude: u32,
    pub gps_accuracy: u32,
}

/// The state of a device tracker, as far as the service reads it.
#[derive(Clone, Copy, Debug, PartialEq, Eq, Structural)]
pub struct LocationResponse {
    pub attributes: DeviceLocation,
}

/// The API path of the device tracker of a phone.
pub open spec fn device_tracker_path(device_id: Seq<char>) -> Seq<char> {
    "/api/states/device_tracker."@ + device_id
}

/// The device tracker path names the whole device id: it is the 27
/// characters `/api/states/device_tracker.` followed by every character of
/// the id, in order, and nothing else.
pub proof fn lemma_device_tracker_path(device_id: Seq<char>)
    ensures
        device_tracker_path(device_id).len() == 27 + device_id.len(),
        device_tracker_path(device_id).subrange(0, 27) =~= seq![
            '/', 'a', 'p', 'i', '/', 's', 't', 'a', 't', 'e', 's', '/', 'd', 'e', 'v', 'i', 'c', 'e',
            '_', 't', 'r', 'a', 'c', 'k', 'e', 'r', '.',
        ],
        device_tracker_path(device_id).subrange(27, 27 + device_id.len() as int) =~= device_id,
{
    reveal_strlit("/api/states/device_tracker.");
}

/// The API path of the device tracker of `device_id`.
pub fn device_tracker_path_of(device_id: &str) -> (path: String)
    ensures
        path@ == device_tracker_path(device_id@),
{
    String::from_str("/api/states/device_tracker.").concat(device_id)
}

/// The Ichnaea reply for a device tracker's attributes: its latitude,
/// longitude and GPS accuracy, unchanged.
pub fn ichnaea_response(attributes: DeviceLocation) -> (response: ichnaea::Response)
    ensures
        response.accuracy == attributes.gps_accuracy,
        response.location.lat == attributes.latitude,
        response.location.lng == attributes.longitude,
{
    ichnaea::Response {
        accuracy: attributes.gps_accuracy,
        location: ichnaea::Location { lat: attributes.latitude, lng: attributes.longitude },
    }
}

/// Asks Home Assistant where the phone is.
pub struct LocationProvider {
    client: Client,
}

impl View for LocationProvider {
    type V = ClientView;

    closed spec fn view(&self) -> ClientView {
        self.client@
    }
}

impl LocationProvider {
    /// A provider that asks the Home Assistant of `config` about its phone.
    pub fn new(config: Config) -> (provider: LocationProvider)
        requires
            acceptable_api_key(config.api_key@),
        ensures
            provider@.base_url == config.base_url@,
            provider@.device_id == config.device_id@,
            provider@.accept == json_media_type(),
            provider@.authorization == bearer(config.api_key@),
    {
        let client = Client::new(config);
        LocationProvider { client }
    }

    /// The client with which the provider asks.
    pub fn client(&self) -> (client: &Client)
        ensures
            client@ == self@,
    {
        &self.client
    }

    /// The URL of the device tracker of the phone.
    pub fn location_url(&self) -> (url: String)
        ensures
            url@ == self@.base_url + device_tracker_path(self@.device_id),
    {
        let path = device_tracker_path_of(self.client.device_id());
        self.client.get(path.as_str())
    }

    /// The location to report, given the device tracker's state that the
    /// URL of `location_url` returned.
    pub fn get_location(&self, response: LocationResponse) -> (location: ichnaea::Response)
        ensures
            location.accuracy == response.attributes.gps_accuracy,
            location.location.lat == response.attributes.latitude,
            location.location.lng == response.attributes.longitude,
    {
        ichnaea_response(response.attributes)
    }
}

} // verus!
