//! The time zone service: points `/etc/localtime` at the zone that Home
//! Assistant reports for the phone.

use vstd::prelude::*;

use crate::config::Config;
use crate::home_assistant::{acceptable_api_key, bearer, json_media_type, Client, ClientView};

verus! {

/// The attributes of the time zone sensor that the service reads.
#[derive(Debug, PartialEq, Eq)]
pub struct DeviceTimezone {
    pub time_zone_id: String,
}

/// The state of the phone's time zone sensor, as far as the service reads
/// it.
#[derive(Debug, PartialEq, Eq)]
pub struct TimezoneResponse {
    pub attributes: DeviceTimezone,
}

/// The API path of the time zone sensor of a phone.
pub open spec fn timezone_sensor_path(device_id: Seq<char>) -> Seq<char> {
    "/api/states/sensor."@ + device_id + "_current_time_zone"@
}

/// The sensor path names the whole device id: the 19 characters
/// `/api/states/sensor.`, every character of the id in order, then the 18
/// characters `_current_time_zone`.
pub proof fn lemma_timezone_sensor_path(device_id: Seq<char>)
    ensures
        timezone_sensor_path(device_id).len() == 19 + device_id.len() + 18,
        timezone_sensor_path(device_id).subrange(0, 19) =~= seq![
            '/', 'a', 'p', 'i', '/', 's', 't', 'a', 't', 'e', 's', '/', 's', 'e', 'n', 's', 'o', 'r',
            '.',
        ],
        timezone_sensor_path(device_id).subrange(19, 19 + device_id.len() as int) =~= device_id,
        timezone_sensor_path(device_id).subrange(
            19 + device_id.len() as int,
            19 + device_id.len() as int + 18,
        ) =~= seq![
            '_', 'c', 'u', 'r', 'r', 'e', 'n', 't', '_', 't', 'i', 'm', 'e', '_', 'z', 'o', 'n', 'e',
        ],
{
    reveal_strlit("/api/states/sensor.");
    reveal_strlit("_current_time_zone");
}

/// The file of a zone names the whole zone: the 20 characters
/// `/usr/share/zoneinfo/` followed by every character of the zone name, in
/// order, and nothing else.
pub proof fn lemma_zoneinfo_path(tz: Seq<char>)
    ensures
        zoneinfo_path(tz).len() == 20 + tz.len(),
        zoneinfo_path(tz).subrange(0, 20) =~= seq![
            '/', 'u', 's', 'r', '/', 's', 'h', 'a', 'r', 'e', '/', 'z', 'o', 'n', 'e', 'i', 'n', 'f',
            'o', '/',
        ],
        zoneinfo_path(tz).subrange(20, 20 + tz.len() as int) =~= tz,
{
    reveal_strlit("/usr/share/zoneinfo/");
}

/// The file of a zone in the zone database.
pub open spec fn zoneinfo_path(tz: Seq<char>) -> Seq<char> {
    "/usr/share/zoneinfo/"@ + tz
}

/// The link that names the system's time zone.
pub open spec fn localtime_path() -> Seq<char> {
    "/etc/localtime"@
}

/// The file of the zone `tz` in the zone database.
pub fn zoneinfo_path_of(tz: &str) -> (path: String)
    ensures
        path@ == zoneinfo_path(tz@),
{
    String::from_str("/usr/share/zoneinfo/").concat(tz)
}

/// Where a synchronisation stands.
pub enum SyncState {
    /// The time zone was asked of Home Assistant.
    AwaitingTimezone,
    /// The zone database was asked whether the zone exists.
    AwaitingZoneCheck(String),
    /// The old link is being removed.
    AwaitingRemoval(String),
    /// The new link is being made.
    AwaitingLink(String),
    /// The synchronisation is over.
    Finished,
}

/// What the outside work of the last step gave: a result, or the text of
/// its error.
pub enum SyncEvent {
    TimezoneFetched(Result<TimezoneResponse, String>),
    ZoneChecked(Result<bool, String>),
    LocaltimeRemoved(Result<(), String>),
    LocaltimeLinked(Result<(), String>),
}

/// Why a synchronisation failed.
#[derive(Debug, PartialEq, Eq)]
pub enum SyncError {
    /// Asking Home Assistant failed.
    Request(String),
    /// The zone is not in the zone database.
    MissingZone(String),
    /// Whether the zone is in the database could not be found out.
    UnverifiableZone(String, String),
    /// Removing or making the link failed.
    Filesystem(String),
    /// An event came that the step it answers did not ask for.
    OutOfOrder,
}

/// The next piece of outside work.
pub enum SyncAction {
    /// GET the time zone sensor at this URL.
    FetchTimezone(String),
    /// Find out whether this file exists.
    CheckZone(String),
    /// Remove this file.
    RemoveLocaltime(String),
    /// Make a symbolic link at the second path that points at the first.
    LinkLocaltime(String, String),
    /// The synchronisation is over: the zone that was set, or the error.
    Done(Result<String, SyncError>),
}

/// A synchronisation state, with its texts as character sequences.
pub enum SyncStateView {
    AwaitingTimezone,
    AwaitingZoneCheck(Seq<char>),
    AwaitingRemoval(Seq<char>),
    AwaitingLink(Seq<char>),
    Finished,
}

/// An event, with the fetched reply reduced to the zone it names.
pub enum SyncEventView {
    TimezoneFetched(Result<Seq<char>, Seq<char>>),
    ZoneChecked(Result<bool, Seq<char>>),
    LocaltimeRemoved(Result<(), Seq<char>>),
    LocaltimeLinked(Result<(), Seq<char>>),
}

/// An error, with its texts as character sequences.
pub enum SyncErrorView {
    Request(Seq<char>),
    MissingZone(Seq<char>),
    UnverifiableZone(Seq<char>, Seq<char>),
    Filesystem(Seq<char>),
    OutOfOrder,
}

/// An action, with its texts as character sequences.
pub enum SyncActionView {
    FetchTimezone(Seq<char>),
    CheckZone(Seq<char>),
    RemoveLocaltime(Seq<char>),
    LinkLocaltime(Seq<char>, Seq<char>),
    Done(Result<Seq<char>, SyncErrorView>),
}

impl View for SyncState {
    type V = SyncStateView;

    open spec fn view(&self) -> SyncStateView {
        match self {
            SyncState::AwaitingTimezone => SyncStateView::AwaitingTimezone,
            SyncState::AwaitingZoneCheck(tz) => SyncStateView::AwaitingZoneCheck(tz@),
            SyncState::AwaitingRemoval(tz) => SyncStateView::AwaitingRemoval(tz@),
            SyncState::AwaitingLink(tz) => SyncStateView::AwaitingLink(tz@),
            SyncState::Finished => SyncStateView::Finished,
        }
    }
}

/// The view of an error text of an event.
pub open spec fn reason_view<T, U>(r: Result<T, String>, ok: U) -> Result<U, Seq<char>> {
    match r {
        Ok(_) => Ok(ok),
        Err(e) => Err(e@),
    }
}

impl View for SyncEvent {
    type V = SyncEventView;

    open spec fn view(&self) -> SyncEventView {
        match self {
            SyncEvent::TimezoneFetched(r) => SyncEventView::TimezoneFetched(
                match r {
                    Ok(response) => Ok(response.attributes.time_zone_id@),
                    Err(e) => Err(e@),
                },
            ),
            SyncEvent::ZoneChecked(r) => SyncEventView::ZoneChecked(
                match r {
                    Ok(b) => Ok(*b),
                    Err(e) => Err(e@),
                },
            ),
            SyncEvent::LocaltimeRemoved(r) => SyncEventView::LocaltimeRemoved(reason_view(*r, ())),
            SyncEvent::LocaltimeLinked(r) => SyncEventView::LocaltimeLinked(reason_view(*r, ())),
        }
    }
}

impl View for SyncError {
    type V = SyncErrorView;

    open spec fn view(&self) -> SyncErrorView {
        match self {
            SyncError::Request(e) => SyncErrorView::Request(e@),
            SyncError::MissingZone(tz) => SyncErrorView::MissingZone(tz@),
            SyncError::UnverifiableZone(tz, e) => SyncErrorView::UnverifiableZone(tz@, e@),
            SyncError::Filesystem(e) => SyncErrorView::Filesystem(e@),
            SyncError::OutOfOrder => SyncErrorView::OutOfOrder,
        }
    }
}

impl View for SyncAction {
    type V = SyncActionView;

    open spec fn view(&self) -> SyncActionView {
        match self {
            SyncAction::FetchTimezone(url) => SyncActionView::FetchTimezone(url@),
            SyncAction::CheckZone(path) => SyncActionView::CheckZone(path@),
            SyncAction::RemoveLocaltime(path) => SyncActionView::RemoveLocaltime(path@),
            SyncAction::LinkLocaltime(original, link) => SyncActionView::LinkLocaltime(
                original@,
                link@,
            ),
            SyncAction::Done(r) => SyncActionView::Done(
                match r {
                    Ok(tz) => Ok(tz@),
                    Err(e) => Err(e@),
                },
            ),
        }
    }
}

/// The end of a synchronisation with an error.
pub open spec fn fail(error: SyncErrorView) -> (SyncStateView, SyncActionView) {
    (SyncStateView::Finished, SyncActionView::Done(Err(error)))
}

/// One step of a synchronisation: from where it stands and what the last
/// piece of outside work gave, where it stands next and what to do next.
/// The zone is checked before the link is touched; the old link is removed
/// before the new one is made; any failure ends the synchronisation.
pub open spec fn sync_step(state: SyncStateView, event: SyncEventView) -> (
    SyncStateView,
    SyncActionView,
) {
    match state {
        SyncStateView::AwaitingTimezone => match event {
            SyncEventView::TimezoneFetched(Ok(tz)) => (
                SyncStateView::AwaitingZoneCheck(tz),
                SyncActionView::CheckZone(zoneinfo_path(tz)),
            ),
            SyncEventView::TimezoneFetched(Err(e)) => fail(SyncErrorView::Request(e)),
            _ => fail(SyncErrorView::OutOfOrder),
        },
        SyncStateView::AwaitingZoneCheck(tz) => match event {
            SyncEventView::ZoneChecked(Ok(true)) => (
                SyncStateView::AwaitingRemoval(tz),
                SyncActionView::RemoveLocaltime(localtime_path()),
            ),
            SyncEventView::ZoneChecked(Ok(false)) => fail(SyncErrorView::MissingZone(tz)),
            SyncEventView::ZoneChecked(Err(e)) => fail(SyncErrorView::UnverifiableZone(tz, e)),
            _ => fail(SyncErrorView::OutOfOrder),
        },
        SyncStateView::AwaitingRemoval(tz) => match event {
            SyncEventView::LocaltimeRemoved(Ok(())) => (
                SyncStateView::AwaitingLink(tz),
                SyncActionView::LinkLocaltime(zoneinfo_path(tz), localtime_path()),
            ),
            SyncEventView::LocaltimeRemoved(Err(e)) => fail(SyncErrorView::Filesystem(e)),
            _ => fail(SyncErrorView::OutOfOrder),
        },
        SyncStateView::AwaitingLink(tz) => match event {
            SyncEventView::LocaltimeLinked(Ok(())) => (
                SyncStateView::Finished,
                SyncActionView::Done(Ok(tz)),
            ),
            SyncEventView::LocaltimeLinked(Err(e)) => fail(SyncErrorView::Filesystem(e)),
            _ => fail(SyncErrorView::OutOfOrder),
        },
        SyncStateView::Finished => fail(SyncErrorView::OutOfOrder),
    }
}

/// The states and actions that a synchronisation goes through from `state`
/// when the events come in the given order.
pub open spec fn run(state: SyncStateView, events: Seq<SyncEventView>) -> Seq<
    (SyncStateView, SyncActionView),
>
    decreases events.len(),
{
    if events.len() == 0 {
        Seq::empty()
    } else {
        let next = sync_step(state, events[0]);
        seq![next] + run(next.0, events.drop_first())
    }
}

/// The `k`-th action of a run reports success with zone `tz`.
pub open spec fn succeeds_at(
    steps: Seq<(SyncStateView, SyncActionView)>,
    k: int,
    tz: Seq<char>,
) -> bool {
    0 <= k < steps.len() && steps[k].1 == SyncActionView::Done(Ok(tz))
}

/// The first step of a run, and the rest of it.
proof fn lemma_run_unfold(state: SyncStateView, events: Seq<SyncEventView>, k: int)
    requires
        0 < k < events.len(),
    ensures
        run(state, events)[0] == sync_step(state, events[0]),
        run(state, events)[k] == run(sync_step(state, events[0]).0, events.drop_first())[k - 1],
        run(state, events).len() == events.len(),
        events.drop_first()[k - 1] == events[k],
{
    lemma_run_len(state, events);
}

proof fn lemma_run_len(state: SyncStateView, events: Seq<SyncEventView>)
    ensures
        run(state, events).len() == events.len(),
    decreases events.len(),
{
    if events.len() > 0 {
        lemma_run_len(sync_step(state, events[0]).0, events.drop_first());
    }
}

/// A finished synchronisation never reports success again.
proof fn lemma_finished_never_succeeds(events: Seq<SyncEventView>, k: int, tz: Seq<char>)
    ensures
        !succeeds_at(run(SyncStateView::Finished, events), k, tz),
    decreases events.len(),
{
    lemma_run_len(SyncStateView::Finished, events);
    if 0 < k < events.len() {
        lemma_run_unfold(SyncStateView::Finished, events, k);
        lemma_finished_never_succeeds(events.drop_first(), k - 1, tz);
    }
}

/// Success from a state after the check: only by the given events.
proof fn lemma_success_after_link(tz0: Seq<char>, events: Seq<SyncEventView>, k: int, tz: Seq<char>)
    requires
        succeeds_at(run(SyncStateView::AwaitingLink(tz0), events), k, tz),
    ensures
        k == 0,
        tz == tz0,
        events[0] == SyncEventView::LocaltimeLinked(Ok(())),
{
    lemma_run_len(SyncStateView::AwaitingLink(tz0), events);
    assert(run(SyncStateView::AwaitingLink(tz0), events)[0] == sync_step(
        SyncStateView::AwaitingLink(tz0),
        events[0],
    ));
    if let SyncEventView::LocaltimeLinked(Ok(u)) = events[0] {
        assert(events[0] == SyncEventView::LocaltimeLinked(Ok(())));
    }
    if k > 0 {
        lemma_run_unfold(SyncStateView::AwaitingLink(tz0), events, k);
        lemma_finished_never_succeeds(events.drop_first(), k - 1, tz);
    }
}

proof fn lemma_success_after_removal(
    tz0: Seq<char>,
    events: Seq<SyncEventView>,
    k: int,
    tz: Seq<char>,
)
    requires
        succeeds_at(run(SyncStateView::AwaitingRemoval(tz0), events), k, tz),
    ensures
        k == 1,
        tz == tz0,
        events[0] == SyncEventView::LocaltimeRemoved(Ok(())),
        events[1] == SyncEventView::LocaltimeLinked(Ok(())),
{
    let s = SyncStateView::AwaitingRemoval(tz0);
    lemma_run_len(s, events);
    if k == 0 {
        assert(run(s, events)[0] == sync_step(s, events[0]));
    } else {
        lemma_run_unfold(s, events, k);
        let next = sync_step(s, events[0]).0;
        if let SyncEventView::LocaltimeRemoved(Ok(u)) = events[0] {
            assert(events[0] == SyncEventView::LocaltimeRemoved(Ok(())));
        }
        if let SyncStateView::AwaitingLink(t) = next {
            lemma_success_after_link(t, events.drop_first(), k - 1, tz);
        } else {
            lemma_finished_never_succeeds(events.drop_first(), k - 1, tz);
        }
    }
}

proof fn lemma_success_after_check(
    tz0: Seq<char>,
    events: Seq<SyncEventView>,
    k: int,
    tz: Seq<char>,
)
    requires
        succeeds_at(run(SyncStateView::AwaitingZoneCheck(tz0), events), k, tz),
    ensures
        k == 2,
        tz == tz0,
        events[0] == SyncEventView::ZoneChecked(Ok(true)),
        events[1] == SyncEventView::LocaltimeRemoved(Ok(())),
        events[2] == SyncEventView::LocaltimeLinked(Ok(())),
{
    let s = SyncStateView::AwaitingZoneCheck(tz0);
    lemma_run_len(s, events);
    if k == 0 {
        assert(run(s, events)[0] == sync_step(s, events[0]));
    } else {
        lemma_run_unfold(s, events, k);
        let next = sync_step(s, events[0]).0;
        if let SyncStateView::AwaitingRemoval(t) = next {
            lemma_success_after_removal(t, events.drop_first(), k - 1, tz);
        } else {
            lemma_finished_never_succeeds(events.drop_first(), k - 1, tz);
        }
    }
}

/// A synchronisation that reports success with a zone went through exactly
/// these steps: Home Assistant named that zone, the zone database was found
/// to hold it, the old link was removed, and the new link was made, in that
/// order; the actions it asked for were to check that zone's file, remove
/// `/etc/localtime`, link `/etc/localtime` to that zone's file, and report
/// the zone. No other run of events reports success.
pub proof fn lemma_success_only_after_checked_link(
    events: Seq<SyncEventView>,
    k: int,
    tz: Seq<char>,
)
    requires
        succeeds_at(run(SyncStateView::AwaitingTimezone, events), k, tz),
    ensures
        k == 3,
        events[0] == SyncEventView::TimezoneFetched(Ok(tz)),
        events[1] == SyncEventView::ZoneChecked(Ok(true)),
        events[2] == SyncEventView::LocaltimeRemoved(Ok(())),
        events[3] == SyncEventView::LocaltimeLinked(Ok(())),
        run(SyncStateView::AwaitingTimezone, events).subrange(0, 4).map_values(
            |step: (SyncStateView, SyncActionView)| step.1,
        ) == seq![
            SyncActionView::CheckZone(zoneinfo_path(tz)),
            SyncActionView::RemoveLocaltime(localtime_path()),
            SyncActionView::LinkLocaltime(zoneinfo_path(tz), localtime_path()),
            SyncActionView::Done(Ok(tz)),
        ],
{
    let s = SyncStateView::AwaitingTimezone;
    lemma_run_len(s, events);
    if k == 0 {
        assert(run(s, events)[0] == sync_step(s, events[0]));
    } else {
        lemma_run_unfold(s, events, k);
        let next = sync_step(s, events[0]).0;
        if let SyncStateView::AwaitingZoneCheck(tz0) = next {
            lemma_success_after_check(tz0, events.drop_first(), k - 1, tz);
        } else {
            lemma_finished_never_succeeds(events.drop_first(), k - 1, tz);
        }
    }
    let r = run(s, events);
    lemma_run_unfold(s, events, 3);
    let e1 = events.drop_first();
    let s1 = sync_step(s, events[0]).0;
    lemma_run_unfold(s1, e1, 2);
    let e2 = e1.drop_first();
    let s2 = sync_step(s1, e1[0]).0;
    lemma_run_unfold(s2, e2, 1);
    let e3 = e2.drop_first();
    let s3 = sync_step(s2, e2[0]).0;
    assert(run(s3, e3)[0] == sync_step(s3, e3[0]));
    assert(r.subrange(0, 4).map_values(|step: (SyncStateView, SyncActionView)| step.1) =~= seq![
        SyncActionView::CheckZone(zoneinfo_path(tz)),
        SyncActionView::RemoveLocaltime(localtime_path()),
        SyncActionView::LinkLocaltime(zoneinfo_path(tz), localtime_path()),
        SyncActionView::Done(Ok(tz)),
    ]);
}

/// The events of a synchronisation in which Home Assistant names `tz` and
/// every piece of outside work succeeds.
pub open spec fn successful_events(tz: Seq<char>) -> Seq<SyncEventView> {
    seq![
        SyncEventView::TimezoneFetched(Ok(tz)),
        SyncEventView::ZoneChecked(Ok(true)),
        SyncEventView::LocaltimeRemoved(Ok(())),
        SyncEventView::LocaltimeLinked(Ok(())),
    ]
}

/// The states and actions of a synchronisation that sets `tz`.
pub open spec fn successful_run(tz: Seq<char>) -> Seq<(SyncStateView, SyncActionView)> {
    seq![
        (SyncStateView::AwaitingZoneCheck(tz), SyncActionView::CheckZone(zoneinfo_path(tz))),
        (SyncStateView::AwaitingRemoval(tz), SyncActionView::RemoveLocaltime(localtime_path())),
        (
            SyncStateView::AwaitingLink(tz),
            SyncActionView::LinkLocaltime(zoneinfo_path(tz), localtime_path()),
        ),
        (SyncStateView::Finished, SyncActionView::Done(Ok(tz))),
    ]
}

/// Whenever Home Assistant names `tz` and the outside work succeeds, a
/// synchronisation goes through the same states, asks for the same work
/// (check the zone's file, remove `/etc/localtime`, link it to the zone's
/// file) and reports `tz`, whatever events come after.
pub proof fn lemma_successful_sync(tz: Seq<char>, events: Seq<SyncEventView>)
    requires
        events.len() >= 4,
        events.subrange(0, 4) == successful_events(tz),
    ensures
        run(SyncStateView::AwaitingTimezone, events).subrange(0, 4) == successful_run(tz),
{
    let s = SyncStateView::AwaitingTimezone;
    assert(events[0] == successful_events(tz)[0]);
    assert(events[1] == successful_events(tz)[1]);
    assert(events[2] == successful_events(tz)[2]);
    assert(events[3] == successful_events(tz)[3]);
    lemma_run_unfold(s, events, 3);
    let e1 = events.drop_first();
    let s1 = sync_step(s, events[0]).0;
    lemma_run_unfold(s1, e1, 2);
    let e2 = e1.drop_first();
    let s2 = sync_step(s1, e1[0]).0;
    lemma_run_unfold(s2, e2, 1);
    let e3 = e2.drop_first();
    let s3 = sync_step(s2, e2[0]).0;
    assert(run(s3, e3)[0] == sync_step(s3, e3[0]));
    assert(run(s, events).subrange(0, 4) =~= successful_run(tz));
}

/// Synchronising twice to the same zone does the same thing twice: any two
/// synchronisations that report success with `tz` went through the same
/// states and asked for the same work, so the second leaves
/// `/etc/localtime` linked to the same file as the first and reports the
/// same zone.
pub proof fn lemma_sync_idempotent(
    first: Seq<SyncEventView>,
    k1: int,
    second: Seq<SyncEventView>,
    k2: int,
    tz: Seq<char>,
)
    requires
        succeeds_at(run(SyncStateView::AwaitingTimezone, first), k1, tz),
        succeeds_at(run(SyncStateView::AwaitingTimezone, second), k2, tz),
    ensures
        k1 == 3 && k2 == 3,
        run(SyncStateView::AwaitingTimezone, first).subrange(0, 4) == run(
            SyncStateView::AwaitingTimezone,
            second,
        ).subrange(0, 4),
        run(SyncStateView::AwaitingTimezone, first).subrange(0, 4) == successful_run(tz),
{
    lemma_success_only_after_checked_link(first, k1, tz);
    lemma_success_only_after_checked_link(second, k2, tz);
    lemma_run_len(SyncStateView::AwaitingTimezone, first);
    lemma_run_len(SyncStateView::AwaitingTimezone, second);
    assert(first.subrange(0, 4) =~= successful_events(tz));
    assert(second.subrange(0, 4) =~= successful_events(tz));
    lemma_successful_sync(tz, first);
    lemma_successful_sync(tz, second);
}

/// The message that the service prints for an error.
pub open spec fn sync_error_message(error: SyncErrorView) -> Seq<char> {
    match error {
        SyncErrorView::Request(e) => e,
        SyncErrorView::MissingZone(tz) => tz + " does not exist in zoneinfo."@,
        SyncErrorView::UnverifiableZone(tz, e) => "Unable to verify whether "@ + tz
            + " exists. Check the application has permission to read /usr/share/zoneinfo. "@ + e,
        SyncErrorView::Filesystem(e) => e,
        SyncErrorView::OutOfOrder => "The synchronisation received an event it did not ask for."@,
    }
}

impl SyncError {
    /// The message that the service prints for the error.
    pub fn message(&self) -> (text: String)
        ensures
            text@ == sync_error_message(self@),
    {
        match self {
            SyncError::Request(e) => e.clone(),
            SyncError::MissingZone(tz) => tz.clone().concat(" does not exist in zoneinfo."),
            SyncError::UnverifiableZone(tz, e) => String::from_str(
                "Unable to verify whether ",
            ).concat(tz.as_str()).concat(
                " exists. Check the application has permission to read /usr/share/zoneinfo. ",
            ).concat(e.as_str()),
            SyncError::Filesystem(e) => e.clone(),
            SyncError::OutOfOrder => String::from_str(
                "The synchronisation received an event it did not ask for.",
            ),
        }
    }
}

/// Sets the system's time zone to the phone's.
pub struct TimezoneProvider {
    client: Client,
}

impl View for TimezoneProvider {
    type V = ClientView;

    closed spec fn view(&self) -> ClientView {
        self.client@
    }
}

impl TimezoneProvider {
    /// A provider that asks the Home Assistant of `config` about its phone.
    pub fn new(config: Config) -> (provider: TimezoneProvider)
        requires
            acceptable_api_key(config.api_key@),
        ensures
            provider@.base_url == config.base_url@,
            provider@.device_id == config.device_id@,
            provider@.accept == json_media_type(),
            provider@.authorization == bearer(config.api_key@),
    {
        TimezoneProvider { client: Client::new(config) }
    }

    /// The client with which the provider asks.
    pub fn client(&self) -> (client: &Client)
        ensures
            client@ == self@,
    {
        &self.client
    }

    /// The URL of the time zone sensor of the phone.
    pub fn timezone_url(&self) -> (url: String)
        ensures
            url@ == self@.base_url + timezone_sensor_path(self@.device_id),
    {
        let path = String::from_str("/api/states/sensor.").concat(self.client.device_id()).concat(
            "_current_time_zone",
        );
        self.client.get(path.as_str())
    }

    /// Starts a synchronisation: first the time zone is asked of Home
    /// Assistant.
    pub fn sync_timezone(&self) -> (start: (SyncState, SyncAction))
        ensures
            start.0@ == SyncStateView::AwaitingTimezone,
            start.1@ == SyncActionView::FetchTimezone(
                self@.base_url + timezone_sensor_path(self@.device_id),
            ),
    {
        (SyncState::AwaitingTimezone, SyncAction::FetchTimezone(self.timezone_url()))
    }

    /// The next step of a synchronisation, as `sync_step` gives it.
    pub fn step(&self, state: SyncState, event: SyncEvent) -> (next: (SyncState, SyncAction))
        ensures
            (next.0@, next.1@) == sync_step(state@, event@),
    {
        let ghost state_view = state@;
        let ghost event_view = event@;
        match state {
            SyncState::AwaitingTimezone => match event {
                SyncEvent::TimezoneFetched(Ok(response)) => {
                    let tz = response.attributes.time_zone_id;
                    let path = zoneinfo_path_of(tz.as_str());
                    (SyncState::AwaitingZoneCheck(tz), SyncAction::CheckZone(path))
                },
                SyncEvent::TimezoneFetched(Err(e)) => Self::fail(SyncError::Request(e)),
                _ => Self::fail(SyncError::OutOfOrder),
            },
            SyncState::AwaitingZoneCheck(tz) => match event {
                SyncEvent::ZoneChecked(Ok(true)) => (
                    SyncState::AwaitingRemoval(tz),
                    SyncAction::RemoveLocaltime(String::from_str("/etc/localtime")),
                ),
                SyncEvent::ZoneChecked(Ok(false)) => Self::fail(SyncError::MissingZone(tz)),
                SyncEvent::ZoneChecked(Err(e)) => Self::fail(SyncError::UnverifiableZone(tz, e)),
                _ => Self::fail(SyncError::OutOfOrder),
            },
            SyncState::AwaitingRemoval(tz) => match event {
                SyncEvent::LocaltimeRemoved(Ok(())) => {
                    let original = zoneinfo_path_of(tz.as_str());
                    (
                        SyncState::AwaitingLink(tz),
                        SyncAction::LinkLocaltime(original, String::from_str("/etc/localtime")),
                    )
                },
                SyncEvent::LocaltimeRemoved(Err(e)) => Self::fail(SyncError::Filesystem(e)),
                _ => Self::fail(SyncError::OutOfOrder),
            },
            SyncState::AwaitingLink(tz) => match event {
                SyncEvent::LocaltimeLinked(Ok(())) => (
                    SyncState::Finished,
                    SyncAction::Done(Ok(tz)),
                ),
                SyncEvent::LocaltimeLinked(Err(e)) => Self::fail(SyncError::Filesystem(e)),
                _ => Self::fail(SyncError::OutOfOrder),
            },
            SyncState::Finished => Self::fail(SyncError::OutOfOrder),
        }
    }

    /// The end of a synchronisation with an error.
    fn fail(error: SyncError) -> (end: (SyncState, SyncAction))
        ensures
            (end.0@, end.1@) == fail(error@),
    {
        (SyncState::Finished, SyncAction::Done(Err(error)))
    }
}

} // verus!
