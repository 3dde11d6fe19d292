use vstd::prelude::*;
use crate::json::Json;

verus! {

/// A point in time: whole seconds since the Unix epoch and the nanoseconds
/// past them (at least 10^9 inside a leap second).
#[derive(Clone, Copy, PartialEq, Eq, Debug)]
pub struct Instant {
    pub secs: i64,
    pub nanos: u32,
}

/// Whether `a` comes before `b`.
pub open spec fn instant_before(a: Instant, b: Instant) -> bool {
    a.secs < b.secs || (a.secs == b.secs && a.nanos < b.nanos)
}

/// Whether `now` is no earlier than ten minutes before `start`. A start inside
/// a leap second counts from the second after it, as chrono's subtraction does.
pub open spec fn may_have_started(now: Instant, start: Instant) -> bool {
    let secs = start.secs + start.nanos as int / 1_000_000_000 - 600;
    let nanos = start.nanos as int % 1_000_000_000;
    !(now.secs < secs || (now.secs == secs && now.nanos < nanos))
}

/// What to fetch about the latest trailer archive.
#[derive(Clone, Copy, PartialEq, Eq, Debug)]
pub enum TrailerPlan {
    /// The live is not open yet: warn and stop.
    NotOpenYet,
    /// A "with meets" live: fetch its room, and its connect token when it may
    /// already have started.
    WithMeets { fetch_connect_token: bool },
    /// A fes live: fetch its room.
    FesLive,
    /// Another kind of live: nothing more to fetch.
    Nothing,
}

/// What to fetch about an opened trailer archive of kind `live_type` (2 for
/// "with meets", 1 for fes live), with the clock at `now` and the live starting
/// at `start`.
pub open spec fn opened_plan(now: Instant, start: Instant, live_type: u64) -> TrailerPlan {
    if live_type == 2 {
        TrailerPlan::WithMeets { fetch_connect_token: may_have_started(now, start) }
    } else if live_type == 1 {
        TrailerPlan::FesLive
    } else {
        TrailerPlan::Nothing
    }
}

/// What to fetch about a trailer archive at `now`, given when it opens and
/// when it starts.
pub open spec fn spec_trailer_plan(now: Instant, open: Instant, start: Instant, live_type: u64) -> TrailerPlan {
    if instant_before(now, open) {
        TrailerPlan::NotOpenYet
    } else {
        opened_plan(now, start, live_type)
    }
}

/// Decides what to fetch about an opened trailer archive.
pub fn decide_opened_plan(now: Instant, start: Instant, live_type: u64) -> (p: TrailerPlan)
    ensures
        p == opened_plan(now, start, live_type),
{
    if live_type == 2 {
        let secs: i128 = start.secs as i128 + (start.nanos / 1_000_000_000) as i128 - 600;
        let nanos: u32 = start.nanos % 1_000_000_000;
        let before = (now.secs as i128) < secs || ((now.secs as i128) == secs && now.nanos < nanos);
        TrailerPlan::WithMeets { fetch_connect_token: !before }
    } else if live_type == 1 {
        TrailerPlan::FesLive
    } else {
        TrailerPlan::Nothing
    }
}

/// Decides what to fetch about a trailer archive.
pub fn decide_trailer_plan(now: Instant, open: Instant, start: Instant, live_type: u64) -> (p: TrailerPlan)
    ensures
        p == spec_trailer_plan(now, open, start, live_type),
{
    if now.secs < open.secs || (now.secs == open.secs && now.nanos < open.nanos) {
        TrailerPlan::NotOpenYet
    } else {
        decide_opened_plan(now, start, live_type)
    }
}

/// The instant that an RFC 3339 text denotes, as seconds since the epoch and
/// nanoseconds, or nothing when the text is not RFC 3339.
pub uninterp spec fn rfc3339_instant(text: Seq<char>) -> Option<(i64, u32)>;

/// The instant that seconds and nanoseconds since the epoch give.
pub open spec fn instant_of(t: (i64, u32)) -> Instant {
    Instant { secs: t.0, nanos: t.1 }
}

/// Runs `chrono::DateTime::parse_from_rfc3339` and reads the result's
/// `timestamp` and `timestamp_subsec_nanos`; the contract says only that the
/// result is the one the text determines.
#[verifier::external_body]
fn parse_rfc3339(text: &str) -> (r: Option<(i64, u32)>)
    ensures
        r == rfc3339_instant(text@),
{
    match chrono::DateTime::parse_from_rfc3339(text) {
        Ok(t) => Some((t.timestamp(), t.timestamp_subsec_nanos())),
        Err(_) => None,
    }
}

/// What planning gives, from the parsed opening and start times and the clock
/// readings: `first` is compared with the opening time, and `second`, read
/// only for an opened live, with the start time (`None` for a failed reading).
pub open spec fn spec_trailer_check(
    open: Option<(i64, u32)>,
    start: Option<(i64, u32)>,
    first: Option<Instant>,
    second: Option<Instant>,
    live_type: u64,
) -> TrailerCheck {
    match first {
        None => TrailerCheck::ClockUnreadable,
        Some(now) => match open {
            None => TrailerCheck::BadOpenTime,
            Some(o) => if instant_before(now, instant_of(o)) {
                TrailerCheck::Planned { opened_check: now, start_check: None, plan: TrailerPlan::NotOpenYet }
            } else {
                match second {
                    None => TrailerCheck::ClockUnreadable,
                    Some(later) => match start {
                        None => TrailerCheck::BadStartTime { opened_check: now },
                        Some(st) => TrailerCheck::Planned {
                            opened_check: now,
                            start_check: Some(later),
                            plan: opened_plan(later, instant_of(st), live_type),
                        },
                    },
                }
            },
        },
    }
}

/// Whether a clock reading is one that reading the clock can give.
pub open spec fn valid_reading(r: Option<Instant>) -> bool {
    r matches Some(i) ==> i.nanos < 1_000_000_000 && chrono_utc_representable(i.secs, i.nanos)
}

/// Whether chrono represents the UTC instant `secs` seconds and `nanos`
/// nanoseconds after the Unix epoch.
pub uninterp spec fn chrono_utc_representable(secs: i64, nanos: u32) -> bool;

/// Asks `chrono::DateTime::from_timestamp` whether it represents the instant;
/// the contract says only that the answer is the one the instant determines.
#[verifier::external_body]
fn utc_representable(secs: i64, nanos: u32) -> (b: bool)
    ensures
        b == chrono_utc_representable(secs, nanos),
{
    chrono::DateTime::from_timestamp(secs, nanos).is_some()
}

#[verifier::external_type_specification]
#[verifier::external_body]
pub struct ExSystemTime(std::time::SystemTime);

/// Reads the system clock with `SystemTime::now`; nothing is promised of it.
#[verifier::external_body]
fn system_now() -> std::time::SystemTime {
    std::time::SystemTime::now()
}

/// The time since the Unix epoch that `SystemTime::duration_since` gives, as
/// `Duration::as_secs` and `Duration::subsec_nanos`; nothing for a time before
/// the epoch. The nanoseconds stay below a second, as `subsec_nanos` documents.
#[verifier::external_body]
fn since_unix_epoch(t: std::time::SystemTime) -> (r: Option<(u64, u32)>)
    ensures
        r matches Some(d) ==> d.1 < 1_000_000_000,
{
    match t.duration_since(std::time::UNIX_EPOCH) {
        Ok(d) => Some((d.as_secs(), d.subsec_nanos())),
        Err(_) => None,
    }
}

/// Reads the clock as `chrono::Utc::now` does: the system time since the Unix
/// epoch, its seconds taken as an `i64`, and nothing where `Utc::now` would
/// give up (a clock before the epoch, or an instant chrono cannot represent).
fn read_clock() -> (r: Option<Instant>)
    ensures
        r matches Some(i) ==> i.nanos < 1_000_000_000 && chrono_utc_representable(i.secs, i.nanos),
{
    let t = system_now();
    match since_unix_epoch(t) {
        Some((secs, nanos)) => {
            let s: i64 = #[verifier::truncate] (secs as i64);
            if utc_representable(s, nanos) {
                Some(Instant { secs: s, nanos })
            } else {
                None
            }
        },
        None => None,
    }
}

/// How planning for a trailer archive went.
#[derive(Clone, Copy, PartialEq, Eq, Debug)]
pub enum TrailerCheck {
    /// The clock could not be read as an instant chrono represents.
    ClockUnreadable,
    /// The opening time is not RFC 3339.
    BadOpenTime,
    /// The live opened as of `opened_check`, and its start time is not RFC 3339.
    BadStartTime { opened_check: Instant },
    /// The plan: `opened_check` is the clock reading compared with the opening
    /// time; for an opened live, `start_check` is the later reading compared
    /// with the start time.
    Planned { opened_check: Instant, start_check: Option<Instant>, plan: TrailerPlan },
}

/// The latest trailer archive of the plan list.
#[derive(Debug, PartialEq, Eq)]
pub struct TrailerArchive {
    pub live_id: String,
    pub live_type: u64,
    pub name: String,
    pub description: String,
    pub start_time: String,
    pub open_time: String,
}

/// The members that describing a trailer archive reads.
pub open spec fn trailer_shape(wm: Json) -> bool {
    &&& wm.str_field("live_id"@) is Some
    &&& wm.u64_field("live_type"@) is Some
    &&& wm.str_field("name"@) is Some
    &&& wm.str_field("description"@) is Some
    &&& wm.str_field("live_start_time"@) is Some
    &&& wm.str_field("open_time"@) is Some
}

/// The kind of live that a trailer archive announces, as the log names it.
pub open spec fn live_kind_label(live_type: u64) -> Seq<char> {
    if live_type == 2 {
        "with meets"@
    } else {
        "fes live"@
    }
}

impl TrailerArchive {
    /// Reads a trailer archive out of a plan-list entry.
    pub fn from_json(wm: &Json) -> (t: Self)
        requires
            trailer_shape(*wm),
        ensures
            wm.str_field("live_id"@) == Some(t.live_id@),
            wm.u64_field("live_type"@) == Some(t.live_type),
            wm.str_field("name"@) == Some(t.name@),
            wm.str_field("description"@) == Some(t.description@),
            wm.str_field("live_start_time"@) == Some(t.start_time@),
            wm.str_field("open_time"@) == Some(t.open_time@),
    {
        let live_id = wm.str_at("live_id").clone();
        let live_type = wm.u64_at("live_type");
        let name = wm.str_at("name").clone();
        let description = wm.str_at("description").clone();
        let start_time = wm.str_at("live_start_time").clone();
        let open_time = wm.str_at("open_time").clone();
        TrailerArchive { live_id, live_type, name, description, start_time, open_time }
    }

    /// The kind of live, as the log names it.
    pub fn kind_label(&self) -> (s: String)
        ensures
            s@ == live_kind_label(self.live_type),
    {
        if self.live_type == 2 {
            String::from_str("with meets")
        } else {
            String::from_str("fes live")
        }
    }

    /// Reads the clock and decides what to fetch about the archive. The
    /// clock is read and the opening time parsed first; a live that has not
    /// opened is planned as such; for an opened one the clock is read again
    /// and the start time parsed, whatever the kind of live. Each step that
    /// cannot go on answers with its own outcome.
    pub fn plan(&self) -> (r: TrailerCheck)
        ensures
            match r {
                TrailerCheck::ClockUnreadable => true,
                TrailerCheck::BadOpenTime => rfc3339_instant(self.open_time@) is None,
                TrailerCheck::BadStartTime { opened_check } => {
                    &&& rfc3339_instant(self.open_time@) is Some
                    &&& !instant_before(opened_check, instant_of(rfc3339_instant(self.open_time@).unwrap()))
                    &&& rfc3339_instant(self.start_time@) is None
                },
                TrailerCheck::Planned { opened_check, start_check, plan } => {
                    &&& rfc3339_instant(self.open_time@) is Some
                    &&& opened_check.nanos < 1_000_000_000
                    &&& match start_check {
                        None => instant_before(opened_check, instant_of(rfc3339_instant(self.open_time@).unwrap()))
                            && plan == TrailerPlan::NotOpenYet,
                        Some(later) => {
                            &&& !instant_before(opened_check, instant_of(rfc3339_instant(self.open_time@).unwrap()))
                            &&& rfc3339_instant(self.start_time@) is Some
                            &&& later.nanos < 1_000_000_000
                            &&& plan == opened_plan(later, instant_of(rfc3339_instant(self.start_time@).unwrap()), self.live_type)
                        },
                    }
                },
            },
            rfc3339_instant(self.open_time@) is Some ==> r !is BadOpenTime,
            rfc3339_instant(self.start_time@) is Some ==> r !is BadStartTime,
            exists|first: Option<Instant>, second: Option<Instant>|
                valid_reading(first) && valid_reading(second) && r == spec_trailer_check(
                    rfc3339_instant(self.open_time@),
                    rfc3339_instant(self.start_time@),
                    first,
                    second,
                    self.live_type,
                ),
    {
        let ghost open_parse = rfc3339_instant(self.open_time@);
        let ghost start_parse = rfc3339_instant(self.start_time@);
        let first = read_clock();
        let now = match first {
            Some(i) => i,
            None => {
                assert(TrailerCheck::ClockUnreadable == spec_trailer_check(open_parse, start_parse, first, None, self.live_type));
                return TrailerCheck::ClockUnreadable;
            },
        };
        let open = match parse_rfc3339(self.open_time.as_str()) {
            Some(t) => Instant { secs: t.0, nanos: t.1 },
            None => {
                assert(TrailerCheck::BadOpenTime == spec_trailer_check(open_parse, start_parse, first, None, self.live_type));
                return TrailerCheck::BadOpenTime;
            },
        };
        if now.secs < open.secs || (now.secs == open.secs && now.nanos < open.nanos) {
            let r = TrailerCheck::Planned { opened_check: now, start_check: None, plan: TrailerPlan::NotOpenYet };
            assert(r == spec_trailer_check(open_parse, start_parse, first, None, self.live_type));
            return r;
        }
        let second = read_clock();
        let later = match second {
            Some(i) => i,
            None => {
                assert(TrailerCheck::ClockUnreadable == spec_trailer_check(open_parse, start_parse, first, second, self.live_type));
                return TrailerCheck::ClockUnreadable;
            },
        };
        let start = match parse_rfc3339(self.start_time.as_str()) {
            Some(t) => Instant { secs: t.0, nanos: t.1 },
            None => {
                let r = TrailerCheck::BadStartTime { opened_check: now };
                assert(r == spec_trailer_check(open_parse, start_parse, first, second, self.live_type));
                return r;
            },
        };
        let plan = decide_opened_plan(later, start, self.live_type);
        let r = TrailerCheck::Planned { opened_check: now, start_check: Some(later), plan };
        assert(r == spec_trailer_check(open_parse, start_parse, first, second, self.live_type));
        r
    }
}

/// The latest archive of the archive list.
#[derive(Debug, PartialEq, Eq)]
pub struct ArchiveInfo {
    pub title: String,
    pub description: String,
    pub thumbnail: String,
    pub link: String,
    pub video_url: String,
}

/// The members that describing an archive reads.
pub open spec fn archive_shape(archive: Json) -> bool {
    &&& archive.str_field("name"@) is Some
    &&& archive.str_field("description"@) is Some
    &&& archive.str_field("thumbnail_image_url"@) is Some
    &&& archive.str_field("external_link"@) is Some
    &&& archive.str_field("video_url"@) is Some
}

impl ArchiveInfo {
    /// Reads an archive out of an archive-list entry.
    pub fn from_json(archive: &Json) -> (a: Self)
        requires
            archive_shape(*archive),
        ensures
            archive.str_field("name"@) == Some(a.title@),
            archive.str_field("description"@) == Some(a.description@),
            archive.str_field("thumbnail_image_url"@) == Some(a.thumbnail@),
            archive.str_field("external_link"@) == Some(a.link@),
            archive.str_field("video_url"@) == Some(a.video_url@),
    {
        let title = archive.str_at("name").clone();
        let description = archive.str_at("description").clone();
        let thumbnail = archive.str_at("thumbnail_image_url").clone();
        let link = archive.str_at("external_link").clone();
        let video_url = archive.str_at("video_url").clone();
        ArchiveInfo { title, description, thumbnail, link, video_url }
    }

    /// Whether the archive's stream address must be looked up: only archives
    /// with an external link have one.
    pub fn resolves_stream(&self) -> (b: bool)
        ensures
            b == (self.link@.len() > 0),
    {
        !self.link.as_str().is_empty()
    }
}

/// Where a "with meets" room is served, as its connect token tells.
#[derive(Debug, PartialEq, Eq)]
pub struct RoomInfo {
    pub address: String,
    pub port: u64,
    pub room_id: String,
}

/// The members of a connect-token payload that the room summary reads.
pub open spec fn room_payload_shape(payload: Json) -> bool {
    &&& payload.field("pod"@) matches Some(pod) && pod.str_field("address"@) is Some && pod.u64_field("port"@) is Some
    &&& payload.str_field("room_id"@) is Some
}

impl RoomInfo {
    /// Reads the room's address, port and id out of a connect-token payload.
    pub fn from_payload(payload: &Json) -> (r: Self)
        requires
            room_payload_shape(*payload),
        ensures
            payload.field("pod"@).unwrap().str_field("address"@) == Some(r.address@),
            payload.field("pod"@).unwrap().u64_field("port"@) == Some(r.port),
            payload.str_field("room_id"@) == Some(r.room_id@),
    {
        let pod = match payload.get("pod") {
            Some(pod) => pod,
            None => vstd::pervasive::unreached(),
        };
        let address = pod.str_at("address").clone();
        let port = pod.u64_at("port");
        let room_id = payload.str_at("room_id").clone();
        RoomInfo { address, port, room_id }
    }
}

} // verus!
