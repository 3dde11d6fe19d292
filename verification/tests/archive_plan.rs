use linkura::archive::{decide_trailer_plan, ArchiveInfo, Instant, RoomInfo, TrailerArchive, TrailerCheck, TrailerPlan};
use linkura::json::{Json, JsonNumber};

fn obj(members: Vec<(&str, Json)>) -> Json {
    Json::Object(members.into_iter().map(|(k, v)| (k.to_string(), v)).collect())
}

fn text(s: &str) -> Json {
    Json::Str(s.to_string())
}

fn at(secs: i64) -> Instant {
    Instant { secs, nanos: 0 }
}

#[test]
fn not_open_yet() {
    assert_eq!(decide_trailer_plan(at(99), at(100), at(200), 2), TrailerPlan::NotOpenYet);
    assert_eq!(
        decide_trailer_plan(Instant { secs: 100, nanos: 0 }, Instant { secs: 100, nanos: 1 }, at(200), 1),
        TrailerPlan::NotOpenYet
    );
}

#[test]
fn with_meets_token_ten_minutes_before_start() {
    assert_eq!(
        decide_trailer_plan(at(1000), at(0), at(1600), 2),
        TrailerPlan::WithMeets { fetch_connect_token: true }
    );
    assert_eq!(
        decide_trailer_plan(Instant { secs: 999, nanos: 999_999_999 }, at(0), at(1600), 2),
        TrailerPlan::WithMeets { fetch_connect_token: false }
    );
    assert_eq!(
        decide_trailer_plan(at(5000), at(0), at(1600), 2),
        TrailerPlan::WithMeets { fetch_connect_token: true }
    );
}

#[test]
fn leap_second_start() {
    // a start inside a leap second counts from the following second
    let start = Instant { secs: 1600, nanos: 1_000_000_000 };
    assert_eq!(decide_trailer_plan(at(1000), at(0), start, 2), TrailerPlan::WithMeets { fetch_connect_token: false });
    assert_eq!(decide_trailer_plan(at(1001), at(0), start, 2), TrailerPlan::WithMeets { fetch_connect_token: true });
}

#[test]
fn other_live_types() {
    assert_eq!(decide_trailer_plan(at(10), at(0), at(0), 1), TrailerPlan::FesLive);
    assert_eq!(decide_trailer_plan(at(10), at(0), at(0), 3), TrailerPlan::Nothing);
}

fn trailer(live_type: u64, start: &str, open: &str) -> Json {
    obj(vec![
        ("live_id", text("L1")),
        ("live_type", Json::Number(JsonNumber::PosInt(live_type))),
        ("name", text("Name")),
        ("description", text("Desc")),
        ("live_start_time", text(start)),
        ("open_time", text(open)),
    ])
}

fn planned(check: TrailerCheck) -> TrailerPlan {
    match check {
        TrailerCheck::Planned { plan, .. } => plan,
        other => panic!("no plan: {:?}", other),
    }
}

#[test]
fn trailer_from_json_and_plan() {
    let t = TrailerArchive::from_json(&trailer(2, "2001-01-01T00:10:00+09:00", "2001-01-01T00:00:00Z"));
    assert_eq!(t.live_id, "L1");
    assert_eq!(t.live_type, 2);
    assert_eq!(t.name, "Name");
    assert_eq!(t.kind_label(), "with meets");
    match t.plan() {
        TrailerCheck::Planned { opened_check, start_check: Some(later), plan } => {
            assert!(opened_check.secs > 978_307_200);
            assert!(later.nanos < 1_000_000_000);
            assert_eq!(plan, TrailerPlan::WithMeets { fetch_connect_token: true });
        }
        other => panic!("unexpected {:?}", other),
    }

    let future = TrailerArchive::from_json(&trailer(1, "2999-01-01T00:10:00Z", "2999-01-01T00:00:00Z"));
    assert_eq!(future.kind_label(), "fes live");
    assert!(matches!(future.plan(), TrailerCheck::Planned { start_check: None, plan: TrailerPlan::NotOpenYet, .. }));
}

#[test]
fn open_and_start_play_their_roles() {
    // opened long ago, starting far ahead: no token yet
    let roles = TrailerArchive::from_json(&trailer(2, "2999-01-01T00:00:00Z", "2001-01-01T00:00:00Z"));
    assert_eq!(planned(roles.plan()), TrailerPlan::WithMeets { fetch_connect_token: false });
    let swapped = TrailerArchive::from_json(&trailer(2, "2001-01-01T00:00:00Z", "2999-01-01T00:00:00Z"));
    assert_eq!(planned(swapped.plan()), TrailerPlan::NotOpenYet);
}

#[test]
fn bad_times() {
    // the start time is only read once the live has opened
    let not_open = TrailerArchive::from_json(&trailer(1, "yesterday", "2999-01-01T00:00:00Z"));
    assert_eq!(planned(not_open.plan()), TrailerPlan::NotOpenYet);
    let opened = TrailerArchive::from_json(&trailer(3, "yesterday", "2001-01-01T00:00:00Z"));
    assert!(matches!(opened.plan(), TrailerCheck::BadStartTime { .. }));
    let bad_open = TrailerArchive::from_json(&trailer(1, "2001-01-01T00:00:00Z", "2001-13-01T00:00:00Z"));
    assert_eq!(bad_open.plan(), TrailerCheck::BadOpenTime);
}

#[test]
fn other_live_types_after_opening() {
    let other = TrailerArchive::from_json(&trailer(3, "2001-01-01T00:00:00Z", "2001-01-01T00:00:00Z"));
    assert_eq!(planned(other.plan()), TrailerPlan::Nothing);
    let fes = TrailerArchive::from_json(&trailer(1, "2001-01-01T00:00:00Z", "2001-01-01T00:00:00Z"));
    assert_eq!(planned(fes.plan()), TrailerPlan::FesLive);
}

#[test]
fn archive_info() {
    let a = ArchiveInfo::from_json(&obj(vec![
        ("name", text("T")),
        ("description", text("D")),
        ("thumbnail_image_url", text("I")),
        ("external_link", text("")),
        ("video_url", text("V")),
    ]));
    assert_eq!(a.title, "T");
    assert_eq!(a.video_url, "V");
    assert!(!a.resolves_stream());
    let b = ArchiveInfo::from_json(&obj(vec![
        ("name", text("T")),
        ("description", text("D")),
        ("thumbnail_image_url", text("I")),
        ("external_link", text("https://x")),
        ("video_url", text("V")),
    ]));
    assert!(b.resolves_stream());
}

#[test]
fn room_info() {
    let payload = obj(vec![
        ("pod", obj(vec![("address", text("10.0.0.1")), ("port", Json::Number(JsonNumber::PosInt(7000)))])),
        ("room_id", text("R-1")),
    ]);
    assert_eq!(
        RoomInfo::from_payload(&payload),
        RoomInfo { address: "10.0.0.1".to_string(), port: 7000, room_id: "R-1".to_string() }
    );
}
