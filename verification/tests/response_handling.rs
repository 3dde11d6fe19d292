use linkura::api::{AssetsApi, HighLevelApi, Member, ResponseError, expect_ok};
use linkura::json::{Json, JsonNumber};

fn obj(members: Vec<(&str, Json)>) -> Json {
    Json::Object(members.into_iter().map(|(k, v)| (k.to_string(), v)).collect())
}

fn text(s: &str) -> Json {
    Json::Str(s.to_string())
}

fn num(n: u64) -> Json {
    Json::Number(JsonNumber::PosInt(n))
}

#[test]
fn status_must_be_ok() {
    assert_eq!(expect_ok(200), Ok(()));
    assert_eq!(expect_ok(404), Err(ResponseError::Status(404)));
}

#[test]
fn password_login_reads_device_id() {
    let body = obj(vec![("player_id", text("114514")), ("device_specific_id", text("1919810"))]);
    assert_eq!(HighLevelApi::password_login(200, &body), Ok("1919810".to_string()));
    assert_eq!(HighLevelApi::password_login(500, &body), Err(ResponseError::Status(500)));
    let empty = obj(vec![("device_specific_id", text(""))]);
    assert_eq!(HighLevelApi::password_login(200, &empty), Err(ResponseError::Empty(Member::DeviceSpecificId)));
    let missing = obj(vec![("player_id", text("1"))]);
    assert_eq!(HighLevelApi::password_login(200, &missing), Err(ResponseError::Empty(Member::DeviceSpecificId)));
    let not_text = obj(vec![("device_specific_id", num(3))]);
    assert_eq!(HighLevelApi::password_login(200, &not_text), Err(ResponseError::Empty(Member::DeviceSpecificId)));
}

#[test]
fn device_id_login_reads_session_token() {
    let body = obj(vec![("session_token", text("1919810"))]);
    assert_eq!(HighLevelApi::device_id_login(200, &body), Ok("1919810".to_string()));
    assert_eq!(HighLevelApi::device_id_login(200, &Json::Null), Err(ResponseError::Empty(Member::SessionToken)));
    assert_eq!(HighLevelApi::device_id_login(401, &body), Err(ResponseError::Status(401)));
}

#[test]
fn connect_tokens() {
    let body = obj(vec![("audience_token", text("a.b.c"))]);
    assert_eq!(HighLevelApi::get_with_meets_connect_token(200, &body), Ok("a.b.c".to_string()));
    assert_eq!(HighLevelApi::get_fes_live_connect_token(200, &body), Ok("a.b.c".to_string()));
    let empty = obj(vec![("audience_token", text(""))]);
    assert_eq!(HighLevelApi::get_fes_live_connect_token(200, &empty), Ok(String::new()));
    let wrong = obj(vec![("audience_token", num(1))]);
    assert_eq!(
        HighLevelApi::get_with_meets_connect_token(200, &wrong),
        Err(ResponseError::Missing(Member::AudienceToken))
    );
    assert_eq!(HighLevelApi::get_fes_live_connect_token(403, &body), Err(ResponseError::Status(403)));
}

#[test]
fn plan_list_puts_live_archives_first() {
    let body = obj(vec![
        ("trailer_archive_list", Json::Array(vec![text("t1")])),
        ("live_archive_list", Json::Array(vec![text("l1"), text("l2")])),
    ]);
    assert_eq!(
        HighLevelApi::get_plan_list(200, body),
        Ok(Json::Array(vec![text("l1"), text("l2"), text("t1")]))
    );
}

#[test]
fn plan_list_errors() {
    let no_trailer = obj(vec![("live_archive_list", Json::Array(vec![]))]);
    assert_eq!(
        HighLevelApi::get_plan_list(200, no_trailer),
        Err(ResponseError::Missing(Member::TrailerArchiveList))
    );
    let no_live = obj(vec![("trailer_archive_list", Json::Array(vec![]))]);
    assert_eq!(HighLevelApi::get_plan_list(200, no_live), Err(ResponseError::Missing(Member::LiveArchiveList)));
    assert_eq!(HighLevelApi::get_plan_list(200, Json::Null), Err(ResponseError::Missing(Member::TrailerArchiveList)));
    assert_eq!(HighLevelApi::get_plan_list(502, Json::Null), Err(ResponseError::Status(502)));
}

#[test]
fn archive_list_is_taken_out() {
    let body = obj(vec![("archive_list", Json::Array(vec![num(1)])), ("x", num(2))]);
    assert_eq!(HighLevelApi::get_archive_list(200, body), Ok(Json::Array(vec![num(1)])));
    assert_eq!(
        HighLevelApi::get_archive_list(200, obj(vec![])),
        Err(ResponseError::Missing(Member::ArchiveList))
    );
    assert_eq!(HighLevelApi::get_archive_list(404, obj(vec![])), Err(ResponseError::Status(404)));
}

#[test]
fn petal_exchange_list_passes_through() {
    assert_eq!(HighLevelApi::get_petal_exchange_list(200, num(3)), Ok(num(3)));
    assert_eq!(HighLevelApi::get_petal_exchange_list(418, num(3)), Err(ResponseError::Status(418)));
}

#[test]
fn with_meets_summary() {
    let body = obj(vec![
        ("room", obj(vec![("id", num(1))])),
        ("name", text("Live")),
        ("description", text("desc")),
        ("cover_image_url", text("https://img")),
        ("characters", Json::Array(vec![text("c")])),
        ("hls", obj(vec![("url", text("https://hls")), ("other", num(0))])),
        ("unused", num(9)),
    ]);
    let summary = HighLevelApi::get_with_meets_info(200, body).unwrap();
    assert_eq!(
        summary,
        obj(vec![
            ("room", obj(vec![("id", num(1))])),
            ("name", text("Live")),
            ("description", text("desc")),
            ("thumbnail", text("https://img")),
            ("characters", Json::Array(vec![text("c")])),
            ("hls_url", text("https://hls")),
        ])
    );
    assert_eq!(HighLevelApi::get_with_meets_info(404, Json::Null), Err(ResponseError::Status(404)));
}

#[test]
fn fes_live_summary() {
    let body = obj(vec![
        ("characters", Json::Array(vec![])),
        ("description", text("d")),
        ("name", text("n")),
        ("room", obj(vec![])),
    ]);
    let summary = HighLevelApi::get_fes_live_info(200, body).unwrap();
    assert_eq!(
        summary,
        obj(vec![
            ("room", obj(vec![])),
            ("name", text("n")),
            ("description", text("d")),
            ("characters", Json::Array(vec![])),
        ])
    );
    assert_eq!(HighLevelApi::get_fes_live_info(500, Json::Null), Err(ResponseError::Status(500)));
}

#[test]
fn hls_url_joins_path_and_playlist() {
    let body = obj(vec![("path", text("https://cdn/a")), ("playlist_file", text("index.m3u8"))]);
    assert_eq!(AssetsApi::get_hls_url_from_archive(200, &body), Ok("https://cdn/a/index.m3u8".to_string()));
    assert_eq!(AssetsApi::get_hls_url_from_archive(404, &Json::Null), Err(ResponseError::Status(404)));
}

#[test]
fn store_page_version() {
    let html = r#"<script>{\"name\":\"x\",\"versionDisplay\":\"4.10.2\",\"other\":1}</script>"#;
    assert_eq!(HighLevelApi::app_version_from_store_page(html), Ok(Some("4.10.2".to_string())));
    let twice = r#"\"versionDisplay\":\"1.0.0\" and \"versionDisplay\":\"2.0.0\""#;
    assert_eq!(HighLevelApi::app_version_from_store_page(twice), Ok(Some("1.0.0".to_string())));
    assert_eq!(HighLevelApi::app_version_from_store_page(r#""versionDisplay":"4.10.2""#), Ok(None));
    assert_eq!(HighLevelApi::app_version_from_store_page(r#"\"versionDisplay\":\"4.10\""#), Ok(None));
    assert_eq!(HighLevelApi::app_version_from_store_page(""), Ok(None));
}

#[test]
fn res_version_from_header() {
    assert_eq!(
        HighLevelApi::res_version_from_login_probe(200, Some(b"R2504300@XXX".to_vec())),
        Ok(Some("R2504300".to_string()))
    );
    assert_eq!(
        HighLevelApi::res_version_from_login_probe(200, Some(b"R2504300".to_vec())),
        Ok(Some("R2504300".to_string()))
    );
    assert_eq!(
        HighLevelApi::res_version_from_login_probe(200, Some(b"@a@b".to_vec())),
        Ok(Some(String::new()))
    );
    assert_eq!(
        HighLevelApi::res_version_from_login_probe(200, Some(vec![b'R', 0xff, b'@'])),
        Ok(Some(String::new()))
    );
    assert_eq!(
        HighLevelApi::res_version_from_login_probe(200, Some(b"a\tb@c".to_vec())),
        Ok(Some("a\tb".to_string()))
    );
    assert_eq!(HighLevelApi::res_version_from_login_probe(200, None), Ok(None));
    assert_eq!(
        HighLevelApi::res_version_from_login_probe(503, Some(b"x".to_vec())),
        Err(ResponseError::Status(503))
    );
}

#[test]
fn res_version_never_holds_at() {
    for header in ["a@b@c", "@", "abc", "x@"] {
        let v = HighLevelApi::res_version_from_login_probe(200, Some(header.as_bytes().to_vec())).unwrap().unwrap();
        assert!(!v.contains('@'));
    }
}

#[test]
fn probe_headers() {
    assert_eq!(HighLevelApi::client_version_header(&Some("4.1.0".to_string())), "4.1.0");
    assert_eq!(HighLevelApi::client_version_header(&None), "");
    assert_eq!(HighLevelApi::login_probe_user_agent("inspix-android", &Some("4.1.0".to_string())), "inspix-android/4.1.0");
    assert_eq!(HighLevelApi::login_probe_user_agent("ua", &None), "ua/");
}
