use vstd::prelude::*;
use crate::json::{Json, entry_lookup, take_entry};
use crate::text::{opt_text, all_visible_ascii, ascii_text, before_first, header_text_before_at};

verus! {

/// The status code of a successful response.
pub const STATUS_OK: u16 = 200;

/// A response member that a call depends on.
#[derive(Clone, Copy, PartialEq, Eq, Debug)]
pub enum Member {
    DeviceSpecificId,
    SessionToken,
    TrailerArchiveList,
    LiveArchiveList,
    ArchiveList,
    AudienceToken,
}

/// Why a response was refused.
#[derive(Clone, Copy, PartialEq, Eq, Debug)]
pub enum ResponseError {
    /// The server answered with a status other than 200 OK.
    Status(u16),
    /// A member that the call needs is absent, or not of the expected kind.
    Missing(Member),
    /// A member that the call needs is absent or empty.
    Empty(Member),
}

/// The text result of a call, read through the view of its string.
pub open spec fn text_result(r: Result<String, ResponseError>) -> Result<Seq<char>, ResponseError> {
    match r {
        Ok(s) => Ok(s@),
        Err(e) => Err(e),
    }
}

/// Refuses every status but 200 OK.
pub fn expect_ok(status: u16) -> (r: Result<(), ResponseError>)
    ensures
        status == STATUS_OK ==> r is Ok,
        status != STATUS_OK ==> r == Err::<(), ResponseError>(ResponseError::Status(status)),
{
    if status != STATUS_OK {
        Err(ResponseError::Status(status))
    } else {
        Ok(())
    }
}

/// What a login call yields: the non-empty string member `key` of a 200 OK
/// body; a missing, non-string or empty member counts as empty.
pub open spec fn spec_login_value(status: u16, body: Json, key: Seq<char>, member: Member) -> Result<Seq<char>, ResponseError> {
    if status != STATUS_OK {
        Err(ResponseError::Status(status))
    } else {
        match body.str_field(key) {
            Some(s) => if s.len() > 0 {
                Ok(s)
            } else {
                Err(ResponseError::Empty(member))
            },
            None => Err(ResponseError::Empty(member)),
        }
    }
}

fn login_value(status: u16, body: &Json, key: &str, member: Member) -> (r: Result<String, ResponseError>)
    ensures
        text_result(r) == spec_login_value(status, *body, key@, member),
{
    if status != STATUS_OK {
        return Err(ResponseError::Status(status));
    }
    match body.get(key) {
        Some(v) => match v.as_str() {
            Some(s) => if s.as_str().is_empty() {
                Err(ResponseError::Empty(member))
            } else {
                Ok(s.clone())
            },
            None => Err(ResponseError::Empty(member)),
        },
        None => Err(ResponseError::Empty(member)),
    }
}

/// What a connect-token call yields: the string member `audience_token` of a
/// 200 OK body, which may be empty.
pub open spec fn spec_connect_token(status: u16, body: Json) -> Result<Seq<char>, ResponseError> {
    if status != STATUS_OK {
        Err(ResponseError::Status(status))
    } else {
        match body.str_field("audience_token"@) {
            Some(s) => Ok(s),
            None => Err(ResponseError::Missing(Member::AudienceToken)),
        }
    }
}

fn connect_token(status: u16, body: &Json) -> (r: Result<String, ResponseError>)
    ensures
        text_result(r) == spec_connect_token(status, *body),
{
    if status != STATUS_OK {
        return Err(ResponseError::Status(status));
    }
    match body.get("audience_token") {
        Some(v) => match v.as_str() {
            Some(s) => Ok(s.clone()),
            None => Err(ResponseError::Missing(Member::AudienceToken)),
        },
        None => Err(ResponseError::Missing(Member::AudienceToken)),
    }
}

/// The lengths and first characters of the member names that the calls read,
/// which tell them apart.
proof fn lemma_member_names()
    ensures
        "room"@.len() == 4 && "room"@[0] == 'r',
        "name"@.len() == 4 && "name"@[0] == 'n',
        "description"@.len() == 11,
        "cover_image_url"@.len() == 15,
        "characters"@.len() == 10,
        "hls"@.len() == 3,
        "trailer_archive_list"@.len() == 20,
        "live_archive_list"@.len() == 17,
{
    reveal_strlit("room");
    reveal_strlit("name");
    reveal_strlit("description");
    reveal_strlit("cover_image_url");
    reveal_strlit("characters");
    reveal_strlit("hls");
    reveal_strlit("trailer_archive_list");
    reveal_strlit("live_archive_list");
}

/// Takes the member `key` out of an object's members; it must be there.
fn take_present(entries: &mut Vec<(String, Json)>, key: &str) -> (r: Json)
    requires
        entry_lookup(old(entries)@, key@) is Some,
    ensures
        Some(r) == entry_lookup(old(entries)@, key@),
        forall|k: Seq<char>| k != key@ ==> entry_lookup(final(entries)@, k) == entry_lookup(old(entries)@, k),
{
    match take_entry(entries, key) {
        Some(v) => v,
        None => vstd::pervasive::unreached(),
    }
}

/// Whether the members are, in order, the named values listed.
pub open spec fn members_are(entries: Seq<(String, Json)>, expected: Seq<(Seq<char>, Json)>) -> bool {
    &&& entries.len() == expected.len()
    &&& forall|i: int| 0 <= i < entries.len() ==> (#[trigger] entries[i]).0@ == expected[i].0 && entries[i].1 == expected[i].1
}

/// Whether `j` is an object.
pub open spec fn is_object(j: Json) -> bool {
    j is Object
}

/// The member `key` of `j`, which must be present.
pub open spec fn member(j: Json, key: Seq<char>) -> Json {
    j.field(key).unwrap()
}

/// The shape of a "with meets" room description that the summary reads.
pub open spec fn with_meets_shape(body: Json) -> bool {
    &&& body.field("room"@) matches Some(room) && is_object(room)
    &&& body.str_field("name"@) is Some
    &&& body.str_field("description"@) is Some
    &&& body.str_field("cover_image_url"@) is Some
    &&& body.array_field("characters"@) is Some
    &&& body.field("hls"@) matches Some(hls) && is_object(hls) && hls.str_field("url"@) is Some
}

/// The summary of a "with meets" room: its room, name, description,
/// thumbnail (the cover image), characters and stream address.
pub open spec fn with_meets_summary(body: Json) -> Seq<(Seq<char>, Json)> {
    seq![
        ("room"@, member(body, "room"@)),
        ("name"@, member(body, "name"@)),
        ("description"@, member(body, "description"@)),
        ("thumbnail"@, member(body, "cover_image_url"@)),
        ("characters"@, member(body, "characters"@)),
        ("hls_url"@, member(member(body, "hls"@), "url"@)),
    ]
}

/// The shape of a fes live room description that the summary reads.
pub open spec fn fes_live_shape(body: Json) -> bool {
    &&& body.field("room"@) matches Some(room) && is_object(room)
    &&& body.str_field("name"@) is Some
    &&& body.str_field("description"@) is Some
    &&& body.array_field("characters"@) is Some
}

/// The summary of a fes live room: its room, name, description and characters.
pub open spec fn fes_live_summary(body: Json) -> Seq<(Seq<char>, Json)> {
    seq![
        ("room"@, member(body, "room"@)),
        ("name"@, member(body, "name"@)),
        ("description"@, member(body, "description"@)),
        ("characters"@, member(body, "characters"@)),
    ]
}

/// The stream address of an archive: the archive's path and playlist file
/// joined by a slash.
pub open spec fn spec_hls_url(body: Json) -> Seq<char> {
    body.str_field("path"@).unwrap() + "/"@ + body.str_field("playlist_file"@).unwrap()
}

/// What searching `text` for the leftmost match of the regular expression
/// `pattern` gives for capture group `group`: nothing when the pattern does not
/// compile; otherwise the group's text, or nothing when there is no match or
/// the group took no part in it.
pub uninterp spec fn regex_capture(pattern: Seq<char>, text: Seq<char>, group: usize) -> Option<Option<Seq<char>>>;

/// The text of a capture, if any.
pub open spec fn capture_text(c: Option<Option<String>>) -> Option<Option<Seq<char>>> {
    match c {
        Some(Some(s)) => Some(Some(s@)),
        Some(None) => Some(None),
        None => None,
    }
}

/// Compiles `pattern` with `regex::Regex::new`, searches `text` with
/// `Regex::captures`, and reads group `group` with `Captures::get` and
/// `Match::as_str`; a pattern that `Regex::new` refuses gives `None`. The
/// contract says only that the result is the one these calls determine.
#[verifier::external_body]
fn regex_capture_group(pattern: &str, text: &str, group: usize) -> (r: Option<Option<String>>)
    ensures
        capture_text(r) == regex_capture(pattern@, text@, group),
{
    match regex::Regex::new(pattern) {
        Ok(re) => match re.captures(text) {
            Some(cap) => match cap.get(group) {
                Some(m) => Some(Some(m.as_str().to_string())),
                None => Some(None),
            },
            None => Some(None),
        },
        Err(_) => None,
    }
}

/// The pattern of the app version that a store page's embedded JSON
/// displays: `\"versionDisplay\":\"` and three dot-separated numbers (group 1),
/// followed by a backslash.
pub open spec fn store_page_version_pattern() -> Seq<char> {
    r#"\\"versionDisplay\\":\\"(\d+\.\d+\.\d+)\\"#@
}

/// The regular-expression library refused the store-page version pattern.
#[derive(Clone, Copy, PartialEq, Eq, Debug)]
pub struct PatternRefused;

/// The resource version that a login probe reports: the text of the
/// `x-res-version` header before its first `@`, empty when the header is not
/// visible ASCII, nothing when the header is absent.
pub open spec fn spec_res_version(header: Option<Seq<u8>>) -> Option<Seq<char>> {
    match header {
        Some(bytes) => Some(
            if all_visible_ascii(bytes) {
                ascii_text(before_first(bytes, 64))
            } else {
                Seq::empty()
            },
        ),
        None => None,
    }
}

/// The bytes of an optional byte vector.
pub open spec fn opt_bytes(b: Option<Vec<u8>>) -> Option<Seq<u8>> {
    match b {
        Some(v) => Some(v@),
        None => None,
    }
}

/// The text of an optional string, empty when absent.
pub open spec fn text_or_empty(s: Option<String>) -> Seq<char> {
    match s {
        Some(t) => t@,
        None => Seq::empty(),
    }
}

/// The response half of the high-level game API: each function takes the
/// status and decoded body of one call's response and yields what the call returns.
pub struct HighLevelApi;

/// The response half of the asset-server API.
pub struct AssetsApi;

impl HighLevelApi {
    /// Finds the app version that the app-store page displays: group 1 of the
    /// store-page version pattern's leftmost match.
    pub fn app_version_from_store_page(html: &str) -> (r: Result<Option<String>, PatternRefused>)
        ensures
            match regex_capture(store_page_version_pattern(), html@, 1) {
                Some(v) => (r matches Ok(x) && opt_text(x) == v),
                None => r == Err::<Option<String>, PatternRefused>(PatternRefused),
            },
    {
        let pattern = r#"\\"versionDisplay\\":\\"(\d+\.\d+\.\d+)\\"#;
        match regex_capture_group(pattern, html, 1) {
            Some(found) => Ok(found),
            None => Err(PatternRefused),
        }
    }

    /// Reads the resource version out of the answer to the empty-id login
    /// probe, given its status and its first `x-res-version` header value.
    pub fn res_version_from_login_probe(status: u16, header: Option<Vec<u8>>) -> (r: Result<Option<String>, ResponseError>)
        ensures
            status != STATUS_OK ==> r == Err::<Option<String>, ResponseError>(ResponseError::Status(status)),
            status == STATUS_OK ==> (r matches Ok(v) && opt_text(v) == spec_res_version(opt_bytes(header))),
    {
        if status != STATUS_OK {
            return Err(ResponseError::Status(status));
        }
        match header {
            Some(bytes) => Ok(Some(header_text_before_at(&bytes))),
            None => Ok(None),
        }
    }

    /// The `x-client-version` header of the login probe: the app version, or
    /// an empty text when it is unknown.
    pub fn client_version_header(app_version: &Option<String>) -> (h: String)
        ensures
            h@ == text_or_empty(*app_version),
    {
        match app_version {
            Some(v) => v.clone(),
            None => String::new(),
        }
    }

    /// The user agent of the login probe: the client's agent prefix, a slash,
    /// and the app version (empty when unknown).
    pub fn login_probe_user_agent(ua_prefix: &str, app_version: &Option<String>) -> (h: String)
        ensures
            h@ == ua_prefix@ + "/"@ + text_or_empty(*app_version),
    {
        let mut h = String::from_str(ua_prefix);
        h.append("/");
        let v = Self::client_version_header(app_version);
        h.append(v.as_str());
        h
    }

    /// Reads the device-specific id out of an account-connect response; a
    /// refused call or an empty id is an error.
    pub fn password_login(status: u16, body: &Json) -> (r: Result<String, ResponseError>)
        ensures
            text_result(r) == spec_login_value(status, *body, "device_specific_id"@, Member::DeviceSpecificId),
    {
        login_value(status, body, "device_specific_id", Member::DeviceSpecificId)
    }

    /// Reads the session token out of a user-login response; a refused call or
    /// an empty token is an error.
    pub fn device_id_login(status: u16, body: &Json) -> (r: Result<String, ResponseError>)
        ensures
            text_result(r) == spec_login_value(status, *body, "session_token"@, Member::SessionToken),
    {
        login_value(status, body, "session_token", Member::SessionToken)
    }

    /// Reads the audience token out of a "with meets" connect-token response.
    pub fn get_with_meets_connect_token(status: u16, body: &Json) -> (r: Result<String, ResponseError>)
        ensures
            text_result(r) == spec_connect_token(status, *body),
    {
        connect_token(status, body)
    }

    /// Reads the audience token out of a fes live connect-token response.
    pub fn get_fes_live_connect_token(status: u16, body: &Json) -> (r: Result<String, ResponseError>)
        ensures
            text_result(r) == spec_connect_token(status, *body),
    {
        connect_token(status, body)
    }

    /// Passes a petal-exchange listing through when the call succeeded.
    pub fn get_petal_exchange_list(status: u16, body: Json) -> (r: Result<Json, ResponseError>)
        ensures
            status != STATUS_OK ==> r == Err::<Json, ResponseError>(ResponseError::Status(status)),
            status == STATUS_OK ==> r == Ok::<Json, ResponseError>(body),
    {
        if status != STATUS_OK {
            Err(ResponseError::Status(status))
        } else {
            Ok(body)
        }
    }

    /// Takes the archive list out of an archive-list response.
    pub fn get_archive_list(status: u16, body: Json) -> (r: Result<Json, ResponseError>)
        ensures
            status != STATUS_OK ==> r == Err::<Json, ResponseError>(ResponseError::Status(status)),
            status == STATUS_OK ==> r == match body.field("archive_list"@) {
                Some(list) => Ok::<Json, ResponseError>(list),
                None => Err(ResponseError::Missing(Member::ArchiveList)),
            },
    {
        if status != STATUS_OK {
            return Err(ResponseError::Status(status));
        }
        match body {
            Json::Object(mut entries) => match take_entry(&mut entries, "archive_list") {
                Some(list) => Ok(list),
                None => Err(ResponseError::Missing(Member::ArchiveList)),
            },
            _ => Err(ResponseError::Missing(Member::ArchiveList)),
        }
    }

    /// Joins the live archives and the trailer archives of a home response into
    /// one list, live archives first.
    pub fn get_plan_list(status: u16, body: Json) -> (r: Result<Json, ResponseError>)
        requires
            status == STATUS_OK && body.field("trailer_archive_list"@) is Some
                && body.field("live_archive_list"@) is Some ==> body.array_field("trailer_archive_list"@) is Some
                && body.array_field("live_archive_list"@) is Some,
        ensures
            status != STATUS_OK ==> r == Err::<Json, ResponseError>(ResponseError::Status(status)),
            status == STATUS_OK && body.field("trailer_archive_list"@) is None ==> r == Err::<Json, ResponseError>(
                ResponseError::Missing(Member::TrailerArchiveList)),
            status == STATUS_OK && body.field("trailer_archive_list"@) is Some && body.field("live_archive_list"@) is None
                ==> r == Err::<Json, ResponseError>(ResponseError::Missing(Member::LiveArchiveList)),
            status == STATUS_OK && body.field("trailer_archive_list"@) is Some && body.field("live_archive_list"@) is Some
                ==> (r matches Ok(list) && list.items() == Some(
                    body.array_field("live_archive_list"@).unwrap() + body.array_field("trailer_archive_list"@).unwrap())),
    {
        if status != STATUS_OK {
            return Err(ResponseError::Status(status));
        }
        proof {
            lemma_member_names();
        }
        match body {
            Json::Object(mut entries) => {
                let trailer = match take_entry(&mut entries, "trailer_archive_list") {
                    Some(t) => t,
                    None => { return Err(ResponseError::Missing(Member::TrailerArchiveList)); },
                };
                let live = match take_entry(&mut entries, "live_archive_list") {
                    Some(l) => l,
                    None => { return Err(ResponseError::Missing(Member::LiveArchiveList)); },
                };
                match (live, trailer) {
                    (Json::Array(mut live_items), Json::Array(mut trailer_items)) => {
                        live_items.append(&mut trailer_items);
                        Ok(Json::Array(live_items))
                    },
                    _ => vstd::pervasive::unreached(),
                }
            },
            _ => Err(ResponseError::Missing(Member::TrailerArchiveList)),
        }
    }

    /// Summarises a "with meets" room: room, name, description, thumbnail
    /// (the cover image), characters and the stream address.
    pub fn get_with_meets_info(status: u16, body: Json) -> (r: Result<Json, ResponseError>)
        requires
            status == STATUS_OK ==> with_meets_shape(body),
        ensures
            status != STATUS_OK ==> r == Err::<Json, ResponseError>(ResponseError::Status(status)),
            status == STATUS_OK ==> (r matches Ok(Json::Object(e)) && members_are(e@, with_meets_summary(body))),
    {
        if status != STATUS_OK {
            return Err(ResponseError::Status(status));
        }
        proof {
            lemma_member_names();
        }
        match body {
            Json::Object(mut entries) => {
                let room = take_present(&mut entries, "room");
                let name = take_present(&mut entries, "name");
                let description = take_present(&mut entries, "description");
                let thumbnail = take_present(&mut entries, "cover_image_url");
                let characters = take_present(&mut entries, "characters");
                let hls = take_present(&mut entries, "hls");
                let hls_url = match hls {
                    Json::Object(mut hls_entries) => take_present(&mut hls_entries, "url"),
                    _ => vstd::pervasive::unreached(),
                };
                let mut out: Vec<(String, Json)> = Vec::new();
                out.push((String::from_str("room"), room));
                out.push((String::from_str("name"), name));
                out.push((String::from_str("description"), description));
                out.push((String::from_str("thumbnail"), thumbnail));
                out.push((String::from_str("characters"), characters));
                out.push((String::from_str("hls_url"), hls_url));
                assert(members_are(out@, with_meets_summary(body)));
                Ok(Json::Object(out))
            },
            _ => vstd::pervasive::unreached(),
        }
    }

    /// Summarises a fes live room: room, name, description and characters.
    pub fn get_fes_live_info(status: u16, body: Json) -> (r: Result<Json, ResponseError>)
        requires
            status == STATUS_OK ==> fes_live_shape(body),
        ensures
            status != STATUS_OK ==> r == Err::<Json, ResponseError>(ResponseError::Status(status)),
            status == STATUS_OK ==> (r matches Ok(Json::Object(e)) && members_are(e@, fes_live_summary(body))),
    {
        if status != STATUS_OK {
            return Err(ResponseError::Status(status));
        }
        proof {
            lemma_member_names();
        }
        match body {
            Json::Object(mut entries) => {
                let room = take_present(&mut entries, "room");
                let name = take_present(&mut entries, "name");
                let description = take_present(&mut entries, "description");
                let characters = take_present(&mut entries, "characters");
                let mut out: Vec<(String, Json)> = Vec::new();
                out.push((String::from_str("room"), room));
                out.push((String::from_str("name"), name));
                out.push((String::from_str("description"), description));
                out.push((String::from_str("characters"), characters));
                assert(members_are(out@, fes_live_summary(body)));
                Ok(Json::Object(out))
            },
            _ => vstd::pervasive::unreached(),
        }
    }
}

impl AssetsApi {
    /// Resolves an archive description into the address of its HLS playlist.
    pub fn get_hls_url_from_archive(status: u16, body: &Json) -> (r: Result<String, ResponseError>)
        requires
            status == STATUS_OK ==> body.str_field("path"@) is Some && body.str_field("playlist_file"@) is Some,
        ensures
            status != STATUS_OK ==> r == Err::<String, ResponseError>(ResponseError::Status(status)),
            status == STATUS_OK ==> text_result(r) == Ok::<Seq<char>, ResponseError>(spec_hls_url(*body)),
    {
        if status != STATUS_OK {
            return Err(ResponseError::Status(status));
        }
        let path = body.str_at("path");
        let playlist = body.str_at("playlist_file");
        let mut url = path.clone();
        url.append("/");
        url.append(playlist.as_str());
        Ok(url)
    }
}

} // verus!
