//! What the requests to a Jellyfin server say, and what its answers become. Each law speaks of a
//! call by its arguments and its result alone.

use vstd::prelude::*;

use crate::backend::{lemma_elements, BackendError, BinaryBody};
use crate::config::{SettingView, Settings};
use crate::foreign::json_object;
use crate::jellyfin::api::{
    all_pieces, deserialize_items_skip_errors, effective_genres, genre_names,
    lemma_all_pieces_of_concat, lowered, AuthenticateResponse, ImageType, MusicDto, MusicDtoList,
    PlaybackReport, PlaybackReportStatus,
};
use crate::jellyfin::library::{additional_pages, concurrent_requests, page_start};
use crate::jellyfin::requests::{image_base_size, initiate_quick_connect, quick_connect_status};
use crate::jellyfin::{get_hostname, user_agent, Body, Device, HttpRequest, Jellyfin, Method};
use crate::subsonic::laws::{lemma_says, says};
use crate::text;

verus! {

broadcast use vstd::string::group_string_axioms;

/// A user has the host, the token and the identifier that were given, or that the server gave.
pub proof fn law_user_is_made(
    host: &str,
    token: &str,
    user_id: &str,
    response: AuthenticateResponse,
    made: Jellyfin,
    by_name: Jellyfin,
    by_code: Jellyfin,
)
    requires
        call_ensures(Jellyfin::new, (host, token, user_id), made),
        call_ensures(Jellyfin::new_authenticate, (host, response), by_name),
        call_ensures(Jellyfin::new_authenticate_quick_connect, (host, response), by_code),
    ensures
        made.host@ == host@ && made.token@ == token@ && made.user_id@ == user_id@,
        by_name.host@ == host@ && by_name.token@ == response.access_token@ && by_name.user_id@
            == response.user.id@,
        by_code.host@ == host@ && by_code.token@ == response.access_token@ && by_code.user_id@
            == response.user.id@,
{
}

/// A user is authenticated exactly with a host, a token and an identifier.
pub proof fn law_user_is_authenticated(user: &Jellyfin, r: bool)
    requires
        call_ensures(Jellyfin::is_authenticated, (user,), r),
    ensures
        r <==> user.host@.len() > 0 && user.token@.len() > 0 && user.user_id@.len() > 0,
{
}

/// The device has the name that the system gives it, trimmed, or a name of the player's.
pub proof fn law_device_has_a_name(read: Option<String>, version: &str, r: String, agent: String)
    requires
        call_ensures(get_hostname, (read,), r),
        call_ensures(user_agent, (version,), agent),
    ensures
        read matches Some(name) ==> r@ == text::trimmed(name@),
        read is None ==> r@ == "Gelly-Device"@,
        agent@ == "Gelly/"@ + version@,
{
    reveal_strlit("Gelly-Device");
    assert("Gelly-Device"@[0] == 'G' && "Gelly-Device"@.last() == 'e');
    text::lemma_trimmed_stays("Gelly-Device"@);
}

/// The header names the player, the device, its identifier and the version, and the token where
/// there is one.
pub proof fn law_header_names_device_and_token(user: &Jellyfin, device: &Device, r: String)
    requires
        call_ensures(Jellyfin::auth_header, (user, device), r),
    ensures
        ({
            let client = "MediaBrowser Client=\"Gelly\", Device=\""@ + device.hostname@
                + "\", DeviceId=\""@ + device.uuid@ + "\", Version=\""@ + device.version@ + "\""@;
            &&& user.token@.len() == 0 ==> r@ == client
            &&& user.token@.len() > 0 ==> r@ == client + ", Token=\""@ + user.token@ + "\""@
        }),
{
    reveal_strlit("MediaBrowser Client=\"");
    reveal_strlit("Gelly");
    reveal_strlit("\", Device=\"");
    reveal_strlit("MediaBrowser Client=\"Gelly\", Device=\"");
    assert("MediaBrowser Client=\""@ + "Gelly"@ + "\", Device=\""@
        =~= "MediaBrowser Client=\"Gelly\", Device=\""@);
}

/// Whether a request of a user goes to a path of the host, under the user's header. The host is
/// taken without the slashes it ends with.
pub open spec fn goes_to(
    request: HttpRequest,
    method: Method,
    user: Jellyfin,
    device: Device,
    path: Seq<char>,
) -> bool {
    &&& request.method == method
    &&& request.url@ == text::without_trailing_slashes(user.host@) + "/"@ + path
    &&& forall|header: String|
        call_ensures(Jellyfin::auth_header, (&user, &device), header) ==> request.authorization@
            == #[trigger] header@
}

/// What is asked of the server in general goes to the endpoint, whole.
pub proof fn law_requests_are_whole(
    user: &Jellyfin,
    device: &Device,
    endpoint: &str,
    params: Vec<(String, String)>,
    body: Body,
    got: HttpRequest,
    posted: HttpRequest,
    posted_json: HttpRequest,
    deleted: HttpRequest,
    url: String,
)
    requires
        endpoint@.len() > 0 ==> endpoint@[0] != '/',
        call_ensures(Jellyfin::get, (user, device, endpoint, params), got),
        call_ensures(Jellyfin::post, (user, device, endpoint, params), posted),
        call_ensures(Jellyfin::post_json, (user, device, endpoint, body), posted_json),
        call_ensures(Jellyfin::delete, (user, device, endpoint, params), deleted),
        call_ensures(Jellyfin::format_url, (user, endpoint), url),
    ensures
        url@ == text::without_trailing_slashes(user.host@) + "/"@ + endpoint@,
        goes_to(got, Method::Get, *user, *device, endpoint@),
        goes_to(posted, Method::Post, *user, *device, endpoint@),
        goes_to(posted_json, Method::Post, *user, *device, endpoint@),
        goes_to(deleted, Method::Delete, *user, *device, endpoint@),
        got.body is Empty && deleted.body is Empty,
        posted.body matches Body::Text(text) && text@.len() == 0,
        posted_json.body.deep_view() == body.deep_view(),
        posted_json.params@.len() == 0,
        got.params@.len() == params@.len(),
        posted.params@.len() == params@.len(),
        deleted.params@.len() == params@.len(),
        forall|i: int|
            0 <= i < params@.len() ==> {
                let name = (#[trigger] params@[i]).0@;
                let value = params@[i].1@;
                says(got.params@[i], name, value) && says(posted.params@[i], name, value) && says(
                    deleted.params@[i],
                    name,
                    value,
                )
            },
{
    lemma_says(params);
    lemma_says(got.params);
    lemma_says(posted.params);
    lemma_says(deleted.params);
    lemma_elements(posted_json.params);
    assert forall|i: int| 0 <= i < params@.len() implies {
        let name = (#[trigger] params@[i]).0@;
        let value = params@[i].1@;
        says(got.params@[i], name, value) && says(posted.params@[i], name, value) && says(
            deleted.params@[i],
            name,
            value,
        )
    } by {
        assert(got.params.deep_view()[i] == params.deep_view()[i]);
        assert(posted.params.deep_view()[i] == params.deep_view()[i]);
        assert(deleted.params.deep_view()[i] == params.deep_view()[i]);
    }
}

/// The endpoints that start with a letter keep that start.
proof fn lemma_kept_start(word: Seq<char>, rest: Seq<char>)
    requires
        word.len() > 0,
        word[0] != '/',
    ensures
        text::without_leading_slashes(word + rest) == word + rest,
        text::without_leading_slashes(word) == word,
{
}

/// What is read is asked for at the endpoint of what it is, for the item that it is asked of.
pub proof fn law_reading_requests(
    user: &Jellyfin,
    device: &Device,
    id: &str,
    views: HttpRequest,
    playlists: HttpRequest,
    favorites: HttpRequest,
    items: HttpRequest,
    info: HttpRequest,
    lyrics: HttpRequest,
)
    requires
        call_ensures(Jellyfin::get_views, (user, device), views),
        call_ensures(Jellyfin::get_playlists, (user, device), playlists),
        call_ensures(Jellyfin::get_favorites, (user, device), favorites),
        call_ensures(Jellyfin::get_playlist_items, (user, device, id), items),
        call_ensures(Jellyfin::get_playback_info, (user, device, id), info),
        call_ensures(Jellyfin::fetch_lyrics, (user, device, id), lyrics),
    ensures
        goes_to(views, Method::Get, *user, *device, "UserViews"@),
        goes_to(playlists, Method::Get, *user, *device, "Items"@),
        goes_to(favorites, Method::Get, *user, *device, "Items"@),
        goes_to(items, Method::Get, *user, *device, "Playlists/"@ + id@ + "/Items"@),
        goes_to(info, Method::Get, *user, *device, "Items/"@ + id@ + "/PlaybackInfo"@),
        goes_to(lyrics, Method::Get, *user, *device, "Audio/"@ + id@ + "/Lyrics"@),
        says(playlists.params@[0], "IncludeItemTypes"@, "Playlist"@),
        says(favorites.params@[0], "IncludeItemTypes"@, "Playlist,Audio,MusicAlbum,MusicArtist"@),
        says(favorites.params@[7], "Filters"@, "IsFavorite"@),
        says(items.params@[0], "fields"@, "DateCreated,Genres"@),
        views.params@.len() == 0 && info.params@.len() == 0 && lyrics.params@.len() == 0,
{
    reveal_strlit("UserViews");
    reveal_strlit("Items");
    reveal_strlit("Items/");
    reveal_strlit("Playlists/");
    reveal_strlit("Audio/");
    lemma_kept_start("UserViews"@, seq![]);
    lemma_kept_start("Items"@, seq![]);
    lemma_kept_start("Playlists/"@ + id@, "/Items"@);
    lemma_kept_start("Items/"@ + id@, "/PlaybackInfo"@);
    lemma_kept_start("Audio/"@ + id@, "/Lyrics"@);
    lemma_elements(views.params);
    lemma_elements(info.params);
    lemma_elements(lyrics.params);
    lemma_says(playlists.params);
    lemma_says(favorites.params);
    lemma_says(items.params);
    assert(playlists.params.deep_view()[0].0 == "IncludeItemTypes"@);
    assert(favorites.params.deep_view()[0].0 == "IncludeItemTypes"@);
    assert(favorites.params.deep_view()[7].0 == "Filters"@);
    assert(items.params.deep_view()[0].0 == "fields"@);
}

/// A page of a library is asked for by the library, the index that it starts at and its length.
pub proof fn law_page_is_asked_for(
    user: &Jellyfin,
    device: &Device,
    library_id: &str,
    start: u64,
    limit: u64,
    r: HttpRequest,
)
    requires
        call_ensures(Jellyfin::get_library_page, (user, device, library_id, start, limit), r),
    ensures
        goes_to(r, Method::Get, *user, *device, "Items"@),
        r.params@.len() == 10,
        says(r.params@[0], "parentId"@, library_id@),
        says(r.params@[1], "IncludeItemTypes"@, "Audio"@),
        says(r.params@[2], "sortBy"@, "DateCreated"@),
        says(r.params@[3], "sortOrder"@, "Descending"@),
        says(r.params@[4], "recursive"@, "true"@),
        says(r.params@[8], "StartIndex"@, text::decimal(start as nat)),
        says(r.params@[9], "Limit"@, text::decimal(limit as nat)),
{
    reveal_strlit("Items");
    lemma_kept_start("Items"@, seq![]);
    lemma_says(r.params);
    let v = r.params.deep_view();
    assert(v[0].0 == "parentId"@ && v[1].0 == "IncludeItemTypes"@ && v[2].0 == "sortBy"@);
    assert(v[3].0 == "sortOrder"@ && v[4].0 == "recursive"@);
    assert(v[8].0 == "StartIndex"@ && v[9].0 == "Limit"@);
}

/// Every song is added to the playlist by its identifier.
pub proof fn law_songs_are_added(
    user: &Jellyfin,
    device: &Device,
    playlist_id: &str,
    items: &[String],
    r: HttpRequest,
)
    requires
        call_ensures(Jellyfin::add_playlist_items, (user, device, playlist_id, items), r),
    ensures
        goes_to(r, Method::Post, *user, *device, "Playlists/"@ + playlist_id@ + "/Items"@),
        r.params@.len() == 2,
        says(r.params@[0], "ids"@, text::joined(items.deep_view(), ","@)),
        says(r.params@[1], "userId"@, user.user_id@),
{
    reveal_strlit("Playlists/");
    lemma_kept_start("Playlists/"@ + playlist_id@, "/Items"@);
    lemma_says(r.params);
    assert(r.params.deep_view()[0].0 == "ids"@);
    assert(r.params.deep_view()[1].0 == "userId"@);
}

/// What is changed is changed at the endpoint of what it is, for the item that it is asked of.
pub proof fn law_changing_requests(
    user: &Jellyfin,
    device: &Device,
    playlist_id: &str,
    id: &str,
    index: i32,
    moved: HttpRequest,
    removed: HttpRequest,
    deleted: HttpRequest,
    marked: HttpRequest,
    unmarked: HttpRequest,
    rescanned: HttpRequest,
)
    requires
        call_ensures(Jellyfin::move_playlist_item, (user, device, playlist_id, id, index), moved),
        call_ensures(Jellyfin::remove_playlist_item, (user, device, playlist_id, id), removed),
        call_ensures(Jellyfin::delete_item, (user, device, id), deleted),
        call_ensures(Jellyfin::set_favorite, (user, device, id, true), marked),
        call_ensures(Jellyfin::set_favorite, (user, device, id, false), unmarked),
        call_ensures(Jellyfin::request_library_rescan, (user, device, id), rescanned),
    ensures
        goes_to(
            moved,
            Method::Post,
            *user,
            *device,
            "Playlists/"@ + playlist_id@ + "/Items/"@ + id@ + "/Move/"@ + text::decimal_int(
                index as int,
            ),
        ),
        goes_to(removed, Method::Delete, *user, *device, "Playlists/"@ + playlist_id@ + "/Items/"@),
        removed.params@.len() == 1 && says(removed.params@[0], "entryIds"@, id@),
        goes_to(deleted, Method::Delete, *user, *device, "Items/"@ + id@),
        goes_to(marked, Method::Post, *user, *device, "UserFavoriteItems/"@ + id@),
        goes_to(unmarked, Method::Delete, *user, *device, "UserFavoriteItems/"@ + id@),
        goes_to(rescanned, Method::Post, *user, *device, "Items/"@ + id@ + "/Refresh"@),
        says(rescanned.params@[0], "itemId"@, id@),
        says(rescanned.params@[1], "Recursive"@, "true"@),
{
    reveal_strlit("Items/");
    reveal_strlit("Playlists/");
    reveal_strlit("UserFavoriteItems/");
    lemma_kept_start(
        "Playlists/"@ + playlist_id@ + "/Items/"@ + id@ + "/Move/"@,
        text::decimal_int(index as int),
    );
    lemma_kept_start("Playlists/"@ + playlist_id@, "/Items/"@);
    lemma_kept_start("Items/"@, id@);
    lemma_kept_start("UserFavoriteItems/"@, id@);
    lemma_kept_start("Items/"@ + id@, "/Refresh"@);
    lemma_says(removed.params);
    lemma_says(rescanned.params);
    assert(removed.params.deep_view()[0].0 == "entryIds"@);
    assert(rescanned.params.deep_view()[0].0 == "itemId"@);
    assert(rescanned.params.deep_view()[1].0 == "Recursive"@);
}

/// A playlist is created with its name and every song that it starts with, in their order, for the
/// user alone.
pub proof fn law_playlist_is_created(
    user: &Jellyfin,
    device: &Device,
    name: &str,
    items: Vec<String>,
    r: HttpRequest,
)
    requires
        call_ensures(Jellyfin::new_playlist, (user, device, name, items), r),
    ensures
        goes_to(r, Method::Post, *user, *device, "Playlists/"@),
        r.body matches Body::NewPlaylist(p) && {
            &&& p.name@ == name@
            &&& p.user_id@ == user.user_id@
            &&& p.media_type@ == "Audio"@
            &&& p.users@.len() == 0
            &&& !p.is_public
            &&& p.ids@.len() == items@.len()
            &&& forall|i: int|
                0 <= i < items@.len() ==> (#[trigger] p.ids@[i])@ == items@[i]@
        },
{
    reveal_strlit("Playlists/");
    lemma_kept_start("Playlists/"@, seq![]);
    if let Body::NewPlaylist(p) = r.body {
        lemma_elements(p.users);
        lemma_elements(p.ids);
        lemma_elements(items);
        assert forall|i: int| 0 <= i < items@.len() implies (#[trigger] p.ids@[i])@
            == items@[i]@ by {
            assert(p.ids.deep_view()[i] == items.deep_view()[i]);
        }
    }
}

/// A log-in sends what it is proved by, and nothing of a user who is not logged in yet.
pub proof fn law_log_in_requests(
    user: &Jellyfin,
    device: &Device,
    host: &str,
    username: &str,
    password: &str,
    secret: &str,
    by_name: HttpRequest,
    by_code: HttpRequest,
    started: HttpRequest,
    asked: HttpRequest,
)
    requires
        call_ensures(Jellyfin::authenticate, (user, device, username, password), by_name),
        call_ensures(
            Jellyfin::new_authenticate_quick_connect_request,
            (user, device, secret),
            by_code,
        ),
        call_ensures(initiate_quick_connect, (device, host), started),
        call_ensures(quick_connect_status, (device, host, secret), asked),
    ensures
        goes_to(by_name, Method::Post, *user, *device, "Users/authenticatebyname"@),
        goes_to(by_code, Method::Post, *user, *device, "Users/authenticatewithquickconnect"@),
        by_name.body matches Body::Json(json) && json@ == json_object(
            seq![("Username"@, username@), ("Pw"@, password@)],
        ),
        by_code.body matches Body::Json(json) && json@ == json_object(seq![("secret"@, secret@)]),
        started.method == Method::Post && started.url@ == text::without_trailing_slashes(host@)
            + "/QuickConnect/Initiate"@,
        asked.method == Method::Get && asked.url@ == text::without_trailing_slashes(host@)
            + "/QuickConnect/Connect"@,
        asked.params@.len() == 1 && says(asked.params@[0], "secret"@, secret@),
{
    reveal_strlit("Users/authenticatebyname");
    reveal_strlit("Users/authenticatewithquickconnect");
    reveal_strlit("QuickConnect/Initiate");
    reveal_strlit("QuickConnect/Connect");
    reveal_strlit("/QuickConnect/Initiate");
    reveal_strlit("/QuickConnect/Connect");
    reveal_strlit("/");
    lemma_kept_start("Users/authenticatebyname"@, seq![]);
    lemma_kept_start("Users/authenticatewithquickconnect"@, seq![]);
    lemma_kept_start("QuickConnect/Initiate"@, seq![]);
    lemma_kept_start("QuickConnect/Connect"@, seq![]);
    lemma_says(asked.params);
    assert(asked.params.deep_view()[0].0 == "secret"@);
    assert("/"@ + "QuickConnect/Initiate"@ =~= "/QuickConnect/Initiate"@);
    assert("/"@ + "QuickConnect/Connect"@ =~= "/QuickConnect/Connect"@);
    let base = text::without_trailing_slashes(host@);
    assert(base + "/"@ + "QuickConnect/Initiate"@ =~= base + "/QuickConnect/Initiate"@);
    assert(base + "/"@ + "QuickConnect/Connect"@ =~= base + "/QuickConnect/Connect"@);
}

/// A picture is asked for by its item and its kind, in its width and height, each at least one
/// pixel: a backdrop within them, any other filling them.
pub proof fn law_picture_is_asked_for(
    user: &Jellyfin,
    device: &Device,
    id: &str,
    image_type: ImageType,
    width: u32,
    height: u32,
    r: HttpRequest,
    size: (u32, u32),
)
    requires
        call_ensures(Jellyfin::get_image, (user, device, id, image_type, width, height), r),
        call_ensures(image_base_size, (image_type,), size),
    ensures
        image_type is Backdrop ==> size == (1920u32, 300u32),
        !(image_type is Backdrop) ==> size == (200u32, 200u32),
        goes_to(
            r,
            Method::Get,
            *user,
            *device,
            "Items/"@ + id@ + "/Images/"@ + match image_type {
                ImageType::Primary => "Primary"@,
                ImageType::Art => "Art"@,
                ImageType::Backdrop => "Backdrop"@,
                ImageType::Banner => "Banner"@,
            },
        ),
        r.params@.len() == 3,
        r.params@[0].0@ == if image_type is Backdrop {
            "maxWidth"@
        } else {
            "fillWidth"@
        },
        r.params@[1].0@ == if image_type is Backdrop {
            "maxHeight"@
        } else {
            "fillHeight"@
        },
        width > 0 ==> r.params@[0].1@ == text::decimal(width as nat),
        width == 0 ==> r.params@[0].1@ == text::decimal(1),
        height > 0 ==> r.params@[1].1@ == text::decimal(height as nat),
        height == 0 ==> r.params@[1].1@ == text::decimal(1),
        says(r.params@[2], "quality"@, "96"@),
{
    reveal_strlit("Items/");
    lemma_kept_start("Items/"@ + id@ + "/Images/"@, image_type.name());
    lemma_says(r.params);
    let v = r.params.deep_view();
    assert(v[0].1.len() >= 0 && v[1].1.len() >= 0);
    assert(v[2].0 == "quality"@);
    assert(says(r.params@[0], v[0].0, v[0].1));
    assert(says(r.params@[1], v[1].0, v[1].1));
}

/// A report goes to the endpoint of what happened, and is the report that was given.
pub proof fn law_report_is_sent_whole(
    user: &Jellyfin,
    device: &Device,
    report: PlaybackReport,
    state: &PlaybackReportStatus,
    r: HttpRequest,
)
    requires
        call_ensures(Jellyfin::playback_report, (user, device, report, state), r),
    ensures
        *state is Started ==> goes_to(r, Method::Post, *user, *device, "Sessions/Playing/"@),
        *state is InProgress ==> goes_to(
            r,
            Method::Post,
            *user,
            *device,
            "Sessions/Playing/Progress"@,
        ),
        *state is Stopped ==> goes_to(r, Method::Post, *user, *device, "Sessions/Playing/Stopped"@),
        r.body matches Body::PlaybackReport(sent) && {
            &&& sent.item_id@ == report.item_id@
            &&& sent.session_id@ == report.session_id@
            &&& sent.play_session_id@ == report.play_session_id@
            &&& sent.can_seek == report.can_seek
            &&& sent.is_paused == report.is_paused
            &&& sent.is_muted == report.is_muted
            &&& sent.position_ticks == report.position_ticks
        },
{
    reveal_strlit("Sessions/Playing/");
    reveal_strlit("");
    reveal_strlit("Progress");
    reveal_strlit("Stopped");
    reveal_strlit("Sessions/Playing/Progress");
    reveal_strlit("Sessions/Playing/Stopped");
    assert("Sessions/Playing/"@ + ""@ =~= "Sessions/Playing/"@);
    assert("Sessions/Playing/"@ + "Progress"@ =~= "Sessions/Playing/Progress"@);
    assert("Sessions/Playing/"@ + "Stopped"@ =~= "Sessions/Playing/Stopped"@);
    lemma_kept_start("Sessions/Playing/"@, ""@);
    lemma_kept_start("Sessions/Playing/"@, "Progress"@);
    lemma_kept_start("Sessions/Playing/"@, "Stopped"@);
}

/// The body of an answer is read where it arrived with a status from 200 to 299. The error is
/// failed authentication for the status 401, and otherwise the status itself.
pub proof fn law_http_answer(
    server: &Jellyfin,
    status: u16,
    body: Result<String, String>,
    r: Result<String, BackendError>,
)
    requires
        call_ensures(Jellyfin::handle_response, (server, status, body), r),
    ensures
        200 <= status <= 299 ==> match body {
            Ok(text) => r is Ok && r->Ok_0@ == text@,
            Err(failure) => r matches Err(BackendError::Transport { message }) && message@
                == failure@,
        },
        status == 401 ==> (r matches Err(BackendError::AuthenticationFailed { message }) && message@
            == match body {
            Ok(text) => text@,
            Err(_) => "Unknown Error"@,
        }),
        !(200 <= status <= 299) && status != 401 ==> (
        r matches Err(BackendError::Http { status: s, message }) && s == status && message@
            == match body {
            Ok(text) => text@,
            Err(_) => "Unknown Error"@,
        }),
{
}

/// Bytes are read where they arrived with a status from 200 to 299, and otherwise the status and
/// the message decide the error.
pub proof fn law_binary_answer(
    server: &Jellyfin,
    status: u16,
    body: BinaryBody,
    r: Result<Vec<u8>, BackendError>,
)
    requires
        call_ensures(Jellyfin::handle_binary_response, (server, status, body), r),
        200 <= status <= 299 <==> body is Bytes,
    ensures
        body matches BinaryBody::Bytes(Ok(bytes)) ==> r is Ok && r->Ok_0@ == bytes@,
        body matches BinaryBody::Bytes(Err(failure)) ==> (
        r matches Err(BackendError::Transport { message }) && message@ == failure@),
        body matches BinaryBody::Message(text) ==> {
            let told = match text {
                Ok(text) => text@,
                Err(_) => "Unknown Error"@,
            };
            if status == 401 {
                r matches Err(BackendError::AuthenticationFailed { message }) && message@ == told
            } else {
                r matches Err(BackendError::Http { status: s, message }) && s == status && message@
                    == told
            }
        },
{
    if r is Ok {
        assert(r->Ok_0.deep_view() =~= r->Ok_0@);
    }
}

/// The bit rate of a stream, where the settings hold a limit in kilobits and a kind of server. A
/// limit of zero is none.
pub open spec fn stream_rate(limit: i32, backend: Seq<char>) -> int {
    if limit == 0 {
        999999999
    } else if backend == "subsonic"@ {
        limit as int
    } else if limit * 1000 > i32::MAX {
        i32::MAX as int
    } else if limit * 1000 < i32::MIN {
        i32::MIN as int
    } else {
        limit * 1000
    }
}

/// The URL of a stream tells the song, the user and what the settings say of the stream: the codec
/// and the container of the profile that they name, and the largest bit rate.
pub proof fn law_stream_is_as_the_settings_say(
    user: &Jellyfin,
    id: &str,
    settings: &Settings,
    limit: i32,
    backend: Seq<char>,
    profile: Seq<char>,
    r: String,
)
    requires
        call_ensures(Jellyfin::get_stream_uri, (user, id, settings), r),
        settings@["max-bitrate"@] == SettingView::Int(limit),
        settings@["backend-type"@] == SettingView::Text(backend),
        settings@["transcoding-profile"@] == SettingView::Text(profile),
    ensures
        ({
            let song = text::without_trailing_slashes(user.host@) + "/Audio/"@ + id@
                + "/universal?ApiKey="@ + user.token@ + "&userId="@ + user.user_id@
                + "&container=flac,opus,mp3,aac,m4a,ogg,wav,webm|opus,webm|webma,webma"@;
            let rate = "&transcodingProtocol=hls&maxStreamingBitrate="@ + text::decimal_int(
                stream_rate(limit, backend),
            );
            &&& profile == "AAC+TS"@ ==> r@ == song + "&audioCodec=aac&transcodingContainer=ts"@
                + rate
            &&& profile != "AAC+TS"@ ==> r@ == song + "&audioCodec=opus&transcodingContainer=mp4"@
                + rate
        }),
{
    reveal_strlit("&container=");
    reveal_strlit("flac,opus,mp3,aac,m4a,ogg,wav,webm|opus,webm|webma,webma");
    reveal_strlit("&container=flac,opus,mp3,aac,m4a,ogg,wav,webm|opus,webm|webma,webma");
    reveal_strlit("&audioCodec=");
    reveal_strlit("&transcodingContainer=");
    reveal_strlit("&transcodingProtocol=");
    reveal_strlit("hls");
    reveal_strlit("&maxStreamingBitrate=");
    reveal_strlit("&transcodingProtocol=hls&maxStreamingBitrate=");
    reveal_strlit("aac");
    reveal_strlit("ts");
    reveal_strlit("opus");
    reveal_strlit("mp4");
    reveal_strlit("&audioCodec=aac&transcodingContainer=ts");
    reveal_strlit("&audioCodec=opus&transcodingContainer=mp4");
    assert("&container="@ + "flac,opus,mp3,aac,m4a,ogg,wav,webm|opus,webm|webma,webma"@
        =~= "&container=flac,opus,mp3,aac,m4a,ogg,wav,webm|opus,webm|webma,webma"@);
    assert("&transcodingProtocol="@ + "hls"@ + "&maxStreamingBitrate="@
        =~= "&transcodingProtocol=hls&maxStreamingBitrate="@);
    assert("&audioCodec="@ + "aac"@ + "&transcodingContainer="@ + "ts"@
        =~= "&audioCodec=aac&transcodingContainer=ts"@);
    assert("&audioCodec="@ + "opus"@ + "&transcodingContainer="@ + "mp4"@
        =~= "&audioCodec=opus&transcodingContainer=mp4"@);
    let start = text::without_trailing_slashes(user.host@) + "/Audio/"@ + id@
        + "/universal?ApiKey="@ + user.token@ + "&userId="@ + user.user_id@;
    let number = text::decimal_int(stream_rate(limit, backend));
    let codec = if profile == "AAC+TS"@ {
        "aac"@
    } else {
        "opus"@
    };
    let container = if profile == "AAC+TS"@ {
        "ts"@
    } else {
        "mp4"@
    };
    assert(r@ == start + "&container="@
        + "flac,opus,mp3,aac,m4a,ogg,wav,webm|opus,webm|webma,webma"@ + "&audioCodec="@ + codec
        + "&transcodingContainer="@ + container + "&transcodingProtocol="@ + "hls"@
        + "&maxStreamingBitrate="@ + number);
    assert(r@ =~= start + ("&container="@
        + "flac,opus,mp3,aac,m4a,ogg,wav,webm|opus,webm|webma,webma"@) + ("&audioCodec="@ + codec
        + "&transcodingContainer="@ + container) + (("&transcodingProtocol="@ + "hls"@
        + "&maxStreamingBitrate="@) + number));
}

/// Settings that name different profiles and agree otherwise give a song different URLs.
pub proof fn law_profiles_give_different_urls(
    user: &Jellyfin,
    id: &str,
    settings: &Settings,
    other: &Settings,
    limit: i32,
    backend: Seq<char>,
    profile: Seq<char>,
    r: String,
    s: String,
)
    requires
        call_ensures(Jellyfin::get_stream_uri, (user, id, settings), r),
        call_ensures(Jellyfin::get_stream_uri, (user, id, other), s),
        settings@["max-bitrate"@] == SettingView::Int(limit),
        settings@["backend-type"@] == SettingView::Text(backend),
        settings@["transcoding-profile"@] == SettingView::Text("AAC+TS"@),
        other@["max-bitrate"@] == SettingView::Int(limit),
        other@["backend-type"@] == SettingView::Text(backend),
        other@["transcoding-profile"@] == SettingView::Text(profile),
        profile != "AAC+TS"@,
    ensures
        r@ != s@,
{
    law_stream_is_as_the_settings_say(user, id, settings, limit, backend, "AAC+TS"@, r);
    law_stream_is_as_the_settings_say(user, id, other, limit, backend, profile, s);
    reveal_strlit("&audioCodec=aac&transcodingContainer=ts");
    reveal_strlit("&audioCodec=opus&transcodingContainer=mp4");
    assert("&audioCodec=aac&transcodingContainer=ts"@.len() == 39);
    assert("&audioCodec=opus&transcodingContainer=mp4"@.len() == 41);
    let song = text::without_trailing_slashes(user.host@) + "/Audio/"@ + id@ + "/universal?ApiKey="@
        + user.token@ + "&userId="@ + user.user_id@
        + "&container=flac,opus,mp3,aac,m4a,ogg,wav,webm|opus,webm|webma,webma"@;
    let rate = "&transcodingProtocol=hls&maxStreamingBitrate="@ + text::decimal_int(
        stream_rate(limit, backend),
    );
    assert(r@.len() == song.len() + 39 + rate.len());
    assert(s@.len() == song.len() + 41 + rate.len());
}

/// As many pages follow the first as it takes to reach every song, and no more. Each starts where
/// the one before it ends, and a slow server is asked for one at a time.
pub proof fn law_pages_are_enough(
    total: u64,
    pages: u64,
    page: u64,
    start: u64,
    seconds: u64,
    at_once: usize,
)
    requires
        call_ensures(additional_pages, (total,), pages),
        call_ensures(page_start, (total, page), start),
        call_ensures(concurrent_requests, (seconds,), at_once),
    ensures
        (pages + 1) * 250 >= total,
        pages > 0 ==> pages * 250 < total,
        start == page * 250,
        seconds >= 1 ==> at_once == 1,
        seconds < 1 ==> at_once == 4,
{
}

/// Every page that arrives adds all of its songs to the library, after those that are there, and a
/// page that does not arrive adds none. The server's count stays.
pub proof fn law_library_takes_every_page(
    server: &Jellyfin,
    first_page: MusicDtoList,
    pages: Vec<Result<MusicDtoList, BackendError>>,
    more: Vec<Result<MusicDtoList, BackendError>>,
    page: Result<MusicDtoList, BackendError>,
    r: MusicDtoList,
    grown: MusicDtoList,
)
    requires
        call_ensures(Jellyfin::get_library, (server, first_page, pages), r),
        call_ensures(Jellyfin::get_library, (server, first_page, more), grown),
        more@ == pages@.push(page),
    ensures
        r.total_record_count == first_page.total_record_count,
        pages@.len() == 0 ==> r.items.deep_view() == first_page.items.deep_view(),
        page matches Ok(p) ==> grown.items.deep_view() == r.items.deep_view()
            + p.items.deep_view(),
        page is Err ==> grown.items.deep_view() == r.items.deep_view(),
        page matches Ok(p) ==> grown.items@.len() == r.items@.len() + p.items@.len(),
        forall|i: int|
            0 <= i < r.items@.len() ==> (#[trigger] grown.items@[i]).id@ == r.items@[i].id@,
        page matches Ok(p) ==> forall|i: int|
            0 <= i < p.items@.len() ==> grown.items@[r.items@.len() + i].id@ == (
            #[trigger] p.items@[i]).id@,
{
    lemma_elements(first_page.items);
    lemma_elements(r.items);
    lemma_elements(grown.items);
    assert(more@.drop_last() =~= pages@);
    if pages@.len() == 0 {
        assert(r.items.deep_view() =~= first_page.items.deep_view());
    }
    if let Ok(p) = page {
        lemma_elements(p.items);
        assert(grown.items.deep_view() =~= r.items.deep_view() + p.items.deep_view());
        assert forall|i: int| 0 <= i < p.items@.len() implies grown.items@[r.items@.len() + i].id@
            == (#[trigger] p.items@[i]).id@ by {
            assert(grown.items.deep_view()[r.items@.len() + i] == p.items.deep_view()[i]);
            assert(p.items.deep_view()[i] == p.items@[i].deep_view());
        }
    }
    assert forall|i: int| 0 <= i < r.items@.len() implies (#[trigger] grown.items@[i]).id@
        == r.items@[i].id@ by {
        assert(grown.items.deep_view()[i] == r.items.deep_view()[i]);
        assert(r.items.deep_view()[i] == r.items@[i].deep_view());
    }
}

/// The items that could be read are kept, in their order, and the others are skipped.
pub proof fn law_readable_items_are_kept<T, E>(
    items: Vec<Result<T, E>>,
    more: Vec<Result<T, E>>,
    item: Result<T, E>,
    r: Vec<T>,
    grown: Vec<T>,
)
    requires
        call_ensures(deserialize_items_skip_errors::<T, E>, (items,), r),
        call_ensures(deserialize_items_skip_errors::<T, E>, (more,), grown),
        more@ == items@.push(item),
    ensures
        items@.len() == 0 ==> r@.len() == 0,
        item matches Ok(value) ==> grown@ == r@.push(value),
        item is Err ==> grown@ == r@,
{
    assert(more@.drop_last() =~= items@);
}

/// A song belongs to its album, or without one to what its first album artist has without an album.
/// Its cover is its own, or else that of its album, or none.
pub proof fn law_album_and_cover_of_a_song(song: &MusicDto, album: String, cover: &str)
    requires
        call_ensures(MusicDto::effective_album_id, (song,), album),
        call_ensures(MusicDto::effective_cover_art, (song,), cover),
    ensures
        song.album_id matches Some(id) ==> album@ == id@,
        song.album_id is None && song.album_artists@.len() > 0 ==> album@
            == "__gelly_no_album__"@ + song.album_artists@[0].id@,
        song.album_id is None && song.album_artists@.len() == 0 ==> album@ == "__gelly_no_album__"@,
        song.cover_art matches Some(art) ==> cover@ == art@,
        song.cover_art is None ==> (song.album_id matches Some(id) ==> cover@ == id@),
        song.cover_art is None && song.album_id is None ==> cover@.len() == 0,
{
    lemma_elements(song.album_artists);
    if song.album_artists@.len() > 0 {
        assert(song.album_artists.deep_view()[0] == song.album_artists@[0].deep_view());
    }
    if song.album_id is None && song.album_artists@.len() == 0 {
        assert("__gelly_no_album__"@ + Seq::<char>::empty() =~= "__gelly_no_album__"@);
    }
}

/// How far a song has been played is told in whole seconds, of ten million ticks each.
pub proof fn law_position_is_told_in_seconds(report: &PlaybackReport, r: u64)
    requires
        call_ensures(PlaybackReport::position_seconds, (report,), r),
    ensures
        r * 10_000_000 <= report.position_ticks < (r + 1) * 10_000_000,
{
}

/// Commas, semicolons and slashes separate genres, and nothing else does.
pub proof fn law_genre_separators(c: char)
    ensures
        text::genre_separator(c) <==> c == ',' || c == ';' || c == '/',
{
}

/// The genres of two lists are those of the one and then those of the other, and a text without a
/// separator names one genre, in lower case and trimmed, unless it is blank.
pub proof fn law_genres_of_lists(a: Seq<Seq<char>>, b: Seq<Seq<char>>, genre: Seq<char>)
    ensures
        effective_genres(a + b) == effective_genres(a) + effective_genres(b),
        text::unseparated(genre) && lowered(text::trimmed(genre)).len() > 0
            ==> effective_genres(seq![genre]) == seq![
            lowered(text::trimmed(genre)),
        ],
        text::unseparated(genre) && lowered(text::trimmed(genre)).len() == 0
            ==> effective_genres(seq![genre]) == Seq::<Seq<char>>::empty(),
        vstd::utf8::is_ascii_chars(genre) ==> lowered(genre)
            == text::ascii_lowercase(genre),
{
    lemma_all_pieces_of_concat(a, b);
    lemma_genre_names_of_concat(
        all_pieces(a),
        all_pieces(b),
    );
    if text::unseparated(genre) {
        text::lemma_pieces_of_unseparated(genre);
        let one = seq![genre];
        assert(one.drop_last() =~= seq![]);
        assert(all_pieces(seq![]) =~= Seq::<Seq<char>>::empty());
        assert(all_pieces(one) =~= one);
        assert(genre_names(one.drop_last()) =~= Seq::<Seq<char>>::empty());
        assert(one.last() == genre);
        if lowered(text::trimmed(genre)).len() > 0 {
            assert(effective_genres(one) =~= seq![
                lowered(text::trimmed(genre)),
            ]);
        }
    }
}

/// The genres that two lists of pieces name, one list after the other.
proof fn lemma_genre_names_of_concat(a: Seq<Seq<char>>, b: Seq<Seq<char>>)
    ensures
        genre_names(a + b) == genre_names(a)
            + genre_names(b),
    decreases b.len(),
{
    if b.len() == 0 {
        assert(a + b =~= a);
        assert(genre_names(b) =~= Seq::<Seq<char>>::empty());
    } else {
        lemma_genre_names_of_concat(a, b.drop_last());
        assert((a + b).drop_last() =~= a + b.drop_last());
        assert(genre_names(a + b) =~= genre_names(a)
            + genre_names(b));
    }
}

/// The genres of a song are those of its own list of texts.
pub proof fn law_genres_of_a_song(song: &MusicDto, r: Vec<String>)
    requires
        call_ensures(MusicDto::effective_genres, (song,), r),
    ensures
        r@.len() == effective_genres(song.genres.deep_view()).len(),
        forall|i: int|
            0 <= i < r@.len() ==> (#[trigger] r@[i])@ == effective_genres(
                song.genres.deep_view(),
            )[i],
{
    lemma_elements(r);
    assert forall|i: int| 0 <= i < r@.len() implies (#[trigger] r@[i])@ == effective_genres(
        song.genres.deep_view(),
    )[i] by {
        assert(r.deep_view()[i] == r@[i].deep_view());
    }
}

} // verus!
