use gelly::backend::{BackendError, BinaryBody};
use gelly::config::{SettingValue, Settings};
use gelly::jellyfin::api::{
    ArtistItemsDto, AuthenticateResponse, ImageType, MusicDto, MusicDtoList, PlaybackReport,
    PlaybackReportStatus, User, UserDataDto,
};
use gelly::jellyfin::library::{
    additional_pages, concurrent_requests, page_start, LIMIT, MAX_CONCURRENT_REQUESTS,
};
use gelly::jellyfin::requests::{image_base_size, initiate_quick_connect, quick_connect_status};
use gelly::jellyfin::{
    get_hostname, user_agent, Body, Device, HttpRequest, Jellyfin, Method,
    CONNECT_TIMEOUT_SECONDS, TIMEOUT_SECONDS,
};

fn device() -> Device {
    Device { hostname: "den".to_string(), uuid: "d-1".to_string(), version: "1.0".to_string() }
}

fn server() -> Jellyfin {
    Jellyfin::new("https://jf.example.com/", "tok", "u1")
}

fn params(request: &HttpRequest) -> Vec<(&str, &str)> {
    request.params.iter().map(|(k, v)| (k.as_str(), v.as_str())).collect()
}

fn song(id: &str) -> MusicDto {
    MusicDto {
        name: format!("Song {id}"),
        id: id.to_string(),
        date_created: None,
        run_time_ticks: 0,
        album: None,
        album_artists: Vec::new(),
        artist_items: Vec::new(),
        album_id: None,
        normalization_gain: None,
        production_year: None,
        index_number: None,
        parent_index_number: None,
        user_data: UserDataDto { play_count: 0, last_played_date: None },
        has_lyrics: false,
        genres: Vec::new(),
        cover_art: None,
    }
}

fn page(ids: &[&str], total: u64) -> MusicDtoList {
    MusicDtoList { items: ids.iter().map(|id| song(id)).collect(), total_record_count: total }
}

fn ids(list: &MusicDtoList) -> Vec<&str> {
    list.items.iter().map(|s| s.id.as_str()).collect()
}

#[test]
fn a_user_is_authenticated_with_everything_at_hand() {
    assert!(server().is_authenticated());
    assert!(!Jellyfin::default().is_authenticated());
    assert!(!Jellyfin::new("", "t", "u").is_authenticated());
    assert!(!Jellyfin::new("h", "", "u").is_authenticated());
    assert!(!Jellyfin::new("h", "t", "").is_authenticated());
}

#[test]
fn a_log_in_gives_a_token_and_an_identifier() {
    let response = AuthenticateResponse {
        access_token: "tok".to_string(),
        user: User { id: "u7".to_string() },
    };
    let user = Jellyfin::new_authenticate("https://jf.example.com", response);
    assert_eq!(user.host, "https://jf.example.com");
    assert_eq!(user.token, "tok");
    assert_eq!(user.user_id, "u7");
    assert!(user.is_authenticated());
    let response =
        AuthenticateResponse { access_token: "".to_string(), user: User { id: "u7".to_string() } };
    let user = Jellyfin::new_authenticate_quick_connect("h", response);
    assert_eq!(user.user_id, "u7");
    assert!(!user.is_authenticated());
}

#[test]
fn slashes_make_no_difference_to_a_url() {
    for host in ["http://h", "http://h/", "http://h//"] {
        for endpoint in ["Items", "/Items", "//Items"] {
            assert_eq!(Jellyfin::new(host, "", "").format_url(endpoint), "http://h/Items");
        }
    }
    assert_eq!(server().format_url("Playlists/"), "https://jf.example.com/Playlists/");
}

#[test]
fn the_header_names_the_device_and_the_token() {
    assert_eq!(
        server().auth_header(&device()),
        "MediaBrowser Client=\"Gelly\", Device=\"den\", DeviceId=\"d-1\", Version=\"1.0\", Token=\"tok\""
    );
    assert_eq!(
        Jellyfin::new("h", "", "").auth_header(&device()),
        "MediaBrowser Client=\"Gelly\", Device=\"den\", DeviceId=\"d-1\", Version=\"1.0\""
    );
}

#[test]
fn the_header_tells_tokens_apart() {
    let header = |token: &str| Jellyfin::new("h", token, "u").auth_header(&device());
    let headers = [header(""), header("a"), header("b"), header("\""), header("a\"")];
    for (i, one) in headers.iter().enumerate() {
        for (j, other) in headers.iter().enumerate() {
            assert_eq!(one == other, i == j);
        }
    }
}

#[test]
fn the_device_has_a_name() {
    assert_eq!(get_hostname(Some("den\n".to_string())), "den");
    assert_eq!(get_hostname(None), "Gelly-Device");
    assert_eq!(user_agent("1.2.3"), "Gelly/1.2.3");
    assert_eq!(CONNECT_TIMEOUT_SECONDS, 10);
    assert_eq!(TIMEOUT_SECONDS, 30);
}

#[test]
fn logging_in_sends_the_name_and_the_password() {
    let request = server().authenticate(&device(), "joe \"x\"", "se\\same");
    assert_eq!(request.method, Method::Post);
    assert_eq!(request.url, "https://jf.example.com/Users/authenticatebyname");
    assert!(request.params.is_empty());
    match request.body {
        Body::Json(body) => {
            let value: serde_json::Value = serde_json::from_str(&body).unwrap();
            assert_eq!(value["Username"], "joe \"x\"");
            assert_eq!(value["Pw"], "se\\same");
            assert_eq!(value.as_object().unwrap().len(), 2);
        }
        other => panic!("{other:?}"),
    }
}

#[test]
fn logging_in_by_code_sends_the_secret() {
    let request = server().new_authenticate_quick_connect_request(&device(), "s3");
    assert_eq!(request.url, "https://jf.example.com/Users/authenticatewithquickconnect");
    match request.body {
        Body::Json(body) => assert_eq!(body, "{\"secret\":\"s3\"}"),
        other => panic!("{other:?}"),
    }
}

#[test]
fn a_code_is_asked_for_without_a_token() {
    let request = initiate_quick_connect(&device(), "http://h/");
    assert_eq!(request.method, Method::Post);
    assert_eq!(request.url, "http://h/QuickConnect/Initiate");
    assert!(matches!(request.body, Body::Text(ref s) if s.is_empty()));
    assert!(!request.authorization.contains("Token"));
    let request = quick_connect_status(&device(), "http://h/", "s3");
    assert_eq!(request.method, Method::Get);
    assert_eq!(request.url, "http://h/QuickConnect/Connect");
    assert_eq!(params(&request), [("secret", "s3")]);
}

#[test]
fn views_are_asked_for() {
    let request = server().get_views(&device());
    assert_eq!(request.method, Method::Get);
    assert_eq!(request.url, "https://jf.example.com/UserViews");
    assert!(request.params.is_empty());
    assert!(matches!(request.body, Body::Empty));
    assert_eq!(request.authorization, server().auth_header(&device()));
}

#[test]
fn a_page_of_the_library_is_asked_for() {
    let request = server().get_library_page(&device(), "lib", 500, LIMIT);
    assert_eq!(request.url, "https://jf.example.com/Items");
    assert_eq!(
        params(&request),
        [
            ("parentId", "lib"),
            ("IncludeItemTypes", "Audio"),
            ("sortBy", "DateCreated"),
            ("sortOrder", "Descending"),
            ("recursive", "true"),
            ("fields", "DateCreated,Genres"),
            ("ImageTypeLimit", "1"),
            ("EnableImageTypes", "Primary"),
            ("StartIndex", "500"),
            ("Limit", "250"),
        ]
    );
}

#[test]
fn playlists_are_asked_for() {
    let request = server().get_playlists(&device());
    assert_eq!(request.url, "https://jf.example.com/Items");
    assert_eq!(
        params(&request),
        [
            ("IncludeItemTypes", "Playlist"),
            ("sortBy", "DateCreated"),
            ("sortOrder", "Descending"),
            ("recursive", "true"),
            ("fields", "DateCreated,ChildCount"),
            ("ImageTypeLimit", "1"),
            ("EnableImageTypes", "Primary"),
            ("StartIndex", "0"),
        ]
    );
}

#[test]
fn favorites_are_asked_for() {
    let request = server().get_favorites(&device());
    assert_eq!(
        params(&request),
        [
            ("IncludeItemTypes", "Playlist,Audio,MusicAlbum,MusicArtist"),
            ("sortBy", "DateCreated"),
            ("sortOrder", "Descending"),
            ("recursive", "true"),
            ("StartIndex", "0"),
            ("enableTotalRecordCount", "false"),
            ("enableImages", "false"),
            ("Filters", "IsFavorite"),
            ("Limit", "10000"),
        ]
    );
}

#[test]
fn playlist_items_are_handled() {
    let request = server().get_playlist_items(&device(), "p1");
    assert_eq!(request.url, "https://jf.example.com/Playlists/p1/Items");
    assert_eq!(params(&request), [("fields", "DateCreated,Genres")]);

    let request =
        server().add_playlist_items(&device(), "p1", &["a".to_string(), "b".to_string()]);
    assert_eq!(request.method, Method::Post);
    assert_eq!(request.url, "https://jf.example.com/Playlists/p1/Items");
    assert_eq!(params(&request), [("ids", "a,b"), ("userId", "u1")]);

    let request = server().move_playlist_item(&device(), "p1", "i1", -3);
    assert_eq!(request.method, Method::Post);
    assert_eq!(request.url, "https://jf.example.com/Playlists/p1/Items/i1/Move/-3");
    assert!(request.params.is_empty());

    let request = server().remove_playlist_item(&device(), "p1", "i1");
    assert_eq!(request.method, Method::Delete);
    assert_eq!(request.url, "https://jf.example.com/Playlists/p1/Items/");
    assert_eq!(params(&request), [("entryIds", "i1")]);
    assert!(matches!(request.body, Body::Empty));
}

#[test]
fn a_playlist_is_created_for_the_user_alone() {
    let request = server().new_playlist(&device(), "Mine", vec!["a".to_string()]);
    assert_eq!(request.method, Method::Post);
    assert_eq!(request.url, "https://jf.example.com/Playlists/");
    match request.body {
        Body::NewPlaylist(playlist) => {
            assert_eq!(playlist.name, "Mine");
            assert_eq!(playlist.ids, ["a"]);
            assert_eq!(playlist.user_id, "u1");
            assert_eq!(playlist.media_type, "Audio");
            assert!(playlist.users.is_empty());
            assert!(!playlist.is_public);
        }
        other => panic!("{other:?}"),
    }
}

#[test]
fn items_are_deleted_and_marked() {
    let request = server().delete_item(&device(), "i1");
    assert_eq!(request.method, Method::Delete);
    assert_eq!(request.url, "https://jf.example.com/Items/i1");
    let request = server().set_favorite(&device(), "i1", true);
    assert_eq!(request.method, Method::Post);
    assert_eq!(request.url, "https://jf.example.com/UserFavoriteItems/i1");
    let request = server().set_favorite(&device(), "i1", false);
    assert_eq!(request.method, Method::Delete);
    assert_eq!(request.url, "https://jf.example.com/UserFavoriteItems/i1");
}

#[test]
fn a_rescan_is_asked_for() {
    let request = server().request_library_rescan(&device(), "lib");
    assert_eq!(request.method, Method::Post);
    assert_eq!(request.url, "https://jf.example.com/Items/lib/Refresh");
    assert_eq!(
        params(&request),
        [
            ("itemId", "lib"),
            ("Recursive", "true"),
            ("ImageRefreshMode", "Default"),
            ("MetadataRefreshMode", "Default"),
            ("ReplaceAllImages", "false"),
            ("RegenerateTrickplay", "false"),
            ("ReplaceAllMetadata", "false"),
        ]
    );
}

#[test]
fn pictures_are_asked_for_in_their_size() {
    assert_eq!(image_base_size(ImageType::Backdrop), (1920, 300));
    assert_eq!(image_base_size(ImageType::Primary), (200, 200));
    let request = server().get_image(&device(), "i1", ImageType::Backdrop, 3840, 600);
    assert_eq!(request.url, "https://jf.example.com/Items/i1/Images/Backdrop");
    assert_eq!(
        params(&request),
        [("maxWidth", "3840"), ("maxHeight", "600"), ("quality", "96")]
    );
    let request = server().get_image(&device(), "i1", ImageType::Primary, 0, 200);
    assert_eq!(request.url, "https://jf.example.com/Items/i1/Images/Primary");
    assert_eq!(
        params(&request),
        [("fillWidth", "1"), ("fillHeight", "200"), ("quality", "96")]
    );
}

#[test]
fn the_stream_is_transcoded_as_the_settings_say() {
    let mut settings = Settings::new();
    settings.set("backend-type", SettingValue::Text("jellyfin".to_string()));
    settings.set("transcoding-profile", SettingValue::Text("AAC+TS".to_string()));
    settings.set("max-bitrate", SettingValue::Int(0));
    assert_eq!(
        server().get_stream_uri("i1", &settings),
        "https://jf.example.com/Audio/i1/universal?ApiKey=tok&userId=u1&container=flac,opus,mp3,aac,m4a,ogg,wav,webm|opus,webm|webma,webma&audioCodec=aac&transcodingContainer=ts&transcodingProtocol=hls&maxStreamingBitrate=999999999"
    );
    settings.set("max-bitrate", SettingValue::Int(320));
    assert!(server().get_stream_uri("i1", &settings).ends_with("&maxStreamingBitrate=320000"));
}

#[test]
fn playback_is_asked_about_and_reported() {
    let request = server().get_playback_info(&device(), "i1");
    assert_eq!(request.url, "https://jf.example.com/Items/i1/PlaybackInfo");
    let request = server().fetch_lyrics(&device(), "i1");
    assert_eq!(request.url, "https://jf.example.com/Audio/i1/Lyrics");
    for (state, url) in [
        (PlaybackReportStatus::Started, "https://jf.example.com/Sessions/Playing/"),
        (PlaybackReportStatus::InProgress, "https://jf.example.com/Sessions/Playing/Progress"),
        (PlaybackReportStatus::Stopped, "https://jf.example.com/Sessions/Playing/Stopped"),
    ] {
        let report = PlaybackReport {
            item_id: "i1".to_string(),
            session_id: "s".to_string(),
            play_session_id: "p".to_string(),
            can_seek: true,
            is_paused: false,
            is_muted: false,
            position_ticks: 12,
        };
        let request = server().playback_report(&device(), report, &state);
        assert_eq!(request.method, Method::Post);
        assert_eq!(request.url, url);
        assert!(matches!(request.body, Body::PlaybackReport(ref r) if r.position_ticks == 12));
    }
}

#[test]
fn answers_are_read_by_their_status() {
    let server = server();
    assert_eq!(server.handle_response(200, Ok("body".to_string())).unwrap(), "body");
    assert_eq!(server.handle_response(299, Ok("body".to_string())).unwrap(), "body");
    assert!(matches!(
        server.handle_response(200, Err("cut off".to_string())),
        Err(BackendError::Transport { message }) if message == "cut off"
    ));
    assert!(matches!(
        server.handle_response(401, Ok("no".to_string())),
        Err(BackendError::AuthenticationFailed { message }) if message == "no"
    ));
    assert!(matches!(
        server.handle_response(500, Ok("oops".to_string())),
        Err(BackendError::Http { status: 500, message }) if message == "oops"
    ));
    assert!(matches!(
        server.handle_response(300, Err("cut off".to_string())),
        Err(BackendError::Http { status: 300, message }) if message == "Unknown Error"
    ));
}

#[test]
fn binary_answers_are_read_by_their_status() {
    let server = server();
    assert_eq!(
        server.handle_binary_response(200, BinaryBody::Bytes(Ok(vec![1, 2]))).unwrap(),
        vec![1, 2]
    );
    assert!(matches!(
        server.handle_binary_response(200, BinaryBody::Bytes(Err("cut off".to_string()))),
        Err(BackendError::Transport { message }) if message == "cut off"
    ));
    assert!(matches!(
        server.handle_binary_response(401, BinaryBody::Message(Ok("no".to_string()))),
        Err(BackendError::AuthenticationFailed { message }) if message == "no"
    ));
    assert!(matches!(
        server.handle_binary_response(404, BinaryBody::Message(Err("x".to_string()))),
        Err(BackendError::Http { status: 404, message }) if message == "Unknown Error"
    ));
}

#[test]
fn pages_cover_the_library() {
    for (total, pages) in [(0, 0), (1, 0), (250, 0), (251, 1), (500, 1), (501, 2), (1000, 3)] {
        assert_eq!(additional_pages(total), pages);
        for page in 1..=pages {
            assert_eq!(page_start(total, page), page * 250);
            assert!(page_start(total, page) < total);
        }
        assert!((pages + 1) * LIMIT >= total);
    }
    assert_eq!(additional_pages(u64::MAX), (u64::MAX - 250) / 250 + 1);
    assert!(page_start(u64::MAX, additional_pages(u64::MAX)) < u64::MAX);
}

#[test]
fn a_slow_server_is_asked_for_one_page_at_a_time() {
    assert_eq!(concurrent_requests(0), MAX_CONCURRENT_REQUESTS);
    assert_eq!(MAX_CONCURRENT_REQUESTS, 4);
    assert_eq!(concurrent_requests(1), 1);
    assert_eq!(concurrent_requests(60), 1);
}

#[test]
fn a_page_that_fails_is_left_out() {
    let failed = BackendError::Http { status: 500, message: "oops".to_string() };
    let library = server().get_library(
        page(&["a", "b"], 5),
        vec![Ok(page(&["e"], 5)), Err(failed), Ok(page(&["c", "d"], 5))],
    );
    assert_eq!(ids(&library), ["a", "b", "e", "c", "d"]);
    assert_eq!(library.total_record_count, 5);
}

#[test]
fn the_order_of_arrival_does_not_matter() {
    let one = server()
        .get_library(page(&["a"], 3), vec![Ok(page(&["b"], 3)), Ok(page(&["c"], 3))]);
    let other = server()
        .get_library(page(&["a"], 3), vec![Ok(page(&["c"], 3)), Ok(page(&["b"], 3))]);
    let mut one = ids(&one);
    let mut other = ids(&other);
    one.sort();
    other.sort();
    assert_eq!(one, other);
}

#[test]
fn a_whole_library_is_counted() {
    let names: Vec<String> = (0..301).map(|i| i.to_string()).collect();
    let names: Vec<&str> = names.iter().map(|s| s.as_str()).collect();
    let library =
        server().get_library(page(&names[..250], 301), vec![Ok(page(&names[250..], 301))]);
    assert_eq!(library.items.len() as u64, library.total_record_count);
}

#[test]
fn songs_without_an_album_are_grouped_by_artist() {
    let mut one = song("a");
    assert_eq!(one.effective_album_id(), "__gelly_no_album__");
    one.album_artists.push(ArtistItemsDto { name: "X".to_string(), id: "x".to_string() });
    assert_eq!(one.effective_album_id(), "__gelly_no_album__x");
    let mut other = song("b");
    other.album_artists.push(ArtistItemsDto { name: "Y".to_string(), id: "y".to_string() });
    assert_ne!(one.effective_album_id(), other.effective_album_id());
    one.album_id = Some("al".to_string());
    assert_eq!(one.effective_album_id(), "al");
}

#[test]
fn genres_are_flattened() {
    let mut one = song("a");
    one.genres = vec!["Rock, Pop".to_string(), " ;Jazz/ FUNK ".to_string(), "".to_string()];
    assert_eq!(one.effective_genres(), ["rock", "pop", "jazz", "funk"]);
    one.genres = vec!["\u{c9}LECTRO".to_string()];
    assert_eq!(one.effective_genres(), ["\u{e9}lectro"]);
    let ascii: String = (33u8..127).map(char::from).filter(|c| !",;/".contains(*c)).collect();
    one.genres = vec![ascii.clone()];
    assert_eq!(one.effective_genres(), [ascii.to_ascii_lowercase()]);
    let mut split = song("b");
    split.genres = vec!["a,b".to_string()];
    let mut listed = song("c");
    listed.genres = vec!["a".to_string(), "b".to_string()];
    assert_eq!(split.effective_genres(), listed.effective_genres());
}

#[test]
fn flattening_genres_twice_changes_nothing() {
    let mut one = song("a");
    one.genres = vec![" Rock ,POP;;".to_string(), "Hip Hop/ R&B\t".to_string()];
    let mut other = song("b");
    other.genres = one.effective_genres();
    assert_eq!(other.genres, ["rock", "pop", "hip hop", "r&b"]);
    assert_eq!(other.effective_genres(), other.genres);
    one.genres = vec!["\u{c9}lectro / \u{391}\u{3a3};\u{130}\u{2003},Jazz".to_string()];
    other.genres = one.effective_genres();
    assert_eq!(other.genres, ["\u{e9}lectro", "\u{3b1}\u{3c2}", "i\u{307}", "jazz"]);
    assert_eq!(other.effective_genres(), other.genres);
}

#[test]
fn a_song_has_the_cover_of_its_album() {
    let mut one = song("a");
    assert_eq!(one.effective_cover_art(), "");
    one.album_id = Some("al".to_string());
    assert_eq!(one.effective_cover_art(), "al");
    one.cover_art = Some("ca".to_string());
    assert_eq!(one.effective_cover_art(), "ca");
}

#[test]
fn positions_are_told_in_seconds() {
    let mut report = PlaybackReport {
        item_id: "i1".to_string(),
        session_id: "".to_string(),
        play_session_id: "".to_string(),
        can_seek: false,
        is_paused: false,
        is_muted: false,
        position_ticks: 49_999_999,
    };
    assert_eq!(report.position_seconds(), 4);
    report.position_ticks = 50_000_000;
    assert_eq!(report.position_seconds(), 5);
}

#[test]
fn items_that_cannot_be_read_are_skipped() {
    let items: Vec<Result<u8, &str>> = vec![Ok(1), Err("bad"), Ok(3)];
    assert_eq!(gelly::jellyfin::api::deserialize_items_skip_errors(items), vec![1, 3]);
    let items: Vec<Result<u8, &str>> = vec![Ok(1), Ok(2)];
    assert_eq!(gelly::jellyfin::api::deserialize_items_skip_errors(items), vec![1, 2]);
}

#[test]
fn image_types_have_names() {
    assert_eq!(ImageType::Primary.as_str(), "Primary");
    assert_eq!(ImageType::Art.as_str(), "Art");
    assert_eq!(ImageType::Backdrop.as_str(), "Backdrop");
    assert_eq!(ImageType::Banner.as_str(), "Banner");
}
