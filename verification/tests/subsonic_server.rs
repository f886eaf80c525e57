use gelly::backend::{BackendError, BinaryBody};
use gelly::config::{SettingValue, Settings};
use gelly::jellyfin::api::{ImageType, ItemType, MusicDto, PlaybackReport, PlaybackReportStatus};
use gelly::number::Real;
use gelly::subsonic::api::{
    Album, AlbumList2, AlbumSummary, ArtistRef, ArtistSummary, LyricsLine, LyricsList, MusicFolder,
    MusicFolders, PlaylistDetail, PlaylistSummary, Playlists, ReplayGain, Song, Starred2,
    StructuredLyrics, SubsonicError, SubsonicResponse,
};
use gelly::subsonic::library::AlbumIdsScan;
use gelly::subsonic::songs::{seconds_to_ticks, AlbumFallback};
use gelly::subsonic::{new_salt, push_token, Call, Subsonic, SubsonicAuthMode};

fn server(auth_mode: SubsonicAuthMode) -> Subsonic {
    Subsonic {
        host: "https://music.example.com/".to_string(),
        username: "joe".to_string(),
        password: "sesame".to_string(),
        auth_mode,
    }
}

fn legacy() -> Subsonic {
    server(SubsonicAuthMode::LegacyPassword)
}

fn settings(backend: &str, max_bitrate: i32, profile: &str) -> Settings {
    let mut settings = Settings::new();
    settings.set("backend-type", SettingValue::Text(backend.to_string()));
    settings.set("max-bitrate", SettingValue::Int(max_bitrate));
    settings.set("transcoding-profile", SettingValue::Text(profile.to_string()));
    settings.set("subsonic-auth-mode", SettingValue::Text("legacy-password".to_string()));
    settings
}

fn answer() -> SubsonicResponse {
    SubsonicResponse {
        status: "ok".to_string(),
        error: None,
        music_folders: None,
        album_list2: None,
        album: None,
        playlists: None,
        playlist: None,
        song: None,
        starred2: None,
        lyrics_list: None,
    }
}

fn refusal(code: i32, message: &str) -> SubsonicResponse {
    SubsonicResponse {
        status: "failed".to_string(),
        error: Some(SubsonicError { code, message: message.to_string() }),
        ..answer()
    }
}

fn song(id: &str) -> Song {
    Song {
        id: id.to_string(),
        title: format!("Song {id}"),
        album: None,
        album_id: None,
        album_artists: Vec::new(),
        album_artist: None,
        artist: None,
        artist_id: None,
        duration: None,
        created: None,
        year: None,
        replay_gain: None,
        track: None,
        disc_number: None,
        play_count: None,
        played: None,
        genre: None,
        suffix: None,
        bit_rate: None,
        sampling_rate: None,
        channel_count: None,
        path: None,
        size: None,
    }
}

fn some(s: &str) -> Option<String> {
    Some(s.to_string())
}

fn params(call: &Call) -> Vec<(&str, &str)> {
    call.params.iter().map(|(k, v)| (k.as_str(), v.as_str())).collect()
}

fn owned(pairs: &[(&str, &str)]) -> Vec<(String, String)> {
    pairs.iter().map(|(k, v)| (k.to_string(), v.to_string())).collect()
}

fn playlist(ids: &[&str]) -> SubsonicResponse {
    SubsonicResponse {
        playlist: Some(PlaylistDetail {
            id: "p1".to_string(),
            entry: ids.iter().map(|id| song(id)).collect(),
        }),
        ..answer()
    }
}

fn is_bad_answer<T>(result: Result<T, BackendError>, expected: &str) -> bool {
    matches!(result, Err(BackendError::Http { status: 502, message }) if message == expected)
}

#[test]
fn auth_modes_have_names() {
    assert_eq!(SubsonicAuthMode::Token.as_str(), "token");
    assert_eq!(SubsonicAuthMode::LegacyPassword.as_str(), "legacy-password");
    for mode in [SubsonicAuthMode::Token, SubsonicAuthMode::LegacyPassword] {
        assert_eq!(SubsonicAuthMode::from_str(mode.as_str()), mode);
    }
    assert_eq!(SubsonicAuthMode::from_str("other"), SubsonicAuthMode::Token);
    assert_eq!(SubsonicAuthMode::default(), SubsonicAuthMode::Token);
}

#[test]
fn a_user_is_made_as_the_settings_say() {
    let user = Subsonic::new("h", "joe", "sesame", &settings("subsonic", 0, ""));
    assert_eq!(user.host, "h");
    assert_eq!(user.username, "joe");
    assert_eq!(user.password, "sesame");
    assert_eq!(user.auth_mode, SubsonicAuthMode::LegacyPassword);
    assert!(user.is_authenticated());
    assert!(!Subsonic::new("", "", "", &settings("subsonic", 0, "")).is_authenticated());
    assert!(!Subsonic::new("h", "joe", "", &settings("subsonic", 0, "")).is_authenticated());
}

#[test]
fn a_log_in_takes_everything() {
    let settings = settings("subsonic", 0, "");
    for (host, username, password) in [("", "u", "p"), ("h", " \t", "p"), ("h", "u", "\n")] {
        assert!(matches!(
            Subsonic::new_authenticate(host, username, password, &settings),
            Err(BackendError::AuthenticationFailed { message })
                if message == "Missing host/username/password"
        ));
    }
    let user = Subsonic::new_authenticate("h", " u ", "p", &settings).unwrap();
    assert_eq!(user.username, " u ");
    let call = user.ping();
    assert_eq!(call.endpoint, "ping");
    assert!(call.params.is_empty());
}

#[test]
fn salts_are_letters_and_digits() {
    let salt = new_salt();
    assert_eq!(salt.len(), 16);
    assert!(salt.bytes().all(|b| b.is_ascii_alphanumeric()));
    assert_ne!(salt, new_salt());
}

#[test]
fn a_token_is_the_digest_of_the_password_and_the_salt() {
    assert_eq!(
        server(SubsonicAuthMode::Token).auth_params_with("c19b2d"),
        owned(&[
            ("u", "joe"),
            ("v", "1.15.0"),
            ("c", "gelly"),
            ("f", "json"),
            ("t", "26719a1196d2a940705a59634eb18eab"),
            ("s", "c19b2d"),
        ])
    );
}

#[test]
fn a_digest_is_sent_in_hexadecimal() {
    let mut params = owned(&[("u", "joe")]);
    push_token(&mut params, &[0x0a, 0xff], "salt");
    assert_eq!(params, owned(&[("u", "joe"), ("t", "0aff"), ("s", "salt")]));
}

#[test]
fn a_legacy_password_is_sent_in_hexadecimal() {
    assert_eq!(
        legacy().auth_params(),
        owned(&[
            ("u", "joe"),
            ("v", "1.15.0"),
            ("c", "gelly"),
            ("f", "json"),
            ("p", "enc:736573616d65"),
        ])
    );
    let mut other = legacy();
    other.password = "\u{e9}".to_string();
    assert_eq!(other.auth_params()[4].1, "enc:c3a9");
    assert_ne!(other.auth_params(), legacy().auth_params());
}

#[test]
fn every_request_has_its_own_salt() {
    let one = server(SubsonicAuthMode::Token).auth_params();
    let other = server(SubsonicAuthMode::Token).auth_params();
    assert_eq!(one[..4], other[..4]);
    assert_ne!(one[5], other[5]);
    assert_ne!(one[4], other[4]);
    assert_eq!(server(SubsonicAuthMode::Token).auth_params_with(&one[5].1), one);
    assert!(one.iter().all(|(name, _)| name != "p"));
}

#[test]
fn endpoints_have_urls() {
    for endpoint in ["ping", "/ping", "ping.view", "//ping.view.view"] {
        assert_eq!(
            legacy().rest_url(endpoint),
            "https://music.example.com/rest/ping.view"
        );
    }
    let mut other = legacy();
    other.host = "https://music.example.com/sub//".to_string();
    assert_eq!(other.rest_url("ping"), "https://music.example.com/sub/rest/ping.view");
    other.host = "https://Music.Example.com:443".to_string();
    assert_eq!(
        other.try_rest_url("ping"),
        some("https://music.example.com/rest/ping.view")
    );
    other.host = "music.example.com".to_string();
    assert_eq!(other.try_rest_url("ping"), None);
    assert!(other.try_get_json(other.ping()).is_none());
    assert!(other.try_get_image("a", ImageType::Primary, 1).is_none());
    assert!(other.try_get_stream_uri("a", &settings("subsonic", 0, "")).is_none());
}

#[test]
fn calls_become_requests() {
    let request = legacy().get_json(legacy().get_album_request("al 1"));
    assert_eq!(request.url, "https://music.example.com/rest/getAlbum.view");
    let mut expected = legacy().auth_params();
    expected.push(("id".to_string(), "al 1".to_string()));
    assert_eq!(request.params, expected);
    let request = server(SubsonicAuthMode::Token).get_json_with(legacy().ping(), "c19b2d");
    assert_eq!(
        request.params,
        server(SubsonicAuthMode::Token).auth_params_with("c19b2d")
    );
    assert!(server(SubsonicAuthMode::Token).try_get_json(legacy().ping()).is_some());
}

#[test]
fn covers_are_asked_for_in_their_size() {
    let front = [("u", "joe"), ("v", "1.15.0"), ("c", "gelly"), ("p", "enc:736573616d65")];
    let request = legacy().get_image("a1", ImageType::Primary, 0);
    assert_eq!(request.url, "https://music.example.com/rest/getCoverArt.view");
    assert_eq!(request.params, owned(&[&front[..], &[("size", "1"), ("id", "a1")]].concat()));
    let request = legacy().get_image_with("a1", ImageType::Art, 400, "");
    assert_eq!(request.params, owned(&[&front[..], &[("size", "400"), ("id", "a1")]].concat()));
    let request = legacy().get_image("a1", ImageType::Backdrop, 400);
    assert_eq!(request.params, owned(&[&front[..], &[("id", "a1")]].concat()));
    assert!(legacy().try_get_image("a1", ImageType::Backdrop, 400).is_some());
}

#[test]
fn streams_have_urls() {
    assert_eq!(
        legacy().get_stream_uri("s 1&", &settings("subsonic", 320, "AAC+TS")),
        "https://music.example.com/rest/stream.view?u=joe&v=1.15.0&c=gelly&p=enc%3A736573616d65&id=s+1%26&maxBitRate=320&format=aac"
    );
    assert_eq!(
        legacy().try_get_stream_uri("s1", &settings("subsonic", 0, "AAC+TS")),
        some("https://music.example.com/rest/stream.view?u=joe&v=1.15.0&c=gelly&p=enc%3A736573616d65&id=s1&maxBitRate=0&format=raw")
    );
    assert_eq!(
        legacy().stream_params_with("s1", &settings("subsonic", -1, "AAC+TS"), ""),
        owned(&[
            ("u", "joe"),
            ("v", "1.15.0"),
            ("c", "gelly"),
            ("p", "enc:736573616d65"),
            ("id", "s1"),
            ("maxBitRate", "-1"),
            ("format", "raw"),
        ])
    );
    assert_eq!(
        server(SubsonicAuthMode::Token).get_stream_uri_with(
            "s1",
            &settings("subsonic", 128, "OPUS+MP4"),
            "c19b2d"
        ),
        "https://music.example.com/rest/stream.view?u=joe&v=1.15.0&c=gelly&t=26719a1196d2a940705a59634eb18eab&s=c19b2d&id=s1&maxBitRate=128&format=opus"
    );
}

#[test]
fn a_long_stream_url_is_made() {
    let long = "x/".repeat(0xa0_0000);
    let url = legacy().try_get_stream_uri(&long, &settings("subsonic", 0, "")).unwrap();
    assert_eq!(url, legacy().get_stream_uri(&long, &settings("subsonic", 0, "")));
    let before = "https://music.example.com/rest/stream.view?u=joe&v=1.15.0&c=gelly&p=enc%3A736573616d65&id=";
    assert!(url.starts_with(before));
    assert!(url.ends_with("x%2F&maxBitRate=0&format=raw"));
    assert_eq!(url.len(), before.len() + 2 * long.len() + "&maxBitRate=0&format=raw".len());
}

#[test]
fn a_stream_url_keeps_what_the_host_ends_with() {
    let mut other = legacy();
    other.host = "https://h/?a=b#c".to_string();
    assert_eq!(
        other.try_get_stream_uri("s1", &settings("subsonic", 0, "")),
        some("https://h/?a=b&u=joe&v=1.15.0&c=gelly&p=enc%3A736573616d65&id=s1&maxBitRate=0&format=raw#c/rest/stream.view")
    );
    other.host = "https://h?".to_string();
    assert_eq!(
        other.try_get_stream_uri("s1", &settings("subsonic", 0, "")),
        some("https://h/?/rest/stream.view&u=joe&v=1.15.0&c=gelly&p=enc%3A736573616d65&id=s1&maxBitRate=0&format=raw")
    );
}

#[test]
fn refusals_are_errors() {
    let server = legacy();
    assert!(server.ensure_ok_response(&answer()).is_ok());
    assert!(matches!(
        server.ensure_ok_response(&refusal(40, "Wrong username or password")),
        Err(BackendError::AuthenticationFailed { message })
            if message == "Wrong username or password"
    ));
    assert!(is_bad_answer(
        server.ensure_ok_response(&refusal(70, "Not found")),
        "Subsonic error 70: Not found"
    ));
    assert!(is_bad_answer(
        server.ensure_ok_response(&SubsonicResponse { status: "OK".to_string(), ..answer() }),
        "Subsonic API returned non-ok status"
    ));
    assert!(matches!(
        server.map_api_error(-1, "x".to_string()),
        BackendError::Http { status: 502, message } if message == "Subsonic error -1: x"
    ));
}

#[test]
fn a_refused_request_fails_everywhere() {
    let server = legacy();
    let no = || refusal(50, "no");
    let expected = "Subsonic error 50: no";
    assert!(is_bad_answer(server.get_views(no()), expected));
    assert!(is_bad_answer(server.get_favorites(no()), expected));
    assert!(is_bad_answer(server.get_album(no()), expected));
    assert!(is_bad_answer(server.get_playlists(no()), expected));
    assert!(is_bad_answer(server.get_playlist_items(no()), expected));
    assert!(is_bad_answer(server.new_playlist(no()), expected));
    assert!(is_bad_answer(server.move_playlist_item(no(), "p", "i", 0), expected));
    assert!(is_bad_answer(server.remove_playlist_item(no(), "p", "i"), expected));
    assert!(is_bad_answer(server.get_playback_info(no()), expected));
    assert!(is_bad_answer(server.fetch_lyrics(no()), expected));
    let mut scan = AlbumIdsScan::new("1");
    assert!(is_bad_answer(scan.receive(&server, no()), expected));
    assert!(scan.album_ids.is_empty());
}

#[test]
fn an_answer_without_what_was_asked_for_fails() {
    let server = legacy();
    assert!(is_bad_answer(server.get_album(answer()), "Subsonic response missing album payload"));
    assert!(is_bad_answer(
        server.get_playlist_items(answer()),
        "Subsonic response missing playlist payload"
    ));
    assert!(is_bad_answer(
        server.new_playlist(answer()),
        "Subsonic createPlaylist response missing playlist payload"
    ));
    assert!(is_bad_answer(
        server.move_playlist_item(answer(), "p", "i", 0),
        "Subsonic getPlaylist response missing playlist payload"
    ));
    assert!(is_bad_answer(
        server.remove_playlist_item(answer(), "p", "i"),
        "Subsonic getPlaylist response missing playlist payload"
    ));
    assert!(is_bad_answer(
        server.get_playback_info(answer()),
        "Subsonic getSong response missing song payload"
    ));
}

#[test]
fn http_answers_are_read_by_their_status() {
    let server = legacy();
    assert_eq!(server.handle_http_response(200, Ok("x".to_string())).unwrap(), "x");
    assert!(matches!(
        server.handle_http_response(200, Err("cut off".to_string())),
        Err(BackendError::Transport { message }) if message == "cut off"
    ));
    assert!(matches!(
        server.handle_http_response(404, Err("cut off".to_string())),
        Err(BackendError::Transport { message }) if message == "cut off"
    ));
    assert!(matches!(
        server.handle_http_response(401, Ok("no".to_string())),
        Err(BackendError::AuthenticationFailed { message }) if message == "no"
    ));
    assert!(matches!(
        server.handle_http_response(404, Ok("gone".to_string())),
        Err(BackendError::Http { status: 404, message }) if message == "gone"
    ));
}

#[test]
fn pictures_are_read_by_their_status() {
    let server = legacy();
    assert_eq!(server.image_bytes(200, BinaryBody::Bytes(Ok(vec![7]))).unwrap(), vec![7]);
    assert!(matches!(
        server.image_bytes(200, BinaryBody::Bytes(Err("cut off".to_string()))),
        Err(BackendError::Transport { .. })
    ));
    assert!(matches!(
        server.image_bytes(401, BinaryBody::Message(Ok("no".to_string()))),
        Err(BackendError::AuthenticationFailed { message }) if message == "no"
    ));
    assert!(matches!(
        server.image_bytes(500, BinaryBody::Message(Ok("oops".to_string()))),
        Err(BackendError::Http { status: 500, message }) if message == "oops"
    ));
    assert!(matches!(
        server.image_bytes(500, BinaryBody::Message(Err("cut off".to_string()))),
        Err(BackendError::Transport { message }) if message == "cut off"
    ));
}

#[test]
fn folders_become_libraries() {
    let server = legacy();
    assert_eq!(server.get_views_request().endpoint, "getMusicFolders");
    let views = server.get_views(answer()).unwrap();
    assert_eq!(views.items.len(), 1);
    assert_eq!(views.items[0].id, "__gelly_subsonic_all__");
    assert_eq!(views.items[0].name, "Music");
    let folders = MusicFolders {
        music_folders: vec![
            MusicFolder { id: "1".to_string(), name: "A".to_string() },
            MusicFolder { id: "2".to_string(), name: "B".to_string() },
        ],
    };
    let views =
        server.get_views(SubsonicResponse { music_folders: Some(folders), ..answer() }).unwrap();
    assert_eq!(views.items.len(), 2);
    assert_eq!(views.items[1].id, "2");
    assert_eq!(views.items[1].name, "B");
}

#[test]
fn stars_become_favorites() {
    let server = legacy();
    assert_eq!(server.get_favorites_request().endpoint, "getStarred2");
    assert!(server.get_favorites(answer()).unwrap().items.is_empty());
    let starred = Starred2 {
        song: vec![song("s1"), song("s2")],
        album: vec![AlbumSummary { id: "al".to_string() }],
        artist: vec![ArtistSummary { id: "ar".to_string() }],
    };
    let favorites =
        server.get_favorites(SubsonicResponse { starred2: Some(starred), ..answer() }).unwrap();
    let ids: Vec<&str> = favorites.items.iter().map(|f| f.id.as_str()).collect();
    assert_eq!(ids, ["s1", "s2", "al", "ar"]);
    assert!(favorites.items.iter().all(|f| f.user_data.is_favorite));
    assert!(matches!(favorites.items[1].item_type, ItemType::Audio));
    assert!(matches!(favorites.items[2].item_type, ItemType::MusicAlbum));
    assert!(matches!(favorites.items[3].item_type, ItemType::MusicArtist));
}

#[test]
fn favorites_are_set_by_their_kind() {
    let server = legacy();
    for (kind, name) in [
        (ItemType::Audio, "id"),
        (ItemType::MusicAlbum, "albumId"),
        (ItemType::MusicArtist, "artistId"),
        (ItemType::Playlist, "id"),
        (ItemType::Unknown, "id"),
    ] {
        let call = server.set_favorite("x", &kind, true);
        assert_eq!(call.endpoint, "star");
        assert_eq!(params(&call), [(name, "x")]);
        assert_eq!(server.set_favorite("x", &kind, false).endpoint, "unstar");
    }
}

#[test]
fn albums_are_listed_page_by_page() {
    let server = legacy();
    let page = |from: usize, to: usize| SubsonicResponse {
        album_list2: Some(AlbumList2 {
            album: (from..to).map(|i| AlbumSummary { id: i.to_string() }).collect(),
        }),
        ..answer()
    };
    let mut scan = AlbumIdsScan::new(" 3 ");
    let call = scan.request();
    assert_eq!(call.endpoint, "getAlbumList2");
    assert_eq!(
        params(&call),
        [
            ("type", "alphabeticalByName"),
            ("size", "500"),
            ("offset", "0"),
            ("musicFolderId", "3"),
        ]
    );
    assert!(!scan.receive(&server, page(0, 500)).unwrap());
    assert_eq!(params(&scan.request())[2], ("offset", "500"));
    assert!(scan.receive(&server, page(500, 703)).unwrap());
    let expected: Vec<String> = (0..703).map(|i| i.to_string()).collect();
    assert_eq!(scan.album_ids, expected);
    assert!(scan.receive(&server, answer()).unwrap());
    assert_eq!(scan.album_ids, expected);
}

#[test]
fn all_folders_are_listed_without_a_folder() {
    for library_id in ["", "  ", "__gelly_subsonic_all__", " __gelly_subsonic_all__ "] {
        let call = AlbumIdsScan::new(library_id).request();
        assert_eq!(call.params.len(), 3);
    }
}

#[test]
fn an_album_speaks_for_its_songs() {
    let server = legacy();
    assert_eq!(params(&server.get_album_request("al")), [("id", "al")]);
    let album = Album {
        id: "al".to_string(),
        name: "Album".to_string(),
        album_artists: Vec::new(),
        artist: some("Artist"),
        artist_id: some("ar"),
        year: Some(1999),
        created: some("then"),
        cover_art: some("ca"),
        song: vec![song("s1")],
    };
    let songs = server.get_album(SubsonicResponse { album: Some(album), ..answer() }).unwrap();
    let one = &songs[0];
    assert_eq!(songs.len(), 1);
    assert_eq!(one.name, "Song s1");
    assert_eq!(one.id, "s1");
    assert_eq!(one.album, some("Album"));
    assert_eq!(one.album_id, some("al"));
    assert_eq!(one.album_artists[0].name, "Artist");
    assert_eq!(one.album_artists[0].id, "ar");
    assert_eq!(one.artist_items[0].name, "Artist");
    assert_eq!(one.artist_items[0].id, "ar");
    assert_eq!(one.production_year, Some(1999));
    assert_eq!(one.date_created, some("then"));
    assert_eq!(one.cover_art, some("ca"));
    assert_eq!(one.run_time_ticks, 0);
    assert_eq!(one.user_data.play_count, 0);
    assert!(one.has_lyrics);
    assert!(one.genres.is_empty());
}

#[test]
fn a_song_speaks_for_itself() {
    let mut one = song("s1");
    one.album = some("Own");
    one.album_id = some("own");
    one.album_artists = vec![
        ArtistRef { id: "x".to_string(), name: "X".to_string() },
        ArtistRef { id: "y".to_string(), name: "Y".to_string() },
    ];
    one.album_artist = some("Band");
    one.artist = some("Singer");
    one.artist_id = some("si");
    one.duration = Some(180);
    one.created = some("now");
    one.year = Some(2020);
    one.track = Some(3);
    one.disc_number = Some(2);
    one.play_count = Some(9);
    one.played = some("yesterday");
    one.genre = some("Rock");
    one.replay_gain = Some(ReplayGain {
        track_gain: None,
        album_gain: Some(Real { bits: 2 }),
        base_gain: Some(Real { bits: 3 }),
    });
    let fallback = AlbumFallback {
        album_id: some("al"),
        album_name: some("Album"),
        album_artists: vec![ArtistRef { id: "z".to_string(), name: "Z".to_string() }],
        artist_name: some("Artist"),
        artist_id: some("ar"),
        year: Some(1999),
        created: some("then"),
        cover_art: some("ca"),
    };
    let dto = legacy().song_to_music_dto(one.clone(), &fallback);
    assert_eq!(dto.album, some("Own"));
    assert_eq!(dto.album_id, some("own"));
    assert_eq!(dto.album_artists.len(), 1);
    assert_eq!(dto.album_artists[0].name, "X");
    assert_eq!(dto.album_artists[0].id, "x");
    assert_eq!(dto.artist_items[0].name, "Singer");
    assert_eq!(dto.artist_items[0].id, "si");
    assert_eq!(dto.run_time_ticks, 1_800_000_000);
    assert_eq!(dto.date_created, some("now"));
    assert_eq!(dto.production_year, Some(2020));
    assert_eq!(dto.index_number, Some(3));
    assert_eq!(dto.parent_index_number, Some(2));
    assert_eq!(dto.user_data.play_count, 9);
    assert_eq!(dto.user_data.last_played_date, some("yesterday"));
    assert_eq!(dto.genres, ["Rock"]);
    assert_eq!(dto.normalization_gain, Some(Real { bits: 2 }));
    assert_eq!(dto.cover_art, some("ca"));

    one.album_artists.clear();
    let dto = legacy().song_to_music_dto(one.clone(), &fallback);
    assert_eq!(dto.album_artists[0].name, "Z");
    assert_eq!(dto.album_artists[0].id, "z");
    let dto = legacy().song_to_music_dto(one.clone(), &AlbumFallback::none());
    assert_eq!(dto.album_artists[0].name, "Band");
    assert_eq!(dto.album_artists[0].id, "si");
    one.album_artist = None;
    one.artist = None;
    one.artist_id = None;
    let dto = legacy().song_to_music_dto(one, &AlbumFallback::none());
    assert_eq!(dto.album_artists[0].name, "Unknown Artist");
    assert_eq!(dto.album_artists[0].id, "");
    assert_eq!(dto.artist_items[0].name, "Unknown Artist");
    assert_eq!(dto.artist_items[0].id, "");
}

#[test]
fn durations_are_told_in_ticks() {
    assert_eq!(seconds_to_ticks(0), 0);
    assert_eq!(seconds_to_ticks(3), 30_000_000);
    assert_eq!(seconds_to_ticks(u64::MAX / 10_000_000), u64::MAX / 10_000_000 * 10_000_000);
    assert_eq!(seconds_to_ticks(u64::MAX / 10_000_000 + 1), u64::MAX);
}

#[test]
fn the_library_is_made_of_its_albums() {
    let server = legacy();
    let songs = |ids: &[&str]| -> Result<Vec<MusicDto>, BackendError> {
        Ok(ids
            .iter()
            .map(|id| server.song_to_music_dto(song(id), &AlbumFallback::none()))
            .collect())
    };
    let failed = Err(BackendError::Http { status: 500, message: "oops".to_string() });
    let library = server.get_library(vec![songs(&["a", "b"]), failed, songs(&["c"])]);
    let ids: Vec<&str> = library.items.iter().map(|s| s.id.as_str()).collect();
    assert_eq!(ids, ["a", "b", "c"]);
    assert_eq!(library.total_record_count, 3);
    assert_eq!(server.get_library(Vec::new()).total_record_count, 0);
}

#[test]
fn playlists_are_listed() {
    let server = legacy();
    assert_eq!(server.get_playlists_request().endpoint, "getPlaylists");
    assert_eq!(server.get_playlists(answer()).unwrap().total_record_count, 0);
    let playlists = Playlists {
        playlist: vec![
            PlaylistSummary { id: "1".to_string(), name: "A".to_string(), song_count: Some(4) },
            PlaylistSummary { id: "2".to_string(), name: "B".to_string(), song_count: None },
        ],
    };
    let list =
        server.get_playlists(SubsonicResponse { playlists: Some(playlists), ..answer() }).unwrap();
    assert_eq!(list.total_record_count, 2);
    assert_eq!(list.items[0].id, "1");
    assert_eq!(list.items[0].name, "A");
    assert_eq!(list.items[0].child_count, 4);
    assert_eq!(list.items[1].child_count, 0);
}

#[test]
fn playlists_are_read_created_and_filled() {
    let server = legacy();
    let call = server.get_playlist_items_request("p1");
    assert_eq!(call.endpoint, "getPlaylist");
    assert_eq!(params(&call), [("id", "p1")]);
    let items = server.get_playlist_items(playlist(&["a", "b"])).unwrap();
    assert_eq!(items.total_record_count, 2);
    assert_eq!(items.items[1].id, "b");

    let ids = ["a".to_string(), "b".to_string()];
    let call = server.new_playlist_request("Mine", &ids);
    assert_eq!(call.endpoint, "createPlaylist");
    assert_eq!(params(&call), [("name", "Mine"), ("songId", "a"), ("songId", "b")]);
    assert_eq!(server.new_playlist(playlist(&[])).unwrap(), "p1");

    let call = server.add_playlist_items("p1", &ids);
    assert_eq!(call.endpoint, "updatePlaylist");
    assert_eq!(
        params(&call),
        [("playlistId", "p1"), ("songIdToAdd", "a"), ("songIdToAdd", "b")]
    );

    let call = server.delete_item("p1");
    assert_eq!(call.endpoint, "deletePlaylist");
    assert_eq!(params(&call), [("id", "p1")]);
}

#[test]
fn a_song_is_moved_within_a_playlist() {
    let server = legacy();
    let moved = |id: &str, index: i32| -> Vec<String> {
        let call =
            server.move_playlist_item(playlist(&["a", "b", "c", "b"]), "p1", id, index).unwrap();
        assert_eq!(call.endpoint, "createPlaylist");
        assert_eq!(call.params[0], ("playlistId".to_string(), "p1".to_string()));
        assert!(call.params[1..].iter().all(|(k, _)| k == "songId"));
        call.params[1..].iter().map(|(_, v)| v.clone()).collect()
    };
    assert_eq!(moved("a", 2), ["b", "c", "a", "b"]);
    assert_eq!(moved("b", 0), ["b", "a", "c", "b"]);
    assert_eq!(moved("b", 3), ["a", "c", "b", "b"]);
    assert_eq!(moved("a", 99), ["b", "c", "b", "a"]);
    assert_eq!(moved("a", -1), ["b", "c", "b", "a"]);
    assert_eq!(moved("z", 0), ["a", "b", "c", "b"]);
}

#[test]
fn the_last_move_counts() {
    let server = legacy();
    let moved = |ids: &[String], id: &str, index: i32| -> Vec<String> {
        let ids: Vec<&str> = ids.iter().map(|id| id.as_str()).collect();
        let call = server.move_playlist_item(playlist(&ids), "p1", id, index).unwrap();
        call.params[1..].iter().map(|(_, v)| v.clone()).collect()
    };
    let ids: Vec<String> = ["a", "b", "c", "d"].iter().map(|id| id.to_string()).collect();
    assert_eq!(moved(&moved(&ids, "b", 3), "b", 0), moved(&ids, "b", 0));
    assert_eq!(moved(&moved(&ids, "b", 3), "b", 1), ids);
    assert_eq!(moved(&ids, "c", 2), ids);
}

#[test]
fn a_song_is_taken_out_of_a_playlist() {
    let server = legacy();
    let call = server.remove_playlist_item(playlist(&["a", "b", "b"]), "p1", "b").unwrap();
    assert_eq!(call.endpoint, "updatePlaylist");
    assert_eq!(params(&call), [("playlistId", "p1"), ("songIndexToRemove", "1")]);
    assert!(matches!(
        server.remove_playlist_item(playlist(&["a"]), "p1", "z"),
        Err(BackendError::Http { status: 404, message })
            if message == "Item z not found in playlist p1"
    ));
}

#[test]
fn a_scan_is_started() {
    let call = legacy().request_library_rescan("any");
    assert_eq!(call.endpoint, "startScan");
    assert!(call.params.is_empty());
}

#[test]
fn playback_info_is_made_of_a_song() {
    let server = legacy();
    let call = server.get_playback_info_request("s1");
    assert_eq!(call.endpoint, "getSong");
    assert_eq!(params(&call), [("id", "s1")]);
    let mut one = song("s1");
    one.suffix = some("flac");
    one.bit_rate = Some(900);
    one.sampling_rate = Some(44100);
    one.channel_count = Some(2);
    one.path = some("a/b.flac");
    one.size = Some(1234);
    let info =
        server.get_playback_info(SubsonicResponse { song: Some(one), ..answer() }).unwrap();
    assert_eq!(info.media_sources.len(), 1);
    let source = &info.media_sources[0];
    assert_eq!(source.id, some("s1"));
    assert_eq!(source.path, some("a/b.flac"));
    assert_eq!(source.container, some("flac"));
    assert_eq!(source.size, Some(1234));
    assert_eq!(source.supports_direct_play, Some(true));
    assert_eq!(source.supports_direct_stream, Some(true));
    assert_eq!(source.supports_transcoding, Some(true));
    assert_eq!(source.media_streams.len(), 1);
    let stream = &source.media_streams[0];
    assert_eq!(stream.type_, some("Audio"));
    assert_eq!(stream.codec, some("flac"));
    assert_eq!(stream.bit_rate, Some(900));
    assert_eq!(stream.sample_rate, Some(44100));
    assert_eq!(stream.channels, Some(2));
}

#[test]
fn a_song_counts_as_played_after_a_while() {
    let server = legacy();
    let report = |position_ticks: u64| PlaybackReport {
        item_id: "s1".to_string(),
        session_id: "".to_string(),
        play_session_id: "".to_string(),
        can_seek: false,
        is_paused: false,
        is_muted: false,
        position_ticks,
    };
    assert!(server.playback_report(&report(0), &PlaybackReportStatus::InProgress).is_none());
    for (ticks, state, submission) in [
        (90_000_000, PlaybackReportStatus::Started, "false"),
        (49_999_999, PlaybackReportStatus::Stopped, "false"),
        (50_000_000, PlaybackReportStatus::Stopped, "true"),
    ] {
        let call = server.playback_report(&report(ticks), &state).unwrap();
        assert_eq!(call.endpoint, "scrobble");
        assert_eq!(params(&call), [("id", "s1"), ("submission", submission)]);
    }
}

#[test]
fn synced_lyrics_are_preferred() {
    let server = legacy();
    let call = server.fetch_lyrics_request("s1");
    assert_eq!(call.endpoint, "getLyricsBySongId");
    assert_eq!(params(&call), [("id", "s1")]);
    let lyrics = |versions: Vec<(bool, &str, Option<u64>)>| SubsonicResponse {
        lyrics_list: Some(LyricsList {
            structured_lyrics: versions
                .into_iter()
                .map(|(synced, value, start)| StructuredLyrics {
                    synced,
                    line: vec![LyricsLine { value: value.to_string(), start }],
                })
                .collect(),
        }),
        ..answer()
    };
    let response = lyrics(vec![(false, "plain", None), (true, "first", Some(15)), (true, "x", None)]);
    assert!(server.lyrics_in_range(&response));
    let found = server.fetch_lyrics(response).unwrap();
    assert_eq!(found.lyrics.len(), 1);
    assert_eq!(found.lyrics[0].text, "first");
    assert_eq!(found.lyrics[0].start, Some(150_000));
    let found = server.fetch_lyrics(lyrics(vec![(false, "a", None), (false, "b", None)])).unwrap();
    assert_eq!(found.lyrics[0].text, "a");
    assert_eq!(found.lyrics[0].start, None);
    assert!(server.fetch_lyrics(lyrics(vec![])).unwrap().lyrics.is_empty());
    assert!(server.fetch_lyrics(answer()).unwrap().lyrics.is_empty());
    let late = lyrics(vec![(true, "late", Some(u64::MAX))]);
    assert!(!server.lyrics_in_range(&late));
    let refused = SubsonicResponse { status: "failed".to_string(), ..late };
    assert!(server.lyrics_in_range(&refused));
    assert!(is_bad_answer(server.fetch_lyrics(refused), "Subsonic API returned non-ok status"));
}
