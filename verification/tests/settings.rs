use gelly::config::{
    application_uuid, application_uuid_or, clear_credentials, get_album_art_window_background_enabled,
    get_albums_sort_by, get_albums_sort_direction, get_artists_sort_by, get_artists_sort_direction,
    get_backend_type, get_compact_mode_enabled, get_gapless_playback_enabled,
    get_inhibit_suspend_enabled, get_max_bitrate, get_normalize_audio_enabled, get_playback_mode,
    get_playlist_favorites_enabled, get_playlist_most_played_enabled, get_playlist_shuffle_enabled,
    get_playlists_sort_by, get_playlists_sort_direction, get_refresh_on_startup,
    get_subsonic_auth_mode, get_transcoding_profile, get_volume, logout, retrieve_credentials,
    retrieve_jellyfin_api_token, retrieve_subsonic_password, set_albums_sort_by,
    set_albums_sort_direction, set_artists_sort_by, set_artists_sort_direction, set_backend_type,
    set_playback_mode, set_playlists_sort_by, set_playlists_sort_direction,
    set_transcoding_profile, set_volume, store_jellyfin_api_token, store_subsonic_password,
    BackendType, SettingValue, Settings, TranscodingProfile, APP_ID,
};
use gelly::number::Real;
use gelly::subsonic::SubsonicAuthMode;

fn text(s: &str) -> SettingValue {
    SettingValue::Text(s.to_string())
}

fn complete() -> Settings {
    let mut settings = Settings::new();
    settings.set("backend-type", text("jellyfin"));
    settings.set("hostname", text("https://music.example.com"));
    settings.set("user-id", text("u1"));
    settings.set("subsonic-username", text("joe"));
    settings.set("library-id", text("l1"));
    settings.set("uuid", text(""));
    settings.set("subsonic-auth-mode", text("token"));
    settings.set("transcoding-profile", text("OPUS+MP4"));
    settings.set("max-bitrate", SettingValue::Int(0));
    for key in [
        "sort-albums-by",
        "sort-albums-direction",
        "sort-artists-by",
        "sort-artists-direction",
        "sort-playlists-by",
        "sort-playlists-direction",
        "playback-mode",
    ] {
        settings.set(key, SettingValue::UInt(0));
    }
    for key in [
        "refresh-on-startup",
        "playlist-shuffle-enabled",
        "playlist-most-played-enabled",
        "playlist-favorites-enabled",
        "normalize-audio",
        "gapless-playback",
        "inhibit-suspend",
        "compact-mode",
        "album-art-window-background",
    ] {
        settings.set(key, SettingValue::Bool(false));
    }
    settings.set("volume", SettingValue::Double(Real { bits: 1.0f64.to_bits() }));
    settings
}

fn pairs(pairs: &[(&str, &str)]) -> Vec<(String, String)> {
    pairs.iter().map(|(k, v)| (k.to_string(), v.to_string())).collect()
}

#[test]
fn complete_settings_are_recognized() {
    assert!(complete().is_complete());
    assert!(!Settings::new().is_complete());
    let mut settings = complete();
    settings.set("volume", SettingValue::UInt(1));
    assert!(!settings.is_complete());
    assert_eq!(APP_ID, "io.m51.Gelly");
}

#[test]
fn a_setting_that_was_set_is_read_back() {
    let mut settings = complete();
    settings.set("hostname", text("https://other.example.com"));
    assert!(matches!(settings.get("hostname"), Some(SettingValue::Text(s)) if s == "https://other.example.com"));
    assert!(matches!(settings.get("user-id"), Some(SettingValue::Text(s)) if s == "u1"));
    assert!(settings.get("no-such-key").is_none());
    assert!(settings.is_complete());
    assert_eq!(settings.read_text("hostname"), "https://other.example.com");
    assert_eq!(settings.read_int("max-bitrate"), 0);
}

#[test]
fn backend_types_have_names() {
    assert_eq!(BackendType::Jellyfin.as_str(), "jellyfin");
    assert_eq!(BackendType::Subsonic.as_str(), "subsonic");
    assert_eq!(BackendType::from_str("subsonic"), BackendType::Subsonic);
    assert_eq!(BackendType::from_str("jellyfin"), BackendType::Jellyfin);
    assert_eq!(BackendType::from_str("Subsonic"), BackendType::Jellyfin);
    assert_eq!(BackendType::from_str(""), BackendType::Jellyfin);
    assert_eq!(BackendType::default(), BackendType::Jellyfin);
    assert_eq!(BackendType::Jellyfin.id_key(), "user-id");
    assert_eq!(BackendType::Subsonic.id_key(), "subsonic-username");
}

#[test]
fn the_backend_type_is_read_back() {
    let mut settings = complete();
    for backend in [BackendType::Subsonic, BackendType::Jellyfin] {
        set_backend_type(&mut settings, backend);
        assert_eq!(get_backend_type(&settings), backend);
    }
}

#[test]
fn keys_are_distinct() {
    let mut settings = complete();
    set_albums_sort_by(&mut settings, 1);
    set_albums_sort_direction(&mut settings, 2);
    set_artists_sort_by(&mut settings, 3);
    set_artists_sort_direction(&mut settings, 4);
    set_playlists_sort_by(&mut settings, 5);
    set_playlists_sort_direction(&mut settings, 6);
    set_playback_mode(&mut settings, 7);
    assert_eq!(get_albums_sort_by(&settings), 1);
    assert_eq!(get_albums_sort_direction(&settings), 2);
    assert_eq!(get_artists_sort_by(&settings), 3);
    assert_eq!(get_artists_sort_direction(&settings), 4);
    assert_eq!(get_playlists_sort_by(&settings), 5);
    assert_eq!(get_playlists_sort_direction(&settings), 6);
    assert_eq!(get_playback_mode(&settings), 7);
}

#[test]
fn switches_are_read_by_their_keys() {
    let switches: [(&str, fn(&Settings) -> bool); 9] = [
        ("refresh-on-startup", get_refresh_on_startup),
        ("playlist-shuffle-enabled", get_playlist_shuffle_enabled),
        ("playlist-most-played-enabled", get_playlist_most_played_enabled),
        ("playlist-favorites-enabled", get_playlist_favorites_enabled),
        ("normalize-audio", get_normalize_audio_enabled),
        ("gapless-playback", get_gapless_playback_enabled),
        ("inhibit-suspend", get_inhibit_suspend_enabled),
        ("compact-mode", get_compact_mode_enabled),
        ("album-art-window-background", get_album_art_window_background_enabled),
    ];
    for (i, (key, _)) in switches.iter().enumerate() {
        let mut settings = complete();
        settings.set(key, SettingValue::Bool(true));
        for (j, (_, get)) in switches.iter().enumerate() {
            assert_eq!(get(&settings), i == j);
        }
    }
}

#[test]
fn the_volume_is_read_back() {
    let mut settings = complete();
    set_volume(&mut settings, Real { bits: 0.25f64.to_bits() });
    assert_eq!(f64::from_bits(get_volume(&settings).bits), 0.25);
}

#[test]
fn profiles_are_read_back_by_name() {
    let mut settings = complete();
    for profile in TranscodingProfile::profiles() {
        set_transcoding_profile(&mut settings, profile.clone());
        assert_eq!(get_transcoding_profile(&settings), profile);
    }
    settings.set("transcoding-profile", text("VORBIS+OGG"));
    assert_eq!(get_transcoding_profile(&settings), TranscodingProfile::opus_mp4());
    assert_eq!(TranscodingProfile::aac_ts().codec, "aac");
    assert_eq!(TranscodingProfile::aac_ts().container, "ts");
    assert_eq!(TranscodingProfile::opus_mp4().codec, "opus");
    assert_eq!(TranscodingProfile::opus_mp4().container, "mp4");
    assert_eq!(TranscodingProfile::as_string_list(), vec!["OPUS+MP4", "AAC+TS"]);
}

#[test]
fn the_largest_bit_rate_is_in_the_unit_of_the_server() {
    let mut settings = complete();
    assert_eq!(get_max_bitrate(&settings), None);
    settings.set("max-bitrate", SettingValue::Int(320));
    assert_eq!(get_max_bitrate(&settings), Some(320000));
    settings.set("max-bitrate", SettingValue::Int(3_000_000));
    assert_eq!(get_max_bitrate(&settings), Some(i32::MAX));
    settings.set("max-bitrate", SettingValue::Int(-3_000_000));
    assert_eq!(get_max_bitrate(&settings), Some(i32::MIN));
    set_backend_type(&mut settings, BackendType::Subsonic);
    settings.set("max-bitrate", SettingValue::Int(320));
    assert_eq!(get_max_bitrate(&settings), Some(320));
    settings.set("max-bitrate", SettingValue::Int(0));
    assert_eq!(get_max_bitrate(&settings), None);
}

#[test]
fn auth_modes_are_read_from_the_settings() {
    let mut settings = complete();
    assert_eq!(get_subsonic_auth_mode(&settings), SubsonicAuthMode::Token);
    settings.set("subsonic-auth-mode", text("legacy-password"));
    assert_eq!(get_subsonic_auth_mode(&settings), SubsonicAuthMode::LegacyPassword);
    settings.set("subsonic-auth-mode", text("something else"));
    assert_eq!(get_subsonic_auth_mode(&settings), SubsonicAuthMode::Token);
}

#[test]
fn logging_out_forgets_who_was_logged_in() {
    let mut settings = complete();
    set_backend_type(&mut settings, BackendType::Subsonic);
    let attributes = logout(&mut settings);
    assert_eq!(
        attributes,
        pairs(&[("host", "https://music.example.com"), ("subsonic-username", "joe")])
    );
    assert_eq!(settings.read_text("user-id"), "");
    assert_eq!(settings.read_text("subsonic-username"), "");
    assert_eq!(settings.read_text("library-id"), "");
    assert_eq!(settings.read_text("hostname"), "https://music.example.com");
    assert_eq!(get_backend_type(&settings), BackendType::Jellyfin);
    assert!(settings.is_complete());
}

#[test]
fn credentials_are_cleared_for_the_user_of_the_server() {
    let settings = complete();
    assert_eq!(
        clear_credentials(&settings, BackendType::Jellyfin),
        pairs(&[("host", "https://music.example.com"), ("user-id", "u1")])
    );
    assert_eq!(
        clear_credentials(&settings, BackendType::Subsonic),
        pairs(&[("host", "https://music.example.com"), ("subsonic-username", "joe")])
    );
}

#[test]
fn credentials_are_found_by_those_they_were_stored_for() {
    let item = store_jellyfin_api_token("h", "u", "SECRET");
    assert_eq!(item.label, "Jellyfin API Token");
    assert_eq!(item.secret, "SECRET");
    assert_eq!(item.attributes, retrieve_jellyfin_api_token("h", "u"));
    assert_ne!(item.attributes, retrieve_jellyfin_api_token("h", "v"));
    assert_ne!(item.attributes, retrieve_subsonic_password("h", "u"));
    let item = store_subsonic_password("h", "joe", "sesame");
    assert_eq!(item.label, "Subsonic Password");
    assert_eq!(item.secret, "sesame");
    assert_eq!(item.attributes, retrieve_subsonic_password("h", "joe"));
    assert_eq!(item.attributes, pairs(&[("host", "h"), ("subsonic-username", "joe")]));
}

#[test]
fn retrieved_credentials_are_text() {
    assert_eq!(retrieve_credentials(Ok(None)), None);
    assert_eq!(retrieve_credentials(Err("locked".to_string())), None);
    assert_eq!(
        retrieve_credentials(Ok(Some("s\u{e9}same".as_bytes().to_vec()))),
        Some("s\u{e9}same".to_string())
    );
    assert_eq!(
        retrieve_credentials(Ok(Some(vec![b'a', 0xff, b'b']))),
        Some("a\u{fffd}b".to_string())
    );
}

#[test]
fn the_client_keeps_its_identifier() {
    let mut settings = complete();
    let first = application_uuid(&mut settings);
    assert_eq!(first.len(), 36);
    for (i, c) in first.chars().enumerate() {
        match i {
            8 | 13 | 18 | 23 => assert_eq!(c, '-'),
            14 => assert_eq!(c, '4'),
            19 => assert!("89ab".contains(c)),
            _ => assert!("0123456789abcdef".contains(c)),
        }
    }
    assert_eq!(settings.read_text("uuid"), first);
    assert_eq!(application_uuid(&mut settings), first);
    assert_eq!(application_uuid_or(&mut settings, "other".to_string()), first);
    let mut other = complete();
    assert_ne!(application_uuid(&mut other), first);
    let mut fresh = complete();
    assert_eq!(application_uuid_or(&mut fresh, "new".to_string()), "new");
    assert_eq!(fresh.read_text("uuid"), "new");
}
