//! What the requests to a Subsonic server say. Each law speaks of a call by its arguments and its
//! result alone.

use vstd::prelude::*;

use crate::backend::{lemma_elements, BackendError};
use crate::config::{SettingView, Settings};
use crate::foreign::{md5_digest, parsed_url, url_with_query};
use crate::jellyfin::api::ImageType;
use crate::subsonic::laws::{lemma_says, says};
use crate::subsonic::library::AlbumIdsScan;
use crate::subsonic::urls::law_bytes_params;
use crate::subsonic::{
    auth_params, bytes_params, new_salt, rest_url_text, Call, Params, Subsonic, SubsonicAuthMode,
    SubsonicRequest,
};
use crate::text;

verus! {

broadcast use vstd::string::group_string_axioms;

/// The token is called so, and so is the legacy password; any other name stands for the token.
pub proof fn law_auth_modes_are_named(
    mode: SubsonicAuthMode,
    name: &str,
    written: &'static str,
    read: SubsonicAuthMode,
)
    requires
        call_ensures(SubsonicAuthMode::as_str, (mode,), written),
        call_ensures(SubsonicAuthMode::from_str, (name,), read),
    ensures
        mode == SubsonicAuthMode::Token ==> written@ == "token"@,
        mode == SubsonicAuthMode::LegacyPassword ==> written@ == "legacy-password"@,
        read == SubsonicAuthMode::LegacyPassword <==> name@ == "legacy-password"@,
{
}

/// A user has the host, the name and the password that were given, and is authenticated as the
/// settings say.
pub proof fn law_user_is_made(
    host: &str,
    username: &str,
    password: &str,
    settings: &Settings,
    mode: Seq<char>,
    r: Subsonic,
)
    requires
        call_ensures(Subsonic::new, (host, username, password, settings), r),
        settings@["subsonic-auth-mode"@] == SettingView::Text(mode),
    ensures
        r.host@ == host@,
        r.username@ == username@,
        r.password@ == password@,
        r.auth_mode == SubsonicAuthMode::LegacyPassword <==> mode == "legacy-password"@,
{
}

/// A log-in is tried exactly where none of the three is blank, and then with what was given.
pub proof fn law_log_in_is_tried(
    host: &str,
    username: &str,
    password: &str,
    settings: &Settings,
    mode: Seq<char>,
    r: Result<Subsonic, BackendError>,
)
    requires
        call_ensures(Subsonic::new_authenticate, (host, username, password, settings), r),
        settings@["subsonic-auth-mode"@] == SettingView::Text(mode),
    ensures
        r is Ok <==> text::trimmed(host@).len() > 0 && text::trimmed(username@).len() > 0
            && text::trimmed(password@).len() > 0,
        r matches Ok(user) ==> user.host@ == host@ && user.username@ == username@
            && user.password@ == password@ && (user.auth_mode == SubsonicAuthMode::LegacyPassword
            <==> mode == "legacy-password"@),
        r matches Err(error) ==> (error matches BackendError::AuthenticationFailed { message }
            && message@ == "Missing host/username/password"@),
{
}

/// A user is authenticated exactly with a host, a name and a password.
pub proof fn law_user_is_authenticated(user: &Subsonic, r: bool)
    requires
        call_ensures(Subsonic::is_authenticated, (user,), r),
    ensures
        r <==> user.host@.len() > 0 && user.username@.len() > 0 && user.password@.len() > 0,
{
}

/// Whether some parameters tell who a user is: the name, the protocol and the player.
pub open spec fn introduces(params: Seq<(String, String)>, user: Subsonic) -> bool {
    &&& params.len() >= 3
    &&& says(params[0], "u"@, user.username@)
    &&& says(params[1], "v"@, "1.15.0"@)
    &&& says(params[2], "c"@, "gelly"@)
}

/// Whether some parameters, from an index on, prove who a user is: by the digest of the password
/// and a salt, and that salt, or by the password itself.
pub open spec fn proves(
    params: Seq<(String, String)>,
    from: int,
    user: Subsonic,
    salt: Seq<char>,
) -> bool {
    match user.auth_mode {
        SubsonicAuthMode::Token => {
            &&& params.len() >= from + 2
            &&& says(
                params[from],
                "t"@,
                text::lower_hex(md5_digest(vstd::utf8::encode_utf8(user.password@ + salt))@),
            )
            &&& says(params[from + 1], "s"@, salt)
        },
        SubsonicAuthMode::LegacyPassword => {
            &&& params.len() >= from + 1
            &&& says(
                params[from],
                "p"@,
                "enc:"@ + text::lower_hex(vstd::utf8::encode_utf8(user.password@)),
            )
        },
    }
}

/// How many parameters it takes to prove who a user is.
pub open spec fn proof_len(user: Subsonic) -> int {
    if user.auth_mode == SubsonicAuthMode::Token {
        2
    } else {
        1
    }
}

/// A request for JSON tells who the user is and proves it.
pub proof fn law_json_request_proves_the_user(user: &Subsonic, salt: &str, r: Params)
    requires
        call_ensures(Subsonic::auth_params_with, (user, salt), r),
    ensures
        introduces(r@, *user),
        says(r@[3], "f"@, "json"@),
        proves(r@, 4, *user, salt@),
        r@.len() == 4 + proof_len(*user),
{
    lemma_auth_params(*user, salt@, r);
}

/// What holds the parameters of a user tells and proves who that is.
proof fn lemma_auth_params(user: Subsonic, salt: Seq<char>, r: Params)
    requires
        r.deep_view() == auth_params(user.deep_view(), salt),
    ensures
        introduces(r@, user),
        says(r@[3], "f"@, "json"@),
        proves(r@, 4, user, salt),
        r@.len() == 4 + proof_len(user),
{
    lemma_says(r);
    let v = r.deep_view();
    assert(v[0].0 == "u"@);
    assert(v[1].0 == "v"@);
    assert(v[2].0 == "c"@);
    assert(v[3].0 == "f"@);
    if user.auth_mode == SubsonicAuthMode::Token {
        assert(v[4].0 == "t"@);
        assert(v[5].0 == "s"@);
    } else {
        assert(v[4].0 == "p"@);
    }
}

/// What holds the parameters of a user but for the format tells and proves who that is.
proof fn lemma_bytes_params(user: Subsonic, salt: Seq<char>)
    ensures
        ({
            let v = bytes_params(user.deep_view(), salt);
            &&& v.len() == 3 + proof_len(user)
            &&& v[0] == ("u"@, user.username@)
            &&& v[1] == ("v"@, "1.15.0"@)
            &&& v[2] == ("c"@, "gelly"@)
            &&& user.auth_mode == SubsonicAuthMode::Token ==> v[3] == (
                "t"@,
                text::lower_hex(md5_digest(vstd::utf8::encode_utf8(user.password@ + salt))@),
            ) && v[4] == ("s"@, salt)
            &&& user.auth_mode == SubsonicAuthMode::LegacyPassword ==> v[3] == (
                "p"@,
                "enc:"@ + text::lower_hex(vstd::utf8::encode_utf8(user.password@)),
            )
        }),
{
    law_bytes_params(user.deep_view(), salt);
}

/// A request for JSON with a new salt proves the user by that salt, which has sixteen ASCII letters
/// and digits.
pub proof fn law_new_request_proves_the_user(user: &Subsonic, r: Params)
    requires
        call_ensures(Subsonic::auth_params, (user,), r),
    ensures
        introduces(r@, *user),
        says(r@[3], "f"@, "json"@),
        r@.len() == 4 + proof_len(*user),
        user.auth_mode == SubsonicAuthMode::LegacyPassword ==> proves(r@, 4, *user, seq![]),
        user.auth_mode == SubsonicAuthMode::Token ==> {
            let salt = r@[5].1@;
            &&& proves(r@, 4, *user, salt)
            &&& salt.len() == 16
            &&& forall|i: int|
                0 <= i < 16 ==> ('A' <= #[trigger] salt[i] <= 'Z' || 'a' <= salt[i] <= 'z' || '0'
                    <= salt[i] <= '9')
        },
{
    let salt = choose|salt: Seq<char>| #[trigger]
        user.usable_salt(salt) && r.deep_view() == auth_params(
            user.deep_view(),
            salt,
        );
    lemma_auth_params(*user, salt, r);
}

/// A salt has sixteen ASCII letters and digits.
pub proof fn law_salt_is_plain(r: String)
    requires
        call_ensures(new_salt, (), r),
    ensures
        r@.len() == 16,
        forall|i: int|
            0 <= i < 16 ==> ('A' <= #[trigger] r@[i] <= 'Z' || 'a' <= r@[i] <= 'z' || '0' <= r@[i]
                <= '9'),
{
}

/// The URL of an endpoint is that of the host, the path of the protocol and the endpoint. Slashes
/// at the end of the host, slashes before the endpoint and a suffix that it already has are dealt
/// with by another law.
pub proof fn law_endpoint_has_its_url(
    user: &Subsonic,
    endpoint: &str,
    r: Option<String>,
    owed: String,
)
    requires
        call_ensures(Subsonic::try_rest_url, (user, endpoint), r),
        call_ensures(Subsonic::rest_url, (user, endpoint), owed),
        user.host@.len() > 0 ==> user.host@.last() != '/',
        endpoint@.len() > 0 ==> endpoint@[0] != '/',
        !".view"@.is_suffix_of(endpoint@),
    ensures
        r.deep_view() == parsed_url(user.host@ + "/rest/"@ + endpoint@ + ".view"@),
        Some(owed@) == parsed_url(user.host@ + "/rest/"@ + endpoint@ + ".view"@),
{
}

/// A call is sent to its endpoint, with what proves the user and then with every parameter of its
/// own, in their order.
pub proof fn law_call_is_sent_whole(
    user: &Subsonic,
    call: Call,
    salt: &str,
    r: SubsonicRequest,
)
    requires
        call_ensures(Subsonic::get_json_with, (user, call, salt), r),
        user.host@.len() > 0 ==> user.host@.last() != '/',
        call.endpoint@.len() > 0 ==> call.endpoint@[0] != '/',
        !".view"@.is_suffix_of(call.endpoint@),
    ensures
        Some(r.url@) == parsed_url(user.host@ + "/rest/"@ + call.endpoint@ + ".view"@),
        introduces(r.params@, *user),
        says(r.params@[3], "f"@, "json"@),
        proves(r.params@, 4, *user, salt@),
        r.params@.len() == 4 + proof_len(*user) + call.params@.len(),
        forall|i: int|
            0 <= i < call.params@.len() ==> says(
                r.params@[4 + proof_len(*user) + i],
                (#[trigger] call.params@[i]).0@,
                call.params@[i].1@,
            ),
{
    let v = r.params.deep_view();
    let own = auth_params(user.deep_view(), salt@);
    lemma_says(r.params);
    lemma_says(call.params);
    assert forall|i: int| 0 <= i < own.len() implies #[trigger] v[i] == own[i] by {}
    assert(v[0].0 == "u"@);
    assert(v[1].0 == "v"@);
    assert(v[2].0 == "c"@);
    assert(v[3].0 == "f"@);
    if user.auth_mode == SubsonicAuthMode::Token {
        assert(v[4].0 == "t"@);
        assert(v[5].0 == "s"@);
    } else {
        assert(v[4].0 == "p"@);
    }
    assert forall|i: int| 0 <= i < call.params@.len() implies says(
        r.params@[4 + proof_len(*user) + i],
        (#[trigger] call.params@[i]).0@,
        call.params@[i].1@,
    ) by {
        assert(v[own.len() + i] == call.params.deep_view()[i]);
    }
}

/// A picture is asked for by what proves the user and by the item, without a format. Its size is
/// asked for too, as at least one pixel, unless it is a backdrop.
pub proof fn law_picture_is_asked_for(
    user: &Subsonic,
    item_id: &str,
    image_type: ImageType,
    size: u32,
    salt: &str,
    r: SubsonicRequest,
)
    requires
        call_ensures(Subsonic::get_image_with, (user, item_id, image_type, size, salt), r),
        user.host@.len() > 0 ==> user.host@.last() != '/',
    ensures
        Some(r.url@) == parsed_url(user.host@ + "/rest/getCoverArt.view"@),
        introduces(r.params@, *user),
        proves(r.params@, 3, *user, salt@),
        says(r.params@.last(), "id"@, item_id@),
        image_type is Backdrop ==> r.params@.len() == 4 + proof_len(*user),
        !(image_type is Backdrop) ==> {
            &&& r.params@.len() == 5 + proof_len(*user)
            &&& size == 0 ==> says(r.params@[3 + proof_len(*user)], "size"@, "1"@)
            &&& size > 0 ==> says(
                r.params@[3 + proof_len(*user)],
                "size"@,
                text::decimal(size as nat),
            )
        },
{
    let v = r.params.deep_view();
    let own = bytes_params(user.deep_view(), salt@);
    lemma_says(r.params);
    lemma_bytes_params(*user, salt@);
    lemma_plain_endpoints(user.host@);
    assert(text::decimal(1) =~= "1"@) by {
        reveal_strlit("1");
        reveal_strlit("0123456789abcdef");
    }
    assert forall|i: int| 0 <= i < own.len() implies #[trigger] v[i] == own[i] by {}
    assert(v[0] == own[0] && v[1] == own[1] && v[2] == own[2] && v[3] == own[3]);
    if user.auth_mode == SubsonicAuthMode::Token {
        assert(v[4] == own[4]);
    }
    assert(v.last() == ("id"@, item_id@));
    if !(image_type is Backdrop) {
        assert(v[own.len() as int].0 == "size"@);
    }
}

/// The endpoints of pictures and streams need no trimming.
proof fn lemma_plain_endpoints(host: Seq<char>)
    requires
        host.len() > 0 ==> host.last() != '/',
    ensures
        rest_url_text(host, "getCoverArt"@) == host + "/rest/getCoverArt.view"@,
        rest_url_text(host, "stream"@) == host + "/rest/stream.view"@,
{
    reveal_strlit("getCoverArt");
    reveal_strlit("stream");
    reveal_strlit(".view");
    reveal_strlit("/rest/");
    reveal_strlit("/rest/getCoverArt.view");
    reveal_strlit("/rest/stream.view");
    assert("getCoverArt"@[0] == 'g' && "stream"@[0] == 's');
    assert("getCoverArt"@.last() == 't' && "stream"@.last() == 'm' && ".view"@.last() == 'w');
    assert(!".view"@.is_suffix_of("getCoverArt"@));
    assert(!".view"@.is_suffix_of("stream"@));
    assert("/rest/"@ + "getCoverArt"@ + ".view"@ =~= "/rest/getCoverArt.view"@);
    assert("/rest/"@ + "stream"@ + ".view"@ =~= "/rest/stream.view"@);
    assert(rest_url_text(host, "getCoverArt"@) =~= host + ("/rest/"@
        + "getCoverArt"@ + ".view"@));
    assert(rest_url_text(host, "stream"@) =~= host + ("/rest/"@ + "stream"@
        + ".view"@));
}

/// A stream is asked for by what proves the user and by the song, at the bit rate that the settings
/// hold. A server of the other kind counts it in bits. The codec is that of the profile that the
/// settings name, and the song comes as it is where there is no limit.
pub proof fn law_stream_is_as_the_settings_say(
    user: &Subsonic,
    item_id: &str,
    settings: &Settings,
    salt: &str,
    limit: i32,
    backend: Seq<char>,
    profile: Seq<char>,
    r: Params,
)
    requires
        call_ensures(Subsonic::stream_params_with, (user, item_id, settings, salt), r),
        settings@["max-bitrate"@] == SettingView::Int(limit),
        settings@["backend-type"@] == SettingView::Text(backend),
        settings@["transcoding-profile"@] == SettingView::Text(profile),
    ensures
        introduces(r@, *user),
        proves(r@, 3, *user, salt@),
        r@.len() == 6 + proof_len(*user),
        ({
            let n = 3 + proof_len(*user);
            &&& says(r@[n], "id"@, item_id@)
            &&& limit == 0 ==> says(r@[n + 1], "maxBitRate"@, "0"@)
            &&& backend == "subsonic"@ && limit != 0 ==> says(
                r@[n + 1],
                "maxBitRate"@,
                text::decimal_int(limit as int),
            )
            &&& backend != "subsonic"@ && i32::MIN <= limit * 1000 <= i32::MAX && limit != 0
                ==> says(r@[n + 1], "maxBitRate"@, text::decimal_int(limit * 1000))
            &&& limit <= 0 ==> says(r@[n + 2], "format"@, "raw"@)
            &&& limit > 0 && profile == "AAC+TS"@ ==> says(r@[n + 2], "format"@, "aac"@)
            &&& limit > 0 && profile != "AAC+TS"@ ==> says(r@[n + 2], "format"@, "opus"@)
        }),
{
    let v = r.deep_view();
    let own = bytes_params(user.deep_view(), salt@);
    lemma_says(r);
    lemma_bytes_params(*user, salt@);
    assert(text::decimal_int(0) =~= "0"@) by {
        reveal_strlit("0");
        reveal_strlit("0123456789abcdef");
    }
    assert forall|i: int| 0 <= i < own.len() implies #[trigger] v[i] == own[i] by {}
    assert(v[0] == own[0] && v[1] == own[1] && v[2] == own[2] && v[3] == own[3]);
    if user.auth_mode == SubsonicAuthMode::Token {
        assert(v[4] == own[4]);
    }
    let n = own.len() as int;
    assert(v[n].0 == "id"@);
    assert(v[n + 1].0 == "maxBitRate"@);
    assert(v[n + 2].0 == "format"@);
}

/// The URL of a stream depends on these settings.
pub proof fn law_stream_settings(settings: Settings)
    ensures
        crate::subsonic::has_stream_settings(settings) <==> {
            &&& settings@.contains_key("max-bitrate"@) && settings@["max-bitrate"@] is Int
            &&& settings@.contains_key("backend-type"@) && settings@["backend-type"@] is Text
            &&& settings@.contains_key("transcoding-profile"@)
                && settings@["transcoding-profile"@] is Text
        },
{
}

/// The URL of a stream is that of the endpoint with every parameter of the stream in its query.
pub proof fn law_stream_has_its_url(
    user: &Subsonic,
    item_id: &str,
    settings: &Settings,
    salt: &str,
    params: Params,
    r: String,
)
    requires
        call_ensures(Subsonic::stream_params_with, (user, item_id, settings, salt), params),
        call_ensures(Subsonic::get_stream_uri_with, (user, item_id, settings, salt), r),
        user.host@.len() > 0 ==> user.host@.last() != '/',
    ensures
        Some(r@) == url_with_query(user.host@ + "/rest/stream.view"@, params.deep_view()),
{
    lemma_plain_endpoints(user.host@);
}

/// The albums of one folder are listed where a library names one, and otherwise those of all.
pub proof fn law_scan_starts_at_the_folder(library_id: &str, r: AlbumIdsScan)
    requires
        call_ensures(AlbumIdsScan::new, (library_id,), r),
    ensures
        r.album_ids@.len() == 0,
        r.folder is None <==> text::trimmed(library_id@).len() == 0 || text::trimmed(library_id@)
            == "__gelly_subsonic_all__"@,
        r.folder matches Some(folder) ==> folder@ == text::trimmed(library_id@),
{
    lemma_elements(r.album_ids);
}

/// A page of five hundred albums is asked for, from after the last album that was listed on.
pub proof fn law_next_page_is_asked_for(scan: &AlbumIdsScan, r: Call)
    requires
        call_ensures(AlbumIdsScan::request, (scan,), r),
    ensures
        r.endpoint@ == "getAlbumList2"@,
        says(r.params@[0], "type"@, "alphabeticalByName"@),
        says(r.params@[1], "size"@, "500"@),
        says(r.params@[2], "offset"@, text::decimal(scan.album_ids@.len())),
        scan.folder is None ==> r.params@.len() == 3,
        scan.folder matches Some(folder) ==> r.params@.len() == 4 && says(
            r.params@[3],
            "musicFolderId"@,
            folder@,
        ),
{
    let v = r.params.deep_view();
    lemma_says(r.params);
    lemma_elements(scan.album_ids);
    assert(text::decimal(500) =~= "500"@) by {
        reveal_with_fuel(text::decimal, 3);
        reveal_strlit("500");
        reveal_strlit("0123456789abcdef");
    }
    assert(v[0].0 == "type"@);
    assert(v[1].0 == "size"@);
    assert(v[2].0 == "offset"@);
    if scan.folder is Some {
        assert(v[3].0 == "musicFolderId"@);
    }
}

} // verus!
