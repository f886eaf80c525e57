//! The requests to a Jellyfin server.

use vstd::prelude::*;

use crate::backend::pair;
use crate::config::{get_max_bitrate, get_transcoding_profile, max_bitrate, profile_named, Settings};
use crate::jellyfin::api::{
    ImageType, NewPlaylist, NewPlaylistView, PlaybackReport, PlaybackReportStatus,
};
use crate::jellyfin::{
    http_request, Body, BodyView, Device, HttpRequest, Jellyfin, JellyfinView, Method, Params,
};
use crate::text;

verus! {

broadcast use vstd::string::group_string_axioms;

/// The parameters that ask for a page of a library.
pub open spec fn library_page_params(library_id: Seq<char>, start_index: u64, limit: u64) -> Seq<
    (Seq<char>, Seq<char>),
> {
    seq![
        ("parentId"@, library_id),
        ("IncludeItemTypes"@, "Audio"@),
        ("sortBy"@, "DateCreated"@),
        ("sortOrder"@, "Descending"@),
        ("recursive"@, "true"@),
        ("fields"@, "DateCreated,Genres"@),
        ("ImageTypeLimit"@, "1"@),
        ("EnableImageTypes"@, "Primary"@),
        ("StartIndex"@, text::decimal(start_index as nat)),
        ("Limit"@, text::decimal(limit as nat)),
    ]
}

/// The parameters that ask for the playlists.
pub open spec fn playlists_params() -> Seq<(Seq<char>, Seq<char>)> {
    seq![
        ("IncludeItemTypes"@, "Playlist"@),
        ("sortBy"@, "DateCreated"@),
        ("sortOrder"@, "Descending"@),
        ("recursive"@, "true"@),
        ("fields"@, "DateCreated,ChildCount"@),
        ("ImageTypeLimit"@, "1"@),
        ("EnableImageTypes"@, "Primary"@),
        ("StartIndex"@, "0"@),
    ]
}

/// The parameters that ask for the favorites.
pub open spec fn favorites_params() -> Seq<(Seq<char>, Seq<char>)> {
    seq![
        ("IncludeItemTypes"@, "Playlist,Audio,MusicAlbum,MusicArtist"@),
        ("sortBy"@, "DateCreated"@),
        ("sortOrder"@, "Descending"@),
        ("recursive"@, "true"@),
        ("StartIndex"@, "0"@),
        ("enableTotalRecordCount"@, "false"@),
        ("enableImages"@, "false"@),
        ("Filters"@, "IsFavorite"@),
        ("Limit"@, "10000"@),
    ]
}

/// The parameters of a request to look for new music in a library.
pub open spec fn rescan_params(library_id: Seq<char>) -> Seq<(Seq<char>, Seq<char>)> {
    seq![
        ("itemId"@, library_id),
        ("Recursive"@, "true"@),
        ("ImageRefreshMode"@, "Default"@),
        ("MetadataRefreshMode"@, "Default"@),
        ("ReplaceAllImages"@, "false"@),
        ("RegenerateTrickplay"@, "false"@),
        ("ReplaceAllMetadata"@, "false"@),
    ]
}

impl Jellyfin {
    /// The request for the libraries.
    pub fn get_views(&self, device: &Device) -> (r: HttpRequest)
        ensures
            r.deep_view() == http_request(
                self.deep_view(),
                device.deep_view(),
                Method::Get,
                "UserViews"@,
                seq![],
                BodyView::Empty,
            ),
    {
        let endpoint = "UserViews";
        let params: Params = Vec::new();
        assert(params.deep_view() =~= seq![]);
        self.get(device, endpoint, params)
    }

    /// The request for a page of a library: as many songs as `limit` says, from an index on.
    pub fn get_library_page(
        &self,
        device: &Device,
        library_id: &str,
        start_index: u64,
        limit: u64,
    ) -> (r: HttpRequest)
        ensures
            r.deep_view() == http_request(
                self.deep_view(),
                device.deep_view(),
                Method::Get,
                "Items"@,
                library_page_params(library_id@, start_index, limit),
                BodyView::Empty,
            ),
    {
        let endpoint = "Items";
        let params: Params = vec![
            pair("parentId", library_id),
            pair("IncludeItemTypes", "Audio"),
            pair("sortBy", "DateCreated"),
            pair("sortOrder", "Descending"),
            pair("recursive", "true"),
            pair("fields", "DateCreated,Genres"),
            pair("ImageTypeLimit", "1"),
            pair("EnableImageTypes", "Primary"),
            pair("StartIndex", text::decimal_text(start_index).as_str()),
            pair("Limit", text::decimal_text(limit).as_str()),
        ];
        assert(params.deep_view() =~= library_page_params(library_id@, start_index, limit));
        self.get(device, endpoint, params)
    }

    /// The request for the playlists.
    pub fn get_playlists(&self, device: &Device) -> (r: HttpRequest)
        ensures
            r.deep_view() == http_request(
                self.deep_view(),
                device.deep_view(),
                Method::Get,
                "Items"@,
                playlists_params(),
                BodyView::Empty,
            ),
    {
        let endpoint = "Items";
        let params: Params = vec![
            pair("IncludeItemTypes", "Playlist"),
            pair("sortBy", "DateCreated"),
            pair("sortOrder", "Descending"),
            pair("recursive", "true"),
            pair("fields", "DateCreated,ChildCount"),
            pair("ImageTypeLimit", "1"),
            pair("EnableImageTypes", "Primary"),
            pair("StartIndex", "0"),
        ];
        assert(params.deep_view() =~= playlists_params());
        self.get(device, endpoint, params)
    }

    /// The request for the favorites.
    pub fn get_favorites(&self, device: &Device) -> (r: HttpRequest)
        ensures
            r.deep_view() == http_request(
                self.deep_view(),
                device.deep_view(),
                Method::Get,
                "Items"@,
                favorites_params(),
                BodyView::Empty,
            ),
    {
        let endpoint = "Items";
        let params: Params = vec![
            pair("IncludeItemTypes", "Playlist,Audio,MusicAlbum,MusicArtist"),
            pair("sortBy", "DateCreated"),
            pair("sortOrder", "Descending"),
            pair("recursive", "true"),
            pair("StartIndex", "0"),
            pair("enableTotalRecordCount", "false"),
            pair("enableImages", "false"),
            pair("Filters", "IsFavorite"),
            pair("Limit", "10000"),
        ];
        assert(params.deep_view() =~= favorites_params());
        self.get(device, endpoint, params)
    }

    /// The request for the songs of a playlist.
    pub fn get_playlist_items(&self, device: &Device, playlist_id: &str) -> (r: HttpRequest)
        ensures
            r.deep_view() == http_request(
                self.deep_view(),
                device.deep_view(),
                Method::Get,
                "Playlists/"@ + playlist_id@ + "/Items"@,
                seq![("fields"@, "DateCreated,Genres"@)],
                BodyView::Empty,
            ),
    {
        let mut endpoint = text::followed_by("Playlists/", playlist_id);
        endpoint.append("/Items");
        let params: Params = vec![
            pair("fields", "DateCreated,Genres"),
        ];
        assert(params.deep_view() =~= seq![("fields"@, "DateCreated,Genres"@)]);
        self.get(device, endpoint.as_str(), params)
    }

    /// The request that adds songs to a playlist.
    pub fn add_playlist_items(&self, device: &Device, playlist_id: &str, item_ids: &[String]) -> (r:
        HttpRequest)
        ensures
            r.deep_view() == http_request(
                self.deep_view(),
                device.deep_view(),
                Method::Post,
                "Playlists/"@ + playlist_id@ + "/Items"@,
                seq![
                    ("ids"@, text::joined(item_ids.deep_view(), ","@)),
                    ("userId"@, self.user_id@),
                ],
                BodyView::Text(seq![]),
            ),
    {
        let mut endpoint = text::followed_by("Playlists/", playlist_id);
        endpoint.append("/Items");
        let params: Params = vec![
            pair("ids", text::join(item_ids, ",").as_str()),
            pair("userId", self.user_id.as_str()),
        ];
        assert(params.deep_view() =~= seq![
            ("ids"@, text::joined(item_ids.deep_view(), ","@)),
            ("userId"@, self.user_id@),
        ]);
        self.post(device, endpoint.as_str(), params)
    }

    /// The request that moves a song within a playlist.
    pub fn move_playlist_item(
        &self,
        device: &Device,
        playlist_id: &str,
        item_id: &str,
        new_index: i32,
    ) -> (r: HttpRequest)
        ensures
            r.deep_view() == http_request(
                self.deep_view(),
                device.deep_view(),
                Method::Post,
                "Playlists/"@ + playlist_id@ + "/Items/"@ + item_id@ + "/Move/"@
                    + text::decimal_int(new_index as int),
                seq![],
                BodyView::Text(seq![]),
            ),
    {
        let mut endpoint = text::followed_by("Playlists/", playlist_id);
        endpoint.append("/Items/");
        endpoint.append(item_id);
        endpoint.append("/Move/");
        endpoint.append(text::decimal_int_text(new_index).as_str());
        let params: Params = Vec::new();
        assert(params.deep_view() =~= seq![]);
        self.post(device, endpoint.as_str(), params)
    }

    /// The request that takes a song out of a playlist.
    pub fn remove_playlist_item(&self, device: &Device, playlist_id: &str, item_id: &str) -> (r:
        HttpRequest)
        ensures
            r.deep_view() == http_request(
                self.deep_view(),
                device.deep_view(),
                Method::Delete,
                "Playlists/"@ + playlist_id@ + "/Items/"@,
                seq![("entryIds"@, item_id@)],
                BodyView::Empty,
            ),
    {
        let mut endpoint = text::followed_by("Playlists/", playlist_id);
        endpoint.append("/Items/");
        let params: Params = vec![
            pair("entryIds", item_id),
        ];
        assert(params.deep_view() =~= seq![("entryIds"@, item_id@)]);
        self.delete(device, endpoint.as_str(), params)
    }

    /// The request that deletes an item.
    pub fn delete_item(&self, device: &Device, item_id: &str) -> (r: HttpRequest)
        ensures
            r.deep_view() == http_request(
                self.deep_view(),
                device.deep_view(),
                Method::Delete,
                "Items/"@ + item_id@,
                seq![],
                BodyView::Empty,
            ),
    {
        let endpoint = text::followed_by("Items/", item_id);
        let params: Params = Vec::new();
        assert(params.deep_view() =~= seq![]);
        self.delete(device, endpoint.as_str(), params)
    }

    /// The request that has the server look for new music in a library.
    pub fn request_library_rescan(&self, device: &Device, library_id: &str) -> (r: HttpRequest)
        ensures
            r.deep_view() == http_request(
                self.deep_view(),
                device.deep_view(),
                Method::Post,
                "Items/"@ + library_id@ + "/Refresh"@,
                rescan_params(library_id@),
                BodyView::Text(seq![]),
            ),
    {
        let mut endpoint = text::followed_by("Items/", library_id);
        endpoint.append("/Refresh");
        let params: Params = vec![
            pair("itemId", library_id),
            pair("Recursive", "true"),
            pair("ImageRefreshMode", "Default"),
            pair("MetadataRefreshMode", "Default"),
            pair("ReplaceAllImages", "false"),
            pair("RegenerateTrickplay", "false"),
            pair("ReplaceAllMetadata", "false"),
        ];
        assert(params.deep_view() =~= rescan_params(library_id@));
        self.post(device, endpoint.as_str(), params)
    }

    /// The request for how a song can be played.
    pub fn get_playback_info(&self, device: &Device, item_id: &str) -> (r: HttpRequest)
        ensures
            r.deep_view() == http_request(
                self.deep_view(),
                device.deep_view(),
                Method::Get,
                "Items/"@ + item_id@ + "/PlaybackInfo"@,
                seq![],
                BodyView::Empty,
            ),
    {
        let mut endpoint = text::followed_by("Items/", item_id);
        endpoint.append("/PlaybackInfo");
        let params: Params = Vec::new();
        assert(params.deep_view() =~= seq![]);
        self.get(device, endpoint.as_str(), params)
    }

    /// The request for the lyrics of a song.
    pub fn fetch_lyrics(&self, device: &Device, item_id: &str) -> (r: HttpRequest)
        ensures
            r.deep_view() == http_request(
                self.deep_view(),
                device.deep_view(),
                Method::Get,
                "Audio/"@ + item_id@ + "/Lyrics"@,
                seq![],
                BodyView::Empty,
            ),
    {
        let mut endpoint = text::followed_by("Audio/", item_id);
        endpoint.append("/Lyrics");
        let params: Params = Vec::new();
        assert(params.deep_view() =~= seq![]);
        self.get(device, endpoint.as_str(), params)
    }
}

/// How many pixels wide and high a picture is before it is scaled for the screen.
pub open spec fn base_size(image_type: ImageType) -> (u32, u32) {
    if image_type is Backdrop {
        (1920, 300)
    } else {
        (200, 200)
    }
}

/// How many pixels wide and high a picture is before it is scaled for the screen.
pub fn image_base_size(image_type: ImageType) -> (r: (u32, u32))
    ensures
        r == base_size(image_type),
{
    match image_type {
        ImageType::Backdrop => (1920, 300),
        _ => (200, 200),
    }
}

/// A number of pixels, but at least one.
pub open spec fn pixels(n: u32) -> nat {
    if n == 0 {
        1
    } else {
        n as nat
    }
}

/// The parameters of a request for a picture: a backdrop is scaled down to fit the size, any other
/// picture is made to fill it.
pub open spec fn image_params(image_type: ImageType, width: u32, height: u32) -> Seq<
    (Seq<char>, Seq<char>),
> {
    let quality = ("quality"@, "96"@);
    if image_type is Backdrop {
        seq![
            ("maxWidth"@, text::decimal(pixels(width))),
            ("maxHeight"@, text::decimal(pixels(height))),
            quality,
        ]
    } else {
        seq![
            ("fillWidth"@, text::decimal(pixels(width))),
            ("fillHeight"@, text::decimal(pixels(height))),
            quality,
        ]
    }
}

/// A number of pixels, but at least one, in decimal.
fn pixels_text(n: u32) -> (r: String)
    ensures
        r@ == text::decimal(pixels(n)),
{
    if n == 0 {
        text::decimal_text(1)
    } else {
        text::decimal_text(n as u64)
    }
}

/// The formats that are played as they are.
pub const DIRECT_CONTAINERS: &'static str =
    "flac,opus,mp3,aac,m4a,ogg,wav,webm|opus,webm|webma,webma";

/// The bit rate that stands for no limit.
pub const UNLIMITED_BITRATE: i32 = 999999999;

/// The URL of a song's stream.
pub open spec fn stream_uri(user: JellyfinView, item_id: Seq<char>, settings: Settings) -> Seq<
    char,
> {
    let profile = profile_named(settings.text_at("transcoding-profile"@));
    let rate = match max_bitrate(settings) {
        Some(rate) => rate,
        None => UNLIMITED_BITRATE,
    };
    text::without_trailing_slashes(user.host) + "/Audio/"@ + item_id + "/universal?ApiKey="@
        + user.token + "&userId="@ + user.user_id + "&container="@ + DIRECT_CONTAINERS@
        + "&audioCodec="@ + profile.codec + "&transcodingContainer="@ + profile.container
        + "&transcodingProtocol="@ + "hls"@ + "&maxStreamingBitrate="@ + text::decimal_int(
        rate as int,
    )
}

/// The endpoint that a playback report goes to.
pub open spec fn report_endpoint(state: PlaybackReportStatus) -> Seq<char> {
    "Sessions/Playing/"@ + match state {
        PlaybackReportStatus::Started => ""@,
        PlaybackReportStatus::InProgress => "Progress"@,
        PlaybackReportStatus::Stopped => "Stopped"@,
    }
}

impl Jellyfin {
    /// The request that creates a playlist of some songs, for the user alone.
    pub fn new_playlist(&self, device: &Device, name: &str, items: Vec<String>) -> (r: HttpRequest)
        ensures
            r.deep_view() == http_request(
                self.deep_view(),
                device.deep_view(),
                Method::Post,
                "Playlists/"@,
                seq![],
                BodyView::NewPlaylist(
                    NewPlaylistView {
                        name: name@,
                        ids: items.deep_view(),
                        user_id: self.user_id@,
                        media_type: "Audio"@,
                        users: seq![],
                        is_public: false,
                    },
                ),
            ),
    {
        let body = NewPlaylist {
            name: name.to_owned(),
            ids: items,
            user_id: self.user_id.clone(),
            media_type: "Audio".to_owned(),
            users: Vec::new(),
            is_public: false,
        };
        assert(body.deep_view().users =~= seq![]);
        self.post_json(device, "Playlists/", Body::NewPlaylist(body))
    }

    /// The request that makes an item a favorite, or no longer one.
    pub fn set_favorite(&self, device: &Device, item_id: &str, is_favorite: bool) -> (r:
        HttpRequest)
        ensures
            r.deep_view() == if is_favorite {
                http_request(
                    self.deep_view(),
                    device.deep_view(),
                    Method::Post,
                    "UserFavoriteItems/"@ + item_id@,
                    seq![],
                    BodyView::Text(seq![]),
                )
            } else {
                http_request(
                    self.deep_view(),
                    device.deep_view(),
                    Method::Delete,
                    "UserFavoriteItems/"@ + item_id@,
                    seq![],
                    BodyView::Empty,
                )
            },
    {
        let endpoint = text::followed_by("UserFavoriteItems/", item_id);
        let params: Params = Vec::new();
        assert(params.deep_view() =~= seq![]);
        if is_favorite {
            self.post(device, endpoint.as_str(), params)
        } else {
            self.delete(device, endpoint.as_str(), params)
        }
    }

    /// The request for a picture of an item. The width and the height are those on the screen, in
    /// pixels, and at least one.
    pub fn get_image(
        &self,
        device: &Device,
        item_id: &str,
        image_type: ImageType,
        width: u32,
        height: u32,
    ) -> (r: HttpRequest)
        ensures
            r.deep_view() == http_request(
                self.deep_view(),
                device.deep_view(),
                Method::Get,
                "Items/"@ + item_id@ + "/Images/"@ + image_type.name(),
                image_params(image_type, width, height),
                BodyView::Empty,
            ),
    {
        let width_text = pixels_text(width);
        let height_text = pixels_text(height);
        let params: Params = match image_type {
            ImageType::Backdrop => vec![
                pair("maxWidth", width_text.as_str()),
                pair("maxHeight", height_text.as_str()),
                pair("quality", "96"),
            ],
            _ => vec![
                pair("fillWidth", width_text.as_str()),
                pair("fillHeight", height_text.as_str()),
                pair("quality", "96"),
            ],
        };
        assert(params.deep_view() =~= image_params(image_type, width, height));
        let mut endpoint = text::followed_by("Items/", item_id);
        endpoint.append("/Images/");
        endpoint.append(image_type.as_str());
        self.get(device, endpoint.as_str(), params)
    }

    /// The URL of a song's stream, transcoded as the settings say where it has to be.
    pub fn get_stream_uri(&self, item_id: &str, settings: &Settings) -> (r: String)
        requires
            settings.has_int("max-bitrate"@),
            settings.has_text("backend-type"@),
            settings.has_text("transcoding-profile"@),
        ensures
            r@ == stream_uri(self.deep_view(), item_id@, *settings),
    {
        let profile = get_transcoding_profile(settings);
        let rate: i32 = get_max_bitrate(settings).unwrap_or(UNLIMITED_BITRATE);
        let mut r = text::followed_by(text::trim_end_slashes(self.host.as_str()), "/Audio/");
        r.append(item_id);
        r.append("/universal?ApiKey=");
        r.append(self.token.as_str());
        r.append("&userId=");
        r.append(self.user_id.as_str());
        r.append("&container=");
        r.append(DIRECT_CONTAINERS);
        r.append("&audioCodec=");
        r.append(profile.codec);
        r.append("&transcodingContainer=");
        r.append(profile.container);
        r.append("&transcodingProtocol=");
        r.append("hls");
        r.append("&maxStreamingBitrate=");
        r.append(text::decimal_int_text(rate).as_str());
        r
    }

    /// The request that tells the server what is being played.
    pub fn playback_report(
        &self,
        device: &Device,
        report: PlaybackReport,
        state: &PlaybackReportStatus,
    ) -> (r: HttpRequest)
        ensures
            r.deep_view() == http_request(
                self.deep_view(),
                device.deep_view(),
                Method::Post,
                report_endpoint(*state),
                seq![],
                BodyView::PlaybackReport(report.deep_view()),
            ),
    {
        let path: &'static str = match state {
            PlaybackReportStatus::Started => "",
            PlaybackReportStatus::InProgress => "Progress",
            PlaybackReportStatus::Stopped => "Stopped",
        };
        let endpoint = text::followed_by("Sessions/Playing/", path);
        self.post_json(device, endpoint.as_str(), Body::PlaybackReport(report))
    }
}

/// The request that starts a log-in by code.
pub fn initiate_quick_connect(device: &Device, host: &str) -> (r: HttpRequest)
    ensures
        r.deep_view() == http_request(
            (JellyfinView { host: host@, token: ""@, user_id: ""@ }),
            device.deep_view(),
            Method::Post,
            "QuickConnect/Initiate"@,
            seq![],
            BodyView::Text(seq![]),
        ),
{
    let params: Params = Vec::new();
    assert(params.deep_view() =~= seq![]);
    Jellyfin::new(host, "", "").post(device, "QuickConnect/Initiate", params)
}

/// The request for the state of a log-in by code.
pub fn quick_connect_status(device: &Device, host: &str, secret: &str) -> (r: HttpRequest)
    ensures
        r.deep_view() == http_request(
            (JellyfinView { host: host@, token: ""@, user_id: ""@ }),
            device.deep_view(),
            Method::Get,
            "QuickConnect/Connect"@,
            seq![("secret"@, secret@)],
            BodyView::Empty,
        ),
{
    let params: Params = vec![pair("secret", secret)];
    assert(params.deep_view() =~= seq![("secret"@, secret@)]);
    Jellyfin::new(host, "", "").get(device, "QuickConnect/Connect", params)
}

} // verus!
