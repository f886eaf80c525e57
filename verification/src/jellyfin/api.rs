//! The data that a Jellyfin server sends and takes, and that the player works with.

use vstd::prelude::*;

use crate::foreign;
use crate::number::Real;
use crate::text;

verus! {

broadcast use vstd::string::group_string_axioms;

/// A user of a server.
#[derive(Debug)]
pub struct User {
    pub id: String,
}

/// What a [`User`] holds.
#[verifier::ext_equal]
pub struct UserView {
    pub id: Seq<char>,
}

impl DeepView for User {
    type V = UserView;

    open spec fn deep_view(&self) -> UserView {
        UserView {
            id: self.id.deep_view(),
        }
    }
}

/// The answer to a log-in.
#[derive(Debug)]
pub struct AuthenticateResponse {
    pub access_token: String,
    pub user: User,
}

/// What an [`AuthenticateResponse`] holds.
#[verifier::ext_equal]
pub struct AuthenticateResponseView {
    pub access_token: Seq<char>,
    pub user: UserView,
}

impl DeepView for AuthenticateResponse {
    type V = AuthenticateResponseView;

    open spec fn deep_view(&self) -> AuthenticateResponseView {
        AuthenticateResponseView {
            access_token: self.access_token.deep_view(),
            user: self.user.deep_view(),
        }
    }
}

/// The state of a log-in by code.
#[derive(Debug)]
pub struct QuickConnectResponse {
    pub authenticated: bool,
    pub secret: String,
    pub code: String,
}

/// What a [`QuickConnectResponse`] holds.
#[verifier::ext_equal]
pub struct QuickConnectResponseView {
    pub authenticated: bool,
    pub secret: Seq<char>,
    pub code: Seq<char>,
}

impl DeepView for QuickConnectResponse {
    type V = QuickConnectResponseView;

    open spec fn deep_view(&self) -> QuickConnectResponseView {
        QuickConnectResponseView {
            authenticated: self.authenticated,
            secret: self.secret.deep_view(),
            code: self.code.deep_view(),
        }
    }
}

/// A library of a server.
#[derive(Clone, Debug)]
pub struct LibraryDto {
    pub id: String,
    pub name: String,
}

/// What a [`LibraryDto`] holds.
#[verifier::ext_equal]
pub struct LibraryDtoView {
    pub id: Seq<char>,
    pub name: Seq<char>,
}

impl DeepView for LibraryDto {
    type V = LibraryDtoView;

    open spec fn deep_view(&self) -> LibraryDtoView {
        LibraryDtoView {
            id: self.id.deep_view(),
            name: self.name.deep_view(),
        }
    }
}

/// The libraries of a server.
#[derive(Clone, Debug)]
pub struct LibraryDtoList {
    pub items: Vec<LibraryDto>,
}

/// What a [`LibraryDtoList`] holds.
#[verifier::ext_equal]
pub struct LibraryDtoListView {
    pub items: Seq<LibraryDtoView>,
}

impl DeepView for LibraryDtoList {
    type V = LibraryDtoListView;

    open spec fn deep_view(&self) -> LibraryDtoListView {
        LibraryDtoListView {
            items: self.items.deep_view(),
        }
    }
}

/// An artist that a song names.
#[derive(Clone, Debug)]
pub struct ArtistItemsDto {
    pub name: String,
    pub id: String,
}

/// What an [`ArtistItemsDto`] holds.
#[verifier::ext_equal]
pub struct ArtistItemsDtoView {
    pub name: Seq<char>,
    pub id: Seq<char>,
}

impl DeepView for ArtistItemsDto {
    type V = ArtistItemsDtoView;

    open spec fn deep_view(&self) -> ArtistItemsDtoView {
        ArtistItemsDtoView {
            name: self.name.deep_view(),
            id: self.id.deep_view(),
        }
    }
}

/// What the server keeps of a song for one user.
#[derive(Clone, Debug)]
pub struct UserDataDto {
    pub play_count: u64,
    pub last_played_date: Option<String>,
}

/// What a [`UserDataDto`] holds.
#[verifier::ext_equal]
pub struct UserDataDtoView {
    pub play_count: u64,
    pub last_played_date: Option<Seq<char>>,
}

impl DeepView for UserDataDto {
    type V = UserDataDtoView;

    open spec fn deep_view(&self) -> UserDataDtoView {
        UserDataDtoView {
            play_count: self.play_count,
            last_played_date: self.last_played_date.deep_view(),
        }
    }
}

/// A song.
#[derive(Clone, Debug)]
pub struct MusicDto {
    pub name: String,
    pub id: String,
    pub date_created: Option<String>,
    pub run_time_ticks: u64,
    pub album: Option<String>,
    pub album_artists: Vec<ArtistItemsDto>,
    /// The artists of the song itself.
    pub artist_items: Vec<ArtistItemsDto>,
    pub album_id: Option<String>,
    pub normalization_gain: Option<Real>,
    pub production_year: Option<u32>,
    pub index_number: Option<u32>,
    pub parent_index_number: Option<u32>,
    pub user_data: UserDataDto,
    pub has_lyrics: bool,
    pub genres: Vec<String>,
    /// The cover that a Subsonic server names.
    pub cover_art: Option<String>,
}

/// What a [`MusicDto`] holds.
#[verifier::ext_equal]
pub struct MusicDtoView {
    pub name: Seq<char>,
    pub id: Seq<char>,
    pub date_created: Option<Seq<char>>,
    pub run_time_ticks: u64,
    pub album: Option<Seq<char>>,
    pub album_artists: Seq<ArtistItemsDtoView>,
    pub artist_items: Seq<ArtistItemsDtoView>,
    pub album_id: Option<Seq<char>>,
    pub normalization_gain: Option<Real>,
    pub production_year: Option<u32>,
    pub index_number: Option<u32>,
    pub parent_index_number: Option<u32>,
    pub user_data: UserDataDtoView,
    pub has_lyrics: bool,
    pub genres: Seq<Seq<char>>,
    pub cover_art: Option<Seq<char>>,
}

impl DeepView for MusicDto {
    type V = MusicDtoView;

    open spec fn deep_view(&self) -> MusicDtoView {
        MusicDtoView {
            name: self.name.deep_view(),
            id: self.id.deep_view(),
            date_created: self.date_created.deep_view(),
            run_time_ticks: self.run_time_ticks,
            album: self.album.deep_view(),
            album_artists: self.album_artists.deep_view(),
            artist_items: self.artist_items.deep_view(),
            album_id: self.album_id.deep_view(),
            normalization_gain: self.normalization_gain,
            production_year: self.production_year,
            index_number: self.index_number,
            parent_index_number: self.parent_index_number,
            user_data: self.user_data.deep_view(),
            has_lyrics: self.has_lyrics,
            genres: self.genres.deep_view(),
            cover_art: self.cover_art.deep_view(),
        }
    }
}

/// Songs, and how many the server has in all.
#[derive(Clone, Debug)]
pub struct MusicDtoList {
    pub items: Vec<MusicDto>,
    pub total_record_count: u64,
}

/// What a [`MusicDtoList`] holds.
#[verifier::ext_equal]
pub struct MusicDtoListView {
    pub items: Seq<MusicDtoView>,
    pub total_record_count: u64,
}

impl DeepView for MusicDtoList {
    type V = MusicDtoListView;

    open spec fn deep_view(&self) -> MusicDtoListView {
        MusicDtoListView {
            items: self.items.deep_view(),
            total_record_count: self.total_record_count,
        }
    }
}

/// What kind of thing an item is.
#[derive(Clone, Debug)]
pub enum ItemType {
    Audio,
    MusicAlbum,
    MusicArtist,
    Playlist,
    Unknown,
}

/// Whether an item is a favorite.
#[derive(Clone, Debug)]
pub struct FavoriteUserDataDto {
    pub is_favorite: bool,
}

/// What a [`FavoriteUserDataDto`] holds.
#[verifier::ext_equal]
pub struct FavoriteUserDataDtoView {
    pub is_favorite: bool,
}

impl DeepView for FavoriteUserDataDto {
    type V = FavoriteUserDataDtoView;

    open spec fn deep_view(&self) -> FavoriteUserDataDtoView {
        FavoriteUserDataDtoView {
            is_favorite: self.is_favorite,
        }
    }
}

/// A favorite item.
#[derive(Clone, Debug)]
pub struct FavoriteDto {
    pub id: String,
    pub item_type: ItemType,
    pub user_data: FavoriteUserDataDto,
}

/// What a [`FavoriteDto`] holds.
#[verifier::ext_equal]
pub struct FavoriteDtoView {
    pub id: Seq<char>,
    pub item_type: ItemType,
    pub user_data: FavoriteUserDataDtoView,
}

impl DeepView for FavoriteDto {
    type V = FavoriteDtoView;

    open spec fn deep_view(&self) -> FavoriteDtoView {
        FavoriteDtoView {
            id: self.id.deep_view(),
            item_type: self.item_type,
            user_data: self.user_data.deep_view(),
        }
    }
}

/// The favorite items of a user.
#[derive(Clone, Debug)]
pub struct FavoriteDtoList {
    pub items: Vec<FavoriteDto>,
}

/// What a [`FavoriteDtoList`] holds.
#[verifier::ext_equal]
pub struct FavoriteDtoListView {
    pub items: Seq<FavoriteDtoView>,
}

impl DeepView for FavoriteDtoList {
    type V = FavoriteDtoListView;

    open spec fn deep_view(&self) -> FavoriteDtoListView {
        FavoriteDtoListView {
            items: self.items.deep_view(),
        }
    }
}

/// A playlist, without its songs.
#[derive(Clone, Debug)]
pub struct PlaylistDto {
    pub name: String,
    pub id: String,
    pub child_count: u64,
}

/// What a [`PlaylistDto`] holds.
#[verifier::ext_equal]
pub struct PlaylistDtoView {
    pub name: Seq<char>,
    pub id: Seq<char>,
    pub child_count: u64,
}

impl DeepView for PlaylistDto {
    type V = PlaylistDtoView;

    open spec fn deep_view(&self) -> PlaylistDtoView {
        PlaylistDtoView {
            name: self.name.deep_view(),
            id: self.id.deep_view(),
            child_count: self.child_count,
        }
    }
}

/// Playlists, and how many there are in all.
#[derive(Clone, Debug)]
pub struct PlaylistDtoList {
    pub items: Vec<PlaylistDto>,
    pub total_record_count: u64,
}

/// What a [`PlaylistDtoList`] holds.
#[verifier::ext_equal]
pub struct PlaylistDtoListView {
    pub items: Seq<PlaylistDtoView>,
    pub total_record_count: u64,
}

impl DeepView for PlaylistDtoList {
    type V = PlaylistDtoListView;

    open spec fn deep_view(&self) -> PlaylistDtoListView {
        PlaylistDtoListView {
            items: self.items.deep_view(),
            total_record_count: self.total_record_count,
        }
    }
}

/// The songs of a playlist, and how many there are in all.
#[derive(Clone, Debug)]
pub struct PlaylistItems {
    pub items: Vec<MusicDto>,
    pub total_record_count: u64,
}

/// What a [`PlaylistItems`] holds.
#[verifier::ext_equal]
pub struct PlaylistItemsView {
    pub items: Seq<MusicDtoView>,
    pub total_record_count: u64,
}

impl DeepView for PlaylistItems {
    type V = PlaylistItemsView;

    open spec fn deep_view(&self) -> PlaylistItemsView {
        PlaylistItemsView {
            items: self.items.deep_view(),
            total_record_count: self.total_record_count,
        }
    }
}

/// A stream of a media source.
#[derive(Clone, Debug)]
pub struct MediaStream {
    pub type_: Option<String>,
    pub codec: Option<String>,
    pub bit_rate: Option<u64>,
    pub sample_rate: Option<u64>,
    pub channels: Option<u32>,
}

/// What a [`MediaStream`] holds.
#[verifier::ext_equal]
pub struct MediaStreamView {
    pub type_: Option<Seq<char>>,
    pub codec: Option<Seq<char>>,
    pub bit_rate: Option<u64>,
    pub sample_rate: Option<u64>,
    pub channels: Option<u32>,
}

impl DeepView for MediaStream {
    type V = MediaStreamView;

    open spec fn deep_view(&self) -> MediaStreamView {
        MediaStreamView {
            type_: self.type_.deep_view(),
            codec: self.codec.deep_view(),
            bit_rate: self.bit_rate,
            sample_rate: self.sample_rate,
            channels: self.channels,
        }
    }
}

/// A source that a song can be played from.
#[derive(Clone, Debug)]
pub struct MediaSource {
    pub media_streams: Vec<MediaStream>,
    pub id: Option<String>,
    pub path: Option<String>,
    pub container: Option<String>,
    pub size: Option<u64>,
    pub supports_direct_stream: Option<bool>,
    pub supports_direct_play: Option<bool>,
    pub supports_transcoding: Option<bool>,
}

/// What a [`MediaSource`] holds.
#[verifier::ext_equal]
pub struct MediaSourceView {
    pub media_streams: Seq<MediaStreamView>,
    pub id: Option<Seq<char>>,
    pub path: Option<Seq<char>>,
    pub container: Option<Seq<char>>,
    pub size: Option<u64>,
    pub supports_direct_stream: Option<bool>,
    pub supports_direct_play: Option<bool>,
    pub supports_transcoding: Option<bool>,
}

impl DeepView for MediaSource {
    type V = MediaSourceView;

    open spec fn deep_view(&self) -> MediaSourceView {
        MediaSourceView {
            media_streams: self.media_streams.deep_view(),
            id: self.id.deep_view(),
            path: self.path.deep_view(),
            container: self.container.deep_view(),
            size: self.size,
            supports_direct_stream: self.supports_direct_stream,
            supports_direct_play: self.supports_direct_play,
            supports_transcoding: self.supports_transcoding,
        }
    }
}

/// How a song can be played.
#[derive(Clone, Debug)]
pub struct PlaybackInfo {
    pub media_sources: Vec<MediaSource>,
}

/// What a [`PlaybackInfo`] holds.
#[verifier::ext_equal]
pub struct PlaybackInfoView {
    pub media_sources: Seq<MediaSourceView>,
}

impl DeepView for PlaybackInfo {
    type V = PlaybackInfoView;

    open spec fn deep_view(&self) -> PlaybackInfoView {
        PlaybackInfoView {
            media_sources: self.media_sources.deep_view(),
        }
    }
}

/// What a user may do with a playlist.
#[derive(Clone, Debug)]
pub struct PlaylistUserPermissions {
    pub user_id: String,
    pub can_edit: bool,
}

/// What a [`PlaylistUserPermissions`] holds.
#[verifier::ext_equal]
pub struct PlaylistUserPermissionsView {
    pub user_id: Seq<char>,
    pub can_edit: bool,
}

impl DeepView for PlaylistUserPermissions {
    type V = PlaylistUserPermissionsView;

    open spec fn deep_view(&self) -> PlaylistUserPermissionsView {
        PlaylistUserPermissionsView {
            user_id: self.user_id.deep_view(),
            can_edit: self.can_edit,
        }
    }
}

/// A playlist to create.
#[derive(Clone, Debug)]
pub struct NewPlaylist {
    pub name: String,
    pub ids: Vec<String>,
    pub user_id: String,
    pub media_type: String,
    pub users: Vec<PlaylistUserPermissions>,
    pub is_public: bool,
}

/// What a [`NewPlaylist`] holds.
#[verifier::ext_equal]
pub struct NewPlaylistView {
    pub name: Seq<char>,
    pub ids: Seq<Seq<char>>,
    pub user_id: Seq<char>,
    pub media_type: Seq<char>,
    pub users: Seq<PlaylistUserPermissionsView>,
    pub is_public: bool,
}

impl DeepView for NewPlaylist {
    type V = NewPlaylistView;

    open spec fn deep_view(&self) -> NewPlaylistView {
        NewPlaylistView {
            name: self.name.deep_view(),
            ids: self.ids.deep_view(),
            user_id: self.user_id.deep_view(),
            media_type: self.media_type.deep_view(),
            users: self.users.deep_view(),
            is_public: self.is_public,
        }
    }
}

/// The answer to a playlist's creation.
#[derive(Clone, Debug)]
pub struct NewPlaylistResponse {
    pub id: String,
}

/// What a [`NewPlaylistResponse`] holds.
#[verifier::ext_equal]
pub struct NewPlaylistResponseView {
    pub id: Seq<char>,
}

impl DeepView for NewPlaylistResponse {
    type V = NewPlaylistResponseView;

    open spec fn deep_view(&self) -> NewPlaylistResponseView {
        NewPlaylistResponseView {
            id: self.id.deep_view(),
        }
    }
}

/// What a playback report tells of.
pub enum PlaybackReportStatus {
    Started,
    InProgress,
    Stopped,
}

/// What is being played, and how far it is.
#[derive(Clone, Debug)]
pub struct PlaybackReport {
    pub item_id: String,
    pub session_id: String,
    pub play_session_id: String,
    pub can_seek: bool,
    pub is_paused: bool,
    pub is_muted: bool,
    pub position_ticks: u64,
}

/// What a [`PlaybackReport`] holds.
#[verifier::ext_equal]
pub struct PlaybackReportView {
    pub item_id: Seq<char>,
    pub session_id: Seq<char>,
    pub play_session_id: Seq<char>,
    pub can_seek: bool,
    pub is_paused: bool,
    pub is_muted: bool,
    pub position_ticks: u64,
}

impl DeepView for PlaybackReport {
    type V = PlaybackReportView;

    open spec fn deep_view(&self) -> PlaybackReportView {
        PlaybackReportView {
            item_id: self.item_id.deep_view(),
            session_id: self.session_id.deep_view(),
            play_session_id: self.play_session_id.deep_view(),
            can_seek: self.can_seek,
            is_paused: self.is_paused,
            is_muted: self.is_muted,
            position_ticks: self.position_ticks,
        }
    }
}

/// A line of lyrics, and the tick it starts at.
#[derive(Clone, Debug)]
pub struct Lyric {
    pub text: String,
    pub start: Option<u64>,
}

/// What a [`Lyric`] holds.
#[verifier::ext_equal]
pub struct LyricView {
    pub text: Seq<char>,
    pub start: Option<u64>,
}

impl DeepView for Lyric {
    type V = LyricView;

    open spec fn deep_view(&self) -> LyricView {
        LyricView {
            text: self.text.deep_view(),
            start: self.start,
        }
    }
}

/// The lyrics of a song.
#[derive(Clone, Debug)]
pub struct LyricsResponse {
    pub lyrics: Vec<Lyric>,
}

/// What a [`LyricsResponse`] holds.
#[verifier::ext_equal]
pub struct LyricsResponseView {
    pub lyrics: Seq<LyricView>,
}

impl DeepView for LyricsResponse {
    type V = LyricsResponseView;

    open spec fn deep_view(&self) -> LyricsResponseView {
        LyricsResponseView {
            lyrics: self.lyrics.deep_view(),
        }
    }
}

/// Which picture of an item is meant.
#[derive(Clone, Copy)]
pub enum ImageType {
    Primary,
    Art,
    Backdrop,
    Banner,
}

/// The items that could be read, in their order.
pub open spec fn ok_values<T, E>(items: Seq<Result<T, E>>) -> Seq<T>
    decreases items.len(),
{
    if items.len() == 0 {
        seq![]
    } else {
        match items.last() {
            Ok(item) => ok_values(items.drop_last()).push(item),
            Err(_) => ok_values(items.drop_last()),
        }
    }
}

/// The items of a collection that could be read, in their order. Those that could not are skipped,
/// so that the rest of a library can still be used.
pub fn deserialize_items_skip_errors<T, E>(items: Vec<Result<T, E>>) -> (r: Vec<T>)
    ensures
        r@ == ok_values(items@),
{
    let mut r: Vec<T> = Vec::new();
    let ghost all = items@;
    for item in it: items
        invariant
            it.seq() == all,
            r@ == ok_values(all.take(it.index() as int)),
    {
        assert(all.take(it.index() + 1).drop_last() =~= all.take(it.index() as int));
        if let Ok(item) = item {
            r.push(item);
        }
    }
    assert(all.take(all.len() as int) =~= all);
    r
}

/// Where every item could be read, all of them are kept.
pub proof fn law_nothing_skipped<T, E>(items: Seq<Result<T, E>>)
    requires
        forall|i: int| 0 <= i < items.len() ==> items[i] is Ok,
    ensures
        ok_values(items) == Seq::new(items.len(), |i: int| items[i]->Ok_0),
    decreases items.len(),
{
    if items.len() > 0 {
        law_nothing_skipped(items.drop_last());
    }
    assert(ok_values(items) =~= Seq::new(items.len(), |i: int| items[i]->Ok_0));
}

/// How many ticks a second has. A tick is a hundred nanoseconds.
pub const TICKS_PER_SECOND: u64 = 10_000_000;

impl PlaybackReport {
    /// How many whole seconds of the song have been played.
    pub fn position_seconds(&self) -> (r: u64)
        ensures
            r == self.position_ticks / TICKS_PER_SECOND,
    {
        self.position_ticks / TICKS_PER_SECOND
    }
}

/// What the identifier of the album starts with for songs that have none.
pub const NO_ALBUM_ID: &'static str = "__gelly_no_album__";

/// The identifier of the first album artist, or nothing where there is none.
pub open spec fn first_artist_id(song: MusicDtoView) -> Seq<char> {
    if song.album_artists.len() > 0 {
        song.album_artists[0].id
    } else {
        seq![]
    }
}

/// The identifier of the song's album, or one that is made of the artist's.
pub open spec fn effective_album_id(song: MusicDtoView) -> Seq<char> {
    match song.album_id {
        Some(id) => id,
        None => NO_ALBUM_ID@ + first_artist_id(song),
    }
}

/// The pieces of each genre, one genre after the other.
pub open spec fn all_pieces(genres: Seq<Seq<char>>) -> Seq<Seq<char>>
    decreases genres.len(),
{
    if genres.len() == 0 {
        seq![]
    } else {
        all_pieces(genres.drop_last()) + text::pieces(genres.last())
    }
}

/// A text in lower case.
pub open spec fn lowered(s: Seq<char>) -> Seq<char> {
    if vstd::utf8::is_ascii_chars(s) {
        text::ascii_lowercase(s)
    } else {
        foreign::lowercase(s)
    }
}

/// The genre that a piece names.
pub open spec fn genre_name(piece: Seq<char>) -> Seq<char> {
    lowered(text::trimmed(piece))
}

/// The genres that some pieces name, without those that are empty.
pub open spec fn genre_names(pieces: Seq<Seq<char>>) -> Seq<Seq<char>>
    decreases pieces.len(),
{
    if pieces.len() == 0 {
        seq![]
    } else if genre_name(pieces.last()).len() == 0 {
        genre_names(pieces.drop_last())
    } else {
        genre_names(pieces.drop_last()).push(genre_name(pieces.last()))
    }
}

/// The genres of a song: the pieces of the texts that name them, trimmed and in lower case.
pub open spec fn effective_genres(genres: Seq<Seq<char>>) -> Seq<Seq<char>> {
    genre_names(all_pieces(genres))
}

/// The cover of the song: its own, or else that of its album, or else none.
pub open spec fn effective_cover_art(song: MusicDtoView) -> Seq<char> {
    match song.cover_art {
        Some(cover) => cover,
        None => match song.album_id {
            Some(id) => id,
            None => seq![],
        },
    }
}

impl MusicDto {
    /// The identifier of the album where there is one, and otherwise one for each artist, so that
    /// songs of different artists that have no album are not shown as one.
    pub fn effective_album_id(&self) -> (r: String)
        ensures
            r@ == effective_album_id(self.deep_view()),
    {
        match &self.album_id {
            Some(id) => id.clone(),
            None => if self.album_artists.len() > 0 {
                text::followed_by(NO_ALBUM_ID, self.album_artists[0].id.as_str())
            } else {
                let r = NO_ALBUM_ID.to_owned();
                assert(r@ =~= NO_ALBUM_ID@ + seq![]);
                r
            },
        }
    }

    /// The genres, trimmed and in lower case. Servers send a list of genres, but the texts in the
    /// list are sometimes lists themselves, separated by commas, semicolons or slashes: those are
    /// flattened into one list.
    pub fn effective_genres(&self) -> (r: Vec<String>)
        ensures
            r.deep_view() == effective_genres(self.deep_view().genres),
    {
        let mut r: Vec<String> = Vec::new();
        let ghost genres = self.genres.deep_view();
        let mut i: usize = 0;
        while i < self.genres.len()
            invariant
                genres == self.genres.deep_view(),
                i <= self.genres@.len(),
                r.deep_view() == genre_names(all_pieces(genres.take(i as int))),
            decreases self.genres@.len() - i,
        {
            let ghost seen = all_pieces(genres.take(i as int));
            let parts = text::split_genres(self.genres[i].as_str());
            let ghost pieces = parts.deep_view();
            let mut j: usize = 0;
            assert(seen + pieces.take(0) =~= seen);
            while j < parts.len()
                invariant
                    pieces == parts.deep_view(),
                    j <= parts@.len(),
                    r.deep_view() == genre_names(seen + pieces.take(j as int)),
                decreases parts@.len() - j,
            {
                let genre = foreign::to_lowercase(text::trim(parts[j]));
                let ghost now = seen + pieces.take(j + 1);
                assert(now.drop_last() =~= seen + pieces.take(j as int));
                assert(now.last() == parts@[j as int]@);
                if !genre.as_str().is_empty() {
                    let ghost before = r.deep_view();
                    r.push(genre);
                    assert(r.deep_view() =~= before.push(genre@));
                }
                j = j + 1;
            }
            assert(pieces.take(j as int) =~= pieces);
            assert(genres.take(i + 1).drop_last() =~= genres.take(i as int));
            assert(genres.take(i + 1).last() == self.genres@[i as int]@);
            i = i + 1;
        }
        assert(genres.take(i as int) =~= genres);
        r
    }

    /// The cover of the song: its own, or else that of its album, or else none.
    pub fn effective_cover_art(&self) -> (r: &str)
        ensures
            r@ == effective_cover_art(self.deep_view()),
    {
        match &self.cover_art {
            Some(cover) => cover.as_str(),
            None => match &self.album_id {
                Some(id) => id.as_str(),
                None => {
                    proof {
                        reveal_strlit("");
                        assert(""@ =~= seq![]);
                    }
                    ""
                },
            },
        }
    }
}

/// Songs without an album are shown as of one album exactly where they are of one artist.
pub proof fn law_no_album_per_artist(song: MusicDtoView, other: MusicDtoView)
    requires
        song.album_id is None,
        other.album_id is None,
    ensures
        effective_album_id(song) == effective_album_id(other) <==> first_artist_id(song)
            == first_artist_id(other),
{
    let n = NO_ALBUM_ID@.len() as int;
    let a = effective_album_id(song);
    let b = effective_album_id(other);
    assert(a.skip(n) =~= first_artist_id(song));
    assert(b.skip(n) =~= first_artist_id(other));
}

/// The pieces of two lists of genres, one list after the other.
pub proof fn lemma_all_pieces_of_concat(a: Seq<Seq<char>>, b: Seq<Seq<char>>)
    ensures
        all_pieces(a + b) == all_pieces(a) + all_pieces(b),
    decreases b.len(),
{
    if b.len() == 0 {
        assert(a + b =~= a);
        assert(all_pieces(a) + all_pieces(b) =~= all_pieces(a));
    } else {
        lemma_all_pieces_of_concat(a, b.drop_last());
        assert((a + b).drop_last() =~= a + b.drop_last());
        assert(all_pieces(a + b) =~= all_pieces(a) + all_pieces(b));
    }
}

/// A list of genres within one text counts as the genres themselves: it makes no difference
/// whether two genres come as two texts or as one text with a separator in it.
pub proof fn law_genres_are_flattened(
    front: Seq<Seq<char>>,
    a: Seq<char>,
    separator: char,
    b: Seq<char>,
    back: Seq<Seq<char>>,
)
    requires
        text::genre_separator(separator),
    ensures
        effective_genres(front + seq![a.push(separator) + b] + back) == effective_genres(
            front + seq![a, b] + back,
        ),
{
    reveal_with_fuel(all_pieces, 2);
    let one = seq![a.push(separator) + b];
    let two = seq![a, b];
    text::lemma_pieces_of_separated(a, separator, b);
    assert(one.drop_last() =~= seq![]);
    assert(all_pieces(one) =~= text::pieces(a) + text::pieces(b));
    assert(two.drop_last() =~= seq![a]);
    assert(seq![a].drop_last() =~= seq![]);
    assert(all_pieces(seq![a]) =~= text::pieces(a));
    assert(all_pieces(two) =~= text::pieces(a) + text::pieces(b));
    lemma_all_pieces_of_concat(front, one);
    lemma_all_pieces_of_concat(front + one, back);
    lemma_all_pieces_of_concat(front, two);
    lemma_all_pieces_of_concat(front + two, back);
}

/// Every genre of a song is a piece of the server's texts, trimmed and in lower case, and none is
/// empty.
pub proof fn law_genres_are_named(genres: Seq<Seq<char>>, i: int)
    requires
        0 <= i < effective_genres(genres).len(),
    ensures
        effective_genres(genres)[i].len() > 0,
        exists|j: int|
            0 <= j < all_pieces(genres).len() && effective_genres(genres)[i] == genre_name(
                #[trigger] all_pieces(genres)[j],
            ),
{
    lemma_genre_names(all_pieces(genres), i);
}

proof fn lemma_genre_names(pieces: Seq<Seq<char>>, i: int)
    requires
        0 <= i < genre_names(pieces).len(),
    ensures
        genre_names(pieces)[i].len() > 0,
        exists|j: int|
            0 <= j < pieces.len() && genre_names(pieces)[i] == genre_name(#[trigger] pieces[j]),
    decreases pieces.len(),
{
    let front = pieces.drop_last();
    if i < genre_names(front).len() {
        lemma_genre_names(front, i);
        let j = choose|j: int|
            0 <= j < front.len() && genre_names(front)[i] == genre_name(#[trigger] front[j]);
        assert(pieces[j] == front[j]);
    } else {
        assert(genre_names(pieces)[i] == genre_name(pieces[pieces.len() - 1]));
    }
}

/// Whether flattening leaves a genre as it is: the genre is in lower case, without a separator and
/// without white space at either end, and it is not empty.
pub open spec fn settled(genre: Seq<char>) -> bool {
    &&& genre.len() > 0
    &&& lowered(genre) == genre
    &&& text::unseparated(genre)
    &&& text::untrimmable(genre)
}

/// No piece holds a separator, and the pieces of ASCII texts are ASCII.
proof fn lemma_all_pieces_are_unseparated(genres: Seq<Seq<char>>)
    ensures
        forall|j: int|
            0 <= j < all_pieces(genres).len() ==> text::unseparated(
                #[trigger] all_pieces(genres)[j],
            ),
        (forall|i: int|
            0 <= i < genres.len() ==> vstd::utf8::is_ascii_chars(#[trigger] genres[i]))
            ==> forall|j: int|
            0 <= j < all_pieces(genres).len() ==> vstd::utf8::is_ascii_chars(
                #[trigger] all_pieces(genres)[j],
            ),
    decreases genres.len(),
{
    if genres.len() > 0 {
        let front = all_pieces(genres.drop_last());
        let back = text::pieces(genres.last());
        lemma_all_pieces_are_unseparated(genres.drop_last());
        text::lemma_pieces_are_unseparated(genres.last());
        assert forall|j: int| 0 <= j < all_pieces(genres).len() implies text::unseparated(
            #[trigger] all_pieces(genres)[j],
        ) by {
            if j >= front.len() {
                assert(all_pieces(genres)[j] == back[j - front.len()]);
            } else {
                assert(all_pieces(genres)[j] == front[j]);
            }
        }
        if forall|i: int|
            0 <= i < genres.len() ==> vstd::utf8::is_ascii_chars(#[trigger] genres[i]) {
            assert(vstd::utf8::is_ascii_chars(genres[genres.len() - 1]));
            assert forall|i: int|
                0 <= i < genres.drop_last().len() implies vstd::utf8::is_ascii_chars(
                #[trigger] genres.drop_last()[i],
            ) by {
                assert(vstd::utf8::is_ascii_chars(genres[i]));
            }
            assert forall|j: int|
                0 <= j < all_pieces(genres).len() implies vstd::utf8::is_ascii_chars(
                #[trigger] all_pieces(genres)[j],
            ) by {
                if j >= front.len() {
                    assert(all_pieces(genres)[j] == back[j - front.len()]);
                } else {
                    assert(all_pieces(genres)[j] == front[j]);
                }
            }
        }
    }
}

/// A genre that an ASCII piece names is settled, if it is not empty.
proof fn lemma_genre_name_is_settled(piece: Seq<char>)
    requires
        vstd::utf8::is_ascii_chars(text::trimmed(piece)),
        text::unseparated(piece),
    ensures
        genre_name(piece).len() > 0 ==> settled(genre_name(piece)),
{
    let plain = text::trimmed(piece);
    let genre = genre_name(piece);
    text::lemma_trimmed(piece);
    assert(genre == text::ascii_lowercase(plain));
    assert forall|i: int| 0 <= i < genre.len() implies '\0' <= #[trigger] genre[i] <= '\u{7f}'
        && !text::genre_separator(genre[i]) && text::ascii_small(genre[i]) == genre[i]
        && text::white_space(genre[i]) == text::white_space(plain[i]) by {
        assert(genre[i] == text::ascii_small(plain[i]));
        assert('\0' <= plain[i] <= '\u{7f}');
        assert(!text::genre_separator(plain[i]));
    }
    assert(text::ascii_lowercase(genre) =~= genre);
}

/// Settled genres are their own pieces, and name themselves.
proof fn lemma_settled_genres_stay(genres: Seq<Seq<char>>)
    requires
        forall|i: int| 0 <= i < genres.len() ==> settled(#[trigger] genres[i]),
    ensures
        all_pieces(genres) == genres,
        genre_names(genres) == genres,
    decreases genres.len(),
{
    if genres.len() > 0 {
        let front = genres.drop_last();
        let genre = genres.last();
        assert(settled(genres[genres.len() - 1]));
        lemma_settled_genres_stay(front);
        text::lemma_pieces_of_unseparated(genre);
        text::lemma_trimmed_stays(genre);
        assert(front.push(genre) =~= genres);
        assert(all_pieces(genres) =~= genres);
        assert(genre_name(genre) == genre);
    } else {
        assert(all_pieces(genres) =~= genres);
        assert(genre_names(genres) =~= genres);
    }
}

/// Flattening the genres of a song twice is flattening them once, and every genre of a song is in
/// lower case, without a separator, without white space at either end, and not empty. Of a piece
/// that is not ASCII this takes that its lower-case form has no other lower-case form, and neither
/// a separator nor white space at either end.
pub proof fn law_flattening_twice(genres: Seq<Seq<char>>)
    requires
        forall|j: int|
            0 <= j < all_pieces(genres).len() && !vstd::utf8::is_ascii_chars(
                text::trimmed(#[trigger] all_pieces(genres)[j]),
            ) ==> {
                let genre = genre_name(all_pieces(genres)[j]);
                lowered(genre) == genre && text::unseparated(genre) && text::untrimmable(genre)
            },
    ensures
        forall|i: int|
            0 <= i < effective_genres(genres).len() ==> settled(
                #[trigger] effective_genres(genres)[i],
            ),
        effective_genres(effective_genres(genres)) == effective_genres(genres),
{
    let pieces = all_pieces(genres);
    let flat = effective_genres(genres);
    lemma_all_pieces_are_unseparated(genres);
    assert forall|i: int| 0 <= i < flat.len() implies settled(#[trigger] flat[i]) by {
        lemma_genre_names(pieces, i);
        let j = choose|j: int|
            0 <= j < pieces.len() && flat[i] == genre_name(#[trigger] pieces[j]);
        if vstd::utf8::is_ascii_chars(text::trimmed(pieces[j])) {
            lemma_genre_name_is_settled(pieces[j]);
        }
    }
    lemma_settled_genres_stay(flat);
}

/// Flattening ASCII genres twice is flattening them once, and every genre of a song is then in
/// lower case, without a separator, without white space at either end, and not empty.
pub proof fn law_flattening_ascii_twice(genres: Seq<Seq<char>>)
    requires
        forall|i: int| 0 <= i < genres.len() ==> vstd::utf8::is_ascii_chars(#[trigger] genres[i]),
    ensures
        forall|i: int|
            0 <= i < effective_genres(genres).len() ==> settled(
                #[trigger] effective_genres(genres)[i],
            ),
        effective_genres(effective_genres(genres)) == effective_genres(genres),
{
    let pieces = all_pieces(genres);
    lemma_all_pieces_are_unseparated(genres);
    assert forall|j: int| 0 <= j < pieces.len() implies vstd::utf8::is_ascii_chars(
        text::trimmed(#[trigger] pieces[j]),
    ) by {
        text::lemma_trimmed(pieces[j]);
    }
    law_flattening_twice(genres);
}

impl ImageType {
    /// The name of the picture in the paths of the server.
    pub open spec fn name(self) -> Seq<char> {
        match self {
            ImageType::Primary => "Primary"@,
            ImageType::Art => "Art"@,
            ImageType::Backdrop => "Backdrop"@,
            ImageType::Banner => "Banner"@,
        }
    }

    /// The name of the picture in the paths of the server.
    pub fn as_str(&self) -> (r: &'static str)
        ensures
            r@ == self.name(),
    {
        match self {
            ImageType::Primary => "Primary",
            ImageType::Art => "Art",
            ImageType::Backdrop => "Backdrop",
            ImageType::Banner => "Banner",
        }
    }
}

} // verus!
