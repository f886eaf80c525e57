//! What the answers of a Subsonic server mean, and the calls that ask for them.

use vstd::prelude::*;

use crate::backend::{
    error_for_status, is_success, pair, result_view, status_error, success, BackendError,
    BackendErrorView, BinaryBody, BAD_GATEWAY,
};
use crate::jellyfin::api::{
    FavoriteDto, FavoriteDtoList, FavoriteDtoListView, FavoriteDtoView, FavoriteUserDataDto,
    FavoriteUserDataDtoView, ItemType, LibraryDto, LibraryDtoList, LibraryDtoListView,
    LibraryDtoView, Lyric, LyricView, LyricsResponse, LyricsResponseView, MediaSource,
    MediaSourceView, MediaStream, MediaStreamView, MusicDto, MusicDtoView, PlaybackInfo,
    PlaybackInfoView, PlaybackReport, PlaybackReportStatus, TICKS_PER_SECOND,
};
use crate::subsonic::api::{
    LyricsLineView, MusicFolderView, SongView, Starred2View, StructuredLyrics,
    StructuredLyricsView, SubsonicResponse, SubsonicResponseView,
};
use crate::subsonic::songs::{album_fallback, either, music_dtos, AlbumFallback};
use crate::subsonic::{Call, CallView, Params, Subsonic};
use crate::text;

verus! {

broadcast use vstd::string::group_string_axioms;

/// The library that stands for all folders of a server that names none.
pub const ALL_FOLDERS_LIBRARY_ID: &'static str = "__gelly_subsonic_all__";

/// How many ticks a millisecond has.
pub const TICKS_PER_MILLISECOND: u64 = 10_000;

/// For how many seconds a song must have been played to count as played.
pub const PLAYED_AFTER_SECONDS: u64 = 5;

/// The code of the server for a wrong name or password.
pub const WRONG_CREDENTIALS: i32 = 40;

/// The error that a code and a message of the server stand for.
pub open spec fn api_error(code: i32, message: Seq<char>) -> BackendErrorView {
    if code == WRONG_CREDENTIALS {
        BackendErrorView::AuthenticationFailed { message }
    } else {
        BackendErrorView::Http {
            status: BAD_GATEWAY,
            message: "Subsonic error "@ + text::decimal_int(code as int) + ": "@ + message,
        }
    }
}

/// The error of an answer that makes no sense.
pub open spec fn bad_answer(message: Seq<char>) -> BackendErrorView {
    BackendErrorView::Http { status: BAD_GATEWAY, message }
}

/// Why an answer is no success, if it is none.
pub open spec fn refusal(response: SubsonicResponseView) -> Option<BackendErrorView> {
    if response.ok() {
        None
    } else {
        match response.error {
            Some(error) => Some(api_error(error.code, error.message)),
            None => Some(bad_answer("Subsonic API returned non-ok status"@)),
        }
    }
}

/// `value`, but for an answer that is no success.
pub open spec fn accepted<T>(response: SubsonicResponseView, value: T) -> Result<
    T,
    BackendErrorView,
> {
    match refusal(response) {
        Some(error) => Err(error),
        None => Ok(value),
    }
}

/// What an answer holds, but for an answer that is no success, or that does not hold it.
pub open spec fn held<T>(
    response: SubsonicResponseView,
    payload: Option<T>,
    missing: Seq<char>,
) -> Result<T, BackendErrorView> {
    match refusal(response) {
        Some(error) => Err(error),
        None => match payload {
            Some(payload) => Ok(payload),
            None => Err(bad_answer(missing)),
        },
    }
}

/// The error of an answer that makes no sense.
pub(crate) fn bad_answer_error(message: &str) -> (e: BackendError)
    ensures
        e.deep_view() == bad_answer(message@),
{
    BackendError::Http { status: BAD_GATEWAY, message: message.to_owned() }
}

/// The call of an endpoint without parameters.
pub(crate) fn bare_call(endpoint: &'static str) -> (r: Call)
    ensures
        r.deep_view() == (CallView { endpoint: endpoint@, params: seq![] }),
{
    let params: Params = Vec::new();
    assert(params.deep_view() =~= seq![]);
    Call { endpoint, params }
}

/// The call of an endpoint with one parameter.
pub(crate) fn call_with(endpoint: &'static str, name: &str, value: &str) -> (r: Call)
    ensures
        r.deep_view() == (CallView { endpoint: endpoint@, params: seq![(name@, value@)] }),
{
    let params: Params = vec![pair(name, value)];
    assert(params.deep_view() =~= seq![(name@, value@)]);
    Call { endpoint, params }
}

/// The folders that an answer holds.
pub open spec fn folders(response: SubsonicResponseView) -> Seq<MusicFolderView> {
    match response.music_folders {
        Some(folders) => folders.music_folders,
        None => seq![],
    }
}

/// The libraries that some folders are. Where there are none, all music is one library.
pub open spec fn libraries(folders: Seq<MusicFolderView>) -> Seq<LibraryDtoView> {
    if folders.len() == 0 {
        seq![LibraryDtoView { id: ALL_FOLDERS_LIBRARY_ID@, name: "Music"@ }]
    } else {
        Seq::new(
            folders.len(),
            |i: int| LibraryDtoView { id: folders[i].id, name: folders[i].name },
        )
    }
}

/// A favorite of a kind.
pub open spec fn favorite(id: Seq<char>, item_type: ItemType) -> FavoriteDtoView {
    FavoriteDtoView {
        id,
        item_type,
        user_data: FavoriteUserDataDtoView { is_favorite: true },
    }
}

/// The favorites that are starred: the songs, then the albums, then the artists.
pub open spec fn favorites(starred: Option<Starred2View>) -> Seq<FavoriteDtoView> {
    match starred {
        Some(starred) => Seq::new(
            starred.song.len(),
            |i: int| favorite(starred.song[i].id, ItemType::Audio),
        ) + Seq::new(
            starred.album.len(),
            |i: int| favorite(starred.album[i].id, ItemType::MusicAlbum),
        ) + Seq::new(
            starred.artist.len(),
            |i: int| favorite(starred.artist[i].id, ItemType::MusicArtist),
        ),
        None => seq![],
    }
}

/// The songs of the album that an answer holds.
pub open spec fn album_songs(response: SubsonicResponseView) -> Result<
    Seq<MusicDtoView>,
    BackendErrorView,
> {
    match held(response, response.album, "Subsonic response missing album payload"@) {
        Ok(album) => Ok(music_dtos(album.song, album_fallback(album))),
        Err(error) => Err(error),
    }
}

/// How a song can be played: from one source with one stream, in every way.
pub open spec fn playback_info(song: SongView) -> PlaybackInfoView {
    PlaybackInfoView {
        media_sources: seq![
            MediaSourceView {
                media_streams: seq![
                    MediaStreamView {
                        type_: Some("Audio"@),
                        codec: song.suffix,
                        bit_rate: song.bit_rate,
                        sample_rate: song.sampling_rate,
                        channels: song.channel_count,
                    },
                ],
                id: Some(song.id),
                path: song.path,
                container: song.suffix,
                size: song.size,
                supports_direct_stream: Some(true),
                supports_direct_play: Some(true),
                supports_transcoding: Some(true),
            },
        ],
    }
}

/// Whether a report makes the song count as played, and `None` where the server is not told.
pub open spec fn submission(report: PlaybackReport, state: PlaybackReportStatus) -> Option<bool> {
    match state {
        PlaybackReportStatus::InProgress => None,
        PlaybackReportStatus::Started => Some(false),
        PlaybackReportStatus::Stopped => Some(
            report.position_ticks / TICKS_PER_SECOND >= PLAYED_AFTER_SECONDS,
        ),
    }
}

/// The first lyrics that are synchronized with the song.
pub open spec fn first_synced(lyrics: Seq<StructuredLyricsView>) -> Option<StructuredLyricsView>
    decreases lyrics.len(),
{
    if lyrics.len() == 0 {
        None
    } else if lyrics[0].synced {
        Some(lyrics[0])
    } else {
        first_synced(lyrics.skip(1))
    }
}

/// The lyrics to show: the first that are synchronized, or else the first.
pub open spec fn chosen_lyrics(lyrics: Seq<StructuredLyricsView>) -> Option<StructuredLyricsView> {
    either(
        first_synced(lyrics),
        if lyrics.len() > 0 {
            Some(lyrics[0])
        } else {
            None
        },
    )
}

/// The lines of the lyrics to show.
pub open spec fn lyrics_lines(response: SubsonicResponseView) -> Seq<LyricsLineView> {
    match response.lyrics_list {
        Some(list) => match chosen_lyrics(list.structured_lyrics) {
            Some(lyrics) => lyrics.line,
            None => seq![],
        },
        None => seq![],
    }
}

/// Whether the start of each line can be told in ticks.
pub open spec fn starts_in_range(lines: Seq<LyricsLineView>) -> bool {
    forall|i: int|
        0 <= i < lines.len() ==> (#[trigger] lines[i].start matches Some(ms) ==> ms
            * TICKS_PER_MILLISECOND <= u64::MAX)
}

/// Whether the lyrics to show can be told in ticks. An answer that is refused shows none.
pub open spec fn tells_lyrics(response: SubsonicResponseView) -> bool {
    response.ok() ==> starts_in_range(lyrics_lines(response))
}

/// A line of lyrics with its start in ticks.
pub open spec fn lyric(line: LyricsLineView) -> LyricView {
    LyricView {
        text: line.value,
        start: match line.start {
            Some(ms) => Some((ms * TICKS_PER_MILLISECOND) as u64),
            None => None,
        },
    }
}

/// An answer is refused exactly where its status is not the good one. Authentication has failed
/// exactly where the server says that the name or the password is wrong, and any other refusal
/// stands for a server that makes no sense.
pub proof fn law_refusals(response: SubsonicResponseView)
    ensures
        refusal(response) is None <==> response.ok(),
        refusal(response) matches Some(error) ==> (error is AuthenticationFailed <==> (
        response.error matches Some(e) && e.code == WRONG_CREDENTIALS)),
        refusal(response) matches Some(BackendErrorView::Http { status, .. }) ==> status
            == BAD_GATEWAY,
        refusal(response) matches Some(error) ==> !(error is Transport),
{
}

/// There is always a library to choose, and where there are folders there are as many libraries.
pub proof fn law_there_is_a_library(folders: Seq<MusicFolderView>)
    ensures
        libraries(folders).len() > 0,
        folders.len() > 0 ==> libraries(folders).len() == folders.len(),
{
}

/// Every favorite is one, and nothing that is starred is left out.
pub proof fn law_favorites(starred: Starred2View)
    ensures
        favorites(Some(starred)).len() == starred.song.len() + starred.album.len()
            + starred.artist.len(),
        forall|i: int|
            0 <= i < favorites(Some(starred)).len() ==> (#[trigger] favorites(
                Some(starred),
            )[i]).user_data.is_favorite,
        forall|i: int|
            0 <= i < starred.song.len() ==> favorites(Some(starred)).contains(
                favorite(#[trigger] starred.song[i].id, ItemType::Audio),
            ),
        forall|i: int|
            0 <= i < starred.album.len() ==> favorites(Some(starred)).contains(
                favorite(#[trigger] starred.album[i].id, ItemType::MusicAlbum),
            ),
        forall|i: int|
            0 <= i < starred.artist.len() ==> favorites(Some(starred)).contains(
                favorite(#[trigger] starred.artist[i].id, ItemType::MusicArtist),
            ),
{
    let all = favorites(Some(starred));
    assert forall|i: int| 0 <= i < starred.song.len() implies all.contains(
        favorite(#[trigger] starred.song[i].id, ItemType::Audio),
    ) by {
        assert(all[i] == favorite(starred.song[i].id, ItemType::Audio));
    }
    assert forall|i: int| 0 <= i < starred.album.len() implies all.contains(
        favorite(#[trigger] starred.album[i].id, ItemType::MusicAlbum),
    ) by {
        assert(all[starred.song.len() + i] == favorite(
            starred.album[i].id,
            ItemType::MusicAlbum,
        ));
    }
    assert forall|i: int| 0 <= i < starred.artist.len() implies all.contains(
        favorite(#[trigger] starred.artist[i].id, ItemType::MusicArtist),
    ) by {
        assert(all[starred.song.len() + starred.album.len() + i] == favorite(
            starred.artist[i].id,
            ItemType::MusicArtist,
        ));
    }
}

/// Whether any lyrics are synchronized with the song.
pub open spec fn any_synced(lyrics: Seq<StructuredLyricsView>) -> bool {
    exists|i: int| 0 <= i < lyrics.len() && (#[trigger] lyrics[i]).synced
}

/// Lyrics that are synchronized with the song are shown where there are any, and otherwise the
/// first ones.
pub proof fn law_synced_lyrics_are_preferred(lyrics: Seq<StructuredLyricsView>)
    ensures
        chosen_lyrics(lyrics) is Some <==> lyrics.len() > 0,
        chosen_lyrics(lyrics) matches Some(chosen) ==> lyrics.contains(chosen) && (chosen.synced
            <==> any_synced(lyrics)),
        lyrics.len() > 0 && !any_synced(lyrics) ==> chosen_lyrics(lyrics) == Some(lyrics[0]),
{
    lemma_first_synced(lyrics);
}

/// The first synchronized lyrics are synchronized lyrics of the list, where there are any.
proof fn lemma_first_synced(lyrics: Seq<StructuredLyricsView>)
    ensures
        first_synced(lyrics) is Some <==> any_synced(lyrics),
        first_synced(lyrics) matches Some(found) ==> found.synced && lyrics.contains(found),
    decreases lyrics.len(),
{
    if lyrics.len() > 0 {
        let rest = lyrics.skip(1);
        lemma_first_synced(rest);
        assert forall|i: int| 0 <= i < rest.len() implies lyrics[i + 1] == #[trigger] rest[i] by {}
        if lyrics[0].synced {
            assert(lyrics.contains(lyrics[0]));
        } else {
            if first_synced(rest) is Some {
                let i = choose|i: int| 0 <= i < rest.len() && (#[trigger] rest[i]).synced;
                assert(lyrics[i + 1].synced);
                let j = choose|j: int| 0 <= j < rest.len() && rest[j] == first_synced(rest)->0;
                assert(lyrics[j + 1] == rest[j]);
            }
            if any_synced(lyrics) {
                let i = choose|i: int| 0 <= i < lyrics.len() && (#[trigger] lyrics[i]).synced;
                assert(rest[i - 1].synced);
            }
        }
    }
}

/// A song that was stopped counts as played exactly where it was played for long enough, and a song
/// that was only started never does.
pub proof fn law_played(report: PlaybackReport, state: PlaybackReportStatus)
    ensures
        submission(report, state) == Some(true) <==> state is Stopped && report.position_ticks
            >= PLAYED_AFTER_SECONDS * TICKS_PER_SECOND,
        submission(report, state) is None <==> state is InProgress,
{
}

/// Which of the versions of the lyrics to show, if there is any.
fn choose_lyrics(lyrics: &Vec<StructuredLyrics>) -> (r: Option<usize>)
    ensures
        r is Some <==> chosen_lyrics(lyrics.deep_view()) is Some,
        r matches Some(i) ==> i < lyrics@.len() && lyrics@[i as int].deep_view() == chosen_lyrics(
            lyrics.deep_view(),
        )->0,
{
    let ghost all = lyrics.deep_view();
    let mut i: usize = 0;
    assert(all.skip(0) =~= all);
    while i < lyrics.len()
        invariant
            all == lyrics.deep_view(),
            i <= lyrics@.len(),
            first_synced(all) == first_synced(all.skip(i as int)),
        decreases lyrics@.len() - i,
    {
        assert(all[i as int] == lyrics@[i as int].deep_view());
        if lyrics[i].synced {
            return Some(i);
        }
        assert(all.skip(i as int).skip(1) =~= all.skip(i + 1));
        i = i + 1;
    }
    if lyrics.len() > 0 {
        assert(all[0] == lyrics@[0].deep_view());
        Some(0)
    } else {
        None
    }
}

impl Subsonic {
    /// The error that a code and a message of the server stand for.
    pub fn map_api_error(&self, code: i32, message: String) -> (e: BackendError)
        ensures
            e.deep_view() == api_error(code, message@),
    {
        if code == WRONG_CREDENTIALS {
            BackendError::AuthenticationFailed { message }
        } else {
            let mut described = text::followed_by(
                "Subsonic error ",
                text::decimal_int_text(code).as_str(),
            );
            described.append(": ");
            described.append(message.as_str());
            BackendError::Http { status: BAD_GATEWAY, message: described }
        }
    }

    /// Whether an answer is a success, and otherwise why it is none.
    pub fn ensure_ok_response(&self, response: &SubsonicResponse) -> (r: Result<(), BackendError>)
        ensures
            result_view(r) == accepted(response.deep_view(), ()),
    {
        if response.is_ok() {
            return Ok(());
        }
        match &response.error {
            Some(error) => Err(self.map_api_error(error.code, error.message.clone())),
            None => Err(bad_answer_error("Subsonic API returned non-ok status")),
        }
    }

    /// The body of an answer with a successful status, and otherwise the error that it stands for.
    pub fn handle_http_response(&self, status: u16, body: Result<String, String>) -> (r: Result<
        String,
        BackendError,
    >)
        ensures
            result_view(r) == match body {
                Err(failure) => Err(BackendErrorView::Transport { message: failure@ }),
                Ok(body) => if success(status) {
                    Ok(body@)
                } else {
                    Err(status_error(status, body@))
                },
            },
    {
        match body {
            Err(failure) => Err(BackendError::Transport { message: failure }),
            Ok(body) => if is_success(status) {
                Ok(body)
            } else {
                Err(error_for_status(status, body))
            },
        }
    }

    /// The call that shows whether the server accepts the user.
    pub fn ping(&self) -> (r: Call)
        ensures
            r.deep_view() == (CallView { endpoint: "ping"@, params: seq![] }),
    {
        bare_call("ping")
    }

    /// The call that asks for the libraries.
    pub fn get_views_request(&self) -> (r: Call)
        ensures
            r.deep_view() == (CallView { endpoint: "getMusicFolders"@, params: seq![] }),
    {
        bare_call("getMusicFolders")
    }

    /// The libraries that an answer names. There is always at least one.
    pub fn get_views(&self, response: SubsonicResponse) -> (r: Result<LibraryDtoList, BackendError>)
        ensures
            result_view(r) == accepted(
                response.deep_view(),
                LibraryDtoListView { items: libraries(folders(response.deep_view())) },
            ),
    {
        if let Err(error) = self.ensure_ok_response(&response) {
            return Err(error);
        }
        let mut items: Vec<LibraryDto> = Vec::new();
        if let Some(folders) = response.music_folders {
            let ghost all = folders.music_folders@;
            for folder in it: folders.music_folders
                invariant
                    it.seq() == all,
                    items@.len() == it.index(),
                    forall|i: int|
                        0 <= i < items@.len() ==> (#[trigger] items@[i]).id@ == all[i].id@
                            && items@[i].name@ == all[i].name@,
            {
                items.push(LibraryDto { id: folder.id, name: folder.name });
            }
        }
        if items.is_empty() {
            items.push(
                LibraryDto { id: ALL_FOLDERS_LIBRARY_ID.to_owned(), name: "Music".to_owned() },
            );
        }
        assert(items.deep_view() =~= libraries(folders(response.deep_view())));
        Ok(LibraryDtoList { items })
    }

    /// The call that asks for what is starred.
    pub fn get_favorites_request(&self) -> (r: Call)
        ensures
            r.deep_view() == (CallView { endpoint: "getStarred2"@, params: seq![] }),
    {
        bare_call("getStarred2")
    }

    /// The favorites that an answer names.
    pub fn get_favorites(&self, response: SubsonicResponse) -> (r: Result<
        FavoriteDtoList,
        BackendError,
    >)
        ensures
            result_view(r) == accepted(
                response.deep_view(),
                FavoriteDtoListView { items: favorites(response.deep_view().starred2) },
            ),
    {
        if let Err(error) = self.ensure_ok_response(&response) {
            return Err(error);
        }
        let mut items: Vec<FavoriteDto> = Vec::new();
        if let Some(starred) = response.starred2 {
            let ghost songs = starred.song@;
            let ghost albums = starred.album@;
            let ghost artists = starred.artist@;
            for song in it: starred.song
                invariant
                    it.seq() == songs,
                    items@.len() == it.index(),
                    forall|i: int|
                        0 <= i < items@.len() ==> (#[trigger] items@[i]).deep_view() == favorite(
                            songs[i].id@,
                            ItemType::Audio,
                        ),
            {
                items.push(
                    FavoriteDto {
                        id: song.id,
                        item_type: ItemType::Audio,
                        user_data: FavoriteUserDataDto { is_favorite: true },
                    },
                );
            }
            let ghost first = items.deep_view();
            for album in it: starred.album
                invariant
                    it.seq() == albums,
                    items@.len() == first.len() + it.index(),
                    forall|i: int|
                        0 <= i < first.len() ==> (#[trigger] items@[i]).deep_view() == first[i],
                    forall|i: int|
                        first.len() <= i < items@.len() ==> (#[trigger] items@[i]).deep_view()
                            == favorite(albums[i - first.len()].id@, ItemType::MusicAlbum),
            {
                items.push(
                    FavoriteDto {
                        id: album.id,
                        item_type: ItemType::MusicAlbum,
                        user_data: FavoriteUserDataDto { is_favorite: true },
                    },
                );
            }
            let ghost second = items.deep_view();
            for artist in it: starred.artist
                invariant
                    it.seq() == artists,
                    items@.len() == second.len() + it.index(),
                    forall|i: int|
                        0 <= i < second.len() ==> (#[trigger] items@[i]).deep_view() == second[i],
                    forall|i: int|
                        second.len() <= i < items@.len() ==> (#[trigger] items@[i]).deep_view()
                            == favorite(artists[i - second.len()].id@, ItemType::MusicArtist),
            {
                items.push(
                    FavoriteDto {
                        id: artist.id,
                        item_type: ItemType::MusicArtist,
                        user_data: FavoriteUserDataDto { is_favorite: true },
                    },
                );
            }
        }
        assert(items.deep_view() =~= favorites(response.deep_view().starred2));
        Ok(FavoriteDtoList { items })
    }

    /// The call that makes an item a favorite, or no longer one.
    pub fn set_favorite(&self, item_id: &str, item_type: &ItemType, is_favorite: bool) -> (r: Call)
        ensures
            r.deep_view() == (CallView {
                endpoint: if is_favorite {
                    "star"@
                } else {
                    "unstar"@
                },
                params: seq![
                    (
                        match *item_type {
                            ItemType::MusicArtist => "artistId"@,
                            ItemType::MusicAlbum => "albumId"@,
                            _ => "id"@,
                        },
                        item_id@,
                    ),
                ],
            }),
    {
        let endpoint: &'static str = if is_favorite {
            "star"
        } else {
            "unstar"
        };
        let name: &'static str = match item_type {
            ItemType::MusicArtist => "artistId",
            ItemType::MusicAlbum => "albumId",
            _ => "id",
        };
        call_with(endpoint, name, item_id)
    }

    /// The call that asks for an album with its songs.
    pub fn get_album_request(&self, album_id: &str) -> (r: Call)
        ensures
            r.deep_view() == (CallView { endpoint: "getAlbum"@, params: seq![("id"@, album_id@)] }),
    {
        call_with("getAlbum", "id", album_id)
    }

    /// The songs of the album that an answer holds.
    pub fn get_album(&self, response: SubsonicResponse) -> (r: Result<Vec<MusicDto>, BackendError>)
        ensures
            result_view(r) == album_songs(response.deep_view()),
    {
        if let Err(error) = self.ensure_ok_response(&response) {
            return Err(error);
        }
        match response.album {
            None => Err(bad_answer_error("Subsonic response missing album payload")),
            Some(album) => {
                let fallback = AlbumFallback {
                    album_id: Some(album.id),
                    album_name: Some(album.name),
                    album_artists: album.album_artists,
                    artist_name: album.artist,
                    artist_id: album.artist_id,
                    year: album.year,
                    created: album.created,
                    cover_art: album.cover_art,
                };
                let songs = self.songs_to_music_dtos(album.song, &fallback);
                Ok(songs)
            },
        }
    }

    /// The call that deletes a playlist.
    pub fn delete_item(&self, item_id: &str) -> (r: Call)
        ensures
            r.deep_view() == (CallView {
                endpoint: "deletePlaylist"@,
                params: seq![("id"@, item_id@)],
            }),
    {
        call_with("deletePlaylist", "id", item_id)
    }

    /// The call that has the server look for new music, whatever the library.
    pub fn request_library_rescan(&self, _library_id: &str) -> (r: Call)
        ensures
            r.deep_view() == (CallView { endpoint: "startScan"@, params: seq![] }),
    {
        bare_call("startScan")
    }

    /// The call that asks for a song.
    pub fn get_playback_info_request(&self, item_id: &str) -> (r: Call)
        ensures
            r.deep_view() == (CallView { endpoint: "getSong"@, params: seq![("id"@, item_id@)] }),
    {
        call_with("getSong", "id", item_id)
    }

    /// How the song that an answer holds can be played.
    pub fn get_playback_info(&self, response: SubsonicResponse) -> (r: Result<
        PlaybackInfo,
        BackendError,
    >)
        ensures
            result_view(r) == match held(
                response.deep_view(),
                response.deep_view().song,
                "Subsonic getSong response missing song payload"@,
            ) {
                Ok(song) => Ok(playback_info(song)),
                Err(error) => Err(error),
            },
    {
        if let Err(error) = self.ensure_ok_response(&response) {
            return Err(error);
        }
        match response.song {
            None => Err(bad_answer_error("Subsonic getSong response missing song payload")),
            Some(song) => {
                let media_streams = vec![
                    MediaStream {
                        type_: Some("Audio".to_owned()),
                        codec: song.suffix.clone(),
                        bit_rate: song.bit_rate,
                        sample_rate: song.sampling_rate,
                        channels: song.channel_count,
                    },
                ];
                let media_sources = vec![
                    MediaSource {
                        media_streams,
                        id: Some(song.id),
                        path: song.path,
                        container: song.suffix,
                        size: song.size,
                        supports_direct_stream: Some(true),
                        supports_direct_play: Some(true),
                        supports_transcoding: Some(true),
                    },
                ];
                let info = PlaybackInfo { media_sources };
                proof {
                    let source = info.deep_view().media_sources[0];
                    let expected = playback_info(song.deep_view()).media_sources[0];
                    assert(source.media_streams =~= expected.media_streams);
                    assert(info.deep_view().media_sources =~= playback_info(
                        song.deep_view(),
                    ).media_sources);
                }
                Ok(info)
            },
        }
    }

    /// The call that tells the server of what is played, if it is to be told: a song counts as
    /// played once it is stopped after some seconds.
    pub fn playback_report(&self, report: &PlaybackReport, state: &PlaybackReportStatus) -> (r:
        Option<Call>)
        ensures
            r.deep_view() == match submission(*report, *state) {
                None => None,
                Some(played) => Some(
                    CallView {
                        endpoint: "scrobble"@,
                        params: seq![
                            ("id"@, report.item_id@),
                            (
                                "submission"@,
                                if played {
                                    "true"@
                                } else {
                                    "false"@
                                },
                            ),
                        ],
                    },
                ),
            },
    {
        let submission: &'static str = match state {
            PlaybackReportStatus::InProgress => return None,
            PlaybackReportStatus::Stopped => if report.position_seconds() >= PLAYED_AFTER_SECONDS {
                "true"
            } else {
                "false"
            },
            PlaybackReportStatus::Started => "false",
        };
        let params: Params = vec![
            pair("id", report.item_id.as_str()),
            pair("submission", submission),
        ];
        assert(params.deep_view() =~= seq![
            ("id"@, report.item_id@),
            ("submission"@, submission@),
        ]);
        Some(Call { endpoint: "scrobble", params })
    }

    /// The call that asks for the lyrics of a song.
    pub fn fetch_lyrics_request(&self, item_id: &str) -> (r: Call)
        ensures
            r.deep_view() == (CallView {
                endpoint: "getLyricsBySongId"@,
                params: seq![("id"@, item_id@)],
            }),
    {
        call_with("getLyricsBySongId", "id", item_id)
    }

    /// Whether the start of each line of the lyrics to show can be told in ticks. An answer that is
    /// refused shows none.
    pub fn lyrics_in_range(&self, response: &SubsonicResponse) -> (b: bool)
        ensures
            b == tells_lyrics(response.deep_view()),
    {
        if !response.is_ok() {
            return true;
        }
        if let Some(list) = &response.lyrics_list {
            if let Some(chosen) = choose_lyrics(&list.structured_lyrics) {
                let lines = &list.structured_lyrics[chosen].line;
                let ghost all = lines.deep_view();
                assert(all == lyrics_lines(response.deep_view()));
                let mut i: usize = 0;
                while i < lines.len()
                    invariant
                        all == lines.deep_view(),
                        i <= lines@.len(),
                        all == lyrics_lines(response.deep_view()),
                        response.deep_view().ok(),
                        forall|j: int|
                            0 <= j < i ==> (#[trigger] all[j].start matches Some(ms) ==> ms
                                * TICKS_PER_MILLISECOND <= u64::MAX),
                    decreases lines@.len() - i,
                {
                    assert(all[i as int] == lines@[i as int].deep_view());
                    if let Some(ms) = lines[i].start {
                        if ms > u64::MAX / TICKS_PER_MILLISECOND {
                            assert(all[i as int].start == Some(ms));
                            return false;
                        }
                    }
                    i = i + 1;
                }
            }
        }
        true
    }

    /// The lyrics that an answer holds, preferably those that are synchronized with the song. The
    /// server tells the start of a line in milliseconds, the player in ticks.
    pub fn fetch_lyrics(&self, response: SubsonicResponse) -> (r: Result<
        LyricsResponse,
        BackendError,
    >)
        requires
            tells_lyrics(response.deep_view()),
        ensures
            result_view(r) == accepted(
                response.deep_view(),
                LyricsResponseView {
                    lyrics: Seq::new(
                        lyrics_lines(response.deep_view()).len(),
                        |i: int| lyric(lyrics_lines(response.deep_view())[i]),
                    ),
                },
            ),
    {
        if let Err(error) = self.ensure_ok_response(&response) {
            return Err(error);
        }
        let mut lyrics: Vec<Lyric> = Vec::new();
        let ghost expected = lyrics_lines(response.deep_view());
        if let Some(list) = &response.lyrics_list {
            if let Some(chosen) = choose_lyrics(&list.structured_lyrics) {
                let lines = &list.structured_lyrics[chosen].line;
                assert(lines.deep_view() == expected);
                let mut i: usize = 0;
                while i < lines.len()
                    invariant
                        expected == lines.deep_view(),
                        starts_in_range(expected),
                        i <= lines@.len(),
                        lyrics@.len() == i,
                        forall|j: int|
                            0 <= j < i ==> (#[trigger] lyrics@[j]).deep_view() == lyric(
                                expected[j],
                            ),
                    decreases lines@.len() - i,
                {
                    assert(expected[i as int] == lines@[i as int].deep_view());
                    let start = match lines[i].start {
                        Some(ms) => Some(ms * TICKS_PER_MILLISECOND),
                        None => None,
                    };
                    lyrics.push(Lyric { text: lines[i].value.clone(), start });
                    i = i + 1;
                }
            }
        }
        assert(lyrics.deep_view() =~= Seq::new(expected.len(), |i: int| lyric(expected[i])));
        Ok(LyricsResponse { lyrics })
    }

    /// The bytes of a picture, or the error that the status of the answer stands for.
    pub fn image_bytes(&self, status: u16, body: BinaryBody) -> (r: Result<Vec<u8>, BackendError>)
        requires
            success(status) <==> body is Bytes,
        ensures
            result_view(r) == match body {
                BinaryBody::Bytes(Ok(bytes)) => Ok(bytes@),
                BinaryBody::Bytes(Err(failure)) | BinaryBody::Message(Err(failure)) => Err(
                    BackendErrorView::Transport { message: failure@ },
                ),
                BinaryBody::Message(Ok(message)) => Err(status_error(status, message@)),
            },
    {
        match body {
            BinaryBody::Bytes(Ok(bytes)) => {
                assert(bytes.deep_view() =~= bytes@);
                Ok(bytes)
            },
            BinaryBody::Bytes(Err(failure)) => Err(BackendError::Transport { message: failure }),
            BinaryBody::Message(Err(failure)) => Err(BackendError::Transport { message: failure }),
            BinaryBody::Message(Ok(message)) => Err(error_for_status(status, message)),
        }
    }
}

} // verus!
