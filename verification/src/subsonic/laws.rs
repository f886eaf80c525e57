//! What becomes of the songs, the answers and the playlists of a Subsonic server. Each law speaks
//! of a call by its arguments and its result alone.

use vstd::prelude::*;

use crate::backend::{lemma_elements, BackendError, BinaryBody};
use crate::jellyfin::api::{
    FavoriteDtoList, LibraryDtoList, LyricsResponse, MusicDto, MusicDtoList, PlaybackInfo,
    PlaybackReport, PlaybackReportStatus, PlaylistDtoList, PlaylistItems,
};
use crate::subsonic::answers::{chosen_lyrics, first_synced};
use crate::subsonic::api::{Song, StructuredLyrics, StructuredLyricsView, SubsonicResponse};
use crate::subsonic::playlists::{first_position, lemma_first_position, moved, song_ids};
use crate::subsonic::songs::{music_dto, seconds_to_ticks, AlbumFallback};
use crate::subsonic::{Call, Params, Subsonic};
use crate::text;

verus! {

broadcast use vstd::string::group_string_axioms;

/// Whether an error tells why the server refused a request.
pub open spec fn tells_refusal(error: BackendError, response: SubsonicResponse) -> bool {
    match response.error {
        Some(e) => if e.code == 40 {
            error matches BackendError::AuthenticationFailed { message } && message@ == e.message@
        } else {
            error matches BackendError::Http { status, message } && status == 502 && message@
                == "Subsonic error "@ + text::decimal_int(e.code as int) + ": "@ + e.message@
        },
        None => error matches BackendError::Http { status, message } && status == 502 && message@
            == "Subsonic API returned non-ok status"@,
    }
}

/// Whether an error tells that an answer lacks what was asked for.
pub open spec fn tells_lack(error: BackendError, what: Seq<char>) -> bool {
    error matches BackendError::Http { status, message } && status == 502 && message@ == what
}

/// An answer that is no success makes every operation fail with the server's reason.
pub proof fn law_refused_answer_fails(
    server: &Subsonic,
    response: SubsonicResponse,
    checked: Result<(), BackendError>,
    views: Result<LibraryDtoList, BackendError>,
    favorites: Result<FavoriteDtoList, BackendError>,
    album: Result<Vec<MusicDto>, BackendError>,
    playlists: Result<PlaylistDtoList, BackendError>,
    items: Result<PlaylistItems, BackendError>,
    created: Result<String, BackendError>,
    info: Result<PlaybackInfo, BackendError>,
    lyrics: Result<LyricsResponse, BackendError>,
)
    requires
        response.status@ != "ok"@,
        call_ensures(Subsonic::ensure_ok_response, (server, &response), checked),
        call_ensures(Subsonic::get_views, (server, response), views),
        call_ensures(Subsonic::get_favorites, (server, response), favorites),
        call_ensures(Subsonic::get_album, (server, response), album),
        call_ensures(Subsonic::get_playlists, (server, response), playlists),
        call_ensures(Subsonic::get_playlist_items, (server, response), items),
        call_ensures(Subsonic::new_playlist, (server, response), created),
        call_ensures(Subsonic::get_playback_info, (server, response), info),
        call_ensures(Subsonic::fetch_lyrics, (server, response), lyrics),
    ensures
        checked is Err && tells_refusal(checked->Err_0, response),
        views is Err && tells_refusal(views->Err_0, response),
        favorites is Err && tells_refusal(favorites->Err_0, response),
        album is Err && tells_refusal(album->Err_0, response),
        playlists is Err && tells_refusal(playlists->Err_0, response),
        items is Err && tells_refusal(items->Err_0, response),
        created is Err && tells_refusal(created->Err_0, response),
        info is Err && tells_refusal(info->Err_0, response),
        lyrics is Err && tells_refusal(lyrics->Err_0, response),
{
}

/// An answer that is no success leaves a playlist as it is.
pub proof fn law_refused_edit_fails(
    server: &Subsonic,
    response: SubsonicResponse,
    playlist_id: &str,
    item_id: &str,
    index: i32,
    moved: Result<Call, BackendError>,
    removed: Result<Call, BackendError>,
)
    requires
        response.status@ != "ok"@,
        call_ensures(
            Subsonic::move_playlist_item,
            (server, response, playlist_id, item_id, index),
            moved,
        ),
        call_ensures(
            Subsonic::remove_playlist_item,
            (server, response, playlist_id, item_id),
            removed,
        ),
    ensures
        moved is Err && tells_refusal(moved->Err_0, response),
        removed is Err && tells_refusal(removed->Err_0, response),
{
}

/// An answer that is a success passes.
pub proof fn law_accepted_answer_passes(
    server: &Subsonic,
    response: SubsonicResponse,
    r: Result<(), BackendError>,
)
    requires
        response.status@ == "ok"@,
        call_ensures(Subsonic::ensure_ok_response, (server, &response), r),
    ensures
        r is Ok,
{
}

/// The body of an answer is read where it arrived with a status from 200 to 299. The error is
/// failed authentication for the status 401, and otherwise the status itself.
pub proof fn law_http_answer(
    server: &Subsonic,
    status: u16,
    body: Result<String, String>,
    r: Result<String, BackendError>,
)
    requires
        call_ensures(Subsonic::handle_http_response, (server, status, body), r),
    ensures
        r is Ok <==> body is Ok && 200 <= status <= 299,
        r is Ok ==> r->Ok_0@ == body->Ok_0@,
        body is Err ==> (r->Err_0 matches BackendError::Transport { message } && message@
            == body->Err_0@),
        body is Ok && status == 401 ==> (r->Err_0 matches BackendError::AuthenticationFailed {
            message,
        } && message@ == body->Ok_0@),
        body is Ok && !(200 <= status <= 299) && status != 401 ==> (
        r->Err_0 matches BackendError::Http { status: s, message } && s == status && message@
            == body->Ok_0@),
{
}

/// A picture is read where it arrived with a status from 200 to 299, and otherwise the status and
/// the message decide the error.
pub proof fn law_picture_answer(
    server: &Subsonic,
    status: u16,
    body: BinaryBody,
    r: Result<Vec<u8>, BackendError>,
)
    requires
        call_ensures(Subsonic::image_bytes, (server, status, body), r),
        200 <= status <= 299 <==> body is Bytes,
    ensures
        body matches BinaryBody::Bytes(Ok(bytes)) ==> r is Ok && r->Ok_0@ == bytes@,
        body matches BinaryBody::Bytes(Err(failure)) ==> (
        r matches Err(BackendError::Transport { message }) && message@ == failure@),
        body matches BinaryBody::Message(Err(failure)) ==> (
        r matches Err(BackendError::Transport { message }) && message@ == failure@),
        body matches BinaryBody::Message(Ok(text)) ==> (if status == 401 {
            r matches Err(BackendError::AuthenticationFailed { message }) && message@ == text@
        } else {
            r matches Err(BackendError::Http { status: s, message }) && s == status && message@
                == text@
        }),
{
    if r is Ok {
        assert(r->Ok_0.deep_view() =~= r->Ok_0@);
    }
}

/// Whether a song of the player is the one that a song of the server becomes, where an album says
/// what it does of its songs.
pub open spec fn song_of(dto: MusicDto, song: Song, album: AlbumFallback) -> bool {
    &&& dto.id@ == song.id@
    &&& dto.name@ == song.title@
    &&& dto.index_number == song.track
    &&& dto.parent_index_number == song.disc_number
    &&& dto.has_lyrics
    &&& dto.cover_art.deep_view() == album.cover_art.deep_view()
    // What the song says comes first, and what the album says stands in for it.
    &&& song.created is Some ==> dto.date_created.deep_view() == song.created.deep_view()
    &&& song.created is None ==> dto.date_created.deep_view() == album.created.deep_view()
    &&& song.album is Some ==> dto.album.deep_view() == song.album.deep_view()
    &&& song.album is None ==> dto.album.deep_view() == album.album_name.deep_view()
    &&& song.album_id is Some ==> dto.album_id.deep_view() == song.album_id.deep_view()
    &&& song.album_id is None ==> dto.album_id.deep_view() == album.album_id.deep_view()
    &&& song.year is Some ==> dto.production_year == song.year
    &&& song.year is None ==> dto.production_year == album.year
    // How long it is, in ticks, as far as those can be counted.
    &&& song.duration is None ==> dto.run_time_ticks == 0
    &&& song.duration matches Some(s) ==> if s * 10_000_000 <= u64::MAX {
        dto.run_time_ticks == s * 10_000_000
    } else {
        dto.run_time_ticks == u64::MAX
    }
    &&& gain_of(dto, song)
    &&& song.play_count is None ==> dto.user_data.play_count == 0
    &&& song.play_count matches Some(n) ==> dto.user_data.play_count == n
    &&& dto.user_data.last_played_date.deep_view() == song.played.deep_view()
    &&& song.genre is None ==> dto.genres@.len() == 0
    &&& song.genre matches Some(genre) ==> dto.genres@.len() == 1 && dto.genres@[0]@ == genre@
    &&& album_artist_of(dto, song, album)
    &&& song_artist_of(dto, song, album)
}

/// Whether a song has the gain of the track, or else that of the album, or else the base gain.
pub open spec fn gain_of(dto: MusicDto, song: Song) -> bool {
    match song.replay_gain {
        Some(g) => {
            &&& g.track_gain is Some ==> dto.normalization_gain == g.track_gain
            &&& g.track_gain is None && g.album_gain is Some ==> dto.normalization_gain
                == g.album_gain
            &&& g.track_gain is None && g.album_gain is None ==> dto.normalization_gain
                == g.base_gain
        },
        None => dto.normalization_gain is None,
    }
}

/// Whether a song is under the album artist that it names, or else under the one that the album
/// names, or else under the artist that either has.
pub open spec fn album_artist_of(dto: MusicDto, song: Song, album: AlbumFallback) -> bool {
    let artist = dto.album_artists@[0];
    let alone = song.album_artists@.len() == 0 && album.album_artists@.len() == 0;
    &&& dto.album_artists@.len() == 1
    &&& song.album_artists@.len() > 0 ==> artist.name@ == song.album_artists@[0].name@ && artist.id@
        == song.album_artists@[0].id@
    &&& song.album_artists@.len() == 0 && album.album_artists@.len() > 0 ==> artist.name@
        == album.album_artists@[0].name@ && artist.id@ == album.album_artists@[0].id@
    &&& alone ==> match (song.album_artist, song.artist, album.artist_name) {
        (Some(name), _, _) => artist.name@ == name@,
        (None, Some(name), _) => artist.name@ == name@,
        (None, None, Some(name)) => artist.name@ == name@,
        (None, None, None) => artist.name@ == "Unknown Artist"@,
    }
    &&& alone ==> match (song.artist_id, album.artist_id) {
        (Some(id), _) => artist.id@ == id@,
        (None, Some(id)) => artist.id@ == id@,
        (None, None) => artist.id@.len() == 0,
    }
}

/// Whether a song is by its own artist, or else by its album artist, or else by that of the album.
pub open spec fn song_artist_of(dto: MusicDto, song: Song, album: AlbumFallback) -> bool {
    let artist = dto.artist_items@[0];
    &&& dto.artist_items@.len() == 1
    &&& match (song.artist, song.album_artist, album.artist_name) {
        (Some(name), _, _) => artist.name@ == name@,
        (None, Some(name), _) => artist.name@ == name@,
        (None, None, Some(name)) => artist.name@ == name@,
        (None, None, None) => artist.name@ == "Unknown Artist"@,
    }
    &&& match (song.artist_id, album.artist_id) {
        (Some(id), _) => artist.id@ == id@,
        (None, Some(id)) => artist.id@ == id@,
        (None, None) => artist.id@.len() == 0,
    }
}

/// What holds the same as the song that a song of the server becomes is that song.
proof fn lemma_song_of(dto: MusicDto, song: Song, album: AlbumFallback)
    requires
        dto.deep_view() == music_dto(song.deep_view(), album.deep_view()),
    ensures
        song_of(dto, song, album),
{
    lemma_elements(dto.genres);
    lemma_elements(dto.album_artists);
    lemma_elements(dto.artist_items);
    lemma_elements(song.album_artists);
    lemma_elements(album.album_artists);
    if let Some(genre) = song.genre {
        assert(dto.genres@[0]@ == dto.genres.deep_view()[0]);
    }
    assert(dto.album_artists@[0].deep_view() == dto.album_artists.deep_view()[0]);
    assert(dto.artist_items@[0].deep_view() == dto.artist_items.deep_view()[0]);
    if song.album_artists@.len() > 0 {
        assert(song.album_artists@[0].deep_view() == song.album_artists.deep_view()[0]);
    }
    if album.album_artists@.len() > 0 {
        assert(album.album_artists@[0].deep_view() == album.album_artists.deep_view()[0]);
    }
}

/// Every song becomes the player's song that is made of it and of its album.
pub proof fn law_song_is_made(
    server: &Subsonic,
    song: Song,
    album: &AlbumFallback,
    dto: MusicDto,
)
    requires
        call_ensures(Subsonic::song_to_music_dto, (server, song, album), dto),
    ensures
        song_of(dto, song, *album),
{
    lemma_song_of(dto, song, *album);
}

/// The gain of the track counts whatever the other gains are, and a song has no gain only where
/// there is none of the three.
pub proof fn law_track_gain_comes_first(
    server: &Subsonic,
    song: Song,
    album: &AlbumFallback,
    dto: MusicDto,
)
    requires
        call_ensures(Subsonic::song_to_music_dto, (server, song, album), dto),
    ensures
        song.replay_gain matches Some(g) ==> (g.track_gain is Some ==> dto.normalization_gain
            == g.track_gain),
        song.replay_gain matches Some(g) ==> (dto.normalization_gain is None
            <==> g.track_gain is None && g.album_gain is None && g.base_gain is None),
        song.replay_gain is None ==> dto.normalization_gain is None,
{
}

/// Songs that become the same have the same identifier, title and place on the album, and were last
/// played at the same time.
pub proof fn law_songs_are_told_apart(
    server: &Subsonic,
    a: Song,
    b: Song,
    album: &AlbumFallback,
    x: MusicDto,
    y: MusicDto,
)
    requires
        call_ensures(Subsonic::song_to_music_dto, (server, a, album), x),
        call_ensures(Subsonic::song_to_music_dto, (server, b, album), y),
        x.deep_view() == y.deep_view(),
    ensures
        a.id@ == b.id@,
        a.title@ == b.title@,
        a.track == b.track,
        a.disc_number == b.disc_number,
        a.played.deep_view() == b.played.deep_view(),
{
}

/// A list of songs becomes as many songs, in the same order.
pub proof fn law_songs_are_made(
    server: &Subsonic,
    songs: Vec<Song>,
    album: &AlbumFallback,
    dtos: Vec<MusicDto>,
)
    requires
        call_ensures(Subsonic::songs_to_music_dtos, (server, songs, album), dtos),
    ensures
        dtos@.len() == songs@.len(),
        forall|i: int|
            0 <= i < songs@.len() ==> song_of(#[trigger] dtos@[i], songs@[i], *album),
{
    lemma_elements(dtos);
    lemma_elements(songs);
    assert forall|i: int| 0 <= i < songs@.len() implies song_of(
        #[trigger] dtos@[i],
        songs@[i],
        *album,
    ) by {
        assert(songs.deep_view()[i] == songs@[i].deep_view());
        assert(dtos.deep_view()[i] == dtos@[i].deep_view());
        lemma_song_of(dtos@[i], songs@[i], *album);
    }
}

/// Seconds are told in ticks of a hundred nanoseconds, as far as those can be counted.
pub proof fn law_ticks(seconds: u64, r: u64)
    requires
        call_ensures(seconds_to_ticks, (seconds,), r),
    ensures
        seconds * 10_000_000 <= u64::MAX ==> r == seconds * 10_000_000,
        seconds * 10_000_000 > u64::MAX ==> r == u64::MAX,
{
}

/// An album gives every one of its songs, in their order, and nothing else. Where a song is silent,
/// the album speaks for it.
pub proof fn law_album_gives_every_song(
    server: &Subsonic,
    response: SubsonicResponse,
    r: Result<Vec<MusicDto>, BackendError>,
    fallback: AlbumFallback,
)
    requires
        call_ensures(Subsonic::get_album, (server, response), r),
        response.status@ == "ok"@,
        response.album matches Some(album) ==> {
            &&& fallback.album_id.deep_view() == Some(album.id@)
            &&& fallback.album_name.deep_view() == Some(album.name@)
            &&& fallback.album_artists.deep_view() == album.album_artists.deep_view()
            &&& fallback.artist_name.deep_view() == album.artist.deep_view()
            &&& fallback.artist_id.deep_view() == album.artist_id.deep_view()
            &&& fallback.year == album.year
            &&& fallback.created.deep_view() == album.created.deep_view()
            &&& fallback.cover_art.deep_view() == album.cover_art.deep_view()
        },
    ensures
        r is Ok <==> response.album is Some,
        response.album matches Some(album) ==> r->Ok_0@.len() == album.song@.len(),
        response.album matches Some(album) ==> forall|i: int|
            0 <= i < album.song@.len() ==> (#[trigger] r->Ok_0@[i]).id@ == album.song@[i].id@
                && r->Ok_0@[i].name@ == album.song@[i].title@ && song_of(
                r->Ok_0@[i],
                album.song@[i],
                fallback,
            ),
        response.album is None ==> tells_lack(
            r->Err_0,
            "Subsonic response missing album payload"@,
        ),
{
    if let Some(album) = response.album {
        let songs = r->Ok_0;
        lemma_elements(songs);
        lemma_elements(album.song);
        assert forall|i: int| 0 <= i < album.song@.len() implies (#[trigger] songs@[i]).id@
            == album.song@[i].id@ && songs@[i].name@ == album.song@[i].title@ && song_of(
            songs@[i],
            album.song@[i],
            fallback,
        ) by {
            assert(songs.deep_view()[i] == songs@[i].deep_view());
            assert(album.song.deep_view()[i] == album.song@[i].deep_view());
            lemma_song_of(songs@[i], album.song@[i], fallback);
        }
    }
}

/// Every song of an album is in the library, album after album, where the album could be fetched.
pub proof fn law_library_takes_every_album(
    server: &Subsonic,
    albums: Vec<Result<Vec<MusicDto>, BackendError>>,
    more: Vec<Result<Vec<MusicDto>, BackendError>>,
    album: Result<Vec<MusicDto>, BackendError>,
    r: MusicDtoList,
    grown: MusicDtoList,
)
    requires
        call_ensures(Subsonic::get_library, (server, albums), r),
        call_ensures(Subsonic::get_library, (server, more), grown),
        more@ == albums@.push(album),
        r.items@.len() <= u64::MAX,
        grown.items@.len() <= u64::MAX,
    ensures
        albums@.len() == 0 ==> r.items@.len() == 0,
        r.total_record_count == r.items@.len(),
        grown.total_record_count == grown.items@.len(),
        album matches Ok(songs) ==> grown.items@.len() == r.items@.len() + songs@.len(),
        album is Err ==> grown.items@.len() == r.items@.len(),
        forall|i: int|
            0 <= i < r.items@.len() ==> (#[trigger] grown.items@[i]).deep_view()
                == r.items@[i].deep_view(),
        album matches Ok(songs) ==> forall|i: int|
            0 <= i < songs@.len() ==> grown.items@[r.items@.len() + i].deep_view() == (
            #[trigger] songs@[i]).deep_view(),
{
    lemma_elements(r.items);
    lemma_elements(grown.items);
    assert(more@.drop_last() =~= albums@);
    if let Ok(songs) = album {
        lemma_elements(songs);
        assert(grown.items.deep_view() == r.items.deep_view() + songs.deep_view());
        assert forall|i: int| 0 <= i < songs@.len() implies grown.items@[r.items@.len()
            + i].deep_view() == (#[trigger] songs@[i]).deep_view() by {
            assert(grown.items.deep_view()[r.items@.len() + i] == songs.deep_view()[i]);
        }
    }
    assert forall|i: int| 0 <= i < r.items@.len() implies (#[trigger] grown.items@[i]).deep_view()
        == r.items@[i].deep_view() by {
        assert(grown.items.deep_view()[i] == r.items.deep_view()[i]);
    }
}

/// Songs of the player that hold the same have the same in every field.
pub proof fn law_songs_hold_their_fields(a: MusicDto, b: MusicDto)
    requires
        a.deep_view() == b.deep_view(),
    ensures
        a.name@ == b.name@,
        a.id@ == b.id@,
        a.date_created.deep_view() == b.date_created.deep_view(),
        a.run_time_ticks == b.run_time_ticks,
        a.album.deep_view() == b.album.deep_view(),
        a.album_id.deep_view() == b.album_id.deep_view(),
        a.normalization_gain == b.normalization_gain,
        a.production_year == b.production_year,
        a.index_number == b.index_number,
        a.parent_index_number == b.parent_index_number,
        a.user_data.play_count == b.user_data.play_count,
        a.user_data.last_played_date.deep_view() == b.user_data.last_played_date.deep_view(),
        a.has_lyrics == b.has_lyrics,
        a.cover_art.deep_view() == b.cover_art.deep_view(),
        a.genres@.len() == b.genres@.len(),
        forall|i: int| 0 <= i < a.genres@.len() ==> (#[trigger] a.genres@[i])@ == b.genres@[i]@,
        a.album_artists@.len() == b.album_artists@.len(),
        forall|i: int|
            0 <= i < a.album_artists@.len() ==> (#[trigger] a.album_artists@[i]).name@
                == b.album_artists@[i].name@ && a.album_artists@[i].id@ == b.album_artists@[i].id@,
        a.artist_items@.len() == b.artist_items@.len(),
        forall|i: int|
            0 <= i < a.artist_items@.len() ==> (#[trigger] a.artist_items@[i]).name@
                == b.artist_items@[i].name@ && a.artist_items@[i].id@ == b.artist_items@[i].id@,
{
    lemma_elements(a.genres);
    lemma_elements(b.genres);
    lemma_elements(a.album_artists);
    lemma_elements(b.album_artists);
    lemma_elements(a.artist_items);
    lemma_elements(b.artist_items);
    assert forall|i: int| 0 <= i < a.genres@.len() implies (#[trigger] a.genres@[i])@
        == b.genres@[i]@ by {
        assert(a.genres.deep_view()[i] == b.genres.deep_view()[i]);
    }
    assert forall|i: int| 0 <= i < a.album_artists@.len() implies (
    #[trigger] a.album_artists@[i]).name@ == b.album_artists@[i].name@ && a.album_artists@[i].id@
        == b.album_artists@[i].id@ by {
        assert(a.album_artists.deep_view()[i] == b.album_artists.deep_view()[i]);
    }
    assert forall|i: int| 0 <= i < a.artist_items@.len() implies (
    #[trigger] a.artist_items@[i]).name@ == b.artist_items@[i].name@ && a.artist_items@[i].id@
        == b.artist_items@[i].id@ by {
        assert(a.artist_items.deep_view()[i] == b.artist_items.deep_view()[i]);
    }
}

/// Every folder is a library, in the order of the server, and where there is none all music is one.
pub proof fn law_every_folder_is_a_library(
    server: &Subsonic,
    response: SubsonicResponse,
    r: Result<LibraryDtoList, BackendError>,
)
    requires
        call_ensures(Subsonic::get_views, (server, response), r),
        response.status@ == "ok"@,
    ensures
        r is Ok,
        response.music_folders matches Some(f) && f.music_folders@.len() > 0 ==> {
            let items = r->Ok_0.items@;
            let folders = response.music_folders->0.music_folders@;
            items.len() == folders.len() && forall|i: int|
                0 <= i < folders.len() ==> (#[trigger] items[i]).id@ == folders[i].id@
                    && items[i].name@ == folders[i].name@
        },
        (response.music_folders matches Some(f) ==> f.music_folders@.len() == 0) ==> {
            let items = r->Ok_0.items@;
            items.len() == 1 && items[0].id@ == "__gelly_subsonic_all__"@ && items[0].name@
                == "Music"@
        },
{
    let items = r->Ok_0.items;
    lemma_elements(items);
    if let Some(f) = response.music_folders {
        let folders = f.music_folders;
        lemma_elements(folders);
        assert forall|i: int| 0 <= i < folders@.len() implies (#[trigger] items@[i]).id@
            == folders@[i].id@ && items@[i].name@ == folders@[i].name@ by {
            assert(items.deep_view()[i] == items@[i].deep_view());
            assert(folders.deep_view()[i] == folders@[i].deep_view());
        }
    }
    if !(response.music_folders matches Some(f) && f.music_folders@.len() > 0) {
        assert(items.deep_view()[0] == items@[0].deep_view());
    }
}

/// Every song, album and artist that is starred is a favorite of its kind, in that order, and
/// nothing else is.
pub proof fn law_every_star_is_a_favorite(
    server: &Subsonic,
    response: SubsonicResponse,
    r: Result<FavoriteDtoList, BackendError>,
)
    requires
        call_ensures(Subsonic::get_favorites, (server, response), r),
        response.status@ == "ok"@,
    ensures
        r is Ok,
        response.starred2 is None ==> r->Ok_0.items@.len() == 0,
        response.starred2 matches Some(starred) ==> {
            let items = r->Ok_0.items@;
            let songs = starred.song@;
            let albums = starred.album@;
            let artists = starred.artist@;
            &&& items.len() == songs.len() + albums.len() + artists.len()
            &&& forall|i: int| 0 <= i < items.len() ==> (#[trigger] items[i]).user_data.is_favorite
            &&& forall|i: int|
                0 <= i < songs.len() ==> items[i].id@ == (#[trigger] songs[i]).id@
                    && items[i].item_type is Audio
            &&& forall|i: int|
                0 <= i < albums.len() ==> items[songs.len() + i].id@ == (#[trigger] albums[i]).id@
                    && items[songs.len() + i].item_type is MusicAlbum
            &&& forall|i: int|
                0 <= i < artists.len() ==> items[songs.len() + albums.len() + i].id@ == (
                #[trigger] artists[i]).id@ && items[songs.len() + albums.len()
                    + i].item_type is MusicArtist
        },
{
    let items = r->Ok_0.items;
    lemma_elements(items);
    if let Some(starred) = response.starred2 {
        lemma_elements(starred.song);
        lemma_elements(starred.album);
        lemma_elements(starred.artist);
        let n = starred.song@.len() as int;
        let m = n + starred.album@.len();
        assert forall|i: int| 0 <= i < items@.len() implies (
        #[trigger] items@[i]).user_data.is_favorite by {
            assert(items.deep_view()[i] == items@[i].deep_view());
        }
        assert forall|i: int| 0 <= i < n implies items@[i].id@ == (#[trigger] starred.song@[i]).id@
            && items@[i].item_type is Audio by {
            assert(items.deep_view()[i] == items@[i].deep_view());
            assert(starred.song.deep_view()[i] == starred.song@[i].deep_view());
        }
        assert forall|i: int| 0 <= i < starred.album@.len() implies items@[n + i].id@ == (
        #[trigger] starred.album@[i]).id@ && items@[n + i].item_type is MusicAlbum by {
            assert(items.deep_view()[n + i] == items@[n + i].deep_view());
            assert(starred.album.deep_view()[i] == starred.album@[i].deep_view());
        }
        assert forall|i: int| 0 <= i < starred.artist@.len() implies items@[m + i].id@ == (
        #[trigger] starred.artist@[i]).id@ && items@[m + i].item_type is MusicArtist by {
            assert(items.deep_view()[m + i] == items@[m + i].deep_view());
            assert(starred.artist.deep_view()[i] == starred.artist@[i].deep_view());
        }
    }
}

/// Every playlist of an answer is listed, with its own identifier, name and number of songs.
pub proof fn law_every_playlist_is_listed(
    server: &Subsonic,
    response: SubsonicResponse,
    r: Result<PlaylistDtoList, BackendError>,
)
    requires
        call_ensures(Subsonic::get_playlists, (server, response), r),
        response.status@ == "ok"@,
        response.playlists matches Some(p) ==> p.playlist@.len() <= u64::MAX,
    ensures
        r is Ok,
        response.playlists is None ==> r->Ok_0.items@.len() == 0,
        r->Ok_0.total_record_count == r->Ok_0.items@.len(),
        response.playlists matches Some(p) ==> r->Ok_0.items@.len() == p.playlist@.len(),
        response.playlists matches Some(p) ==> forall|i: int|
            0 <= i < p.playlist@.len() ==> {
                let item = #[trigger] r->Ok_0.items@[i];
                let playlist = p.playlist@[i];
                &&& item.id@ == playlist.id@
                &&& item.name@ == playlist.name@
                &&& playlist.song_count matches Some(n) ==> item.child_count == n
                &&& playlist.song_count is None ==> item.child_count == 0
            },
{
    let items = r->Ok_0.items;
    lemma_elements(items);
    if let Some(p) = response.playlists {
        lemma_elements(p.playlist);
        assert forall|i: int| 0 <= i < p.playlist@.len() implies {
            let item = #[trigger] items@[i];
            let playlist = p.playlist@[i];
            &&& item.id@ == playlist.id@
            &&& item.name@ == playlist.name@
            &&& playlist.song_count matches Some(n) ==> item.child_count == n
            &&& playlist.song_count is None ==> item.child_count == 0
        } by {
            assert(items.deep_view()[i] == items@[i].deep_view());
            assert(p.playlist.deep_view()[i] == p.playlist@[i].deep_view());
        }
    }
}

/// A playlist gives every one of its songs, in their order, each speaking for itself alone.
pub proof fn law_playlist_gives_every_song(
    server: &Subsonic,
    response: SubsonicResponse,
    r: Result<PlaylistItems, BackendError>,
    nothing: AlbumFallback,
)
    requires
        call_ensures(Subsonic::get_playlist_items, (server, response), r),
        response.status@ == "ok"@,
        response.playlist matches Some(p) ==> p.entry@.len() <= u64::MAX,
        nothing.album_id is None,
        nothing.album_name is None,
        nothing.album_artists@.len() == 0,
        nothing.artist_name is None,
        nothing.artist_id is None,
        nothing.year is None,
        nothing.created is None,
        nothing.cover_art is None,
    ensures
        r is Ok <==> response.playlist is Some,
        response.playlist matches Some(p) ==> r->Ok_0.items@.len() == p.entry@.len()
            && r->Ok_0.total_record_count == p.entry@.len(),
        response.playlist matches Some(p) ==> forall|i: int|
            0 <= i < p.entry@.len() ==> song_of(
                #[trigger] r->Ok_0.items@[i],
                p.entry@[i],
                nothing,
            ),
        response.playlist is None ==> tells_lack(
            r->Err_0,
            "Subsonic response missing playlist payload"@,
        ),
{
    assert(nothing.album_artists.deep_view() =~= seq![]);
    if let Some(p) = response.playlist {
        let items = r->Ok_0.items;
        lemma_elements(items);
        lemma_elements(p.entry);
        assert forall|i: int| 0 <= i < p.entry@.len() implies song_of(
            #[trigger] items@[i],
            p.entry@[i],
            nothing,
        ) by {
            assert(items.deep_view()[i] == items@[i].deep_view());
            assert(p.entry.deep_view()[i] == p.entry@[i].deep_view());
            lemma_song_of(items@[i], p.entry@[i], nothing);
        }
    }
}

/// Whether a parameter has a name and a value.
pub open spec fn says(param: (String, String), name: Seq<char>, value: Seq<char>) -> bool {
    param.0@ == name && param.1@ == value
}

/// What the parameters of two lists hold is told by name and value.
pub proof fn lemma_says(params: Params)
    ensures
        params.deep_view().len() == params@.len(),
        forall|i: int|
            0 <= i < params@.len() ==> says(
                #[trigger] params@[i],
                params.deep_view()[i].0,
                params.deep_view()[i].1,
            ),
{
    lemma_elements(params);
    assert forall|i: int| 0 <= i < params@.len() implies says(
        #[trigger] params@[i],
        params.deep_view()[i].0,
        params.deep_view()[i].1,
    ) by {
        assert(params.deep_view()[i] == params@[i].deep_view());
    }
}

/// A new playlist is asked for by its name and by every song that it starts with, in their order.
/// The answer gives its identifier.
pub proof fn law_playlist_is_created(
    server: &Subsonic,
    name: &str,
    items: &[String],
    call: Call,
    response: SubsonicResponse,
    r: Result<String, BackendError>,
)
    requires
        call_ensures(Subsonic::new_playlist_request, (server, name, items), call),
        call_ensures(Subsonic::new_playlist, (server, response), r),
        response.status@ == "ok"@,
    ensures
        call.endpoint@ == "createPlaylist"@,
        call.params@.len() == 1 + items@.len(),
        says(call.params@[0], "name"@, name@),
        forall|i: int|
            0 <= i < items@.len() ==> says(call.params@[1 + i], "songId"@, (#[trigger] items@[i])@),
        r is Ok <==> response.playlist is Some,
        response.playlist matches Some(p) ==> r->Ok_0@ == p.id@,
        response.playlist is None ==> tells_lack(
            r->Err_0,
            "Subsonic createPlaylist response missing playlist payload"@,
        ),
{
    lemma_says(call.params);
    assert(call.params.deep_view()[0] == ("name"@, name@));
    assert forall|i: int| 0 <= i < items@.len() implies says(
        call.params@[1 + i],
        "songId"@,
        (#[trigger] items@[i])@,
    ) by {
        assert(items.deep_view()[i] == items@[i]@);
        assert(call.params.deep_view()[1 + i] == ("songId"@, items.deep_view()[i]));
    }
}

/// Every song is added to the playlist, in their order.
pub proof fn law_every_song_is_added(
    server: &Subsonic,
    playlist_id: &str,
    items: &[String],
    call: Call,
)
    requires
        call_ensures(Subsonic::add_playlist_items, (server, playlist_id, items), call),
    ensures
        call.endpoint@ == "updatePlaylist"@,
        call.params@.len() == 1 + items@.len(),
        says(call.params@[0], "playlistId"@, playlist_id@),
        forall|i: int|
            0 <= i < items@.len() ==> says(
                call.params@[1 + i],
                "songIdToAdd"@,
                (#[trigger] items@[i])@,
            ),
{
    lemma_says(call.params);
    assert(call.params.deep_view()[0] == ("playlistId"@, playlist_id@));
    assert forall|i: int| 0 <= i < items@.len() implies says(
        call.params@[1 + i],
        "songIdToAdd"@,
        (#[trigger] items@[i])@,
    ) by {
        assert(items.deep_view()[i] == items@[i]@);
        assert(call.params.deep_view()[1 + i] == ("songIdToAdd"@, items.deep_view()[i]));
    }
}

/// Whether an item first stands at a place among some songs.
pub open spec fn stands_first(songs: Seq<Song>, item_id: Seq<char>, at: int) -> bool {
    &&& 0 <= at < songs.len()
    &&& songs[at].id@ == item_id
    &&& forall|i: int| 0 <= i < at ==> (#[trigger] songs[i]).id@ != item_id
}

/// What stands first among songs stands first among their identifiers.
proof fn lemma_stands_first(songs: Vec<Song>, item_id: Seq<char>, at: int)
    requires
        stands_first(songs@, item_id, at),
    ensures
        song_ids(songs.deep_view()).len() == songs@.len(),
        forall|i: int|
            0 <= i < songs@.len() ==> song_ids(songs.deep_view())[i]
                == (#[trigger] songs@[i]).id@,
        song_ids(songs.deep_view()).contains(item_id),
        first_position(
            song_ids(songs.deep_view()),
            item_id,
        ) == at,
{
    let ids = song_ids(songs.deep_view());
    lemma_elements(songs);
    assert forall|i: int| 0 <= i < songs@.len() implies ids[i] == (#[trigger] songs@[i]).id@ by {
        assert(songs.deep_view()[i] == songs@[i].deep_view());
    }
    lemma_first_position(ids, item_id);
    let p = first_position(ids, item_id);
    assert(ids[at] == songs@[at].id@);
    if p < at {
        assert(songs@[p].id@ != item_id);
    }
    if p > at {
        assert(ids[at] != item_id);
    }
}

/// A song is taken out of a playlist by the place where it first stands.
pub proof fn law_song_is_taken_out(
    server: &Subsonic,
    response: SubsonicResponse,
    playlist_id: &str,
    item_id: &str,
    at: int,
    r: Result<Call, BackendError>,
)
    requires
        call_ensures(
            Subsonic::remove_playlist_item,
            (server, response, playlist_id, item_id),
            r,
        ),
        response.status@ == "ok"@,
        response.playlist matches Some(p) && stands_first(p.entry@, item_id@, at),
    ensures
        r is Ok,
        r->Ok_0.endpoint@ == "updatePlaylist"@,
        r->Ok_0.params@.len() == 2,
        says(r->Ok_0.params@[0], "playlistId"@, playlist_id@),
        says(r->Ok_0.params@[1], "songIndexToRemove"@, text::decimal(at as nat)),
{
    lemma_stands_first(response.playlist->0.entry, item_id@, at);
    let params = r->Ok_0.params;
    lemma_says(params);
    assert(params.deep_view()[0] == ("playlistId"@, playlist_id@));
    assert(params.deep_view()[1] == ("songIndexToRemove"@, text::decimal(at as nat)));
}

/// A song that is not in a playlist is not taken out of it: it is reported as not found.
pub proof fn law_absent_song_is_not_taken_out(
    server: &Subsonic,
    response: SubsonicResponse,
    playlist_id: &str,
    item_id: &str,
    r: Result<Call, BackendError>,
)
    requires
        call_ensures(
            Subsonic::remove_playlist_item,
            (server, response, playlist_id, item_id),
            r,
        ),
        response.status@ == "ok"@,
        response.playlist matches Some(p) ==> forall|i: int|
            0 <= i < p.entry@.len() ==> (#[trigger] p.entry@[i]).id@ != item_id@,
    ensures
        r is Err,
        response.playlist is Some ==> (r->Err_0 matches BackendError::Http { status, message }
            && status == 404 && message@ == "Item "@ + item_id@ + " not found in playlist "@
            + playlist_id@),
        response.playlist is None ==> tells_lack(
            r->Err_0,
            "Subsonic getPlaylist response missing playlist payload"@,
        ),
{
    if let Some(p) = response.playlist {
        let ids = song_ids(p.entry.deep_view());
        lemma_elements(p.entry);
        if ids.contains(item_id@) {
            let i = choose|i: int| 0 <= i < ids.len() && ids[i] == item_id@;
            assert(p.entry.deep_view()[i] == p.entry@[i].deep_view());
            assert(p.entry@[i].id@ != item_id@);
        }
    }
}

/// A move puts a song from where it first stands to an index, or last where the index is out of the
/// playlist. The songs before and after keep their order, and none is lost.
pub proof fn law_song_is_moved(
    server: &Subsonic,
    response: SubsonicResponse,
    playlist_id: &str,
    item_id: &str,
    index: i32,
    at: int,
    r: Result<Call, BackendError>,
)
    requires
        call_ensures(
            Subsonic::move_playlist_item,
            (server, response, playlist_id, item_id, index),
            r,
        ),
        response.status@ == "ok"@,
        response.playlist matches Some(p) && stands_first(p.entry@, item_id@, at),
    ensures
        r is Ok,
        r->Ok_0.endpoint@ == "createPlaylist"@,
        says(r->Ok_0.params@[0], "playlistId"@, playlist_id@),
        ({
            let songs = response.playlist->0.entry@;
            let params = r->Ok_0.params@;
            let to = if 0 <= index < songs.len() {
                index as int
            } else {
                songs.len() - 1
            };
            &&& params.len() == 1 + songs.len()
            &&& says(params[1 + to], "songId"@, item_id@)
            &&& forall|i: int|
                0 <= i < songs.len() && i != at ==> {
                    // Where the others stand once the song is out, and once it is in again.
                    let out = if i < at {
                        i
                    } else {
                        i - 1
                    };
                    let now = if out < to {
                        out
                    } else {
                        out + 1
                    };
                    says(params[1 + now], "songId"@, (#[trigger] songs[i]).id@)
                }
        }),
{
    let songs = response.playlist->0.entry;
    let params = r->Ok_0.params;
    let n = songs@.len() as int;
    let to = if 0 <= index < n {
        index as int
    } else {
        n - 1
    };
    let ids = song_ids(songs.deep_view());
    let order = ids.remove(at).insert(to, item_id@);
    lemma_stands_first(songs, item_id@, at);
    lemma_says(params);
    assert(moved(ids, item_id@, index) == order);
    assert(params.deep_view()[0] == ("playlistId"@, playlist_id@));
    assert forall|k: int| 0 <= k < n implies says(
        params@[1 + k],
        "songId"@,
        #[trigger] order[k],
    ) by {
        assert(params.deep_view()[1 + k] == ("songId"@, order[k]));
    }
    assert(order[to] == item_id@);
    assert forall|i: int| 0 <= i < n && i != at implies {
        let out = if i < at {
            i
        } else {
            i - 1
        };
        let now = if out < to {
            out
        } else {
            out + 1
        };
        says(params@[1 + now], "songId"@, (#[trigger] songs@[i]).id@)
    } by {
        lemma_place_after_move(ids, at, to, item_id@, i);
    }
}

/// Where an identifier stands after another one is taken out and put in again.
proof fn lemma_place_after_move(ids: Seq<Seq<char>>, at: int, to: int, id: Seq<char>, i: int)
    requires
        0 <= at < ids.len(),
        0 <= to < ids.len(),
        0 <= i < ids.len(),
        i != at,
    ensures
        ({
            let out = if i < at {
                i
            } else {
                i - 1
            };
            let now = if out < to {
                out
            } else {
                out + 1
            };
            0 <= now < ids.len() && ids.remove(at).insert(to, id)[now] == ids[i]
        }),
{
}

/// A move of a song that is not in a playlist keeps every song where it is.
pub proof fn law_absent_song_is_not_moved(
    server: &Subsonic,
    response: SubsonicResponse,
    playlist_id: &str,
    item_id: &str,
    index: i32,
    r: Result<Call, BackendError>,
)
    requires
        call_ensures(
            Subsonic::move_playlist_item,
            (server, response, playlist_id, item_id, index),
            r,
        ),
        response.status@ == "ok"@,
        response.playlist matches Some(p) ==> forall|i: int|
            0 <= i < p.entry@.len() ==> (#[trigger] p.entry@[i]).id@ != item_id@,
    ensures
        r is Ok <==> response.playlist is Some,
        response.playlist matches Some(p) ==> {
            &&& r->Ok_0.params@.len() == 1 + p.entry@.len()
            &&& says(r->Ok_0.params@[0], "playlistId"@, playlist_id@)
            &&& forall|i: int|
                0 <= i < p.entry@.len() ==> says(
                    r->Ok_0.params@[1 + i],
                    "songId"@,
                    (#[trigger] p.entry@[i]).id@,
                )
        },
        response.playlist is None ==> tells_lack(
            r->Err_0,
            "Subsonic getPlaylist response missing playlist payload"@,
        ),
{
    if let Some(p) = response.playlist {
        let params = r->Ok_0.params;
        let ids = song_ids(p.entry.deep_view());
        lemma_elements(p.entry);
        lemma_says(params);
        lemma_first_position(ids, item_id@);
        if ids.contains(item_id@) {
            let i = choose|i: int| 0 <= i < ids.len() && ids[i] == item_id@;
            assert(p.entry.deep_view()[i] == p.entry@[i].deep_view());
            assert(p.entry@[i].id@ != item_id@);
        }
        assert(params.deep_view()[0] == ("playlistId"@, playlist_id@));
        assert forall|i: int| 0 <= i < p.entry@.len() implies says(
            params@[1 + i],
            "songId"@,
            (#[trigger] p.entry@[i]).id@,
        ) by {
            assert(p.entry.deep_view()[i] == p.entry@[i].deep_view());
            assert(params.deep_view()[1 + i] == ("songId"@, ids[i]));
        }
    }
}

/// A song can be played from one source with one stream, which are those of the song.
pub proof fn law_playback_info_is_of_the_song(
    server: &Subsonic,
    response: SubsonicResponse,
    r: Result<PlaybackInfo, BackendError>,
)
    requires
        call_ensures(Subsonic::get_playback_info, (server, response), r),
        response.status@ == "ok"@,
    ensures
        r is Ok <==> response.song is Some,
        response.song matches Some(song) ==> {
            let source = r->Ok_0.media_sources@[0];
            let stream = source.media_streams@[0];
            &&& r->Ok_0.media_sources@.len() == 1
            &&& source.id.deep_view() == Some(song.id@)
            &&& source.path.deep_view() == song.path.deep_view()
            &&& source.container.deep_view() == song.suffix.deep_view()
            &&& source.size == song.size
            &&& source.supports_direct_play == Some(true)
            &&& source.supports_direct_stream == Some(true)
            &&& source.supports_transcoding == Some(true)
            &&& source.media_streams@.len() == 1
            &&& stream.type_.deep_view() == Some("Audio"@)
            &&& stream.codec.deep_view() == song.suffix.deep_view()
            &&& stream.bit_rate == song.bit_rate
            &&& stream.sample_rate == song.sampling_rate
            &&& stream.channels == song.channel_count
        },
        response.song is None ==> tells_lack(
            r->Err_0,
            "Subsonic getSong response missing song payload"@,
        ),
{
    if let Some(song) = response.song {
        let sources = r->Ok_0.media_sources;
        lemma_elements(sources);
        assert(sources.deep_view()[0] == sources@[0].deep_view());
        let streams = sources@[0].media_streams;
        lemma_elements(streams);
        assert(streams.deep_view()[0] == streams@[0].deep_view());
    }
}

/// The server hears of a song when it starts and when it stops, and counts it as played where it
/// stops after five seconds or later.
pub proof fn law_server_hears_of_songs(
    server: &Subsonic,
    report: &PlaybackReport,
    state: &PlaybackReportStatus,
    r: Option<Call>,
)
    requires
        call_ensures(Subsonic::playback_report, (server, report, state), r),
    ensures
        r is None <==> *state is InProgress,
        r matches Some(call) ==> {
            &&& call.endpoint@ == "scrobble"@
            &&& call.params@.len() == 2
            &&& says(call.params@[0], "id"@, report.item_id@)
            &&& says(
                call.params@[1],
                "submission"@,
                if *state is Stopped && report.position_ticks >= 50_000_000 {
                    "true"@
                } else {
                    "false"@
                },
            )
        },
{
    if let Some(call) = r {
        lemma_says(call.params);
        assert(call.params.deep_view()[0].0 == "id"@);
        assert(call.params.deep_view()[1].0 == "submission"@);
    }
}

/// Whether lyrics are the ones to show: the first that are synchronized with the song, or the first
/// of all where none are.
pub open spec fn to_show(versions: Seq<StructuredLyrics>, shown: int) -> bool {
    &&& 0 <= shown < versions.len()
    &&& versions[shown].synced ==> forall|i: int|
        0 <= i < shown ==> !(#[trigger] versions[i]).synced
    &&& !versions[shown].synced ==> shown == 0 && forall|i: int|
        0 <= i < versions.len() ==> !(#[trigger] versions[i]).synced
}

/// The first synchronized lyrics are those to show, where there are any.
proof fn lemma_to_show(
    versions: Seq<StructuredLyricsView>,
    shown: int,
)
    requires
        0 <= shown < versions.len(),
        versions[shown].synced ==> forall|i: int|
            0 <= i < shown ==> !(#[trigger] versions[i]).synced,
        !versions[shown].synced ==> shown == 0 && forall|i: int|
            0 <= i < versions.len() ==> !(#[trigger] versions[i]).synced,
    ensures
        chosen_lyrics(versions) == Some(versions[shown]),
        versions[shown].synced ==> first_synced(versions) == Some(
            versions[shown],
        ),
        !versions[shown].synced ==> first_synced(versions) is None,
    decreases versions.len(),
{
    let rest = versions.skip(1);
    if !versions[0].synced && rest.len() > 0 {
        assert forall|i: int| 0 <= i < rest.len() implies #[trigger] rest[i] == versions[i
            + 1] by {}
        if versions[shown].synced {
            lemma_to_show(rest, shown - 1);
        } else {
            lemma_to_show(rest, 0);
        }
    } else if !versions[0].synced {
        assert(first_synced(rest) is None);
    }
}

/// Every line of the lyrics to show is shown, in their order, with its start in ticks, of which a
/// millisecond has ten thousand.
pub proof fn law_every_line_is_shown(
    server: &Subsonic,
    response: SubsonicResponse,
    shown: int,
    r: Result<LyricsResponse, BackendError>,
)
    requires
        call_ensures(Subsonic::fetch_lyrics, (server, response), r),
        response.status@ == "ok"@,
        response.lyrics_list matches Some(list) && to_show(list.structured_lyrics@, shown),
    ensures
        r is Ok,
        ({
            let lines = response.lyrics_list->0.structured_lyrics@[shown].line@;
            let lyrics = r->Ok_0.lyrics@;
            &&& lyrics.len() == lines.len()
            &&& forall|i: int|
                0 <= i < lines.len() ==> {
                    &&& (#[trigger] lyrics[i]).text@ == lines[i].value@
                    &&& lines[i].start is None ==> lyrics[i].start is None
                    &&& (lines[i].start is Some && lines[i].start->0 * 10_000 <= u64::MAX) ==> (
                    lyrics[i].start is Some && lyrics[i].start->0 == lines[i].start->0 * 10_000)
                }
        }),
{
    let versions = response.lyrics_list->0.structured_lyrics;
    let lines = versions@[shown].line;
    let lyrics = r->Ok_0.lyrics;
    lemma_elements(versions);
    lemma_elements(lines);
    lemma_elements(lyrics);
    assert forall|i: int| 0 <= i < versions@.len() implies versions.deep_view()[i].synced == (
    #[trigger] versions@[i]).synced by {
        assert(versions.deep_view()[i] == versions@[i].deep_view());
    }
    assert forall|i: int| 0 <= i < versions.deep_view().len() implies versions@[i].synced == (
    #[trigger] versions.deep_view()[i]).synced by {
        assert(versions.deep_view()[i] == versions@[i].deep_view());
    }
    lemma_to_show(versions.deep_view(), shown);
    assert(versions.deep_view()[shown] == versions@[shown].deep_view());
    assert forall|i: int| 0 <= i < lines@.len() implies {
        &&& (#[trigger] lyrics@[i]).text@ == lines@[i].value@
        &&& lines@[i].start is None ==> lyrics@[i].start is None
        &&& (lines@[i].start is Some && lines@[i].start->0 * 10_000 <= u64::MAX) ==> (
        lyrics@[i].start is Some && lyrics@[i].start->0 == lines@[i].start->0 * 10_000)
    } by {
        assert(lyrics.deep_view()[i] == lyrics@[i].deep_view());
        assert(lines.deep_view()[i] == lines@[i].deep_view());
    }
}

/// Lyrics can be told in ticks exactly where the start of each line to show can. A refused answer
/// and a song without lyrics have none to tell.
pub proof fn law_lyrics_can_be_told(
    server: &Subsonic,
    response: SubsonicResponse,
    shown: int,
    r: bool,
)
    requires
        call_ensures(Subsonic::lyrics_in_range, (server, &response), r),
    ensures
        response.status@ != "ok"@ ==> r,
        (response.lyrics_list matches Some(list) ==> list.structured_lyrics@.len() == 0) ==> r,
        response.status@ == "ok"@ ==> (response.lyrics_list matches Some(list) ==> (to_show(
            list.structured_lyrics@,
            shown,
        ) ==> (r <==> forall|i: int|
            0 <= i < list.structured_lyrics@[shown].line@.len() ==> (
            #[trigger] list.structured_lyrics@[shown].line@[i].start matches Some(ms) ==> ms
                * 10_000 <= u64::MAX)))),
{
    if let Some(list) = response.lyrics_list {
        let versions = list.structured_lyrics;
        lemma_elements(versions);
        if to_show(versions@, shown) {
            let lines = versions@[shown].line;
            lemma_elements(lines);
            assert forall|i: int| 0 <= i < versions.deep_view().len() implies versions@[i].synced
                == (#[trigger] versions.deep_view()[i]).synced by {
                assert(versions.deep_view()[i] == versions@[i].deep_view());
            }
            lemma_to_show(versions.deep_view(), shown);
            assert(versions.deep_view()[shown] == versions@[shown].deep_view());
            assert forall|i: int| 0 <= i < lines@.len() implies lines.deep_view()[i].start
                == #[trigger] lines@[i].start by {
                assert(lines.deep_view()[i] == lines@[i].deep_view());
            }
            assert forall|i: int| 0 <= i < lines@.len() implies lines@[i].start
                == #[trigger] lines.deep_view()[i].start by {
                assert(lines.deep_view()[i] == lines@[i].deep_view());
            }
        }
    }
}

/// A song without lyrics shows no line.
pub proof fn law_no_lyrics_show_nothing(
    server: &Subsonic,
    response: SubsonicResponse,
    r: Result<LyricsResponse, BackendError>,
)
    requires
        call_ensures(Subsonic::fetch_lyrics, (server, response), r),
        response.status@ == "ok"@,
        response.lyrics_list matches Some(list) ==> list.structured_lyrics@.len() == 0,
    ensures
        r is Ok,
        r->Ok_0.lyrics@.len() == 0,
{
    lemma_elements(r->Ok_0.lyrics);
    if let Some(list) = response.lyrics_list {
        lemma_elements(list.structured_lyrics);
    }
}

} // verus!
