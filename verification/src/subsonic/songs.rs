//! Songs as a Subsonic server sends them, made into the songs that the player works with.

use vstd::prelude::*;

use crate::jellyfin::api::{
    ArtistItemsDto, ArtistItemsDtoView, MusicDto, MusicDtoView, UserDataDto, UserDataDtoView,
    TICKS_PER_SECOND,
};
use crate::number::Real;
use crate::subsonic::api::{
    AlbumView, ArtistRef, ArtistRefView, ReplayGain, ReplayGainView, Song, SongView,
};
use crate::subsonic::Subsonic;

verus! {

broadcast use vstd::string::group_string_axioms;

/// What an album says of its songs where a song itself is silent.
pub struct AlbumFallback {
    pub album_id: Option<String>,
    pub album_name: Option<String>,
    pub album_artists: Vec<ArtistRef>,
    pub artist_name: Option<String>,
    pub artist_id: Option<String>,
    pub year: Option<u32>,
    pub created: Option<String>,
    pub cover_art: Option<String>,
}

/// What an [`AlbumFallback`] holds.
#[verifier::ext_equal]
pub struct AlbumFallbackView {
    pub album_id: Option<Seq<char>>,
    pub album_name: Option<Seq<char>>,
    pub album_artists: Seq<ArtistRefView>,
    pub artist_name: Option<Seq<char>>,
    pub artist_id: Option<Seq<char>>,
    pub year: Option<u32>,
    pub created: Option<Seq<char>>,
    pub cover_art: Option<Seq<char>>,
}

impl DeepView for AlbumFallback {
    type V = AlbumFallbackView;

    open spec fn deep_view(&self) -> AlbumFallbackView {
        AlbumFallbackView {
            album_id: self.album_id.deep_view(),
            album_name: self.album_name.deep_view(),
            album_artists: self.album_artists.deep_view(),
            artist_name: self.artist_name.deep_view(),
            artist_id: self.artist_id.deep_view(),
            year: self.year,
            created: self.created.deep_view(),
            cover_art: self.cover_art.deep_view(),
        }
    }
}

/// The fallback that says nothing, for songs outside an album.
pub open spec fn no_fallback() -> AlbumFallbackView {
    AlbumFallbackView {
        album_id: None,
        album_name: None,
        album_artists: seq![],
        artist_name: None,
        artist_id: None,
        year: None,
        created: None,
        cover_art: None,
    }
}

/// The fallback that an album gives its songs.
pub open spec fn album_fallback(album: AlbumView) -> AlbumFallbackView {
    AlbumFallbackView {
        album_id: Some(album.id),
        album_name: Some(album.name),
        album_artists: album.album_artists,
        artist_name: album.artist,
        artist_id: album.artist_id,
        year: album.year,
        created: album.created,
        cover_art: album.cover_art,
    }
}

/// `a` where there is one, and otherwise `b`.
pub open spec fn either<T>(a: Option<T>, b: Option<T>) -> Option<T> {
    if a is Some {
        a
    } else {
        b
    }
}

/// The value of `a` where there is one, and otherwise `default`.
pub open spec fn value_or<T>(a: Option<T>, default: T) -> T {
    match a {
        Some(t) => t,
        None => default,
    }
}

/// The first artist of a list.
pub open spec fn first_artist(artists: Seq<ArtistRefView>) -> Option<ArtistRefView> {
    if artists.len() > 0 {
        Some(artists[0])
    } else {
        None
    }
}

/// The first album artist that the song names, or else the album.
pub open spec fn listed_artist(song: SongView, fallback: AlbumFallbackView) -> Option<
    ArtistRefView,
> {
    either(first_artist(song.album_artists), first_artist(fallback.album_artists))
}

/// The artist of the song's album: a listed one, or else the album artist or the artist of the
/// song, or else the artist of the album.
pub open spec fn album_artist(song: SongView, fallback: AlbumFallbackView) -> ArtistItemsDtoView {
    match listed_artist(song, fallback) {
        Some(artist) => ArtistItemsDtoView { name: artist.name, id: artist.id },
        None => ArtistItemsDtoView {
            name: value_or(
                either(either(song.album_artist, song.artist), fallback.artist_name),
                "Unknown Artist"@,
            ),
            id: value_or(either(song.artist_id, fallback.artist_id), seq![]),
        },
    }
}

/// The artist of the song itself: its artist, or else its album artist, or else the artist of the
/// album.
pub open spec fn song_artist(song: SongView, fallback: AlbumFallbackView) -> ArtistItemsDtoView {
    ArtistItemsDtoView {
        name: value_or(
            either(either(song.artist, song.album_artist), fallback.artist_name),
            "Unknown Artist"@,
        ),
        id: value_or(either(song.artist_id, fallback.artist_id), seq![]),
    }
}

/// The ticks that some seconds last, or the largest number of ticks where that is more.
pub open spec fn ticks(seconds: u64) -> u64 {
    if seconds * TICKS_PER_SECOND <= u64::MAX {
        (seconds * TICKS_PER_SECOND) as u64
    } else {
        u64::MAX
    }
}

/// The gain of a song: that of the track, or else of the album, or else the base gain.
pub open spec fn gain(replay_gain: Option<ReplayGainView>) -> Option<Real> {
    match replay_gain {
        Some(g) => either(either(g.track_gain, g.album_gain), g.base_gain),
        None => None,
    }
}

/// The player's song for a song of the server, with the album's word where the song is silent.
pub open spec fn music_dto(song: SongView, fallback: AlbumFallbackView) -> MusicDtoView {
    MusicDtoView {
        name: song.title,
        id: song.id,
        date_created: either(song.created, fallback.created),
        run_time_ticks: ticks(value_or(song.duration, 0)),
        album: either(song.album, fallback.album_name),
        album_artists: seq![album_artist(song, fallback)],
        artist_items: seq![song_artist(song, fallback)],
        album_id: either(song.album_id, fallback.album_id),
        normalization_gain: gain(song.replay_gain),
        production_year: either(song.year, fallback.year),
        index_number: song.track,
        parent_index_number: song.disc_number,
        user_data: UserDataDtoView {
            play_count: value_or(song.play_count, 0),
            last_played_date: song.played,
        },
        has_lyrics: true,
        genres: match song.genre {
            Some(genre) => seq![genre],
            None => seq![],
        },
        cover_art: fallback.cover_art,
    }
}

/// The player's songs for songs of the server.
pub open spec fn music_dtos(songs: Seq<SongView>, fallback: AlbumFallbackView) -> Seq<
    MusicDtoView,
> {
    Seq::new(songs.len(), |i: int| music_dto(songs[i], fallback))
}

/// An album has a say only where a song is silent: of a song that tells everything itself, any two
/// albums with one cover make the same.
pub proof fn law_song_speaks_first(
    song: SongView,
    fallback: AlbumFallbackView,
    other: AlbumFallbackView,
)
    requires
        song.album_id is Some,
        song.album is Some,
        song.album_artists.len() > 0,
        song.artist is Some || song.album_artist is Some,
        song.artist_id is Some,
        song.year is Some,
        song.created is Some,
        fallback.cover_art == other.cover_art,
    ensures
        music_dto(song, fallback) == music_dto(song, other),
{
}

/// A song always has an artist, and its album has one, each with a name where nothing names them.
pub proof fn law_song_has_artists(song: SongView, fallback: AlbumFallbackView)
    ensures
        music_dto(song, fallback).album_artists.len() == 1,
        music_dto(song, fallback).artist_items.len() == 1,
        song.artist is None && song.album_artist is None && fallback.artist_name is None
            ==> music_dto(song, fallback).artist_items[0].name == "Unknown Artist"@,
{
}

/// `a` where there is one, and otherwise a copy of `b`.
fn or_text(a: Option<String>, b: &Option<String>) -> (r: Option<String>)
    ensures
        r.deep_view() == either(a.deep_view(), b.deep_view()),
{
    match a {
        Some(s) => Some(s),
        None => b.clone(),
    }
}

/// `a` where there is one, and otherwise `b`.
fn or_number(a: Option<u32>, b: Option<u32>) -> (r: Option<u32>)
    ensures
        r == either(a, b),
{
    match a {
        Some(n) => Some(n),
        None => b,
    }
}

/// The value of `a` where there is one, and otherwise a copy of `default`.
fn text_or(a: Option<String>, default: &str) -> (r: String)
    ensures
        r@ == value_or(a.deep_view(), default@),
{
    match a {
        Some(s) => s,
        None => default.to_owned(),
    }
}

/// The first album artist that the song names, or else the album.
fn pick_listed_artist<'a>(song: &'a Song, fallback: &'a AlbumFallback) -> (r: Option<&'a ArtistRef>)
    ensures
        r is Some <==> listed_artist(song.deep_view(), fallback.deep_view()) is Some,
        r matches Some(artist) ==> artist.deep_view() == listed_artist(
            song.deep_view(),
            fallback.deep_view(),
        )->0,
{
    if song.album_artists.len() > 0 {
        Some(&song.album_artists[0])
    } else if fallback.album_artists.len() > 0 {
        Some(&fallback.album_artists[0])
    } else {
        None
    }
}

/// The artist of the song's album.
fn pick_album_artist(song: &Song, fallback: &AlbumFallback) -> (r: ArtistItemsDto)
    ensures
        r.deep_view() == album_artist(song.deep_view(), fallback.deep_view()),
{
    match pick_listed_artist(song, fallback) {
        Some(artist) => ArtistItemsDto { name: artist.name.clone(), id: artist.id.clone() },
        None => {
            let name = or_text(
                or_text(song.album_artist.clone(), &song.artist),
                &fallback.artist_name,
            );
            let id = or_text(song.artist_id.clone(), &fallback.artist_id);
            ArtistItemsDto {
                name: text_or(name, "Unknown Artist"),
                id: match id {
                    Some(id) => id,
                    None => String::new(),
                },
            }
        },
    }
}

/// The artist of the song itself.
fn pick_song_artist(song: &Song, fallback: &AlbumFallback) -> (r: ArtistItemsDto)
    ensures
        r.deep_view() == song_artist(song.deep_view(), fallback.deep_view()),
{
    let name = or_text(or_text(song.artist.clone(), &song.album_artist), &fallback.artist_name);
    let id = or_text(song.artist_id.clone(), &fallback.artist_id);
    ArtistItemsDto {
        name: text_or(name, "Unknown Artist"),
        id: match id {
            Some(id) => id,
            None => String::new(),
        },
    }
}

/// The ticks that some seconds last, or the largest number of ticks where that is more.
pub fn seconds_to_ticks(seconds: u64) -> (r: u64)
    ensures
        r == ticks(seconds),
{
    if seconds <= u64::MAX / TICKS_PER_SECOND {
        seconds * TICKS_PER_SECOND
    } else {
        u64::MAX
    }
}

/// The gain of a song.
fn pick_gain(replay_gain: &Option<ReplayGain>) -> (r: Option<Real>)
    ensures
        r == gain(replay_gain.deep_view()),
{
    match replay_gain {
        Some(g) => if g.track_gain.is_some() {
            g.track_gain
        } else if g.album_gain.is_some() {
            g.album_gain
        } else {
            g.base_gain
        },
        None => None,
    }
}

impl AlbumFallback {
    /// The fallback that says nothing, for songs outside an album.
    pub fn none() -> (r: AlbumFallback)
        ensures
            r.deep_view() == no_fallback(),
    {
        AlbumFallback {
            album_id: None,
            album_name: None,
            album_artists: Vec::new(),
            artist_name: None,
            artist_id: None,
            year: None,
            created: None,
            cover_art: None,
        }
    }
}

impl Subsonic {
    /// The player's song for a song of the server, with the album's word where the song is silent.
    /// Whether there are lyrics takes a request of its own to find out, so it is taken for granted.
    pub fn song_to_music_dto(&self, song: Song, fallback: &AlbumFallback) -> (r: MusicDto)
        ensures
            r.deep_view() == music_dto(song.deep_view(), fallback.deep_view()),
    {
        let album_artist = pick_album_artist(&song, fallback);
        let song_artist = pick_song_artist(&song, fallback);
        let normalization_gain = pick_gain(&song.replay_gain);
        let mut genres: Vec<String> = Vec::new();
        if let Some(genre) = song.genre {
            genres.push(genre);
        }
        let album_artists = vec![album_artist];
        let artist_items = vec![song_artist];
        let r = MusicDto {
            name: song.title,
            id: song.id,
            date_created: or_text(song.created, &fallback.created),
            run_time_ticks: seconds_to_ticks(song.duration.unwrap_or(0)),
            album: or_text(song.album, &fallback.album_name),
            album_artists,
            artist_items,
            album_id: or_text(song.album_id, &fallback.album_id),
            normalization_gain,
            production_year: or_number(song.year, fallback.year),
            index_number: song.track,
            parent_index_number: song.disc_number,
            user_data: UserDataDto {
                play_count: song.play_count.unwrap_or(0),
                last_played_date: song.played,
            },
            has_lyrics: true,
            genres,
            cover_art: fallback.cover_art.clone(),
        };
        assert(r.deep_view().genres =~= music_dto(song.deep_view(), fallback.deep_view()).genres);
        r
    }

    /// The player's songs for songs of the server, in their order.
    pub fn songs_to_music_dtos(&self, songs: Vec<Song>, fallback: &AlbumFallback) -> (r: Vec<
        MusicDto,
    >)
        ensures
            r.deep_view() == music_dtos(songs.deep_view(), fallback.deep_view()),
    {
        let ghost all = songs@;
        let mut r: Vec<MusicDto> = Vec::new();
        for song in it: songs
            invariant
                it.seq() == all,
                r@.len() == it.index(),
                forall|i: int|
                    0 <= i < r@.len() ==> (#[trigger] r@[i]).deep_view() == music_dto(
                        all[i].deep_view(),
                        fallback.deep_view(),
                    ),
        {
            r.push(self.song_to_music_dto(song, fallback));
        }
        assert(r.deep_view() =~= music_dtos(songs.deep_view(), fallback.deep_view()));
        r
    }
}

} // verus!
