//! The data that a Subsonic server sends.

use vstd::prelude::*;

use crate::number::Real;
use crate::text;

verus! {

broadcast use vstd::string::group_string_axioms;

/// Why a server refused a request.
#[derive(Clone, Debug)]
pub struct SubsonicError {
    pub code: i32,
    pub message: String,
}

/// What a [`SubsonicError`] holds.
#[verifier::ext_equal]
pub struct SubsonicErrorView {
    pub code: i32,
    pub message: Seq<char>,
}

impl DeepView for SubsonicError {
    type V = SubsonicErrorView;

    open spec fn deep_view(&self) -> SubsonicErrorView {
        SubsonicErrorView {
            code: self.code,
            message: self.message.deep_view(),
        }
    }
}

/// An artist that a song or an album names.
#[derive(Clone, Debug)]
pub struct ArtistRef {
    pub id: String,
    pub name: String,
}

/// What an [`ArtistRef`] holds.
#[verifier::ext_equal]
pub struct ArtistRefView {
    pub id: Seq<char>,
    pub name: Seq<char>,
}

impl DeepView for ArtistRef {
    type V = ArtistRefView;

    open spec fn deep_view(&self) -> ArtistRefView {
        ArtistRefView {
            id: self.id.deep_view(),
            name: self.name.deep_view(),
        }
    }
}

/// The gains that bring a song to a common loudness.
#[derive(Clone, Debug)]
pub struct ReplayGain {
    pub track_gain: Option<Real>,
    pub album_gain: Option<Real>,
    pub base_gain: Option<Real>,
}

/// What a [`ReplayGain`] holds.
#[verifier::ext_equal]
pub struct ReplayGainView {
    pub track_gain: Option<Real>,
    pub album_gain: Option<Real>,
    pub base_gain: Option<Real>,
}

impl DeepView for ReplayGain {
    type V = ReplayGainView;

    open spec fn deep_view(&self) -> ReplayGainView {
        ReplayGainView {
            track_gain: self.track_gain,
            album_gain: self.album_gain,
            base_gain: self.base_gain,
        }
    }
}

/// A song.
#[derive(Clone, Debug)]
pub struct Song {
    pub id: String,
    pub title: String,
    pub album: Option<String>,
    pub album_id: Option<String>,
    pub album_artists: Vec<ArtistRef>,
    pub album_artist: Option<String>,
    pub artist: Option<String>,
    pub artist_id: Option<String>,
    /// How long the song is, in seconds.
    pub duration: Option<u64>,
    pub created: Option<String>,
    pub year: Option<u32>,
    pub replay_gain: Option<ReplayGain>,
    pub track: Option<u32>,
    pub disc_number: Option<u32>,
    pub play_count: Option<u64>,
    pub played: Option<String>,
    pub genre: Option<String>,
    pub suffix: Option<String>,
    pub bit_rate: Option<u64>,
    pub sampling_rate: Option<u64>,
    pub channel_count: Option<u32>,
    pub path: Option<String>,
    pub size: Option<u64>,
}

/// What a [`Song`] holds.
#[verifier::ext_equal]
pub struct SongView {
    pub id: Seq<char>,
    pub title: Seq<char>,
    pub album: Option<Seq<char>>,
    pub album_id: Option<Seq<char>>,
    pub album_artists: Seq<ArtistRefView>,
    pub album_artist: Option<Seq<char>>,
    pub artist: Option<Seq<char>>,
    pub artist_id: Option<Seq<char>>,
    pub duration: Option<u64>,
    pub created: Option<Seq<char>>,
    pub year: Option<u32>,
    pub replay_gain: Option<ReplayGainView>,
    pub track: Option<u32>,
    pub disc_number: Option<u32>,
    pub play_count: Option<u64>,
    pub played: Option<Seq<char>>,
    pub genre: Option<Seq<char>>,
    pub suffix: Option<Seq<char>>,
    pub bit_rate: Option<u64>,
    pub sampling_rate: Option<u64>,
    pub channel_count: Option<u32>,
    pub path: Option<Seq<char>>,
    pub size: Option<u64>,
}

impl DeepView for Song {
    type V = SongView;

    open spec fn deep_view(&self) -> SongView {
        SongView {
            id: self.id.deep_view(),
            title: self.title.deep_view(),
            album: self.album.deep_view(),
            album_id: self.album_id.deep_view(),
            album_artists: self.album_artists.deep_view(),
            album_artist: self.album_artist.deep_view(),
            artist: self.artist.deep_view(),
            artist_id: self.artist_id.deep_view(),
            duration: self.duration,
            created: self.created.deep_view(),
            year: self.year,
            replay_gain: self.replay_gain.deep_view(),
            track: self.track,
            disc_number: self.disc_number,
            play_count: self.play_count,
            played: self.played.deep_view(),
            genre: self.genre.deep_view(),
            suffix: self.suffix.deep_view(),
            bit_rate: self.bit_rate,
            sampling_rate: self.sampling_rate,
            channel_count: self.channel_count,
            path: self.path.deep_view(),
            size: self.size,
        }
    }
}

/// A folder of music, which is a library of the server.
#[derive(Clone, Debug)]
pub struct MusicFolder {
    pub id: String,
    pub name: String,
}

/// What a [`MusicFolder`] holds.
#[verifier::ext_equal]
pub struct MusicFolderView {
    pub id: Seq<char>,
    pub name: Seq<char>,
}

impl DeepView for MusicFolder {
    type V = MusicFolderView;

    open spec fn deep_view(&self) -> MusicFolderView {
        MusicFolderView {
            id: self.id.deep_view(),
            name: self.name.deep_view(),
        }
    }
}

/// The folders of music.
#[derive(Clone, Debug)]
pub struct MusicFolders {
    pub music_folders: Vec<MusicFolder>,
}

/// What a [`MusicFolders`] holds.
#[verifier::ext_equal]
pub struct MusicFoldersView {
    pub music_folders: Seq<MusicFolderView>,
}

impl DeepView for MusicFolders {
    type V = MusicFoldersView;

    open spec fn deep_view(&self) -> MusicFoldersView {
        MusicFoldersView {
            music_folders: self.music_folders.deep_view(),
        }
    }
}

/// An album, without its songs.
#[derive(Clone, Debug)]
pub struct AlbumSummary {
    pub id: String,
}

/// What an [`AlbumSummary`] holds.
#[verifier::ext_equal]
pub struct AlbumSummaryView {
    pub id: Seq<char>,
}

impl DeepView for AlbumSummary {
    type V = AlbumSummaryView;

    open spec fn deep_view(&self) -> AlbumSummaryView {
        AlbumSummaryView {
            id: self.id.deep_view(),
        }
    }
}

/// A page of the list of albums.
#[derive(Clone, Debug)]
pub struct AlbumList2 {
    pub album: Vec<AlbumSummary>,
}

/// What an [`AlbumList2`] holds.
#[verifier::ext_equal]
pub struct AlbumList2View {
    pub album: Seq<AlbumSummaryView>,
}

impl DeepView for AlbumList2 {
    type V = AlbumList2View;

    open spec fn deep_view(&self) -> AlbumList2View {
        AlbumList2View {
            album: self.album.deep_view(),
        }
    }
}

/// An artist, without any albums.
#[derive(Clone, Debug)]
pub struct ArtistSummary {
    pub id: String,
}

/// What an [`ArtistSummary`] holds.
#[verifier::ext_equal]
pub struct ArtistSummaryView {
    pub id: Seq<char>,
}

impl DeepView for ArtistSummary {
    type V = ArtistSummaryView;

    open spec fn deep_view(&self) -> ArtistSummaryView {
        ArtistSummaryView {
            id: self.id.deep_view(),
        }
    }
}

/// An album with its songs.
#[derive(Clone, Debug)]
pub struct Album {
    pub id: String,
    pub name: String,
    pub album_artists: Vec<ArtistRef>,
    pub artist: Option<String>,
    pub artist_id: Option<String>,
    pub year: Option<u32>,
    pub created: Option<String>,
    pub cover_art: Option<String>,
    pub song: Vec<Song>,
}

/// What an [`Album`] holds.
#[verifier::ext_equal]
pub struct AlbumView {
    pub id: Seq<char>,
    pub name: Seq<char>,
    pub album_artists: Seq<ArtistRefView>,
    pub artist: Option<Seq<char>>,
    pub artist_id: Option<Seq<char>>,
    pub year: Option<u32>,
    pub created: Option<Seq<char>>,
    pub cover_art: Option<Seq<char>>,
    pub song: Seq<SongView>,
}

impl DeepView for Album {
    type V = AlbumView;

    open spec fn deep_view(&self) -> AlbumView {
        AlbumView {
            id: self.id.deep_view(),
            name: self.name.deep_view(),
            album_artists: self.album_artists.deep_view(),
            artist: self.artist.deep_view(),
            artist_id: self.artist_id.deep_view(),
            year: self.year,
            created: self.created.deep_view(),
            cover_art: self.cover_art.deep_view(),
            song: self.song.deep_view(),
        }
    }
}

/// A playlist, without its songs.
#[derive(Clone, Debug)]
pub struct PlaylistSummary {
    pub id: String,
    pub name: String,
    pub song_count: Option<u64>,
}

/// What a [`PlaylistSummary`] holds.
#[verifier::ext_equal]
pub struct PlaylistSummaryView {
    pub id: Seq<char>,
    pub name: Seq<char>,
    pub song_count: Option<u64>,
}

impl DeepView for PlaylistSummary {
    type V = PlaylistSummaryView;

    open spec fn deep_view(&self) -> PlaylistSummaryView {
        PlaylistSummaryView {
            id: self.id.deep_view(),
            name: self.name.deep_view(),
            song_count: self.song_count,
        }
    }
}

/// The playlists of a user.
#[derive(Clone, Debug)]
pub struct Playlists {
    pub playlist: Vec<PlaylistSummary>,
}

/// What a [`Playlists`] holds.
#[verifier::ext_equal]
pub struct PlaylistsView {
    pub playlist: Seq<PlaylistSummaryView>,
}

impl DeepView for Playlists {
    type V = PlaylistsView;

    open spec fn deep_view(&self) -> PlaylistsView {
        PlaylistsView {
            playlist: self.playlist.deep_view(),
        }
    }
}

/// A playlist with its songs.
#[derive(Clone, Debug)]
pub struct PlaylistDetail {
    pub id: String,
    pub entry: Vec<Song>,
}

/// What a [`PlaylistDetail`] holds.
#[verifier::ext_equal]
pub struct PlaylistDetailView {
    pub id: Seq<char>,
    pub entry: Seq<SongView>,
}

impl DeepView for PlaylistDetail {
    type V = PlaylistDetailView;

    open spec fn deep_view(&self) -> PlaylistDetailView {
        PlaylistDetailView {
            id: self.id.deep_view(),
            entry: self.entry.deep_view(),
        }
    }
}

/// What a user has starred.
#[derive(Clone, Debug)]
pub struct Starred2 {
    pub song: Vec<Song>,
    pub album: Vec<AlbumSummary>,
    pub artist: Vec<ArtistSummary>,
}

/// What a [`Starred2`] holds.
#[verifier::ext_equal]
pub struct Starred2View {
    pub song: Seq<SongView>,
    pub album: Seq<AlbumSummaryView>,
    pub artist: Seq<ArtistSummaryView>,
}

impl DeepView for Starred2 {
    type V = Starred2View;

    open spec fn deep_view(&self) -> Starred2View {
        Starred2View {
            song: self.song.deep_view(),
            album: self.album.deep_view(),
            artist: self.artist.deep_view(),
        }
    }
}

/// A line of lyrics, and the millisecond it starts at.
#[derive(Clone, Debug)]
pub struct LyricsLine {
    pub value: String,
    pub start: Option<u64>,
}

/// What a [`LyricsLine`] holds.
#[verifier::ext_equal]
pub struct LyricsLineView {
    pub value: Seq<char>,
    pub start: Option<u64>,
}

impl DeepView for LyricsLine {
    type V = LyricsLineView;

    open spec fn deep_view(&self) -> LyricsLineView {
        LyricsLineView {
            value: self.value.deep_view(),
            start: self.start,
        }
    }
}

/// One version of a song's lyrics.
#[derive(Clone, Debug)]
pub struct StructuredLyrics {
    pub synced: bool,
    pub line: Vec<LyricsLine>,
}

/// What a [`StructuredLyrics`] holds.
#[verifier::ext_equal]
pub struct StructuredLyricsView {
    pub synced: bool,
    pub line: Seq<LyricsLineView>,
}

impl DeepView for StructuredLyrics {
    type V = StructuredLyricsView;

    open spec fn deep_view(&self) -> StructuredLyricsView {
        StructuredLyricsView {
            synced: self.synced,
            line: self.line.deep_view(),
        }
    }
}

/// The versions of a song's lyrics.
#[derive(Clone, Debug)]
pub struct LyricsList {
    pub structured_lyrics: Vec<StructuredLyrics>,
}

/// What a [`LyricsList`] holds.
#[verifier::ext_equal]
pub struct LyricsListView {
    pub structured_lyrics: Seq<StructuredLyricsView>,
}

impl DeepView for LyricsList {
    type V = LyricsListView;

    open spec fn deep_view(&self) -> LyricsListView {
        LyricsListView {
            structured_lyrics: self.structured_lyrics.deep_view(),
        }
    }
}

/// An answer of the server: how it went, and whatever was asked for.
#[derive(Clone, Debug)]
pub struct SubsonicResponse {
    pub status: String,
    pub error: Option<SubsonicError>,
    pub music_folders: Option<MusicFolders>,
    pub album_list2: Option<AlbumList2>,
    pub album: Option<Album>,
    pub playlists: Option<Playlists>,
    pub playlist: Option<PlaylistDetail>,
    pub song: Option<Song>,
    pub starred2: Option<Starred2>,
    pub lyrics_list: Option<LyricsList>,
}

/// What a [`SubsonicResponse`] holds.
#[verifier::ext_equal]
pub struct SubsonicResponseView {
    pub status: Seq<char>,
    pub error: Option<SubsonicErrorView>,
    pub music_folders: Option<MusicFoldersView>,
    pub album_list2: Option<AlbumList2View>,
    pub album: Option<AlbumView>,
    pub playlists: Option<PlaylistsView>,
    pub playlist: Option<PlaylistDetailView>,
    pub song: Option<SongView>,
    pub starred2: Option<Starred2View>,
    pub lyrics_list: Option<LyricsListView>,
}

impl DeepView for SubsonicResponse {
    type V = SubsonicResponseView;

    open spec fn deep_view(&self) -> SubsonicResponseView {
        SubsonicResponseView {
            status: self.status.deep_view(),
            error: self.error.deep_view(),
            music_folders: self.music_folders.deep_view(),
            album_list2: self.album_list2.deep_view(),
            album: self.album.deep_view(),
            playlists: self.playlists.deep_view(),
            playlist: self.playlist.deep_view(),
            song: self.song.deep_view(),
            starred2: self.starred2.deep_view(),
            lyrics_list: self.lyrics_list.deep_view(),
        }
    }
}

impl SubsonicResponseView {
    /// Whether the server did what was asked.
    pub open spec fn ok(self) -> bool {
        self.status == "ok"@
    }
}

impl SubsonicResponse {
    /// Whether the server did what was asked.
    pub fn is_ok(&self) -> (b: bool)
        ensures
            b == self.deep_view().ok(),
    {
        text::same(self.status.as_str(), "ok")
    }
}

} // verus!
