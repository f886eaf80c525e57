//! The playlists of a Subsonic server.

use vstd::prelude::*;

use crate::backend::{pair, result_view, BackendError, BackendErrorView, NOT_FOUND};
use crate::jellyfin::api::{
    PlaylistDto, PlaylistDtoList, PlaylistDtoListView, PlaylistDtoView, PlaylistItems,
    PlaylistItemsView,
};
use crate::subsonic::answers::{accepted, bad_answer_error, bare_call, call_with, held};
use crate::subsonic::api::{
    PlaylistSummaryView, Song, SongView, SubsonicResponse, SubsonicResponseView,
};
use crate::subsonic::songs::{music_dtos, no_fallback, value_or, AlbumFallback};
use crate::subsonic::{Call, CallView, Params, Subsonic};
use crate::text;

verus! {

broadcast use vstd::string::group_string_axioms;

/// The playlists that an answer names.
pub open spec fn playlist_summaries(response: SubsonicResponseView) -> Seq<PlaylistSummaryView> {
    match response.playlists {
        Some(playlists) => playlists.playlist,
        None => seq![],
    }
}

/// The player's playlist for a playlist of the server.
pub open spec fn playlist_dto(playlist: PlaylistSummaryView) -> PlaylistDtoView {
    PlaylistDtoView {
        name: playlist.name,
        id: playlist.id,
        child_count: value_or(playlist.song_count, 0),
    }
}

/// The identifiers of some songs.
pub open spec fn song_ids(songs: Seq<SongView>) -> Seq<Seq<char>> {
    Seq::new(songs.len(), |i: int| songs[i].id)
}

/// Some identifiers as parameters of one name.
pub open spec fn named(name: Seq<char>, ids: Seq<Seq<char>>) -> Seq<(Seq<char>, Seq<char>)> {
    Seq::new(ids.len(), |i: int| (name, ids[i]))
}

/// Where `id` stands first among some identifiers, or how many there are where it is not there.
pub open spec fn first_position(ids: Seq<Seq<char>>, id: Seq<char>) -> int
    decreases ids.len(),
{
    if ids.len() == 0 || ids[0] == id {
        0
    } else {
        1 + first_position(ids.skip(1), id)
    }
}

/// The place that an index stands for in a list of `n` items: the end, for an index out of it.
pub open spec fn place(index: i32, n: int) -> int {
    if 0 <= index <= n {
        index as int
    } else {
        n
    }
}

/// The identifiers after `id`, where it stands first, is moved to an index.
pub open spec fn moved(ids: Seq<Seq<char>>, id: Seq<char>, index: i32) -> Seq<Seq<char>> {
    let at = first_position(ids, id);
    if at < ids.len() {
        ids.remove(at).insert(place(index, ids.len() - 1), id)
    } else {
        ids
    }
}

/// The position of the first occurrence is one, or the length where there is no occurrence.
pub proof fn lemma_first_position(ids: Seq<Seq<char>>, id: Seq<char>)
    ensures
        0 <= first_position(ids, id) <= ids.len(),
        first_position(ids, id) < ids.len() ==> ids[first_position(ids, id)] == id,
        forall|i: int| 0 <= i < first_position(ids, id) ==> #[trigger] ids[i] != id,
        first_position(ids, id) < ids.len() <==> ids.contains(id),
    decreases ids.len(),
{
    if ids.len() > 0 && ids[0] != id {
        let rest = ids.skip(1);
        lemma_first_position(rest, id);
        assert forall|i: int| 0 <= i < first_position(ids, id) implies #[trigger] ids[i] != id by {
            if i > 0 {
                assert(ids[i] == rest[i - 1]);
            }
        }
        assert(first_position(ids, id) == 1 + first_position(rest, id));
        if ids.contains(id) {
            let i = choose|i: int| 0 <= i < ids.len() && ids[i] == id;
            assert(rest[i - 1] == id);
        }
    }
}

/// A move keeps the items of a playlist, and how many there are of each.
pub proof fn law_move_keeps_items(ids: Seq<Seq<char>>, id: Seq<char>, index: i32)
    ensures
        moved(ids, id, index).len() == ids.len(),
        moved(ids, id, index).to_multiset() == ids.to_multiset(),
{
    lemma_first_position(ids, id);
    let at = first_position(ids, id);
    if at < ids.len() {
        let rest = ids.remove(at);
        vstd::seq_lib::to_multiset_remove(ids, at);
        vstd::seq_lib::to_multiset_insert(rest, place(index, ids.len() - 1), id);
        ids.to_multiset_ensures();
        assert(ids.to_multiset().count(id) > 0);
        assert(ids.to_multiset().remove(id).insert(id) =~= ids.to_multiset());
    }
}

/// An item that is moved ends up where it was moved to, or last where the index is out of the
/// playlist, and the other items keep their order. Without the item nothing moves.
pub proof fn law_move_places_item(ids: Seq<Seq<char>>, id: Seq<char>, index: i32)
    ensures
        ids.contains(id) ==> {
            let to = place(index, ids.len() - 1);
            &&& moved(ids, id, index)[to] == id
            &&& moved(ids, id, index).remove(to) == ids.remove(first_position(ids, id))
        },
        !ids.contains(id) ==> moved(ids, id, index) == ids,
{
    lemma_first_position(ids, id);
    let at = first_position(ids, id);
    if ids.contains(id) {
        let to = place(index, ids.len() - 1);
        assert(moved(ids, id, index).remove(to) =~= ids.remove(at));
    }
}

/// Moving an item to where it stands first changes nothing.
pub proof fn law_move_in_place(ids: Seq<Seq<char>>, id: Seq<char>, index: i32)
    requires
        ids.contains(id),
        index == first_position(ids, id),
    ensures
        moved(ids, id, index) == ids,
{
    lemma_first_position(ids, id);
    assert(moved(ids, id, index) =~= ids);
}

/// Of two moves of an item that is not in a playlist twice, the last one counts.
pub proof fn law_last_move_counts(ids: Seq<Seq<char>>, id: Seq<char>, index: i32, later: i32)
    requires
        forall|i: int, j: int|
            0 <= i < ids.len() && 0 <= j < ids.len() && #[trigger] ids[i] == id
                && #[trigger] ids[j] == id ==> i == j,
    ensures
        moved(moved(ids, id, index), id, later) == moved(ids, id, later),
{
    lemma_first_position(ids, id);
    let at = first_position(ids, id);
    let once = moved(ids, id, index);
    if at < ids.len() {
        let rest = ids.remove(at);
        let to = place(index, ids.len() - 1);
        law_move_places_item(ids, id, index);
        lemma_first_position(once, id);
        let p = first_position(once, id);
        assert(once[to] == id);
        assert(p == to) by {
            if p < to {
                assert(once[p] == rest[p]);
                assert(rest[p] == if p < at {
                    ids[p]
                } else {
                    ids[p + 1]
                });
            }
        }
        assert(once.remove(p) =~= rest);
    }
}

/// Where `id` stands first among some songs, if it is there.
fn position_of(songs: &Vec<Song>, id: &str) -> (r: Option<usize>)
    ensures
        r is Some <==> first_position(song_ids(songs.deep_view()), id@) < songs@.len(),
        r matches Some(i) ==> i == first_position(song_ids(songs.deep_view()), id@),
{
    let ghost ids = song_ids(songs.deep_view());
    let mut i: usize = 0;
    assert(ids.skip(0) =~= ids);
    while i < songs.len()
        invariant
            ids == song_ids(songs.deep_view()),
            i <= songs@.len(),
            first_position(ids, id@) == i + first_position(ids.skip(i as int), id@),
        decreases songs@.len() - i,
    {
        assert(ids[i as int] == songs@[i as int].id@);
        if text::same(songs[i].id.as_str(), id) {
            return Some(i);
        }
        assert(ids.skip(i as int).skip(1) =~= ids.skip(i + 1));
        i = i + 1;
    }
    None
}

/// The identifiers of some songs.
fn ids_of(songs: &Vec<Song>) -> (r: Vec<String>)
    ensures
        r.deep_view() == song_ids(songs.deep_view()),
{
    let mut r: Vec<String> = Vec::new();
    let mut i: usize = 0;
    while i < songs.len()
        invariant
            i <= songs@.len(),
            r@.len() == i,
            forall|j: int| 0 <= j < i ==> (#[trigger] r@[j])@ == songs@[j].id@,
        decreases songs@.len() - i,
    {
        r.push(songs[i].id.clone());
        i = i + 1;
    }
    assert(r.deep_view() =~= song_ids(songs.deep_view()));
    r
}

/// Adds some identifiers to parameters, each under one name.
fn push_ids(params: &mut Params, name: &str, ids: &[String])
    ensures
        final(params).deep_view() == old(params).deep_view() + named(name@, ids.deep_view()),
{
    let ghost start = params.deep_view();
    let mut i: usize = 0;
    assert(params.deep_view() =~= start + named(name@, ids.deep_view()).take(0));
    while i < ids.len()
        invariant
            i <= ids@.len(),
            params.deep_view() == start + named(name@, ids.deep_view()).take(i as int),
        decreases ids@.len() - i,
    {
        let ghost before = params.deep_view();
        params.push(pair(name, ids[i].as_str()));
        assert(params.deep_view() =~= before.push((name@, ids@[i as int]@)));
        assert(params.deep_view() =~= start + named(name@, ids.deep_view()).take(i + 1));
        i = i + 1;
    }
    assert(named(name@, ids.deep_view()).take(i as int) =~= named(name@, ids.deep_view()));
}

impl Subsonic {
    /// The call that asks for the playlists.
    pub fn get_playlists_request(&self) -> (r: Call)
        ensures
            r.deep_view() == (CallView { endpoint: "getPlaylists"@, params: seq![] }),
    {
        bare_call("getPlaylists")
    }

    /// The playlists that an answer names.
    pub fn get_playlists(&self, response: SubsonicResponse) -> (r: Result<
        PlaylistDtoList,
        BackendError,
    >)
        ensures
            result_view(r) == accepted(
                response.deep_view(),
                PlaylistDtoListView {
                    items: Seq::new(
                        playlist_summaries(response.deep_view()).len(),
                        |i: int| playlist_dto(playlist_summaries(response.deep_view())[i]),
                    ),
                    total_record_count: playlist_summaries(response.deep_view()).len() as u64,
                },
            ),
    {
        if let Err(error) = self.ensure_ok_response(&response) {
            return Err(error);
        }
        let ghost all = playlist_summaries(response.deep_view());
        let mut items: Vec<PlaylistDto> = Vec::new();
        if let Some(playlists) = response.playlists {
            let ghost listed = playlists.playlist@;
            for playlist in it: playlists.playlist
                invariant
                    it.seq() == listed,
                    items@.len() == it.index(),
                    forall|i: int|
                        0 <= i < items@.len() ==> (#[trigger] items@[i]).deep_view()
                            == playlist_dto(listed[i].deep_view()),
            {
                items.push(
                    PlaylistDto {
                        name: playlist.name,
                        id: playlist.id,
                        child_count: playlist.song_count.unwrap_or(0),
                    },
                );
            }
        }
        assert(items.deep_view() =~= Seq::new(all.len(), |i: int| playlist_dto(all[i])));
        Ok(PlaylistDtoList { total_record_count: items.len() as u64, items })
    }

    /// The call that asks for a playlist with its songs.
    pub fn get_playlist_items_request(&self, playlist_id: &str) -> (r: Call)
        ensures
            r.deep_view() == (CallView {
                endpoint: "getPlaylist"@,
                params: seq![("id"@, playlist_id@)],
            }),
    {
        call_with("getPlaylist", "id", playlist_id)
    }

    /// The songs of the playlist that an answer holds.
    pub fn get_playlist_items(&self, response: SubsonicResponse) -> (r: Result<
        PlaylistItems,
        BackendError,
    >)
        ensures
            result_view(r) == match held(
                response.deep_view(),
                response.deep_view().playlist,
                "Subsonic response missing playlist payload"@,
            ) {
                Ok(playlist) => Ok(
                    PlaylistItemsView {
                        items: music_dtos(playlist.entry, no_fallback()),
                        total_record_count: playlist.entry.len() as u64,
                    },
                ),
                Err(error) => Err(error),
            },
    {
        if let Err(error) = self.ensure_ok_response(&response) {
            return Err(error);
        }
        match response.playlist {
            None => Err(bad_answer_error("Subsonic response missing playlist payload")),
            Some(playlist) => {
                let items = self.songs_to_music_dtos(playlist.entry, &AlbumFallback::none());
                assert(items.deep_view().len() == items@.len());
                Ok(PlaylistItems { total_record_count: items.len() as u64, items })
            },
        }
    }

    /// The call that creates a playlist of some songs.
    pub fn new_playlist_request(&self, name: &str, items: &[String]) -> (r: Call)
        ensures
            r.deep_view() == (CallView {
                endpoint: "createPlaylist"@,
                params: seq![("name"@, name@)] + named("songId"@, items.deep_view()),
            }),
    {
        let mut call = call_with("createPlaylist", "name", name);
        push_ids(&mut call.params, "songId", items);
        call
    }

    /// The identifier of the playlist that was created.
    pub fn new_playlist(&self, response: SubsonicResponse) -> (r: Result<String, BackendError>)
        ensures
            result_view(r) == match held(
                response.deep_view(),
                response.deep_view().playlist,
                "Subsonic createPlaylist response missing playlist payload"@,
            ) {
                Ok(playlist) => Ok(playlist.id),
                Err(error) => Err(error),
            },
    {
        if let Err(error) = self.ensure_ok_response(&response) {
            return Err(error);
        }
        match response.playlist {
            None => Err(
                bad_answer_error("Subsonic createPlaylist response missing playlist payload"),
            ),
            Some(playlist) => Ok(playlist.id),
        }
    }

    /// The call that adds songs to a playlist.
    pub fn add_playlist_items(&self, playlist_id: &str, item_ids: &[String]) -> (r: Call)
        ensures
            r.deep_view() == (CallView {
                endpoint: "updatePlaylist"@,
                params: seq![("playlistId"@, playlist_id@)] + named(
                    "songIdToAdd"@,
                    item_ids.deep_view(),
                ),
            }),
    {
        let mut call = call_with("updatePlaylist", "playlistId", playlist_id);
        push_ids(&mut call.params, "songIdToAdd", item_ids);
        call
    }

    /// The call that moves a song within a playlist: given the playlist as it is, it is created
    /// anew with its songs in their new order. The playlist is asked for by
    /// [`Subsonic::get_playlist_items_request`].
    pub fn move_playlist_item(
        &self,
        response: SubsonicResponse,
        playlist_id: &str,
        item_id: &str,
        new_index: i32,
    ) -> (r: Result<Call, BackendError>)
        ensures
            result_view(r) == match held(
                response.deep_view(),
                response.deep_view().playlist,
                "Subsonic getPlaylist response missing playlist payload"@,
            ) {
                Ok(playlist) => Ok(
                    CallView {
                        endpoint: "createPlaylist"@,
                        params: seq![("playlistId"@, playlist_id@)] + named(
                            "songId"@,
                            moved(song_ids(playlist.entry), item_id@, new_index),
                        ),
                    },
                ),
                Err(error) => Err(error),
            },
    {
        if let Err(error) = self.ensure_ok_response(&response) {
            return Err(error);
        }
        match response.playlist {
            None => Err(bad_answer_error("Subsonic getPlaylist response missing playlist payload")),
            Some(playlist) => {
                let mut ids = ids_of(&playlist.entry);
                let ghost before = ids.deep_view();
                assert(before.len() == playlist.entry@.len());
                if let Some(at) = position_of(&playlist.entry, item_id) {
                    ids.remove(at);
                    assert(ids.deep_view() =~= before.remove(at as int));
                    let ghost rest = ids.deep_view();
                    let to: usize = if new_index < 0 || new_index as usize > ids.len() {
                        ids.len()
                    } else {
                        new_index as usize
                    };
                    ids.insert(to, item_id.to_owned());
                    assert(to == place(new_index, rest.len() as int));
                    assert(ids.deep_view() =~= rest.insert(to as int, item_id@));
                }
                assert(ids.deep_view() == moved(before, item_id@, new_index));
                let mut call = call_with("createPlaylist", "playlistId", playlist_id);
                let order = ids.as_slice();
                assert(order.deep_view() =~= ids.deep_view());
                push_ids(&mut call.params, "songId", order);
                Ok(call)
            },
        }
    }

    /// The call that takes a song out of a playlist, where it stands first. The playlist is asked
    /// for by [`Subsonic::get_playlist_items_request`].
    pub fn remove_playlist_item(
        &self,
        response: SubsonicResponse,
        playlist_id: &str,
        item_id: &str,
    ) -> (r: Result<Call, BackendError>)
        ensures
            result_view(r) == match held(
                response.deep_view(),
                response.deep_view().playlist,
                "Subsonic getPlaylist response missing playlist payload"@,
            ) {
                Ok(playlist) => if song_ids(playlist.entry).contains(item_id@) {
                    Ok(
                        CallView {
                            endpoint: "updatePlaylist"@,
                            params: seq![
                                ("playlistId"@, playlist_id@),
                                (
                                    "songIndexToRemove"@,
                                    text::decimal(
                                        first_position(song_ids(playlist.entry), item_id@) as nat,
                                    ),
                                ),
                            ],
                        },
                    )
                } else {
                    Err(
                        BackendErrorView::Http {
                            status: NOT_FOUND,
                            message: "Item "@ + item_id@ + " not found in playlist "@
                                + playlist_id@,
                        },
                    )
                },
                Err(error) => Err(error),
            },
    {
        if let Err(error) = self.ensure_ok_response(&response) {
            return Err(error);
        }
        match response.playlist {
            None => Err(bad_answer_error("Subsonic getPlaylist response missing playlist payload")),
            Some(playlist) => {
                proof {
                    let ids = song_ids(playlist.entry.deep_view());
                    lemma_first_position(ids, item_id@);
                    assert(ids.len() == playlist.entry@.len());
                }
                match position_of(&playlist.entry, item_id) {
                    Some(index) => {
                        let mut call = call_with("updatePlaylist", "playlistId", playlist_id);
                        let ghost before = call.params.deep_view();
                        assert(before == call.deep_view().params);
                        call.params.push(
                            pair("songIndexToRemove", text::decimal_text(index as u64).as_str()),
                        );
                        assert(call.params.deep_view() =~= before.push(
                            ("songIndexToRemove"@, text::decimal(index as nat)),
                        ));
                        assert(call.params.deep_view() =~= seq![
                            ("playlistId"@, playlist_id@),
                            ("songIndexToRemove"@, text::decimal(index as nat)),
                        ]);
                        Ok(call)
                    },
                    None => {
                        let mut message = text::followed_by("Item ", item_id);
                        message.append(" not found in playlist ");
                        message.append(playlist_id);
                        Err(BackendError::Http { status: NOT_FOUND, message })
                    },
                }
            },
        }
    }
}

} // verus!
