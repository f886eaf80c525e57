//! The library of a Subsonic server: its albums are listed page by page, and then fetched one by
//! one.

use vstd::prelude::*;

use crate::backend::{lemma_elements, pair, result_view, BackendError, BackendErrorView};
use crate::jellyfin::api::{MusicDto, MusicDtoList, MusicDtoListView, MusicDtoView};
use crate::subsonic::answers::{refusal, ALL_FOLDERS_LIBRARY_ID};
use crate::subsonic::api::{SubsonicResponse, SubsonicResponseView};
use crate::subsonic::{Call, CallView, Params, Subsonic};
use crate::text;

verus! {

broadcast use vstd::string::group_string_axioms;

/// How many albums a page of the list has. The last page has fewer.
pub const ALBUM_LIST_PAGE_SIZE: u32 = 500;

/// How far the list of albums has been read.
#[derive(Debug)]
pub struct AlbumIdsScan {
    /// The folder whose albums are listed, or none for those of all folders.
    pub folder: Option<String>,
    /// The albums that have been listed so far.
    pub album_ids: Vec<String>,
}

/// What an [`AlbumIdsScan`] holds.
#[verifier::ext_equal]
pub struct AlbumIdsScanView {
    pub folder: Option<Seq<char>>,
    pub album_ids: Seq<Seq<char>>,
}

impl DeepView for AlbumIdsScan {
    type V = AlbumIdsScanView;

    open spec fn deep_view(&self) -> AlbumIdsScanView {
        AlbumIdsScanView {
            folder: self.folder.deep_view(),
            album_ids: self.album_ids.deep_view(),
        }
    }
}

/// The folder that a library is, or none for the library of all folders.
pub open spec fn library_folder(library_id: Seq<char>) -> Option<Seq<char>> {
    let id = text::trimmed(library_id);
    if id.len() == 0 || id == ALL_FOLDERS_LIBRARY_ID@ {
        None
    } else {
        Some(id)
    }
}

/// The parameters that ask for the page after the albums that have been listed.
pub open spec fn page_params(scan: AlbumIdsScanView) -> Seq<(Seq<char>, Seq<char>)> {
    let page = seq![
        ("type"@, "alphabeticalByName"@),
        ("size"@, text::decimal(ALBUM_LIST_PAGE_SIZE as nat)),
        ("offset"@, text::decimal(scan.album_ids.len())),
    ];
    match scan.folder {
        Some(folder) => page.push(("musicFolderId"@, folder)),
        None => page,
    }
}

/// The albums on the page that an answer holds.
pub open spec fn page_ids(response: SubsonicResponseView) -> Seq<Seq<char>> {
    match response.album_list2 {
        Some(list) => Seq::new(list.album.len(), |i: int| list.album[i].id),
        None => seq![],
    }
}

/// Whether no page follows a page.
pub open spec fn last_page(page: Seq<Seq<char>>) -> bool {
    page.len() < ALBUM_LIST_PAGE_SIZE
}

/// The scan with one more page.
pub open spec fn with_page(scan: AlbumIdsScanView, page: Seq<Seq<char>>) -> AlbumIdsScanView {
    AlbumIdsScanView { folder: scan.folder, album_ids: scan.album_ids + page }
}

impl AlbumIdsScan {
    /// The start of the list of a library's albums.
    pub fn new(library_id: &str) -> (r: AlbumIdsScan)
        ensures
            r.deep_view() == (AlbumIdsScanView {
                folder: library_folder(library_id@),
                album_ids: seq![],
            }),
    {
        let id = text::trim(library_id);
        let folder = if id.is_empty() || text::same(id, ALL_FOLDERS_LIBRARY_ID) {
            None
        } else {
            Some(id.to_owned())
        };
        let r = AlbumIdsScan { folder, album_ids: Vec::new() };
        assert(r.deep_view().album_ids =~= seq![]);
        r
    }

    /// The call that asks for the next page.
    pub fn request(&self) -> (r: Call)
        ensures
            r.deep_view() == (CallView {
                endpoint: "getAlbumList2"@,
                params: page_params(self.deep_view()),
            }),
    {
        let mut params: Params = vec![
            pair("type", "alphabeticalByName"),
            pair("size", text::decimal_text(ALBUM_LIST_PAGE_SIZE as u64).as_str()),
            pair("offset", text::decimal_text(self.album_ids.len() as u64).as_str()),
        ];
        if let Some(folder) = &self.folder {
            params.push(pair("musicFolderId", folder.as_str()));
        }
        assert(self.deep_view().album_ids.len() == self.album_ids@.len());
        assert(params.deep_view() =~= page_params(self.deep_view()));
        Call { endpoint: "getAlbumList2", params }
    }

    /// Takes the page that an answer holds, and tells whether it was the last. An answer that is
    /// no success changes nothing.
    pub fn receive(&mut self, server: &Subsonic, response: SubsonicResponse) -> (r: Result<
        bool,
        BackendError,
    >)
        ensures
            match refusal(response.deep_view()) {
                Some(error) => {
                    &&& result_view(r) == Err::<bool, BackendErrorView>(error)
                    &&& final(self).deep_view() == old(self).deep_view()
                },
                None => {
                    &&& r == Ok::<bool, BackendError>(last_page(page_ids(response.deep_view())))
                    &&& final(self).deep_view() == with_page(
                        old(self).deep_view(),
                        page_ids(response.deep_view()),
                    )
                },
            },
            response.status@ != "ok"@ ==> r is Err && final(self).album_ids.deep_view() == old(
                self,
            ).album_ids.deep_view(),
            final(self).folder.deep_view() == old(self).folder.deep_view(),
            response.status@ == "ok"@ && response.album_list2 is None ==> r == Ok::<
                bool,
                BackendError,
            >(true) && final(self).album_ids.deep_view() == old(self).album_ids.deep_view(),
            response.status@ == "ok"@ ==> (response.album_list2 matches Some(list) ==> {
                let before = old(self).album_ids.deep_view();
                let after = final(self).album_ids.deep_view();
                &&& r == Ok::<bool, BackendError>(list.album@.len() < 500)
                &&& after.len() == before.len() + list.album@.len()
                &&& after.take(before.len() as int) == before
                &&& forall|i: int|
                    0 <= i < list.album@.len() ==> after[before.len() + i] == (
                    #[trigger] list.album@[i]).id@
            }),
    {
        if let Err(error) = server.ensure_ok_response(&response) {
            return Err(error);
        }
        let ghost answer = response;
        let ghost before = self.deep_view();
        let ghost page = page_ids(response.deep_view());
        let mut ids: Vec<String> = Vec::new();
        if let Some(list) = response.album_list2 {
            let ghost listed = list.album@;
            for album in it: list.album
                invariant
                    it.seq() == listed,
                    ids@.len() == it.index(),
                    forall|i: int| 0 <= i < ids@.len() ==> (#[trigger] ids@[i])@ == listed[i].id@,
            {
                ids.push(album.id);
            }
        }
        assert(ids.deep_view() =~= page);
        assert(page.len() == ids@.len());
        let last = ids.len() < ALBUM_LIST_PAGE_SIZE as usize;
        self.album_ids.append(&mut ids);
        assert(self.deep_view().album_ids =~= before.album_ids + page);
        proof {
            let after = self.album_ids.deep_view();
            assert(after.take(before.album_ids.len() as int) =~= before.album_ids);
            if let Some(list) = answer.album_list2 {
                lemma_elements(list.album);
                let n = before.album_ids.len() as int;
                assert forall|i: int| 0 <= i < list.album@.len() implies after[n + i] == (
                #[trigger] list.album@[i]).id@ by {
                    assert(list.album.deep_view()[i] == list.album@[i].deep_view());
                }
            } else {
                assert(after =~= before.album_ids);
            }
        }
        Ok(last)
    }
}

/// A page lists every album of an answer, in their order, and a page of fewer than five hundred is
/// the last.
pub proof fn law_page_lists_every_album(response: SubsonicResponse, scan: AlbumIdsScan)
    ensures
        response.album_list2 is None ==> page_ids(response.deep_view()).len() == 0,
        response.album_list2 matches Some(list) ==> {
            let page = page_ids(response.deep_view());
            &&& page.len() == list.album@.len()
            &&& forall|i: int|
                0 <= i < page.len() ==> #[trigger] page[i] == list.album@[i].id@
            &&& last_page(page) <==> list.album@.len() < 500
            &&& with_page(scan.deep_view(), page).album_ids == scan.album_ids.deep_view() + page
            &&& with_page(scan.deep_view(), page).folder == scan.folder.deep_view()
        },
{
    if let Some(list) = response.album_list2 {
        let page = page_ids(response.deep_view());
        lemma_elements(list.album);
        assert forall|i: int| 0 <= i < page.len() implies #[trigger] page[i]
            == list.album@[i].id@ by {
            assert(list.album.deep_view()[i] == list.album@[i].deep_view());
        }
    }
}

/// The page of a list of albums that starts at an offset.
pub open spec fn page_at(albums: Seq<Seq<char>>, offset: int) -> Seq<Seq<char>> {
    let end = if offset + ALBUM_LIST_PAGE_SIZE < albums.len() {
        offset + ALBUM_LIST_PAGE_SIZE
    } else {
        albums.len() as int
    };
    albums.subrange(offset, end)
}

/// What a scan has listed when it ends, where the server gives the pages of a list.
pub open spec fn scanned(scan: AlbumIdsScanView, albums: Seq<Seq<char>>) -> Seq<Seq<char>>
    decreases albums.len() - scan.album_ids.len(),
    when scan.album_ids.len() <= albums.len()
{
    let page = page_at(albums, scan.album_ids.len() as int);
    if last_page(page) {
        with_page(scan, page).album_ids
    } else {
        scanned(with_page(scan, page), albums)
    }
}

/// A scan lists every album of the server once, and in the server's order: where each answer holds
/// the page that was asked for, the scan ends with the whole list.
pub proof fn law_scan_lists_all_albums(scan: AlbumIdsScanView, albums: Seq<Seq<char>>)
    requires
        scan.album_ids.len() <= albums.len(),
        scan.album_ids == albums.take(scan.album_ids.len() as int),
    ensures
        scanned(scan, albums) == albums,
    decreases albums.len() - scan.album_ids.len(),
{
    let n = scan.album_ids.len() as int;
    let page = page_at(albums, n);
    let next = with_page(scan, page);
    if last_page(page) {
        assert(next.album_ids =~= albums);
    } else {
        assert(next.album_ids =~= albums.take(n + page.len()));
        law_scan_lists_all_albums(next, albums);
    }
}

/// The songs of those albums that could be fetched, one album after the other.
pub open spec fn fetched_songs(albums: Seq<Result<Vec<MusicDto>, BackendError>>) -> Seq<
    MusicDtoView,
>
    decreases albums.len(),
{
    if albums.len() == 0 {
        seq![]
    } else {
        let front = fetched_songs(albums.drop_last());
        match albums.last() {
            Ok(songs) => front + songs.deep_view(),
            Err(_) => front,
        }
    }
}

impl Subsonic {
    /// The library that is made of albums, as they were fetched one by one. An album that could
    /// not be fetched is left out.
    pub fn get_library(&self, albums: Vec<Result<Vec<MusicDto>, BackendError>>) -> (r: MusicDtoList)
        ensures
            r.deep_view() == (MusicDtoListView {
                items: fetched_songs(albums@),
                total_record_count: fetched_songs(albums@).len() as u64,
            }),
    {
        let ghost all = albums@;
        let mut items: Vec<MusicDto> = Vec::new();
        assert(items.deep_view() =~= fetched_songs(all.take(0)));
        for album in it: albums
            invariant
                it.seq() == all,
                items.deep_view() == fetched_songs(all.take(it.index() as int)),
        {
            let ghost before = items.deep_view();
            assert(all.take(it.index() + 1).drop_last() =~= all.take(it.index() as int));
            if let Ok(songs) = album {
                let mut songs = songs;
                let ghost added = songs.deep_view();
                items.append(&mut songs);
                assert(items.deep_view() =~= before + added);
            }
        }
        assert(all.take(all.len() as int) =~= all);
        assert(items.deep_view().len() == items@.len());
        MusicDtoList { total_record_count: items.len() as u64, items }
    }
}

} // verus!
