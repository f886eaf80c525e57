use gelly::ui::list_helpers::filter_text;
use gelly::ui::page_traits::{
    favorite_steps, genre_steps, search_query, search_steps, selected_genre, take_steps, DetailPage,
    ItemModel, PageStep, SortDirection, SortType, TopPage, INVALID_LIST_POSITION,
};
use std::cell::RefCell;

struct Album {
    name: &'static str,
}

impl ItemModel for Album {
    fn display_name(&self) -> String {
        self.name.to_string()
    }

    fn item_id(&self) -> String {
        format!("id of {}", self.name)
    }
}

struct AlbumPage {
    shown: RefCell<Option<&'static str>>,
}

impl DetailPage for AlbumPage {
    type Model = Album;

    fn set_model(&self, model: &Album) {
        *self.shown.borrow_mut() = Some(model.name);
    }

    fn get_model(&self) -> Option<Album> {
        self.shown.borrow().map(|name| Album { name })
    }
}

#[test]
fn a_detail_page_is_titled_by_its_item() {
    let page = AlbumPage { shown: RefCell::new(None) };
    assert_eq!(page.title(), "");
    assert_eq!(page.id(), "");
    page.set_model(&Album { name: "Blue" });
    assert_eq!(page.title(), "Blue");
    assert_eq!(page.id(), "id of Blue");
}

struct List {
    log: RefCell<Vec<String>>,
}

impl List {
    fn note(&self, what: String) {
        self.log.borrow_mut().push(what);
    }
}

impl TopPage for List {
    fn can_new(&self) -> bool {
        false
    }
    fn has_genres(&self) -> bool {
        true
    }
    fn play_selected(&self) {}
    fn search_changed(&self, query: &str) {
        self.note(format!("search {query}"));
    }
    fn genre_changed(&self, genre: Option<&str>) {
        self.note(format!("genre {genre:?}"));
    }
    fn sort_options(&self) -> &[SortType] {
        &[SortType::Name]
    }
    fn current_sort_by(&self) -> u32 {
        0
    }
    fn current_sort_direction(&self) -> u32 {
        1
    }
    fn apply_sort(&self, _sort_by: u32, _direction: u32) {}
    fn filter_favorites(&self, active: bool) {
        self.note(format!("favorites {active}"));
    }
    fn reset_position(&self) {
        self.note("reset".to_string());
    }
}

#[test]
fn a_page_reacts_to_its_controls() {
    let list = List { log: RefCell::new(Vec::new()) };
    assert!(list.supports_favorites());
    list.create_new();
    take_steps(&list, search_steps("Bj\u{f6}rk"));
    take_steps(&list, genre_steps(2, Some("Jazz".to_string())));
    take_steps(&list, genre_steps(0, Some("All".to_string())));
    take_steps(&list, favorite_steps(true));
    assert_eq!(
        *list.log.borrow(),
        [
            "search Bjork",
            "reset",
            "genre Some(\"Jazz\")",
            "reset",
            "genre None",
            "reset",
            "favorites true",
            "reset",
        ]
    );
}

#[test]
fn a_page_goes_back_to_the_top_last() {
    assert_eq!(
        search_steps("R\u{f3}s"),
        [PageStep::Search("Ros".to_string()), PageStep::ResetPosition]
    );
    assert_eq!(
        genre_steps(1, Some("Jazz".to_string())),
        [PageStep::Genre(Some("Jazz".to_string())), PageStep::ResetPosition]
    );
    assert_eq!(
        genre_steps(0, Some("All".to_string())),
        [PageStep::Genre(None), PageStep::ResetPosition]
    );
    assert_eq!(favorite_steps(false), [PageStep::Favorites(false), PageStep::ResetPosition]);
}

#[test]
fn sort_types_are_named() {
    let names: Vec<String> = [
        SortType::DateAdded,
        SortType::Name,
        SortType::Artist,
        SortType::Year,
        SortType::PlayCount,
        SortType::LastPlayed,
        SortType::NumSongs,
        SortType::Album,
    ]
    .iter()
    .map(|t| t.as_str().to_string())
    .collect();
    assert_eq!(
        names,
        [
            "Recently Added",
            "Name",
            "Album Artist",
            "Year",
            "Play Count",
            "Last Played",
            "Num. Songs",
            "Album",
        ]
    );
}

#[test]
fn sort_directions_are_numbered() {
    assert_eq!(SortDirection::Ascending.to_primitive(), 0);
    assert_eq!(SortDirection::Descending.to_primitive(), 1);
    assert_eq!(SortDirection::try_from_primitive(0), Ok(SortDirection::Ascending));
    assert_eq!(SortDirection::try_from_primitive(1), Ok(SortDirection::Descending));
    assert_eq!(SortDirection::try_from_primitive(2), Err(2));
}

#[test]
fn a_search_finds_what_reads_the_same() {
    for s in ["", "abc", "Sigur R\u{f3}s", "Mot\u{f6}rhead", "\u{c9}tude"] {
        assert_eq!(search_query(s), filter_text(s));
    }
    assert_eq!(search_query("Sigur R\u{f3}s"), "Sigur Ros");
    assert_eq!(filter_text("Mot\u{f6}rhead"), "Motorhead");
    assert_eq!(filter_text("AC/DC"), "AC/DC");
}

#[test]
fn ascii_searches_are_left_alone() {
    let ascii: String = (0u8..128).map(char::from).collect();
    assert_eq!(search_query(&ascii), ascii);
    assert_eq!(filter_text(&ascii), ascii);
}

#[test]
fn the_first_choice_stands_for_every_genre() {
    assert_eq!(selected_genre(0, Some("All".to_string())), None);
    assert_eq!(selected_genre(INVALID_LIST_POSITION, Some("Jazz".to_string())), None);
    assert_eq!(selected_genre(1, Some("Jazz".to_string())), Some("Jazz".to_string()));
    assert_eq!(selected_genre(1, None), None);
    assert_eq!(INVALID_LIST_POSITION, u32::MAX);
}
