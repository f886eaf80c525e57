//! What the pages of the player have in common.

use vstd::prelude::*;

use crate::backend::lemma_elements;
use crate::foreign;
use crate::ui::list_helpers::searchable;

verus! {

broadcast use vstd::string::group_string_axioms;

/// What a list is sorted by.
#[derive(Debug, Clone, Copy)]
pub enum SortType {
    DateAdded,
    Name,
    Artist,
    Year,
    PlayCount,
    LastPlayed,
    NumSongs,
    Album,
}

impl SortType {
    /// What the sort type is called on the screen.
    pub open spec fn name(self) -> Seq<char> {
        match self {
            SortType::DateAdded => "Recently Added"@,
            SortType::Name => "Name"@,
            SortType::Artist => "Album Artist"@,
            SortType::Year => "Year"@,
            SortType::PlayCount => "Play Count"@,
            SortType::NumSongs => "Num. Songs"@,
            SortType::Album => "Album"@,
            SortType::LastPlayed => "Last Played"@,
        }
    }

    /// What the sort type is called on the screen.
    pub fn as_str(&self) -> (r: &str)
        ensures
            r@ == self.name(),
    {
        match self {
            SortType::DateAdded => "Recently Added",
            SortType::Name => "Name",
            SortType::Artist => "Album Artist",
            SortType::Year => "Year",
            SortType::PlayCount => "Play Count",
            SortType::NumSongs => "Num. Songs",
            SortType::Album => "Album",
            SortType::LastPlayed => "Last Played",
        }
    }
}

/// No two sort types are called the same.
pub proof fn law_sort_types_are_told_apart(a: SortType, b: SortType)
    requires
        a.name() == b.name(),
    ensures
        a == b,
{
    reveal_strlit("Recently Added");
    reveal_strlit("Name");
    reveal_strlit("Album Artist");
    reveal_strlit("Year");
    reveal_strlit("Play Count");
    reveal_strlit("Num. Songs");
    reveal_strlit("Album");
    reveal_strlit("Last Played");
    assert("Recently Added"@.len() == 14);
    assert("Name"@.len() == 4 && "Name"@[0] == 'N');
    assert("Album Artist"@.len() == 12);
    assert("Year"@.len() == 4 && "Year"@[0] == 'Y');
    assert("Play Count"@.len() == 10 && "Play Count"@[0] == 'P');
    assert("Num. Songs"@.len() == 10 && "Num. Songs"@[0] == 'N');
    assert("Album"@.len() == 5);
    assert("Last Played"@.len() == 11);
}

/// Which end of a sorted list comes first.
#[derive(Debug, Clone, Copy, PartialEq, Eq, Structural)]
pub enum SortDirection {
    Ascending,
    Descending,
}

impl SortDirection {
    /// The number that stands for the direction in the settings.
    pub open spec fn number(self) -> u32 {
        match self {
            SortDirection::Ascending => 0,
            SortDirection::Descending => 1,
        }
    }

    /// The number that stands for the direction in the settings.
    pub fn to_primitive(self) -> (n: u32)
        ensures
            n == self.number(),
    {
        match self {
            SortDirection::Ascending => 0,
            SortDirection::Descending => 1,
        }
    }

    /// The direction that a number stands for. There is none for any other number, which is given
    /// back.
    pub fn try_from_primitive(number: u32) -> (r: Result<SortDirection, u32>)
        ensures
            match r {
                Ok(direction) => direction.number() == number,
                Err(n) => n == number && number > 1,
            },
    {
        if number == 0 {
            Ok(SortDirection::Ascending)
        } else if number == 1 {
            Ok(SortDirection::Descending)
        } else {
            Err(number)
        }
    }
}

/// No two directions have one number, and none has a number beyond one.
pub proof fn law_directions_are_told_apart(a: SortDirection, b: SortDirection)
    ensures
        a.number() == b.number() ==> a == b,
        a.number() <= 1,
{
}

/// Something that a page shows in detail.
pub trait ItemModel {
    /// What the item is called.
    fn display_name(&self) -> String;

    /// The identifier of the item.
    fn item_id(&self) -> String;
}

/// A page that shows one item in detail.
pub trait DetailPage {
    type Model: ItemModel;

    /// The title of the page: what its item is called, or nothing where it shows none.
    fn title(&self) -> (r: String)
        default_ensures
            exists|model: Option<Self::Model>| #[trigger]
                call_ensures(Self::get_model, (self,), model) && match model {
                    Some(model) => call_ensures(Self::Model::display_name, (&model,), r),
                    None => r@ == Seq::<char>::empty(),
                },
    {
        match self.get_model() {
            Some(model) => model.display_name(),
            None => String::new(),
        }
    }

    /// The identifier of the item that the page shows, or nothing where it shows none.
    fn id(&self) -> (r: String)
        default_ensures
            exists|model: Option<Self::Model>| #[trigger]
                call_ensures(Self::get_model, (self,), model) && match model {
                    Some(model) => call_ensures(Self::Model::item_id, (&model,), r),
                    None => r@ == Seq::<char>::empty(),
                },
    {
        match self.get_model() {
            Some(model) => model.item_id(),
            None => String::new(),
        }
    }

    /// Shows an item.
    fn set_model(&self, model: &Self::Model);

    /// The item that the page shows.
    fn get_model(&self) -> Option<Self::Model>;
}

/// A page that shows a list.
pub trait TopPage {
    /// Whether something new can be created on the page.
    fn can_new(&self) -> bool;

    /// Whether what the page lists has genres.
    fn has_genres(&self) -> bool;

    /// Plays what is selected.
    fn play_selected(&self);

    /// Creates something new. A page on which nothing can be created does nothing.
    fn create_new(&self) {
    }

    /// Shows only what matches a search.
    fn search_changed(&self, query: &str);

    /// Shows only what is of a genre, or everything.
    fn genre_changed(&self, genre: Option<&str>);

    /// What the page can be sorted by.
    fn sort_options(&self) -> &[SortType];

    /// What the page is sorted by, as an index.
    fn current_sort_by(&self) -> u32;

    /// The number of the direction that the page is sorted in.
    fn current_sort_direction(&self) -> u32;

    /// Sorts the page.
    fn apply_sort(&self, sort_by: u32, direction: u32);

    /// Whether the page can show favorites alone. Every page can unless it says otherwise.
    fn supports_favorites(&self) -> (b: bool)
        default_ensures
            b,
    {
        true
    }

    /// Shows only favorites, or everything.
    fn filter_favorites(&self, active: bool);

    /// Goes back to the top of the list.
    fn reset_position(&self);
}

/// What is searched for where a text is in the search entry: the text without diacritics. That is
/// the text by which a search finds a value that reads the same.
pub fn search_query(text: &str) -> (r: String)
    ensures
        r@ == foreign::without_diacritics(text@),
        r@ == searchable(text@),
{
    foreign::remove_diacritics(text)
}

/// The position that stands for no choice in a list of choices.
pub const INVALID_LIST_POSITION: u32 = u32::MAX;

/// The genre that is chosen in a list whose first choice stands for every genre.
pub open spec fn chosen_genre(selected: u32, item: Option<Seq<char>>) -> Option<Seq<char>> {
    if selected == INVALID_LIST_POSITION || selected == 0 {
        None
    } else {
        item
    }
}

/// The genre that is chosen in a list whose first choice stands for every genre.
pub fn selected_genre(selected: u32, item: Option<String>) -> (r: Option<String>)
    ensures
        r.deep_view() == chosen_genre(selected, item.deep_view()),
{
    if selected == INVALID_LIST_POSITION || selected == 0 {
        None
    } else {
        item
    }
}

/// What a page does when one of its controls changes.
#[derive(Debug, Clone, PartialEq, Eq)]
pub enum PageStep {
    /// Show only what matches a search.
    Search(String),
    /// Show only what is of a genre, or everything.
    Genre(Option<String>),
    /// Show only favorites, or everything.
    Favorites(bool),
    /// Go back to the top of the list.
    ResetPosition,
}

/// What a [`PageStep`] holds.
#[verifier::ext_equal]
pub enum PageStepView {
    Search(Seq<char>),
    Genre(Option<Seq<char>>),
    Favorites(bool),
    ResetPosition,
}

impl DeepView for PageStep {
    type V = PageStepView;

    open spec fn deep_view(&self) -> PageStepView {
        match *self {
            PageStep::Search(query) => PageStepView::Search(query@),
            PageStep::Genre(genre) => PageStepView::Genre(genre.deep_view()),
            PageStep::Favorites(active) => PageStepView::Favorites(active),
            PageStep::ResetPosition => PageStepView::ResetPosition,
        }
    }
}

/// What a page does, step by step, when the text in the search entry changes.
pub fn search_steps(text: &str) -> (r: Vec<PageStep>)
    ensures
        r.deep_view() == seq![
            PageStepView::Search(foreign::without_diacritics(text@)),
            PageStepView::ResetPosition,
        ],
        r.deep_view() == seq![
            PageStepView::Search(searchable(text@)),
            PageStepView::ResetPosition,
        ],
{
    let query = search_query(text);
    let r = vec![PageStep::Search(query), PageStep::ResetPosition];
    assert(r.deep_view() =~= seq![
        PageStepView::Search(searchable(text@)),
        PageStepView::ResetPosition,
    ]);
    r
}

/// What a page does, step by step, when a genre is chosen: its position among the choices, and its
/// name.
pub fn genre_steps(selected: u32, item: Option<String>) -> (r: Vec<PageStep>)
    ensures
        r.deep_view() == seq![
            PageStepView::Genre(chosen_genre(selected, item.deep_view())),
            PageStepView::ResetPosition,
        ],
{
    let genre = selected_genre(selected, item);
    let r = vec![PageStep::Genre(genre), PageStep::ResetPosition];
    assert(r.deep_view() =~= seq![
        PageStepView::Genre(chosen_genre(selected, item.deep_view())),
        PageStepView::ResetPosition,
    ]);
    r
}

/// What a page does, step by step, when the button for favorites is pressed.
pub fn favorite_steps(active: bool) -> (r: Vec<PageStep>)
    ensures
        r.deep_view() == seq![PageStepView::Favorites(active), PageStepView::ResetPosition],
{
    let r = vec![PageStep::Favorites(active), PageStep::ResetPosition];
    assert(r.deep_view() =~= seq![PageStepView::Favorites(active), PageStepView::ResetPosition]);
    r
}

/// Whether a page can have taken a step.
pub open spec fn step_taken<P: TopPage>(page: &P, step: PageStepView) -> bool {
    match step {
        PageStepView::Search(query) => exists|q: &str| #[trigger]
            call_ensures(P::search_changed, (page, q), ()) && q@ == query,
        PageStepView::Genre(genre) => exists|g: Option<&str>| #[trigger]
            call_ensures(P::genre_changed, (page, g), ()) && g.deep_view() == genre,
        PageStepView::Favorites(active) => call_ensures(P::filter_favorites, (page, active), ()),
        PageStepView::ResetPosition => call_ensures(P::reset_position, (page,), ()),
    }
}

/// Has a page take some steps. The contract says that each is taken: a page changes behind a shared
/// reference, so it claims neither their order nor that nothing else is done.
pub fn take_steps<P: TopPage>(page: &P, steps: Vec<PageStep>)
    ensures
        forall|i: int|
            0 <= i < steps@.len() ==> step_taken(page, #[trigger] steps.deep_view()[i]),
{
    let ghost all = steps@;
    for step in it: steps
        invariant
            it.seq() == all,
            forall|i: int|
                0 <= i < it.index() ==> step_taken(page, (#[trigger] all[i]).deep_view()),
    {
        match step {
            PageStep::Search(query) => page.search_changed(query.as_str()),
            PageStep::Genre(Some(genre)) => page.genre_changed(Some(genre.as_str())),
            PageStep::Genre(None) => page.genre_changed(None),
            PageStep::Favorites(active) => page.filter_favorites(active),
            PageStep::ResetPosition => page.reset_position(),
        }
    }
}

/// The sort types are called so on the screen, and the directions have these numbers.
pub proof fn law_sorting_is_named(
    sort_type: &SortType,
    direction: SortDirection,
    number: u32,
    name: &str,
    written: u32,
    read: Result<SortDirection, u32>,
)
    requires
        call_ensures(SortType::as_str, (sort_type,), name),
        call_ensures(SortDirection::to_primitive, (direction,), written),
        call_ensures(SortDirection::try_from_primitive, (number,), read),
    ensures
        name@ == match *sort_type {
            SortType::DateAdded => "Recently Added"@,
            SortType::Name => "Name"@,
            SortType::Artist => "Album Artist"@,
            SortType::Year => "Year"@,
            SortType::PlayCount => "Play Count"@,
            SortType::LastPlayed => "Last Played"@,
            SortType::NumSongs => "Num. Songs"@,
            SortType::Album => "Album"@,
        },
        direction == SortDirection::Ascending ==> written == 0,
        direction == SortDirection::Descending ==> written == 1,
        number == 0 ==> read == Ok::<SortDirection, u32>(SortDirection::Ascending),
        number == 1 ==> read == Ok::<SortDirection, u32>(SortDirection::Descending),
        number > 1 ==> read == Err::<SortDirection, u32>(number),
{
}

/// A change of a control is acted upon as it is, and then the list goes back to its top.
pub proof fn law_controls_are_obeyed(
    text: &str,
    selected: u32,
    item: Option<String>,
    active: bool,
    searched: Vec<PageStep>,
    filtered: Vec<PageStep>,
    favorites: Vec<PageStep>,
)
    requires
        call_ensures(search_steps, (text,), searched),
        call_ensures(genre_steps, (selected, item), filtered),
        call_ensures(favorite_steps, (active,), favorites),
    ensures
        searched@.len() == 2 && filtered@.len() == 2 && favorites@.len() == 2,
        searched@[0] matches PageStep::Search(query) && query@ == foreign::without_diacritics(text@)
            && (vstd::utf8::is_ascii_chars(text@) ==> query@ == text@),
        filtered@[0] matches PageStep::Genre(genre) && genre.deep_view() == if selected == 0
            || selected == u32::MAX {
            None
        } else {
            item.deep_view()
        },
        favorites@[0] == PageStep::Favorites(active),
        searched@[1] is ResetPosition && filtered@[1] is ResetPosition
            && favorites@[1] is ResetPosition,
{
    lemma_elements(searched);
    lemma_elements(filtered);
    lemma_elements(favorites);
    assert(searched.deep_view()[0] == searched@[0].deep_view());
    assert(searched.deep_view()[1] == searched@[1].deep_view());
    assert(filtered.deep_view()[0] == filtered@[0].deep_view());
    assert(filtered.deep_view()[1] == filtered@[1].deep_view());
    assert(favorites.deep_view()[0] == favorites@[0].deep_view());
    assert(favorites.deep_view()[1] == favorites@[1].deep_view());
}

/// What is searched for is the text by which a value is found that reads the same, and ASCII text
/// is left alone.
pub proof fn law_search_finds_what_reads_the_same(text: &str, query: String, value: String)
    requires
        call_ensures(search_query, (text,), query),
        call_ensures(crate::ui::list_helpers::filter_text, (text,), value),
    ensures
        query@ == value@,
        vstd::utf8::is_ascii_chars(text@) ==> query@ == text@,
        query@ == foreign::without_diacritics(text@),
{
}

} // verus!
