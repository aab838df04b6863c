//! The navigation menu: its entries, and which of them the current page
//! belongs to.

use vstd::prelude::*;
use crate::text::same_text;

verus! {

/// An entry of the navigation menu.
#[derive(Clone, Copy, Debug, PartialEq, Eq, Structural)]
pub enum MenuEntry {
    /// The dashboard.
    Dashboard,
    /// The search page.
    Search,
}

/// The path that an entry leads to.
pub open spec fn entry_path(e: MenuEntry) -> Seq<char> {
    match e {
        MenuEntry::Dashboard => "/dashboard"@,
        MenuEntry::Search => "/search"@,
    }
}

/// The title that an entry shows.
pub open spec fn entry_title(e: MenuEntry) -> Seq<char> {
    match e {
        MenuEntry::Dashboard => "Dashboard"@,
        MenuEntry::Search => "Search"@,
    }
}

/// The entries of the menu, in the order they are shown.
pub open spec fn menu_entries() -> Seq<MenuEntry> {
    seq![MenuEntry::Dashboard, MenuEntry::Search]
}

impl MenuEntry {
    /// The path that the entry leads to.
    pub fn path(&self) -> (p: &'static str)
        ensures
            p@ == entry_path(*self),
    {
        match self {
            MenuEntry::Dashboard => "/dashboard",
            MenuEntry::Search => "/search",
        }
    }

    /// The title that the entry shows.
    pub fn title(&self) -> (t: &'static str)
        ensures
            t@ == entry_title(*self),
    {
        match self {
            MenuEntry::Dashboard => "Dashboard",
            MenuEntry::Search => "Search",
        }
    }

    /// All the entries, in the order they are shown.
    pub fn all() -> (entries: [MenuEntry; 2])
        ensures
            entries@ == menu_entries(),
    {
        let entries = [MenuEntry::Dashboard, MenuEntry::Search];
        assert(entries@ =~= menu_entries());
        entries
    }
}

/// Whether `text` begins with `prefix`.
pub open spec fn has_prefix(text: Seq<char>, prefix: Seq<char>) -> bool {
    prefix.len() <= text.len() && text.subrange(0, prefix.len() as int) == prefix
}

/// Whether the text begins with the prefix.
fn starts_with(text: &str, prefix: &str) -> (b: bool)
    ensures
        b <==> has_prefix(text@, prefix@),
{
    let n = prefix.unicode_len();
    if n > text.unicode_len() {
        return false;
    }
    let mut i: usize = 0;
    while i < n
        invariant
            n == prefix@.len(),
            n <= text@.len(),
            0 <= i <= n,
            forall|j: int| 0 <= j < i ==> text@[j] == prefix@[j],
        decreases n - i,
    {
        if text.get_char(i) != prefix.get_char(i) {
            assert(text@.subrange(0, n as int)[i as int] != prefix@[i as int]);
            return false;
        }
        i = i + 1;
    }
    assert(text@.subrange(0, n as int) =~= prefix@);
    true
}

/// The first menu entry whose path is exactly `path`.
pub open spec fn entry_for_path(path: Seq<char>) -> Option<MenuEntry> {
    if entry_path(MenuEntry::Dashboard) == path {
        Some(MenuEntry::Dashboard)
    } else if entry_path(MenuEntry::Search) == path {
        Some(MenuEntry::Search)
    } else {
        None
    }
}

/// The menu entry that the page at `path` is, if any.
pub fn active_entry(path: &str) -> (e: Option<MenuEntry>)
    ensures
        e == entry_for_path(path@),
{
    let entries = MenuEntry::all();
    let mut i: usize = 0;
    while i < 2
        invariant
            entries@ == menu_entries(),
            0 <= i <= 2,
            forall|j: int| 0 <= j < i ==> entry_path(#[trigger] menu_entries()[j]) != path@,
        decreases 2 - i,
    {
        let entry = entries[i];
        if same_text(entry.path(), path) {
            return Some(entry);
        }
        i = i + 1;
    }
    None
}

/// Whether the sidebar marks the dashboard as the current page: at the
/// root and anywhere under "/dashboard".
pub open spec fn dashboard_is_current(path: Seq<char>) -> bool {
    has_prefix(path, "/dashboard"@) || path == "/"@
}

/// Whether the sidebar marks the search page as the current page.
pub open spec fn search_is_current(path: Seq<char>) -> bool {
    has_prefix(path, "/search"@)
}

/// Whether the sidebar marks the dashboard as the current page.
pub fn dashboard_active(path: &str) -> (b: bool)
    ensures
        b <==> dashboard_is_current(path@),
{
    starts_with(path, "/dashboard") || same_text(path, "/")
}

/// Whether the sidebar marks the search page as the current page.
pub fn search_active(path: &str) -> (b: bool)
    ensures
        b <==> search_is_current(path@),
{
    starts_with(path, "/search")
}

/// Whether the overlay that closes the dialogs is shown: while any of the
/// upload, add-artist and add-album dialogs is open.
pub fn overlay_shown(upload_open: bool, add_artist_open: bool, add_album_open: bool) -> (b: bool)
    ensures
        b == (upload_open || add_artist_open || add_album_open),
{
    upload_open || add_artist_open || add_album_open
}

} // verus!
