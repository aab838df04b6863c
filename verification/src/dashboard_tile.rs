//! A tile of the dashboard: an image, a title, a link and an optional
//! description.

use vstd::prelude::*;

verus! {

/// A tile of the dashboard.
#[derive(Clone, Debug)]
pub struct DashboardTile {
    /// The path of the tile's image.
    pub image_path: String,
    /// The tile's title.
    pub title: String,
    /// Where the tile leads.
    pub link: String,
    /// A line under the title.
    pub description: Option<String>,
}

/// The text that a tile shows.
pub struct DashboardTileView {
    pub image_path: Seq<char>,
    pub title: Seq<char>,
    pub link: Seq<char>,
    pub description: Option<Seq<char>>,
}

/// The view of an optional string.
pub open spec fn opt_string_view(s: Option<String>) -> Option<Seq<char>> {
    match s {
        Some(t) => Some(t@),
        None => None,
    }
}

impl View for DashboardTile {
    type V = DashboardTileView;

    open spec fn view(&self) -> DashboardTileView {
        DashboardTileView {
            image_path: self.image_path@,
            title: self.title@,
            link: self.link@,
            description: opt_string_view(self.description),
        }
    }
}

} // verus!
