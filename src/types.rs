use vstd::prelude::*;

verus! {

/// The pane that receives navigation keys.
#[derive(Clone, Copy, Debug, PartialEq, Eq, Structural)]
pub enum Focus {
    Tab,
    Browser,
    Content,
}

/// One entry listed under a category.
#[derive(Clone, Debug, PartialEq, Eq)]
pub struct CategoryItem {
    pub id: i64,
    pub name: String,
    pub image_url: String,
    pub user_id: i64,
    pub description: String,
    pub source_type: String,
    pub created_at: String,
    pub song_count: i64,
}

/// One song of an item.
#[derive(Clone, Debug, PartialEq, Eq)]
pub struct Song {
    pub id: String,
    pub title: String,
    pub artist: String,
    pub duration: String,
}

/// Why a fetch failed: the network call errored or its answer did not decode.
#[derive(Clone, Debug, PartialEq, Eq)]
pub struct FetchError {
    pub message: String,
}

} // verus!
