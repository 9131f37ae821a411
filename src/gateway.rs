use vstd::prelude::*;

verus! {

/// The address from which the items of a category are fetched.
pub open spec fn items_url() -> Seq<char> {
    "http://localhost:8080/playlists"@
}

/// The address from which the songs of an item are fetched.
pub open spec fn songs_url() -> Seq<char> {
    "http://localhost:8080/songs"@
}

/// The address to fetch the items of `category` from. Every category is
/// served by the same address.
pub fn items_endpoint(category: &str) -> (r: &'static str)
    ensures
        r@ == items_url(),
{
    "http://localhost:8080/playlists"
}

/// The address to fetch the songs of the item `item_id` from. Every item is
/// served by the same address.
pub fn songs_endpoint(item_id: i64) -> (r: &'static str)
    ensures
        r@ == songs_url(),
{
    "http://localhost:8080/songs"
}

} // verus!
