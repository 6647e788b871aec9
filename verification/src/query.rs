//! Parameters of a collection query sent to the board-game database.
//!
//! A query can restrict the collection to one item type and exclude
//! another. The ranking command asks for board games only and excludes
//! board-game expansions, so an expansion can never enter a ranking.

use vstd::prelude::*;

verus! {

/// The type of an item in a collection, as the database classifies it.
#[derive(Clone, Copy, Debug, PartialEq, Eq, Structural)]
pub enum ItemType {
    BoardGame,
    BoardGameExpansion,
    BoardGameAccessory,
}

/// The parameters of one collection query: an optional item-type filter
/// and an optional item-type exclusion, both applied by the service.
#[derive(Clone, Copy, Debug, PartialEq, Eq, Structural)]
pub struct CollectionQuery {
    pub item_type: Option<ItemType>,
    pub exclude_item_type: Option<ItemType>,
}

/// The query the ranking command sends: board games only, with
/// board-game expansions excluded.
pub fn top10_query() -> (q: CollectionQuery)
    ensures
        q.item_type == Some(ItemType::BoardGame),
        q.exclude_item_type == Some(ItemType::BoardGameExpansion),
{
    CollectionQuery {
        item_type: Some(ItemType::BoardGame),
        exclude_item_type: Some(ItemType::BoardGameExpansion),
    }
}

} // verus!
