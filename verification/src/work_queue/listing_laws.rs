//! What the operator's list of items holds.

use vstd::prelude::*;

use crate::http::ScopeView;
use crate::ordering::{admitted, comparable, filtering_keeps, limits_keep_the_first, transitive};
use crate::text::{lex_less, lex_less_total, lex_less_transitive};
use super::items::{
    listed, newer, newest_first, ItemRow, ItemTables, ListingView, StoredItem,
};

verus! {

proof fn newest_first_is_transitive()
    ensures
        transitive(newest_first()),
{
    let before = newest_first();
    assert forall|a: StoredItem, b: StoredItem, c: StoredItem| #[trigger]
        before(a, b) && #[trigger] before(b, c) implies before(a, c) by {
        if lex_less(c.row.item_id@, b.row.item_id@) && lex_less(b.row.item_id@, a.row.item_id@) {
            lex_less_transitive(c.row.item_id@, b.row.item_id@, a.row.item_id@);
        }
    }
}

proof fn found_items(listing: ListingView, tables: ItemTables)
    requires
        tables.ids_differ(),
    ensures
        forall|item: StoredItem| #[trigger]
            listing.found(tables).contains(item) <==> tables.items.contains(item)
                && listing.asks_for(tables, item),
        comparable(listing.found(tables), newest_first()),
{
    let found = listing.found(tables);
    let keep = |item: StoredItem| listing.asks_for(tables, item);
    let apart = |a: StoredItem, b: StoredItem|
        a.client_id == b.client_id ==> newer(a, b) || newer(b, a);
    assert(found == tables.items.filter(keep));
    assert forall|i: int, j: int| 0 <= i < j < tables.items.len() implies apart(
        #[trigger] tables.items[i],
        #[trigger] tables.items[j],
    ) || apart(tables.items[j], tables.items[i]) by {
        lex_less_total(tables.items[i].row.item_id@, tables.items[j].row.item_id@);
    }
    filtering_keeps(tables.items, keep, apart);
    assert forall|i: int, j: int| 0 <= i < j < found.len() implies newest_first()(
        #[trigger] found[i],
        #[trigger] found[j],
    ) || newest_first()(found[j], found[i]) by {
        assert(apart(found[i], found[j]) || apart(found[j], found[i]));
        assert(found.contains(found[i]) && found.contains(found[j]));
    }
}

/// A listing holds the client's items of the status asked for that the scope sees,
/// each once, newest first, as many as the limit admits. Where it leaves one out, it
/// holds as many as the limit says, and all of them are newer.
pub proof fn listings_hold_the_items_in_scope(listing: ListingView, tables: ItemTables)
    requires
        tables.ids_differ(),
    ensures
        ({
            let items = listing.items(tables);
            let found = listing.found(tables);
            &&& items.len() == admitted(found.len(), listing.limit)
            &&& forall|i: int, j: int|
                0 <= i < j < items.len() ==> newer(#[trigger] items[i], #[trigger] items[j])
            &&& forall|item: StoredItem| #[trigger]
                items.contains(item) ==> tables.items.contains(item) && listing.asks_for(
                    tables,
                    item,
                )
            &&& forall|item: StoredItem| #[trigger]
                tables.items.contains(item) && listing.asks_for(tables, item) && !items.contains(
                    item,
                ) ==> items.len() == listing.limit && found.len() > listing.limit && forall|i: int|
                    0 <= i < items.len() ==> newer(#[trigger] items[i], item)
        }),
{
    let items = listing.items(tables);
    let found = listing.found(tables);
    let before = newest_first();
    newest_first_is_transitive();
    found_items(listing, tables);
    limits_keep_the_first(found, before, listing.limit);
    assert forall|i: int, j: int| 0 <= i < j < items.len() implies newer(
        #[trigger] items[i],
        #[trigger] items[j],
    ) by {
        assert(before(items[i], items[j]));
    }
    assert forall|item: StoredItem| #[trigger] items.contains(item) implies tables.items.contains(
        item,
    ) && listing.asks_for(tables, item) by {
        assert(found.contains(item));
    }
    assert forall|item: StoredItem| #[trigger]
        tables.items.contains(item) && listing.asks_for(tables, item) && !items.contains(
            item,
        ) implies items.len() == listing.limit && found.len() > listing.limit && forall|i: int|
        0 <= i < items.len() ==> newer(#[trigger] items[i], item) by {
        assert(found.contains(item));
        assert forall|i: int| 0 <= i < items.len() implies newer(#[trigger] items[i], item) by {
            assert(before(items[i], item));
        }
    }
}

/// A listing with room for every item that it asks for holds exactly those.
pub proof fn roomy_listings_are_complete(
    listing: ListingView,
    tables: ItemTables,
    item: StoredItem,
)
    requires
        tables.ids_differ(),
        listing.found(tables).len() <= listing.limit,
    ensures
        listing.items(tables).contains(item) <==> tables.items.contains(item) && listing.asks_for(
            tables,
            item,
        ),
{
    listings_hold_the_items_in_scope(listing, tables);
}

/// An item that came from no user and that no visibility row shows is in no user's
/// list.
pub proof fn unshared_items_are_in_no_users_list(
    listing: ListingView,
    tables: ItemTables,
    item: StoredItem,
)
    requires
        tables.ids_differ(),
        listing.scope is User,
        item.row.source_user_id is None,
        forall|user_id: Seq<char>| !#[trigger] tables.shows(item, user_id),
    ensures
        !listing.items(tables).contains(item),
{
    listings_hold_the_items_in_scope(listing, tables);
    if listing.items(tables).contains(item) {
        assert(tables.in_scope(item, listing.scope));
        assert(!tables.shows(item, listing.scope->User_0));
    }
}

/// What a user's list holds, the list of an operator who sees everything holds too,
/// where that has room for all of the queue.
pub proof fn users_see_part_of_the_queue(
    listing: ListingView,
    tables: ItemTables,
    item: StoredItem,
)
    requires
        tables.ids_differ(),
        (ListingView { scope: ScopeView::All, ..listing }).found(tables).len() <= listing.limit,
        listing.items(tables).contains(item),
    ensures
        (ListingView { scope: ScopeView::All, ..listing }).items(tables).contains(item),
{
    let whole = ListingView { scope: ScopeView::All, ..listing };
    listings_hold_the_items_in_scope(listing, tables);
    roomy_listings_are_complete(whole, tables, item);
}

/// The rows of listed items.
pub open spec fn rows_of(items: Seq<StoredItem>) -> Seq<ItemRow> {
    items.map_values(|item: StoredItem| item.row)
}

/// The entries that are served stand for the listed items, in their order.
pub proof fn entries_stand_for_the_listed_items(
    listing: ListingView,
    tables: ItemTables,
    visibility_rows: Seq<(Seq<char>, Seq<char>)>,
)
    ensures
        ({
            let items = listing.items(tables);
            let entries = listed(rows_of(items), visibility_rows);
            &&& entries.len() == items.len()
            &&& forall|i: int|
                #![trigger entries[i]]
                0 <= i < items.len() ==> entries[i].item.item_id == items[i].row.item_id@
                    && entries[i].item.created_at_ms == items[i].row.created_at_ms as u64
                    && entries[i].item.source_user_id == items[i].row.source_user_id.deep_view()
        }),
{
}

} // verus!
