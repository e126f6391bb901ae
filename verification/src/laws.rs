//! What holds of the routes on every table, proved from their definitions.

use vstd::prelude::*;
use crate::handler::{
    BodyView,
    ResponseView,
    bad_request,
    create_route,
    delete_route,
    deleted_text,
    get_route,
    list_route,
    not_found,
    update_route,
};
use crate::handler::helper::{decimal, digit, uuid_parse_str};
use crate::model::StoreView;
use crate::model::dto::{NoticeView, StorePayloadView};
use crate::repository::{
    contains_id,
    distinct_ids,
    lemma_position_unique,
    merged,
    new_row,
    position,
};

verus! {

/// A lookup under a well-formed identifier that no row has is answered with
/// 404 and the message "Store not found".
pub proof fn law_unknown_id_is_not_found(rows: Seq<StoreView>, text: Seq<char>, id: u128)
    requires
        uuid_parse_str(text) == Some(id),
        !contains_id(rows, id),
    ensures
        get_route(rows, uuid_parse_str(text)) == not_found(),
        not_found().status == 404,
{
}

/// A malformed identifier is answered with 400 on every route that takes
/// one, and the table is left as it was.
pub proof fn law_malformed_id_is_refused(
    rows: Seq<StoreView>,
    text: Seq<char>,
    payload: StorePayloadView,
)
    requires
        uuid_parse_str(text) is None,
    ensures
        get_route(rows, uuid_parse_str(text)) == bad_request(),
        update_route(rows, uuid_parse_str(text), payload) == (rows, bad_request()),
        delete_route(rows, uuid_parse_str(text)) == (rows, bad_request()),
        bad_request().status == 400,
{
}

/// A store that was created is found again under the id it was given,
/// column for column; and the table still holds no id twice.
pub proof fn law_create_then_get(rows: Seq<StoreView>, id: u128, payload: StorePayloadView)
    requires
        distinct_ids(rows),
    ensures
        ({
            let (next, created) = create_route(rows, id, payload);
            &&& distinct_ids(next)
            &&& !contains_id(rows, id) ==> created == (ResponseView {
                status: 201,
                body: BodyView::Store(new_row(id, payload)),
            })
            &&& created.body matches BodyView::Store(row) ==> get_route(next, Some(row.id)) == (
            ResponseView { status: 200, body: BodyView::Store(row) })
        }),
{
    if !contains_id(rows, id) {
        let row = new_row(id, payload);
        let next = rows.push(row);
        assert forall|i: int, j: int| 0 <= i < j < next.len() implies next[i].id != next[j].id by {
            if j == rows.len() {
                assert(next[i] == rows[i]);
            } else {
                assert(next[i] == rows[i] && next[j] == rows[j]);
            }
        }
        lemma_position_unique(next, id, rows.len() as int);
    }
}

/// An update overwrites the columns that the payload supplies and keeps the
/// others: the row is returned with 200 as it then stands in the table, its
/// id unchanged, and every other row is untouched.
pub proof fn law_update_keeps_omitted(rows: Seq<StoreView>, at: int, payload: StorePayloadView)
    requires
        distinct_ids(rows),
        0 <= at < rows.len(),
    ensures
        ({
            let (next, response) = update_route(rows, Some(rows[at].id), payload);
            &&& response.status == 200
            &&& response.body matches BodyView::Store(row)
            &&& next == rows.update(at, row)
            &&& distinct_ids(next)
            &&& get_route(next, Some(rows[at].id)) == response
            &&& row.id == rows[at].id
            &&& row.name == if payload.name is Some {
                payload.name
            } else {
                rows[at].name
            }
            &&& row.address == if payload.address is Some {
                payload.address
            } else {
                rows[at].address
            }
            &&& row.phone == if payload.phone is Some {
                payload.phone
            } else {
                rows[at].phone
            }
        }),
{
    let id = rows[at].id;
    lemma_position_unique(rows, id, at);
    let row = merged(rows[at], payload);
    let next = rows.update(at, row);
    assert forall|i: int, j: int| 0 <= i < j < next.len() implies next[i].id != next[j].id by {
        assert(next[i].id == rows[i].id && next[j].id == rows[j].id);
    }
    lemma_position_unique(next, id, at);
}

/// Deleting a store twice: the first request is answered with 200 and the
/// message "Store deleted successfully 1 rows affected", the second with 404,
/// and the second leaves the table as the first left it.
pub proof fn law_delete_twice(rows: Seq<StoreView>, id: u128)
    requires
        distinct_ids(rows),
        contains_id(rows, id),
    ensures
        ({
            let (next, first) = delete_route(rows, Some(id));
            &&& first == (ResponseView {
                status: 200,
                body: BodyView::Notice(NoticeView { status: 200, message: deleted_text(1) }),
            })
            &&& deleted_text(1) == "Store deleted successfully "@ + seq!['1'] + " rows affected"@
            &&& !contains_id(next, id)
            &&& distinct_ids(next)
            &&& delete_route(next, Some(id)) == (next, not_found())
        }),
{
    let at = position(rows, id);
    let next = rows.remove(at);
    assert forall|i: int| 0 <= i < next.len() implies next[i].id != id by {
        if i < at {
            assert(next[i] == rows[i]);
        } else {
            assert(next[i] == rows[i + 1]);
        }
    }
    assert forall|i: int, j: int| 0 <= i < j < next.len() implies next[i].id != next[j].id by {
        let old_i = if i < at { i } else { i + 1 };
        let old_j = if j < at { j } else { j + 1 };
        assert(next[i] == rows[old_i] && next[j] == rows[old_j]);
    }
    assert(decimal(1) =~= seq![digit(1)]);
}

/// A listing is always answered with 200 and every row; on an empty table
/// the array is empty.
pub proof fn law_list_never_fails(rows: Seq<StoreView>)
    ensures
        list_route(rows) == (ResponseView { status: 200, body: BodyView::Stores(rows) }),
        list_route(Seq::<StoreView>::empty()).body == BodyView::Stores(Seq::<StoreView>::empty()),
{
}

} // verus!
