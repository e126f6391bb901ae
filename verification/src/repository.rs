//! The table of stores and the five operations of the repository.
//!
//! The table is modelled as a sequence of rows in which no id occurs twice.
//! Each operation is described by a spec function from the rows before the
//! call to the rows after it and the operation's result; [`StoreTable`] keeps
//! the rows in memory and carries the operations out.

use vstd::prelude::*;
use crate::model::{Store, StoreView, stores_view, text_view};
use crate::model::dto::{StorePayload, StorePayloadView};

verus! {

/// A failure reported by the table, with the text that describes it.
#[derive(Debug, PartialEq, Eq)]
pub struct DatabaseError {
    pub message: String,
}

impl View for DatabaseError {
    type V = Seq<char>;

    open spec fn view(&self) -> Seq<char> {
        self.message@
    }
}

/// The mathematical value of a [`RepositoryError`].
pub enum RepositoryErrorView {
    NotFound,
    Database(Seq<char>),
}

/// Why a lookup or an update by id did not return a row.
#[derive(Debug, PartialEq, Eq)]
pub enum RepositoryError {
    /// No row has the id.
    NotFound,
    /// Any other failure.
    Database(DatabaseError),
}

impl View for RepositoryError {
    type V = RepositoryErrorView;

    open spec fn view(&self) -> RepositoryErrorView {
        match self {
            RepositoryError::NotFound => RepositoryErrorView::NotFound,
            RepositoryError::Database(e) => RepositoryErrorView::Database(e@),
        }
    }
}

/// The value of what `list_all` returns.
pub open spec fn listed_view(result: Result<Vec<Store>, DatabaseError>) -> Result<
    Seq<StoreView>,
    Seq<char>,
> {
    match result {
        Ok(stores) => Ok(stores_view(stores@)),
        Err(e) => Err(e@),
    }
}

/// The value of what `create` returns.
pub open spec fn created_view(result: Result<Store, DatabaseError>) -> Result<
    StoreView,
    Seq<char>,
> {
    match result {
        Ok(store) => Ok(store@),
        Err(e) => Err(e@),
    }
}

/// The value of what `get_by_id` and `update_by_id` return.
pub open spec fn fetched_view(result: Result<Store, RepositoryError>) -> Result<
    StoreView,
    RepositoryErrorView,
> {
    match result {
        Ok(store) => Ok(store@),
        Err(e) => Err(e@),
    }
}

/// The value of what `delete_by_id` returns.
pub open spec fn deleted_view(result: Result<u64, DatabaseError>) -> Result<u64, Seq<char>> {
    match result {
        Ok(count) => Ok(count),
        Err(e) => Err(e@),
    }
}

/// No id occurs in two rows.
pub open spec fn distinct_ids(rows: Seq<StoreView>) -> bool {
    forall|i: int, j: int| 0 <= i < j < rows.len() ==> rows[i].id != rows[j].id
}

/// Some row has the id.
pub open spec fn contains_id(rows: Seq<StoreView>, id: u128) -> bool {
    exists|i: int| 0 <= i < rows.len() && rows[i].id == id
}

/// The place of the row with the id, where there is one.
pub open spec fn position(rows: Seq<StoreView>, id: u128) -> int {
    choose|i: int| 0 <= i < rows.len() && rows[i].id == id
}

/// The row that a create request with this payload asks for, under the id
/// that was drawn for it.
pub open spec fn new_row(id: u128, payload: StorePayloadView) -> StoreView {
    StoreView { id, name: payload.name, address: payload.address, phone: payload.phone }
}

/// One column after an update: the supplied value where there is one, else
/// the stored value.
pub open spec fn coalesce(supplied: Option<Seq<char>>, stored: Option<Seq<char>>) -> Option<
    Seq<char>,
> {
    if supplied is Some {
        supplied
    } else {
        stored
    }
}

/// A row after a partial update: the id stays, each column is coalesced.
pub open spec fn merged(row: StoreView, patch: StorePayloadView) -> StoreView {
    StoreView {
        id: row.id,
        name: coalesce(patch.name, row.name),
        address: coalesce(patch.address, row.address),
        phone: coalesce(patch.phone, row.phone),
    }
}

/// The text with which the table refuses a second row under one id.
pub open spec fn duplicate_key_text() -> Seq<char> {
    "duplicate key value violates unique constraint"@
}

/// `list_all`: every row, and the table as it was.
pub open spec fn list_rows(rows: Seq<StoreView>) -> Result<Seq<StoreView>, Seq<char>> {
    Ok(rows)
}

/// Inserting a row: refused where its id is taken, else the row is added.
pub open spec fn insert_rows(rows: Seq<StoreView>, row: StoreView) -> (
    Seq<StoreView>,
    Result<StoreView, Seq<char>>,
) {
    if contains_id(rows, row.id) {
        (rows, Err(duplicate_key_text()))
    } else {
        (rows.push(row), Ok(row))
    }
}

/// `get_by_id`: the row with the id, or `NotFound`.
pub open spec fn fetch_row(rows: Seq<StoreView>, id: u128) -> Result<
    StoreView,
    RepositoryErrorView,
> {
    if contains_id(rows, id) {
        Ok(rows[position(rows, id)])
    } else {
        Err(RepositoryErrorView::NotFound)
    }
}

/// `update_by_id`: the row with the id is replaced by its merge with the
/// patch and returned; without such a row nothing changes.
pub open spec fn update_rows(rows: Seq<StoreView>, id: u128, patch: StorePayloadView) -> (
    Seq<StoreView>,
    Result<StoreView, RepositoryErrorView>,
) {
    if contains_id(rows, id) {
        let at = position(rows, id);
        (rows.update(at, merged(rows[at], patch)), Ok(merged(rows[at], patch)))
    } else {
        (rows, Err(RepositoryErrorView::NotFound))
    }
}

/// `delete_by_id`: the row with the id leaves and the count is 1; without
/// such a row nothing changes and the count is 0.
pub open spec fn delete_rows(rows: Seq<StoreView>, id: u128) -> (
    Seq<StoreView>,
    Result<u64, Seq<char>>,
) {
    if contains_id(rows, id) {
        (rows.remove(position(rows, id)), Ok(1u64))
    } else {
        (rows, Ok(0u64))
    }
}

/// In a table without duplicates, a row found under an id is the row at that
/// id's position.
pub proof fn lemma_position_unique(rows: Seq<StoreView>, id: u128, at: int)
    requires
        distinct_ids(rows),
        0 <= at < rows.len(),
        rows[at].id == id,
    ensures
        contains_id(rows, id),
        position(rows, id) == at,
{
    let found = position(rows, id);
    assert(0 <= found < rows.len() && rows[found].id == id);
    if found < at {
        assert(rows[found].id != rows[at].id);
    } else if at < found {
        assert(rows[at].id != rows[found].id);
    }
}

/// The id carries the marks of a randomly drawn UUID: version 4 in bits 76
/// to 79, and the RFC 4122 variant in bits 62 and 63.
pub open spec fn is_random_uuid(id: u128) -> bool {
    id & 0x0000_0000_0000_F000_C000_0000_0000_0000u128
        == 0x0000_0000_0000_4000_8000_0000_0000_0000u128
}

/// Some row's id carries the marks of a randomly drawn UUID. Only in such a
/// table can a fresh id be taken already.
pub open spec fn holds_random_id(rows: Seq<StoreView>) -> bool {
    exists|id: u128| is_random_uuid(id) && contains_id(rows, id)
}

/// Draws a fresh id with `uuid::Uuid::new_v4` and hands back its 128-bit value.
///
/// Trusted: the value is random, so nothing is claimed of it but the version
/// and variant bits, which `new_v4` sets on every value it returns.
#[verifier::external_body]
fn random_uuid() -> (id: u128)
    ensures
        is_random_uuid(id),
{
    uuid::Uuid::new_v4().as_u128()
}

/// The row that a create request asks for, under a fresh random id.
pub fn new_store(payload: StorePayload) -> (store: Store)
    ensures
        is_random_uuid(store.id),
        store@ == new_row(store.id, payload@),
{
    Store {
        id: random_uuid(),
        name: payload.name,
        address: payload.address,
        phone: payload.phone,
    }
}

fn supplied_or_stored(supplied: Option<String>, stored: &Option<String>) -> (text: Option<String>)
    ensures
        text_view(text) == coalesce(text_view(supplied), text_view(*stored)),
{
    match supplied {
        Some(s) => Some(s),
        None => stored.clone(),
    }
}

/// The rows of the service, kept in memory. No id occurs in two rows.
pub struct StoreTable {
    rows: Vec<Store>,
}

impl View for StoreTable {
    type V = Seq<StoreView>;

    closed spec fn view(&self) -> Seq<StoreView> {
        stores_view(self.rows@)
    }
}

impl StoreTable {
    #[verifier::type_invariant]
    spec fn well_formed(&self) -> bool {
        distinct_ids(stores_view(self.rows@))
    }

    /// An empty table.
    pub fn new() -> (table: StoreTable)
        ensures
            table@ == Seq::<StoreView>::empty(),
    {
        let table = StoreTable { rows: Vec::new() };
        assert(table@ =~= Seq::<StoreView>::empty());
        table
    }

    /// The number of rows. No id occurs in two of them: every table keeps
    /// that, and a caller learns it here.
    pub fn len(&self) -> (count: usize)
        ensures
            count == self@.len(),
            distinct_ids(self@),
    {
        proof {
            use_type_invariant(self);
        }
        self.rows.len()
    }

    fn take_rows(&mut self) -> (rows: Vec<Store>)
        ensures
            rows@ == old(self).rows@,
            distinct_ids(stores_view(rows@)),
            final(self).rows@ == Seq::<Store>::empty(),
    {
        proof {
            use_type_invariant(&*self);
        }
        let mut taken = StoreTable { rows: Vec::new() };
        std::mem::swap(self, &mut taken);
        taken.rows
    }

    fn find(&self, id: u128) -> (found: Option<usize>)
        ensures
            distinct_ids(self@),
            match found {
                Some(at) => at < self@.len() && self@[at as int].id == id && contains_id(self@, id)
                    && position(self@, id) == at,
                None => !contains_id(self@, id),
            },
    {
        proof {
            use_type_invariant(self);
        }
        let mut at: usize = 0;
        while at < self.rows.len()
            invariant
                at <= self.rows.len(),
                forall|k: int| 0 <= k < at ==> self@[k].id != id,
                self@ == stores_view(self.rows@),
                distinct_ids(self@),
            decreases self.rows.len() - at,
        {
            if self.rows[at].id == id {
                proof {
                    lemma_position_unique(self@, id, at as int);
                }
                return Some(at);
            }
            at = at + 1;
        }
        None
    }

    /// Every row of the table. Never fails.
    pub fn list_all(&self) -> (result: Result<Vec<Store>, DatabaseError>)
        ensures
            listed_view(result) == list_rows(self@),
    {
        let mut stores: Vec<Store> = Vec::new();
        let mut at: usize = 0;
        while at < self.rows.len()
            invariant
                at <= self.rows.len(),
                stores@.len() == at,
                forall|k: int| 0 <= k < at ==> stores@[k] == self.rows@[k],
            decreases self.rows.len() - at,
        {
            stores.push(self.rows[at].clone());
            at = at + 1;
        }
        assert(stores_view(stores@) =~= self@);
        Ok(stores)
    }

    /// Adds the row, unless a row already has its id: then the table stays as
    /// it is and the error carries [`duplicate_key_text`].
    pub fn insert(&mut self, store: Store) -> (result: Result<Store, DatabaseError>)
        ensures
            (final(self)@, created_view(result)) == insert_rows(old(self)@, store@),
            distinct_ids(final(self)@),
    {
        match self.find(store.id) {
            Some(_) => Err(
                DatabaseError {
                    message: String::from_str("duplicate key value violates unique constraint"),
                },
            ),
            None => {
                let ghost before = self.rows@;
                let mut rows = self.take_rows();
                rows.push(store.clone());
                proof {
                    assert(stores_view(rows@) =~= stores_view(before).push(store@));
                    assert forall|i: int, j: int| 0 <= i < j < rows@.len() implies stores_view(
                        rows@,
                    )[i].id != stores_view(rows@)[j].id by {
                        if j == before.len() {
                            assert(stores_view(before)[i].id == stores_view(rows@)[i].id);
                        } else {
                            assert(stores_view(before)[i].id != stores_view(before)[j].id);
                        }
                    }
                }
                self.rows = rows;
                Ok(store)
            },
        }
    }

    /// Draws a fresh random id and inserts a row with the payload's columns
    /// under it. Returns the row with its id. Should the id be taken, which
    /// can only happen where the table holds a random id already, the table
    /// stays as it is and the insert's error is returned.
    pub fn create(&mut self, payload: StorePayload) -> (result: Result<Store, DatabaseError>)
        ensures
            match result {
                Ok(store) => is_random_uuid(store.id) && (final(self)@, created_view(result))
                    == insert_rows(old(self)@, new_row(store.id, payload@)),
                Err(e) => final(self)@ == old(self)@ && e@ == duplicate_key_text()
                    && holds_random_id(old(self)@),
            },
            distinct_ids(final(self)@),
    {
        let store = new_store(payload);
        let ghost id = store.id;
        let result = self.insert(store);
        proof {
            if result is Err {
                assert(is_random_uuid(id) && contains_id(old(self)@, id));
            }
        }
        result
    }

    /// The row with the id, or `NotFound` where no row has it.
    pub fn get_by_id(&self, id: u128) -> (result: Result<Store, RepositoryError>)
        ensures
            fetched_view(result) == fetch_row(self@, id),
    {
        match self.find(id) {
            Some(at) => Ok(self.rows[at].clone()),
            None => Err(RepositoryError::NotFound),
        }
    }

    /// Replaces each column of the row with the id by the payload's value
    /// where the payload has one, keeps the stored value where it has none,
    /// and returns the row as it then stands. Without such a row: `NotFound`,
    /// and nothing changes.
    pub fn update_by_id(&mut self, id: u128, payload: StorePayload) -> (result: Result<
        Store,
        RepositoryError,
    >)
        ensures
            (final(self)@, fetched_view(result)) == update_rows(old(self)@, id, payload@),
            distinct_ids(final(self)@),
    {
        match self.find(id) {
            None => Err(RepositoryError::NotFound),
            Some(at) => {
                let ghost before = self.rows@;
                let row = &self.rows[at];
                let updated = Store {
                    id: row.id,
                    name: supplied_or_stored(payload.name, &row.name),
                    address: supplied_or_stored(payload.address, &row.address),
                    phone: supplied_or_stored(payload.phone, &row.phone),
                };
                assert(updated@ == merged(stores_view(before)[at as int], payload@));
                let mut rows = self.take_rows();
                rows.set(at, updated.clone());
                proof {
                    assert(stores_view(rows@) =~= stores_view(before).update(
                        at as int,
                        updated@,
                    ));
                    assert forall|i: int, j: int| 0 <= i < j < rows@.len() implies stores_view(
                        rows@,
                    )[i].id != stores_view(rows@)[j].id by {
                        assert(stores_view(before)[i].id != stores_view(before)[j].id);
                    }
                }
                self.rows = rows;
                Ok(updated)
            },
        }
    }

    /// Removes the row with the id and returns how many rows left the table:
    /// 1, or 0 where no row had the id. Never fails.
    pub fn delete_by_id(&mut self, id: u128) -> (result: Result<u64, DatabaseError>)
        ensures
            (final(self)@, deleted_view(result)) == delete_rows(old(self)@, id),
            distinct_ids(final(self)@),
    {
        match self.find(id) {
            None => Ok(0),
            Some(at) => {
                let ghost before = self.rows@;
                let mut rows = self.take_rows();
                let _ = rows.remove(at);
                proof {
                    assert(stores_view(rows@) =~= stores_view(before).remove(at as int));
                    assert forall|i: int, j: int| 0 <= i < j < rows@.len() implies stores_view(
                        rows@,
                    )[i].id != stores_view(rows@)[j].id by {
                        let old_i = if i < at { i } else { i + 1 };
                        let old_j = if j < at { j } else { j + 1 };
                        assert(stores_view(before)[old_i].id != stores_view(before)[old_j].id);
                    }
                }
                self.rows = rows;
                Ok(1)
            },
        }
    }
}

} // verus!
