//! The store record and the payloads exchanged with clients.

use vstd::prelude::*;

pub mod dto;

verus! {

/// An optional text column as a value: absent, or a sequence of characters.
pub open spec fn text_view(text: Option<String>) -> Option<Seq<char>> {
    match text {
        Some(s) => Some(s@),
        None => None,
    }
}

/// The mathematical value of a [`Store`].
pub struct StoreView {
    pub id: u128,
    pub name: Option<Seq<char>>,
    pub address: Option<Seq<char>>,
    pub phone: Option<Seq<char>>,
}

/// One row of the table.
///
/// `id` is the 128-bit value of the row's UUID. Every 128-bit value is a
/// well-formed UUID, so the field carries no further invariant. The three text
/// columns are independently optional and unconstrained.
#[derive(Debug, PartialEq, Eq)]
pub struct Store {
    pub id: u128,
    pub name: Option<String>,
    pub address: Option<String>,
    pub phone: Option<String>,
}

impl View for Store {
    type V = StoreView;

    open spec fn view(&self) -> StoreView {
        StoreView {
            id: self.id,
            name: text_view(self.name),
            address: text_view(self.address),
            phone: text_view(self.phone),
        }
    }
}

impl Clone for Store {
    fn clone(&self) -> (copy: Self)
        ensures
            copy == *self,
    {
        Store {
            id: self.id,
            name: self.name.clone(),
            address: self.address.clone(),
            phone: self.phone.clone(),
        }
    }
}

/// The values of a sequence of stores, in order.
pub open spec fn stores_view(stores: Seq<Store>) -> Seq<StoreView> {
    Seq::new(stores.len(), |i: int| stores[i]@)
}

} // verus!
