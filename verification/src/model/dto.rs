//! Request and response bodies.

use vstd::prelude::*;

verus! {

/// The mathematical value of a [`StorePayload`].
pub struct StorePayloadView {
    pub name: Option<Seq<char>>,
    pub address: Option<Seq<char>>,
    pub phone: Option<Seq<char>>,
}

/// The body of a create or update request.
///
/// A field that is absent and a field that is `null` arrive as the same value,
/// `None`; an update can therefore never clear a column.
#[derive(Debug, PartialEq, Eq)]
pub struct StorePayload {
    pub name: Option<String>,
    pub address: Option<String>,
    pub phone: Option<String>,
}

impl View for StorePayload {
    type V = StorePayloadView;

    open spec fn view(&self) -> StorePayloadView {
        StorePayloadView {
            name: crate::model::text_view(self.name),
            address: crate::model::text_view(self.address),
            phone: crate::model::text_view(self.phone),
        }
    }
}

/// The mathematical value of an [`ErrorResponse`] or an [`OkResponse`]: a
/// status code and a message.
pub struct NoticeView {
    pub status: u16,
    pub message: Seq<char>,
}

/// The JSON body of a failed request.
#[derive(Debug, PartialEq, Eq)]
pub struct ErrorResponse {
    pub status: u16,
    pub message: String,
}

impl View for ErrorResponse {
    type V = NoticeView;

    open spec fn view(&self) -> NoticeView {
        NoticeView { status: self.status, message: self.message@ }
    }
}

/// The JSON body of a successful request that returns no record.
#[derive(Debug, PartialEq, Eq)]
pub struct OkResponse {
    pub status: u16,
    pub message: String,
}

impl View for OkResponse {
    type V = NoticeView;

    open spec fn view(&self) -> NoticeView {
        NoticeView { status: self.status, message: self.message@ }
    }
}

} // verus!
