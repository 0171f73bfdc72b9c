//! What the store answers and what the service replies.

use crate::models::{series_views, Series, SeriesView};
use vstd::prelude::*;

verus! {

/// Why a statement failed.
#[derive(Debug, Clone, Copy, PartialEq, Eq)]
pub enum StoreError {
    /// A statement that must yield one row yielded none.
    RowNotFound,
    /// Any other failure of the driver or the store.
    Other,
}

/// What the store reports of a statement that returns no rows.
#[derive(Debug, Clone, Copy, PartialEq, Eq)]
pub struct Done {
    /// The number of rows that the statement changed.
    pub rows_affected: u64,
    /// The id of the row that was inserted last.
    pub last_insert_rowid: i64,
}

pub const OK: u16 = 200;

pub const CREATED: u16 = 201;

pub const BAD_REQUEST: u16 = 400;

pub const NOT_FOUND: u16 = 404;

pub const INTERNAL_SERVER_ERROR: u16 = 500;

/// The payload of a reply. `Text` is sent as plain text, the others as JSON.
#[derive(Debug, Clone, PartialEq, Eq)]
pub enum Body {
    /// A plain message.
    Text(String),
    /// The object `{"success": .., "message": ..}`.
    Ack { success: bool, message: String },
    /// One record.
    Record(Series),
    /// A list of records.
    Records(Vec<Series>),
    /// The id of a new record.
    Id(i64),
}

/// What a payload holds.
pub ghost enum BodyView {
    Text(Seq<char>),
    Ack { success: bool, message: Seq<char> },
    Record(SeriesView),
    Records(Seq<SeriesView>),
    Id(i64),
}

impl View for Body {
    type V = BodyView;

    open spec fn view(&self) -> BodyView {
        match self {
            Body::Text(text) => BodyView::Text(text@),
            Body::Ack { success, message } => BodyView::Ack {
                success: *success,
                message: message@,
            },
            Body::Record(series) => BodyView::Record(series@),
            Body::Records(list) => BodyView::Records(series_views(list@)),
            Body::Id(id) => BodyView::Id(*id),
        }
    }
}

/// A reply: the HTTP status code and the payload.
#[derive(Debug, Clone, PartialEq, Eq)]
pub struct Response {
    pub status: u16,
    pub body: Body,
}

/// What a reply holds.
pub ghost struct ResponseView {
    pub status: u16,
    pub body: BodyView,
}

impl View for Response {
    type V = ResponseView;

    open spec fn view(&self) -> ResponseView {
        ResponseView { status: self.status, body: self.body@ }
    }
}

/// The reply with a plain message.
pub open spec fn text_reply(status: u16, text: Seq<char>) -> ResponseView {
    ResponseView { status, body: BodyView::Text(text) }
}

/// The reply that acknowledges a change, or reports that it failed.
pub open spec fn ack_reply(status: u16, success: bool, message: Seq<char>) -> ResponseView {
    ResponseView { status, body: BodyView::Ack { success, message } }
}

/// The reply to a change: 200 and `done` when the store ran the statement,
/// however many rows it touched; 500 and `failed` when it did not.
pub open spec fn change_reply(ran: bool, done: Seq<char>, failed: Seq<char>) -> ResponseView {
    if ran {
        ack_reply(OK, true, done)
    } else {
        ack_reply(INTERNAL_SERVER_ERROR, false, failed)
    }
}

impl Response {
    /// A reply with a plain message.
    pub fn text(status: u16, text: &str) -> (reply: Response)
        ensures
            reply@ == text_reply(status, text@),
    {
        Response { status, body: Body::Text(text.to_owned()) }
    }

    /// A reply with the acknowledgement object.
    pub fn ack(status: u16, success: bool, message: &str) -> (reply: Response)
        ensures
            reply@ == ack_reply(status, success, message@),
    {
        Response { status, body: Body::Ack { success, message: message.to_owned() } }
    }

    /// The reply to a change, from what the store answered.
    pub fn change(result: &Result<Done, StoreError>, done: &str, failed: &str) -> (reply: Response)
        ensures
            reply@ == change_reply(result is Ok, done@, failed@),
    {
        match result {
            Ok(_) => Response::ack(OK, true, done),
            Err(_) => Response::ack(INTERNAL_SERVER_ERROR, false, failed),
        }
    }
}

} // verus!
