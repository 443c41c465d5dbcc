//! The words exchanged between a run and whoever performs its driver calls.
//!
//! The run asks with a [`Request`]; the caller performs it and answers with
//! a [`Reply`]. Neither holds a driver handle: both are plain values.

use vstd::prelude::*;

verus! {

/// What the run wants done next.
#[derive(Clone, Debug, PartialEq, Eq)]
pub enum Request {
    /// Create the driver environment.
    CreateEnvironment,
    /// Open a connection with these three arguments.
    Connect { dsn: String, user: String, password: String },
    /// Allocate a statement on the connection.
    AllocateStatement,
    /// Execute this text directly, with no parameters bound.
    Execute { sql: String },
    /// Ask for the number of columns of the result set.
    CountColumns,
    /// Fetch the next row.
    FetchRow,
    /// Read the column with this ordinal, counted from 1, as text.
    ReadColumn { column: u16 },
    /// Nothing more: the run is over.
    Stop,
}

/// A request as the contracts see it.
pub enum RequestView {
    CreateEnvironment,
    Connect { dsn: Seq<char>, user: Seq<char>, password: Seq<char> },
    AllocateStatement,
    Execute { sql: Seq<char> },
    CountColumns,
    FetchRow,
    ReadColumn { column: u16 },
    Stop,
}

impl View for Request {
    type V = RequestView;

    open spec fn view(&self) -> RequestView {
        match self {
            Request::CreateEnvironment => RequestView::CreateEnvironment,
            Request::Connect { dsn, user, password } => RequestView::Connect {
                dsn: dsn@,
                user: user@,
                password: password@,
            },
            Request::AllocateStatement => RequestView::AllocateStatement,
            Request::Execute { sql } => RequestView::Execute { sql: sql@ },
            Request::CountColumns => RequestView::CountColumns,
            Request::FetchRow => RequestView::FetchRow,
            Request::ReadColumn { column } => RequestView::ReadColumn { column: *column },
            Request::Stop => RequestView::Stop,
        }
    }
}

/// What the driver answered.
#[derive(Clone, Debug, PartialEq, Eq)]
pub enum Reply {
    /// The call succeeded and has nothing to tell.
    Done,
    /// The statement was executed and returned no result set.
    NoData,
    /// The statement was executed and returned a result set.
    Data,
    /// The result set has this many columns, as the driver counts them.
    Columns(i16),
    /// There is a next row, and the cursor stands on it.
    Row,
    /// No row is left.
    EndOfRows,
    /// The column's value as text; `None` where the cell is absent.
    Value(Option<String>),
    /// The call failed, with the driver's words where it gave any.
    Failed(Option<String>),
}

/// A reply as the contracts see it.
pub enum ReplyView {
    Done,
    NoData,
    Data,
    Columns(i16),
    Row,
    EndOfRows,
    Value(Option<Seq<char>>),
    Failed(Option<Seq<char>>),
}

impl View for Reply {
    type V = ReplyView;

    open spec fn view(&self) -> ReplyView {
        match self {
            Reply::Done => ReplyView::Done,
            Reply::NoData => ReplyView::NoData,
            Reply::Data => ReplyView::Data,
            Reply::Columns(count) => ReplyView::Columns(*count),
            Reply::Row => ReplyView::Row,
            Reply::EndOfRows => ReplyView::EndOfRows,
            Reply::Value(value) => ReplyView::Value(value.deep_view()),
            Reply::Failed(detail) => ReplyView::Failed(detail.deep_view()),
        }
    }
}

} // verus!
