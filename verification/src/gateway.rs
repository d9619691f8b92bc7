use vstd::prelude::*;
use crate::error::StoreError;
use crate::record::{Record, RecordView, views};

verus! {

/// A value bound to a placeholder of a statement.
#[derive(Debug, PartialEq, Eq)]
pub enum Bind {
    Integer(i32),
    Text(String),
}

/// A bound value as contracts speak of it.
pub enum BindView {
    Integer(int),
    Text(Seq<char>),
}

impl View for Bind {
    type V = BindView;

    open spec fn view(&self) -> BindView {
        match self {
            Bind::Integer(v) => BindView::Integer(*v as int),
            Bind::Text(t) => BindView::Text(t@),
        }
    }
}

/// A parameterized SQL statement: its text, and the values for `$1`, `$2`, ...
/// in that order.
#[derive(Debug, PartialEq, Eq)]
pub struct Statement {
    pub sql: String,
    pub binds: Vec<Bind>,
}

/// A statement as contracts speak of it.
pub struct StatementView {
    pub sql: Seq<char>,
    pub binds: Seq<BindView>,
}

impl View for Statement {
    type V = StatementView;

    open spec fn view(&self) -> StatementView {
        StatementView { sql: self.sql@, binds: self.binds@.map_values(|b: Bind| b@) }
    }
}

/// What a handler asks of the store.
#[derive(Debug, PartialEq, Eq)]
pub enum StoreRequest {
    /// All records, in the store's own order: the statement asks for none.
    SelectAll,
    /// Store a new record.
    Insert(Record),
    /// The record with the given id.
    SelectById(i32),
    /// Rewrite the message of the record with the given id.
    UpdateMessage { id: i32, message: String },
    /// Remove the record with the given id.
    DeleteById(i32),
}

/// A request to the store as contracts speak of it.
pub enum RequestView {
    SelectAll,
    Insert(RecordView),
    SelectById(int),
    UpdateMessage { id: int, message: Seq<char> },
    DeleteById(int),
}

impl View for StoreRequest {
    type V = RequestView;

    open spec fn view(&self) -> RequestView {
        match self {
            StoreRequest::SelectAll => RequestView::SelectAll,
            StoreRequest::Insert(record) => RequestView::Insert(record@),
            StoreRequest::SelectById(id) => RequestView::SelectById(*id as int),
            StoreRequest::UpdateMessage { id, message } => RequestView::UpdateMessage {
                id: *id as int,
                message: message@,
            },
            StoreRequest::DeleteById(id) => RequestView::DeleteById(*id as int),
        }
    }
}

impl RequestView {
    /// The statement that carries out this request.
    pub open spec fn statement(self) -> StatementView {
        match self {
            RequestView::SelectAll => StatementView {
                sql: "SELECT * FROM test"@,
                binds: Seq::empty(),
            },
            RequestView::Insert(record) => StatementView {
                sql: "INSERT INTO test (id, date, message) VALUES ($1, $2, $3)"@,
                binds: seq![
                    BindView::Integer(record.id),
                    BindView::Text(record.date),
                    BindView::Text(record.message),
                ],
            },
            RequestView::SelectById(id) => StatementView {
                sql: "SELECT * FROM test WHERE id = $1"@,
                binds: seq![BindView::Integer(id)],
            },
            RequestView::UpdateMessage { id, message } => StatementView {
                sql: "UPDATE test SET message = $2 WHERE id = $1"@,
                binds: seq![BindView::Integer(id), BindView::Text(message)],
            },
            RequestView::DeleteById(id) => StatementView {
                sql: "DELETE FROM test WHERE id = $1"@,
                binds: seq![BindView::Integer(id)],
            },
        }
    }

    /// Whether this request reads records, and changes nothing.
    pub open spec fn is_read(self) -> bool {
        self is SelectAll || self is SelectById
    }
}

impl StoreRequest {
    /// Whether this request reads records, and changes nothing: its statement
    /// is a `SELECT`, and the store answers it with rows.
    pub fn reads(&self) -> (reads: bool)
        ensures
            reads == self@.is_read(),
    {
        match self {
            StoreRequest::SelectAll => true,
            StoreRequest::SelectById(_) => true,
            _ => false,
        }
    }

    /// The statement that carries out this request, with its values bound in
    /// the order of its placeholders.
    pub fn statement(&self) -> (statement: Statement)
        ensures
            statement@ == self@.statement(),
    {
        let statement = match self {
            StoreRequest::SelectAll => Statement {
                sql: String::from_str("SELECT * FROM test"),
                binds: Vec::new(),
            },
            StoreRequest::Insert(record) => Statement {
                sql: String::from_str("INSERT INTO test (id, date, message) VALUES ($1, $2, $3)"),
                binds: vec![
                    Bind::Integer(record.id),
                    Bind::Text(record.date.clone()),
                    Bind::Text(record.message.clone()),
                ],
            },
            StoreRequest::SelectById(id) => Statement {
                sql: String::from_str("SELECT * FROM test WHERE id = $1"),
                binds: vec![Bind::Integer(*id)],
            },
            StoreRequest::UpdateMessage { id, message } => Statement {
                sql: String::from_str("UPDATE test SET message = $2 WHERE id = $1"),
                binds: vec![Bind::Integer(*id), Bind::Text(message.clone())],
            },
            StoreRequest::DeleteById(id) => Statement {
                sql: String::from_str("DELETE FROM test WHERE id = $1"),
                binds: vec![Bind::Integer(*id)],
            },
        };
        assert(statement@.binds =~= self@.statement().binds);
        statement
    }
}

/// Why the store did not carry out a statement.
#[derive(Clone, Copy, Debug, PartialEq, Eq, Structural)]
pub enum StoreFault {
    /// The statement would have stored a second record under one id.
    UniqueViolation,
    /// A row was asked for and the store had none to give.
    NoRow,
    /// No connection could be had, or the store did not answer.
    Unavailable,
}

/// What the store answers to a statement.
#[derive(Debug, PartialEq, Eq)]
pub enum StoreReply {
    /// The rows that a `SELECT` found, in the store's order.
    Rows(Vec<Record>),
    /// The number of rows that an `INSERT`, `UPDATE` or `DELETE` changed.
    Affected(u64),
    /// The statement failed.
    Fault(StoreFault),
}

/// An answer of the store as contracts speak of it.
pub enum ReplyView {
    Rows(Seq<RecordView>),
    Affected(nat),
    Fault(StoreFault),
}

impl View for StoreReply {
    type V = ReplyView;

    open spec fn view(&self) -> ReplyView {
        match self {
            StoreReply::Rows(rows) => ReplyView::Rows(views(rows@)),
            StoreReply::Affected(count) => ReplyView::Affected(*count as nat),
            StoreReply::Fault(fault) => ReplyView::Fault(*fault),
        }
    }
}

/// What a request to the store yields where it succeeds.
#[derive(Debug, PartialEq, Eq)]
pub enum Payload {
    /// The record was stored.
    Created,
    /// The record's message was rewritten.
    Updated,
    /// The record was removed.
    Deleted,
    /// The one record that was asked for.
    One(Record),
    /// All records, in the store's order.
    All(Vec<Record>),
}

/// A payload as contracts speak of it.
pub enum PayloadView {
    Created,
    Updated,
    Deleted,
    One(RecordView),
    All(Seq<RecordView>),
}

impl View for Payload {
    type V = PayloadView;

    open spec fn view(&self) -> PayloadView {
        match self {
            Payload::Created => PayloadView::Created,
            Payload::Updated => PayloadView::Updated,
            Payload::Deleted => PayloadView::Deleted,
            Payload::One(record) => PayloadView::One(record@),
            Payload::All(records) => PayloadView::All(views(records@)),
        }
    }
}

/// The error that reports a fault of the store.
pub open spec fn error_of_fault(fault: StoreFault) -> StoreError {
    match fault {
        StoreFault::UniqueViolation => StoreError::DuplicateKey,
        StoreFault::NoRow => StoreError::NotFound,
        StoreFault::Unavailable => StoreError::StoreUnavailable,
    }
}

/// What the answer `reply` means for the request `request`.
///
/// A fault is reported as its error. A search wants exactly one row: none is
/// `NotFound`, several are `AmbiguousResult`. An update or a delete that
/// changed no row is `NotFound`. An answer of the wrong kind (rows for a
/// change, a count for a search) is reported as `StoreUnavailable`.
pub open spec fn outcome_of(request: RequestView, reply: ReplyView) -> Result<
    PayloadView,
    StoreError,
> {
    match reply {
        ReplyView::Fault(fault) => Err(error_of_fault(fault)),
        ReplyView::Rows(rows) => match request {
            RequestView::SelectAll => Ok(PayloadView::All(rows)),
            RequestView::SelectById(_) => if rows.len() == 0 {
                Err(StoreError::NotFound)
            } else if rows.len() == 1 {
                Ok(PayloadView::One(rows[0]))
            } else {
                Err(StoreError::AmbiguousResult)
            },
            _ => Err(StoreError::StoreUnavailable),
        },
        ReplyView::Affected(count) => match request {
            RequestView::Insert(_) => Ok(PayloadView::Created),
            RequestView::UpdateMessage { .. } => if count == 0 {
                Err(StoreError::NotFound)
            } else {
                Ok(PayloadView::Updated)
            },
            RequestView::DeleteById(_) => if count == 0 {
                Err(StoreError::NotFound)
            } else {
                Ok(PayloadView::Deleted)
            },
            _ => Err(StoreError::StoreUnavailable),
        },
    }
}

/// The view of what `interpret` returns.
pub open spec fn outcome_view(outcome: Result<Payload, StoreError>) -> Result<
    PayloadView,
    StoreError,
> {
    match outcome {
        Ok(payload) => Ok(payload@),
        Err(e) => Err(e),
    }
}

/// Reads the store's answer to a request: the payload, or the error that the
/// answer stands for.
pub fn interpret(request: &StoreRequest, reply: StoreReply) -> (outcome: Result<
    Payload,
    StoreError,
>)
    ensures
        outcome_view(outcome) == outcome_of(request@, reply@),
{
    match reply {
        StoreReply::Fault(fault) => match fault {
            StoreFault::UniqueViolation => Err(StoreError::DuplicateKey),
            StoreFault::NoRow => Err(StoreError::NotFound),
            StoreFault::Unavailable => Err(StoreError::StoreUnavailable),
        },
        StoreReply::Rows(rows) => match request {
            StoreRequest::SelectAll => Ok(Payload::All(rows)),
            StoreRequest::SelectById(_) => {
                let mut rows = rows;
                if rows.len() > 1 {
                    Err(StoreError::AmbiguousResult)
                } else {
                    match rows.pop() {
                        Some(record) => Ok(Payload::One(record)),
                        None => Err(StoreError::NotFound),
                    }
                }
            },
            _ => Err(StoreError::StoreUnavailable),
        },
        StoreReply::Affected(count) => match request {
            StoreRequest::Insert(_) => Ok(Payload::Created),
            StoreRequest::UpdateMessage { .. } => if count == 0 {
                Err(StoreError::NotFound)
            } else {
                Ok(Payload::Updated)
            },
            StoreRequest::DeleteById(_) => if count == 0 {
                Err(StoreError::NotFound)
            } else {
                Ok(Payload::Deleted)
            },
            _ => Err(StoreError::StoreUnavailable),
        },
    }
}

} // verus!
