use crate::models::{decode_spec, missing_field_text, BankAccount, MissingField, NewAccount};
use vstd::prelude::*;

verus! {

/// Status of a request that succeeded.
pub const OK: u16 = 200;

/// Status of a request whose body lacks a required field.
pub const UNPROCESSABLE_ENTITY: u16 = 422;

/// Status of a request that failed on the server's side.
pub const INTERNAL_SERVER_ERROR: u16 = 500;

/// What a response carries: one account, every account, or a plain text.
#[derive(Clone, Debug, PartialEq, Eq)]
pub enum Body {
    Account(BankAccount),
    Accounts(Vec<BankAccount>),
    Text(String),
}

/// A response to a client: an HTTP status and a body.
#[derive(Clone, Debug, PartialEq, Eq)]
pub struct Response {
    pub status: u16,
    pub body: Body,
}

/// The one statement that a handler runs on its connection.
#[derive(Clone, Debug, PartialEq, Eq)]
pub enum Query {
    /// Insert one row and return it with the id the database gave it.
    Insert(NewAccount),
    /// Select every row, unfiltered and unpaged.
    SelectAll,
}

/// Where a request handler stands between its calls to the database.
#[derive(Clone, Debug, PartialEq, Eq)]
pub enum Handler {
    /// Waiting for a pooled connection, with the statement to run on it.
    Connecting(Query),
    /// Waiting for an insert to return its row.
    Inserting,
    /// Waiting for a select to return its rows.
    Selecting,
    /// The response has been decided; nothing more is awaited.
    Done,
}

/// What the runner of a handler reports back after doing what it was asked.
#[derive(Clone, Debug, PartialEq, Eq)]
pub enum Event {
    /// The pool handed out a connection.
    Connected,
    /// The pool, the connection or the statement failed, with the error's text.
    Failed(String),
    /// The insert returned this row.
    Inserted(BankAccount),
    /// The select returned these rows.
    Selected(Vec<BankAccount>),
}

/// What a handler asks its runner to do next.
#[derive(Clone, Debug, PartialEq, Eq)]
pub enum Action {
    /// Check a connection out of the pool.
    CheckOut,
    /// Run this statement on the connection.
    Run(Query),
    /// Answer the client; the connection, if any, goes back to the pool.
    Respond(Response),
}

/// The response to any failure on the server's side: the error's text, uniformly.
pub open spec fn internal_error_spec(message: String) -> Response {
    Response { status: INTERNAL_SERVER_ERROR, body: Body::Text(message) }
}

/// The response that rejects a creation request lacking `field`.
pub open spec fn is_rejection(action: Action, field: MissingField) -> bool {
    &&& action matches Action::Respond(response)
    &&& response.status == UNPROCESSABLE_ENTITY
    &&& response.body matches Body::Text(text)
    &&& text@ == missing_field_text(field)
}

/// Whether `action` runs a statement that writes to the database.
pub open spec fn writes(action: Action) -> bool {
    action matches Action::Run(Query::Insert(_))
}

/// What a create handler starts with, given the fields of its request body.
pub open spec fn create_start(name: Option<String>, stakeholder: Option<String>, r: (Handler, Action)) -> bool {
    match decode_spec(name, stakeholder) {
        Ok(account) => r == (Handler::Connecting(Query::Insert(account)), Action::CheckOut),
        Err(field) => r.0 == Handler::Done && is_rejection(r.1, field),
    }
}

/// Maps any failure, whatever its origin, to a server error that carries its text.
pub fn internal_error(message: String) -> (r: Response)
    ensures
        r == internal_error_spec(message),
{
    Response { status: INTERNAL_SERVER_ERROR, body: Body::Text(message) }
}

/// Answers a probe by echoing the client's declared identifier.
pub fn index(user_agent: String) -> (r: String)
    ensures
        r@ == user_agent@,
{
    user_agent
}

/// Starts handling a creation request from the fields found in its body. A body
/// without `name` or `stakeholder` is answered at once, before the database is
/// touched; otherwise the handler asks for a connection to insert the account.
pub fn create_account(name: Option<String>, stakeholder: Option<String>) -> (r: (Handler, Action))
    ensures
        create_start(name, stakeholder, r),
{
    match NewAccount::decode(name, stakeholder) {
        Ok(account) => (Handler::Connecting(Query::Insert(account)), Action::CheckOut),
        Err(field) => {
            let response = Response { status: UNPROCESSABLE_ENTITY, body: Body::Text(field.message()) };
            (Handler::Done, Action::Respond(response))
        },
    }
}

/// Starts handling a request for every account: the handler asks for a connection.
pub fn list_accounts() -> (r: (Handler, Action))
    ensures
        r == (Handler::Connecting(Query::SelectAll), Action::CheckOut),
{
    (Handler::Connecting(Query::SelectAll), Action::CheckOut)
}

impl Handler {
    /// Whether this handler awaits `event`: a connection while connecting, the
    /// result of its own statement while that runs, or a failure at either point.
    pub open spec fn awaits(self, event: Event) -> bool {
        match self {
            Handler::Connecting(_) => event is Connected || event is Failed,
            Handler::Inserting => event is Inserted || event is Failed,
            Handler::Selecting => event is Selected || event is Failed,
            Handler::Done => false,
        }
    }

    /// The next state and action after an awaited `event`: a connection runs the
    /// statement; its result is answered as it came; any failure is a server error.
    pub open spec fn next(self, event: Event) -> (Handler, Action) {
        match (self, event) {
            (Handler::Connecting(Query::Insert(account)), Event::Connected) =>
                (Handler::Inserting, Action::Run(Query::Insert(account))),
            (Handler::Connecting(Query::SelectAll), Event::Connected) =>
                (Handler::Selecting, Action::Run(Query::SelectAll)),
            (Handler::Inserting, Event::Inserted(row)) =>
                (Handler::Done, Action::Respond(Response { status: OK, body: Body::Account(row) })),
            (Handler::Selecting, Event::Selected(rows)) =>
                (Handler::Done, Action::Respond(Response { status: OK, body: Body::Accounts(rows) })),
            (_, Event::Failed(message)) => (Handler::Done, Action::Respond(internal_error_spec(message))),
            // an event that is not awaited: `step` never takes one
            (state, _) => (state, Action::CheckOut),
        }
    }

    /// Whether this handler awaits `event`.
    pub fn is_awaiting(&self, event: &Event) -> (r: bool)
        ensures
            r == self.awaits(*event),
    {
        match self {
            Handler::Connecting(_) => matches!(event, Event::Connected | Event::Failed(_)),
            Handler::Inserting => matches!(event, Event::Inserted(_) | Event::Failed(_)),
            Handler::Selecting => matches!(event, Event::Selected(_) | Event::Failed(_)),
            Handler::Done => false,
        }
    }

    /// Takes in what the runner reports and decides what comes next.
    pub fn step(self, event: Event) -> (r: (Handler, Action))
        requires
            self.awaits(event),
        ensures
            r == self.next(event),
    {
        match (self, event) {
            (Handler::Connecting(Query::Insert(account)), Event::Connected) =>
                (Handler::Inserting, Action::Run(Query::Insert(account))),
            (Handler::Connecting(Query::SelectAll), Event::Connected) =>
                (Handler::Selecting, Action::Run(Query::SelectAll)),
            (Handler::Inserting, Event::Inserted(row)) =>
                (Handler::Done, Action::Respond(Response { status: OK, body: Body::Account(row) })),
            (Handler::Selecting, Event::Selected(rows)) =>
                (Handler::Done, Action::Respond(Response { status: OK, body: Body::Accounts(rows) })),
            (_, Event::Failed(message)) => (Handler::Done, Action::Respond(internal_error(message))),
            (state, _) => {
                proof {
                    assert(false);
                }
                (state, Action::CheckOut)
            },
        }
    }
}

} // verus!
