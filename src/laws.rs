use crate::handler::{
    create_start, writes, Action, Body, Event, Handler, Query, Response, INTERNAL_SERVER_ERROR, OK,
    UNPROCESSABLE_ENTITY,
};
use crate::models::{BankAccount, NewAccount};
use vstd::prelude::*;

verus! {

/// A creation request whose body lacks `name` or `stakeholder` is rejected
/// before any database work: its handler starts finished, answers with a client
/// error, and awaits no connection and no statement result afterwards.
pub proof fn missing_field_never_reaches_database(
    name: Option<String>,
    stakeholder: Option<String>,
    r: (Handler, Action),
)
    requires
        name is None || stakeholder is None,
        create_start(name, stakeholder, r),
    ensures
        r.0 == Handler::Done,
        !writes(r.1),
        r.1 matches Action::Respond(response) && response.status == UNPROCESSABLE_ENTITY,
        forall|event: Event| !#[trigger] r.0.awaits(event),
{
}

/// When the database cannot be reached, or fails at any later point, a pending
/// create or list handler answers with a server error whose body is the
/// failure's text, so a failure with a non-empty text yields a non-empty body.
pub proof fn database_failure_is_server_error(handler: Handler, message: String)
    requires
        handler !is Done,
        message@.len() > 0,
    ensures
        handler.awaits(Event::Failed(message)),
        handler.next(Event::Failed(message)).0 == Handler::Done,
        handler.next(Event::Failed(message)).1 matches Action::Respond(response) && (
        response.status == INTERNAL_SERVER_ERROR && (response.body matches Body::Text(text)
            && text@.len() > 0)),
{
}

/// A well-formed creation request checks out a connection, runs exactly one
/// insert of the requested fields, and answers with the row the database
/// returned, id included, unaltered.
pub proof fn create_reports_inserted_row(account: NewAccount, row: BankAccount)
    ensures
        Handler::Connecting(Query::Insert(account)).next(Event::Connected)
            == (Handler::Inserting, Action::Run(Query::Insert(account))),
        writes(Action::Run(Query::Insert(account))),
        Handler::Inserting.next(Event::Inserted(row))
            == (Handler::Done, Action::Respond(Response { status: OK, body: Body::Account(row) })),
{
}

/// A list request runs one select and answers with exactly the rows the
/// database returned, in the order it returned them: none is dropped, added or
/// changed, and no rows at all give an empty list with a success status.
pub proof fn list_reports_every_row(rows: Vec<BankAccount>)
    ensures
        Handler::Connecting(Query::SelectAll).next(Event::Connected)
            == (Handler::Selecting, Action::Run(Query::SelectAll)),
        !writes(Action::Run(Query::SelectAll)),
        Handler::Selecting.next(Event::Selected(rows))
            == (Handler::Done, Action::Respond(Response { status: OK, body: Body::Accounts(rows) })),
{
}

/// A handler decides its response after at most two reports: the connection,
/// then the statement's result; a failure ends it at once.
pub proof fn handler_finishes(handler: Handler, first: Event, second: Event)
    requires
        handler.awaits(first),
        handler.next(first).0.awaits(second),
    ensures
        handler.next(first).0.next(second).0 == Handler::Done,
        handler.next(first).0.next(second).1 is Respond,
{
}

} // verus!
