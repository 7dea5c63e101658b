use account_rs::handler::{
    create_account, index, internal_error, list_accounts, Action, Body, Event, Handler, Query,
    Response, INTERNAL_SERVER_ERROR, OK, UNPROCESSABLE_ENTITY,
};
use account_rs::models::{BankAccount, MissingField, NewAccount};

fn account(id: i32, name: &str, stakeholder: &str) -> BankAccount {
    BankAccount { id, name: name.to_string(), stakeholder: stakeholder.to_string() }
}

fn respond(action: Action) -> Response {
    match action {
        Action::Respond(response) => response,
        other => panic!("expected a response, got {:?}", other),
    }
}

#[test]
fn create_then_list_on_fresh_database() {
    let (h, a) = create_account(Some("Ada".to_string()), Some("Engineering".to_string()));
    assert_eq!(a, Action::CheckOut);
    let (h, a) = h.step(Event::Connected);
    let wanted = NewAccount { name: "Ada".to_string(), stakeholder: "Engineering".to_string() };
    assert_eq!(a, Action::Run(Query::Insert(wanted)));
    assert_eq!(h, Handler::Inserting);
    let (h, a) = h.step(Event::Inserted(account(1, "Ada", "Engineering")));
    assert_eq!(h, Handler::Done);
    assert_eq!(
        respond(a),
        Response { status: OK, body: Body::Account(account(1, "Ada", "Engineering")) }
    );

    let (h, a) = list_accounts();
    assert_eq!(a, Action::CheckOut);
    let (h, a) = h.step(Event::Connected);
    assert_eq!(a, Action::Run(Query::SelectAll));
    let (_, a) = h.step(Event::Selected(vec![account(1, "Ada", "Engineering")]));
    assert_eq!(
        respond(a),
        Response { status: OK, body: Body::Accounts(vec![account(1, "Ada", "Engineering")]) }
    );
}

#[test]
fn list_with_no_accounts_is_empty_success() {
    let (h, _) = list_accounts();
    let (h, _) = h.step(Event::Connected);
    let (h, a) = h.step(Event::Selected(Vec::new()));
    assert_eq!(h, Handler::Done);
    assert_eq!(respond(a), Response { status: OK, body: Body::Accounts(Vec::new()) });
}

#[test]
fn list_keeps_every_row_in_order() {
    let rows = vec![account(1, "a", "x"), account(2, "b", "y"), account(3, "a", "x")];
    let (h, _) = list_accounts();
    let (h, _) = h.step(Event::Connected);
    let (_, a) = h.step(Event::Selected(rows.clone()));
    match respond(a).body {
        Body::Accounts(listed) => {
            assert_eq!(listed.len(), 3);
            assert_eq!(listed, rows);
        }
        other => panic!("unexpected body {:?}", other),
    }
}

#[test]
fn missing_name_is_rejected_without_database() {
    let (h, a) = create_account(None, Some("Engineering".to_string()));
    assert_eq!(h, Handler::Done);
    assert_eq!(
        respond(a),
        Response {
            status: UNPROCESSABLE_ENTITY,
            body: Body::Text("missing field `name`".to_string())
        }
    );
    assert!(!h.is_awaiting(&Event::Connected));
}

#[test]
fn missing_stakeholder_is_rejected_without_database() {
    let (h, a) = create_account(Some("Ada".to_string()), None);
    assert_eq!(h, Handler::Done);
    assert_eq!(
        respond(a),
        Response {
            status: UNPROCESSABLE_ENTITY,
            body: Body::Text("missing field `stakeholder`".to_string())
        }
    );
}

#[test]
fn both_fields_missing_reports_name_first() {
    let (_, a) = create_account(None, None);
    assert_eq!(respond(a).body, Body::Text("missing field `name`".to_string()));
}

#[test]
fn decode_keeps_fields() {
    let r = NewAccount::decode(Some("Ada".to_string()), Some("".to_string()));
    assert_eq!(r, Ok(NewAccount { name: "Ada".to_string(), stakeholder: "".to_string() }));
    assert_eq!(NewAccount::decode(None, None), Err(MissingField::Name));
    assert_eq!(NewAccount::decode(Some("x".to_string()), None), Err(MissingField::Stakeholder));
}

#[test]
fn unreachable_database_fails_create_with_server_error() {
    let (h, _) = create_account(Some("Ada".to_string()), Some("Engineering".to_string()));
    let (h, a) = h.step(Event::Failed("connection refused".to_string()));
    assert_eq!(h, Handler::Done);
    let response = respond(a);
    assert_eq!(response.status, INTERNAL_SERVER_ERROR);
    assert_eq!(response.body, Body::Text("connection refused".to_string()));
}

#[test]
fn unreachable_database_fails_list_with_server_error() {
    let (h, _) = list_accounts();
    let (_, a) = h.step(Event::Failed("pool timed out".to_string()));
    assert_eq!(
        respond(a),
        Response { status: INTERNAL_SERVER_ERROR, body: Body::Text("pool timed out".to_string()) }
    );
}

#[test]
fn failed_statement_is_server_error() {
    let (h, _) = list_accounts();
    let (h, _) = h.step(Event::Connected);
    assert!(h.is_awaiting(&Event::Failed(String::new())));
    assert!(!h.is_awaiting(&Event::Inserted(account(1, "a", "b"))));
    let (_, a) = h.step(Event::Failed("relation does not exist".to_string()));
    assert_eq!(respond(a).status, INTERNAL_SERVER_ERROR);
}

#[test]
fn sequential_creates_report_database_ids() {
    for id in 1..=3 {
        let (h, _) = create_account(Some(format!("n{id}")), Some("s".to_string()));
        let (h, _) = h.step(Event::Connected);
        let (_, a) = h.step(Event::Inserted(account(id, &format!("n{id}"), "s")));
        match respond(a).body {
            Body::Account(row) => assert_eq!(row.id, id),
            other => panic!("unexpected body {:?}", other),
        }
    }
}

#[test]
fn internal_error_carries_text() {
    assert_eq!(
        internal_error("boom".to_string()),
        Response { status: 500, body: Body::Text("boom".to_string()) }
    );
}

#[test]
fn index_echoes_user_agent() {
    assert_eq!(index("curl/8.0".to_string()), "curl/8.0");
    assert_eq!(MissingField::Name.message(), "missing field `name`");
}
