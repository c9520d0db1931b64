use user_records::request::{DELETE_SQL, GET_SQL, INSERT_SQL, LIST_SQL, UPDATE_SQL};
use user_records::response::{DELETE_FAILED, INSERT_FAILED, NOT_FOUND, UPDATE_FAILED};
use user_records::{Body, Param, Request, Response, UpdateRecord, User, UserSubmission};

fn user(id: i32, name: &str, age: i32) -> User {
    User { id, name: name.to_string(), age }
}

fn ok_empty() -> Response {
    Response { status: 200, body: Body::Empty }
}

fn failure(text: &str) -> Response {
    Response { status: 500, body: Body::Text(text.to_string()) }
}

#[test]
fn list_statement_has_no_parameters() {
    let s = Request::RetrieveAll.statement();
    assert_eq!(s.sql, LIST_SQL);
    assert_eq!(s.sql, "SELECT id, name, age FROM users");
    assert!(s.params.is_empty());
}

#[test]
fn get_statement_binds_the_id() {
    let s = Request::RetrieveById(7).statement();
    assert_eq!(s.sql, GET_SQL);
    assert_eq!(s.params, vec![Param::Int(Some(7))]);
}

#[test]
fn create_statement_binds_name_then_age() {
    let sub = UserSubmission { name: "Ada".to_string(), age: 30 };
    let s = Request::Create(sub).statement();
    assert_eq!(s.sql, INSERT_SQL);
    assert_eq!(s.params, vec![Param::Text(Some("Ada".to_string())), Param::Int(Some(30))]);
}

#[test]
fn delete_statement_binds_the_id() {
    let s = Request::DeleteById(-4).statement();
    assert_eq!(s.sql, DELETE_SQL);
    assert_eq!(s.params, vec![Param::Int(Some(-4))]);
}

#[test]
fn update_with_name_only_binds_null_age() {
    let upd = UpdateRecord { name: Some("Grace".to_string()), age: None };
    let s = Request::UpdateById(2, upd).statement();
    assert_eq!(s.sql, UPDATE_SQL);
    assert_eq!(
        s.params,
        vec![Param::Text(Some("Grace".to_string())), Param::Int(None), Param::Int(Some(2))]
    );
}

#[test]
fn update_with_age_only_binds_null_name() {
    let upd = UpdateRecord { name: None, age: Some(31) };
    let s = Request::UpdateById(2, upd).statement();
    assert_eq!(s.params, vec![Param::Text(None), Param::Int(Some(31)), Param::Int(Some(2))]);
}

#[test]
fn update_with_no_fields_binds_two_nulls() {
    let upd = UpdateRecord { name: None, age: None };
    let s = Request::UpdateById(i32::MAX, upd).statement();
    assert_eq!(s.params, vec![Param::Text(None), Param::Int(None), Param::Int(Some(i32::MAX))]);
}

#[test]
fn statements_never_hold_the_values_in_their_text() {
    let sub = UserSubmission { name: "Robert'); DROP TABLE users;--".to_string(), age: 9 };
    let s = Request::Create(sub).statement();
    assert_eq!(s.sql, INSERT_SQL);
    assert!(!s.sql.contains("DROP"));
}

#[test]
fn list_answers_every_row() {
    let rows = vec![user(1, "Ada", 30), user(2, "Grace", 45)];
    let r = Request::RetrieveAll.respond(Ok(rows));
    let expected = vec![user(1, "Ada", 30), user(2, "Grace", 45)];
    assert_eq!(r, Response { status: 200, body: Body::Many(expected) });
}

#[test]
fn list_of_empty_table_is_empty_array() {
    let r = Request::RetrieveAll.respond(Ok(vec![]));
    assert_eq!(r, Response { status: 200, body: Body::Many(vec![]) });
}

#[test]
fn get_answers_the_row() {
    let r = Request::RetrieveById(1).respond(Ok(vec![user(1, "Ada", 30)]));
    assert_eq!(r, Response { status: 200, body: Body::One(user(1, "Ada", 30)) });
}

#[test]
fn get_without_row_is_a_failure() {
    let r = Request::RetrieveById(1).respond(Ok(vec![]));
    assert_eq!(r, failure(NOT_FOUND));
    assert_eq!(
        r,
        failure("no rows returned by a query that expected to return at least one row")
    );
}

#[test]
fn writes_answer_empty_200() {
    let sub = UserSubmission { name: "Ada".to_string(), age: 30 };
    assert_eq!(Request::Create(sub).respond(Ok(vec![])), ok_empty());
    assert_eq!(Request::DeleteById(3).respond(Ok(vec![])), ok_empty());
    let upd = UpdateRecord { name: None, age: Some(1) };
    assert_eq!(Request::UpdateById(3, upd).respond(Ok(vec![])), ok_empty());
}

#[test]
fn store_failures_answer_500_with_the_message() {
    let e = "connection refused".to_string();
    assert_eq!(
        Request::RetrieveAll.respond(Err(e.clone())),
        failure("connection refused")
    );
    assert_eq!(
        Request::RetrieveById(1).respond(Err(e.clone())),
        failure("connection refused")
    );
    let sub = UserSubmission { name: "Ada".to_string(), age: 30 };
    assert_eq!(
        Request::Create(sub).respond(Err(e.clone())),
        failure("Error while inserting a record: connection refused")
    );
    assert_eq!(
        Request::DeleteById(1).respond(Err(e.clone())),
        failure("Error while deleting a record: connection refused")
    );
    let upd = UpdateRecord { name: Some("x".to_string()), age: None };
    assert_eq!(
        Request::UpdateById(1, upd).respond(Err(e)),
        failure("Error while updating a record: connection refused")
    );
}

#[test]
fn write_failure_with_empty_message_still_has_a_body() {
    assert_eq!(Request::DeleteById(0).respond(Err(String::new())), failure(DELETE_FAILED));
    let sub = UserSubmission { name: String::new(), age: 0 };
    assert_eq!(Request::Create(sub).respond(Err(String::new())), failure(INSERT_FAILED));
    let upd = UpdateRecord { name: None, age: None };
    let r = Request::UpdateById(0, upd).respond(Err(String::new()));
    assert_eq!(r, failure(UPDATE_FAILED));
    match r.body {
        Body::Text(t) => assert!(!t.is_empty()),
        other => panic!("unexpected body {:?}", other),
    }
}

#[test]
fn read_failure_sends_the_error_text_alone() {
    let e = "pool timed out while waiting for an open connection".to_string();
    assert_eq!(Request::RetrieveAll.respond(Err(e.clone())), failure(&e));
    assert_eq!(Request::RetrieveById(9).respond(Err(e.clone())), failure(&e));
}

#[test]
fn store_failure_on_one_request_leaves_the_next_unaffected() {
    let failed = Request::RetrieveAll.respond(Err("database unreachable".to_string()));
    assert_eq!(failed.status, 500);
    let next = Request::RetrieveAll.respond(Ok(vec![user(5, "Ada", 30)]));
    assert_eq!(next, Response { status: 200, body: Body::Many(vec![user(5, "Ada", 30)]) });
}

#[test]
fn ada_create_list_update_get_delete_get() {
    // The store assigns id 1 on insert; each step hands back what it would return.
    let create = Request::Create(UserSubmission { name: "Ada".to_string(), age: 30 });
    let s = create.statement();
    assert_eq!(s.params, vec![Param::Text(Some("Ada".to_string())), Param::Int(Some(30))]);
    assert_eq!(create.respond(Ok(vec![])), ok_empty());

    let list = Request::RetrieveAll;
    assert_eq!(list.statement().sql, LIST_SQL);
    let listed = list.respond(Ok(vec![user(1, "Ada", 30)]));
    assert_eq!(listed, Response { status: 200, body: Body::Many(vec![user(1, "Ada", 30)]) });

    let update = Request::UpdateById(1, UpdateRecord { name: None, age: Some(31) });
    let s = update.statement();
    assert_eq!(s.sql, UPDATE_SQL);
    assert_eq!(s.params, vec![Param::Text(None), Param::Int(Some(31)), Param::Int(Some(1))]);
    assert_eq!(update.respond(Ok(vec![])), ok_empty());

    let get = Request::RetrieveById(1);
    let found = get.respond(Ok(vec![user(1, "Ada", 31)]));
    assert_eq!(found, Response { status: 200, body: Body::One(user(1, "Ada", 31)) });

    let delete = Request::DeleteById(1);
    assert_eq!(delete.statement().params, vec![Param::Int(Some(1))]);
    assert_eq!(delete.respond(Ok(vec![])), ok_empty());

    let gone = Request::RetrieveById(1).respond(Ok(vec![]));
    assert_eq!(gone.status, 500);
}
