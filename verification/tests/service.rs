use users_api::model::{Action, DbEvent, Op, User};
use users_api::service::{conclude, plan};

fn user(id: i32, name: &str, email: &str) -> User {
    User { id, name: name.to_string(), email: email.to_string() }
}

#[test]
fn create_plans_an_insert_with_the_payload_fields() {
    let a = plan(
        "POST /users HTTP/1.1\r\nHost: x\r\nContent-Type: application/json\r\n\r\n{\"name\":\"Alice\",\"email\":\"alice@example.com\"}",
    );
    assert_eq!(
        a,
        Action::RunInsert {
            name: "Alice".to_string(),
            email: "alice@example.com".to_string(),
        }
    );
}

#[test]
fn create_ignores_an_id_field_in_the_payload() {
    let a = plan("POST /users HTTP/1.1\r\n\r\n{\"id\":5,\"name\":\"N\",\"email\":\"E\"}");
    assert_eq!(
        a,
        Action::RunInsert { name: "N".to_string(), email: "E".to_string() }
    );
}

#[test]
fn created_user_is_echoed_with_its_assigned_id() {
    let (status, body) = conclude(
        Op::Insert,
        &DbEvent::InsertedRow(user(1, "Alice", "alice@example.com")),
    );
    assert_eq!(status, "HTTP/1.1 200 OK\r\nContent-Type: application/json\r\n\r\n");
    assert_eq!(
        body,
        "{\"id\":1,\"name\":\"Alice\",\"email\":\"alice@example.com\"}"
    );
}

#[test]
fn duplicate_email_surfaces_as_internal_error() {
    let (status, body) = conclude(Op::Insert, &DbEvent::Failure);
    assert_eq!(status, "HTTP/1.1 500 INTERNAL ERROR\r\n\r\n");
    assert_eq!(body, "Internal error");
}

#[test]
fn read_one_plans_a_select_for_the_path_id() {
    let a = plan("GET /users/7 HTTP/1.1\r\nHost: x\r\n\r\n");
    assert_eq!(a, Action::RunSelectOne { id: 7 });
}

#[test]
fn read_one_found_row_matches_the_created_body() {
    let u = user(7, "Bob", "bob@example.com");
    let (status, body) = conclude(Op::SelectOne, &DbEvent::FoundRow(u));
    assert_eq!(status, "HTTP/1.1 200 OK\r\nContent-Type: application/json\r\n\r\n");
    assert_eq!(body, "{\"id\":7,\"name\":\"Bob\",\"email\":\"bob@example.com\"}");
}

#[test]
fn read_one_missing_id_is_not_found() {
    let a = plan("GET /users/999999 HTTP/1.1\r\n\r\n");
    assert_eq!(a, Action::RunSelectOne { id: 999999 });
    let (status, body) = conclude(Op::SelectOne, &DbEvent::NoRow);
    assert_eq!(status, "HTTP/1.1 404 NOT FOUND\r\n\r\n");
    assert_eq!(body, "User not found");
}

#[test]
fn read_all_on_an_empty_table_is_the_empty_array() {
    let a = plan("GET /users HTTP/1.1\r\n\r\n");
    assert_eq!(a, Action::RunSelectAll);
    let (status, body) = conclude(Op::SelectAll, &DbEvent::AllRows(vec![]));
    assert_eq!(status, "HTTP/1.1 200 OK\r\nContent-Type: application/json\r\n\r\n");
    assert_eq!(body, "[]");
}

#[test]
fn read_all_lists_rows_in_store_order() {
    let rows = vec![user(1, "A", "a@x"), user(2, "B", "b@x")];
    let (_, body) = conclude(Op::SelectAll, &DbEvent::AllRows(rows));
    assert_eq!(
        body,
        "[{\"id\":1,\"name\":\"A\",\"email\":\"a@x\"},{\"id\":2,\"name\":\"B\",\"email\":\"b@x\"}]"
    );
}

#[test]
fn update_plans_with_id_and_fields_and_reports_success() {
    let a = plan("PUT /users/3 HTTP/1.1\r\n\r\n{\"name\":\"New\",\"email\":\"new@x\"}");
    assert_eq!(
        a,
        Action::RunUpdate { id: 3, name: "New".to_string(), email: "new@x".to_string() }
    );
    let (status, body) = conclude(Op::Update, &DbEvent::Affected(1));
    assert_eq!(status, "HTTP/1.1 200 OK\r\nContent-Type: application/json\r\n\r\n");
    assert_eq!(body, "User updated");
    let (_, read_back) = conclude(Op::SelectOne, &DbEvent::FoundRow(user(3, "New", "new@x")));
    assert_eq!(read_back, "{\"id\":3,\"name\":\"New\",\"email\":\"new@x\"}");
}

#[test]
fn update_of_a_missing_id_is_not_found() {
    let (status, body) = conclude(Op::Update, &DbEvent::Affected(0));
    assert_eq!(status, "HTTP/1.1 404 NOT FOUND\r\n\r\n");
    assert_eq!(body, "User not found");
}

#[test]
fn delete_reports_success_then_not_found_when_repeated() {
    let a = plan("DELETE /users/3 HTTP/1.1\r\n\r\n");
    assert_eq!(a, Action::RunDelete { id: 3 });
    let (status, body) = conclude(Op::Delete, &DbEvent::Affected(1));
    assert_eq!(status, "HTTP/1.1 200 OK\r\nContent-Type: application/json\r\n\r\n");
    assert_eq!(body, "User deleted");
    let (status2, body2) = conclude(Op::Delete, &DbEvent::Affected(0));
    assert_eq!(status2, "HTTP/1.1 404 NOT FOUND\r\n\r\n");
    assert_eq!(body2, "User not found");
}

#[test]
fn deleting_a_missing_id_twice_is_not_found_both_times() {
    for _ in 0..2 {
        let (status, body) = conclude(Op::Delete, &DbEvent::Affected(0));
        assert_eq!(status, "HTTP/1.1 404 NOT FOUND\r\n\r\n");
        assert_eq!(body, "User not found");
        assert_ne!(status, "HTTP/1.1 500 INTERNAL ERROR\r\n\r\n");
    }
}

#[test]
fn invalid_json_body_is_an_internal_error() {
    let a = plan("POST /users HTTP/1.1\r\n\r\nnot json");
    assert_eq!(
        a,
        Action::Respond {
            status: "HTTP/1.1 500 INTERNAL ERROR\r\n\r\n".to_string(),
            body: "Internal error".to_string(),
        }
    );
    let b = plan("PUT /users/3 HTTP/1.1\r\n\r\n{\"name\":");
    assert_eq!(
        b,
        Action::Respond {
            status: "HTTP/1.1 500 INTERNAL ERROR\r\n\r\n".to_string(),
            body: "Internal error".to_string(),
        }
    );
}

#[test]
fn payload_missing_a_field_is_an_internal_error() {
    let a = plan("POST /users HTTP/1.1\r\n\r\n{\"name\":\"only\"}");
    assert_eq!(
        a,
        Action::Respond {
            status: "HTTP/1.1 500 INTERNAL ERROR\r\n\r\n".to_string(),
            body: "Internal error".to_string(),
        }
    );
}

#[test]
fn unknown_routes_get_the_literal_not_found_response() {
    for req in ["PATCH /users/1 HTTP/1.1\r\n\r\n", "GET /nope HTTP/1.1\r\n\r\n", "junk"] {
        let a = plan(req);
        assert_eq!(
            a,
            Action::Respond {
                status: "HTTP/1.1 404 NOT FOUND\r\n\r\n".to_string(),
                body: "404 not found".to_string(),
            }
        );
    }
}

#[test]
fn a_malformed_id_is_an_internal_error() {
    for req in [
        "GET /users/abc HTTP/1.1\r\n\r\n",
        "GET /users/ HTTP/1.1\r\n\r\n",
        "GET /users/ 5 HTTP/1.1\r\n\r\n",
        "DELETE /users/ HTTP/1.1\r\n\r\n",
        "PUT /users/1x HTTP/1.1\r\n\r\n{\"name\":\"N\",\"email\":\"E\"}",
    ] {
        let a = plan(req);
        assert_eq!(
            a,
            Action::Respond {
                status: "HTTP/1.1 500 INTERNAL ERROR\r\n\r\n".to_string(),
                body: "Internal error".to_string(),
            }
        );
    }
}

#[test]
fn connection_failure_is_an_internal_error_on_every_route() {
    for op in [Op::Insert, Op::SelectOne, Op::SelectAll, Op::Update, Op::Delete] {
        let (status, body) = conclude(op, &DbEvent::Failure);
        assert_eq!(status, "HTTP/1.1 500 INTERNAL ERROR\r\n\r\n");
        assert_eq!(body, "Internal error");
    }
}
