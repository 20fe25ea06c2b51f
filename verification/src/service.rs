//! The request pipeline: matching the route, extracting the body, reading
//! the user payload, choosing the store operation, and building the response
//! from what the store answered.

use vstd::prelude::*;
use vstd::string::*;
use crate::json::{user_json, user_json_spec, users_json, users_json_spec, users_json_items};
use crate::model::{UserView, Op, Action, ActionView, DbEvent, DbEventView};
use crate::parse::{get_id, parse_i32, i32_of_str, id_token_of};

verus! {

/// `p` is a prefix of `s`.
pub open spec fn starts(s: Seq<char>, p: Seq<char>) -> bool {
    p.len() <= s.len() && s.subrange(0, p.len() as int) == p
}

fn prefix_check(s: &str, p: &str) -> (r: bool)
    ensures
        r == starts(s@, p@),
{
    let ns = s.unicode_len();
    let np = p.unicode_len();
    if np > ns {
        return false;
    }
    let mut i: usize = 0;
    while i < np
        invariant
            i <= np <= ns,
            ns == s@.len(),
            np == p@.len(),
            forall|j: int| 0 <= j < i ==> s@[j] == p@[j],
        decreases np - i,
    {
        if s.get_char(i) != p.get_char(i) {
            proof {
                assert(s@.subrange(0, np as int)[i as int] == s@[i as int]);
            }
            return false;
        }
        i += 1;
    }
    proof {
        assert(s@.subrange(0, np as int) =~= p@);
    }
    true
}

/// Index of the first blank line (`\r\n\r\n`) of the request; `r.len()` if
/// there is none.
pub open spec fn find_blank_from(s: Seq<char>, from: int) -> int
    decreases s.len() - from when 0 <= from <= s.len()
{
    if from + 4 > s.len() {
        s.len() as int
    } else if s[from] == '\r' && s[from + 1] == '\n' && s[from + 2] == '\r' && s[from + 3]
        == '\n' {
        from
    } else {
        find_blank_from(s, from + 1)
    }
}

pub proof fn lemma_find_blank_bounds(s: Seq<char>, from: int)
    requires
        0 <= from <= s.len(),
    ensures
        from <= find_blank_from(s, from) <= s.len(),
        find_blank_from(s, from) != s.len() ==> find_blank_from(s, from) + 4 <= s.len(),
    decreases s.len() - from,
{
    if from + 4 <= s.len() && !(s[from] == '\r' && s[from + 1] == '\n' && s[from + 2] == '\r'
        && s[from + 3] == '\n') {
        lemma_find_blank_bounds(s, from + 1);
    }
}

/// The request body: everything after the first blank line; the whole text
/// when there is no blank line.
pub open spec fn body_of(r: Seq<char>) -> Seq<char> {
    let k = find_blank_from(r, 0);
    if k == r.len() {
        r
    } else {
        r.subrange(k + 4, r.len() as int)
    }
}

fn find_blank(s: &str) -> (r: usize)
    ensures
        r == find_blank_from(s@, 0),
{
    let n = s.unicode_len();
    if n < 4 {
        return n;
    }
    let mut i: usize = 0;
    while i <= n - 4
        invariant
            4 <= n == s@.len(),
            i <= n,
            find_blank_from(s@, 0) == find_blank_from(s@, i as int),
        decreases n - i,
    {
        if s.get_char(i) == '\r' && s.get_char(i + 1) == '\n' && s.get_char(i + 2) == '\r'
            && s.get_char(i + 3) == '\n' {
            return i;
        }
        i += 1;
    }
    n
}

/// The body of the request: the text after the first blank line.
pub fn request_body<'a>(request: &'a str) -> (r: &'a str)
    ensures
        r@ == body_of(request@),
{
    let n = request.unicode_len();
    let k = find_blank(request);
    proof {
        lemma_find_blank_bounds(request@, 0);
    }
    if k == n {
        request
    } else {
        request.substring_char(k + 4, n)
    }
}

/// What reading a user payload out of a request body yields: the name and
/// email when the body is a JSON document whose object carries both as
/// strings, nothing otherwise.
pub uninterp spec fn user_body_of(s: Seq<char>) -> Option<(Seq<char>, Seq<char>)>;

/// Relies on serde_json::from_str and the accessors of serde_json::Value:
/// whether the text parses as JSON, whether the document is an object with
/// string fields "name" and "email", and what those fields hold, are a
/// function of the text alone. A deliberate choice: a body whose object
/// repeats a key is read as serde_json's document model reads it, the last
/// binding winning, rather than rejected.
#[verifier::external_body]
fn parse_user_fields(body: &str) -> (r: Option<(String, String)>)
    ensures
        match r {
            Some(p) => user_body_of(body@) == Some((p.0@, p.1@)),
            None => user_body_of(body@) is None,
        },
{
    let v: serde_json::Value = match serde_json::from_str(body) {
        Ok(v) => v,
        Err(_) => return None,
    };
    let name = match v.get("name").and_then(serde_json::Value::as_str) {
        Some(s) => s.to_string(),
        None => return None,
    };
    let email = match v.get("email").and_then(serde_json::Value::as_str) {
        Some(s) => s.to_string(),
        None => return None,
    };
    Some((name, email))
}

/// The status line and headers of a successful response.
pub open spec fn ok_header_spec() -> Seq<char> {
    "HTTP/1.1 200 OK\r\nContent-Type: application/json\r\n\r\n"@
}

/// The status line of a not-found response.
pub open spec fn not_found_header_spec() -> Seq<char> {
    "HTTP/1.1 404 NOT FOUND\r\n\r\n"@
}

/// The status line of an internal-error response.
pub open spec fn internal_error_header_spec() -> Seq<char> {
    "HTTP/1.1 500 INTERNAL ERROR\r\n\r\n"@
}

pub fn ok_header() -> (r: String)
    ensures
        r@ == ok_header_spec(),
{
    "HTTP/1.1 200 OK\r\nContent-Type: application/json\r\n\r\n".to_owned()
}

pub fn not_found_header() -> (r: String)
    ensures
        r@ == not_found_header_spec(),
{
    "HTTP/1.1 404 NOT FOUND\r\n\r\n".to_owned()
}

pub fn internal_error_header() -> (r: String)
    ensures
        r@ == internal_error_header_spec(),
{
    "HTTP/1.1 500 INTERNAL ERROR\r\n\r\n".to_owned()
}

fn internal_error_pair() -> (r: (String, String))
    ensures
        r.0@ == internal_error_header_spec(),
        r.1@ == "Internal error"@,
{
    (internal_error_header(), "Internal error".to_owned())
}

/// What a request calls for, decided from the text alone. The route is the
/// first matching prefix, checked in this order; a payload or id that does
/// not parse turns the route into an immediate internal-error response, an
/// unknown route into the literal not-found response.
pub open spec fn plan_of(r: Seq<char>) -> ActionView {
    if starts(r, "POST /users"@) {
        match user_body_of(body_of(r)) {
            Some(p) => ActionView::RunInsert { name: p.0, email: p.1 },
            None => ActionView::Respond {
                status: internal_error_header_spec(),
                body: "Internal error"@,
            },
        }
    } else if starts(r, "GET /users/"@) {
        match i32_of_str(id_token_of(r)) {
            Some(id) => ActionView::RunSelectOne { id: id as int },
            None => ActionView::Respond {
                status: internal_error_header_spec(),
                body: "Internal error"@,
            },
        }
    } else if starts(r, "GET /users"@) {
        ActionView::RunSelectAll
    } else if starts(r, "PUT /users/"@) {
        match (i32_of_str(id_token_of(r)), user_body_of(body_of(r))) {
            (Some(id), Some(p)) => ActionView::RunUpdate {
                id: id as int,
                name: p.0,
                email: p.1,
            },
            _ => ActionView::Respond {
                status: internal_error_header_spec(),
                body: "Internal error"@,
            },
        }
    } else if starts(r, "DELETE /users/"@) {
        match i32_of_str(id_token_of(r)) {
            Some(id) => ActionView::RunDelete { id: id as int },
            None => ActionView::Respond {
                status: internal_error_header_spec(),
                body: "Internal error"@,
            },
        }
    } else {
        ActionView::Respond { status: not_found_header_spec(), body: "404 not found"@ }
    }
}

/// Decides what a request calls for: the store operation to run with its
/// arguments, or the response to send straight away.
pub fn plan(request: &str) -> (a: Action)
    ensures
        a@ == plan_of(request@),
{
    if prefix_check(request, "POST /users") {
        let body = request_body(request);
        match parse_user_fields(body) {
            Some(p) => Action::RunInsert { name: p.0, email: p.1 },
            None => {
                let e = internal_error_pair();
                Action::Respond { status: e.0, body: e.1 }
            },
        }
    } else if prefix_check(request, "GET /users/") {
        match parse_i32(get_id(request)) {
            Some(id) => Action::RunSelectOne { id },
            None => {
                let e = internal_error_pair();
                Action::Respond { status: e.0, body: e.1 }
            },
        }
    } else if prefix_check(request, "GET /users") {
        Action::RunSelectAll
    } else if prefix_check(request, "PUT /users/") {
        let id_opt = parse_i32(get_id(request));
        let body = request_body(request);
        let fields = parse_user_fields(body);
        match (id_opt, fields) {
            (Some(id), Some(p)) => Action::RunUpdate { id, name: p.0, email: p.1 },
            _ => {
                let e = internal_error_pair();
                Action::Respond { status: e.0, body: e.1 }
            },
        }
    } else if prefix_check(request, "DELETE /users/") {
        match parse_i32(get_id(request)) {
            Some(id) => Action::RunDelete { id },
            None => {
                let e = internal_error_pair();
                Action::Respond { status: e.0, body: e.1 }
            },
        }
    } else {
        Action::Respond {
            status: not_found_header(),
            body: "404 not found".to_owned(),
        }
    }
}

/// The response owed for each answer of the store, per operation: a found or
/// inserted row as its JSON, all rows as a JSON array, an affected-row count
/// of zero as not-found for updates and deletes, and every failure as the
/// one internal-error response.
pub open spec fn conclude_of(op: Op, ev: DbEventView) -> (Seq<char>, Seq<char>) {
    match op {
        Op::Insert => match ev {
            DbEventView::InsertedRow(u) => (ok_header_spec(), user_json_spec(u)),
            _ => (internal_error_header_spec(), "Internal error"@),
        },
        Op::SelectOne => match ev {
            DbEventView::FoundRow(u) => (ok_header_spec(), user_json_spec(u)),
            DbEventView::NoRow => (not_found_header_spec(), "User not found"@),
            _ => (internal_error_header_spec(), "Internal error"@),
        },
        Op::SelectAll => match ev {
            DbEventView::AllRows(s) => (ok_header_spec(), users_json_spec(s)),
            _ => (internal_error_header_spec(), "Internal error"@),
        },
        Op::Update => match ev {
            DbEventView::Affected(n) => if n > 0 {
                (ok_header_spec(), "User updated"@)
            } else {
                (not_found_header_spec(), "User not found"@)
            },
            _ => (internal_error_header_spec(), "Internal error"@),
        },
        Op::Delete => match ev {
            DbEventView::Affected(n) => if n == 0 {
                (not_found_header_spec(), "User not found"@)
            } else {
                (ok_header_spec(), "User deleted"@)
            },
            _ => (internal_error_header_spec(), "Internal error"@),
        },
    }
}

/// Builds the response for what the store answered to the given operation.
pub fn conclude(op: Op, event: &DbEvent) -> (r: (String, String))
    ensures
        r.0@ == conclude_of(op, event@).0,
        r.1@ == conclude_of(op, event@).1,
{
    match op {
        Op::Insert => match event {
            DbEvent::InsertedRow(u) => (ok_header(), user_json(u)),
            _ => internal_error_pair(),
        },
        Op::SelectOne => match event {
            DbEvent::FoundRow(u) => (ok_header(), user_json(u)),
            DbEvent::NoRow => (not_found_header(), "User not found".to_owned()),
            _ => internal_error_pair(),
        },
        Op::SelectAll => match event {
            DbEvent::AllRows(users) => (ok_header(), users_json(users)),
            _ => internal_error_pair(),
        },
        Op::Update => match event {
            DbEvent::Affected(n) => if *n > 0 {
                (ok_header(), "User updated".to_owned())
            } else {
                (not_found_header(), "User not found".to_owned())
            },
            _ => internal_error_pair(),
        },
        Op::Delete => match event {
            DbEvent::Affected(n) => if *n == 0 {
                (not_found_header(), "User not found".to_owned())
            } else {
                (ok_header(), "User deleted".to_owned())
            },
            _ => internal_error_pair(),
        },
    }
}

/// A successful create answers with exactly the JSON of the row the store
/// assigned: its id, and the name and email echoed back.
pub proof fn lemma_create_echoes_row(u: UserView)
    ensures
        conclude_of(Op::Insert, DbEventView::InsertedRow(u)) == (
            ok_header_spec(),
            user_json_spec(u),
        ),
{
}

/// An update that touched at least one row reports success, and a read of
/// the row afterwards answers with exactly the JSON of what the row then
/// holds.
pub proof fn lemma_update_success_then_read_back(n: int, u: UserView)
    requires
        n > 0,
    ensures
        conclude_of(Op::Update, DbEventView::Affected(n)) == (
            ok_header_spec(),
            "User updated"@,
        ),
        conclude_of(Op::SelectOne, DbEventView::FoundRow(u)).1 == user_json_spec(u),
{
}

/// A request that matches none of the five routes is answered with the
/// literal not-found response, untouched by anything else in the text.
pub proof fn lemma_unknown_route(r: Seq<char>)
    requires
        !starts(r, "POST /users"@),
        !starts(r, "GET /users/"@),
        !starts(r, "GET /users"@),
        !starts(r, "PUT /users/"@),
        !starts(r, "DELETE /users/"@),
    ensures
        plan_of(r) == (ActionView::Respond {
            status: not_found_header_spec(),
            body: "404 not found"@,
        }),
{
}

/// Every store failure, whatever the operation, collapses to the one
/// internal-error response.
pub proof fn lemma_failure_is_internal_error(op: Op)
    ensures
        conclude_of(op, DbEventView::Failure) == (
            internal_error_header_spec(),
            "Internal error"@,
        ),
{
}

/// Deleting an id that no row carries answers the not-found response, never
/// the internal error, however often it is repeated: the affected-row count
/// of such a delete is zero every time.
pub proof fn lemma_delete_absent_is_not_found()
    ensures
        conclude_of(Op::Delete, DbEventView::Affected(0)) == (
            not_found_header_spec(),
            "User not found"@,
        ),
        conclude_of(Op::Delete, DbEventView::Affected(0)).0 != internal_error_header_spec(),
{
    reveal_strlit("HTTP/1.1 404 NOT FOUND\r\n\r\n");
    reveal_strlit("HTTP/1.1 500 INTERNAL ERROR\r\n\r\n");
    assert(not_found_header_spec().len() != internal_error_header_spec().len());
}

/// Reading back the row a create answered with echoes the same JSON body as
/// the create did.
pub proof fn lemma_read_echoes_create(u: UserView)
    ensures
        conclude_of(Op::SelectOne, DbEventView::FoundRow(u)).1 == conclude_of(
            Op::Insert,
            DbEventView::InsertedRow(u),
        ).1,
{
}

/// Listing an empty table answers the literal empty array.
pub proof fn lemma_empty_listing()
    ensures
        conclude_of(Op::SelectAll, DbEventView::AllRows(Seq::empty())).1 == "[]"@,
{
    reveal_strlit("[");
    reveal_strlit("]");
    reveal_strlit("[]");
    assert(users_json_items(Seq::<UserView>::empty()) == Seq::<char>::empty());
    assert("["@ + Seq::<char>::empty() + "]"@ =~= "[]"@);
}

} // verus!
