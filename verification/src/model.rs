//! The user record and the values that pass between the request pipeline and
//! the store: the action a request calls for, and the event the store answers
//! with.

use vstd::prelude::*;

verus! {

/// A persisted user row: server-assigned id, name, and email.
#[derive(Debug, PartialEq)]
pub struct User {
    pub id: i32,
    pub name: String,
    pub email: String,
}

/// The mathematical view of a user row.
pub struct UserView {
    pub id: int,
    pub name: Seq<char>,
    pub email: Seq<char>,
}

impl View for User {
    type V = UserView;

    open spec fn view(&self) -> UserView {
        UserView { id: self.id as int, name: self.name@, email: self.email@ }
    }
}

impl DeepView for User {
    type V = UserView;

    open spec fn deep_view(&self) -> UserView {
        self.view()
    }
}

/// The five store operations, one per route.
#[derive(Clone, Copy, Debug, PartialEq, Eq, Structural)]
pub enum Op {
    Insert,
    SelectOne,
    SelectAll,
    Update,
    Delete,
}

/// What a request asks the caller to do next: run one store operation with
/// the given arguments, or send a response straight away.
#[derive(Debug, PartialEq)]
pub enum Action {
    RunInsert { name: String, email: String },
    RunSelectOne { id: i32 },
    RunSelectAll,
    RunUpdate { id: i32, name: String, email: String },
    RunDelete { id: i32 },
    Respond { status: String, body: String },
}

/// The mathematical view of an `Action`.
pub enum ActionView {
    RunInsert { name: Seq<char>, email: Seq<char> },
    RunSelectOne { id: int },
    RunSelectAll,
    RunUpdate { id: int, name: Seq<char>, email: Seq<char> },
    RunDelete { id: int },
    Respond { status: Seq<char>, body: Seq<char> },
}

impl View for Action {
    type V = ActionView;

    open spec fn view(&self) -> ActionView {
        match self {
            Action::RunInsert { name, email } => ActionView::RunInsert {
                name: name@,
                email: email@,
            },
            Action::RunSelectOne { id } => ActionView::RunSelectOne { id: *id as int },
            Action::RunSelectAll => ActionView::RunSelectAll,
            Action::RunUpdate { id, name, email } => ActionView::RunUpdate {
                id: *id as int,
                name: name@,
                email: email@,
            },
            Action::RunDelete { id } => ActionView::RunDelete { id: *id as int },
            Action::Respond { status, body } => ActionView::Respond {
                status: status@,
                body: body@,
            },
        }
    }
}

/// What the store answered: the row an insert returned, the row a lookup
/// found or did not, all rows, the affected-row count of an update or
/// delete, or a connection or query failure.
#[derive(Debug, PartialEq)]
pub enum DbEvent {
    InsertedRow(User),
    FoundRow(User),
    NoRow,
    AllRows(Vec<User>),
    Affected(u64),
    Failure,
}

/// The mathematical view of a `DbEvent`.
pub enum DbEventView {
    InsertedRow(UserView),
    FoundRow(UserView),
    NoRow,
    AllRows(Seq<UserView>),
    Affected(int),
    Failure,
}

impl View for DbEvent {
    type V = DbEventView;

    open spec fn view(&self) -> DbEventView {
        match self {
            DbEvent::InsertedRow(u) => DbEventView::InsertedRow(u@),
            DbEvent::FoundRow(u) => DbEventView::FoundRow(u@),
            DbEvent::NoRow => DbEventView::NoRow,
            DbEvent::AllRows(v) => DbEventView::AllRows(v.deep_view()),
            DbEvent::Affected(n) => DbEventView::Affected(*n as int),
            DbEvent::Failure => DbEventView::Failure,
        }
    }
}

} // verus!
