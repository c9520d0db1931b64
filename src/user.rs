use vstd::prelude::*;

verus! {

/// A persisted row of the `users` table.
#[derive(Debug, PartialEq, Eq)]
pub struct User {
    pub id: i32,
    pub name: String,
    pub age: i32,
}

/// The mathematical value of a [`User`].
pub struct UserView {
    pub id: i32,
    pub name: Seq<char>,
    pub age: i32,
}

impl View for User {
    type V = UserView;

    open spec fn view(&self) -> UserView {
        UserView { id: self.id, name: self.name@, age: self.age }
    }
}

/// The body of a request that creates a user: both fields are required.
#[derive(Debug, PartialEq, Eq)]
pub struct UserSubmission {
    pub name: String,
    pub age: i32,
}

pub struct SubmissionView {
    pub name: Seq<char>,
    pub age: i32,
}

impl View for UserSubmission {
    type V = SubmissionView;

    open spec fn view(&self) -> SubmissionView {
        SubmissionView { name: self.name@, age: self.age }
    }
}

/// The body of a request that updates a user. Each field is either present,
/// and then replaces the stored value, or absent, and then leaves it as it is.
#[derive(Debug, PartialEq, Eq)]
pub struct UpdateRecord {
    pub name: Option<String>,
    pub age: Option<i32>,
}

pub struct UpdateView {
    pub name: Option<Seq<char>>,
    pub age: Option<i32>,
}

pub open spec fn opt_text_view(t: Option<String>) -> Option<Seq<char>> {
    match t {
        Some(s) => Some(s@),
        None => None,
    }
}

impl View for UpdateRecord {
    type V = UpdateView;

    open spec fn view(&self) -> UpdateView {
        UpdateView { name: opt_text_view(self.name), age: self.age }
    }
}

/// The views of a sequence of users, element by element.
pub open spec fn users_view(users: Seq<User>) -> Seq<UserView> {
    users.map_values(|u: User| u@)
}

} // verus!
