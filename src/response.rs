use vstd::prelude::*;
use crate::request::{Request, RequestView};
use crate::user::{User, UserView, users_view};

verus! {

pub const STATUS_OK: u16 = 200;

pub const STATUS_INTERNAL_SERVER_ERROR: u16 = 500;

pub const INSERT_FAILED: &'static str = "Error while inserting a record: ";

pub const DELETE_FAILED: &'static str = "Error while deleting a record: ";

pub const UPDATE_FAILED: &'static str = "Error while updating a record: ";

/// The body of a failed lookup of one user: no row has the id asked for.
/// It is the text of the store's own error for a single-row fetch that
/// finds nothing.
pub const NOT_FOUND: &'static str =
    "no rows returned by a query that expected to return at least one row";

/// What a response carries: nothing, plain text, or users to send as JSON.
#[derive(Debug, PartialEq, Eq)]
pub enum Body {
    Empty,
    Text(String),
    One(User),
    Many(Vec<User>),
}

pub enum BodyView {
    Empty,
    Text(Seq<char>),
    One(UserView),
    Many(Seq<UserView>),
}

impl View for Body {
    type V = BodyView;

    open spec fn view(&self) -> BodyView {
        match self {
            Body::Empty => BodyView::Empty,
            Body::Text(t) => BodyView::Text(t@),
            Body::One(u) => BodyView::One(u@),
            Body::Many(us) => BodyView::Many(users_view(us@)),
        }
    }
}

/// An HTTP status code and a body.
#[derive(Debug, PartialEq, Eq)]
pub struct Response {
    pub status: u16,
    pub body: Body,
}

pub struct ResponseView {
    pub status: u16,
    pub body: BodyView,
}

impl View for Response {
    type V = ResponseView;

    open spec fn view(&self) -> ResponseView {
        ResponseView { status: self.status, body: self.body@ }
    }
}

/// What the store handed back for a statement: the rows it returned (none
/// for a statement that only writes), or the text of its error.
pub open spec fn outcome_view(r: Result<Vec<User>, String>) -> Result<Seq<UserView>, Seq<char>> {
    match r {
        Ok(rows) => Ok(users_view(rows@)),
        Err(e) => Err(e@),
    }
}

/// The text put before a store error in the body of a failed request: none
/// for a read, which sends the error's text alone.
pub open spec fn failure_prefix(r: RequestView) -> Seq<char> {
    match r {
        RequestView::RetrieveAll => Seq::empty(),
        RequestView::RetrieveById(_) => Seq::empty(),
        RequestView::Create(_) => INSERT_FAILED@,
        RequestView::DeleteById(_) => DELETE_FAILED@,
        RequestView::UpdateById(_, _) => UPDATE_FAILED@,
    }
}

/// The response to a request, given what the store did with its statement.
/// A store error gives status 500 with the error's text; a lookup of one user
/// that finds no row is such a failure too. Otherwise the status is 200, with
/// the users read as the body, or no body for a write.
pub open spec fn response_for(r: RequestView, outcome: Result<Seq<UserView>, Seq<char>>) -> ResponseView {
    match outcome {
        Err(e) => ResponseView {
            status: STATUS_INTERNAL_SERVER_ERROR,
            body: BodyView::Text(failure_prefix(r) + e),
        },
        Ok(rows) => match r {
            RequestView::RetrieveAll => ResponseView { status: STATUS_OK, body: BodyView::Many(rows) },
            RequestView::RetrieveById(_) => if rows.len() > 0 {
                ResponseView { status: STATUS_OK, body: BodyView::One(rows[0]) }
            } else {
                ResponseView {
                    status: STATUS_INTERNAL_SERVER_ERROR,
                    body: BodyView::Text(NOT_FOUND@),
                }
            },
            _ => ResponseView { status: STATUS_OK, body: BodyView::Empty },
        },
    }
}

impl Request {
    fn failure_prefix(&self) -> (p: &'static str)
        ensures
            p@ == failure_prefix(self@),
    {
        proof {
            reveal_strlit("");
        }
        match self {
            Request::RetrieveAll => "",
            Request::RetrieveById(_) => "",
            Request::Create(_) => INSERT_FAILED,
            Request::DeleteById(_) => DELETE_FAILED,
            Request::UpdateById(_, _) => UPDATE_FAILED,
        }
    }

    /// The response to this request, given the rows that its statement
    /// returned or the store's error.
    pub fn respond(&self, outcome: Result<Vec<User>, String>) -> (resp: Response)
        ensures
            resp@ == response_for(self@, outcome_view(outcome)),
    {
        match outcome {
            Err(e) => {
                let text = String::from_str(self.failure_prefix()).concat(e.as_str());
                Response { status: STATUS_INTERNAL_SERVER_ERROR, body: Body::Text(text) }
            },
            Ok(rows) => match self {
                Request::RetrieveAll => Response { status: STATUS_OK, body: Body::Many(rows) },
                Request::RetrieveById(_) => {
                    let mut rows = rows;
                    if rows.len() > 0 {
                        let user = rows.remove(0);
                        Response { status: STATUS_OK, body: Body::One(user) }
                    } else {
                        Response {
                            status: STATUS_INTERNAL_SERVER_ERROR,
                            body: Body::Text(String::from_str(NOT_FOUND)),
                        }
                    }
                },
                _ => Response { status: STATUS_OK, body: Body::Empty },
            },
        }
    }
}

} // verus!
