use vstd::prelude::*;
use crate::user::{SubmissionView, UpdateRecord, UpdateView, UserSubmission, opt_text_view};

verus! {

/// Selects every row.
pub const LIST_SQL: &'static str = "SELECT id, name, age FROM users";

/// Selects the row whose id is `$1`.
pub const GET_SQL: &'static str = "SELECT id, name, age FROM users WHERE id = $1";

/// Inserts a row with name `$1` and age `$2`; the store assigns the id.
pub const INSERT_SQL: &'static str = "INSERT INTO users (name, age) VALUES ($1, $2)";

/// Deletes the row whose id is `$1`, if there is one.
pub const DELETE_SQL: &'static str = "DELETE FROM users WHERE id = $1";

/// Sets, on the row whose id is `$3`, the name to `$1` and the age to `$2`,
/// each only where that parameter is not NULL.
pub const UPDATE_SQL: &'static str =
    "UPDATE users SET name = COALESCE($1, name), age = COALESCE($2, age) WHERE id = $3";

/// A positional parameter of a statement; `None` binds SQL NULL of that type.
#[derive(Debug, PartialEq, Eq)]
pub enum Param {
    Int(Option<i32>),
    Text(Option<String>),
}

pub enum ParamView {
    Int(Option<i32>),
    Text(Option<Seq<char>>),
}

impl View for Param {
    type V = ParamView;

    open spec fn view(&self) -> ParamView {
        match self {
            Param::Int(v) => ParamView::Int(*v),
            Param::Text(t) => ParamView::Text(opt_text_view(*t)),
        }
    }
}

/// One SQL statement: fixed text, with every value bound by position.
#[derive(Debug, PartialEq, Eq)]
pub struct Statement {
    pub sql: String,
    pub params: Vec<Param>,
}

pub struct StatementView {
    pub sql: Seq<char>,
    pub params: Seq<ParamView>,
}

impl View for Statement {
    type V = StatementView;

    open spec fn view(&self) -> StatementView {
        StatementView { sql: self.sql@, params: self.params@.map_values(|p: Param| p@) }
    }
}

/// An operation on the users resource, with the inputs it was given.
#[derive(Debug, PartialEq, Eq)]
pub enum Request {
    RetrieveAll,
    RetrieveById(i32),
    Create(UserSubmission),
    DeleteById(i32),
    UpdateById(i32, UpdateRecord),
}

pub enum RequestView {
    RetrieveAll,
    RetrieveById(i32),
    Create(SubmissionView),
    DeleteById(i32),
    UpdateById(i32, UpdateView),
}

impl View for Request {
    type V = RequestView;

    open spec fn view(&self) -> RequestView {
        match self {
            Request::RetrieveAll => RequestView::RetrieveAll,
            Request::RetrieveById(id) => RequestView::RetrieveById(*id),
            Request::Create(s) => RequestView::Create(s@),
            Request::DeleteById(id) => RequestView::DeleteById(*id),
            Request::UpdateById(id, u) => RequestView::UpdateById(*id, u@),
        }
    }
}

/// The statement that carries out a request: one fixed text per operation,
/// and the request's values as its parameters, in order.
pub open spec fn statement_for(r: RequestView) -> StatementView {
    match r {
        RequestView::RetrieveAll => StatementView { sql: LIST_SQL@, params: seq![] },
        RequestView::RetrieveById(id) => StatementView {
            sql: GET_SQL@,
            params: seq![ParamView::Int(Some(id))],
        },
        RequestView::Create(s) => StatementView {
            sql: INSERT_SQL@,
            params: seq![ParamView::Text(Some(s.name)), ParamView::Int(Some(s.age))],
        },
        RequestView::DeleteById(id) => StatementView {
            sql: DELETE_SQL@,
            params: seq![ParamView::Int(Some(id))],
        },
        RequestView::UpdateById(id, u) => StatementView {
            sql: UPDATE_SQL@,
            params: seq![ParamView::Text(u.name), ParamView::Int(u.age), ParamView::Int(Some(id))],
        },
    }
}

fn text_param(t: &Option<String>) -> (p: Param)
    ensures
        p@ == ParamView::Text(opt_text_view(*t)),
{
    match t {
        Some(s) => Param::Text(Some(s.clone())),
        None => Param::Text(None),
    }
}

impl Request {
    /// The SQL statement for this request.
    pub fn statement(&self) -> (s: Statement)
        ensures
            s@ == statement_for(self@),
    {
        let mut params: Vec<Param> = Vec::new();
        let sql: &str;
        match self {
            Request::RetrieveAll => {
                sql = LIST_SQL;
            },
            Request::RetrieveById(id) => {
                sql = GET_SQL;
                params.push(Param::Int(Some(*id)));
            },
            Request::Create(sub) => {
                sql = INSERT_SQL;
                params.push(Param::Text(Some(sub.name.clone())));
                params.push(Param::Int(Some(sub.age)));
            },
            Request::DeleteById(id) => {
                sql = DELETE_SQL;
                params.push(Param::Int(Some(*id)));
            },
            Request::UpdateById(id, upd) => {
                sql = UPDATE_SQL;
                params.push(text_param(&upd.name));
                params.push(Param::Int(upd.age));
                params.push(Param::Int(Some(*id)));
            },
        }
        let s = Statement { sql: String::from_str(sql), params };
        assert(s@.params =~= statement_for(self@).params);
        s
    }
}

} // verus!
