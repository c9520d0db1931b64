use vstd::prelude::*;
use crate::request::{
    DELETE_SQL, GET_SQL, INSERT_SQL, LIST_SQL, ParamView, StatementView, UPDATE_SQL,
};
use crate::user::UserView;

verus! {

/// The stored columns of one row, apart from its id.
pub struct Row {
    pub name: Seq<char>,
    pub age: i32,
}

/// The `users` table, by id.
pub type Table = Map<i32, Row>;

/// The user stored under `id`.
pub open spec fn user_at(t: Table, id: i32) -> UserView {
    UserView { id, name: t[id].name, age: t[id].age }
}

/// Every user that the table holds.
pub open spec fn users_of(t: Table) -> Set<UserView> {
    Set::new(|u: UserView| t.contains_key(u.id) && u == user_at(t, u.id))
}

pub open spec fn text_arg(p: ParamView) -> Option<Seq<char>> {
    match p {
        ParamView::Text(v) => v,
        ParamView::Int(_) => None,
    }
}

pub open spec fn int_arg(p: ParamView) -> Option<i32> {
    match p {
        ParamView::Int(v) => v,
        ParamView::Text(_) => None,
    }
}

/// `Some(a)` where present, else the value that was there.
pub open spec fn present_or<A>(v: Option<A>, current: A) -> A {
    match v {
        Some(a) => a,
        None => current,
    }
}

/// What a statement that succeeded did to the table; `fresh` is the id that
/// the store assigns to an inserted row, one that no row has. An insert
/// never replaces a row: with an id already in use, the table stays as it was.
pub open spec fn table_after(s: StatementView, t: Table, fresh: i32) -> Table {
    if s.sql == INSERT_SQL@ && s.params.len() == 2 && !t.contains_key(fresh) && text_arg(s.params[0]) is Some
        && int_arg(s.params[1]) is Some {
        t.insert(
            fresh,
            Row { name: text_arg(s.params[0])->0, age: int_arg(s.params[1])->0 },
        )
    } else if s.sql == DELETE_SQL@ && s.params.len() == 1 && int_arg(s.params[0]) is Some {
        t.remove(int_arg(s.params[0])->0)
    } else if s.sql == UPDATE_SQL@ && s.params.len() == 3 && s.params[0] is Text
        && s.params[1] is Int && int_arg(s.params[2]) is Some {
        let id = int_arg(s.params[2])->0;
        if t.contains_key(id) {
            t.insert(
                id,
                Row {
                    name: present_or(text_arg(s.params[0]), t[id].name),
                    age: present_or(int_arg(s.params[1]), t[id].age),
                },
            )
        } else {
            t
        }
    } else {
        t
    }
}

/// Whether `rows` is what a statement that succeeded on the table returned:
/// every user once, in any order, for the full select; the matching row, if
/// any, for the select by id; nothing for a write.
pub open spec fn rows_returned(s: StatementView, t: Table, rows: Seq<UserView>) -> bool {
    if s.sql == LIST_SQL@ {
        rows.no_duplicates() && rows.to_set() == users_of(t)
    } else if s.sql == GET_SQL@ && s.params.len() == 1 && int_arg(s.params[0]) is Some {
        let id = int_arg(s.params[0])->0;
        rows == if t.contains_key(id) {
            seq![user_at(t, id)]
        } else {
            Seq::<UserView>::empty()
        }
    } else {
        rows.len() == 0
    }
}

pub(crate) proof fn lemma_texts_distinct()
    ensures
        LIST_SQL@ != GET_SQL@,
        LIST_SQL@ != INSERT_SQL@,
        LIST_SQL@ != DELETE_SQL@,
        LIST_SQL@ != UPDATE_SQL@,
        GET_SQL@ != INSERT_SQL@,
        GET_SQL@ != DELETE_SQL@,
        GET_SQL@ != UPDATE_SQL@,
        INSERT_SQL@ != DELETE_SQL@,
        INSERT_SQL@ != UPDATE_SQL@,
        DELETE_SQL@ != UPDATE_SQL@,
{
    reveal_strlit("SELECT id, name, age FROM users");
    reveal_strlit("SELECT id, name, age FROM users WHERE id = $1");
    reveal_strlit("INSERT INTO users (name, age) VALUES ($1, $2)");
    reveal_strlit("DELETE FROM users WHERE id = $1");
    reveal_strlit("UPDATE users SET name = COALESCE($1, name), age = COALESCE($2, age) WHERE id = $3");
    assert(LIST_SQL@.len() != GET_SQL@.len());
    assert(LIST_SQL@[0] != DELETE_SQL@[0]);
    assert(LIST_SQL@[0] != INSERT_SQL@[0]);
    assert(LIST_SQL@[0] != UPDATE_SQL@[0]);
    assert(GET_SQL@[0] != INSERT_SQL@[0]);
    assert(GET_SQL@[0] != DELETE_SQL@[0]);
    assert(GET_SQL@[0] != UPDATE_SQL@[0]);
    assert(INSERT_SQL@[0] != DELETE_SQL@[0]);
    assert(INSERT_SQL@[0] != UPDATE_SQL@[0]);
    assert(DELETE_SQL@[0] != UPDATE_SQL@[0]);
}

} // verus!
