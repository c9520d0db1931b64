use vstd::prelude::*;
use crate::request::{
    DELETE_SQL, GET_SQL, INSERT_SQL, LIST_SQL, RequestView, UPDATE_SQL, statement_for,
};
use crate::response::{
    BodyView, NOT_FOUND, ResponseView, STATUS_INTERNAL_SERVER_ERROR, STATUS_OK, failure_prefix,
    response_for,
};
use crate::store::{Table, lemma_texts_distinct, rows_returned, table_after, users_of};
use crate::user::{SubmissionView, UpdateView, UserView};

verus! {

/// A user created from a submission, and then looked up by the id that the
/// store assigned, is found with exactly the submitted name and age.
pub proof fn law_created_user_is_found(
    t: Table,
    sub: SubmissionView,
    fresh: i32,
    rows: Seq<UserView>,
)
    requires
        !t.contains_key(fresh),
        rows_returned(
            statement_for(RequestView::RetrieveById(fresh)),
            table_after(statement_for(RequestView::Create(sub)), t, fresh),
            rows,
        ),
    ensures
        response_for(RequestView::RetrieveById(fresh), Ok(rows)) == (ResponseView {
            status: STATUS_OK,
            body: BodyView::One(UserView { id: fresh, name: sub.name, age: sub.age }),
        }),
{
    lemma_texts_distinct();
}

/// An update changes, on the row with its id, exactly the fields that are
/// present in it: an absent name leaves the name, an absent age the age.
/// Other rows stay as they were, and no row comes or goes.
pub proof fn law_update_changes_present_fields_only(
    t: Table,
    id: i32,
    upd: UpdateView,
    fresh: i32,
)
    ensures
        ({
            let after = table_after(statement_for(RequestView::UpdateById(id, upd)), t, fresh);
            &&& after.dom() == t.dom()
            &&& forall|k: i32| t.contains_key(k) && k != id ==> after[k] == t[k]
            &&& t.contains_key(id) ==> {
                &&& upd.name matches Some(n) ==> after[id].name == n
                &&& upd.name is None ==> after[id].name == t[id].name
                &&& upd.age matches Some(a) ==> after[id].age == a
                &&& upd.age is None ==> after[id].age == t[id].age
            }
        }),
{
    lemma_texts_distinct();
    let after = table_after(statement_for(RequestView::UpdateById(id, upd)), t, fresh);
    assert(after.dom() =~= t.dom());
}

/// A user deleted by id, and then looked up by that id, is not found: the
/// lookup fails with status 500, never returning the deleted user.
pub proof fn law_deleted_user_is_not_found(t: Table, id: i32, fresh: i32, rows: Seq<UserView>)
    requires
        rows_returned(
            statement_for(RequestView::RetrieveById(id)),
            table_after(statement_for(RequestView::DeleteById(id)), t, fresh),
            rows,
        ),
    ensures
        response_for(RequestView::RetrieveById(id), Ok(rows)) == (ResponseView {
            status: STATUS_INTERNAL_SERVER_ERROR,
            body: BodyView::Text(NOT_FOUND@),
        }),
{
    lemma_texts_distinct();
}

/// Listing answers 200 with every user that the table holds and no other.
pub proof fn law_list_is_the_whole_table(t: Table, rows: Seq<UserView>)
    requires
        rows_returned(statement_for(RequestView::RetrieveAll), t, rows),
    ensures
        response_for(RequestView::RetrieveAll, Ok(rows)) == (ResponseView {
            status: STATUS_OK,
            body: BodyView::Many(rows),
        }),
        rows.to_set() == users_of(t),
{
}

/// A store error on any request answers 500 with a text that ends with the
/// error's own text: exactly that text for a read, and that text after a
/// non-empty prefix naming the operation for a write. So the body is never
/// empty where the error has text, nor ever for a write.
pub proof fn law_store_failure_is_internal_error(r: RequestView, e: Seq<char>)
    ensures
        response_for(r, Err(e)).status == STATUS_INTERNAL_SERVER_ERROR,
        response_for(r, Err(e)).body matches BodyView::Text(text) && text.len() >= e.len()
            && text.subrange(text.len() - e.len(), text.len() as int) == e,
        (r is RetrieveAll || r is RetrieveById) ==> response_for(r, Err(e)).body == BodyView::Text(e),
        (e.len() > 0 || !(r is RetrieveAll || r is RetrieveById)) ==> (response_for(r, Err(e)).body matches BodyView::Text(text) && text.len() > 0),
{
    reveal_strlit("Error while inserting a record: ");
    reveal_strlit("Error while deleting a record: ");
    reveal_strlit("Error while updating a record: ");
    let p = failure_prefix(r);
    assert(!(r is RetrieveAll || r is RetrieveById) ==> p.len() > 0);
    assert((p + e).subrange(p.len() as int, (p + e).len() as int) =~= e);
    assert((r is RetrieveAll || r is RetrieveById) ==> p + e =~= e);
}

/// Values never reach the text of a statement: it is one of five fixed
/// texts, chosen by the kind of request alone, and every value is a parameter.
pub proof fn law_text_is_fixed_by_operation(r: RequestView)
    ensures
        statement_for(r).sql == match r {
            RequestView::RetrieveAll => LIST_SQL@,
            RequestView::RetrieveById(_) => GET_SQL@,
            RequestView::Create(_) => INSERT_SQL@,
            RequestView::DeleteById(_) => DELETE_SQL@,
            RequestView::UpdateById(_, _) => UPDATE_SQL@,
        },
{
}

} // verus!
