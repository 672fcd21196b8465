//! The relational store against a database that does what it is asked: a
//! model of the table of users, and the proof that every operation, run to
//! its end against that table, decides as the model of a collection of users
//! says.
//!
//! A table has no order of its own; the model keeps its rows in a sequence
//! and appends what is inserted or rewritten.

use vstd::prelude::*;
use crate::create_user::CreateUserView;
use crate::error::ErrorView;
use crate::model::{
    created_record, email_held_by_other, emails_distinct, find_by_email, find_by_id,
    lemma_find_by_email_none, lemma_find_by_email_some, lemma_find_by_id_none,
    lemma_find_by_id_some, without_id,
};
use crate::relational::{
    conflict_on_create, conflict_on_update, create_user_plan, delete_user_plan,
    duplicate_on_create, get_all_plan, get_user_by_email_plan, get_user_plan,
    not_found_by_email, not_found_by_id, not_found_on_delete, not_found_on_update,
    update_user_plan, Plan, ReplyView, StatementView,
};
use crate::user::UserView;

verus! {

/// One row or none, as the rows of a reply.
pub open spec fn rows_of(found: Option<UserView>) -> Seq<UserView> {
    match found {
        Some(row) => seq![row],
        None => Seq::empty(),
    }
}

/// The row that an update statement leaves in place of `prev`: name, address,
/// payload and moment of update are set, everything else stays.
pub open spec fn rewritten_row(
    prev: UserView,
    name: Seq<char>,
    email: Seq<char>,
    custom_data: crate::user::CustomData,
    updated_at: i64,
) -> UserView {
    UserView { name, email, custom_data, updated_at: Some(updated_at), ..prev }
}

/// What a table with a unique id and a unique address per row answers to a
/// statement, and the table after it.
pub open spec fn answer(table: Seq<UserView>, statement: StatementView) -> (
    ReplyView,
    Seq<UserView>,
) {
    match statement {
        StatementView::SelectAll => (ReplyView::Rows(table), table),
        StatementView::SelectById { id } => (
            ReplyView::Rows(rows_of(find_by_id(table, id))),
            table,
        ),
        StatementView::SelectByEmail { email } => (
            ReplyView::Rows(rows_of(find_by_email(table, email))),
            table,
        ),
        StatementView::Insert { id, name, email, birth_date, custom_data, created_at } => {
            if find_by_email(table, email) is Some || find_by_id(table, id) is Some {
                (ReplyView::Duplicate, table)
            } else {
                let row = UserView {
                    id,
                    email,
                    name,
                    birth_date,
                    custom_data,
                    created_at: Some(created_at),
                    updated_at: None,
                };
                (ReplyView::Rows(seq![row]), table.push(row))
            }
        },
        StatementView::Update { id, name, email, custom_data, updated_at } => {
            if email_held_by_other(table, email, id) {
                (ReplyView::Duplicate, table)
            } else {
                match find_by_id(table, id) {
                    Some(prev) => {
                        let row = rewritten_row(prev, name, email, custom_data, updated_at);
                        (ReplyView::Rows(seq![row]), without_id(table, id).push(row))
                    },
                    None => (ReplyView::Rows(Seq::empty()), table),
                }
            }
        },
        StatementView::Delete { id } => (
            ReplyView::Rows(rows_of(find_by_id(table, id))),
            without_id(table, id),
        ),
    }
}

/// Runs an operation against a table: as long as it asks for a statement,
/// and for at most `fuel` statements, the table answers and the reply is
/// added to those received. Gives the last step and the table after it.
pub open spec fn execute<V>(
    plan: spec_fn(Seq<ReplyView>) -> Plan<V>,
    table: Seq<UserView>,
    replies: Seq<ReplyView>,
    fuel: nat,
) -> (Plan<V>, Seq<UserView>)
    decreases fuel,
{
    match plan(replies) {
        Plan::Run(statement) => if fuel == 0 {
            (Plan::Run(statement), table)
        } else {
            let (reply, after) = answer(table, statement);
            execute(plan, after, replies.push(reply), (fuel - 1) as nat)
        },
        last => (last, table),
    }
}

/// Removing an id that no row has leaves the table as it is.
pub proof fn lemma_without_absent_id(table: Seq<UserView>, id: u128)
    requires
        find_by_id(table, id) is None,
    ensures
        without_id(table, id) == table,
    decreases table.len(),
{
    reveal(Seq::filter);
    lemma_find_by_id_none(table, id);
    if table.len() > 0 {
        let t = table.drop_last();
        assert forall|j: int| 0 <= j < t.len() implies (#[trigger] t[j]).id != id by {
            assert(t[j] == table[j]);
        }
        lemma_find_by_id_none(t, id);
        lemma_without_absent_id(t, id);
        assert(table.last().id != id);
        assert(t.push(table.last()) == table);
    }
}

/// Where addresses are distinct, another row holds an address exactly when
/// the row found under the address has another id.
pub proof fn lemma_held_by_other(table: Seq<UserView>, email: Seq<char>, id: u128)
    requires
        emails_distinct(table),
    ensures
        email_held_by_other(table, email, id) <==> (find_by_email(table, email) matches Some(row)
            && row.id != id),
{
    lemma_find_by_email_none(table, email);
    if find_by_email(table, email) is Some {
        let k = lemma_find_by_email_some(table, email);
        if email_held_by_other(table, email, id) {
            let i = choose|i: int|
                0 <= i < table.len() && #[trigger] table[i].email == email && table[i].id != id;
            if i < k {
                assert(table[i].email != table[k].email);
            } else if k < i {
                assert(table[k].email != table[i].email);
            }
        } else if table[k].id != id {
            assert(table[k].email == email && table[k].id != id);
        }
    }
}

/// Listing all users runs to its end in one statement and returns the rows
/// of the table, which stays as it is.
pub proof fn law_get_all_against_table(table: Seq<UserView>)
    ensures
        execute(|replies: Seq<ReplyView>| get_all_plan(replies), table, Seq::empty(), 1) == (
            Plan::Return(Ok::<Seq<UserView>, ErrorView>(table)),
            table,
        ),
{
    let plan = |replies: Seq<ReplyView>| get_all_plan(replies);
    reveal_with_fuel(execute, 2);
    let first = Seq::<ReplyView>::empty();
    assert(plan(first) == Plan::<Seq<UserView>>::Run(StatementView::SelectAll));
    let second = first.push(ReplyView::Rows(table));
    assert(second[0] == ReplyView::Rows(table));
}

/// A lookup by id runs to its end in one statement: the first row with the
/// id, or not found.
pub proof fn law_get_user_against_table(table: Seq<UserView>, id: u128)
    ensures
        execute(|replies: Seq<ReplyView>| get_user_plan(id, replies), table, Seq::empty(), 1) == (
            Plan::Return(
                match find_by_id(table, id) {
                    Some(row) => Ok(row),
                    None => Err(not_found_by_id()),
                },
            ),
            table,
        ),
{
    let plan = |replies: Seq<ReplyView>| get_user_plan(id, replies);
    reveal_with_fuel(execute, 2);
    let first = Seq::<ReplyView>::empty();
    assert(plan(first) == Plan::<UserView>::Run(StatementView::SelectById { id }));
    let reply = ReplyView::Rows(rows_of(find_by_id(table, id)));
    assert(first.push(reply)[0] == reply);
}

/// A lookup by address runs to its end in one statement: the first row with
/// the address, or not found.
pub proof fn law_get_user_by_email_against_table(table: Seq<UserView>, email: Seq<char>)
    ensures
        execute(
            |replies: Seq<ReplyView>| get_user_by_email_plan(email, replies),
            table,
            Seq::empty(),
            1,
        ) == (
            Plan::Return(
                match find_by_email(table, email) {
                    Some(row) => Ok(row),
                    None => Err(not_found_by_email()),
                },
            ),
            table,
        ),
{
    let plan = |replies: Seq<ReplyView>| get_user_by_email_plan(email, replies);
    reveal_with_fuel(execute, 2);
    let first = Seq::<ReplyView>::empty();
    assert(plan(first) == Plan::<UserView>::Run(StatementView::SelectByEmail { email }));
    let reply = ReplyView::Rows(rows_of(find_by_email(table, email)));
    assert(first.push(reply)[0] == reply);
}

/// A creation runs to its end in at most two statements. An address in use
/// is a conflict, and so is an id in use; otherwise the new record is
/// returned and is the one row that the table gains.
pub proof fn law_create_against_table(table: Seq<UserView>, c: CreateUserView, id: u128, now: i64)
    ensures
        execute(
            |replies: Seq<ReplyView>| create_user_plan(c, id, now, replies),
            table,
            Seq::empty(),
            2,
        ) == if find_by_email(table, c.email) is Some {
            (Plan::Return(Err(conflict_on_create())), table)
        } else if find_by_id(table, id) is Some {
            (Plan::Return(Err(duplicate_on_create())), table)
        } else {
            (Plan::Return(Ok(created_record(c, id, now))), table.push(created_record(c, id, now)))
        },
{
    let plan = |replies: Seq<ReplyView>| create_user_plan(c, id, now, replies);
    reveal_with_fuel(execute, 3);
    let first = Seq::<ReplyView>::empty();
    assert(plan(first) == Plan::<UserView>::Run(StatementView::SelectByEmail { email: c.email }));
    let looked = ReplyView::Rows(rows_of(find_by_email(table, c.email)));
    let second = first.push(looked);
    assert(second[0] == looked);
    if find_by_email(table, c.email) is None {
        let (inserted, after) = answer(table, crate::relational::insert_of(c, id, now));
        let third = second.push(inserted);
        assert(third[0] == looked && third[1] == inserted);
        assert(third.len() == 2);
    }
}

/// An update runs to its end in at most three statements. An id that no row
/// has is not found; an address that another row holds is a conflict;
/// otherwise the row is rewritten, keeping its moment of creation and its
/// date of birth, and returned.
pub proof fn law_update_against_table(table: Seq<UserView>, user: UserView, now: i64)
    requires
        emails_distinct(table),
    ensures
        execute(
            |replies: Seq<ReplyView>| update_user_plan(user, now, replies),
            table,
            Seq::empty(),
            3,
        ) == match find_by_id(table, user.id) {
            None => (Plan::Return(Err(not_found_on_update())), table),
            Some(prev) => if email_held_by_other(table, user.email, user.id) {
                (Plan::Return(Err(conflict_on_update())), table)
            } else {
                (
                    Plan::Return(
                        Ok(rewritten_row(prev, user.name, user.email, user.custom_data, now)),
                    ),
                    without_id(table, user.id).push(
                        rewritten_row(prev, user.name, user.email, user.custom_data, now),
                    ),
                )
            },
        },
{
    let plan = |replies: Seq<ReplyView>| update_user_plan(user, now, replies);
    reveal_with_fuel(execute, 4);
    lemma_held_by_other(table, user.email, user.id);
    let first = Seq::<ReplyView>::empty();
    assert(plan(first) == Plan::<UserView>::Run(StatementView::SelectById { id: user.id }));
    let by_id = ReplyView::Rows(rows_of(find_by_id(table, user.id)));
    let second = first.push(by_id);
    assert(second[0] == by_id);
    if find_by_id(table, user.id) is Some {
        let by_email = ReplyView::Rows(rows_of(find_by_email(table, user.email)));
        let third = second.push(by_email);
        assert(third[0] == by_id && third[1] == by_email);
        assert(third.len() == 2);
        if !email_held_by_other(table, user.email, user.id) {
            let (written, after) = answer(table, crate::relational::update_of(user, now));
            let fourth = third.push(written);
            assert(fourth[0] == by_id && fourth[1] == by_email && fourth[2] == written);
            assert(fourth.len() == 3);
        }
    }
}

/// A deletion runs to its end in one statement. Where a row has the id, the
/// id is returned and no row has it afterwards; where none has, the answer
/// is not found and the table stays as it is.
pub proof fn law_delete_against_table(table: Seq<UserView>, id: u128)
    ensures
        execute(|replies: Seq<ReplyView>| delete_user_plan(id, replies), table, Seq::empty(), 1)
            == if find_by_id(table, id) is Some {
            (Plan::Return(Ok(id)), without_id(table, id))
        } else {
            (Plan::Return(Err(not_found_on_delete())), table)
        },
{
    let plan = |replies: Seq<ReplyView>| delete_user_plan(id, replies);
    reveal_with_fuel(execute, 2);
    let first = Seq::<ReplyView>::empty();
    assert(plan(first) == Plan::<u128>::Run(StatementView::Delete { id }));
    let reply = ReplyView::Rows(rows_of(find_by_id(table, id)));
    assert(first.push(reply)[0] == reply);
    if find_by_id(table, id) is Some {
        let k = lemma_find_by_id_some(table, id);
    } else {
        lemma_without_absent_id(table, id);
    }
}

} // verus!
