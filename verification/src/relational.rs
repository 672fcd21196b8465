//! The decisions of a store that keeps its users in a relational database.
//!
//! The database is not reached from here. Each operation is a function from
//! the replies received so far to the next step: a statement to run, or the
//! result to return. The caller runs the statement, appends the reply and
//! asks again.

use vstd::prelude::*;
use crate::create_user::{CreateUser, CreateUserView};
use crate::error::{Error, ErrorView};
use crate::model::views;
use crate::system::{fresh_id, is_random_id, now_micros};
use crate::user::{CustomData, Date, User, UserView};

verus! {

/// A statement against the table of users. Every statement returns the rows
/// that it selected, inserted, updated or deleted.
#[derive(Debug, PartialEq, Eq)]
pub enum Statement {
    SelectAll,
    SelectById { id: u128 },
    SelectByEmail { email: String },
    Insert {
        id: u128,
        name: String,
        email: String,
        birth_date: Date,
        custom_data: CustomData,
        created_at: i64,
    },
    Update { id: u128, name: String, email: String, custom_data: CustomData, updated_at: i64 },
    Delete { id: u128 },
}

/// The mathematical value of a [`Statement`].
pub enum StatementView {
    SelectAll,
    SelectById { id: u128 },
    SelectByEmail { email: Seq<char> },
    Insert {
        id: u128,
        name: Seq<char>,
        email: Seq<char>,
        birth_date: Date,
        custom_data: CustomData,
        created_at: i64,
    },
    Update {
        id: u128,
        name: Seq<char>,
        email: Seq<char>,
        custom_data: CustomData,
        updated_at: i64,
    },
    Delete { id: u128 },
}

impl View for Statement {
    type V = StatementView;

    open spec fn view(&self) -> StatementView {
        match *self {
            Statement::SelectAll => StatementView::SelectAll,
            Statement::SelectById { id } => StatementView::SelectById { id },
            Statement::SelectByEmail { email } => StatementView::SelectByEmail { email: email@ },
            Statement::Insert { id, name, email, birth_date, custom_data, created_at } => {
                StatementView::Insert {
                    id,
                    name: name@,
                    email: email@,
                    birth_date,
                    custom_data,
                    created_at,
                }
            },
            Statement::Update { id, name, email, custom_data, updated_at } => {
                StatementView::Update { id, name: name@, email: email@, custom_data, updated_at }
            },
            Statement::Delete { id } => StatementView::Delete { id },
        }
    }
}

/// What the database answered to a statement.
#[derive(Debug, PartialEq, Eq)]
pub enum Reply {
    /// The statement ran; these are its rows, possibly none.
    Rows(Vec<User>),
    /// The statement was refused because it would have put two rows under
    /// one e-mail address.
    Duplicate,
    /// The statement did not run: no connection, or any other failure.
    Failed,
}

/// The mathematical value of a [`Reply`].
pub enum ReplyView {
    Rows(Seq<UserView>),
    Duplicate,
    Failed,
}

impl View for Reply {
    type V = ReplyView;

    open spec fn view(&self) -> ReplyView {
        match *self {
            Reply::Rows(rows) => ReplyView::Rows(views(rows@)),
            Reply::Duplicate => ReplyView::Duplicate,
            Reply::Failed => ReplyView::Failed,
        }
    }
}

/// The values of a sequence of replies, in order.
pub open spec fn reply_views(replies: Seq<Reply>) -> Seq<ReplyView> {
    Seq::new(replies.len(), |i: int| replies[i]@)
}

/// What an operation does next.
#[derive(Debug, PartialEq, Eq)]
pub enum Step<T> {
    /// Run this statement and come back with its reply.
    Run(Statement),
    /// The operation is over, with this result.
    Return(Result<T, Error>),
}

/// The mathematical value of a [`Step`].
pub enum Plan<V> {
    Run(StatementView),
    Return(Result<V, ErrorView>),
}

impl View for Step<User> {
    type V = Plan<UserView>;

    open spec fn view(&self) -> Plan<UserView> {
        match *self {
            Step::Run(statement) => Plan::Run(statement@),
            Step::Return(Ok(user)) => Plan::Return(Ok(user@)),
            Step::Return(Err(e)) => Plan::Return(Err(e@)),
        }
    }
}

impl View for Step<Vec<User>> {
    type V = Plan<Seq<UserView>>;

    open spec fn view(&self) -> Plan<Seq<UserView>> {
        match *self {
            Step::Run(statement) => Plan::Run(statement@),
            Step::Return(Ok(users)) => Plan::Return(Ok(views(users@))),
            Step::Return(Err(e)) => Plan::Return(Err(e@)),
        }
    }
}

impl View for Step<u128> {
    type V = Plan<u128>;

    open spec fn view(&self) -> Plan<u128> {
        match *self {
            Step::Run(statement) => Plan::Run(statement@),
            Step::Return(Ok(id)) => Plan::Return(Ok(id)),
            Step::Return(Err(e)) => Plan::Return(Err(e@)),
        }
    }
}

/// Storage unavailable while listing the users.
pub open spec fn unavailable_on_get_all() -> ErrorView {
    ErrorView { message: "Error on get all users"@, status: 502 }
}

/// Not found: no row has the id that was looked up.
pub open spec fn not_found_by_id() -> ErrorView {
    ErrorView { message: "Invalid Uuid"@, status: 404 }
}

/// Storage unavailable while looking a user up by id.
pub open spec fn unavailable_on_get_user() -> ErrorView {
    ErrorView { message: "Error on get user"@, status: 502 }
}

/// Not found: no row has the address that was looked up.
pub open spec fn not_found_by_email() -> ErrorView {
    ErrorView { message: "Error on get user by email"@, status: 400 }
}

/// Storage unavailable while looking a user up by address.
pub open spec fn unavailable_on_get_user_by_email() -> ErrorView {
    ErrorView { message: "Error on get user by email"@, status: 502 }
}

/// Conflict: a row with the address of the user to create was found.
pub open spec fn conflict_on_create() -> ErrorView {
    ErrorView { message: "This user already exists"@, status: 422 }
}

/// Conflict: the database refused the new row for its address.
pub open spec fn duplicate_on_create() -> ErrorView {
    ErrorView { message: "This user already exists"@, status: 400 }
}

/// Storage unavailable while creating a user.
pub open spec fn unavailable_on_create() -> ErrorView {
    ErrorView { message: "Error on create user"@, status: 502 }
}

/// Not found: no row has the id of the user to update.
pub open spec fn not_found_on_update() -> ErrorView {
    ErrorView { message: "This user does not exist"@, status: 400 }
}

/// Conflict: the new address of the user to update belongs to another row.
pub open spec fn conflict_on_update() -> ErrorView {
    ErrorView { message: "This user email already exists"@, status: 422 }
}

/// Storage unavailable while updating a user.
pub open spec fn unavailable_on_update() -> ErrorView {
    ErrorView { message: "Error on update user"@, status: 502 }
}

/// Not found: no row has the id of the user to delete.
pub open spec fn not_found_on_delete() -> ErrorView {
    ErrorView { message: "This user does not exist"@, status: 404 }
}

/// Storage unavailable while deleting a user.
pub open spec fn unavailable_on_delete() -> ErrorView {
    ErrorView { message: "Error on delete user"@, status: 502 }
}

/// The first row of a reply; `missing` where the statement ran and gave no
/// row, `failed` where it did not run.
pub open spec fn first_row(reply: ReplyView, missing: ErrorView, failed: ErrorView) -> Result<
    UserView,
    ErrorView,
> {
    match reply {
        ReplyView::Rows(rows) => if rows.len() > 0 {
            Ok(rows[0])
        } else {
            Err(missing)
        },
        _ => Err(failed),
    }
}

/// Listing: one statement, whose rows are the result.
pub open spec fn get_all_plan(replies: Seq<ReplyView>) -> Plan<Seq<UserView>> {
    if replies.len() == 0 {
        Plan::Run(StatementView::SelectAll)
    } else {
        match replies[0] {
            ReplyView::Rows(rows) => Plan::Return(Ok(rows)),
            _ => Plan::Return(Err(unavailable_on_get_all())),
        }
    }
}

/// Lookup by id: one statement, whose first row is the result.
pub open spec fn get_user_plan(id: u128, replies: Seq<ReplyView>) -> Plan<UserView> {
    if replies.len() == 0 {
        Plan::Run(StatementView::SelectById { id })
    } else {
        Plan::Return(first_row(replies[0], not_found_by_id(), unavailable_on_get_user()))
    }
}

/// Lookup by address: one statement, whose first row is the result.
pub open spec fn get_user_by_email_plan(email: Seq<char>, replies: Seq<ReplyView>) -> Plan<
    UserView,
> {
    if replies.len() == 0 {
        Plan::Run(StatementView::SelectByEmail { email })
    } else {
        Plan::Return(
            first_row(replies[0], not_found_by_email(), unavailable_on_get_user_by_email()),
        )
    }
}

/// The statement that inserts a payload under `id` at `now`.
pub open spec fn insert_of(c: CreateUserView, id: u128, now: i64) -> StatementView {
    StatementView::Insert {
        id,
        name: c.name,
        email: c.email,
        birth_date: c.birth_date,
        custom_data: CustomData { random: c.custom_data.random },
        created_at: now,
    }
}

/// Creation: look the address up; a row is a conflict; with none, insert,
/// and return the row that the database gives back.
pub open spec fn create_user_plan(
    c: CreateUserView,
    id: u128,
    now: i64,
    replies: Seq<ReplyView>,
) -> Plan<UserView> {
    if replies.len() == 0 {
        Plan::Run(StatementView::SelectByEmail { email: c.email })
    } else {
        match replies[0] {
            ReplyView::Rows(found) => if found.len() > 0 {
                Plan::Return(Err(conflict_on_create()))
            } else if replies.len() == 1 {
                Plan::Run(insert_of(c, id, now))
            } else {
                match replies[1] {
                    ReplyView::Duplicate => Plan::Return(Err(duplicate_on_create())),
                    reply => Plan::Return(
                        first_row(reply, unavailable_on_create(), unavailable_on_create()),
                    ),
                }
            },
            _ => Plan::Return(Err(unavailable_on_create())),
        }
    }
}

/// The statement that writes `user` over the row with its id at `now`. The
/// date of birth is not among the columns that it sets.
pub open spec fn update_of(user: UserView, now: i64) -> StatementView {
    StatementView::Update {
        id: user.id,
        name: user.name,
        email: user.email,
        custom_data: user.custom_data,
        updated_at: now,
    }
}

/// Update: look the id up, and no row is not found; look the address up, and
/// a row under another id is a conflict; then write, and return the row that
/// the database gives back.
pub open spec fn update_user_plan(user: UserView, now: i64, replies: Seq<ReplyView>) -> Plan<
    UserView,
> {
    if replies.len() == 0 {
        Plan::Run(StatementView::SelectById { id: user.id })
    } else {
        match replies[0] {
            ReplyView::Rows(by_id) => if by_id.len() == 0 {
                Plan::Return(Err(not_found_on_update()))
            } else if replies.len() == 1 {
                Plan::Run(StatementView::SelectByEmail { email: user.email })
            } else {
                match replies[1] {
                    ReplyView::Rows(by_email) => if by_email.len() > 0 && by_email[0].id
                        != user.id {
                        Plan::Return(Err(conflict_on_update()))
                    } else if replies.len() == 2 {
                        Plan::Run(update_of(user, now))
                    } else {
                        match replies[2] {
                            ReplyView::Duplicate => Plan::Return(Err(conflict_on_update())),
                            reply => Plan::Return(
                                first_row(reply, not_found_on_update(), unavailable_on_update()),
                            ),
                        }
                    },
                    _ => Plan::Return(Err(unavailable_on_update())),
                }
            },
            _ => Plan::Return(Err(unavailable_on_update())),
        }
    }
}

/// Deletion: one statement; the id of the row that it removed is the result,
/// and no row is not found.
pub open spec fn delete_user_plan(id: u128, replies: Seq<ReplyView>) -> Plan<u128> {
    if replies.len() == 0 {
        Plan::Run(StatementView::Delete { id })
    } else {
        match first_row(replies[0], not_found_on_delete(), unavailable_on_delete()) {
            Ok(row) => Plan::Return(Ok(row.id)),
            Err(e) => Plan::Return(Err(e)),
        }
    }
}

/// The first row of a reply, or the error that stands for its absence.
fn take_first_row(reply: &Reply, missing: Error, failed: Error) -> (r: Result<User, Error>)
    ensures
        match r {
            Ok(u) => first_row(reply@, missing@, failed@) == Ok::<UserView, ErrorView>(u@),
            Err(e) => first_row(reply@, missing@, failed@) == Err::<UserView, ErrorView>(e@),
        },
{
    match reply {
        Reply::Rows(rows) => {
            if rows.len() > 0 {
                Ok(rows[0].clone())
            } else {
                Err(missing)
            }
        },
        _ => Err(failed),
    }
}

/// The next step of listing all users.
pub fn get_all(replies: &Vec<Reply>) -> (step: Step<Vec<User>>)
    ensures
        step@ == get_all_plan(reply_views(replies@)),
{
    if replies.len() == 0 {
        return Step::Run(Statement::SelectAll);
    }
    match &replies[0] {
        Reply::Rows(rows) => {
            let mut all: Vec<User> = Vec::new();
            let mut i: usize = 0;
            while i < rows.len()
                invariant
                    i <= rows.len(),
                    all@.len() == i,
                    forall|j: int| 0 <= j < i ==> (#[trigger] all@[j])@ == rows@[j]@,
                decreases rows.len() - i,
            {
                all.push(rows[i].clone());
                i += 1;
            }
            assert(views(all@) =~= views(rows@));
            Step::Return(Ok(all))
        },
        _ => Step::Return(Err(Error::of("Error on get all users", 502))),
    }
}

/// The next step of looking a user up by id.
pub fn get_user(user_id: &u128, replies: &Vec<Reply>) -> (step: Step<User>)
    ensures
        step@ == get_user_plan(*user_id, reply_views(replies@)),
{
    if replies.len() == 0 {
        return Step::Run(Statement::SelectById { id: *user_id });
    }
    Step::Return(
        take_first_row(
            &replies[0],
            Error::of("Invalid Uuid", 404),
            Error::of("Error on get user", 502),
        ),
    )
}

/// The next step of looking a user up by address.
pub fn get_user_by_email(user_email: &String, replies: &Vec<Reply>) -> (step: Step<User>)
    ensures
        step@ == get_user_by_email_plan(user_email@, reply_views(replies@)),
{
    if replies.len() == 0 {
        return Step::Run(Statement::SelectByEmail { email: user_email.clone() });
    }
    Step::Return(
        take_first_row(
            &replies[0],
            Error::of("Error on get user by email", 400),
            Error::of("Error on get user by email", 502),
        ),
    )
}

/// The next step of creating a user under the given id at the given moment.
pub fn create_user_with(user: &CreateUser, id: u128, now: i64, replies: &Vec<Reply>) -> (step:
    Step<User>)
    ensures
        step@ == create_user_plan(user@, id, now, reply_views(replies@)),
{
    if replies.len() == 0 {
        return Step::Run(Statement::SelectByEmail { email: user.email.clone() });
    }
    match &replies[0] {
        Reply::Rows(found) => {
            if found.len() > 0 {
                Step::Return(Err(Error::of("This user already exists", 422)))
            } else if replies.len() == 1 {
                Step::Run(
                    Statement::Insert {
                        id,
                        name: user.name.clone(),
                        email: user.email.clone(),
                        birth_date: user.birth_date,
                        custom_data: CustomData { random: user.custom_data.random },
                        created_at: now,
                    },
                )
            } else {
                match &replies[1] {
                    Reply::Duplicate => Step::Return(
                        Err(Error::of("This user already exists", 400)),
                    ),
                    reply => Step::Return(
                        take_first_row(
                            reply,
                            Error::of("Error on create user", 502),
                            Error::of("Error on create user", 502),
                        ),
                    ),
                }
            }
        },
        _ => Step::Return(Err(Error::of("Error on create user", 502))),
    }
}

/// The next step of creating a user. Where the step is the insertion, it
/// carries a fresh random id and the current time.
pub fn create_user(user: &CreateUser, replies: &Vec<Reply>) -> (step: Step<User>)
    ensures
        exists|id: u128, now: i64|
            is_random_id(id) && now >= 0 && step@ == #[trigger] create_user_plan(
                user@,
                id,
                now,
                reply_views(replies@),
            ),
{
    let id = fresh_id();
    let now = now_micros();
    create_user_with(user, id, now, replies)
}

/// The next step of updating a user at the given moment.
pub fn update_user_at(user: &User, now: i64, replies: &Vec<Reply>) -> (step: Step<User>)
    ensures
        step@ == update_user_plan(user@, now, reply_views(replies@)),
{
    if replies.len() == 0 {
        return Step::Run(Statement::SelectById { id: user.id });
    }
    match &replies[0] {
        Reply::Rows(by_id) => {
            if by_id.len() == 0 {
                return Step::Return(Err(Error::of("This user does not exist", 400)));
            }
        },
        _ => {
            return Step::Return(Err(Error::of("Error on update user", 502)));
        },
    }
    if replies.len() == 1 {
        return Step::Run(Statement::SelectByEmail { email: user.email.clone() });
    }
    match &replies[1] {
        Reply::Rows(by_email) => {
            if by_email.len() > 0 && by_email[0].id != user.id {
                return Step::Return(Err(Error::of("This user email already exists", 422)));
            }
        },
        _ => {
            return Step::Return(Err(Error::of("Error on update user", 502)));
        },
    }
    if replies.len() == 2 {
        return Step::Run(
            Statement::Update {
                id: user.id,
                name: user.name.clone(),
                email: user.email.clone(),
                custom_data: user.custom_data,
                updated_at: now,
            },
        );
    }
    match &replies[2] {
        Reply::Duplicate => Step::Return(Err(Error::of("This user email already exists", 422))),
        reply => Step::Return(
            take_first_row(
                reply,
                Error::of("This user does not exist", 400),
                Error::of("Error on update user", 502),
            ),
        ),
    }
}

/// The next step of updating a user. Where the step is the write, it carries
/// the current time.
pub fn update_user(user: &User, replies: &Vec<Reply>) -> (step: Step<User>)
    ensures
        exists|now: i64|
            now >= 0 && step@ == #[trigger] update_user_plan(user@, now, reply_views(replies@)),
{
    let now = now_micros();
    update_user_at(user, now, replies)
}

/// The next step of deleting a user.
pub fn delete_user(user_id: &u128, replies: &Vec<Reply>) -> (step: Step<u128>)
    ensures
        step@ == delete_user_plan(*user_id, reply_views(replies@)),
{
    if replies.len() == 0 {
        return Step::Run(Statement::Delete { id: *user_id });
    }
    match take_first_row(
        &replies[0],
        Error::of("This user does not exist", 404),
        Error::of("Error on delete user", 502),
    ) {
        Ok(row) => Step::Return(Ok(row.id)),
        Err(e) => Step::Return(Err(e)),
    }
}

} // verus!
