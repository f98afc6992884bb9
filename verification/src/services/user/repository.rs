//! What the repository of users decides and computes: the statement of each
//! of its four operations, and what a returned row becomes. Running a
//! statement is left to the caller.

use crate::error::DemoError;
use crate::error::DemoErrorView;
use crate::services::user::models::is_email_address;
use crate::services::user::models::is_user_name;
use crate::services::user::models::lemma_round_trip;
use crate::services::user::models::User;
use crate::services::user::models::UserId;
use crate::services::user::models::UserRaw;
use crate::services::user::models::UserRecord;
use crate::services::user::models::UserUpdate;
use crate::services::user::statement::statement_binds;
use crate::services::user::statement::statement_open;
use crate::services::user::statement::statement_sql;
use crate::services::user::statement::Bound;
use crate::services::user::statement::Statement;
use chrono::NaiveDateTime;
use uuid::Uuid;
use vstd::prelude::*;

verus! {

pub const INSERT_USER: &'static str =
    "INSERT INTO users ( id, name, email_address, created_at ) VALUES ( ";

pub const NEXT_VALUE: &'static str = ", ";

pub const END_OF_VALUES: &'static str = " )";

pub const SELECT_USER: &'static str =
    "SELECT id, name, email_address, created_at, updated_at FROM users WHERE id = ";

pub const UPDATE_USER: &'static str = "UPDATE users SET updated_at = datetime('now')";

pub const SET_NAME: &'static str = ", name = ";

pub const SET_EMAIL_ADDRESS: &'static str = ", email_address = ";

pub const WHERE_ID: &'static str = " WHERE id = ";

pub const RETURNING_ROW: &'static str = " RETURNING *";

pub const DELETE_USER: &'static str = "DELETE FROM users WHERE id = ";

pub const NO_UPDATES: &'static str = "List of updates was empty";

/// The columns of a user that an update can write.
pub enum Column {
    Name,
    EmailAddress,
}

impl UserUpdate {
    /// The column that the update writes.
    pub open spec fn column(&self) -> Column {
        match self {
            UserUpdate::Name { .. } => Column::Name,
            UserUpdate::EmailAddress { .. } => Column::EmailAddress,
        }
    }

    /// The value that the update writes.
    pub open spec fn value(&self) -> Seq<char> {
        match self {
            UserUpdate::Name { value } => value@,
            UserUpdate::EmailAddress { value } => value@,
        }
    }

    /// Whether the value satisfies the rule of its field. The value of an update
    /// that a program holds always does.
    pub open spec fn is_validated(&self) -> bool {
        match self {
            UserUpdate::Name { value } => is_user_name(value@),
            UserUpdate::EmailAddress { value } => is_email_address(value@),
        }
    }

    /// The assignment that stands for the update in the statement, with a
    /// placeholder for the value.
    pub open spec fn assignment(&self) -> Seq<char> {
        match self {
            UserUpdate::Name { .. } => SET_NAME@.push('?'),
            UserUpdate::EmailAddress { .. } => SET_EMAIL_ADDRESS@.push('?'),
        }
    }
}

/// The assignments of the updates, one after the other.
pub open spec fn assignments_sql(updates: Seq<UserUpdate>) -> Seq<char>
    decreases updates.len(),
{
    if updates.len() == 0 {
        Seq::empty()
    } else {
        assignments_sql(updates.drop_last()) + updates.last().assignment()
    }
}

/// The values of the updates, one after the other.
pub open spec fn assignment_binds(updates: Seq<UserUpdate>) -> Seq<Bound> {
    Seq::new(updates.len(), |i: int| Bound::Text(updates[i].value()))
}

/// The text of the statement that applies `updates` to one user: it sets
/// `updated_at` to the current time, then makes one assignment for each update,
/// in their order, and returns the row.
pub open spec fn update_sql(updates: Seq<UserUpdate>) -> Seq<char> {
    (UPDATE_USER@ + assignments_sql(updates) + WHERE_ID@).push('?') + RETURNING_ROW@
}

/// The values bound in that statement: those of the updates, then the id.
pub open spec fn update_binds(id: Uuid, updates: Seq<UserUpdate>) -> Seq<Bound> {
    assignment_binds(updates).push(Bound::Id(id))
}

/// The statement that applies `updates`, in their order, to the user with the
/// given id, in one step. An empty list of updates is an error, whatever the
/// id.
pub fn update_statement(user_id: UserId, updates: Vec<UserUpdate>) -> (r: Result<
    Statement,
    DemoError,
>)
    ensures
        r is Err <==> updates@.len() == 0,
        r matches Err(e) ==> e@ == (DemoErrorView::Validation { message: NO_UPDATES@ }),
        r matches Ok(statement) ==> {
            &&& statement_open(statement)
            &&& statement_sql(statement) == update_sql(updates@)
            &&& statement_binds(statement) == update_binds(user_id.0, updates@)
        },
{
    if updates.len() == 0 {
        return Err(DemoError::validation(NO_UPDATES));
    }
    let mut query = Statement::begin(UPDATE_USER);
    let mut i: usize = 0;
    while i < updates.len()
        invariant
            i <= updates.len(),
            statement_open(query),
            statement_sql(query) == UPDATE_USER@ + assignments_sql(updates@.take(i as int)),
            statement_binds(query) == assignment_binds(updates@.take(i as int)),
        decreases updates.len() - i,
    {
        let ghost before = updates@.take(i as int);
        let ghost after = updates@.take(i + 1);
        proof {
            assert(after.drop_last() == before);
            assert(after.last() == updates@[i as int]);
        }
        match &updates[i] {
            UserUpdate::Name { value } => {
                query.push(SET_NAME);
                query.push_bind_text(value.as_ref().to_owned());
            },
            UserUpdate::EmailAddress { value } => {
                query.push(SET_EMAIL_ADDRESS);
                query.push_bind_text(value.expose_secret().to_owned());
            },
        }
        proof {
            assert(statement_sql(query) == UPDATE_USER@ + assignments_sql(after));
            assert(statement_binds(query) == assignment_binds(after));
        }
        i += 1;
    }
    proof {
        assert(updates@.take(i as int) == updates@);
    }
    query.push(WHERE_ID);
    query.push_bind_id(user_id.0);
    query.push(RETURNING_ROW);
    Ok(query)
}

/// The text of the statement that stores a new user.
pub open spec fn insert_sql() -> Seq<char> {
    (((INSERT_USER@.push('?') + NEXT_VALUE@).push('?') + NEXT_VALUE@).push('?')
        + NEXT_VALUE@).push('?') + END_OF_VALUES@
}

/// The statement that stores `user` as a new row, with its creation time and
/// without a time of update. Whether a row with this id exists already is for
/// storage to say.
pub fn insert_statement(user: &User) -> (statement: Statement)
    ensures
        statement_open(statement),
        statement_sql(statement) == insert_sql(),
        statement_binds(statement) == seq![
            Bound::Id(user@.id),
            Bound::Text(user@.name),
            Bound::Text(user@.email_address),
            Bound::Time(user@.created_at),
        ],
{
    let mut query = Statement::begin(INSERT_USER);
    query.push_bind_id(user.id.0);
    query.push(NEXT_VALUE);
    query.push_bind_text(user.name.as_ref().to_owned());
    query.push(NEXT_VALUE);
    query.push_bind_text(user.email_address.expose_secret().to_owned());
    query.push(NEXT_VALUE);
    query.push_bind_time(user.created_at);
    query.push(END_OF_VALUES);
    query
}

/// The statement that fetches the user with the given id.
pub fn select_statement(user_id: UserId) -> (statement: Statement)
    ensures
        statement_open(statement),
        statement_sql(statement) == SELECT_USER@.push('?'),
        statement_binds(statement) == seq![Bound::Id(user_id.0)],
{
    let mut query = Statement::begin(SELECT_USER);
    query.push_bind_id(user_id.0);
    query
}

/// The statement that removes the user with the given id. That it removes no
/// row is no failure: a user that is gone and one that never was look alike.
pub fn delete_statement(user_id: UserId) -> (statement: Statement)
    ensures
        statement_open(statement),
        statement_sql(statement) == DELETE_USER@.push('?'),
        statement_binds(statement) == seq![Bound::Id(user_id.0)],
{
    let mut query = Statement::begin(DELETE_USER);
    query.push_bind_id(user_id.0);
    query
}

/// What a fetch or an update returns for the row that storage gave: without a
/// row the user is not found; a row is validated before it is handed on.
pub fn found_user(row: Option<UserRaw>) -> (r: Result<User, DemoError>)
    ensures
        row is None ==> (r matches Err(e) && e@ == DemoErrorView::ResourceNotFound),
        row matches Some(user_raw) ==> {
            &&& r matches Ok(user) ==> user_raw@.validated() == Ok::<UserRecord, DemoErrorView>(
                user@,
            )
            &&& r matches Err(e) ==> user_raw@.validated() == Err::<UserRecord, DemoErrorView>(
                e@,
            )
        },
{
    match row {
        Some(user_raw) => User::try_from(user_raw),
        None => Err(DemoError::ResourceNotFound),
    }
}

/// The value that a list of updates leaves in a column, if it writes the
/// column at all: that of the last update of the column. Of several
/// assignments to one column in one statement, the last one counts.
pub open spec fn written(updates: Seq<UserUpdate>, column: Column) -> Option<Seq<char>>
    decreases updates.len(),
{
    if updates.len() == 0 {
        None
    } else if updates.last().column() == column {
        Some(updates.last().value())
    } else {
        written(updates.drop_last(), column)
    }
}

/// What the statement of `update_statement` leaves of a row when it runs at
/// the time `now`: the id and the time of creation as they were, each written
/// column with the value of its last update, and `now` as the time of update.
pub open spec fn updated(record: UserRecord, updates: Seq<UserUpdate>, now: NaiveDateTime) -> UserRecord {
    UserRecord {
        id: record.id,
        name: match written(updates, Column::Name) {
            Some(name) => name,
            None => record.name,
        },
        email_address: match written(updates, Column::EmailAddress) {
            Some(email_address) => email_address,
            None => record.email_address,
        },
        created_at: record.created_at,
        updated_at: Some(now),
    }
}

/// Whether the value of every update satisfies the rule of its field. The
/// updates of a `Vec<UserUpdate>` always do.
pub open spec fn all_validated(updates: Seq<UserUpdate>) -> bool {
    forall|i: int| 0 <= i < updates.len() ==> (#[trigger] updates[i]).is_validated()
}

/// The last write wins: after any updates, one more update leaves its value
/// in its column and leaves the other column as it was.
pub proof fn lemma_last_write_wins(updates: Seq<UserUpdate>, last: UserUpdate, column: Column)
    ensures
        written(updates.push(last), last.column()) == Some(last.value()),
        column != last.column() ==> written(updates.push(last), column) == written(
            updates,
            column,
        ),
{
    assert(updates.push(last).drop_last() == updates);
}

/// A column is written with the value of the update after which no update
/// writes it again, and is not written where no update writes it.
pub proof fn lemma_written(updates: Seq<UserUpdate>, column: Column)
    ensures
        written(updates, column) is None <==> forall|i: int|
            0 <= i < updates.len() ==> (#[trigger] updates[i]).column() != column,
        written(updates, column) matches Some(value) ==> exists|i: int|
            {
                &&& 0 <= i < updates.len()
                &&& (#[trigger] updates[i]).column() == column
                &&& updates[i].value() == value
                &&& forall|j: int| i < j < updates.len() ==> (#[trigger] updates[j]).column() != column
            },
    decreases updates.len(),
{
    if updates.len() > 0 {
        let rest = updates.drop_last();
        lemma_written(rest, column);
        assert forall|i: int| 0 <= i < rest.len() implies rest[i] == updates[i] by {}
        if updates.last().column() == column {
            let i = updates.len() - 1;
            assert(updates[i].column() == column);
        } else {
            if written(rest, column) is Some {
                let i = choose|i: int|
                    {
                        &&& 0 <= i < rest.len()
                        &&& (#[trigger] rest[i]).column() == column
                        &&& rest[i].value() == written(rest, column)->0
                        &&& forall|j: int|
                            i < j < rest.len() ==> (#[trigger] rest[j]).column() != column
                    };
                assert(updates[i].column() == column);
                assert forall|j: int| i < j < updates.len() implies (#[trigger] updates[j]).column()
                    != column by {
                    if j < rest.len() {
                        assert(rest[j].column() != column);
                    }
                }
            } else {
                assert forall|i: int| 0 <= i < updates.len() implies (#[trigger] updates[i]).column()
                    != column by {
                    if i < rest.len() {
                        assert(rest[i].column() != column);
                    }
                }
            }
        }
    }
}

/// An update changes neither the id nor the time of creation, it sets the
/// time of update, and it keeps a valid row valid: the row that it returns
/// passes validation unchanged.
pub proof fn lemma_updated(record: UserRecord, updates: Seq<UserUpdate>, now: NaiveDateTime)
    requires
        record.is_valid(),
        all_validated(updates),
    ensures
        updated(record, updates, now).id == record.id,
        updated(record, updates, now).created_at == record.created_at,
        updated(record, updates, now).updated_at == Some(now),
        updated(record, updates, now).is_valid(),
        updated(record, updates, now).validated() == Ok::<UserRecord, DemoErrorView>(
            updated(record, updates, now),
        ),
{
    lemma_written(updates, Column::Name);
    lemma_written(updates, Column::EmailAddress);
    lemma_round_trip(updated(record, updates, now));
}

} // verus!
