//! A SQL statement under construction: its text, and the values bound to its
//! placeholders.

use chrono::NaiveDateTime;
use sqlx::QueryBuilder;
use sqlx::Sqlite;
use uuid::Uuid;
use vstd::prelude::*;

verus! {

/// A value bound to a placeholder of a statement.
pub enum Bound {
    Text(Seq<char>),
    Id(Uuid),
    /// A time in UTC.
    Time(NaiveDateTime),
}

/// A statement for SQLite, held in a `sqlx::QueryBuilder`. The builder is
/// public so that whoever runs the statement can take it.
#[verifier::external_body]
pub struct Statement {
    pub builder: QueryBuilder<'static, Sqlite>,
}

/// The SQL text of a statement, as far as it was written.
pub uninterp spec fn statement_sql(s: Statement) -> Seq<char>;

/// The values bound to the placeholders of a statement, in the order of the
/// placeholders.
pub uninterp spec fn statement_binds(s: Statement) -> Seq<Bound>;

/// Whether a statement can still be written to: it can until it is built.
pub uninterp spec fn statement_open(s: Statement) -> bool;

impl Statement {
    /// `QueryBuilder::new` of the crate `sqlx`: a builder that holds the given
    /// text and no argument, and that was not built.
    #[verifier::external_body]
    pub(crate) fn begin(init: &str) -> (s: Statement)
        ensures
            statement_sql(s) == init@,
            statement_binds(s) == Seq::<Bound>::empty(),
            statement_open(s),
    {
        Statement { builder: QueryBuilder::new(init) }
    }

    /// `QueryBuilder::push` of the crate `sqlx` appends the fragment to the
    /// text and leaves the arguments alone. It panics on a builder that was
    /// built.
    #[verifier::external_body]
    pub(crate) fn push(&mut self, sql: &str)
        requires
            statement_open(*old(self)),
        ensures
            statement_sql(*final(self)) == statement_sql(*old(self)) + sql@,
            statement_binds(*final(self)) == statement_binds(*old(self)),
            statement_open(*final(self)),
    {
        self.builder.push(sql);
    }

    /// `QueryBuilder::push_bind` of the crate `sqlx` with a `String`: for
    /// SQLite it adds the text to the arguments and appends the placeholder
    /// `?` to the SQL. It panics on a builder that was built.
    #[verifier::external_body]
    pub(crate) fn push_bind_text(&mut self, value: String)
        requires
            statement_open(*old(self)),
        ensures
            statement_sql(*final(self)) == statement_sql(*old(self)).push('?'),
            statement_binds(*final(self)) == statement_binds(*old(self)).push(Bound::Text(value@)),
            statement_open(*final(self)),
    {
        self.builder.push_bind(value);
    }

    /// `QueryBuilder::push_bind` of the crate `sqlx` with a `Uuid`: for SQLite
    /// it adds the identifier to the arguments and appends the placeholder `?`
    /// to the SQL. It panics on a builder that was built.
    #[verifier::external_body]
    pub(crate) fn push_bind_id(&mut self, value: Uuid)
        requires
            statement_open(*old(self)),
        ensures
            statement_sql(*final(self)) == statement_sql(*old(self)).push('?'),
            statement_binds(*final(self)) == statement_binds(*old(self)).push(Bound::Id(value)),
            statement_open(*final(self)),
    {
        self.builder.push_bind(value);
    }

    /// `QueryBuilder::push_bind` of the crate `sqlx` with the time as a
    /// `DateTime<Utc>`: for SQLite it adds the time to the arguments and
    /// appends the placeholder `?` to the SQL. It panics on a builder that was
    /// built.
    #[verifier::external_body]
    pub(crate) fn push_bind_time(&mut self, value: NaiveDateTime)
        requires
            statement_open(*old(self)),
        ensures
            statement_sql(*final(self)) == statement_sql(*old(self)).push('?'),
            statement_binds(*final(self)) == statement_binds(*old(self)).push(Bound::Time(value)),
            statement_open(*final(self)),
    {
        self.builder.push_bind(value.and_utc());
    }
}

} // verus!
