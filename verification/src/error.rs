//! The service's errors: what each one reads as, and the HTTP status that
//! answers it.

use vstd::prelude::*;

verus! {

/// A failure reported by the database.
#[derive(Debug)]
pub enum DbError {
    /// A record that was to be written already exists (the service also
    /// uses this error for other failed writes and reads, with its own text
    /// in `thing`).
    RecordExists { thing: String },
    /// Any other failure, by the text that the database gave for it.
    Other { message: String },
}

/// An error of the service.
#[derive(Debug)]
pub enum AppError {
    InternalError(String),
    BadRequest(String),
    DatabaseError(DbError),
    NotFound(String),
}

/// The text of the database's "record exists" error about `thing`.
pub open spec fn record_exists_text(thing: Seq<char>) -> Seq<char> {
    "Database record `"@ + thing + "` already exists"@
}

/// Builds `surrealdb::Error::Db(surrealdb::error::Db::RecordExists { thing })`
/// and calls its `to_string()`. Trusted: the text is the one that the
/// error's `#[error("Database record `{thing}` already exists")]` attribute
/// in surrealdb-core gives.
#[verifier::external_body]
fn record_exists_message(thing: &String) -> (text: String)
    ensures
        text@ == record_exists_text(thing@),
{
    surrealdb::Error::Db(surrealdb::error::Db::RecordExists { thing: thing.clone() }).to_string()
}

impl DbError {
    /// The text of this error.
    pub open spec fn text_spec(&self) -> Seq<char> {
        match self {
            DbError::RecordExists { thing } => record_exists_text(thing@),
            DbError::Other { message } => message@,
        }
    }

    /// The text of this error, as the database displays it.
    pub fn text(&self) -> (t: String)
        ensures
            t@ == self.text_spec(),
    {
        match self {
            DbError::RecordExists { thing } => record_exists_message(thing),
            DbError::Other { message } => message.clone(),
        }
    }
}

impl AppError {
    /// The text of this error: a prefix that names its kind, then its
    /// message.
    pub open spec fn text_spec(&self) -> Seq<char> {
        match self {
            AppError::InternalError(m) => "internal error: "@ + m@,
            AppError::BadRequest(m) => "bad request: "@ + m@,
            AppError::DatabaseError(e) => "database error: "@ + e.text_spec(),
            AppError::NotFound(m) => "not found: "@ + m@,
        }
    }

    /// The message that the error response carries.
    pub open spec fn message_spec(&self) -> Seq<char> {
        match self {
            AppError::InternalError(m) => m@,
            AppError::BadRequest(m) => m@,
            AppError::DatabaseError(e) => e.text_spec(),
            AppError::NotFound(m) => m@,
        }
    }

    /// The HTTP status that answers this error.
    pub open spec fn status_spec(&self) -> u16 {
        match self {
            AppError::InternalError(_) => 500,
            AppError::BadRequest(_) => 400,
            AppError::DatabaseError(_) => 500,
            AppError::NotFound(_) => 404,
        }
    }

    /// The text of this error (its display).
    pub fn text(&self) -> (t: String)
        ensures
            t@ == self.text_spec(),
    {
        match self {
            AppError::InternalError(m) => {
                let mut t = "internal error: ".to_string();
                t.append(m.as_str());
                t
            },
            AppError::BadRequest(m) => {
                let mut t = "bad request: ".to_string();
                t.append(m.as_str());
                t
            },
            AppError::DatabaseError(e) => {
                let mut t = "database error: ".to_string();
                let d = e.text();
                t.append(d.as_str());
                t
            },
            AppError::NotFound(m) => {
                let mut t = "not found: ".to_string();
                t.append(m.as_str());
                t
            },
        }
    }

    /// The message that the error response carries: the error's own
    /// message, or the database's text of a database error.
    pub fn message(&self) -> (t: String)
        ensures
            t@ == self.message_spec(),
    {
        match self {
            AppError::InternalError(m) => m.clone(),
            AppError::BadRequest(m) => m.clone(),
            AppError::DatabaseError(e) => e.text(),
            AppError::NotFound(m) => m.clone(),
        }
    }

    /// The HTTP status that answers this error: 500 for an internal or a
    /// database error, 400 for a bad request, 404 for a missing resource.
    pub fn status_code(&self) -> (s: u16)
        ensures
            s == self.status_spec(),
            s == 400 || s == 404 || s == 500,
    {
        match self {
            AppError::InternalError(_) => 500,
            AppError::BadRequest(_) => 400,
            AppError::DatabaseError(_) => 500,
            AppError::NotFound(_) => 404,
        }
    }

    /// The internal error that a handler answers with when a step fails:
    /// its message is this error's text.
    pub fn into_internal(&self) -> (e: AppError)
        ensures
            e is InternalError,
            e->InternalError_0@ == self.text_spec(),
    {
        AppError::InternalError(self.text())
    }

    /// The database error "record exists" about `thing`.
    pub fn record_exists(thing: &str) -> (e: AppError)
        ensures
            e is DatabaseError,
            e->DatabaseError_0 is RecordExists,
            e->DatabaseError_0->thing@ == thing@,
            e.message_spec() == record_exists_text(thing@),
    {
        AppError::DatabaseError(DbError::RecordExists { thing: thing.to_string() })
    }
}

} // verus!
