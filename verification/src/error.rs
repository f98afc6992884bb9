//! The error taxonomy of the service and what each error shows to a client.

use vstd::prelude::*;
use vstd::std_specs::convert::FromSpecImpl;
use vstd::string::to_string_from_display_ensures;

verus! {

/// `sqlx::Error`, carried through as it is: the library does not look into
/// the failures of storage.
#[verifier::external_type_specification]
#[verifier::external_body]
pub struct ExStorageError(sqlx::Error);

/// What can go wrong in the service.
#[derive(Debug)]
pub enum DemoError {
    /// The storage backend failed; the cause is kept as it came and is not
    /// interpreted.
    IO { cause: sqlx::Error },
    /// No row has the given id.
    ResourceNotFound,
    /// The input broke a rule; the message says which.
    Validation { message: String },
}

/// A `DemoError` with its message as a sequence of characters.
pub enum DemoErrorView {
    IO { cause: sqlx::Error },
    ResourceNotFound,
    Validation { message: Seq<char> },
}

impl View for DemoError {
    type V = DemoErrorView;

    open spec fn view(&self) -> DemoErrorView {
        match self {
            DemoError::IO { cause } => DemoErrorView::IO { cause: *cause },
            DemoError::ResourceNotFound => DemoErrorView::ResourceNotFound,
            DemoError::Validation { message } => DemoErrorView::Validation { message: message@ },
        }
    }
}

/// The status a response carries when a storage failure was not classified.
pub const STATUS_INTERNAL_SERVER_ERROR: u16 = 500;

/// The status a response carries when no row has the id.
pub const STATUS_NOT_FOUND: u16 = 404;

/// The status a response carries when a validation rule was violated.
pub const STATUS_UNPROCESSABLE_ENTITY: u16 = 422;

impl DemoError {
    /// The HTTP status that reports an error of this kind.
    pub open spec fn spec_status_code(&self) -> u16 {
        match self {
            DemoError::IO { .. } => STATUS_INTERNAL_SERVER_ERROR,
            DemoError::ResourceNotFound => STATUS_NOT_FOUND,
            DemoError::Validation { .. } => STATUS_UNPROCESSABLE_ENTITY,
        }
    }

    /// The message that a client may see: that of a validation failure as it
    /// is, a fixed one for the other kinds, so that nothing of the backend
    /// leaks.
    pub open spec fn spec_client_message(&self) -> Seq<char> {
        match self {
            DemoError::IO { .. } => "Internal server error"@,
            DemoError::ResourceNotFound => "Resource not found"@,
            DemoError::Validation { message } => message@,
        }
    }

    /// A validation failure with the given message.
    pub fn validation(message: &str) -> (e: DemoError)
        ensures
            e@ == (DemoErrorView::Validation { message: message@ }),
    {
        DemoError::Validation { message: message.to_owned() }
    }

    /// The error's own message, as it is logged: the cause of a storage
    /// failure rendered by its `Display`, a fixed text for a missing
    /// resource, the message of a validation failure.
    pub fn message(&self) -> (text: String)
        ensures
            match self {
                DemoError::IO { cause } => to_string_from_display_ensures::<sqlx::Error>(
                    cause,
                    text,
                ),
                DemoError::ResourceNotFound => text@ == "Resource not found"@,
                DemoError::Validation { message } => text@ == message@,
            },
    {
        match self {
            DemoError::IO { cause } => cause.to_string(),
            DemoError::ResourceNotFound => "Resource not found".to_owned(),
            DemoError::Validation { message } => message.clone(),
        }
    }

    /// The HTTP status that reports the error: 500 for a storage failure, 404
    /// for a missing resource, 422 for a validation failure.
    #[verifier::when_used_as_spec(spec_status_code)]
    pub fn status_code(&self) -> (code: u16)
        ensures
            code == self.spec_status_code(),
    {
        match self {
            DemoError::IO { .. } => STATUS_INTERNAL_SERVER_ERROR,
            DemoError::ResourceNotFound => STATUS_NOT_FOUND,
            DemoError::Validation { .. } => STATUS_UNPROCESSABLE_ENTITY,
        }
    }

    /// The message that is sent to the client.
    pub fn client_message(&self) -> (text: String)
        ensures
            text@ == self.spec_client_message(),
    {
        match self {
            DemoError::IO { .. } => "Internal server error".to_owned(),
            DemoError::ResourceNotFound => "Resource not found".to_owned(),
            DemoError::Validation { message } => message.clone(),
        }
    }
}

impl From<sqlx::Error> for DemoError {
    fn from(error: sqlx::Error) -> (e: DemoError) {
        DemoError::IO { cause: error }
    }
}

impl FromSpecImpl<sqlx::Error> for DemoError {
    open spec fn obeys_from_spec() -> bool {
        true
    }

    open spec fn from_spec(error: sqlx::Error) -> DemoError {
        DemoError::IO { cause: error }
    }
}

} // verus!
