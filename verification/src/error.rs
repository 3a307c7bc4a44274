//! Errors raised by the database layer.

use vstd::prelude::*;

use crate::text::{decimal_text, u64_to_decimal};

verus! {

/// Which class of failure a [`DatabaseError`] reports.
#[derive(Copy, Clone, Debug, PartialEq, Eq, Structural)]
pub enum DatabaseErrorKind {
    Database,
    UnsupportedSchema,
}

/// A database failure with its kind and human-readable message.
#[derive(Clone, Debug)]
pub struct DatabaseError {
    kind: DatabaseErrorKind,
    message: String,
}

impl DatabaseError {
    /// The kind of this error.
    pub closed spec fn spec_kind(&self) -> DatabaseErrorKind {
        self.kind
    }

    /// The message of this error.
    pub closed spec fn spec_message(&self) -> Seq<char> {
        self.message@
    }

    /// A general database error carrying `message`.
    pub fn new(message: String) -> (error: Self)
        ensures
            error.spec_kind() == DatabaseErrorKind::Database,
            error.spec_message() == message@,
    {
        DatabaseError { kind: DatabaseErrorKind::Database, message }
    }

    /// An error reporting that the stored schema cannot be used.
    pub fn unsupported_schema(message: String) -> (error: Self)
        ensures
            error.spec_kind() == DatabaseErrorKind::UnsupportedSchema,
            error.spec_message() == message@,
    {
        DatabaseError { kind: DatabaseErrorKind::UnsupportedSchema, message }
    }

    /// The kind of this error.
    pub fn kind(&self) -> (kind: DatabaseErrorKind)
        ensures
            kind == self.spec_kind(),
    {
        self.kind
    }

    /// The message of this error.
    pub fn message(&self) -> (message: &str)
        ensures
            message@ == self.spec_message(),
    {
        self.message.as_str()
    }

    /// How this error reads when shown: `database: ` and its message.
    pub fn to_string(&self) -> (text: String)
        ensures
            text@ == "database: "@ + self.spec_message(),
    {
        let mut text = "database: ".to_owned();
        text.append(self.message.as_str());
        text
    }
}

/// The result type of database operations.
pub type DatabaseResult<T> = Result<T, DatabaseError>;

/// The message reporting that `value` is not a known `kind`.
pub open spec fn decode_message(kind: Seq<char>, value: Seq<char>) -> Seq<char> {
    "unknown "@ + kind + " `"@ + value + "`"@
}

/// An error reporting that `value` is not a known `kind`.
pub fn decode_error(kind: &str, value: &str) -> (error: DatabaseError)
    ensures
        error.spec_kind() == DatabaseErrorKind::Database,
        error.spec_message() == decode_message(kind@, value@),
{
    let mut message = "unknown ".to_owned();
    message.append(kind);
    message.append(" `");
    message.append(value);
    message.append("`");
    DatabaseError::new(message)
}

/// The version stamped into every JSON document the codecs write.
pub const JSON_SCHEMA_VERSION: u32 = 1;

/// The message reporting an unsupported JSON document version.
pub open spec fn schema_version_message(version: nat) -> Seq<char> {
    "unsupported JSON schema version "@ + decimal_text(version)
}

/// Accepts exactly the JSON document version the codecs write.
pub fn ensure_schema(version: u32) -> (result: DatabaseResult<()>)
    ensures
        result is Ok <==> version == JSON_SCHEMA_VERSION,
        result matches Err(error) ==> {
            &&& error.spec_kind() == DatabaseErrorKind::Database
            &&& error.spec_message() == schema_version_message(version as nat)
        },
{
    if version == JSON_SCHEMA_VERSION {
        Ok(())
    } else {
        let mut message = "unsupported JSON schema version ".to_owned();
        let digits = u64_to_decimal(version as u64);
        message.append(digits.as_str());
        Err(DatabaseError::new(message))
    }
}

} // verus!
