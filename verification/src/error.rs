//! The failures of the data-access layer, how a store's failure is
//! classified, and how a rejected request is answered.

use vstd::prelude::*;
use crate::response::{
    generic_reply, Reply, ReplyView, STATUS_BAD_REQUEST, STATUS_CONFLICT,
    STATUS_INTERNAL_SERVER_ERROR, STATUS_METHOD_NOT_ALLOWED, STATUS_NOT_FOUND,
};
use crate::text::{contains, str_contains};

verus! {

/// A failure of the data-access layer. Each kind carries its cause: the
/// store's message, or the offending identifier.
#[derive(Clone, Debug, PartialEq, Eq)]
pub enum Error {
    /// The store cannot be reached, or its configuration is missing.
    MongoError(String),
    /// A query failed in the store or on the way to it.
    MongoQueryError(String),
    /// A note with this title exists already.
    MongoDuplicateError(String),
    /// A value could not be put into the store's document form.
    MongoSerializeBsonError(String),
    /// A record that the store returned lacks a field.
    MongoDataError(String),
    /// The text is not a well-formed identifier.
    InvalidIDError(String),
}

/// The kinds of failure, without their cause.
#[derive(Clone, Copy, Debug, PartialEq, Eq, Structural)]
pub enum ErrorKind {
    Connection,
    Query,
    DuplicateKey,
    Serialization,
    DataAccess,
    InvalidId,
}

/// What an `Error` holds.
pub struct ErrorView {
    pub kind: ErrorKind,
    pub cause: Seq<char>,
}

impl View for Error {
    type V = ErrorView;

    open spec fn view(&self) -> ErrorView {
        match self {
            Error::MongoError(c) => ErrorView { kind: ErrorKind::Connection, cause: c@ },
            Error::MongoQueryError(c) => ErrorView { kind: ErrorKind::Query, cause: c@ },
            Error::MongoDuplicateError(c) => ErrorView { kind: ErrorKind::DuplicateKey, cause: c@ },
            Error::MongoSerializeBsonError(c) => ErrorView {
                kind: ErrorKind::Serialization,
                cause: c@,
            },
            Error::MongoDataError(c) => ErrorView { kind: ErrorKind::DataAccess, cause: c@ },
            Error::InvalidIDError(c) => ErrorView { kind: ErrorKind::InvalidId, cause: c@ },
        }
    }
}

/// The words by which a store's message tells that a unique index refused
/// a document.
pub open spec fn duplicate_key_signature() -> Seq<char> {
    "E11000 duplicate key error collection"@
}

/// The code by which a store's failure tells the same.
pub const DUPLICATE_KEY_CODE: i32 = 11000;

/// The kind of a failed insert: a duplicate where the store's code says so,
/// or, failing that, where its message holds the signature; a failed query
/// otherwise.
pub open spec fn insert_failure_kind(code: Option<i32>, message: Seq<char>) -> ErrorKind {
    if code == Some(DUPLICATE_KEY_CODE) || contains(message, duplicate_key_signature()) {
        ErrorKind::DuplicateKey
    } else {
        ErrorKind::Query
    }
}

/// A word and a message for each kind of failure, and the status code that
/// goes with them. Only an ill-formed identifier is echoed to the client: of
/// the other kinds the cause stays on the server.
pub open spec fn error_reply(err: ErrorView) -> ReplyView {
    match err.kind {
        ErrorKind::Connection => generic_reply(
            STATUS_INTERNAL_SERVER_ERROR as int,
            "fail"@,
            "MongoDB error"@,
        ),
        ErrorKind::DuplicateKey => generic_reply(
            STATUS_CONFLICT as int,
            "fail"@,
            "Duplicate key error"@,
        ),
        ErrorKind::Query => generic_reply(
            STATUS_INTERNAL_SERVER_ERROR as int,
            "fail"@,
            "Error during mongodb query"@,
        ),
        ErrorKind::Serialization => generic_reply(
            STATUS_INTERNAL_SERVER_ERROR as int,
            "fail"@,
            "Error seserializing BSON"@,
        ),
        ErrorKind::DataAccess => generic_reply(
            STATUS_INTERNAL_SERVER_ERROR as int,
            "fail"@,
            "validation error"@,
        ),
        ErrorKind::InvalidId => generic_reply(STATUS_BAD_REQUEST as int, "fail"@, err.cause),
    }
}

/// Why a request was rejected before or instead of an answer. More than one
/// reason may hold at once.
#[derive(Clone, Debug, PartialEq, Eq)]
pub struct Rejection {
    /// No route matches the path.
    pub not_found: bool,
    /// The body could not be read as the shape that the route expects.
    pub invalid_body: bool,
    /// The data-access layer failed.
    pub error: Option<Error>,
    /// The path matches a route, the method does not.
    pub method_not_allowed: bool,
}

/// What a `Rejection` holds.
pub struct RejectionView {
    pub not_found: bool,
    pub invalid_body: bool,
    pub error: Option<ErrorView>,
    pub method_not_allowed: bool,
}

impl View for Rejection {
    type V = RejectionView;

    open spec fn view(&self) -> RejectionView {
        RejectionView {
            not_found: self.not_found,
            invalid_body: self.invalid_body,
            error: match self.error {
                Some(e) => Some(e@),
                None => None,
            },
            method_not_allowed: self.method_not_allowed,
        }
    }
}

/// The answer to a rejected request. The reasons are taken in this order: an
/// unknown route, an unreadable body, a failure of the data-access layer, a
/// method that the route does not take. A rejection with no reason known is
/// answered as a server error.
pub open spec fn rejection_reply(err: RejectionView) -> ReplyView {
    if err.not_found {
        generic_reply(STATUS_NOT_FOUND as int, "fail"@, "Route does not exist on the server"@)
    } else if err.invalid_body {
        generic_reply(STATUS_BAD_REQUEST as int, "fail"@, "Invalid Body"@)
    } else if let Some(e) = err.error {
        error_reply(e)
    } else if err.method_not_allowed {
        generic_reply(STATUS_METHOD_NOT_ALLOWED as int, "fail"@, "Method Not Allowed"@)
    } else {
        generic_reply(STATUS_INTERNAL_SERVER_ERROR as int, "error"@, "Internal Server Error"@)
    }
}

impl Error {
    /// The kind of this failure.
    pub fn kind(&self) -> (r: ErrorKind)
        ensures
            r == self@.kind,
    {
        match self {
            Error::MongoError(_) => ErrorKind::Connection,
            Error::MongoQueryError(_) => ErrorKind::Query,
            Error::MongoDuplicateError(_) => ErrorKind::DuplicateKey,
            Error::MongoSerializeBsonError(_) => ErrorKind::Serialization,
            Error::MongoDataError(_) => ErrorKind::DataAccess,
            Error::InvalidIDError(_) => ErrorKind::InvalidId,
        }
    }

    /// The cause that this failure carries.
    pub fn cause(&self) -> (r: &String)
        ensures
            r@ == self@.cause,
    {
        match self {
            Error::MongoError(c) => c,
            Error::MongoQueryError(c) => c,
            Error::MongoDuplicateError(c) => c,
            Error::MongoSerializeBsonError(c) => c,
            Error::MongoDataError(c) => c,
            Error::InvalidIDError(c) => c,
        }
    }

    /// The status code with which this failure is answered.
    pub fn status_code(&self) -> (r: u16)
        ensures
            r == error_reply(self@).code,
    {
        match self {
            Error::MongoDuplicateError(_) => STATUS_CONFLICT,
            Error::InvalidIDError(_) => STATUS_BAD_REQUEST,
            _ => STATUS_INTERNAL_SERVER_ERROR,
        }
    }

    /// The rejection that holds this failure and no other reason.
    pub fn reject(self) -> (r: Rejection)
        ensures
            r@ == (RejectionView {
                not_found: false,
                invalid_body: false,
                error: Some(self@),
                method_not_allowed: false,
            }),
    {
        Rejection { not_found: false, invalid_body: false, error: Some(self), method_not_allowed: false }
    }
}

/// Classifies a failed insert from the store's code, where it gave one, and
/// its message. The failure keeps the message as its cause.
pub fn classify_insert_failure(code: Option<i32>, message: String) -> (r: Error)
    ensures
        r@.kind == insert_failure_kind(code, message@),
        r@.cause == message@,
{
    let by_code: bool = match code {
        Some(c) => c == DUPLICATE_KEY_CODE,
        None => false,
    };
    if by_code || str_contains(message.as_str(), "E11000 duplicate key error collection") {
        Error::MongoDuplicateError(message)
    } else {
        Error::MongoQueryError(message)
    }
}

/// Answers a failure of the data-access layer.
pub fn error_to_reply(err: &Error) -> (r: Reply)
    ensures
        r@ == error_reply(err@),
{
    match err {
        Error::MongoError(_) => Reply::generic(STATUS_INTERNAL_SERVER_ERROR, "fail", "MongoDB error"),
        Error::MongoDuplicateError(_) => Reply::generic(
            STATUS_CONFLICT,
            "fail",
            "Duplicate key error",
        ),
        Error::MongoQueryError(_) => Reply::generic(
            STATUS_INTERNAL_SERVER_ERROR,
            "fail",
            "Error during mongodb query",
        ),
        Error::MongoSerializeBsonError(_) => Reply::generic(
            STATUS_INTERNAL_SERVER_ERROR,
            "fail",
            "Error seserializing BSON",
        ),
        Error::MongoDataError(_) => Reply::generic(
            STATUS_INTERNAL_SERVER_ERROR,
            "fail",
            "validation error",
        ),
        Error::InvalidIDError(id) => Reply::generic(STATUS_BAD_REQUEST, "fail", id.as_str()),
    }
}

/// Answers a rejected request: every rejection gets a well-formed envelope
/// and a status code.
pub fn handle_rejection(err: &Rejection) -> (r: Reply)
    ensures
        r@ == rejection_reply(err@),
{
    if err.not_found {
        Reply::generic(STATUS_NOT_FOUND, "fail", "Route does not exist on the server")
    } else if err.invalid_body {
        Reply::generic(STATUS_BAD_REQUEST, "fail", "Invalid Body")
    } else {
        match &err.error {
            Some(e) => error_to_reply(e),
            None => {
                if err.method_not_allowed {
                    Reply::generic(STATUS_METHOD_NOT_ALLOWED, "fail", "Method Not Allowed")
                } else {
                    Reply::generic(STATUS_INTERNAL_SERVER_ERROR, "error", "Internal Server Error")
                }
            },
        }
    }
}

} // verus!
