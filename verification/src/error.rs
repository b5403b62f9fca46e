//! The error type shared by every route, and what a client is told of it.

use vstd::prelude::*;

verus! {

/// Error type shared by every handler.
///
/// `Database` carries the description of a storage failure; it is never
/// shown to clients.
#[derive(Debug, Clone)]
pub enum ApiError {
    BadRequest(String),
    Unauthorized,
    Forbidden,
    NotFound(String),
    Conflict(String),
    ServiceUnavailable(String),
    Database(String),
    Internal(String),
}

pub type ApiResult<T> = Result<T, ApiError>;

/// An [`ApiError`] with its texts as character sequences.
pub ghost enum ErrorView {
    BadRequest(Seq<char>),
    Unauthorized,
    Forbidden,
    NotFound(Seq<char>),
    Conflict(Seq<char>),
    ServiceUnavailable(Seq<char>),
    Database(Seq<char>),
    Internal(Seq<char>),
}

impl View for ApiError {
    type V = ErrorView;

    open spec fn view(&self) -> ErrorView {
        match self {
            ApiError::BadRequest(m) => ErrorView::BadRequest(m@),
            ApiError::Unauthorized => ErrorView::Unauthorized,
            ApiError::Forbidden => ErrorView::Forbidden,
            ApiError::NotFound(m) => ErrorView::NotFound(m@),
            ApiError::Conflict(m) => ErrorView::Conflict(m@),
            ApiError::ServiceUnavailable(m) => ErrorView::ServiceUnavailable(m@),
            ApiError::Database(m) => ErrorView::Database(m@),
            ApiError::Internal(m) => ErrorView::Internal(m@),
        }
    }
}

/// The HTTP status each error is answered with.
pub open spec fn status_of(e: ApiError) -> u16 {
    match e {
        ApiError::BadRequest(_) => 400,
        ApiError::Unauthorized => 401,
        ApiError::Forbidden => 403,
        ApiError::NotFound(_) => 404,
        ApiError::Conflict(_) => 409,
        ApiError::ServiceUnavailable(_) => 503,
        ApiError::Database(_) => 500,
        ApiError::Internal(_) => 500,
    }
}

/// The error's text (what `Display` prints).
pub open spec fn message_of(e: ApiError) -> Seq<char> {
    match e {
        ApiError::BadRequest(m) => m@,
        ApiError::Unauthorized => "authentication required"@,
        ApiError::Forbidden => "forbidden"@,
        ApiError::NotFound(m) => m@,
        ApiError::Conflict(m) => m@,
        ApiError::ServiceUnavailable(m) => m@,
        ApiError::Database(m) => "database error: "@ + m@,
        ApiError::Internal(m) => m@,
    }
}

/// Internal failures are answered with a fixed text so that SQL and paths
/// never reach a client.
pub open spec fn client_message_of(e: ApiError) -> Seq<char> {
    match e {
        ApiError::Database(_) => "internal server error"@,
        ApiError::Internal(_) => "internal server error"@,
        _ => message_of(e),
    }
}

impl ApiError {
    /// `NotFound("<what> not found")`.
    pub fn not_found(what: &str) -> (r: Self)
        ensures
            r matches ApiError::NotFound(m) && m@ == what@ + " not found"@,
    {
        ApiError::NotFound(String::from_str(what).concat(" not found"))
    }

    pub fn bad_request(msg: &str) -> (r: Self)
        ensures
            r matches ApiError::BadRequest(m) && m@ == msg@,
    {
        ApiError::BadRequest(String::from_str(msg))
    }

    pub fn status_code(&self) -> (r: u16)
        ensures
            r == status_of(*self),
    {
        match self {
            ApiError::BadRequest(_) => 400,
            ApiError::Unauthorized => 401,
            ApiError::Forbidden => 403,
            ApiError::NotFound(_) => 404,
            ApiError::Conflict(_) => 409,
            ApiError::ServiceUnavailable(_) => 503,
            ApiError::Database(_) => 500,
            ApiError::Internal(_) => 500,
        }
    }

    pub fn message(&self) -> (r: String)
        ensures
            r@ == message_of(*self),
    {
        match self {
            ApiError::BadRequest(m) => m.clone(),
            ApiError::Unauthorized => String::from_str("authentication required"),
            ApiError::Forbidden => String::from_str("forbidden"),
            ApiError::NotFound(m) => m.clone(),
            ApiError::Conflict(m) => m.clone(),
            ApiError::ServiceUnavailable(m) => m.clone(),
            ApiError::Database(m) => String::from_str("database error: ").concat(m.as_str()),
            ApiError::Internal(m) => m.clone(),
        }
    }

    /// The text placed in the `{"error": ...}` body of the response.
    pub fn client_message(&self) -> (r: String)
        ensures
            r@ == client_message_of(*self),
    {
        match self {
            ApiError::Database(_) => String::from_str("internal server error"),
            ApiError::Internal(_) => String::from_str("internal server error"),
            _ => self.message(),
        }
    }

    /// Only an authentication failure asks for a bearer token
    /// (`WWW-Authenticate: Bearer`).
    pub fn asks_for_bearer(&self) -> (r: bool)
        ensures
            r == (*self is Unauthorized),
    {
        match self {
            ApiError::Unauthorized => true,
            _ => false,
        }
    }
}

/// The row a lookup found, or `NotFound("<what> not found")`.
pub fn found<T>(row: Option<T>, what: &str) -> (r: ApiResult<T>)
    ensures
        match row {
            Some(x) => r == Ok::<T, ApiError>(x),
            None => r matches Err(ApiError::NotFound(m)) && m@ == what@ + " not found"@,
        },
{
    match row {
        Some(x) => Ok(x),
        None => Err(ApiError::not_found(what)),
    }
}

/// `NotFound("<what> not found")` unless the looked-up record exists.
pub fn require_exists(exists: bool, what: &str) -> (r: ApiResult<()>)
    ensures
        exists ==> r is Ok,
        !exists ==> (r matches Err(ApiError::NotFound(m)) && m@ == what@ + " not found"@),
{
    if exists {
        Ok(())
    } else {
        Err(ApiError::not_found(what))
    }
}

/// Every error that carries internal details is answered with status 500
/// and the fixed text, so nothing of it reaches the client.
pub proof fn lemma_internal_details_stay_hidden(e: ApiError)
    requires
        e is Database || e is Internal,
    ensures
        status_of(e) == 500,
        client_message_of(e) == "internal server error"@,
{
}

} // verus!
