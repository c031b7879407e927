//! The closed set of failures that leave the service, and the HTTP status of each.

use vstd::prelude::*;
use vstd::std_specs::convert::FromSpecImpl;

verus! {

/// Content of a [`ValidationError`].
pub struct ValidationErrorView {
    pub error: Seq<char>,
    pub field: Option<Seq<char>>,
}

/// A rejected input: the reason, and the field at fault where there is one.
#[derive(Debug)]
pub struct ValidationError {
    pub error: String,
    pub field: Option<String>,
}

impl View for ValidationError {
    type V = ValidationErrorView;

    open spec fn view(&self) -> ValidationErrorView {
        ValidationErrorView {
            error: self.error@,
            field: match self.field {
                Some(f) => Some(f@),
                None => None,
            },
        }
    }
}

impl ValidationError {
    /// The HTTP status a validation failure is answered with.
    pub fn status_code(&self) -> (code: u16)
        ensures
            code == 400,
    {
        400
    }
}

/// Content of a [`ServerError`].
pub struct ServerErrorView {
    pub error: Seq<char>,
    pub message: Seq<char>,
}

/// A fault of the storage layer: its kind and what the service failed to do.
#[derive(Debug)]
pub struct ServerError {
    pub error: String,
    pub message: String,
}

impl View for ServerError {
    type V = ServerErrorView;

    open spec fn view(&self) -> ServerErrorView {
        ServerErrorView { error: self.error@, message: self.message@ }
    }
}

impl ServerError {
    /// The HTTP status a storage fault is answered with.
    pub fn status_code(&self) -> (code: u16)
        ensures
            code == 500,
    {
        500
    }
}

/// Content of an [`ApiError`].
pub enum ApiErrorView {
    Validation(ValidationErrorView),
    Server(ServerErrorView),
    NotFound(Seq<char>),
}

/// Every failure a request can end in.
#[derive(Debug)]
pub enum ApiError {
    Validation(ValidationError),
    Server(ServerError),
    NotFound(String),
}

impl View for ApiError {
    type V = ApiErrorView;

    open spec fn view(&self) -> ApiErrorView {
        match self {
            ApiError::Validation(e) => ApiErrorView::Validation(e@),
            ApiError::Server(e) => ApiErrorView::Server(e@),
            ApiError::NotFound(m) => ApiErrorView::NotFound(m@),
        }
    }
}

/// The HTTP status of each kind of failure.
pub open spec fn status_of(e: ApiErrorView) -> int {
    match e {
        ApiErrorView::Validation(_) => 400,
        ApiErrorView::Server(_) => 500,
        ApiErrorView::NotFound(_) => 404,
    }
}

impl ApiError {
    /// The HTTP status this failure is answered with.
    pub fn status_code(&self) -> (code: u16)
        ensures
            code == status_of(self@),
    {
        match self {
            ApiError::Validation(e) => e.status_code(),
            ApiError::Server(e) => e.status_code(),
            ApiError::NotFound(_) => 404,
        }
    }
}

/// The HTTP status of an answer: 200 where the request was served, else the
/// status of the failure.
pub open spec fn status_of_answer<T>(answer: Result<T, ApiError>) -> int {
    match answer {
        Ok(_) => 200,
        Err(e) => status_of(e@),
    }
}

/// The HTTP status that `answer` goes out with.
pub fn response_status<T>(answer: &Result<T, ApiError>) -> (code: u16)
    ensures
        code == status_of_answer(*answer),
{
    match answer {
        Ok(_) => 200,
        Err(e) => e.status_code(),
    }
}

impl From<ValidationError> for ApiError {
    fn from(err: ValidationError) -> (e: ApiError) {
        ApiError::Validation(err)
    }
}

impl FromSpecImpl<ValidationError> for ApiError {
    open spec fn obeys_from_spec() -> bool {
        true
    }

    open spec fn from_spec(err: ValidationError) -> ApiError {
        ApiError::Validation(err)
    }
}

impl From<ServerError> for ApiError {
    fn from(err: ServerError) -> (e: ApiError) {
        ApiError::Server(err)
    }
}

impl FromSpecImpl<ServerError> for ApiError {
    open spec fn obeys_from_spec() -> bool {
        true
    }

    open spec fn from_spec(err: ServerError) -> ApiError {
        ApiError::Server(err)
    }
}

} // verus!
