//! What a failed shorten request is answered with.

use crate::shorten::services::shorten_service::error::{
    ShortenServiceError, ShortenServiceErrorView,
};
use vstd::prelude::*;

verus! {

/// The status of a request that names nothing that exists.
pub const NOT_FOUND: u16 = 404;

/// The status of a request that its sender has to mend.
pub const BAD_REQUEST: u16 = 400;

/// The status of a request that failed for no fault of its sender.
pub const INTERNAL_SERVER_ERROR: u16 = 500;

/// A failure of the shorten service as its client sees it.
#[derive(Debug, Clone, PartialEq, Eq)]
pub enum ApiError {
    NotFound,
    BadRequest,
    /// The request is not well formed; the text says where.
    ValidationError(String),
    /// The service failed.
    ShortenServiceError(ShortenServiceError),
}

/// `ApiError` as a mathematical value.
pub enum ApiErrorView {
    NotFound,
    BadRequest,
    ValidationError(Seq<char>),
    ShortenServiceError(ShortenServiceErrorView),
}

impl View for ApiError {
    type V = ApiErrorView;

    open spec fn view(&self) -> ApiErrorView {
        match *self {
            ApiError::NotFound => ApiErrorView::NotFound,
            ApiError::BadRequest => ApiErrorView::BadRequest,
            ApiError::ValidationError(m) => ApiErrorView::ValidationError(m@),
            ApiError::ShortenServiceError(e) => ApiErrorView::ShortenServiceError(e@),
        }
    }
}

impl ApiErrorView {
    /// The status of the answer: a conflict over an alias and a request that
    /// is not well formed are the sender's to mend; every failure of a
    /// backend is a failure of the server.
    pub open spec fn status(self) -> u16 {
        match self {
            ApiErrorView::NotFound => NOT_FOUND,
            ApiErrorView::BadRequest => BAD_REQUEST,
            ApiErrorView::ValidationError(_) => BAD_REQUEST,
            ApiErrorView::ShortenServiceError(ShortenServiceErrorView::AliasTaken(_)) => BAD_REQUEST,
            ApiErrorView::ShortenServiceError(
                ShortenServiceErrorView::UrlAlreadyExistedWithAlias(_),
            ) => BAD_REQUEST,
            ApiErrorView::ShortenServiceError(_) => INTERNAL_SERVER_ERROR,
        }
    }

    /// The text of the answer.
    pub open spec fn body(self) -> Seq<char> {
        match self {
            ApiErrorView::NotFound => "Not Found"@,
            ApiErrorView::BadRequest => "Bad Request"@,
            ApiErrorView::ValidationError(m) => m,
            ApiErrorView::ShortenServiceError(e) => e.message(),
        }
    }
}

impl ApiError {
    /// The status and the text that answer the request.
    pub fn into_response(self) -> (r: (u16, String))
        ensures
            r.0 == self@.status(),
            r.1@ == self@.body(),
    {
        match self {
            ApiError::NotFound => (NOT_FOUND, "Not Found".to_owned()),
            ApiError::BadRequest => (BAD_REQUEST, "Bad Request".to_owned()),
            ApiError::ValidationError(m) => (BAD_REQUEST, m),
            ApiError::ShortenServiceError(e) => {
                let status: u16 = if e.conflict() {
                    BAD_REQUEST
                } else {
                    INTERNAL_SERVER_ERROR
                };
                (status, e.message())
            },
        }
    }
}

} // verus!
