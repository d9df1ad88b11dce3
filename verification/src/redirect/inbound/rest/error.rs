//! What a failed redirect is answered with.

use crate::domain::repos::url_repo::{GetUrlErrorView, UrlRepoErrorView};
use crate::redirect::services::redirect_service::error::{
    RedirectServiceError, RedirectServiceErrorView,
};
use vstd::prelude::*;

verus! {

/// The status of a redirect for which no binding exists.
pub const NOT_FOUND: u16 = 404;

/// The status of a redirect that failed for no fault of its sender.
pub const INTERNAL_SERVER_ERROR: u16 = 500;

/// A failure of the redirect service as its client sees it.
#[derive(Debug, Clone, PartialEq, Eq)]
pub enum ApiError {
    /// The service failed.
    RedirectServiceError(RedirectServiceError),
}

/// `ApiError` as a mathematical value.
pub enum ApiErrorView {
    RedirectServiceError(RedirectServiceErrorView),
}

impl View for ApiError {
    type V = ApiErrorView;

    open spec fn view(&self) -> ApiErrorView {
        match *self {
            ApiError::RedirectServiceError(e) => ApiErrorView::RedirectServiceError(e@),
        }
    }
}

impl ApiErrorView {
    /// The status of the answer: not found where no binding exists, by the
    /// service's finding or by the store's, and a failure of the server for
    /// everything else.
    pub open spec fn status(self) -> u16 {
        match self {
            ApiErrorView::RedirectServiceError(RedirectServiceErrorView::UrlNotFound(_)) => NOT_FOUND,
            ApiErrorView::RedirectServiceError(
                RedirectServiceErrorView::UrlRepoError(UrlRepoErrorView::Get(GetUrlErrorView::NotFound)),
            ) => NOT_FOUND,
            ApiErrorView::RedirectServiceError(_) => INTERNAL_SERVER_ERROR,
        }
    }

    /// The text of the answer: what the service says, or what the store
    /// says where the store failed.
    pub open spec fn body(self) -> Seq<char> {
        match self {
            ApiErrorView::RedirectServiceError(RedirectServiceErrorView::UrlRepoError(e)) => e.message(),
            ApiErrorView::RedirectServiceError(e) => e.message(),
        }
    }
}

impl ApiError {
    /// The status and the text that answer the redirect.
    pub fn into_response(self) -> (r: (u16, String))
        ensures
            r.0 == self@.status(),
            r.1@ == self@.body(),
    {
        match self {
            ApiError::RedirectServiceError(err) => {
                let status: u16 = if err.not_found() {
                    NOT_FOUND
                } else {
                    INTERNAL_SERVER_ERROR
                };
                let body: String = match &err {
                    RedirectServiceError::UrlRepoError(e) => e.message(),
                    _ => err.message(),
                };
                (status, body)
            },
        }
    }
}

} // verus!
