//! The failures of the redirect service.

use crate::domain::repos::url_repo::{UrlRepoError, UrlRepoErrorView};
use crate::text::joined;
use vstd::prelude::*;

verus! {

/// A failure of the cache of bindings.
#[derive(Debug, Clone, PartialEq, Eq)]
pub enum RedisRedirectServiceCacheError {
    /// The cache could not be reached or refused; the text is its message.
    RedisClientError(String),
    /// An entry of the cache could not be written or read as a binding.
    InternalError(String),
}

/// A failure of a redirect.
#[derive(Debug, Clone, PartialEq, Eq)]
pub enum RedirectServiceError {
    /// The durable store failed.
    UrlRepoError(UrlRepoError),
    /// Neither the cache nor the store holds a binding for the code; the
    /// text is the code.
    UrlNotFound(String),
    /// The cache failed.
    CacheError(RedisRedirectServiceCacheError),
}

/// `RedisRedirectServiceCacheError` as a mathematical value.
pub enum RedisRedirectServiceCacheErrorView {
    RedisClientError(Seq<char>),
    InternalError(Seq<char>),
}

impl View for RedisRedirectServiceCacheError {
    type V = RedisRedirectServiceCacheErrorView;

    open spec fn view(&self) -> RedisRedirectServiceCacheErrorView {
        match *self {
            RedisRedirectServiceCacheError::RedisClientError(m) => {
                RedisRedirectServiceCacheErrorView::RedisClientError(m@)
            },
            RedisRedirectServiceCacheError::InternalError(m) => {
                RedisRedirectServiceCacheErrorView::InternalError(m@)
            },
        }
    }
}

/// `RedirectServiceError` as a mathematical value.
pub enum RedirectServiceErrorView {
    UrlRepoError(UrlRepoErrorView),
    UrlNotFound(Seq<char>),
    CacheError(RedisRedirectServiceCacheErrorView),
}

impl View for RedirectServiceError {
    type V = RedirectServiceErrorView;

    open spec fn view(&self) -> RedirectServiceErrorView {
        match *self {
            RedirectServiceError::UrlRepoError(e) => RedirectServiceErrorView::UrlRepoError(e@),
            RedirectServiceError::UrlNotFound(code) => RedirectServiceErrorView::UrlNotFound(code@),
            RedirectServiceError::CacheError(e) => RedirectServiceErrorView::CacheError(e@),
        }
    }
}

impl RedirectServiceError {
    /// Whether the failure says that no binding exists for the code: the
    /// service's own finding, or the store's.
    pub open spec fn is_not_found(self) -> bool {
        match self {
            RedirectServiceError::UrlNotFound(_) => true,
            RedirectServiceError::UrlRepoError(e) => e.is_not_found(),
            RedirectServiceError::CacheError(_) => false,
        }
    }

    /// Whether the failure says that no binding exists for the code.
    pub fn not_found(&self) -> (r: bool)
        ensures
            r == self.is_not_found(),
    {
        match self {
            RedirectServiceError::UrlNotFound(_) => true,
            RedirectServiceError::UrlRepoError(e) => e.not_found(),
            RedirectServiceError::CacheError(_) => false,
        }
    }
}

impl RedisRedirectServiceCacheErrorView {
    /// The failure in words.
    pub open spec fn message(self) -> Seq<char> {
        match self {
            RedisRedirectServiceCacheErrorView::RedisClientError(m) => "Redis Client Error: "@ + m,
            RedisRedirectServiceCacheErrorView::InternalError(m) => "Internal Error: "@ + m,
        }
    }
}

impl RedisRedirectServiceCacheError {
    /// The failure in words.
    pub fn message(&self) -> (r: String)
        ensures
            r@ == self@.message(),
    {
        match self {
            RedisRedirectServiceCacheError::RedisClientError(m) => joined(
                "Redis Client Error: ",
                m.as_str(),
            ),
            RedisRedirectServiceCacheError::InternalError(m) => joined("Internal Error: ", m.as_str()),
        }
    }
}

impl RedirectServiceErrorView {
    /// The failure in words.
    pub open spec fn message(self) -> Seq<char> {
        match self {
            RedirectServiceErrorView::UrlRepoError(e) => "Url Repo Error: "@ + e.message(),
            RedirectServiceErrorView::UrlNotFound(code) => "Url Not Found: "@ + code,
            RedirectServiceErrorView::CacheError(e) => "Cache Error: "@ + e.message(),
        }
    }
}

impl RedirectServiceError {
    /// The failure in words.
    pub fn message(&self) -> (r: String)
        ensures
            r@ == self@.message(),
    {
        match self {
            RedirectServiceError::UrlRepoError(e) => joined("Url Repo Error: ", e.message().as_str()),
            RedirectServiceError::UrlNotFound(code) => joined("Url Not Found: ", code.as_str()),
            RedirectServiceError::CacheError(e) => joined("Cache Error: ", e.message().as_str()),
        }
    }
}

} // verus!
