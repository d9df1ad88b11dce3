//! The failures of the shorten service.

use crate::domain::repos::url_repo::{UrlRepoError, UrlRepoErrorView};
use crate::shorten::outbound::zookeeper::id_generator::{
    ZooKeeperIdGeneratorError, ZooKeeperIdGeneratorErrorView,
};
use crate::text::joined;
use vstd::prelude::*;

verus! {

/// A failure of the cache of bindings.
#[derive(Debug, Clone, PartialEq, Eq)]
pub enum RedisShortenServiceCacheError {
    /// The cache could not be reached or refused; the text is its message.
    RedisClientError(String),
    /// An entry of the cache could not be written or read as a binding.
    InternalError(String),
}

/// A failure of a shorten request.
#[derive(Debug, Clone, PartialEq, Eq)]
pub enum ShortenServiceError {
    /// The durable store failed.
    UrlRepoError(UrlRepoError),
    /// No identifier could be allocated.
    IdGeneratorError(ZooKeeperIdGeneratorError),
    /// The cache failed.
    CacheError(RedisShortenServiceCacheError),
    /// The allocator's identifier is no decimal numeral; the text is what it gave.
    InternalError(String),
    /// The binding under the requested alias is bound under another alias, or
    /// under none; the text is the alias that it is bound under, empty where
    /// it has none.
    AliasTaken(String),
    /// The requested alias is bound to another long URL; the text is the alias.
    UrlAlreadyExistedWithAlias(String),
}

/// `RedisShortenServiceCacheError` as a mathematical value.
pub enum RedisShortenServiceCacheErrorView {
    RedisClientError(Seq<char>),
    InternalError(Seq<char>),
}

impl View for RedisShortenServiceCacheError {
    type V = RedisShortenServiceCacheErrorView;

    open spec fn view(&self) -> RedisShortenServiceCacheErrorView {
        match *self {
            RedisShortenServiceCacheError::RedisClientError(m) => {
                RedisShortenServiceCacheErrorView::RedisClientError(m@)
            },
            RedisShortenServiceCacheError::InternalError(m) => {
                RedisShortenServiceCacheErrorView::InternalError(m@)
            },
        }
    }
}

/// `ShortenServiceError` as a mathematical value.
pub enum ShortenServiceErrorView {
    UrlRepoError(UrlRepoErrorView),
    IdGeneratorError(ZooKeeperIdGeneratorErrorView),
    CacheError(RedisShortenServiceCacheErrorView),
    InternalError(Seq<char>),
    AliasTaken(Seq<char>),
    UrlAlreadyExistedWithAlias(Seq<char>),
}

impl View for ShortenServiceError {
    type V = ShortenServiceErrorView;

    open spec fn view(&self) -> ShortenServiceErrorView {
        match *self {
            ShortenServiceError::UrlRepoError(e) => ShortenServiceErrorView::UrlRepoError(e@),
            ShortenServiceError::IdGeneratorError(e) => ShortenServiceErrorView::IdGeneratorError(e@),
            ShortenServiceError::CacheError(e) => ShortenServiceErrorView::CacheError(e@),
            ShortenServiceError::InternalError(t) => ShortenServiceErrorView::InternalError(t@),
            ShortenServiceError::AliasTaken(a) => ShortenServiceErrorView::AliasTaken(a@),
            ShortenServiceError::UrlAlreadyExistedWithAlias(a) => {
                ShortenServiceErrorView::UrlAlreadyExistedWithAlias(a@)
            },
        }
    }
}

impl ShortenServiceError {
    /// Whether the failure is a conflict over an alias, which the caller can
    /// mend, and no failure of a backend.
    pub open spec fn is_conflict(self) -> bool {
        self is AliasTaken || self is UrlAlreadyExistedWithAlias
    }

    /// Whether the failure is a conflict over an alias.
    pub fn conflict(&self) -> (r: bool)
        ensures
            r == self.is_conflict(),
    {
        match self {
            ShortenServiceError::AliasTaken(_) => true,
            ShortenServiceError::UrlAlreadyExistedWithAlias(_) => true,
            _ => false,
        }
    }
}

impl RedisShortenServiceCacheErrorView {
    /// The failure in words.
    pub open spec fn message(self) -> Seq<char> {
        match self {
            RedisShortenServiceCacheErrorView::RedisClientError(m) => "Redis Client Error: "@ + m,
            RedisShortenServiceCacheErrorView::InternalError(m) => "Internal Error: "@ + m,
        }
    }
}

impl RedisShortenServiceCacheError {
    /// The failure in words.
    pub fn message(&self) -> (r: String)
        ensures
            r@ == self@.message(),
    {
        match self {
            RedisShortenServiceCacheError::RedisClientError(m) => joined(
                "Redis Client Error: ",
                m.as_str(),
            ),
            RedisShortenServiceCacheError::InternalError(m) => joined("Internal Error: ", m.as_str()),
        }
    }
}

impl ShortenServiceErrorView {
    /// The failure in words: the layer that failed, then why.
    pub open spec fn message(self) -> Seq<char> {
        match self {
            ShortenServiceErrorView::UrlRepoError(e) => "UrlRepoError: "@ + e.message(),
            ShortenServiceErrorView::IdGeneratorError(e) => "Generate Id Error: "@ + e.message(),
            ShortenServiceErrorView::CacheError(e) => "Cache Error: "@ + e.message(),
            ShortenServiceErrorView::InternalError(t) => "Internal Error: "@ + t,
            ShortenServiceErrorView::AliasTaken(a) => "Alias already taken: "@ + a,
            ShortenServiceErrorView::UrlAlreadyExistedWithAlias(a) => {
                "Url already existed with alias: "@ + a
            },
        }
    }
}

impl ShortenServiceError {
    /// The failure in words.
    pub fn message(&self) -> (r: String)
        ensures
            r@ == self@.message(),
    {
        match self {
            ShortenServiceError::UrlRepoError(e) => joined("UrlRepoError: ", e.message().as_str()),
            ShortenServiceError::IdGeneratorError(e) => joined(
                "Generate Id Error: ",
                e.message().as_str(),
            ),
            ShortenServiceError::CacheError(e) => joined("Cache Error: ", e.message().as_str()),
            ShortenServiceError::InternalError(t) => joined("Internal Error: ", t.as_str()),
            ShortenServiceError::AliasTaken(a) => joined("Alias already taken: ", a.as_str()),
            ShortenServiceError::UrlAlreadyExistedWithAlias(a) => joined(
                "Url already existed with alias: ",
                a.as_str(),
            ),
        }
    }
}

} // verus!
