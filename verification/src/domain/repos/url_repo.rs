//! The failures of the durable store, by operation.

use crate::text::joined;
use vstd::prelude::*;

verus! {

/// Why a lookup by short code gave no binding.
#[derive(Debug, Clone, PartialEq, Eq)]
pub enum GetUrlError {
    /// No binding has that code.
    NotFound,
    /// The store could not be reached or refused; the text is its message.
    ClientError(String),
    /// The store answered with something that is no binding.
    InternalError(String),
}

/// Why an insert was not made.
#[derive(Debug, Clone, PartialEq, Eq)]
pub enum InsertUrlError {
    /// A uniqueness constraint of the store already holds a binding in that place.
    AlreadyExists,
    /// The store refuses the record.
    InvalidUrl,
    /// The store could not be reached or refused; the text is its message.
    ClientError(String),
}

/// Why a replacement was not made.
#[derive(Debug, Clone, PartialEq, Eq)]
pub enum ReplaceUrlError {
    /// The store could not be reached or refused; the text is its message.
    ClientError(String),
    /// No binding has the short code that was to be replaced.
    NotFound(String),
}

/// A failure of the durable store.
#[derive(Debug, Clone, PartialEq, Eq)]
pub enum UrlRepoError {
    Get(GetUrlError),
    Insert(InsertUrlError),
    Replace(ReplaceUrlError),
}

/// `GetUrlError` as a mathematical value.
pub enum GetUrlErrorView {
    NotFound,
    ClientError(Seq<char>),
    InternalError(Seq<char>),
}

/// `InsertUrlError` as a mathematical value.
pub enum InsertUrlErrorView {
    AlreadyExists,
    InvalidUrl,
    ClientError(Seq<char>),
}

/// `ReplaceUrlError` as a mathematical value.
pub enum ReplaceUrlErrorView {
    ClientError(Seq<char>),
    NotFound(Seq<char>),
}

/// `UrlRepoError` as a mathematical value.
pub enum UrlRepoErrorView {
    Get(GetUrlErrorView),
    Insert(InsertUrlErrorView),
    Replace(ReplaceUrlErrorView),
}

impl View for GetUrlError {
    type V = GetUrlErrorView;

    open spec fn view(&self) -> GetUrlErrorView {
        match *self {
            GetUrlError::NotFound => GetUrlErrorView::NotFound,
            GetUrlError::ClientError(m) => GetUrlErrorView::ClientError(m@),
            GetUrlError::InternalError(m) => GetUrlErrorView::InternalError(m@),
        }
    }
}

impl View for InsertUrlError {
    type V = InsertUrlErrorView;

    open spec fn view(&self) -> InsertUrlErrorView {
        match *self {
            InsertUrlError::AlreadyExists => InsertUrlErrorView::AlreadyExists,
            InsertUrlError::InvalidUrl => InsertUrlErrorView::InvalidUrl,
            InsertUrlError::ClientError(m) => InsertUrlErrorView::ClientError(m@),
        }
    }
}

impl View for ReplaceUrlError {
    type V = ReplaceUrlErrorView;

    open spec fn view(&self) -> ReplaceUrlErrorView {
        match *self {
            ReplaceUrlError::ClientError(m) => ReplaceUrlErrorView::ClientError(m@),
            ReplaceUrlError::NotFound(short) => ReplaceUrlErrorView::NotFound(short@),
        }
    }
}

impl View for UrlRepoError {
    type V = UrlRepoErrorView;

    open spec fn view(&self) -> UrlRepoErrorView {
        match *self {
            UrlRepoError::Get(e) => UrlRepoErrorView::Get(e@),
            UrlRepoError::Insert(e) => UrlRepoErrorView::Insert(e@),
            UrlRepoError::Replace(e) => UrlRepoErrorView::Replace(e@),
        }
    }
}

impl UrlRepoError {
    /// Whether the failure says that the binding asked for does not exist.
    pub open spec fn is_not_found(self) -> bool {
        self@ == UrlRepoErrorView::Get(GetUrlErrorView::NotFound)
    }

    /// Whether the failure says that the binding asked for does not exist.
    pub fn not_found(&self) -> (r: bool)
        ensures
            r == self.is_not_found(),
    {
        match self {
            UrlRepoError::Get(GetUrlError::NotFound) => true,
            _ => false,
        }
    }
}

impl GetUrlErrorView {
    /// The failure in words.
    pub open spec fn message(self) -> Seq<char> {
        match self {
            GetUrlErrorView::NotFound => "URL not found"@,
            GetUrlErrorView::ClientError(m) => "Client Error: "@ + m,
            GetUrlErrorView::InternalError(m) => "Internal Errorr: "@ + m,
        }
    }
}

impl InsertUrlErrorView {
    /// The failure in words.
    pub open spec fn message(self) -> Seq<char> {
        match self {
            InsertUrlErrorView::AlreadyExists => "URL already exists"@,
            InsertUrlErrorView::InvalidUrl => "Invalid URL"@,
            InsertUrlErrorView::ClientError(m) => "Client Error: "@ + m,
        }
    }
}

impl ReplaceUrlErrorView {
    /// The failure in words.
    pub open spec fn message(self) -> Seq<char> {
        match self {
            ReplaceUrlErrorView::ClientError(m) => "Client Error: "@ + m,
            ReplaceUrlErrorView::NotFound(short) => "URL not found: "@ + short,
        }
    }
}

impl UrlRepoErrorView {
    /// The failure in words: the operation that failed, then why.
    pub open spec fn message(self) -> Seq<char> {
        match self {
            UrlRepoErrorView::Get(e) => "Get URL error: "@ + e.message(),
            UrlRepoErrorView::Insert(e) => "Insert URL error: "@ + e.message(),
            UrlRepoErrorView::Replace(e) => "Replace URL error: "@ + e.message(),
        }
    }
}

impl GetUrlError {
    /// The failure in words.
    pub fn message(&self) -> (r: String)
        ensures
            r@ == self@.message(),
    {
        match self {
            GetUrlError::NotFound => "URL not found".to_owned(),
            GetUrlError::ClientError(m) => joined("Client Error: ", m.as_str()),
            GetUrlError::InternalError(m) => joined("Internal Errorr: ", m.as_str()),
        }
    }
}

impl InsertUrlError {
    /// The failure in words.
    pub fn message(&self) -> (r: String)
        ensures
            r@ == self@.message(),
    {
        match self {
            InsertUrlError::AlreadyExists => "URL already exists".to_owned(),
            InsertUrlError::InvalidUrl => "Invalid URL".to_owned(),
            InsertUrlError::ClientError(m) => joined("Client Error: ", m.as_str()),
        }
    }
}

impl ReplaceUrlError {
    /// The failure in words.
    pub fn message(&self) -> (r: String)
        ensures
            r@ == self@.message(),
    {
        match self {
            ReplaceUrlError::ClientError(m) => joined("Client Error: ", m.as_str()),
            ReplaceUrlError::NotFound(short) => joined("URL not found: ", short.as_str()),
        }
    }
}

impl UrlRepoError {
    /// The failure in words.
    pub fn message(&self) -> (r: String)
        ensures
            r@ == self@.message(),
    {
        match self {
            UrlRepoError::Get(e) => joined("Get URL error: ", e.message().as_str()),
            UrlRepoError::Insert(e) => joined("Insert URL error: ", e.message().as_str()),
            UrlRepoError::Replace(e) => joined("Replace URL error: ", e.message().as_str()),
        }
    }
}

} // verus!
