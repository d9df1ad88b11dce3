//! The resolution of a code to its long URL: the cache first, under the code
//! as a short code and then as an alias, the store where the cache holds
//! nothing, and the cache filled from what the store gave.
//!
//! Whether a binding is expired is not asked here: an expired binding
//! resolves until a shorten request gives its place to another.

use crate::domain::entities::url::{Url, UrlView};
use crate::outbound::redis::keys::{alias_key, alias_key_of, short_key, short_key_of};
use crate::redirect::services::redirect_service::error::{
    RedirectServiceError, RedirectServiceErrorView,
};
use vstd::prelude::*;

pub mod error;

verus! {

/// The texts of a sequence of strings.
pub open spec fn texts(keys: Seq<String>) -> Seq<Seq<char>> {
    Seq::new(keys.len(), |i: int| keys[i]@)
}

/// The keys under which `url` lies in the cache for the redirect service:
/// that of its short code, then that of its alias if it has one.
pub open spec fn backfill_keys(url: UrlView) -> Seq<Seq<char>> {
    match url.alias {
        Some(alias) => seq![short_key(url.short), alias_key(alias)],
        None => seq![short_key(url.short)],
    }
}

/// What the service asks to be done next.
#[derive(Debug, PartialEq, Eq)]
pub enum RedirectAction {
    /// Read the binding under `key` in the cache.
    CacheGet { key: String },
    /// Find in the store the binding whose alias or whose short code is `code`.
    Find { code: String },
    /// Write `url` under each of `keys` in the cache, all at once.
    CacheSetAll { keys: Vec<String>, url: Url },
    /// The redirect is answered: the long URL, or why there is none.
    Finish(Result<String, RedirectServiceError>),
}

/// What came of the last action.
#[derive(Debug, PartialEq, Eq)]
pub enum RedirectEvent {
    /// Nothing was asked yet.
    Begin,
    /// The cache was read: the binding found, or none.
    Cached(Result<Option<Url>, RedirectServiceError>),
    /// The store was searched: the binding found, or none.
    Found(Result<Option<Url>, RedirectServiceError>),
    /// The cache answered to the write.
    Written(Result<(), RedirectServiceError>),
}

/// How far a redirect has come.
#[derive(Debug, PartialEq, Eq)]
pub enum RedirectStage {
    /// Nothing was asked yet.
    Idle,
    /// The cache is being read under the code as a short code.
    ShortLookup,
    /// The cache is being read under the code as an alias.
    AliasLookup,
    /// The store is being searched.
    StoreLookup,
    /// The cache is being filled with the binding that the store gave;
    /// `long` is its long URL.
    Backfill { long: String },
    /// The redirect is answered.
    Done,
}

/// An action as a mathematical value.
pub enum RedirectActionView {
    CacheGet { key: Seq<char> },
    Find { code: Seq<char> },
    CacheSetAll { keys: Seq<Seq<char>>, url: UrlView },
    Finish(Result<Seq<char>, RedirectServiceErrorView>),
}

/// An event as a mathematical value.
pub enum RedirectEventView {
    Begin,
    Cached(Result<Option<UrlView>, RedirectServiceErrorView>),
    Found(Result<Option<UrlView>, RedirectServiceErrorView>),
    Written(Result<(), RedirectServiceErrorView>),
}

/// A stage as a mathematical value.
pub enum RedirectStageView {
    Idle,
    ShortLookup,
    AliasLookup,
    StoreLookup,
    Backfill { long: Seq<char> },
    Done,
}

impl View for RedirectAction {
    type V = RedirectActionView;

    open spec fn view(&self) -> RedirectActionView {
        match *self {
            RedirectAction::CacheGet { key } => RedirectActionView::CacheGet { key: key@ },
            RedirectAction::Find { code } => RedirectActionView::Find { code: code@ },
            RedirectAction::CacheSetAll { keys, url } => RedirectActionView::CacheSetAll {
                keys: texts(keys@),
                url: url@,
            },
            RedirectAction::Finish(Ok(long)) => RedirectActionView::Finish(Ok(long@)),
            RedirectAction::Finish(Err(e)) => RedirectActionView::Finish(Err(e@)),
        }
    }
}

impl View for RedirectEvent {
    type V = RedirectEventView;

    open spec fn view(&self) -> RedirectEventView {
        match *self {
            RedirectEvent::Begin => RedirectEventView::Begin,
            RedirectEvent::Cached(Ok(Some(url))) => RedirectEventView::Cached(Ok(Some(url@))),
            RedirectEvent::Cached(Ok(None)) => RedirectEventView::Cached(Ok(None)),
            RedirectEvent::Cached(Err(e)) => RedirectEventView::Cached(Err(e@)),
            RedirectEvent::Found(Ok(Some(url))) => RedirectEventView::Found(Ok(Some(url@))),
            RedirectEvent::Found(Ok(None)) => RedirectEventView::Found(Ok(None)),
            RedirectEvent::Found(Err(e)) => RedirectEventView::Found(Err(e@)),
            RedirectEvent::Written(Ok(())) => RedirectEventView::Written(Ok(())),
            RedirectEvent::Written(Err(e)) => RedirectEventView::Written(Err(e@)),
        }
    }
}

impl View for RedirectStage {
    type V = RedirectStageView;

    open spec fn view(&self) -> RedirectStageView {
        match *self {
            RedirectStage::Idle => RedirectStageView::Idle,
            RedirectStage::ShortLookup => RedirectStageView::ShortLookup,
            RedirectStage::AliasLookup => RedirectStageView::AliasLookup,
            RedirectStage::StoreLookup => RedirectStageView::StoreLookup,
            RedirectStage::Backfill { long } => RedirectStageView::Backfill { long: long@ },
            RedirectStage::Done => RedirectStageView::Done,
        }
    }
}

/// One redirect on its way.
#[derive(Debug, PartialEq, Eq)]
pub struct RedirectService {
    pub code: String,
    pub stage: RedirectStage,
}

/// A redirect on its way as a mathematical value.
pub struct RedirectServiceView {
    pub code: Seq<char>,
    pub stage: RedirectStageView,
}

impl View for RedirectService {
    type V = RedirectServiceView;

    open spec fn view(&self) -> RedirectServiceView {
        RedirectServiceView { code: self.code@, stage: self.stage@ }
    }
}

/// The redirect of `code` is answered with `answer`.
pub open spec fn answered(code: Seq<char>, answer: Result<Seq<char>, RedirectServiceErrorView>) -> Option<
    (RedirectServiceView, RedirectActionView),
> {
    Some(
        (
            RedirectServiceView { code, stage: RedirectStageView::Done },
            RedirectActionView::Finish(answer),
        ),
    )
}

/// The redirect of `code` goes on to `stage` with `action`.
pub open spec fn go_on(code: Seq<char>, stage: RedirectStageView, action: RedirectActionView) -> Option<
    (RedirectServiceView, RedirectActionView),
> {
    Some((RedirectServiceView { code, stage }, action))
}

/// One step of a redirect: the stage it goes on to and the action it asks
/// for, where it stood at `service` and `event` came of its last action.
/// `None` where `event` is no answer to what `service` asked last.
///
/// The cache is read under the code as a short code, then as an alias; the
/// first binding found answers the redirect with its long URL. Where the
/// cache holds neither, the store is searched. What it finds is written to
/// the cache, and answers the redirect once that is done; where it finds
/// nothing, the redirect fails as not found. The first failure of a backend
/// ends the redirect with that failure, also that of the write to the cache.
pub open spec fn step(service: RedirectServiceView, event: RedirectEventView) -> Option<
    (RedirectServiceView, RedirectActionView),
> {
    let code = service.code;
    match (service.stage, event) {
        (RedirectStageView::Idle, RedirectEventView::Begin) => go_on(
            code,
            RedirectStageView::ShortLookup,
            RedirectActionView::CacheGet { key: short_key(code) },
        ),
        (RedirectStageView::ShortLookup, RedirectEventView::Cached(Ok(Some(url)))) => answered(
            code,
            Ok(url.long),
        ),
        (RedirectStageView::ShortLookup, RedirectEventView::Cached(Ok(None))) => go_on(
            code,
            RedirectStageView::AliasLookup,
            RedirectActionView::CacheGet { key: alias_key(code) },
        ),
        (RedirectStageView::ShortLookup, RedirectEventView::Cached(Err(e))) => answered(code, Err(e)),
        (RedirectStageView::AliasLookup, RedirectEventView::Cached(Ok(Some(url)))) => answered(
            code,
            Ok(url.long),
        ),
        (RedirectStageView::AliasLookup, RedirectEventView::Cached(Ok(None))) => go_on(
            code,
            RedirectStageView::StoreLookup,
            RedirectActionView::Find { code },
        ),
        (RedirectStageView::AliasLookup, RedirectEventView::Cached(Err(e))) => answered(code, Err(e)),
        (RedirectStageView::StoreLookup, RedirectEventView::Found(Ok(Some(url)))) => go_on(
            code,
            RedirectStageView::Backfill { long: url.long },
            RedirectActionView::CacheSetAll { keys: backfill_keys(url), url },
        ),
        (RedirectStageView::StoreLookup, RedirectEventView::Found(Ok(None))) => answered(
            code,
            Err(RedirectServiceErrorView::UrlNotFound(code)),
        ),
        (RedirectStageView::StoreLookup, RedirectEventView::Found(Err(e))) => answered(code, Err(e)),
        (RedirectStageView::Backfill { long }, RedirectEventView::Written(Ok(()))) => answered(
            code,
            Ok(long),
        ),
        (RedirectStageView::Backfill { long }, RedirectEventView::Written(Err(e))) => answered(
            code,
            Err(e),
        ),
        _ => None,
    }
}

/// Whether `post` and `action` are what one step makes of `pre` and `event`.
pub open spec fn stepped(
    pre: RedirectService,
    event: RedirectEvent,
    post: RedirectService,
    action: Option<RedirectAction>,
) -> bool {
    match step(pre@, event@) {
        Some((service, asked)) => {
            &&& post@ == service
            &&& action matches Some(a)
            &&& a@ == asked
        },
        None => post == pre && action is None,
    }
}

impl RedirectService {
    /// A redirect of `code` that has asked nothing yet.
    pub fn new(code: String) -> (r: Self)
        ensures
            r.code == code,
            r.stage == RedirectStage::Idle,
    {
        RedirectService { code, stage: RedirectStage::Idle }
    }

    /// Ends the redirect with `answer`.
    fn finish_with(&mut self, answer: Result<String, RedirectServiceError>) -> (r: Option<RedirectAction>)
        ensures
            final(self).code == old(self).code,
            final(self).stage == RedirectStage::Done,
            r matches Some(a) && a == RedirectAction::Finish(answer),
    {
        self.stage = RedirectStage::Done;
        Some(RedirectAction::Finish(answer))
    }

    /// The keys under which `url` is written to the cache.
    fn keys_of(url: &Url) -> (keys: Vec<String>)
        ensures
            texts(keys@) == backfill_keys(url@),
    {
        let mut keys: Vec<String> = Vec::new();
        keys.push(short_key_of(url.short.as_str()));
        match &url.alias {
            Some(alias) => {
                keys.push(alias_key_of(alias.as_str()));
            },
            None => {},
        }
        assert(texts(keys@) =~= backfill_keys(url@));
        keys
    }

    /// One step of the redirect: what to do next, where `event` came of the
    /// last action. `None`, with nothing changed, where `event` is no answer
    /// to what was asked last.
    pub fn redirect(&mut self, event: RedirectEvent) -> (action: Option<RedirectAction>)
        ensures
            stepped(*old(self), event, *final(self), action),
    {
        let mut stage = RedirectStage::Done;
        core::mem::swap(&mut self.stage, &mut stage);
        match (stage, event) {
            (RedirectStage::Idle, RedirectEvent::Begin) => {
                self.stage = RedirectStage::ShortLookup;
                Some(RedirectAction::CacheGet { key: short_key_of(self.code.as_str()) })
            },
            (RedirectStage::ShortLookup, RedirectEvent::Cached(Ok(Some(url)))) => {
                self.finish_with(Ok(url.long))
            },
            (RedirectStage::ShortLookup, RedirectEvent::Cached(Ok(None))) => {
                self.stage = RedirectStage::AliasLookup;
                Some(RedirectAction::CacheGet { key: alias_key_of(self.code.as_str()) })
            },
            (RedirectStage::ShortLookup, RedirectEvent::Cached(Err(e))) => self.finish_with(Err(e)),
            (RedirectStage::AliasLookup, RedirectEvent::Cached(Ok(Some(url)))) => {
                self.finish_with(Ok(url.long))
            },
            (RedirectStage::AliasLookup, RedirectEvent::Cached(Ok(None))) => {
                self.stage = RedirectStage::StoreLookup;
                Some(RedirectAction::Find { code: self.code.clone() })
            },
            (RedirectStage::AliasLookup, RedirectEvent::Cached(Err(e))) => self.finish_with(Err(e)),
            (RedirectStage::StoreLookup, RedirectEvent::Found(Ok(Some(url)))) => {
                let keys = Self::keys_of(&url);
                self.stage = RedirectStage::Backfill { long: url.long.clone() };
                Some(RedirectAction::CacheSetAll { keys, url })
            },
            (RedirectStage::StoreLookup, RedirectEvent::Found(Ok(None))) => {
                let code = self.code.clone();
                self.finish_with(Err(RedirectServiceError::UrlNotFound(code)))
            },
            (RedirectStage::StoreLookup, RedirectEvent::Found(Err(e))) => self.finish_with(Err(e)),
            (RedirectStage::Backfill { long }, RedirectEvent::Written(Ok(()))) => {
                self.finish_with(Ok(long))
            },
            (RedirectStage::Backfill { long: _ }, RedirectEvent::Written(Err(e))) => {
                self.finish_with(Err(e))
            },
            (stage, _) => {
                self.stage = stage;
                None
            },
        }
    }
}

} // verus!
