//! The decision procedure of the shorten service: for one request, whether to
//! hand back a binding that exists, to refuse, or to mint a new one, and what
//! to ask of the cache, the store and the allocator on the way.
//!
//! The service does no input or output itself. It says what to do next, is
//! told what came of it, and says what to do then.

use crate::domain::entities::url::{same_text, text_of, Date, Timestamp, Url, UrlView};
use crate::outbound::redis::keys::{
    alias_key, alias_key_of, short_key, short_key_of, user_urls_key, user_urls_key_of,
};
use crate::short_code::{base62, encode_base62};
use crate::shorten::services::shorten_service::error::{
    ShortenServiceError, ShortenServiceErrorView,
};
use crate::text::{is_numeral, numeral_value, parse_u128};
use vstd::prelude::*;

pub mod error;

verus! {

/// What a shorten request asks for.
#[derive(Debug, PartialEq, Eq)]
pub struct ShortenParams {
    pub url: String,
    pub user_id: String,
    pub alias: Option<String>,
    pub expiration_date: Option<Date>,
}

/// A shorten request as a mathematical value.
pub struct ShortenParamsView {
    pub url: Seq<char>,
    pub user_id: Seq<char>,
    pub alias: Option<Seq<char>>,
    pub expiration_date: Option<Date>,
}

impl View for ShortenParams {
    type V = ShortenParamsView;

    open spec fn view(&self) -> ShortenParamsView {
        ShortenParamsView {
            url: self.url@,
            user_id: self.user_id@,
            alias: text_of(self.alias),
            expiration_date: self.expiration_date,
        }
    }
}

impl Clone for ShortenParams {
    fn clone(&self) -> (r: Self)
        ensures
            r == *self,
    {
        ShortenParams {
            url: self.url.clone(),
            user_id: self.user_id.clone(),
            alias: match &self.alias {
                Some(a) => Some(a.clone()),
                None => None,
            },
            expiration_date: self.expiration_date,
        }
    }
}

/// The binding that answers a shorten request.
#[derive(Debug)]
pub struct ShortenResult {
    pub short: String,
    pub alias: Option<String>,
    pub expiration_date: Option<Date>,
}

/// The answer to a shorten request as a mathematical value.
pub struct ShortenResultView {
    pub short: Seq<char>,
    pub alias: Option<Seq<char>>,
    pub expiration_date: Option<Date>,
}

impl View for ShortenResult {
    type V = ShortenResultView;

    open spec fn view(&self) -> ShortenResultView {
        ShortenResultView {
            short: self.short@,
            alias: text_of(self.alias),
            expiration_date: self.expiration_date,
        }
    }
}

impl Clone for ShortenResult {
    fn clone(&self) -> (r: Self)
        ensures
            r == *self,
    {
        ShortenResult {
            short: self.short.clone(),
            alias: match &self.alias {
                Some(a) => Some(a.clone()),
                None => None,
            },
            expiration_date: self.expiration_date,
        }
    }
}

impl PartialEq for ShortenResult {
    fn eq(&self, other: &ShortenResult) -> (r: bool) {
        self.short == other.short && same_text(&self.alias, &other.alias) && self.expiration_date
            == other.expiration_date
    }
}

impl vstd::std_specs::cmp::PartialEqSpecImpl for ShortenResult {
    open spec fn obeys_eq_spec() -> bool {
        true
    }

    open spec fn eq_spec(&self, other: &ShortenResult) -> bool {
        self@ == other@
    }
}

impl Eq for ShortenResult {

}

impl UrlView {
    /// What a request is answered with where this binding serves it.
    pub open spec fn as_result(self) -> ShortenResultView {
        ShortenResultView {
            short: self.short,
            alias: self.alias,
            expiration_date: self.expiration_date,
        }
    }
}

/// What is decided of a request for which a binding was found.
#[derive(Debug, PartialEq, Eq)]
pub enum Verdict {
    /// The binding found serves the request as it is.
    Reuse(ShortenResult),
    /// The binding found is expired: its place is given to a new one.
    Recycle,
    /// The request conflicts with the binding found.
    Reject(ShortenServiceError),
}

/// A verdict as a mathematical value.
pub enum VerdictView {
    Reuse(ShortenResultView),
    Recycle,
    Reject(ShortenServiceErrorView),
}

impl View for Verdict {
    type V = VerdictView;

    open spec fn view(&self) -> VerdictView {
        match *self {
            Verdict::Reuse(r) => VerdictView::Reuse(r@),
            Verdict::Recycle => VerdictView::Recycle,
            Verdict::Reject(e) => VerdictView::Reject(e@),
        }
    }
}

/// The alias that a binding is bound under, as a text: empty where it has
/// none.
pub open spec fn bound_alias(found: UrlView) -> Seq<char> {
    match found.alias {
        Some(alias) => alias,
        None => Seq::empty(),
    }
}

/// The verdict on a request that names an alias, where `found` is the
/// binding that lies under that alias. An expired binding is recycled. One
/// whose alias is another than the requested one, or that has none, refuses
/// the request as taken, and names the alias it is bound under. One bound to
/// another long URL refuses it too, and names the requested alias. Otherwise
/// the binding is what the request asks for, and is handed back unchanged.
pub open spec fn alias_verdict(params: ShortenParamsView, found: UrlView, today: Date) -> VerdictView {
    if found.expired_on(today) {
        VerdictView::Recycle
    } else if params.alias != found.alias {
        VerdictView::Reject(ShortenServiceErrorView::AliasTaken(bound_alias(found)))
    } else if params.alias is Some && params.url != found.long {
        VerdictView::Reject(ShortenServiceErrorView::UrlAlreadyExistedWithAlias(params.alias->0))
    } else {
        VerdictView::Reuse(found.as_result())
    }
}

/// The verdict on a request without a binding under its alias, where `found`
/// is the binding of the same user to the same long URL: recycled where it is
/// expired, handed back unchanged where it is not.
pub open spec fn long_url_verdict(found: UrlView, today: Date) -> VerdictView {
    if found.expired_on(today) {
        VerdictView::Recycle
    } else {
        VerdictView::Reuse(found.as_result())
    }
}

/// The binding that is minted for a request from the allocator's identifier
/// `id`, a decimal numeral, at the moment `now`: the request's own fields, the
/// identifier in base 62 as the short code, and `now` as the time of creation
/// and of the last update. An identifier that is no numeral, or exceeds 128
/// bits, is an internal error that carries it.
pub open spec fn minted_url(params: ShortenParamsView, id: Seq<char>, now: Timestamp) -> Result<
    UrlView,
    ShortenServiceErrorView,
> {
    if is_numeral(id) && numeral_value(id) <= u128::MAX {
        Ok(
            UrlView {
                long: params.url,
                short: base62(numeral_value(id)),
                alias: params.alias,
                expiration_date: params.expiration_date,
                created_at: now,
                updated_at: now,
                user_id: params.user_id,
            },
        )
    } else {
        Err(ShortenServiceErrorView::InternalError(id))
    }
}

/// What the service asks to be done next.
#[derive(Debug, PartialEq, Eq)]
pub enum ShortenAction {
    /// Read the binding under `key` in the cache.
    CacheGet { key: String },
    /// Read the binding under `field` of the table `key` in the cache.
    CacheHashGet { key: String, field: String },
    /// Find in the store the binding whose alias is `alias`.
    FindByAlias { alias: String },
    /// Find in the store the binding of the user `user_id` to `long_url`.
    FindByLongUrl { user_id: String, long_url: String },
    /// Draw an identifier from the allocator.
    GenerateId,
    /// Add `url` to the store as a new record.
    Insert { url: Url },
    /// Put `url` in the store in place of the record whose short code is
    /// `existing`.
    Replace { existing: String, url: Url },
    /// Write `url` under `field` of the table `key` in the cache.
    CacheHashSet { key: String, field: String, url: Url },
    /// Write `url` under `key` in the cache.
    CacheSet { key: String, url: Url },
    /// The request is answered; nothing more is to be done.
    Finish(Result<ShortenResult, ShortenServiceError>),
}

/// What came of the last action.
#[derive(Debug, PartialEq, Eq)]
pub enum ShortenEvent {
    /// Nothing was asked yet.
    Begin,
    /// The cache was read: the binding found, or none.
    Cached(Result<Option<Url>, ShortenServiceError>),
    /// The store was searched: the binding found, or none.
    Found(Result<Option<Url>, ShortenServiceError>),
    /// The allocator answered.
    Id(Result<String, ShortenServiceError>),
    /// The store answered to an insert or a replacement.
    Stored(Result<(), ShortenServiceError>),
    /// The cache answered to a write.
    Written(Result<(), ShortenServiceError>),
}

/// How far a request has come.
#[derive(Debug, PartialEq, Eq)]
pub enum Stage {
    /// Nothing was asked yet.
    Idle,
    /// The cache is being read under the request's alias.
    AliasLookup,
    /// The store is being searched for the request's alias.
    AliasStoreLookup,
    /// The cache is being read under the request's user and long URL.
    LongUrlLookup,
    /// The store is being searched for the request's user and long URL.
    LongUrlStoreLookup,
    /// An identifier is being drawn; `replaces` is the short code of the
    /// expired binding whose place the new one takes, if there is one.
    Minting { replaces: Option<String> },
    /// The new binding is being stored.
    Storing { url: Url },
    /// The new binding is being written to the table of its user.
    CachingOwner { url: Url },
    /// The new binding is being written under its alias.
    CachingAlias { url: Url },
    /// The new binding is being written under its short code.
    CachingShort { url: Url },
    /// The request is answered.
    Done,
}

/// An action as a mathematical value.
pub enum ShortenActionView {
    CacheGet { key: Seq<char> },
    CacheHashGet { key: Seq<char>, field: Seq<char> },
    FindByAlias { alias: Seq<char> },
    FindByLongUrl { user_id: Seq<char>, long_url: Seq<char> },
    GenerateId,
    Insert { url: UrlView },
    Replace { existing: Seq<char>, url: UrlView },
    CacheHashSet { key: Seq<char>, field: Seq<char>, url: UrlView },
    CacheSet { key: Seq<char>, url: UrlView },
    Finish(Result<ShortenResultView, ShortenServiceErrorView>),
}

/// An event as a mathematical value.
pub enum ShortenEventView {
    Begin,
    Cached(Result<Option<UrlView>, ShortenServiceErrorView>),
    Found(Result<Option<UrlView>, ShortenServiceErrorView>),
    Id(Result<Seq<char>, ShortenServiceErrorView>),
    Stored(Result<(), ShortenServiceErrorView>),
    Written(Result<(), ShortenServiceErrorView>),
}

/// A stage as a mathematical value.
pub enum StageView {
    Idle,
    AliasLookup,
    AliasStoreLookup,
    LongUrlLookup,
    LongUrlStoreLookup,
    Minting { replaces: Option<Seq<char>> },
    Storing { url: UrlView },
    CachingOwner { url: UrlView },
    CachingAlias { url: UrlView },
    CachingShort { url: UrlView },
    Done,
}

impl View for ShortenAction {
    type V = ShortenActionView;

    open spec fn view(&self) -> ShortenActionView {
        match *self {
            ShortenAction::CacheGet { key } => ShortenActionView::CacheGet { key: key@ },
            ShortenAction::CacheHashGet { key, field } => ShortenActionView::CacheHashGet {
                key: key@,
                field: field@,
            },
            ShortenAction::FindByAlias { alias } => ShortenActionView::FindByAlias { alias: alias@ },
            ShortenAction::FindByLongUrl { user_id, long_url } => ShortenActionView::FindByLongUrl {
                user_id: user_id@,
                long_url: long_url@,
            },
            ShortenAction::GenerateId => ShortenActionView::GenerateId,
            ShortenAction::Insert { url } => ShortenActionView::Insert { url: url@ },
            ShortenAction::Replace { existing, url } => ShortenActionView::Replace {
                existing: existing@,
                url: url@,
            },
            ShortenAction::CacheHashSet { key, field, url } => ShortenActionView::CacheHashSet {
                key: key@,
                field: field@,
                url: url@,
            },
            ShortenAction::CacheSet { key, url } => ShortenActionView::CacheSet { key: key@, url: url@ },
            ShortenAction::Finish(Ok(r)) => ShortenActionView::Finish(Ok(r@)),
            ShortenAction::Finish(Err(e)) => ShortenActionView::Finish(Err(e@)),
        }
    }
}

impl View for ShortenEvent {
    type V = ShortenEventView;

    open spec fn view(&self) -> ShortenEventView {
        match *self {
            ShortenEvent::Begin => ShortenEventView::Begin,
            ShortenEvent::Cached(Ok(Some(url))) => ShortenEventView::Cached(Ok(Some(url@))),
            ShortenEvent::Cached(Ok(None)) => ShortenEventView::Cached(Ok(None)),
            ShortenEvent::Cached(Err(e)) => ShortenEventView::Cached(Err(e@)),
            ShortenEvent::Found(Ok(Some(url))) => ShortenEventView::Found(Ok(Some(url@))),
            ShortenEvent::Found(Ok(None)) => ShortenEventView::Found(Ok(None)),
            ShortenEvent::Found(Err(e)) => ShortenEventView::Found(Err(e@)),
            ShortenEvent::Id(Ok(id)) => ShortenEventView::Id(Ok(id@)),
            ShortenEvent::Id(Err(e)) => ShortenEventView::Id(Err(e@)),
            ShortenEvent::Stored(Ok(())) => ShortenEventView::Stored(Ok(())),
            ShortenEvent::Stored(Err(e)) => ShortenEventView::Stored(Err(e@)),
            ShortenEvent::Written(Ok(())) => ShortenEventView::Written(Ok(())),
            ShortenEvent::Written(Err(e)) => ShortenEventView::Written(Err(e@)),
        }
    }
}

impl View for Stage {
    type V = StageView;

    open spec fn view(&self) -> StageView {
        match *self {
            Stage::Idle => StageView::Idle,
            Stage::AliasLookup => StageView::AliasLookup,
            Stage::AliasStoreLookup => StageView::AliasStoreLookup,
            Stage::LongUrlLookup => StageView::LongUrlLookup,
            Stage::LongUrlStoreLookup => StageView::LongUrlStoreLookup,
            Stage::Minting { replaces } => StageView::Minting { replaces: text_of(replaces) },
            Stage::Storing { url } => StageView::Storing { url: url@ },
            Stage::CachingOwner { url } => StageView::CachingOwner { url: url@ },
            Stage::CachingAlias { url } => StageView::CachingAlias { url: url@ },
            Stage::CachingShort { url } => StageView::CachingShort { url: url@ },
            Stage::Done => StageView::Done,
        }
    }
}

/// One shorten request on its way.
#[derive(Debug, PartialEq, Eq)]
pub struct ShortenService {
    pub params: ShortenParams,
    pub stage: Stage,
}

/// A request on its way as a mathematical value.
pub struct ShortenServiceView {
    pub params: ShortenParamsView,
    pub stage: StageView,
}

impl View for ShortenService {
    type V = ShortenServiceView;

    open spec fn view(&self) -> ShortenServiceView {
        ShortenServiceView { params: self.params@, stage: self.stage@ }
    }
}

/// The request is answered with `answer`.
pub open spec fn finish(
    params: ShortenParamsView,
    answer: Result<ShortenResultView, ShortenServiceErrorView>,
) -> Option<(ShortenServiceView, ShortenActionView)> {
    Some((ShortenServiceView { params, stage: StageView::Done }, ShortenActionView::Finish(answer)))
}

/// The request goes on to `stage` with `action`.
pub open spec fn proceed(params: ShortenParamsView, stage: StageView, action: ShortenActionView) -> Option<
    (ShortenServiceView, ShortenActionView),
> {
    Some((ShortenServiceView { params, stage }, action))
}

/// The request looks for a binding of its user to its long URL.
pub open spec fn look_up_long_url(params: ShortenParamsView) -> Option<
    (ShortenServiceView, ShortenActionView),
> {
    proceed(
        params,
        StageView::LongUrlLookup,
        ShortenActionView::CacheHashGet { key: user_urls_key(params.user_id), field: params.url },
    )
}

/// What a verdict leads to: the answer to the request, or the drawing of an
/// identifier for a new binding, which replaces the binding whose short code
/// is `short`.
pub open spec fn follow_verdict(params: ShortenParamsView, verdict: VerdictView, short: Seq<char>) -> Option<
    (ShortenServiceView, ShortenActionView),
> {
    match verdict {
        VerdictView::Reuse(r) => finish(params, Ok(r)),
        VerdictView::Reject(e) => finish(params, Err(e)),
        VerdictView::Recycle => proceed(
            params,
            StageView::Minting { replaces: Some(short) },
            ShortenActionView::GenerateId,
        ),
    }
}

/// The request searches the store for its alias, where it names one, and
/// goes on to its user and long URL where it names none.
pub open spec fn search_alias(params: ShortenParamsView) -> Option<
    (ShortenServiceView, ShortenActionView),
> {
    match params.alias {
        Some(alias) => proceed(
            params,
            StageView::AliasStoreLookup,
            ShortenActionView::FindByAlias { alias },
        ),
        None => look_up_long_url(params),
    }
}

/// One step of a request: the stage it goes on to and the action it asks
/// for, where it stood at `service`, `event` came of its last action, the day
/// is `today` and the moment `now`. `None` where `event` is no answer to what
/// `service` asked last.
///
/// A request that names an alias looks for that alias first: in the cache,
/// and in the store where the cache holds nothing. Where neither holds a
/// binding, and where no alias is named, it looks for its user and long URL,
/// again in the cache and then in the store. A binding that is found decides
/// by its verdict. Where none is found, a new one is minted and inserted. A minted binding that takes an expired
/// one's place is put in the store in its stead. Once stored, the new binding
/// is written to the cache: to its user's table, under its alias if it has
/// one, and under its short code, in this order, and then answers the
/// request. The first failure of a backend ends the request with that failure.
pub open spec fn step(service: ShortenServiceView, event: ShortenEventView, today: Date, now: Timestamp) -> Option<
    (ShortenServiceView, ShortenActionView),
> {
    let params = service.params;
    match (service.stage, event) {
        (StageView::Idle, ShortenEventView::Begin) => match params.alias {
            Some(alias) => proceed(
                params,
                StageView::AliasLookup,
                ShortenActionView::CacheGet { key: alias_key(alias) },
            ),
            None => look_up_long_url(params),
        },
        (StageView::AliasLookup, ShortenEventView::Cached(Ok(Some(found)))) => follow_verdict(
            params,
            alias_verdict(params, found, today),
            found.short,
        ),
        (StageView::AliasLookup, ShortenEventView::Cached(Ok(None))) => search_alias(params),
        (StageView::AliasLookup, ShortenEventView::Cached(Err(e))) => finish(params, Err(e)),
        (StageView::AliasStoreLookup, ShortenEventView::Found(Ok(Some(found)))) => follow_verdict(
            params,
            alias_verdict(params, found, today),
            found.short,
        ),
        (StageView::AliasStoreLookup, ShortenEventView::Found(Ok(None))) => look_up_long_url(params),
        (StageView::AliasStoreLookup, ShortenEventView::Found(Err(e))) => finish(params, Err(e)),
        (StageView::LongUrlLookup, ShortenEventView::Cached(Ok(Some(found)))) => follow_verdict(
            params,
            long_url_verdict(found, today),
            found.short,
        ),
        (StageView::LongUrlLookup, ShortenEventView::Cached(Ok(None))) => proceed(
            params,
            StageView::LongUrlStoreLookup,
            ShortenActionView::FindByLongUrl { user_id: params.user_id, long_url: params.url },
        ),
        (StageView::LongUrlLookup, ShortenEventView::Cached(Err(e))) => finish(params, Err(e)),
        (StageView::LongUrlStoreLookup, ShortenEventView::Found(Ok(Some(found)))) => follow_verdict(
            params,
            long_url_verdict(found, today),
            found.short,
        ),
        (StageView::LongUrlStoreLookup, ShortenEventView::Found(Ok(None))) => proceed(
            params,
            StageView::Minting { replaces: None },
            ShortenActionView::GenerateId,
        ),
        (StageView::LongUrlStoreLookup, ShortenEventView::Found(Err(e))) => finish(params, Err(e)),
        (StageView::Minting { replaces }, ShortenEventView::Id(Ok(id))) => match minted_url(
            params,
            id,
            now,
        ) {
            Ok(url) => proceed(
                params,
                StageView::Storing { url },
                match replaces {
                    Some(existing) => ShortenActionView::Replace { existing, url },
                    None => ShortenActionView::Insert { url },
                },
            ),
            Err(e) => finish(params, Err(e)),
        },
        (StageView::Minting { replaces }, ShortenEventView::Id(Err(e))) => finish(params, Err(e)),
        (StageView::Storing { url }, ShortenEventView::Stored(Ok(()))) => proceed(
            params,
            StageView::CachingOwner { url },
            ShortenActionView::CacheHashSet { key: user_urls_key(url.user_id), field: url.long, url },
        ),
        (StageView::Storing { url }, ShortenEventView::Stored(Err(e))) => finish(params, Err(e)),
        (StageView::CachingOwner { url }, ShortenEventView::Written(Ok(()))) => match url.alias {
            Some(alias) => proceed(
                params,
                StageView::CachingAlias { url },
                ShortenActionView::CacheSet { key: alias_key(alias), url },
            ),
            None => proceed(
                params,
                StageView::CachingShort { url },
                ShortenActionView::CacheSet { key: short_key(url.short), url },
            ),
        },
        (StageView::CachingOwner { url }, ShortenEventView::Written(Err(e))) => finish(params, Err(e)),
        (StageView::CachingAlias { url }, ShortenEventView::Written(Ok(()))) => proceed(
            params,
            StageView::CachingShort { url },
            ShortenActionView::CacheSet { key: short_key(url.short), url },
        ),
        (StageView::CachingAlias { url }, ShortenEventView::Written(Err(e))) => finish(params, Err(e)),
        (StageView::CachingShort { url }, ShortenEventView::Written(Ok(()))) => finish(
            params,
            Ok(url.as_result()),
        ),
        (StageView::CachingShort { url }, ShortenEventView::Written(Err(e))) => finish(params, Err(e)),
        _ => None,
    }
}

/// Whether `post` and `action` are what one step makes of `pre` and `event`
/// on the day `today` at the moment `now`: the stage and the action of
/// `step`, or no action and no change where `event` is no answer to what
/// `pre` asked last.
pub open spec fn stepped(
    pre: ShortenService,
    event: ShortenEvent,
    today: Date,
    now: Timestamp,
    post: ShortenService,
    action: Option<ShortenAction>,
) -> bool {
    match step(pre@, event@, today, now) {
        Some((service, asked)) => {
            &&& post@ == service
            &&& action matches Some(a)
            &&& a@ == asked
        },
        None => post == pre && action is None,
    }
}

/// What a binding and the way to store it come to, as mathematical values:
/// the minted binding is inserted, or replaces the record with short code
/// `replaces`.
pub open spec fn saved_url(
    params: ShortenParamsView,
    replaces: Option<Seq<char>>,
    id: Seq<char>,
    now: Timestamp,
) -> Result<(UrlView, ShortenActionView), ShortenServiceErrorView> {
    match minted_url(params, id, now) {
        Ok(url) => Ok(
            (
                url,
                match replaces {
                    Some(existing) => ShortenActionView::Replace { existing, url },
                    None => ShortenActionView::Insert { url },
                },
            ),
        ),
        Err(e) => Err(e),
    }
}

impl ShortenService {
    /// A request that has asked nothing yet.
    pub fn new(params: ShortenParams) -> (r: Self)
        ensures
            r.params == params,
            r.stage == Stage::Idle,
    {
        ShortenService { params, stage: Stage::Idle }
    }

    /// The binding that is minted for `shorten_params` from the allocator's
    /// identifier `id` at the moment `now`.
    pub fn generate_url(shorten_params: &ShortenParams, id: &str, now: Timestamp) -> (r: Result<
        Url,
        ShortenServiceError,
    >)
        ensures
            match minted_url(shorten_params@, id@, now) {
                Ok(url) => r matches Ok(u) && u@ == url,
                Err(e) => r matches Err(f) && f@ == e,
            },
    {
        match parse_u128(id) {
            Some(number) => {
                let params = shorten_params.clone();
                Ok(
                    Url {
                        long: params.url,
                        short: encode_base62(number),
                        alias: params.alias,
                        expiration_date: params.expiration_date,
                        created_at: now,
                        updated_at: now,
                        user_id: params.user_id,
                    },
                )
            },
            None => Err(ShortenServiceError::InternalError(id.to_owned())),
        }
    }

    /// The binding that is minted for `shorten_params`, and what to ask of
    /// the store: to insert it, or to put it in place of the record whose
    /// short code is `replaces`.
    pub fn generate_and_save_url(
        shorten_params: &ShortenParams,
        replaces: Option<String>,
        id: &str,
        now: Timestamp,
    ) -> (r: Result<(Url, ShortenAction), ShortenServiceError>)
        ensures
            match saved_url(shorten_params@, text_of(replaces), id@, now) {
                Ok((url, action)) => r matches Ok((u, a)) && u@ == url && a@ == action,
                Err(e) => r matches Err(f) && f@ == e,
            },
    {
        match Self::generate_url(shorten_params, id, now) {
            Ok(url) => {
                let stored = url.clone();
                let action = match replaces {
                    Some(existing) => ShortenAction::Replace { existing, url: stored },
                    None => ShortenAction::Insert { url: stored },
                };
                Ok((url, action))
            },
            Err(e) => Err(e),
        }
    }

    /// The verdict on a request that names an alias, where `cached_url` lies
    /// under that alias.
    pub fn process_when_alias_was_cached(params: &ShortenParams, cached_url: Url, today: Date) -> (v:
        Verdict)
        ensures
            v@ == alias_verdict(params@, cached_url@, today),
    {
        if cached_url.expired_on(today) {
            Verdict::Recycle
        } else if !same_text(&params.alias, &cached_url.alias) {
            let bound: String = match cached_url.alias {
                Some(existing) => existing,
                None => String::new(),
            };
            Verdict::Reject(ShortenServiceError::AliasTaken(bound))
        } else {
            let differs: Option<String> = match &params.alias {
                Some(alias) => if params.url == cached_url.long {
                    None
                } else {
                    Some(alias.clone())
                },
                None => None,
            };
            match differs {
                Some(alias) => Verdict::Reject(ShortenServiceError::UrlAlreadyExistedWithAlias(alias)),
                None => Verdict::Reuse(
                    ShortenResult {
                        short: cached_url.short,
                        alias: cached_url.alias,
                        expiration_date: cached_url.expiration_date,
                    },
                ),
            }
        }
    }

    /// The verdict on a request for which `cached_url` lies under its user
    /// and long URL.
    pub fn process_when_long_url_was_cached(cached_url: Url, today: Date) -> (v: Verdict)
        ensures
            v@ == long_url_verdict(cached_url@, today),
    {
        if cached_url.expired_on(today) {
            Verdict::Recycle
        } else {
            Verdict::Reuse(
                ShortenResult {
                    short: cached_url.short,
                    alias: cached_url.alias,
                    expiration_date: cached_url.expiration_date,
                },
            )
        }
    }

    /// Ends the request with `answer`.
    fn finish_with(&mut self, answer: Result<ShortenResult, ShortenServiceError>) -> (r: Option<
        ShortenAction,
    >)
        ensures
            final(self).params == old(self).params,
            final(self).stage == Stage::Done,
            r matches Some(a) && a == ShortenAction::Finish(answer),
    {
        self.stage = Stage::Done;
        Some(ShortenAction::Finish(answer))
    }

    /// Goes on to look under the request's user and long URL.
    fn ask_long_url(&mut self) -> (r: Option<ShortenAction>)
        ensures
            final(self).params == old(self).params,
            ({
                &&& look_up_long_url(old(self).params@) matches Some((service, asked))
                &&& final(self)@ == service
                &&& r matches Some(a)
                &&& a@ == asked
            }),
    {
        self.stage = Stage::LongUrlLookup;
        Some(
            ShortenAction::CacheHashGet {
                key: user_urls_key_of(self.params.user_id.as_str()),
                field: self.params.url.clone(),
            },
        )
    }

    /// Goes on to search the store for the request's alias.
    fn ask_store_for_alias(&mut self) -> (r: Option<ShortenAction>)
        ensures
            final(self).params == old(self).params,
            ({
                &&& search_alias(old(self).params@) matches Some((service, asked))
                &&& final(self)@ == service
                &&& r matches Some(a)
                &&& a@ == asked
            }),
    {
        let alias: Option<String> = match &self.params.alias {
            Some(alias) => Some(alias.clone()),
            None => None,
        };
        match alias {
            Some(alias) => {
                self.stage = Stage::AliasStoreLookup;
                Some(ShortenAction::FindByAlias { alias })
            },
            None => self.ask_long_url(),
        }
    }

    /// Does what the verdict on `found` says, where it was found under the
    /// request's alias.
    fn decide_by_alias(&mut self, found: Url, today: Date) -> (r: Option<ShortenAction>)
        ensures
            final(self).params == old(self).params,
            ({
                &&& follow_verdict(
                    old(self).params@,
                    alias_verdict(old(self).params@, found@, today),
                    found@.short,
                ) matches Some((service, asked))
                &&& final(self)@ == service
                &&& r matches Some(a)
                &&& a@ == asked
            }),
    {
        let short = found.short.clone();
        let verdict = Self::process_when_alias_was_cached(&self.params, found, today);
        self.follow(verdict, short)
    }

    /// Does what the verdict on `found` says, where it was found under the
    /// request's user and long URL.
    fn decide_by_long_url(&mut self, found: Url, today: Date) -> (r: Option<ShortenAction>)
        ensures
            final(self).params == old(self).params,
            ({
                &&& follow_verdict(old(self).params@, long_url_verdict(found@, today), found@.short) matches Some(
                    (service, asked),
                )
                &&& final(self)@ == service
                &&& r matches Some(a)
                &&& a@ == asked
            }),
    {
        let short = found.short.clone();
        let verdict = Self::process_when_long_url_was_cached(found, today);
        self.follow(verdict, short)
    }

    /// Does what `verdict` says of a binding with short code `short`.
    fn follow(&mut self, verdict: Verdict, short: String) -> (r: Option<ShortenAction>)
        ensures
            final(self).params == old(self).params,
            ({
                &&& follow_verdict(old(self).params@, verdict@, short@) matches Some((service, asked))
                &&& final(self)@ == service
                &&& r matches Some(a)
                &&& a@ == asked
            }),
    {
        match verdict {
            Verdict::Reuse(result) => self.finish_with(Ok(result)),
            Verdict::Reject(e) => self.finish_with(Err(e)),
            Verdict::Recycle => {
                self.stage = Stage::Minting { replaces: Some(short) };
                Some(ShortenAction::GenerateId)
            },
        }
    }

    /// Goes on to write `url` under its short code.
    fn cache_short(&mut self, url: Url) -> (r: Option<ShortenAction>)
        ensures
            final(self).params == old(self).params,
            final(self).stage@ == (StageView::CachingShort { url: url@ }),
            r matches Some(a) && a@ == (ShortenActionView::CacheSet {
                key: short_key(url@.short),
                url: url@,
            }),
    {
        let key = short_key_of(url.short.as_str());
        let written = url.clone();
        self.stage = Stage::CachingShort { url };
        Some(ShortenAction::CacheSet { key, url: written })
    }

    /// One step of the request: what to do next, where `event` came of the
    /// last action, the day is `today` and the moment `now`. `None`, with
    /// nothing changed, where `event` is no answer to what was asked last.
    pub fn advance(&mut self, event: ShortenEvent, today: Date, now: Timestamp) -> (action: Option<
        ShortenAction,
    >)
        ensures
            stepped(*old(self), event, today, now, *final(self), action),
    {
        let mut stage = Stage::Done;
        core::mem::swap(&mut self.stage, &mut stage);
        match (stage, event) {
            (Stage::Idle, ShortenEvent::Begin) => {
                let key = match &self.params.alias {
                    Some(alias) => Some(alias_key_of(alias.as_str())),
                    None => None,
                };
                match key {
                    Some(key) => {
                        self.stage = Stage::AliasLookup;
                        Some(ShortenAction::CacheGet { key })
                    },
                    None => self.ask_long_url(),
                }
            },
            (Stage::AliasLookup, ShortenEvent::Cached(Ok(Some(found)))) => {
                self.decide_by_alias(found, today)
            },
            (Stage::AliasLookup, ShortenEvent::Cached(Ok(None))) => self.ask_store_for_alias(),
            (Stage::AliasLookup, ShortenEvent::Cached(Err(e))) => self.finish_with(Err(e)),
            (Stage::AliasStoreLookup, ShortenEvent::Found(Ok(Some(found)))) => {
                self.decide_by_alias(found, today)
            },
            (Stage::AliasStoreLookup, ShortenEvent::Found(Ok(None))) => self.ask_long_url(),
            (Stage::AliasStoreLookup, ShortenEvent::Found(Err(e))) => self.finish_with(Err(e)),
            (Stage::LongUrlLookup, ShortenEvent::Cached(Ok(Some(found)))) => {
                self.decide_by_long_url(found, today)
            },
            (Stage::LongUrlLookup, ShortenEvent::Cached(Ok(None))) => {
                self.stage = Stage::LongUrlStoreLookup;
                Some(
                    ShortenAction::FindByLongUrl {
                        user_id: self.params.user_id.clone(),
                        long_url: self.params.url.clone(),
                    },
                )
            },
            (Stage::LongUrlLookup, ShortenEvent::Cached(Err(e))) => self.finish_with(Err(e)),
            (Stage::LongUrlStoreLookup, ShortenEvent::Found(Ok(Some(found)))) => {
                self.decide_by_long_url(found, today)
            },
            (Stage::LongUrlStoreLookup, ShortenEvent::Found(Ok(None))) => {
                self.stage = Stage::Minting { replaces: None };
                Some(ShortenAction::GenerateId)
            },
            (Stage::LongUrlStoreLookup, ShortenEvent::Found(Err(e))) => self.finish_with(Err(e)),
            (Stage::Minting { replaces }, ShortenEvent::Id(Ok(id))) => {
                match Self::generate_and_save_url(&self.params, replaces, id.as_str(), now) {
                    Ok((url, action)) => {
                        self.stage = Stage::Storing { url };
                        Some(action)
                    },
                    Err(e) => self.finish_with(Err(e)),
                }
            },
            (Stage::Minting { replaces: _ }, ShortenEvent::Id(Err(e))) => self.finish_with(Err(e)),
            (Stage::Storing { url }, ShortenEvent::Stored(Ok(()))) => {
                let key = user_urls_key_of(url.user_id.as_str());
                let field = url.long.clone();
                let written = url.clone();
                self.stage = Stage::CachingOwner { url };
                Some(ShortenAction::CacheHashSet { key, field, url: written })
            },
            (Stage::Storing { url: _ }, ShortenEvent::Stored(Err(e))) => self.finish_with(Err(e)),
            (Stage::CachingOwner { url }, ShortenEvent::Written(Ok(()))) => {
                let key = match &url.alias {
                    Some(alias) => Some(alias_key_of(alias.as_str())),
                    None => None,
                };
                match key {
                    Some(key) => {
                        let written = url.clone();
                        self.stage = Stage::CachingAlias { url };
                        Some(ShortenAction::CacheSet { key, url: written })
                    },
                    None => self.cache_short(url),
                }
            },
            (Stage::CachingOwner { url: _ }, ShortenEvent::Written(Err(e))) => self.finish_with(Err(e)),
            (Stage::CachingAlias { url }, ShortenEvent::Written(Ok(()))) => self.cache_short(url),
            (Stage::CachingAlias { url: _ }, ShortenEvent::Written(Err(e))) => self.finish_with(Err(e)),
            (Stage::CachingShort { url }, ShortenEvent::Written(Ok(()))) => {
                self.finish_with(
                    Ok(
                        ShortenResult {
                            short: url.short,
                            alias: url.alias,
                            expiration_date: url.expiration_date,
                        },
                    ),
                )
            },
            (Stage::CachingShort { url: _ }, ShortenEvent::Written(Err(e))) => self.finish_with(Err(e)),
            (stage, _) => {
                self.stage = stage;
                None
            },
        }
    }

    /// One step of the request by the system clock: `advance` on the clock's
    /// day and moment in UTC. Which they are is not known here: the step is
    /// that of `advance` for some day of the calendar since 1970 and some
    /// moment since then.
    pub fn shorten(&mut self, event: ShortenEvent) -> (action: Option<ShortenAction>)
        ensures
            exists|today: Date, now: Timestamp|
                today.in_calendar() && today.year >= 1970 && now.secs >= 0 && #[trigger] stepped(
                    *old(self),
                    event,
                    today,
                    now,
                    *final(self),
                    action,
                ),
    {
        let today = crate::clock::today();
        let now = crate::clock::now();
        let ghost before = *self;
        let action = self.advance(event, today, now);
        assert(stepped(before, event, today, now, *self, action));
        action
    }
}

} // verus!
