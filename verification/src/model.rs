//! An ideal cache, store and allocator, and what the two services do when
//! they run against them: the laws that hold of whole requests.
//!
//! Nothing here is executed. The backends of this model never fail for
//! reasons of their own: the cache holds what was written to it last, the
//! store keeps one record for each short code, the allocator counts up from
//! the start of its shard until the shard is used up, and the coordination
//! service keeps the nodes that were created.
//!
//! The store of this model knows one constraint only, that a short code is
//! bound once. Two requests that both find nothing for the same alias, or
//! for the same user and long URL, neither in the cache nor in the store,
//! are told apart by the real store's further constraints; the one that
//! loses is answered with the store's refusal as it is.

use crate::domain::entities::url::{Date, Timestamp, UrlView};
use crate::domain::repos::url_repo::{InsertUrlErrorView, ReplaceUrlErrorView, UrlRepoErrorView};
use crate::outbound::redis::keys::{alias_key, law_keys_are_distinct, short_key, user_urls_key};
use crate::redirect::services::redirect_service::error::RedirectServiceErrorView;
use crate::redirect::services::redirect_service::{
    RedirectActionView, RedirectEventView, RedirectServiceView, RedirectStageView,
};
use crate::short_code::{base62, law_base62_is_injective};
use crate::shorten::outbound::zookeeper::id_generator::{
    ask_node, path_step, CreateError, PathAnswerView, PathStepView, ZooKeeperIdGeneratorErrorView,
};
use crate::shorten::services::shorten_service::error::ShortenServiceErrorView;
use crate::shorten::services::shorten_service::{
    ShortenActionView, ShortenEventView, ShortenParamsView, ShortenResultView, ShortenServiceView,
    StageView,
};
use crate::text::{decimal, law_decimal_round_trip};
use vstd::prelude::*;

verus! {

/// The backends at one moment.
pub struct World {
    /// The cache's plain entries: the binding under each key.
    pub entries: Map<Seq<char>, UrlView>,
    /// The cache's tables: the binding under each field of each table.
    pub tables: Map<(Seq<char>, Seq<char>), UrlView>,
    /// The store's records, by short code.
    pub store: Map<Seq<char>, UrlView>,
    /// The first identifier of the allocator's shard.
    pub start: nat,
    /// The last identifier of the allocator's shard.
    pub end: nat,
    /// How many sequence numbers the coordination service has handed out
    /// under the shard's path.
    pub drawn: nat,
}

/// What lies under `key` in `map`, if anything.
pub open spec fn lookup<K>(map: Map<K, UrlView>, key: K) -> Option<UrlView> {
    if map.contains_key(key) {
        Some(map[key])
    } else {
        None
    }
}

/// A record of the store whose alias is `alias`, if it holds one.
pub open spec fn find_alias(store: Map<Seq<char>, UrlView>, alias: Seq<char>) -> Option<UrlView> {
    if exists|short: Seq<char>| store.contains_key(short) && (#[trigger] store[short]).alias == Some(alias) {
        let short = choose|short: Seq<char>|
            store.contains_key(short) && (#[trigger] store[short]).alias == Some(alias);
        Some(store[short])
    } else {
        None
    }
}

/// A record of the store that binds the user `user_id` to `long_url`, if it
/// holds one.
pub open spec fn find_owned(store: Map<Seq<char>, UrlView>, user_id: Seq<char>, long_url: Seq<char>) -> Option<
    UrlView,
> {
    if exists|short: Seq<char>|
        store.contains_key(short) && (#[trigger] store[short]).user_id == user_id && store[short].long
            == long_url {
        let short = choose|short: Seq<char>|
            store.contains_key(short) && (#[trigger] store[short]).user_id == user_id
                && store[short].long == long_url;
        Some(store[short])
    } else {
        None
    }
}

/// The binding that a request finds for the alias `alias`: the cache's, or
/// the store's where the cache holds none.
pub open spec fn bound_under(world: World, alias: Seq<char>) -> Option<UrlView> {
    match lookup(world.entries, alias_key(alias)) {
        Some(url) => Some(url),
        None => find_alias(world.store, alias),
    }
}

/// The binding that a request finds for the user `user_id` and `long_url`:
/// the cache's, or the store's where the cache holds none.
pub open spec fn bound_to(world: World, user_id: Seq<char>, long_url: Seq<char>) -> Option<UrlView> {
    match lookup(world.tables, (user_urls_key(user_id), long_url)) {
        Some(url) => Some(url),
        None => find_owned(world.store, user_id, long_url),
    }
}

/// What `action` of a shorten request does to the backends, and what they
/// answer.
pub open spec fn respond_shorten(world: World, action: ShortenActionView) -> (World, ShortenEventView) {
    match action {
        ShortenActionView::CacheGet { key } => (
            world,
            ShortenEventView::Cached(Ok(lookup(world.entries, key))),
        ),
        ShortenActionView::CacheHashGet { key, field } => (
            world,
            ShortenEventView::Cached(Ok(lookup(world.tables, (key, field)))),
        ),
        ShortenActionView::FindByAlias { alias } => (
            world,
            ShortenEventView::Found(Ok(find_alias(world.store, alias))),
        ),
        ShortenActionView::FindByLongUrl { user_id, long_url } => (
            world,
            ShortenEventView::Found(Ok(find_owned(world.store, user_id, long_url))),
        ),
        ShortenActionView::GenerateId => (
            World { drawn: world.drawn + 1, ..world },
            if world.start + world.drawn <= world.end {
                ShortenEventView::Id(Ok(decimal(world.start + world.drawn)))
            } else {
                ShortenEventView::Id(
                    Err(
                        ShortenServiceErrorView::IdGeneratorError(
                            ZooKeeperIdGeneratorErrorView::RangeExhausted,
                        ),
                    ),
                )
            },
        ),
        ShortenActionView::Insert { url } => if world.store.contains_key(url.short) {
            (
                world,
                ShortenEventView::Stored(
                    Err(
                        ShortenServiceErrorView::UrlRepoError(
                            UrlRepoErrorView::Insert(InsertUrlErrorView::AlreadyExists),
                        ),
                    ),
                ),
            )
        } else {
            (
                World { store: world.store.insert(url.short, url), ..world },
                ShortenEventView::Stored(Ok(())),
            )
        },
        ShortenActionView::Replace { existing, url } => if world.store.contains_key(existing) {
            (
                World { store: world.store.remove(existing).insert(url.short, url), ..world },
                ShortenEventView::Stored(Ok(())),
            )
        } else {
            (
                world,
                ShortenEventView::Stored(
                    Err(
                        ShortenServiceErrorView::UrlRepoError(
                            UrlRepoErrorView::Replace(ReplaceUrlErrorView::NotFound(existing)),
                        ),
                    ),
                ),
            )
        },
        ShortenActionView::CacheHashSet { key, field, url } => (
            World { tables: world.tables.insert((key, field), url), ..world },
            ShortenEventView::Written(Ok(())),
        ),
        ShortenActionView::CacheSet { key, url } => (
            World { entries: world.entries.insert(key, url), ..world },
            ShortenEventView::Written(Ok(())),
        ),
        ShortenActionView::Finish(_) => (world, ShortenEventView::Begin),
    }
}

/// A shorten request run to its end against the backends, in at most `fuel`
/// steps: the backends as it leaves them, and its answer. No answer where the
/// service takes no step, or the steps run out.
pub open spec fn run_shorten(
    world: World,
    service: ShortenServiceView,
    event: ShortenEventView,
    today: Date,
    now: Timestamp,
    fuel: nat,
) -> (World, Option<Result<ShortenResultView, ShortenServiceErrorView>>)
    decreases fuel,
{
    if fuel == 0 {
        (world, None)
    } else {
        match crate::shorten::services::shorten_service::step(service, event, today, now) {
            None => (world, None),
            Some((_, ShortenActionView::Finish(answer))) => (world, Some(answer)),
            Some((next, action)) => {
                let (after, answer) = respond_shorten(world, action);
                run_shorten(after, next, answer, today, now, (fuel - 1) as nat)
            },
        }
    }
}

/// The request `params`, made on the day `today` at the moment `now`, run
/// against the backends from the first step to the answer.
pub open spec fn shorten(world: World, params: ShortenParamsView, today: Date, now: Timestamp) -> (
    World,
    Option<Result<ShortenResultView, ShortenServiceErrorView>>,
) {
    run_shorten(
        world,
        ShortenServiceView { params, stage: StageView::Idle },
        ShortenEventView::Begin,
        today,
        now,
        11,
    )
}

/// Whether the record `url` answers to `code`: by its alias, or by its short
/// code.
pub open spec fn answers_to(url: UrlView, code: Seq<char>) -> bool {
    url.alias == Some(code) || url.short == code
}

/// Whether the store holds a record that answers to `code`.
pub open spec fn store_knows(store: Map<Seq<char>, UrlView>, code: Seq<char>) -> bool {
    exists|short: Seq<char>| store.contains_key(short) && answers_to(#[trigger] store[short], code)
}

/// A record of the store that answers to `code`, if it holds one.
pub open spec fn find(store: Map<Seq<char>, UrlView>, code: Seq<char>) -> Option<UrlView> {
    if store_knows(store, code) {
        let short = choose|short: Seq<char>|
            store.contains_key(short) && answers_to(#[trigger] store[short], code);
        Some(store[short])
    } else {
        None
    }
}

/// The cache's entries after `url` was written under each of `keys`.
pub open spec fn write_all(entries: Map<Seq<char>, UrlView>, keys: Seq<Seq<char>>, url: UrlView) -> Map<
    Seq<char>,
    UrlView,
>
    decreases keys.len(),
{
    if keys.len() == 0 {
        entries
    } else {
        write_all(entries, keys.drop_last(), url).insert(keys.last(), url)
    }
}

/// What `action` of a redirect does to the backends, and what they answer.
pub open spec fn respond_redirect(world: World, action: RedirectActionView) -> (World, RedirectEventView) {
    match action {
        RedirectActionView::CacheGet { key } => (
            world,
            RedirectEventView::Cached(Ok(lookup(world.entries, key))),
        ),
        RedirectActionView::Find { code } => (world, RedirectEventView::Found(Ok(find(world.store, code)))),
        RedirectActionView::CacheSetAll { keys, url } => (
            World { entries: write_all(world.entries, keys, url), ..world },
            RedirectEventView::Written(Ok(())),
        ),
        RedirectActionView::Finish(_) => (world, RedirectEventView::Begin),
    }
}

/// A redirect run to its end against the backends, in at most `fuel` steps.
pub open spec fn run_redirect(
    world: World,
    service: RedirectServiceView,
    event: RedirectEventView,
    fuel: nat,
) -> (World, Option<Result<Seq<char>, RedirectServiceErrorView>>)
    decreases fuel,
{
    if fuel == 0 {
        (world, None)
    } else {
        match crate::redirect::services::redirect_service::step(service, event) {
            None => (world, None),
            Some((_, RedirectActionView::Finish(answer))) => (world, Some(answer)),
            Some((next, action)) => {
                let (after, answer) = respond_redirect(world, action);
                run_redirect(after, next, answer, (fuel - 1) as nat)
            },
        }
    }
}

/// The redirect of `code`, run against the backends from the first step to
/// the answer.
pub open spec fn redirect(world: World, code: Seq<char>) -> (
    World,
    Option<Result<Seq<char>, RedirectServiceErrorView>>,
) {
    run_redirect(
        world,
        RedirectServiceView { code, stage: RedirectStageView::Idle },
        RedirectEventView::Begin,
        6,
    )
}

/// Whether a binding with the expiration date `last_day` is expired on `day`.
pub open spec fn lapsed(last_day: Option<Date>, day: Date) -> bool {
    last_day matches Some(d) && d.earlier_than(day)
}

/// Idempotence. A request that names no alias, made twice, is answered with
/// the same short code both times, as long as the binding of the first
/// answer is not expired on the day of the second request: whatever the
/// backends held before the first, and whichever days and moments the two
/// requests are made at.
pub proof fn law_shorten_is_idempotent(
    world: World,
    params: ShortenParamsView,
    today: Date,
    now: Timestamp,
    later: Date,
    then: Timestamp,
)
    requires
        params.alias is None,
        world.end <= usize::MAX,
        shorten(world, params, today, now).1 matches Some(Ok(first)) && !lapsed(
            first.expiration_date,
            later,
        ),
    ensures
        shorten(shorten(world, params, today, now).0, params, later, then).1 matches Some(Ok(second))
            && second.short == shorten(world, params, today, now).1->0->Ok_0.short,
{
    reveal_with_fuel(run_shorten, 11);
    law_decimal_round_trip(world.start + world.drawn);
}

/// Recycling. Where an expired binding is found for the request's user and
/// long URL, in the cache or in the store, and none for its alias, the request is answered with a new
/// binding whose short code is that of the next identifier of the shard, and
/// so another than the expired one's, which came from an earlier identifier.
/// The store then holds the new record and no longer the expired one, and
/// the user's table gives the new binding for that long URL.
#[verifier::rlimit(60)]
#[verifier::spinoff_prover]
pub proof fn law_recycling_replaces(
    world: World,
    params: ShortenParamsView,
    expired: UrlView,
    earlier: nat,
    today: Date,
    now: Timestamp,
)
    requires
        params.alias matches Some(alias) ==> bound_under(world, alias) is None,
        bound_to(world, params.user_id, params.url) == Some(expired),
        expired.expired_on(today),
        world.store.contains_key(expired.short),
        expired.short == base62(earlier),
        earlier < world.start + world.drawn <= world.end <= usize::MAX,
    ensures
        ({
            let (after, answer) = shorten(world, params, today, now);
            &&& answer matches Some(Ok(minted))
            &&& minted.short == base62(world.start + world.drawn)
            &&& minted.short != expired.short
            &&& minted.alias == params.alias
            &&& minted.expiration_date == params.expiration_date
            &&& !after.store.contains_key(expired.short)
            &&& lookup(after.store, minted.short) matches Some(record)
            &&& record.as_result() == minted
            &&& record.long == params.url
            &&& record.user_id == params.user_id
            &&& lookup(after.tables, (user_urls_key(params.user_id), params.url)) == Some(record)
        }),
{
    reveal_with_fuel(run_shorten, 11);
    law_decimal_round_trip(world.start + world.drawn);
    if base62(world.start + world.drawn) == base62(earlier) {
        law_base62_is_injective(world.start + world.drawn, earlier);
    }
}

/// Alias conflict. Where an unexpired binding is found for the alias that a
/// request names, in the cache or in the store, and carries that alias, a request for the same long URL is
/// answered with that binding, unchanged, and a request for another long URL
/// is refused. Neither changes anything in the backends.
pub proof fn law_alias_decides(
    world: World,
    params: ShortenParamsView,
    bound: UrlView,
    today: Date,
    now: Timestamp,
)
    requires
        params.alias matches Some(alias) && bound.alias == Some(alias) && bound_under(world, alias)
            == Some(bound),
        !bound.expired_on(today),
    ensures
        shorten(world, params, today, now) == (
            world,
            Some(
                if params.url == bound.long {
                    Ok(bound.as_result())
                } else {
                    Err(ShortenServiceErrorView::UrlAlreadyExistedWithAlias(params.alias->0))
                },
            ),
        ),
{
    reveal_with_fuel(run_shorten, 4);
}

/// Where the unexpired binding that is found for the requested alias
/// carries another alias, or none, the request is refused as taken, with the
/// alias that the binding carries, and nothing changes in the backends.
pub proof fn law_alias_taken(
    world: World,
    params: ShortenParamsView,
    bound: UrlView,
    today: Date,
    now: Timestamp,
)
    requires
        params.alias matches Some(alias) && bound_under(world, alias) == Some(bound),
        bound.alias != params.alias,
        !bound.expired_on(today),
    ensures
        shorten(world, params, today, now) == (
            world,
            Some(
                Err::<ShortenResultView, ShortenServiceErrorView>(
                    ShortenServiceErrorView::AliasTaken(
                        crate::shorten::services::shorten_service::bound_alias(bound),
                    ),
                ),
            ),
        ),
{
    reveal_with_fuel(run_shorten, 4);
}

/// Reuse. Where no binding is found for the alias of a request, or it names
/// none, and an unexpired binding is found for its user and long URL, in the
/// cache or in the store, the request is answered with that binding, and
/// nothing changes in the backends.
pub proof fn law_binding_is_reused(
    world: World,
    params: ShortenParamsView,
    found: UrlView,
    today: Date,
    now: Timestamp,
)
    requires
        params.alias matches Some(alias) ==> bound_under(world, alias) is None,
        bound_to(world, params.user_id, params.url) == Some(found),
        !found.expired_on(today),
    ensures
        shorten(world, params, today, now) == (
            world,
            Some(Ok::<ShortenResultView, ShortenServiceErrorView>(found.as_result())),
        ),
{
    reveal_with_fuel(run_shorten, 6);
}

/// Every request comes to an answer, whatever the backends hold.
#[verifier::rlimit(60)]
#[verifier::spinoff_prover]
pub proof fn law_shorten_answers(world: World, params: ShortenParamsView, today: Date, now: Timestamp)
    requires
        world.end <= usize::MAX,
    ensures
        shorten(world, params, today, now).1 is Some,
{
    reveal_with_fuel(run_shorten, 11);
    law_decimal_round_trip(world.start + world.drawn);
}

/// Dual-key resolution. A redirect is answered from the cache's entry under
/// the code as a short code; failing that, from its entry under the code as
/// an alias; failing that, from a record of the store that answers to the
/// code, which is then written to the cache under its own keys; and fails as
/// not found where there is none. Whether a binding is expired plays no part.
pub proof fn law_redirect_resolves(world: World, code: Seq<char>)
    ensures
        redirect(world, code) == (match lookup(world.entries, short_key(code)) {
            Some(url) => (world, Some(Ok::<Seq<char>, RedirectServiceErrorView>(url.long))),
            None => match lookup(world.entries, alias_key(code)) {
                Some(url) => (world, Some(Ok(url.long))),
                None => match find(world.store, code) {
                    Some(url) => (
                        World {
                            entries: write_all(
                                world.entries,
                                crate::redirect::services::redirect_service::backfill_keys(url),
                                url,
                            ),
                            ..world
                        },
                        Some(Ok(url.long)),
                    ),
                    None => (world, Some(Err(RedirectServiceErrorView::UrlNotFound(code)))),
                },
            },
        }),
{
    reveal_with_fuel(run_redirect, 6);
}

/// A record of the store resolves by its short code and by its alias, where
/// the cache holds nothing under either and every record that answers to the
/// code has the same long URL.
pub proof fn law_stored_binding_resolves(world: World, record: UrlView, code: Seq<char>)
    requires
        lookup(world.store, record.short) == Some(record),
        answers_to(record, code),
        !world.entries.contains_key(short_key(code)),
        !world.entries.contains_key(alias_key(code)),
        forall|short: Seq<char>|
            world.store.contains_key(short) && answers_to(#[trigger] world.store[short], code)
                ==> world.store[short].long == record.long,
    ensures
        redirect(world, code).1 == Some(Ok::<Seq<char>, RedirectServiceErrorView>(record.long)),
{
    law_redirect_resolves(world, code);
    assert(answers_to(world.store[record.short], code));
}

/// Write-through. The short code of a binding that a request has just
/// minted resolves to the request's long URL at once, from the cache; and so
/// does its alias, where the cache holds nothing under the alias as a short
/// code.
pub proof fn law_minted_code_resolves(world: World, params: ShortenParamsView, today: Date, now: Timestamp)
    requires
        params.alias matches Some(alias) ==> bound_under(world, alias) is None,
        bound_to(world, params.user_id, params.url) is None,
        !world.store.contains_key(base62(world.start + world.drawn)),
        world.start + world.drawn <= world.end <= usize::MAX,
    ensures
        ({
            let (after, answer) = shorten(world, params, today, now);
            &&& answer matches Some(Ok(minted))
            &&& minted.short == base62(world.start + world.drawn)
            &&& redirect(after, minted.short).1 == Some(
                Ok::<Seq<char>, RedirectServiceErrorView>(params.url),
            )
            &&& params.alias matches Some(alias) ==> (!world.entries.contains_key(short_key(alias))
                && alias != minted.short ==> redirect(after, alias).1 == Some(
                Ok::<Seq<char>, RedirectServiceErrorView>(params.url),
            ))
        }),
{
    reveal_with_fuel(run_shorten, 11);
    law_decimal_round_trip(world.start + world.drawn);
    let (after, answer) = shorten(world, params, today, now);
    let code = base62(world.start + world.drawn);
    law_redirect_resolves(after, code);
    if params.alias is Some {
        let alias = params.alias->0;
        law_keys_are_distinct(code, alias);
        law_keys_are_distinct(alias, code);
        law_keys_are_distinct(alias, alias);
        law_redirect_resolves(after, alias);
    }
}

/// A request that fails leaves the store and the cache as they were.
pub proof fn law_failure_changes_nothing(
    world: World,
    params: ShortenParamsView,
    today: Date,
    now: Timestamp,
)
    requires
        world.end <= usize::MAX,
        shorten(world, params, today, now).1 matches Some(Err(_)),
    ensures
        shorten(world, params, today, now).0.store == world.store,
        shorten(world, params, today, now).0.entries == world.entries,
        shorten(world, params, today, now).0.tables == world.tables,
{
    reveal_with_fuel(run_shorten, 11);
    law_decimal_round_trip(world.start + world.drawn);
}

/// Store and cache agree on a binding that was just minted: the store's
/// record under its short code is what the cache holds under that short
/// code, under its alias if it has one, and in its user's table under its
/// long URL. Nothing else changes in the cache.
pub proof fn law_cache_agrees_with_store(
    world: World,
    params: ShortenParamsView,
    today: Date,
    now: Timestamp,
)
    requires
        params.alias matches Some(alias) ==> bound_under(world, alias) is None,
        bound_to(world, params.user_id, params.url) is None,
        !world.store.contains_key(base62(world.start + world.drawn)),
        world.start + world.drawn <= world.end <= usize::MAX,
    ensures
        ({
            let (after, answer) = shorten(world, params, today, now);
            let short = base62(world.start + world.drawn);
            let record = after.store[short];
            &&& answer == Some(Ok::<ShortenResultView, ShortenServiceErrorView>(record.as_result()))
            &&& after.store == world.store.insert(short, record)
            &&& record.short == short
            &&& record.long == params.url
            &&& record.user_id == params.user_id
            &&& record.alias == params.alias
            &&& record.expiration_date == params.expiration_date
            &&& record.created_at == now
            &&& record.updated_at == now
            &&& after.tables == world.tables.insert((user_urls_key(params.user_id), params.url), record)
            &&& after.entries == match params.alias {
                Some(alias) => world.entries.insert(alias_key(alias), record).insert(
                    short_key(short),
                    record,
                ),
                None => world.entries.insert(short_key(short), record),
            }
        }),
{
    reveal_with_fuel(run_shorten, 11);
    law_decimal_round_trip(world.start + world.drawn);
}

/// What a step of the allocator's setup does to the nodes of the
/// coordination service, and what the service answers. A node that exists is
/// not created again.
pub open spec fn respond_setup(nodes: Set<Seq<char>>, step: PathStepView) -> (
    Set<Seq<char>>,
    PathAnswerView,
) {
    match step {
        PathStepView::Exists { path } => (nodes, PathAnswerView::Exists(Ok(nodes.contains(path)))),
        PathStepView::Create { path } => if nodes.contains(path) {
            (
                nodes,
                PathAnswerView::Created(
                    Err(ZooKeeperIdGeneratorErrorView::CreateError(CreateError::NodeExists)),
                ),
            )
        } else {
            (nodes.insert(path), PathAnswerView::Created(Ok(())))
        },
        _ => (nodes, PathAnswerView::Begin),
    }
}

/// The allocator's setup run to its end against the coordination service, in
/// at most `fuel` steps: the nodes as it leaves them, and how it ended.
pub open spec fn run_setup(
    nodes: Set<Seq<char>>,
    chain: Seq<Seq<char>>,
    ensured: nat,
    answer: PathAnswerView,
    fuel: nat,
) -> (Set<Seq<char>>, Option<Result<(), ZooKeeperIdGeneratorErrorView>>)
    decreases fuel,
{
    if fuel == 0 {
        (nodes, None)
    } else {
        let (next, step) = path_step(chain, ensured, answer);
        match step {
            PathStepView::Ready => (nodes, Some(Ok(()))),
            PathStepView::Failed(e) => (nodes, Some(Err(e))),
            _ => {
                let (after, told) = respond_setup(nodes, step);
                run_setup(after, chain, next, told, (fuel - 1) as nat)
            },
        }
    }
}

/// `nodes` with those of `chain` from place `from` on.
pub open spec fn with_chain(nodes: Set<Seq<char>>, chain: Seq<Seq<char>>, from: nat) -> Set<Seq<char>> {
    Set::new(
        |path: Seq<char>|
            nodes.contains(path) || exists|j: int| from <= j < chain.len() && chain[j] == path,
    )
}

/// From the question for the node at place `k` on, the setup ends ready,
/// with every later node of the chain in place.
proof fn lemma_setup_from(
    nodes: Set<Seq<char>>,
    chain: Seq<Seq<char>>,
    ensured: nat,
    answer: PathAnswerView,
    k: nat,
    fuel: nat,
)
    requires
        path_step(chain, ensured, answer) == ask_node(chain, k),
        k <= chain.len(),
        fuel >= 2 * (chain.len() - k) + 1,
    ensures
        run_setup(nodes, chain, ensured, answer, fuel) == (
            with_chain(nodes, chain, k),
            Some(Ok::<(), ZooKeeperIdGeneratorErrorView>(())),
        ),
    decreases chain.len() - k,
{
    if k >= chain.len() {
        assert(with_chain(nodes, chain, k) =~= nodes);
    } else {
        let path = chain[k as int];
        let told = PathAnswerView::Exists(Ok(nodes.contains(path)));
        assert(run_setup(nodes, chain, ensured, answer, fuel) == run_setup(
            nodes,
            chain,
            k,
            told,
            (fuel - 1) as nat,
        ));
        if nodes.contains(path) {
            lemma_setup_from(nodes, chain, k, told, k + 1, (fuel - 1) as nat);
            assert(with_chain(nodes, chain, k) =~= with_chain(nodes, chain, k + 1)) by {
                assert forall|p: Seq<char>| with_chain(nodes, chain, k).contains(p) implies with_chain(
                    nodes,
                    chain,
                    k + 1,
                ).contains(p) by {
                    if !nodes.contains(p) {
                        let j = choose|j: int| k <= j < chain.len() && chain[j] == p;
                        assert(j != k);
                        assert(k + 1 <= j < chain.len() && chain[j] == p);
                    }
                }
            }
        } else {
            let made = nodes.insert(path);
            let created = PathAnswerView::Created(Ok(()));
            assert(run_setup(nodes, chain, k, told, (fuel - 1) as nat) == run_setup(
                made,
                chain,
                k,
                created,
                (fuel - 2) as nat,
            ));
            lemma_setup_from(made, chain, k, created, k + 1, (fuel - 2) as nat);
            assert(with_chain(nodes, chain, k) =~= with_chain(made, chain, k + 1)) by {
                assert(k <= k < chain.len() && chain[k as int] == path);
                assert forall|p: Seq<char>| with_chain(nodes, chain, k).contains(p) implies with_chain(
                    made,
                    chain,
                    k + 1,
                ).contains(p) by {
                    if !nodes.contains(p) {
                        let j = choose|j: int| k <= j < chain.len() && chain[j] == p;
                        if j != k {
                            assert(k + 1 <= j < chain.len() && chain[j] == p);
                        }
                    }
                }
            }
        }
    }
}

/// The setup of an allocator always ends ready. It asks for each node of the
/// shard's chain in turn, from the root down, creates those that are missing
/// and no others, and leaves every node of the chain in place.
pub proof fn law_setup_makes_the_path(nodes: Set<Seq<char>>, chain: Seq<Seq<char>>)
    ensures
        run_setup(nodes, chain, 0, PathAnswerView::Begin, 2 * chain.len() + 1) == (
            with_chain(nodes, chain, 0),
            Some(Ok::<(), ZooKeeperIdGeneratorErrorView>(())),
        ),
        forall|j: int| 0 <= j < chain.len() ==> with_chain(nodes, chain, 0).contains(#[trigger] chain[j]),
        forall|path: Seq<char>| nodes.contains(path) ==> with_chain(nodes, chain, 0).contains(path),
{
    lemma_setup_from(nodes, chain, 0, PathAnswerView::Begin, 0, 2 * chain.len() + 1);
}

} // verus!
