//! The sharded allocator of identifiers: one contiguous range of integers per
//! instance, numbered by the sequence numbers that the coordination service
//! hands out under the shard's own path.

use crate::shorten::services::shorten_service::error::ShortenServiceError;
use crate::short_code::{base62, law_base62_is_injective};
use crate::text::{
    all_digits, decimal, decimal_string, digits_value, is_digit, is_numeral, joined, last_segment,
    last_segment_of, lemma_last_segment_after_slash, numeral_value, parse_usize, path_chain,
    path_chain_of, push_decimal, unsigned_part,
};
use vstd::prelude::*;

verus! {

/// Why the coordination service did not create a node.
#[derive(Debug, Clone, Copy, PartialEq, Eq, Structural)]
pub enum CreateError {
    /// A node with that path exists already.
    NodeExists,
    /// The parent of the node does not exist.
    NoNode,
    /// The parent of the node is ephemeral and cannot have children.
    NoChildrenForEphemerals,
    /// The access list given is invalid.
    InvalidAcl,
}

/// A failure of the allocator.
#[derive(Debug, Clone, PartialEq, Eq)]
pub enum ZooKeeperIdGeneratorError {
    /// The coordination service could not be reached; the text is its
    /// message. The caller may try again.
    ClientError(String),
    /// The coordination service refused to create the node.
    CreateError(CreateError),
    /// The coordination service named no node.
    IdNotFound,
    /// The name of the created node ends in no sequence number; the text is
    /// what it ends in. Trying again does not help.
    InternalError(String),
    /// The shard's range is used up. The allocator hands out nothing from now
    /// on, and its owner must stop taking requests.
    RangeExhausted,
}

/// `ZooKeeperIdGeneratorError` as a mathematical value.
pub enum ZooKeeperIdGeneratorErrorView {
    ClientError(Seq<char>),
    CreateError(CreateError),
    IdNotFound,
    InternalError(Seq<char>),
    RangeExhausted,
}

impl View for ZooKeeperIdGeneratorError {
    type V = ZooKeeperIdGeneratorErrorView;

    open spec fn view(&self) -> ZooKeeperIdGeneratorErrorView {
        match *self {
            ZooKeeperIdGeneratorError::ClientError(m) => ZooKeeperIdGeneratorErrorView::ClientError(m@),
            ZooKeeperIdGeneratorError::CreateError(e) => ZooKeeperIdGeneratorErrorView::CreateError(e),
            ZooKeeperIdGeneratorError::IdNotFound => ZooKeeperIdGeneratorErrorView::IdNotFound,
            ZooKeeperIdGeneratorError::InternalError(m) => ZooKeeperIdGeneratorErrorView::InternalError(
                m@,
            ),
            ZooKeeperIdGeneratorError::RangeExhausted => ZooKeeperIdGeneratorErrorView::RangeExhausted,
        }
    }
}

impl CreateError {
    /// The refusal in words.
    pub open spec fn spec_message(self) -> Seq<char> {
        match self {
            CreateError::NodeExists => "target node already exists"@,
            CreateError::NoNode => "parent node of target does not exist"@,
            CreateError::NoChildrenForEphemerals => {
                "parent node is ephemeral, and cannot have children"@
            },
            CreateError::InvalidAcl => "the given ACL is invalid"@,
        }
    }

    /// The refusal in words.
    pub fn message(&self) -> (r: String)
        ensures
            r@ == self.spec_message(),
    {
        match self {
            CreateError::NodeExists => "target node already exists".to_owned(),
            CreateError::NoNode => "parent node of target does not exist".to_owned(),
            CreateError::NoChildrenForEphemerals => {
                "parent node is ephemeral, and cannot have children".to_owned()
            },
            CreateError::InvalidAcl => "the given ACL is invalid".to_owned(),
        }
    }
}

impl ZooKeeperIdGeneratorErrorView {
    /// The failure in words.
    pub open spec fn message(self) -> Seq<char> {
        match self {
            ZooKeeperIdGeneratorErrorView::ClientError(m) => "ZooKeeperIdGenerator Client Error: "@ + m,
            ZooKeeperIdGeneratorErrorView::CreateError(e) => "ZooKeeperIdGenerator Create Error: "@
                + e.spec_message(),
            ZooKeeperIdGeneratorErrorView::IdNotFound => "Id Not Found"@,
            ZooKeeperIdGeneratorErrorView::InternalError(m) => "Internal Error: "@ + m,
            ZooKeeperIdGeneratorErrorView::RangeExhausted => {
                "Global ID is greater than the end of the shard"@
            },
        }
    }
}

impl ZooKeeperIdGeneratorError {
    /// The failure in words.
    pub fn message(&self) -> (r: String)
        ensures
            r@ == self@.message(),
    {
        match self {
            ZooKeeperIdGeneratorError::ClientError(m) => joined(
                "ZooKeeperIdGenerator Client Error: ",
                m.as_str(),
            ),
            ZooKeeperIdGeneratorError::CreateError(e) => joined(
                "ZooKeeperIdGenerator Create Error: ",
                e.message().as_str(),
            ),
            ZooKeeperIdGeneratorError::IdNotFound => "Id Not Found".to_owned(),
            ZooKeeperIdGeneratorError::InternalError(m) => joined("Internal Error: ", m.as_str()),
            ZooKeeperIdGeneratorError::RangeExhausted => {
                "Global ID is greater than the end of the shard".to_owned()
            },
        }
    }
}

/// A contiguous range of identifiers, `start` to `end` with both ends, that
/// one allocator owns, and where the coordination service counts for it.
#[derive(Debug, Clone, PartialEq)]
pub struct ShardInfo {
    pub base_path: String,
    pub id: usize,
    pub start: usize,
    pub end: usize,
}

/// What an allocator is made with.
#[derive(Debug, Clone, PartialEq)]
pub struct ZooKeeperIdGeneratorConfig {
    pub shard_info: ShardInfo,
}

impl ShardInfo {
    /// The node of the shard: `/{base_path}/shard-{id}-{start}-{end}`.
    pub open spec fn node_path(&self) -> Seq<char> {
        "/"@ + self.base_path@ + "/shard-"@ + decimal(self.id as nat) + "-"@ + decimal(
            self.start as nat,
        ) + "-"@ + decimal(self.end as nat)
    }

    /// The path under which the shard's sequence numbers are drawn: the
    /// shard's node and a closing `/`.
    pub open spec fn spec_id_path(&self) -> Seq<char> {
        self.node_path() + "/"@
    }

    /// The identifier that the sequence number `suffix` stands for in this
    /// shard, where the range still holds it.
    pub open spec fn global_id(&self, suffix: nat) -> Option<nat> {
        if self.start + suffix <= self.end {
            Some((self.start + suffix) as nat)
        } else {
            None
        }
    }

    fn node_path_string(&self) -> (r: String)
        ensures
            r@ == self.node_path(),
    {
        let mut out = String::new();
        out.append("/");
        out.append(self.base_path.as_str());
        out.append("/shard-");
        push_decimal(&mut out, self.id as u64);
        out.append("-");
        push_decimal(&mut out, self.start as u64);
        out.append("-");
        push_decimal(&mut out, self.end as u64);
        assert(out@ =~= self.node_path());
        out
    }

    pub fn id_path(&self) -> (r: String)
        ensures
            r@ == self.spec_id_path(),
    {
        let mut out = self.node_path_string();
        out.append("/");
        out
    }
}

/// What the allocator asks of the coordination service next, to make sure
/// that the shard's node and its ancestors exist.
#[derive(Debug, Clone, PartialEq, Eq)]
pub enum PathStep {
    /// Ask whether the node at `path` exists.
    Exists { path: String },
    /// Create the node at `path`: persistent, empty, open to all.
    Create { path: String },
    /// Every node of the chain exists.
    Ready,
    /// The coordination service failed; nothing more is asked.
    Failed(ZooKeeperIdGeneratorError),
}

/// What the coordination service answered to the last step.
#[derive(Debug, PartialEq, Eq)]
pub enum PathAnswer {
    /// Nothing was asked yet.
    Begin,
    /// Whether the node asked for exists.
    Exists(Result<bool, ZooKeeperIdGeneratorError>),
    /// Whether the node was created.
    Created(Result<(), ZooKeeperIdGeneratorError>),
}

/// A step as a mathematical value.
pub enum PathStepView {
    Exists { path: Seq<char> },
    Create { path: Seq<char> },
    Ready,
    Failed(ZooKeeperIdGeneratorErrorView),
}

/// An answer as a mathematical value.
pub enum PathAnswerView {
    Begin,
    Exists(Result<bool, ZooKeeperIdGeneratorErrorView>),
    Created(Result<(), ZooKeeperIdGeneratorErrorView>),
}

impl View for PathAnswer {
    type V = PathAnswerView;

    open spec fn view(&self) -> PathAnswerView {
        match *self {
            PathAnswer::Begin => PathAnswerView::Begin,
            PathAnswer::Exists(Ok(found)) => PathAnswerView::Exists(Ok(found)),
            PathAnswer::Exists(Err(e)) => PathAnswerView::Exists(Err(e@)),
            PathAnswer::Created(Ok(())) => PathAnswerView::Created(Ok(())),
            PathAnswer::Created(Err(e)) => PathAnswerView::Created(Err(e@)),
        }
    }
}

impl View for PathStep {
    type V = PathStepView;

    open spec fn view(&self) -> PathStepView {
        match *self {
            PathStep::Exists { path } => PathStepView::Exists { path: path@ },
            PathStep::Create { path } => PathStepView::Create { path: path@ },
            PathStep::Ready => PathStepView::Ready,
            PathStep::Failed(e) => PathStepView::Failed(e@),
        }
    }
}

/// The question for the node at place `k` of `chain`, or the news that the
/// chain is done.
pub open spec fn ask_node(chain: Seq<Seq<char>>, k: nat) -> (nat, PathStepView) {
    if k < chain.len() {
        (k, PathStepView::Exists { path: chain[k as int] })
    } else {
        (chain.len(), PathStepView::Ready)
    }
}

/// The next step, and how many nodes of `chain` are then known to exist,
/// where `ensured` of them were known before and the service gave `answer`.
/// A node that exists is passed over; one that is missing is created; one
/// that somebody else created meanwhile counts as created.
pub open spec fn path_step(chain: Seq<Seq<char>>, ensured: nat, answer: PathAnswerView) -> (
    nat,
    PathStepView,
) {
    match answer {
        PathAnswerView::Begin => ask_node(chain, 0),
        PathAnswerView::Exists(Ok(true)) => ask_node(chain, ensured + 1),
        PathAnswerView::Exists(Ok(false)) => if ensured < chain.len() {
            (ensured, PathStepView::Create { path: chain[ensured as int] })
        } else {
            (chain.len(), PathStepView::Ready)
        },
        PathAnswerView::Exists(Err(e)) => (ensured, PathStepView::Failed(e)),
        PathAnswerView::Created(Ok(())) => ask_node(chain, ensured + 1),
        PathAnswerView::Created(Err(ZooKeeperIdGeneratorErrorView::CreateError(CreateError::NodeExists))) => {
            ask_node(chain, ensured + 1)
        },
        PathAnswerView::Created(Err(e)) => (ensured, PathStepView::Failed(e)),
    }
}

/// What one call for an identifier comes to.
pub enum Allocation {
    /// The identifier to hand out.
    Issued(nat),
    /// The created node's name ends in this, which is no sequence number.
    Malformed(Seq<char>),
    /// The identifier would lie beyond the shard's range.
    Exhausted,
    /// The coordination service failed.
    Failed(ZooKeeperIdGeneratorErrorView),
}

/// The text of the path that the coordination service named, if it named one.
pub open spec fn created_text(created: Result<String, ZooKeeperIdGeneratorError>) -> Result<
    Seq<char>,
    ZooKeeperIdGeneratorErrorView,
> {
    match created {
        Ok(path) => Ok(path@),
        Err(e) => Err(e@),
    }
}

/// The allocator of one shard.
#[derive(Debug, Clone, PartialEq)]
pub struct ZooKeeperIdGenerator {
    pub config: ZooKeeperIdGeneratorConfig,
    /// How many nodes of the shard's chain of paths are known to exist.
    pub ensured: usize,
    /// Whether the range is used up. Once set it stays set.
    pub exhausted: bool,
}

impl ZooKeeperIdGenerator {
    /// What a call for an identifier comes to, where the coordination service
    /// answered the creation of a sequential node with `created`. The sequence
    /// number is what follows the last `/` of the created path; the identifier
    /// is the shard's start plus that number, and must not pass the shard's end.
    /// An allocator that is used up stays so, and one that is told that the
    /// range is used up is so from then on.
    pub open spec fn allocation(&self, created: Result<Seq<char>, ZooKeeperIdGeneratorErrorView>) -> Allocation {
        if self.exhausted {
            Allocation::Exhausted
        } else {
            match created {
                Err(ZooKeeperIdGeneratorErrorView::RangeExhausted) => Allocation::Exhausted,
                Err(e) => Allocation::Failed(e),
                Ok(path) => {
                    let name = last_segment(path);
                    if !is_numeral(name) || numeral_value(name) > usize::MAX {
                        Allocation::Malformed(name)
                    } else {
                        match self.config.shard_info.global_id(numeral_value(name)) {
                            Some(n) => Allocation::Issued(n),
                            None => Allocation::Exhausted,
                        }
                    }
                },
            }
        }
    }

    /// An allocator for the shard of `config` that has handed out nothing and
    /// knows of no node that exists.
    pub fn new(config: ZooKeeperIdGeneratorConfig) -> (r: Self)
        ensures
            r.config == config,
            r.ensured == 0,
            !r.exhausted,
    {
        ZooKeeperIdGenerator { config, ensured: 0, exhausted: false }
    }

    /// One step of making sure that the shard's node exists, with every
    /// ancestor, from the root down. Call it with `PathAnswer::Begin`, do what
    /// it says, and call it again with the answer, until it says `Ready` or
    /// `Failed`.
    pub fn ensure_shard_path_exist(&mut self, answer: PathAnswer) -> (step: PathStep)
        ensures
            (final(self).ensured as nat, step@) == path_step(
                path_chain(old(self).config.shard_info.node_path()),
                old(self).ensured as nat,
                answer@,
            ),
            final(self).config == old(self).config,
            final(self).exhausted == old(self).exhausted,
    {
        let node = self.config.shard_info.node_path_string();
        let chain = path_chain_of(node.as_str());
        let ghost spec_chain = path_chain(self.config.shard_info.node_path());
        assert(chain@.len() == spec_chain.len());
        let advance: bool = match &answer {
            PathAnswer::Begin => true,
            PathAnswer::Exists(Ok(found)) => *found,
            PathAnswer::Exists(Err(_)) => false,
            PathAnswer::Created(Ok(())) => true,
            PathAnswer::Created(Err(ZooKeeperIdGeneratorError::CreateError(CreateError::NodeExists))) => true,
            PathAnswer::Created(Err(_)) => false,
        };
        if advance {
            let k: usize = match &answer {
                PathAnswer::Begin => 0,
                _ => if self.ensured < chain.len() {
                    self.ensured + 1
                } else {
                    chain.len()
                },
            };
            if k < chain.len() {
                self.ensured = k;
                PathStep::Exists { path: chain[k].clone() }
            } else {
                self.ensured = chain.len();
                PathStep::Ready
            }
        } else {
            match answer {
                PathAnswer::Exists(Ok(_)) => {
                    if self.ensured < chain.len() {
                        PathStep::Create { path: chain[self.ensured].clone() }
                    } else {
                        self.ensured = chain.len();
                        PathStep::Ready
                    }
                },
                PathAnswer::Exists(Err(e)) => PathStep::Failed(e),
                PathAnswer::Created(Err(e)) => PathStep::Failed(e),
                _ => PathStep::Ready,
            }
        }
    }

    /// The path under which to create the next sequential node, or `None`
    /// once the range is used up.
    pub fn next_node(&self) -> (r: Option<String>)
        ensures
            self.exhausted ==> r is None,
            !self.exhausted ==> (r matches Some(path) && path@
                == self.config.shard_info.spec_id_path()),
    {
        if self.exhausted {
            None
        } else {
            Some(self.config.shard_info.id_path())
        }
    }

    /// The identifier for one request, from what the coordination service
    /// answered to the creation of a sequential node under the shard's path.
    /// The answer that the range is used up is final: it is given exactly
    /// where the allocator is used up afterwards, and then on every later call.
    pub fn generate_id(&mut self, created: Result<String, ZooKeeperIdGeneratorError>) -> (r: Result<
        String,
        ShortenServiceError,
    >)
        ensures
            final(self).config == old(self).config,
            final(self).ensured == old(self).ensured,
            final(self).exhausted <==> r == Err::<String, ShortenServiceError>(
                ShortenServiceError::IdGeneratorError(ZooKeeperIdGeneratorError::RangeExhausted),
            ),
            match old(self).allocation(created_text(created)) {
                Allocation::Issued(n) => {
                    &&& r matches Ok(id)
                    &&& id@ == decimal(n)
                    &&& !final(self).exhausted
                },
                Allocation::Malformed(name) => {
                    &&& r matches Err(
                        ShortenServiceError::IdGeneratorError(ZooKeeperIdGeneratorError::InternalError(t)),
                    )
                    &&& t@ == name
                    &&& !final(self).exhausted
                },
                Allocation::Exhausted => {
                    &&& r == Err::<String, ShortenServiceError>(
                        ShortenServiceError::IdGeneratorError(ZooKeeperIdGeneratorError::RangeExhausted),
                    )
                    &&& final(self).exhausted
                },
                Allocation::Failed(e) => {
                    &&& r matches Err(ShortenServiceError::IdGeneratorError(f))
                    &&& f@ == e
                    &&& !final(self).exhausted
                },
            },
    {
        if self.exhausted {
            return Err(ShortenServiceError::IdGeneratorError(ZooKeeperIdGeneratorError::RangeExhausted));
        }
        let path = match created {
            Ok(path) => path,
            Err(ZooKeeperIdGeneratorError::RangeExhausted) => {
                self.exhausted = true;
                return Err(
                    ShortenServiceError::IdGeneratorError(ZooKeeperIdGeneratorError::RangeExhausted),
                );
            },
            Err(e) => {
                return Err(ShortenServiceError::IdGeneratorError(e));
            },
        };
        let name = last_segment_of(path.as_str());
        let suffix: usize = match parse_usize(name) {
            Some(n) => n,
            None => {
                return Err(
                    ShortenServiceError::IdGeneratorError(
                        ZooKeeperIdGeneratorError::InternalError(name.to_owned()),
                    ),
                );
            },
        };
        let start: usize = self.config.shard_info.start;
        let end: usize = self.config.shard_info.end;
        if start > end || suffix > end - start {
            self.exhausted = true;
            return Err(ShortenServiceError::IdGeneratorError(ZooKeeperIdGeneratorError::RangeExhausted));
        }
        let global_id: usize = start + suffix;
        Ok(decimal_string(global_id as u64))
    }
}

/// Bound. Every identifier that a shard stands for lies in the shard's
/// range, both ends included.
pub proof fn law_ids_stay_in_range(shard: ShardInfo, suffix: nat)
    ensures
        shard.global_id(suffix) matches Some(id) ==> shard.start <= id <= shard.end,
{
}

/// Within one shard, two sequence numbers never stand for the same
/// identifier, nor for the same short code.
pub proof fn law_ids_are_distinct(shard: ShardInfo, one: nat, other: nat)
    requires
        one != other,
    ensures
        shard.global_id(one) matches Some(a) ==> (shard.global_id(other) matches Some(b) ==> a != b
            && base62(a) != base62(b)),
{
    if shard.global_id(one) is Some && shard.global_id(other) is Some {
        let a = shard.global_id(one)->0;
        let b = shard.global_id(other)->0;
        if base62(a) == base62(b) {
            law_base62_is_injective(a, b);
        }
    }
}

/// Two shards whose ranges do not meet never hand out the same identifier,
/// nor the same short code, whatever sequence numbers they are given.
pub proof fn law_shards_do_not_meet(lower: ShardInfo, upper: ShardInfo, one: nat, other: nat)
    requires
        lower.end < upper.start,
    ensures
        lower.global_id(one) matches Some(a) ==> (upper.global_id(other) matches Some(b) ==> a != b
            && base62(a) != base62(b)),
{
    if lower.global_id(one) is Some && upper.global_id(other) is Some {
        let a = lower.global_id(one)->0;
        let b = upper.global_id(other)->0;
        if base62(a) == base62(b) {
            law_base62_is_injective(a, b);
        }
    }
}

/// The coordination service names a sequential node by the path it was asked
/// to create under and the digits of the sequence number. From such a name
/// the allocator reads the sequence number back: it hands out the shard's
/// identifier for that number, or finds the range used up.
pub proof fn law_sequence_number_is_read(generator: ZooKeeperIdGenerator, digits: Seq<char>)
    requires
        !generator.exhausted,
        digits.len() >= 1,
        all_digits(digits),
        digits_value(digits) <= usize::MAX,
    ensures
        generator.allocation(Ok(generator.config.shard_info.spec_id_path() + digits)) == (
        match generator.config.shard_info.global_id(digits_value(digits)) {
            Some(id) => Allocation::Issued(id),
            None => Allocation::Exhausted,
        }),
{
    reveal_strlit("/");
    let node = generator.config.shard_info.node_path();
    assert("/"@ =~= seq!['/']);
    assert(generator.config.shard_info.spec_id_path() =~= node.push('/'));
    assert forall|i: int| 0 <= i < digits.len() implies digits[i] != '/' by {
        assert(is_digit(digits[i]));
    }
    lemma_last_segment_after_slash(node, digits);
    assert(is_digit(digits[0]));
    assert(unsigned_part(digits) == digits);
}

} // verus!
