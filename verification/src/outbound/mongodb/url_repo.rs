//! The store of bindings in the document store: what its answers mean, and
//! which indexes to drop and create so that it keeps the ones required.

use crate::domain::entities::url::{text_of, Url};
use crate::domain::metadata::url_indexes::{names, UrlIndex, UrlIndexView, UrlIndexes};
use crate::domain::repos::url_repo::{
    GetUrlError, GetUrlErrorView, InsertUrlError, InsertUrlErrorView, ReplaceUrlError,
    ReplaceUrlErrorView, UrlRepoError, UrlRepoErrorView,
};
use crate::text::joined;
use vstd::prelude::*;

verus! {

/// A failure of the document store while the repository is set up.
#[derive(Debug, Clone, PartialEq, Eq)]
pub enum MongoUrlRepoError {
    /// The store could not be reached or refused; the text is its message.
    ClientError(String),
}

impl MongoUrlRepoError {
    /// The failure in words.
    pub open spec fn spec_message(self) -> Seq<char> {
        match self {
            MongoUrlRepoError::ClientError(m) => "MongoDB Client Error: "@ + m@,
        }
    }

    /// The failure in words.
    pub fn message(&self) -> (r: String)
        ensures
            r@ == self.spec_message(),
    {
        match self {
            MongoUrlRepoError::ClientError(m) => joined("MongoDB Client Error: ", m.as_str()),
        }
    }
}

/// The code with which the document store refuses a write that would put a
/// second record in a place that a unique index admits once.
pub const DUPLICATE_KEY: i32 = 11000;

/// What a lookup by short code comes to, where the store gave `found`, or
/// failed with the message in `Err`: the binding, or that there is none.
pub fn get_answer(found: Result<Option<Url>, String>) -> (r: Result<Url, UrlRepoError>)
    ensures
        match found {
            Ok(Some(url)) => r == Ok::<Url, UrlRepoError>(url),
            Ok(None) => r matches Err(e) && e@ == UrlRepoErrorView::Get(GetUrlErrorView::NotFound),
            Err(message) => r matches Err(e) && e@ == UrlRepoErrorView::Get(
                GetUrlErrorView::ClientError(message@),
            ),
        },
{
    match found {
        Ok(Some(url)) => Ok(url),
        Ok(None) => Err(UrlRepoError::Get(GetUrlError::NotFound)),
        Err(message) => Err(UrlRepoError::Get(GetUrlError::ClientError(message))),
    }
}

/// What a search comes to: the binding found or none, or the store's failure.
pub fn find_answer(found: Result<Option<Url>, String>) -> (r: Result<Option<Url>, UrlRepoError>)
    ensures
        match found {
            Ok(answer) => r == Ok::<Option<Url>, UrlRepoError>(answer),
            Err(message) => r matches Err(e) && e@ == UrlRepoErrorView::Get(
                GetUrlErrorView::ClientError(message@),
            ),
        },
{
    match found {
        Ok(answer) => Ok(answer),
        Err(message) => Err(UrlRepoError::Get(GetUrlError::ClientError(message))),
    }
}

/// What a failed insert means, where the store gave `code` as the code of
/// its write error, if the failure was one, and `message` as its text: a
/// duplicate key says that the binding exists already; anything else is the
/// store's own failure.
pub fn insert_failure(code: Option<i32>, message: String) -> (e: UrlRepoError)
    ensures
        e@ == UrlRepoErrorView::Insert(
            if code == Some(DUPLICATE_KEY) {
                InsertUrlErrorView::AlreadyExists
            } else {
                InsertUrlErrorView::ClientError(message@)
            },
        ),
{
    match code {
        Some(c) => {
            if c == DUPLICATE_KEY {
                UrlRepoError::Insert(InsertUrlError::AlreadyExists)
            } else {
                UrlRepoError::Insert(InsertUrlError::ClientError(message))
            }
        },
        None => UrlRepoError::Insert(InsertUrlError::ClientError(message)),
    }
}

/// What a replacement of the record with short code `existing` comes to,
/// where the store said whether it held such a record, or failed.
pub fn replace_answer(replaced: Result<bool, String>, existing: String) -> (r: Result<(), UrlRepoError>)
    ensures
        match replaced {
            Ok(true) => r is Ok,
            Ok(false) => r matches Err(e) && e@ == UrlRepoErrorView::Replace(
                ReplaceUrlErrorView::NotFound(existing@),
            ),
            Err(message) => r matches Err(e) && e@ == UrlRepoErrorView::Replace(
                ReplaceUrlErrorView::ClientError(message@),
            ),
        },
{
    match replaced {
        Ok(true) => Ok(()),
        Ok(false) => Err(UrlRepoError::Replace(ReplaceUrlError::NotFound(existing))),
        Err(message) => Err(UrlRepoError::Replace(ReplaceUrlError::ClientError(message))),
    }
}

/// One field of an index that the store has.
#[derive(Debug, Clone, PartialEq, Eq)]
pub struct IndexField {
    pub name: String,
    /// Whether the store lists the field as ascending, by the 32-bit integer 1.
    pub ascending: bool,
}

/// The options of an index that the store has.
#[derive(Debug, Clone, PartialEq, Eq)]
pub struct ExistingOptions {
    pub name: Option<String>,
    pub unique: Option<bool>,
    pub sparse: Option<bool>,
}

/// An index that the store has.
#[derive(Debug, Clone, PartialEq, Eq)]
pub struct ExistingIndex {
    pub keys: Vec<IndexField>,
    pub options: Option<ExistingOptions>,
}

/// A change to the indexes of the store.
#[derive(Debug, PartialEq, Eq)]
pub enum IndexAction {
    /// Drop the index of that name.
    Drop { name: String },
    /// Create the index.
    Create { index: UrlIndex },
}

/// A change to the indexes as a mathematical value.
pub enum IndexActionView {
    Drop { name: Seq<char> },
    Create { index: UrlIndexView },
}

impl View for IndexAction {
    type V = IndexActionView;

    open spec fn view(&self) -> IndexActionView {
        match *self {
            IndexAction::Drop { name } => IndexActionView::Drop { name: name@ },
            IndexAction::Create { index } => IndexActionView::Create { index: index@ },
        }
    }
}

/// The names of the fields of an index.
pub open spec fn field_names(fields: Seq<IndexField>) -> Seq<Seq<char>> {
    Seq::new(fields.len(), |i: int| fields[i].name@)
}

/// Whether an index on `fields` is the ascending index on `keys`: every
/// field is ascending, and the fields are the keys, whatever their order.
/// The store lists each field of an index once.
pub open spec fn covers(fields: Seq<IndexField>, keys: Seq<Seq<char>>) -> bool {
    &&& forall|i: int| 0 <= i < fields.len() ==> (#[trigger] fields[i]).ascending
    &&& forall|i: int| 0 <= i < fields.len() ==> keys.contains(#[trigger] field_names(fields)[i])
    &&& forall|j: int| 0 <= j < keys.len() ==> field_names(fields).contains(#[trigger] keys[j])
}

/// The place of the first of `existing` that covers `keys`, if one does.
pub open spec fn first_cover(existing: Seq<ExistingIndex>, keys: Seq<Seq<char>>) -> Option<int>
    decreases existing.len(),
{
    if existing.len() == 0 {
        None
    } else {
        match first_cover(existing.drop_last(), keys) {
            Some(i) => Some(i),
            None => if covers(existing.last().keys@, keys) {
                Some(existing.len() - 1)
            } else {
                None
            },
        }
    }
}

/// The name by which an index is dropped: its own, or a stand-in where the
/// store names none.
pub open spec fn drop_name(name: Option<Seq<char>>) -> Seq<char> {
    match name {
        Some(n) => n,
        None => "unknown_index_name"@,
    }
}

/// Whether an option is on: one that is not set is off.
pub open spec fn is_on(option: Option<bool>) -> bool {
    match option {
        Some(b) => b,
        None => false,
    }
}

/// What is to be done for the index `wanted`, where the store has
/// `existing`. The first index on the same fields decides. Where its options
/// agree with what is wanted, with an option that is not set counting as
/// off, nothing is done. Where they do not, it is dropped and the wanted
/// index created. Where it has no options, or no index is on those fields,
/// the wanted index is created.
pub open spec fn plan_for(wanted: UrlIndexView, existing: Seq<ExistingIndex>) -> Seq<IndexActionView> {
    match first_cover(existing, wanted.keys) {
        Some(i) => match existing[i].options {
            Some(options) => {
                if is_on(options.unique) == wanted.is_unique && is_on(options.sparse) == wanted.is_sparse {
                    Seq::empty()
                } else {
                    seq![
                        IndexActionView::Drop { name: drop_name(text_of(options.name)) },
                        IndexActionView::Create { index: wanted },
                    ]
                }
            },
            None => seq![IndexActionView::Create { index: wanted }],
        },
        None => seq![IndexActionView::Create { index: wanted }],
    }
}

/// What is to be done for all of `wanted`, one index after the other, where
/// the store had `existing` at the outset.
pub open spec fn plan(wanted: Seq<UrlIndexView>, existing: Seq<ExistingIndex>) -> Seq<IndexActionView>
    decreases wanted.len(),
{
    if wanted.len() == 0 {
        Seq::empty()
    } else {
        plan(wanted.drop_last(), existing) + plan_for(wanted.last(), existing)
    }
}

/// The views of a sequence of changes.
pub open spec fn action_views(actions: Seq<IndexAction>) -> Seq<IndexActionView> {
    Seq::new(actions.len(), |i: int| actions[i]@)
}

/// Whether `name` is among `keys`.
fn among_keys(keys: &Vec<String>, name: &String) -> (r: bool)
    ensures
        r == names(keys@).contains(name@),
{
    let mut j: usize = 0;
    while j < keys.len()
        invariant
            j <= keys@.len(),
            forall|k: int| 0 <= k < j ==> names(keys@)[k] != name@,
        decreases keys@.len() - j,
    {
        if keys[j] == *name {
            assert(names(keys@)[j as int] == name@);
            return true;
        }
        j = j + 1;
    }
    false
}

/// Whether a field of `fields` is named `name`.
fn among_fields(fields: &Vec<IndexField>, name: &String) -> (r: bool)
    ensures
        r == field_names(fields@).contains(name@),
{
    let mut i: usize = 0;
    while i < fields.len()
        invariant
            i <= fields@.len(),
            forall|k: int| 0 <= k < i ==> field_names(fields@)[k] != name@,
        decreases fields@.len() - i,
    {
        if fields[i].name == *name {
            assert(field_names(fields@)[i as int] == name@);
            return true;
        }
        i = i + 1;
    }
    false
}

/// Whether an index on `fields` is the ascending index on `keys`.
fn is_cover(fields: &Vec<IndexField>, keys: &Vec<String>) -> (r: bool)
    ensures
        r == covers(fields@, names(keys@)),
{
    let mut i: usize = 0;
    while i < fields.len()
        invariant
            i <= fields@.len(),
            forall|k: int| 0 <= k < i ==> (#[trigger] fields@[k]).ascending,
            forall|k: int| 0 <= k < i ==> names(keys@).contains(#[trigger] field_names(fields@)[k]),
        decreases fields@.len() - i,
    {
        if !fields[i].ascending {
            return false;
        }
        if !among_keys(keys, &fields[i].name) {
            assert(field_names(fields@)[i as int] == fields@[i as int].name@);
            return false;
        }
        assert(field_names(fields@)[i as int] == fields@[i as int].name@);
        i = i + 1;
    }
    let mut j: usize = 0;
    while j < keys.len()
        invariant
            j <= keys@.len(),
            forall|k: int| 0 <= k < fields@.len() ==> (#[trigger] fields@[k]).ascending,
            forall|k: int|
                0 <= k < fields@.len() ==> names(keys@).contains(#[trigger] field_names(fields@)[k]),
            forall|k: int| 0 <= k < j ==> field_names(fields@).contains(#[trigger] names(keys@)[k]),
        decreases keys@.len() - j,
    {
        if !among_fields(fields, &keys[j]) {
            assert(names(keys@)[j as int] == keys@[j as int]@);
            return false;
        }
        assert(names(keys@)[j as int] == keys@[j as int]@);
        j = j + 1;
    }
    true
}

/// The place of the first of `existing` that covers `keys`.
fn find_cover(existing: &Vec<ExistingIndex>, keys: &Vec<String>) -> (r: Option<usize>)
    ensures
        match r {
            Some(i) => first_cover(existing@, names(keys@)) == Some(i as int) && i < existing@.len(),
            None => first_cover(existing@, names(keys@)) is None,
        },
{
    let mut i: usize = 0;
    assert(existing@.subrange(0, 0) =~= Seq::<ExistingIndex>::empty());
    while i < existing.len()
        invariant
            i <= existing@.len(),
            first_cover(existing@.subrange(0, i as int), names(keys@)) is None,
        decreases existing@.len() - i,
    {
        let ghost head = existing@.subrange(0, i + 1);
        assert(head.drop_last() =~= existing@.subrange(0, i as int));
        assert(head.last() == existing@[i as int]);
        if is_cover(&existing[i].keys, keys) {
            proof {
                lemma_first_cover_extends(existing@, names(keys@), i + 1);
            }
            return Some(i);
        }
        i = i + 1;
    }
    assert(existing@.subrange(0, i as int) =~= existing@);
    None
}

/// A cover found among the first `k` of `existing` is the first cover of all
/// of them.
proof fn lemma_first_cover_extends(existing: Seq<ExistingIndex>, keys: Seq<Seq<char>>, k: int)
    requires
        0 <= k <= existing.len(),
        first_cover(existing.subrange(0, k), keys) is Some,
    ensures
        first_cover(existing, keys) == first_cover(existing.subrange(0, k), keys),
    decreases existing.len() - k,
{
    if k == existing.len() {
        assert(existing.subrange(0, k) =~= existing);
    } else {
        let longer = existing.subrange(0, k + 1);
        assert(longer.drop_last() =~= existing.subrange(0, k));
        lemma_first_cover_extends(existing, keys, k + 1);
    }
}

/// What is to be done for the index `wanted`, added to `out`.
fn plan_one(wanted: &UrlIndex, existing: &Vec<ExistingIndex>, out: &mut Vec<IndexAction>)
    ensures
        action_views(final(out)@) == action_views(old(out)@) + plan_for(wanted@, existing@),
{
    let ghost before = action_views(out@);
    let ghost start = out@;
    let ghost goal = plan_for(wanted@, existing@);
    match find_cover(existing, &wanted.keys) {
        Some(i) => {
            match &existing[i].options {
                Some(options) => {
                    let unique: bool = match options.unique {
                        Some(b) => b,
                        None => false,
                    };
                    let sparse: bool = match options.sparse {
                        Some(b) => b,
                        None => false,
                    };
                    if unique == wanted.is_unique && sparse == wanted.is_sparse {
                        assert(goal =~= Seq::<IndexActionView>::empty());
                        assert(action_views(out@) =~= before + goal);
                        return ;
                    }
                    let name: String = match &options.name {
                        Some(n) => n.clone(),
                        None => "unknown_index_name".to_owned(),
                    };
                    out.push(IndexAction::Drop { name });
                },
                None => {},
            }
        },
        None => {},
    }
    let ghost dropped = out@;
    out.push(IndexAction::Create { index: wanted.clone() });
    assert(out@.len() == start.len() + goal.len());
    assert forall|k: int| 0 <= k < out@.len() implies #[trigger] action_views(out@)[k] == (before
        + goal)[k] by {
        if k < start.len() {
            assert(out@[k] == start[k]);
        } else if k < dropped.len() {
            assert(out@[k] == dropped[k]);
        }
    }
    assert(action_views(out@) =~= before + goal);
}

/// The changes that make the store keep the indexes `wanted`, in the order
/// in which to make them, where it has the indexes `existing`.
pub fn plan_indexes(wanted: &UrlIndexes, existing: &Vec<ExistingIndex>) -> (r: Vec<IndexAction>)
    ensures
        action_views(r@) == plan(wanted@, existing@),
{
    let mut out: Vec<IndexAction> = Vec::new();
    let mut i: usize = 0;
    assert(wanted@.subrange(0, 0) =~= Seq::<UrlIndexView>::empty());
    assert(action_views(out@) =~= Seq::<IndexActionView>::empty());
    while i < wanted.values.len()
        invariant
            i <= wanted.values@.len(),
            wanted@.len() == wanted.values@.len(),
            action_views(out@) == plan(wanted@.subrange(0, i as int), existing@),
        decreases wanted.values@.len() - i,
    {
        let ghost head = wanted@.subrange(0, i + 1);
        assert(head.drop_last() =~= wanted@.subrange(0, i as int));
        assert(head.last() == wanted.values@[i as int]@);
        plan_one(&wanted.values[i], existing, &mut out);
        i = i + 1;
    }
    assert(wanted@.subrange(0, i as int) =~= wanted@);
    out
}

} // verus!
