//! The indexes that the store of bindings keeps.

use vstd::prelude::*;

verus! {

/// One index: the fields it covers, in order, and its constraints.
#[derive(Debug, PartialEq, Eq)]
pub struct UrlIndex {
    /// The fields to index on, e.g. `["userId", "long"]` for a compound index.
    pub keys: Vec<String>,
    /// Whether the index admits each combination of values once only.
    pub is_unique: bool,
    /// Whether the index skips records that lack the fields.
    pub is_sparse: bool,
}

/// The indexes of the store, in the order in which they are ensured.
#[derive(Debug, Clone, PartialEq, Eq)]
pub struct UrlIndexes {
    pub values: Vec<UrlIndex>,
}

/// An index as a mathematical value.
pub struct UrlIndexView {
    pub keys: Seq<Seq<char>>,
    pub is_unique: bool,
    pub is_sparse: bool,
}

/// The texts of a sequence of field names.
pub open spec fn names(keys: Seq<String>) -> Seq<Seq<char>> {
    Seq::new(keys.len(), |i: int| keys[i]@)
}

impl View for UrlIndex {
    type V = UrlIndexView;

    open spec fn view(&self) -> UrlIndexView {
        UrlIndexView { keys: names(self.keys@), is_unique: self.is_unique, is_sparse: self.is_sparse }
    }
}

impl View for UrlIndexes {
    type V = Seq<UrlIndexView>;

    open spec fn view(&self) -> Seq<UrlIndexView> {
        Seq::new(self.values@.len(), |i: int| self.values@[i]@)
    }
}

/// The indexes that the store of bindings must keep: each user binds a long
/// URL once, each short code is bound once, and so is each alias, where a
/// binding has one.
pub open spec fn required_indexes() -> Seq<UrlIndexView> {
    seq![
        UrlIndexView { keys: seq!["userId"@, "long"@], is_unique: true, is_sparse: false },
        UrlIndexView { keys: seq!["short"@], is_unique: true, is_sparse: false },
        UrlIndexView { keys: seq!["alias"@], is_unique: true, is_sparse: true },
    ]
}

impl Clone for UrlIndex {
    fn clone(&self) -> (r: Self)
        ensures
            r@ == self@,
    {
        let mut keys: Vec<String> = Vec::new();
        let mut i: usize = 0;
        while i < self.keys.len()
            invariant
                i <= self.keys@.len(),
                keys@.len() == i,
                forall|j: int| 0 <= j < i ==> (#[trigger] keys@[j])@ == self.keys@[j]@,
            decreases self.keys@.len() - i,
        {
            keys.push(self.keys[i].clone());
            i = i + 1;
        }
        assert(names(keys@) =~= names(self.keys@));
        UrlIndex { keys, is_unique: self.is_unique, is_sparse: self.is_sparse }
    }
}

impl UrlIndex {
    /// An index on the field `key` alone.
    fn on_one(key: &str, is_unique: bool, is_sparse: bool) -> (r: Self)
        ensures
            r@ == (UrlIndexView { keys: seq![key@], is_unique, is_sparse }),
    {
        let mut keys: Vec<String> = Vec::new();
        keys.push(key.to_owned());
        assert(names(keys@) =~= seq![key@]);
        UrlIndex { keys, is_unique, is_sparse }
    }
}

impl Default for UrlIndexes {
    fn default() -> (r: Self)
        ensures
            r@ == required_indexes(),
    {
        let mut owner: Vec<String> = Vec::new();
        owner.push("userId".to_owned());
        owner.push("long".to_owned());
        assert(names(owner@) =~= seq!["userId"@, "long"@]);
        let mut values: Vec<UrlIndex> = Vec::new();
        values.push(UrlIndex { keys: owner, is_unique: true, is_sparse: false });
        values.push(UrlIndex::on_one("short", true, false));
        values.push(UrlIndex::on_one("alias", true, true));
        let r = UrlIndexes { values };
        assert(r@ =~= required_indexes());
        r
    }
}

impl UrlIndexes {
    pub fn new(values: Vec<UrlIndex>) -> (r: Self)
        ensures
            r.values == values,
    {
        Self { values }
    }
}

} // verus!
