//! The names under which bindings lie in the cache. Every program that
//! shares the cache names them so.

use vstd::prelude::*;

verus! {

/// The key of the binding with short code `code`: `short:{code}`.
pub open spec fn short_key(code: Seq<char>) -> Seq<char> {
    "short:"@ + code
}

/// The key of the binding with alias `alias`: `alias:{alias}`.
pub open spec fn alias_key(alias: Seq<char>) -> Seq<char> {
    "alias:"@ + alias
}

/// The key of the table of one user's bindings, which is keyed by long URL:
/// `user:{user_id}:urls`.
pub open spec fn user_urls_key(user_id: Seq<char>) -> Seq<char> {
    "user:"@ + user_id + ":urls"@
}

/// The key of the binding with short code `code`.
pub fn short_key_of(code: &str) -> (key: String)
    ensures
        key@ == short_key(code@),
{
    let mut key = String::new();
    key.append("short:");
    key.append(code);
    assert(key@ =~= short_key(code@));
    key
}

/// The key of the binding with alias `alias`.
pub fn alias_key_of(alias: &str) -> (key: String)
    ensures
        key@ == alias_key(alias@),
{
    let mut key = String::new();
    key.append("alias:");
    key.append(alias);
    assert(key@ =~= alias_key(alias@));
    key
}

/// The key of the table of the bindings of user `user_id`.
pub fn user_urls_key_of(user_id: &str) -> (key: String)
    ensures
        key@ == user_urls_key(user_id@),
{
    let mut key = String::new();
    key.append("user:");
    key.append(user_id);
    key.append(":urls");
    assert(key@ =~= user_urls_key(user_id@));
    key
}

/// Keys of different kinds never meet, and a key names one binding only:
/// from a key its kind and its code, alias or user can be read back.
pub proof fn law_keys_are_distinct(a: Seq<char>, b: Seq<char>)
    ensures
        short_key(a) != alias_key(b),
        short_key(a) != user_urls_key(b),
        alias_key(a) != user_urls_key(b),
        short_key(a) == short_key(b) ==> a == b,
        alias_key(a) == alias_key(b) ==> a == b,
        user_urls_key(a) == user_urls_key(b) ==> a == b,
{
    reveal_strlit("short:");
    reveal_strlit("alias:");
    reveal_strlit("user:");
    reveal_strlit(":urls");
    assert(short_key(a)[0] == 's');
    assert(alias_key(b)[0] == 'a');
    assert(user_urls_key(b)[0] == 'u');
    assert(alias_key(a)[0] == 'a');
    if short_key(a) == short_key(b) {
        assert(a =~= short_key(a).subrange(6, short_key(a).len() as int));
        assert(b =~= short_key(b).subrange(6, short_key(b).len() as int));
    }
    if alias_key(a) == alias_key(b) {
        assert(a =~= alias_key(a).subrange(6, alias_key(a).len() as int));
        assert(b =~= alias_key(b).subrange(6, alias_key(b).len() as int));
    }
    if user_urls_key(a) == user_urls_key(b) {
        assert(user_urls_key(a).len() == a.len() + 10);
        assert(user_urls_key(b).len() == b.len() + 10);
        assert(a =~= user_urls_key(a).subrange(5, 5 + a.len() as int));
        assert(b =~= user_urls_key(b).subrange(5, 5 + b.len() as int));
    }
}

} // verus!
