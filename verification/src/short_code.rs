//! Short codes: positional base 62 over digits, upper case, then lower case.

use vstd::prelude::*;

verus! {

/// The symbol of the base-62 digit `d`: `0`-`9`, then `A`-`Z`, then `a`-`z`.
pub open spec fn base62_char(d: nat) -> char {
    if d < 10 {
        ('0' as nat + d) as char
    } else if d < 36 {
        ('A' as nat + (d - 10)) as char
    } else {
        ('a' as nat + (d - 36)) as char
    }
}

/// The base-62 digit that the symbol `c` stands for.
pub open spec fn base62_digit(c: char) -> nat {
    if '0' <= c && c <= '9' {
        (c as nat - '0' as nat) as nat
    } else if 'A' <= c && c <= 'Z' {
        (c as nat - 'A' as nat + 10) as nat
    } else {
        (c as nat - 'a' as nat + 36) as nat
    }
}

/// The base-62 numeral of `n`: most significant digit first, no padding.
pub open spec fn base62(n: nat) -> Seq<char>
    decreases n,
{
    if n < 62 {
        seq![base62_char(n)]
    } else {
        base62(n / 62).push(base62_char(n % 62))
    }
}

/// The number that a run of base-62 symbols writes; 0 for the empty run.
pub open spec fn base62_value(s: Seq<char>) -> nat
    decreases s.len(),
{
    if s.len() == 0 {
        0
    } else {
        base62_value(s.drop_last()) * 62 + base62_digit(s.last())
    }
}

/// Reading the symbol of a digit gives the digit back.
pub proof fn lemma_base62_digit_of_char(d: nat)
    requires
        d < 62,
    ensures
        base62_digit(base62_char(d)) == d,
{
}

/// Encoding is invertible: reading the numeral of `n` gives `n` back.
pub proof fn law_base62_round_trip(n: nat)
    ensures
        base62_value(base62(n)) == n,
        base62(n).len() >= 1,
    decreases n,
{
    if n < 62 {
        let s = base62(n);
        assert(s.drop_last() =~= Seq::<char>::empty());
        assert(s.last() == base62_char(n));
        lemma_base62_digit_of_char(n);
        assert(base62_value(s.drop_last()) == 0);
    } else {
        let s = base62(n);
        law_base62_round_trip(n / 62);
        assert(s.drop_last() =~= base62(n / 62));
        assert(s.last() == base62_char(n % 62));
        lemma_base62_digit_of_char(n % 62);
    }
}

/// Distinct numbers have distinct short codes.
pub proof fn law_base62_is_injective(a: nat, b: nat)
    requires
        base62(a) == base62(b),
    ensures
        a == b,
{
    law_base62_round_trip(a);
    law_base62_round_trip(b);
}

/// The short code of `n`, computed by `base62::encode` of the `base62` crate.
/// Trusted: that function writes `n` in base 62 with its standard alphabet
/// (`0`-`9`, `A`-`Z`, `a`-`z`), most significant digit first, in as many
/// digits as the number needs and one for zero.
#[verifier::external_body]
pub(crate) fn encode_base62(n: u128) -> (code: String)
    ensures
        code@ == base62(n as nat),
{
    base62::encode(n)
}

} // verus!
