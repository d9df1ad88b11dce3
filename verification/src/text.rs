//! Decimal numerals and path segments over strings.

use vstd::prelude::*;

verus! {

/// The character that stands for the decimal digit `d`.
pub open spec fn digit_char(d: nat) -> char {
    ('0' as nat + d) as char
}

/// Whether `c` is one of the ten ASCII digits.
pub open spec fn is_digit(c: char) -> bool {
    '0' <= c && c <= '9'
}

/// The number that the ASCII digit `c` stands for.
pub open spec fn digit_value(c: char) -> nat {
    (c as nat - '0' as nat) as nat
}

/// The decimal numeral of `n`: most significant digit first, no padding.
pub open spec fn decimal(n: nat) -> Seq<char>
    decreases n,
{
    if n < 10 {
        seq![digit_char(n)]
    } else {
        decimal(n / 10).push(digit_char(n % 10))
    }
}

/// Whether every character of `s` is an ASCII digit.
pub open spec fn all_digits(s: Seq<char>) -> bool {
    forall|i: int| 0 <= i < s.len() ==> is_digit(#[trigger] s[i])
}

/// The number written by a run of digits, read in base ten; 0 for the empty run.
pub open spec fn digits_value(s: Seq<char>) -> nat
    decreases s.len(),
{
    if s.len() == 0 {
        0
    } else {
        digits_value(s.drop_last()) * 10 + digit_value(s.last())
    }
}

/// `s` without one leading plus sign, if it has one.
pub open spec fn unsigned_part(s: Seq<char>) -> Seq<char> {
    if s.len() > 0 && s[0] == '+' {
        s.subrange(1, s.len() as int)
    } else {
        s
    }
}

/// Whether `s` is an unsigned decimal numeral: an optional plus sign, then
/// one or more ASCII digits.
pub open spec fn is_numeral(s: Seq<char>) -> bool {
    unsigned_part(s).len() > 0 && all_digits(unsigned_part(s))
}

/// The number that the numeral `s` writes.
pub open spec fn numeral_value(s: Seq<char>) -> nat {
    digits_value(unsigned_part(s))
}

/// The position of the last `/` in `s`, or -1 where it has none.
pub open spec fn last_slash(s: Seq<char>) -> int
    decreases s.len(),
{
    if s.len() == 0 {
        -1
    } else if s.last() == '/' {
        s.len() - 1
    } else {
        last_slash(s.drop_last())
    }
}

/// What follows the last `/` of `s`; all of `s` where it has none.
pub open spec fn last_segment(s: Seq<char>) -> Seq<char> {
    s.subrange(last_slash(s) + 1, s.len() as int)
}

/// The prefixes of `s` that end at one of its first `k` positions, each just
/// before a `/` or at the end of `s`, shortest first.
pub open spec fn prefixes_upto(s: Seq<char>, k: nat) -> Seq<Seq<char>>
    decreases k,
{
    if k == 0 {
        Seq::empty()
    } else {
        let shorter = prefixes_upto(s, (k - 1) as nat);
        if k == s.len() || (k < s.len() && s[k as int] == '/') {
            shorter.push(s.subrange(0, k as int))
        } else {
            shorter
        }
    }
}

/// The chain of ancestors of the path `s`, ending with `s` itself: every
/// non-empty prefix that is followed by a `/` or is all of `s`.
pub open spec fn path_chain(s: Seq<char>) -> Seq<Seq<char>> {
    prefixes_upto(s, s.len())
}

/// `head` followed by `tail`.
pub fn joined(head: &str, tail: &str) -> (r: String)
    ensures
        r@ == head@ + tail@,
{
    let mut out = String::new();
    out.append(head);
    out.append(tail);
    assert(out@ =~= head@ + tail@);
    out
}

/// The one-character string of a decimal digit.
fn digit_str(d: u8) -> (s: &'static str)
    requires
        d < 10,
    ensures
        s@ == seq![digit_char(d as nat)],
{
    proof {
        reveal_strlit("0");
        reveal_strlit("1");
        reveal_strlit("2");
        reveal_strlit("3");
        reveal_strlit("4");
        reveal_strlit("5");
        reveal_strlit("6");
        reveal_strlit("7");
        reveal_strlit("8");
        reveal_strlit("9");
    }
    let s: &'static str = match d {
        0 => "0",
        1 => "1",
        2 => "2",
        3 => "3",
        4 => "4",
        5 => "5",
        6 => "6",
        7 => "7",
        8 => "8",
        _ => "9",
    };
    assert(s@ =~= seq![digit_char(d as nat)]);
    s
}

/// Appends the decimal numeral of `n` to `out`.
pub fn push_decimal(out: &mut String, n: u64)
    ensures
        final(out)@ == old(out)@ + decimal(n as nat),
    decreases n,
{
    if n >= 10 {
        push_decimal(out, n / 10);
    }
    let d: u8 = (n % 10) as u8;
    out.append(digit_str(d));
    assert(out@ =~= old(out)@ + decimal(n as nat));
}

/// The decimal numeral of `n` as a string.
pub fn decimal_string(n: u64) -> (s: String)
    ensures
        s@ == decimal(n as nat),
{
    let mut s = String::new();
    push_decimal(&mut s, n);
    assert(s@ =~= decimal(n as nat));
    s
}

/// The symbol of a digit is a digit, and stands for it.
pub proof fn lemma_digit_char(d: nat)
    requires
        d < 10,
    ensures
        is_digit(digit_char(d)),
        digit_value(digit_char(d)) == d,
        digit_char(d) != '+',
        digit_char(d) != '/',
{
}

/// A decimal numeral reads back as the number it was written from: what
/// `decimal` writes is a numeral, and its value is the number.
pub proof fn law_decimal_round_trip(n: nat)
    ensures
        decimal(n).len() >= 1,
        all_digits(decimal(n)),
        digits_value(decimal(n)) == n,
        is_numeral(decimal(n)),
        numeral_value(decimal(n)) == n,
    decreases n,
{
    let s = decimal(n);
    if n < 10 {
        lemma_digit_char(n);
        assert(s.drop_last() =~= Seq::<char>::empty());
        assert(digits_value(s.drop_last()) == 0);
    } else {
        law_decimal_round_trip(n / 10);
        lemma_digit_char(n % 10);
        assert(s.drop_last() =~= decimal(n / 10));
        assert(s.last() == digit_char(n % 10));
        assert forall|i: int| 0 <= i < s.len() implies is_digit(#[trigger] s[i]) by {
            if i < s.len() - 1 {
                assert(s[i] == decimal(n / 10)[i]);
            }
        }
    }
    assert(is_digit(s[0]));
    assert(unsigned_part(s) == s);
}

/// The last segment is the longest tail of `s` that holds no `/`: it holds
/// none, it ends `s`, and what stands before it, if anything, ends in a `/`.
pub proof fn law_last_segment_is_longest_tail(s: Seq<char>)
    ensures
        -1 <= last_slash(s) < s.len(),
        last_slash(s) >= 0 ==> s[last_slash(s)] == '/',
        forall|i: int| last_slash(s) < i < s.len() ==> s[i] != '/',
        forall|i: int| 0 <= i < last_segment(s).len() ==> #[trigger] last_segment(s)[i] != '/',
        s =~= s.subrange(0, last_slash(s) + 1) + last_segment(s),
    decreases s.len(),
{
    if s.len() > 0 && s.last() != '/' {
        let head = s.drop_last();
        law_last_segment_is_longest_tail(head);
        assert(last_slash(s) == last_slash(head));
        assert forall|i: int| last_slash(s) < i < s.len() implies s[i] != '/' by {
            if i < head.len() {
                assert(head[i] == s[i]);
            }
        }
    }
}

/// What follows a `/` and holds none itself is the last segment.
pub proof fn lemma_last_segment_after_slash(head: Seq<char>, tail: Seq<char>)
    requires
        forall|i: int| 0 <= i < tail.len() ==> tail[i] != '/',
    ensures
        last_segment(head.push('/') + tail) == tail,
        last_slash(head.push('/') + tail) == head.len(),
    decreases tail.len(),
{
    let whole = head.push('/') + tail;
    if tail.len() == 0 {
        assert(whole =~= head.push('/'));
        assert(whole.last() == '/');
    } else {
        assert(whole.last() == tail.last());
        assert(whole.drop_last() =~= head.push('/') + tail.drop_last());
        lemma_last_segment_after_slash(head, tail.drop_last());
    }
    assert(whole.subrange(head.len() as int + 1, whole.len() as int) =~= tail);
}

/// A run of digits is worth at least as much as any of its prefixes.
pub proof fn lemma_digits_value_prefix(s: Seq<char>, k: int)
    requires
        0 <= k <= s.len(),
    ensures
        digits_value(s.subrange(0, k)) <= digits_value(s),
    decreases s.len(),
{
    if k == s.len() {
        assert(s.subrange(0, k) =~= s);
    } else {
        assert(s.drop_last().subrange(0, k) =~= s.subrange(0, k));
        lemma_digits_value_prefix(s.drop_last(), k);
    }
}

/// Reads an unsigned decimal numeral: `Some` of its value where `s` is a
/// numeral whose value fits, `None` otherwise.
pub fn parse_u128(s: &str) -> (r: Option<u128>)
    ensures
        r == if is_numeral(s@) && numeral_value(s@) <= u128::MAX {
            Some(numeral_value(s@) as u128)
        } else {
            None::<u128>
        },
{
    let n: usize = s.unicode_len();
    if n == 0 {
        return None;
    }
    let first: usize = if s.get_char(0) == '+' { 1 } else { 0 };
    if first == n {
        return None;
    }
    let ghost digits = unsigned_part(s@);
    assert(digits =~= s@.subrange(first as int, n as int));
    let mut acc: u128 = 0;
    let mut i: usize = first;
    assert(digits.subrange(0, 0) =~= Seq::<char>::empty());
    while i < n
        invariant
            first <= i <= n,
            n == s@.len(),
            first <= 1,
            digits == s@.subrange(first as int, n as int),
            digits == unsigned_part(s@),
            forall|j: int| 0 <= j < i - first ==> is_digit(#[trigger] digits[j]),
            acc == digits_value(digits.subrange(0, i - first)),
        decreases n - i,
    {
        let c: char = s.get_char(i);
        assert(c == digits[i - first]);
        if !('0' <= c && c <= '9') {
            assert(!is_digit(digits[i - first]));
            return None;
        }
        let d: u128 = (c as u32 - '0' as u32) as u128;
        let ghost next = digits.subrange(0, i - first + 1);
        proof {
            assert(next.drop_last() =~= digits.subrange(0, i - first));
            assert(next.last() == c);
            assert(digits_value(next) == acc * 10 + d);
            lemma_digits_value_prefix(digits, i - first + 1);
        }
        if acc > (u128::MAX - d) / 10 {
            return None;
        }
        acc = acc * 10 + d;
        i = i + 1;
    }
    assert(digits.subrange(0, n - first) =~= digits);
    Some(acc)
}

/// Reads an unsigned decimal numeral that fits the machine word.
pub fn parse_usize(s: &str) -> (r: Option<usize>)
    ensures
        r == if is_numeral(s@) && numeral_value(s@) <= usize::MAX {
            Some(numeral_value(s@) as usize)
        } else {
            None::<usize>
        },
{
    match parse_u128(s) {
        Some(v) => {
            if v <= usize::MAX as u128 {
                Some(v as usize)
            } else {
                None
            }
        },
        None => None,
    }
}

/// What follows the last `/` of `path`.
pub fn last_segment_of(path: &str) -> (r: &str)
    ensures
        r@ == last_segment(path@),
{
    let n: usize = path.unicode_len();
    let mut i: usize = n;
    assert(path@.subrange(0, n as int) =~= path@);
    while i > 0
        invariant
            i <= n,
            n == path@.len(),
            last_slash(path@) == last_slash(path@.subrange(0, i as int)),
        decreases i,
    {
        let c: char = path.get_char(i - 1);
        let ghost head = path@.subrange(0, i as int);
        assert(head.last() == c);
        if c == '/' {
            assert(last_slash(head) == i - 1);
            return path.substring_char(i, n);
        }
        assert(head.drop_last() =~= path@.subrange(0, i - 1));
        i = i - 1;
    }
    assert(path@.subrange(0, 0).len() == 0);
    path.substring_char(0, n)
}

/// The chain of ancestors of `path`, shortest first, ending with `path`.
pub fn path_chain_of(path: &str) -> (r: Vec<String>)
    ensures
        r@.len() == path_chain(path@).len(),
        forall|i: int| 0 <= i < r@.len() ==> (#[trigger] r@[i])@ == path_chain(path@)[i],
{
    let n: usize = path.unicode_len();
    let mut out: Vec<String> = Vec::new();
    let mut k: usize = 0;
    while k < n
        invariant
            k <= n,
            n == path@.len(),
            out@.len() == prefixes_upto(path@, k as nat).len(),
            forall|i: int|
                0 <= i < out@.len() ==> (#[trigger] out@[i])@ == prefixes_upto(path@, k as nat)[i],
        decreases n - k,
    {
        k = k + 1;
        let cut: bool = if k == n {
            true
        } else {
            path.get_char(k) == '/'
        };
        if cut {
            let piece: String = path.substring_char(0, k).to_owned();
            out.push(piece);
        }
    }
    out
}

} // verus!
