//! The consensus-mode grammar: one configuration string selects the authoring
//! strategy for the whole process lifetime.

use vstd::prelude::*;

verus! {

/// The authoring strategy, fixed at process start.
#[derive(Clone, Copy, Debug, PartialEq, Eq)]
pub enum Consensus {
    /// Seal on a fixed timer; the payload is the block time in milliseconds.
    ManualSeal(u64),
    /// Seal immediately whenever the pool receives a transaction.
    InstantSeal,
    /// No authoring at all: the node only observes the chain.
    NoAuthoring,
}

/// The exact literal that selects instant sealing.
pub open spec fn instant_seal_word() -> Seq<char> {
    "instant-seal"@
}

/// The prefix that selects manual sealing; the block time in milliseconds
/// follows it as decimal digits.
pub open spec fn manual_seal_prefix() -> Seq<char> {
    "manual-seal-"@
}

/// Error text for a manual-seal suffix that is not an unsigned integer.
pub open spec fn invalid_block_time_msg() -> Seq<char> {
    "invalid block time"@
}

/// Error text for a string that matches no rule of the grammar.
pub open spec fn bad_identifier_msg() -> Seq<char> {
    "incorrect consensus identifier"@
}

pub open spec fn is_ascii_digit(c: char) -> bool {
    '0' as u32 <= c as u32 <= '9' as u32
}

pub open spec fn digit_value(c: char) -> int {
    c as u32 - '0' as u32
}

/// The number denoted by a sequence of decimal digits, most significant first.
pub open spec fn digits_value(s: Seq<char>) -> int
    decreases s.len(),
{
    if s.len() == 0 {
        0
    } else {
        digits_value(s.drop_last()) * 10 + digit_value(s.last())
    }
}

pub open spec fn all_digits(s: Seq<char>) -> bool {
    forall|i: int| 0 <= i < s.len() ==> is_ascii_digit(#[trigger] s[i])
}

/// Does `s` start with the manual-seal prefix? (The suffix may still be
/// empty or malformed.)
pub open spec fn has_manual_prefix(s: Seq<char>) -> bool {
    s.len() >= manual_seal_prefix().len()
        && s.subrange(0, manual_seal_prefix().len() as int) == manual_seal_prefix()
}

/// Case-insensitive match of the word "none".
pub open spec fn is_none_word(s: Seq<char>) -> bool {
    s.len() == 4
        && (s[0] == 'n' || s[0] == 'N')
        && (s[1] == 'o' || s[1] == 'O')
        && (s[2] == 'n' || s[2] == 'N')
        && (s[3] == 'e' || s[3] == 'E')
}

/// The whole grammar: which mode (or which error text) a configuration
/// string denotes. The rules are tried in order, and the whole string must
/// match one of them.
pub open spec fn spec_parse_consensus(s: Seq<char>) -> Result<Consensus, Seq<char>> {
    if s == instant_seal_word() {
        Ok(Consensus::InstantSeal)
    } else if has_manual_prefix(s) {
        let digits = s.skip(manual_seal_prefix().len() as int);
        if digits.len() > 0 && all_digits(digits) && digits_value(digits) <= u64::MAX {
            Ok(Consensus::ManualSeal(digits_value(digits) as u64))
        } else {
            Err(invalid_block_time_msg())
        }
    } else if is_none_word(s) {
        Ok(Consensus::NoAuthoring)
    } else {
        Err(bad_identifier_msg())
    }
}

/// A digit string denotes a non-negative number.
proof fn lemma_digits_value_nonneg(s: Seq<char>)
    requires
        all_digits(s),
    ensures
        digits_value(s) >= 0,
    decreases s.len(),
{
    if s.len() > 0 {
        assert(all_digits(s.drop_last()));
        lemma_digits_value_nonneg(s.drop_last());
    }
}

/// Reading more digits never shrinks the denoted number.
proof fn lemma_digits_value_prefix_le(s: Seq<char>, i: int)
    requires
        all_digits(s),
        0 <= i <= s.len(),
    ensures
        digits_value(s.take(i)) <= digits_value(s),
    decreases s.len() - i,
{
    if i == s.len() {
        assert(s.take(i) =~= s);
    } else {
        lemma_digits_value_prefix_le(s, i + 1);
        assert(s.take(i + 1).drop_last() =~= s.take(i));
        assert(digits_value(s.take(i + 1)) == digits_value(s.take(i)) * 10 + digit_value(
            s.take(i + 1).last(),
        ));
        assert(all_digits(s.take(i)));
        lemma_digits_value_nonneg(s.take(i));
    }
}

/// Character-wise string equality.
pub(crate) fn str_eq(a: &str, b: &str) -> (r: bool)
    ensures
        r <==> a@ == b@,
{
    let alen = a.unicode_len();
    let blen = b.unicode_len();
    if alen != blen {
        return false;
    }
    let mut i: usize = 0;
    while i < alen
        invariant
            0 <= i <= alen,
            alen == a@.len(),
            alen == b@.len(),
            forall|j: int| 0 <= j < i ==> a@[j] == b@[j],
        decreases alen - i,
    {
        if a.get_char(i) != b.get_char(i) {
            return false;
        }
        i += 1;
    }
    proof {
        assert(a@ =~= b@);
    }
    true
}

/// Does `a` start with `p`, character by character?
fn str_starts_with(a: &str, p: &str) -> (r: bool)
    ensures
        r <==> (a@.len() >= p@.len() && a@.subrange(0, p@.len() as int) == p@),
{
    let alen = a.unicode_len();
    let plen = p.unicode_len();
    if alen < plen {
        return false;
    }
    let mut i: usize = 0;
    while i < plen
        invariant
            0 <= i <= plen,
            plen <= alen,
            alen == a@.len(),
            plen == p@.len(),
            forall|j: int| 0 <= j < i ==> a@[j] == p@[j],
        decreases plen - i,
    {
        if a.get_char(i) != p.get_char(i) {
            proof {
                if a@.subrange(0, p@.len() as int) == p@ {
                    assert(a@.subrange(0, p@.len() as int)[i as int] == a@[i as int]);
                }
            }
            return false;
        }
        i += 1;
    }
    proof {
        assert(a@.subrange(0, p@.len() as int) =~= p@);
    }
    true
}

/// Parses the decimal digits of `s` from position `from` to the end,
/// exactly as the manual-seal grammar reads them: the suffix must be
/// non-empty, all digits, and fit in a `u64`.
fn parse_digits(s: &str, from: usize) -> (r: Option<u64>)
    requires
        from <= s@.len(),
    ensures
        ({
            let digits = s@.skip(from as int);
            match r {
                Some(v) => digits.len() > 0 && all_digits(digits) && digits_value(digits)
                    == v as int,
                Option::None => !(digits.len() > 0 && all_digits(digits) && digits_value(digits)
                    <= u64::MAX),
            }
        }),
{
    let n = s.unicode_len();
    if from == n {
        return Option::None;
    }
    let ghost digits = s@.skip(from as int);
    let mut v: u64 = 0;
    let mut i: usize = from;
    while i < n
        invariant
            from <= i <= n,
            from < n,
            n == s@.len(),
            digits == s@.skip(from as int),
            all_digits(digits.take(i - from)),
            digits_value(digits.take(i - from)) == v as int,
        decreases n - i,
    {
        let c = s.get_char(i);
        let cu = c as u32;
        if cu < 48 || cu > 57 {
            proof {
                assert(digits[i - from] == s@[i as int]);
                assert(!is_ascii_digit(digits[i - from]));
            }
            return Option::None;
        }
        let d: u64 = ((cu - 48) as u8) as u64;
        // The largest value that can take one more digit without leaving u64.
        if v > 1844674407370955161u64 || (v == 1844674407370955161u64 && d > 5) {
            proof {
                assert(digits.take(i - from + 1).drop_last() =~= digits.take(i - from));
                assert(digits.take(i - from + 1).last() == s@[i as int]);
                assert(digits_value(digits.take(i - from + 1)) > u64::MAX);
                if all_digits(digits) {
                    lemma_digits_value_prefix_le(digits, i - from + 1);
                    assert(digits_value(digits) > u64::MAX);
                }
            }
            return Option::None;
        }
        proof {
            assert(digits.take(i - from + 1).drop_last() =~= digits.take(i - from));
            assert(digits.take(i - from + 1).last() == s@[i as int]);
        }
        v = v * 10 + d;
        i += 1;
    }
    proof {
        assert(digits.take(n - from) =~= digits);
    }
    Some(v)
}

/// Is `s` the word "none", in any mix of upper and lower case?
fn word_is_none(s: &str) -> (r: bool)
    ensures
        r <==> is_none_word(s@),
{
    let n = s.unicode_len();
    if n != 4 {
        return false;
    }
    let c0 = s.get_char(0);
    let c1 = s.get_char(1);
    let c2 = s.get_char(2);
    let c3 = s.get_char(3);
    (c0 == 'n' || c0 == 'N') && (c1 == 'o' || c1 == 'O') && (c2 == 'n' || c2 == 'N') && (c3 == 'e'
        || c3 == 'E')
}

impl Consensus {
    /// Parses a consensus-mode string: the exact literal `instant-seal`,
    /// the prefix `manual-seal-` followed by an unsigned block time in
    /// milliseconds, or the case-insensitive word `none`. Anything else is
    /// rejected with the stated error text.
    pub fn from_str(s: &str) -> (r: Result<Consensus, String>)
        ensures
            r is Ok <==> spec_parse_consensus(s@) is Ok,
            r matches Ok(c) ==> spec_parse_consensus(s@) == Ok::<Consensus, Seq<char>>(c),
            r matches Err(e) ==> spec_parse_consensus(s@) matches Err(m) && e@ == m,
    {
        proof {
            reveal_strlit("instant-seal");
            reveal_strlit("manual-seal-");
            reveal_strlit("invalid block time");
            reveal_strlit("incorrect consensus identifier");
        }
        if str_eq(s, "instant-seal") {
            return Ok(Consensus::InstantSeal);
        }
        if str_starts_with(s, "manual-seal-") {
            match parse_digits(s, 12) {
                Some(v) => {
                    return Ok(Consensus::ManualSeal(v));
                },
                Option::None => {
                    return Err("invalid block time".to_owned());
                },
            }
        }
        if word_is_none(s) {
            return Ok(Consensus::NoAuthoring);
        }
        Err("incorrect consensus identifier".to_owned())
    }
}

} // verus!
