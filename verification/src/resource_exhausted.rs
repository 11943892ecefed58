//! Telling apart the causes of `RESOURCE_EXHAUSTED` (gRPC 8).
//!
//! | Context     | Cause                        | Response                 |
//! |-------------|------------------------------|--------------------------|
//! | `Capacity`  | server overload              | retry, standard track    |
//! | `RateLimit` | API rate-limit window full   | retry, rate-limit track  |
//! | `HardQuota` | billing quota exhausted      | do not retry             |

use vstd::prelude::*;

use crate::text::{
    ascii_lower, chars_of, contains, contains_spec, decimal, find,
    find_spec, is_digit, lemma_decimal_reads_back, lemma_find_contains, occurs_at, parse_u64,
    parse_u64_spec, to_ascii_lower,
};

verus! {

broadcast use vstd::string::group_string_axioms;

/// The cause of a `RESOURCE_EXHAUSTED` error.
#[derive(Debug, Clone, Copy, PartialEq, Eq, Structural)]
pub enum ResourceExhaustedContext {
    /// Server capacity: may clear on retry after backoff.
    Capacity,
    /// API rate limit: retry once the window resets.
    RateLimit,
    /// Billing or quota cap: retrying will not help.
    HardQuota,
}

/// The classification of a `grpc-message`, by keywords of its ASCII-
/// lowercased text.  Quota keywords win over rate-limit keywords;
/// `Capacity` is the default, since a retry is safer than dropping.
pub open spec fn classify_spec(message: Seq<char>) -> ResourceExhaustedContext {
    let msg = ascii_lower(message);
    if contains_spec(msg, "quota"@) || contains_spec(msg, "billing"@) || contains_spec(msg, "plan limit"@) {
        ResourceExhaustedContext::HardQuota
    } else if contains_spec(msg, "rate"@) || contains_spec(msg, "too many requests"@)
        || contains_spec(msg, "throttl"@) {
        ResourceExhaustedContext::RateLimit
    } else {
        ResourceExhaustedContext::Capacity
    }
}

/// A message that mentions a quota keyword is a hard quota, whatever rate
/// keywords it also holds.
pub proof fn lemma_quota_keywords_win(message: Seq<char>)
    requires
        contains_spec(ascii_lower(message), "quota"@) || contains_spec(ascii_lower(message), "billing"@)
            || contains_spec(ascii_lower(message), "plan limit"@),
    ensures
        classify_spec(message) == ResourceExhaustedContext::HardQuota,
{
}

/// Each rate-limit keyword decides on its own: a message whose lower-cased
/// text contains `rate`, `too many requests` or `throttl`, and none of the
/// quota keywords, is a rate limit.
pub proof fn lemma_rate_keywords_decide_rate_limit(message: Seq<char>)
    requires
        !contains_spec(ascii_lower(message), "quota"@),
        !contains_spec(ascii_lower(message), "billing"@),
        !contains_spec(ascii_lower(message), "plan limit"@),
        contains_spec(ascii_lower(message), "rate"@) || contains_spec(ascii_lower(message), "too many requests"@)
            || contains_spec(ascii_lower(message), "throttl"@),
    ensures
        classify_spec(message) == ResourceExhaustedContext::RateLimit,
{
}

/// A message that holds none of the keywords is a capacity condition, and
/// only such a message is.
pub proof fn lemma_capacity_without_keywords(message: Seq<char>)
    ensures
        classify_spec(message) == ResourceExhaustedContext::Capacity <==> (
            !contains_spec(ascii_lower(message), "quota"@)
            && !contains_spec(ascii_lower(message), "billing"@)
            && !contains_spec(ascii_lower(message), "plan limit"@)
            && !contains_spec(ascii_lower(message), "rate"@)
            && !contains_spec(ascii_lower(message), "too many requests"@)
            && !contains_spec(ascii_lower(message), "throttl"@)),
{
}

/// Classify a `RESOURCE_EXHAUSTED` message into its cause.
pub fn classify_resource_exhausted(message: &str) -> (c: ResourceExhaustedContext)
    ensures
        c == classify_spec(message@),
{
    let chars = chars_of(message);
    let msg = to_ascii_lower(chars.as_slice());
    let m = msg.as_slice();
    let quota = chars_of("quota");
    let billing = chars_of("billing");
    let plan = chars_of("plan limit");
    if contains(m, quota.as_slice()) || contains(m, billing.as_slice()) || contains(m, plan.as_slice()) {
        return ResourceExhaustedContext::HardQuota;
    }
    let rate = chars_of("rate");
    let many = chars_of("too many requests");
    let throttle = chars_of("throttl");
    if contains(m, rate.as_slice()) || contains(m, many.as_slice()) || contains(m, throttle.as_slice()) {
        ResourceExhaustedContext::RateLimit
    } else {
        ResourceExhaustedContext::Capacity
    }
}

/// The hint that a message carries: the digits between the first
/// `[retry-after=` and the first `s` after it, read as `u64::from_str` does.
pub open spec fn retry_after_spec(message: Seq<char>) -> Option<u64> {
    let tag = "[retry-after="@;
    match find_spec(message, tag) {
        None => None,
        Some(i) => {
            let rest = message.subrange(i + tag.len(), message.len() as int);
            match find_spec(rest, "s"@) {
                None => None,
                Some(end) => parse_u64_spec(rest.take(end)),
            }
        },
    }
}

/// Extract a `Retry-After` hint, in seconds, from a gRPC error message.
///
/// The transport embeds an HTTP `Retry-After` value as `[retry-after=Ns]`
/// in the `grpc-message` of a `RESOURCE_EXHAUSTED` reply.  `None` when no
/// hint is present or its value does not parse.
pub fn parse_retry_after_hint(message: &str) -> (secs: Option<u64>)
    ensures
        secs == retry_after_spec(message@),
{
    let m = chars_of(message);
    let tag = chars_of("[retry-after=");
    let i = match find(m.as_slice(), tag.as_slice()) {
        Some(i) => i,
        None => return None,
    };
    proof { lemma_find_contains(m@, tag@); }
    assert(i + tag@.len() <= m.len());
    let start = i + tag.len();
    let rest = copy_chars(m.as_slice(), start, m.len());
    let s = chars_of("s");
    let end = match find(rest.as_slice(), s.as_slice()) {
        Some(e) => e,
        None => return None,
    };
    proof { lemma_find_contains(rest@, s@); }
    let digits = copy_chars(rest.as_slice(), 0, end);
    assert(digits@ =~= rest@.take(end as int));
    parse_u64(digits.as_slice())
}

fn copy_chars(s: &[char], from: usize, to: usize) -> (out: Vec<char>)
    requires
        from <= to <= s@.len(),
    ensures
        out@ == s@.subrange(from as int, to as int),
{
    let mut out: Vec<char> = Vec::new();
    let mut i: usize = from;
    while i < to
        invariant
            from <= i <= to,
            to <= s@.len(),
            out@ == s@.subrange(from as int, i as int),
        decreases to - i,
    {
        out.push(s[i]);
        assert(s@.subrange(from as int, i + 1) =~= s@.subrange(from as int, i as int).push(s@[i as int]));
        i = i + 1;
    }
    out
}

/// In a text made of a prefix without `[retry-after=`, that tag, and
/// more, the tag does not occur at any index inside the prefix: an
/// occurrence there lies either inside the prefix or runs into the tag
/// that follows, which would put the tag's `[` at a later position.
proof fn lemma_tag_not_before(prefix: Seq<char>, rest: Seq<char>, j: int)
    requires
        !contains_spec(prefix, "[retry-after="@),
        0 <= j < prefix.len(),
    ensures
        !occurs_at(prefix + "[retry-after="@ + rest, "[retry-after="@, j),
{
    reveal_strlit("[retry-after=");
    let tag = "[retry-after="@;
    let m = prefix + tag + rest;
    if occurs_at(m, tag, j) {
        if j + tag.len() <= prefix.len() {
            assert(prefix.subrange(j, j + tag.len()) =~= m.subrange(j, j + tag.len()));
            assert(occurs_at(prefix, tag, j));
        } else {
            let k = prefix.len() - j;
            assert(m.subrange(j, j + tag.len())[k] == m[prefix.len() as int]);
            assert(m[prefix.len() as int] == tag[0]);
            assert(tag[k] == '[');
            assert(false);
        }
    }
}

/// A hint written as `[retry-after=Ns]` reads back as `N`, whatever
/// follows it, when the text before it holds no `[retry-after=` of its own.
pub proof fn lemma_retry_after_round_trip(prefix: Seq<char>, n: u64, suffix: Seq<char>)
    requires
        !contains_spec(prefix, "[retry-after="@),
    ensures
        retry_after_spec(prefix + "[retry-after="@ + decimal(n as nat) + "s]"@ + suffix) == Some(n),
{
    reveal_strlit("[retry-after=");
    reveal_strlit("s]");
    reveal_strlit("s");
    let tag = "[retry-after="@;
    let digits = decimal(n as nat);
    let m = prefix + tag + digits + "s]"@ + suffix;
    lemma_decimal_reads_back(n as nat);
    // The tag first occurs right after the prefix.
    assert(m.subrange(prefix.len() as int, (prefix.len() + tag.len()) as int) =~= tag);
    assert(occurs_at(m, tag, prefix.len() as int));
    lemma_find_contains(m, tag);
    let i = find_spec(m, tag)->0;
    if i < prefix.len() {
        lemma_tag_not_before(prefix, digits + "s]"@ + suffix, i);
        assert(m =~= prefix + tag + (digits + "s]"@ + suffix));
    }
    assert(i == prefix.len());
    // After the tag, the first `s` ends the digits.
    let rest = m.subrange(i + tag.len(), m.len() as int);
    assert(rest =~= digits + "s]"@ + suffix);
    assert(occurs_at(rest, "s"@, digits.len() as int)) by {
        assert(rest.subrange(digits.len() as int, (digits.len() + 1) as int) =~= "s"@);
    }
    lemma_find_contains(rest, "s"@);
    let end = find_spec(rest, "s"@)->0;
    if end < digits.len() {
        assert(rest.subrange(end, end + 1)[0] == rest[end]);
        assert(rest[end] == digits[end]);
        assert(is_digit(digits[end]));
        assert(false);
    }
    assert(end == digits.len());
    assert(rest.take(end) =~= digits);
    assert(digits[0] != '+') by {
        assert(is_digit(digits[0]));
    }
}

/// A message without `[retry-after=` carries no hint.
pub proof fn lemma_no_tag_no_hint(message: Seq<char>)
    requires
        !contains_spec(message, "[retry-after="@),
    ensures
        retry_after_spec(message) is None,
{
    lemma_find_contains(message, "[retry-after="@);
}

} // verus!
