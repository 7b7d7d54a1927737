//! Managed-concurrency settings read from `AWS_LAMBDA_MAX_CONCURRENCY`.

use vstd::prelude::*;

verus! {

/// An ASCII decimal digit.
pub open spec fn is_decimal_digit(c: char) -> bool {
    '0' <= c && c <= '9'
}

/// The value of a sequence of decimal digits (most significant first).
pub open spec fn decimal_value(s: Seq<char>) -> nat
    decreases s.len(),
{
    if s.len() == 0 {
        0
    } else {
        decimal_value(s.drop_last()) * 10 + ((s.last() as int - '0' as int) as nat)
    }
}

/// The digits of an unsigned decimal literal: an optional leading `+` is dropped.
pub open spec fn unsigned_digits(s: Seq<char>) -> Seq<char> {
    if s.len() > 0 && s[0] == '+' {
        s.drop_first()
    } else {
        s
    }
}

/// What `u32::from_str` accepts: an optional `+` followed by one or more
/// decimal digits whose value fits in a `u32`; anything else is refused.
pub open spec fn spec_parse_u32(s: Seq<char>) -> Option<u32> {
    let d = unsigned_digits(s);
    if d.len() > 0 && (forall|i: int| 0 <= i < d.len() ==> is_decimal_digit(#[trigger] d[i]))
        && decimal_value(d) <= u32::MAX {
        Some(decimal_value(d) as u32)
    } else {
        None
    }
}

/// The value of a digit string is at least the value of any of its prefixes.
proof fn lemma_prefix_value_le(d: Seq<char>, k: int)
    requires
        0 <= k <= d.len(),
        forall|i: int| 0 <= i < d.len() ==> is_decimal_digit(#[trigger] d[i]),
    ensures
        decimal_value(d.subrange(0, k)) <= decimal_value(d),
    decreases d.len(),
{
    if k < d.len() {
        let shorter = d.drop_last();
        assert(shorter.subrange(0, k) =~= d.subrange(0, k));
        assert forall|i: int| 0 <= i < shorter.len() implies is_decimal_digit(#[trigger] shorter[i]) by {
            assert(shorter[i] == d[i]);
        }
        lemma_prefix_value_le(shorter, k);
    } else {
        assert(d.subrange(0, k) =~= d);
    }
}

/// Parses a decimal `u32` as `u32::from_str` does: an optional `+`, then one
/// or more decimal digits whose value fits in a `u32`.
fn parse_u32(s: &str) -> (r: Option<u32>)
    ensures
        r == spec_parse_u32(s@),
{
    let ghost d = unsigned_digits(s@);
    let n = s.unicode_len();
    let start: usize = if n > 0 && s.get_char(0) == '+' { 1 } else { 0 };
    assert(d =~= s@.subrange(start as int, n as int));
    if start == n {
        return None;
    }
    let mut acc: u32 = 0;
    let mut i: usize = start;
    while i < n
        invariant
            start <= i <= n,
            n == s@.len(),
            d == s@.subrange(start as int, n as int),
            d == unsigned_digits(s@),
            forall|j: int| 0 <= j < i - start ==> is_decimal_digit(#[trigger] d[j]),
            acc == decimal_value(d.subrange(0, i - start)),
        decreases n - i,
    {
        let c = s.get_char(i);
        let ghost k: int = i - start;
        assert(d[k] == c);
        if !('0' <= c && c <= '9') {
            assert(!is_decimal_digit(d[k]));
            return None;
        }
        let digit: u64 = (c as u32 - '0' as u32) as u64;
        let next: u64 = acc as u64 * 10 + digit;
        assert(d.subrange(0, k + 1).drop_last() =~= d.subrange(0, k));
        assert(decimal_value(d.subrange(0, k + 1)) == next);
        if next > 4294967295u64 {
            proof {
                if forall|j: int| 0 <= j < d.len() ==> is_decimal_digit(#[trigger] d[j]) {
                    lemma_prefix_value_le(d, k + 1);
                }
            }
            return None;
        }
        acc = next as u32;
        i = i + 1;
    }
    assert(d.subrange(0, (n - start) as int) =~= d);
    Some(acc)
}

/// The concurrency requested by the raw value of `AWS_LAMBDA_MAX_CONCURRENCY`:
/// present, a valid `u32`, and positive.
pub open spec fn spec_max_concurrency(raw: Option<Seq<char>>) -> Option<u32> {
    match raw {
        Some(s) => match spec_parse_u32(s) {
            Some(v) => if v > 0 { Some(v) } else { None },
            None => None,
        },
        None => None,
    }
}

/// The number of concurrent workers the runtime runs for a raw setting.
pub open spec fn spec_concurrency_limit(raw: Option<Seq<char>>) -> u32 {
    match spec_max_concurrency(raw) {
        Some(v) => v,
        None => 1,
    }
}

/// The view of an optional string slice.
pub open spec fn opt_str_view(raw: Option<&str>) -> Option<Seq<char>> {
    match raw {
        Some(s) => Some(s@),
        None => None,
    }
}

/// The view of an optional string.
pub open spec fn opt_string_view(s: Option<String>) -> Option<Seq<char>> {
    match s {
        Some(x) => Some(x@),
        None => None,
    }
}

/// Reads the maximum concurrency from the raw value of the
/// `AWS_LAMBDA_MAX_CONCURRENCY` environment variable (`None` when unset).
/// Values that do not parse as a `u32`, and zero, count as unset.
pub fn max_concurrency(raw: Option<&str>) -> (r: Option<u32>)
    ensures
        r == spec_max_concurrency(opt_str_view(raw)),
{
    match raw {
        Some(s) => match parse_u32(s) {
            Some(v) => if v > 0 { Some(v) } else { None },
            None => None,
        },
        None => None,
    }
}

/// The concurrency limit of a runtime: the configured maximum concurrency, or
/// `1` (sequential) when none is configured. Never below one.
pub fn concurrency_limit(raw: Option<&str>) -> (r: u32)
    ensures
        r == spec_concurrency_limit(opt_str_view(raw)),
        r >= 1,
{
    match max_concurrency(raw) {
        Some(v) => v,
        None => 1,
    }
}

/// The connection-pool size hint for a runtime: one connection per worker,
/// since every worker long-polls the Runtime API at the same time.
pub fn pool_size(limit: u32) -> (r: usize)
    ensures
        r as int == limit as int,
{
    limit as usize
}

/// How a runtime polls for events.
#[derive(Debug, Clone, Copy, PartialEq, Eq, Structural)]
pub enum PollingMode {
    /// One loop handles invocations one after another.
    Sequential,
    /// Independent worker loops, one per concurrency slot.
    Concurrent,
}

/// Concurrent polling is used exactly when more than one worker is allowed.
pub fn polling_mode(limit: u32) -> (r: PollingMode)
    ensures
        r == (if limit > 1 { PollingMode::Concurrent } else { PollingMode::Sequential }),
{
    if limit > 1 {
        PollingMode::Concurrent
    } else {
        PollingMode::Sequential
    }
}

/// Law: the concurrency limit is always at least one, and a valid positive
/// setting is taken as it is.
pub proof fn lemma_concurrency_limit_positive(raw: Option<Seq<char>>)
    ensures
        spec_concurrency_limit(raw) >= 1,
        spec_max_concurrency(raw) matches Some(v) ==> spec_concurrency_limit(raw) == v,
{
}

/// Law: the value of a digit string is positional: appending a digit (`0`
/// included) multiplies the value by ten and adds the digit; the empty string
/// is worth nothing.
pub proof fn lemma_decimal_value_positional(s: Seq<char>, c: char)
    requires
        '0' <= c && c <= '9',
    ensures
        decimal_value(s.push(c)) == 10 * decimal_value(s) + (c as int - '0' as int),
        decimal_value(Seq::<char>::empty()) == 0,
{
    assert(s.push(c).drop_last() =~= s);
}

/// Law: appending a digit to a string that parses as `v` gives the string
/// that parses as `10 * v` plus the digit, while that fits in a `u32`, so
/// `"1"` then `"10"` read as one and ten.
pub proof fn lemma_parse_append_digit(s: Seq<char>, c: char, v: u32)
    requires
        spec_parse_u32(s) == Some(v),
        '0' <= c && c <= '9',
        10 * v + (c as int - '0' as int) <= u32::MAX,
    ensures
        spec_parse_u32(s.push(c)) == Some((10 * v + (c as int - '0' as int)) as u32),
{
    let d = unsigned_digits(s);
    assert(s.len() > 0);
    assert(s.push(c)[0] == s[0]);
    if s[0] == '+' {
        assert(s.push(c).drop_first() =~= s.drop_first().push(c));
    }
    let e = unsigned_digits(s.push(c));
    assert(e =~= d.push(c));
    assert(e.drop_last() =~= d);
    assert forall|i: int| 0 <= i < e.len() implies is_decimal_digit(#[trigger] e[i]) by {
        if i < d.len() {
            assert(e[i] == d[i]);
        }
    }
}

/// Law: the concurrency limit is the value the variable parses to when that is
/// positive, and one when the variable is unset, does not parse, or is zero.
pub proof fn lemma_limit_from_parse(s: Seq<char>)
    ensures
        spec_parse_u32(s) matches Some(v) ==> spec_concurrency_limit(Some(s)) == (if v > 0 { v } else { 1 }),
        spec_parse_u32(s) is None ==> spec_concurrency_limit(Some(s)) == 1,
        spec_concurrency_limit(None) == 1,
{
}

/// Law: what parses is an optional `+` and then decimal digits only. The empty
/// string, a lone `+`, a leading `-` and any other character are refused, and
/// a single digit is worth itself.
pub proof fn lemma_parse_shape(s: Seq<char>, c: char)
    ensures
        spec_parse_u32(Seq::<char>::empty()) is None,
        spec_parse_u32(seq!['+']) is None,
        s.len() > 0 && s[0] == '-' ==> spec_parse_u32(s) is None,
        (exists|i: int| 1 <= i < s.len() && !('0' <= #[trigger] s[i] && s[i] <= '9')) ==> spec_parse_u32(s) is None,
        '0' <= c && c <= '9' ==> spec_parse_u32(seq![c]) == Some((c as int - '0' as int) as u32),
        '0' <= c && c <= '9' ==> spec_parse_u32(seq!['+', c]) == Some((c as int - '0' as int) as u32),
{
    assert(seq!['+'].drop_first() =~= Seq::<char>::empty());
    if s.len() > 0 && s[0] == '-' {
        assert(!is_decimal_digit(unsigned_digits(s)[0]));
    }
    if exists|i: int| 1 <= i < s.len() && !('0' <= #[trigger] s[i] && s[i] <= '9') {
        let i = choose|i: int| 1 <= i < s.len() && !('0' <= #[trigger] s[i] && s[i] <= '9');
        if s[0] == '+' {
            assert(unsigned_digits(s)[i - 1] == s[i]);
        } else {
            assert(unsigned_digits(s)[i] == s[i]);
        }
    }
    if '0' <= c && c <= '9' {
        assert(seq![c].drop_last() =~= Seq::<char>::empty());
        assert(seq!['+', c].drop_first() =~= seq![c]);
    }
}

} // verus!
