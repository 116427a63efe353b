//! The inbound line grammar: splitting a line into keyword and arguments, and
//! splitting the arguments of a publish command into its three fields.
use vstd::prelude::*;
use vstd::string::*;
use crate::text::{
    find_token_end, is_ws, lemma_back_ws_bounds, lemma_skip_ws_bounds, lemma_token_end_bounds, skip_whitespace, skip_ws,
    token_end, trim_spec, trim_text,
};

verus! {

/// The first index at or after `i` that holds a space character, or the length.
pub open spec fn first_space(s: Seq<char>, i: int) -> int
    decreases s.len() - i,
{
    if i < 0 || i >= s.len() {
        s.len() as int
    } else if s[i] == ' ' {
        i
    } else {
        first_space(s, i + 1)
    }
}

/// A line, trimmed, split at its first space into keyword and arguments; nothing
/// for a line that is empty once trimmed.
pub open spec fn parse_line_spec(line: Seq<char>) -> Option<(Seq<char>, Seq<char>)> {
    let t = trim_spec(line);
    let k = first_space(t, 0);
    if t.len() == 0 {
        None
    } else if k < t.len() {
        Some((t.subrange(0, k), t.subrange(k + 1, t.len() as int)))
    } else {
        Some((t, Seq::<char>::empty()))
    }
}

proof fn lemma_first_space_bounds(s: Seq<char>, i: int)
    requires
        0 <= i <= s.len(),
    ensures
        i <= first_space(s, i) <= s.len(),
        first_space(s, i) < s.len() ==> s[first_space(s, i)] == ' ',
    decreases s.len() - i,
{
    if i < s.len() && s[i] != ' ' {
        lemma_first_space_bounds(s, i + 1);
    }
}

/// A line that holds only whitespace trims to nothing.
pub proof fn lemma_blank_trims_empty(s: Seq<char>)
    requires
        forall|i: int| 0 <= i < s.len() ==> is_ws(#[trigger] s[i]),
    ensures
        trim_spec(s).len() == 0,
{
    lemma_skip_ws_bounds(s, 0);
    let t = s.subrange(skip_ws(s, 0), s.len() as int);
    lemma_back_ws_bounds(t, t.len() as int);
}

/// Without a space character, no index holds one.
pub proof fn lemma_no_space(s: Seq<char>, i: int)
    requires
        0 <= i <= s.len(),
        forall|j: int| 0 <= j < s.len() ==> #[trigger] s[j] != ' ',
    ensures
        first_space(s, i) == s.len(),
    decreases s.len() - i,
{
    if i < s.len() {
        lemma_no_space(s, i + 1);
    }
}

/// Splits a line into its command keyword and its argument text.
///
/// The line is trimmed of surrounding whitespace first; a line that is then
/// empty yields nothing. Otherwise the keyword runs up to the first space and
/// the arguments follow it; with no space the whole line is the keyword and
/// the arguments are empty.
pub fn parse_line(line: &str) -> (r: Option<(&str, &str)>)
    ensures
        match r {
            None => parse_line_spec(line@) is None,
            Some((cmd, args)) => parse_line_spec(line@) == Some((cmd@, args@)),
        },
        (forall|i: int| 0 <= i < line@.len() ==> is_ws(#[trigger] line@[i])) ==> r is None,
        trim_spec(line@).len() > 0 && (forall|i: int|
            0 <= i < trim_spec(line@).len() ==> #[trigger] trim_spec(line@)[i] != ' ')
            ==> (r matches Some((cmd, args)) && cmd@ == trim_spec(line@) && args@.len() == 0),
{
    proof {
        if forall|i: int| 0 <= i < line@.len() ==> is_ws(#[trigger] line@[i]) {
            lemma_blank_trims_empty(line@);
        }
        let t = trim_spec(line@);
        if forall|i: int| 0 <= i < t.len() ==> #[trigger] t[i] != ' ' {
            lemma_no_space(t, 0);
        }
    }
    let t = trim_text(line);
    let n = t.unicode_len();
    if n == 0 {
        return None;
    }
    let mut k: usize = 0;
    while k < n && t.get_char(k) != ' '
        invariant
            n == t@.len(),
            k <= n,
            first_space(t@, k as int) == first_space(t@, 0),
        decreases n - k,
    {
        k = k + 1;
    }
    if k < n {
        Some((t.substring_char(0, k), t.substring_char(k + 1, n)))
    } else {
        proof {
            assert(t@.subrange(0, n as int) =~= t@);
        }
        Some((t.substring_char(0, n), t.substring_char(n, n)))
    }
}

/// The three fields of a publish command's arguments: two whitespace-delimited
/// tokens and the rest of the text after the whitespace that follows them.
/// Nothing where fewer than three tokens are present.
pub open spec fn publish_parts(a: Seq<char>) -> Option<(Seq<char>, Seq<char>, Seq<char>)> {
    let i0 = skip_ws(a, 0);
    let e0 = token_end(a, i0);
    let i1 = skip_ws(a, e0);
    let e1 = token_end(a, i1);
    let i2 = skip_ws(a, e1);
    if i2 < a.len() {
        Some((a.subrange(i0, e0), a.subrange(i1, e1), a.subrange(i2, a.len() as int)))
    } else {
        None
    }
}

/// Splits the arguments of a publish command into agent, channel and payload text.
pub fn split_publish_args(args: &str) -> (r: Option<(&str, &str, &str)>)
    ensures
        match r {
            None => publish_parts(args@) is None,
            Some((a, c, v)) => publish_parts(args@) == Some((a@, c@, v@)),
        },
{
    let n = args.unicode_len();
    let i0 = skip_whitespace(args, n, 0);
    proof {
        lemma_skip_ws_bounds(args@, 0);
    }
    let e0 = find_token_end(args, n, i0);
    proof {
        lemma_token_end_bounds(args@, i0 as int);
    }
    let i1 = skip_whitespace(args, n, e0);
    proof {
        lemma_skip_ws_bounds(args@, e0 as int);
    }
    let e1 = find_token_end(args, n, i1);
    proof {
        lemma_token_end_bounds(args@, i1 as int);
    }
    let i2 = skip_whitespace(args, n, e1);
    proof {
        lemma_skip_ws_bounds(args@, e1 as int);
    }
    if i2 < n {
        Some((args.substring_char(i0, e0), args.substring_char(i1, e1), args.substring_char(i2, n)))
    } else {
        None
    }
}

/// Whether index `i` of `s` begins a whitespace-delimited token.
pub open spec fn starts_token(s: Seq<char>, i: int) -> bool {
    0 <= i < s.len() && !is_ws(s[i]) && (i == 0 || is_ws(s[i - 1]))
}

/// The number of whitespace-delimited tokens that begin before index `n` of `s`.
pub open spec fn tokens_before(s: Seq<char>, n: int) -> nat
    decreases n,
{
    if n <= 0 {
        0
    } else {
        tokens_before(s, n - 1) + if starts_token(s, n - 1) {
            1nat
        } else {
            0nat
        }
    }
}

/// The number of whitespace-delimited tokens in `s`.
pub open spec fn token_count(s: Seq<char>) -> nat {
    tokens_before(s, s.len() as int)
}

proof fn lemma_tokens_over_ws(s: Seq<char>, i: int, j: int)
    requires
        0 <= i <= j <= s.len(),
        forall|k: int| i <= k < j ==> is_ws(#[trigger] s[k]),
    ensures
        tokens_before(s, j) == tokens_before(s, i),
    decreases j - i,
{
    if j > i {
        lemma_tokens_over_ws(s, i, j - 1);
    }
}

proof fn lemma_tokens_over_token(s: Seq<char>, i: int, j: int)
    requires
        0 <= i < j <= s.len(),
        starts_token(s, i),
        forall|k: int| i <= k < j ==> !is_ws(#[trigger] s[k]),
    ensures
        tokens_before(s, j) == tokens_before(s, i) + 1,
    decreases j - i,
{
    if j > i + 1 {
        lemma_tokens_over_token(s, i, j - 1);
        assert(!is_ws(s[j - 2]));
    }
}

proof fn lemma_tokens_monotone(s: Seq<char>, i: int, j: int)
    requires
        0 <= i <= j,
    ensures
        tokens_before(s, i) <= tokens_before(s, j),
    decreases j - i,
{
    if j > i {
        lemma_tokens_monotone(s, i, j - 1);
    }
}

/// Publish arguments split into three fields exactly when they hold at least
/// three whitespace-delimited tokens: with fewer, the command is dropped.
pub proof fn lemma_publish_needs_three_tokens(a: Seq<char>)
    ensures
        publish_parts(a) is Some <==> token_count(a) >= 3,
{
    let n = a.len() as int;
    let i0 = skip_ws(a, 0);
    lemma_skip_ws_bounds(a, 0);
    lemma_tokens_over_ws(a, 0, i0);
    if i0 == n {
        lemma_tokens_over_ws(a, 0, n);
        return;
    }
    let e0 = token_end(a, i0);
    lemma_token_end_bounds(a, i0);
    lemma_tokens_over_token(a, i0, e0);
    let i1 = skip_ws(a, e0);
    lemma_skip_ws_bounds(a, e0);
    lemma_tokens_over_ws(a, e0, i1);
    if i1 == n {
        return;
    }
    assert(starts_token(a, i1));
    let e1 = token_end(a, i1);
    lemma_token_end_bounds(a, i1);
    lemma_tokens_over_token(a, i1, e1);
    let i2 = skip_ws(a, e1);
    lemma_skip_ws_bounds(a, e1);
    lemma_tokens_over_ws(a, e1, i2);
    if i2 == n {
        return;
    }
    assert(starts_token(a, i2));
    lemma_tokens_over_token(a, i2, i2 + 1);
    lemma_tokens_monotone(a, i2 + 1, n);
}

} // verus!
