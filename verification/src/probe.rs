//! Deciding whether a candidate binary's version output satisfies the
//! required version.
//!
//! A candidate binary is run with a version flag by the caller, who hands
//! the captured standard output here. The output is split on whitespace and
//! the second token is taken as the reported version (the first token is
//! the tool's name echoed back); the check succeeds exactly when that token
//! equals the required version string, compared literally. Output with
//! fewer than two tokens never matches.

use vstd::prelude::*;
use vstd::string::*;

verus! {

/// The separators recognised when probe output is split into tokens:
/// ASCII whitespace.
pub open spec fn is_space(c: char) -> bool {
    c == ' ' || c == '\t' || c == '\n' || c == '\r' || c == '\u{0c}'
}

/// Length of the leading run of non-whitespace characters.
pub open spec fn token_len(s: Seq<char>) -> nat
    decreases s.len(),
{
    if s.len() == 0 || is_space(s[0]) {
        0
    } else {
        (1 + token_len(s.drop_first())) as nat
    }
}

pub proof fn lemma_token_len_le(s: Seq<char>)
    ensures
        token_len(s) <= s.len(),
    decreases s.len(),
{
    if s.len() == 0 || is_space(s[0]) {
    } else {
        lemma_token_len_le(s.drop_first());
    }
}

/// The whitespace-delimited tokens of `s`, in order.
pub open spec fn spec_tokens(s: Seq<char>) -> Seq<Seq<char>>
    decreases s.len(),
{
    if s.len() == 0 {
        Seq::empty()
    } else if is_space(s[0]) {
        spec_tokens(s.drop_first())
    } else {
        proof {
            lemma_token_len_le(s);
        }
        seq![s.take(token_len(s) as int)] + spec_tokens(s.skip(token_len(s) as int))
    }
}

/// The probe succeeds exactly when the output has a second
/// whitespace-delimited token and it equals the required version.
pub open spec fn spec_version_matches(stdout: Seq<char>, required: Seq<char>) -> bool {
    spec_tokens(stdout).len() >= 2 && spec_tokens(stdout)[1] == required
}

/// Decide whether the captured version output of a candidate binary
/// reports exactly the required version: its second whitespace token must
/// equal `required` literally.
pub fn wasm_bindgen_version_check(stdout: &str, required: &str) -> (r: bool)
    ensures
        r == spec_version_matches(stdout@, required@),
{
    let ghost s = stdout@;
    let n = stdout.unicode_len();
    proof {
        assert(s.skip(0) =~= s);
    }

    // Skip the whitespace before the first token.
    let mut i: usize = 0;
    while i < n && is_space_char(stdout.get_char(i))
        invariant
            i <= n,
            n == s.len(),
            s == stdout@,
            spec_tokens(s.skip(i as int)) == spec_tokens(s),
        decreases n - i,
    {
        proof {
            assert(s.skip(i as int).drop_first() =~= s.skip(i + 1));
        }
        i = i + 1;
    }
    if i == n {
        proof {
            assert(s.skip(n as int) =~= Seq::<char>::empty());
        }
        return false;
    }

    // Pass over the first token.
    let start1 = i;
    let mut j: usize = i;
    while j < n && !is_space_char(stdout.get_char(j))
        invariant
            start1 <= j <= n,
            n == s.len(),
            s == stdout@,
            token_len(s.skip(start1 as int)) == j - start1 + token_len(s.skip(j as int)),
        decreases n - j,
    {
        proof {
            assert(s.skip(j as int).drop_first() =~= s.skip(j + 1));
        }
        j = j + 1;
    }
    proof {
        if j == n {
            assert(s.skip(n as int) =~= Seq::<char>::empty());
        }
        assert(token_len(s.skip(j as int)) == 0);
        lemma_split_first_token(s, start1 as int, j as int);
    }

    // Skip the whitespace between the first and the second token.
    let mut k: usize = j;
    while k < n && is_space_char(stdout.get_char(k))
        invariant
            j <= k <= n,
            n == s.len(),
            s == stdout@,
            spec_tokens(s.skip(k as int)) == spec_tokens(s.skip(j as int)),
        decreases n - k,
    {
        proof {
            assert(s.skip(k as int).drop_first() =~= s.skip(k + 1));
        }
        k = k + 1;
    }
    if k == n {
        proof {
            assert(s.skip(n as int) =~= Seq::<char>::empty());
        }
        return false;
    }

    // Pass over the second token.
    let start2 = k;
    let mut m: usize = k;
    while m < n && !is_space_char(stdout.get_char(m))
        invariant
            start2 <= m <= n,
            n == s.len(),
            s == stdout@,
            token_len(s.skip(start2 as int)) == m - start2 + token_len(s.skip(m as int)),
        decreases n - m,
    {
        proof {
            assert(s.skip(m as int).drop_first() =~= s.skip(m + 1));
        }
        m = m + 1;
    }
    proof {
        if m == n {
            assert(s.skip(n as int) =~= Seq::<char>::empty());
        }
        assert(token_len(s.skip(m as int)) == 0);
        lemma_split_first_token(s, start2 as int, m as int);
        assert(spec_tokens(s)[1] == s.subrange(start2 as int, m as int));
    }

    let token = stdout.substring_char(start2, m);
    let a = token.to_owned();
    let b = required.to_owned();
    a == b
}

/// Where `s.skip(start)` begins with a token that runs exactly to `end`,
/// the token list of `s.skip(start)` is that token followed by the tokens
/// after it.
proof fn lemma_split_first_token(s: Seq<char>, start: int, end: int)
    requires
        0 <= start < s.len(),
        start <= end <= s.len(),
        !is_space(s[start]),
        token_len(s.skip(start)) == end - start,
    ensures
        spec_tokens(s.skip(start)) == seq![s.subrange(start, end)] + spec_tokens(s.skip(end)),
        spec_tokens(s.skip(start)).len() >= 1,
        spec_tokens(s.skip(start))[0] == s.subrange(start, end),
        spec_tokens(s.skip(start)).skip(1) == spec_tokens(s.skip(end)),
{
    let t = s.skip(start);
    assert(t[0] == s[start]);
    assert(spec_tokens(t) == seq![t.take(token_len(t) as int)] + spec_tokens(
        t.skip(token_len(t) as int),
    ));
    assert(t.take(end - start) =~= s.subrange(start, end));
    assert(t.skip(end - start) =~= s.skip(end));
    assert(spec_tokens(t).skip(1) =~= spec_tokens(s.skip(end)));
}

/// Whether a character counts as whitespace when probe output is split.
fn is_space_char(c: char) -> (r: bool)
    ensures
        r == is_space(c),
{
    c == ' ' || c == '\t' || c == '\n' || c == '\r' || c == '\u{0c}'
}

} // verus!
