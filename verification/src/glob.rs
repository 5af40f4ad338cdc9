//! Shell-style wildcard patterns: `*` stands for any run of characters and
//! `?` for any one character; every other character stands for itself.
use vstd::prelude::*;

verus! {

/// Whether the wildcard pattern matches the whole text.
pub open spec fn glob_matches(pattern: Seq<char>, text: Seq<char>) -> bool
    decreases pattern.len(), text.len(),
{
    if pattern.len() == 0 {
        text.len() == 0
    } else if pattern[0] == '*' {
        glob_matches(pattern.drop_first(), text) || (text.len() > 0 && glob_matches(pattern, text.drop_first()))
    } else {
        text.len() > 0 && (pattern[0] == '?' || pattern[0] == text[0]) && glob_matches(
            pattern.drop_first(),
            text.drop_first(),
        )
    }
}

/// The characters of a text, in order.
pub fn chars_of(text: &str) -> (r: Vec<char>)
    ensures
        r@ == text@,
{
    let n = text.unicode_len();
    let mut r: Vec<char> = Vec::new();
    let mut i: usize = 0;
    while i < n
        invariant
            n == text@.len(),
            0 <= i <= n,
            r@ == text@.take(i as int),
        decreases n - i,
    {
        r.push(text.get_char(i));
        assert(r@ =~= text@.take(i + 1));
        i = i + 1;
    }
    assert(text@.take(n as int) =~= text@);
    r
}

/// Whether the wildcard pattern matches the whole text; works through the
/// suffixes of the pattern from the shortest, keeping for each the suffixes
/// of the text that it matches.
pub fn glob_match(pattern: &Vec<char>, text: &Vec<char>) -> (r: bool)
    ensures
        r == glob_matches(pattern@, text@),
{
    let m = pattern.len();
    let n = text.len();
    // row j: whether the empty pattern matches text.skip(j)
    let mut next: Vec<bool> = Vec::new();
    let mut j: usize = 0;
    while j < n
        invariant
            n == text@.len(),
            0 <= j <= n,
            next@.len() == j,
            forall|k: int| 0 <= k < j ==> next@[k] == glob_matches(pattern@.skip(m as int), text@.skip(k)),
            m == pattern@.len(),
        decreases n - j,
    {
        assert(pattern@.skip(m as int).len() == 0);
        next.push(false);
        j = j + 1;
    }
    assert(pattern@.skip(m as int).len() == 0);
    assert(text@.skip(n as int).len() == 0);
    next.push(true);
    let mut i: usize = m;
    while i > 0
        invariant
            m == pattern@.len(),
            n == text@.len(),
            0 <= i <= m,
            next@.len() == n + 1,
            forall|k: int| 0 <= k <= n ==> next@[k] == glob_matches(pattern@.skip(i as int), text@.skip(k)),
        decreases i,
    {
        let pi = i - 1;
        let c = pattern[pi];
        assert(pattern@.skip(pi as int).drop_first() =~= pattern@.skip(i as int));
        assert(pattern@.skip(pi as int)[0] == c);
        let mut cur: Vec<bool> = Vec::new();
        let mut fill: usize = 0;
        while fill < next.len()
            invariant
                n == text@.len(),
                next@.len() == n + 1,
                0 <= fill <= n + 1,
                cur@.len() == fill,
            decreases n + 1 - fill,
        {
            cur.push(false);
            fill = fill + 1;
        }
        let mut k: usize = next.len();
        while k > 0
            invariant
                m == pattern@.len(),
                n == text@.len(),
                0 < i <= m,
                pi == i - 1,
                c == pattern@[pi as int],
                pattern@.skip(pi as int).drop_first() == pattern@.skip(i as int),
                pattern@.skip(pi as int)[0] == c,
                0 <= k <= n + 1,
                cur@.len() == n + 1,
                next@.len() == n + 1,
                forall|q: int| 0 <= q <= n ==> next@[q] == glob_matches(pattern@.skip(i as int), text@.skip(q)),
                forall|q: int| k <= q <= n ==> cur@[q] == glob_matches(pattern@.skip(pi as int), text@.skip(q)),
            decreases k,
        {
            let t = k - 1;
            assert(text@.skip(t as int).len() == n - t);
            if t < n {
                assert(text@.skip(t as int).drop_first() =~= text@.skip(t + 1));
                assert(text@.skip(t as int)[0] == text@[t as int]);
            }
            let v = if c == '*' {
                next[t] || (t < n && cur[t + 1])
            } else {
                t < n && (c == '?' || c == text[t]) && next[t + 1]
            };
            cur.set(t, v);
            k = t;
        }
        next = cur;
        i = pi;
    }
    assert(pattern@.skip(0) =~= pattern@);
    assert(text@.skip(0) =~= text@);
    next[0]
}

/// A pattern without wildcards matches exactly the text that it spells.
pub proof fn law_plain_pattern_matches_itself_only(pattern: Seq<char>, text: Seq<char>)
    requires
        forall|i: int| 0 <= i < pattern.len() ==> #[trigger] pattern[i] != '*' && pattern[i] != '?',
    ensures
        glob_matches(pattern, text) <==> pattern == text,
    decreases pattern.len(),
{
    if pattern.len() == 0 {
        if text.len() == 0 {
            assert(pattern =~= text);
        }
    } else {
        let rest = pattern.drop_first();
        assert forall|i: int| 0 <= i < rest.len() implies #[trigger] rest[i] != '*' && rest[i] != '?' by {
            assert(rest[i] == pattern[i + 1]);
        }
        assert(pattern[0] != '*' && pattern[0] != '?');
        if text.len() > 0 {
            law_plain_pattern_matches_itself_only(rest, text.drop_first());
            if pattern[0] == text[0] && rest == text.drop_first() {
                assert forall|i: int| 0 <= i < pattern.len() implies pattern[i] == text[i] by {
                    if i > 0 {
                        assert(pattern[i] == rest[i - 1]);
                        assert(text[i] == text.drop_first()[i - 1]);
                    }
                }
                assert(pattern =~= text);
            }
            if pattern == text {
                assert(rest =~= text.drop_first());
            }
        }
    }
}

/// `?` stands for exactly one character.
pub proof fn law_question_mark_is_one_character(rest: Seq<char>, text: Seq<char>)
    ensures
        glob_matches(seq!['?'] + rest, text) <==> (text.len() > 0 && glob_matches(rest, text.drop_first())),
{
    assert((seq!['?'] + rest)[0] == '?');
    assert((seq!['?'] + rest).drop_first() =~= rest);
}

/// `*` stands for any run of characters, the empty one included: a pattern
/// that starts with `*` matches a text exactly when the rest of the pattern
/// matches what is left after dropping some number of leading characters.
pub proof fn law_star_is_any_run(rest: Seq<char>, text: Seq<char>)
    ensures
        glob_matches(seq!['*'] + rest, text) <==> exists|k: int|
            0 <= k <= text.len() && #[trigger] glob_matches(rest, text.skip(k)),
    decreases text.len(),
{
    let p = seq!['*'] + rest;
    assert(p[0] == '*');
    assert(p.drop_first() =~= rest);
    assert(text.skip(0) =~= text);
    if glob_matches(p, text) {
        if !glob_matches(rest, text) {
            law_star_is_any_run(rest, text.drop_first());
            let k = choose|k: int| 0 <= k <= text.drop_first().len() && #[trigger] glob_matches(rest, text.drop_first().skip(k));
            assert(text.drop_first().skip(k) =~= text.skip(k + 1));
            assert(glob_matches(rest, text.skip(k + 1)));
        } else {
            assert(glob_matches(rest, text.skip(0)));
        }
    }
    if exists|k: int| 0 <= k <= text.len() && #[trigger] glob_matches(rest, text.skip(k)) {
        let k = choose|k: int| 0 <= k <= text.len() && #[trigger] glob_matches(rest, text.skip(k));
        if k > 0 {
            law_star_is_any_run(rest, text.drop_first());
            assert(text.drop_first().skip(k - 1) =~= text.skip(k));
            assert(glob_matches(rest, text.drop_first().skip(k - 1)));
        }
    }
}

} // verus!
