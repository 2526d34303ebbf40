//! Stateless forward/backward substring search with wraparound.
//!
//! Comparison is on textual content only (no regular-expression semantics),
//! case-insensitive unless `match_case` is set; case folding identifies ASCII
//! letters that differ only in case. Positions are character offsets.
//!
//! Wraparound policy: if no match lies between the start position and the
//! relevant buffer boundary, the same search is retried once from the
//! opposite boundary, so a full-document search needs no indefinite looping.

use vstd::prelude::*;

verus! {

/// Code point of `c` with ASCII upper-case letters folded to lower case.
pub open spec fn folded_code(c: char) -> int {
    if 'A' as int <= c as int && c as int <= 'Z' as int {
        c as int + 32
    } else {
        c as int
    }
}

/// Whether two characters are treated as equal by the search.
pub open spec fn chars_match(a: char, b: char, match_case: bool) -> bool {
    if match_case {
        a == b
    } else {
        folded_code(a) == folded_code(b)
    }
}

/// Whether `pat` occurs in `text` starting at character offset `i`.
pub open spec fn matches_at(text: Seq<char>, pat: Seq<char>, i: int, match_case: bool) -> bool {
    &&& 0 <= i
    &&& i + pat.len() <= text.len()
    &&& forall|k: int| 0 <= k < pat.len() ==> chars_match(text[i + k], pat[k], match_case)
}

/// The first offset at or after `from` where `pat` matches, if any.
pub open spec fn first_match_from(
    text: Seq<char>,
    pat: Seq<char>,
    from: int,
    match_case: bool,
) -> Option<int>
    decreases text.len() - from
{
    if from < 0 || from + pat.len() > text.len() {
        None
    } else if matches_at(text, pat, from, match_case) {
        Some(from)
    } else {
        first_match_from(text, pat, from + 1, match_case)
    }
}

/// The last offset at or before `upto` where `pat` matches, if any.
pub open spec fn last_match_upto(
    text: Seq<char>,
    pat: Seq<char>,
    upto: int,
    match_case: bool,
) -> Option<int>
    decreases upto + 1
{
    if upto < 0 {
        None
    } else if upto + pat.len() <= text.len() && matches_at(text, pat, upto, match_case) {
        Some(upto)
    } else {
        last_match_upto(text, pat, upto - 1, match_case)
    }
}

/// The start offset the search returns: the nearest match in the scanned
/// direction, wrapping once to the opposite boundary. An empty pattern never
/// matches. A forward search considers matches starting at or after `from`;
/// a backward search considers matches ending at or before `from`.
pub open spec fn search_spec(
    text: Seq<char>,
    pat: Seq<char>,
    from: int,
    forward: bool,
    match_case: bool,
) -> Option<int> {
    if pat.len() == 0 {
        None
    } else if forward {
        match first_match_from(text, pat, from, match_case) {
            Some(i) => Some(i),
            None => first_match_from(text, pat, 0, match_case),
        }
    } else {
        match last_match_upto(text, pat, from - pat.len(), match_case) {
            Some(i) => Some(i),
            None => last_match_upto(text, pat, text.len() - pat.len(), match_case),
        }
    }
}

/// What a forward scan finds: the nearest match at or after `from`, or a
/// guarantee that no match lies there.
pub proof fn lemma_first_match_from_correct(
    text: Seq<char>,
    pat: Seq<char>,
    from: int,
    match_case: bool,
)
    requires
        pat.len() > 0,
        0 <= from,
    ensures
        match first_match_from(text, pat, from, match_case) {
            Some(i) => from <= i && matches_at(text, pat, i, match_case) && forall|j: int|
                from <= j < i ==> !matches_at(text, pat, j, match_case),
            None => forall|j: int| from <= j ==> !matches_at(text, pat, j, match_case),
        },
    decreases text.len() - from,
{
    if from + pat.len() > text.len() {
    } else if matches_at(text, pat, from, match_case) {
    } else {
        lemma_first_match_from_correct(text, pat, from + 1, match_case);
    }
}

/// What a backward scan finds: the nearest match at or before `upto`, or a
/// guarantee that no match lies there.
pub proof fn lemma_last_match_upto_correct(
    text: Seq<char>,
    pat: Seq<char>,
    upto: int,
    match_case: bool,
)
    requires
        pat.len() > 0,
    ensures
        match last_match_upto(text, pat, upto, match_case) {
            Some(i) => i <= upto && matches_at(text, pat, i, match_case) && forall|j: int|
                i < j <= upto ==> !matches_at(text, pat, j, match_case),
            None => forall|j: int| j <= upto ==> !matches_at(text, pat, j, match_case),
        },
    decreases upto + 1,
{
    if upto < 0 {
    } else if upto + pat.len() <= text.len() && matches_at(text, pat, upto, match_case) {
    } else {
        lemma_last_match_upto_correct(text, pat, upto - 1, match_case);
    }
}

/// Cyclic search: when the pattern occurs exactly once, a forward search
/// started from any position — including past the match — wraps around and
/// returns that same match.
pub proof fn lemma_search_cycles_to_unique_match(
    text: Seq<char>,
    pat: Seq<char>,
    from: int,
    i: int,
    match_case: bool,
)
    requires
        pat.len() > 0,
        0 <= from <= text.len(),
        matches_at(text, pat, i, match_case),
        forall|j: int| matches_at(text, pat, j, match_case) ==> j == i,
    ensures
        search_spec(text, pat, from, true, match_case) == Some(i),
{
    lemma_first_match_from_correct(text, pat, from, match_case);
    match first_match_from(text, pat, from, match_case) {
        Some(k) => {
            assert(k == i);
        },
        None => {
            lemma_first_match_from_correct(text, pat, 0, match_case);
            match first_match_from(text, pat, 0, match_case) {
                Some(k) => {
                    assert(k == i);
                },
                None => {
                    assert(!matches_at(text, pat, i, match_case));
                },
            }
        },
    }
}

fn chars_match_exec(a: char, b: char, match_case: bool) -> (r: bool)
    ensures
        r == chars_match(a, b, match_case),
{
    if match_case {
        a == b
    } else {
        let ca: u32 = a as u32;
        let cb: u32 = b as u32;
        let fa: u32 = if 65 <= ca && ca <= 90 {
            ca + 32
        } else {
            ca
        };
        let fb: u32 = if 65 <= cb && cb <= 90 {
            cb + 32
        } else {
            cb
        };
        fa == fb
    }
}

fn matches_at_exec(text: &str, pat: &str, i: usize, m: usize, match_case: bool) -> (r: bool)
    requires
        m == pat@.len(),
        i + m <= text@.len(),
        i + m <= usize::MAX,
    ensures
        r == matches_at(text@, pat@, i as int, match_case),
{
    let mut k: usize = 0;
    while k < m
        invariant
            0 <= k <= m,
            m == pat@.len(),
            i + m <= text@.len(),
            i + m <= usize::MAX,
            forall|k2: int| 0 <= k2 < k ==> chars_match(text@[i + k2], pat@[k2], match_case),
        decreases m - k,
    {
        let a = text.get_char(i + k);
        let b = pat.get_char(k);
        if !chars_match_exec(a, b, match_case) {
            assert(!chars_match(text@[i + k as int], pat@[k as int], match_case));
            return false;
        }
        k = k + 1;
    }
    true
}

fn scan_forward(text: &str, pat: &str, start: usize, n: usize, m: usize, match_case: bool) -> (r:
    Option<usize>)
    requires
        n == text@.len(),
        m == pat@.len(),
        1 <= m <= n,
        start <= n,
    ensures
        match r {
            Some(i) => Some(i as int) == first_match_from(text@, pat@, start as int, match_case)
                && matches_at(text@, pat@, i as int, match_case),
            None => first_match_from(text@, pat@, start as int, match_case) is None,
        },
{
    let mut i: usize = start;
    loop
        invariant
            start <= i,
            i <= n + 1,
            n == text@.len(),
            m == pat@.len(),
            1 <= m <= n,
            first_match_from(text@, pat@, start as int, match_case) == first_match_from(
                text@,
                pat@,
                i as int,
                match_case,
            ),
        decreases n + 1 - i,
    {
        if i > n - m {
            assert(first_match_from(text@, pat@, i as int, match_case) is None);
            return None;
        }
        if matches_at_exec(text, pat, i, m, match_case) {
            assert(first_match_from(text@, pat@, i as int, match_case) == Some(i as int));
            return Some(i);
        }
        assert(first_match_from(text@, pat@, i as int, match_case) == first_match_from(
            text@,
            pat@,
            i as int + 1,
            match_case,
        ));
        i = i + 1;
    }
}

fn scan_backward(text: &str, pat: &str, upto: usize, n: usize, m: usize, match_case: bool) -> (r:
    Option<usize>)
    requires
        n == text@.len(),
        m == pat@.len(),
        1 <= m <= n,
        upto + m <= n,
    ensures
        match r {
            Some(i) => Some(i as int) == last_match_upto(text@, pat@, upto as int, match_case)
                && matches_at(text@, pat@, i as int, match_case),
            None => last_match_upto(text@, pat@, upto as int, match_case) is None,
        },
{
    let mut i: usize = upto;
    loop
        invariant
            0 <= i <= upto,
            n == text@.len(),
            m == pat@.len(),
            1 <= m <= n,
            upto + m <= n,
            last_match_upto(text@, pat@, upto as int, match_case) == last_match_upto(
                text@,
                pat@,
                i as int,
                match_case,
            ),
        decreases i,
    {
        if matches_at_exec(text, pat, i, m, match_case) {
            assert(last_match_upto(text@, pat@, i as int, match_case) == Some(i as int));
            return Some(i);
        }
        assert(last_match_upto(text@, pat@, i as int, match_case) == last_match_upto(
            text@,
            pat@,
            i as int - 1,
            match_case,
        ));
        if i == 0 {
            return None;
        }
        i = i - 1;
    }
}

/// Search `text` for `pattern` starting at character offset `from`, scanning
/// forward or backward with a single wraparound, and return the matched span
/// as a half-open pair of character offsets.
pub fn search(text: &str, pattern: &str, from: usize, forward: bool, match_case: bool) -> (r:
    Option<(usize, usize)>)
    requires
        from <= text@.len(),
    ensures
        match r {
            Some(span) => search_spec(text@, pattern@, from as int, forward, match_case) == Some(
                span.0 as int,
            ) && span.1 == span.0 + pattern@.len() && matches_at(
                text@,
                pattern@,
                span.0 as int,
                match_case,
            ),
            None => search_spec(text@, pattern@, from as int, forward, match_case) is None,
        },
{
    if pattern.is_empty() {
        return None;
    }
    let n: usize = text.unicode_len();
    let m: usize = pattern.unicode_len();
    if m > n {
        if forward {
            assert(first_match_from(text@, pattern@, from as int, match_case) is None);
            assert(first_match_from(text@, pattern@, 0, match_case) is None);
        } else {
            assert(last_match_upto(text@, pattern@, from - pattern@.len(), match_case) is None);
            assert(last_match_upto(text@, pattern@, text@.len() - pattern@.len(), match_case)
                is None);
        }
        return None;
    }
    if forward {
        match scan_forward(text, pattern, from, n, m, match_case) {
            Some(i) => Some((i, i + m)),
            None => match scan_forward(text, pattern, 0, n, m, match_case) {
                Some(i) => Some((i, i + m)),
                None => None,
            },
        }
    } else {
        let primary: Option<usize> = if from >= m {
            scan_backward(text, pattern, from - m, n, m, match_case)
        } else {
            assert(last_match_upto(text@, pattern@, from - pattern@.len(), match_case) is None);
            None
        };
        match primary {
            Some(i) => Some((i, i + m)),
            None => match scan_backward(text, pattern, n - m, n, m, match_case) {
                Some(i) => Some((i, i + m)),
                None => None,
            },
        }
    }
}

} // verus!
