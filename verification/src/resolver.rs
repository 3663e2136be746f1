//! The module resolver: extracts the compilation entry point from the
//! submitted source text.
//!
//! The compiler needs an explicit entry-point name, and rather than asking
//! the caller for one the pipeline infers it lexically: the name after the
//! first occurrence of the keyword `module` that stands on a word boundary
//! and is followed by whitespace and a name of letters and underscores.
//! This is a heuristic over possibly invalid source, not a parse. The
//! character classes are deliberately ASCII: only ASCII letters, digits
//! and the underscore count as word characters for the boundaries, and
//! only ASCII whitespace separates the keyword from the name — a
//! non-ASCII character beside the keyword is treated as a boundary.

use vstd::prelude::*;
use vstd::string::*;

use crate::errors::Error;
use crate::text::{is_name_char, is_space_char, is_word_char, name_char, space_char, word_char};

verus! {

/// The keyword `module` stands at `i`, beginning on a word boundary.
pub open spec fn keyword_at(s: Seq<char>, i: int) -> bool {
    &&& 0 <= i
    &&& i + 6 <= s.len()
    &&& s[i] == 'm'
    &&& s[i + 1] == 'o'
    &&& s[i + 2] == 'd'
    &&& s[i + 3] == 'u'
    &&& s[i + 4] == 'l'
    &&& s[i + 5] == 'e'
    &&& (i == 0 || !is_word_char(s[i - 1]))
}

/// The first index at or after `i` that does not hold whitespace.
pub open spec fn space_end(s: Seq<char>, i: int) -> int
    decreases s.len() - i,
{
    if i < 0 || i >= s.len() {
        i
    } else if is_space_char(s[i]) {
        space_end(s, i + 1)
    } else {
        i
    }
}

/// The first index at or after `i` that does not hold a name character.
pub open spec fn name_end(s: Seq<char>, i: int) -> int
    decreases s.len() - i,
{
    if i < 0 || i >= s.len() {
        i
    } else if is_name_char(s[i]) {
        name_end(s, i + 1)
    } else {
        i
    }
}

/// A full module declaration pattern matches at `i`: the keyword on a word
/// boundary, at least one whitespace character, a non-empty name of letters
/// and underscores, and a word boundary after the name.
pub open spec fn match_at(s: Seq<char>, i: int) -> bool {
    let j = space_end(s, i + 6);
    let k = name_end(s, j);
    &&& keyword_at(s, i)
    &&& i + 6 < s.len() && is_space_char(s[i + 6])
    &&& j < s.len() && is_name_char(s[j])
    &&& (k == s.len() || !is_word_char(s[k]))
}

/// The name captured by the pattern matching at `i`.
pub open spec fn module_name_at(s: Seq<char>, i: int) -> Seq<char> {
    s.subrange(space_end(s, i + 6), name_end(s, space_end(s, i + 6)))
}

/// The position of the leftmost pattern match at or after `i`.
pub open spec fn find_module(s: Seq<char>, i: int) -> Option<int>
    decreases s.len() - i,
{
    if !(0 <= i && i + 6 <= s.len()) {
        None
    } else if match_at(s, i) {
        Some(i)
    } else {
        find_module(s, i + 1)
    }
}

/// The name the resolver extracts from the source text, if any: the name
/// captured by the leftmost match of the module pattern.
pub open spec fn resolved_module(s: Seq<char>) -> Option<Seq<char>> {
    match find_module(s, 0) {
        Some(i) => Some(module_name_at(s, i)),
        None => None,
    }
}

/// `find_module` returns the leftmost match: a match position at or after
/// `i`, with no match between `i` and it; and `None` only when nothing at
/// or after `i` matches.
proof fn lemma_find_module_leftmost(s: Seq<char>, i: int)
    requires
        0 <= i,
    ensures
        match find_module(s, i) {
            Some(m) => i <= m && match_at(s, m) && (forall|j: int| i <= j < m ==> !match_at(s, j)),
            None => forall|j: int| i <= j ==> !match_at(s, j),
        },
    decreases s.len() - i,
{
    if !(i + 6 <= s.len()) {
        assert forall|j: int| i <= j implies !match_at(s, j) by {
            assert(j + 6 > s.len());
        }
    } else if match_at(s, i) {
    } else {
        lemma_find_module_leftmost(s, i + 1);
    }
}

/// Resolution returns exactly the name of the leftmost match: for every
/// source text in which the module pattern matches at `i` and at no
/// earlier position, the resolved name is the name captured at `i`.
pub proof fn lemma_resolution_is_leftmost_match(s: Seq<char>, i: int)
    requires
        match_at(s, i),
        forall|j: int| 0 <= j < i ==> !match_at(s, j),
    ensures
        resolved_module(s) == Some(module_name_at(s, i)),
{
    lemma_find_module_leftmost(s, 0);
    match find_module(s, 0) {
        Some(m) => {
            if m < i {
                assert(!match_at(s, m));
            }
            if i < m {
                assert(!match_at(s, i));
            }
            assert(m == i);
        },
        None => {
            assert(!match_at(s, i));
        },
    }
}

/// Resolution fails exactly on the texts in which the module pattern
/// matches nowhere.
pub proof fn lemma_resolution_failure(s: Seq<char>)
    ensures
        (resolved_module(s) is None) <==> (forall|i: int| !match_at(s, i)),
{
    lemma_find_module_leftmost(s, 0);
    match find_module(s, 0) {
        Some(m) => {
            assert(match_at(s, m));
        },
        None => {
            assert forall|i: int| !match_at(s, i) by {
                if i < 0 {
                    assert(!match_at(s, i));
                }
            }
        },
    }
}

/// Scan from `from`, which must hold whitespace-skipping state for `base`:
/// returns `space_end(s, base)`.
fn scan_space_end(code: &str, from: usize, n: usize, Ghost(base): Ghost<int>) -> (r: usize)
    requires
        n == code@.len(),
        from <= n,
        0 <= base,
        space_end(code@, base) == space_end(code@, from as int),
    ensures
        r as int == space_end(code@, base),
        from <= r <= n,
{
    let mut j = from;
    while j < n && space_char(code.get_char(j))
        invariant
            from <= j <= n,
            n == code@.len(),
            space_end(code@, base) == space_end(code@, j as int),
        decreases n - j,
    {
        j = j + 1;
    }
    j
}

/// Scan from `from`: returns `name_end(s, base)`.
fn scan_name_end(code: &str, from: usize, n: usize, Ghost(base): Ghost<int>) -> (r: usize)
    requires
        n == code@.len(),
        from <= n,
        0 <= base,
        name_end(code@, base) == name_end(code@, from as int),
    ensures
        r as int == name_end(code@, base),
        from <= r <= n,
{
    let mut k = from;
    while k < n && name_char(code.get_char(k))
        invariant
            from <= k <= n,
            n == code@.len(),
            name_end(code@, base) == name_end(code@, k as int),
        decreases n - k,
    {
        k = k + 1;
    }
    k
}

/// Check whether the module pattern matches at `i`; on a match, return the
/// bounds of the captured name.
fn check_match_at(code: &str, i: usize, n: usize) -> (r: Option<(usize, usize)>)
    requires
        n == code@.len(),
        i + 6 <= n,
    ensures
        match r {
            Some((j, k)) => match_at(code@, i as int) && j as int == space_end(code@, i + 6) && k
                as int == name_end(code@, j as int) && j <= k <= n,
            None => !match_at(code@, i as int),
        },
{
    if !(code.get_char(i) == 'm' && code.get_char(i + 1) == 'o' && code.get_char(i + 2) == 'd'
        && code.get_char(i + 3) == 'u' && code.get_char(i + 4) == 'l' && code.get_char(i + 5)
        == 'e') {
        return None;
    }
    if i > 0 && word_char(code.get_char(i - 1)) {
        return None;
    }
    if i + 6 == n {
        return None;
    }
    if !space_char(code.get_char(i + 6)) {
        return None;
    }
    let j = scan_space_end(code, i + 6, n, Ghost((i + 6) as int));
    if j == n {
        return None;
    }
    if !name_char(code.get_char(j)) {
        return None;
    }
    let k = scan_name_end(code, j, n, Ghost(j as int));
    if k == n || !word_char(code.get_char(k)) {
        Some((j, k))
    } else {
        None
    }
}

/// Resolve the compilation entry point of the submitted source text.
///
/// Succeeds exactly when the module pattern matches somewhere in the text,
/// and then returns the name captured by the leftmost match; otherwise
/// fails with [`Error::UnableToFindModule`].
pub fn resolve_module(code: &str) -> (r: Result<String, Error>)
    ensures
        match resolved_module(code@) {
            Some(name) => r matches Ok(m) && m@ == name,
            None => r == Err::<String, Error>(Error::UnableToFindModule),
        },
{
    let n = code.unicode_len();
    if n < 6 {
        proof {
            assert(find_module(code@, 0) is None);
        }
        return Err(Error::UnableToFindModule);
    }
    let mut i: usize = 0;
    while i <= n - 6
        invariant
            6 <= n,
            i <= n,
            n == code@.len(),
            find_module(code@, 0) == find_module(code@, i as int),
        decreases n - i,
    {
        match check_match_at(code, i, n) {
            Some((j, k)) => {
                proof {
                    assert(find_module(code@, i as int) == Some(i as int));
                }
                let name = code.substring_char(j, k);
                return Ok(name.to_owned());
            },
            None => {
                proof {
                    assert(find_module(code@, i as int) == find_module(code@, i + 1));
                }
                i = i + 1;
            },
        }
    }
    proof {
        assert(find_module(code@, i as int) is None);
    }
    Err(Error::UnableToFindModule)
}

} // verus!
