//! Extracting the candidate name token from a raw path segment.
//!
//! An incoming segment such as `is-it-sam-birthday` is split at a fixed
//! delimiter and the token at a fixed position is taken as the candidate
//! name. Too few tokens is a miss, not an error.

use vstd::prelude::*;
use vstd::string::StrSliceExecFns;
use vstd::string::StringExecFns;

verus! {

/// The delimiter that separates the tokens of a path segment.
pub const DELIM: char = '-';

/// The position (zero-indexed) of the name token within a path segment.
pub const NAME_TOKEN_INDEX: usize = 2;

/// The sequence holds no delimiter.
pub open spec fn no_delim(s: Seq<char>) -> bool {
    forall|k: int| 0 <= k < s.len() ==> s[k] != DELIM
}

/// The index of the first delimiter in `s`, or -1 if there is none.
pub open spec fn first_delim(s: Seq<char>) -> int
    decreases s.len(),
{
    if s.len() == 0 {
        -1
    } else if s[0] == DELIM {
        0
    } else if first_delim(s.drop_first()) < 0 {
        -1
    } else {
        first_delim(s.drop_first()) + 1
    }
}

/// The token at position `n` when `s` is split at the delimiter, if `s` has
/// that many tokens. Splitting always yields at least one (possibly empty)
/// token; each delimiter starts one more.
pub open spec fn token_at(s: Seq<char>, n: nat) -> Option<Seq<char>>
    decreases n,
{
    let j = first_delim(s);
    if n == 0 {
        if j < 0 {
            Some(s)
        } else {
            Some(s.take(j))
        }
    } else if j < 0 {
        None
    } else {
        token_at(s.skip(j + 1), (n - 1) as nat)
    }
}

/// If `s[j]` is the first delimiter of `s`, then `first_delim(s)` is `j`.
proof fn lemma_first_delim_at(s: Seq<char>, j: int)
    requires
        0 <= j < s.len(),
        s[j] == DELIM,
        forall|k: int| 0 <= k < j ==> s[k] != DELIM,
    ensures
        first_delim(s) == j,
    decreases j,
{
    if j > 0 {
        lemma_first_delim_at(s.drop_first(), j - 1);
    }
}

/// A sequence without a delimiter has no first delimiter.
proof fn lemma_first_delim_none(s: Seq<char>)
    requires
        no_delim(s),
    ensures
        first_delim(s) < 0,
    decreases s.len(),
{
    if s.len() > 0 {
        lemma_first_delim_none(s.drop_first());
    }
}

/// The position of the first delimiter at or after `from`, if any.
fn find_delim(s: &str, from: usize, len: usize) -> (r: Option<usize>)
    requires
        from <= len,
        len == s@.len(),
    ensures
        match r {
            Some(j) => from <= j < len && s@[j as int] == DELIM && (forall|k: int|
                from <= k < j ==> s@[k] != DELIM),
            None => forall|k: int| from <= k < len ==> s@[k] != DELIM,
        },
{
    let mut i: usize = from;
    while i < len
        invariant
            from <= i <= len,
            len == s@.len(),
            forall|k: int| from <= k < i ==> s@[k] != DELIM,
        decreases len - i,
    {
        if s.get_char(i) == DELIM {
            return Some(i);
        }
        i += 1;
    }
    None
}

/// The token at position `n` of `s` split at the delimiter, as [`token_at`]
/// describes it.
pub fn nth_token(s: &str, n: usize) -> (r: Option<String>)
    ensures
        match r {
            Some(t) => token_at(s@, n as nat) == Some(t@),
            None => token_at(s@, n as nat) is None,
        },
{
    let len = s.unicode_len();
    let mut start: usize = 0;
    let mut rem: usize = n;
    proof {
        assert(s@.skip(0) =~= s@);
    }
    while rem > 0
        invariant
            start <= len,
            len == s@.len(),
            token_at(s@, n as nat) == token_at(s@.skip(start as int), rem as nat),
        decreases rem,
    {
        match find_delim(s, start, len) {
            Some(j) => {
                proof {
                    let u = s@.skip(start as int);
                    assert(u[j - start] == DELIM);
                    lemma_first_delim_at(u, j - start);
                    assert(u.skip(j - start + 1) =~= s@.skip(j + 1));
                }
                start = j + 1;
                rem = rem - 1;
            },
            None => {
                proof {
                    lemma_first_delim_none(s@.skip(start as int));
                }
                return None;
            },
        }
    }
    let end = match find_delim(s, start, len) {
        Some(j) => {
            proof {
                let u = s@.skip(start as int);
                assert(u[j - start] == DELIM);
                lemma_first_delim_at(u, j - start);
                assert(u.take(j - start) =~= s@.subrange(start as int, j as int));
            }
            j
        },
        None => {
            proof {
                let u = s@.skip(start as int);
                lemma_first_delim_none(u);
                assert(u =~= s@.subrange(start as int, len as int));
            }
            len
        },
    };
    let t = s.substring_char(start, end);
    Some(String::from_str(t))
}

/// Splitting `a-b-t` at the delimiter puts `t` at position 2: a segment made
/// of two delimiter-free prefixes and a delimiter-free tail, with one
/// delimiter between each, carries the tail as its third token.
pub proof fn lemma_third_token(a: Seq<char>, b: Seq<char>, t: Seq<char>)
    requires
        no_delim(a),
        no_delim(b),
        no_delim(t),
    ensures
        token_at(a + seq![DELIM] + b + seq![DELIM] + t, 2) == Some(t),
{
    let s = a + seq![DELIM] + b + seq![DELIM] + t;
    let s1 = b + seq![DELIM] + t;
    assert(s[a.len() as int] == DELIM);
    lemma_first_delim_at(s, a.len() as int);
    assert(s.skip(a.len() as int + 1) =~= s1);
    assert(token_at(s, 2) == token_at(s1, 1));
    assert(s1[b.len() as int] == DELIM);
    lemma_first_delim_at(s1, b.len() as int);
    assert(s1.skip(b.len() as int + 1) =~= t);
    assert(token_at(s1, 1) == token_at(t, 0));
    lemma_first_delim_none(t);
    assert(token_at(t, 0) == Some(t));
}

} // verus!
