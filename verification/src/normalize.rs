//! Key normalization.
//!
//! Every configured name, alias and path key — and the name token extracted
//! from an incoming path segment — is run through the same transform before it
//! is used for lookups: lowercase every ASCII letter, then append a fixed
//! pluralizing suffix. The suffix is a plain appended character, not English
//! pluralization: `"glass"` normalizes to `"glasss"`.

use vstd::prelude::*;
use vstd::string::StrSliceExecFns;

verus! {

/// The pluralizing suffix appended to every normalized key.
pub const SUFFIX: char = 's';

/// The lowercase form of one character: an ASCII uppercase letter maps to its
/// lowercase counterpart, every other character is unchanged.
pub open spec fn lower_char(c: char) -> char {
    if 65 <= c as u32 && c as u32 <= 90 {
        ((c as u32 + 32) as u8) as char
    } else {
        c
    }
}

/// The lowercase form of a sequence of characters.
pub open spec fn lower_seq(s: Seq<char>) -> Seq<char> {
    s.map_values(|c: char| lower_char(c))
}

/// The normalized form of a key: lowercased, with the suffix appended.
pub open spec fn norm_seq(s: Seq<char>) -> Seq<char> {
    lower_seq(s).push(SUFFIX)
}

fn lower_char_exec(c: char) -> (r: char)
    ensures
        r == lower_char(c),
{
    let u = c as u32;
    if 65 <= u && u <= 90 {
        ((u + 32) as u8) as char
    } else {
        c
    }
}

/// Relies on `String::from_iter`: the returned string holds exactly the
/// characters yielded by the iterator, in order.
#[verifier::external_body]
fn string_from_chars(v: Vec<char>) -> (r: String)
    ensures
        r@ == v@,
{
    String::from_iter(v)
}

/// Normalize a raw key: lowercase every ASCII letter, then append the suffix.
/// Deterministic and total; applied uniformly to configured keys and to
/// request tokens so that all normalized forms are comparable by equality.
pub fn normalize(s: &str) -> (r: String)
    ensures
        r@ == norm_seq(s@),
{
    let n = s.unicode_len();
    let mut v: Vec<char> = Vec::new();
    let mut i: usize = 0;
    while i < n
        invariant
            n == s@.len(),
            i <= n,
            v@.len() == i,
            forall|k: int| 0 <= k < i ==> v@[k] == lower_char(s@[k]),
        decreases n - i,
    {
        let c = s.get_char(i);
        v.push(lower_char_exec(c));
        i += 1;
    }
    v.push(SUFFIX);
    proof {
        assert(v@ =~= norm_seq(s@));
    }
    string_from_chars(v)
}

/// Two keys agree up to letter case: they have the same length and their
/// characters lowercase to the same characters.
pub open spec fn eq_ignore_case(s: Seq<char>, t: Seq<char>) -> bool {
    &&& s.len() == t.len()
    &&& forall|i: int| 0 <= i < s.len() ==> lower_char(s[i]) == lower_char(t[i])
}

/// Normalization is case-insensitive: two keys that agree up to letter case
/// normalize to the same key.
pub proof fn lemma_normalize_case_insensitive(s: Seq<char>, t: Seq<char>)
    requires
        eq_ignore_case(s, t),
    ensures
        norm_seq(s) == norm_seq(t),
{
    assert(norm_seq(s) =~= norm_seq(t));
}

/// Normalization is never idempotent: normalizing an already-normalized key
/// appends the suffix a second time, so the result is one character longer.
pub proof fn lemma_normalize_not_idempotent(s: Seq<char>)
    ensures
        norm_seq(norm_seq(s)) != norm_seq(s),
{
    assert(norm_seq(norm_seq(s)).len() == norm_seq(s).len() + 1);
}

} // verus!
