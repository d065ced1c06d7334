//! Building the lookup tables from raw, already-deserialized configuration.
//!
//! The raw configuration arrives as plain key/value lists: person name to
//! birthday, canonical name to alias specifications, and person name to
//! resource path. Every key is normalized here; duplicate keys after
//! normalization abort the whole construction with a [`ConfigError`] naming
//! the offending key.

use crate::action::Action;
use crate::action::ActionView;
use crate::birthday::Birthday;
use crate::normalize::norm_seq;
use crate::normalize::normalize;
use crate::table::Table;
use vstd::prelude::*;

verus! {

/// One alias specification under a canonical name: a plain alias (looking it
/// up resolves to the canonical person) or a redirect alias (looking it up
/// redirects to the canonical person's page). A specification of any other
/// shape is rejected while the configuration is deserialized, before it
/// reaches this module.
#[derive(Clone, Debug, PartialEq, Eq)]
pub enum AliasSpec {
    Plain(String),
    Redirect(String),
}

/// A fatal construction error. Construction fails as a whole: no partially
/// built store is handed out. Each variant carries the normalized key that
/// was claimed twice.
#[derive(Clone, Debug, PartialEq, Eq)]
pub enum ConfigError {
    /// Two birthday entries normalize to the same key.
    DuplicateName(String),
    /// Two alias specifications normalize to the same alias key.
    DuplicateAlias(String),
    /// Two path entries normalize to the same key.
    DuplicatePath(String),
}

/// The value stored under a canonical person's key: the action to take and
/// the person's birthday.
#[derive(Debug)]
pub struct Entry {
    pub action: Action,
    pub birthday: Birthday,
}

/// The mathematical value of an [`Entry`].
pub ghost struct EntryView {
    pub action: ActionView,
    pub birthday: Birthday,
}

impl View for Entry {
    type V = EntryView;

    open spec fn view(&self) -> EntryView {
        EntryView { action: self.action@, birthday: self.birthday }
    }
}

/// The alias key claimed by one alias specification: the normalized alias
/// string for a plain alias, the normalized destination for a redirect.
pub open spec fn alias_key(sp: AliasSpec) -> Seq<char> {
    match sp {
        AliasSpec::Plain(a) => norm_seq(a@),
        AliasSpec::Redirect(d) => norm_seq(d@),
    }
}

/// The action stored under an alias key claimed by canonical name `name`: a
/// plain alias resolves through the normalized canonical key; a redirect
/// carries the canonical name as written, from which the serving layer
/// builds the outward redirect path.
pub open spec fn alias_action(name: Seq<char>, sp: AliasSpec) -> ActionView {
    match sp {
        AliasSpec::Plain(_) => ActionView::Resolve(norm_seq(name)),
        AliasSpec::Redirect(_) => ActionView::Redirect(name),
    }
}

/// `(n, j)` addresses an alias specification in the raw alias list.
pub open spec fn valid_pos(raw: Seq<(String, Vec<AliasSpec>)>, n: int, j: int) -> bool {
    0 <= n < raw.len() && 0 <= j < raw[n].1@.len()
}

/// No two birthday entries normalize to the same key.
pub open spec fn no_duplicate_names(raw: Seq<(String, Birthday)>) -> bool {
    forall|i: int, j: int|
        0 <= i < j < raw.len() ==> norm_seq(raw[i].0@) != norm_seq(raw[j].0@)
}

/// No two alias specifications claim the same alias key.
pub open spec fn no_duplicate_aliases(raw: Seq<(String, Vec<AliasSpec>)>) -> bool {
    forall|n1: int, j1: int, n2: int, j2: int|
        valid_pos(raw, n1, j1) && valid_pos(raw, n2, j2) && (n1 != n2 || j1 != j2)
            ==> #[trigger] alias_key(raw[n1].1@[j1]) != #[trigger] alias_key(raw[n2].1@[j2])
}

/// No two path entries normalize to the same key.
pub open spec fn no_duplicate_path_names(raw: Seq<(String, String)>) -> bool {
    forall|i: int, j: int|
        0 <= i < j < raw.len() ==> norm_seq(raw[i].0@) != norm_seq(raw[j].0@)
}

/// `m` is exactly the birthdays table described by the raw list: each raw
/// `(name, birthday)` stands under the normalized name, paired with the
/// self-resolving action, and nothing else is in the table.
pub open spec fn birthdays_built_from(
    m: Map<Seq<char>, EntryView>,
    raw: Seq<(String, Birthday)>,
) -> bool {
    &&& forall|i: int|
        0 <= i < raw.len() ==> m.contains_key(#[trigger] norm_seq(raw[i].0@)) && m[norm_seq(
            raw[i].0@,
        )] == (EntryView {
            action: ActionView::Resolve(norm_seq(raw[i].0@)),
            birthday: raw[i].1,
        })
    &&& forall|k: Seq<char>|
        #[trigger] m.contains_key(k) ==> exists|i: int|
            0 <= i < raw.len() && norm_seq(raw[i].0@) == k
}

/// `m` is exactly the inverted alias table described by the raw list: each
/// alias specification's key maps to its action, and nothing else is in the
/// table.
pub open spec fn aliases_built_from(
    m: Map<Seq<char>, ActionView>,
    raw: Seq<(String, Vec<AliasSpec>)>,
) -> bool {
    &&& forall|n: int, j: int|
        valid_pos(raw, n, j) ==> m.contains_key(#[trigger] alias_key(raw[n].1@[j])) && m[alias_key(
            raw[n].1@[j],
        )] == alias_action(raw[n].0@, raw[n].1@[j])
    &&& forall|k: Seq<char>|
        #[trigger] m.contains_key(k) ==> exists|n: int, j: int|
            valid_pos(raw, n, j) && alias_key(raw[n].1@[j]) == k
}

/// `m` is exactly the paths table described by the raw list: each raw
/// `(name, path)` stands under the normalized name, and nothing else is in
/// the table.
pub open spec fn paths_built_from(m: Map<Seq<char>, Seq<char>>, raw: Seq<(String, String)>) -> bool {
    &&& forall|i: int|
        0 <= i < raw.len() ==> m.contains_key(#[trigger] norm_seq(raw[i].0@)) && m[norm_seq(
            raw[i].0@,
        )] == raw[i].1@
    &&& forall|k: Seq<char>|
        #[trigger] m.contains_key(k) ==> exists|i: int|
            0 <= i < raw.len() && norm_seq(raw[i].0@) == k
}

/// Build the birthdays table: each raw `(name, birthday)` is stored under the
/// normalized name together with the action that resolves to that same key.
/// Fails, returning no table at all, when two names normalize to the same
/// key; the error names that key.
pub fn birthday_parse(raw: &Vec<(String, Birthday)>) -> (r: Result<Table<Entry>, ConfigError>)
    ensures
        r is Ok <==> no_duplicate_names(raw@),
        r matches Ok(t) ==> t.wf() && birthdays_built_from(t@, raw@),
        r matches Err(e) ==> e matches ConfigError::DuplicateName(k) && exists|i: int, j: int|
            0 <= i < j < raw@.len() && norm_seq(raw@[i].0@) == norm_seq(raw@[j].0@) && norm_seq(
                raw@[j].0@,
            ) == k@,
{
    let mut t: Table<Entry> = Table::new();
    let len = raw.len();
    let mut i: usize = 0;
    while i < len
        invariant
            len == raw@.len(),
            i <= len,
            t.wf(),
            forall|i2: int|
                0 <= i2 < i ==> t@.contains_key(#[trigger] norm_seq(raw@[i2].0@)) && t@[norm_seq(
                    raw@[i2].0@,
                )] == (EntryView {
                    action: ActionView::Resolve(norm_seq(raw@[i2].0@)),
                    birthday: raw@[i2].1,
                }),
            forall|k: Seq<char>|
                #[trigger] t@.contains_key(k) ==> exists|i2: int|
                    0 <= i2 < i && norm_seq(raw@[i2].0@) == k,
            forall|i2: int, j2: int|
                0 <= i2 < j2 < i ==> norm_seq(raw@[i2].0@) != norm_seq(raw@[j2].0@),
        decreases len - i,
    {
        let key = normalize(raw[i].0.as_str());
        if t.contains(&key) {
            proof {
                let i2 = choose|i2: int| 0 <= i2 < i && norm_seq(raw@[i2].0@) == key@;
                assert(0 <= i2 && i2 < i as int && (i as int) < raw@.len() && norm_seq(raw@[i2].0@)
                    == norm_seq(raw@[i as int].0@) && norm_seq(raw@[i as int].0@) == key@);
            }
            return Err(ConfigError::DuplicateName(key));
        }
        let self_key = key.clone();
        t.insert(key, Entry { action: Action::Resolve(self_key), birthday: raw[i].1 });
        i += 1;
    }
    Ok(t)
}

/// Invert the raw alias configuration: for each canonical name, each of its
/// alias specifications claims one normalized alias key, mapped to the
/// action that points back at the canonical person. Fails, returning no
/// table at all, when the same alias key is claimed twice; the error names
/// that key. Which duplicate is reported first follows the order of the raw
/// list, so it is deterministic for a deterministic input.
pub fn invert_map(raw: &Vec<(String, Vec<AliasSpec>)>) -> (r: Result<Table<Action>, ConfigError>)
    ensures
        r is Ok <==> no_duplicate_aliases(raw@),
        r matches Ok(t) ==> t.wf() && aliases_built_from(t@, raw@),
        r matches Err(e) ==> e matches ConfigError::DuplicateAlias(k) && exists|
            n1: int,
            j1: int,
            n2: int,
            j2: int,
        |
            valid_pos(raw@, n1, j1) && valid_pos(raw@, n2, j2) && (n1 != n2 || j1 != j2)
                && alias_key(raw@[n1].1@[j1]) == k@ && alias_key(raw@[n2].1@[j2]) == k@,
{
    let mut t: Table<Action> = Table::new();
    let len = raw.len();
    let mut n: usize = 0;
    while n < len
        invariant
            len == raw@.len(),
            n <= len,
            t.wf(),
            forall|n2: int, j2: int|
                valid_pos(raw@, n2, j2) && n2 < n ==> t@.contains_key(
                    #[trigger] alias_key(raw@[n2].1@[j2]),
                ) && t@[alias_key(raw@[n2].1@[j2])] == alias_action(raw@[n2].0@, raw@[n2].1@[j2]),
            forall|k: Seq<char>|
                #[trigger] t@.contains_key(k) ==> exists|n2: int, j2: int|
                    valid_pos(raw@, n2, j2) && n2 < n && alias_key(raw@[n2].1@[j2]) == k,
            forall|n1: int, j1: int, n2: int, j2: int|
                valid_pos(raw@, n1, j1) && valid_pos(raw@, n2, j2) && n1 < n && n2 < n && (n1 != n2
                    || j1 != j2) ==> #[trigger] alias_key(raw@[n1].1@[j1])
                    != #[trigger] alias_key(raw@[n2].1@[j2]),
        decreases len - n,
    {
        let specs_len = raw[n].1.len();
        let mut j: usize = 0;
        while j < specs_len
            invariant
                len == raw@.len(),
                n < len,
                specs_len == raw@[n as int].1@.len(),
                j <= specs_len,
                t.wf(),
                forall|n2: int, j2: int|
                    valid_pos(raw@, n2, j2) && (n2 < n || (n2 == n && j2 < j)) ==> t@.contains_key(
                        #[trigger] alias_key(raw@[n2].1@[j2]),
                    ) && t@[alias_key(raw@[n2].1@[j2])] == alias_action(
                        raw@[n2].0@,
                        raw@[n2].1@[j2],
                    ),
                forall|k: Seq<char>|
                    #[trigger] t@.contains_key(k) ==> exists|n2: int, j2: int|
                        valid_pos(raw@, n2, j2) && (n2 < n || (n2 == n && j2 < j)) && alias_key(
                            raw@[n2].1@[j2],
                        ) == k,
                forall|n1: int, j1: int, n2: int, j2: int|
                    valid_pos(raw@, n1, j1) && valid_pos(raw@, n2, j2) && (n1 < n || (n1 == n && j1
                        < j)) && (n2 < n || (n2 == n && j2 < j)) && (n1 != n2 || j1 != j2)
                        ==> #[trigger] alias_key(raw@[n1].1@[j1]) != #[trigger] alias_key(
                        raw@[n2].1@[j2],
                    ),
            decreases specs_len - j,
        {
            let ghost sp = raw@[n as int].1@[j as int];
            let key = match &raw[n].1[j] {
                AliasSpec::Plain(a) => normalize(a.as_str()),
                AliasSpec::Redirect(d) => normalize(d.as_str()),
            };
            assert(key@ == alias_key(sp));
            if t.contains(&key) {
                proof {
                    let (n2, j2) = choose|n2: int, j2: int|
                        valid_pos(raw@, n2, j2) && (n2 < n || (n2 == n && j2 < j)) && alias_key(
                            raw@[n2].1@[j2],
                        ) == key@;
                    assert(valid_pos(raw@, n as int, j as int) && alias_key(
                        raw@[n as int].1@[j as int],
                    ) == key@ && valid_pos(raw@, n2, j2) && (n2 != n as int || j2 != j as int)
                        && alias_key(raw@[n2].1@[j2]) == key@);
                }
                return Err(ConfigError::DuplicateAlias(key));
            }
            let action = match &raw[n].1[j] {
                AliasSpec::Plain(_) => Action::Resolve(normalize(raw[n].0.as_str())),
                AliasSpec::Redirect(_) => Action::Redirect(raw[n].0.clone()),
            };
            assert(action@ == alias_action(raw@[n as int].0@, sp));
            t.insert(key, action);
            proof {
                assert forall|k: Seq<char>| #[trigger] t@.contains_key(k) implies exists|
                    n2: int,
                    j2: int,
                |
                    valid_pos(raw@, n2, j2) && (n2 < n || (n2 == n && j2 < j + 1)) && alias_key(
                        raw@[n2].1@[j2],
                    ) == k by {
                    if k == key@ {
                        assert(valid_pos(raw@, n as int, j as int) && alias_key(
                            raw@[n as int].1@[j as int],
                        ) == k);
                    }
                }
            }
            j += 1;
        }
        n += 1;
    }
    Ok(t)
}

/// Build the paths table: each raw `(name, path)` is stored under the
/// normalized name; the path value is kept as written. Fails, returning no
/// table at all, when two names normalize to the same key; the error names
/// that key.
pub fn dir_map(raw: &Vec<(String, String)>) -> (r: Result<Table<String>, ConfigError>)
    ensures
        r is Ok <==> no_duplicate_path_names(raw@),
        r matches Ok(t) ==> t.wf() && paths_built_from(t@, raw@),
        r matches Err(e) ==> e matches ConfigError::DuplicatePath(k) && exists|i: int, j: int|
            0 <= i < j < raw@.len() && norm_seq(raw@[i].0@) == norm_seq(raw@[j].0@) && norm_seq(
                raw@[j].0@,
            ) == k@,
{
    let mut t: Table<String> = Table::new();
    let len = raw.len();
    let mut i: usize = 0;
    while i < len
        invariant
            len == raw@.len(),
            i <= len,
            t.wf(),
            forall|i2: int|
                0 <= i2 < i ==> t@.contains_key(#[trigger] norm_seq(raw@[i2].0@)) && t@[norm_seq(
                    raw@[i2].0@,
                )] == raw@[i2].1@,
            forall|k: Seq<char>|
                #[trigger] t@.contains_key(k) ==> exists|i2: int|
                    0 <= i2 < i && norm_seq(raw@[i2].0@) == k,
            forall|i2: int, j2: int|
                0 <= i2 < j2 < i ==> norm_seq(raw@[i2].0@) != norm_seq(raw@[j2].0@),
        decreases len - i,
    {
        let key = normalize(raw[i].0.as_str());
        if t.contains(&key) {
            proof {
                let i2 = choose|i2: int| 0 <= i2 < i && norm_seq(raw@[i2].0@) == key@;
                assert(0 <= i2 && i2 < i as int && (i as int) < raw@.len() && norm_seq(raw@[i2].0@)
                    == norm_seq(raw@[i as int].0@) && norm_seq(raw@[i as int].0@) == key@);
            }
            return Err(ConfigError::DuplicatePath(key));
        }
        t.insert(key, raw[i].1.clone());
        i += 1;
    }
    Ok(t)
}

} // verus!
