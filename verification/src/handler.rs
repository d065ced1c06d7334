//! The request-side resolver: from a raw path segment to a resolved action,
//! an optional resource path and an optional birthday.

use crate::action::Action;
use crate::action::ActionView;
use crate::birthday::Birthday;
use crate::config::birthday_of;
use crate::config::path_of;
use crate::config::Config;
use crate::config::ConfigView;
use crate::normalize::norm_seq;
use crate::normalize::normalize;
use crate::parse::alias_action;
use crate::parse::alias_key;
use crate::parse::aliases_built_from;
use crate::parse::birthdays_built_from;
use crate::parse::valid_pos;
use crate::parse::AliasSpec;
use crate::segment::lemma_third_token;
use crate::segment::no_delim;
use crate::segment::nth_token;
use crate::segment::token_at;
use crate::segment::DELIM;
use crate::segment::NAME_TOKEN_INDEX;
use vstd::prelude::*;

verus! {

/// What resolving a raw path segment against a configuration yields, if
/// anything: the name token is taken from the segment and normalized. A
/// direct hit among the birthdays yields that entry's action, the person's
/// optional resource path, and the birthday. Otherwise an alias hit yields
/// either its redirect — with no path and no birthday — or its resolve
/// target together with the target's optional path and optional birthday,
/// whether or not the target has a birthday entry. Anything else is a miss.
pub open spec fn resolution(cfg: ConfigView, segment: Seq<char>) -> Option<
    (ActionView, Option<Seq<char>>, Option<Birthday>),
> {
    match token_at(segment, NAME_TOKEN_INDEX as nat) {
        None => None,
        Some(tok) => {
            let key = norm_seq(tok);
            if cfg.birthdays.contains_key(key) {
                Some(
                    (cfg.birthdays[key].action, path_of(cfg, key), Some(cfg.birthdays[key].birthday)),
                )
            } else {
                match cfg.aliases {
                    None => None,
                    Some(am) => if am.contains_key(key) {
                        match am[key] {
                            ActionView::Redirect(target) => Some(
                                (ActionView::Redirect(target), None, None),
                            ),
                            ActionView::Resolve(target) => Some(
                                (
                                    ActionView::Resolve(target),
                                    path_of(cfg, target),
                                    birthday_of(cfg, target),
                                ),
                            ),
                        }
                    } else {
                        None
                    },
                }
            }
        },
    }
}

/// The mathematical value of a resolver result.
pub open spec fn result_view(r: Option<(Action, Option<String>, Option<Birthday>)>) -> Option<
    (ActionView, Option<Seq<char>>, Option<Birthday>),
> {
    match r {
        None => None,
        Some((a, p, b)) => Some(
            (
                a@,
                match p {
                    None => None,
                    Some(s) => Some(s@),
                },
                b,
            ),
        ),
    }
}

/// The resolver. Stateless: every answer is a pure lookup against the
/// immutable configuration.
pub struct Handler;

impl Handler {
    /// Resolve a raw path segment, as [`resolution`] describes. A miss is
    /// `None`, never an error.
    pub fn execute(config: &Config, name: &str) -> (r: Option<
        (Action, Option<String>, Option<Birthday>),
    >)
        requires
            config.wf(),
        ensures
            result_view(r) == resolution(config@, name@),
    {
        let tok = match nth_token(name, NAME_TOKEN_INDEX) {
            Some(t) => t,
            None => {
                return None;
            },
        };
        let key = normalize(tok.as_str());
        let birthdays = config.birthdays_table();
        if let Some(e) = birthdays.get(&key) {
            let path = Self::lookup_path(config, &key);
            return Some((e.action.duplicate(), path, Some(e.birthday)));
        }
        let aliases = match config.aliases_table() {
            Some(t) => t,
            None => {
                return None;
            },
        };
        let action = match aliases.get(&key) {
            Some(a) => a,
            None => {
                return None;
            },
        };
        match action {
            Action::Redirect(_) => Some((action.duplicate(), None, None)),
            Action::Resolve(target) => {
                let path = Self::lookup_path(config, target);
                let birthday = match birthdays.get(target) {
                    Some(e) => Some(e.birthday),
                    None => None,
                };
                Some((action.duplicate(), path, birthday))
            },
        }
    }

    /// The resource path stored under `key`, as [`path_of`] describes.
    fn lookup_path(config: &Config, key: &String) -> (r: Option<String>)
        requires
            config.wf(),
        ensures
            match r {
                Some(p) => path_of(config@, key@) == Some(p@),
                None => path_of(config@, key@) is None,
            },
    {
        match config.paths_table() {
            Some(t) => match t.get(key) {
                Some(p) => Some(p.clone()),
                None => None,
            },
            None => None,
        }
    }
}

/// Round-trip resolution: a canonical name with a configured birthday is
/// found again by resolving any segment that carries the name — free of the
/// delimiter — as its name token: the result is the action resolving to the
/// normalized name, the person's optional resource path, and exactly the
/// configured birthday.
pub proof fn lemma_round_trip(
    cfg: ConfigView,
    raw: Seq<(String, Birthday)>,
    i: int,
    a: Seq<char>,
    b: Seq<char>,
)
    requires
        birthdays_built_from(cfg.birthdays, raw),
        0 <= i < raw.len(),
        no_delim(a),
        no_delim(b),
        no_delim(raw[i].0@),
    ensures
        resolution(cfg, a + seq![DELIM] + b + seq![DELIM] + raw[i].0@) == Some(
            (
                ActionView::Resolve(norm_seq(raw[i].0@)),
                path_of(cfg, norm_seq(raw[i].0@)),
                Some(raw[i].1),
            ),
        ),
{
    lemma_third_token(a, b, raw[i].0@);
}

/// A redirect alias resolves to its redirect and nothing more: when an alias
/// key claimed by a redirect specification is not itself a canonical key,
/// resolving a segment whose name token normalizes to that key yields the
/// redirect carrying the canonical name as written, with no resource path
/// and no birthday.
pub proof fn lemma_redirect_alias(
    cfg: ConfigView,
    raw: Seq<(String, Vec<AliasSpec>)>,
    n: int,
    j: int,
    segment: Seq<char>,
    tok: Seq<char>,
)
    requires
        cfg.aliases matches Some(am) && aliases_built_from(am, raw),
        valid_pos(raw, n, j),
        raw[n].1@[j] is Redirect,
        token_at(segment, NAME_TOKEN_INDEX as nat) == Some(tok),
        norm_seq(tok) == alias_key(raw[n].1@[j]),
        !cfg.birthdays.contains_key(alias_key(raw[n].1@[j])),
    ensures
        resolution(cfg, segment) == Some(
            (ActionView::Redirect(raw[n].0@), None::<Seq<char>>, None::<Birthday>),
        ),
{
    assert(alias_action(raw[n].0@, raw[n].1@[j]) == ActionView::Redirect(raw[n].0@));
}

/// A plain alias resolves through to its canonical person: when an alias key
/// claimed by a plain specification is not itself a canonical key, resolving
/// a segment whose name token normalizes to that key yields the action
/// resolving to the normalized canonical name, together with that person's
/// optional resource path and optional birthday.
pub proof fn lemma_alias_resolve_through(
    cfg: ConfigView,
    raw: Seq<(String, Vec<AliasSpec>)>,
    n: int,
    j: int,
    segment: Seq<char>,
    tok: Seq<char>,
)
    requires
        cfg.aliases matches Some(am) && aliases_built_from(am, raw),
        valid_pos(raw, n, j),
        raw[n].1@[j] is Plain,
        token_at(segment, NAME_TOKEN_INDEX as nat) == Some(tok),
        norm_seq(tok) == alias_key(raw[n].1@[j]),
        !cfg.birthdays.contains_key(alias_key(raw[n].1@[j])),
    ensures
        resolution(cfg, segment) == Some(
            (
                ActionView::Resolve(norm_seq(raw[n].0@)),
                path_of(cfg, norm_seq(raw[n].0@)),
                birthday_of(cfg, norm_seq(raw[n].0@)),
            ),
        ),
{
    assert(alias_action(raw[n].0@, raw[n].1@[j]) == ActionView::Resolve(norm_seq(raw[n].0@)));
}

/// A token known to neither table is a miss, never an error: when the name
/// token normalizes to a key that is neither a canonical key nor a claimed
/// alias key, resolution yields nothing.
pub proof fn lemma_miss_is_none(cfg: ConfigView, segment: Seq<char>, tok: Seq<char>)
    requires
        token_at(segment, NAME_TOKEN_INDEX as nat) == Some(tok),
        !cfg.birthdays.contains_key(norm_seq(tok)),
        cfg.aliases matches Some(am) ==> !am.contains_key(norm_seq(tok)),
    ensures
        resolution(cfg, segment) is None,
{
}

} // verus!
