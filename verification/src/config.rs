//! The configuration store: three lookup tables built once at startup and
//! read-only afterwards.

use crate::action::Action;
use crate::action::ActionView;
use crate::birthday::Birthday;
use crate::normalize::norm_seq;
use crate::normalize::normalize;
use crate::parse::aliases_built_from;
use crate::parse::birthday_parse;
use crate::parse::birthdays_built_from;
use crate::parse::dir_map;
use crate::parse::invert_map;
use crate::parse::no_duplicate_aliases;
use crate::parse::no_duplicate_names;
use crate::parse::no_duplicate_path_names;
use crate::parse::paths_built_from;
use crate::parse::AliasSpec;
use crate::parse::ConfigError;
use crate::parse::Entry;
use crate::parse::EntryView;
use crate::segment::nth_token;
use crate::segment::token_at;
use crate::segment::NAME_TOKEN_INDEX;
use crate::table::Table;
use vstd::prelude::*;
use vstd::string::StringExecFns;

verus! {

/// The immutable configuration: birthdays under canonical keys, the inverted
/// alias table, and per-person resource paths. The alias and path tables are
/// optional, as their configuration sections are.
#[derive(Debug)]
pub struct Config {
    pub(crate) birthdays: Table<Entry>,
    pub(crate) aliases: Option<Table<Action>>,
    pub(crate) paths: Option<Table<String>>,
}

/// The mathematical value of a [`Config`]: the three tables as maps over
/// normalized keys.
pub ghost struct ConfigView {
    pub birthdays: Map<Seq<char>, EntryView>,
    pub aliases: Option<Map<Seq<char>, ActionView>>,
    pub paths: Option<Map<Seq<char>, Seq<char>>>,
}

impl View for Config {
    type V = ConfigView;

    closed spec fn view(&self) -> ConfigView {
        ConfigView {
            birthdays: self.birthdays@,
            aliases: match self.aliases {
                Some(t) => Some(t@),
                None => None,
            },
            paths: match self.paths {
                Some(t) => Some(t@),
                None => None,
            },
        }
    }
}

/// The resource path configured for `key`, if the paths table is present and
/// holds the key.
pub open spec fn path_of(cfg: ConfigView, key: Seq<char>) -> Option<Seq<char>> {
    match cfg.paths {
        Some(m) => if m.contains_key(key) {
            Some(m[key])
        } else {
            None
        },
        None => None,
    }
}

/// The birthday configured under canonical key `key`, if any.
pub open spec fn birthday_of(cfg: ConfigView, key: Seq<char>) -> Option<Birthday> {
    if cfg.birthdays.contains_key(key) {
        Some(cfg.birthdays[key].birthday)
    } else {
        None
    }
}

/// The canonical key and birthday that a raw path segment resolves to, if
/// any: the name token is taken from the segment and normalized, then looked
/// up directly among the birthdays, then through the alias table. A redirect
/// alias carries no birthday and yields nothing here; a resolve alias yields
/// its target only when that target has a configured birthday.
pub open spec fn name_resolution(cfg: ConfigView, segment: Seq<char>) -> Option<
    (Seq<char>, Birthday),
> {
    match token_at(segment, NAME_TOKEN_INDEX as nat) {
        None => None,
        Some(tok) => {
            let key = norm_seq(tok);
            if cfg.birthdays.contains_key(key) {
                Some((key, cfg.birthdays[key].birthday))
            } else {
                match cfg.aliases {
                    None => None,
                    Some(am) => if am.contains_key(key) {
                        match am[key] {
                            ActionView::Resolve(target) => if cfg.birthdays.contains_key(target) {
                                Some((target, cfg.birthdays[target].birthday))
                            } else {
                                None
                            },
                            ActionView::Redirect(_) => None,
                        }
                    } else {
                        None
                    },
                }
            }
        },
    }
}

impl Config {
    /// All tables that are present have pairwise-distinct keys.
    pub closed spec fn wf(&self) -> bool {
        &&& self.birthdays.wf()
        &&& match self.aliases {
            Some(t) => t.wf(),
            None => true,
        }
        &&& match self.paths {
            Some(t) => t.wf(),
            None => true,
        }
    }

    /// Build the store from the raw configuration lists. Construction fails
    /// as a whole on any duplicate normalized key, and succeeds exactly when
    /// there is none; the error names the key that was claimed twice.
    pub fn new(
        raw_birthdays: Vec<(String, Birthday)>,
        raw_aliases: Option<Vec<(String, Vec<AliasSpec>)>>,
        raw_paths: Option<Vec<(String, String)>>,
    ) -> (r: Result<Config, ConfigError>)
        ensures
            r is Ok <==> (no_duplicate_names(raw_birthdays@) && (raw_aliases matches Some(ra)
                ==> no_duplicate_aliases(ra@)) && (raw_paths matches Some(rp)
                ==> no_duplicate_path_names(rp@))),
            r matches Ok(c) ==> {
                &&& c.wf()
                &&& birthdays_built_from(c@.birthdays, raw_birthdays@)
                &&& match raw_aliases {
                    Some(ra) => c@.aliases matches Some(m) && aliases_built_from(m, ra@),
                    None => c@.aliases is None,
                }
                &&& match raw_paths {
                    Some(rp) => c@.paths matches Some(m) && paths_built_from(m, rp@),
                    None => c@.paths is None,
                }
            },
            r matches Err(e) ==> match e {
                ConfigError::DuplicateName(_) => !no_duplicate_names(raw_birthdays@),
                ConfigError::DuplicateAlias(_) => raw_aliases matches Some(ra)
                    && !no_duplicate_aliases(ra@),
                ConfigError::DuplicatePath(_) => raw_paths matches Some(rp)
                    && !no_duplicate_path_names(rp@),
            },
    {
        let birthdays = match birthday_parse(&raw_birthdays) {
            Ok(t) => t,
            Err(e) => {
                return Err(e);
            },
        };
        let aliases = match raw_aliases {
            Some(ra) => match invert_map(&ra) {
                Ok(t) => Some(t),
                Err(e) => {
                    return Err(e);
                },
            },
            None => None,
        };
        let paths = match raw_paths {
            Some(rp) => match dir_map(&rp) {
                Ok(t) => Some(t),
                Err(e) => {
                    return Err(e);
                },
            },
            None => None,
        };
        Ok(Config { birthdays, aliases, paths })
    }

    /// The birthdays table.
    pub(crate) fn birthdays_table(&self) -> (r: &Table<Entry>)
        requires
            self.wf(),
        ensures
            r.wf(),
            r@ == self@.birthdays,
    {
        &self.birthdays
    }

    /// The alias table, if its configuration section was present.
    pub(crate) fn aliases_table(&self) -> (r: Option<&Table<Action>>)
        requires
            self.wf(),
        ensures
            match r {
                Some(t) => t.wf() && self@.aliases == Some(t@),
                None => self@.aliases is None,
            },
    {
        self.aliases.as_ref()
    }

    /// The paths table, if its configuration section was present.
    pub(crate) fn paths_table(&self) -> (r: Option<&Table<String>>)
        requires
            self.wf(),
        ensures
            match r {
                Some(t) => t.wf() && self@.paths == Some(t@),
                None => self@.paths is None,
            },
    {
        self.paths.as_ref()
    }

    /// Resolve a raw path segment to a canonical key and its birthday, as
    /// [`name_resolution`] describes. A miss — too few tokens, an unknown
    /// token, a redirect alias, or an alias whose target has no birthday —
    /// is `None`, never an error.
    pub fn resolve_name(&self, name: &str) -> (r: Option<(String, Birthday)>)
        requires
            self.wf(),
        ensures
            match r {
                Some(p) => name_resolution(self@, name@) == Some((p.0@, p.1)),
                None => name_resolution(self@, name@) is None,
            },
    {
        let tok = match nth_token(name, NAME_TOKEN_INDEX) {
            Some(t) => t,
            None => {
                return None;
            },
        };
        let key = normalize(tok.as_str());
        if let Some(e) = self.birthdays.get(&key) {
            let b = e.birthday;
            return Some((key, b));
        }
        let aliases = match self.aliases.as_ref() {
            Some(t) => t,
            None => {
                return None;
            },
        };
        let action = match aliases.get(&key) {
            Some(a) => a,
            None => {
                return None;
            },
        };
        match action {
            Action::Redirect(_) => None,
            Action::Resolve(target) => match self.birthdays.get(target) {
                Some(e) => Some((target.clone(), e.birthday)),
                None => None,
            },
        }
    }

    /// The resource path stored under the given (already normalized) key, if
    /// the paths table is present and holds it.
    pub fn resolve_directory(&self, name: &str) -> (r: Option<&String>)
        requires
            self.wf(),
        ensures
            match r {
                Some(p) => path_of(self@, name@) == Some(p@),
                None => path_of(self@, name@) is None,
            },
    {
        let paths = match self.paths.as_ref() {
            Some(t) => t,
            None => {
                return None;
            },
        };
        paths.get(&String::from_str(name))
    }
}

} // verus!
