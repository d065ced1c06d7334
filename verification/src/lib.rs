//! A name/alias resolution engine for per-person birthday pages.
//!
//! A configuration names people, their birthdays, optional aliases and
//! optional per-person resource directories. Every configured key is
//! normalized (lowercased, with a fixed pluralizing suffix appended) so that
//! lookups are case- and singular/plural-insensitive. A resolver turns a raw
//! URL path segment into an [`Action`](action::Action) together with an
//! optional resource path and an optional [`Birthday`](birthday::Birthday).

pub mod action;
pub mod birthday;
pub mod config;
pub mod handler;
pub mod normalize;
pub mod parse;
pub mod segment;
pub mod serve;
pub mod table;

pub use action::Action;
pub use birthday::Birthday;
pub use birthday::Date;
pub use config::Config;
pub use handler::Handler;
pub use normalize::normalize;
pub use parse::birthday_parse;
pub use parse::dir_map;
pub use parse::invert_map;
pub use parse::AliasSpec;
pub use parse::ConfigError;
pub use parse::Entry;
pub use serve::redirect_path;
pub use serve::variant_dir;
