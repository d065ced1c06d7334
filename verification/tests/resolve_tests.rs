use birthday_resolver::Action;
use birthday_resolver::AliasSpec;
use birthday_resolver::Birthday;
use birthday_resolver::Config;
use birthday_resolver::ConfigError;
use birthday_resolver::Handler;

fn sam_birthday() -> Birthday {
    Birthday::new(3, 7).unwrap()
}

fn store_with_samuel() -> Config {
    let raw_birthdays = vec![(String::from("Samuel"), sam_birthday())];
    let raw_aliases = vec![(String::from("Samuel"), vec![AliasSpec::Plain(String::from("Sam"))])];
    let raw_paths = vec![(String::from("Samuel"), String::from("/srv/samuel"))];
    Config::new(raw_birthdays, Some(raw_aliases), Some(raw_paths)).unwrap()
}

#[test]
fn resolve_round_trip() {
    let raw_birthdays = vec![(String::from("Sam"), sam_birthday())];
    let config = Config::new(raw_birthdays, None, None).unwrap();
    let r = Handler::execute(&config, "x-y-Sam").unwrap();
    assert_eq!(r.0, Action::Resolve(String::from("sams")));
    assert_eq!(r.1, None);
    assert_eq!(r.2, Some(sam_birthday()));
}

#[test]
fn resolve_direct_hit_with_path() {
    let config = store_with_samuel();
    let r = Handler::execute(&config, "is-it-samuel-birthday").unwrap();
    assert_eq!(r.0, Action::Resolve(String::from("samuels")));
    assert_eq!(r.1, Some(String::from("/srv/samuel")));
    assert_eq!(r.2, Some(sam_birthday()));
}

#[test]
fn resolve_alias_redirect_carries_no_path_or_birthday() {
    let raw_birthdays = vec![(String::from("Samuel"), sam_birthday())];
    let raw_aliases = vec![(String::from("Samuel"), vec![AliasSpec::Redirect(String::from("Sam"))])];
    let config = Config::new(raw_birthdays, Some(raw_aliases), None).unwrap();
    let r = Handler::execute(&config, "is-it-sam-birthday").unwrap();
    assert_eq!(r.0, Action::Redirect(String::from("Samuel")));
    assert_eq!(r.1, None);
    assert_eq!(r.2, None);
}

#[test]
fn resolve_alias_resolves_through_to_canonical() {
    let config = store_with_samuel();
    let r = Handler::execute(&config, "is-it-sam-birthday").unwrap();
    assert_eq!(r.0, Action::Resolve(String::from("samuels")));
    assert_eq!(r.1, Some(String::from("/srv/samuel")));
    assert_eq!(r.2, Some(sam_birthday()));
}

#[test]
fn resolve_alias_is_case_insensitive() {
    let config = store_with_samuel();
    let r = Handler::execute(&config, "is-it-SAM-birthday").unwrap();
    assert_eq!(r.0, Action::Resolve(String::from("samuels")));
}

#[test]
fn resolve_alias_target_without_birthday() {
    let raw_birthdays = vec![(String::from("Other"), sam_birthday())];
    let raw_aliases = vec![(String::from("Samuel"), vec![AliasSpec::Plain(String::from("Sam"))])];
    let raw_paths = vec![(String::from("Samuel"), String::from("/srv/samuel"))];
    let config = Config::new(raw_birthdays, Some(raw_aliases), Some(raw_paths)).unwrap();
    let r = Handler::execute(&config, "is-it-sam-birthday").unwrap();
    assert_eq!(r.0, Action::Resolve(String::from("samuels")));
    assert_eq!(r.1, Some(String::from("/srv/samuel")));
    assert_eq!(r.2, None);
}

#[test]
fn resolve_miss_returns_none() {
    let config = store_with_samuel();
    assert!(Handler::execute(&config, "is-it-nobody-birthday").is_none());
}

#[test]
fn resolve_too_few_tokens_returns_none() {
    let config = store_with_samuel();
    assert!(Handler::execute(&config, "samuel").is_none());
    assert!(Handler::execute(&config, "is-samuel").is_none());
    assert!(Handler::execute(&config, "").is_none());
}

#[test]
fn resolve_name_direct_and_via_alias() {
    let config = store_with_samuel();
    let direct = config.resolve_name("is-it-samuel-birthday").unwrap();
    assert_eq!(direct.0, "samuels");
    assert_eq!(direct.1, sam_birthday());
    let via_alias = config.resolve_name("is-it-sam-birthday").unwrap();
    assert_eq!(via_alias.0, "samuels");
    assert_eq!(via_alias.1, sam_birthday());
}

#[test]
fn resolve_name_redirect_alias_is_none() {
    let raw_birthdays = vec![(String::from("Samuel"), sam_birthday())];
    let raw_aliases = vec![(String::from("Samuel"), vec![AliasSpec::Redirect(String::from("Sam"))])];
    let config = Config::new(raw_birthdays, Some(raw_aliases), None).unwrap();
    assert!(config.resolve_name("is-it-sam-birthday").is_none());
}

#[test]
fn resolve_directory_by_exact_key() {
    let config = store_with_samuel();
    assert_eq!(config.resolve_directory("samuels").unwrap(), "/srv/samuel");
    assert!(config.resolve_directory("Samuel").is_none());
    assert!(config.resolve_directory("sams").is_none());
}

#[test]
fn config_new_fails_whole_on_duplicate_alias() {
    let raw_birthdays = vec![(String::from("Samuel"), sam_birthday())];
    let raw_aliases = vec![
        (String::from("Samuel"), vec![AliasSpec::Plain(String::from("Sam"))]),
        (String::from("Samantha"), vec![AliasSpec::Plain(String::from("SAM"))]),
    ];
    let e = Config::new(raw_birthdays, Some(raw_aliases), None).unwrap_err();
    assert_eq!(e, ConfigError::DuplicateAlias(String::from("sams")));
}

#[test]
fn config_new_without_optional_sections() {
    let raw_birthdays = vec![(String::from("Sam"), sam_birthday())];
    let config = Config::new(raw_birthdays, None, None).unwrap();
    assert!(config.resolve_directory("sams").is_none());
    assert!(Handler::execute(&config, "x-y-nobody").is_none());
}
