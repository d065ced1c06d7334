use birthday_resolver::birthday_parse;
use birthday_resolver::dir_map;
use birthday_resolver::invert_map;
use birthday_resolver::Action;
use birthday_resolver::AliasSpec;
use birthday_resolver::Birthday;
use birthday_resolver::ConfigError;

#[test]
fn birthday_parse_normalizes_keys() {
    let b = Birthday::new(3, 7).unwrap();
    let raw = vec![(String::from("Sam"), b)];
    let t = birthday_parse(&raw).unwrap();
    let entry = t.get(&String::from("sams")).unwrap();
    assert_eq!(entry.action, Action::Resolve(String::from("sams")));
    assert_eq!(entry.birthday, b);
    assert!(t.get(&String::from("Sam")).is_none());
}

#[test]
fn birthday_parse_rejects_duplicate_names() {
    let b = Birthday::new(3, 7).unwrap();
    let raw = vec![(String::from("Sam"), b), (String::from("SAM"), b)];
    let e = birthday_parse(&raw).unwrap_err();
    assert_eq!(e, ConfigError::DuplicateName(String::from("sams")));
}

#[test]
fn invert_plain_alias_resolves_to_canonical() {
    let raw = vec![(String::from("Samuel"), vec![AliasSpec::Plain(String::from("Sam"))])];
    let t = invert_map(&raw).unwrap();
    let action = t.get(&String::from("sams")).unwrap();
    assert_eq!(*action, Action::Resolve(String::from("samuels")));
}

#[test]
fn invert_redirect_alias_carries_name_as_written() {
    let raw = vec![(String::from("Samuel"), vec![AliasSpec::Redirect(String::from("Sam"))])];
    let t = invert_map(&raw).unwrap();
    let action = t.get(&String::from("sams")).unwrap();
    assert_eq!(*action, Action::Redirect(String::from("Samuel")));
}

#[test]
fn invert_rejects_alias_claimed_by_two_names() {
    let raw = vec![
        (String::from("Samuel"), vec![AliasSpec::Plain(String::from("Sam"))]),
        (String::from("Samantha"), vec![AliasSpec::Plain(String::from("sam"))]),
    ];
    let e = invert_map(&raw).unwrap_err();
    assert_eq!(e, ConfigError::DuplicateAlias(String::from("sams")));
}

#[test]
fn invert_rejects_alias_listed_twice_under_one_name() {
    let raw = vec![
        (
            String::from("Samuel"),
            vec![AliasSpec::Plain(String::from("Sam")), AliasSpec::Plain(String::from("sam"))],
        ),
    ];
    let e = invert_map(&raw).unwrap_err();
    assert_eq!(e, ConfigError::DuplicateAlias(String::from("sams")));
}

#[test]
fn invert_mixed_specs_under_one_name() {
    let raw = vec![
        (
            String::from("Samuel"),
            vec![AliasSpec::Plain(String::from("Sam")), AliasSpec::Redirect(String::from("Sammy"))],
        ),
    ];
    let t = invert_map(&raw).unwrap();
    assert_eq!(*t.get(&String::from("sams")).unwrap(), Action::Resolve(String::from("samuels")));
    assert_eq!(*t.get(&String::from("sammys")).unwrap(), Action::Redirect(String::from("Samuel")));
}

#[test]
fn dir_map_normalizes_keys_and_keeps_paths() {
    let raw = vec![(String::from("Sam"), String::from("/srv/people/Sam"))];
    let t = dir_map(&raw).unwrap();
    assert_eq!(*t.get(&String::from("sams")).unwrap(), String::from("/srv/people/Sam"));
}

#[test]
fn dir_map_rejects_duplicate_names() {
    let raw = vec![
        (String::from("Sam"), String::from("/a")),
        (String::from("sam"), String::from("/b")),
    ];
    let e = dir_map(&raw).unwrap_err();
    assert_eq!(e, ConfigError::DuplicatePath(String::from("sams")));
}
