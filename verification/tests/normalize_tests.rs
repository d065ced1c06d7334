use birthday_resolver::normalize;
use birthday_resolver::redirect_path;
use birthday_resolver::variant_dir;
use birthday_resolver::Birthday;
use birthday_resolver::Date;

#[test]
fn normalize_is_case_insensitive() {
    let a = normalize("Sam");
    let b = normalize("sam");
    let c = normalize("SAM");
    assert_eq!(a, b);
    assert_eq!(b, c);
    assert_eq!(a, "sams");
}

#[test]
fn normalize_appends_suffix_literally() {
    assert_eq!(normalize("glass"), "glasss");
}

#[test]
fn normalize_of_empty_is_suffix() {
    assert_eq!(normalize(""), "s");
}

#[test]
fn normalize_is_not_idempotent() {
    let once = normalize("sam");
    let twice = normalize(&once);
    assert_ne!(once, twice);
    assert_eq!(twice, "samss");
}

#[test]
fn normalize_keeps_non_letters() {
    assert_eq!(normalize("Anne-Marie"), "anne-maries");
}

#[test]
fn birthday_new_accepts_bounds() {
    assert!(Birthday::new(1, 1).is_some());
    assert!(Birthday::new(31, 12).is_some());
    let b = Birthday::new(29, 2).unwrap();
    assert_eq!(b.day(), 29);
    assert_eq!(b.month(), 2);
}

#[test]
fn birthday_new_rejects_out_of_range() {
    assert!(Birthday::new(0, 5).is_none());
    assert!(Birthday::new(32, 5).is_none());
    assert!(Birthday::new(15, 0).is_none());
    assert!(Birthday::new(15, 13).is_none());
}

#[test]
fn birthday_match_boundary() {
    let b = Birthday::new(29, 2).unwrap();
    assert!(b.matches(&Date { day: 29, month: 2, year: 2024 }));
    assert!(b.matches(&Date { day: 29, month: 2, year: 2023 }));
    assert!(!b.matches(&Date { day: 28, month: 2, year: 2024 }));
    assert!(!b.matches(&Date { day: 29, month: 3, year: 2024 }));
    assert!(!b.matches(&Date { day: 1, month: 2, year: 2024 }));
}

#[test]
fn redirect_path_frames_target() {
    assert_eq!(redirect_path("Sam"), "/is-it-Sam-birthday");
}

#[test]
fn variant_dir_picks_by_match() {
    assert_eq!(variant_dir(true), "yes/");
    assert_eq!(variant_dir(false), "no/");
}
