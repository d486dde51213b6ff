use arch_audit_gtk::theme::Theme;

#[test]
fn default_parses_and_round_trips() {
    let t = Theme::parse("default").unwrap();
    assert_eq!(t.as_str(), "default");
    assert_eq!(t, Theme::default());
    assert_eq!(Theme::default().as_str(), "default");
}

#[test]
fn lowercase_name_is_accepted() {
    assert_eq!(Theme::parse("check").unwrap().as_str(), "check");
}

#[test]
fn path_traversal_is_rejected() {
    let e = Theme::parse("../etc").unwrap_err();
    assert_eq!(e.name, "../etc");
}

#[test]
fn uppercase_is_rejected() {
    assert!(Theme::parse("Check").is_err());
}

#[test]
fn digit_is_rejected() {
    assert!(Theme::parse("check1").is_err());
}

#[test]
fn empty_name_is_rejected() {
    assert!(Theme::parse("").is_err());
}

#[test]
fn non_ascii_letter_is_rejected() {
    assert!(Theme::parse("th\u{e9}me").is_err());
    assert!(Theme::parse("a/b").is_err());
}

#[test]
fn clone_keeps_the_name() {
    let t = Theme::parse("dark").unwrap();
    assert_eq!(t.clone().as_str(), "dark");
}
