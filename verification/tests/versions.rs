use arma3_wiki::version::Version;

#[test]
fn version_parse() {
    assert_eq!(Version::parse(""), Ok(Version::new(0, 0)));
    assert_eq!(Version::parse("1.00"), Ok(Version::new(1, 0)));
    assert_eq!(Version::parse("1.0"), Ok(Version::new(1, 0)));
}

#[test]
fn display() {
    assert_eq!(Version::new(1, 0).to_display_string(), "1.00");
    assert_eq!(Version::new(1, 1).to_display_string(), "1.01");
    assert_eq!(Version::new(1, 16).to_display_string(), "1.16");
}

#[test]
fn versions_are_ordered_by_major_then_minor() {
    assert!(Version::new(1, 0) < Version::new(1, 1));
    assert!(Version::new(1, 99) < Version::new(2, 0));
    assert!(Version::new(2, 10) > Version::new(2, 9));
    assert_eq!(
        Version::new(3, 4).partial_cmp(&Version::new(3, 4)),
        Some(std::cmp::Ordering::Equal)
    );
    assert!(Version::new(0, 5) <= Version::new(0, 5));
}
