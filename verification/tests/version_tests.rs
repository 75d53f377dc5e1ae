use ustx::Version;

fn triple(version: Version) -> (u64, u64, u64) {
    (version.major, version.minor, version.patch)
}

#[test]
fn new_zero_and_current() {
    assert_eq!(triple(Version::new(1, 2, 3)), (1, 2, 3));
    assert_eq!(triple(Version::zero()), (0, 0, 0));
    assert_eq!(triple(Version::current()), (0, 7, 0));
    assert_eq!(Version::new(0, 7, 0), Version::current());
}

#[test]
fn order_is_that_of_triples() {
    assert!(Version::new(1, 5, 0) < Version::new(1, 19, 0));
    assert!(Version::new(0, 9, 9) < Version::new(1, 0, 0));
    assert!(Version::new(0, 7, 0) < Version::new(0, 7, 1));
    assert!(Version::new(2, 0, 0) > Version::new(1, 99, 99));
    assert!(Version::new(0, 4, 0) >= Version::new(0, 4, 0));
    assert!(Version::new(0, 4, 0) <= Version::new(0, 4, 0));
    assert!(!(Version::new(0, 4, 0) < Version::new(0, 4, 0)));
    assert!(Version::new(0, 3, 7) < Version::new(0, 4, 0));
    assert!(Version::new(1, 0, 0) > Version::new(0, u64::MAX, u64::MAX));
}

#[test]
fn hand_written_order_agrees_with_derived_order() {
    let samples = [
        Version::new(0, 0, 0),
        Version::new(0, 0, 1),
        Version::new(0, 1, 0),
        Version::new(0, 7, 0),
        Version::new(1, 0, 0),
        Version::new(1, 0, 5),
        Version::new(1, 5, 0),
        Version::new(1, 19, 0),
        Version::new(u64::MAX, 0, 0),
    ];
    for a in samples {
        for b in samples {
            assert_eq!(a.partial_cmp(&b), Some(a.cmp(&b)));
            assert_eq!(a < b, triple(a) < triple(b));
            assert_eq!(a >= b, triple(a) >= triple(b));
        }
    }
}

#[test]
fn text_omits_a_zero_patch() {
    assert_eq!(Version::new(0, 7, 0).to_string(), "0.7");
    assert_eq!(Version::new(0, 0, 0).to_string(), "0.0");
    assert_eq!(Version::new(1, 2, 3).to_string(), "1.2.3");
    assert_eq!(Version::new(10, 20, 0).to_string(), "10.20");
    assert_eq!(Version::new(0, 0, 1).to_string(), "0.0.1");
    assert_eq!(
        Version::new(u64::MAX, 100, 9).to_string(),
        "18446744073709551615.100.9"
    );
}

#[test]
fn strict_form_is_read() {
    assert_eq!(Version::from_str("1.2.3"), Ok(Version::new(1, 2, 3)));
    assert_eq!(Version::from_str("0.7.0"), Ok(Version::new(0, 7, 0)));
    assert_eq!(
        Version::from_str("18446744073709551615.0.1"),
        Ok(Version::new(u64::MAX, 0, 1))
    );
}

#[test]
fn short_forms_are_padded() {
    assert_eq!(Version::from_str("7"), Ok(Version::new(7, 0, 0)));
    assert_eq!(Version::from_str("0.3"), Ok(Version::new(0, 3, 0)));
    assert_eq!(Version::from_str("12.34"), Ok(Version::new(12, 34, 0)));
}

#[test]
fn empty_text_is_version_zero() {
    assert_eq!(Version::from_str(""), Ok(Version::zero()));
    assert_eq!(Version::from_str("   "), Ok(Version::zero()));
    assert_eq!(Version::from_str("\t\n"), Ok(Version::zero()));
}

#[test]
fn surrounding_white_space_is_ignored() {
    assert_eq!(Version::from_str("  0.5  "), Ok(Version::new(0, 5, 0)));
    assert_eq!(Version::from_str("\n1.2.3\t"), Ok(Version::new(1, 2, 3)));
    assert_eq!(Version::from_str("\u{3000}7\u{a0}"), Ok(Version::new(7, 0, 0)));
}

#[test]
fn pre_release_and_build_are_read_strictly_only() {
    assert_eq!(Version::from_str("1.2.3-alpha"), Ok(Version::new(1, 2, 3)));
    assert_eq!(Version::from_str("1.2.3+build.5"), Ok(Version::new(1, 2, 3)));
    assert_eq!(Version::from_str("1.2.3-rc.1+x"), Ok(Version::new(1, 2, 3)));
    assert!(Version::from_str("1.2-alpha").is_err());
    assert!(Version::from_str("1+build").is_err());
    assert!(Version::from_str("1-2").is_err());
}

#[test]
fn malformed_text_is_rejected() {
    assert!(Version::from_str("abc").is_err());
    assert!(Version::from_str("1.").is_err());
    assert!(Version::from_str(".1").is_err());
    assert!(Version::from_str("1.2.3.4").is_err());
    assert!(Version::from_str("1.2.x").is_err());
    assert!(Version::from_str("01.2.3").is_err());
    assert!(Version::from_str("1.02").is_err());
    assert!(Version::from_str("1 .2").is_err());
    assert!(Version::from_str("18446744073709551616.0.0").is_err());
    assert!(Version::from_str("1..2").is_err());
}

#[test]
fn error_is_that_of_the_strict_attempt() {
    for text in ["abc", "1.", "1.2-alpha", "1.2.3.4", "1.x", "01", "1.2.3-"] {
        let expected = semver::Version::parse(text).unwrap_err().to_string();
        assert_eq!(Version::from_str(text), Err(expected));
    }
    let expected = semver::Version::parse("1.q").unwrap_err().to_string();
    assert_eq!(Version::from_str("  1.q "), Err(expected));
}

#[test]
fn parse_guesses_zero() {
    assert_eq!(Version::parse(None), Version::zero());
    assert_eq!(Version::parse(Some("")), Version::zero());
    assert_eq!(Version::parse(Some("garbage")), Version::zero());
    assert_eq!(Version::parse(Some("1.2.3.4")), Version::zero());
    assert_eq!(Version::parse(Some("0.6")), Version::new(0, 6, 0));
    assert_eq!(Version::parse(Some(" 3 ")), Version::new(3, 0, 0));
    assert_eq!(Version::parse(Some("1.2.3-beta")), Version::new(1, 2, 3));
}

#[test]
fn fallback_text_pads_to_three_segments() {
    assert_eq!(Version::fallback_text("0.3"), Some(String::from("0.3.0")));
    assert_eq!(Version::fallback_text("7"), Some(String::from("7.0.0")));
    assert_eq!(Version::fallback_text("1."), Some(String::from("1..0")));
    assert_eq!(Version::fallback_text(""), Some(String::from(".0.0")));
    assert_eq!(Version::fallback_text("x"), Some(String::from("x.0.0")));
}

#[test]
fn fallback_text_refuses_markers_and_long_forms() {
    assert_eq!(Version::fallback_text("1.2.3"), None);
    assert_eq!(Version::fallback_text("1.2.3.4"), None);
    assert_eq!(Version::fallback_text("a.b.c"), None);
    assert_eq!(Version::fallback_text("1-2"), None);
    assert_eq!(Version::fallback_text("1+2"), None);
    assert_eq!(Version::fallback_text("1.2-alpha"), None);
    assert_eq!(Version::fallback_text("-"), None);
}

#[test]
fn text_round_trip() {
    let numbers = [0u64, 1, 7, 9, 10, 11, 99, 100, 480, 65535, u64::MAX - 1, u64::MAX];
    for major in numbers {
        for minor in numbers {
            for patch in numbers {
                let version = Version::new(major, minor, patch);
                let text = version.to_string();
                assert_eq!(Version::from_str(&text), Ok(version));
                assert_eq!(Version::parse(Some(&text)), version);
            }
        }
    }
}

#[test]
fn attempts_are_settled() {
    let one = Version::new(1, 0, 0);
    let two = Version::new(2, 0, 0);
    let first = String::from("first");
    let second = String::from("second");
    assert_eq!(Version::settle(Ok(one), None), Ok(one));
    assert_eq!(Version::settle(Ok(one), Some(Ok(two))), Ok(one));
    assert_eq!(Version::settle(Ok(one), Some(Err(second.clone()))), Ok(one));
    assert_eq!(Version::settle(Err(first.clone()), Some(Ok(two))), Ok(two));
    assert_eq!(Version::settle(Err(first.clone()), Some(Err(second))), Err(first.clone()));
    assert_eq!(Version::settle(Err(first.clone()), None), Err(first));
}

#[test]
fn plain_forms_are_read_with_white_space_around() {
    for (text, version) in [
        (" 7", Version::new(7, 0, 0)),
        ("0.7.0 ", Version::new(0, 7, 0)),
        ("\t10.20\n", Version::new(10, 20, 0)),
        ("0", Version::zero()),
        ("0.0", Version::zero()),
        ("0.0.0", Version::zero()),
        ("3.0.1", Version::new(3, 0, 1)),
    ] {
        assert_eq!(Version::from_str(text), Ok(version), "{:?}", text);
    }
}
