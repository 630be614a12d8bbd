use zero2prod::domain::NameRule;
use zero2prod::domain::SubscriberName;
use zero2prod::domain::ValidationError;

#[test]
fn a_256_grapheme_long_name_is_valid() {
    let name = "a".repeat(256);
    assert!(SubscriberName::parse(&name).is_ok());
}

#[test]
fn a_name_longer_than_256_graphemes_is_rejected() {
    let name = "a".repeat(257);
    assert!(SubscriberName::parse(&name).is_err());
}

#[test]
fn whitespace_only_names_are_rejected() {
    let name = " ".to_string();
    assert!(SubscriberName::parse(&name).is_err());
}

#[test]
fn subscriber_name_empty_string_is_rejected() {
    let name = "".to_string();
    assert!(SubscriberName::parse(&name).is_err());
}

#[test]
fn names_containing_an_invalid_character_are_rejected() {
    for name in &['/', '(', ')', '"', '<', '>', '\\', '{', '}'] {
        let name = name.to_string();
        assert!(SubscriberName::parse(&name).is_err());
    }
}

#[test]
fn a_valid_name_is_parsed_successfully() {
    let name = "Ursula Le Guin".to_string();
    assert!(SubscriberName::parse(&name).is_ok());
}

#[test]
fn a_parsed_name_is_the_submitted_string() {
    let name = SubscriberName::parse("Ursula Le Guin").unwrap();
    assert_eq!(name.as_ref(), "Ursula Le Guin");
}

#[test]
fn graphemes_are_counted_not_bytes_or_code_points() {
    // One cluster of two code points and three bytes.
    let cluster = "e\u{301}";
    let fits = cluster.repeat(256);
    assert_eq!(fits.chars().count(), 512);
    assert!(SubscriberName::parse(&fits).is_ok());
    let too_long = cluster.repeat(257);
    match SubscriberName::parse(&too_long) {
        Err(ValidationError::InvalidName { input, rule }) => {
            assert_eq!(input, too_long);
            assert_eq!(rule, NameRule::MaxLength);
        }
        other => panic!("unexpected {:?}", other),
    }
}

#[test]
fn the_first_broken_rule_is_reported() {
    match SubscriberName::parse(" \t\u{a0}\u{3000}") {
        Err(ValidationError::InvalidName { input, rule }) => {
            assert_eq!(input, " \t\u{a0}\u{3000}");
            assert_eq!(rule, NameRule::NotBlank);
        }
        other => panic!("unexpected {:?}", other),
    }
    let long_and_forbidden = format!("{}/", "a".repeat(257));
    match SubscriberName::parse(&long_and_forbidden) {
        Err(ValidationError::InvalidName { rule, .. }) => assert_eq!(rule, NameRule::MaxLength),
        other => panic!("unexpected {:?}", other),
    }
    match SubscriberName::parse("le {guin}") {
        Err(ValidationError::InvalidName { input, rule }) => {
            assert_eq!(input, "le {guin}");
            assert_eq!(rule, NameRule::NoForbiddenCharacter);
        }
        other => panic!("unexpected {:?}", other),
    }
}

#[test]
fn white_space_is_what_std_calls_white_space() {
    for code in 0u32..=0x10FFFF {
        if let Some(c) = char::from_u32(code) {
            assert_eq!(
                zero2prod::domain::subscriber_name::white_space(c),
                c.is_whitespace(),
                "U+{:04X}",
                code
            );
        }
    }
}

#[test]
fn blank_is_what_trimming_leaves_empty() {
    for s in ["", " ", "\t\n", " a ", "\u{2003}\u{205f}", "\u{200b}", "a"] {
        assert_eq!(
            zero2prod::domain::subscriber_name::blank(s),
            s.trim().is_empty(),
            "{:?}",
            s
        );
    }
}

#[test]
fn the_broken_rule_follows_from_the_characters_and_the_count() {
    use_broken_rule("Ursula Le Guin", 14, None);
    use_broken_rule("Ursula Le Guin", 256, None);
    use_broken_rule("Ursula Le Guin", 257, Some(NameRule::MaxLength));
    use_broken_rule("", 0, Some(NameRule::NotBlank));
    use_broken_rule("\u{2028}", 300, Some(NameRule::NotBlank));
    use_broken_rule("a>b", 3, Some(NameRule::NoForbiddenCharacter));
    use_broken_rule("a>b", 1000, Some(NameRule::MaxLength));
}

fn use_broken_rule(name: &str, graphemes: usize, expected: Option<NameRule>) {
    assert_eq!(
        zero2prod::domain::subscriber_name::broken_rule(name, graphemes),
        expected,
        "{:?} with {}",
        name,
        graphemes
    );
}

#[test]
fn the_message_names_the_rejected_name() {
    let error = SubscriberName::parse("<script>").unwrap_err();
    assert_eq!(error.message(), "Subscriber name <script> is invalid");
}
