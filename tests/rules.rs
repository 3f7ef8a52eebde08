use cargo_avail::batch::{dedup_by_canon, exit_status};
use cargo_avail::check::{
    canon_crate_name, check_name, index_spellings, index_url, lookup_step, validate_crate_name,
    Availability, CheckError, Client, IndexError, InvalidCrateName, ReservedSet, MAX_NAME_LENGTH,
};
use cargo_avail::text::{replace_char, sanitize};

#[test]
fn empty_name_is_rejected_as_empty() {
    assert!(matches!(validate_crate_name(""), Err(InvalidCrateName::Empty)));
}

#[test]
fn name_of_maximum_length_is_accepted() {
    let name = "a".repeat(MAX_NAME_LENGTH);
    assert!(validate_crate_name(&name).is_ok());
}

#[test]
fn name_one_over_maximum_is_too_long() {
    let name = "a".repeat(MAX_NAME_LENGTH + 1);
    match validate_crate_name(&name) {
        Err(InvalidCrateName::TooLong { name: n }) => assert_eq!(n, name),
        other => panic!("expected TooLong, got {other:?}"),
    }
}

#[test]
fn length_counts_characters_not_bytes() {
    let name = format!("a{}", "é".repeat(40));
    assert!(matches!(
        validate_crate_name(&name),
        Err(InvalidCrateName::Char { ch: 'é', .. })
    ));
}

#[test]
fn leading_digit_is_start_with_digit() {
    match validate_crate_name("123abc") {
        Err(InvalidCrateName::StartWithDigit { name }) => assert_eq!(name, "123abc"),
        other => panic!("expected StartWithDigit, got {other:?}"),
    }
}

#[test]
fn leading_separator_is_start() {
    match validate_crate_name("-foo") {
        Err(InvalidCrateName::Start { first_char, name }) => {
            assert_eq!(first_char, '-');
            assert_eq!(name, "-foo");
        }
        other => panic!("expected Start, got {other:?}"),
    }
    assert!(matches!(
        validate_crate_name("éa"),
        Err(InvalidCrateName::Start { first_char: 'é', .. })
    ));
}

#[test]
fn first_offending_character_is_reported() {
    match validate_crate_name("foo+bar.baz") {
        Err(InvalidCrateName::Char { ch, name }) => {
            assert_eq!(ch, '+');
            assert_eq!(name, "foo+bar.baz");
        }
        other => panic!("expected Char, got {other:?}"),
    }
}

#[test]
fn separators_digits_and_capitals_are_allowed() {
    assert!(validate_crate_name("My-crate_2").is_ok());
    assert!(validate_crate_name("a").is_ok());
}

#[test]
fn fault_messages() {
    assert_eq!(InvalidCrateName::Empty.to_string(), "crate name cannot be empty");
    let e = validate_crate_name("foo+bar").unwrap_err();
    assert_eq!(
        e.to_string(),
        "invalid character `+` in crate name: `foo+bar`, characters must be ASCII alphanumeric, `-`, or `_`"
    );
    let e = validate_crate_name("_x").unwrap_err();
    assert_eq!(
        e.to_string(),
        "invalid character `_` in crate name: `_x`, the first character must be an ASCII character"
    );
    let e = validate_crate_name("9lives").unwrap_err();
    assert_eq!(e.to_string(), "the name `9lives` cannot start with a digit");
    let long = "b".repeat(65);
    let e = validate_crate_name(&long).unwrap_err();
    assert_eq!(
        e.to_string(),
        format!("crate name `{long}` is too long (max 64 characters)")
    );
}

#[test]
fn canonicalizing_twice_changes_nothing() {
    for name in ["My-Crate", "foo_bar-Baz", "X", "a-_-b"] {
        let once = canon_crate_name(name);
        assert_eq!(canon_crate_name(&once), once);
    }
}

#[test]
fn canonical_form_ignores_separator_choice() {
    assert_eq!(canon_crate_name("foo-bar_baz"), canon_crate_name("foo_bar-baz"));
    assert_eq!(canon_crate_name("a-b-c"), canon_crate_name("a_b_c"));
}

#[test]
fn canonical_form_is_lowercase_without_hyphens() {
    let c = canon_crate_name("Serde-JSON-Extra");
    assert_eq!(c, "serde_json_extra");
    assert!(!c.contains('-'));
    assert_eq!(c, c.to_lowercase());
}

#[test]
fn canonical_form_lowercases_beyond_ascii() {
    assert_eq!(canon_crate_name("ÀB-Ç"), "àb_ç");
    assert_eq!(canon_crate_name("ÉCOLE-Ω"), "école_ω");
}

#[test]
fn reserved_lookup_is_insensitive_to_spelling() {
    let client = Client::new();
    for name in ["Compiler-Builtins", "compiler_builtins", "COMPILER-rt", "Rust_Installer", "Lpt5"] {
        match check_name(&client, name) {
            Ok(Availability::Reserved) => {}
            other => panic!("expected Reserved for {name}, got {other:?}"),
        }
    }
}

#[test]
fn reserved_set_holds_canonical_forms_only() {
    let reserved = ReservedSet::new();
    assert!(reserved.contains("compiler_rt"));
    assert!(!reserved.contains("compiler-rt"));
    assert!(!reserved.contains("Std"));
    assert!(!reserved.contains("serde"));
}

#[test]
fn index_urls() {
    assert_eq!(index_url("a"), "https://index.crates.io/1/a");
    assert_eq!(index_url("serde"), "https://index.crates.io/se/rd/serde");
    assert_eq!(index_url("tokio-util"), "https://index.crates.io/to/ki/tokio-util");
}

#[test]
fn spellings_of_a_name() {
    assert_eq!(index_spellings("Foo-Bar"), vec!["foo-bar".to_string(), "foo_bar".to_string()]);
    assert_eq!(index_spellings("tokio_util"), vec!["tokio_util".to_string(), "tokio-util".to_string()]);
    assert_eq!(index_spellings("abc"), vec!["abc".to_string()]);
    assert_eq!(
        index_spellings("a-b_c"),
        vec!["a-b_c".to_string(), "a_b_c".to_string(), "a-b-c".to_string()]
    );
}

#[test]
fn reply_found_means_taken() {
    assert!(matches!(lookup_step(0, 2, Ok(())), Some(Ok(Availability::Taken))));
    assert!(matches!(lookup_step(1, 2, Ok(())), Some(Ok(Availability::Taken))));
}

#[test]
fn reply_not_found_tries_next_spelling() {
    assert!(lookup_step(0, 2, Err(IndexError::Status(404))).is_none());
    assert!(lookup_step(1, 3, Err(IndexError::Status(404))).is_none());
}

#[test]
fn not_found_for_last_spelling_means_available() {
    assert!(matches!(
        lookup_step(1, 2, Err(IndexError::Status(404))),
        Some(Ok(Availability::Available))
    ));
    assert!(matches!(
        lookup_step(0, 1, Err(IndexError::Status(404))),
        Some(Ok(Availability::Available))
    ));
}

#[test]
fn reply_other_status_is_lookup_error() {
    assert!(matches!(
        lookup_step(0, 3, Err(IndexError::Status(500))),
        Some(Err(CheckError::IndexLookup(IndexError::Status(500))))
    ));
    assert!(matches!(
        lookup_step(2, 3, Err(IndexError::Status(403))),
        Some(Err(CheckError::IndexLookup(IndexError::Status(403))))
    ));
}

#[test]
fn check_error_messages() {
    let invalid = CheckError::from(validate_crate_name("").unwrap_err());
    assert!(matches!(invalid, CheckError::InvalidName(InvalidCrateName::Empty)));
    assert_eq!(invalid.to_string(), "invalid: crate name cannot be empty");
    assert_eq!(
        CheckError::IndexLookup(IndexError::Status(503)).to_string(),
        "unknown: http status: 503"
    );
    assert_eq!(
        CheckError::IndexLookup(IndexError::Status(404)).to_string(),
        "unknown: http status: 404"
    );
}

#[test]
fn cloned_client_checks_alike() {
    let client = Client::new().clone();
    assert!(matches!(check_name(&client, "Core"), Ok(Availability::Reserved)));
    let reserved = ReservedSet::new().clone();
    assert!(reserved.contains("proc_macro"));
}

#[test]
fn availability_words() {
    assert_eq!(Availability::Available.as_str(), "available");
    assert_eq!(Availability::Taken.as_str(), "taken");
    assert_eq!(Availability::Reserved.as_str(), "reserved");
}

#[test]
fn sanitize_escapes_control_characters() {
    assert_eq!(sanitize("a\tb\nc\rd\0"), "a\\tb\\nc\\rd\\0");
    assert_eq!(sanitize("x\u{1}y\u{7f}z\u{9f}"), "x\\x01y\\x7fz\\x9f");
    assert_eq!(sanitize("plain é"), "plain é");
}

#[test]
fn replace_char_replaces_every_occurrence() {
    assert_eq!(replace_char("a-b-c", '-', '_'), "a_b_c");
    assert_eq!(replace_char("", '-', '_'), "");
}

#[test]
fn dedup_keeps_first_of_each_canonical_form() {
    let names = vec![
        "foo-bar".to_string(),
        "foo_bar".to_string(),
        "Foo".to_string(),
        "std".to_string(),
        "foo".to_string(),
        "FOO-BAR".to_string(),
    ];
    assert_eq!(
        dedup_by_canon(names),
        vec!["foo-bar".to_string(), "Foo".to_string(), "std".to_string()]
    );
    assert!(dedup_by_canon(Vec::new()).is_empty());
}

#[test]
fn exit_status_of_a_run() {
    assert_eq!(exit_status(&vec![]), 0);
    assert_eq!(exit_status(&vec![Ok(Availability::Available)]), 0);
    assert_eq!(
        exit_status(&vec![Ok(Availability::Available), Ok(Availability::Reserved)]),
        1
    );
    let invalid = validate_crate_name("").unwrap_err();
    assert_eq!(exit_status(&vec![Err(CheckError::InvalidName(invalid))]), 1);
    assert_eq!(
        exit_status(&vec![
            Ok(Availability::Taken),
            Err(CheckError::IndexLookup(IndexError::Status(500))),
        ]),
        3
    );
}
