use cargo_avail::check::{
    canon_crate_name, check_name, index_path, Availability, CheckError, Client, ReservedSet,
};

#[test]
fn canon_crate_name_lowercases_and_replaces_hyphens() {
    assert_eq!(canon_crate_name("My-Crate"), "my_crate");
    assert_eq!(canon_crate_name("foo_bar"), "foo_bar");
    assert_eq!(canon_crate_name("FOO"), "foo");
}

#[test]
fn index_path_1_char() {
    assert_eq!(index_path("a"), "1/a");
}

#[test]
fn index_path_2_char() {
    assert_eq!(index_path("ab"), "2/ab");
}

#[test]
fn index_path_3_char() {
    assert_eq!(index_path("abc"), "3/a/abc");
}

#[test]
fn index_path_4_plus_char() {
    assert_eq!(index_path("serde"), "se/rd/serde");
    assert_eq!(index_path("abcd"), "ab/cd/abcd");
}

#[test]
fn reserved_set_contains_canonicalized() {
    let reserved = ReservedSet::new();
    assert!(reserved.contains("std"));
    assert!(reserved.contains("compiler_builtins"));
    assert!(reserved.contains("rust_installer"));
}

#[test]
fn reserved_windows_device_names() {
    let reserved = ReservedSet::new();
    assert!(reserved.contains("nul"));
    assert!(reserved.contains("con"));
    assert!(reserved.contains("prn"));
    assert!(reserved.contains("aux"));
    assert!(reserved.contains("com0"));
    assert!(reserved.contains("com9"));
    assert!(reserved.contains("lpt0"));
    assert!(reserved.contains("lpt9"));
}

#[test]
fn invalid_name_returns_error() {
    let client = Client::new();
    match check_name(&client, "foo+bar") {
        Err(CheckError::InvalidName(e)) => {
            assert!(e.to_string().contains("invalid character"));
        }
        other => panic!("expected InvalidName, got {other:?}"),
    }
}

#[test]
fn reserved_name_returns_reserved() {
    let client = Client::new();
    match check_name(&client, "std") {
        Ok(Availability::Reserved) => {}
        other => panic!("expected Reserved, got {other:?}"),
    }
}

#[test]
fn reserved_name_canonical_match() {
    let client = Client::new();
    match check_name(&client, "Compiler-Builtins") {
        Ok(Availability::Reserved) => {}
        other => panic!("expected Reserved for canonical match, got {other:?}"),
    }
}

#[test]
fn reserved_windows_name() {
    let client = Client::new();
    match check_name(&client, "NUL") {
        Ok(Availability::Reserved) => {}
        other => panic!("expected Reserved for Windows device name, got {other:?}"),
    }
}

fn assert_normal_unpin<T: Sized + Send + Sync + Unpin>() {}

fn assert_normal<T: Sized + Send + Sync>() {}

#[test]
fn availability_is_send_sync_unpin() {
    assert_normal_unpin::<Availability>();
}

#[test]
fn check_error_is_send_sync() {
    assert_normal::<CheckError>();
}

#[test]
fn client_is_send_sync() {
    assert_normal::<Client>();
}
