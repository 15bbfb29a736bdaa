use osutil::digest::{digest_matches, sha256};

#[test]
fn digest_is_deterministic() {
    let a = sha256(b"hello world");
    let b = sha256(b"hello world");
    assert_eq!(a, b);
    assert_eq!(sha256(b""), sha256(b""));
}

#[test]
fn digest_distinct_inputs_differ() {
    assert_ne!(sha256(b"hello world"), sha256(b"hello worle"));
    assert_ne!(sha256(b""), sha256(b"\x00"));
    assert_ne!(sha256(b"abc"), sha256(b"abd"));
}

#[test]
fn digest_known_values() {
    assert_eq!(
        sha256(b""),
        "e3b0c44298fc1c149afbf4c8996fb92427ae41e4649b934ca495991b7852b855"
    );
    assert_eq!(
        sha256(b"abc"),
        "ba7816bf8f01cfea414140de5dae2223b00361a396177a9cb410ff61f20015ad"
    );
}

#[test]
fn digest_is_lowercase_hex_of_fixed_length() {
    let d = sha256(b"archive payload");
    assert_eq!(d.len(), 64);
    assert!(d.chars().all(|c| c.is_ascii_hexdigit() && !c.is_ascii_uppercase()));
}

#[test]
fn digest_matches_checks_equality() {
    let d = sha256(b"payload");
    assert!(digest_matches(b"payload", &d));
    assert!(!digest_matches(b"other payload", &d));
    assert!(!digest_matches(b"payload", &String::from("not a digest")));
}
