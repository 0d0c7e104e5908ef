use gcc_builder::artifact_cache::BuildConfig;
use gcc_builder::digest::{hex_lower, sha256_hex, sha512_hex};

#[test]
fn hex_writes_two_digits_per_byte() {
    assert_eq!(hex_lower(&vec![]), "");
    assert_eq!(hex_lower(&vec![0x00, 0x0f, 0xa0, 0xff]), "000fa0ff");
}

#[test]
fn sha256_of_known_inputs() {
    assert_eq!(
        sha256_hex(b"abc"),
        "ba7816bf8f01cfea414140de5dae2223b00361a396177a9cb410ff61f20015ad"
    );
    assert_eq!(
        sha256_hex(b""),
        "e3b0c44298fc1c149afbf4c8996fb92427ae41e4649b934ca495991b7852b855"
    );
}

#[test]
fn sha512_of_known_inputs() {
    assert_eq!(
        sha512_hex(b"abc"),
        "ddaf35a193617abacc417349ae20413112e6fa4e89a97ea20a9eeee64b55d39a2192992a274fc1a836ba3c23a3feebbd454d4423643ce80e2a9ac94fa54ca49f"
    );
    assert_eq!(sha512_hex(b"").len(), 128);
}

#[test]
fn config_hash_is_deterministic_and_sensitive() {
    let make = |opt: &str, multilib: bool| {
        BuildConfig::from_args(
            opt.to_string(),
            multilib,
            false,
            vec!["x86_64-linux-gnu".to_string()],
            vec!["--disable-nls".to_string(), "--enable-shared".to_string()],
        )
    };
    let a = make("-O2", false).generate_hash();
    let b = make("-O2", false).generate_hash();
    assert_eq!(a, b);
    assert_eq!(a.len(), 64);
    assert!(a.chars().all(|c| c.is_ascii_hexdigit() && !c.is_ascii_uppercase()));
    assert_ne!(a, make("-O3", false).generate_hash());
    assert_ne!(a, make("-O2", true).generate_hash());
    assert_eq!(make("-O2", false).duplicate().generate_hash(), a);
}

#[test]
fn config_hash_is_the_digest_of_the_canonical_text() {
    let c = BuildConfig::from_args(
        "-O2".to_string(),
        true,
        false,
        vec!["a".to_string(), "b".to_string()],
        vec!["x".to_string(), "y".to_string()],
    );
    assert_eq!(c.canonical_text(), "-O2truefalsea,bx y");
    assert_eq!(c.generate_hash(), sha256_hex("-O2truefalsea,bx y".as_bytes()));
}
