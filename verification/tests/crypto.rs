use inferno::account::claims::{Claims, ClaimsBuilder, DEFAULT_EXPIRY_SECONDS};
use inferno::crypto::{
    generate_salt, generate_salt_with, hash, hash_password, DIGEST_BYTES, HASH_LENGTH, SALT_LENGTH,
};
use rand::rngs::StdRng;
use rand::SeedableRng;
use inferno::schema::page::change_hash;
use inferno::slug::Slug;
use inferno::state::{random_signing_key, ServerConfig, DEFAULT_PORT};
use inferno::universe::{host_of, Universe};
use sha2::{Digest, Sha256};

#[test]
fn hash_is_the_sha256_digest_in_lower_case_hex() {
    assert_eq!(hash("abc"), "ba7816bf8f01cfea414140de5dae2223b00361a396177a9cb410ff61f20015ad");
    assert_eq!(hash(""), "e3b0c44298fc1c149afbf4c8996fb92427ae41e4649b934ca495991b7852b855");
}

#[test]
fn hash_password_hashes_the_password_then_the_salt() {
    assert_eq!(
        hash_password("ab", "c"),
        "ba7816bf8f01cfea414140de5dae2223b00361a396177a9cb410ff61f20015ad"
    );
    assert_eq!(hash_password("a", "bc"), hash("abc"));
    assert_ne!(hash_password("c", "ab"), hash("abc"));
    assert_eq!(hash_password("", ""), hash(""));
}

#[test]
fn a_salt_has_the_length_asked_for_and_only_letters_and_digits() {
    for length in [0usize, 1, SALT_LENGTH, 64] {
        let salt = generate_salt(length);
        assert_eq!(salt.chars().count(), length);
        assert!(salt.chars().all(|c| c.is_ascii_alphanumeric()));
    }
    assert_ne!(generate_salt(64), generate_salt(64));
}

#[test]
fn a_signing_key_is_256_bytes_in_hex() {
    let key = random_signing_key();
    assert_eq!(key.len(), 512);
    assert!(key.chars().all(|c| c.is_ascii_digit() || ('a'..='f').contains(&c)));
    assert_ne!(key, random_signing_key());
}

#[test]
fn a_change_hash_covers_page_author_time_and_changes() {
    let slug = Slug::new("/Index/").unwrap();
    let mut hasher = Sha256::new();
    hasher.update("Index");
    hasher.update("frostu8");
    hasher.update(1700000000i64.to_le_bytes());
    hasher.update("@@ -0,0 +1 @@\n+a\n");
    let expected = base16::encode_lower(&hasher.finalize());
    assert_eq!(change_hash(&slug, "frostu8", 1700000000, "@@ -0,0 +1 @@\n+a\n"), expected);
    assert_eq!(expected.len(), 64);
    assert_ne!(change_hash(&slug, "frostu8", 1700000001, "@@ -0,0 +1 @@\n+a\n"), expected);
    assert_ne!(change_hash(&slug, "frostu9", 1700000000, "@@ -0,0 +1 @@\n+a\n"), expected);

    let mut hasher = Sha256::new();
    hasher.update("a");
    hasher.update("");
    hasher.update((-2i64).to_le_bytes());
    hasher.update("");
    let expected = base16::encode_lower(&hasher.finalize());
    assert_eq!(change_hash(&Slug::new("a").unwrap(), "", -2, ""), expected);
}

#[test]
fn claims_hold_for_a_day_unless_told_otherwise() {
    let claims = Claims::for_sub("frostu8".to_owned()).build(1000).unwrap();
    assert_eq!(claims.sub(), "frostu8");
    assert_eq!(claims.exp(), 1000 + 86400);
    assert_eq!(DEFAULT_EXPIRY_SECONDS, 86400);
    let claims = ClaimsBuilder::new("a".to_owned()).exp(60).build(1_700_000_000).unwrap();
    assert_eq!(claims.exp(), 1_700_000_060);
    let claims = Claims::from_parts("b".to_owned(), 7);
    assert_eq!((claims.sub(), claims.exp()), ("b", 7));
}

#[test]
fn claims_are_not_built_for_a_time_out_of_range() {
    assert!(ClaimsBuilder::new("a".to_owned()).exp(-10).build(5).is_none());
    assert!(ClaimsBuilder::new("a".to_owned()).exp(1).build(i64::MAX).is_none());
    assert_eq!(ClaimsBuilder::new("a".to_owned()).exp(-5).build(5).unwrap().exp(), 0);
}

#[test]
fn a_config_starts_from_the_defaults() {
    let config = ServerConfig::new();
    assert_eq!(config.port, DEFAULT_PORT);
    assert_eq!(config.port, 4000);
    assert_eq!(config.static_files_dir, "./site");
    assert_eq!(config.database_url, None);
    assert_eq!(config.signing_key, None);
    let config = config.database_url("postgres://db".to_owned()).signing_key("k".to_owned());
    assert_eq!(config.database_url.as_deref(), Some("postgres://db"));
    assert_eq!(config.signing_key.as_deref(), Some("k"));
    assert_eq!(config.port, 4000);
    assert_eq!(ServerConfig::default().static_files_dir, "./site");
}

#[test]
fn a_universe_locates_a_page() {
    let universe = Universe { id: 3, host: Some("wiki.example".to_owned()) };
    let path = Slug::new("Index").unwrap();
    let locator = universe.locate(&path);
    assert_eq!(locator.universe_id, 3);
    assert_eq!(locator.path.as_str(), "Index");
}

#[test]
fn the_host_stands_before_the_port() {
    assert_eq!(host_of("wiki.example:4000"), "wiki.example");
    assert_eq!(host_of("wiki.example"), "wiki.example");
    assert_eq!(host_of(":80"), "");
    assert_eq!(host_of("[::1]:80"), "[");
}

#[test]
fn a_salt_is_drawn_from_the_generator_given() {
    let mut first = StdRng::seed_from_u64(7);
    let mut second = StdRng::seed_from_u64(7);
    let a = generate_salt_with(40, &mut first);
    let b = generate_salt_with(40, &mut second);
    assert_eq!(a, b);
    assert_eq!(a.len(), 40);
    assert!(a.chars().all(|c| c.is_ascii_alphanumeric()));
    let c = generate_salt_with(40, &mut first);
    assert_ne!(a, c);
    assert_eq!(generate_salt_with(0, &mut first), "");
}

#[test]
fn a_hash_has_two_characters_for_each_byte_of_the_digest() {
    assert_eq!(DIGEST_BYTES, 32);
    assert_eq!(HASH_LENGTH, 64);
    assert_eq!(hash("anything at all").len(), HASH_LENGTH);
    assert_eq!(hash_password("p", "s").len(), HASH_LENGTH);
}
