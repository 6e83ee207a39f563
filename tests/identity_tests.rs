use lightning_console::{fresh_mnemonic, resolve_identity, IdentityError};

const ABANDON_12: &str =
    "abandon abandon abandon abandon abandon abandon abandon abandon abandon abandon abandon about";

#[test]
fn twelve_word_phrase_gives_known_seed() {
    let seed = resolve_identity(ABANDON_12).unwrap();
    assert_eq!(seed.len(), 64);
    let hex: String = seed.iter().map(|b| format!("{:02x}", b)).collect();
    assert_eq!(
        hex,
        "5eb00bbddcf069084889a8ab9155568165f5c453ccb85e70811aaed6f6da5fc1\
         9a5ac40b389cd370d086206dec8aa6c43daea6690f20ad3d8d48b2d2ce9e38e4"
    );
}

#[test]
fn same_phrase_same_seed() {
    let a = resolve_identity(ABANDON_12).unwrap();
    let b = resolve_identity(ABANDON_12).unwrap();
    assert_eq!(a, b);
}

#[test]
fn twenty_four_word_phrase_resolves() {
    let mut words = vec!["abandon"; 23];
    words.push("art");
    let phrase = words.join(" ");
    let a = resolve_identity(&phrase).unwrap();
    let b = resolve_identity(&phrase).unwrap();
    assert_eq!(a.len(), 64);
    assert_eq!(a, b);
    assert_ne!(a, resolve_identity(ABANDON_12).unwrap());
}

#[test]
fn wrong_checksum_is_invalid() {
    let phrase = vec!["abandon"; 12].join(" ");
    assert_eq!(resolve_identity(&phrase), Err(IdentityError::InvalidMnemonic));
}

#[test]
fn unknown_word_is_invalid() {
    let phrase = ABANDON_12.replace("about", "zzzzzz");
    assert_eq!(resolve_identity(&phrase), Err(IdentityError::InvalidMnemonic));
}

#[test]
fn wrong_word_count_is_invalid() {
    let phrase = vec!["abandon"; 11].join(" ");
    assert_eq!(resolve_identity(&phrase), Err(IdentityError::InvalidMnemonic));
    assert_eq!(resolve_identity(""), Err(IdentityError::InvalidMnemonic));
}

#[test]
fn fresh_mnemonic_has_twelve_words_and_resolves() {
    let phrase = fresh_mnemonic();
    assert_eq!(phrase.split(' ').count(), 12);
    assert!(resolve_identity(&phrase).is_ok());
    assert_ne!(phrase, fresh_mnemonic());
}
