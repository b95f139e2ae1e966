use tabwallet::config::{ConfigError, Field, KeyMaterialConfig};
use tabwallet::descriptor::{DescriptorBuilder, UNSPENDABLE_KEY};
use tabwallet::keys::{external_chain_path, taproot_test_account_path, KeyGenerationError};
use tabwallet::network::Network;
use tabwallet::store::{
    generate, generate_public_keys, generate_secret_keys, load_or_generate, Loaded, StoreError,
};

#[test]
fn existing_document_is_loaded_and_never_rewritten() {
    let text = "secret_keys = [\"s1\", \"s2\"]\npublic_keys = [\"p1\"]\n";
    let loaded = load_or_generate(
        Some(text),
        997,
        1,
        Network::Testnet,
        &taproot_test_account_path(),
        &external_chain_path(),
    )
    .unwrap();
    assert_eq!(loaded.config.secret_keys, vec!["s1".to_string(), "s2".to_string()]);
    assert_eq!(loaded.config.public_keys, vec!["p1".to_string()]);
    assert_eq!(loaded.document, None);
}

#[test]
fn unreadable_document_is_fatal() {
    let load = |text: &str| {
        load_or_generate(Some(text), 1, 1, Network::Testnet, &taproot_test_account_path(), &external_chain_path())
            .err()
    };
    assert_eq!(load("secret_keys = ["), Some(StoreError::Config(ConfigError::Malformed)));
    assert_eq!(load(""), Some(StoreError::Config(ConfigError::MissingField { field: Field::SecretKeys })));
    assert_eq!(load("secret_keys = []\npublic_keys = []\nmore = []"), Some(StoreError::Config(ConfigError::UnknownField)));
}

#[test]
fn missing_document_is_generated_once() {
    let base = taproot_test_account_path();
    let ext = external_chain_path();
    let loaded = load_or_generate(None, 3, 2, Network::Testnet, &base, &ext).unwrap();
    assert_eq!(loaded.config.secret_keys.len(), 3);
    assert_eq!(loaded.config.public_keys.len(), 2);
    for k in &loaded.config.secret_keys {
        assert!(k.contains("/86'/1'/0']tprv") && k.ends_with("/0/*"));
    }
    for k in &loaded.config.public_keys {
        assert!(k.contains("/86'/1'/0']tpub") && k.ends_with("/0/*"));
    }
    let document = loaded.document.unwrap();
    let read = KeyMaterialConfig::parse(&document).unwrap();
    assert_eq!(read.secret_keys, loaded.config.secret_keys);
    assert_eq!(read.public_keys, loaded.config.public_keys);
    // the next run loads the same keys and writes nothing
    let next = load_or_generate(Some(&document), 3, 2, Network::Testnet, &base, &ext).unwrap();
    assert_eq!(next.config.secret_keys, loaded.config.secret_keys);
    assert_eq!(next.config.public_keys, loaded.config.public_keys);
    assert_eq!(next.document, None);
}

#[test]
fn generated_keys_are_all_different() {
    let c = generate(4, 4, Network::Testnet, &taproot_test_account_path(), &external_chain_path()).unwrap();
    let mut all: Vec<&String> = c.secret_keys.iter().chain(c.public_keys.iter()).collect();
    all.sort();
    all.dedup();
    assert_eq!(all.len(), 8);
}

#[test]
fn generation_of_nothing_and_of_too_deep_keys() {
    let deep = vec![0u32; 256];
    let ext = external_chain_path();
    let none = generate(0, 0, Network::Testnet, &deep, &ext).unwrap();
    assert!(none.secret_keys.is_empty() && none.public_keys.is_empty());
    assert_eq!(generate(1, 0, Network::Testnet, &deep, &ext).err(), Some(KeyGenerationError::PathTooDeep));
    assert_eq!(generate(0, 1, Network::Testnet, &deep, &ext).err(), Some(KeyGenerationError::PathTooDeep));
    assert_eq!(generate_secret_keys(2, Network::Testnet, &deep, &ext).err(), Some(KeyGenerationError::PathTooDeep));
    assert_eq!(generate_public_keys(2, Network::Testnet, &deep, &ext).err(), Some(KeyGenerationError::PathTooDeep));
    assert_eq!(
        load_or_generate(None, 1, 1, Network::Testnet, &deep, &ext).err(),
        Some(StoreError::KeyGeneration(KeyGenerationError::PathTooDeep))
    );
    // a watch-only form cannot go deeper than a key can record either
    let base = vec![0u32; 255];
    let hardened_step = vec![0x8000_0000u32];
    assert!(generate_secret_keys(1, Network::Testnet, &base, &hardened_step).is_ok());
    assert_eq!(
        generate_public_keys(1, Network::Testnet, &base, &hardened_step).err(),
        Some(KeyGenerationError::PathTooDeep)
    );
}

#[test]
fn generated_keys_make_a_descriptor() {
    let loaded =
        load_or_generate(None, 3, 1, Network::Testnet, &taproot_test_account_path(), &external_chain_path())
            .unwrap();
    let d = DescriptorBuilder::new(Network::Testnet, 998)
        .build(UNSPENDABLE_KEY, &loaded.config.secret_keys, &loaded.config.public_keys)
        .unwrap();
    assert_eq!(d.threshold, 3);
    assert_eq!(d.key_count, 4);
}

#[test]
fn nothing_to_generate_still_gives_a_document() {
    let loaded =
        load_or_generate(None, 0, 0, Network::Testnet, &taproot_test_account_path(), &external_chain_path())
            .unwrap();
    assert!(loaded.config.secret_keys.is_empty() && loaded.config.public_keys.is_empty());
    assert_eq!(loaded.document, Some("secret_keys = []\npublic_keys = []\n".to_string()));
    // the base path does not matter where nothing is derived
    let deep = load_or_generate(None, 0, 0, Network::Testnet, &vec![0u32; 300], &external_chain_path()).unwrap();
    assert_eq!(deep.document, Some("secret_keys = []\npublic_keys = []\n".to_string()));
}

#[test]
fn generated_keys_come_with_their_document() {
    for e in [
        KeyGenerationError::Entropy,
        KeyGenerationError::PathTooDeep,
        KeyGenerationError::Derivation,
        KeyGenerationError::Encoding,
        KeyGenerationError::NotWatchOnly,
    ] {
        assert_eq!(Loaded::from_generated(Err(e)).err(), Some(StoreError::KeyGeneration(e)));
    }
    let config = KeyMaterialConfig { secret_keys: vec!["s".to_string()], public_keys: vec!["p".to_string()] };
    let loaded = Loaded::from_generated(Ok(config)).unwrap();
    assert_eq!(loaded.config.secret_keys, vec!["s".to_string()]);
    assert_eq!(loaded.config.public_keys, vec!["p".to_string()]);
    assert_eq!(loaded.document, Some("secret_keys = [\"s\"]\npublic_keys = [\"p\"]\n".to_string()));
}

#[test]
fn generated_document_lists_signing_keys_first() {
    let loaded =
        load_or_generate(None, 2, 1, Network::Testnet, &taproot_test_account_path(), &external_chain_path())
            .unwrap();
    let document = loaded.document.unwrap();
    assert!(document.starts_with("secret_keys = [\"["));
    assert!(document.find("secret_keys").unwrap() < document.find("public_keys").unwrap());
}

#[test]
fn a_path_is_to_blame_only_where_it_leads_too_deep() {
    let hardened = vec![0x8000_0000u32];
    let plain = vec![7u32];
    // the base path alone decides for signing keys
    assert!(generate_secret_keys(1, Network::Testnet, &vec![0u32; 255], &hardened).is_ok());
    // for watch-only keys the hardened steps of the extension path count too
    assert!(generate_public_keys(1, Network::Testnet, &vec![0u32; 254], &hardened).is_ok());
    assert!(generate_public_keys(1, Network::Testnet, &vec![0u32; 255], &plain).is_ok());
    assert_eq!(
        generate_public_keys(1, Network::Testnet, &vec![0u32; 255], &hardened).err(),
        Some(KeyGenerationError::PathTooDeep)
    );
    assert!(generate(1, 0, Network::Testnet, &vec![0u32; 255], &hardened).is_ok());
    assert_eq!(
        generate(1, 1, Network::Testnet, &vec![0u32; 255], &hardened).err(),
        Some(KeyGenerationError::PathTooDeep)
    );
    assert_eq!(
        load_or_generate(None, 1, 1, Network::Testnet, &vec![0u32; 255], &hardened).err(),
        Some(StoreError::KeyGeneration(KeyGenerationError::PathTooDeep))
    );
    assert!(load_or_generate(None, 1, 1, Network::Testnet, &vec![0u32; 255], &plain).is_ok());
}
