use bdk::bitcoin::secp256k1::Secp256k1;
use bdk::bitcoin::util::bip32::{DerivationPath, ExtendedPrivKey};
use bdk::miniscript::descriptor::{DescriptorPublicKey, DescriptorSecretKey};
use std::str::FromStr;
use tabwallet::keys::{
    check_derives_too_deep, confirm_watch_only, copy_path, exceeds_depth, external_chain_path, hardened,
    hardened_prefix_len, new_secret_key, taproot_test_account_path, KeyDescriptor, KeyGenerationError,
    Wildcard,
};
use tabwallet::network::Network;

const MASTER: &str = "xprv9s21ZrQH143K3QTDL4LXw2F7HEK3wJUD2nW2nRk4stbPy6cq3jPPqjiChkVvvNKmPGJxWUtg6LnF5kejMRNNU3TGtRBeJgk33yuGBxrMPHi";
const CHILD: &str = "xprv9uHRZZhk6KAJC1avXpDAp4MDc3sQKNxDiPvvkX8Br5ngLNv1TxvUxt4cV1rGL5hj6KCesnDYUhd7oWgT11eZG7XnxHrnYeSvkzY7d2bhkJ7";
const CHILD_PUBLIC: &str = "xpub68Gmy5EdvgibQVfPdqkBBCHxA5htiqg55crXYuXoQRKfDBFA1WEjWgP6LHhwBZeNK1VTsfTFUHCdrfp1bgwQ9xv5ski8PX9rL2dZXvgGDnw";
const GRANDCHILD_PUBLIC: &str = "xpub6D4BDPcP2GT577Vvch3R8wDkScZWzQzMMUm3PWbmWvVJrZwQY4VUNgqFJPMM3No2dFDFGTsxxpG5uJh7n7epu4trkrX7x7DogT5Uv6fcLW5";
const H: u32 = 0x8000_0000;

fn bytes(xprv: &str) -> Vec<u8> {
    ExtendedPrivKey::from_str(xprv).unwrap().encode().to_vec()
}

#[test]
fn child_numbers_and_paths() {
    assert_eq!(hardened(0), Some(0x8000_0000));
    assert_eq!(hardened(86), Some(0x8000_0056));
    assert_eq!(hardened(0x7fff_ffff), Some(0xffff_ffff));
    assert_eq!(hardened(0x8000_0000), None);
    assert_eq!(taproot_test_account_path(), vec![86 + H, 1 + H, H]);
    assert_eq!(external_chain_path(), vec![0]);
    assert_eq!(copy_path(&vec![1, 2, H]), vec![1, 2, H]);
    // the same paths in the usual notation
    let usual: Vec<u32> =
        DerivationPath::from_str("m/86'/1'/0'").unwrap().into_iter().map(|c| u32::from(*c)).collect();
    assert_eq!(taproot_test_account_path(), usual);
}

#[test]
fn key_of_a_known_master() {
    let k = KeyDescriptor::from_master(&bytes(MASTER), Network::Bitcoin, &vec![H], &vec![1]).unwrap();
    assert_eq!(k.fingerprint, [0x34, 0x42, 0x19, 0x3e]);
    assert_eq!(k.base_path, vec![H]);
    assert_eq!(k.material, bytes(CHILD));
    assert_eq!(k.extension_path, vec![1]);
    assert_eq!(k.wildcard, Wildcard::Unhardened);
    assert_eq!(k.encode(), Ok(format!("[3442193e/0']{}/1/*", CHILD)));
    assert_eq!(k.watch_only(), Ok(format!("[3442193e/0']{}/1/*", CHILD_PUBLIC)));
}

#[test]
fn key_is_written_for_its_network() {
    let k = KeyDescriptor::from_master(&bytes(MASTER), Network::Testnet, &vec![H], &vec![1]).unwrap();
    assert_eq!(&k.material[..4], &[0x04, 0x35, 0x83, 0x94]);
    assert_eq!(&k.material[4..], &bytes(CHILD)[4..]);
    assert_eq!(
        k.encode(),
        Ok("[3442193e/0']tprv8bxNLu25VazNnppTCP4fyhyCvBHcYtzE3wr3cwYeL4HA7yf6TLGEUdS4QC1vLT63TkjRssqJe4CvGNEC8DzW5AoPUw56D1Ayg6HY4oy8QZ9/1/*".to_string())
    );
    assert_eq!(
        k.watch_only(),
        Ok("[3442193e/0']tpubD8eQVK4Kdxg3gHrF62jGP7dKVCoYiEB8dFSpuTawkL5YxTus5j5pf83vaKnii4bc6v2NVEy81P2gYrJczYne3QNNwMTS53p5uzDyHvnw2jm/1/*".to_string())
    );
    for network in [Network::Signet, Network::Regtest] {
        let other = KeyDescriptor::from_master(&bytes(MASTER), network, &vec![H], &vec![1]).unwrap();
        assert_eq!(other.material, k.material);
    }
}

#[test]
fn watch_only_form_applies_hardened_steps() {
    let k = KeyDescriptor::from_master(&bytes(MASTER), Network::Bitcoin, &vec![H, 1], &vec![2 + H, 2]).unwrap();
    assert_eq!(k.watch_only(), Ok(format!("[3442193e/0'/1/2']{}/2/*", GRANDCHILD_PUBLIC)));
}

#[test]
fn other_wildcards() {
    let mut k = KeyDescriptor::from_master(&bytes(MASTER), Network::Bitcoin, &vec![H], &vec![]).unwrap();
    k.wildcard = Wildcard::Fixed;
    assert_eq!(k.encode(), Ok(format!("[3442193e/0']{}", CHILD)));
    assert_eq!(k.watch_only(), Ok(format!("[3442193e/0']{}", CHILD_PUBLIC)));
    k.wildcard = Wildcard::Hardened;
    assert_eq!(k.encode(), Ok(format!("[3442193e/0']{}/*h", CHILD)));
}

#[test]
fn watch_only_projection_is_deterministic() {
    let k = KeyDescriptor::from_master(&bytes(MASTER), Network::Testnet, &vec![86 + H, 1 + H, H], &vec![0]).unwrap();
    let first = k.watch_only().unwrap();
    let second = k.watch_only().unwrap();
    assert_eq!(first.as_bytes(), second.as_bytes());
    let again = KeyDescriptor::from_master(&bytes(MASTER), Network::Testnet, &vec![86 + H, 1 + H, H], &vec![0]).unwrap();
    assert_eq!(again.watch_only().unwrap(), first);
    // and it is what the signing form projects to
    let secret = DescriptorSecretKey::from_str(&k.encode().unwrap()).unwrap();
    assert_eq!(secret.to_public(&Secp256k1::new()).unwrap().to_string(), first);
}

#[test]
fn watch_only_form_holds_no_private_material() {
    let k = KeyDescriptor::from_master(&bytes(MASTER), Network::Testnet, &vec![86 + H, 1 + H, H], &vec![0]).unwrap();
    let public = k.watch_only().unwrap();
    assert!(DescriptorPublicKey::from_str(&public).is_ok());
    assert!(DescriptorSecretKey::from_str(&public).is_err());
    assert!(DescriptorSecretKey::from_str(&k.encode().unwrap()).is_ok());
}

#[test]
fn watch_only_form_is_handed_out_only_if_it_reads_as_one() {
    assert_eq!(confirm_watch_only(Some("k".to_string()), true), Ok("k".to_string()));
    assert_eq!(confirm_watch_only(Some("k".to_string()), false), Err(KeyGenerationError::NotWatchOnly));
    assert_eq!(confirm_watch_only(None, false), Err(KeyGenerationError::Encoding));
    assert_eq!(confirm_watch_only(None, true), Err(KeyGenerationError::Encoding));
}

#[test]
fn no_master_no_key() {
    let r = KeyDescriptor::from_drawn_master(None, Network::Testnet, &vec![H], &vec![0]);
    assert_eq!(r.err(), Some(KeyGenerationError::Entropy));
    let k = KeyDescriptor::from_drawn_master(Some(bytes(MASTER)), Network::Bitcoin, &vec![H], &vec![1]).unwrap();
    assert_eq!(k.material, bytes(CHILD));
}

#[test]
fn unreadable_material_is_refused() {
    let short = vec![0u8; 77];
    assert_eq!(
        KeyDescriptor::from_master(&short, Network::Bitcoin, &vec![H], &vec![0]).err(),
        Some(KeyGenerationError::Derivation)
    );
    let zero = vec![0u8; 78];
    assert_eq!(
        KeyDescriptor::from_master(&zero, Network::Bitcoin, &vec![H], &vec![0]).err(),
        Some(KeyGenerationError::Derivation)
    );
    let broken = KeyDescriptor {
        fingerprint: [0; 4],
        base_path: vec![],
        material: vec![1, 2, 3],
        extension_path: vec![],
        wildcard: Wildcard::Unhardened,
    };
    assert_eq!(broken.encode(), Err(KeyGenerationError::Encoding));
    assert_eq!(broken.watch_only(), Err(KeyGenerationError::Encoding));
}

#[test]
fn derivation_stops_at_the_deepest_key() {
    let master = bytes(MASTER);
    assert!(!exceeds_depth(&master, 255));
    assert!(exceeds_depth(&master, 256));
    assert!(!exceeds_depth(&vec![0u8; 10], 1000));
    let deep = vec![7u32; 255];
    let k = KeyDescriptor::from_master(&master, Network::Bitcoin, &deep, &vec![]).unwrap();
    assert_eq!(k.material[4], 255);
    assert!(exceeds_depth(&k.material, 1));
    assert_eq!(
        KeyDescriptor::from_master(&master, Network::Bitcoin, &vec![7u32; 256], &vec![]).err(),
        Some(KeyGenerationError::PathTooDeep)
    );
    assert_eq!(
        KeyDescriptor::from_master(&k.material, Network::Bitcoin, &vec![0], &vec![]).err(),
        Some(KeyGenerationError::PathTooDeep)
    );
    let mut at_the_end = k;
    at_the_end.extension_path = vec![H];
    assert_eq!(at_the_end.watch_only(), Err(KeyGenerationError::PathTooDeep));
    assert!(at_the_end.encode().is_ok());
    assert!(check_derives_too_deep(&at_the_end.encode().unwrap()));
    at_the_end.extension_path = vec![1, H, 2];
    assert_eq!(at_the_end.watch_only(), Err(KeyGenerationError::PathTooDeep));
    assert!(check_derives_too_deep(&at_the_end.encode().unwrap()));
    // steps that the public key can take lead no deeper
    at_the_end.extension_path = vec![0, 1, 2];
    assert!(at_the_end.watch_only().unwrap().ends_with("/0/1/2/*"));
    assert!(!check_derives_too_deep(&at_the_end.encode().unwrap()));
    assert_eq!(
        new_secret_key(Network::Testnet, &vec![0u32; 256], &vec![0]).err(),
        Some(KeyGenerationError::PathTooDeep)
    );
}

#[test]
fn steps_up_to_the_last_hardened_one() {
    assert_eq!(hardened_prefix_len(&vec![]), 0);
    assert_eq!(hardened_prefix_len(&vec![0, 1, 2]), 0);
    assert_eq!(hardened_prefix_len(&vec![H]), 1);
    assert_eq!(hardened_prefix_len(&vec![H, 1, 2]), 1);
    assert_eq!(hardened_prefix_len(&vec![0, 1, H + 5]), 3);
    assert_eq!(hardened_prefix_len(&vec![0, H, 2, 0xffff_ffff, 4, 0x7fff_ffff]), 4);
}

#[test]
fn depth_of_a_key_text() {
    let master = bytes(MASTER);
    let k = KeyDescriptor::from_master(&master, Network::Testnet, &vec![H], &vec![H, 1]).unwrap();
    assert!(!check_derives_too_deep(&k.encode().unwrap()));
    assert!(!check_derives_too_deep(&k.watch_only().unwrap()));
    assert!(!check_derives_too_deep("no key"));
    assert!(!check_derives_too_deep(""));
    let deep = KeyDescriptor::from_master(&master, Network::Testnet, &vec![7u32; 254], &vec![H, 1]).unwrap();
    assert!(!check_derives_too_deep(&deep.encode().unwrap()));
    let deeper = KeyDescriptor::from_master(&master, Network::Testnet, &vec![7u32; 254], &vec![H, H]).unwrap();
    assert!(check_derives_too_deep(&deeper.encode().unwrap()));
}

#[test]
fn new_keys_are_fresh_and_well_formed() {
    let base = taproot_test_account_path();
    let ext = external_chain_path();
    let a = new_secret_key(Network::Testnet, &base, &ext).unwrap();
    let b = new_secret_key(Network::Testnet, &base, &ext).unwrap();
    assert_ne!(a.material, b.material);
    assert_ne!(a.fingerprint, b.fingerprint);
    for k in [&a, &b] {
        assert_eq!(k.material.len(), 78);
        assert_eq!(k.material[4], 3);
        assert_eq!(&k.material[..4], &[0x04, 0x35, 0x83, 0x94]);
        assert_eq!(k.base_path, base);
        assert_eq!(k.extension_path, ext);
        assert_eq!(k.wildcard, Wildcard::Unhardened);
        let text = k.encode().unwrap();
        let origin: String = k.fingerprint.iter().map(|b| format!("{:02x}", b)).collect();
        assert!(text.starts_with(&format!("[{}/86'/1'/0']tprv", origin)));
        assert!(text.ends_with("/0/*"));
        let public = k.watch_only().unwrap();
        assert!(public.starts_with(&format!("[{}/86'/1'/0']tpub", origin)));
        assert!(public.ends_with("/0/*"));
    }
}
