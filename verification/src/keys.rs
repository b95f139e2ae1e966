//! Key descriptors: extended keys with their origin and derivation.
//!
//! The cryptography is done by the `bitcoin` and `miniscript` crates, as bdk
//! hands them on. This module says which key is made of a master key, a
//! network and two derivation paths, keeps derivations within the depth that
//! an extended key can record, and gives each key its two textual forms: the
//! signing form, which holds the private material, and the watch-only form,
//! which is derived from it and holds none.

use crate::network::Network;
use bdk::bitcoin::secp256k1::Secp256k1;
use bdk::bitcoin::util::bip32::{ChildNumber, ExtendedPrivKey, Fingerprint};
use bdk::bitcoin::Network as ChainNetwork;
use bdk::keys::{GeneratableKey, GeneratedKey};
use bdk::miniscript::descriptor::Wildcard as ChainWildcard;
use bdk::miniscript::descriptor::{DescriptorPublicKey, DescriptorSecretKey, DescriptorXKey};
use bdk::miniscript::Legacy;
use std::str::FromStr;
use vstd::prelude::*;

verus! {

/// The first hardened child number: a step of a derivation path is hardened
/// where it is at least this.
pub const HARDENED: u32 = 0x8000_0000;

/// The length of the binary encoding of an extended key.
pub const EXTENDED_KEY_LENGTH: usize = 78;

/// The place of the depth in the binary encoding of an extended key.
pub const DEPTH_OFFSET: usize = 4;

/// The greatest depth that an extended key can record.
pub const MAX_DEPTH: usize = 255;

/// How a key's derivation goes on after its extension path.
#[derive(Clone, Copy, Debug, PartialEq, Eq, Structural)]
pub enum Wildcard {
    /// It does not: the key stands for one key only.
    Fixed,
    /// By any unhardened child number.
    Unhardened,
    /// By any hardened child number.
    Hardened,
}

/// A signing key of the wallet.
#[derive(Debug)]
pub struct KeyDescriptor {
    /// The fingerprint of the master key that the key was derived from.
    pub fingerprint: [u8; 4],
    /// The path from the master key to this key.
    pub base_path: Vec<u32>,
    /// The extended private key, in its binary encoding, which says the
    /// network that the key is written for.
    pub material: Vec<u8>,
    /// The path from this key to the root of the wallet's addresses.
    pub extension_path: Vec<u32>,
    /// How address derivation goes on from there.
    pub wildcard: Wildcard,
}

/// What a key descriptor holds.
pub ghost struct KeyDescriptorView {
    pub fingerprint: Seq<u8>,
    pub base_path: Seq<u32>,
    pub material: Seq<u8>,
    pub extension_path: Seq<u32>,
    pub wildcard: Wildcard,
}

/// Why no key could be made or written.
#[derive(Clone, Copy, Debug, PartialEq, Eq, Structural)]
pub enum KeyGenerationError {
    /// No master key could be drawn.
    Entropy,
    /// The derivation would lead deeper than an extended key can record.
    PathTooDeep,
    /// The key material cannot be read or derived from.
    Derivation,
    /// The key cannot be written in the asked form.
    Encoding,
    /// What was written as the watch-only form does not read as a key without
    /// private material.
    NotWatchOnly,
}

impl View for KeyDescriptor {
    type V = KeyDescriptorView;

    open spec fn view(&self) -> KeyDescriptorView {
        KeyDescriptorView {
            fingerprint: self.fingerprint@,
            base_path: self.base_path@,
            material: self.material@,
            extension_path: self.extension_path@,
            wildcard: self.wildcard,
        }
    }
}

/// The extended private key that is derived from a key along a path, both in
/// their binary encoding, where the key can be read.
pub uninterp spec fn derived_key(key: Seq<u8>, path: Seq<u32>) -> Option<Seq<u8>>;

/// An extended private key written for a network, both in their binary
/// encoding, where the key can be read.
pub uninterp spec fn key_on_network(key: Seq<u8>, network: Network) -> Option<Seq<u8>>;

/// The fingerprint of an extended private key, where the key can be read.
pub uninterp spec fn key_fingerprint(key: Seq<u8>) -> Option<Seq<u8>>;

/// The signing form of a key descriptor, where its material can be read.
pub uninterp spec fn secret_key_text(key: KeyDescriptorView) -> Option<Seq<char>>;

/// The watch-only form of a key descriptor, where it has one.
pub uninterp spec fn watch_only_text(key: KeyDescriptorView) -> Option<Seq<char>>;

/// Whether a text reads as a key with private material.
pub uninterp spec fn reads_as_signing_key(text: Seq<char>) -> bool;

/// The depth of the extended key of a signing key text and the path that
/// follows the key in it, where the text reads as a signing key that holds an
/// extended key.
pub uninterp spec fn signing_key_parts(text: Seq<char>) -> Option<(u8, Seq<u32>)>;

/// Whether a text reads as a key without private material.
pub uninterp spec fn reads_as_watch_only_key(text: Seq<char>) -> bool;

/// The binary encoding of a master key: of full length, at depth zero.
pub open spec fn is_master(key: Seq<u8>) -> bool {
    key.len() == EXTENDED_KEY_LENGTH && key[DEPTH_OFFSET as int] == 0
}

/// Deriving from this key along a path of this length would lead deeper than
/// an extended key can record.
pub open spec fn too_deep(key: Seq<u8>, steps: nat) -> bool {
    key.len() == EXTENDED_KEY_LENGTH && key[DEPTH_OFFSET as int] + steps > MAX_DEPTH
}

/// The number of steps of a path up to its last hardened one: the steps that
/// only the private key can take.
pub open spec fn hardened_prefix(path: Seq<u32>) -> nat
    decreases path.len(),
{
    if path.len() == 0 {
        0
    } else if path.last() >= HARDENED {
        path.len()
    } else {
        hardened_prefix(path.drop_last())
    }
}

/// A signing key text whose watch-only form lies deeper than an extended key
/// can record: the hardened steps of its path lead beyond the greatest depth.
pub open spec fn derives_too_deep(text: Seq<char>) -> bool {
    signing_key_parts(text) matches Some(parts) && parts.0 + hardened_prefix(parts.1) > MAX_DEPTH
}

/// The four bytes that an encoded extended private key begins with on a
/// network. The test networks share theirs.
pub open spec fn version_bytes(network: Network) -> Seq<u8> {
    match network {
        Network::Bitcoin => seq![0x04u8, 0x88u8, 0xadu8, 0xe4u8],
        _ => seq![0x04u8, 0x35u8, 0x83u8, 0x94u8],
    }
}

/// An encoded extended private key written anew for a network: the version
/// of the network, then the key's depth, parent, child number and chain code,
/// a zero, and the key's secret.
pub open spec fn written_for(key: Seq<u8>, network: Network) -> Seq<u8>
    recommends
        key.len() == EXTENDED_KEY_LENGTH,
{
    version_bytes(network) + key.subrange(4, 45) + seq![0u8] + key.subrange(46, 78)
}

/// An encoded extended private key of a network at a depth.
pub open spec fn has_shape(material: Seq<u8>, network: Network, depth: int) -> bool {
    &&& material.len() == EXTENDED_KEY_LENGTH
    &&& material.subrange(0, 4) == version_bytes(network)
    &&& material[DEPTH_OFFSET as int] == depth
}

/// The material of the signing key that is made of a master key: the key
/// derived along the base path, written anew for the network where it can be
/// read.
pub open spec fn signing_material(master: Seq<u8>, network: Network, base_path: Seq<u32>) -> Option<Seq<u8>> {
    match derived_key(master, base_path) {
        Some(derived) => if key_on_network(derived, network) is Some {
            Some(written_for(derived, network))
        } else {
            None
        },
        None => None,
    }
}

/// The signing key that is made of a master key: derived along the base path
/// and written for the network, tagged with the master's fingerprint and
/// that path, and extended by the extension path and any unhardened child.
pub open spec fn signing_key_of(
    master: Seq<u8>,
    network: Network,
    base_path: Seq<u32>,
    extension_path: Seq<u32>,
) -> Result<KeyDescriptorView, KeyGenerationError> {
    if too_deep(master, base_path.len()) {
        Err(KeyGenerationError::PathTooDeep)
    } else {
        match (signing_material(master, network, base_path), key_fingerprint(master)) {
            (Some(material), Some(fingerprint)) => Ok(
                KeyDescriptorView {
                    fingerprint,
                    base_path,
                    material,
                    extension_path,
                    wildcard: Wildcard::Unhardened,
                },
            ),
            _ => Err(KeyGenerationError::Derivation),
        }
    }
}

/// The signing form of a key, as a result.
pub open spec fn encoded(key: KeyDescriptorView) -> Result<Seq<char>, KeyGenerationError> {
    match secret_key_text(key) {
        Some(text) => Ok(text),
        None => Err(KeyGenerationError::Encoding),
    }
}

/// The watch-only form of a key, as a result.
pub open spec fn projected(key: KeyDescriptorView) -> Result<Seq<char>, KeyGenerationError> {
    if too_deep(key.material, hardened_prefix(key.extension_path)) {
        Err(KeyGenerationError::PathTooDeep)
    } else {
        match watch_only_text(key) {
            Some(text) => if reads_as_watch_only_key(text) {
                Ok(text)
            } else {
                Err(KeyGenerationError::NotWatchOnly)
            },
            None => Err(KeyGenerationError::Encoding),
        }
    }
}

/// `r` holds the text that `expected` says, or its error.
pub open spec fn text_is(
    expected: Result<Seq<char>, KeyGenerationError>,
    r: Result<String, KeyGenerationError>,
) -> bool {
    match expected {
        Ok(text) => r matches Ok(t) && t@ == text,
        Err(e) => r matches Err(f) && f == e,
    }
}

/// `r` holds the key that `expected` says, or its error.
pub open spec fn key_is(
    expected: Result<KeyDescriptorView, KeyGenerationError>,
    r: Result<KeyDescriptor, KeyGenerationError>,
) -> bool {
    match expected {
        Ok(view) => r matches Ok(k) && k@ == view,
        Err(e) => r matches Err(f) && f == e,
    }
}

/// A signing key that is made of some master key.
pub open spec fn is_fresh_signing_key(
    key: KeyDescriptorView,
    network: Network,
    base_path: Seq<u32>,
    extension_path: Seq<u32>,
) -> bool {
    &&& exists|master: Seq<u8>|
        is_master(master) && #[trigger] signing_key_of(master, network, base_path, extension_path) == Ok::<
            KeyDescriptorView,
            KeyGenerationError,
        >(key)
    &&& has_shape(key.material, network, base_path.len() as int)
}

/// Draws a master key at random.
///
/// Calls bdk's `GeneratableKey::generate` for an extended private key and
/// hands out its binary encoding. The contract claims what holds of every
/// key that comes out: the encoding has its full length and says depth zero.
#[verifier::external_body]
fn fresh_master() -> (r: Option<Vec<u8>>)
    ensures
        r matches Some(key) ==> is_master(key@),
{
    let key: Option<GeneratedKey<ExtendedPrivKey, Legacy>> = ExtendedPrivKey::generate(()).ok();
    key.map(|k| k.encode().to_vec())
}

/// Derives an extended private key along a path.
///
/// Calls `ExtendedPrivKey::decode`, `derive_priv` and `encode` of the
/// bitcoin crate. The derivation counts the depth in a byte, so paths that
/// would lead beyond it are left out. The contract claims that the key that
/// comes out, or the refusal, is the same on every call with the same key and
/// path; that only a key of full length is derived from; and that what comes
/// out has full length, the version of the key, and a depth that is the
/// key's plus one for each step.
#[verifier::external_body]
fn derive(key: &Vec<u8>, path: &Vec<u32>) -> (r: Option<Vec<u8>>)
    requires
        !too_deep(key@, path@.len()),
    ensures
        match r {
            Some(derived) => {
                &&& derived_key(key@, path@) == Some(derived@)
                &&& key@.len() == EXTENDED_KEY_LENGTH
                &&& derived@.len() == EXTENDED_KEY_LENGTH
                &&& derived@.subrange(0, 4) == key@.subrange(0, 4)
                &&& derived@[DEPTH_OFFSET as int] == key@[DEPTH_OFFSET as int] + path@.len()
            },
            None => derived_key(key@, path@) is None,
        },
{
    let path: Vec<ChildNumber> = path.iter().map(|&n| n.into()).collect();
    let key = ExtendedPrivKey::decode(key).ok()?;
    key.derive_priv(&Secp256k1::new(), &path).ok().map(|k| k.encode().to_vec())
}

/// Writes an extended private key for a network.
///
/// Calls `ExtendedPrivKey::decode` of the bitcoin crate, sets the network of
/// what comes out, and calls `encode`. The contract claims that the refusal
/// is the same on every call with the same key and network; that only a key
/// of full length is written; and that what is written is the key with the
/// version of the network in front and a zero before the secret.
#[verifier::external_body]
fn rebrand(key: &Vec<u8>, network: Network) -> (r: Option<Vec<u8>>)
    ensures
        match r {
            Some(written) => {
                &&& key_on_network(key@, network) == Some(written@)
                &&& key@.len() == EXTENDED_KEY_LENGTH
                &&& written@ == written_for(key@, network)
            },
            None => key_on_network(key@, network) is None,
        },
{
    let network = match network {
        Network::Bitcoin => ChainNetwork::Bitcoin,
        Network::Testnet => ChainNetwork::Testnet,
        Network::Signet => ChainNetwork::Signet,
        Network::Regtest => ChainNetwork::Regtest,
    };
    let key = ExtendedPrivKey { network, ..ExtendedPrivKey::decode(key).ok()? };
    Some(key.encode().to_vec())
}

/// Computes the fingerprint of an extended private key.
///
/// Calls `ExtendedPrivKey::decode` and `fingerprint` of the bitcoin crate.
/// The contract claims only that the fingerprint, or the refusal, is the same
/// on every call with the same key.
#[verifier::external_body]
fn fingerprint_of(key: &Vec<u8>) -> (r: Option<[u8; 4]>)
    ensures
        match r {
            Some(fingerprint) => key_fingerprint(key@) == Some(fingerprint@),
            None => key_fingerprint(key@) is None,
        },
{
    ExtendedPrivKey::decode(key).ok().map(|k| k.fingerprint(&Secp256k1::new()).to_bytes())
}

/// Writes a key descriptor in its signing form.
///
/// Builds miniscript's `DescriptorSecretKey` of the parts and calls its
/// `to_string`. The contract claims only that the text, or the refusal of
/// material that is no key, is the same on every call with the same parts.
#[verifier::external_body]
fn write_secret(key: &KeyDescriptor) -> (r: Option<String>)
    ensures
        match r {
            Some(text) => secret_key_text(key@) == Some(text@),
            None => secret_key_text(key@) is None,
        },
{
    let wildcard = match key.wildcard {
        Wildcard::Fixed => ChainWildcard::None,
        Wildcard::Unhardened => ChainWildcard::Unhardened,
        Wildcard::Hardened => ChainWildcard::Hardened,
    };
    let xkey = ExtendedPrivKey::decode(&key.material).ok()?;
    let base = key.base_path.iter().map(|&n| ChildNumber::from(n)).collect();
    let origin = Some((Fingerprint::from(&key.fingerprint[..]), base));
    let derivation_path = key.extension_path.iter().map(|&n| ChildNumber::from(n)).collect();
    Some(DescriptorSecretKey::XPrv(DescriptorXKey { origin, xkey, derivation_path, wildcard }).to_string())
}

/// Writes a key descriptor in its watch-only form.
///
/// Builds miniscript's `DescriptorSecretKey` of the parts and calls its
/// `to_public` and the `to_string` of what comes out. `to_public` derives along
/// the extension path up to its last hardened step, so paths that would lead
/// beyond the depth that a byte can count are left out. The contract claims only
/// that the text, or the refusal, is the same on every call with the same
/// parts.
#[verifier::external_body]
fn write_public(key: &KeyDescriptor) -> (r: Option<String>)
    requires
        !too_deep(key@.material, hardened_prefix(key@.extension_path)),
    ensures
        match r {
            Some(text) => watch_only_text(key@) == Some(text@),
            None => watch_only_text(key@) is None,
        },
{
    let wildcard = match key.wildcard {
        Wildcard::Fixed => ChainWildcard::None,
        Wildcard::Unhardened => ChainWildcard::Unhardened,
        Wildcard::Hardened => ChainWildcard::Hardened,
    };
    let xkey = ExtendedPrivKey::decode(&key.material).ok()?;
    let base = key.base_path.iter().map(|&n| ChildNumber::from(n)).collect();
    let origin = Some((Fingerprint::from(&key.fingerprint[..]), base));
    let derivation_path = key.extension_path.iter().map(|&n| ChildNumber::from(n)).collect();
    let secret = DescriptorSecretKey::XPrv(DescriptorXKey { origin, xkey, derivation_path, wildcard });
    secret.to_public(&Secp256k1::new()).ok().map(|k| k.to_string())
}

/// Tells whether a text reads as a key with private material.
///
/// Calls the `from_str` of miniscript's `DescriptorSecretKey`. The contract
/// claims only that the answer is the same on every call with the same text.
#[verifier::external_body]
pub(crate) fn parses_as_signing_key(text: &str) -> (b: bool)
    ensures
        b == reads_as_signing_key(text@),
{
    DescriptorSecretKey::from_str(text).is_ok()
}

/// Reads, from a signing key text, the depth of its extended key and the path
/// that follows the key.
///
/// Calls the `from_str` of miniscript's `DescriptorSecretKey` and hands out
/// two fields of an extended key; a single key has neither. The contract
/// claims only that what comes out is the same on every call with the same
/// text.
#[verifier::external_body]
pub(crate) fn read_signing_key_parts(text: &str) -> (r: Option<(u8, Vec<u32>)>)
    ensures
        match r {
            Some(parts) => signing_key_parts(text@) == Some((parts.0, parts.1@)),
            None => signing_key_parts(text@) is None,
        },
{
    match DescriptorSecretKey::from_str(text).ok()? {
        DescriptorSecretKey::XPrv(x) => Some(
            (x.xkey.depth, x.derivation_path.into_iter().map(|c| u32::from(*c)).collect()),
        ),
        DescriptorSecretKey::Single(_) => None,
    }
}

/// Tells whether a text reads as a key without private material.
///
/// Calls the `from_str` of miniscript's `DescriptorPublicKey`. The contract
/// claims only that the answer is the same on every call with the same text.
#[verifier::external_body]
pub(crate) fn parses_as_watch_only_key(text: &str) -> (b: bool)
    ensures
        b == reads_as_watch_only_key(text@),
{
    DescriptorPublicKey::from_str(text).is_ok()
}

/// The hardened child number of an index, where there is one.
pub fn hardened(index: u32) -> (r: Option<u32>)
    ensures
        match r {
            Some(n) => index < HARDENED && n == index + HARDENED,
            None => index >= HARDENED,
        },
{
    if index < HARDENED {
        Some(index + HARDENED)
    } else {
        None
    }
}

/// The path of the first taproot account on a test network: purpose 86, coin
/// type 1, account 0, each hardened.
pub fn taproot_test_account_path() -> (path: Vec<u32>)
    ensures
        path@ == seq![(86 + HARDENED) as u32, (1 + HARDENED) as u32, HARDENED],
{
    let mut path: Vec<u32> = Vec::new();
    path.push(86 + HARDENED);
    path.push(1 + HARDENED);
    path.push(HARDENED);
    assert(path@ =~= seq![(86 + HARDENED) as u32, (1 + HARDENED) as u32, HARDENED]);
    path
}

/// The path of the chain of receiving addresses below an account.
pub fn external_chain_path() -> (path: Vec<u32>)
    ensures
        path@ == seq![0u32],
{
    let mut path: Vec<u32> = Vec::new();
    path.push(0);
    assert(path@ =~= seq![0u32]);
    path
}

/// A copy of a derivation path.
pub fn copy_path(path: &Vec<u32>) -> (out: Vec<u32>)
    ensures
        out@ == path@,
{
    let mut out: Vec<u32> = Vec::new();
    let mut i: usize = 0;
    while i < path.len()
        invariant
            i <= path.len(),
            out@ == path@.take(i as int),
        decreases path.len() - i,
    {
        out.push(path[i]);
        assert(path@.take(i + 1) =~= path@.take(i as int).push(path@[i as int]));
        i = i + 1;
    }
    assert(path@.take(i as int) =~= path@);
    out
}

/// The number of steps of a path up to its last hardened one.
pub fn hardened_prefix_len(path: &Vec<u32>) -> (n: usize)
    ensures
        n == hardened_prefix(path@),
{
    let mut i: usize = path.len();
    assert(path@.take(i as int) =~= path@);
    while i > 0
        invariant
            i <= path.len(),
            hardened_prefix(path@) == hardened_prefix(path@.take(i as int)),
        decreases i,
    {
        assert(path@.take(i as int).last() == path@[i - 1]);
        if path[i - 1] >= HARDENED {
            return i;
        }
        assert(path@.take(i as int).drop_last() =~= path@.take(i - 1));
        i = i - 1;
    }
    0
}

/// Tells whether the watch-only form of a signing key text lies deeper than
/// an extended key can record.
pub fn check_derives_too_deep(text: &str) -> (b: bool)
    ensures
        b == derives_too_deep(text@),
{
    match read_signing_key_parts(text) {
        Some(parts) => hardened_prefix_len(&parts.1) > MAX_DEPTH - (parts.0 as usize),
        None => false,
    }
}

/// Tells whether deriving from a key along a path of a given length would
/// lead deeper than an extended key can record.
pub fn exceeds_depth(key: &Vec<u8>, steps: usize) -> (b: bool)
    ensures
        b == too_deep(key@, steps as nat),
{
    key.len() == EXTENDED_KEY_LENGTH && steps > MAX_DEPTH - (key[DEPTH_OFFSET] as usize)
}

impl KeyDescriptor {
    /// The signing key that is made of a master key, a network and two paths.
    pub fn from_master(
        master: &Vec<u8>,
        network: Network,
        base_path: &Vec<u32>,
        extension_path: &Vec<u32>,
    ) -> (r: Result<KeyDescriptor, KeyGenerationError>)
        ensures
            key_is(signing_key_of(master@, network, base_path@, extension_path@), r),
            r matches Ok(key) ==> master@.len() == EXTENDED_KEY_LENGTH && has_shape(
                key@.material,
                network,
                master@[DEPTH_OFFSET as int] + base_path@.len(),
            ),
    {
        if exceeds_depth(master, base_path.len()) {
            return Err(KeyGenerationError::PathTooDeep);
        }
        let derived = match derive(master, base_path) {
            Some(d) => d,
            None => {
                return Err(KeyGenerationError::Derivation);
            },
        };
        let material = match rebrand(&derived, network) {
            Some(m) => m,
            None => {
                return Err(KeyGenerationError::Derivation);
            },
        };
        let fingerprint = match fingerprint_of(master) {
            Some(f) => f,
            None => {
                return Err(KeyGenerationError::Derivation);
            },
        };
        assert(material@.subrange(0, 4) =~= version_bytes(network));
        assert(material@[DEPTH_OFFSET as int] == derived@[DEPTH_OFFSET as int]);
        Ok(
            KeyDescriptor {
                fingerprint,
                base_path: copy_path(base_path),
                material,
                extension_path: copy_path(extension_path),
                wildcard: Wildcard::Unhardened,
            },
        )
    }

    /// The key in its signing form, as it is persisted.
    pub fn encode(&self) -> (r: Result<String, KeyGenerationError>)
        ensures
            text_is(encoded(self@), r),
    {
        match write_secret(self) {
            Some(text) => Ok(text),
            None => Err(KeyGenerationError::Encoding),
        }
    }

    /// The key in its watch-only form: what can be told of it without the
    /// private material. The text is handed out only where it reads as a key
    /// without private material.
    pub fn watch_only(&self) -> (r: Result<String, KeyGenerationError>)
        ensures
            text_is(projected(self@), r),
    {
        if exceeds_depth(&self.material, hardened_prefix_len(&self.extension_path)) {
            return Err(KeyGenerationError::PathTooDeep);
        }
        let written = write_public(self);
        let reads_as_watch_only = match &written {
            Some(text) => parses_as_watch_only_key(text.as_str()),
            None => false,
        };
        confirm_watch_only(written, reads_as_watch_only)
    }

    /// The signing key that is made of a master key that was drawn, or the
    /// error where none could be drawn.
    pub fn from_drawn_master(
        master: Option<Vec<u8>>,
        network: Network,
        base_path: &Vec<u32>,
        extension_path: &Vec<u32>,
    ) -> (r: Result<KeyDescriptor, KeyGenerationError>)
        ensures
            match master {
                Some(m) => {
                    &&& key_is(signing_key_of(m@, network, base_path@, extension_path@), r)
                    &&& r matches Ok(key) ==> m@.len() == EXTENDED_KEY_LENGTH && has_shape(
                        key@.material,
                        network,
                        m@[DEPTH_OFFSET as int] + base_path@.len(),
                    )
                },
                None => r matches Err(e) && e == KeyGenerationError::Entropy,
            },
    {
        match master {
            Some(m) => KeyDescriptor::from_master(&m, network, base_path, extension_path),
            None => Err(KeyGenerationError::Entropy),
        }
    }
}

/// Decides whether what was written as a watch-only form is handed out: only
/// where something was written and it reads as a key without private
/// material.
pub fn confirm_watch_only(written: Option<String>, reads_as_watch_only: bool) -> (r: Result<
    String,
    KeyGenerationError,
>)
    ensures
        match written {
            Some(text) => if reads_as_watch_only {
                r matches Ok(t) && t@ == text@
            } else {
                r matches Err(e) && e == KeyGenerationError::NotWatchOnly
            },
            None => r matches Err(e) && e == KeyGenerationError::Encoding,
        },
{
    match written {
        Some(text) => if reads_as_watch_only {
            Ok(text)
        } else {
            Err(KeyGenerationError::NotWatchOnly)
        },
        None => Err(KeyGenerationError::Encoding),
    }
}

/// Makes a new signing key: draws a master key at random, derives it along
/// the base path for the network, tags it with the master's fingerprint and
/// the base path, and lets address derivation go on along the extension path
/// by any unhardened child.
pub fn new_secret_key(network: Network, derive_path: &Vec<u32>, extend_path: &Vec<u32>) -> (r: Result<
    KeyDescriptor,
    KeyGenerationError,
>)
    ensures
        derive_path@.len() > MAX_DEPTH ==> r == Err::<KeyDescriptor, KeyGenerationError>(
            KeyGenerationError::PathTooDeep,
        ),
        match r {
            Ok(key) => is_fresh_signing_key(key@, network, derive_path@, extend_path@),
            Err(e) => (e == KeyGenerationError::Entropy || e == KeyGenerationError::Derivation || e
                == KeyGenerationError::PathTooDeep) && (e == KeyGenerationError::PathTooDeep
                <==> derive_path@.len() > MAX_DEPTH),
        },
{
    if derive_path.len() > MAX_DEPTH {
        return Err(KeyGenerationError::PathTooDeep);
    }
    let master = fresh_master();
    let ghost drawn = master;
    let r = KeyDescriptor::from_drawn_master(master, network, derive_path, extend_path);
    proof {
        if r is Ok {
            assert(signing_key_of(drawn->0@, network, derive_path@, extend_path@) == Ok::<
                KeyDescriptorView,
                KeyGenerationError,
            >(r->Ok_0@));
        }
    }
    r
}

/// The watch-only form of a key is a function of the key: two projections of
/// one key give the same text, or fail alike.
pub proof fn lemma_projection_is_deterministic(
    key: KeyDescriptorView,
    first: Result<String, KeyGenerationError>,
    second: Result<String, KeyGenerationError>,
)
    requires
        text_is(projected(key), first),
        text_is(projected(key), second),
    ensures
        first is Ok <==> second is Ok,
        first is Ok ==> first->Ok_0@ == second->Ok_0@,
        first is Err ==> first->Err_0 == second->Err_0,
{
}

/// The watch-only form never holds private material: whatever text a
/// projection hands out reads as a key without it.
pub proof fn lemma_projection_is_watch_only(key: KeyDescriptorView)
    requires
        projected(key) is Ok,
    ensures
        reads_as_watch_only_key(projected(key)->Ok_0),
        watch_only_text(key) == Some(projected(key)->Ok_0),
{
}

/// A new signing key carries what it was asked for: material of full length
/// that begins with the version of the network and lies as deep as the base
/// path is long, the base path as its origin, the extension path, and the
/// unhardened wildcard.
pub proof fn lemma_fresh_key_shape(
    key: KeyDescriptorView,
    network: Network,
    base_path: Seq<u32>,
    extension_path: Seq<u32>,
)
    requires
        is_fresh_signing_key(key, network, base_path, extension_path),
    ensures
        exists|master: Seq<u8>|
            is_master(master) && #[trigger] signing_material(master, network, base_path) == Some(
                key.material,
            ),
        key.material.len() == EXTENDED_KEY_LENGTH,
        key.material.subrange(0, 4) == version_bytes(network),
        key.material[DEPTH_OFFSET as int] == base_path.len(),
        key.base_path == base_path,
        key.extension_path == extension_path,
        key.wildcard == Wildcard::Unhardened,
        base_path.len() <= MAX_DEPTH,
{
}

} // verus!
