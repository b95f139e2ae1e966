//! The key material store: load what is persisted, or generate it once.
//!
//! The store never regenerates over a document that exists: a document that
//! cannot be read is an error, because new keys in its place would strand
//! whatever the old keys hold.

use crate::config::{parse_verdict, serialize_verdict, ConfigError, ConfigView, KeyMaterialConfig};
use crate::keys::{
    encoded, hardened_prefix, is_fresh_signing_key, new_secret_key, projected, reads_as_watch_only_key,
    KeyDescriptorView, KeyGenerationError, MAX_DEPTH,
};
use crate::network::Network;
use crate::text::texts;
use vstd::prelude::*;

verus! {

/// Why no key material could be had.
#[derive(Clone, Copy, Debug, PartialEq, Eq, Structural)]
pub enum StoreError {
    /// The persisted document cannot be used, or the new one cannot be written.
    Config(ConfigError),
    /// New keys could not be made.
    KeyGeneration(KeyGenerationError),
}

/// Key material, and the document to persist where it was newly made.
#[derive(Debug)]
pub struct Loaded {
    pub config: KeyMaterialConfig,
    /// The document that must be written before the keys are used; `None`
    /// where the keys were read from a document that exists.
    pub document: Option<String>,
}

/// The signing form of some new signing key.
pub open spec fn is_fresh_secret_text(
    text: Seq<char>,
    network: Network,
    base_path: Seq<u32>,
    extension_path: Seq<u32>,
) -> bool {
    exists|key: KeyDescriptorView|
        is_fresh_signing_key(key, network, base_path, extension_path) && #[trigger] encoded(key) == Ok::<
            Seq<char>,
            KeyGenerationError,
        >(text)
}

/// The watch-only form of some new signing key.
pub open spec fn is_fresh_public_text(
    text: Seq<char>,
    network: Network,
    base_path: Seq<u32>,
    extension_path: Seq<u32>,
) -> bool {
    exists|key: KeyDescriptorView|
        is_fresh_signing_key(key, network, base_path, extension_path) && #[trigger] projected(key) == Ok::<
            Seq<char>,
            KeyGenerationError,
        >(text)
}

/// The watch-only form of a key at the end of the base path lies deeper than
/// an extended key can record: the base path and the steps of the extension
/// path up to its last hardened one are more than the greatest depth.
pub open spec fn projects_too_deep(base_path: Seq<u32>, extension_path: Seq<u32>) -> bool {
    base_path.len() + hardened_prefix(extension_path) > MAX_DEPTH
}

/// Where generation may end for want of depth: at a signing key whose base
/// path is too long, or at a watch-only key whose form lies too deep.
pub open spec fn generates_too_deep(
    secret_count: nat,
    public_count: nat,
    base_path: Seq<u32>,
    extension_path: Seq<u32>,
) -> bool {
    (secret_count > 0 && base_path.len() > MAX_DEPTH) || (public_count > 0 && projects_too_deep(
        base_path,
        extension_path,
    ))
}

/// Every text of the list is the signing form of some new signing key.
pub open spec fn all_fresh_secret(
    keys: Seq<Seq<char>>,
    network: Network,
    base_path: Seq<u32>,
    extension_path: Seq<u32>,
) -> bool {
    forall|i: int|
        0 <= i < keys.len() ==> is_fresh_secret_text(#[trigger] keys[i], network, base_path, extension_path)
}

/// Every text of the list is the watch-only form of some new signing key.
pub open spec fn all_fresh_public(
    keys: Seq<Seq<char>>,
    network: Network,
    base_path: Seq<u32>,
    extension_path: Seq<u32>,
) -> bool {
    forall|i: int|
        0 <= i < keys.len() ==> is_fresh_public_text(#[trigger] keys[i], network, base_path, extension_path)
}

/// A configuration of newly made keys: as many of each kind as asked for,
/// each the form of a signing key of its own.
pub open spec fn is_generated(
    config: ConfigView,
    secret_count: nat,
    public_count: nat,
    network: Network,
    base_path: Seq<u32>,
    extension_path: Seq<u32>,
) -> bool {
    &&& config.secret_keys.len() == secret_count
    &&& config.public_keys.len() == public_count
    &&& all_fresh_secret(config.secret_keys, network, base_path, extension_path)
    &&& all_fresh_public(config.public_keys, network, base_path, extension_path)
}

/// Makes the signing forms of `count` new signing keys.
pub fn generate_secret_keys(
    count: usize,
    network: Network,
    base_path: &Vec<u32>,
    extension_path: &Vec<u32>,
) -> (r: Result<Vec<String>, KeyGenerationError>)
    ensures
        match r {
            Ok(keys) => keys@.len() == count && all_fresh_secret(
                texts(keys@),
                network,
                base_path@,
                extension_path@,
            ),
            Err(e) => count > 0 && (e == KeyGenerationError::PathTooDeep <==> base_path@.len() > MAX_DEPTH),
        },
        count == 0 ==> r is Ok,
        count > 0 && base_path@.len() > MAX_DEPTH ==> r is Err,
{
    let mut keys: Vec<String> = Vec::new();
    let mut i: usize = 0;
    while i < count
        invariant
            i <= count,
            keys@.len() == i,
            i > 0 ==> base_path@.len() <= MAX_DEPTH,
            all_fresh_secret(texts(keys@), network, base_path@, extension_path@),
        decreases count - i,
    {
        let key = match new_secret_key(network, base_path, extension_path) {
            Ok(k) => k,
            Err(e) => {
                return Err(e);
            },
        };
        let text = match key.encode() {
            Ok(t) => t,
            Err(e) => {
                return Err(e);
            },
        };
        let ghost before = texts(keys@);
        keys.push(text);
        proof {
            let after = texts(keys@);
            assert(encoded(key@) == Ok::<Seq<char>, KeyGenerationError>(after[i as int]));
            assert forall|j: int| 0 <= j < after.len() implies is_fresh_secret_text(
                #[trigger] after[j],
                network,
                base_path@,
                extension_path@,
            ) by {
                if j < i {
                    assert(after[j] == before[j]);
                }
            }
        }
        i = i + 1;
    }
    Ok(keys)
}

/// Makes the watch-only forms of `count` new signing keys, whose private
/// material is then dropped. No watch-only key is made where its form would
/// lie deeper than an extended key can record.
pub fn generate_public_keys(
    count: usize,
    network: Network,
    base_path: &Vec<u32>,
    extension_path: &Vec<u32>,
) -> (r: Result<Vec<String>, KeyGenerationError>)
    ensures
        match r {
            Ok(keys) => keys@.len() == count && all_fresh_public(
                texts(keys@),
                network,
                base_path@,
                extension_path@,
            ),
            Err(e) => {
                &&& count > 0
                &&& base_path@.len() > MAX_DEPTH ==> e == KeyGenerationError::PathTooDeep
                &&& e == KeyGenerationError::PathTooDeep ==> projects_too_deep(base_path@, extension_path@)
            },
        },
        count == 0 ==> r is Ok,
        count > 0 && projects_too_deep(base_path@, extension_path@) ==> r is Err,
{
    let mut keys: Vec<String> = Vec::new();
    let mut i: usize = 0;
    while i < count
        invariant
            i <= count,
            keys@.len() == i,
            i > 0 ==> !projects_too_deep(base_path@, extension_path@),
            all_fresh_public(texts(keys@), network, base_path@, extension_path@),
        decreases count - i,
    {
        let key = match new_secret_key(network, base_path, extension_path) {
            Ok(k) => k,
            Err(e) => {
                return Err(e);
            },
        };
        let text = match key.watch_only() {
            Ok(t) => t,
            Err(e) => {
                return Err(e);
            },
        };
        let ghost before = texts(keys@);
        keys.push(text);
        proof {
            let after = texts(keys@);
            assert(projected(key@) == Ok::<Seq<char>, KeyGenerationError>(after[i as int]));
            assert forall|j: int| 0 <= j < after.len() implies is_fresh_public_text(
                #[trigger] after[j],
                network,
                base_path@,
                extension_path@,
            ) by {
                if j < i {
                    assert(after[j] == before[j]);
                }
            }
        }
        i = i + 1;
    }
    Ok(keys)
}

/// Generates the key material of a new wallet: `secret_count` signing keys
/// and `public_count` watch-only keys, every one from a master key of its own.
pub fn generate(
    secret_count: usize,
    public_count: usize,
    network: Network,
    base_path: &Vec<u32>,
    extension_path: &Vec<u32>,
) -> (r: Result<KeyMaterialConfig, KeyGenerationError>)
    ensures
        match r {
            Ok(config) => is_generated(
                config@,
                secret_count as nat,
                public_count as nat,
                network,
                base_path@,
                extension_path@,
            ),
            Err(e) => {
                &&& secret_count + public_count > 0
                &&& base_path@.len() > MAX_DEPTH ==> e == KeyGenerationError::PathTooDeep
                &&& e == KeyGenerationError::PathTooDeep ==> generates_too_deep(
                    secret_count as nat,
                    public_count as nat,
                    base_path@,
                    extension_path@,
                )
            },
        },
        secret_count == 0 && public_count == 0 ==> r is Ok,
        generates_too_deep(secret_count as nat, public_count as nat, base_path@, extension_path@) ==> r is Err,
{
    let secret_keys = match generate_secret_keys(secret_count, network, base_path, extension_path) {
        Ok(keys) => keys,
        Err(e) => {
            return Err(e);
        },
    };
    let public_keys = match generate_public_keys(public_count, network, base_path, extension_path) {
        Ok(keys) => keys,
        Err(e) => {
            return Err(e);
        },
    };
    Ok(KeyMaterialConfig { secret_keys, public_keys })
}

/// The outcome of persisting what generation gave: the error of the
/// generation, or the configuration with its document, or the error for a
/// configuration that has none.
pub open spec fn persisted(generated: Result<KeyMaterialConfig, KeyGenerationError>, r: Result<Loaded, StoreError>) -> bool {
    match generated {
        Err(e) => r matches Err(f) && f == StoreError::KeyGeneration(e),
        Ok(config) => match serialize_verdict(config@) {
            Ok(text) => r matches Ok(loaded) && loaded.config@ == config@ && loaded.document is Some
                && loaded.document->0@ == text,
            Err(e) => r matches Err(f) && f == StoreError::Config(e),
        },
    }
}

impl Loaded {
    /// Takes what generation gave and, where it gave a configuration, adds the
    /// document to persist. A configuration without a document is an error:
    /// keys that cannot be persisted must not be used.
    pub fn from_generated(generated: Result<KeyMaterialConfig, KeyGenerationError>) -> (r: Result<
        Loaded,
        StoreError,
    >)
        ensures
            persisted(generated, r),
    {
        match generated {
            Err(e) => Err(StoreError::KeyGeneration(e)),
            Ok(config) => match config.serialize() {
                Ok(text) => Ok(Loaded { config, document: Some(text) }),
                Err(e) => Err(StoreError::Config(e)),
            },
        }
    }
}

/// The configuration that holds no key.
pub open spec fn empty_config() -> ConfigView {
    ConfigView { secret_keys: Seq::empty(), public_keys: Seq::empty() }
}

/// Loads the key material from the text of the persisted document, or, where
/// there is no document, generates it and hands out the document to persist.
///
/// A document that exists is never replaced: it is read, and a failure to
/// read it is the error that comes back. Where there is none, a base path
/// that no key can be derived along is refused before anything is drawn, and
/// what is generated comes back only together with its document. A path is
/// the reason of a failure only where it leads too deep: the base path for a
/// signing key, or the base path with the hardened steps of the extension
/// path for a watch-only key.
pub fn load_or_generate(
    existing: Option<&str>,
    secret_count: usize,
    public_count: usize,
    network: Network,
    base_path: &Vec<u32>,
    extension_path: &Vec<u32>,
) -> (r: Result<Loaded, StoreError>)
    ensures
        match existing {
            Some(text) => match parse_verdict(text@) {
                Ok(view) => r matches Ok(loaded) && loaded.config@ == view && loaded.document is None,
                Err(e) => r matches Err(f) && f == StoreError::Config(e),
            },
            None => match r {
                Ok(loaded) => {
                    &&& is_generated(
                        loaded.config@,
                        secret_count as nat,
                        public_count as nat,
                        network,
                        base_path@,
                        extension_path@,
                    )
                    &&& loaded.document is Some
                    &&& serialize_verdict(loaded.config@) == Ok::<Seq<char>, ConfigError>(
                        loaded.document->0@,
                    )
                    &&& parse_verdict(loaded.document->0@) == Ok::<ConfigView, ConfigError>(loaded.config@)
                },
                Err(StoreError::KeyGeneration(e)) => {
                    &&& secret_count + public_count > 0
                    &&& base_path@.len() > MAX_DEPTH ==> e == KeyGenerationError::PathTooDeep
                    &&& e == KeyGenerationError::PathTooDeep ==> generates_too_deep(
                        secret_count as nat,
                        public_count as nat,
                        base_path@,
                        extension_path@,
                    )
                },
                Err(StoreError::Config(e)) => exists|c: ConfigView|
                    is_generated(
                        c,
                        secret_count as nat,
                        public_count as nat,
                        network,
                        base_path@,
                        extension_path@,
                    ) && #[trigger] serialize_verdict(c) == Err::<Seq<char>, ConfigError>(e),
            },
        },
        existing is None && secret_count + public_count > 0 && base_path@.len() > MAX_DEPTH ==> r == Err::<
            Loaded,
            StoreError,
        >(StoreError::KeyGeneration(KeyGenerationError::PathTooDeep)),
        existing is None && generates_too_deep(
            secret_count as nat,
            public_count as nat,
            base_path@,
            extension_path@,
        ) ==> r matches Err(StoreError::KeyGeneration(_)),
        existing is None && secret_count == 0 && public_count == 0 ==> match serialize_verdict(
            empty_config(),
        ) {
            Ok(text) => r matches Ok(loaded) && loaded.config@ == empty_config() && loaded.document is Some
                && loaded.document->0@ == text,
            Err(e) => r matches Err(f) && f == StoreError::Config(e),
        },
{
    match existing {
        Some(text) => match KeyMaterialConfig::parse(text) {
            Ok(config) => Ok(Loaded { config, document: None }),
            Err(e) => Err(StoreError::Config(e)),
        },
        None => {
            let generated = generate(secret_count, public_count, network, base_path, extension_path);
            proof {
                if generated is Ok && secret_count == 0 && public_count == 0 {
                    let view = generated->Ok_0@;
                    assert(view.secret_keys =~= Seq::<Seq<char>>::empty());
                    assert(view.public_keys =~= Seq::<Seq<char>>::empty());
                    assert(view == empty_config());
                }
            }
            Loaded::from_generated(generated)
        },
    }
}

/// No private material is persisted among the watch-only keys: every
/// watch-only key of a generated configuration reads as a key without private
/// material.
pub proof fn lemma_generated_watch_only_keys_are_public(
    config: ConfigView,
    secret_count: nat,
    public_count: nat,
    network: Network,
    base_path: Seq<u32>,
    extension_path: Seq<u32>,
)
    requires
        is_generated(config, secret_count, public_count, network, base_path, extension_path),
    ensures
        forall|i: int|
            0 <= i < config.public_keys.len() ==> reads_as_watch_only_key(#[trigger] config.public_keys[i]),
{
    assert forall|i: int| 0 <= i < config.public_keys.len() implies reads_as_watch_only_key(
        #[trigger] config.public_keys[i],
    ) by {
        let text = config.public_keys[i];
        assert(is_fresh_public_text(text, network, base_path, extension_path));
        let key = choose|key: KeyDescriptorView|
            is_fresh_signing_key(key, network, base_path, extension_path) && #[trigger] projected(key)
                == Ok::<Seq<char>, KeyGenerationError>(text);
        assert(projected(key) == Ok::<Seq<char>, KeyGenerationError>(text));
    }
}

/// Loading never overwrites: where a document exists, nothing is handed out
/// to be written, whatever the document holds.
pub proof fn lemma_existing_document_is_kept(text: Seq<char>, r: Result<Loaded, StoreError>)
    requires
        match parse_verdict(text) {
            Ok(view) => r matches Ok(loaded) && loaded.config@ == view && loaded.document is None,
            Err(e) => r matches Err(f) && f == StoreError::Config(e),
        },
    ensures
        r matches Ok(loaded) ==> loaded.document is None,
        r is Err <==> parse_verdict(text) is Err,
{
}

} // verus!
