//! Composition of the threshold spending descriptor.
//!
//! The descriptor is a taproot output whose key path is disabled by an
//! unspendable internal key and whose single script leaf asks for `threshold`
//! signatures out of the whole key list. The list holds the signing keys
//! first and the watch-only keys after them, and the threshold is the number
//! of signing keys: every signing key must sign.

use crate::keys::{
    check_derives_too_deep, derives_too_deep, parses_as_signing_key, parses_as_watch_only_key,
    reads_as_signing_key, reads_as_watch_only_key,
};
use crate::network::Network;
use crate::text::{decimal, decimal_text, texts};
use bdk::bitcoin::secp256k1::Secp256k1;
use bdk::descriptor::IntoWalletDescriptor;
use vstd::prelude::*;
use vstd::string::*;
use vstd::utf8::is_ascii_chars;

verus! {

/// The largest number of participant keys that the script analysis has been
/// seen to accept in one script leaf.
pub const OBSERVED_KEY_CEILING: usize = 998;

/// A public point that nobody holds the private key of.
pub const UNSPENDABLE_KEY: &'static str =
    "020000000000000000000000000000000000000000000000000000000000000001";

/// A character that may occur in a key: printable, and without a meaning of
/// its own in the descriptor language.
pub open spec fn is_key_char(c: char) -> bool {
    &&& '!' <= c <= '~'
    &&& c != '('
    &&& c != ')'
    &&& c != ','
    &&& c != '{'
    &&& c != '}'
    &&& c != '#'
}

/// A key encoding that can stand in a descriptor as one operand.
pub open spec fn is_key_token(s: Seq<char>) -> bool {
    &&& s.len() > 0
    &&& forall|i: int| 0 <= i < s.len() ==> is_key_char(#[trigger] s[i])
}

/// Each key of the list, with a comma in front of it.
pub open spec fn joined_keys(keys: Seq<Seq<char>>) -> Seq<char>
    decreases keys.len(),
{
    if keys.len() == 0 {
        Seq::empty()
    } else {
        joined_keys(keys.drop_last()) + seq![','] + keys.last()
    }
}

/// The descriptor text for an internal key, a threshold and a key list.
pub open spec fn descriptor_text(internal_key: Seq<char>, threshold: nat, keys: Seq<Seq<char>>) -> Seq<
    char,
> {
    "tr("@ + internal_key + ",multi_a("@ + decimal(threshold) + joined_keys(keys) + "))"@
}

/// No key of the list is a signing key whose watch-only form lies deeper
/// than an extended key can record.
pub open spec fn all_shallow(keys: Seq<Seq<char>>) -> bool {
    forall|j: int| 0 <= j < keys.len() ==> !derives_too_deep(#[trigger] keys[j])
}

/// `index` is the place of the first key of `keys` whose watch-only form lies
/// deeper than an extended key can record.
pub open spec fn is_first_deep(keys: Seq<Seq<char>>, index: int) -> bool {
    &&& 0 <= index < keys.len()
    &&& derives_too_deep(keys[index])
    &&& forall|j: int| 0 <= j < index ==> !derives_too_deep(#[trigger] keys[j])
}

/// A text that is the descriptor text of key tokens, none of them a signing
/// key whose watch-only form lies deeper than an extended key can record.
pub open spec fn is_composed(text: Seq<char>) -> bool {
    exists|internal_key: Seq<char>, threshold: nat, keys: Seq<Seq<char>>|
        is_key_token(internal_key) && all_key_tokens(keys) && !derives_too_deep(internal_key)
            && all_shallow(keys) && text == #[trigger] descriptor_text(internal_key, threshold, keys)
}

/// What the script analysis says of a descriptor text on a network: `None`
/// where it accepts the text, and its own message where it refuses it.
pub uninterp spec fn engine_verdict(text: Seq<char>, network: Network) -> Option<Seq<char>>;

/// A validated threshold descriptor.
#[derive(Debug)]
pub struct ThresholdDescriptor {
    /// The descriptor in the engine's textual language.
    pub text: String,
    /// How many signatures a spend needs: the number of signing keys.
    pub threshold: usize,
    /// How many keys take part, signing and watch-only together.
    pub key_count: usize,
    /// The network that the keys were validated for.
    pub network: Network,
}

/// Why no descriptor could be made.
#[derive(Debug)]
pub enum DescriptorConstructionError {
    /// More keys than the configured ceiling allows.
    TooManyKeys { count: usize, ceiling: usize },
    /// The internal key cannot stand in a descriptor.
    MalformedInternalKey,
    /// The key at this place of the key list cannot stand in a descriptor.
    MalformedKey { index: usize },
    /// The key at this place of the key list is not of the kind that its list
    /// asks for: a signing key without private material, or a watch-only key
    /// that is none.
    MisplacedKey { index: usize },
    /// The key at this place of the key list is a signing key whose path
    /// leads, by its hardened steps, deeper than an extended key can record.
    DeepKey { index: usize },
    /// The script analysis refused the descriptor; `reason` is its message.
    Rejected { count: usize, reason: String },
}

/// Builds threshold descriptors for one network, up to a ceiling of keys.
#[derive(Clone, Copy, Debug)]
pub struct DescriptorBuilder {
    pub network: Network,
    pub ceiling: usize,
}

/// The number of keys as it is reported: the sum, or the largest number that
/// can be held where the sum is beyond it.
pub open spec fn reported_count(signing: nat, watch_only: nat) -> usize {
    if signing + watch_only > usize::MAX {
        usize::MAX
    } else {
        (signing + watch_only) as usize
    }
}

/// `index` is the place of the first key of `keys` that is no key token.
pub open spec fn is_first_malformed(keys: Seq<Seq<char>>, index: int) -> bool {
    &&& 0 <= index < keys.len()
    &&& !is_key_token(keys[index])
    &&& forall|j: int| 0 <= j < index ==> is_key_token(#[trigger] keys[j])
}

/// Every key of the list is a key token.
pub open spec fn all_key_tokens(keys: Seq<Seq<char>>) -> bool {
    forall|j: int| 0 <= j < keys.len() ==> is_key_token(#[trigger] keys[j])
}

/// The key at a place of the key list is of the kind that its list asks for.
pub open spec fn in_place(signing: Seq<Seq<char>>, watch_only: Seq<Seq<char>>, j: int) -> bool {
    if j < signing.len() {
        reads_as_signing_key(signing[j])
    } else {
        reads_as_watch_only_key(watch_only[j - signing.len()])
    }
}

/// Every key is of the kind that its list asks for.
pub open spec fn all_in_place(signing: Seq<Seq<char>>, watch_only: Seq<Seq<char>>) -> bool {
    forall|j: int| 0 <= j < signing.len() + watch_only.len() ==> #[trigger] in_place(signing, watch_only, j)
}

/// `index` is the place of the first key that is not of the kind that its
/// list asks for.
pub open spec fn is_first_misplaced(signing: Seq<Seq<char>>, watch_only: Seq<Seq<char>>, index: int) -> bool {
    &&& 0 <= index < signing.len() + watch_only.len()
    &&& !in_place(signing, watch_only, index)
    &&& forall|j: int| 0 <= j < index ==> #[trigger] in_place(signing, watch_only, j)
}

/// The outcome of composing a descriptor, given the verdict of the analysis
/// on the composed text.
pub open spec fn concluded(
    text: Seq<char>,
    threshold: usize,
    key_count: usize,
    network: Network,
    verdict: Option<Seq<char>>,
    r: Result<ThresholdDescriptor, DescriptorConstructionError>,
) -> bool {
    match r {
        Ok(d) => {
            &&& verdict.is_none()
            &&& d.text@ == text
            &&& d.threshold == threshold
            &&& d.key_count == key_count
            &&& d.network == network
        },
        Err(DescriptorConstructionError::Rejected { count, reason }) => {
            &&& verdict == Some(reason@)
            &&& count == key_count
        },
        Err(_) => false,
    }
}

/// The outcome of `DescriptorBuilder::build` on given inputs.
pub open spec fn built(
    b: DescriptorBuilder,
    internal_key: Seq<char>,
    signing: Seq<Seq<char>>,
    watch_only: Seq<Seq<char>>,
    r: Result<ThresholdDescriptor, DescriptorConstructionError>,
) -> bool {
    let keys = signing + watch_only;
    if keys.len() > b.ceiling {
        r matches Err(DescriptorConstructionError::TooManyKeys { count, ceiling })
            && count == reported_count(signing.len(), watch_only.len()) && ceiling == b.ceiling
    } else if !is_key_token(internal_key) || !reads_as_watch_only_key(internal_key) || derives_too_deep(
        internal_key,
    ) {
        r matches Err(DescriptorConstructionError::MalformedInternalKey)
    } else if !all_key_tokens(keys) {
        r matches Err(DescriptorConstructionError::MalformedKey { index })
            && is_first_malformed(keys, index as int)
    } else if !all_in_place(signing, watch_only) {
        r matches Err(DescriptorConstructionError::MisplacedKey { index })
            && is_first_misplaced(signing, watch_only, index as int)
    } else if !all_shallow(keys) {
        r matches Err(DescriptorConstructionError::DeepKey { index }) && is_first_deep(keys, index as int)
    } else {
        let text = descriptor_text(internal_key, signing.len(), keys);
        concluded(
            text,
            signing.len() as usize,
            keys.len() as usize,
            b.network,
            engine_verdict(text, b.network),
            r,
        )
    }
}

/// Appending a key to the list appends a comma and the key to the joined text.
pub proof fn lemma_joined_push(keys: Seq<Seq<char>>, key: Seq<char>)
    ensures
        joined_keys(keys.push(key)) == joined_keys(keys) + seq![','] + key,
{
    assert(keys.push(key).drop_last() =~= keys);
}

/// Tells whether a key encoding can stand in a descriptor as one operand.
pub fn check_key_token(key: &str) -> (ok: bool)
    ensures
        ok == is_key_token(key@),
{
    if !key.is_ascii() {
        return false;
    }
    proof {
        broadcast use is_ascii_spec_bytes;

    }
    let bytes = key.as_bytes();
    let n = bytes.len();
    if n == 0 {
        return false;
    }
    let mut i: usize = 0;
    while i < n
        invariant
            i <= n,
            n == key@.len(),
            n == bytes@.len(),
            is_ascii_chars(key@),
            forall|j: int| 0 <= j < n ==> bytes@[j] == (#[trigger] key@[j]) as u8,
            forall|j: int| 0 <= j < i ==> is_key_char(#[trigger] key@[j]),
        decreases n - i,
    {
        let b: u8 = bytes[i];
        let ghost c = key@[i as int];
        assert(b == c as u8);
        assert('\0' <= c <= '\u{7f}');
        assert(c as u32 == b as u32);
        if b < 0x21 || b > 0x7e || b == 0x28 || b == 0x29 || b == 0x2c || b == 0x7b || b == 0x7d
            || b == 0x23 {
            assert(!is_key_char(c));
            return false;
        }
        assert(is_key_char(c));
        i = i + 1;
    }
    true
}

/// Asks the script analysis whether a descriptor text is a valid wallet
/// descriptor on a network.
///
/// Calls bdk's `IntoWalletDescriptor::into_wallet_descriptor` on the text. It
/// is asked of composed texts only, which are printable and nest no deeper
/// than their two brackets. The call derives the watch-only form of every
/// signing key in the text and counts the depth in a byte, so texts with a
/// key whose hardened steps lead beyond it are left out. The contract claims
/// only that the answer, with the message of a refusal, is the same on every
/// call with the same text and network.
#[verifier::external_body]
fn analyze(text: &str, network: Network) -> (r: Result<(), String>)
    requires
        is_composed(text@),
    ensures
        match r {
            Ok(_) => engine_verdict(text@, network).is_none(),
            Err(reason) => engine_verdict(text@, network) == Some(reason@),
        },
{
    let network = match network {
        Network::Bitcoin => bdk::bitcoin::Network::Bitcoin,
        Network::Testnet => bdk::bitcoin::Network::Testnet,
        Network::Signet => bdk::bitcoin::Network::Signet,
        Network::Regtest => bdk::bitcoin::Network::Regtest,
    };
    match text.into_wallet_descriptor(&Secp256k1::new(), network) {
        Ok(_) => Ok(()),
        Err(e) => Err(e.to_string()),
    }
}

/// Turns a composed text and the verdict of the analysis on it into the
/// descriptor, or into the error that carries the refusal.
pub fn conclude(
    text: String,
    threshold: usize,
    key_count: usize,
    network: Network,
    verdict: Result<(), String>,
) -> (r: Result<ThresholdDescriptor, DescriptorConstructionError>)
    ensures
        concluded(
            text@,
            threshold,
            key_count,
            network,
            match verdict {
                Ok(_) => None,
                Err(reason) => Some(reason@),
            },
            r,
        ),
{
    match verdict {
        Ok(_) => Ok(ThresholdDescriptor { text, threshold, key_count, network }),
        Err(reason) => Err(DescriptorConstructionError::Rejected { count: key_count, reason }),
    }
}

/// Composes the descriptor text of key tokens.
pub fn compose(internal_key: &str, signing_keys: &Vec<String>, watch_only_keys: &Vec<String>) -> (out:
    String)
    ensures
        out@ == descriptor_text(
            internal_key@,
            signing_keys@.len(),
            texts(signing_keys@) + texts(watch_only_keys@),
        ),
{
    let ghost signing = texts(signing_keys@);
    let ghost watch = texts(watch_only_keys@);
    let mut out = String::new();
    out.append("tr(");
    out.append(internal_key);
    out.append(",multi_a(");
    let threshold = decimal_text(signing_keys.len() as u64);
    out.append(threshold.as_str());
    let ghost head = out@;
    assert(head =~= "tr("@ + internal_key@ + ",multi_a("@ + decimal(signing_keys@.len()));
    let mut i: usize = 0;
    assert(signing.take(0) =~= Seq::<Seq<char>>::empty());
    while i < signing_keys.len()
        invariant
            i <= signing_keys.len(),
            signing == texts(signing_keys@),
            out@ == head + joined_keys(signing.take(i as int)),
        decreases signing_keys.len() - i,
    {
        proof {
            lemma_joined_push(signing.take(i as int), signing[i as int]);
            assert(signing.take(i as int).push(signing[i as int]) =~= signing.take(i + 1));
        }
        out.append(",");
        out.append(signing_keys[i].as_str());
        proof {
            reveal_strlit(",");
            assert(","@ =~= seq![',']);
        }
        i = i + 1;
    }
    assert(signing.take(i as int) =~= signing);
    let mut j: usize = 0;
    assert(signing + watch.take(0) =~= signing);
    while j < watch_only_keys.len()
        invariant
            j <= watch_only_keys.len(),
            signing == texts(signing_keys@),
            watch == texts(watch_only_keys@),
            out@ == head + joined_keys(signing + watch.take(j as int)),
        decreases watch_only_keys.len() - j,
    {
        proof {
            lemma_joined_push(signing + watch.take(j as int), watch[j as int]);
            assert((signing + watch.take(j as int)).push(watch[j as int]) =~= signing + watch.take(
                j + 1,
            ));
        }
        out.append(",");
        out.append(watch_only_keys[j].as_str());
        proof {
            reveal_strlit(",");
            assert(","@ =~= seq![',']);
        }
        j = j + 1;
    }
    assert(watch.take(j as int) =~= watch);
    out.append("))");
    out
}

/// The place of the first string of `keys` that is no key token, if any.
pub fn first_malformed(keys: &Vec<String>) -> (r: Option<usize>)
    ensures
        match r {
            Some(index) => is_first_malformed(texts(keys@), index as int),
            None => all_key_tokens(texts(keys@)),
        },
{
    let mut i: usize = 0;
    while i < keys.len()
        invariant
            i <= keys.len(),
            forall|j: int| 0 <= j < i ==> is_key_token(#[trigger] texts(keys@)[j]),
        decreases keys.len() - i,
    {
        if !check_key_token(keys[i].as_str()) {
            return Some(i);
        }
        i = i + 1;
    }
    None
}

/// The place of the first signing key text of `keys` whose watch-only form
/// lies deeper than an extended key can record, if any.
pub fn first_deep(keys: &Vec<String>) -> (r: Option<usize>)
    ensures
        match r {
            Some(index) => is_first_deep(texts(keys@), index as int),
            None => all_shallow(texts(keys@)),
        },
{
    let mut i: usize = 0;
    while i < keys.len()
        invariant
            i <= keys.len(),
            forall|j: int| 0 <= j < i ==> !derives_too_deep(#[trigger] texts(keys@)[j]),
        decreases keys.len() - i,
    {
        if check_derives_too_deep(keys[i].as_str()) {
            return Some(i);
        }
        i = i + 1;
    }
    None
}

/// The place of the first key that is not of the kind that its list asks
/// for, if any: a signing key must read as a key with private material, a
/// watch-only key as one without.
pub fn first_misplaced(signing_keys: &Vec<String>, watch_only_keys: &Vec<String>) -> (r: Option<usize>)
    requires
        signing_keys@.len() + watch_only_keys@.len() <= usize::MAX,
    ensures
        match r {
            Some(index) => is_first_misplaced(
                texts(signing_keys@),
                texts(watch_only_keys@),
                index as int,
            ),
            None => all_in_place(texts(signing_keys@), texts(watch_only_keys@)),
        },
{
    let ghost signing = texts(signing_keys@);
    let ghost watch = texts(watch_only_keys@);
    let mut i: usize = 0;
    while i < signing_keys.len()
        invariant
            i <= signing_keys.len(),
            signing == texts(signing_keys@),
            watch == texts(watch_only_keys@),
            forall|j: int| 0 <= j < i ==> #[trigger] in_place(signing, watch, j),
        decreases signing_keys.len() - i,
    {
        assert(signing[i as int] == signing_keys@[i as int]@);
        if !parses_as_signing_key(signing_keys[i].as_str()) {
            return Some(i);
        }
        i = i + 1;
    }
    let mut k: usize = 0;
    while k < watch_only_keys.len()
        invariant
            k <= watch_only_keys.len(),
            signing == texts(signing_keys@),
            watch == texts(watch_only_keys@),
            signing.len() + watch.len() <= usize::MAX,
            forall|j: int| 0 <= j < signing.len() + k ==> #[trigger] in_place(signing, watch, j),
        decreases watch_only_keys.len() - k,
    {
        assert(watch[k as int] == watch_only_keys@[k as int]@);
        if !parses_as_watch_only_key(watch_only_keys[k].as_str()) {
            return Some(signing_keys.len() + k);
        }
        k = k + 1;
    }
    None
}

impl DescriptorBuilder {
    /// A builder for a network, with a ceiling on the number of keys.
    pub fn new(network: Network, ceiling: usize) -> (b: DescriptorBuilder)
        ensures
            b.network == network,
            b.ceiling == ceiling,
    {
        DescriptorBuilder { network, ceiling }
    }

    /// Builds the descriptor that asks for a signature of every signing key,
    /// out of the signing keys followed by the watch-only keys.
    ///
    /// Fails on more keys than the ceiling, then on a key that cannot stand in a
    /// descriptor, then on a key of the wrong kind for its list, then on a
    /// signing key whose path leads too deep, and at last where the script
    /// analysis refuses the text.
    pub fn build(&self, internal_key: &str, signing_keys: &Vec<String>, watch_only_keys: &Vec<String>) -> (r:
        Result<ThresholdDescriptor, DescriptorConstructionError>)
        ensures
            built(*self, internal_key@, texts(signing_keys@), texts(watch_only_keys@), r),
    {
        let ghost signing = texts(signing_keys@);
        let ghost watch = texts(watch_only_keys@);
        let key_count = match signing_keys.len().checked_add(watch_only_keys.len()) {
            Some(n) => n,
            None => {
                return Err(
                    DescriptorConstructionError::TooManyKeys {
                        count: usize::MAX,
                        ceiling: self.ceiling,
                    },
                );
            },
        };
        if key_count > self.ceiling {
            return Err(
                DescriptorConstructionError::TooManyKeys { count: key_count, ceiling: self.ceiling },
            );
        }
        if !check_key_token(internal_key) || !parses_as_watch_only_key(internal_key)
            || check_derives_too_deep(internal_key) {
            return Err(DescriptorConstructionError::MalformedInternalKey);
        }
        match first_malformed(signing_keys) {
            Some(index) => {
                assert(is_first_malformed(signing + watch, index as int));
                return Err(DescriptorConstructionError::MalformedKey { index });
            },
            None => {},
        }
        match first_malformed(watch_only_keys) {
            Some(index) => {
                let at = signing_keys.len() + index;
                assert((signing + watch)[at as int] == watch[index as int]);
                assert forall|j: int| 0 <= j < at implies is_key_token(#[trigger] (signing + watch)[j]) by {
                    if j >= signing.len() {
                        assert((signing + watch)[j] == watch[j - signing.len()]);
                    }
                }
                return Err(DescriptorConstructionError::MalformedKey { index: at });
            },
            None => {},
        }
        assert forall|j: int| 0 <= j < (signing + watch).len() implies is_key_token(
            #[trigger] (signing + watch)[j],
        ) by {
            if j >= signing.len() {
                assert((signing + watch)[j] == watch[j - signing.len()]);
            }
        }
        match first_misplaced(signing_keys, watch_only_keys) {
            Some(index) => {
                return Err(DescriptorConstructionError::MisplacedKey { index });
            },
            None => {},
        }
        match first_deep(signing_keys) {
            Some(index) => {
                assert(is_first_deep(signing + watch, index as int));
                return Err(DescriptorConstructionError::DeepKey { index });
            },
            None => {},
        }
        match first_deep(watch_only_keys) {
            Some(index) => {
                let at = signing_keys.len() + index;
                assert((signing + watch)[at as int] == watch[index as int]);
                assert forall|j: int| 0 <= j < at implies !derives_too_deep(#[trigger] (signing + watch)[j]) by {
                    if j >= signing.len() {
                        assert((signing + watch)[j] == watch[j - signing.len()]);
                    }
                }
                return Err(DescriptorConstructionError::DeepKey { index: at });
            },
            None => {},
        }
        assert forall|j: int| 0 <= j < (signing + watch).len() implies !derives_too_deep(
            #[trigger] (signing + watch)[j],
        ) by {
            if j >= signing.len() {
                assert((signing + watch)[j] == watch[j - signing.len()]);
            }
        }
        let text = compose(internal_key, signing_keys, watch_only_keys);
        assert(is_composed(text@)) by {
            assert(text@ == descriptor_text(internal_key@, signing.len(), signing + watch));
        }
        let verdict = analyze(text.as_str(), self.network);
        conclude(text, signing_keys.len(), key_count, self.network, verdict)
    }
}

/// Within the ceiling the builder succeeds wherever the keys can stand in a
/// descriptor, each is of the kind that its list asks for, none leads too
/// deep, and the script analysis accepts the text, and then the
/// threshold is the number of signing keys. Beyond the ceiling it fails with
/// the count of the keys, whatever the keys are.
pub proof fn lemma_descriptor_validity(
    b: DescriptorBuilder,
    internal_key: Seq<char>,
    signing: Seq<Seq<char>>,
    watch_only: Seq<Seq<char>>,
    r: Result<ThresholdDescriptor, DescriptorConstructionError>,
)
    requires
        built(b, internal_key, signing, watch_only, r),
    ensures
        signing.len() + watch_only.len() > b.ceiling ==> (r matches Err(
            DescriptorConstructionError::TooManyKeys { count, ceiling },
        ) && ceiling == b.ceiling && (count == signing.len() + watch_only.len() || count == usize::MAX)),
        (signing.len() + watch_only.len() <= b.ceiling && is_key_token(internal_key)
            && reads_as_watch_only_key(internal_key) && !derives_too_deep(internal_key)
            && all_key_tokens(signing + watch_only) && all_in_place(signing, watch_only)
            && all_shallow(signing + watch_only) && engine_verdict(
            descriptor_text(internal_key, signing.len(), signing + watch_only),
            b.network,
        ) is None) ==> r is Ok,
        r is Ok ==> {
            let d = r->Ok_0;
            &&& d.threshold == signing.len()
            &&& d.key_count == signing.len() + watch_only.len()
            &&& d.threshold <= d.key_count <= b.ceiling
            &&& d.text@ == descriptor_text(internal_key, signing.len(), signing + watch_only)
            &&& d.network == b.network
        },
{
}

/// The builder is deterministic: on the same keys it gives the same
/// descriptor, or fails in the same way with the same words.
pub proof fn lemma_build_is_deterministic(
    b: DescriptorBuilder,
    internal_key: Seq<char>,
    signing: Seq<Seq<char>>,
    watch_only: Seq<Seq<char>>,
    first: Result<ThresholdDescriptor, DescriptorConstructionError>,
    second: Result<ThresholdDescriptor, DescriptorConstructionError>,
)
    requires
        built(b, internal_key, signing, watch_only, first),
        built(b, internal_key, signing, watch_only, second),
    ensures
        match (first, second) {
            (Ok(d), Ok(e)) => d.text@ == e.text@ && d.threshold == e.threshold && d.key_count == e.key_count
                && d.network == e.network,
            (
                Err(DescriptorConstructionError::TooManyKeys { count: c1, ceiling: l1 }),
                Err(DescriptorConstructionError::TooManyKeys { count: c2, ceiling: l2 }),
            ) => c1 == c2 && l1 == l2,
            (
                Err(DescriptorConstructionError::MalformedInternalKey),
                Err(DescriptorConstructionError::MalformedInternalKey),
            ) => true,
            (
                Err(DescriptorConstructionError::MalformedKey { index: i1 }),
                Err(DescriptorConstructionError::MalformedKey { index: i2 }),
            ) => i1 == i2,
            (
                Err(DescriptorConstructionError::MisplacedKey { index: i1 }),
                Err(DescriptorConstructionError::MisplacedKey { index: i2 }),
            ) => i1 == i2,
            (
                Err(DescriptorConstructionError::DeepKey { index: i1 }),
                Err(DescriptorConstructionError::DeepKey { index: i2 }),
            ) => i1 == i2,
            (
                Err(DescriptorConstructionError::Rejected { count: c1, reason: r1 }),
                Err(DescriptorConstructionError::Rejected { count: c2, reason: r2 }),
            ) => c1 == c2 && r1@ == r2@,
            _ => false,
        },
{
    let keys = signing + watch_only;
    if keys.len() <= b.ceiling && is_key_token(internal_key) && reads_as_watch_only_key(internal_key)
        && !derives_too_deep(internal_key) {
        if !all_key_tokens(keys) {
            let i1 = first->Err_0->MalformedKey_index as int;
            let i2 = second->Err_0->MalformedKey_index as int;
            assert(is_first_malformed(keys, i1) && is_first_malformed(keys, i2));
            if i1 < i2 {
                assert(is_key_token(keys[i1]));
            }
            if i2 < i1 {
                assert(is_key_token(keys[i2]));
            }
        } else if !all_in_place(signing, watch_only) {
            let i1 = first->Err_0->MisplacedKey_index as int;
            let i2 = second->Err_0->MisplacedKey_index as int;
            assert(is_first_misplaced(signing, watch_only, i1) && is_first_misplaced(signing, watch_only, i2));
            if i1 < i2 {
                assert(in_place(signing, watch_only, i1));
            }
            if i2 < i1 {
                assert(in_place(signing, watch_only, i2));
            }
        } else if !all_shallow(keys) {
            let i1 = first->Err_0->DeepKey_index as int;
            let i2 = second->Err_0->DeepKey_index as int;
            assert(is_first_deep(keys, i1) && is_first_deep(keys, i2));
            if i1 < i2 {
                assert(!derives_too_deep(keys[i1]));
            }
            if i2 < i1 {
                assert(!derives_too_deep(keys[i2]));
            }
        }
    }
}

} // verus!
