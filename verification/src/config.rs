//! The persisted key material: two ordered lists of key encodings in a
//! structured text document.
//!
//! The document is read and written by the `toml` crate. What this module
//! adds is the schema, which names exactly two lists and refuses anything
//! else, a bound on how deep a document may nest, and the check that a
//! document is handed out for writing only where reading it back gives the
//! same lists.

use crate::text::texts;
use serde::Serializer;
use std::collections::BTreeMap;
use vstd::prelude::*;
use vstd::string::*;
use vstd::utf8::encode_utf8;

verus! {

/// The name of the list of signing keys in the document.
pub const SECRET_KEYS_FIELD: &'static str = "secret_keys";

/// The name of the list of watch-only keys in the document.
pub const PUBLIC_KEYS_FIELD: &'static str = "public_keys";

/// The most nesting marks that a document may hold. A document of the two
/// lists holds two.
pub const MAX_NESTING_MARKS: usize = 64;

/// The key material of a wallet: the encodings of its signing keys and of
/// its watch-only keys, each in a fixed order.
#[derive(Debug)]
pub struct KeyMaterialConfig {
    pub secret_keys: Vec<String>,
    pub public_keys: Vec<String>,
}

/// What a key material configuration holds.
pub ghost struct ConfigView {
    pub secret_keys: Seq<Seq<char>>,
    pub public_keys: Seq<Seq<char>>,
}

/// A named list of strings of a document.
#[derive(Debug)]
pub struct Section {
    pub name: String,
    pub items: Vec<String>,
}

/// One of the two lists of the document.
#[derive(Clone, Copy, Debug, PartialEq, Eq, Structural)]
pub enum Field {
    SecretKeys,
    PublicKeys,
}

/// Why a document is no key material configuration, or why none was written.
#[derive(Clone, Copy, Debug, PartialEq, Eq, Structural)]
pub enum ConfigError {
    /// The text is no document of named lists of strings.
    Malformed,
    /// The document names something that is neither of the two lists.
    UnknownField,
    /// The document lacks one of the two lists.
    MissingField { field: Field },
    /// The document names a list more than once.
    DuplicateField,
    /// The lists could not be written as a document.
    Unwritable,
    /// The written document does not read back as the same lists.
    Unstable,
}

impl View for KeyMaterialConfig {
    type V = ConfigView;

    open spec fn view(&self) -> ConfigView {
        ConfigView { secret_keys: texts(self.secret_keys@), public_keys: texts(self.public_keys@) }
    }
}

impl View for Section {
    type V = (Seq<char>, Seq<Seq<char>>);

    open spec fn view(&self) -> (Seq<char>, Seq<Seq<char>>) {
        (self.name@, texts(self.items@))
    }
}

/// The views of a sequence of sections, in order.
pub open spec fn section_views(sections: Seq<Section>) -> Seq<(Seq<char>, Seq<Seq<char>>)> {
    Seq::new(sections.len(), |i: int| sections[i]@)
}

/// A place of an encoded text that may open a level of nesting: a period,
/// which may part a dotted name, or an opening bracket or brace that does not
/// directly follow a quote. Behind a quote a bracket is the first character
/// of a string, or out of place.
pub open spec fn is_nesting_mark(bytes: Seq<u8>, i: int) -> bool
    recommends
        0 <= i < bytes.len(),
{
    ||| bytes[i] == 0x2e
    ||| (bytes[i] == 0x5b || bytes[i] == 0x7b) && (i == 0 || (bytes[i - 1] != 0x22 && bytes[i - 1] != 0x27))
}

/// The number of nesting marks of an encoded text. No document nests deeper
/// than its text has marks.
pub open spec fn nesting_marks(bytes: Seq<u8>) -> nat
    decreases bytes.len(),
{
    if bytes.len() == 0 {
        0
    } else {
        nesting_marks(bytes.drop_last()) + if is_nesting_mark(bytes, bytes.len() - 1) {
            1nat
        } else {
            0nat
        }
    }
}

/// A text with no more nesting marks than a document may hold.
pub open spec fn is_shallow(text: Seq<char>) -> bool {
    nesting_marks(encode_utf8(text)) <= MAX_NESTING_MARKS
}

/// The named lists that a text holds as a document, in the order of their
/// names, where the text is a document of named lists of strings.
pub uninterp spec fn toml_decoded(text: Seq<char>) -> Option<Seq<(Seq<char>, Seq<Seq<char>>)>>;

/// The document that holds the given named lists in the order given, where
/// they can be written.
pub uninterp spec fn toml_encoded(sections: Seq<(Seq<char>, Seq<Seq<char>>)>) -> Option<Seq<char>>;

/// Every section is one of the two lists.
pub open spec fn all_known(sections: Seq<(Seq<char>, Seq<Seq<char>>)>) -> bool {
    forall|i: int|
        0 <= i < sections.len() ==> (#[trigger] sections[i]).0 == SECRET_KEYS_FIELD@ || sections[i].0
            == PUBLIC_KEYS_FIELD@
}

/// Some section has the given name.
pub open spec fn has_section(sections: Seq<(Seq<char>, Seq<Seq<char>>)>, name: Seq<char>) -> bool {
    exists|i: int| 0 <= i < sections.len() && (#[trigger] sections[i]).0 == name
}

/// The configuration that named lists stand for under the schema: exactly
/// the two lists, in either order, and nothing else.
pub open spec fn schema_verdict(sections: Seq<(Seq<char>, Seq<Seq<char>>)>) -> Result<
    ConfigView,
    ConfigError,
> {
    if !all_known(sections) {
        Err(ConfigError::UnknownField)
    } else if !has_section(sections, SECRET_KEYS_FIELD@) {
        Err(ConfigError::MissingField { field: Field::SecretKeys })
    } else if !has_section(sections, PUBLIC_KEYS_FIELD@) {
        Err(ConfigError::MissingField { field: Field::PublicKeys })
    } else if sections.len() != 2 {
        Err(ConfigError::DuplicateField)
    } else if sections[0].0 == SECRET_KEYS_FIELD@ {
        Ok(ConfigView { secret_keys: sections[0].1, public_keys: sections[1].1 })
    } else {
        Ok(ConfigView { secret_keys: sections[1].1, public_keys: sections[0].1 })
    }
}

/// The configuration that a text stands for. A text with more nesting marks
/// than a document may hold stands for none.
pub open spec fn parse_verdict(text: Seq<char>) -> Result<ConfigView, ConfigError> {
    if !is_shallow(text) {
        Err(ConfigError::Malformed)
    } else {
        match toml_decoded(text) {
            None => Err(ConfigError::Malformed),
            Some(sections) => schema_verdict(sections),
        }
    }
}

/// The two named lists of a configuration, signing keys first.
pub open spec fn sections_of(config: ConfigView) -> Seq<(Seq<char>, Seq<Seq<char>>)> {
    seq![(SECRET_KEYS_FIELD@, config.secret_keys), (PUBLIC_KEYS_FIELD@, config.public_keys)]
}

/// The document of a configuration: what the lists are written as, where
/// that reads back as the same configuration.
pub open spec fn serialize_verdict(config: ConfigView) -> Result<Seq<char>, ConfigError> {
    match toml_encoded(sections_of(config)) {
        None => Err(ConfigError::Unwritable),
        Some(text) => if parse_verdict(text) == Ok::<ConfigView, ConfigError>(config) {
            Ok(text)
        } else {
            Err(ConfigError::Unstable)
        },
    }
}

/// `r` holds what `expected` says.
pub open spec fn config_matches(
    expected: Result<ConfigView, ConfigError>,
    r: Result<KeyMaterialConfig, ConfigError>,
) -> bool {
    match expected {
        Ok(v) => r matches Ok(c) && c@ == v,
        Err(e) => r matches Err(f) && f == e,
    }
}

/// `r` holds what `expected` says.
pub open spec fn text_matches(
    expected: Result<Seq<char>, ConfigError>,
    r: Result<String, ConfigError>,
) -> bool {
    match expected {
        Ok(v) => r matches Ok(t) && t@ == v,
        Err(e) => r matches Err(f) && f == e,
    }
}

/// Reads a document of named lists of strings.
///
/// Calls `toml::from_str` for a value, which refuses a name that occurs
/// twice, and the value's `try_into` for a map from names to lists of strings;
/// the entries are handed out in the map's order. The parser descends once
/// for each array and inline table, which open behind an equals sign, a
/// comma, a bracket or blank space, and once for each part of a dotted name,
/// and it sets no limit of its own: texts with more nesting marks than the
/// bound are left out. The contract claims only that the lists, or the
/// refusal, are the same on every call with the same text.
#[verifier::external_body]
fn decode_sections(text: &str) -> (r: Option<Vec<Section>>)
    requires
        is_shallow(text@),
    ensures
        match r {
            Some(sections) => toml_decoded(text@) == Some(section_views(sections@)),
            None => toml_decoded(text@) is None,
        },
{
    let value = toml::from_str::<toml::Value>(text).ok()?;
    let map: BTreeMap<String, Vec<String>> = value.try_into().ok()?;
    Some(map.into_iter().map(|(name, items)| Section { name, items }).collect())
}

/// Writes named lists of strings as a document, in the order given.
///
/// Calls serde's `Serializer::collect_map` on toml's `Serializer` with the
/// names and their lists, as `toml::to_string` does for a map. The contract
/// claims only that the document, or the refusal, is the same on every call
/// with the same lists.
#[verifier::external_body]
fn encode_sections(sections: &Vec<Section>) -> (r: Option<String>)
    ensures
        match r {
            Some(text) => toml_encoded(section_views(sections@)) == Some(text@),
            None => toml_encoded(section_views(sections@)) is None,
        },
{
    let mut text = String::new();
    let mut writer = toml::Serializer::new(&mut text);
    (&mut writer).collect_map(sections.iter().map(|s| (&s.name, &s.items))).ok()?;
    Some(text)
}

/// Counts the nesting marks of a text.
pub fn count_nesting_marks(text: &str) -> (n: usize)
    ensures
        n == nesting_marks(encode_utf8(text@)),
{
    let bytes = text.as_bytes();
    let mut n: usize = 0;
    let mut i: usize = 0;
    assert(bytes@.take(0) =~= Seq::<u8>::empty());
    while i < bytes.len()
        invariant
            i <= bytes.len(),
            n <= i,
            n == nesting_marks(bytes@.take(i as int)),
        decreases bytes.len() - i,
    {
        let b = bytes[i];
        let behind_quote = i > 0 && (bytes[i - 1] == 0x22 || bytes[i - 1] == 0x27);
        proof {
            let now = bytes@.take(i + 1);
            assert(now.drop_last() =~= bytes@.take(i as int));
            assert(now[i as int] == bytes@[i as int]);
            if i > 0 {
                assert(now[i - 1] == bytes@[i - 1]);
            }
        }
        if b == 0x2e || ((b == 0x5b || b == 0x7b) && !behind_quote) {
            n = n + 1;
        }
        i = i + 1;
    }
    assert(bytes@.take(i as int) =~= bytes@);
    n
}

/// Tells whether two lists of strings hold the same strings in the same order.
pub fn same_strings(a: &Vec<String>, b: &Vec<String>) -> (same: bool)
    ensures
        same == (texts(a@) == texts(b@)),
{
    if a.len() != b.len() {
        assert(texts(a@).len() != texts(b@).len());
        return false;
    }
    let mut i: usize = 0;
    while i < a.len()
        invariant
            i <= a.len(),
            a.len() == b.len(),
            forall|j: int| 0 <= j < i ==> texts(a@)[j] == texts(b@)[j],
        decreases a.len() - i,
    {
        if a[i] != b[i] {
            assert(texts(a@)[i as int] != texts(b@)[i as int]);
            return false;
        }
        i = i + 1;
    }
    assert(texts(a@) =~= texts(b@));
    true
}

impl KeyMaterialConfig {
    /// Tells whether two configurations hold the same keys in the same order.
    pub fn same_as(&self, other: &KeyMaterialConfig) -> (same: bool)
        ensures
            same == (self@ == other@),
    {
        same_strings(&self.secret_keys, &other.secret_keys) && same_strings(
            &self.public_keys,
            &other.public_keys,
        )
    }

    /// The configuration that named lists stand for: they must be exactly the
    /// list of signing keys and the list of watch-only keys.
    pub fn from_sections(sections: Vec<Section>) -> (r: Result<KeyMaterialConfig, ConfigError>)
        ensures
            config_matches(schema_verdict(section_views(sections@)), r),
    {
        let ghost views = section_views(sections@);
        let secret_name = String::from_str(SECRET_KEYS_FIELD);
        let public_name = String::from_str(PUBLIC_KEYS_FIELD);
        let mut has_secret = false;
        let mut has_public = false;
        let mut i: usize = 0;
        while i < sections.len()
            invariant
                i <= sections.len(),
                views == section_views(sections@),
                secret_name@ == SECRET_KEYS_FIELD@,
                public_name@ == PUBLIC_KEYS_FIELD@,
                all_known(views.take(i as int)),
                has_secret == has_section(views.take(i as int), SECRET_KEYS_FIELD@),
                has_public == has_section(views.take(i as int), PUBLIC_KEYS_FIELD@),
            decreases sections.len() - i,
        {
            let is_secret = sections[i].name == secret_name;
            let is_public = sections[i].name == public_name;
            let ghost before = views.take(i as int);
            let ghost after = views.take(i + 1);
            assert(after[i as int] == views[i as int]);
            assert(views[i as int].0 == sections@[i as int].name@);
            assert forall|j: int| 0 <= j < i implies #[trigger] after[j] == before[j] by {}
            if !is_secret && !is_public {
                assert(!all_known(views));
                return Err(ConfigError::UnknownField);
            }
            proof {
                if has_section(before, SECRET_KEYS_FIELD@) {
                    let w = choose|w: int|
                        0 <= w < before.len() && (#[trigger] before[w]).0 == SECRET_KEYS_FIELD@;
                    assert(after[w].0 == SECRET_KEYS_FIELD@);
                }
                if has_section(before, PUBLIC_KEYS_FIELD@) {
                    let w = choose|w: int|
                        0 <= w < before.len() && (#[trigger] before[w]).0 == PUBLIC_KEYS_FIELD@;
                    assert(after[w].0 == PUBLIC_KEYS_FIELD@);
                }
                if has_section(after, SECRET_KEYS_FIELD@) && !is_secret {
                    let w = choose|w: int|
                        0 <= w < after.len() && (#[trigger] after[w]).0 == SECRET_KEYS_FIELD@;
                    assert(before[w].0 == SECRET_KEYS_FIELD@);
                }
                if has_section(after, PUBLIC_KEYS_FIELD@) && !is_public {
                    let w = choose|w: int|
                        0 <= w < after.len() && (#[trigger] after[w]).0 == PUBLIC_KEYS_FIELD@;
                    assert(before[w].0 == PUBLIC_KEYS_FIELD@);
                }
            }
            has_secret = has_secret || is_secret;
            has_public = has_public || is_public;
            i = i + 1;
        }
        assert(views.take(i as int) =~= views);
        if !has_secret {
            return Err(ConfigError::MissingField { field: Field::SecretKeys });
        }
        if !has_public {
            return Err(ConfigError::MissingField { field: Field::PublicKeys });
        }
        if sections.len() != 2 {
            return Err(ConfigError::DuplicateField);
        }
        let mut sections = sections;
        let second = sections.pop().unwrap();
        let first = sections.pop().unwrap();
        assert(first@ == views[0] && second@ == views[1]);
        if first.name == secret_name {
            Ok(KeyMaterialConfig { secret_keys: first.items, public_keys: second.items })
        } else {
            Ok(KeyMaterialConfig { secret_keys: second.items, public_keys: first.items })
        }
    }

    /// Reads a configuration from the text of a document. Nothing is made up
    /// for a document that cannot be read: the error says what is wrong. A
    /// text that might nest deeper than a document may is refused unread.
    pub fn parse(text: &str) -> (r: Result<KeyMaterialConfig, ConfigError>)
        ensures
            config_matches(parse_verdict(text@), r),
    {
        if count_nesting_marks(text) > MAX_NESTING_MARKS {
            return Err(ConfigError::Malformed);
        }
        match decode_sections(text) {
            None => Err(ConfigError::Malformed),
            Some(sections) => KeyMaterialConfig::from_sections(sections),
        }
    }

    /// Decides whether a written document can be handed out: only where it
    /// reads back as this configuration.
    pub fn confirm(&self, written: Option<String>, read_back: Result<KeyMaterialConfig, ConfigError>) -> (r:
        Result<String, ConfigError>)
        ensures
            match written {
                None => r == Err::<String, ConfigError>(ConfigError::Unwritable),
                Some(text) => if read_back matches Ok(c) && c@ == self@ {
                    r matches Ok(t) && t@ == text@
                } else {
                    r == Err::<String, ConfigError>(ConfigError::Unstable)
                },
            },
    {
        match written {
            None => Err(ConfigError::Unwritable),
            Some(text) => match read_back {
                Ok(c) => if self.same_as(&c) {
                    Ok(text)
                } else {
                    Err(ConfigError::Unstable)
                },
                Err(_) => Err(ConfigError::Unstable),
            },
        }
    }

    /// Writes the configuration as the text of a document. The text is handed
    /// out only where reading it gives this configuration again, the same
    /// keys in the same order.
    pub fn serialize(&self) -> (r: Result<String, ConfigError>)
        ensures
            text_matches(serialize_verdict(self@), r),
            r matches Ok(text) ==> parse_verdict(text@) == Ok::<ConfigView, ConfigError>(self@),
    {
        let mut sections: Vec<Section> = Vec::new();
        sections.push(
            Section { name: String::from_str(SECRET_KEYS_FIELD), items: clone_strings(&self.secret_keys) },
        );
        sections.push(
            Section { name: String::from_str(PUBLIC_KEYS_FIELD), items: clone_strings(&self.public_keys) },
        );
        assert(section_views(sections@) =~= sections_of(self@));
        let written = encode_sections(&sections);
        let read_back = match &written {
            Some(text) => KeyMaterialConfig::parse(text.as_str()),
            None => Err(ConfigError::Unwritable),
        };
        self.confirm(written, read_back)
    }
}

/// A copy of a list of strings.
pub fn clone_strings(items: &Vec<String>) -> (out: Vec<String>)
    ensures
        texts(out@) == texts(items@),
{
    let mut out: Vec<String> = Vec::new();
    let mut i: usize = 0;
    while i < items.len()
        invariant
            i <= items.len(),
            out@.len() == i,
            forall|j: int| 0 <= j < i ==> out@[j]@ == items@[j]@,
        decreases items.len() - i,
    {
        out.push(items[i].clone());
        i = i + 1;
    }
    assert(texts(out@) =~= texts(items@));
    out
}

/// Writing and reading are inverse: whatever document `serialize` hands out
/// for a configuration, `parse` reads it as the same configuration, the same
/// key strings in the same order.
pub proof fn lemma_round_trip(config: ConfigView, text: Seq<char>)
    requires
        serialize_verdict(config) == Ok::<Seq<char>, ConfigError>(text),
    ensures
        parse_verdict(text) == Ok::<ConfigView, ConfigError>(config),
{
}

/// A document is accepted only where it holds the two lists and nothing
/// else: whatever `parse` accepts has exactly two sections.
pub proof fn lemma_schema_is_closed(sections: Seq<(Seq<char>, Seq<Seq<char>>)>)
    requires
        schema_verdict(sections) is Ok,
    ensures
        sections.len() == 2,
        all_known(sections),
        has_section(sections, SECRET_KEYS_FIELD@),
        has_section(sections, PUBLIC_KEYS_FIELD@),
{
}

} // verus!
