//! The configuration: a YAML text of sections, each a list of keys with their
//! values. The text is parsed by the `yaml-rust` crate.

use vstd::prelude::*;
use vstd::string::StringSliceAdditionalSpecFns;
use yaml_rust::{ScanError, Yaml, YamlLoader};

verus! {

/// A node of a YAML document, `yaml_rust::Yaml`. Nothing is seen inside it.
#[verifier::external_type_specification]
#[verifier::external_body]
pub struct ExYaml(yaml_rust::Yaml);

/// Why a text is no YAML, `yaml_rust::ScanError`.
#[verifier::external_type_specification]
#[verifier::external_body]
pub struct ExScanError(yaml_rust::ScanError);

/// What a document holds two levels down: for a section and a key of that
/// section, the string under the key.
pub type Entries = Map<(Seq<char>, Seq<char>), Seq<char>>;

/// The entries of each document that `YamlLoader::load_from_str` finds in a
/// text; none for a text that it refuses.
pub uninterp spec fn yaml_documents(source: Seq<char>) -> Option<Seq<Entries>>;

/// The entries of a document: the strings that are reached by indexing it
/// with a section and the result with a key.
pub uninterp spec fn yaml_entries(document: Yaml) -> Entries;

/// The entries of each of the documents, in order.
pub open spec fn entries_of(documents: Seq<Yaml>) -> Seq<Entries> {
    documents.map_values(|d: Yaml| yaml_entries(d))
}

/// The greatest length, in bytes, of a text that is handed to the parser.
pub const MAX_CONFIG_LENGTH: usize = 65536;

/// The greatest number of nesting marks in a text that is handed to the
/// parser.
pub const MAX_NESTING_MARKS: usize = 128;

/// Whether a byte is one of the characters that can open a level of nesting
/// in YAML: `-`, `?`, `:`, `[` and `{`.
pub open spec fn is_nesting_mark(byte: u8) -> bool {
    byte == 0x2d || byte == 0x3f || byte == 0x3a || byte == 0x5b || byte == 0x7b
}

/// How many of the bytes are nesting marks.
pub open spec fn nesting_marks(bytes: Seq<u8>) -> nat
    decreases bytes.len(),
{
    if bytes.len() == 0 {
        0
    } else {
        nesting_marks(bytes.drop_last()) + if is_nesting_mark(bytes.last()) {
            1nat
        } else {
            0nat
        }
    }
}

/// A text is handed to the parser where it is neither too long nor marked
/// for nesting too often.
pub open spec fn admissible(bytes: Seq<u8>) -> bool {
    bytes.len() <= MAX_CONFIG_LENGTH && nesting_marks(bytes) <= MAX_NESTING_MARKS
}

/// Whether the text with these bytes is handed to the parser.
pub fn is_admissible(bytes: &[u8]) -> (r: bool)
    ensures
        r == admissible(bytes@),
{
    if bytes.len() > MAX_CONFIG_LENGTH {
        return false;
    }
    let mut marks: usize = 0;
    let mut i: usize = 0;
    proof {
        assert(bytes@.take(0) =~= Seq::<u8>::empty());
    }
    while i < bytes.len()
        invariant
            i <= bytes.len(),
            marks <= i,
            marks == nesting_marks(bytes@.take(i as int)),
        decreases bytes.len() - i,
    {
        proof {
            assert(bytes@.take(i + 1).drop_last() =~= bytes@.take(i as int));
            assert(bytes@.take(i + 1).last() == bytes@[i as int]);
        }
        let byte = bytes[i];
        if byte == 0x2d || byte == 0x3f || byte == 0x3a || byte == 0x5b || byte == 0x7b {
            marks += 1;
        }
        i += 1;
    }
    proof {
        assert(bytes@.take(bytes.len() as int) =~= bytes@);
    }
    marks <= MAX_NESTING_MARKS
}

/// Calls `YamlLoader::load_from_str`, which parses a text into its documents
/// or says why it is no YAML. The result depends on the text alone. The
/// crate's loader calls itself once for every level of nesting, so a text
/// that nests deeply enough exhausts the stack. The crate's scanner opens a
/// level only on one of the characters `-`, `?`, `:`, `[` and `{`, and on
/// each of them at most once; the precondition bounds their number, and so
/// the depth, and bounds the length of the text.
#[verifier::external_body]
fn load_from_str(source: &str) -> (r: Result<Vec<Yaml>, ScanError>)
    requires
        admissible(source.spec_bytes()),
    ensures
        match r {
            Ok(documents) => yaml_documents(source@) == Some(entries_of(documents@)),
            Err(_) => yaml_documents(source@) is None,
        },
{
    YamlLoader::load_from_str(source)
}

/// Indexes a document with `field` and the result with `key`, through the
/// crate's `Index<&str>`, and takes the string there with `Yaml::as_str`.
/// Indexing gives the crate's bad value, which is no string, for anything
/// that is no hash or lacks the key, so nothing panics.
#[verifier::external_body]
fn entry(document: &Yaml, field: &str, key: &str) -> (r: Option<String>)
    ensures
        r is Some <==> yaml_entries(*document).contains_key((field@, key@)),
        r matches Some(value) ==> value@ == yaml_entries(*document)[(field@, key@)],
{
    match document[field][key].as_str() {
        Some(value) => Some(value.to_owned()),
        None => None,
    }
}

/// The section that holds what is needed to reach the feed.
pub open spec fn trafiklab_section() -> Seq<char> {
    "trafiklab_api"@
}

/// The section that holds what is needed to reach the store.
pub open spec fn database_section() -> Seq<char> {
    "database"@
}

/// The reason given for a text that is not handed to the parser.
pub open spec fn refused_text() -> Seq<char> {
    "The contents of the config file are too long or nested too deeply."@
}

/// The reason given for a text that is no YAML.
pub open spec fn parse_failure_text() -> Seq<char> {
    "Could not parse contents of the config file into YAML."@
}

/// The value under `key` in the section `field` of the first document; none
/// where nothing is loaded or there is no such string.
pub open spec fn config_value(documents: Seq<Entries>, field: Seq<char>, key: Seq<char>)
    -> Option<Seq<char>> {
    if documents.len() > 0 && documents[0].contains_key((field, key)) {
        Some(documents[0][(field, key)])
    } else {
        None
    }
}

/// The characters of an optional string.
pub open spec fn value_view(value: Option<String>) -> Option<Seq<char>> {
    match value {
        Some(s) => Some(s@),
        None => None,
    }
}

/// The parsed configuration.
pub struct Config {
    documents: Vec<Yaml>,
}

impl Config {
    /// The entries of the documents that are loaded.
    pub closed spec fn documents(&self) -> Seq<Entries> {
        entries_of(self.documents@)
    }

    /// A configuration with nothing loaded.
    pub fn new() -> (r: Self)
        ensures
            r.documents().len() == 0,
    {
        Config { documents: Vec::new() }
    }

    /// Loads the configuration from the text of a configuration file. A text
    /// that is not [`admissible`] is refused unread, and a text that is no
    /// YAML is refused; both leave what was loaded before.
    pub fn load_config(&mut self, contents: &str) -> (r: Result<(), String>)
        ensures
            !admissible(contents.spec_bytes()) ==> final(self).documents() == old(
                self,
            ).documents() && (r matches Err(reason) && reason@ == refused_text()),
            admissible(contents.spec_bytes()) ==> match yaml_documents(contents@) {
                Some(documents) => r is Ok && final(self).documents() == documents,
                None => final(self).documents() == old(self).documents() && (r matches Err(
                    reason,
                ) && reason@ == parse_failure_text()),
            },
    {
        if !is_admissible(contents.as_bytes()) {
            return Err(
                "The contents of the config file are too long or nested too deeply.".to_owned(),
            );
        }
        match load_from_str(contents) {
            Ok(documents) => {
                self.documents = documents;
                Ok(())
            },
            Err(_) => Err("Could not parse contents of the config file into YAML.".to_owned()),
        }
    }

    /// The value under `key` in the section `field`.
    pub fn get_config_value(&self, field: &str, key: &str) -> (r: Option<String>)
        ensures
            value_view(r) == config_value(self.documents(), field@, key@),
    {
        if self.documents.len() == 0 {
            return None;
        }
        entry(&self.documents[0], field, key)
    }

    /// The value under `key` in the section of the feed.
    pub fn get_trafiklab_value(&self, key: &str) -> (r: Option<String>)
        ensures
            value_view(r) == config_value(self.documents(), trafiklab_section(), key@),
    {
        self.get_config_value("trafiklab_api", key)
    }

    /// The value under `key` in the section of the store.
    pub fn get_database_value(&self, key: &str) -> (r: Option<String>)
        ensures
            value_view(r) == config_value(self.documents(), database_section(), key@),
    {
        self.get_config_value("database", key)
    }
}

} // verus!
