//! The parts of a JSON document that the tool reads, and lookups in them.
//!
//! Parsing is done by `serde_json`; the library holds, of the parsed value,
//! what its logic reads: the members of the top-level object with the
//! compact JSON text of each member's value, and the members one level
//! further down with the string each of them holds.
use vstd::prelude::*;
use crate::text::{trim_char, trimmed};

verus! {

/// A member of an object nested in the top-level object.
pub struct JsonLeaf {
    pub key: String,
    /// The member's value when it is a JSON string.
    pub string: Option<String>,
}

/// A member of the top-level object.
pub struct JsonEntry {
    pub key: String,
    /// The member's value written as compact JSON text.
    pub text: String,
    /// The members of the value when it is an object, in the object's order.
    pub members: Option<Vec<JsonLeaf>>,
}

/// A parsed JSON document.
pub struct JsonDocument {
    /// The members of the top-level value when it is an object, in the
    /// object's order.
    pub members: Option<Vec<JsonEntry>>,
}

pub struct JsonLeafView {
    pub key: Seq<char>,
    pub string: Option<Seq<char>>,
}

pub struct JsonEntryView {
    pub key: Seq<char>,
    pub text: Seq<char>,
    pub members: Option<Seq<JsonLeafView>>,
}

pub struct JsonDocumentView {
    pub members: Option<Seq<JsonEntryView>>,
}

pub open spec fn opt_string_view(s: Option<String>) -> Option<Seq<char>> {
    match s {
        Some(t) => Some(t@),
        None => None,
    }
}

/// The views of a sequence of top-level members.
pub open spec fn entries_view(es: Seq<JsonEntry>) -> Seq<JsonEntryView> {
    es.map_values(|e: JsonEntry| e@)
}

/// The views of a sequence of nested members.
pub open spec fn leaves_view(ls: Seq<JsonLeaf>) -> Seq<JsonLeafView> {
    ls.map_values(|l: JsonLeaf| l@)
}

impl View for JsonLeaf {
    type V = JsonLeafView;

    open spec fn view(&self) -> JsonLeafView {
        JsonLeafView { key: self.key@, string: opt_string_view(self.string) }
    }
}

impl View for JsonEntry {
    type V = JsonEntryView;

    open spec fn view(&self) -> JsonEntryView {
        JsonEntryView {
            key: self.key@,
            text: self.text@,
            members: match self.members {
                Some(m) => Some(leaves_view(m@)),
                None => None,
            },
        }
    }
}

impl View for JsonDocument {
    type V = JsonDocumentView;

    open spec fn view(&self) -> JsonDocumentView {
        JsonDocumentView {
            members: match self.members {
                Some(m) => Some(entries_view(m@)),
                None => None,
            },
        }
    }
}

/// The document that `serde_json` parses from `text`, or `None` where
/// `text` is not JSON.
pub uninterp spec fn json_document(text: Seq<char>) -> Option<JsonDocumentView>;

#[verifier::external_type_specification]
#[verifier::external_body]
pub struct ExJsonError(serde_json::Error);

/// Why a JSON document could not be used.
#[derive(Debug, PartialEq, Eq, Structural, Clone, Copy)]
pub enum JsonError {
    /// The text is not a JSON document.
    Malformed,
}

/// Parses `text` with `serde_json::from_str` into a `serde_json::Value`
/// and keeps of it what the library reads.  The contract claims that the
/// call succeeds exactly where the name `json_document` has a document, and
/// that the result is that document; what the document holds for a given
/// text is not stated.
#[verifier::external_body]
fn parse_json_document(text: &str) -> (res: Result<JsonDocument, serde_json::Error>)
    ensures
        res is Ok <==> json_document(text@) is Some,
        res matches Ok(d) ==> json_document(text@) == Some(d@),
{
    let root: serde_json::Value = serde_json::from_str(text)?;
    Ok(JsonDocument { members: root.as_object().map(|map| map.iter().map(|(key, value)| JsonEntry {
        key: key.clone(),
        text: value.to_string(),
        members: value.as_object().map(|inner| inner.iter().map(|(k, v)| JsonLeaf {
            key: k.clone(),
            string: v.as_str().map(|s| s.to_string()),
        }).collect()),
    }).collect()) })
}

/// Parses a JSON document.
pub fn parse_document(text: &str) -> (res: Result<JsonDocument, JsonError>)
    ensures
        res is Err <==> json_document(text@) is None,
        res matches Ok(d) ==> json_document(text@) == Some(d@),
{
    match parse_json_document(text) {
        Ok(d) => Ok(d),
        Err(_) => Err(JsonError::Malformed),
    }
}

/// The first member of `entries` named `key`.
pub open spec fn find_entry(entries: Seq<JsonEntryView>, key: Seq<char>) -> Option<JsonEntryView>
    decreases entries.len(),
{
    if entries.len() == 0 {
        None
    } else if entries[0].key == key {
        Some(entries[0])
    } else {
        find_entry(entries.drop_first(), key)
    }
}

/// The first member of `leaves` named `key`.
pub open spec fn find_leaf(leaves: Seq<JsonLeafView>, key: Seq<char>) -> Option<JsonLeafView>
    decreases leaves.len(),
{
    if leaves.len() == 0 {
        None
    } else if leaves[0].key == key {
        Some(leaves[0])
    } else {
        find_leaf(leaves.drop_first(), key)
    }
}

proof fn lemma_find_entry(es: Seq<JsonEntryView>, key: Seq<char>, i: int)
    ensures
        0 <= i < es.len() && es[i].key == key && (forall|k: int| 0 <= k < i ==> es[k].key != key)
            ==> find_entry(es, key) == Some(es[i]),
        (forall|k: int| 0 <= k < es.len() ==> es[k].key != key) ==> find_entry(es, key) is None,
    decreases es.len(),
{
    if es.len() > 0 {
        lemma_find_entry(es.drop_first(), key, i - 1);
        if 0 < i < es.len() && es[i].key == key && (forall|k: int| 0 <= k < i ==> es[k].key != key) {
            assert(es[0].key != key);
            assert forall|k: int| 0 <= k < i - 1 implies es.drop_first()[k].key != key by {
                assert(es[k + 1].key != key);
            }
        }
        if forall|k: int| 0 <= k < es.len() ==> es[k].key != key {
            assert(es[0].key != key);
            assert forall|k: int| 0 <= k < es.drop_first().len() implies es.drop_first()[k].key
                != key by {
                assert(es[k + 1].key != key);
            }
        }
    }
}

proof fn lemma_find_leaf(ls: Seq<JsonLeafView>, key: Seq<char>, j: int)
    ensures
        0 <= j < ls.len() && ls[j].key == key && (forall|k: int| 0 <= k < j ==> ls[k].key != key)
            ==> find_leaf(ls, key) == Some(ls[j]),
        (forall|k: int| 0 <= k < ls.len() ==> ls[k].key != key) ==> find_leaf(ls, key) is None,
    decreases ls.len(),
{
    if ls.len() > 0 {
        lemma_find_leaf(ls.drop_first(), key, j - 1);
        if 0 < j < ls.len() && ls[j].key == key && (forall|k: int| 0 <= k < j ==> ls[k].key != key) {
            assert(ls[0].key != key);
            assert forall|k: int| 0 <= k < j - 1 implies ls.drop_first()[k].key != key by {
                assert(ls[k + 1].key != key);
            }
        }
        if forall|k: int| 0 <= k < ls.len() ==> ls[k].key != key {
            assert(ls[0].key != key);
            assert forall|k: int| 0 <= k < ls.drop_first().len() implies ls.drop_first()[k].key
                != key by {
                assert(ls[k + 1].key != key);
            }
        }
    }
}

/// Lookups go by name.  The value of `outer` is that of the first member
/// named `outer` (at position `i`), whatever the other members hold, and
/// the string at `outer`, `inner` is that of the first member named
/// `inner` (at position `j`) inside it; where no member has the name, or
/// the top level is not an object, there is none.
pub proof fn lookups_go_by_name(
    doc: JsonDocumentView,
    outer: Seq<char>,
    inner: Seq<char>,
    i: int,
    j: int,
)
    ensures
        doc.members is None ==> member_text(doc, outer) is None && nested_string(
            doc,
            outer,
            inner,
        ) is None,
        doc.members matches Some(es) ==> {
            &&& (forall|k: int| 0 <= k < es.len() ==> es[k].key != outer) ==> member_text(
                doc,
                outer,
            ) is None && nested_string(doc, outer, inner) is None
            &&& (0 <= i < es.len() && es[i].key == outer && forall|k: int|
                0 <= k < i ==> es[k].key != outer) ==> {
                &&& member_text(doc, outer) == Some(es[i].text)
                &&& es[i].members is None ==> nested_string(doc, outer, inner) is None
                &&& es[i].members matches Some(ls) ==> {
                    &&& (forall|k: int| 0 <= k < ls.len() ==> ls[k].key != inner)
                        ==> nested_string(doc, outer, inner) is None
                    &&& (0 <= j < ls.len() && ls[j].key == inner && forall|k: int|
                        0 <= k < j ==> ls[k].key != inner) ==> nested_string(doc, outer, inner)
                        == ls[j].string
                }
            }
        },
{
    if let Some(es) = doc.members {
        lemma_find_entry(es, outer, i);
        if 0 <= i < es.len() && es[i].key == outer && (forall|k: int|
            0 <= k < i ==> es[k].key != outer) {
            if let Some(ls) = es[i].members {
                lemma_find_leaf(ls, inner, j);
            }
        }
    }
}

/// The top-level member `key` of a document (`value.get(key)`).
pub open spec fn doc_member(doc: JsonDocumentView, key: Seq<char>) -> Option<JsonEntryView> {
    match doc.members {
        Some(es) => find_entry(es, key),
        None => None,
    }
}

/// The compact JSON text of the top-level member `key`, as
/// `value.get(key).map(|m| m.to_string())` gives it.
pub open spec fn member_text(doc: JsonDocumentView, key: Seq<char>) -> Option<Seq<char>> {
    match doc_member(doc, key) {
        Some(e) => Some(e.text),
        None => None,
    }
}

/// The string held at `doc[outer][inner]`, as
/// `value.get(outer)?.get(inner)?.as_str()` gives it.
pub open spec fn nested_string(doc: JsonDocumentView, outer: Seq<char>, inner: Seq<char>) -> Option<
    Seq<char>,
> {
    match doc_member(doc, outer) {
        Some(e) => match e.members {
            Some(ls) => match find_leaf(ls, inner) {
                Some(l) => l.string,
                None => None,
            },
            None => None,
        },
        None => None,
    }
}

impl JsonDocument {
    /// The top-level member named `key`.
    pub fn member(&self, key: &str) -> (r: Option<&JsonEntry>)
        ensures
            match r {
                Some(e) => doc_member(self@, key@) == Some(e@),
                None => doc_member(self@, key@) is None,
            },
    {
        match &self.members {
            None => None,
            Some(es) => {
                let ghost s = entries_view(es@);
                let mut i: usize = 0;
                assert(s.skip(0) =~= s);
                while i < es.len()
                    invariant
                        s == entries_view(es@),
                        self@.members == Some(s),
                        i <= es.len(),
                        find_entry(s, key@) == find_entry(s.skip(i as int), key@),
                    decreases es.len() - i,
                {
                    assert(s.skip(i as int)[0] == es@[i as int]@);
                    assert(s.skip(i as int).len() > 0);
                    if crate::text::str_eq(es[i].key.as_str(), key) {
                        assert(find_entry(s.skip(i as int), key@) == Some(es@[i as int]@));
                        return Some(&es[i]);
                    }
                    assert(s.skip(i as int).drop_first() =~= s.skip(i + 1));
                    i = i + 1;
                }
                None
            },
        }
    }
}

impl JsonEntry {
    /// The member named `key` of this member's object value.
    pub fn member(&self, key: &str) -> (r: Option<&JsonLeaf>)
        ensures
            match self@.members {
                Some(ls) => match r {
                    Some(l) => find_leaf(ls, key@) == Some(l@),
                    None => find_leaf(ls, key@) is None,
                },
                None => r is None,
            },
    {
        match &self.members {
            None => None,
            Some(ls) => {
                let ghost s = leaves_view(ls@);
                let mut i: usize = 0;
                assert(s.skip(0) =~= s);
                while i < ls.len()
                    invariant
                        s == leaves_view(ls@),
                        self@.members == Some(s),
                        i <= ls.len(),
                        find_leaf(s, key@) == find_leaf(s.skip(i as int), key@),
                    decreases ls.len() - i,
                {
                    assert(s.skip(i as int)[0] == ls@[i as int]@);
                    assert(s.skip(i as int).len() > 0);
                    if crate::text::str_eq(ls[i].key.as_str(), key) {
                        assert(find_leaf(s.skip(i as int), key@) == Some(ls@[i as int]@));
                        return Some(&ls[i]);
                    }
                    assert(s.skip(i as int).drop_first() =~= s.skip(i + 1));
                    i = i + 1;
                }
                None
            },
        }
    }
}

/// Whether `text` is a JSON document.
pub fn is_json(text: &str) -> (r: bool)
    ensures
        r == json_document(text@) is Some,
{
    parse_document(text).is_ok()
}

fn member_text_of(doc: &JsonDocument, option: &str) -> (r: Option<String>)
    ensures
        opt_string_view(r) == member_text(doc@, option@),
{
    match doc.member(option) {
        Some(e) => Some(e.text.clone()),
        None => None,
    }
}

fn nested_string_of(doc: &JsonDocument, outer: &str, inner: &str) -> (r: Option<String>)
    ensures
        opt_string_view(r) == nested_string(doc@, outer@, inner@),
{
    match doc.member(outer) {
        Some(e) => match e.member(inner) {
            Some(l) => match &l.string {
                Some(s) => Some(s.clone()),
                None => None,
            },
            None => None,
        },
        None => None,
    }
}

/// The value of the top-level member `option` of the JSON document
/// `contents`, written as compact JSON (so a string keeps its quotes), or
/// `None` where there is no such member.  `contents` must be JSON: the
/// tool stops ("JSON parse failed") on any other text, before this call.
pub fn parse_config(contents: &str, option: &str) -> (r: Option<String>)
    requires
        json_document(contents@) is Some,
    ensures
        opt_string_view(r) == member_text(json_document(contents@)->0, option@),
{
    match parse_document(contents) {
        Ok(doc) => member_text_of(&doc, option),
        Err(_) => {
            proof {
                assert(false);
            }
            None
        },
    }
}

/// `parse_config` where `contents` is JSON, and `Err(Malformed)` otherwise.
pub fn try_parse_config(contents: &str, option: &str) -> (r: Result<Option<String>, JsonError>)
    ensures
        r is Err <==> json_document(contents@) is None,
        r matches Ok(v) ==> opt_string_view(v) == member_text(json_document(contents@)->0, option@),
{
    if is_json(contents) {
        Ok(parse_config(contents, option))
    } else {
        Err(JsonError::Malformed)
    }
}

/// The mirror address that `rootfs_index` (the text of `rootfs.json`)
/// gives for `distribution` and `version`, or `None` where it gives none.
/// The index must be JSON: the tool stops ("JSON parse failed") on any
/// other text, before this call.
pub fn parse_rootfs(rootfs_index: &str, distribution: &str, version: &str) -> (r: Option<String>)
    requires
        json_document(rootfs_index@) is Some,
    ensures
        opt_string_view(r) == nested_string(
            json_document(rootfs_index@)->0,
            distribution@,
            version@,
        ),
{
    match parse_document(rootfs_index) {
        Ok(doc) => nested_string_of(&doc, distribution, version),
        Err(_) => {
            proof {
                assert(false);
            }
            None
        },
    }
}

/// `parse_rootfs` where the index is JSON, and `Err(Malformed)` otherwise.
pub fn try_parse_rootfs(rootfs_index: &str, distribution: &str, version: &str) -> (r: Result<
    Option<String>,
    JsonError,
>)
    ensures
        r is Err <==> json_document(rootfs_index@) is None,
        r matches Ok(v) ==> opt_string_view(v) == nested_string(
            json_document(rootfs_index@)->0,
            distribution@,
            version@,
        ),
{
    if is_json(rootfs_index) {
        Ok(parse_rootfs(rootfs_index, distribution, version))
    } else {
        Err(JsonError::Malformed)
    }
}

/// Why a configuration value could not be read.
#[derive(Debug, PartialEq, Eq)]
pub enum ConfigError {
    /// The configuration is not a JSON document.
    Malformed,
    /// The configuration has no member of this name.
    Missing(String),
}

/// The configuration value `key` of a parsed document: the member's JSON
/// text with every leading and trailing quote removed.
pub open spec fn setting(doc: JsonDocumentView, key: Seq<char>) -> Option<Seq<char>> {
    match member_text(doc, key) {
        Some(t) => Some(trimmed(t, '"')),
        None => None,
    }
}

/// A configuration value is the member's JSON text with the quotes around
/// it removed, and there is a value exactly where there is a member.
pub proof fn settings_strip_quotes(doc: JsonDocumentView, key: Seq<char>)
    ensures
        member_text(doc, key) matches Some(t) ==> setting(doc, key) == Some(trimmed(t, '"')),
        member_text(doc, key) is None ==> setting(doc, key) is None,
{
}

/// The configuration value `key` of the configuration text `config`, as
/// `parse_config` followed by `trim_matches('"')` gives it.
pub fn read_setting(config: &str, key: &str) -> (r: Result<String, ConfigError>)
    ensures
        json_document(config@) is None ==> r == Err::<String, ConfigError>(ConfigError::Malformed),
        json_document(config@) is Some ==> match r {
            Ok(s) => setting(json_document(config@)->0, key@) == Some(s@),
            Err(ConfigError::Missing(k)) => k@ == key@ && setting(
                json_document(config@)->0,
                key@,
            ) is None,
            Err(ConfigError::Malformed) => false,
        },
{
    match try_parse_config(config, key) {
        Err(_) => Err(ConfigError::Malformed),
        Ok(None) => Err(ConfigError::Missing(String::from_str(key))),
        Ok(Some(t)) => Ok(trim_char(t.as_str(), '"')),
    }
}

/// Whether the configuration text `config` is JSON and has the value `key`.
pub fn has_setting(config: &str, key: &str) -> (r: bool)
    ensures
        r == (json_document(config@) is Some && setting(json_document(config@)->0, key@) is Some),
{
    read_setting(config, key).is_ok()
}

/// The configuration value `key` of a configuration that has it.
pub(crate) fn setting_of(config: &str, key: &str) -> (r: String)
    requires
        json_document(config@) is Some,
        setting(json_document(config@)->0, key@) is Some,
    ensures
        setting(json_document(config@)->0, key@) == Some(r@),
{
    match read_setting(config, key) {
        Ok(s) => s,
        Err(_) => {
            proof {
                assert(false);
            }
            String::new()
        },
    }
}

} // verus!
