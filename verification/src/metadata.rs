//! The metadata part of a deploy request: a JSON object from which the name,
//! the preferred subdomain, the build commands and the run command are
//! taken. JSON itself is read by `serde_json`; which members count, and what
//! a member of the wrong type means, is decided here.

use crate::text::{optional_text, texts_of};
use serde_json::Value;
use vstd::prelude::*;

verus! {

/// `serde_json::Value`, a parsed JSON document.
#[verifier::external_type_specification]
#[verifier::external_body]
pub struct ExValue(Value);

/// The document that `serde_json::from_slice` reads from `bytes`, or `None`
/// where it refuses them.
pub uninterp spec fn json_document(bytes: Seq<u8>) -> Option<Value>;

/// The member `key` of `doc` as `Value`'s `Index` gives it: `Null` where
/// `doc` is no object or has no such member.
pub uninterp spec fn json_member(doc: Value, key: Seq<char>) -> Value;

/// The text of `value` as `Value::as_str` gives it: `None` unless the value
/// is a string.
pub uninterp spec fn json_text(value: Value) -> Option<Seq<char>>;

/// The items of `value` as `Value::as_array` gives them: `None` unless the
/// value is an array.
pub uninterp spec fn json_items(value: Value) -> Option<Seq<Value>>;

/// Calls `serde_json::from_slice` for a `Value`. The result depends on the
/// bytes alone; the contract gives it its name.
#[verifier::external_body]
fn parse_json(bytes: &[u8]) -> (doc: Option<Value>)
    ensures
        doc == json_document(bytes@),
{
    serde_json::from_slice(bytes).ok()
}

/// Indexes `doc` by `key` through `Value`'s `Index`, which never fails: it
/// gives `Null` for a missing member and for a document that is no object.
#[verifier::external_body]
fn member<'a>(doc: &'a Value, key: &str) -> (value: &'a Value)
    ensures
        *value == json_member(*doc, key@),
{
    &doc[key]
}

/// Calls `Value::as_str`: the string that the value holds, if it is one.
#[verifier::external_body]
fn text_of<'a>(value: &'a Value) -> (text: Option<&'a str>)
    ensures
        match text {
            Some(t) => json_text(*value) == Some(t@),
            None => json_text(*value) is None,
        },
{
    value.as_str()
}

/// Calls `Value::as_array`: the items that the value holds, if it is an
/// array.
#[verifier::external_body]
fn items_of<'a>(value: &'a Value) -> (items: Option<&'a Vec<Value>>)
    ensures
        match items {
            Some(list) => json_items(*value) == Some(list@),
            None => json_items(*value) is None,
        },
{
    value.as_array()
}

/// The texts of a list of values: for each item its text if it is a string.
pub open spec fn item_texts(items: Seq<Value>) -> Seq<Option<Seq<char>>> {
    Seq::new(items.len(), |i: int| json_text(items[i]))
}

/// The text of the member `key` of `doc`: `None` unless `doc` is an object
/// that has the member and the member is a string.
pub open spec fn json_text_member(doc: Value, key: Seq<char>) -> Option<Seq<char>> {
    json_text(json_member(doc, key))
}

/// The items of the member `key` of `doc`: `None` unless `doc` is an object
/// that has the member and the member is an array; each item is its text if
/// it is a string and `None` otherwise.
pub open spec fn json_list_member(doc: Value, key: Seq<char>) -> Option<Seq<Option<Seq<char>>>> {
    match json_items(json_member(doc, key)) {
        Some(items) => Some(item_texts(items)),
        None => None,
    }
}

/// The views of a list of optional strings, in order.
pub open spec fn items_view(items: Seq<Option<String>>) -> Seq<Option<Seq<char>>> {
    Seq::new(items.len(), |i: int| optional_text(items[i]))
}

/// The view of a list of optional strings that may itself be missing.
pub open spec fn optional_items_view(items: Option<Vec<Option<String>>>) -> Option<
    Seq<Option<Seq<char>>>,
> {
    match items {
        Some(list) => Some(items_view(list@)),
        None => None,
    }
}

fn owned_text(text: Option<&str>) -> (owned: Option<String>)
    ensures
        optional_text(owned) == match text {
            Some(t) => Some(t@),
            None => None,
        },
{
    match text {
        Some(t) => Some(String::from_str(t)),
        None => None,
    }
}

fn text_member(doc: &Value, key: &str) -> (text: Option<String>)
    ensures
        optional_text(text) == json_text_member(*doc, key@),
{
    owned_text(text_of(member(doc, key)))
}

fn list_member(doc: &Value, key: &str) -> (items: Option<Vec<Option<String>>>)
    ensures
        optional_items_view(items) == json_list_member(*doc, key@),
{
    let list = match items_of(member(doc, key)) {
        Some(list) => list,
        None => {
            return None;
        },
    };
    let mut texts: Vec<Option<String>> = Vec::new();
    let mut i: usize = 0;
    while i < list.len()
        invariant
            i <= list.len(),
            texts@.len() == i,
            forall|j: int|
                0 <= j < i ==> optional_text(#[trigger] texts@[j]) == json_text(list@[j]),
        decreases list.len() - i,
    {
        texts.push(owned_text(text_of(&list[i])));
        i = i + 1;
    }
    Some(texts)
}

/// What a deploy request says about the project.
#[derive(Clone, Debug, PartialEq, Eq)]
pub struct Metadata {
    /// The project's display name.
    pub name: String,
    /// The subdomain that the request prefers, if it names one.
    pub project: Option<String>,
    /// The build commands, if the request lists any.
    pub build: Option<Vec<String>>,
    /// The run command, if the request gives one.
    pub run: Option<String>,
}

/// Metadata as plain values.
pub struct MetadataView {
    pub name: Seq<char>,
    pub project: Option<Seq<char>>,
    pub build: Option<Seq<Seq<char>>>,
    pub run: Option<Seq<char>>,
}

impl View for Metadata {
    type V = MetadataView;

    open spec fn view(&self) -> MetadataView {
        MetadataView {
            name: self.name@,
            project: optional_text(self.project),
            build: match self.build {
                Some(list) => Some(texts_of(list@)),
                None => None,
            },
            run: optional_text(self.run),
        }
    }
}

/// The display name of a project that gives none.
pub open spec fn default_project_name() -> Seq<char> {
    "Sparklane Cloud Project"@
}

/// The strings among the first `n` items, in order; items that are no
/// strings are left out.
pub open spec fn texts_among(items: Seq<Option<Seq<char>>>, n: nat) -> Seq<Seq<char>>
    decreases n,
{
    if n == 0 {
        Seq::empty()
    } else {
        let before = texts_among(items, (n - 1) as nat);
        match items[n - 1] {
            Some(text) => before.push(text),
            None => before,
        }
    }
}

/// The metadata that the four members of a request give.
pub open spec fn metadata_of_members(
    name: Option<Seq<char>>,
    project: Option<Seq<char>>,
    build: Option<Seq<Option<Seq<char>>>>,
    run: Option<Seq<char>>,
) -> MetadataView {
    MetadataView {
        name: match name {
            Some(n) => n,
            None => default_project_name(),
        },
        project,
        build: match build {
            Some(items) => Some(texts_among(items, items.len())),
            None => None,
        },
        run,
    }
}

/// The metadata of a parsed request: the members `name`, `project`, `build`
/// and `run`.
pub open spec fn metadata_of(doc: Value) -> MetadataView {
    metadata_of_members(
        json_text_member(doc, "name"@),
        json_text_member(doc, "project"@),
        json_list_member(doc, "build"@),
        json_text_member(doc, "run"@),
    )
}

fn strings_among(items: Vec<Option<String>>) -> (texts: Vec<String>)
    ensures
        texts_of(texts@) == texts_among(items_view(items@), items@.len()),
{
    let ghost all = items_view(items@);
    let mut texts: Vec<String> = Vec::new();
    for item in it: items.into_iter()
        invariant
            all == items_view(it.seq()),
            all.len() == it.seq().len(),
            texts_of(texts@) == texts_among(all, it.index() as nat),
    {
        match item {
            Some(text) => {
                texts.push(text);
            },
            None => {},
        }
    }
    texts
}

impl Metadata {
    /// The metadata for the four members of a request. A missing name becomes
    /// the default name; build items that are no strings are dropped.
    pub fn from_members(
        name: Option<String>,
        project: Option<String>,
        build: Option<Vec<Option<String>>>,
        run: Option<String>,
    ) -> (metadata: Metadata)
        ensures
            metadata@ == metadata_of_members(
                optional_text(name),
                optional_text(project),
                optional_items_view(build),
                optional_text(run),
            ),
    {
        let name = match name {
            Some(n) => n,
            None => String::from_str("Sparklane Cloud Project"),
        };
        let build = match build {
            Some(items) => Some(strings_among(items)),
            None => None,
        };
        Metadata { name, project, build, run }
    }

    /// Reads the metadata part of a request. Bytes that are no JSON document
    /// give `None`; any document gives metadata.
    pub fn decode(data: &[u8]) -> (metadata: Option<Metadata>)
        ensures
            match json_document(data@) {
                Some(doc) => metadata matches Some(m) && m@ == metadata_of(doc),
                None => metadata is None,
            },
    {
        match parse_json(data) {
            Some(doc) => {
                let name = text_member(&doc, "name");
                let project = text_member(&doc, "project");
                let build = list_member(&doc, "build");
                let run = text_member(&doc, "run");
                Some(Metadata::from_members(name, project, build, run))
            },
            None => None,
        }
    }
}

} // verus!
