//! Lists of candidates as they are published: a YAML document that holds a
//! sequence of addresses under one key.

use crate::text::join;
use vstd::prelude::*;
use vstd::string::*;

verus! {

/// What was found under a key of a YAML document.
#[derive(Debug, Clone, PartialEq, Eq)]
pub enum YamlList {
    /// The document is no YAML; `reason` says why.
    Invalid { reason: String },
    /// The document holds no sequence under the key.
    Missing,
    /// The items of the sequence, in order: the text of each item that is a
    /// string, `None` for each that is not.
    Items(Vec<Option<String>>),
}

/// What a [`YamlList`] says.
pub enum YamlListView {
    Invalid { reason: Seq<char> },
    Missing,
    Items(Seq<Option<Seq<char>>>),
}

/// The texts of `items`.
pub open spec fn item_texts(items: Seq<Option<String>>) -> Seq<Option<Seq<char>>> {
    Seq::new(
        items.len(),
        |i: int|
            match items[i] {
                Some(s) => Some(s@),
                None => None,
            },
    )
}

impl View for YamlList {
    type V = YamlListView;

    open spec fn view(&self) -> YamlListView {
        match self {
            YamlList::Invalid { reason } => YamlListView::Invalid { reason: reason@ },
            YamlList::Missing => YamlListView::Missing,
            YamlList::Items(items) => YamlListView::Items(item_texts(items@)),
        }
    }
}

/// What the `serde_yaml` crate finds in `content` under `key`: `Invalid` with
/// the text of the error where `serde_yaml::from_str` refuses the document,
/// `Missing` where `Value::as_sequence` gives nothing for the value that
/// indexing by `key` gives, else the items of that sequence, each as
/// `Value::as_str` gives it.
pub uninterp spec fn yaml_list(content: Seq<char>, key: Seq<char>) -> YamlListView;

/// Parses `content` with `serde_yaml::from_str`, indexes the value by `key`
/// and copies out the sequence found there, item by item through
/// `Value::as_str`. All of it depends on `content` and `key` alone; the
/// contract gives the result its name and says nothing of what it is.
#[verifier::external_body]
pub(crate) fn yaml_list_of(content: &str, key: &str) -> (found: YamlList)
    ensures
        found@ == yaml_list(content@, key@),
{
    match serde_yaml::from_str::<serde_yaml::Value>(content) {
        Err(e) => YamlList::Invalid { reason: e.to_string() },
        Ok(yaml) => match yaml[key].as_sequence() {
            None => YamlList::Missing,
            Some(items) => YamlList::Items(
                items.iter().map(|v| v.as_str().map(String::from)).collect(),
            ),
        },
    }
}

/// Why a document gave no list.
#[derive(Debug, Clone, PartialEq, Eq)]
pub enum ConfigError {
    /// The document is no YAML; the text says why.
    Invalid(String),
    /// The document holds no sequence under this key.
    MissingKey(String),
}

impl ConfigError {
    /// The text of this error.
    pub open spec fn text(self) -> Seq<char> {
        match self {
            ConfigError::Invalid(reason) => reason@,
            ConfigError::MissingKey(key) => key@ + " key missing"@,
        }
    }

    /// The text of this error.
    pub fn message(&self) -> (m: String)
        ensures
            m@ == self.text(),
    {
        match self {
            ConfigError::Invalid(reason) => reason.clone(),
            ConfigError::MissingKey(key) => join(key.as_str(), " key missing"),
        }
    }
}

/// The items of `items` that are texts, in order.
pub open spec fn present(items: Seq<Option<Seq<char>>>) -> Seq<Seq<char>>
    decreases items.len(),
{
    if items.len() == 0 {
        Seq::empty()
    } else {
        match items.last() {
            Some(text) => present(items.drop_last()).push(text),
            None => present(items.drop_last()),
        }
    }
}

/// The texts of `list`.
pub open spec fn texts(list: Seq<String>) -> Seq<Seq<char>> {
    Seq::new(list.len(), |i: int| list[i]@)
}

/// The items of `items` that are strings, in order.
pub fn string_items(items: Vec<Option<String>>) -> (list: Vec<String>)
    ensures
        texts(list@) == present(item_texts(items@)),
{
    let ghost all = items@;
    let mut list: Vec<String> = Vec::new();
    proof {
        assert(item_texts(all.take(0)) =~= Seq::empty());
        assert(texts(list@) =~= Seq::empty());
    }
    for item in it: items
        invariant
            it.seq() == all,
            texts(list@) == present(item_texts(all.take(it.index() as int))),
    {
        let ghost before = item_texts(all.take(it.index() as int));
        let ghost after = item_texts(all.take(it.index() + 1));
        proof {
            assert(after.drop_last() =~= before);
            assert(all.take(it.index() + 1).last() == item);
        }
        match item {
            Some(s) => {
                let ghost old_list = list@;
                list.push(s);
                proof {
                    assert(texts(list@) =~= texts(old_list).push(s@));
                }
            },
            None => {},
        }
    }
    proof {
        assert(all.take(all.len() as int) =~= all);
    }
    list
}

/// `result` is the list that a document gives where `found` was found in it
/// under `key`: the strings of the sequence, in order; or why there is none.
pub open spec fn list_result(
    found: YamlListView,
    key: Seq<char>,
    result: Result<Vec<String>, ConfigError>,
) -> bool {
    match found {
        YamlListView::Invalid { reason } => result matches Err(ConfigError::Invalid(r)) && r@
            == reason,
        YamlListView::Missing => result matches Err(ConfigError::MissingKey(k)) && k@ == key,
        YamlListView::Items(items) => result matches Ok(list) && texts(list@) == present(items),
    }
}

/// The list that a document gives where `found` was found in it under `key`.
pub fn list_from(found: YamlList, key: &str) -> (result: Result<Vec<String>, ConfigError>)
    ensures
        list_result(found@, key@, result),
{
    match found {
        YamlList::Invalid { reason } => Err(ConfigError::Invalid(reason)),
        YamlList::Missing => Err(ConfigError::MissingKey(String::from_str(key))),
        YamlList::Items(items) => Ok(string_items(items)),
    }
}

/// The list that the document `content` holds under `key`.
pub fn read_list(content: &str, key: &str) -> (result: Result<Vec<String>, ConfigError>)
    ensures
        list_result(yaml_list(content@, key@), key@, result),
{
    list_from(yaml_list_of(content, key), key)
}

} // verus!
