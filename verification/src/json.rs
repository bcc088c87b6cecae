//! JSON documents, as far as the model list reads them.

use vstd::prelude::*;

verus! {

/// A JSON document. Numbers are told apart from the rest but their digits are not
/// kept, since nothing reads them.
#[derive(Debug)]
pub enum Json {
    Null,
    Bool(bool),
    Number,
    Text(String),
    List(Vec<Json>),
    Record(Vec<(String, Json)>),
}

/// What a JSON document holds.
pub enum JsonTree {
    Null,
    Bool(bool),
    Number,
    Text(Seq<char>),
    List(Seq<JsonTree>),
    Record(Seq<(Seq<char>, JsonTree)>),
}

impl Json {
    /// What the document holds.
    pub open spec fn tree(self) -> JsonTree
        decreases self,
    {
        match self {
            Json::Null => JsonTree::Null,
            Json::Bool(b) => JsonTree::Bool(b),
            Json::Number => JsonTree::Number,
            Json::Text(s) => JsonTree::Text(s@),
            Json::List(v) => JsonTree::List(
                Seq::new(
                    v@.len(),
                    |i: int|
                        if 0 <= i < v@.len() {
                            v@[i].tree()
                        } else {
                            JsonTree::Null
                        },
                ),
            ),
            Json::Record(v) => JsonTree::Record(
                Seq::new(
                    v@.len(),
                    |i: int|
                        if 0 <= i < v@.len() {
                            (v@[i].0@, v@[i].1.tree())
                        } else {
                            (Seq::empty(), JsonTree::Null)
                        },
                ),
            ),
        }
    }
}

impl View for Json {
    type V = JsonTree;

    open spec fn view(&self) -> JsonTree {
        self.tree()
    }
}

/// What the first of the entries under `key` holds.
pub open spec fn entry_named(entries: Seq<(Seq<char>, JsonTree)>, key: Seq<char>) -> Option<
    JsonTree,
>
    decreases entries.len(),
{
    if entries.len() == 0 {
        None
    } else if entries.first().0 == key {
        Some(entries.first().1)
    } else {
        entry_named(entries.drop_first(), key)
    }
}

impl JsonTree {
    /// The member `key`, if this is a record that has it.
    pub open spec fn member(self, key: Seq<char>) -> Option<JsonTree> {
        match self {
            JsonTree::Record(entries) => entry_named(entries, key),
            _ => None,
        }
    }

    /// The characters of a string.
    pub open spec fn text(self) -> Option<Seq<char>> {
        match self {
            JsonTree::Text(s) => Some(s),
            _ => None,
        }
    }
}

/// The member `key` of a document that may be missing.
pub open spec fn member_of(tree: Option<JsonTree>, key: Seq<char>) -> Option<JsonTree> {
    match tree {
        Some(tree) => tree.member(key),
        None => None,
    }
}

/// The characters of a string, in a document that may be missing.
pub open spec fn text_in(tree: Option<JsonTree>) -> Option<Seq<char>> {
    match tree {
        Some(tree) => tree.text(),
        None => None,
    }
}

/// What a document that may be missing holds.
pub open spec fn tree_of(json: Option<&Json>) -> Option<JsonTree> {
    match json {
        Some(json) => Some(json@),
        None => None,
    }
}

impl Json {
    /// The member `key`, if this is a record that has it.
    pub fn member(&self, key: &str) -> (r: Option<&Json>)
        ensures
            tree_of(r) == self@.member(key@),
    {
        match self {
            Json::Record(v) => {
                let wanted = key.to_owned();
                let n: usize = v.len();
                let ghost entries = self@->Record_0;
                assert(entries.skip(0) =~= entries);
                let mut i: usize = 0;
                while i < n
                    invariant
                        self == Json::Record(*v),
                        self@ == JsonTree::Record(entries),
                        n == v.len() == entries.len(),
                        i <= n,
                        wanted@ == key@,
                        entry_named(entries, key@) == entry_named(entries.skip(i as int), key@),
                    decreases n - i,
                {
                    assert(entries.skip(i as int).first() == (v@[i as int].0@, v@[i as int].1@));
                    if v[i].0 == wanted {
                        return Some(&v[i].1);
                    }
                    assert(entries.skip(i as int).drop_first() =~= entries.skip(i + 1));
                    i = i + 1;
                }
                None
            },
            _ => None,
        }
    }

    /// The characters of a string.
    pub fn as_text(&self) -> (r: Option<&str>)
        ensures
            match r {
                Some(s) => self@.text() == Some(s@),
                None => self@.text() is None,
            },
    {
        match self {
            Json::Text(s) => Some(s.as_str()),
            _ => None,
        }
    }
}

} // verus!
