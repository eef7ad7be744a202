//! A JSON-shaped tree of plain values, and its mathematical model.
//!
//! Text is turned into trees by the JSON codec; everything that is then done
//! with a tree (looking a member up, nesting a value under a key path) is done
//! here, on [`JsonValue`], and stated over its model [`JsonTree`].

use vstd::prelude::*;

verus! {

/// The mathematical model of a JSON document.
pub enum JsonTree {
    Null,
    Bool(bool),
    /// A number, by the text that the codec writes for it.
    Number(Seq<char>),
    String(Seq<char>),
    Array(Seq<JsonTree>),
    /// The members of an object, in the order in which they are kept.
    Object(Seq<TreeMember>),
}

/// One member of an object: a name and the value kept under it.
pub struct TreeMember {
    pub name: Seq<char>,
    pub value: JsonTree,
}

/// The value of the first of `members` that is named `key`.
pub open spec fn lookup(members: Seq<TreeMember>, key: Seq<char>) -> Option<JsonTree>
    decreases members.len(),
{
    if members.len() == 0 {
        None
    } else if members[0].name == key {
        Some(members[0].value)
    } else {
        lookup(members.drop_first(), key)
    }
}

/// `value` nested in one single-member object for each name of `path`, the
/// first name outermost.
pub open spec fn nest(path: Seq<Seq<char>>, value: JsonTree) -> JsonTree
    decreases path.len(),
{
    if path.len() == 0 {
        value
    } else {
        JsonTree::Object(
            seq![TreeMember { name: path[0], value: nest(path.drop_first(), value) }],
        )
    }
}

impl JsonTree {
    /// The member named `key`, where this is an object that has one.
    pub open spec fn get(self, key: Seq<char>) -> Option<JsonTree> {
        match self {
            JsonTree::Object(members) => lookup(members, key),
            _ => None,
        }
    }

    /// The text, where this is a string.
    pub open spec fn as_str(self) -> Option<Seq<char>> {
        match self {
            JsonTree::String(text) => Some(text),
            _ => None,
        }
    }
}

/// A JSON document held as plain values.
#[derive(Debug, PartialEq, Eq)]
pub enum JsonValue {
    Null,
    Bool(bool),
    /// A number, by the text that the codec writes for it.
    Number(String),
    String(String),
    Array(Vec<JsonValue>),
    /// The members of an object, in the order in which they are kept.
    Object(Vec<(String, JsonValue)>),
}

/// The models of `items`, one for one.
pub open spec fn item_trees(items: Seq<JsonValue>) -> Seq<JsonTree>
    decreases items,
{
    Seq::new(
        items.len(),
        |i: int|
            if 0 <= i < items.len() {
                items[i]@
            } else {
                JsonTree::Null
            },
    )
}

/// The models of `members`, one for one.
pub open spec fn member_trees(members: Seq<(String, JsonValue)>) -> Seq<TreeMember>
    decreases members,
{
    Seq::new(
        members.len(),
        |i: int|
            if 0 <= i < members.len() {
                TreeMember { name: members[i].0@, value: members[i].1@ }
            } else {
                TreeMember { name: Seq::empty(), value: JsonTree::Null }
            },
    )
}

impl View for JsonValue {
    type V = JsonTree;

    open spec fn view(&self) -> JsonTree
        decreases self,
    {
        match self {
            JsonValue::Null => JsonTree::Null,
            JsonValue::Bool(b) => JsonTree::Bool(*b),
            JsonValue::Number(text) => JsonTree::Number(text@),
            JsonValue::String(text) => JsonTree::String(text@),
            JsonValue::Array(items) => JsonTree::Array(item_trees(items@)),
            JsonValue::Object(members) => JsonTree::Object(member_trees(members@)),
        }
    }
}

impl Clone for JsonValue {
    fn clone(&self) -> (copy: JsonValue)
        ensures
            copy@ == self@,
        decreases self,
    {
        match self {
            JsonValue::Null => JsonValue::Null,
            JsonValue::Bool(b) => JsonValue::Bool(*b),
            JsonValue::Number(text) => JsonValue::Number(text.clone()),
            JsonValue::String(text) => JsonValue::String(text.clone()),
            JsonValue::Array(items) => {
                let mut copies: Vec<JsonValue> = Vec::new();
                let mut i: usize = 0;
                while i < items.len()
                    invariant
                        i <= items.len(),
                        copies.len() == i,
                        *self == JsonValue::Array(*items),
                        forall|k: int| 0 <= k < i ==> copies@[k]@ == items@[k]@,
                    decreases items.len() - i,
                {
                    assert(decreases_to!(self => self->Array_0[i as int]));
                    copies.push(items[i].clone());
                    i = i + 1;
                }
                proof {
                    assert(item_trees(copies@) =~= item_trees(items@));
                }
                JsonValue::Array(copies)
            },
            JsonValue::Object(members) => {
                let mut copies: Vec<(String, JsonValue)> = Vec::new();
                let mut i: usize = 0;
                while i < members.len()
                    invariant
                        i <= members.len(),
                        copies.len() == i,
                        *self == JsonValue::Object(*members),
                        forall|k: int|
                            0 <= k < i ==> copies@[k].0@ == members@[k].0@ && copies@[k].1@
                                == members@[k].1@,
                    decreases members.len() - i,
                {
                    assert(decreases_to!(self => self->Object_0[i as int].1));
                    copies.push((members[i].0.clone(), members[i].1.clone()));
                    i = i + 1;
                }
                proof {
                    assert(member_trees(copies@) =~= member_trees(members@));
                }
                JsonValue::Object(copies)
            },
        }
    }
}

/// A document as the JSON codec holds it.
#[verifier::external_type_specification]
#[verifier::external_body]
pub struct ExDocument(serde_json::Value);

/// The tree that a document of the JSON codec holds: its numbers by the text
/// that the codec writes for them, the members of its objects in the order in
/// which the codec hands them out.
pub uninterp spec fn document_tree(document: serde_json::Value) -> JsonTree;

/// What the JSON codec makes of `text`: the tree it reads, or the message with
/// which it refuses the text.
pub uninterp spec fn parsed_json(text: Seq<char>) -> Result<JsonTree, Seq<char>>;

/// `serde_json::from_str`, read into a `serde_json::Value`.  The outcome is a
/// function of the text alone: either a document, whose tree is then the one
/// named by [`parsed_json`], or the codec's message.
#[verifier::external_body]
fn json_from_str(text: &str) -> (outcome: Result<serde_json::Value, String>)
    ensures
        match outcome {
            Ok(document) => parsed_json(text@) == Ok::<JsonTree, Seq<char>>(
                document_tree(document),
            ),
            Err(reason) => parsed_json(text@) == Err::<JsonTree, Seq<char>>(reason@),
        },
{
    serde_json::from_str::<serde_json::Value>(text).map_err(|e| e.to_string())
}

/// Copies a `serde_json::Value` into a [`JsonValue`], variant by variant: a
/// number by what its `Display` writes, the items of an array in their order,
/// the members of an object in the order of `Map::iter`.  The result is what
/// [`document_tree`] names.
#[verifier::external_body]
pub(crate) fn tree_of(document: &serde_json::Value) -> (value: JsonValue)
    ensures
        value@ == document_tree(*document),
{
    match document {
        serde_json::Value::Null => JsonValue::Null,
        serde_json::Value::Bool(b) => JsonValue::Bool(*b),
        serde_json::Value::Number(n) => JsonValue::Number(n.to_string()),
        serde_json::Value::String(s) => JsonValue::String(s.clone()),
        serde_json::Value::Array(items) => JsonValue::Array(items.iter().map(tree_of).collect()),
        serde_json::Value::Object(map) => JsonValue::Object(
            map.iter().map(|(k, v)| (k.clone(), tree_of(v))).collect(),
        ),
    }
}

/// The texts of `path`, one for one.
pub open spec fn names(path: Seq<&str>) -> Seq<Seq<char>> {
    Seq::new(path.len(), |i: int| path[i]@)
}

/// Nesting under a path that ends in `name` is nesting a single-member object
/// under the path without it.
pub proof fn lemma_nest_last(path: Seq<Seq<char>>, name: Seq<char>, value: JsonTree)
    ensures
        nest(path.push(name), value) == nest(
            path,
            JsonTree::Object(seq![TreeMember { name, value }]),
        ),
    decreases path.len(),
{
    if path.len() == 0 {
        assert(path.push(name).drop_first() =~= path);
    } else {
        assert(path.push(name).drop_first() =~= path.drop_first().push(name));
        lemma_nest_last(path.drop_first(), name, value);
    }
}

impl JsonValue {
    /// Reads a JSON document: the tree, or the codec's message where `text` is
    /// no JSON.
    pub fn parse(text: &str) -> (outcome: Result<JsonValue, String>)
        ensures
            match outcome {
                Ok(value) => parsed_json(text@) == Ok::<JsonTree, Seq<char>>(value@),
                Err(reason) => parsed_json(text@) == Err::<JsonTree, Seq<char>>(reason@),
            },
    {
        match json_from_str(text) {
            Ok(document) => Ok(tree_of(&document)),
            Err(reason) => Err(reason),
        }
    }

    /// The member named `key`, where this is an object that has one; of several
    /// members of that name, the first.
    pub fn get(&self, key: &str) -> (found: Option<&JsonValue>)
        ensures
            match found {
                Some(value) => self@.get(key@) == Some(value@),
                None => self@.get(key@) is None,
            },
    {
        match self {
            JsonValue::Object(members) => {
                let wanted: String = key.to_owned();
                let ghost all = member_trees(members@);
                proof {
                    assert(all.skip(0) =~= all);
                }
                let mut i: usize = 0;
                while i < members.len()
                    invariant
                        i <= members.len(),
                        wanted@ == key@,
                        all == member_trees(members@),
                        self@.get(key@) == lookup(all.skip(i as int), key@),
                    decreases members.len() - i,
                {
                    if members[i].0 == wanted {
                        return Some(&members[i].1);
                    }
                    assert(all.skip(i as int).drop_first() =~= all.skip(i + 1));
                    i = i + 1;
                }
                None
            },
            _ => None,
        }
    }

    /// The text, where this is a string.
    pub fn as_str(&self) -> (text: Option<&str>)
        ensures
            match text {
                Some(t) => self@.as_str() == Some(t@),
                None => self@.as_str() is None,
            },
    {
        match self {
            JsonValue::String(text) => Some(text.as_str()),
            _ => None,
        }
    }

    /// Tells whether this is an object.
    pub fn is_object(&self) -> (yes: bool)
        ensures
            yes == (self@ is Object),
    {
        match self {
            JsonValue::Object(_) => true,
            _ => false,
        }
    }

    /// An object whose only member is `value` under `name`.
    pub fn single(name: &str, value: JsonValue) -> (object: JsonValue)
        ensures
            object@ == JsonTree::Object(seq![TreeMember { name: name@, value: value@ }]),
    {
        let mut members: Vec<(String, JsonValue)> = Vec::new();
        members.push((name.to_owned(), value));
        proof {
            assert(member_trees(members@) =~= seq![TreeMember { name: name@, value: value@ }]);
        }
        JsonValue::Object(members)
    }

    /// `value` nested in one single-member object for each name of `path`, the
    /// first name outermost: under `["aws", "region"]`, `"x"` becomes
    /// `{"aws": {"region": "x"}}`.
    pub fn nest(path: &[&str], value: JsonValue) -> (nested: JsonValue)
        ensures
            nested@ == nest(names(path@), value@),
    {
        let ghost all = names(path@);
        let ghost inner = value@;
        let mut nested = value;
        let mut i: usize = path.len();
        proof {
            assert(all.take(i as int) =~= all);
        }
        while i > 0
            invariant
                i <= path.len(),
                all == names(path@),
                nest(all, inner) == nest(all.take(i as int), nested@),
            decreases i,
        {
            i = i - 1;
            proof {
                assert(all.take(i + 1) =~= all.take(i as int).push(path@[i as int]@));
                lemma_nest_last(all.take(i as int), path@[i as int]@, nested@);
            }
            nested = JsonValue::single(path[i], nested);
        }
        nested
    }
}

} // verus!
