//! The canonical form of a settings fragment, and the two ways into it.
//!
//! Whatever a source delivers, what leaves this module is a JSON-shaped tree
//! rooted at a `settings` object, together with a description of where it came
//! from.  A fragment is never changed after it was made.

use crate::json::{
    document_tree, names, nest, parsed_json, tree_of, JsonTree, JsonValue, TreeMember,
};
use vstd::prelude::*;
use vstd::string::StringExecFns;

verus! {

/// The name of the root under which every fragment keeps its keys.
pub const SETTINGS_KEY: &'static str = "settings";

/// A tree is canonical when it is an object with a member `settings` that is
/// itself an object.
pub open spec fn is_canonical(tree: JsonTree) -> bool {
    tree.get(SETTINGS_KEY@) matches Some(inner) && inner is Object
}

/// The mathematical model of a settings fragment.
pub struct Fragment {
    /// The tree, rooted at `settings`.
    pub json: JsonTree,
    /// Where the fragment came from.
    pub desc: Seq<char>,
}

/// The mathematical model of an [`Error`].
pub enum ErrorModel {
    MarkupParse { desc: Seq<char>, reason: Seq<char> },
    Serialization { desc: Seq<char> },
}

/// Why no fragment could be made.
#[derive(Debug, PartialEq, Eq)]
pub enum Error {
    /// The text is not well-formed markup.
    MarkupParse {
        /// Where the text came from.
        desc: String,
        /// The parser's message.
        reason: String,
    },
    /// The structure cannot be brought into the canonical form: it has no
    /// `settings` object at its root.
    Serialization {
        /// Where the structure came from.
        desc: String,
    },
}

impl View for Error {
    type V = ErrorModel;

    open spec fn view(&self) -> ErrorModel {
        match self {
            Error::MarkupParse { desc, reason } => ErrorModel::MarkupParse {
                desc: desc@,
                reason: reason@,
            },
            Error::Serialization { desc } => ErrorModel::Serialization { desc: desc@ },
        }
    }
}

/// The message under which an error is reported.
pub open spec fn message_of(e: ErrorModel) -> Seq<char> {
    match e {
        ErrorModel::MarkupParse { desc, reason } => "Error parsing TOML from "@ + desc + ": "@
            + reason,
        ErrorModel::Serialization { desc } => "Error serializing "@ + desc
            + " to JSON: no settings at the root"@,
    }
}

impl Error {
    /// The message under which this error is reported.
    pub fn message(&self) -> (text: String)
        ensures
            text@ == message_of(self@),
    {
        match self {
            Error::MarkupParse { desc, reason } => {
                let mut text = "Error parsing TOML from ".to_owned();
                text.append(desc.as_str());
                text.append(": ");
                text.append(reason.as_str());
                text
            },
            Error::Serialization { desc } => {
                let mut text = "Error serializing ".to_owned();
                text.append(desc.as_str());
                text.append(" to JSON: no settings at the root");
                text
            },
        }
    }
}

/// What the markup parser makes of `text`: the tree it reads, as the JSON
/// codec holds it, or the message with which it refuses the text.
pub uninterp spec fn parsed_toml(text: Seq<char>) -> Result<JsonTree, Seq<char>>;

/// `toml::from_str`, read into a `serde_json::Value`.  The outcome is a
/// function of the text alone: either a document, whose tree is then the one
/// named by [`parsed_toml`], or the parser's message.
#[verifier::external_body]
fn toml_from_str(text: &str) -> (outcome: Result<serde_json::Value, String>)
    ensures
        match outcome {
            Ok(document) => parsed_toml(text@) == Ok::<JsonTree, Seq<char>>(
                document_tree(document),
            ),
            Err(reason) => parsed_toml(text@) == Err::<JsonTree, Seq<char>>(reason@),
        },
{
    toml::from_str::<serde_json::Value>(text).map_err(|e| e.to_string())
}

/// Reads a markup text: the tree, or the parser's message where the text is
/// malformed.
pub fn parse_markup(text: &str) -> (outcome: Result<JsonValue, String>)
    ensures
        match outcome {
            Ok(value) => parsed_toml(text@) == Ok::<JsonTree, Seq<char>>(value@),
            Err(reason) => parsed_toml(text@) == Err::<JsonTree, Seq<char>>(reason@),
        },
{
    match toml_from_str(text) {
        Ok(document) => Ok(tree_of(&document)),
        Err(reason) => Err(reason),
    }
}

/// The models of an outcome: of the fragment, or of the error.
pub open spec fn outcome_model(outcome: Result<SettingsJson, Error>) -> Result<
    Fragment,
    ErrorModel,
> {
    match outcome {
        Ok(fragment) => Ok(fragment@),
        Err(e) => Err(e@),
    }
}

/// The fragment that `tree` is, where it is canonical.
pub open spec fn fragment_of_tree(tree: JsonTree, desc: Seq<char>) -> Result<Fragment, ErrorModel> {
    if is_canonical(tree) {
        Ok(Fragment { json: tree, desc })
    } else {
        Err(ErrorModel::Serialization { desc })
    }
}

/// The fragment that the outcome of parsing a markup text gives.
pub open spec fn fragment_of_parsed(
    parsed: Result<JsonTree, Seq<char>>,
    desc: Seq<char>,
) -> Result<Fragment, ErrorModel> {
    match parsed {
        Ok(tree) => fragment_of_tree(tree, desc),
        Err(reason) => Err(ErrorModel::MarkupParse { desc, reason }),
    }
}

/// `value` under the key path `path`, under the `settings` root.
pub open spec fn rooted(path: Seq<Seq<char>>, value: JsonTree) -> JsonTree {
    JsonTree::Object(seq![TreeMember { name: SETTINGS_KEY@, value: nest(path, value) }])
}

/// A settings fragment: a canonical tree and a description of its source.
#[derive(Debug, PartialEq, Eq)]
pub struct SettingsJson {
    json: JsonValue,
    desc: String,
}

impl View for SettingsJson {
    type V = Fragment;

    closed spec fn view(&self) -> Fragment {
        Fragment { json: self.json@, desc: self.desc@ }
    }
}

impl SettingsJson {
    #[verifier::type_invariant]
    spec fn canonical(&self) -> bool {
        is_canonical(self.json@)
    }

    /// Makes a fragment of a tree that is already rooted at `settings`.  Any
    /// other tree is refused: it cannot be brought into the canonical form.
    pub fn from_tree(json: JsonValue, desc: &str) -> (outcome: Result<SettingsJson, Error>)
        ensures
            outcome_model(outcome) == fragment_of_tree(json@, desc@),
    {
        let canonical = match json.get(SETTINGS_KEY) {
            Some(inner) => inner.is_object(),
            None => false,
        };
        if canonical {
            Ok(SettingsJson { json, desc: desc.to_owned() })
        } else {
            Err(Error::Serialization { desc: desc.to_owned() })
        }
    }

    /// Makes a fragment of the outcome of parsing a markup text: the tree as
    /// it was read, with no key renamed or moved.
    pub fn from_parsed(parsed: Result<JsonValue, String>, desc: &str) -> (outcome: Result<
        SettingsJson,
        Error,
    >)
        ensures
            outcome_model(outcome) == fragment_of_parsed(
                match parsed {
                    Ok(value) => Ok(value@),
                    Err(reason) => Err(reason@),
                },
                desc@,
            ),
    {
        match parsed {
            Ok(json) => SettingsJson::from_tree(json, desc),
            Err(reason) => Err(Error::MarkupParse { desc: desc.to_owned(), reason }),
        }
    }

    /// Makes a fragment of a markup text that holds a `settings` section.  The
    /// text is parsed and the tree taken as it is.
    pub fn from_toml_str(data: &str, desc: &str) -> (outcome: Result<SettingsJson, Error>)
        ensures
            outcome_model(outcome) == fragment_of_parsed(parsed_toml(data@), desc@),
    {
        SettingsJson::from_parsed(parse_markup(data), desc)
    }

    /// Makes a fragment of a value that is already decoded: `value` is put
    /// under the key path `path`, and that under the `settings` root.
    pub fn from_val(value: JsonValue, path: &[&str], desc: &str) -> (outcome: Result<
        SettingsJson,
        Error,
    >)
        ensures
            outcome_model(outcome) == fragment_of_tree(rooted(names(path@), value@), desc@),
            outcome is Ok <==> path@.len() > 0 || value@ is Object,
    {
        proof {
            lemma_rooted_canonical(names(path@), value@);
        }
        let nested = JsonValue::nest(path, value);
        SettingsJson::from_tree(JsonValue::single(SETTINGS_KEY, nested), desc)
    }

    /// The tree of this fragment.
    pub fn json(&self) -> (json: &JsonValue)
        ensures
            json@ == self@.json,
            is_canonical(json@),
    {
        proof {
            use_type_invariant(self);
        }
        &self.json
    }

    /// The object under `settings`: the keys of this fragment.
    pub fn settings(&self) -> (inner: &JsonValue)
        ensures
            self@.json.get(SETTINGS_KEY@) == Some(inner@),
            inner@ is Object,
    {
        proof {
            use_type_invariant(self);
        }
        match self.json.get(SETTINGS_KEY) {
            Some(inner) => inner,
            None => vstd::pervasive::unreached(),
        }
    }

    /// Where this fragment came from.
    pub fn desc(&self) -> (desc: &str)
        ensures
            desc@ == self@.desc,
    {
        self.desc.as_str()
    }

    /// Gives up the fragment for its tree.
    pub fn into_json(self) -> (json: JsonValue)
        ensures
            json@ == self@.json,
            is_canonical(json@),
    {
        proof {
            use_type_invariant(&self);
        }
        self.json
    }
}

/// A markup text becomes a fragment exactly when it is well-formed and holds
/// a `settings` object at its root, and the fragment's tree is then the very
/// tree that parsing gives: its `settings` subtree is the parsed one.  A
/// malformed text is a parse error, a well-formed one without that root a
/// serialization error.
pub proof fn lemma_markup_verbatim(data: Seq<char>, desc: Seq<char>)
    ensures
        match fragment_of_parsed(parsed_toml(data), desc) {
            Ok(fragment) => parsed_toml(data) == Ok::<JsonTree, Seq<char>>(fragment.json)
                && fragment.desc == desc && is_canonical(fragment.json)
                && fragment.json.get(SETTINGS_KEY@) == parsed_toml(data)->Ok_0.get(SETTINGS_KEY@),
            Err(ErrorModel::MarkupParse { desc: d, reason }) => d == desc && parsed_toml(data)
                == Err::<JsonTree, Seq<char>>(reason),
            Err(ErrorModel::Serialization { desc: d }) => d == desc && parsed_toml(data) is Ok
                && !is_canonical(parsed_toml(data)->Ok_0),
        },
{
}

/// Where a markup text with a `settings` section and a JSON text are read as
/// the same tree, the fragment of the markup text holds under `settings` what
/// the JSON text holds there.
pub proof fn lemma_markup_agrees_with_json(data: Seq<char>, json: Seq<char>, desc: Seq<char>)
    requires
        parsed_toml(data) is Ok,
        is_canonical(parsed_toml(data)->Ok_0),
        parsed_json(json) == parsed_toml(data),
    ensures
        fragment_of_parsed(parsed_toml(data), desc) is Ok,
        fragment_of_parsed(parsed_toml(data), desc)->Ok_0.json == parsed_json(json)->Ok_0,
        fragment_of_parsed(parsed_toml(data), desc)->Ok_0.json.get(SETTINGS_KEY@) == parsed_json(
            json,
        )->Ok_0.get(SETTINGS_KEY@),
{
}

/// A value under a key path and the `settings` root is canonical exactly when
/// what stands under the root is an object: when the path is not empty, or the
/// value is an object itself.
pub proof fn lemma_rooted_canonical(path: Seq<Seq<char>>, value: JsonTree)
    ensures
        is_canonical(rooted(path, value)) <==> path.len() > 0 || value is Object,
        rooted(path, value).get(SETTINGS_KEY@) == Some(nest(path, value)),
{
}

} // verus!
