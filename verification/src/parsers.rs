//! The formats in which a declaration can be written.

use vstd::prelude::*;
use vstd::string::StringExecFns;
use serde_yaml::Value;
use crate::command::names_of;
use crate::declaration::{config_decoded, config_message, config_shaped, decode, Node};
use crate::errors::{BrixError, BrixErrorKind};
use crate::loader::RawConfig;
use crate::text::same_text;

verus! {

/// A value of `serde_yaml`.
#[verifier::external_type_specification]
#[verifier::external_body]
pub struct ExYamlValue(Value);

/// Whether `r` is what reading a declaration gives whose text holds the
/// value `document`, or is refused with a text: the declaration where the
/// value has the shape of one, else a parse error, with the text of the
/// refusal or the message for what is wrong with the shape.
pub open spec fn parsed(document: Result<Node, Seq<char>>, r: Result<RawConfig, BrixError>) -> bool {
    match r {
        Ok(config) => document is Ok && config_shaped(document->Ok_0) && config_decoded(
            document->Ok_0,
            config,
        ),
        Err(e) => e.kind == Some(BrixErrorKind::Parse) && match document {
            Ok(node) => !config_shaped(node) && config_message(node, e.message@),
            Err(refusal) => e.message@ == refusal,
        },
    }
}

/// A format of declarations.
pub trait ConfigParser {
    /// The file extensions that the parser reads.
    spec fn spec_extensions(&self) -> Seq<Seq<char>>;

    /// The value that a text holds in this format, or the text of the error
    /// where it is not of the format.
    spec fn document(&self, contents: Seq<char>) -> Result<Node, Seq<char>>;

    /// Reads a declaration from the text of a file.
    fn parse(&self, contents: &str) -> (r: Result<RawConfig, BrixError>)
        ensures
            parsed(self.document(contents@), r),
    ;

    /// Whether the parser reads files with this extension.
    fn matches(&self, extension: &str) -> (r: bool)
        ensures
            r == self.spec_extensions().contains(extension@),
    ;

    /// The file extensions that the parser reads.
    fn extensions(&self) -> (r: Vec<String>)
        ensures
            names_of(r@) == self.spec_extensions(),
    ;
}

/// What `serde_yaml::from_str` makes of `contents`: the value, as a
/// `Node`, or the text of its error.
pub uninterp spec fn yaml_document(contents: Seq<char>) -> Result<Node, Seq<char>>;

/// Turns a value of `serde_yaml` into a `Node`, variant for variant: a
/// number becomes the text that its `Display` writes, and a tagged value is
/// only marked as one.
#[verifier::external_body]
fn node_of(value: &Value) -> Node {
    match value {
        Value::Null => Node::Null,
        Value::Bool(b) => Node::Bool(*b),
        Value::Number(n) => Node::Number(n.to_string()),
        Value::String(s) => Node::Text(s.clone()),
        Value::Sequence(list) => Node::List(list.iter().map(node_of).collect()),
        Value::Mapping(map) => {
            Node::Mapping(map.iter().map(|(k, v)| (node_of(k), node_of(v))).collect())
        },
        Value::Tagged(_) => Node::Tagged,
    }
}

/// Calls `serde_yaml::from_str` for a `serde_yaml::Value`. What comes
/// back, the value as a `Node` or the text that the error's `Display`
/// writes, is given the name `yaml_document`.
#[verifier::external_body]
fn yaml_tree(contents: &str) -> (r: Result<Node, String>)
    ensures
        match r {
            Ok(node) => yaml_document(contents@) == Ok::<Node, Seq<char>>(node),
            Err(e) => yaml_document(contents@) == Err::<Node, Seq<char>>(e@),
        },
{
    serde_yaml::from_str::<Value>(contents).map(|value| node_of(&value)).map_err(|e| e.to_string())
}

/// The error for a text that is no declaration, with the text of what is
/// wrong.
pub fn parse_error(message: String) -> (e: BrixError)
    ensures
        e.kind == Some(BrixErrorKind::Parse),
        e.message == message,
{
    BrixError { kind: Some(BrixErrorKind::Parse), message }
}

/// The parser of YAML declarations.
#[derive(Debug)]
pub struct YamlConfigParser {}

impl ConfigParser for YamlConfigParser {
    open spec fn spec_extensions(&self) -> Seq<Seq<char>> {
        seq!["yaml"@, "yml"@]
    }

    open spec fn document(&self, contents: Seq<char>) -> Result<Node, Seq<char>> {
        yaml_document(contents)
    }

    fn parse(&self, contents: &str) -> (r: Result<RawConfig, BrixError>) {
        match yaml_tree(contents) {
            Ok(node) => decode(&node),
            Err(message) => Err(parse_error(message)),
        }
    }

    fn matches(&self, extension: &str) -> (r: bool) {
        let r = same_text(extension, "yaml") || same_text(extension, "yml");
        proof {
            let exts = self.spec_extensions();
            assert(exts[0] == "yaml"@ && exts[1] == "yml"@);
            if r {
                assert(exts.contains(extension@));
            }
        }
        r
    }

    fn extensions(&self) -> (r: Vec<String>) {
        let mut r: Vec<String> = Vec::new();
        r.push(String::from_str("yaml"));
        r.push(String::from_str("yml"));
        assert(names_of(r@) =~= self.spec_extensions());
        r
    }
}

} // verus!
