//! The shape of a declaration: from the values that a file holds, whatever
//! its format, to the declaration's context and list of operations.

use vstd::prelude::*;
use vstd::string::StringExecFns;
use crate::context::StdContext;
use crate::errors::{BrixError, BrixErrorKind};
use crate::loader::{text_of, RawCommandParams, RawConfig};
use crate::text::{join2, same_text};

verus! {

/// A value of a declaration file.
#[derive(Debug)]
pub enum Node {
    /// No value.
    Null,
    /// True or false.
    Bool(bool),
    /// A number, as it is written.
    Number(String),
    /// A string.
    Text(String),
    /// A list of values.
    List(Vec<Node>),
    /// Values by key, in the order of the file.
    Mapping(Vec<(Node, Node)>),
    /// A value with a tag of the format; no part of a declaration.
    Tagged,
}

/// Whether `node` is the string `key`.
pub open spec fn is_key(node: Node, key: Seq<char>) -> bool {
    node is Text && node->Text_0@ == key
}

/// The value that `entries` hold under `key`: the first, should there be
/// several.
pub open spec fn member(entries: Seq<(Node, Node)>, key: Seq<char>) -> Option<Node>
    decreases entries.len(),
{
    if entries.len() == 0 {
        None
    } else {
        match member(entries.drop_last(), key) {
            Some(n) => Some(n),
            None => if is_key(entries.last().0, key) {
                Some(entries.last().1)
            } else {
                None
            },
        }
    }
}

/// What was found in a longer list was found in a part of it from the
/// start, if anything was found there.
pub proof fn lemma_member_prefix(entries: Seq<(Node, Node)>, n: int, key: Seq<char>)
    requires
        0 <= n <= entries.len(),
        member(entries.take(n), key) is Some,
    ensures
        member(entries, key) == member(entries.take(n), key),
    decreases entries.len() - n,
{
    if n < entries.len() {
        assert(entries.take(n + 1).drop_last() =~= entries.take(n));
        lemma_member_prefix(entries, n + 1, key);
    } else {
        assert(entries.take(n) =~= entries);
    }
}

/// Whether `node` counts as a string: a string does, and a number counts as
/// the string that it is written as.
pub open spec fn is_scalar(node: Node) -> bool {
    node is Text || node is Number
}

/// The string that a string or a number counts as.
pub open spec fn scalar(node: Node) -> Seq<char> {
    match node {
        Node::Number(s) => s@,
        Node::Text(s) => s@,
        _ => Seq::empty(),
    }
}

/// An optional string: `Some(None)` where there is no value, `None` where
/// the value does not count as a string.
pub open spec fn as_text(n: Option<Node>) -> Option<Option<Seq<char>>> {
    match n {
        None => Some(None),
        Some(Node::Null) => Some(None),
        Some(node) => if is_scalar(node) {
            Some(Some(scalar(node)))
        } else {
            None
        },
    }
}

/// An optional truth value: `Some(None)` where there is no value, `None`
/// where the value is neither true nor false.
pub open spec fn as_flag(n: Option<Node>) -> Option<Option<bool>> {
    match n {
        None => Some(None),
        Some(Node::Null) => Some(None),
        Some(Node::Bool(b)) => Some(Some(b)),
        _ => None,
    }
}

/// Whether every value of `list` counts as a string.
pub open spec fn all_text(list: Seq<Node>) -> bool {
    forall|i: int| 0 <= i < list.len() ==> is_scalar(#[trigger] list[i])
}

/// The strings of a list of strings.
pub open spec fn texts_of(list: Seq<Node>) -> Seq<Seq<char>> {
    Seq::new(list.len(), |i: int| scalar(list[i]))
}

/// An optional list of strings: `Some(None)` where there is no value,
/// `None` where the value is no list of strings.
pub open spec fn as_texts(n: Option<Node>) -> Option<Option<Seq<Seq<char>>>> {
    match n {
        None => Some(None),
        Some(Node::Null) => Some(None),
        Some(Node::List(list)) => if all_text(list@) {
            Some(Some(texts_of(list@)))
        } else {
            None
        },
        _ => None,
    }
}

/// Whether every key of `entries` is a string and every value counts as
/// one.
pub open spec fn all_text_values(entries: Seq<(Node, Node)>) -> bool {
    forall|i: int|
        0 <= i < entries.len() ==> (#[trigger] entries[i]).0 is Text && is_scalar(entries[i].1)
}

/// The context that entries with string values stand for; of two entries
/// with one name the later one counts.
pub open spec fn context_of(entries: Seq<(Node, Node)>) -> Map<Seq<char>, Seq<char>>
    decreases entries.len(),
{
    if entries.len() == 0 {
        Map::empty()
    } else {
        context_of(entries.drop_last()).insert(
            entries.last().0->Text_0@,
            scalar(entries.last().1),
        )
    }
}

/// An optional context: `Some(None)` where there is no value, `None` where
/// the value is no map of strings.
pub open spec fn as_context(n: Option<Node>) -> Option<Option<Map<Seq<char>, Seq<char>>>> {
    match n {
        None => Some(None),
        Some(Node::Null) => Some(None),
        Some(Node::Mapping(entries)) => if all_text_values(entries@) {
            Some(Some(context_of(entries@)))
        } else {
            None
        },
        _ => None,
    }
}

/// The view of an optional list of strings.
pub open spec fn texts_view(o: Option<Vec<String>>) -> Option<Seq<Seq<char>>> {
    match o {
        Some(v) => Some(Seq::new(v@.len(), |i: int| v@[i]@)),
        None => None,
    }
}

/// The view of an optional context.
pub open spec fn context_view(o: Option<StdContext>) -> Option<Map<Seq<char>, Seq<char>>> {
    match o {
        Some(c) => Some(c@),
        None => None,
    }
}

/// Whether `node` has the shape of an operation's parameters: a map in
/// which `source`, `destination`, `search` and `replace`, where given, are
/// strings, `overwrite` and `stdout` truth values, `commands` a list of
/// strings and `context` a map of strings. Other names are not looked at.
pub open spec fn params_shaped(node: Node) -> bool {
    &&& node is Mapping
    &&& as_text(member(node->Mapping_0@, "source"@)) is Some
    &&& as_text(member(node->Mapping_0@, "destination"@)) is Some
    &&& as_flag(member(node->Mapping_0@, "overwrite"@)) is Some
    &&& as_text(member(node->Mapping_0@, "search"@)) is Some
    &&& as_text(member(node->Mapping_0@, "replace"@)) is Some
    &&& as_texts(member(node->Mapping_0@, "commands"@)) is Some
    &&& as_flag(member(node->Mapping_0@, "stdout"@)) is Some
    &&& as_context(member(node->Mapping_0@, "context"@)) is Some
}

/// Whether `p` holds what the well-shaped `node` holds.
pub open spec fn params_decoded(node: Node, p: RawCommandParams) -> bool {
    &&& as_text(member(node->Mapping_0@, "source"@)) == Some(text_of(p.source))
    &&& as_text(member(node->Mapping_0@, "destination"@)) == Some(text_of(p.destination))
    &&& as_flag(member(node->Mapping_0@, "overwrite"@)) == Some(p.overwrite)
    &&& as_text(member(node->Mapping_0@, "search"@)) == Some(text_of(p.search))
    &&& as_text(member(node->Mapping_0@, "replace"@)) == Some(text_of(p.replace))
    &&& as_texts(member(node->Mapping_0@, "commands"@)) == Some(texts_view(p.commands))
    &&& as_flag(member(node->Mapping_0@, "stdout"@)) == Some(p.stdout)
    &&& as_context(member(node->Mapping_0@, "context"@)) == Some(context_view(p.context))
}

/// Whether `node` has the shape of one element of the list of operations:
/// a map with exactly one key, a string, whose value has the shape of
/// parameters.
pub open spec fn entry_shaped(node: Node) -> bool {
    &&& node is Mapping
    &&& node->Mapping_0@.len() == 1
    &&& node->Mapping_0@[0].0 is Text
    &&& params_shaped(node->Mapping_0@[0].1)
}

/// Whether `entry` holds what the well-shaped `node` holds.
pub open spec fn entry_decoded(node: Node, entry: (String, RawCommandParams)) -> bool {
    &&& entry.0@ == node->Mapping_0@[0].0->Text_0@
    &&& params_decoded(node->Mapping_0@[0].1, entry.1)
}

/// Whether `node` has the shape of a declaration: a map with a list under
/// `commands`, each element of it with the shape of an entry, and, where
/// there is a `context`, a map of strings under it.
pub open spec fn config_shaped(node: Node) -> bool {
    &&& node is Mapping
    &&& as_context(member(node->Mapping_0@, "context"@)) is Some
    &&& member(node->Mapping_0@, "commands"@) is Some
    &&& member(node->Mapping_0@, "commands"@)->0 is List
    &&& forall|i: int|
        0 <= i < member(node->Mapping_0@, "commands"@)->0->List_0@.len() ==> entry_shaped(
            #[trigger] member(node->Mapping_0@, "commands"@)->0->List_0@[i],
        )
}

/// Whether `config` holds what the well-shaped `node` holds.
pub open spec fn config_decoded(node: Node, config: RawConfig) -> bool {
    &&& as_context(member(node->Mapping_0@, "context"@)) == Some(context_view(config.context))
    &&& config.commands@.len() == member(node->Mapping_0@, "commands"@)->0->List_0@.len()
    &&& forall|i: int|
        0 <= i < config.commands@.len() ==> entry_decoded(
            member(node->Mapping_0@, "commands"@)->0->List_0@[i],
            #[trigger] config.commands@[i],
        )
}

/// The message for a value of the wrong kind under `name`.
pub open spec fn shape_message(name: Seq<char>, expected: Seq<char>) -> Seq<char> {
    "'"@ + name + "' must be "@ + expected
}

/// The message for the first of the parameters `node` that has the wrong
/// kind.
pub open spec fn params_message(node: Node) -> Seq<char> {
    if !(node is Mapping) {
        shape_message("commands"@, "a list of operations with their parameters"@)
    } else if as_text(member(node->Mapping_0@, "source"@)) is None {
        shape_message("source"@, "a string"@)
    } else if as_text(member(node->Mapping_0@, "destination"@)) is None {
        shape_message("destination"@, "a string"@)
    } else if as_flag(member(node->Mapping_0@, "overwrite"@)) is None {
        shape_message("overwrite"@, "true or false"@)
    } else if as_text(member(node->Mapping_0@, "search"@)) is None {
        shape_message("search"@, "a string"@)
    } else if as_text(member(node->Mapping_0@, "replace"@)) is None {
        shape_message("replace"@, "a string"@)
    } else if as_texts(member(node->Mapping_0@, "commands"@)) is None {
        shape_message("commands"@, "a list of strings"@)
    } else if as_flag(member(node->Mapping_0@, "stdout"@)) is None {
        shape_message("stdout"@, "true or false"@)
    } else {
        shape_message("context"@, "a map of strings"@)
    }
}

/// The message for an element of the list of operations that has not the
/// shape of one.
pub open spec fn entry_message(node: Node) -> Seq<char> {
    if node is Mapping && node->Mapping_0@.len() == 1 && node->Mapping_0@[0].0 is Text {
        params_message(node->Mapping_0@[0].1)
    } else {
        shape_message("commands"@, "a list of maps with one operation each"@)
    }
}

/// Whether `message` is the message for a value that has not the shape of
/// a declaration: it tells of the first thing that is wrong.
pub open spec fn config_message(node: Node, message: Seq<char>) -> bool {
    if !(node is Mapping) {
        message == shape_message("the declaration"@, "a map"@)
    } else if as_context(member(node->Mapping_0@, "context"@)) is None {
        message == shape_message("context"@, "a map of strings"@)
    } else if !(member(node->Mapping_0@, "commands"@) is Some && member(
        node->Mapping_0@,
        "commands"@,
    )->0 is List) {
        message == shape_message("commands"@, "a list"@)
    } else {
        exists|i: int|
            0 <= i < member(node->Mapping_0@, "commands"@)->0->List_0@.len() && !entry_shaped(
                #[trigger] member(node->Mapping_0@, "commands"@)->0->List_0@[i],
            ) && message == entry_message(member(node->Mapping_0@, "commands"@)->0->List_0@[i])
                && forall|j: int|
                0 <= j < i ==> entry_shaped(
                    #[trigger] member(node->Mapping_0@, "commands"@)->0->List_0@[j],
                )
    }
}

/// The error for a value of the wrong kind under `name`.
pub fn shape_error(name: &str, expected: &str) -> (e: BrixError)
    ensures
        e.kind == Some(BrixErrorKind::Parse),
        e.message@ == shape_message(name@, expected@),
{
    BrixError {
        kind: Some(BrixErrorKind::Parse),
        message: join2("'", name).concat("' must be ").concat(expected),
    }
}

/// Finds the value that `entries` hold under `key`.
pub fn find<'a>(entries: &'a Vec<(Node, Node)>, key: &str) -> (r: Option<&'a Node>)
    ensures
        match r {
            Some(n) => member(entries@, key@) == Some(*n),
            None => member(entries@, key@) is None,
        },
{
    let mut i: usize = 0;
    assert(entries@.take(0) =~= Seq::<(Node, Node)>::empty());
    while i < entries.len()
        invariant
            i <= entries@.len(),
            member(entries@.take(i as int), key@) is None,
        decreases entries@.len() - i,
    {
        proof {
            assert(entries@.take(i + 1).drop_last() =~= entries@.take(i as int));
            assert(entries@.take(i + 1).last() == entries@[i as int]);
        }
        let found = match &entries[i].0 {
            Node::Text(name) => same_text(name.as_str(), key),
            _ => false,
        };
        if found {
            proof {
                lemma_member_prefix(entries@, i + 1, key@);
            }
            return Some(&entries[i].1);
        }
        i += 1;
    }
    assert(entries@.take(entries@.len() as int) =~= entries@);
    None
}

/// Reads an optional string under `key`.
pub fn text_field(entries: &Vec<(Node, Node)>, key: &str) -> (r: Result<Option<String>, BrixError>)
    ensures
        match r {
            Ok(o) => as_text(member(entries@, key@)) == Some(text_of(o)),
            Err(e) => as_text(member(entries@, key@)) is None && e.kind == Some(
                BrixErrorKind::Parse,
            ) && e.message@ == shape_message(key@, "a string"@),
        },
{
    match find(entries, key) {
        None => Ok(None),
        Some(Node::Null) => Ok(None),
        Some(Node::Text(s)) => Ok(Some(s.clone())),
        Some(Node::Number(s)) => Ok(Some(s.clone())),
        Some(_) => Err(shape_error(key, "a string")),
    }
}

/// Reads an optional truth value under `key`.
pub fn flag_field(entries: &Vec<(Node, Node)>, key: &str) -> (r: Result<Option<bool>, BrixError>)
    ensures
        match r {
            Ok(o) => as_flag(member(entries@, key@)) == Some(o),
            Err(e) => as_flag(member(entries@, key@)) is None && e.kind == Some(
                BrixErrorKind::Parse,
            ) && e.message@ == shape_message(key@, "true or false"@),
        },
{
    match find(entries, key) {
        None => Ok(None),
        Some(Node::Null) => Ok(None),
        Some(Node::Bool(b)) => Ok(Some(*b)),
        Some(_) => Err(shape_error(key, "true or false")),
    }
}

/// Reads an optional list of strings under `key`.
pub fn texts_field(entries: &Vec<(Node, Node)>, key: &str) -> (r: Result<
    Option<Vec<String>>,
    BrixError,
>)
    ensures
        match r {
            Ok(o) => as_texts(member(entries@, key@)) == Some(texts_view(o)),
            Err(e) => as_texts(member(entries@, key@)) is None && e.kind == Some(
                BrixErrorKind::Parse,
            ) && e.message@ == shape_message(key@, "a list of strings"@),
        },
{
    match find(entries, key) {
        None => Ok(None),
        Some(Node::Null) => Ok(None),
        Some(Node::List(list)) => {
            let mut out: Vec<String> = Vec::new();
            let mut i: usize = 0;
            while i < list.len()
                invariant
                    i <= list@.len(),
                    member(entries@, key@) == Some(Node::List(*list)),
                    out@.len() == i,
                    forall|j: int| 0 <= j < i ==> is_scalar(#[trigger] list@[j]),
                    forall|j: int| 0 <= j < i ==> (#[trigger] out@[j])@ == scalar(list@[j]),
                decreases list@.len() - i,
            {
                match &list[i] {
                    Node::Text(s) => {
                        out.push(s.clone());
                    },
                    Node::Number(s) => {
                        out.push(s.clone());
                    },
                    _ => {
                        assert(!is_scalar(list@[i as int]));
                        return Err(shape_error(key, "a list of strings"));
                    },
                }
                i += 1;
            }
            assert(texts_view(Some(out))->0 =~= texts_of(list@));
            Ok(Some(out))
        },
        Some(_) => Err(shape_error(key, "a list of strings")),
    }
}

/// Reads an optional context under `key`.
pub fn context_field(entries: &Vec<(Node, Node)>, key: &str) -> (r: Result<
    Option<StdContext>,
    BrixError,
>)
    ensures
        match r {
            Ok(o) => as_context(member(entries@, key@)) == Some(context_view(o)),
            Err(e) => as_context(member(entries@, key@)) is None && e.kind == Some(
                BrixErrorKind::Parse,
            ) && e.message@ == shape_message(key@, "a map of strings"@),
        },
{
    match find(entries, key) {
        None => Ok(None),
        Some(Node::Null) => Ok(None),
        Some(Node::Mapping(values)) => {
            let mut out = StdContext::new();
            let mut i: usize = 0;
            assert(values@.take(0) =~= Seq::<(Node, Node)>::empty());
            while i < values.len()
                invariant
                    i <= values@.len(),
                    member(entries@, key@) == Some(Node::Mapping(*values)),
                    forall|j: int|
                        0 <= j < i ==> (#[trigger] values@[j]).0 is Text && is_scalar(
                            values@[j].1,
                        ),
                    out@ == context_of(values@.take(i as int)),
                decreases values@.len() - i,
            {
                proof {
                    assert(values@.take(i + 1).drop_last() =~= values@.take(i as int));
                    assert(values@.take(i + 1).last() == values@[i as int]);
                }
                match (&values[i].0, &values[i].1) {
                    (Node::Text(name), Node::Text(s)) => {
                        out.insert(name.clone(), s.clone());
                    },
                    (Node::Text(name), Node::Number(s)) => {
                        out.insert(name.clone(), s.clone());
                    },
                    _ => {
                        assert(!(values@[i as int].0 is Text && is_scalar(values@[i as int].1)));
                        return Err(shape_error(key, "a map of strings"));
                    },
                }
                i += 1;
            }
            assert(values@.take(values@.len() as int) =~= values@);
            Ok(Some(out))
        },
        Some(_) => Err(shape_error(key, "a map of strings")),
    }
}

/// Reads the parameters of one operation.
pub fn decode_params(node: &Node) -> (r: Result<RawCommandParams, BrixError>)
    ensures
        match r {
            Ok(p) => params_shaped(*node) && params_decoded(*node, p),
            Err(e) => !params_shaped(*node) && e.kind == Some(BrixErrorKind::Parse)
                && e.message@ == params_message(*node),
        },
{
    let entries = match node {
        Node::Mapping(entries) => entries,
        _ => {
            return Err(shape_error("commands", "a list of operations with their parameters"));
        },
    };
    let source = text_field(entries, "source")?;
    let destination = text_field(entries, "destination")?;
    let overwrite = flag_field(entries, "overwrite")?;
    let search = text_field(entries, "search")?;
    let replace = text_field(entries, "replace")?;
    let commands = texts_field(entries, "commands")?;
    let stdout = flag_field(entries, "stdout")?;
    let context = context_field(entries, "context")?;
    Ok(
        RawCommandParams {
            source,
            destination,
            overwrite,
            search,
            replace,
            commands,
            stdout,
            context,
        },
    )
}

/// Reads one element of the list of operations.
pub fn decode_entry(node: &Node) -> (r: Result<(String, RawCommandParams), BrixError>)
    ensures
        match r {
            Ok(entry) => entry_shaped(*node) && entry_decoded(*node, entry),
            Err(e) => !entry_shaped(*node) && e.kind == Some(BrixErrorKind::Parse)
                && e.message@ == entry_message(*node),
        },
{
    match node {
        Node::Mapping(entries) => {
            if entries.len() != 1 {
                return Err(shape_error("commands", "a list of maps with one operation each"));
            }
            let name = match &entries[0].0 {
                Node::Text(name) => name.clone(),
                _ => {
                    return Err(shape_error("commands", "a list of maps with one operation each"));
                },
            };
            let params = decode_params(&entries[0].1)?;
            Ok((name, params))
        },
        _ => Err(shape_error("commands", "a list of maps with one operation each")),
    }
}

/// Reads a declaration.
pub fn decode(node: &Node) -> (r: Result<RawConfig, BrixError>)
    ensures
        match r {
            Ok(config) => config_shaped(*node) && config_decoded(*node, config),
            Err(e) => !config_shaped(*node) && e.kind == Some(BrixErrorKind::Parse)
                && config_message(*node, e.message@),
        },
{
    let entries = match node {
        Node::Mapping(entries) => entries,
        _ => {
            return Err(shape_error("the declaration", "a map"));
        },
    };
    let context = context_field(entries, "context")?;
    let list = match find(entries, "commands") {
        Some(Node::List(list)) => list,
        _ => {
            return Err(shape_error("commands", "a list"));
        },
    };
    let mut commands: Vec<(String, RawCommandParams)> = Vec::new();
    let mut i: usize = 0;
    while i < list.len()
        invariant
            i <= list@.len(),
            *node == Node::Mapping(*entries),
            as_context(member(entries@, "context"@)) is Some,
            member(entries@, "commands"@) == Some(Node::List(*list)),
            commands@.len() == i,
            forall|j: int| 0 <= j < i ==> entry_shaped(#[trigger] list@[j]),
            forall|j: int| 0 <= j < i ==> entry_decoded(list@[j], #[trigger] commands@[j]),
        decreases list@.len() - i,
    {
        match decode_entry(&list[i]) {
            Ok(entry) => {
                commands.push(entry);
            },
            Err(e) => {
                proof {
                    let found = member(node->Mapping_0@, "commands"@)->0->List_0@;
                    assert(found == list@);
                    assert(!entry_shaped(found[i as int]));
                    assert(e.message@ == entry_message(found[i as int]));
                    assert forall|j: int| 0 <= j < i implies entry_shaped(#[trigger] found[j]) by {
                        assert(entry_shaped(list@[j]));
                    }
                    assert(config_message(*node, e.message@));
                }
                return Err(e);
            },
        }
        i += 1;
    }
    Ok(RawConfig { context, commands })
}

} // verus!
