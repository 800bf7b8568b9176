//! Reading a workspace from JSON text and writing it as JSON text.
//!
//! The text itself is read and written by `serde_json`; what is verified
//! here is the passage between a workspace and a JSON value.

use crate::dict::{distinct_keys, Dict};
use crate::error::StoreError;
use crate::json::{
    array_value, items_of, json_of, json_parse, json_print, members_of, names_of, null_value,
    object_value, owned_members_of, owned_names_of, parse_value, print_value, string_value,
    value_as_array, value_as_str, value_is_null, value_members, Json,
};
use crate::model::{
    opt_text, state_list, tab_list, text_list, Document, DocumentState, DocumentStateView,
    DocumentView, Node, NodeView, TabRef, TabRefView, Workspace, WorkspaceView,
};
use crate::schema::{
    document_dict_from_json, document_dict_to_json, document_from_json, document_to_json,
    lemma_member_absent, lemma_member_at, lemma_member_names, lemma_workspace_round_trip, member,
    named, node_dict_from_json, node_dict_to_json, node_from_json, node_to_json,
    opt_text_to_json, optional_text, required_states, required_text, state_from_json,
    state_list_to_json, state_to_json, tab_from_json, tab_list_from_json, tab_list_to_json,
    tab_to_json, text_from_json, text_list_from_json, text_list_to_json, workspace_from_json,
    workspace_to_json,
};
use serde_json::Value;
use vstd::prelude::*;
use vstd::string::*;

verus! {

// Reading

fn find_member<'a>(members: &Vec<(&'a String, &'a Value)>, name: &str) -> (r: Option<&'a Value>)
    ensures
        match r {
            Some(v) => member(members_of(members@), name@) == Some(json_of(*v)),
            None => member(members_of(members@), name@) is None,
        },
{
    let wanted = name.to_owned();
    let mut i: usize = 0;
    while i < members.len()
        invariant
            i <= members.len(),
            wanted@ == name@,
            forall|j: int| 0 <= j < i ==> members_of(members@)[j].0 != name@,
        decreases members.len() - i,
    {
        if *members[i].0 == wanted {
            proof {
                lemma_member_at(members_of(members@), name@, i as int);
            }
            return Some(members[i].1);
        }
        i += 1;
    }
    proof {
        lemma_member_absent(members_of(members@), name@);
    }
    None
}

fn read_text(members: &Vec<(&String, &Value)>, name: &str) -> (r: Option<String>)
    ensures
        match r {
            Some(s) => required_text(members_of(members@), name@) == Some(s@),
            None => required_text(members_of(members@), name@) is None,
        },
{
    match find_member(members, name) {
        Some(v) => match value_as_str(v) {
            Some(s) => Some(s.to_owned()),
            None => None,
        },
        None => None,
    }
}

fn read_optional_text(members: &Vec<(&String, &Value)>, name: &str) -> (r: Option<Option<String>>)
    ensures
        match r {
            Some(o) => optional_text(members_of(members@), name@) == Some(opt_text(o)),
            None => optional_text(members_of(members@), name@) is None,
        },
{
    match find_member(members, name) {
        None => Some(None),
        Some(v) => {
            if value_is_null(v) {
                Some(None)
            } else {
                match value_as_str(v) {
                    Some(s) => Some(Some(s.to_owned())),
                    None => None,
                }
            }
        },
    }
}

fn text_list_from_value(v: &Value) -> (r: Option<Vec<String>>)
    ensures
        match r {
            Some(list) => text_list_from_json(json_of(*v)) == Some(text_list(list@)),
            None => text_list_from_json(json_of(*v)) is None,
        },
{
    let items = match value_as_array(v) {
        Some(items) => items,
        None => { return None; },
    };
    let ghost read = items_of(items@).map_values(|x: Json| text_from_json(x));
    let mut list: Vec<String> = Vec::new();
    let mut i: usize = 0;
    while i < items.len()
        invariant
            i <= items.len(),
            list@.len() == i,
            json_of(*v) == Json::Array(items_of(items@)),
            read == items_of(items@).map_values(|x: Json| text_from_json(x)),
            forall|j: int| 0 <= j < i ==> (#[trigger] read[j]) == Some(list@[j]@),
        decreases items.len() - i,
    {
        match value_as_str(&items[i]) {
            Some(s) => {
                list.push(s.to_owned());
            },
            None => {
                assert(read[i as int] is None);
                return None;
            },
        }
        i += 1;
    }
    assert(read.map_values(|o: Option<Seq<char>>| o->Some_0) =~= text_list(list@));
    Some(list)
}

fn node_from_value(v: &Value) -> (r: Option<Node>)
    ensures
        match r {
            Some(node) => node_from_json(json_of(*v)) == Some(node@),
            None => node_from_json(json_of(*v)) is None,
        },
{
    let members = match value_members(v) {
        Some(members) => members,
        None => { return None; },
    };
    let id = match read_text(&members, "id") {
        Some(s) => s,
        None => { return None; },
    };
    let text = match read_text(&members, "text") {
        Some(s) => s,
        None => { return None; },
    };
    let parent_id = match read_optional_text(&members, "parentId") {
        Some(o) => o,
        None => { return None; },
    };
    let children_ids = match find_member(&members, "childrenIds") {
        Some(list) => match text_list_from_value(list) {
            Some(l) => l,
            None => { return None; },
        },
        None => { return None; },
    };
    let color = match read_optional_text(&members, "color") {
        Some(o) => o,
        None => { return None; },
    };
    Some(Node { id, text, parent_id, children_ids, color })
}

fn node_dict_from_value(v: &Value) -> (r: Option<Dict<Node>>)
    ensures
        match r {
            Some(nodes) => node_dict_from_json(json_of(*v)) == Some(nodes@),
            None => node_dict_from_json(json_of(*v)) is None,
        },
{
    let members = match value_members(v) {
        Some(members) => members,
        None => { return None; },
    };
    let ghost read = members_of(members@).map_values(
        |m: (Seq<char>, Json)| named(m.0, node_from_json(m.1)),
    );
    let mut entries: Vec<(String, Node)> = Vec::new();
    let mut i: usize = 0;
    while i < members.len()
        invariant
            i <= members.len(),
            entries@.len() == i,
            json_of(*v) == Json::Object(members_of(members@)),
            read == members_of(members@).map_values(
                |m: (Seq<char>, Json)| named(m.0, node_from_json(m.1)),
            ),
            forall|j: int|
                0 <= j < i ==> (#[trigger] read[j]) == Some((entries@[j].0@, entries@[j].1@)),
        decreases members.len() - i,
    {
        match node_from_value(members[i].1) {
            Some(node) => {
                entries.push((members[i].0.clone(), node));
            },
            None => {
                assert(read[i as int] is None);
                return None;
            },
        }
        i += 1;
    }
    let ghost keys = entries@.map_values(|e: (String, Node)| e.0@);
    assert(keys =~= names_of(members@)) by {
        assert forall|j: int| 0 <= j < keys.len() implies keys[j] == names_of(members@)[j] by {
            assert(read[j] == Some((entries@[j].0@, entries@[j].1@)));
        }
    }
    let nodes = Dict::from_distinct(entries);
    assert(read.map_values(|o: Option<(Seq<char>, NodeView)>| o->Some_0) =~= nodes@);
    Some(nodes)
}

fn state_from_value(v: &Value) -> (r: Option<DocumentState>)
    ensures
        match r {
            Some(state) => state_from_json(json_of(*v)) == Some(state@),
            None => state_from_json(json_of(*v)) is None,
        },
{
    let members = match value_members(v) {
        Some(members) => members,
        None => { return None; },
    };
    let root_id = match read_text(&members, "rootId") {
        Some(s) => s,
        None => { return None; },
    };
    let cursor_id = match read_text(&members, "cursorId") {
        Some(s) => s,
        None => { return None; },
    };
    let nodes = match find_member(&members, "nodes") {
        Some(dict) => match node_dict_from_value(dict) {
            Some(d) => d,
            None => { return None; },
        },
        None => { return None; },
    };
    Some(DocumentState { root_id, cursor_id, nodes })
}

fn read_states(members: &Vec<(&String, &Value)>, name: &str) -> (r: Option<Vec<DocumentState>>)
    ensures
        match r {
            Some(states) => required_states(members_of(members@), name@) == Some(
                state_list(states@),
            ),
            None => required_states(members_of(members@), name@) is None,
        },
{
    let v = match find_member(members, name) {
        Some(v) => v,
        None => { return None; },
    };
    let items = match value_as_array(v) {
        Some(items) => items,
        None => { return None; },
    };
    let ghost read = items_of(items@).map_values(|x: Json| state_from_json(x));
    let mut states: Vec<DocumentState> = Vec::new();
    let mut i: usize = 0;
    while i < items.len()
        invariant
            i <= items.len(),
            states@.len() == i,
            member(members_of(members@), name@) == Some(Json::Array(items_of(items@))),
            read == items_of(items@).map_values(|x: Json| state_from_json(x)),
            forall|j: int| 0 <= j < i ==> (#[trigger] read[j]) == Some(states@[j]@),
        decreases items.len() - i,
    {
        match state_from_value(&items[i]) {
            Some(state) => {
                states.push(state);
            },
            None => {
                assert(read[i as int] is None);
                return None;
            },
        }
        i += 1;
    }
    assert(read.map_values(|o: Option<DocumentStateView>| o->Some_0) =~= state_list(states@));
    Some(states)
}

fn document_from_value(v: &Value) -> (r: Option<Document>)
    ensures
        match r {
            Some(doc) => document_from_json(json_of(*v)) == Some(doc@),
            None => document_from_json(json_of(*v)) is None,
        },
{
    let members = match value_members(v) {
        Some(members) => members,
        None => { return None; },
    };
    let id = match read_text(&members, "id") {
        Some(s) => s,
        None => { return None; },
    };
    let root_id = match read_text(&members, "rootId") {
        Some(s) => s,
        None => { return None; },
    };
    let cursor_id = match read_text(&members, "cursorId") {
        Some(s) => s,
        None => { return None; },
    };
    let nodes = match find_member(&members, "nodes") {
        Some(dict) => match node_dict_from_value(dict) {
            Some(d) => d,
            None => { return None; },
        },
        None => { return None; },
    };
    let undo_stack = match read_states(&members, "undoStack") {
        Some(s) => s,
        None => { return None; },
    };
    let redo_stack = match read_states(&members, "redoStack") {
        Some(s) => s,
        None => { return None; },
    };
    Some(Document { id, root_id, cursor_id, nodes, undo_stack, redo_stack })
}

fn document_dict_from_value(v: &Value) -> (r: Option<Dict<Document>>)
    ensures
        match r {
            Some(docs) => document_dict_from_json(json_of(*v)) == Some(docs@),
            None => document_dict_from_json(json_of(*v)) is None,
        },
{
    let members = match value_members(v) {
        Some(members) => members,
        None => { return None; },
    };
    let ghost read = members_of(members@).map_values(
        |m: (Seq<char>, Json)| named(m.0, document_from_json(m.1)),
    );
    let mut entries: Vec<(String, Document)> = Vec::new();
    let mut i: usize = 0;
    while i < members.len()
        invariant
            i <= members.len(),
            entries@.len() == i,
            json_of(*v) == Json::Object(members_of(members@)),
            read == members_of(members@).map_values(
                |m: (Seq<char>, Json)| named(m.0, document_from_json(m.1)),
            ),
            forall|j: int|
                0 <= j < i ==> (#[trigger] read[j]) == Some((entries@[j].0@, entries@[j].1@)),
        decreases members.len() - i,
    {
        match document_from_value(members[i].1) {
            Some(doc) => {
                entries.push((members[i].0.clone(), doc));
            },
            None => {
                assert(read[i as int] is None);
                return None;
            },
        }
        i += 1;
    }
    let ghost keys = entries@.map_values(|e: (String, Document)| e.0@);
    assert(keys =~= names_of(members@)) by {
        assert forall|j: int| 0 <= j < keys.len() implies keys[j] == names_of(members@)[j] by {
            assert(read[j] == Some((entries@[j].0@, entries@[j].1@)));
        }
    }
    let docs = Dict::from_distinct(entries);
    assert(read.map_values(|o: Option<(Seq<char>, DocumentView)>| o->Some_0) =~= docs@);
    Some(docs)
}

fn tab_list_from_value(v: &Value) -> (r: Option<Vec<TabRef>>)
    ensures
        match r {
            Some(tabs) => tab_list_from_json(json_of(*v)) == Some(tab_list(tabs@)),
            None => tab_list_from_json(json_of(*v)) is None,
        },
{
    let items = match value_as_array(v) {
        Some(items) => items,
        None => { return None; },
    };
    let ghost read = items_of(items@).map_values(|x: Json| tab_from_json(x));
    let mut tabs: Vec<TabRef> = Vec::new();
    let mut i: usize = 0;
    while i < items.len()
        invariant
            i <= items.len(),
            tabs@.len() == i,
            json_of(*v) == Json::Array(items_of(items@)),
            read == items_of(items@).map_values(|x: Json| tab_from_json(x)),
            forall|j: int| 0 <= j < i ==> (#[trigger] read[j]) == Some(tabs@[j]@),
        decreases items.len() - i,
    {
        let doc_id = match value_members(&items[i]) {
            Some(members) => read_text(&members, "docId"),
            None => None,
        };
        match doc_id {
            Some(doc_id) => {
                tabs.push(TabRef { doc_id });
            },
            None => {
                assert(read[i as int] is None);
                return None;
            },
        }
        i += 1;
    }
    assert(read.map_values(|o: Option<TabRefView>| o->Some_0) =~= tab_list(tabs@));
    Some(tabs)
}

/// Reads a workspace from a JSON value: the workspace that the value
/// describes, or `None` where it does not have the shape of one.
pub fn workspace_from_value(v: &Value) -> (r: Option<Workspace>)
    ensures
        match r {
            Some(w) => workspace_from_json(json_of(*v)) == Some(w@),
            None => workspace_from_json(json_of(*v)) is None,
        },
{
    let members = match value_members(v) {
        Some(members) => members,
        None => { return None; },
    };
    let tabs = match find_member(&members, "tabs") {
        Some(list) => match tab_list_from_value(list) {
            Some(t) => t,
            None => { return None; },
        },
        None => { return None; },
    };
    let active_doc_id = match read_text(&members, "activeDocId") {
        Some(s) => s,
        None => { return None; },
    };
    let documents = match find_member(&members, "documents") {
        Some(dict) => match document_dict_from_value(dict) {
            Some(d) => d,
            None => { return None; },
        },
        None => { return None; },
    };
    Some(Workspace { tabs, active_doc_id, documents })
}

// Writing

fn opt_text_to_value(text: &Option<String>) -> (v: Value)
    ensures
        json_of(v) == opt_text_to_json(opt_text(*text)),
{
    match text {
        Some(s) => string_value(s.clone()),
        None => null_value(),
    }
}

fn text_list_to_value(list: &Vec<String>) -> (v: Value)
    ensures
        json_of(v) == text_list_to_json(text_list(list@)),
{
    let mut items: Vec<Value> = Vec::new();
    let mut i: usize = 0;
    while i < list.len()
        invariant
            i <= list.len(),
            items@.len() == i,
            forall|j: int| 0 <= j < i ==> json_of(#[trigger] items@[j]) == Json::Str(list@[j]@),
        decreases list.len() - i,
    {
        items.push(string_value(list[i].clone()));
        i += 1;
    }
    assert(items_of(items@) =~= text_list(list@).map_values(|s: Seq<char>| Json::Str(s)));
    array_value(items)
}

fn node_to_value(node: &Node) -> (v: Value)
    ensures
        json_of(v) == node_to_json(node@),
{
    let mut members: Vec<(String, Value)> = Vec::new();
    members.push(("id".to_owned(), string_value(node.id.clone())));
    members.push(("text".to_owned(), string_value(node.text.clone())));
    members.push(("parentId".to_owned(), opt_text_to_value(&node.parent_id)));
    members.push(("childrenIds".to_owned(), text_list_to_value(&node.children_ids)));
    members.push(("color".to_owned(), opt_text_to_value(&node.color)));
    proof {
        lemma_member_names();
        let keys = owned_names_of(members@);
        assert(keys[0] == "id"@ && keys[1] == "text"@ && keys[2] == "parentId"@ && keys[3]
            == "childrenIds"@ && keys[4] == "color"@);
        assert(owned_members_of(members@) =~= node_to_json(node@)->Object_0);
    }
    object_value(members)
}

fn node_dict_to_value(nodes: &Dict<Node>) -> (v: Value)
    ensures
        json_of(v) == node_dict_to_json(nodes@),
{
    proof {
        use_type_invariant(nodes);
        nodes.lemma_same_length();
    }
    let mut members: Vec<(String, Value)> = Vec::new();
    let mut i: usize = 0;
    while i < nodes.len()
        invariant
            i <= nodes.keys().len(),
            nodes.keys().len() == nodes.values().len(),
            members@.len() == i,
            forall|j: int|
                0 <= j < i ==> (#[trigger] members@[j]).0@ == nodes.keys()[j] && json_of(
                    members@[j].1,
                ) == node_to_json(nodes.values()[j]@),
        decreases nodes.keys().len() - i,
    {
        match nodes.entry(i) {
            Some((key, node)) => {
                members.push((key.clone(), node_to_value(node)));
            },
            None => {},
        }
        i += 1;
    }
    proof {
        assert(owned_names_of(members@) =~= nodes.keys());
        assert(owned_members_of(members@) =~= nodes@.map_values(
            |e: (Seq<char>, NodeView)| (e.0, node_to_json(e.1)),
        ));
    }
    object_value(members)
}

fn state_to_value(state: &DocumentState) -> (v: Value)
    ensures
        json_of(v) == state_to_json(state@),
{
    let mut members: Vec<(String, Value)> = Vec::new();
    members.push(("rootId".to_owned(), string_value(state.root_id.clone())));
    members.push(("cursorId".to_owned(), string_value(state.cursor_id.clone())));
    members.push(("nodes".to_owned(), node_dict_to_value(&state.nodes)));
    proof {
        lemma_member_names();
        let keys = owned_names_of(members@);
        assert(keys[0] == "rootId"@ && keys[1] == "cursorId"@ && keys[2] == "nodes"@);
        assert(owned_members_of(members@) =~= state_to_json(state@)->Object_0);
    }
    object_value(members)
}

fn state_list_to_value(states: &Vec<DocumentState>) -> (v: Value)
    ensures
        json_of(v) == state_list_to_json(state_list(states@)),
{
    let mut items: Vec<Value> = Vec::new();
    let mut i: usize = 0;
    while i < states.len()
        invariant
            i <= states.len(),
            items@.len() == i,
            forall|j: int| 0 <= j < i ==> json_of(#[trigger] items@[j]) == state_to_json(states@[j]@),
        decreases states.len() - i,
    {
        items.push(state_to_value(&states[i]));
        i += 1;
    }
    assert(items_of(items@) =~= state_list(states@).map_values(
        |s: DocumentStateView| state_to_json(s),
    ));
    array_value(items)
}

fn document_to_value(doc: &Document) -> (v: Value)
    ensures
        json_of(v) == document_to_json(doc@),
{
    let mut members: Vec<(String, Value)> = Vec::new();
    members.push(("id".to_owned(), string_value(doc.id.clone())));
    members.push(("rootId".to_owned(), string_value(doc.root_id.clone())));
    members.push(("cursorId".to_owned(), string_value(doc.cursor_id.clone())));
    members.push(("nodes".to_owned(), node_dict_to_value(&doc.nodes)));
    members.push(("undoStack".to_owned(), state_list_to_value(&doc.undo_stack)));
    members.push(("redoStack".to_owned(), state_list_to_value(&doc.redo_stack)));
    proof {
        lemma_member_names();
        let keys = owned_names_of(members@);
        assert(keys[0] == "id"@ && keys[1] == "rootId"@ && keys[2] == "cursorId"@ && keys[3]
            == "nodes"@ && keys[4] == "undoStack"@ && keys[5] == "redoStack"@);
        assert(owned_members_of(members@) =~= document_to_json(doc@)->Object_0);
    }
    object_value(members)
}

fn document_dict_to_value(docs: &Dict<Document>) -> (v: Value)
    ensures
        json_of(v) == document_dict_to_json(docs@),
{
    proof {
        use_type_invariant(docs);
        docs.lemma_same_length();
    }
    let mut members: Vec<(String, Value)> = Vec::new();
    let mut i: usize = 0;
    while i < docs.len()
        invariant
            i <= docs.keys().len(),
            docs.keys().len() == docs.values().len(),
            members@.len() == i,
            forall|j: int|
                0 <= j < i ==> (#[trigger] members@[j]).0@ == docs.keys()[j] && json_of(
                    members@[j].1,
                ) == document_to_json(docs.values()[j]@),
        decreases docs.keys().len() - i,
    {
        match docs.entry(i) {
            Some((key, doc)) => {
                members.push((key.clone(), document_to_value(doc)));
            },
            None => {},
        }
        i += 1;
    }
    proof {
        assert(owned_names_of(members@) =~= docs.keys());
        assert(owned_members_of(members@) =~= docs@.map_values(
            |e: (Seq<char>, DocumentView)| (e.0, document_to_json(e.1)),
        ));
    }
    object_value(members)
}

fn tab_list_to_value(tabs: &Vec<TabRef>) -> (v: Value)
    ensures
        json_of(v) == tab_list_to_json(tab_list(tabs@)),
{
    let mut items: Vec<Value> = Vec::new();
    let mut i: usize = 0;
    while i < tabs.len()
        invariant
            i <= tabs.len(),
            items@.len() == i,
            forall|j: int| 0 <= j < i ==> json_of(#[trigger] items@[j]) == tab_to_json(tabs@[j]@),
        decreases tabs.len() - i,
    {
        let mut members: Vec<(String, Value)> = Vec::new();
        members.push(("docId".to_owned(), string_value(tabs[i].doc_id.clone())));
        proof {
            assert(owned_members_of(members@) =~= tab_to_json(tabs@[i as int]@)->Object_0);
        }
        items.push(object_value(members));
        i += 1;
    }
    assert(items_of(items@) =~= tab_list(tabs@).map_values(|t: TabRefView| tab_to_json(t)));
    array_value(items)
}

/// Writes a workspace as a JSON value: members in the order of the shape,
/// documents and nodes in the order of their mappings.
pub fn workspace_to_value(w: &Workspace) -> (v: Value)
    ensures
        json_of(v) == workspace_to_json(w@),
{
    let mut members: Vec<(String, Value)> = Vec::new();
    members.push(("tabs".to_owned(), tab_list_to_value(&w.tabs)));
    members.push(("activeDocId".to_owned(), string_value(w.active_doc_id.clone())));
    members.push(("documents".to_owned(), document_dict_to_value(&w.documents)));
    proof {
        lemma_member_names();
        let keys = owned_names_of(members@);
        assert(keys[0] == "tabs"@ && keys[1] == "activeDocId"@ && keys[2] == "documents"@);
        assert(owned_members_of(members@) =~= workspace_to_json(w@)->Object_0);
    }
    object_value(members)
}

// Text

/// The text of a workspace: its JSON value as `serde_json` prints it with
/// indentation, and one line feed after it. `None` where the printer fails.
pub open spec fn encoded_text(w: WorkspaceView) -> Option<Seq<char>> {
    match json_print(workspace_to_json(w)) {
        Some(text) => Some(text.push('\n')),
        None => None,
    }
}

/// The workspace that a text describes: `None` where the text is no JSON,
/// or its value does not have the shape of a workspace.
pub open spec fn decoded_workspace(text: Seq<char>) -> Option<WorkspaceView> {
    match json_parse(text) {
        Some(j) => workspace_from_json(j),
        None => None,
    }
}

/// Ends a printed text with a line feed; a printer's failure becomes an
/// encoding error with the printer's message.
pub fn finish_text(printed: Result<String, String>) -> (r: Result<String, StoreError>)
    ensures
        match printed {
            Ok(text) => r matches Ok(done) && done@ == text@.push('\n'),
            Err(cause) => r matches Err(StoreError::Encode(m)) && m@ == cause@,
        },
{
    match printed {
        Ok(text) => {
            proof {
                reveal_strlit("\n");
            }
            let done = text.concat("\n");
            assert(done@ =~= text@.push('\n'));
            Ok(done)
        },
        Err(cause) => Err(StoreError::Encode(cause)),
    }
}

/// Writes a workspace as text. Fails only where the printer does.
pub fn encode_workspace(w: &Workspace) -> (r: Result<String, StoreError>)
    ensures
        match r {
            Ok(text) => encoded_text(w@) == Some(text@),
            Err(e) => encoded_text(w@) is None && e is Encode,
        },
{
    let value = workspace_to_value(w);
    finish_text(print_value(&value))
}

/// Reads a workspace from text. `None` says that the text describes none.
pub fn decode_workspace(text: &str) -> (r: Option<Workspace>)
    ensures
        match r {
            Some(w) => decoded_workspace(text@) == Some(w@),
            None => decoded_workspace(text@) is None,
        },
{
    match parse_value(text) {
        Some(value) => workspace_from_value(&value),
        None => None,
    }
}

/// A workspace that is written and read again is the same workspace,
/// wherever the JSON reader gives back the value that the JSON printer was
/// given.
pub proof fn lemma_text_round_trip(w: WorkspaceView, text: Seq<char>)
    ensures
        encoded_text(w) == Some(text) && json_parse(text) == Some(workspace_to_json(w))
            ==> decoded_workspace(text) == Some(w),
{
    lemma_workspace_round_trip(w);
}

} // verus!
