//! The JSON shape of a workspace, as a pair of mathematical functions: one
//! from a workspace to the JSON value that stands for it, one from a JSON
//! value back to the workspace it describes, if it describes one.
//!
//! Reading is lenient where a file may differ without harm: members that the
//! shape does not name are passed over, and an optional text may be `null`
//! or missing. Anything else that departs from the shape describes no
//! workspace.

use crate::dict::{key_position, lemma_key_position};
use crate::json::Json;
use crate::model::{DocumentStateView, DocumentView, NodeView, TabRefView, WorkspaceView};
use vstd::prelude::*;

verus! {

/// The names of an object's members, in order.
pub open spec fn names(members: Seq<(Seq<char>, Json)>) -> Seq<Seq<char>> {
    members.map_values(|m: (Seq<char>, Json)| m.0)
}

/// The value of the first member called `name`, if there is one.
#[verifier::opaque]
pub open spec fn member(members: Seq<(Seq<char>, Json)>, name: Seq<char>) -> Option<Json> {
    match key_position(names(members), name) {
        Some(i) => Some(members[i].1),
        None => None,
    }
}

/// All of them, if none is missing.
pub open spec fn gather<T>(items: Seq<Option<T>>) -> Option<Seq<T>> {
    if forall|i: int| 0 <= i < items.len() ==> (#[trigger] items[i]) is Some {
        Some(items.map_values(|o: Option<T>| o->Some_0))
    } else {
        None
    }
}

/// Pairs a name with a value that may be missing.
pub open spec fn named<T>(name: Seq<char>, value: Option<T>) -> Option<(Seq<char>, T)> {
    match value {
        Some(v) => Some((name, v)),
        None => None,
    }
}

// Writing

pub open spec fn opt_text_to_json(text: Option<Seq<char>>) -> Json {
    match text {
        Some(s) => Json::Str(s),
        None => Json::Null,
    }
}

pub open spec fn text_list_to_json(list: Seq<Seq<char>>) -> Json {
    Json::Array(list.map_values(|s: Seq<char>| Json::Str(s)))
}

pub open spec fn node_to_json(node: NodeView) -> Json {
    Json::Object(
        seq![
            ("id"@, Json::Str(node.id)),
            ("text"@, Json::Str(node.text)),
            ("parentId"@, opt_text_to_json(node.parent_id)),
            ("childrenIds"@, text_list_to_json(node.children_ids)),
            ("color"@, opt_text_to_json(node.color)),
        ],
    )
}

pub open spec fn node_dict_to_json(nodes: Seq<(Seq<char>, NodeView)>) -> Json {
    Json::Object(nodes.map_values(|e: (Seq<char>, NodeView)| (e.0, node_to_json(e.1))))
}

pub open spec fn state_to_json(state: DocumentStateView) -> Json {
    Json::Object(
        seq![
            ("rootId"@, Json::Str(state.root_id)),
            ("cursorId"@, Json::Str(state.cursor_id)),
            ("nodes"@, node_dict_to_json(state.nodes)),
        ],
    )
}

pub open spec fn state_list_to_json(states: Seq<DocumentStateView>) -> Json {
    Json::Array(states.map_values(|s: DocumentStateView| state_to_json(s)))
}

pub open spec fn document_to_json(doc: DocumentView) -> Json {
    Json::Object(
        seq![
            ("id"@, Json::Str(doc.id)),
            ("rootId"@, Json::Str(doc.root_id)),
            ("cursorId"@, Json::Str(doc.cursor_id)),
            ("nodes"@, node_dict_to_json(doc.nodes)),
            ("undoStack"@, state_list_to_json(doc.undo_stack)),
            ("redoStack"@, state_list_to_json(doc.redo_stack)),
        ],
    )
}

pub open spec fn document_dict_to_json(docs: Seq<(Seq<char>, DocumentView)>) -> Json {
    Json::Object(docs.map_values(|e: (Seq<char>, DocumentView)| (e.0, document_to_json(e.1))))
}

pub open spec fn tab_to_json(tab: TabRefView) -> Json {
    Json::Object(seq![("docId"@, Json::Str(tab.doc_id))])
}

pub open spec fn tab_list_to_json(tabs: Seq<TabRefView>) -> Json {
    Json::Array(tabs.map_values(|t: TabRefView| tab_to_json(t)))
}

/// The JSON value that stands for a workspace.
pub open spec fn workspace_to_json(w: WorkspaceView) -> Json {
    Json::Object(
        seq![
            ("tabs"@, tab_list_to_json(w.tabs)),
            ("activeDocId"@, Json::Str(w.active_doc_id)),
            ("documents"@, document_dict_to_json(w.documents)),
        ],
    )
}

// Reading

pub open spec fn text_from_json(j: Json) -> Option<Seq<char>> {
    match j {
        Json::Str(s) => Some(s),
        _ => None,
    }
}

/// A member that must be there and hold a text.
pub open spec fn required_text(members: Seq<(Seq<char>, Json)>, name: Seq<char>) -> Option<
    Seq<char>,
> {
    match member(members, name) {
        Some(j) => text_from_json(j),
        None => None,
    }
}

/// A member that holds a text, or is `null` or missing. The outer `None`
/// says that it holds something else.
pub open spec fn optional_text(members: Seq<(Seq<char>, Json)>, name: Seq<char>) -> Option<
    Option<Seq<char>>,
> {
    match member(members, name) {
        None => Some(None),
        Some(Json::Null) => Some(None),
        Some(Json::Str(s)) => Some(Some(s)),
        Some(_) => None,
    }
}

pub open spec fn text_list_from_json(j: Json) -> Option<Seq<Seq<char>>> {
    match j {
        Json::Array(items) => gather(items.map_values(|x: Json| text_from_json(x))),
        _ => None,
    }
}

pub open spec fn node_from_json(j: Json) -> Option<NodeView> {
    match j {
        Json::Object(members) => {
            let id = required_text(members, "id"@);
            let text = required_text(members, "text"@);
            let parent_id = optional_text(members, "parentId"@);
            let children_ids = match member(members, "childrenIds"@) {
                Some(list) => text_list_from_json(list),
                None => None,
            };
            let color = optional_text(members, "color"@);
            if id is Some && text is Some && parent_id is Some && children_ids is Some
                && color is Some {
                Some(
                    NodeView {
                        id: id->Some_0,
                        text: text->Some_0,
                        parent_id: parent_id->Some_0,
                        children_ids: children_ids->Some_0,
                        color: color->Some_0,
                    },
                )
            } else {
                None
            }
        },
        _ => None,
    }
}

pub open spec fn node_dict_from_json(j: Json) -> Option<Seq<(Seq<char>, NodeView)>> {
    match j {
        Json::Object(members) => gather(
            members.map_values(|m: (Seq<char>, Json)| named(m.0, node_from_json(m.1))),
        ),
        _ => None,
    }
}

/// The member `nodes`, read as a mapping of nodes.
pub open spec fn required_nodes(members: Seq<(Seq<char>, Json)>) -> Option<
    Seq<(Seq<char>, NodeView)>,
> {
    match member(members, "nodes"@) {
        Some(j) => node_dict_from_json(j),
        None => None,
    }
}

pub open spec fn state_from_json(j: Json) -> Option<DocumentStateView> {
    match j {
        Json::Object(members) => {
            let root_id = required_text(members, "rootId"@);
            let cursor_id = required_text(members, "cursorId"@);
            let nodes = required_nodes(members);
            if root_id is Some && cursor_id is Some && nodes is Some {
                Some(
                    DocumentStateView {
                        root_id: root_id->Some_0,
                        cursor_id: cursor_id->Some_0,
                        nodes: nodes->Some_0,
                    },
                )
            } else {
                None
            }
        },
        _ => None,
    }
}

pub open spec fn state_list_from_json(j: Json) -> Option<Seq<DocumentStateView>> {
    match j {
        Json::Array(items) => gather(items.map_values(|x: Json| state_from_json(x))),
        _ => None,
    }
}

/// A member that must be there and hold a list of snapshots.
pub open spec fn required_states(members: Seq<(Seq<char>, Json)>, name: Seq<char>) -> Option<
    Seq<DocumentStateView>,
> {
    match member(members, name) {
        Some(j) => state_list_from_json(j),
        None => None,
    }
}

pub open spec fn document_from_json(j: Json) -> Option<DocumentView> {
    match j {
        Json::Object(members) => {
            let id = required_text(members, "id"@);
            let root_id = required_text(members, "rootId"@);
            let cursor_id = required_text(members, "cursorId"@);
            let nodes = required_nodes(members);
            let undo_stack = required_states(members, "undoStack"@);
            let redo_stack = required_states(members, "redoStack"@);
            if id is Some && root_id is Some && cursor_id is Some && nodes is Some
                && undo_stack is Some && redo_stack is Some {
                Some(
                    DocumentView {
                        id: id->Some_0,
                        root_id: root_id->Some_0,
                        cursor_id: cursor_id->Some_0,
                        nodes: nodes->Some_0,
                        undo_stack: undo_stack->Some_0,
                        redo_stack: redo_stack->Some_0,
                    },
                )
            } else {
                None
            }
        },
        _ => None,
    }
}

pub open spec fn document_dict_from_json(j: Json) -> Option<Seq<(Seq<char>, DocumentView)>> {
    match j {
        Json::Object(members) => gather(
            members.map_values(|m: (Seq<char>, Json)| named(m.0, document_from_json(m.1))),
        ),
        _ => None,
    }
}

pub open spec fn tab_from_json(j: Json) -> Option<TabRefView> {
    match j {
        Json::Object(members) => match required_text(members, "docId"@) {
            Some(doc_id) => Some(TabRefView { doc_id }),
            None => None,
        },
        _ => None,
    }
}

pub open spec fn tab_list_from_json(j: Json) -> Option<Seq<TabRefView>> {
    match j {
        Json::Array(items) => gather(items.map_values(|x: Json| tab_from_json(x))),
        _ => None,
    }
}

/// The workspace that a JSON value describes, or `None` where the value
/// does not have the shape of one.
pub open spec fn workspace_from_json(j: Json) -> Option<WorkspaceView> {
    match j {
        Json::Object(members) => {
            let tabs = match member(members, "tabs"@) {
                Some(list) => tab_list_from_json(list),
                None => None,
            };
            let active_doc_id = required_text(members, "activeDocId"@);
            let documents = match member(members, "documents"@) {
                Some(dict) => document_dict_from_json(dict),
                None => None,
            };
            if tabs is Some && active_doc_id is Some && documents is Some {
                Some(
                    WorkspaceView {
                        tabs: tabs->Some_0,
                        active_doc_id: active_doc_id->Some_0,
                        documents: documents->Some_0,
                    },
                )
            } else {
                None
            }
        },
        _ => None,
    }
}

// Reading back what was written

/// Finds a member by its position: the first one of that name.
pub proof fn lemma_member_at(members: Seq<(Seq<char>, Json)>, name: Seq<char>, i: int)
    requires
        0 <= i < members.len(),
        members[i].0 == name,
        forall|j: int| 0 <= j < i ==> members[j].0 != name,
    ensures
        member(members, name) == Some(members[i].1),
{
    reveal(member);
    lemma_key_position(names(members), name, i);
}

/// No member of that name.
pub proof fn lemma_member_absent(members: Seq<(Seq<char>, Json)>, name: Seq<char>)
    requires
        forall|j: int| 0 <= j < members.len() ==> members[j].0 != name,
    ensures
        member(members, name) is None,
{
    reveal(member);
    let keys = names(members);
    assert(forall|j: int| 0 <= j < keys.len() ==> keys[j] == members[j].0);
}

/// How long each member name of the shape is, and that the two names of
/// equal length differ.
pub proof fn lemma_member_names()
    ensures
        "id"@.len() == 2,
        "text"@.len() == 4,
        "parentId"@.len() == 8,
        "childrenIds"@.len() == 11,
        "color"@.len() == 5,
        "rootId"@.len() == 6,
        "cursorId"@.len() == 8,
        "nodes"@.len() == 5,
        "undoStack"@.len() == 9,
        "redoStack"@.len() == 9,
        "undoStack"@ != "redoStack"@,
        "docId"@.len() == 5,
        "tabs"@.len() == 4,
        "activeDocId"@.len() == 11,
        "documents"@.len() == 9,
{
    reveal_strlit("id");
    reveal_strlit("text");
    reveal_strlit("parentId");
    reveal_strlit("childrenIds");
    reveal_strlit("color");
    reveal_strlit("rootId");
    reveal_strlit("cursorId");
    reveal_strlit("nodes");
    reveal_strlit("undoStack");
    reveal_strlit("redoStack");
    reveal_strlit("docId");
    reveal_strlit("tabs");
    reveal_strlit("activeDocId");
    reveal_strlit("documents");
    assert("undoStack"@[0] == 'u');
    assert("redoStack"@[0] == 'r');
}

pub proof fn lemma_text_list_round_trip(list: Seq<Seq<char>>)
    ensures
        text_list_from_json(text_list_to_json(list)) == Some(list),
{
    let items = list.map_values(|s: Seq<char>| Json::Str(s));
    let read = items.map_values(|x: Json| text_from_json(x));
    assert forall|i: int| 0 <= i < read.len() implies (#[trigger] read[i]) == Some(list[i]) by {}
    assert(read.map_values(|o: Option<Seq<char>>| o->Some_0) =~= list);
}

pub proof fn lemma_node_round_trip(node: NodeView)
    ensures
        node_from_json(node_to_json(node)) == Some(node),
{
    lemma_member_names();
    let members = node_to_json(node)->Object_0;
    lemma_member_at(members, "id"@, 0);
    lemma_member_at(members, "text"@, 1);
    lemma_member_at(members, "parentId"@, 2);
    lemma_member_at(members, "childrenIds"@, 3);
    lemma_member_at(members, "color"@, 4);
    lemma_text_list_round_trip(node.children_ids);
}

pub proof fn lemma_node_dict_round_trip(nodes: Seq<(Seq<char>, NodeView)>)
    ensures
        node_dict_from_json(node_dict_to_json(nodes)) == Some(nodes),
{
    let members = nodes.map_values(|e: (Seq<char>, NodeView)| (e.0, node_to_json(e.1)));
    let read = members.map_values(|m: (Seq<char>, Json)| named(m.0, node_from_json(m.1)));
    assert forall|i: int| 0 <= i < read.len() implies (#[trigger] read[i]) == Some(nodes[i]) by {
        lemma_node_round_trip(nodes[i].1);
    }
    assert(read.map_values(|o: Option<(Seq<char>, NodeView)>| o->Some_0) =~= nodes);
}

pub proof fn lemma_state_round_trip(state: DocumentStateView)
    ensures
        state_from_json(state_to_json(state)) == Some(state),
{
    lemma_member_names();
    let members = state_to_json(state)->Object_0;
    lemma_member_at(members, "rootId"@, 0);
    lemma_member_at(members, "cursorId"@, 1);
    lemma_member_at(members, "nodes"@, 2);
    lemma_node_dict_round_trip(state.nodes);
}

pub proof fn lemma_state_list_round_trip(states: Seq<DocumentStateView>)
    ensures
        state_list_from_json(state_list_to_json(states)) == Some(states),
{
    let items = states.map_values(|s: DocumentStateView| state_to_json(s));
    let read = items.map_values(|x: Json| state_from_json(x));
    assert forall|i: int| 0 <= i < read.len() implies (#[trigger] read[i]) == Some(states[i]) by {
        lemma_state_round_trip(states[i]);
    }
    assert(read.map_values(|o: Option<DocumentStateView>| o->Some_0) =~= states);
}

/// Where each member of a written document is found.
proof fn lemma_document_members(doc: DocumentView)
    ensures
        ({
            let members = document_to_json(doc)->Object_0;
            &&& member(members, "id"@) == Some(Json::Str(doc.id))
            &&& member(members, "rootId"@) == Some(Json::Str(doc.root_id))
            &&& member(members, "cursorId"@) == Some(Json::Str(doc.cursor_id))
            &&& member(members, "nodes"@) == Some(node_dict_to_json(doc.nodes))
            &&& member(members, "undoStack"@) == Some(state_list_to_json(doc.undo_stack))
            &&& member(members, "redoStack"@) == Some(state_list_to_json(doc.redo_stack))
        }),
{
    lemma_member_names();
    let members = document_to_json(doc)->Object_0;
    assert(members.len() == 6);
    assert(members[0].0 == "id"@ && members[1].0 == "rootId"@ && members[2].0 == "cursorId"@
        && members[3].0 == "nodes"@ && members[4].0 == "undoStack"@ && members[5].0
        == "redoStack"@);
    lemma_member_at(members, "id"@, 0);
    lemma_member_at(members, "rootId"@, 1);
    lemma_member_at(members, "cursorId"@, 2);
    lemma_member_at(members, "nodes"@, 3);
    lemma_member_at(members, "undoStack"@, 4);
    lemma_member_at(members, "redoStack"@, 5);
}

pub proof fn lemma_document_round_trip(doc: DocumentView)
    ensures
        document_from_json(document_to_json(doc)) == Some(doc),
{
    lemma_document_members(doc);
    lemma_node_dict_round_trip(doc.nodes);
    lemma_state_list_round_trip(doc.undo_stack);
    lemma_state_list_round_trip(doc.redo_stack);
}

pub proof fn lemma_document_dict_round_trip(docs: Seq<(Seq<char>, DocumentView)>)
    ensures
        document_dict_from_json(document_dict_to_json(docs)) == Some(docs),
{
    let members = docs.map_values(|e: (Seq<char>, DocumentView)| (e.0, document_to_json(e.1)));
    let read = members.map_values(|m: (Seq<char>, Json)| named(m.0, document_from_json(m.1)));
    assert forall|i: int| 0 <= i < read.len() implies (#[trigger] read[i]) == Some(docs[i]) by {
        lemma_document_round_trip(docs[i].1);
    }
    assert(read.map_values(|o: Option<(Seq<char>, DocumentView)>| o->Some_0) =~= docs);
}

pub proof fn lemma_tab_list_round_trip(tabs: Seq<TabRefView>)
    ensures
        tab_list_from_json(tab_list_to_json(tabs)) == Some(tabs),
{
    let items = tabs.map_values(|t: TabRefView| tab_to_json(t));
    let read = items.map_values(|x: Json| tab_from_json(x));
    assert forall|i: int| 0 <= i < read.len() implies (#[trigger] read[i]) == Some(tabs[i]) by {
        let members = tab_to_json(tabs[i])->Object_0;
        lemma_member_at(members, "docId"@, 0);
    }
    assert(read.map_values(|o: Option<TabRefView>| o->Some_0) =~= tabs);
}

/// Reading the JSON value of a workspace gives that workspace back, whole
/// and in the same order.
pub proof fn lemma_workspace_round_trip(w: WorkspaceView)
    ensures
        workspace_from_json(workspace_to_json(w)) == Some(w),
{
    lemma_member_names();
    let members = workspace_to_json(w)->Object_0;
    lemma_member_at(members, "tabs"@, 0);
    lemma_member_at(members, "activeDocId"@, 1);
    lemma_member_at(members, "documents"@, 2);
    lemma_tab_list_round_trip(w.tabs);
    lemma_document_dict_round_trip(w.documents);
}

} // verus!
