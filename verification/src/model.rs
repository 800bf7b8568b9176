//! The workspace and what it is made of: documents, their trees of nodes,
//! the snapshots kept for undo and redo, and the open tabs.
//!
//! These are plain values. Nodes refer to each other by identifier; that the
//! identifiers resolve is the business of whoever edits a document, and
//! nothing here looks into it.

use crate::dict::Dict;
use vstd::prelude::*;

verus! {

/// The view of an optional text.
pub open spec fn opt_text(o: Option<String>) -> Option<Seq<char>> {
    match o {
        Some(s) => Some(s@),
        None => None,
    }
}

/// The views of a list of texts.
pub open spec fn text_list(v: Seq<String>) -> Seq<Seq<char>> {
    v.map_values(|s: String| s@)
}

/// One node of a document's tree.
#[derive(Clone, Debug, PartialEq, Eq)]
pub struct Node {
    pub id: String,
    pub text: String,
    /// Absent only for the root.
    pub parent_id: Option<String>,
    pub children_ids: Vec<String>,
    pub color: Option<String>,
}

pub ghost struct NodeView {
    pub id: Seq<char>,
    pub text: Seq<char>,
    pub parent_id: Option<Seq<char>>,
    pub children_ids: Seq<Seq<char>>,
    pub color: Option<Seq<char>>,
}

impl View for Node {
    type V = NodeView;

    open spec fn view(&self) -> NodeView {
        NodeView {
            id: self.id@,
            text: self.text@,
            parent_id: opt_text(self.parent_id),
            children_ids: text_list(self.children_ids@),
            color: opt_text(self.color),
        }
    }
}

/// A document's tree at one moment, as the undo and redo stacks keep it.
#[derive(Clone, Debug, PartialEq, Eq)]
pub struct DocumentState {
    pub root_id: String,
    pub cursor_id: String,
    pub nodes: Dict<Node>,
}

pub ghost struct DocumentStateView {
    pub root_id: Seq<char>,
    pub cursor_id: Seq<char>,
    pub nodes: Seq<(Seq<char>, NodeView)>,
}

impl View for DocumentState {
    type V = DocumentStateView;

    open spec fn view(&self) -> DocumentStateView {
        DocumentStateView {
            root_id: self.root_id@,
            cursor_id: self.cursor_id@,
            nodes: self.nodes@,
        }
    }
}

/// The views of a stack of snapshots, bottom first.
pub open spec fn state_list(v: Seq<DocumentState>) -> Seq<DocumentStateView> {
    v.map_values(|s: DocumentState| s@)
}

/// A tree of text nodes with its undo and redo history.
#[derive(Clone, Debug, PartialEq, Eq)]
pub struct Document {
    pub id: String,
    pub root_id: String,
    /// The node that has the focus.
    pub cursor_id: String,
    pub nodes: Dict<Node>,
    pub undo_stack: Vec<DocumentState>,
    pub redo_stack: Vec<DocumentState>,
}

pub ghost struct DocumentView {
    pub id: Seq<char>,
    pub root_id: Seq<char>,
    pub cursor_id: Seq<char>,
    pub nodes: Seq<(Seq<char>, NodeView)>,
    pub undo_stack: Seq<DocumentStateView>,
    pub redo_stack: Seq<DocumentStateView>,
}

impl View for Document {
    type V = DocumentView;

    open spec fn view(&self) -> DocumentView {
        DocumentView {
            id: self.id@,
            root_id: self.root_id@,
            cursor_id: self.cursor_id@,
            nodes: self.nodes@,
            undo_stack: state_list(self.undo_stack@),
            redo_stack: state_list(self.redo_stack@),
        }
    }
}

/// Records that a document is open in a tab.
#[derive(Clone, Debug, PartialEq, Eq)]
pub struct TabRef {
    pub doc_id: String,
}

pub ghost struct TabRefView {
    pub doc_id: Seq<char>,
}

impl View for TabRef {
    type V = TabRefView;

    open spec fn view(&self) -> TabRefView {
        TabRefView { doc_id: self.doc_id@ }
    }
}

/// The views of a row of tabs, left to right.
pub open spec fn tab_list(v: Seq<TabRef>) -> Seq<TabRefView> {
    v.map_values(|t: TabRef| t@)
}

/// Everything that is saved: the open tabs in order, the document that has
/// the focus, and all documents by identifier.
#[derive(Clone, Debug, PartialEq, Eq)]
pub struct Workspace {
    pub tabs: Vec<TabRef>,
    /// May name a document that no tab shows.
    pub active_doc_id: String,
    pub documents: Dict<Document>,
}

pub ghost struct WorkspaceView {
    pub tabs: Seq<TabRefView>,
    pub active_doc_id: Seq<char>,
    pub documents: Seq<(Seq<char>, DocumentView)>,
}

impl View for Workspace {
    type V = WorkspaceView;

    open spec fn view(&self) -> WorkspaceView {
        WorkspaceView {
            tabs: tab_list(self.tabs@),
            active_doc_id: self.active_doc_id@,
            documents: self.documents@,
        }
    }
}

} // verus!
