use workspace_store::codec::{
    decode_workspace, encode_workspace, finish_text, workspace_from_value, workspace_to_value,
};
use workspace_store::dict::Dict;
use workspace_store::error::StoreError;
use workspace_store::model::{Document, DocumentState, Node, TabRef, Workspace};

fn s(text: &str) -> String {
    text.to_string()
}

fn node(id: &str, text: &str, parent: Option<&str>, children: &[&str]) -> Node {
    Node {
        id: s(id),
        text: s(text),
        parent_id: parent.map(s),
        children_ids: children.iter().map(|c| s(c)).collect(),
        color: None,
    }
}

fn two_nodes() -> Dict<Node> {
    let mut nodes: Dict<Node> = Dict::new();
    nodes.insert(s("r"), node("r", "", None, &["c1"]));
    nodes.insert(s("c1"), node("c1", "hello", Some("r"), &[]));
    nodes
}

fn sample() -> Workspace {
    let mut documents: Dict<Document> = Dict::new();
    documents.insert(
        s("d1"),
        Document {
            id: s("d1"),
            root_id: s("r"),
            cursor_id: s("c1"),
            nodes: two_nodes(),
            undo_stack: vec![],
            redo_stack: vec![],
        },
    );
    Workspace { tabs: vec![TabRef { doc_id: s("d1") }], active_doc_id: s("d1"), documents }
}

fn empty() -> Workspace {
    Workspace { tabs: vec![], active_doc_id: s(""), documents: Dict::new() }
}

const SAMPLE_TEXT: &str = r#"{
  "tabs": [
    {
      "docId": "d1"
    }
  ],
  "activeDocId": "d1",
  "documents": {
    "d1": {
      "id": "d1",
      "rootId": "r",
      "cursorId": "c1",
      "nodes": {
        "r": {
          "id": "r",
          "text": "",
          "parentId": null,
          "childrenIds": [
            "c1"
          ],
          "color": null
        },
        "c1": {
          "id": "c1",
          "text": "hello",
          "parentId": "r",
          "childrenIds": [],
          "color": null
        }
      },
      "undoStack": [],
      "redoStack": []
    }
  }
}
"#;

#[test]
fn one_document_round_trips() {
    let w = sample();
    let text = encode_workspace(&w).unwrap();
    assert_eq!(decode_workspace(&text), Some(w));
}

#[test]
fn one_document_has_this_text() {
    assert_eq!(encode_workspace(&sample()).unwrap(), SAMPLE_TEXT);
}

#[test]
fn this_text_is_one_document() {
    assert_eq!(decode_workspace(SAMPLE_TEXT), Some(sample()));
}

#[test]
fn the_empty_workspace_has_this_text() {
    let text = encode_workspace(&empty()).unwrap();
    assert_eq!(text, "{\n  \"tabs\": [],\n  \"activeDocId\": \"\",\n  \"documents\": {}\n}\n");
    assert_eq!(decode_workspace(&text), Some(empty()));
}

#[test]
fn the_text_ends_with_one_line_feed() {
    let text = encode_workspace(&sample()).unwrap();
    assert!(text.ends_with("}\n"));
    assert!(!text.ends_with("\n\n"));
}

#[test]
fn encoding_is_repeatable() {
    let w = sample();
    assert_eq!(encode_workspace(&w).unwrap(), encode_workspace(&w).unwrap());
}

#[test]
fn history_and_colors_round_trip() {
    let mut w = sample();
    let mut doc = w.documents.get(&s("d1")).unwrap().clone();
    let mut painted = node("r", "root", None, &["c1", "c2"]);
    painted.color = Some(s("#ff0000"));
    let mut before: Dict<Node> = Dict::new();
    before.insert(s("r"), painted);
    doc.undo_stack.push(DocumentState { root_id: s("r"), cursor_id: s("r"), nodes: before });
    doc.undo_stack.push(DocumentState { root_id: s("r"), cursor_id: s("c1"), nodes: two_nodes() });
    doc.redo_stack.push(DocumentState { root_id: s("r"), cursor_id: s("r"), nodes: Dict::new() });
    w.documents.insert(s("d1"), doc);
    w.tabs.push(TabRef { doc_id: s("d2") });
    let text = encode_workspace(&w).unwrap();
    assert!(text.contains("\"color\": \"#ff0000\""));
    let back = decode_workspace(&text).unwrap();
    assert_eq!(back, w);
    let doc = back.documents.get(&s("d1")).unwrap();
    assert_eq!(doc.undo_stack.len(), 2);
    assert_eq!(doc.undo_stack[1].cursor_id, "c1");
    assert_eq!(doc.redo_stack.len(), 1);
}

#[test]
fn awkward_texts_round_trip() {
    let mut w = sample();
    let mut nodes: Dict<Node> = Dict::new();
    nodes.insert(s("q\"uote"), node("q\"uote", "line\nbreak\ttab \\ slash", None, &["é", "日本語"]));
    nodes.insert(s(""), node("", "\u{1}\u{7f} 😀", Some("q\"uote"), &[""]));
    w.documents.insert(
        s("weird / id"),
        Document {
            id: s("weird / id"),
            root_id: s("q\"uote"),
            cursor_id: s(""),
            nodes,
            undo_stack: vec![],
            redo_stack: vec![],
        },
    );
    let text = encode_workspace(&w).unwrap();
    assert_eq!(decode_workspace(&text), Some(w));
}

#[test]
fn tab_order_is_kept() {
    let mut w = empty();
    for id in ["z", "a", "m", "a"] {
        w.tabs.push(TabRef { doc_id: s(id) });
    }
    let back = decode_workspace(&encode_workspace(&w).unwrap()).unwrap();
    let ids: Vec<&str> = back.tabs.iter().map(|t| t.doc_id.as_str()).collect();
    assert_eq!(ids, vec!["z", "a", "m", "a"]);
}

#[test]
fn the_active_document_need_not_be_open() {
    let mut w = sample();
    w.active_doc_id = s("gone");
    let back = decode_workspace(&encode_workspace(&w).unwrap()).unwrap();
    assert_eq!(back.active_doc_id, "gone");
}

#[test]
fn dangling_references_are_accepted() {
    let text = r#"{"tabs":[{"docId":"nowhere"}],"activeDocId":"nobody","documents":{
        "d":{"id":"other","rootId":"missing","cursorId":"missing","nodes":{},
             "undoStack":[],"redoStack":[]}}}"#;
    let w = decode_workspace(text).unwrap();
    let doc = w.documents.get(&s("d")).unwrap();
    assert_eq!(doc.id, "other");
    assert_eq!(doc.root_id, "missing");
    assert_eq!(doc.nodes.len(), 0);
}

#[test]
fn garbage_is_no_workspace() {
    assert_eq!(decode_workspace("{not json"), None);
}

#[test]
fn the_empty_text_is_no_workspace() {
    assert_eq!(decode_workspace(""), None);
    assert_eq!(decode_workspace("\n"), None);
}

#[test]
fn other_json_is_no_workspace() {
    for text in ["null", "true", "12", "\"text\"", "[]", "{}", "[{}]"] {
        assert_eq!(decode_workspace(text), None, "{}", text);
    }
}

#[test]
fn text_after_the_value_is_no_workspace() {
    let text = format!("{}x", SAMPLE_TEXT);
    assert_eq!(decode_workspace(&text), None);
}

#[test]
fn space_around_the_value_is_passed_over() {
    let text = format!(" \n\t{}\n\n  ", SAMPLE_TEXT);
    assert_eq!(decode_workspace(&text), Some(sample()));
}

#[test]
fn a_missing_member_is_no_workspace() {
    assert_eq!(decode_workspace(r#"{"activeDocId":"","documents":{}}"#), None);
    assert_eq!(decode_workspace(r#"{"tabs":[],"documents":{}}"#), None);
    assert_eq!(decode_workspace(r#"{"tabs":[],"activeDocId":""}"#), None);
}

#[test]
fn a_member_of_another_kind_is_no_workspace() {
    assert_eq!(decode_workspace(r#"{"tabs":{},"activeDocId":"","documents":{}}"#), None);
    assert_eq!(decode_workspace(r#"{"tabs":[],"activeDocId":null,"documents":{}}"#), None);
    assert_eq!(decode_workspace(r#"{"tabs":[],"activeDocId":7,"documents":{}}"#), None);
    assert_eq!(decode_workspace(r#"{"tabs":[],"activeDocId":"","documents":[]}"#), None);
    assert_eq!(decode_workspace(r#"{"tabs":["d"],"activeDocId":"","documents":{}}"#), None);
    assert_eq!(decode_workspace(r#"{"tabs":[{}],"activeDocId":"","documents":{}}"#), None);
    assert_eq!(decode_workspace(r#"{"tabs":[{"docId":1}],"activeDocId":"","documents":{}}"#), None);
}

#[test]
fn member_names_are_exact() {
    assert_eq!(decode_workspace(r#"{"tabs":[],"active_doc_id":"","documents":{}}"#), None);
    assert_eq!(decode_workspace(r#"{"tabs":[],"ActiveDocId":"","documents":{}}"#), None);
    assert_eq!(decode_workspace(r#"{"tabs":[{"doc_id":"d"}],"activeDocId":"","documents":{}}"#), None);
}

fn with_node(node: &str) -> String {
    format!(
        r#"{{"tabs":[],"activeDocId":"d","documents":{{"d":{{"id":"d","rootId":"r","cursorId":"r",
            "nodes":{{"r":{}}},"undoStack":[],"redoStack":[]}}}}}}"#,
        node
    )
}

fn the_node(w: &Workspace) -> Node {
    w.documents.get(&s("d")).unwrap().nodes.get(&s("r")).unwrap().clone()
}

#[test]
fn optional_members_may_be_missing_or_null() {
    let w = decode_workspace(&with_node(r#"{"id":"r","text":"t","childrenIds":[]}"#)).unwrap();
    assert_eq!(the_node(&w), node("r", "t", None, &[]));
    let w = decode_workspace(&with_node(
        r#"{"id":"r","text":"t","parentId":null,"childrenIds":[],"color":null}"#,
    ))
    .unwrap();
    assert_eq!(the_node(&w), node("r", "t", None, &[]));
    let w = decode_workspace(&with_node(
        r#"{"id":"r","text":"t","parentId":"p","childrenIds":["a","b"],"color":"blue"}"#,
    ))
    .unwrap();
    let mut expected = node("r", "t", Some("p"), &["a", "b"]);
    expected.color = Some(s("blue"));
    assert_eq!(the_node(&w), expected);
}

#[test]
fn optional_members_of_another_kind_are_refused() {
    assert_eq!(
        decode_workspace(&with_node(r#"{"id":"r","text":"t","parentId":5,"childrenIds":[]}"#)),
        None
    );
    assert_eq!(
        decode_workspace(&with_node(r#"{"id":"r","text":"t","childrenIds":[],"color":[]}"#)),
        None
    );
}

#[test]
fn a_broken_node_spoils_the_workspace() {
    assert_eq!(decode_workspace(&with_node(r#"{"id":"r","childrenIds":[]}"#)), None);
    assert_eq!(decode_workspace(&with_node(r#"{"id":"r","text":"t"}"#)), None);
    assert_eq!(decode_workspace(&with_node(r#"{"id":"r","text":"t","childrenIds":[1]}"#)), None);
    assert_eq!(decode_workspace(&with_node(r#"{"id":"r","text":"t","childrenIds":"c"}"#)), None);
    assert_eq!(decode_workspace(&with_node(r#""r""#)), None);
    assert_eq!(decode_workspace(&with_node(r#"null"#)), None);
}

#[test]
fn a_broken_snapshot_spoils_the_workspace() {
    let text = r#"{"tabs":[],"activeDocId":"d","documents":{"d":{"id":"d","rootId":"r",
        "cursorId":"r","nodes":{},"undoStack":[{"rootId":"r","nodes":{}}],"redoStack":[]}}}"#;
    assert_eq!(decode_workspace(text), None);
    let text = r#"{"tabs":[],"activeDocId":"d","documents":{"d":{"id":"d","rootId":"r",
        "cursorId":"r","nodes":{},"undoStack":[],"redoStack":[7]}}}"#;
    assert_eq!(decode_workspace(text), None);
    let text = r#"{"tabs":[],"activeDocId":"d","documents":{"d":{"id":"d","rootId":"r",
        "cursorId":"r","nodes":{},"undoStack":[]}}}"#;
    assert_eq!(decode_workspace(text), None);
}

#[test]
fn unknown_members_are_passed_over() {
    let text = r#"{"version":3,"tabs":[{"docId":"d","pinned":true}],"activeDocId":"d",
        "documents":{"d":{"id":"d","rootId":"r","cursorId":"r","extra":{"a":[1,2.5,null]},
        "nodes":{"r":{"id":"r","text":"","childrenIds":[],"collapsed":false}},
        "undoStack":[{"rootId":"r","cursorId":"r","nodes":{},"at":12}],"redoStack":[]}}}"#;
    let w = decode_workspace(text).unwrap();
    assert_eq!(w.tabs, vec![TabRef { doc_id: s("d") }]);
    assert_eq!(the_node(&w), node("r", "", None, &[]));
    assert_eq!(w.documents.get(&s("d")).unwrap().undo_stack.len(), 1);
}

#[test]
fn members_may_come_in_any_order() {
    let text = r#"{"documents":{"d1":{"redoStack":[],"undoStack":[],"nodes":{
        "r":{"color":null,"childrenIds":["c1"],"parentId":null,"text":"","id":"r"},
        "c1":{"childrenIds":[],"text":"hello","id":"c1","parentId":"r"}},
        "cursorId":"c1","rootId":"r","id":"d1"}},"activeDocId":"d1","tabs":[{"docId":"d1"}]}"#;
    assert_eq!(decode_workspace(text), Some(sample()));
}

#[test]
fn documents_keep_the_order_of_the_file() {
    let text = r#"{"tabs":[],"activeDocId":"","documents":{
        "b":{"id":"b","rootId":"","cursorId":"","nodes":{},"undoStack":[],"redoStack":[]},
        "a":{"id":"a","rootId":"","cursorId":"","nodes":{},"undoStack":[],"redoStack":[]}}}"#;
    let w = decode_workspace(text).unwrap();
    assert_eq!(w.documents.len(), 2);
    assert_eq!(w.documents.entry(0).unwrap().0, "b");
    assert_eq!(w.documents.entry(1).unwrap().0, "a");
    let again = encode_workspace(&w).unwrap();
    assert!(again.find("\"b\": {").unwrap() < again.find("\"a\": {").unwrap());
}

#[test]
fn value_and_text_agree() {
    let w = sample();
    let value = workspace_to_value(&w);
    let printed = serde_json::to_string_pretty(&value).unwrap();
    assert_eq!(format!("{}\n", printed), encode_workspace(&w).unwrap());
    assert_eq!(workspace_from_value(&value), Some(w));
}

#[test]
fn the_value_has_the_members_of_the_shape() {
    let value = workspace_to_value(&sample());
    let top: Vec<&str> = value.as_object().unwrap().keys().map(|k| k.as_str()).collect();
    assert_eq!(top, vec!["tabs", "activeDocId", "documents"]);
    assert_eq!(value["tabs"][0]["docId"].as_str(), Some("d1"));
    let doc = &value["documents"]["d1"];
    let members: Vec<&str> = doc.as_object().unwrap().keys().map(|k| k.as_str()).collect();
    assert_eq!(members, vec!["id", "rootId", "cursorId", "nodes", "undoStack", "redoStack"]);
    let root = &doc["nodes"]["r"];
    let members: Vec<&str> = root.as_object().unwrap().keys().map(|k| k.as_str()).collect();
    assert_eq!(members, vec!["id", "text", "parentId", "childrenIds", "color"]);
    assert!(root["parentId"].is_null());
    assert_eq!(root["childrenIds"][0].as_str(), Some("c1"));
    assert_eq!(doc["nodes"]["c1"]["parentId"].as_str(), Some("r"));
    assert_eq!(doc["undoStack"].as_array().unwrap().len(), 0);
}

#[test]
fn a_value_of_another_shape_is_no_workspace() {
    let value: serde_json::Value = serde_json::from_str(r#"{"tabs":[]}"#).unwrap();
    assert_eq!(workspace_from_value(&value), None);
    assert_eq!(workspace_from_value(&serde_json::Value::Null), None);
    assert_eq!(workspace_from_value(&serde_json::Value::Bool(true)), None);
}

#[test]
fn finish_text_adds_the_line_feed() {
    assert_eq!(finish_text(Ok(s("{}"))), Ok(s("{}\n")));
    assert_eq!(finish_text(Ok(s(""))), Ok(s("\n")));
}

#[test]
fn finish_text_passes_the_failure_on() {
    assert_eq!(finish_text(Err(s("no"))), Err(StoreError::Encode(s("no"))));
}
