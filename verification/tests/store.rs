use std::collections::BTreeMap;
use workspace_store::codec::{decode_workspace, encode_workspace};
use workspace_store::dict::Dict;
use workspace_store::error::StoreError;
use workspace_store::load::{load_begin, load_resume, LoadStep};
use workspace_store::model::{Document, Node, TabRef, Workspace};
use workspace_store::protocol::{Reply, Request};
use workspace_store::save::{save_begin, save_resume, SaveStep};

fn s(text: &str) -> String {
    text.to_string()
}

/// A storage directory in memory, with failures on demand.
struct Host {
    files: BTreeMap<String, String>,
    now: u128,
    place: Result<bool, String>,
    located: bool,
    refused_moves: usize,
    write_fails: bool,
    read_fails: bool,
    remove_fails: bool,
    asked: Vec<Request>,
}

impl Host {
    fn new() -> Host {
        Host {
            files: BTreeMap::new(),
            now: 1700000000000,
            place: Ok(true),
            located: false,
            refused_moves: 0,
            write_fails: false,
            read_fails: false,
            remove_fails: false,
            asked: vec![],
        }
    }

    fn with_file(text: &str) -> Host {
        let mut host = Host::new();
        host.files.insert(s("workspace.json"), s(text));
        host
    }

    fn perform(&mut self, request: &Request) -> Reply {
        self.asked.push(request.clone());
        match request {
            Request::Locate => {
                self.located = self.place.is_ok();
                Reply::Located(self.place.clone())
            }
            Request::Probe { name } => Reply::Probed(self.files.contains_key(name)),
            Request::Read { name } => {
                if self.read_fails {
                    return Reply::Read(Err(s("cannot read")));
                }
                Reply::Read(self.files.get(name).cloned().ok_or(s("not found")))
            }
            Request::Clock => Reply::Clock(self.now),
            Request::Write { name, text } => {
                assert!(self.located, "wrote before the directory was there");
                if self.write_fails {
                    self.files.insert(name.clone(), text[..text.len() / 2].to_string());
                    return Reply::Written(Err(s("disk full")));
                }
                self.files.insert(name.clone(), text.clone());
                Reply::Written(Ok(()))
            }
            Request::Rename { from, to } => {
                if self.refused_moves > 0 {
                    self.refused_moves -= 1;
                    return Reply::Renamed(Err(s("refused")));
                }
                match self.files.remove(from) {
                    Some(text) => {
                        self.files.insert(to.clone(), text);
                        Reply::Renamed(Ok(()))
                    }
                    None => Reply::Renamed(Err(s("not found"))),
                }
            }
            Request::Remove { name } => {
                if self.remove_fails {
                    return Reply::Removed(Err(s("denied")));
                }
                self.files.remove(name);
                Reply::Removed(Ok(()))
            }
        }
    }

    fn save(&mut self, workspace: Workspace) -> Result<(), StoreError> {
        let mut step = save_begin(workspace);
        loop {
            match step {
                SaveStep::Done(result) => return result,
                SaveStep::Ask(state, request) => {
                    let reply = self.perform(&request);
                    step = save_resume(state, reply);
                }
            }
        }
    }

    fn load(&mut self) -> Result<Option<Workspace>, StoreError> {
        let mut step = load_begin();
        loop {
            match step {
                LoadStep::Done(result) => return result,
                LoadStep::Ask(state, request) => {
                    let reply = self.perform(&request);
                    step = load_resume(state, reply);
                }
            }
        }
    }

    fn names(&self) -> Vec<&str> {
        self.files.keys().map(|k| k.as_str()).collect()
    }
}

fn sample() -> Workspace {
    let mut nodes: Dict<Node> = Dict::new();
    nodes.insert(
        s("r"),
        Node { id: s("r"), text: s(""), parent_id: None, children_ids: vec![s("c1")], color: None },
    );
    nodes.insert(
        s("c1"),
        Node {
            id: s("c1"),
            text: s("hello"),
            parent_id: Some(s("r")),
            children_ids: vec![],
            color: None,
        },
    );
    let mut documents: Dict<Document> = Dict::new();
    documents.insert(
        s("d1"),
        Document {
            id: s("d1"),
            root_id: s("r"),
            cursor_id: s("c1"),
            nodes,
            undo_stack: vec![],
            redo_stack: vec![],
        },
    );
    Workspace { tabs: vec![TabRef { doc_id: s("d1") }], active_doc_id: s("d1"), documents }
}

fn other() -> Workspace {
    Workspace { tabs: vec![], active_doc_id: s("none"), documents: Dict::new() }
}

#[test]
fn save_then_load_gives_the_workspace_back() {
    let mut host = Host::new();
    assert_eq!(host.save(sample()), Ok(()));
    assert_eq!(host.load(), Ok(Some(sample())));
}

#[test]
fn a_save_leaves_one_file_with_the_whole_text() {
    let mut host = Host::new();
    assert_eq!(host.save(sample()), Ok(()));
    assert_eq!(host.names(), vec!["workspace.json"]);
    assert_eq!(host.files["workspace.json"], encode_workspace(&sample()).unwrap());
}

#[test]
fn a_save_asks_for_these_things_in_this_order() {
    let mut host = Host::new();
    host.now = 5;
    assert_eq!(host.save(other()), Ok(()));
    assert_eq!(
        host.asked,
        vec![
            Request::Locate,
            Request::Clock,
            Request::Write {
                name: s("workspace.json.tmp-5"),
                text: encode_workspace(&other()).unwrap()
            },
            Request::Rename { from: s("workspace.json.tmp-5"), to: s("workspace.json") },
        ]
    );
}

#[test]
fn saving_twice_changes_nothing() {
    let mut host = Host::new();
    assert_eq!(host.save(sample()), Ok(()));
    let after_one = host.files.clone();
    host.now += 1;
    assert_eq!(host.save(sample()), Ok(()));
    assert_eq!(host.files, after_one);
    assert_eq!(decode_workspace(&host.files["workspace.json"]), Some(sample()));
    assert_eq!(host.names(), vec!["workspace.json"]);
}

#[test]
fn saving_twice_in_one_millisecond_changes_nothing() {
    let mut host = Host::new();
    assert_eq!(host.save(sample()), Ok(()));
    assert_eq!(host.save(sample()), Ok(()));
    assert_eq!(host.names(), vec!["workspace.json"]);
    assert_eq!(host.load(), Ok(Some(sample())));
}

#[test]
fn a_save_replaces_the_whole_file() {
    let mut host = Host::new();
    assert_eq!(host.save(sample()), Ok(()));
    host.now += 10;
    assert_eq!(host.save(other()), Ok(()));
    assert_eq!(host.files["workspace.json"], encode_workspace(&other()).unwrap());
    assert_eq!(host.load(), Ok(Some(other())));
}

#[test]
fn a_first_load_finds_no_workspace_and_makes_no_file() {
    let mut host = Host::new();
    assert_eq!(host.load(), Ok(None));
    assert!(host.files.is_empty());
    assert_eq!(host.asked, vec![Request::Locate, Request::Probe { name: s("workspace.json") }]);
}

#[test]
fn a_load_leaves_a_good_file_alone() {
    let mut host = Host::new();
    assert_eq!(host.save(sample()), Ok(()));
    let before = host.files.clone();
    assert_eq!(host.load(), Ok(Some(sample())));
    assert_eq!(host.load(), Ok(Some(sample())));
    assert_eq!(host.files, before);
}

#[test]
fn garbage_is_set_aside() {
    let mut host = Host::with_file("{not json");
    host.now = 1700000000123;
    assert_eq!(host.load(), Ok(None));
    assert_eq!(host.names(), vec!["workspace.json.broken-1700000000123"]);
    assert_eq!(host.files["workspace.json.broken-1700000000123"], "{not json");
}

#[test]
fn a_file_of_another_shape_is_set_aside() {
    let text = "{\"tabs\": [], \"activeDocId\": 3, \"documents\": {}}";
    let mut host = Host::with_file(text);
    host.now = 9;
    assert_eq!(host.load(), Ok(None));
    assert_eq!(host.names(), vec!["workspace.json.broken-9"]);
    assert_eq!(host.files["workspace.json.broken-9"], text);
}

#[test]
fn after_the_quarantine_the_directory_is_as_new() {
    let mut host = Host::with_file("{not json");
    assert_eq!(host.load(), Ok(None));
    let before = host.files.clone();
    assert_eq!(host.load(), Ok(None));
    assert_eq!(host.files, before);
    assert_eq!(host.files.len(), 1);
}

#[test]
fn garbage_that_cannot_be_moved_is_still_no_workspace() {
    let mut host = Host::with_file("{not json");
    host.refused_moves = 1;
    assert_eq!(host.load(), Ok(None));
    assert_eq!(host.names(), vec!["workspace.json"]);
    assert_eq!(host.files["workspace.json"], "{not json");
}

#[test]
fn a_file_that_cannot_be_read_fails_the_load() {
    let mut host = Host::with_file("whatever");
    host.read_fails = true;
    assert_eq!(host.load(), Err(StoreError::Io(s("cannot read"))));
    assert_eq!(host.files["workspace.json"], "whatever");
    assert_eq!(host.files.len(), 1);
}

#[test]
fn without_a_place_nothing_is_touched() {
    let mut host = Host::with_file("{not json");
    host.place = Err(s("no data directory"));
    assert_eq!(host.load(), Err(StoreError::PathResolution(s("no data directory"))));
    assert_eq!(host.save(sample()), Err(StoreError::PathResolution(s("no data directory"))));
    assert_eq!(host.asked, vec![Request::Locate, Request::Locate]);
    assert_eq!(host.files["workspace.json"], "{not json");
}

#[test]
fn a_save_locates_before_it_writes() {
    let mut host = Host::new();
    assert_eq!(host.save(sample()), Ok(()));
    assert_eq!(host.asked[0], Request::Locate);
    let first_write = host.asked.iter().position(|r| matches!(r, Request::Write { .. }));
    assert_eq!(first_write, Some(2));
}

#[test]
fn a_path_without_directory_fails_the_save_and_not_the_load() {
    let mut host = Host::new();
    host.place = Ok(false);
    assert_eq!(
        host.save(sample()),
        Err(StoreError::PathResolution(s("workspace.json path has no parent")))
    );
    assert!(host.files.is_empty());
    assert_eq!(host.load(), Ok(None));
}

#[test]
fn a_failed_write_leaves_the_old_file_whole() {
    let mut host = Host::new();
    assert_eq!(host.save(sample()), Ok(()));
    let old = host.files["workspace.json"].clone();
    host.now = 77;
    host.write_fails = true;
    assert_eq!(host.save(other()), Err(StoreError::Io(s("disk full"))));
    assert_eq!(host.files["workspace.json"], old);
    assert_eq!(host.names(), vec!["workspace.json", "workspace.json.tmp-77"]);
    assert_eq!(host.load(), Ok(Some(sample())));
}

#[test]
fn a_refused_move_is_tried_again_after_deleting_the_file() {
    let mut host = Host::new();
    assert_eq!(host.save(sample()), Ok(()));
    host.now = 8;
    host.refused_moves = 1;
    host.asked.clear();
    assert_eq!(host.save(other()), Ok(()));
    assert_eq!(
        host.asked[3..].to_vec(),
        vec![
            Request::Rename { from: s("workspace.json.tmp-8"), to: s("workspace.json") },
            Request::Probe { name: s("workspace.json") },
            Request::Remove { name: s("workspace.json") },
            Request::Rename { from: s("workspace.json.tmp-8"), to: s("workspace.json") },
        ]
    );
    assert_eq!(host.names(), vec!["workspace.json"]);
    assert_eq!(host.load(), Ok(Some(other())));
}

#[test]
fn a_refused_move_with_nothing_in_the_way_is_tried_again_at_once() {
    let mut host = Host::new();
    host.now = 8;
    host.refused_moves = 1;
    assert_eq!(host.save(other()), Ok(()));
    assert!(!host.asked.iter().any(|r| matches!(r, Request::Remove { .. })));
    assert_eq!(host.names(), vec!["workspace.json"]);
}

#[test]
fn two_refusals_fail_the_save_and_leave_the_temporary_file() {
    let mut host = Host::new();
    host.now = 8;
    host.refused_moves = 2;
    assert_eq!(host.save(other()), Err(StoreError::Io(s("refused"))));
    assert_eq!(host.names(), vec!["workspace.json.tmp-8"]);
    assert_eq!(host.files["workspace.json.tmp-8"], encode_workspace(&other()).unwrap());
}

#[test]
fn while_no_move_and_no_deletion_succeeds_the_old_file_stays() {
    let mut host = Host::new();
    assert_eq!(host.save(sample()), Ok(()));
    let old = host.files["workspace.json"].clone();
    host.now = 8;
    host.refused_moves = 2;
    host.remove_fails = true;
    assert_eq!(host.save(other()), Err(StoreError::Io(s("refused"))));
    assert_eq!(host.files["workspace.json"], old);
    assert_eq!(host.files["workspace.json.tmp-8"], encode_workspace(&other()).unwrap());
    assert_eq!(host.load(), Ok(Some(sample())));
}

#[test]
fn a_deletion_followed_by_a_second_refusal_loses_the_old_file() {
    let mut host = Host::new();
    assert_eq!(host.save(sample()), Ok(()));
    host.now = 8;
    host.refused_moves = 2;
    assert_eq!(host.save(other()), Err(StoreError::Io(s("refused"))));
    assert_eq!(host.names(), vec!["workspace.json.tmp-8"]);
}

#[test]
fn a_save_never_writes_the_workspace_file_itself() {
    let mut host = Host::new();
    assert_eq!(host.save(sample()), Ok(()));
    host.refused_moves = 1;
    assert_eq!(host.save(other()), Ok(()));
    for request in &host.asked {
        if let Request::Write { name, .. } = request {
            assert_ne!(name, "workspace.json");
        }
    }
}

#[test]
fn a_save_touches_no_other_file() {
    let mut host = Host::new();
    host.files.insert(s("notes.txt"), s("keep"));
    host.files.insert(s("workspace.json.broken-1"), s("{not json"));
    assert_eq!(host.save(sample()), Ok(()));
    assert_eq!(host.files["notes.txt"], "keep");
    assert_eq!(host.files["workspace.json.broken-1"], "{not json");
    assert_eq!(host.files.len(), 3);
}
