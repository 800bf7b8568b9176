//! A model of the storage directory, to say what a load or a save does to
//! the files in it.
//!
//! The directory is a mapping from file names to texts. The model says which
//! answers a host can give to a request and what the directory holds
//! afterwards. Any request may fail. A failed request changes nothing,
//! except that a failed write may leave anything under the name it wrote to.

use crate::protocol::{ReplyView, RequestView};
use vstd::prelude::*;

verus! {

/// The files of the storage directory: each name with the text it holds.
pub type Files = Map<Seq<char>, Seq<char>>;

/// Whether `name` is the same in both: missing in both, or holding the same
/// text.
pub open spec fn same_file(a: Files, b: Files, name: Seq<char>) -> bool {
    a.contains_key(name) == b.contains_key(name) && (a.contains_key(name) ==> a[name] == b[name])
}

/// Whether `reply` can answer `request` in a directory that holds `before`
/// and holds `after` once the request has ended.
pub open spec fn outcome(before: Files, request: RequestView, reply: ReplyView, after: Files) -> bool {
    match (request, reply) {
        (RequestView::Locate, ReplyView::Located(_)) => after == before,
        (RequestView::Probe { name }, ReplyView::Probed(found)) => after == before && found
            == before.contains_key(name),
        (RequestView::Read { name }, ReplyView::Read(Ok(text))) => after == before
            && before.contains_key(name) && before[name] == text,
        (RequestView::Read { .. }, ReplyView::Read(Err(_))) => after == before,
        (RequestView::Clock, ReplyView::Clock(_)) => after == before,
        (RequestView::Write { name, text }, ReplyView::Written(Ok(_))) => after == before.insert(
            name,
            text,
        ),
        (RequestView::Write { name, .. }, ReplyView::Written(Err(_))) => forall|other: Seq<char>|
            other != name ==> same_file(before, after, other),
        (RequestView::Rename { from, to }, ReplyView::Renamed(Ok(_))) => before.contains_key(from)
            && after == before.remove(from).insert(to, before[from]),
        (RequestView::Rename { .. }, ReplyView::Renamed(Err(_))) => after == before,
        (RequestView::Remove { name }, ReplyView::Removed(Ok(_))) => after == before.remove(name),
        (RequestView::Remove { .. }, ReplyView::Removed(Err(_))) => after == before,
        _ => false,
    }
}

/// One exchange with the host: its reply, and the directory after it.
pub ghost struct Turn {
    pub reply: ReplyView,
    pub after: Files,
}

/// The directory after a row of exchanges that began with `files`.
pub open spec fn files_after(files: Files, turns: Seq<Turn>) -> Files {
    if turns.len() == 0 {
        files
    } else {
        turns.last().after
    }
}

/// The directory after a row of exchanges is the one after its last, which
/// is also the last of the row without its first.
pub proof fn lemma_files_after_rest(files: Files, turns: Seq<Turn>)
    requires
        turns.len() > 0,
    ensures
        files_after(files, turns) == files_after(turns[0].after, turns.drop_first()),
{
    let rest = turns.drop_first();
    if rest.len() > 0 {
        assert(rest.last() == turns.last());
    }
}

} // verus!
