//! Saving the workspace.
//!
//! A save never writes through the name of the workspace file. It writes the
//! whole text to a temporary file beside it and then moves that file onto
//! the workspace file. Where the move is refused while the workspace file
//! exists, the save deletes the workspace file and tries the move once
//! more. After a failure the temporary file is left where it is.

use crate::codec::{encode_workspace, encoded_text};
use crate::disk::{files_after, lemma_files_after_rest, outcome, same_file, Files, Turn};
use crate::error::StoreError;
use crate::model::{Workspace, WorkspaceView};
use crate::names::{
    lemma_names_differ, main_name, temp_name, workspace_file_name, workspace_temp_path,
};
use crate::protocol::{stray_reply, stray_reply_error, Failure, Reply, ReplyView, Request, RequestView};
use vstd::prelude::*;

verus! {

/// Where a save stands: which answer it waits for, and what it must keep
/// until then. `millis` is the time at which the save read the clock; it
/// names the temporary file.
#[derive(Debug, PartialEq, Eq)]
pub enum SaveState {
    /// The place of the workspace file.
    Locating { workspace: Workspace },
    /// The time, to name the temporary file.
    Timing { text: String },
    /// The writing of the temporary file.
    Writing { millis: u128 },
    /// The move of the temporary file onto the workspace file.
    Renaming { millis: u128 },
    /// Whether the workspace file exists, after the move was refused.
    Probing { millis: u128 },
    /// The deletion of the workspace file.
    Removing { millis: u128 },
    /// The second and last move.
    Retrying { millis: u128 },
}

pub ghost enum SaveStateView {
    Locating { workspace: WorkspaceView },
    Timing { text: Seq<char> },
    Writing { millis: u128 },
    Renaming { millis: u128 },
    Probing { millis: u128 },
    Removing { millis: u128 },
    Retrying { millis: u128 },
}

impl View for SaveState {
    type V = SaveStateView;

    open spec fn view(&self) -> SaveStateView {
        match self {
            SaveState::Locating { workspace } => SaveStateView::Locating { workspace: workspace@ },
            SaveState::Timing { text } => SaveStateView::Timing { text: text@ },
            SaveState::Writing { millis } => SaveStateView::Writing { millis: *millis },
            SaveState::Renaming { millis } => SaveStateView::Renaming { millis: *millis },
            SaveState::Probing { millis } => SaveStateView::Probing { millis: *millis },
            SaveState::Removing { millis } => SaveStateView::Removing { millis: *millis },
            SaveState::Retrying { millis } => SaveStateView::Retrying { millis: *millis },
        }
    }
}

/// What a save does next: it asks its host for something, or it is done.
#[derive(Debug, PartialEq, Eq)]
pub enum SaveStep {
    Ask(SaveState, Request),
    Done(Result<(), StoreError>),
}

pub ghost enum SaveStepView {
    Ask(SaveStateView, RequestView),
    Done(Result<(), Failure>),
}

impl View for SaveStep {
    type V = SaveStepView;

    open spec fn view(&self) -> SaveStepView {
        match self {
            SaveStep::Ask(state, request) => SaveStepView::Ask(state@, request@),
            SaveStep::Done(Ok(_)) => SaveStepView::Done(Ok(())),
            SaveStep::Done(Err(e)) => SaveStepView::Done(Err(e@)),
        }
    }
}

/// The move of the temporary file onto the workspace file.
pub open spec fn final_move(millis: u128) -> RequestView {
    RequestView::Rename { from: temp_name(millis), to: main_name() }
}

/// The failure of a save whose workspace file lies in no directory.
pub open spec fn no_parent() -> Failure {
    Failure::PathResolution("workspace.json path has no parent"@)
}

/// The first step of a save: to find the place.
pub open spec fn save_first(workspace: WorkspaceView) -> SaveStepView {
    SaveStepView::Ask(SaveStateView::Locating { workspace }, RequestView::Locate)
}

/// The step that follows when a save in `state` gets `reply`.
pub open spec fn save_next(state: SaveStateView, reply: ReplyView) -> SaveStepView {
    match (state, reply) {
        (SaveStateView::Locating { workspace }, ReplyView::Located(Ok(in_directory))) => {
            match encoded_text(workspace) {
                None => SaveStepView::Done(Err(Failure::Encode)),
                Some(text) => if in_directory {
                    SaveStepView::Ask(SaveStateView::Timing { text }, RequestView::Clock)
                } else {
                    SaveStepView::Done(Err(no_parent()))
                },
            }
        },
        (SaveStateView::Locating { .. }, ReplyView::Located(Err(cause))) => SaveStepView::Done(
            Err(Failure::PathResolution(cause)),
        ),
        (SaveStateView::Timing { text }, ReplyView::Clock(millis)) => SaveStepView::Ask(
            SaveStateView::Writing { millis },
            RequestView::Write { name: temp_name(millis), text },
        ),
        (SaveStateView::Writing { millis }, ReplyView::Written(Ok(_))) => SaveStepView::Ask(
            SaveStateView::Renaming { millis },
            final_move(millis),
        ),
        (SaveStateView::Writing { .. }, ReplyView::Written(Err(cause))) => SaveStepView::Done(
            Err(Failure::Io(cause)),
        ),
        (SaveStateView::Renaming { .. }, ReplyView::Renamed(Ok(_))) => SaveStepView::Done(Ok(())),
        (SaveStateView::Renaming { millis }, ReplyView::Renamed(Err(_))) => SaveStepView::Ask(
            SaveStateView::Probing { millis },
            RequestView::Probe { name: main_name() },
        ),
        (SaveStateView::Probing { millis }, ReplyView::Probed(true)) => SaveStepView::Ask(
            SaveStateView::Removing { millis },
            RequestView::Remove { name: main_name() },
        ),
        (SaveStateView::Probing { millis }, ReplyView::Probed(false)) => SaveStepView::Ask(
            SaveStateView::Retrying { millis },
            final_move(millis),
        ),
        (SaveStateView::Removing { millis }, ReplyView::Removed(_)) => SaveStepView::Ask(
            SaveStateView::Retrying { millis },
            final_move(millis),
        ),
        (SaveStateView::Retrying { .. }, ReplyView::Renamed(Ok(_))) => SaveStepView::Done(Ok(())),
        (SaveStateView::Retrying { .. }, ReplyView::Renamed(Err(cause))) => SaveStepView::Done(
            Err(Failure::Io(cause)),
        ),
        _ => SaveStepView::Done(Err(stray_reply())),
    }
}

fn move_request(millis: u128) -> (request: Request)
    ensures
        request@ == final_move(millis),
{
    Request::Rename { from: workspace_temp_path(millis), to: workspace_file_name() }
}

/// Begins a save of `workspace`.
pub fn save_begin(workspace: Workspace) -> (step: SaveStep)
    ensures
        step@ == save_first(workspace@),
{
    SaveStep::Ask(SaveState::Locating { workspace }, Request::Locate)
}

/// Goes on with a save that waits in `state`, now that the host has
/// answered with `reply`.
pub fn save_resume(state: SaveState, reply: Reply) -> (step: SaveStep)
    ensures
        step@ == save_next(state@, reply@),
{
    match (state, reply) {
        (SaveState::Locating { workspace }, Reply::Located(Ok(in_directory))) => {
            match encode_workspace(&workspace) {
                Err(e) => SaveStep::Done(Err(e)),
                Ok(text) => if in_directory {
                    SaveStep::Ask(SaveState::Timing { text }, Request::Clock)
                } else {
                    SaveStep::Done(
                        Err(
                            StoreError::PathResolution(
                                "workspace.json path has no parent".to_owned(),
                            ),
                        ),
                    )
                },
            }
        },
        (SaveState::Locating { .. }, Reply::Located(Err(cause))) => SaveStep::Done(
            Err(StoreError::PathResolution(cause)),
        ),
        (SaveState::Timing { text }, Reply::Clock(millis)) => SaveStep::Ask(
            SaveState::Writing { millis },
            Request::Write { name: workspace_temp_path(millis), text },
        ),
        (SaveState::Writing { millis }, Reply::Written(Ok(_))) => SaveStep::Ask(
            SaveState::Renaming { millis },
            move_request(millis),
        ),
        (SaveState::Writing { .. }, Reply::Written(Err(cause))) => SaveStep::Done(
            Err(StoreError::Io(cause)),
        ),
        (SaveState::Renaming { .. }, Reply::Renamed(Ok(_))) => SaveStep::Done(Ok(())),
        (SaveState::Renaming { millis }, Reply::Renamed(Err(_))) => SaveStep::Ask(
            SaveState::Probing { millis },
            Request::Probe { name: workspace_file_name() },
        ),
        (SaveState::Probing { millis }, Reply::Probed(true)) => SaveStep::Ask(
            SaveState::Removing { millis },
            Request::Remove { name: workspace_file_name() },
        ),
        (SaveState::Probing { millis }, Reply::Probed(false)) => SaveStep::Ask(
            SaveState::Retrying { millis },
            move_request(millis),
        ),
        (SaveState::Removing { millis }, Reply::Removed(_)) => SaveStep::Ask(
            SaveState::Retrying { millis },
            move_request(millis),
        ),
        (SaveState::Retrying { .. }, Reply::Renamed(Ok(_))) => SaveStep::Done(Ok(())),
        (SaveState::Retrying { .. }, Reply::Renamed(Err(cause))) => SaveStep::Done(
            Err(StoreError::Io(cause)),
        ),
        _ => SaveStep::Done(Err(stray_reply_error())),
    }
}

// What a save does to the files

/// Whether the exchanges `turns` can follow `step` in a directory that
/// holds `files`: each reply answers the request that was pending, and
/// nothing follows the end of the save.
pub open spec fn save_run(step: SaveStepView, files: Files, turns: Seq<Turn>) -> bool
    decreases turns.len(),
{
    if turns.len() == 0 {
        true
    } else {
        match step {
            SaveStepView::Ask(state, request) => outcome(
                files,
                request,
                turns[0].reply,
                turns[0].after,
            ) && save_run(save_next(state, turns[0].reply), turns[0].after, turns.drop_first()),
            SaveStepView::Done(_) => false,
        }
    }
}

/// The step that a save has reached after the exchanges `turns`.
pub open spec fn save_end(step: SaveStepView, turns: Seq<Turn>) -> SaveStepView
    decreases turns.len(),
{
    if turns.len() == 0 {
        step
    } else {
        match step {
            SaveStepView::Ask(state, _) => save_end(
                save_next(state, turns[0].reply),
                turns.drop_first(),
            ),
            SaveStepView::Done(_) => step,
        }
    }
}

/// The time that names the temporary file of a save: what the host
/// answered in the second exchange, when the save asked for the clock.
pub open spec fn save_time(turns: Seq<Turn>) -> Option<u128> {
    if turns.len() >= 2 {
        match turns[1].reply {
            ReplyView::Clock(millis) => Some(millis),
            _ => None,
        }
    } else {
        None
    }
}

/// No move and no deletion has succeeded in these exchanges.
pub open spec fn nothing_moved(turns: Seq<Turn>) -> bool {
    forall|i: int|
        0 <= i < turns.len() ==> !((#[trigger] turns[i]).reply matches ReplyView::Renamed(Ok(_)))
            && !(turns[i].reply matches ReplyView::Removed(Ok(_)))
}

/// Every file but the workspace file and the temporary file of `time` is
/// as it was.
pub open spec fn others_kept(before: Files, time: Option<u128>, now: Files) -> bool {
    forall|name: Seq<char>|
        name != main_name() && (time matches Some(millis) ==> name != temp_name(millis))
            ==> same_file(before, now, name)
}

/// The state of the directory after a save of `w` at `millis` that has
/// succeeded: the workspace file holds the whole text of `w`, the temporary
/// file is gone, and no other file has changed.
pub open spec fn saved(w: WorkspaceView, millis: u128, before: Files, now: Files) -> bool {
    &&& now.contains_key(main_name())
    &&& encoded_text(w) == Some(now[main_name()])
    &&& !now.contains_key(temp_name(millis))
    &&& others_kept(before, Some(millis), now)
}

/// A save never asks to write the workspace file itself.
pub proof fn lemma_save_writes_beside(state: SaveStateView, reply: ReplyView)
    ensures
        save_next(state, reply) matches SaveStepView::Ask(_, RequestView::Write { name, .. })
            ==> name != main_name(),
{
    match reply {
        ReplyView::Clock(millis) => {
            lemma_names_differ(millis, millis);
        },
        _ => {},
    }
}

/// A save asks for nothing before the place is found and its directory is
/// there: unless the first answer says so, the save is over after it.
pub proof fn lemma_save_locates_first(w: WorkspaceView, files: Files, turns: Seq<Turn>)
    requires
        save_run(save_first(w), files, turns),
        turns.len() >= 2,
    ensures
        turns[0].reply == ReplyView::Located(Ok::<bool, Seq<char>>(true)),
        encoded_text(w) is Some,
{
    let rest = turns.drop_first();
    assert(rest.len() >= 1);
    let state = SaveStateView::Locating { workspace: w };
    assert(save_run(save_next(state, turns[0].reply), turns[0].after, rest));
}

/// The temporary file holds the whole text of `w`.
spec fn kept(w: WorkspaceView, millis: u128, now: Files) -> bool {
    now.contains_key(temp_name(millis)) && encoded_text(w) == Some(now[temp_name(millis)])
}

/// What holds at each step of a save of `w` that began in a directory
/// holding `before`, which now holds `now`. `time` is the time that the
/// clock gives or has given in this save.
spec fn save_inv(
    w: WorkspaceView,
    time: Option<u128>,
    before: Files,
    step: SaveStepView,
    now: Files,
) -> bool {
    match step {
        SaveStepView::Ask(SaveStateView::Locating { workspace }, request) => workspace == w
            && request == RequestView::Locate && now == before,
        SaveStepView::Ask(SaveStateView::Timing { text }, request) => encoded_text(w) == Some(
            text,
        ) && request == RequestView::Clock && now == before,
        SaveStepView::Ask(SaveStateView::Writing { millis }, request) => time == Some(millis)
            && now == before && encoded_text(w) is Some && request == (RequestView::Write {
            name: temp_name(millis),
            text: encoded_text(w)->Some_0,
        }),
        SaveStepView::Ask(SaveStateView::Renaming { millis }, request) => time == Some(millis)
            && request == final_move(millis) && kept(w, millis, now) && others_kept(
            before,
            time,
            now,
        ) && same_file(before, now, main_name()),
        SaveStepView::Ask(SaveStateView::Probing { millis }, request) => time == Some(millis)
            && request == (RequestView::Probe { name: main_name() }) && kept(w, millis, now)
            && others_kept(before, time, now),
        SaveStepView::Ask(SaveStateView::Removing { millis }, request) => time == Some(millis)
            && request == (RequestView::Remove { name: main_name() }) && kept(w, millis, now)
            && others_kept(before, time, now),
        SaveStepView::Ask(SaveStateView::Retrying { millis }, request) => time == Some(millis)
            && request == final_move(millis) && kept(w, millis, now) && others_kept(
            before,
            time,
            now,
        ),
        SaveStepView::Done(Ok(_)) => time matches Some(millis) && saved(w, millis, before, now),
        SaveStepView::Done(Err(_)) => others_kept(before, time, now),
    }
}

/// The clock, where the rest of the save still asks for it, answers `time`.
spec fn clock_gives(step: SaveStepView, turns: Seq<Turn>, time: Option<u128>) -> bool {
    match step {
        SaveStepView::Ask(SaveStateView::Locating { .. }, _) => time == save_time(turns),
        SaveStepView::Ask(SaveStateView::Timing { .. }, _) => turns.len() >= 1 ==> (
        turns[0].reply matches ReplyView::Clock(millis) ==> time == Some(millis)),
        _ => true,
    }
}

proof fn lemma_save_step(
    w: WorkspaceView,
    time: Option<u128>,
    before: Files,
    state: SaveStateView,
    request: RequestView,
    now: Files,
    turn: Turn,
)
    requires
        save_inv(w, time, before, SaveStepView::Ask(state, request), now),
        outcome(now, request, turn.reply, turn.after),
        state is Timing ==> (turn.reply matches ReplyView::Clock(millis) ==> time == Some(millis)),
    ensures
        save_inv(w, time, before, save_next(state, turn.reply), turn.after),
{
    if let Some(millis) = time {
        lemma_names_differ(millis, millis);
    }
    assert forall|name: Seq<char>|
        name != main_name() && (time matches Some(millis) ==> name != temp_name(
            millis,
        )) implies same_file(before, turn.after, name) by {
        if state is Writing {
            assert(same_file(now, turn.after, name));
        } else if !(state is Locating) && !(state is Timing) {
            assert(same_file(before, now, name));
        }
    }
}

proof fn lemma_save_run(
    w: WorkspaceView,
    time: Option<u128>,
    before: Files,
    step: SaveStepView,
    now: Files,
    turns: Seq<Turn>,
)
    requires
        save_inv(w, time, before, step, now),
        save_run(step, now, turns),
        clock_gives(step, turns, time),
    ensures
        save_inv(w, time, before, save_end(step, turns), files_after(now, turns)),
    decreases turns.len(),
{
    if turns.len() > 0 {
        match step {
            SaveStepView::Ask(state, request) => {
                let rest = turns.drop_first();
                lemma_save_step(w, time, before, state, request, now, turns[0]);
                let next = save_next(state, turns[0].reply);
                assert(clock_gives(next, rest, time)) by {
                    if rest.len() >= 1 {
                        assert(rest[0] == turns[1]);
                    }
                }
                lemma_save_run(w, time, before, next, turns[0].after, rest);
                lemma_files_after_rest(now, turns);
            },
            SaveStepView::Done(_) => {},
        }
    }
}

/// A save changes no file but the workspace file and its own temporary
/// file, however far it has come and however it ends.
pub proof fn lemma_save_touches_two(w: WorkspaceView, files: Files, turns: Seq<Turn>)
    requires
        save_run(save_first(w), files, turns),
    ensures
        others_kept(files, save_time(turns), files_after(files, turns)),
{
    let time = save_time(turns);
    lemma_save_run(w, time, files, save_first(w), files, turns);
}

/// A save that reports success has put the whole text of the workspace
/// under the name of the workspace file, has left no temporary file behind
/// and has changed nothing else.
pub proof fn lemma_save_succeeds(w: WorkspaceView, files: Files, turns: Seq<Turn>)
    requires
        save_run(save_first(w), files, turns),
        save_end(save_first(w), turns) == SaveStepView::Done(Ok(())),
    ensures
        save_time(turns) matches Some(millis) && saved(
            w,
            millis,
            files,
            files_after(files, turns),
        ),
{
    let time = save_time(turns);
    lemma_save_run(w, time, files, save_first(w), files, turns);
}

/// Saving the same workspace twice: after the second save the workspace
/// file holds what it held after the first, and neither save has left its
/// temporary file behind.
pub proof fn lemma_save_twice(
    w: WorkspaceView,
    files: Files,
    first: Seq<Turn>,
    second: Seq<Turn>,
)
    requires
        save_run(save_first(w), files, first),
        save_end(save_first(w), first) == SaveStepView::Done(Ok(())),
        save_run(save_first(w), files_after(files, first), second),
        save_end(save_first(w), second) == SaveStepView::Done(Ok(())),
    ensures
        ({
            let between = files_after(files, first);
            let after = files_after(between, second);
            &&& same_file(between, after, main_name())
            &&& encoded_text(w) == Some(after[main_name()])
            &&& save_time(first) matches Some(millis) && !after.contains_key(temp_name(millis))
            &&& save_time(second) matches Some(millis) && !after.contains_key(temp_name(millis))
        }),
{
    lemma_save_succeeds(w, files, first);
    let between = files_after(files, first);
    lemma_save_succeeds(w, between, second);
    let one = save_time(first)->Some_0;
    let two = save_time(second)->Some_0;
    lemma_names_differ(one, two);
    if temp_name(one) != temp_name(two) {
        assert(same_file(between, files_after(between, second), temp_name(one)));
    }
}

/// Whether the request of a step is the one that its state waits for: in
/// particular, whether what it writes is its temporary file.
spec fn in_order(step: SaveStepView) -> bool {
    match step {
        SaveStepView::Ask(SaveStateView::Locating { .. }, request) => request
            == RequestView::Locate,
        SaveStepView::Ask(SaveStateView::Timing { .. }, request) => request == RequestView::Clock,
        SaveStepView::Ask(SaveStateView::Writing { millis }, request) => request
            matches RequestView::Write { name, .. } && name == temp_name(millis),
        SaveStepView::Ask(SaveStateView::Renaming { millis }, request) => request == final_move(
            millis,
        ),
        SaveStepView::Ask(SaveStateView::Probing { .. }, request) => request
            == (RequestView::Probe { name: main_name() }),
        SaveStepView::Ask(SaveStateView::Removing { .. }, request) => request
            == (RequestView::Remove { name: main_name() }),
        SaveStepView::Ask(SaveStateView::Retrying { millis }, request) => request == final_move(
            millis,
        ),
        SaveStepView::Done(_) => true,
    }
}

proof fn lemma_save_run_keeps_file(step: SaveStepView, files: Files, turns: Seq<Turn>)
    requires
        in_order(step),
        save_run(step, files, turns),
        nothing_moved(turns),
    ensures
        same_file(files, files_after(files, turns), main_name()),
    decreases turns.len(),
{
    if turns.len() > 0 {
        match step {
            SaveStepView::Ask(state, request) => {
                let rest = turns.drop_first();
                let turn = turns[0];
                assert(same_file(files, turn.after, main_name())) by {
                    if let SaveStateView::Writing { millis } = state {
                        lemma_names_differ(millis, millis);
                    }
                }
                assert(nothing_moved(rest)) by {
                    assert forall|i: int| 0 <= i < rest.len() implies !((
                    #[trigger] rest[i]).reply matches ReplyView::Renamed(Ok(_))) && !(
                    rest[i].reply matches ReplyView::Removed(Ok(_))) by {
                        assert(rest[i] == turns[i + 1]);
                    }
                }
                lemma_save_run_keeps_file(save_next(state, turn.reply), turn.after, rest);
                lemma_files_after_rest(files, turns);
            },
            SaveStepView::Done(_) => {},
        }
    }
}

/// Atomicity: until a move or a deletion succeeds, the workspace file is
/// what it was before the save began, wherever the save stands or has
/// stopped, and whatever has failed.
pub proof fn lemma_save_keeps_file_until_move(w: WorkspaceView, files: Files, turns: Seq<Turn>)
    requires
        save_run(save_first(w), files, turns),
        nothing_moved(turns),
    ensures
        same_file(files, files_after(files, turns), main_name()),
{
    lemma_save_run_keeps_file(save_first(w), files, turns);
}

} // verus!
