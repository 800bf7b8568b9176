//! Loading the workspace.
//!
//! A load finds the workspace file, reads it and decodes it. Where there is
//! no file there is no workspace, and that is no error. A file that cannot
//! be decoded is moved aside under a backup name; whether or not the move
//! succeeds, the load reports that there is no workspace. Only a failure to
//! find the place or to read an existing file is an error.

use crate::codec::{decode_workspace, decoded_workspace};
use crate::disk::{files_after, lemma_files_after_rest, outcome, Files, Turn};
use crate::error::StoreError;
use crate::model::{Workspace, WorkspaceView};
use crate::names::{
    backup_name, lemma_names_differ, main_name, workspace_broken_backup_path, workspace_file_name,
};
use crate::protocol::{stray_reply, stray_reply_error, Failure, Reply, ReplyView, Request, RequestView};
use vstd::prelude::*;

verus! {

/// Where a load stands: which answer it waits for.
#[derive(Clone, Copy, Debug, PartialEq, Eq)]
pub enum LoadState {
    /// The place of the workspace file.
    Locating,
    /// Whether the file exists.
    Probing,
    /// The text of the file.
    Reading,
    /// The time, to name the backup of a corrupt file.
    Timing,
    /// The move of the corrupt file to its backup name.
    Quarantining,
}

/// What a load does next: it asks its host for something, or it is done.
/// `Done(Ok(None))` says that there is no workspace.
#[derive(Debug, PartialEq, Eq)]
pub enum LoadStep {
    Ask(LoadState, Request),
    Done(Result<Option<Workspace>, StoreError>),
}

pub ghost enum LoadStepView {
    Ask(LoadState, RequestView),
    Done(Result<Option<WorkspaceView>, Failure>),
}

impl View for LoadStep {
    type V = LoadStepView;

    open spec fn view(&self) -> LoadStepView {
        match self {
            LoadStep::Ask(state, request) => LoadStepView::Ask(*state, request@),
            LoadStep::Done(Ok(Some(w))) => LoadStepView::Done(Ok(Some(w@))),
            LoadStep::Done(Ok(None)) => LoadStepView::Done(Ok(None)),
            LoadStep::Done(Err(e)) => LoadStepView::Done(Err(e@)),
        }
    }
}

/// The first step of a load: to find the place.
pub open spec fn load_first() -> LoadStepView {
    LoadStepView::Ask(LoadState::Locating, RequestView::Locate)
}

/// The step that follows when a load in `state` gets `reply`.
pub open spec fn load_next(state: LoadState, reply: ReplyView) -> LoadStepView {
    match (state, reply) {
        (LoadState::Locating, ReplyView::Located(Ok(_))) => LoadStepView::Ask(
            LoadState::Probing,
            RequestView::Probe { name: main_name() },
        ),
        (LoadState::Locating, ReplyView::Located(Err(cause))) => LoadStepView::Done(
            Err(Failure::PathResolution(cause)),
        ),
        (LoadState::Probing, ReplyView::Probed(true)) => LoadStepView::Ask(
            LoadState::Reading,
            RequestView::Read { name: main_name() },
        ),
        (LoadState::Probing, ReplyView::Probed(false)) => LoadStepView::Done(Ok(None)),
        (LoadState::Reading, ReplyView::Read(Ok(text))) => match decoded_workspace(text) {
            Some(w) => LoadStepView::Done(Ok(Some(w))),
            None => LoadStepView::Ask(LoadState::Timing, RequestView::Clock),
        },
        (LoadState::Reading, ReplyView::Read(Err(cause))) => LoadStepView::Done(
            Err(Failure::Io(cause)),
        ),
        (LoadState::Timing, ReplyView::Clock(millis)) => LoadStepView::Ask(
            LoadState::Quarantining,
            RequestView::Rename { from: main_name(), to: backup_name(millis) },
        ),
        (LoadState::Quarantining, ReplyView::Renamed(_)) => LoadStepView::Done(Ok(None)),
        _ => LoadStepView::Done(Err(stray_reply())),
    }
}

/// Begins a load.
pub fn load_begin() -> (step: LoadStep)
    ensures
        step@ == load_first(),
{
    LoadStep::Ask(LoadState::Locating, Request::Locate)
}

/// Goes on with a load that waits in `state`, now that the host has
/// answered with `reply`.
pub fn load_resume(state: LoadState, reply: Reply) -> (step: LoadStep)
    ensures
        step@ == load_next(state, reply@),
{
    match (state, reply) {
        (LoadState::Locating, Reply::Located(Ok(_))) => LoadStep::Ask(
            LoadState::Probing,
            Request::Probe { name: workspace_file_name() },
        ),
        (LoadState::Locating, Reply::Located(Err(cause))) => LoadStep::Done(
            Err(StoreError::PathResolution(cause)),
        ),
        (LoadState::Probing, Reply::Probed(true)) => LoadStep::Ask(
            LoadState::Reading,
            Request::Read { name: workspace_file_name() },
        ),
        (LoadState::Probing, Reply::Probed(false)) => LoadStep::Done(Ok(None)),
        (LoadState::Reading, Reply::Read(Ok(text))) => match decode_workspace(text.as_str()) {
            Some(w) => LoadStep::Done(Ok(Some(w))),
            None => LoadStep::Ask(LoadState::Timing, Request::Clock),
        },
        (LoadState::Reading, Reply::Read(Err(cause))) => LoadStep::Done(Err(StoreError::Io(cause))),
        (LoadState::Timing, Reply::Clock(millis)) => LoadStep::Ask(
            LoadState::Quarantining,
            Request::Rename {
                from: workspace_file_name(),
                to: workspace_broken_backup_path(millis),
            },
        ),
        (LoadState::Quarantining, Reply::Renamed(_)) => LoadStep::Done(Ok(None)),
        _ => LoadStep::Done(Err(stray_reply_error())),
    }
}

// What a load does to the files

/// Whether the exchanges `turns` can follow `step` in a directory that
/// holds `files`: each reply answers the request that was pending, and
/// nothing follows the end of the load.
pub open spec fn load_run(step: LoadStepView, files: Files, turns: Seq<Turn>) -> bool
    decreases turns.len(),
{
    if turns.len() == 0 {
        true
    } else {
        match step {
            LoadStepView::Ask(state, request) => outcome(
                files,
                request,
                turns[0].reply,
                turns[0].after,
            ) && load_run(load_next(state, turns[0].reply), turns[0].after, turns.drop_first()),
            LoadStepView::Done(_) => false,
        }
    }
}

/// The step that a load has reached after the exchanges `turns`.
pub open spec fn load_end(step: LoadStepView, turns: Seq<Turn>) -> LoadStepView
    decreases turns.len(),
{
    if turns.len() == 0 {
        step
    } else {
        match step {
            LoadStepView::Ask(state, _) => load_end(
                load_next(state, turns[0].reply),
                turns.drop_first(),
            ),
            LoadStepView::Done(_) => step,
        }
    }
}

/// A load asks for nothing that writes or deletes a file.
pub proof fn lemma_load_never_writes(state: LoadState, reply: ReplyView)
    ensures
        !(load_next(state, reply) matches LoadStepView::Ask(_, RequestView::Write { .. })),
        !(load_next(state, reply) matches LoadStepView::Ask(_, RequestView::Remove { .. })),
{
}

/// The corrupt file was moved aside: the workspace file is gone and a
/// backup holds its text.
pub open spec fn quarantined(before: Files, after: Files) -> bool {
    exists|millis: u128|
        after == before.remove(main_name()).insert(
            #[trigger] backup_name(millis),
            before[main_name()],
        )
}

/// What a finished load reports, and what it has done to a directory that
/// held `before` and now holds `after`.
pub open spec fn load_settled(
    before: Files,
    result: Result<Option<WorkspaceView>, Failure>,
    after: Files,
) -> bool {
    match result {
        Ok(Some(w)) => after == before && before.contains_key(main_name()) && decoded_workspace(
            before[main_name()],
        ) == Some(w),
        Ok(None) => if before.contains_key(main_name()) {
            decoded_workspace(before[main_name()]) is None && (after == before || quarantined(
                before,
                after,
            ))
        } else {
            after == before
        },
        Err(Failure::PathResolution(_)) => after == before,
        Err(Failure::Io(_)) => after == before && before.contains_key(main_name()),
        Err(Failure::Encode) => false,
    }
}

/// What holds at each step of a load that began in a directory holding
/// `before`, which now holds `now`.
spec fn load_inv(before: Files, step: LoadStepView, now: Files) -> bool {
    match step {
        LoadStepView::Ask(LoadState::Locating, request) => request == RequestView::Locate && now
            == before,
        LoadStepView::Ask(LoadState::Probing, request) => request == (RequestView::Probe {
            name: main_name(),
        }) && now == before,
        LoadStepView::Ask(LoadState::Reading, request) => request == (RequestView::Read {
            name: main_name(),
        }) && now == before && before.contains_key(main_name()),
        LoadStepView::Ask(LoadState::Timing, request) => request == RequestView::Clock && now
            == before && before.contains_key(main_name()) && decoded_workspace(
            before[main_name()],
        ) is None,
        LoadStepView::Ask(LoadState::Quarantining, request) => now == before
            && before.contains_key(main_name()) && decoded_workspace(before[main_name()]) is None
            && exists|millis: u128|
            request == (RequestView::Rename {
                from: main_name(),
                to: #[trigger] backup_name(millis),
            }),
        LoadStepView::Done(result) => load_settled(before, result, now),
    }
}

proof fn lemma_load_step(
    before: Files,
    state: LoadState,
    request: RequestView,
    now: Files,
    turn: Turn,
)
    requires
        load_inv(before, LoadStepView::Ask(state, request), now),
        outcome(now, request, turn.reply, turn.after),
    ensures
        load_inv(before, load_next(state, turn.reply), turn.after),
{
    match (state, turn.reply) {
        (LoadState::Timing, ReplyView::Clock(millis)) => {
            assert(backup_name(millis) == backup_name(millis));
        },
        (LoadState::Quarantining, ReplyView::Renamed(Ok(_))) => {
            let millis = choose|millis: u128|
                request == (RequestView::Rename {
                    from: main_name(),
                    to: #[trigger] backup_name(millis),
                });
            assert(turn.after == before.remove(main_name()).insert(
                backup_name(millis),
                before[main_name()],
            ));
        },
        _ => {},
    }
}

proof fn lemma_load_run(before: Files, step: LoadStepView, now: Files, turns: Seq<Turn>)
    requires
        load_inv(before, step, now),
        load_run(step, now, turns),
    ensures
        load_inv(before, load_end(step, turns), files_after(now, turns)),
    decreases turns.len(),
{
    if turns.len() > 0 {
        match step {
            LoadStepView::Ask(state, request) => {
                lemma_load_step(before, state, request, now, turns[0]);
                lemma_load_run(
                    before,
                    load_next(state, turns[0].reply),
                    turns[0].after,
                    turns.drop_first(),
                );
                lemma_files_after_rest(now, turns);
            },
            LoadStepView::Done(_) => {},
        }
    }
}

/// A load that has come to its end reports the workspace that the file
/// describes and leaves every file as it was, with one exception: a
/// workspace file that describes no workspace may have been moved to a
/// backup name. It reports no workspace where there is no file or the file
/// describes none, and an error only where the place was not found or an
/// existing file could not be read.
pub proof fn lemma_load_settles(
    files: Files,
    turns: Seq<Turn>,
    result: Result<Option<WorkspaceView>, Failure>,
)
    requires
        load_run(load_first(), files, turns),
        load_end(load_first(), turns) == LoadStepView::Done(result),
    ensures
        load_settled(files, result, files_after(files, turns)),
{
    lemma_load_run(files, load_first(), files, turns);
}

/// A first run: with no workspace file in the directory, a load whose place
/// was found reports that there is no workspace, and no file appears or
/// changes.
pub proof fn lemma_load_without_file(
    files: Files,
    turns: Seq<Turn>,
    result: Result<Option<WorkspaceView>, Failure>,
)
    requires
        !files.contains_key(main_name()),
        load_run(load_first(), files, turns),
        load_end(load_first(), turns) == LoadStepView::Done(result),
    ensures
        files_after(files, turns) == files,
        result == Ok::<Option<WorkspaceView>, Failure>(None) || result is Err && result->Err_0
            is PathResolution,
{
    lemma_load_run(files, load_first(), files, turns);
}

/// Quarantine: with a workspace file that describes no workspace, a load
/// that could read it reports that there is no workspace. If the directory
/// has changed at all, the workspace file is gone and one backup holds its
/// text, letter for letter.
pub proof fn lemma_load_of_corrupt_file(
    files: Files,
    turns: Seq<Turn>,
    result: Result<Option<WorkspaceView>, Failure>,
)
    requires
        files.contains_key(main_name()),
        decoded_workspace(files[main_name()]) is None,
        load_run(load_first(), files, turns),
        load_end(load_first(), turns) == LoadStepView::Done(result),
    ensures
        result is Ok ==> result == Ok::<Option<WorkspaceView>, Failure>(None),
        result is Err ==> files_after(files, turns) == files,
        files_after(files, turns) == files || (quarantined(files, files_after(files, turns))
            && !files_after(files, turns).contains_key(main_name())),
{
    lemma_load_run(files, load_first(), files, turns);
    let after = files_after(files, turns);
    if after != files {
        let millis = choose|millis: u128|
            after == files.remove(main_name()).insert(
                #[trigger] backup_name(millis),
                files[main_name()],
            );
        lemma_names_differ(millis, millis);
    }
}

} // verus!
