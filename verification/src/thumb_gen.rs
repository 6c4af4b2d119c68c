//! Generating the thumbnail of one album, stage by stage.
//!
//! A task starts out pending. Its owner looks for the cover embedded in the
//! album's first file; with a cover the task moves on to resizing, then to
//! compressing, and then it is done. The waiting and the starting of
//! processes is the owner's work: [`GenThumb::awaits`] says what the task
//! waits for, [`GenThumb::advance`] takes what the owner found and says what
//! becomes of the task and what the owner has to do for it next.

use vstd::prelude::*;
use crate::command::{
    compress_command,
    resize_command,
    spec_compress_command,
    spec_resize_command,
    Command,
    CommandView,
};
use crate::plan::{
    generating,
    pending_task,
    planned,
    planned_tasks,
    planning_updates,
    scanning,
    starts_album,
    tracks_view,
    updates_so_far,
    Track,
    PUBLISH_EVERY,
};
use crate::prim::AlbumId;
use crate::scan::{ScanStage, Status};
use crate::scratch::{get_tmp_fname, lemma_tmp_fname_injective, tmp_fname};
use std::collections::HashSet;

verus! {

/// The external tools that a task runs, one after the other.
#[derive(Clone, Copy, Debug, PartialEq, Eq, Structural, Hash)]
pub enum Tool {
    Resize,
    Compress,
}

/// Names one external process. A task runs each tool once, so the album and
/// the tool tell the process apart from every other one of the run.
#[derive(Clone, Copy, Debug, PartialEq, Eq, Structural, Hash)]
pub struct ProcessHandle {
    pub album_id: AlbumId,
    pub tool: Tool,
}

/// The state of generating a single thumbnail.
#[derive(Clone, Debug, PartialEq, Eq)]
pub enum GenThumbState {
    /// Nothing was done yet. The cover is looked for in this file.
    Pending { flac_filename: String },
    /// The cover is being resized into the file at `out_path`.
    Resizing { child: ProcessHandle, out_path: String },
    /// The file at `in_path` is being compressed.
    Compressing { child: ProcessHandle, in_path: String },
}

/// Tracks the process of generating a thumbnail.
#[derive(Clone, Debug, PartialEq, Eq)]
pub struct GenThumb {
    pub album_id: AlbumId,
    pub state: GenThumbState,
}

/// How far a task has come.
#[derive(Clone, Copy, Debug, PartialEq, Eq, Structural)]
pub enum Stage {
    Pending,
    Resizing,
    Compressing,
}

impl Stage {
    /// Number of transitions that lie behind a task at this stage.
    pub open spec fn index(self) -> nat {
        match self {
            Stage::Pending => 0,
            Stage::Resizing => 1,
            Stage::Compressing => 2,
        }
    }
}

/// A [`GenThumbState`] as plain values.
pub enum GenThumbStateView {
    Pending { flac_filename: Seq<char> },
    Resizing { child: ProcessHandle, out_path: Seq<char> },
    Compressing { child: ProcessHandle, in_path: Seq<char> },
}

impl GenThumbStateView {
    pub open spec fn stage(self) -> Stage {
        match self {
            GenThumbStateView::Pending { .. } => Stage::Pending,
            GenThumbStateView::Resizing { .. } => Stage::Resizing,
            GenThumbStateView::Compressing { .. } => Stage::Compressing,
        }
    }
}

/// A [`GenThumb`] as plain values.
pub struct GenThumbView {
    pub album_id: AlbumId,
    pub state: GenThumbStateView,
}

impl View for GenThumbState {
    type V = GenThumbStateView;

    open spec fn view(&self) -> GenThumbStateView {
        match self {
            GenThumbState::Pending { flac_filename } => GenThumbStateView::Pending {
                flac_filename: flac_filename@,
            },
            GenThumbState::Resizing { child, out_path } => GenThumbStateView::Resizing {
                child: *child,
                out_path: out_path@,
            },
            GenThumbState::Compressing { child, in_path } => GenThumbStateView::Compressing {
                child: *child,
                in_path: in_path@,
            },
        }
    }
}

impl View for GenThumb {
    type V = GenThumbView;

    open spec fn view(&self) -> GenThumbView {
        GenThumbView { album_id: self.album_id, state: self.state@ }
    }
}

/// What the owner of a task found when it did what the task waited for.
#[derive(Clone, Debug, PartialEq, Eq)]
pub enum Event {
    /// The cover pictures embedded in the file, in the order of the file.
    Covers(Vec<Vec<u8>>),
    /// The file is no media container that can be read.
    Unreadable,
    /// The process has ended, with or without success.
    Exited { success: bool },
    /// Reading the file or waiting for the process failed.
    Failed,
}

/// An [`Event`] as plain values.
pub enum EventView {
    Covers(Seq<Seq<u8>>),
    Unreadable,
    Exited { success: bool },
    Failed,
}

/// The pictures as plain values.
pub open spec fn covers_view(covers: Seq<Vec<u8>>) -> Seq<Seq<u8>> {
    covers.map_values(|cover: Vec<u8>| cover@)
}

impl View for Event {
    type V = EventView;

    open spec fn view(&self) -> EventView {
        match self {
            Event::Covers(covers) => EventView::Covers(covers_view(covers@)),
            Event::Unreadable => EventView::Unreadable,
            Event::Exited { success } => EventView::Exited { success: *success },
            Event::Failed => EventView::Failed,
        }
    }
}

/// What a task waits for before it can advance.
#[derive(Clone, Copy, Debug, PartialEq, Eq)]
pub enum Awaits<'a> {
    /// The cover pictures of this file, read without decoding any audio.
    Covers { flac_filename: &'a str },
    /// The end of this process.
    Exit { child: ProcessHandle },
}

/// Why a task failed.
#[derive(Clone, Copy, Debug, PartialEq, Eq, Structural)]
pub enum Cause {
    /// The source file could not be parsed.
    SourceUnreadable,
    /// The external process ended without success.
    ProcessFailed,
    /// Reading or waiting failed.
    Io,
    /// The task was handed something that it did not wait for.
    UnexpectedEvent,
}

/// A failed task: which album, at which stage, and why. A failure ends the
/// whole run.
#[derive(Clone, Copy, Debug, PartialEq, Eq, Structural)]
pub struct Error {
    pub album_id: AlbumId,
    pub stage: Stage,
    pub cause: Cause,
}

/// What has become of a task after one call of [`GenThumb::advance`].
#[derive(Clone, Debug, PartialEq, Eq)]
pub enum Outcome {
    /// A process is running for the task, which has to advance once more.
    Running(GenThumb),
    /// The album has no cover, so it gets no thumbnail.
    Skipped,
    /// The thumbnail is complete.
    Done,
}

/// An [`Outcome`] as plain values.
pub enum OutcomeView {
    Running(GenThumbView),
    Skipped,
    Done,
}

impl View for Outcome {
    type V = OutcomeView;

    open spec fn view(&self) -> OutcomeView {
        match self {
            Outcome::Running(task) => OutcomeView::Running(task@),
            Outcome::Skipped => OutcomeView::Skipped,
            Outcome::Done => OutcomeView::Done,
        }
    }
}

/// What the owner of a task has to do after a call of
/// [`GenThumb::advance`], before it hands the outcome on.
#[derive(Clone, Debug, PartialEq, Eq)]
pub enum Work {
    Nothing,
    /// Start the process and remember it under `child`.
    Spawn { child: ProcessHandle, command: Command },
    /// Delete the file at `remove`, whether or not it is still there, then
    /// read all that the process `output_of` wrote and hand it to the store
    /// as the thumbnail of the album.
    Finish { album_id: AlbumId, remove: String, output_of: ProcessHandle },
}

/// A [`Work`] as plain values.
pub enum WorkView {
    Nothing,
    Spawn { child: ProcessHandle, command: CommandView },
    Finish { album_id: AlbumId, remove: Seq<char>, output_of: ProcessHandle },
}

impl View for Work {
    type V = WorkView;

    open spec fn view(&self) -> WorkView {
        match self {
            Work::Nothing => WorkView::Nothing,
            Work::Spawn { child, command } => WorkView::Spawn { child: *child, command: command@ },
            Work::Finish { album_id, remove, output_of } => WorkView::Finish {
                album_id: *album_id,
                remove: remove@,
                output_of: *output_of,
            },
        }
    }
}

/// The result of one transition.
#[derive(Clone, Debug, PartialEq, Eq)]
pub struct Step {
    pub outcome: Outcome,
    pub work: Work,
}

/// A [`Step`] as plain values.
pub struct StepView {
    pub outcome: OutcomeView,
    pub work: WorkView,
}

impl View for Step {
    type V = StepView;

    open spec fn view(&self) -> StepView {
        StepView { outcome: self.outcome@, work: self.work@ }
    }
}

/// The transition of a pending task whose file holds `covers`.
///
/// Without a cover the task is skipped. Otherwise the last picture is the
/// cover, and it is resized into the album's intermediate file.
pub open spec fn spec_start_resize(
    album_id: AlbumId,
    covers: Seq<Seq<u8>>,
    tmp_dir: Seq<char>,
) -> StepView {
    if covers.len() == 0 {
        StepView { outcome: OutcomeView::Skipped, work: WorkView::Nothing }
    } else {
        let child = ProcessHandle { album_id, tool: Tool::Resize };
        let out_path = tmp_fname(tmp_dir, album_id);
        StepView {
            outcome: OutcomeView::Running(
                GenThumbView { album_id, state: GenThumbStateView::Resizing { child, out_path } },
            ),
            work: WorkView::Spawn { child, command: spec_resize_command(covers.last(), out_path) },
        }
    }
}

/// The transition of a task whose resize process succeeded and wrote
/// `out_path`: that file is compressed.
pub open spec fn spec_start_compress(album_id: AlbumId, out_path: Seq<char>) -> StepView {
    let child = ProcessHandle { album_id, tool: Tool::Compress };
    StepView {
        outcome: OutcomeView::Running(
            GenThumbView { album_id, state: GenThumbStateView::Compressing { child, in_path: out_path } },
        ),
        work: WorkView::Spawn { child, command: spec_compress_command(out_path) },
    }
}

/// The transition of a task whose compress process `child` succeeded: the
/// intermediate file goes, the output of the process is the thumbnail.
pub open spec fn spec_finish(album_id: AlbumId, child: ProcessHandle, in_path: Seq<char>) -> StepView {
    StepView {
        outcome: OutcomeView::Done,
        work: WorkView::Finish { album_id, remove: in_path, output_of: child },
    }
}

/// The failure of `task`, at the stage where it stands.
pub open spec fn spec_failure(task: GenThumbView, cause: Cause) -> Error {
    Error { album_id: task.album_id, stage: task.state.stage(), cause }
}

/// One transition of `task` on `event`.
pub open spec fn spec_advance(task: GenThumbView, event: EventView, tmp_dir: Seq<char>) -> Result<
    StepView,
    Error,
> {
    match event {
        EventView::Failed => Err(spec_failure(task, Cause::Io)),
        EventView::Covers(covers) => match task.state {
            GenThumbStateView::Pending { .. } => Ok(
                spec_start_resize(task.album_id, covers, tmp_dir),
            ),
            _ => Err(spec_failure(task, Cause::UnexpectedEvent)),
        },
        EventView::Unreadable => match task.state {
            GenThumbStateView::Pending { .. } => Err(spec_failure(task, Cause::SourceUnreadable)),
            _ => Err(spec_failure(task, Cause::UnexpectedEvent)),
        },
        EventView::Exited { success } => match task.state {
            GenThumbStateView::Pending { .. } => Err(spec_failure(task, Cause::UnexpectedEvent)),
            GenThumbStateView::Resizing { child, out_path } => if success {
                Ok(spec_start_compress(task.album_id, out_path))
            } else {
                Err(spec_failure(task, Cause::ProcessFailed))
            },
            GenThumbStateView::Compressing { child, in_path } => if success {
                Ok(spec_finish(task.album_id, child, in_path))
            } else {
                Err(spec_failure(task, Cause::ProcessFailed))
            },
        },
    }
}

impl GenThumb {
    /// Create an extract-and-resize operation, if needed.
    ///
    /// If no thumbnail exists for the album yet, then this returns the task
    /// for generating the thumbnail, in the pending state.
    pub fn new(album_id: AlbumId, flac_filename: String, has_thumbnail: bool) -> (task: Option<
        GenThumb,
    >)
        ensures
            has_thumbnail ==> task is None,
            !has_thumbnail ==> task is Some && task->0@ == (GenThumbView {
                album_id,
                state: GenThumbStateView::Pending { flac_filename: flac_filename@ },
            }),
    {
        if has_thumbnail {
            None
        } else {
            Some(GenThumb { album_id, state: GenThumbState::Pending { flac_filename } })
        }
    }

    /// How far the task has come.
    pub fn stage(&self) -> (stage: Stage)
        ensures
            stage == self@.state.stage(),
    {
        match &self.state {
            GenThumbState::Pending { .. } => Stage::Pending,
            GenThumbState::Resizing { .. } => Stage::Resizing,
            GenThumbState::Compressing { .. } => Stage::Compressing,
        }
    }

    /// What the owner has to get before it calls [`GenThumb::advance`].
    pub fn awaits(&self) -> (awaits: Awaits<'_>)
        ensures
            match self@.state {
                GenThumbStateView::Pending { flac_filename } => awaits matches Awaits::Covers {
                    flac_filename: f,
                } && f@ == flac_filename,
                GenThumbStateView::Resizing { child, .. } => awaits == (Awaits::Exit { child }),
                GenThumbStateView::Compressing { child, .. } => awaits == (Awaits::Exit { child }),
            },
    {
        match &self.state {
            GenThumbState::Pending { flac_filename } => Awaits::Covers {
                flac_filename: flac_filename.as_str(),
            },
            GenThumbState::Resizing { child, .. } => Awaits::Exit { child: *child },
            GenThumbState::Compressing { child, .. } => Awaits::Exit { child: *child },
        }
    }

    /// From the pending state, take the cover out of the pictures that were
    /// read, and start resizing it.
    ///
    /// The task is skipped if the file does not contain any pictures.
    pub fn start_resize(self, covers: Vec<Vec<u8>>, tmp_dir: &str) -> (step: Step)
        requires
            self@.state is Pending,
        ensures
            step@ == spec_start_resize(self.album_id, covers_view(covers@), tmp_dir@),
    {
        let album_id = self.album_id;
        let mut covers = covers;
        let ghost all = covers@;
        match covers.pop() {
            None => Step { outcome: Outcome::Skipped, work: Work::Nothing },
            Some(cover) => {
                assert(cover@ == covers_view(all).last());
                let out_path = get_tmp_fname(tmp_dir, album_id);
                let child = ProcessHandle { album_id, tool: Tool::Resize };
                let command = resize_command(cover, out_path.as_str());
                Step {
                    outcome: Outcome::Running(
                        GenThumb { album_id, state: GenThumbState::Resizing { child, out_path } },
                    ),
                    work: Work::Spawn { child, command },
                }
            },
        }
    }

    /// When in the resizing state, and that has completed, start
    /// compressing.
    pub fn start_compress(self) -> (step: Step)
        requires
            self@.state is Resizing,
        ensures
            step@ == spec_start_compress(self.album_id, self@.state->out_path),
    {
        let album_id = self.album_id;
        match self.state {
            GenThumbState::Resizing { child: _, out_path } => {
                let child = ProcessHandle { album_id, tool: Tool::Compress };
                let command = compress_command(out_path.as_str());
                Step {
                    outcome: Outcome::Running(
                        // Input file for this step is the output of the previous command.
                        GenThumb { album_id, state: GenThumbState::Compressing { child, in_path: out_path } },
                    ),
                    work: Work::Spawn { child, command },
                }
            },
            _ => vstd::pervasive::unreached(),
        }
    }

    /// When in the compressing state, and that has completed, clean up and
    /// hand the thumbnail on.
    pub fn finish(self) -> (step: Step)
        requires
            self@.state is Compressing,
        ensures
            step@ == spec_finish(
                self.album_id,
                self@.state->Compressing_child,
                self@.state->in_path,
            ),
    {
        let album_id = self.album_id;
        match self.state {
            GenThumbState::Compressing { child, in_path } => Step {
                outcome: Outcome::Done,
                work: Work::Finish { album_id, remove: in_path, output_of: child },
            },
            _ => vstd::pervasive::unreached(),
        }
    }

    /// Take the next step that is needed to generate a thumbnail.
    ///
    /// With the outcome `Running` a process is to run in the background,
    /// and the task has to advance once more in the future to conclude.
    /// Otherwise the task has come to its end.
    pub fn advance(self, event: Event, tmp_dir: &str) -> (result: Result<Step, Error>)
        ensures
            match result {
                Ok(step) => spec_advance(self@, event@, tmp_dir@) == Ok::<StepView, Error>(step@),
                Err(error) => spec_advance(self@, event@, tmp_dir@) == Err::<StepView, Error>(error),
            },
    {
        let album_id = self.album_id;
        let stage = self.stage();
        match event {
            Event::Failed => Err(Error { album_id, stage, cause: Cause::Io }),
            Event::Covers(covers) => match stage {
                Stage::Pending => Ok(self.start_resize(covers, tmp_dir)),
                _ => Err(Error { album_id, stage, cause: Cause::UnexpectedEvent }),
            },
            Event::Unreadable => match stage {
                Stage::Pending => Err(Error { album_id, stage, cause: Cause::SourceUnreadable }),
                _ => Err(Error { album_id, stage, cause: Cause::UnexpectedEvent }),
            },
            Event::Exited { success } => match stage {
                Stage::Pending => Err(Error { album_id, stage, cause: Cause::UnexpectedEvent }),
                Stage::Resizing => if success {
                    Ok(self.start_compress())
                } else {
                    Err(Error { album_id, stage, cause: Cause::ProcessFailed })
                },
                Stage::Compressing => if success {
                    Ok(self.finish())
                } else {
                    Err(Error { album_id, stage, cause: Cause::ProcessFailed })
                },
            },
        }
    }
}

/// The tasks as plain values.
pub open spec fn tasks_view(tasks: Seq<GenThumb>) -> Seq<GenThumbView> {
    tasks.map_values(|task: GenThumb| task@)
}

/// The tasks of a run that wait for a worker, and the progress of the run.
///
/// Workers share one such collection. A worker takes a task out with
/// [`GenThumbs::pop`], advances it by one step while nobody else can reach
/// it, and reports with [`GenThumbs::put`] what became of it.
#[derive(Clone, Debug, PartialEq, Eq)]
pub struct GenThumbs {
    /// The tasks that no worker holds.
    pub tasks: Vec<GenThumb>,
    pub status: Status,
    /// Number of tasks that workers took out and did not report on yet.
    pub in_flight: u64,
}

/// A [`GenThumbs`] as plain values.
pub struct GenThumbsView {
    pub tasks: Seq<GenThumbView>,
    pub status: Status,
    pub in_flight: nat,
}

impl View for GenThumbs {
    type V = GenThumbsView;

    open spec fn view(&self) -> GenThumbsView {
        GenThumbsView {
            tasks: tasks_view(self.tasks@),
            status: self.status,
            in_flight: self.in_flight as nat,
        }
    }
}

impl GenThumbsView {
    /// Every task that is neither finished nor skipped is counted as
    /// planned: those that wait, those that workers hold, and those that
    /// produced a thumbnail are together no more than were planned.
    pub open spec fn wf(self) -> bool {
        self.status.files_processed + self.tasks.len() + self.in_flight
            <= self.status.files_to_process
    }

    /// No task waits and no worker holds one: the run is over.
    pub open spec fn finished(self) -> bool {
        self.tasks.len() == 0 && self.in_flight == 0
    }

    /// The collection after a worker took a task out, if there was one.
    pub open spec fn popped(self) -> GenThumbsView {
        if self.tasks.len() == 0 {
            self
        } else {
            GenThumbsView {
                tasks: self.tasks.drop_last(),
                status: self.status,
                in_flight: self.in_flight + 1,
            }
        }
    }

    /// The status after a task came to `outcome`: only a finished thumbnail
    /// counts as processed.
    pub open spec fn status_after(self, outcome: OutcomeView) -> Status {
        match outcome {
            OutcomeView::Done => Status {
                stage: self.status.stage,
                files_to_process: self.status.files_to_process,
                files_processed: (self.status.files_processed + 1) as u64,
            },
            _ => self.status,
        }
    }

    /// The collection after a worker reported `outcome` for the task that
    /// it held.
    pub open spec fn settled(self, outcome: OutcomeView) -> GenThumbsView {
        GenThumbsView {
            tasks: match outcome {
                OutcomeView::Running(task) => self.tasks.push(task),
                _ => self.tasks,
            },
            status: self.status_after(outcome),
            in_flight: (self.in_flight - 1) as nat,
        }
    }
}

impl GenThumbs {
    /// Whether the run is over.
    pub fn is_finished(&self) -> (finished: bool)
        ensures
            finished == self@.finished(),
    {
        self.tasks.len() == 0 && self.in_flight == 0
    }

    /// Whether the counts fit together, as [`GenThumbs::pop`] and
    /// [`GenThumbs::put`] ask and leave it.
    pub fn is_consistent(&self) -> (consistent: bool)
        ensures
            consistent == self@.wf(),
    {
        let accounted: u128 = self.status.files_processed as u128 + self.tasks.len() as u128
            + self.in_flight as u128;
        accounted <= self.status.files_to_process as u128
    }

    /// Take a task out of the queue, to call [`GenThumb::advance`] on.
    pub fn pop(&mut self) -> (task: Option<GenThumb>)
        requires
            old(self)@.wf(),
        ensures
            final(self)@ == old(self)@.popped(),
            final(self)@.wf(),
            match task {
                Some(task) => old(self)@.tasks.len() > 0 && task@ == old(self)@.tasks.last(),
                None => old(self)@.tasks.len() == 0,
            },
    {
        let task = self.tasks.pop();
        if task.is_some() {
            self.in_flight = self.in_flight + 1;
        }
        assert(self@.tasks =~= old(self)@.popped().tasks);
        task
    }

    /// Handle the result of [`GenThumb::advance`]. At the end of a task
    /// this returns the status that observers are to be told.
    pub fn put(&mut self, outcome: Outcome) -> (published: Option<Status>)
        requires
            old(self)@.wf(),
            old(self)@.in_flight > 0,
        ensures
            final(self)@ == old(self)@.settled(outcome@),
            final(self)@.wf(),
            old(self).status.precedes(final(self).status),
            match outcome@ {
                OutcomeView::Running(_) => published is None,
                _ => published == Some(final(self).status),
            },
    {
        self.in_flight = self.in_flight - 1;
        match outcome {
            Outcome::Running(next_task) => {
                self.tasks.push(next_task);
                assert(self@.tasks =~= old(self)@.settled(outcome@).tasks);
                None
            },
            Outcome::Skipped => {
                assert(self@.tasks =~= old(self)@.tasks);
                Some(self.status)
            },
            Outcome::Done => {
                self.status.files_processed = self.status.files_processed + 1;
                assert(self@.tasks =~= old(self)@.tasks);
                Some(self.status)
            },
        }
    }
}

/// What [`generate_thumbnails`] hands back: the tasks, ready for the
/// workers, and what observers are to be told about the planning.
#[derive(Clone, Debug, PartialEq, Eq)]
pub struct Plan {
    pub queue: GenThumbs,
    pub updates: Vec<Status>,
}

/// Determine which albums need to have a new thumbnail extracted.
///
/// `tracks` are the tracks of the library, album by album, and `thumbnails`
/// are the ids of the albums of which the store holds a thumbnail, all read
/// at one moment. The run goes on from `status`.
pub fn generate_thumbnails(tracks: &Vec<Track>, thumbnails: &HashSet<u64>, status: Status) -> (plan:
    Plan)
    requires
        status.wf(),
        status.files_to_process + tracks@.len() <= u64::MAX,
    ensures
        plan.queue@.tasks == planned_tasks(tracks_view(tracks@), thumbnails@),
        plan.queue.status == generating(status, plan.queue@.tasks.len() as int),
        plan.queue.in_flight == 0,
        plan.queue@.wf(),
        plan.updates@ == planning_updates(status, plan.queue@.tasks.len() as int),
{
    broadcast use vstd::std_specs::hash::group_hash_axioms;

    let ghost all = tracks_view(tracks@);
    let mut status = status;
    let ghost start = status;
    status.stage = ScanStage::Scanning;
    let mut updates: Vec<Status> = Vec::new();
    updates.push(status);

    let mut pending_tasks: Vec<GenThumb> = Vec::new();
    assert(tasks_view(pending_tasks@) =~= planned(all, thumbnails@, 0));
    assert(updates@ =~= updates_so_far(start, 0));
    let mut i: usize = 0;
    while i < tracks.len()
        invariant
            i <= tracks.len(),
            all == tracks_view(tracks@),
            start.files_to_process + tracks@.len() <= u64::MAX,
            pending_tasks@.len() <= i,
            tasks_view(pending_tasks@) == planned(all, thumbnails@, i as int),
            status == scanning(start, pending_tasks@.len() as int),
            updates@ == updates_so_far(start, pending_tasks@.len() as int),
        decreases tracks.len() - i,
    {
        let track = &tracks[i];
        assert(all[i as int] == track@);
        let first_of_album = i == 0 || tracks[i - 1].album_id.0 != track.album_id.0;
        assert(first_of_album == starts_album(all, i as int)) by {
            if i > 0 {
                assert(all[i - 1] == tracks@[i - 1]@);
            }
        }
        if first_of_album {
            let has_thumbnail = thumbnails.contains(&track.album_id.0);
            if let Some(task) = GenThumb::new(track.album_id, track.filename.clone(), has_thumbnail) {
                let ghost before = pending_tasks@;
                pending_tasks.push(task);
                assert(tasks_view(pending_tasks@) =~= tasks_view(before).push(
                    pending_task(all[i as int]),
                ));
                status.files_to_process = status.files_to_process + 1;

                if pending_tasks.len() % PUBLISH_EVERY == 0 {
                    updates.push(status);
                    assert(updates@ =~= updates_so_far(start, pending_tasks@.len() as int));
                } else {
                    assert(pending_tasks@.len() / (PUBLISH_EVERY as nat) == before.len() / (
                    PUBLISH_EVERY as nat));
                }
            }
        }
        i = i + 1;
    }

    status.stage = ScanStage::GeneratingThumbnails;
    updates.push(status);
    assert(updates@ =~= planning_updates(start, pending_tasks@.len() as int));

    Plan { queue: GenThumbs { tasks: pending_tasks, status, in_flight: 0 }, updates }
}

impl GenThumbView {
    /// The process that runs for the task, if one does.
    pub open spec fn process(self) -> Option<ProcessHandle> {
        match self.state {
            GenThumbStateView::Pending { .. } => None,
            GenThumbStateView::Resizing { child, .. } => Some(child),
            GenThumbStateView::Compressing { child, .. } => Some(child),
        }
    }

    /// The intermediate file of the task. There is one from the start of
    /// resizing to the end of compressing.
    pub open spec fn intermediate_path(self) -> Option<Seq<char>> {
        match self.state {
            GenThumbStateView::Pending { .. } => None,
            GenThumbStateView::Resizing { out_path, .. } => Some(out_path),
            GenThumbStateView::Compressing { in_path, .. } => Some(in_path),
        }
    }

    /// The task's process and file are the ones that its album and its
    /// stage give it.
    pub open spec fn owns_its_resources(self, tmp_dir: Seq<char>) -> bool {
        match self.state {
            GenThumbStateView::Pending { .. } => true,
            GenThumbStateView::Resizing { child, out_path } => {
                &&& child == ProcessHandle { album_id: self.album_id, tool: Tool::Resize }
                &&& out_path == tmp_fname(tmp_dir, self.album_id)
            },
            GenThumbStateView::Compressing { child, in_path } => {
                &&& child == ProcessHandle { album_id: self.album_id, tool: Tool::Compress }
                &&& in_path == tmp_fname(tmp_dir, self.album_id)
            },
        }
    }
}

/// One call makes exactly one transition, and only forwards. A task that
/// goes on is one stage further, still for the same album, with a new
/// process of its own that its owner is told to start. A task ends as
/// skipped only from the pending state, and as done only from the
/// compressing state. A failure names the album and the stage.
pub proof fn lemma_one_transition(task: GenThumbView, event: EventView, tmp_dir: Seq<char>)
    ensures
        match spec_advance(task, event, tmp_dir) {
            Ok(step) => match step.outcome {
                OutcomeView::Running(next) => {
                    &&& next.album_id == task.album_id
                    &&& next.state.stage().index() == task.state.stage().index() + 1
                    &&& step.work is Spawn
                    &&& next.process() == Some(step.work->Spawn_child)
                    &&& task.owns_its_resources(tmp_dir) ==> next.owns_its_resources(tmp_dir)
                        && next.process() != task.process()
                },
                OutcomeView::Skipped => task.state is Pending && step.work is Nothing,
                OutcomeView::Done => task.state is Compressing && step.work is Finish,
            },
            Err(error) => error.album_id == task.album_id && error.stage == task.state.stage(),
        },
{
}

/// A task is over after three calls at the latest: if two calls let it go
/// on, the third ends it.
pub proof fn lemma_three_calls_suffice(
    task: GenThumbView,
    first: EventView,
    second: EventView,
    third: EventView,
    tmp_dir: Seq<char>,
)
    requires
        spec_advance(task, first, tmp_dir) matches Ok(step) && step.outcome is Running,
        spec_advance(spec_advance(task, first, tmp_dir)->Ok_0.outcome->Running_0, second, tmp_dir)
            matches Ok(step) && step.outcome is Running,
    ensures
        ({
            let one = spec_advance(task, first, tmp_dir)->Ok_0.outcome->Running_0;
            let two = spec_advance(one, second, tmp_dir)->Ok_0.outcome->Running_0;
            !(spec_advance(two, third, tmp_dir) matches Ok(step) && step.outcome is Running)
        }),
{
}

/// Where the file holds a cover and both processes succeed, a pending task
/// is done after three calls. The file that the first process is told to
/// write is the one that the second reads and that is deleted at the end,
/// and the thumbnail is what the second process wrote.
pub proof fn lemma_happy_path(task: GenThumbView, covers: Seq<Seq<u8>>, tmp_dir: Seq<char>)
    requires
        task.state is Pending,
        covers.len() > 0,
    ensures
        ({
            let path = tmp_fname(tmp_dir, task.album_id);
            let success = EventView::Exited { success: true };
            let first = spec_advance(task, EventView::Covers(covers), tmp_dir)->Ok_0;
            let second = spec_advance(first.outcome->Running_0, success, tmp_dir)->Ok_0;
            let third = spec_advance(second.outcome->Running_0, success, tmp_dir)->Ok_0;
            &&& spec_advance(task, EventView::Covers(covers), tmp_dir) is Ok
            &&& first.work == (WorkView::Spawn {
                child: ProcessHandle { album_id: task.album_id, tool: Tool::Resize },
                command: spec_resize_command(covers.last(), path),
            })
            &&& spec_advance(first.outcome->Running_0, success, tmp_dir) is Ok
            &&& second.work == (WorkView::Spawn {
                child: ProcessHandle { album_id: task.album_id, tool: Tool::Compress },
                command: spec_compress_command(path),
            })
            &&& spec_advance(second.outcome->Running_0, success, tmp_dir) is Ok
            &&& third.outcome is Done
            &&& third.work == (WorkView::Finish {
                album_id: task.album_id,
                remove: path,
                output_of: ProcessHandle { album_id: task.album_id, tool: Tool::Compress },
            })
        }),
{
}

/// Something is handed to the store only when a task is done, that is when
/// its compress process succeeded, and then the task's intermediate file
/// is deleted first. A process that fails ends the task with an error and
/// without any work for its owner.
pub proof fn lemma_store_only_when_done(task: GenThumbView, event: EventView, tmp_dir: Seq<char>)
    ensures
        ({
            let result = spec_advance(task, event, tmp_dir);
            let step = result->Ok_0;
            let done = result is Ok && step.outcome is Done;
            &&& result is Ok ==> (step.work is Finish <==> step.outcome is Done)
            &&& done <==> task.state is Compressing && event == (EventView::Exited {
                success: true,
            })
            &&& done ==> step.work == (WorkView::Finish {
                album_id: task.album_id,
                remove: task.intermediate_path()->0,
                output_of: task.process()->0,
            })
            &&& event == (EventView::Exited { success: false }) ==> result is Err
        }),
{
}

/// Two tasks for different albums share neither a process nor an
/// intermediate file.
pub proof fn lemma_resources_are_exclusive(a: GenThumbView, b: GenThumbView, tmp_dir: Seq<char>)
    requires
        a.album_id != b.album_id,
        a.owns_its_resources(tmp_dir),
        b.owns_its_resources(tmp_dir),
    ensures
        a.process() is Some ==> a.process() != b.process(),
        a.intermediate_path() is Some ==> a.intermediate_path() != b.intermediate_path(),
{
    if a.intermediate_path() is Some && a.intermediate_path() == b.intermediate_path() {
        lemma_tmp_fname_injective(tmp_dir, a.album_id, b.album_id);
    }
}

} // verus!
