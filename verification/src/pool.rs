//! Many workers, one collection of tasks.
//!
//! A worker holds the collection only for the moment in which it takes a
//! task out or reports on one. In between it holds the task alone, waits
//! for what the task awaits and advances it by one step. Seen from the
//! collection, a run is therefore a sequence of moves, each by one worker,
//! in an order that nobody can foresee. What is proved here holds for every
//! such sequence.

use vstd::prelude::*;
use crate::plan::{
    contiguous,
    lemma_no_duplicates,
    lemma_tasks_have_a_source,
    planned_tasks,
    TrackView,
};
use crate::scan::Status;
use crate::thumb_gen::{
    lemma_one_transition,
    lemma_resources_are_exclusive,
    spec_advance,
    EventView,
    GenThumbView,
    GenThumbsView,
    OutcomeView,
};

verus! {

/// The tasks of a run: those that wait in the collection, and those that
/// workers hold.
pub struct Pool {
    pub queue: GenThumbsView,
    pub held: Seq<GenThumbView>,
}

/// What one worker does in one moment.
pub enum Move {
    /// Take a task out of the collection, if there is one.
    Take,
    /// Advance the held task at `holder` on `event` and report the outcome.
    Report { holder: int, event: EventView },
}

impl Pool {
    /// All tasks that are not over.
    pub open spec fn tasks(self) -> Seq<GenThumbView> {
        self.queue.tasks + self.held
    }

    /// The step that the move `Report { holder, event }` makes, if it makes
    /// one: none where nobody holds such a task, or where the task fails.
    pub open spec fn reported(self, holder: int, event: EventView, tmp_dir: Seq<char>) -> Option<
        OutcomeView,
    > {
        if 0 <= holder < self.held.len() {
            match spec_advance(self.held[holder], event, tmp_dir) {
                Ok(step) => Some(step.outcome),
                Err(_) => None,
            }
        } else {
            None
        }
    }

    /// The pool after one move. A task that fails ends the run: nothing
    /// changes any more.
    pub open spec fn after(self, m: Move, tmp_dir: Seq<char>) -> Pool {
        match m {
            Move::Take => if self.queue.tasks.len() > 0 {
                Pool { queue: self.queue.popped(), held: self.held.push(self.queue.tasks.last()) }
            } else {
                self
            },
            Move::Report { holder, event } => match self.reported(holder, event, tmp_dir) {
                Some(outcome) => Pool {
                    queue: self.queue.settled(outcome),
                    held: self.held.remove(holder),
                },
                None => self,
            },
        }
    }

    /// The pool after the moves, one after the other.
    pub open spec fn after_all(self, moves: Seq<Move>, tmp_dir: Seq<char>) -> Pool
        decreases moves.len(),
    {
        if moves.len() == 0 {
            self
        } else {
            self.after_all(moves.drop_last(), tmp_dir).after(moves.last(), tmp_dir)
        }
    }

    /// How many of the moves ended a task with `outcome`.
    pub open spec fn ended_as(self, moves: Seq<Move>, outcome: OutcomeView, tmp_dir: Seq<char>) -> nat
        decreases moves.len(),
    {
        if moves.len() == 0 {
            0
        } else {
            let before = self.after_all(moves.drop_last(), tmp_dir);
            let ended: nat = match moves.last() {
                Move::Report { holder, event } => if before.reported(holder, event, tmp_dir)
                    == Some(outcome) {
                    1
                } else {
                    0
                },
                Move::Take => 0,
            };
            self.ended_as(moves.drop_last(), outcome, tmp_dir) + ended
        }
    }

    /// Nothing is shared: the collection counts the tasks that workers hold,
    /// no two tasks are for the same album, wherever they are, and each has
    /// the process and the file that belong to its album and stage.
    pub open spec fn exclusive(self, tmp_dir: Seq<char>) -> bool {
        &&& self.queue.wf()
        &&& self.queue.in_flight == self.held.len()
        &&& forall|i: int, j: int|
            #![trigger self.tasks()[i], self.tasks()[j]]
            0 <= i < j < self.tasks().len() ==> self.tasks()[i].album_id != self.tasks()[j].album_id
        &&& forall|i: int|
            #![trigger self.tasks()[i]]
            0 <= i < self.tasks().len() ==> self.tasks()[i].owns_its_resources(tmp_dir)
    }

    /// The tasks that wait, the tasks that are held and the thumbnails that
    /// were produced, together.
    pub open spec fn accounted(self) -> int {
        self.queue.status.files_processed + self.queue.tasks.len() + self.held.len()
    }
}

/// The pool at the start of a run: all tasks wait.
pub open spec fn initial_pool(tasks: Seq<GenThumbView>, status: Status) -> Pool {
    Pool { queue: GenThumbsView { tasks, status, in_flight: 0 }, held: Seq::empty() }
}

/// A move keeps the pool exclusive. It leaves the count of planned files
/// as it is, and the status only advances.
pub proof fn lemma_move_keeps_exclusive(pool: Pool, m: Move, tmp_dir: Seq<char>)
    requires
        pool.exclusive(tmp_dir),
    ensures
        pool.after(m, tmp_dir).exclusive(tmp_dir),
        pool.after(m, tmp_dir).queue.status.files_to_process
            == pool.queue.status.files_to_process,
        pool.queue.status.precedes(pool.after(m, tmp_dir).queue.status),
{
    let next = pool.after(m, tmp_dir);
    let old_tasks = pool.tasks();
    let new_tasks = next.tasks();
    let q = pool.queue.tasks.len() as int;
    match m {
        Move::Take => {
            if q > 0 {
                // Where a task of the new pool was in the old one: the last
                // waiting task has become the last held one.
                let origin = |i: int| -> int
                    {
                        if i < q - 1 {
                            i
                        } else if i < new_tasks.len() - 1 {
                            i + 1
                        } else {
                            q - 1
                        }
                    };
                assert forall|i: int| 0 <= i < new_tasks.len() implies 0 <= origin(i)
                    < old_tasks.len() && new_tasks[i] == old_tasks[origin(i)] by {}
                assert forall|i: int, j: int| 0 <= i < j < new_tasks.len() implies new_tasks[i].album_id
                    != new_tasks[j].album_id by {
                    let a = origin(i);
                    let b = origin(j);
                    assert(a != b);
                    if a < b {
                        assert(old_tasks[a].album_id != old_tasks[b].album_id);
                    } else {
                        assert(old_tasks[b].album_id != old_tasks[a].album_id);
                    }
                }
            }
        },
        Move::Report { holder, event } => {
            match pool.reported(holder, event, tmp_dir) {
                None => {},
                Some(outcome) => {
                    let task = pool.held[holder];
                    assert(old_tasks[q + holder] == task);
                    lemma_one_transition(task, event, tmp_dir);
                    // Where a task of the new pool was in the old one; the
                    // task that goes on stands where the reported one stood.
                    let origin = |i: int| -> int
                        {
                            if i < q {
                                i
                            } else if outcome is Running && i == q {
                                q + holder
                            } else {
                                let h = if outcome is Running {
                                    i - q - 1
                                } else {
                                    i - q
                                };
                                if h < holder {
                                    q + h
                                } else {
                                    q + h + 1
                                }
                            }
                        };
                    assert forall|i: int| 0 <= i < new_tasks.len() implies 0 <= origin(i)
                        < old_tasks.len() && new_tasks[i].album_id == old_tasks[origin(i)].album_id
                        && new_tasks[i].owns_its_resources(tmp_dir) by {
                        let k = origin(i);
                        if outcome is Running && i == q {
                            assert(new_tasks[i] == outcome->Running_0);
                        } else {
                            assert(new_tasks[i] == old_tasks[k]);
                        }
                    }
                    assert forall|i: int, j: int| 0 <= i < j < new_tasks.len() implies new_tasks[i].album_id
                        != new_tasks[j].album_id by {
                        let a = origin(i);
                        let b = origin(j);
                        assert(a != b);
                        if a < b {
                            assert(old_tasks[a].album_id != old_tasks[b].album_id);
                        } else {
                            assert(old_tasks[b].album_id != old_tasks[a].album_id);
                        }
                    }
                },
            }
        },
    }
}

/// Mutual exclusion. Whatever the workers do and in whatever order, no two
/// of them ever hold tasks for the same album, and so no two ever hold the
/// same process or the same intermediate file; nor does a task that waits
/// share one with a task that is held.
pub proof fn lemma_workers_share_nothing(pool: Pool, moves: Seq<Move>, tmp_dir: Seq<char>)
    requires
        pool.exclusive(tmp_dir),
    ensures
        pool.after_all(moves, tmp_dir).exclusive(tmp_dir),
        forall|i: int, j: int|
            #![trigger pool.after_all(moves, tmp_dir).tasks()[i], pool.after_all(moves, tmp_dir).tasks()[j]]
            0 <= i < pool.after_all(moves, tmp_dir).tasks().len() && 0 <= j < pool.after_all(
                moves,
                tmp_dir,
            ).tasks().len() && i != j ==> {
                let a = pool.after_all(moves, tmp_dir).tasks()[i];
                let b = pool.after_all(moves, tmp_dir).tasks()[j];
                &&& a.album_id != b.album_id
                &&& a.process() is Some ==> a.process() != b.process()
                &&& a.intermediate_path() is Some ==> a.intermediate_path() != b.intermediate_path()
            },
    decreases moves.len(),
{
    if moves.len() > 0 {
        lemma_workers_share_nothing(pool, moves.drop_last(), tmp_dir);
        lemma_move_keeps_exclusive(
            pool.after_all(moves.drop_last(), tmp_dir),
            moves.last(),
            tmp_dir,
        );
    }
    let end = pool.after_all(moves, tmp_dir);
    assert forall|i: int, j: int|
        #![trigger end.tasks()[i], end.tasks()[j]]
        0 <= i < end.tasks().len() && 0 <= j < end.tasks().len() && i != j implies {
        let a = end.tasks()[i];
        let b = end.tasks()[j];
        &&& a.album_id != b.album_id
        &&& a.process() is Some ==> a.process() != b.process()
        &&& a.intermediate_path() is Some ==> a.intermediate_path() != b.intermediate_path()
    } by {
        let a = end.tasks()[i];
        let b = end.tasks()[j];
        if i < j {
            assert(end.tasks()[i].album_id != end.tasks()[j].album_id);
        } else {
            assert(end.tasks()[j].album_id != end.tasks()[i].album_id);
        }
        lemma_resources_are_exclusive(a, b, tmp_dir);
    }
}

/// Whatever the workers do and in whatever order, the count of processed
/// files grows by exactly the number of tasks that were done, and every
/// task is accounted for: it waits, is held, was done or was skipped. The
/// count of planned files stays, and the status only advances.
pub proof fn lemma_processed_counts_done(pool: Pool, moves: Seq<Move>, tmp_dir: Seq<char>)
    requires
        pool.exclusive(tmp_dir),
    ensures
        pool.after_all(moves, tmp_dir).queue.status.files_processed
            == pool.queue.status.files_processed + pool.ended_as(moves, OutcomeView::Done, tmp_dir),
        pool.after_all(moves, tmp_dir).accounted() + pool.ended_as(
            moves,
            OutcomeView::Skipped,
            tmp_dir,
        ) == pool.accounted(),
        pool.after_all(moves, tmp_dir).queue.status.files_to_process
            == pool.queue.status.files_to_process,
        pool.queue.status.precedes(pool.after_all(moves, tmp_dir).queue.status),
    decreases moves.len(),
{
    if moves.len() > 0 {
        let before = pool.after_all(moves.drop_last(), tmp_dir);
        lemma_processed_counts_done(pool, moves.drop_last(), tmp_dir);
        lemma_workers_share_nothing(pool, moves.drop_last(), tmp_dir);
        lemma_move_keeps_exclusive(before, moves.last(), tmp_dir);
        match moves.last() {
            Move::Take => {},
            Move::Report { holder, event } => {
                match before.reported(holder, event, tmp_dir) {
                    None => {},
                    Some(outcome) => {
                        assert(before.held.remove(holder).len() == before.held.len() - 1);
                    },
                }
            },
        }
    }
}

/// A run that starts from the plan of a library whose tracks come album by
/// album is exclusive from the start. When it is over, the processed files
/// are the planned ones without those that were skipped.
pub proof fn lemma_run_from_plan(
    tracks: Seq<TrackView>,
    thumbnails: Set<u64>,
    status: Status,
    moves: Seq<Move>,
    tmp_dir: Seq<char>,
)
    requires
        contiguous(tracks),
        status.files_processed + planned_tasks(tracks, thumbnails).len()
            == status.files_to_process,
    ensures
        initial_pool(planned_tasks(tracks, thumbnails), status).exclusive(tmp_dir),
        ({
            let start = initial_pool(planned_tasks(tracks, thumbnails), status);
            let end = start.after_all(moves, tmp_dir);
            end.queue.finished() ==> end.queue.status.files_processed
                == status.files_to_process - start.ended_as(moves, OutcomeView::Skipped, tmp_dir)
        }),
{
    let tasks = planned_tasks(tracks, thumbnails);
    let start = initial_pool(tasks, status);
    assert(start.tasks() =~= tasks);
    assert forall|i: int, j: int| 0 <= i < j < tasks.len() implies tasks[i].album_id
        != tasks[j].album_id by {
        lemma_no_duplicates(tracks, thumbnails, i, j);
    }
    assert forall|i: int| 0 <= i < tasks.len() implies tasks[i].owns_its_resources(tmp_dir) by {
        lemma_tasks_have_a_source(tracks, thumbnails, i);
    }
    lemma_processed_counts_done(start, moves, tmp_dir);
    lemma_workers_share_nothing(start, moves, tmp_dir);
}

/// How many workers to run on a machine with `cpus` processors: one more
/// than there are processors. A worker waits now for a process and now for
/// a file, and the extra one keeps the processors busy meanwhile.
pub open spec fn spec_workers_for(cpus: usize) -> usize {
    if cpus < usize::MAX {
        (cpus + 1) as usize
    } else {
        cpus
    }
}

/// The number of workers for a machine with `cpus` processors.
pub fn workers_for(cpus: usize) -> (workers: usize)
    ensures
        workers == spec_workers_for(cpus),
        workers >= 1,
{
    if cpus < usize::MAX {
        cpus + 1
    } else {
        cpus
    }
}

/// Calls `num_cpus::get`, which gives the number of logical processors that
/// this process can use. The number depends on the machine and on how the
/// process was started, so nothing is claimed of it here.
#[verifier::external_body]
fn logical_cpus() -> usize {
    num_cpus::get()
}

/// The number of workers for this machine.
pub fn worker_count() -> (workers: usize)
    ensures
        workers >= 1,
        exists|cpus: usize| workers == spec_workers_for(cpus),
{
    workers_for(logical_cpus())
}

} // verus!
