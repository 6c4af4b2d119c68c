//! Which albums get a task.
//!
//! The tracks of a library come album by album: all tracks of one album
//! stand next to each other. The first track of each album that has no
//! thumbnail in the store yet gives a task, and the file of that track is
//! where the cover is looked for.

use vstd::prelude::*;
use crate::prim::{AlbumId, TrackId};
use crate::scan::{ScanStage, Status};
use crate::thumb_gen::{GenThumbStateView, GenThumbView};

verus! {

/// One track of the library, as far as thumbnails need it.
#[derive(Clone, Debug, PartialEq, Eq)]
pub struct Track {
    pub track_id: TrackId,
    pub album_id: AlbumId,
    /// The media file of the track.
    pub filename: String,
}

/// A [`Track`] as plain values.
pub struct TrackView {
    pub track_id: TrackId,
    pub album_id: AlbumId,
    pub filename: Seq<char>,
}

impl View for Track {
    type V = TrackView;

    open spec fn view(&self) -> TrackView {
        TrackView { track_id: self.track_id, album_id: self.album_id, filename: self.filename@ }
    }
}

/// The tracks as plain values.
pub open spec fn tracks_view(tracks: Seq<Track>) -> Seq<TrackView> {
    tracks.map_values(|track: Track| track@)
}

/// The track at `i` is the first of a run of tracks of one album.
pub open spec fn starts_album(tracks: Seq<TrackView>, i: int) -> bool {
    &&& 0 <= i < tracks.len()
    &&& i == 0 || tracks[i - 1].album_id != tracks[i].album_id
}

/// The track at `i` gives a task: it is the first of its album's run, and
/// the store has no thumbnail of the album.
pub open spec fn needs_thumbnail(tracks: Seq<TrackView>, thumbnails: Set<u64>, i: int) -> bool {
    starts_album(tracks, i) && !thumbnails.contains(tracks[i].album_id.0)
}

/// The task that a track gives.
pub open spec fn pending_task(track: TrackView) -> GenThumbView {
    GenThumbView {
        album_id: track.album_id,
        state: GenThumbStateView::Pending { flac_filename: track.filename },
    }
}

/// The tasks that the first `n` tracks give, in the order of the tracks.
pub open spec fn planned(tracks: Seq<TrackView>, thumbnails: Set<u64>, n: int) -> Seq<GenThumbView>
    decreases n,
{
    if n <= 0 {
        Seq::empty()
    } else {
        let before = planned(tracks, thumbnails, n - 1);
        if needs_thumbnail(tracks, thumbnails, n - 1) {
            before.push(pending_task(tracks[n - 1]))
        } else {
            before
        }
    }
}

/// The tasks of a library whose store holds thumbnails of the albums in
/// `thumbnails`.
pub open spec fn planned_tasks(tracks: Seq<TrackView>, thumbnails: Set<u64>) -> Seq<GenThumbView> {
    planned(tracks, thumbnails, tracks.len() as int)
}

/// The status while albums are examined, after `emitted` tasks were planned.
pub open spec fn scanning(status: Status, emitted: int) -> Status {
    Status {
        stage: ScanStage::Scanning,
        files_to_process: (status.files_to_process + emitted) as u64,
        files_processed: status.files_processed,
    }
}

/// The status when all `emitted` tasks are planned and generating starts.
pub open spec fn generating(status: Status, emitted: int) -> Status {
    Status {
        stage: ScanStage::GeneratingThumbnails,
        files_to_process: (status.files_to_process + emitted) as u64,
        files_processed: status.files_processed,
    }
}

/// How often the status is published while tasks are planned: once for
/// every so many tasks. This bounds the number of updates, nothing depends
/// on it otherwise.
pub const PUBLISH_EVERY: usize = 32;

/// What an observer was told by the time `emitted` tasks were planned:
/// that planning starts, and the count after every 32nd task.
pub open spec fn updates_so_far(status: Status, emitted: int) -> Seq<Status> {
    seq![scanning(status, 0)] + Seq::new(
        (emitted / PUBLISH_EVERY as int) as nat,
        |k: int| scanning(status, PUBLISH_EVERY * (k + 1)),
    )
}

/// What an observer is told about the planning of `emitted` tasks in all:
/// what it was told on the way, and at the end that generating starts.
pub open spec fn planning_updates(status: Status, emitted: int) -> Seq<Status> {
    updates_so_far(status, emitted).push(generating(status, emitted))
}

/// All tracks of one album stand next to each other.
pub open spec fn contiguous(tracks: Seq<TrackView>) -> bool {
    forall|i: int, j: int, k: int|
        #![trigger tracks[i], tracks[j], tracks[k]]
        0 <= i < j < k < tracks.len() && tracks[i].album_id == tracks[k].album_id
            ==> tracks[j].album_id == tracks[i].album_id
}

/// The albums that occur in the library.
pub open spec fn albums(tracks: Seq<TrackView>) -> Set<AlbumId> {
    tracks.map_values(|track: TrackView| track.album_id).to_set()
}

/// The albums for which a task was planned, in the order of the tasks.
pub open spec fn task_albums(tasks: Seq<GenThumbView>) -> Seq<AlbumId> {
    tasks.map_values(|task: GenThumbView| task.album_id)
}

/// Where the run of tracks starts that the track at `i` belongs to.
pub open spec fn head_of(tracks: Seq<TrackView>, i: int) -> int
    decreases i,
{
    if i <= 0 || tracks[i - 1].album_id != tracks[i].album_id {
        i
    } else {
        head_of(tracks, i - 1)
    }
}

/// The positions of the tracks among the first `n` that give a task.
pub open spec fn sources(tracks: Seq<TrackView>, thumbnails: Set<u64>, n: int) -> Seq<int>
    decreases n,
{
    if n <= 0 {
        Seq::empty()
    } else {
        let before = sources(tracks, thumbnails, n - 1);
        if needs_thumbnail(tracks, thumbnails, n - 1) {
            before.push(n - 1)
        } else {
            before
        }
    }
}

proof fn lemma_sources(tracks: Seq<TrackView>, thumbnails: Set<u64>, n: int)
    requires
        0 <= n <= tracks.len(),
    ensures
        sources(tracks, thumbnails, n).len() == planned(tracks, thumbnails, n).len(),
        forall|j: int|
            #![trigger sources(tracks, thumbnails, n)[j]]
            0 <= j < sources(tracks, thumbnails, n).len() ==> {
                let i = sources(tracks, thumbnails, n)[j];
                &&& 0 <= i < n
                &&& needs_thumbnail(tracks, thumbnails, i)
                &&& planned(tracks, thumbnails, n)[j] == pending_task(tracks[i])
            },
        forall|j: int, k: int|
            #![trigger sources(tracks, thumbnails, n)[j], sources(tracks, thumbnails, n)[k]]
            0 <= j < k < sources(tracks, thumbnails, n).len() ==> sources(tracks, thumbnails, n)[j]
                < sources(tracks, thumbnails, n)[k],
        forall|i: int|
            0 <= i < n && #[trigger] needs_thumbnail(tracks, thumbnails, i) ==> sources(
                tracks,
                thumbnails,
                n,
            ).contains(i),
    decreases n,
{
    if n > 0 {
        lemma_sources(tracks, thumbnails, n - 1);
        let before = sources(tracks, thumbnails, n - 1);
        let now = sources(tracks, thumbnails, n);
        assert forall|i: int|
            0 <= i < n && #[trigger] needs_thumbnail(tracks, thumbnails, i) implies now.contains(
            i,
        ) by {
            if i < n - 1 {
                assert(before.contains(i));
                let j = choose|j: int| 0 <= j < before.len() && before[j] == i;
                assert(now[j] == i);
            } else {
                assert(now[now.len() - 1] == i);
            }
        }
    }
}

proof fn lemma_head_of(tracks: Seq<TrackView>, i: int)
    requires
        0 <= i < tracks.len(),
    ensures
        0 <= head_of(tracks, i) <= i,
        starts_album(tracks, head_of(tracks, i)),
        tracks[head_of(tracks, i)].album_id == tracks[i].album_id,
    decreases i,
{
    if i > 0 && tracks[i - 1].album_id == tracks[i].album_id {
        lemma_head_of(tracks, i - 1);
    }
}

/// Every task comes from the first track of a run of an album that has no
/// thumbnail: its album is that track's, and its file too.
pub proof fn lemma_tasks_have_a_source(tracks: Seq<TrackView>, thumbnails: Set<u64>, j: int)
    requires
        0 <= j < planned_tasks(tracks, thumbnails).len(),
    ensures
        exists|i: int| #[trigger]
            needs_thumbnail(tracks, thumbnails, i) && planned_tasks(tracks, thumbnails)[j]
                == pending_task(tracks[i]),
{
    lemma_sources(tracks, thumbnails, tracks.len() as int);
    let i = sources(tracks, thumbnails, tracks.len() as int)[j];
    assert(needs_thumbnail(tracks, thumbnails, i));
}

/// No omissions: an album without a thumbnail has a task, whichever of its
/// tracks one looks at, and the task looks for the cover in the first track
/// of the run.
pub proof fn lemma_no_omissions(tracks: Seq<TrackView>, thumbnails: Set<u64>, i: int)
    requires
        0 <= i < tracks.len(),
        !thumbnails.contains(tracks[i].album_id.0),
    ensures
        planned_tasks(tracks, thumbnails).contains(pending_task(tracks[head_of(tracks, i)])),
        tracks[head_of(tracks, i)].album_id == tracks[i].album_id,
{
    lemma_head_of(tracks, i);
    let h = head_of(tracks, i);
    lemma_sources(tracks, thumbnails, tracks.len() as int);
    assert(needs_thumbnail(tracks, thumbnails, h));
    let from = sources(tracks, thumbnails, tracks.len() as int);
    assert(from.contains(h));
    let j = choose|j: int| 0 <= j < from.len() && from[j] == h;
    assert(planned_tasks(tracks, thumbnails)[j] == pending_task(tracks[h]));
}

/// An album whose thumbnail is in the store gets no task.
pub proof fn lemma_no_task_for_stored(tracks: Seq<TrackView>, thumbnails: Set<u64>, j: int)
    requires
        0 <= j < planned_tasks(tracks, thumbnails).len(),
    ensures
        !thumbnails.contains(planned_tasks(tracks, thumbnails)[j].album_id.0),
{
    lemma_sources(tracks, thumbnails, tracks.len() as int);
    let i = sources(tracks, thumbnails, tracks.len() as int)[j];
    assert(needs_thumbnail(tracks, thumbnails, i));
}

/// No duplicates: where the tracks come album by album, no two tasks are
/// for the same album.
pub proof fn lemma_no_duplicates(tracks: Seq<TrackView>, thumbnails: Set<u64>, j: int, k: int)
    requires
        contiguous(tracks),
        0 <= j < k < planned_tasks(tracks, thumbnails).len(),
    ensures
        planned_tasks(tracks, thumbnails)[j].album_id != planned_tasks(tracks, thumbnails)[k].album_id,
{
    lemma_sources(tracks, thumbnails, tracks.len() as int);
    let from = sources(tracks, thumbnails, tracks.len() as int);
    let a = from[j];
    let b = from[k];
    assert(a < b);
    assert(needs_thumbnail(tracks, thumbnails, a) && needs_thumbnail(tracks, thumbnails, b));
    if tracks[a].album_id == tracks[b].album_id {
        if a < b - 1 {
            let _ = (tracks[a], tracks[b - 1], tracks[b]);
            assert(tracks[b - 1].album_id == tracks[a].album_id);
        }
        assert(tracks[b - 1].album_id == tracks[b].album_id);
    }
}

/// Where the tracks come album by album and the store holds no thumbnail of
/// any of them, there is exactly one task for each album of the library,
/// however many tracks the albums have.
pub proof fn lemma_one_task_per_album(tracks: Seq<TrackView>, thumbnails: Set<u64>)
    requires
        contiguous(tracks),
        forall|i: int| 0 <= i < tracks.len() ==> !thumbnails.contains(#[trigger] tracks[i].album_id.0),
    ensures
        task_albums(planned_tasks(tracks, thumbnails)).no_duplicates(),
        task_albums(planned_tasks(tracks, thumbnails)).to_set() == albums(tracks),
        planned_tasks(tracks, thumbnails).len() == albums(tracks).len(),
{
    let tasks = planned_tasks(tracks, thumbnails);
    let of_tasks = task_albums(tasks);
    let of_tracks = tracks.map_values(|track: TrackView| track.album_id);
    assert forall|j: int, k: int| 0 <= j < of_tasks.len() && 0 <= k < of_tasks.len() && j != k implies of_tasks[j] != of_tasks[k] by {
        if j < k {
            lemma_no_duplicates(tracks, thumbnails, j, k);
        } else {
            lemma_no_duplicates(tracks, thumbnails, k, j);
        }
    }
    assert forall|album: AlbumId| of_tasks.to_set().contains(album) <==> of_tracks.to_set().contains(album) by {
        if of_tasks.contains(album) {
            let j = choose|j: int| 0 <= j < of_tasks.len() && of_tasks[j] == album;
            lemma_tasks_have_a_source(tracks, thumbnails, j);
            let i = choose|i: int| #[trigger]
                needs_thumbnail(tracks, thumbnails, i) && tasks[j] == pending_task(tracks[i]);
            assert(of_tracks[i] == album);
        }
        if of_tracks.contains(album) {
            let i = choose|i: int| 0 <= i < of_tracks.len() && of_tracks[i] == album;
            assert(tracks[i].album_id == album);
            lemma_no_omissions(tracks, thumbnails, i);
            let task = pending_task(tracks[head_of(tracks, i)]);
            let j = choose|j: int| 0 <= j < tasks.len() && tasks[j] == task;
            assert(of_tasks[j] == album);
        }
    }
    assert(of_tasks.to_set() =~= of_tracks.to_set());
    of_tasks.unique_seq_to_set();
}

proof fn lemma_planned_same(tracks: Seq<TrackView>, before: Set<u64>, after: Set<u64>, n: int)
    requires
        0 <= n <= tracks.len(),
        forall|i: int|
            0 <= i < tracks.len() ==> before.contains(#[trigger] tracks[i].album_id.0)
                == after.contains(tracks[i].album_id.0),
    ensures
        planned(tracks, before, n) == planned(tracks, after, n),
    decreases n,
{
    if n > 0 {
        lemma_planned_same(tracks, before, after, n - 1);
        assert(before.contains(tracks[n - 1].album_id.0) == after.contains(
            tracks[n - 1].album_id.0,
        ));
    }
}

/// Planning is idempotent. The tasks depend on the store only through which
/// albums of the library have a thumbnail there, so planning once more,
/// with no task completed in between, gives the same tasks again.
pub proof fn lemma_replanning_gives_the_same_tasks(
    tracks: Seq<TrackView>,
    before: Set<u64>,
    after: Set<u64>,
)
    requires
        forall|i: int|
            0 <= i < tracks.len() ==> before.contains(#[trigger] tracks[i].album_id.0)
                == after.contains(tracks[i].album_id.0),
    ensures
        planned_tasks(tracks, before) == planned_tasks(tracks, after),
{
    lemma_planned_same(tracks, before, after, tracks.len() as int);
}

proof fn lemma_planned_without(
    tracks: Seq<TrackView>,
    thumbnails: Set<u64>,
    completed: Set<u64>,
    n: int,
)
    requires
        0 <= n <= tracks.len(),
    ensures
        planned(tracks, thumbnails.union(completed), n) == planned(tracks, thumbnails, n).filter(
            |task: GenThumbView| !completed.contains(task.album_id.0),
        ),
    decreases n,
{
    let open = |task: GenThumbView| !completed.contains(task.album_id.0);
    if n > 0 {
        lemma_planned_without(tracks, thumbnails, completed, n - 1);
        let before = planned(tracks, thumbnails, n - 1);
        if needs_thumbnail(tracks, thumbnails, n - 1) {
            let task = pending_task(tracks[n - 1]);
            assert(before.push(task).drop_last() =~= before);
            assert(before.push(task).last() == task);
            assert(before.push(task).filter(open) == if open(task) {
                before.filter(open).push(task)
            } else {
                before.filter(open)
            }) by {
                reveal_with_fuel(Seq::filter, 2);
            }
        }
    }
}

/// When the thumbnails of the albums in `completed` have gone to the store,
/// planning once more gives the tasks of before without those of the
/// completed albums, in the same order.
pub proof fn lemma_replanning_after_completions(
    tracks: Seq<TrackView>,
    thumbnails: Set<u64>,
    completed: Set<u64>,
)
    ensures
        planned_tasks(tracks, thumbnails.union(completed)) == planned_tasks(
            tracks,
            thumbnails,
        ).filter(|task: GenThumbView| !completed.contains(task.album_id.0)),
{
    lemma_planned_without(tracks, thumbnails, completed, tracks.len() as int);
}

/// Where planning starts before thumbnails are generated, an observer sees
/// the status only ever advance: each update follows the ones before it.
pub proof fn lemma_updates_advance(status: Status, emitted: int, i: int, j: int)
    requires
        status.stage != ScanStage::GeneratingThumbnails,
        0 <= emitted,
        status.files_to_process + emitted <= u64::MAX,
        0 <= i <= j < planning_updates(status, emitted).len(),
    ensures
        status.precedes(planning_updates(status, emitted)[i]),
        planning_updates(status, emitted)[i].precedes(planning_updates(status, emitted)[j]),
        planning_updates(status, emitted).len() == emitted / 32 + 2,
{
}

} // verus!
