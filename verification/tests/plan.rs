use std::collections::HashSet;

use musium::plan::Track;
use musium::prim::{AlbumId, TrackId};
use musium::scan::{ScanStage, Status};
use musium::thumb_gen::{generate_thumbnails, GenThumb, GenThumbState};

fn track(track_id: u64, album_id: u64) -> Track {
    Track {
        track_id: TrackId(track_id),
        album_id: AlbumId(album_id),
        filename: format!("/music/{}/{}.flac", album_id, track_id),
    }
}

fn task(album_id: u64, first_track: u64) -> GenThumb {
    GenThumb {
        album_id: AlbumId(album_id),
        state: GenThumbState::Pending {
            flac_filename: format!("/music/{}/{}.flac", album_id, first_track),
        },
    }
}

fn fresh() -> Status {
    Status { stage: ScanStage::Idle, files_to_process: 0, files_processed: 0 }
}

#[test]
fn status_starts_idle_and_empty() {
    assert_eq!(Status::new(), fresh());
}

#[test]
fn empty_library_has_no_tasks() {
    let plan = generate_thumbnails(&Vec::new(), &HashSet::new(), Status::new());
    assert!(plan.queue.tasks.is_empty());
    assert_eq!(plan.queue.in_flight, 0);
    assert_eq!(
        plan.queue.status,
        Status { stage: ScanStage::GeneratingThumbnails, files_to_process: 0, files_processed: 0 }
    );
    assert_eq!(
        plan.updates,
        vec![
            Status { stage: ScanStage::Scanning, files_to_process: 0, files_processed: 0 },
            Status { stage: ScanStage::GeneratingThumbnails, files_to_process: 0, files_processed: 0 },
        ]
    );
    assert!(plan.queue.is_finished());
}

#[test]
fn one_task_per_album_whatever_the_track_count() {
    let tracks = vec![
        track(1, 10),
        track(2, 10),
        track(3, 10),
        track(4, 20),
        track(5, 30),
        track(6, 30),
    ];
    let plan = generate_thumbnails(&tracks, &HashSet::new(), Status::new());
    assert_eq!(plan.queue.tasks, vec![task(10, 1), task(20, 4), task(30, 5)]);
    assert_eq!(plan.queue.status.files_to_process, 3);
    assert_eq!(plan.queue.status.files_processed, 0);
}

#[test]
fn task_count_does_not_depend_on_tracks_per_album() {
    let few = vec![track(1, 10), track(2, 20)];
    let many = vec![
        track(1, 10),
        track(3, 10),
        track(4, 10),
        track(5, 10),
        track(2, 20),
        track(6, 20),
    ];
    let of_few = generate_thumbnails(&few, &HashSet::new(), Status::new());
    let of_many = generate_thumbnails(&many, &HashSet::new(), Status::new());
    assert_eq!(of_few.queue.tasks, of_many.queue.tasks);
    assert_eq!(of_few.queue.status, of_many.queue.status);
}

#[test]
fn album_with_thumbnail_gets_no_task() {
    let tracks = vec![track(1, 10), track(2, 20), track(3, 20), track(4, 30)];
    let thumbnails: HashSet<u64> = [20].into_iter().collect();
    let plan = generate_thumbnails(&tracks, &thumbnails, Status::new());
    assert_eq!(plan.queue.tasks, vec![task(10, 1), task(30, 4)]);
    assert_eq!(plan.queue.status.files_to_process, 2);
}

#[test]
fn all_albums_with_thumbnail_give_no_task() {
    let tracks = vec![track(1, 10), track(2, 20)];
    let thumbnails: HashSet<u64> = [10, 20, 99].into_iter().collect();
    let plan = generate_thumbnails(&tracks, &thumbnails, Status::new());
    assert!(plan.queue.tasks.is_empty());
    assert_eq!(plan.queue.status.files_to_process, 0);
}

#[test]
fn album_zero_is_an_album_like_any_other() {
    let tracks = vec![track(1, 0), track(2, 0), track(3, 5)];
    let plan = generate_thumbnails(&tracks, &HashSet::new(), Status::new());
    assert_eq!(plan.queue.tasks, vec![task(0, 1), task(5, 3)]);
}

#[test]
fn planning_twice_gives_the_same_tasks() {
    let tracks = vec![track(1, 10), track(2, 10), track(3, 20), track(4, 30)];
    let thumbnails: HashSet<u64> = [30].into_iter().collect();
    let first = generate_thumbnails(&tracks, &thumbnails, Status::new());
    let second = generate_thumbnails(&tracks, &thumbnails, Status::new());
    assert_eq!(first, second);
    let albums: HashSet<AlbumId> = first.queue.tasks.iter().map(|task| task.album_id).collect();
    assert_eq!(albums.len(), first.queue.tasks.len());
    assert_eq!(albums, [AlbumId(10), AlbumId(20)].into_iter().collect());
}

#[test]
fn counters_go_on_from_the_given_status() {
    let tracks = vec![track(1, 10), track(2, 20)];
    let status = Status { stage: ScanStage::Idle, files_to_process: 40, files_processed: 7 };
    let plan = generate_thumbnails(&tracks, &HashSet::new(), status);
    assert_eq!(
        plan.queue.status,
        Status { stage: ScanStage::GeneratingThumbnails, files_to_process: 42, files_processed: 7 }
    );
    assert_eq!(
        plan.updates,
        vec![
            Status { stage: ScanStage::Scanning, files_to_process: 40, files_processed: 7 },
            Status { stage: ScanStage::GeneratingThumbnails, files_to_process: 42, files_processed: 7 },
        ]
    );
}

#[test]
fn status_is_published_after_every_32_tasks() {
    let tracks: Vec<Track> = (0..70).map(|i| track(i, 1000 + i)).collect();
    let plan = generate_thumbnails(&tracks, &HashSet::new(), Status::new());
    assert_eq!(plan.queue.tasks.len(), 70);
    let counts: Vec<(ScanStage, u64)> =
        plan.updates.iter().map(|status| (status.stage, status.files_to_process)).collect();
    assert_eq!(
        counts,
        vec![
            (ScanStage::Scanning, 0),
            (ScanStage::Scanning, 32),
            (ScanStage::Scanning, 64),
            (ScanStage::GeneratingThumbnails, 70),
        ]
    );
}

#[test]
fn exactly_32_tasks_publish_once_in_between() {
    let tracks: Vec<Track> = (0..32).map(|i| track(i, 1000 + i)).collect();
    let plan = generate_thumbnails(&tracks, &HashSet::new(), Status::new());
    let counts: Vec<u64> = plan.updates.iter().map(|status| status.files_to_process).collect();
    assert_eq!(counts, vec![0, 32, 32]);
    let short: Vec<Track> = (0..31).map(|i| track(i, 1000 + i)).collect();
    let plan = generate_thumbnails(&short, &HashSet::new(), Status::new());
    let counts: Vec<u64> = plan.updates.iter().map(|status| status.files_to_process).collect();
    assert_eq!(counts, vec![0, 31]);
}

#[test]
fn updates_only_advance() {
    let tracks: Vec<Track> = (0..100).map(|i| track(i, i / 2)).collect();
    let plan = generate_thumbnails(&tracks, &HashSet::new(), Status::new());
    assert_eq!(plan.queue.tasks.len(), 50);
    for pair in plan.updates.windows(2) {
        assert!(pair[0].files_to_process <= pair[1].files_to_process);
        assert!(pair[0].files_processed <= pair[1].files_processed);
        assert!(pair[0].stage == ScanStage::Scanning);
    }
    assert_eq!(plan.updates.last().unwrap().stage, ScanStage::GeneratingThumbnails);
}
