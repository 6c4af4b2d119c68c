use musium::command::{compress_command, resize_command};
use musium::prim::AlbumId;
use musium::thumb_gen::{
    Awaits, Cause, Error, Event, GenThumb, GenThumbState, Outcome, ProcessHandle, Stage, Step,
    Tool, Work,
};

const TMP: &str = "/tmp";
const PATH_7: &str = "/tmp/musium-thumb-0000000000000007.png";

fn pending(album: u64) -> GenThumb {
    GenThumb::new(AlbumId(album), format!("/music/{}.flac", album), false).unwrap()
}

fn resizing(album: u64) -> GenThumb {
    GenThumb {
        album_id: AlbumId(album),
        state: GenThumbState::Resizing {
            child: ProcessHandle { album_id: AlbumId(album), tool: Tool::Resize },
            out_path: PATH_7.to_string(),
        },
    }
}

fn compressing(album: u64) -> GenThumb {
    GenThumb {
        album_id: AlbumId(album),
        state: GenThumbState::Compressing {
            child: ProcessHandle { album_id: AlbumId(album), tool: Tool::Compress },
            in_path: PATH_7.to_string(),
        },
    }
}

#[test]
fn new_gives_a_pending_task_without_thumbnail() {
    let task = GenThumb::new(AlbumId(7), "/music/a.flac".to_string(), false);
    assert_eq!(
        task,
        Some(GenThumb {
            album_id: AlbumId(7),
            state: GenThumbState::Pending { flac_filename: "/music/a.flac".to_string() },
        })
    );
}

#[test]
fn new_gives_nothing_with_thumbnail() {
    assert_eq!(GenThumb::new(AlbumId(7), "/music/a.flac".to_string(), true), None);
}

#[test]
fn stage_follows_the_state() {
    assert_eq!(pending(7).stage(), Stage::Pending);
    assert_eq!(resizing(7).stage(), Stage::Resizing);
    assert_eq!(compressing(7).stage(), Stage::Compressing);
}

#[test]
fn pending_task_awaits_the_covers_of_its_file() {
    assert_eq!(pending(7).awaits(), Awaits::Covers { flac_filename: "/music/7.flac" });
}

#[test]
fn running_task_awaits_its_process() {
    assert_eq!(
        resizing(7).awaits(),
        Awaits::Exit { child: ProcessHandle { album_id: AlbumId(7), tool: Tool::Resize } }
    );
    assert_eq!(
        compressing(7).awaits(),
        Awaits::Exit { child: ProcessHandle { album_id: AlbumId(7), tool: Tool::Compress } }
    );
}

#[test]
fn pending_task_without_cover_is_skipped() {
    let step = pending(7).advance(Event::Covers(Vec::new()), TMP);
    assert_eq!(step, Ok(Step { outcome: Outcome::Skipped, work: Work::Nothing }));
}

#[test]
fn pending_task_with_cover_starts_resizing() {
    let step = pending(7).advance(Event::Covers(vec![vec![0xff, 0xd8]]), TMP).unwrap();
    let child = ProcessHandle { album_id: AlbumId(7), tool: Tool::Resize };
    assert_eq!(
        step.outcome,
        Outcome::Running(GenThumb {
            album_id: AlbumId(7),
            state: GenThumbState::Resizing { child, out_path: PATH_7.to_string() },
        })
    );
    assert_eq!(
        step.work,
        Work::Spawn { child, command: resize_command(vec![0xff, 0xd8], PATH_7) }
    );
}

#[test]
fn last_cover_wins() {
    let covers = vec![vec![1], vec![2, 2], vec![3, 3, 3]];
    let step = pending(7).advance(Event::Covers(covers), TMP).unwrap();
    match step.work {
        Work::Spawn { command, .. } => assert_eq!(command.stdin, Some(vec![3, 3, 3])),
        other => panic!("unexpected work {:?}", other),
    }
}

#[test]
fn start_resize_is_what_advance_does_when_pending() {
    let covers = vec![vec![9, 9]];
    let direct = pending(7).start_resize(covers.clone(), TMP);
    let through = pending(7).advance(Event::Covers(covers), TMP).unwrap();
    assert_eq!(direct, through);
}

#[test]
fn scratch_path_depends_on_the_directory() {
    let step = pending(7).start_resize(vec![vec![1]], "/var/scratch");
    match step.outcome {
        Outcome::Running(task) => assert_eq!(
            task.state,
            GenThumbState::Resizing {
                child: ProcessHandle { album_id: AlbumId(7), tool: Tool::Resize },
                out_path: "/var/scratch/musium-thumb-0000000000000007.png".to_string(),
            }
        ),
        other => panic!("unexpected outcome {:?}", other),
    }
}

#[test]
fn resized_task_starts_compressing() {
    let step = resizing(7).advance(Event::Exited { success: true }, TMP).unwrap();
    let child = ProcessHandle { album_id: AlbumId(7), tool: Tool::Compress };
    assert_eq!(
        step.outcome,
        Outcome::Running(GenThumb {
            album_id: AlbumId(7),
            state: GenThumbState::Compressing { child, in_path: PATH_7.to_string() },
        })
    );
    assert_eq!(step.work, Work::Spawn { child, command: compress_command(PATH_7) });
}

#[test]
fn start_compress_is_what_advance_does_when_resized() {
    let direct = resizing(7).start_compress();
    let through = resizing(7).advance(Event::Exited { success: true }, TMP).unwrap();
    assert_eq!(direct, through);
}

#[test]
fn compressed_task_is_done_and_cleans_up() {
    let step = compressing(7).advance(Event::Exited { success: true }, TMP).unwrap();
    assert_eq!(step.outcome, Outcome::Done);
    assert_eq!(
        step.work,
        Work::Finish {
            album_id: AlbumId(7),
            remove: PATH_7.to_string(),
            output_of: ProcessHandle { album_id: AlbumId(7), tool: Tool::Compress },
        }
    );
    assert_eq!(compressing(7).finish(), step);
}

#[test]
fn happy_path_takes_three_calls() {
    let mut task = pending(7);
    let events = [
        Event::Covers(vec![vec![1, 2, 3]]),
        Event::Exited { success: true },
        Event::Exited { success: true },
    ];
    let mut calls = 0;
    let mut stages = vec![task.stage()];
    let mut last = None;
    for event in events {
        calls += 1;
        let step = task.clone().advance(event, TMP).unwrap();
        match step.outcome {
            Outcome::Running(next) => {
                assert_eq!(next.album_id, AlbumId(7));
                stages.push(next.stage());
                task = next;
            }
            other => {
                last = Some((other, step.work));
                break;
            }
        }
    }
    assert_eq!(calls, 3);
    assert_eq!(stages, vec![Stage::Pending, Stage::Resizing, Stage::Compressing]);
    let (outcome, work) = last.unwrap();
    assert_eq!(outcome, Outcome::Done);
    assert_eq!(
        work,
        Work::Finish {
            album_id: AlbumId(7),
            remove: PATH_7.to_string(),
            output_of: ProcessHandle { album_id: AlbumId(7), tool: Tool::Compress },
        }
    );
}

#[test]
fn failed_resize_aborts_without_work() {
    let result = resizing(7).advance(Event::Exited { success: false }, TMP);
    assert_eq!(
        result,
        Err(Error { album_id: AlbumId(7), stage: Stage::Resizing, cause: Cause::ProcessFailed })
    );
}

#[test]
fn failed_compress_aborts_without_work() {
    let result = compressing(7).advance(Event::Exited { success: false }, TMP);
    assert_eq!(
        result,
        Err(Error { album_id: AlbumId(7), stage: Stage::Compressing, cause: Cause::ProcessFailed })
    );
}

#[test]
fn unreadable_source_is_an_error() {
    let result = pending(7).advance(Event::Unreadable, TMP);
    assert_eq!(
        result,
        Err(Error { album_id: AlbumId(7), stage: Stage::Pending, cause: Cause::SourceUnreadable })
    );
}

#[test]
fn io_failure_is_an_error_at_every_stage() {
    for (task, stage) in [
        (pending(7), Stage::Pending),
        (resizing(7), Stage::Resizing),
        (compressing(7), Stage::Compressing),
    ] {
        assert_eq!(
            task.advance(Event::Failed, TMP),
            Err(Error { album_id: AlbumId(7), stage, cause: Cause::Io })
        );
    }
}

#[test]
fn event_that_was_not_awaited_is_an_error() {
    let unexpected = |stage| Err(Error {
        album_id: AlbumId(7),
        stage,
        cause: Cause::UnexpectedEvent,
    });
    assert_eq!(pending(7).advance(Event::Exited { success: true }, TMP), unexpected(Stage::Pending));
    assert_eq!(pending(7).advance(Event::Exited { success: false }, TMP), unexpected(Stage::Pending));
    assert_eq!(resizing(7).advance(Event::Covers(vec![vec![1]]), TMP), unexpected(Stage::Resizing));
    assert_eq!(resizing(7).advance(Event::Unreadable, TMP), unexpected(Stage::Resizing));
    assert_eq!(
        compressing(7).advance(Event::Covers(Vec::new()), TMP),
        unexpected(Stage::Compressing)
    );
    assert_eq!(compressing(7).advance(Event::Unreadable, TMP), unexpected(Stage::Compressing));
}

#[test]
fn tasks_of_two_albums_share_nothing() {
    let first = pending(1).start_resize(vec![vec![1]], TMP);
    let second = pending(2).start_resize(vec![vec![1]], TMP);
    match (first.outcome, second.outcome) {
        (Outcome::Running(a), Outcome::Running(b)) => match (a.state, b.state) {
            (
                GenThumbState::Resizing { child: child_a, out_path: path_a },
                GenThumbState::Resizing { child: child_b, out_path: path_b },
            ) => {
                assert_ne!(child_a, child_b);
                assert_ne!(path_a, path_b);
            }
            other => panic!("unexpected states {:?}", other),
        },
        other => panic!("unexpected outcomes {:?}", other),
    }
}
