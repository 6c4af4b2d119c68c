//! Progress of a run, as an observer sees it.

use vstd::prelude::*;

verus! {

/// What a run is busy with.
#[derive(Clone, Copy, Debug, PartialEq, Eq, Structural)]
pub enum ScanStage {
    /// Nothing has started.
    Idle,
    /// Albums are being examined to find those that need a thumbnail.
    Scanning,
    /// Thumbnails are being generated.
    GeneratingThumbnails,
}

impl ScanStage {
    /// Position of the stage in the order in which a run passes through them.
    pub open spec fn rank(self) -> nat {
        match self {
            ScanStage::Idle => 0,
            ScanStage::Scanning => 1,
            ScanStage::GeneratingThumbnails => 2,
        }
    }
}

/// Counters of a run. Observers get copies; only the run itself changes them.
#[derive(Clone, Copy, Debug, PartialEq, Eq, Structural)]
pub struct Status {
    pub stage: ScanStage,
    /// Albums for which a task was planned.
    pub files_to_process: u64,
    /// Tasks that produced a thumbnail.
    pub files_processed: u64,
}

impl Status {
    /// No more thumbnails were produced than tasks were planned.
    pub open spec fn wf(self) -> bool {
        self.files_processed <= self.files_to_process
    }

    /// `later` can follow `self` in one run: the stage did not go back and
    /// no counter went down.
    pub open spec fn precedes(self, later: Status) -> bool {
        &&& self.stage.rank() <= later.stage.rank()
        &&& self.files_to_process <= later.files_to_process
        &&& self.files_processed <= later.files_processed
    }

    /// The status before anything has happened.
    pub fn new() -> (status: Status)
        ensures
            status == (Status { stage: ScanStage::Idle, files_to_process: 0, files_processed: 0 }),
    {
        Status { stage: ScanStage::Idle, files_to_process: 0, files_processed: 0 }
    }
}

} // verus!
