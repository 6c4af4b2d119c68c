//! Cover-art thumbnails for a music library.
//!
//! For every album without a stored thumbnail the library plans one task,
//! and each task walks through a fixed chain of stages: find the embedded
//! cover, resize it with one external tool, compress it with another. The
//! library decides; the program around it reads files, starts processes and
//! talks to the store.

pub mod prim;
pub mod scan;
pub mod scratch;
pub mod command;
pub mod thumb_gen;
pub mod plan;
pub mod pool;
pub mod history;
pub mod shuffle;
