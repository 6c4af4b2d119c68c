//! Identifiers of the things in a music library.

use vstd::prelude::*;

verus! {

/// Identifies an album. Two albums never share an id.
#[derive(Clone, Copy, Debug, PartialEq, Eq, Structural, Hash)]
pub struct AlbumId(pub u64);

/// Identifies an artist.
#[derive(Clone, Copy, Debug, PartialEq, Eq, Structural, Hash)]
pub struct ArtistId(pub u64);

/// Identifies a track.
#[derive(Clone, Copy, Debug, PartialEq, Eq, Structural, Hash)]
pub struct TrackId(pub u64);

/// Identifies an entry of the play queue.
#[derive(Clone, Copy, Debug, PartialEq, Eq, Structural, Hash)]
pub struct QueueId(pub u64);

} // verus!
