//! Metadata lookups for shuffling playlists.

use vstd::prelude::*;
use crate::prim::{AlbumId, ArtistId};

verus! {

/// Trait to decouple metadata lookups from shuffling.
///
/// This is to make the shuffling easier to test without having to construct
/// full queued tracks and a full index.
pub trait Shuffle {
    type Track;

    fn get_album_id(&self, track: &Self::Track) -> AlbumId;

    fn get_artist_id(&self, album_id: AlbumId) -> ArtistId;
}

/// Shuffler for use in tests.
///
/// In the tests we use a triple of bytes as the track type:
///
/// * Index 0 identifies the artist.
/// * Index 1 identifies the album within the artist.
/// * Index 2 identifies the track on the album.
///
/// This makes it easy to construct such ids as literals without having to
/// build up large dictionaries.
#[derive(Clone, Copy, Debug, PartialEq, Eq, Structural)]
pub struct TestShuffler;

impl TestShuffler {
    /// The album of a track: the artist's byte, then the album's byte, then
    /// a zero byte.
    pub open spec fn spec_album_id(track: [u8; 3]) -> AlbumId {
        AlbumId((track[0] * 0x1_0000 + track[1] * 0x100) as u64)
    }

    /// The artist of an album: the album id without its lowest byte.
    pub open spec fn spec_artist_id(album_id: AlbumId) -> ArtistId {
        ArtistId(album_id.0 / 0x100)
    }
}

impl Shuffle for TestShuffler {
    type Track = [u8; 3];

    fn get_album_id(&self, track: &[u8; 3]) -> (album_id: AlbumId)
        ensures
            album_id == Self::spec_album_id(*track),
    {
        let artist: u8 = track[0];
        let album: u8 = track[1];
        let id: u64 = ((artist as u64) << 16) | ((album as u64) << 8);
        assert(id == artist * 0x1_0000 + album * 0x100) by (bit_vector)
            requires
                id == ((artist as u64) << 16) | ((album as u64) << 8),
        ;
        AlbumId(id)
    }

    fn get_artist_id(&self, album_id: AlbumId) -> (artist_id: ArtistId)
        ensures
            artist_id == Self::spec_artist_id(album_id),
    {
        let n: u64 = album_id.0;
        let id: u64 = n >> 8;
        assert(id == n / 0x100) by (bit_vector)
            requires
                id == n >> 8,
        ;
        ArtistId(id)
    }
}

} // verus!
