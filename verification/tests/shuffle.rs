use musium::prim::{AlbumId, ArtistId};
use musium::shuffle::{Shuffle, TestShuffler};

#[test]
fn album_id_is_made_of_artist_and_album() {
    assert_eq!(TestShuffler.get_album_id(b"A00"), AlbumId(0x41_30_00));
    assert_eq!(TestShuffler.get_album_id(b"B00"), AlbumId(0x42_30_00));
    assert_eq!(TestShuffler.get_album_id(&[0, 0, 0]), AlbumId(0));
    assert_eq!(TestShuffler.get_album_id(&[255, 255, 255]), AlbumId(0xff_ff_00));
}

#[test]
fn track_byte_does_not_change_the_album() {
    assert_eq!(TestShuffler.get_album_id(b"A01"), TestShuffler.get_album_id(b"A09"));
    assert_ne!(TestShuffler.get_album_id(b"A01"), TestShuffler.get_album_id(b"A11"));
}

#[test]
fn artist_id_is_the_album_id_without_its_low_byte() {
    assert_eq!(TestShuffler.get_artist_id(AlbumId(0x41_30_00)), ArtistId(0x41_30));
    assert_eq!(TestShuffler.get_artist_id(AlbumId(0xff)), ArtistId(0));
    assert_eq!(TestShuffler.get_artist_id(AlbumId(u64::MAX)), ArtistId(u64::MAX >> 8));
}

#[test]
fn artist_of_a_track() {
    let album = TestShuffler.get_album_id(b"B07");
    assert_eq!(TestShuffler.get_artist_id(album), ArtistId(0x42_30));
}
