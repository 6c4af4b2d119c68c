use musium::prim::AlbumId;
use musium::scratch::get_tmp_fname;

#[test]
fn tmp_fname_has_sixteen_hex_digits() {
    assert_eq!(
        get_tmp_fname("/tmp", AlbumId(0x1a2b)),
        "/tmp/musium-thumb-0000000000001a2b.png"
    );
}

#[test]
fn tmp_fname_of_album_zero() {
    assert_eq!(
        get_tmp_fname("/var/tmp", AlbumId(0)),
        "/var/tmp/musium-thumb-0000000000000000.png"
    );
}

#[test]
fn tmp_fname_of_largest_album() {
    assert_eq!(
        get_tmp_fname("", AlbumId(u64::MAX)),
        "/musium-thumb-ffffffffffffffff.png"
    );
}

#[test]
fn tmp_fname_uses_every_digit() {
    assert_eq!(
        get_tmp_fname("scratch", AlbumId(0x0123_4567_89ab_cdef)),
        "scratch/musium-thumb-0123456789abcdef.png"
    );
}

#[test]
fn tmp_fname_is_the_same_on_every_call() {
    let first = get_tmp_fname("/tmp", AlbumId(77));
    let second = get_tmp_fname("/tmp", AlbumId(77));
    assert_eq!(first, second);
}

#[test]
fn tmp_fname_differs_between_albums() {
    let ids = [0u64, 1, 15, 16, 255, 256, 1 << 32, 1 << 60, u64::MAX];
    for (i, a) in ids.iter().enumerate() {
        for (j, b) in ids.iter().enumerate() {
            let same = get_tmp_fname("/tmp", AlbumId(*a)) == get_tmp_fname("/tmp", AlbumId(*b));
            assert_eq!(same, i == j);
        }
    }
}
