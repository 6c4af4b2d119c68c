//! Where a task keeps the resized image between its two tools.
//!
//! The file's name is made from the album id alone, so that every task knows
//! its own file, a later run finds and overwrites what an earlier one left,
//! and two albums never write to the same file.

use vstd::prelude::*;
use vstd::string::StringExecFns;
use crate::prim::AlbumId;

verus! {

/// The hexadecimal digit for a value below sixteen, in lower case.
pub open spec fn hex_char(d: int) -> char {
    if d == 0 {
        '0'
    } else if d == 1 {
        '1'
    } else if d == 2 {
        '2'
    } else if d == 3 {
        '3'
    } else if d == 4 {
        '4'
    } else if d == 5 {
        '5'
    } else if d == 6 {
        '6'
    } else if d == 7 {
        '7'
    } else if d == 8 {
        '8'
    } else if d == 9 {
        '9'
    } else if d == 10 {
        'a'
    } else if d == 11 {
        'b'
    } else if d == 12 {
        'c'
    } else if d == 13 {
        'd'
    } else if d == 14 {
        'e'
    } else {
        'f'
    }
}

/// The `i`-th group of four bits of `n`, counted from the most significant.
pub open spec fn nibble(n: u64, i: int) -> u64 {
    (n >> ((60 - 4 * i) as u64)) & 0xf
}

/// `n` written with all its sixteen hexadecimal digits, leading zeros kept.
pub open spec fn hex16(n: u64) -> Seq<char> {
    Seq::new(16, |i: int| hex_char(nibble(n, i) as int))
}

/// The file in `tmp_dir` that holds the resized, not yet compressed, image
/// of the album.
pub open spec fn tmp_fname(tmp_dir: Seq<char>, album_id: AlbumId) -> Seq<char> {
    tmp_dir + "/musium-thumb-"@ + hex16(album_id.0) + ".png"@
}

fn hex_digit(d: u64) -> (s: &'static str)
    requires
        d < 16,
    ensures
        s@ == seq![hex_char(d as int)],
{
    proof {
        reveal_strlit("0");
        reveal_strlit("1");
        reveal_strlit("2");
        reveal_strlit("3");
        reveal_strlit("4");
        reveal_strlit("5");
        reveal_strlit("6");
        reveal_strlit("7");
        reveal_strlit("8");
        reveal_strlit("9");
        reveal_strlit("a");
        reveal_strlit("b");
        reveal_strlit("c");
        reveal_strlit("d");
        reveal_strlit("e");
        reveal_strlit("f");
    }
    let s = if d == 0 {
        "0"
    } else if d == 1 {
        "1"
    } else if d == 2 {
        "2"
    } else if d == 3 {
        "3"
    } else if d == 4 {
        "4"
    } else if d == 5 {
        "5"
    } else if d == 6 {
        "6"
    } else if d == 7 {
        "7"
    } else if d == 8 {
        "8"
    } else if d == 9 {
        "9"
    } else if d == 10 {
        "a"
    } else if d == 11 {
        "b"
    } else if d == 12 {
        "c"
    } else if d == 13 {
        "d"
    } else if d == 14 {
        "e"
    } else {
        "f"
    };
    assert(s@ =~= seq![hex_char(d as int)]);
    s
}

/// Return the intermediate file path where the resized but uncompressed
/// thumbnail of the album is written.
pub fn get_tmp_fname(tmp_dir: &str, album_id: AlbumId) -> (fname: String)
    ensures
        fname@ == tmp_fname(tmp_dir@, album_id),
{
    let n = album_id.0;
    let mut fname = String::from_str(tmp_dir);
    fname.append("/musium-thumb-");
    let ghost stem = fname@;
    let mut i: u32 = 0;
    while i < 16
        invariant
            i <= 16,
            fname@ == stem + hex16(n).take(i as int),
        decreases 16 - i,
    {
        let shift: u32 = 60 - 4 * i;
        let d: u64 = (n >> shift) & 0xf;
        assert(d < 16) by (bit_vector)
            requires
                d == (n >> shift) & 0xf,
        ;
        assert(d == nibble(n, i as int));
        fname.append(hex_digit(d));
        assert(hex16(n).take(i + 1) =~= hex16(n).take(i as int) + seq![hex_char(d as int)]);
        i += 1;
    }
    assert(hex16(n).take(16) =~= hex16(n));
    fname.append(".png");
    fname
}

proof fn lemma_hex_char_injective(c: int, d: int)
    requires
        0 <= c < 16,
        0 <= d < 16,
        hex_char(c) == hex_char(d),
    ensures
        c == d,
{
}

proof fn lemma_nibbles_determine(a: u64, b: u64)
    requires
        forall|i: int| 0 <= i < 16 ==> nibble(a, i) == nibble(b, i),
    ensures
        a == b,
{
    assert(nibble(a, 0) == nibble(b, 0));
    assert(nibble(a, 1) == nibble(b, 1));
    assert(nibble(a, 2) == nibble(b, 2));
    assert(nibble(a, 3) == nibble(b, 3));
    assert(nibble(a, 4) == nibble(b, 4));
    assert(nibble(a, 5) == nibble(b, 5));
    assert(nibble(a, 6) == nibble(b, 6));
    assert(nibble(a, 7) == nibble(b, 7));
    assert(nibble(a, 8) == nibble(b, 8));
    assert(nibble(a, 9) == nibble(b, 9));
    assert(nibble(a, 10) == nibble(b, 10));
    assert(nibble(a, 11) == nibble(b, 11));
    assert(nibble(a, 12) == nibble(b, 12));
    assert(nibble(a, 13) == nibble(b, 13));
    assert(nibble(a, 14) == nibble(b, 14));
    assert(nibble(a, 15) == nibble(b, 15));
    assert(a == b) by (bit_vector)
        requires
            (a >> 60u64) & 0xf == (b >> 60u64) & 0xf,
            (a >> 56u64) & 0xf == (b >> 56u64) & 0xf,
            (a >> 52u64) & 0xf == (b >> 52u64) & 0xf,
            (a >> 48u64) & 0xf == (b >> 48u64) & 0xf,
            (a >> 44u64) & 0xf == (b >> 44u64) & 0xf,
            (a >> 40u64) & 0xf == (b >> 40u64) & 0xf,
            (a >> 36u64) & 0xf == (b >> 36u64) & 0xf,
            (a >> 32u64) & 0xf == (b >> 32u64) & 0xf,
            (a >> 28u64) & 0xf == (b >> 28u64) & 0xf,
            (a >> 24u64) & 0xf == (b >> 24u64) & 0xf,
            (a >> 20u64) & 0xf == (b >> 20u64) & 0xf,
            (a >> 16u64) & 0xf == (b >> 16u64) & 0xf,
            (a >> 12u64) & 0xf == (b >> 12u64) & 0xf,
            (a >> 8u64) & 0xf == (b >> 8u64) & 0xf,
            (a >> 4u64) & 0xf == (b >> 4u64) & 0xf,
            (a >> 0u64) & 0xf == (b >> 0u64) & 0xf,
    ;
}

/// Two albums never get the same sixteen digits.
pub proof fn lemma_hex16_injective(a: u64, b: u64)
    requires
        hex16(a) == hex16(b),
    ensures
        a == b,
{
    assert forall|i: int| 0 <= i < 16 implies nibble(a, i) == nibble(b, i) by {
        let x = nibble(a, i);
        let y = nibble(b, i);
        assert(hex16(a)[i] == hex_char(x as int));
        assert(hex16(b)[i] == hex_char(y as int));
        let s = (60 - 4 * i) as u64;
        assert(x < 16 && y < 16) by (bit_vector)
            requires
                x == (a >> s) & 0xf,
                y == (b >> s) & 0xf,
        ;
        lemma_hex_char_injective(x as int, y as int);
    }
    lemma_nibbles_determine(a, b);
}

/// Within one directory, two different albums never share their
/// intermediate file.
pub proof fn lemma_tmp_fname_injective(tmp_dir: Seq<char>, a: AlbumId, b: AlbumId)
    requires
        tmp_fname(tmp_dir, a) == tmp_fname(tmp_dir, b),
    ensures
        a == b,
{
    let stem = tmp_dir + "/musium-thumb-"@;
    let fa = tmp_fname(tmp_dir, a);
    let fb = tmp_fname(tmp_dir, b);
    assert forall|i: int| 0 <= i < 16 implies hex16(a.0)[i] == hex16(b.0)[i] by {
        assert(fa[stem.len() + i] == hex16(a.0)[i]);
        assert(fb[stem.len() + i] == hex16(b.0)[i]);
    }
    assert(hex16(a.0) =~= hex16(b.0));
    lemma_hex16_injective(a.0, b.0);
}

} // verus!
