//! Raw voxel data: how a flat byte stream becomes a cube of fixed size.
//!
//! A volume is stored slice after slice, each slice row after row, one byte per
//! voxel. The functions here pad or cut a stream to the cube's size and mirror
//! it along the Y axis.

use vstd::prelude::*;
use vstd::arithmetic::div_mod::lemma_fundamental_div_mod;
use vstd::arithmetic::div_mod::lemma_fundamental_div_mod_converse;

verus! {

/// Voxels along each edge of the volume cube.
pub const VOLUME_SIDE: u32 = 256;

/// Voxels, and bytes, in the volume cube.
pub const VOLUME_LEN: usize = 16777216;

/// Whether voxel data is mirrored before it is uploaded.
#[derive(Debug, Clone, Copy, PartialEq, Eq)]
pub enum FlipMode {
    /// Leave the data as it is.
    Unchanged,
    /// Mirror every slice along the Y axis.
    Y,
}

/// Position in the byte stream of the voxel at column `c`, row `r`, slice `s`,
/// in a volume whose rows hold `x` voxels and whose slices hold `y` rows.
pub open spec fn voxel_index(x: int, y: int, c: int, r: int, s: int) -> int {
    (s * y + r) * x + c
}

/// Where the byte at position `i` of a Y-mirrored volume comes from: the voxel
/// in the same column and slice, in the row mirrored about the middle of the
/// slice. Bytes past the `x * y * z` voxels of the volume stay where they are.
pub open spec fn flip_source(i: int, x: int, y: int, z: int) -> int {
    if x > 0 && y > 0 && 0 <= i < x * y * z {
        voxel_index(x, y, i % x, y - 1 - (i / x) % y, (i / x) / y)
    } else {
        i
    }
}

/// The volume `data` of `x` by `y` by `z` voxels, mirrored along Y.
pub open spec fn flipped_y(data: Seq<u8>, x: int, y: int, z: int) -> Seq<u8> {
    Seq::new(data.len(), |i: int| data[flip_source(i, x, y, z)])
}

/// `data` cut to `len` bytes, or filled up to `len` bytes with zeros.
pub open spec fn fitted(data: Seq<u8>, len: nat) -> Seq<u8> {
    Seq::new(
        len,
        |i: int|
            if i < data.len() {
                data[i]
            } else {
                0u8
            },
    )
}

/// A position built from in-range coordinates lies inside the volume and
/// splits back into the same coordinates.
proof fn lemma_voxel_index_parts(x: int, y: int, z: int, c: int, r: int, s: int)
    requires
        0 <= c < x,
        0 <= r < y,
        0 <= s < z,
    ensures
        0 <= voxel_index(x, y, c, r, s) < x * y * z,
        voxel_index(x, y, c, r, s) % x == c,
        (voxel_index(x, y, c, r, s) / x) % y == r,
        (voxel_index(x, y, c, r, s) / x) / y == s,
{
    let row = s * y + r;
    assert(0 <= row < z * y) by (nonlinear_arith)
        requires
            0 <= r < y,
            0 <= s < z,
            row == s * y + r,
    ;
    assert(0 <= row * x + c < x * y * z) by (nonlinear_arith)
        requires
            0 <= c < x,
            0 <= row < z * y,
    ;
    lemma_fundamental_div_mod_converse(row * x + c, x, row, c);
    lemma_fundamental_div_mod_converse(row, y, s, r);
}

/// Every position inside the volume is the position of the voxel at its own
/// coordinates, and those coordinates are in range.
proof fn lemma_voxel_index_whole(x: int, y: int, z: int, i: int)
    requires
        x > 0,
        y > 0,
        0 <= i < x * y * z,
    ensures
        0 <= i % x < x,
        0 <= (i / x) % y < y,
        0 <= (i / x) / y < z,
        i == voxel_index(x, y, i % x, (i / x) % y, (i / x) / y),
{
    let row = i / x;
    lemma_fundamental_div_mod(i, x);
    lemma_fundamental_div_mod(row, y);
    assert(0 <= row) by (nonlinear_arith)
        requires
            x > 0,
            0 <= i,
            row == i / x,
    ;
    let s = row / y;
    assert(0 <= s) by (nonlinear_arith)
        requires
            y > 0,
            0 <= row,
            s == row / y,
    ;
    assert(x * (y * s) == (s * y) * x) by (nonlinear_arith);
    assert(s < z) by (nonlinear_arith)
        requires
            x > 0,
            y > 0,
            0 <= s,
            0 <= row % y,
            0 <= i % x,
            i == x * row + i % x,
            row == y * s + row % y,
            i < x * y * z,
    ;
    assert(i == (s * y + row % y) * x + i % x) by (nonlinear_arith)
        requires
            i == x * row + i % x,
            row == y * s + row % y,
    ;
}

/// Whether the byte at position `i` already holds its mirror image when the
/// flip has finished the slices before `k`, in slice `k` the row pairs before
/// `j`, and in row pair `j` the columns before `c`. A middle row is its own
/// mirror image from the start.
spec fn exchanged(i: int, x: int, y: int, z: int, k: int, j: int, c: int) -> bool {
    let col = i % x;
    let row = (i / x) % y;
    let slice = (i / x) / y;
    let pair = if row < y - 1 - row {
        row
    } else {
        y - 1 - row
    };
    &&& 0 <= i < x * y * z
    &&& row == y - 1 - row || slice < k || (slice == k && (pair < j || (pair == j && col < c)))
}

/// The bytes of a flip in progress (see [`exchanged`]).
spec fn partly_flipped(
    before: Seq<u8>,
    now: Seq<u8>,
    x: int,
    y: int,
    z: int,
    k: int,
    j: int,
    c: int,
) -> bool {
    &&& now.len() == before.len()
    &&& forall|i: int|
        0 <= i < now.len() ==> #[trigger] now[i] == if exchanged(i, x, y, z, k, j, c) {
            before[flip_source(i, x, y, z)]
        } else {
            before[i]
        }
}

/// Going on to the next row pair, or to the next slice, exchanges nothing.
proof fn lemma_exchanged_carry(x: int, y: int, z: int, k: int, j: int)
    requires
        x > 0,
        y >= 2,
        z > 0,
        0 <= k < z,
        0 <= j <= y / 2,
    ensures
        forall|i: int|
            exchanged(i, x, y, z, k, j, x) == #[trigger] exchanged(i, x, y, z, k, j + 1, 0),
        forall|i: int|
            exchanged(i, x, y, z, k, y / 2, 0) == #[trigger] exchanged(i, x, y, z, k + 1, 0, 0),
{
    assert forall|i: int|
        exchanged(i, x, y, z, k, j, x) == #[trigger] exchanged(i, x, y, z, k, j + 1, 0) by {
        if 0 <= i < x * y * z {
            lemma_voxel_index_whole(x, y, z, i);
        }
    }
    assert forall|i: int|
        exchanged(i, x, y, z, k, y / 2, 0) == #[trigger] exchanged(i, x, y, z, k + 1, 0, 0) by {
        if 0 <= i < x * y * z {
            lemma_voxel_index_whole(x, y, z, i);
        }
    }
}

/// Exchanging the two bytes of column `c` in row pair `j` of slice `k` carries
/// a flip in progress one column further.
proof fn lemma_exchange_step(
    before: Seq<u8>,
    now: Seq<u8>,
    next: Seq<u8>,
    x: int,
    y: int,
    z: int,
    k: int,
    j: int,
    c: int,
)
    requires
        x > 0,
        y >= 2,
        z > 0,
        0 <= k < z,
        0 <= j < y / 2,
        0 <= c < x,
        x * y * z <= before.len(),
        partly_flipped(before, now, x, y, z, k, j, c),
        next == now.update(voxel_index(x, y, c, j, k), now[voxel_index(x, y, c, y - 1 - j, k)]).update(
            voxel_index(x, y, c, y - 1 - j, k),
            now[voxel_index(x, y, c, j, k)],
        ),
    ensures
        partly_flipped(before, next, x, y, z, k, j, c + 1),
{
    let top = voxel_index(x, y, c, j, k);
    let bottom = voxel_index(x, y, c, y - 1 - j, k);
    lemma_voxel_index_parts(x, y, z, c, j, k);
    lemma_voxel_index_parts(x, y, z, c, y - 1 - j, k);
    assert(!exchanged(top, x, y, z, k, j, c));
    assert(!exchanged(bottom, x, y, z, k, j, c));
    assert(now[top] == before[top]);
    assert(now[bottom] == before[bottom]);
    assert(flip_source(top, x, y, z) == bottom);
    assert(flip_source(bottom, x, y, z) == top);
    assert forall|i: int| 0 <= i < next.len() implies #[trigger] next[i] == if exchanged(
        i,
        x,
        y,
        z,
        k,
        j,
        c + 1,
    ) {
        before[flip_source(i, x, y, z)]
    } else {
        before[i]
    } by {
        if i == top || i == bottom {
        } else {
            assert(next[i] == now[i]);
            if 0 <= i < x * y * z {
                lemma_voxel_index_whole(x, y, z, i);
            }
            assert(exchanged(i, x, y, z, k, j, c + 1) == exchanged(i, x, y, z, k, j, c));
        }
    }
}

/// Before the first exchange nothing has moved.
proof fn lemma_exchanged_none(before: Seq<u8>, x: int, y: int, z: int)
    requires
        x > 0,
        y >= 2,
        z > 0,
    ensures
        partly_flipped(before, before, x, y, z, 0, 0, 0),
{
    assert forall|i: int| 0 <= i < before.len() && exchanged(i, x, y, z, 0, 0, 0) implies flip_source(
        i,
        x,
        y,
        z,
    ) == i by {
        lemma_voxel_index_whole(x, y, z, i);
    }
}

/// Once every slice is done, the flip in progress is the whole flip.
proof fn lemma_exchanged_all(before: Seq<u8>, now: Seq<u8>, x: int, y: int, z: int)
    requires
        x > 0,
        y >= 2,
        z > 0,
        x * y * z <= before.len(),
        partly_flipped(before, now, x, y, z, z, 0, 0),
    ensures
        now =~= flipped_y(before, x, y, z),
{
    assert forall|i: int| 0 <= i < now.len() implies now[i] == flipped_y(before, x, y, z)[i] by {
        if 0 <= i < x * y * z {
            lemma_voxel_index_whole(x, y, z, i);
            assert(exchanged(i, x, y, z, z, 0, 0));
        }
    }
}

/// Mirroring rows does nothing to a volume with no voxels or with one row per
/// slice.
proof fn lemma_flip_trivial(data: Seq<u8>, x: int, y: int, z: int)
    requires
        x <= 0 || y < 2 || z <= 0,
        x >= 0,
        y >= 0,
        z >= 0,
    ensures
        data =~= flipped_y(data, x, y, z),
{
    assert forall|i: int| 0 <= i < data.len() implies flip_source(i, x, y, z) == i by {
        if x > 0 && y > 0 && 0 <= i < x * y * z {
            assert(z > 0) by (nonlinear_arith)
                requires
                    x > 0,
                    y > 0,
                    0 < x * y * z,
            ;
            lemma_voxel_index_whole(x, y, z, i);
        }
    }
}

/// Mirrors a volume of `x` by `y` by `z` voxels along the Y axis, in place:
/// within every slice, row `r` changes places with row `y - 1 - r`.
///
/// `data` must hold the whole volume; bytes after it are left alone.
pub fn flip_3d_texture_y(data: &mut [u8], dims: (usize, usize, usize))
    requires
        dims.0 > 0 && dims.1 >= 2 && dims.2 > 0 ==> dims.0 * dims.1 * dims.2 <= old(data)@.len(),
    ensures
        final(data)@ == flipped_y(old(data)@, dims.0 as int, dims.1 as int, dims.2 as int),
{
    let x: usize = dims.0;
    let y: usize = dims.1;
    let z: usize = dims.2;
    let ghost before = data@;
    if x == 0 || y < 2 || z == 0 {
        proof {
            lemma_flip_trivial(before, x as int, y as int, z as int);
        }
        return ;
    }
    let len: usize = data.len();
    proof {
        lemma_exchanged_none(before, x as int, y as int, z as int);
    }
    let mut k: usize = 0;
    while k < z
        invariant
            len == before.len(),
            x > 0,
            y >= 2,
            z > 0,
            k <= z,
            x * y * z <= before.len(),
            partly_flipped(before, data@, x as int, y as int, z as int, k as int, 0, 0),
        decreases z - k,
    {
        let mut j: usize = 0;
        while j < y / 2
            invariant
                len == before.len(),
                x > 0,
                y >= 2,
                z > 0,
                k < z,
                j <= y / 2,
                x * y * z <= before.len(),
                partly_flipped(before, data@, x as int, y as int, z as int, k as int, j as int, 0),
            decreases y / 2 - j,
        {
            let mut i: usize = 0;
            while i < x
                invariant
                    len == before.len(),
                    x > 0,
                    y >= 2,
                    z > 0,
                    k < z,
                    j < y / 2,
                    i <= x,
                    x * y * z <= before.len(),
                    partly_flipped(
                        before,
                        data@,
                        x as int,
                        y as int,
                        z as int,
                        k as int,
                        j as int,
                        i as int,
                    ),
                decreases x - i,
            {
                proof {
                    lemma_voxel_index_parts(x as int, y as int, z as int, i as int, j as int, k as int);
                    lemma_voxel_index_parts(
                        x as int,
                        y as int,
                        z as int,
                        i as int,
                        y - 1 - j,
                        k as int,
                    );
                    assert(0 <= k * y) by (nonlinear_arith)
                        requires
                            0 <= k,
                            0 <= y,
                    ;
                    assert(k * y + j <= (k * y + j) * x + i) by (nonlinear_arith)
                        requires
                            x > 0,
                            0 <= k * y + j,
                            0 <= i,
                    ;
                    assert(k * y + (y - 1 - j) <= (k * y + (y - 1 - j)) * x + i)
                        by (nonlinear_arith)
                        requires
                            x > 0,
                            0 <= k * y + (y - 1 - j),
                            0 <= i,
                    ;
                }
                let top_index: usize = (k * y + j) * x + i;
                let bottom_index: usize = (k * y + (y - 1 - j)) * x + i;
                let ghost now = data@;
                let top: u8 = data[top_index];
                let bottom: u8 = data[bottom_index];
                data[top_index] = bottom;
                data[bottom_index] = top;
                proof {
                    lemma_exchange_step(
                        before,
                        now,
                        data@,
                        x as int,
                        y as int,
                        z as int,
                        k as int,
                        j as int,
                        i as int,
                    );
                }
                i += 1;
            }
            proof {
                lemma_exchanged_carry(x as int, y as int, z as int, k as int, j as int);
            }
            j += 1;
        }
        proof {
            lemma_exchanged_carry(x as int, y as int, z as int, k as int, j as int);
        }
        k += 1;
    }
    proof {
        lemma_exchanged_all(before, data@, x as int, y as int, z as int);
    }
}

/// The bytes that go into the volume texture for the stream `data`: the stream
/// cut or zero-filled to the cube's size, then mirrored along Y if `flip_mode`
/// asks for it.
pub open spec fn volume_bytes(data: Seq<u8>, flip_mode: FlipMode) -> Seq<u8> {
    let cube = fitted(data, VOLUME_LEN as nat);
    match flip_mode {
        FlipMode::Unchanged => cube,
        FlipMode::Y => flipped_y(cube, VOLUME_SIDE as int, VOLUME_SIDE as int, VOLUME_SIDE as int),
    }
}

/// Fits a raw voxel stream to the volume cube: a short stream is filled up with
/// zeros, a long one is cut, and the result is mirrored along Y if `flip_mode`
/// asks for it.
pub fn fit_volume(data: Vec<u8>, flip_mode: FlipMode) -> (cube: Vec<u8>)
    ensures
        cube@.len() == VOLUME_LEN,
        cube@ == volume_bytes(data@, flip_mode),
        flip_mode == FlipMode::Unchanged && data@.len() <= VOLUME_LEN ==> {
            &&& cube@.subrange(0, data@.len() as int) == data@
            &&& forall|i: int| data@.len() <= i < VOLUME_LEN ==> cube@[i] == 0
        },
        flip_mode == FlipMode::Unchanged && data@.len() >= VOLUME_LEN ==> cube@ == data@.subrange(
            0,
            VOLUME_LEN as int,
        ),
{
    proof {
        lemma_fitted(data@, VOLUME_LEN as nat);
    }
    let mut cube = data;
    if cube.len() < VOLUME_LEN {
        cube.resize(VOLUME_LEN, 0);
    } else {
        cube.truncate(VOLUME_LEN);
    }
    assert(cube@ =~= fitted(data@, VOLUME_LEN as nat));
    match flip_mode {
        FlipMode::Unchanged => {},
        FlipMode::Y => {
            let side: usize = VOLUME_SIDE as usize;
            assert(side * side * side == 16777216) by (nonlinear_arith)
                requires
                    side == 256,
            ;
            flip_3d_texture_y(cube.as_mut_slice(), (side, side, side));
        },
    }
    cube
}

/// Fitting keeps a short stream in front and puts zeros behind it; of a long
/// stream it keeps the front. Either way the result has `len` bytes.
pub proof fn lemma_fitted(data: Seq<u8>, len: nat)
    ensures
        fitted(data, len).len() == len,
        data.len() <= len ==> fitted(data, len).subrange(0, data.len() as int) == data,
        forall|i: int| data.len() <= i < len ==> fitted(data, len)[i] == 0,
        data.len() >= len ==> fitted(data, len) == data.subrange(0, len as int),
{
    if data.len() <= len {
        assert(fitted(data, len).subrange(0, data.len() as int) =~= data);
    }
    if data.len() >= len {
        assert(fitted(data, len) =~= data.subrange(0, len as int));
    }
}

/// Mirroring a volume twice along Y gives the volume back.
pub proof fn lemma_flip_twice(data: Seq<u8>, x: int, y: int, z: int)
    requires
        0 <= x,
        0 <= y,
        0 <= z,
        x * y * z <= data.len(),
    ensures
        flipped_y(flipped_y(data, x, y, z), x, y, z) == data,
{
    let once = flipped_y(data, x, y, z);
    assert forall|i: int| 0 <= i < data.len() implies flipped_y(once, x, y, z)[i] == data[i] by {
        if x > 0 && y > 0 && 0 <= i < x * y * z {
            lemma_voxel_index_whole(x, y, z, i);
            let c = i % x;
            let r = (i / x) % y;
            let s = (i / x) / y;
            lemma_voxel_index_parts(x, y, z, c, y - 1 - r, s);
            let m = flip_source(i, x, y, z);
            assert(flip_source(m, x, y, z) == i);
        }
    }
    assert(flipped_y(once, x, y, z) =~= data);
}

} // verus!
