use vstd::prelude::*;

verus! {

/// The position of column `c` of row `r` in a buffer whose rows are `w` bytes long.
pub open spec fn at(r: int, c: int, w: int) -> int {
    r * w + c
}

/// Whether `new` is `old` with its first `height` rows of `width` bytes in
/// reverse order, and the bytes after them unchanged.
pub open spec fn is_vflip_of(new: Seq<u8>, old: Seq<u8>, width: int, height: int) -> bool {
    &&& new.len() == old.len()
    &&& forall|r: int, c: int|
        0 <= r < height && 0 <= c < width ==> #[trigger] new[at(r, c, width)] == old[at(
            height - 1 - r,
            c,
            width,
        )]
    &&& forall|k: int| width * height <= k < old.len() ==> #[trigger] new[k] == old[k]
}

pub(crate) proof fn lemma_at_bounds(r: int, c: int, w: int, h: int)
    by (nonlinear_arith)
    requires
        0 <= r < h,
        0 <= c < w,
    ensures
        0 <= at(r, c, w) < w * h,
        at(r, c, w) < at(r + 1, 0, w),
        at(r + 1, 0, w) == at(r, 0, w) + w,
{
}

pub(crate) proof fn lemma_at_inj(r1: int, c1: int, r2: int, c2: int, w: int)
    by (nonlinear_arith)
    requires
        0 <= r1,
        0 <= r2,
        0 <= c1 < w,
        0 <= c2 < w,
        at(r1, c1, w) == at(r2, c2, w),
    ensures
        r1 == r2,
        c1 == c2,
{
    if r1 < r2 {
        assert(r1 * w + w <= r2 * w);
    } else if r2 < r1 {
        assert(r2 * w + w <= r1 * w);
    }
}

/// Whether the byte at `k` of a `width` x `height` buffer lies in one of the rows
/// that have been swapped once rows `0..j` (and their mirrors) and columns `0..i`
/// of row `j` (and of its mirror) have been handled.
spec fn done(k: int, width: int, height: int, j: int, i: int) -> bool {
    exists|r: int, c: int|
        0 <= r < height && 0 <= c < width && k == #[trigger] at(r, c, width) && (r < j || r
            >= height - j || ((r == j || r == height - 1 - j) && c < i))
}

/// Flips the first `height` rows of `width` bytes of `vec` upside down, in
/// place: row `r` ends up where row `height - 1 - r` was.
pub fn vflip(vec: &mut [u8], width: usize, height: usize)
    requires
        width * height <= old(vec)@.len(),
    ensures
        is_vflip_of(final(vec)@, old(vec)@, width as int, height as int),
{
    let ghost orig = vec@;
    assert(orig.len() == vec.len());
    let mut j: usize = 0;
    while j < height / 2
        invariant
            width * height <= orig.len(),
            orig.len() <= usize::MAX,
            vec@.len() == orig.len(),
            j <= height / 2,
            forall|r: int, c: int|
                0 <= r < height && 0 <= c < width ==> #[trigger] vec@[at(r, c, width as int)]
                    == if r < j || r >= height - j {
                    orig[at(height - 1 - r, c, width as int)]
                } else {
                    orig[at(r, c, width as int)]
                },
            forall|k: int| width * height <= k < orig.len() ==> #[trigger] vec@[k] == orig[k],
        decreases height / 2 - j,
    {
        let mut i: usize = 0;
        while i < width
            invariant
                width * height <= orig.len(),
                orig.len() <= usize::MAX,
            orig.len() <= usize::MAX,
                vec@.len() == orig.len(),
                j < height / 2,
                i <= width,
                forall|r: int, c: int|
                    0 <= r < height && 0 <= c < width ==> #[trigger] vec@[at(r, c, width as int)]
                        == if r < j || r >= height - j || ((r == j || r == height - 1 - j) && c
                        < i) {
                        orig[at(height - 1 - r, c, width as int)]
                    } else {
                        orig[at(r, c, width as int)]
                    },
                forall|k: int| width * height <= k < orig.len() ==> #[trigger] vec@[k] == orig[k],
            decreases width - i,
        {
            proof {
                lemma_at_bounds(j as int, i as int, width as int, height as int);
                lemma_at_bounds((height - j - 1) as int, i as int, width as int, height as int);
            }
            let top: usize = j * width + i;
            let bottom: usize = (height - j - 1) * width + i;
            let ghost before = vec@;
            let a: u8 = vec[bottom];
            let b: u8 = vec[top];
            vec[bottom] = b;
            vec[top] = a;
            assert forall|r: int, c: int|
                0 <= r < height && 0 <= c < width implies #[trigger] vec@[at(r, c, width as int)]
                    == if r < j || r >= height - j || ((r == j || r == height - 1 - j) && c < i
                    + 1) {
                    orig[at(height - 1 - r, c, width as int)]
                } else {
                    orig[at(r, c, width as int)]
                } by {
                lemma_at_bounds(r, c, width as int, height as int);
                if at(r, c, width as int) == top as int {
                    lemma_at_inj(r, c, j as int, i as int, width as int);
                } else if at(r, c, width as int) == bottom as int {
                    lemma_at_inj(r, c, height - j - 1, i as int, width as int);
                } else {
                    assert(vec@[at(r, c, width as int)] == before[at(r, c, width as int)]);
                    if (r == j || r == height - 1 - j) && c == i {
                        assert(false);
                    }
                }
            }
            assert forall|k: int| width * height <= k < orig.len() implies #[trigger] vec@[k]
                == orig[k] by {
                assert(vec@[k] == before[k]);
            }
            i = i + 1;
        }
        j = j + 1;
    }
    assert forall|r: int, c: int|
        0 <= r < height && 0 <= c < width implies #[trigger] vec@[at(r, c, width as int)]
            == orig[at(height - 1 - r, c, width as int)] by {
        if !(r < j || r >= height - j) {
            assert(r == height - 1 - r);
        }
    }
}

proof fn lemma_split_index(k: int, w: int, h: int)
    requires
        0 <= k < w * h,
        w > 0,
    ensures
        0 <= k / w < h,
        0 <= k % w < w,
        k == at(k / w, k % w, w),
{
    vstd::arithmetic::div_mod::lemma_fundamental_div_mod(k, w);
    vstd::arithmetic::div_mod::lemma_div_pos_is_pos(k, w);
    vstd::arithmetic::div_mod::lemma_mod_pos_bound(k, w);
    vstd::arithmetic::mul::lemma_mul_is_commutative(w, k / w);
    if k / w >= h {
        vstd::arithmetic::mul::lemma_mul_inequality(h, k / w, w);
        vstd::arithmetic::mul::lemma_mul_is_commutative(w, k / w);
        vstd::arithmetic::mul::lemma_mul_is_commutative(w, h);
    }
}

/// Flipping the same rows upside down twice gives back the original bytes.
pub proof fn lemma_vflip_twice_is_identity(
    original: Seq<u8>,
    flipped: Seq<u8>,
    restored: Seq<u8>,
    width: int,
    height: int,
)
    requires
        0 <= width,
        0 <= height,
        width * height <= original.len(),
        is_vflip_of(flipped, original, width, height),
        is_vflip_of(restored, flipped, width, height),
    ensures
        restored == original,
{
    assert forall|k: int| 0 <= k < original.len() implies restored[k] == original[k] by {
        if k < width * height {
            assert(width > 0) by (nonlinear_arith)
                requires
                    0 <= k < width * height,
                    0 <= width,
                    0 <= height,
            ;
            lemma_split_index(k, width, height);
            let r = k / width;
            let c = k % width;
            assert(restored[at(r, c, width)] == flipped[at(height - 1 - r, c, width)]);
            assert(flipped[at(height - 1 - r, c, width)] == original[at(
                height - 1 - (height - 1 - r),
                c,
                width,
            )]);
        } else {
            assert(restored[k] == flipped[k]);
        }
    }
    assert(restored =~= original);
}

/// The alignment, in bytes, that a GPU texture-to-buffer copy imposes on the
/// length of each row in the buffer.
pub const COPY_BYTES_PER_ROW_ALIGNMENT: usize = 256;

/// The length of a buffer row holding `unpadded_bytes_per_row` bytes of
/// pixels once rounded up to the copy alignment: the smallest multiple of
/// [`COPY_BYTES_PER_ROW_ALIGNMENT`] that is not smaller than it.
pub fn padded_bytes_per_row(unpadded_bytes_per_row: usize) -> (padded: usize)
    requires
        unpadded_bytes_per_row + COPY_BYTES_PER_ROW_ALIGNMENT <= usize::MAX,
    ensures
        padded % COPY_BYTES_PER_ROW_ALIGNMENT == 0,
        unpadded_bytes_per_row <= padded < unpadded_bytes_per_row + COPY_BYTES_PER_ROW_ALIGNMENT,
{
    let align = COPY_BYTES_PER_ROW_ALIGNMENT;
    let blocks = (unpadded_bytes_per_row + align - 1) / align;
    assert(blocks * 256 <= unpadded_bytes_per_row + 255 < blocks * 256 + 256) by {
        vstd::arithmetic::div_mod::lemma_fundamental_div_mod((unpadded_bytes_per_row + 255) as int, 256);
        vstd::arithmetic::div_mod::lemma_mod_pos_bound((unpadded_bytes_per_row + 255) as int, 256);
    }
    assert((blocks * 256) % 256 == 0) by {
        vstd::arithmetic::div_mod::lemma_mod_multiples_basic(blocks as int, 256);
    }
    blocks * align
}

/// Copies the pixel rows out of a buffer whose rows were padded for a GPU copy:
/// of each of the `height` rows of `padded_bytes_per_row` bytes in `mapped`, the
/// first `unpadded_bytes_per_row` bytes are kept, and the rows are laid end to
/// end (row-major, top row first).
pub fn remove_row_padding(
    mapped: &[u8],
    unpadded_bytes_per_row: usize,
    padded_bytes_per_row: usize,
    height: usize,
) -> (data: Vec<u8>)
    requires
        unpadded_bytes_per_row <= padded_bytes_per_row,
        padded_bytes_per_row * height <= mapped@.len(),
    ensures
        data@.len() == unpadded_bytes_per_row * height,
        forall|r: int, c: int|
            0 <= r < height && 0 <= c < unpadded_bytes_per_row ==> #[trigger] data@[at(
                r,
                c,
                unpadded_bytes_per_row as int,
            )] == mapped@[at(r, c, padded_bytes_per_row as int)],
{
    assert(mapped@.len() == mapped.len());
    let mut data: Vec<u8> = Vec::new();
    let mut row: usize = 0;
    while row < height
        invariant
            unpadded_bytes_per_row <= padded_bytes_per_row,
            padded_bytes_per_row * height <= mapped@.len(),
            mapped@.len() <= usize::MAX,
            row <= height,
            data@.len() == at(row as int, 0, unpadded_bytes_per_row as int),
            forall|r: int, c: int|
                0 <= r < row && 0 <= c < unpadded_bytes_per_row ==> #[trigger] data@[at(
                    r,
                    c,
                    unpadded_bytes_per_row as int,
                )] == mapped@[at(r, c, padded_bytes_per_row as int)],
        decreases height - row,
    {
        let mut col: usize = 0;
        while col < unpadded_bytes_per_row
            invariant
                unpadded_bytes_per_row <= padded_bytes_per_row,
                padded_bytes_per_row * height <= mapped@.len(),
                mapped@.len() <= usize::MAX,
                row < height,
                col <= unpadded_bytes_per_row,
                data@.len() == at(row as int, col as int, unpadded_bytes_per_row as int),
                forall|r: int, c: int|
                    (0 <= r < row && 0 <= c < unpadded_bytes_per_row) || (r == row && 0 <= c < col)
                        ==> #[trigger] data@[at(r, c, unpadded_bytes_per_row as int)]
                        == mapped@[at(r, c, padded_bytes_per_row as int)],
            decreases unpadded_bytes_per_row - col,
        {
            proof {
                lemma_at_bounds(row as int, col as int, padded_bytes_per_row as int, height as int);
            }
            let src: usize = row * padded_bytes_per_row + col;
            let ghost before = data@;
            data.push(mapped[src]);
            assert forall|r: int, c: int|
                (0 <= r < row && 0 <= c < unpadded_bytes_per_row) || (r == row && 0 <= c < col + 1)
                    implies #[trigger] data@[at(r, c, unpadded_bytes_per_row as int)]
                    == mapped@[at(r, c, padded_bytes_per_row as int)] by {
                if r == row && c == col {
                } else if r < row {
                    lemma_at_bounds(r, c, unpadded_bytes_per_row as int, row as int);
                    assert(data@[at(r, c, unpadded_bytes_per_row as int)] == before[at(r, c, unpadded_bytes_per_row as int)]);
                } else {
                    assert(data@[at(r, c, unpadded_bytes_per_row as int)] == before[at(r, c, unpadded_bytes_per_row as int)]);
                }
            }
            col = col + 1;
        }
        proof {
            assert(at(row as int + 1, 0, unpadded_bytes_per_row as int) == at(
                row as int,
                unpadded_bytes_per_row as int,
                unpadded_bytes_per_row as int,
            )) by (nonlinear_arith);
        }
        row = row + 1;
    }
    data
}

} // verus!
