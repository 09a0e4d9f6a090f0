use crate::pixel::PixelBuffer;
use vstd::prelude::*;

verus! {

/// Failure of the diff generator.
#[derive(Clone, Copy, Debug, PartialEq, Eq, Structural)]
pub enum DiffError {
    /// The two images have a different width or a different height; no diff
    /// buffer is produced.
    DimensionMismatch,
}

/// The four channel bytes (R, G, B, A) of pixel `i` agree exactly in `a` and `b`.
pub open spec fn pixel_equal(a: Seq<u8>, b: Seq<u8>, i: int) -> bool {
    &&& a[4 * i] == b[4 * i]
    &&& a[4 * i + 1] == b[4 * i + 1]
    &&& a[4 * i + 2] == b[4 * i + 2]
    &&& a[4 * i + 3] == b[4 * i + 3]
}

/// The alpha byte the diff mask carries for pixel `i`: 255 marks a difference,
/// 0 marks equality.
pub open spec fn alpha_byte(a: Seq<u8>, b: Seq<u8>, i: int) -> u8 {
    if pixel_equal(a, b, i) {
        0u8
    } else {
        255u8
    }
}

/// The diff mask over the first `n` pixels of `a` and `b`: for each pixel the
/// fixed red sentinel bytes 255, 0, 0 followed by the informative alpha byte.
pub open spec fn diff_mask(a: Seq<u8>, b: Seq<u8>, n: int) -> Seq<u8>
    decreases n,
{
    if n <= 0 {
        Seq::empty()
    } else {
        diff_mask(a, b, n - 1).push(255u8).push(0u8).push(0u8).push(alpha_byte(a, b, n - 1))
    }
}

/// The diff mask over `n` pixels is four bytes per pixel long.
pub proof fn lemma_diff_mask_len(a: Seq<u8>, b: Seq<u8>, n: int)
    requires
        n >= 0,
    ensures
        diff_mask(a, b, n).len() == 4 * n,
    decreases n,
{
    if n > 0 {
        lemma_diff_mask_len(a, b, n - 1);
    }
}

/// Byte-level reading of the diff mask: pixel `i` occupies bytes
/// `4*i .. 4*i+3`, holding the sentinel 255, 0, 0 and the alpha byte.
pub proof fn lemma_diff_mask_index(a: Seq<u8>, b: Seq<u8>, n: int, i: int)
    requires
        0 <= i < n,
    ensures
        diff_mask(a, b, n)[4 * i] == 255,
        diff_mask(a, b, n)[4 * i + 1] == 0,
        diff_mask(a, b, n)[4 * i + 2] == 0,
        diff_mask(a, b, n)[4 * i + 3] == alpha_byte(a, b, i),
    decreases n,
{
    lemma_diff_mask_len(a, b, n - 1);
    if i < n - 1 {
        lemma_diff_mask_index(a, b, n - 1, i);
    }
}

/// Pixel `i` of mask `m` holds the fixed sentinel bytes 255, 0, 0 followed by
/// the given alpha byte.
pub open spec fn mask_pixel_is(m: Seq<u8>, i: int, alpha: u8) -> bool {
    &&& m[4 * i] == 255
    &&& m[4 * i + 1] == 0
    &&& m[4 * i + 2] == 0
    &&& m[4 * i + 3] == alpha
}

/// Determinism: the diff mask is a function of the input bytes alone, so any
/// two results that `generate_diff_image`'s contract admits for the same pair
/// of buffers are byte-identical.
pub proof fn lemma_diff_deterministic(a: Seq<u8>, b: Seq<u8>, n: int, r1: Seq<u8>, r2: Seq<u8>)
    requires
        r1 == diff_mask(a, b, n),
        r2 == diff_mask(a, b, n),
    ensures
        r1 == r2,
{
}

/// Symmetry of detection: diffing `a` against `b` yields the very same mask
/// as diffing `b` against `a` — the sentinel bytes are fixed, and a pixel
/// differs from its counterpart in one direction exactly when it does in the
/// other.
pub proof fn lemma_diff_symmetric(a: Seq<u8>, b: Seq<u8>, n: int)
    ensures
        diff_mask(a, b, n) == diff_mask(b, a, n),
    decreases n,
{
    if n > 0 {
        lemma_diff_symmetric(a, b, n - 1);
        assert(alpha_byte(a, b, n - 1) == alpha_byte(b, a, n - 1));
    }
}

/// Identity: diffing a buffer against itself marks nothing — every pixel of
/// the mask is the sentinel 255, 0, 0 with alpha 0.
pub proof fn lemma_diff_identity(a: Seq<u8>, n: int)
    requires
        n >= 0,
    ensures
        diff_mask(a, a, n).len() == 4 * n,
        forall|i: int| 0 <= i < n ==> mask_pixel_is(diff_mask(a, a, n), i, 0),
{
    lemma_diff_mask_len(a, a, n);
    assert forall|i: int| 0 <= i < n implies mask_pixel_is(diff_mask(a, a, n), i, 0) by {
        lemma_diff_mask_index(a, a, n, i);
    }
}

/// Walks two equally-sized pixel buffers in lockstep and builds the diff
/// mask: per pixel the sentinel bytes 255, 0, 0 and an alpha byte that is 255
/// exactly where the two pixels differ in any channel. Images of unequal
/// width or height are rejected with `DimensionMismatch`.
pub fn generate_diff_image(a: &PixelBuffer, b: &PixelBuffer) -> (r: Result<
    (u32, u32, Vec<u8>),
    DiffError,
>)
    requires
        a.wf(),
        b.wf(),
    ensures
        r is Ok <==> a.width == b.width && a.height == b.height,
        r matches Ok((w, h, buf)) ==> w == a.width && h == a.height
            && buf@ == diff_mask(a.data@, b.data@, a.pixel_count())
            && buf@.len() == 4 * (w as int) * (h as int),
        r matches Err(e) ==> e == DiffError::DimensionMismatch,
{
    if a.width != b.width || a.height != b.height {
        return Err(DiffError::DimensionMismatch);
    }
    let len: usize = a.data.len();
    let n: usize = len / 4;
    proof {
        let w = a.width as int;
        let h = a.height as int;
        assert(a.data@.len() == (w * h) * 4 && w * h >= 0) by (nonlinear_arith)
            requires
                a.data@.len() == 4 * w * h,
                w >= 0,
                h >= 0,
        ;
        vstd::arithmetic::div_mod::lemma_fundamental_div_mod_converse(
            a.data@.len() as int,
            4,
            w * h,
            0,
        );
        assert(4 * n == a.data@.len());
        assert(4 * n == b.data@.len());
        assert(n as int == a.pixel_count());
    }
    let mut values: Vec<u8> = Vec::new();
    let mut i: usize = 0;
    while i < n
        invariant
            i <= n,
            4 * n <= usize::MAX,
            4 * n == a.data@.len(),
            4 * n == b.data@.len(),
            values@ == diff_mask(a.data@, b.data@, i as int),
            values@.len() == 4 * i,
        decreases n - i,
    {
        let base: usize = 4 * i;
        values.push(255);
        values.push(0);
        values.push(0);
        let same: bool = a.data[base] == b.data[base] && a.data[base + 1] == b.data[base + 1]
            && a.data[base + 2] == b.data[base + 2] && a.data[base + 3] == b.data[base + 3];
        if same {
            values.push(0);
        } else {
            values.push(255);
        }
        proof {
            assert(same == pixel_equal(a.data@, b.data@, i as int));
            assert(values@ == diff_mask(a.data@, b.data@, i as int + 1));
        }
        i = i + 1;
    }
    proof {
        lemma_diff_mask_len(a.data@, b.data@, n as int);
    }
    Ok((a.width, a.height, values))
}

} // verus!
