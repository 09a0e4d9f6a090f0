use crate::diff::diff_mask;
use crate::diff::generate_diff_image;
use crate::pixel::PixelBuffer;
use vstd::prelude::*;

verus! {

/// Decision the equality gate reaches before any persistence happens.
#[derive(Debug)]
pub enum CompareOutcome {
    /// Same dimensions, byte-identical buffers: the comparison succeeded and
    /// nothing needs to be written.
    Equal,
    /// The two images have a different width or a different height; no diff
    /// buffer is produced.
    DimensionMismatch,
    /// Same dimensions but at least one differing byte: the caller must
    /// persist this diff mask and then report the comparison as failed.
    Unequal { width: u32, height: u32, diff: Vec<u8> },
}

/// Failure reported by the equality gate once persistence was attempted.
#[derive(Debug)]
pub enum GateError {
    /// The two images have a different width or a different height.
    DimensionMismatch,
    /// The images differ and the diff mask was written to `path`.
    UnequalDiffPersisted { path: String },
    /// The images differ and writing the diff mask failed; nothing is
    /// guaranteed about what is on disk.
    UnequalDiffPersistFailed,
}

/// The one outcome `compare_images` may reach on the pair `(a, b)`.
pub open spec fn compare_decides(a: PixelBuffer, b: PixelBuffer, r: CompareOutcome) -> bool {
    &&& (r is DimensionMismatch <==> !(a.width == b.width && a.height == b.height))
    &&& (r is Equal <==> a.width == b.width && a.height == b.height && a.data@ == b.data@)
    &&& (r matches CompareOutcome::Unequal { width, height, diff } ==> a.width == b.width
        && a.height == b.height && a.data@ != b.data@ && width == a.width && height == a.height
        && diff@ == diff_mask(a.data@, b.data@, a.pixel_count()))
}

/// Byte-for-byte equality of two equally-sized buffers.
pub fn buffers_equal(a: &PixelBuffer, b: &PixelBuffer) -> (r: bool)
    requires
        a.data@.len() == b.data@.len(),
    ensures
        r <==> a.data@ == b.data@,
{
    let n: usize = a.data.len();
    let mut i: usize = 0;
    while i < n
        invariant
            i <= n,
            n == a.data@.len(),
            n == b.data@.len(),
            forall|j: int| 0 <= j < i ==> a.data@[j] == b.data@[j],
        decreases n - i,
    {
        if a.data[i] != b.data[i] {
            return false;
        }
        i = i + 1;
    }
    proof {
        assert(a.data@ =~= b.data@);
    }
    true
}

/// First decision of the equality gate: succeed on byte-identical images of
/// equal dimensions, reject a dimension mismatch outright, and otherwise
/// build the diff mask that the caller has to persist. The diff buffer is
/// only allocated once an inequality is certain.
pub fn compare_images(a: &PixelBuffer, b: &PixelBuffer) -> (r: CompareOutcome)
    requires
        a.wf(),
        b.wf(),
    ensures
        compare_decides(*a, *b, r),
{
    if a.width != b.width || a.height != b.height {
        return CompareOutcome::DimensionMismatch;
    }
    if buffers_equal(a, b) {
        return CompareOutcome::Equal;
    }
    match generate_diff_image(a, b) {
        Ok((width, height, diff)) => CompareOutcome::Unequal { width, height, diff },
        Err(_) => CompareOutcome::DimensionMismatch,
    }
}

/// Second decision of the equality gate, taken after the caller attempted to
/// persist the diff mask of two unequal images: name the path the diff was
/// written to, or report that writing it failed.
pub fn unequal_outcome(persisted: bool, path: String) -> (e: GateError)
    ensures
        persisted ==> (e matches GateError::UnequalDiffPersisted { path: p } && p@ == path@),
        !persisted ==> e is UnequalDiffPersistFailed,
{
    if persisted {
        GateError::UnequalDiffPersisted { path }
    } else {
        GateError::UnequalDiffPersistFailed
    }
}

/// Decision of the bootstrap entry point: when no expected image exists yet,
/// the actual image is to become the new baseline and the call succeeds;
/// when one exists, the ordinary gate compares it against the actual image.
#[derive(Debug)]
pub enum BootstrapOutcome {
    /// No baseline exists: the caller persists the actual image as the new
    /// expected image.
    SaveBaseline,
    /// A baseline exists: the ordinary gate decided as recorded here.
    Gate(CompareOutcome),
}

/// Bootstrap gate: establish a baseline when `expected` is absent, compare
/// against it otherwise.
pub fn bootstrap_gate(expected: Option<&PixelBuffer>, actual: &PixelBuffer) -> (r:
    BootstrapOutcome)
    requires
        expected matches Some(e) ==> e.wf(),
        actual.wf(),
    ensures
        r is SaveBaseline <==> expected is None,
        expected matches Some(e) ==> r matches BootstrapOutcome::Gate(c) && compare_decides(
            *e,
            *actual,
            c,
        ),
{
    match expected {
        None => BootstrapOutcome::SaveBaseline,
        Some(e) => BootstrapOutcome::Gate(compare_images(e, actual)),
    }
}

} // verus!
