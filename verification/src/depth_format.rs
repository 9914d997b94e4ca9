//! Depth format resolution.
//!
//! The viewer needs an image format usable as a depth/stencil attachment with
//! optimal tiling. Candidates are ordered highest-quality first; the
//! device-query edge reports for each candidate whether the physical device
//! supports it, and the resolver picks the first supported one.

use vstd::prelude::*;

use crate::Error;

verus! {

/// One depth-format candidate together with the device's verdict on it
/// (optimal tiling with depth/stencil-attachment features).
#[derive(Clone, Copy, Debug, PartialEq, Eq, Structural)]
pub struct FormatCandidate {
    /// The raw format code of the graphics API.
    pub format: u32,
    /// The physical device supports this format for the required use.
    pub supported: bool,
}

/// Some candidate in `cands` is supported.
pub open spec fn has_supported(cands: Seq<FormatCandidate>) -> bool {
    exists|i: int| 0 <= i < cands.len() && cands[i].supported
}

/// `i` is the first supported candidate in `cands`.
pub open spec fn is_first_supported(cands: Seq<FormatCandidate>, i: int) -> bool {
    &&& 0 <= i < cands.len()
    &&& cands[i].supported
    &&& forall|j: int| 0 <= j < i ==> !cands[j].supported
}

/// Return the first supported format in candidate-list order.
///
/// Succeeds exactly when at least one candidate is supported; an empty or
/// fully unsupported list fails deterministically, which makes the device
/// unsuitable for this viewer.
pub fn supported_depth_format(candidates: &Vec<FormatCandidate>) -> (r: Result<u32, Error>)
    ensures
        match r {
            Ok(f) => exists|i: int|
                is_first_supported(candidates@, i) && candidates@[i].format == f,
            Err(e) => {
                &&& e == Error::NoSupportedDepthFormat
                &&& !has_supported(candidates@)
            },
        },
{
    let mut i: usize = 0;
    while i < candidates.len()
        invariant
            0 <= i <= candidates@.len(),
            forall|j: int| 0 <= j < i ==> !candidates@[j].supported,
        decreases candidates@.len() - i,
    {
        if candidates[i].supported {
            let f = candidates[i].format;
            proof {
                assert(is_first_supported(candidates@, i as int) && candidates@[i as int].format == f);
            }
            return Ok(f);
        }
        i = i + 1;
    }
    Err(Error::NoSupportedDepthFormat)
}

} // verus!
