//! Queue capability selection.
//!
//! A physical device exposes a list of queue families; the viewer needs the
//! first family that can submit graphics work and the first family that can
//! present to the target surface. The capability bits are gathered by the
//! device-query edge and handed in as plain records.

use vstd::prelude::*;

use crate::Error;

verus! {

/// What one queue family offers, as reported for the target surface.
#[derive(Clone, Copy, Debug, PartialEq, Eq, Structural)]
pub struct QueueFamilyCapability {
    /// The family accepts graphics command submission.
    pub graphics: bool,
    /// The family can present images to the target surface.
    pub present: bool,
}

/// The queue family indices a logical device is created with.
/// Both indices refer to the same physical device's family list; they may be
/// equal or distinct.
#[derive(Clone, Copy, Debug, PartialEq, Eq, Structural)]
pub struct QueueFamilyIndices {
    pub graphics: u32,
    pub present: u32,
}

/// Some family in `fams` supports graphics submission.
pub open spec fn has_graphics(fams: Seq<QueueFamilyCapability>) -> bool {
    exists|i: int| 0 <= i < fams.len() && fams[i].graphics
}

/// Some family in `fams` supports presentation.
pub open spec fn has_present(fams: Seq<QueueFamilyCapability>) -> bool {
    exists|i: int| 0 <= i < fams.len() && fams[i].present
}

/// `i` is the first index in `fams` with graphics support.
pub open spec fn is_first_graphics(fams: Seq<QueueFamilyCapability>, i: int) -> bool {
    &&& 0 <= i < fams.len()
    &&& fams[i].graphics
    &&& forall|j: int| 0 <= j < i ==> !fams[j].graphics
}

/// `i` is the first index in `fams` with presentation support.
pub open spec fn is_first_present(fams: Seq<QueueFamilyCapability>, i: int) -> bool {
    &&& 0 <= i < fams.len()
    &&& fams[i].present
    &&& forall|j: int| 0 <= j < i ==> !fams[j].present
}

impl QueueFamilyIndices {
    /// Select queue families for a device whose family capabilities are
    /// `families`, in family-index order with ties broken by first match.
    ///
    /// Succeeds exactly when the device has at least one graphics-capable
    /// family and at least one present-capable family; otherwise the device
    /// is unsuitable and the caller tries the next one.
    pub fn get(families: &Vec<QueueFamilyCapability>) -> (r: Result<Self, Error>)
        requires
            families@.len() <= u32::MAX as nat,
        ensures
            match r {
                Ok(ix) => {
                    &&& is_first_graphics(families@, ix.graphics as int)
                    &&& is_first_present(families@, ix.present as int)
                },
                Err(e) => {
                    &&& e == Error::MissingQueueFamilies
                    &&& !(has_graphics(families@) && has_present(families@))
                },
            },
    {
        let mut graphics: Option<u32> = None;
        let mut present: Option<u32> = None;
        let mut i: usize = 0;
        while i < families.len()
            invariant
                0 <= i <= families@.len(),
                families@.len() <= u32::MAX as nat,
                match graphics {
                    Some(g) => is_first_graphics(families@, g as int) && g < i,
                    None => forall|j: int| 0 <= j < i ==> !families@[j].graphics,
                },
                match present {
                    Some(p) => is_first_present(families@, p as int) && p < i,
                    None => forall|j: int| 0 <= j < i ==> !families@[j].present,
                },
            decreases families@.len() - i,
        {
            if graphics.is_none() && families[i].graphics {
                graphics = Some(i as u32);
            }
            if present.is_none() && families[i].present {
                present = Some(i as u32);
            }
            i = i + 1;
        }
        match (graphics, present) {
            (Some(g), Some(p)) => Ok(QueueFamilyIndices { graphics: g, present: p }),
            _ => Err(Error::MissingQueueFamilies),
        }
    }
}

} // verus!
