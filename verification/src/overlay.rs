//! The outline shown over the screen region chosen for capture.

use vstd::prelude::*;

verus! {

/// The outline's size: never smaller than 40 by 40 pixels, so it stays
/// visible and grabbable.
pub fn overlay_size(width: u32, height: u32) -> (r: (u32, u32))
    ensures
        r.0 == if width >= 40 { width } else { 40 },
        r.1 == if height >= 40 { height } else { 40 },
{
    let w = if width >= 40 { width } else { 40 };
    let h = if height >= 40 { height } else { 40 };
    (w, h)
}

} // verus!
