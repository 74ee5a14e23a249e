//! The integer decisions of the `DOMRect` persona; the rounding itself works
//! on floating-point coordinates and is done by the embedding code.

use vstd::prelude::*;

verus! {

/// Whether empty elements report one zero-sized client rect: both the DOMRect
/// persona and its empty-rect option must be on.
pub fn fill_empty_element_client_rects(domrect_enabled: bool, fill_empty_pref: bool) -> (r: bool)
    ensures
        r == (domrect_enabled && fill_empty_pref),
{
    domrect_enabled && fill_empty_pref
}

/// The number of quantisation steps per CSS pixel: none (coordinates are only
/// normalised) when the preference is not positive, else the preference kept
/// within `1..=1024`.
pub fn quantization_steps(steps_pref: i64) -> (r: Option<u32>)
    ensures
        r == (if steps_pref <= 0 {
            None
        } else if steps_pref > 1024 {
            Some(1024u32)
        } else {
            Some(steps_pref as u32)
        }),
{
    if steps_pref <= 0 {
        None
    } else if steps_pref > 1024 {
        Some(1024)
    } else {
        Some(steps_pref as u32)
    }
}

} // verus!
