//! The persona values of `screen` and `screen.orientation`.

use vstd::prelude::*;
use crate::navigator_info::or_default;

verus! {

/// `value` kept within the range of `i32`.
pub open spec fn clamp_to_i32(value: i64) -> i32 {
    if value < i32::MIN {
        i32::MIN
    } else if value > i32::MAX {
        i32::MAX
    } else {
        value as i32
    }
}

/// A size preference overrides the embedder's screen metrics when positive.
pub open spec fn persona_size(pref: i64) -> Option<i64> {
    if pref > 0 {
        Some(pref)
    } else {
        None
    }
}

/// A depth preference when positive (taken modulo 2^32, as a `u32` cast does),
/// else 24 bits.
pub open spec fn persona_depth(pref: i64) -> u32 {
    if pref > 0 {
        pref as u32
    } else {
        24
    }
}

/// The persona's value for a screen size, or `None` when the embedder's
/// metrics are to be used.
pub fn persona_dimension(pref: i64) -> (r: Option<i64>)
    ensures
        r == persona_size(pref),
{
    if pref > 0 {
        Some(pref)
    } else {
        None
    }
}

/// A screen offset preference as an `i32`.
pub fn persona_offset(pref: i64) -> (r: i32)
    ensures
        r == clamp_to_i32(pref),
{
    if pref < i32::MIN as i64 {
        i32::MIN
    } else if pref > i32::MAX as i64 {
        i32::MAX
    } else {
        pref as i32
    }
}

/// A colour or pixel depth preference.
pub fn persona_color_depth(pref: i64) -> (r: u32)
    ensures
        r == persona_depth(pref),
{
    if pref > 0 {
        #[verifier::truncate]
        (pref as u32)
    } else {
        24
    }
}

/// The `ScreenOrientation` interface object.
pub struct ScreenOrientation {}

/// The `Screen` interface object, owning its orientation object.
pub struct Screen {
    pub orientation: ScreenOrientation,
}

impl ScreenOrientation {
    /// The object.
    pub fn new_inherited() -> ScreenOrientation {
        ScreenOrientation {}
    }

    /// The object.
    pub fn new() -> ScreenOrientation {
        ScreenOrientation::new_inherited()
    }

    /// `screen.orientation.type`: the preference, or `landscape-primary`.
    #[allow(non_snake_case)]
    pub fn Type(&self, pref: &str) -> (r: String)
        ensures
            r@ == or_default(pref@, "landscape-primary"@),
    {
        if pref.is_empty() {
            String::from_str("landscape-primary")
        } else {
            String::from_str(pref)
        }
    }

    /// `screen.orientation.angle`: the preference kept within `0..=359`.
    #[allow(non_snake_case)]
    pub fn Angle(&self, pref: i64) -> (r: u16)
        ensures
            r == (if pref < 0 { 0 } else if pref > 359 { 359 } else { pref }),
            r <= 359,
    {
        if pref < 0 {
            0
        } else if pref > 359 {
            359
        } else {
            pref as u16
        }
    }
}

impl Screen {
    /// The screen object with its orientation object.
    pub fn new_inherited() -> Screen {
        Screen { orientation: ScreenOrientation::new() }
    }

    /// The screen object.
    pub fn new() -> Screen {
        Screen::new_inherited()
    }

    /// `screen.availWidth` from its preference, when the preference decides.
    #[allow(non_snake_case)]
    pub fn AvailWidth(&self, pref: i64) -> (r: Option<i64>)
        ensures
            r == persona_size(pref),
    {
        persona_dimension(pref)
    }

    /// `screen.availHeight` from its preference, when the preference decides.
    #[allow(non_snake_case)]
    pub fn AvailHeight(&self, pref: i64) -> (r: Option<i64>)
        ensures
            r == persona_size(pref),
    {
        persona_dimension(pref)
    }

    /// `screen.availLeft`.
    #[allow(non_snake_case)]
    pub fn AvailLeft(&self, pref: i64) -> (r: i32)
        ensures
            r == clamp_to_i32(pref),
    {
        persona_offset(pref)
    }

    /// `screen.availTop`.
    #[allow(non_snake_case)]
    pub fn AvailTop(&self, pref: i64) -> (r: i32)
        ensures
            r == clamp_to_i32(pref),
    {
        persona_offset(pref)
    }

    /// `screen.width` from its preference, when the preference decides.
    #[allow(non_snake_case)]
    pub fn Width(&self, pref: i64) -> (r: Option<i64>)
        ensures
            r == persona_size(pref),
    {
        persona_dimension(pref)
    }

    /// `screen.height` from its preference, when the preference decides.
    #[allow(non_snake_case)]
    pub fn Height(&self, pref: i64) -> (r: Option<i64>)
        ensures
            r == persona_size(pref),
    {
        persona_dimension(pref)
    }

    /// `screen.left`.
    #[allow(non_snake_case)]
    pub fn Left(&self, pref: i64) -> (r: i32)
        ensures
            r == clamp_to_i32(pref),
    {
        persona_offset(pref)
    }

    /// `screen.top`.
    #[allow(non_snake_case)]
    pub fn Top(&self, pref: i64) -> (r: i32)
        ensures
            r == clamp_to_i32(pref),
    {
        persona_offset(pref)
    }

    /// `screen.colorDepth`.
    #[allow(non_snake_case)]
    pub fn ColorDepth(&self, pref: i64) -> (r: u32)
        ensures
            r == persona_depth(pref),
    {
        persona_color_depth(pref)
    }

    /// `screen.pixelDepth`.
    #[allow(non_snake_case)]
    pub fn PixelDepth(&self, pref: i64) -> (r: u32)
        ensures
            r == persona_depth(pref),
    {
        persona_color_depth(pref)
    }

    /// `screen.isExtended`.
    #[allow(non_snake_case)]
    pub fn IsExtended(&self, pref: bool) -> (r: bool)
        ensures
            r == pref,
    {
        pref
    }

    /// `screen.orientation`.
    #[allow(non_snake_case)]
    pub fn Orientation(&self) -> (r: &ScreenOrientation)
        ensures
            r == &self.orientation,
    {
        &self.orientation
    }
}

} // verus!
