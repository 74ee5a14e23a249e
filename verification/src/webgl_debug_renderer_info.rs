//! The `WEBGL_debug_renderer_info` extension: always offered, and enabling it
//! unmasks the vendor and renderer parameters.

use vstd::prelude::*;

verus! {

/// `UNMASKED_VENDOR_WEBGL`.
pub const UNMASKED_VENDOR_WEBGL: u32 = 0x9245;

/// `UNMASKED_RENDERER_WEBGL`.
pub const UNMASKED_RENDERER_WEBGL: u32 = 0x9246;

/// A WebGL version.
#[derive(Clone, Copy, Debug)]
pub enum WebGLVersion {
    WebGL1,
    WebGL2,
}

/// The WebGL versions an extension is offered for.
#[derive(Clone, Copy, Debug)]
pub enum WebGLExtensionSpec {
    All,
    Specific(WebGLVersion),
}

/// The extension object.
pub struct WEBGLDebugRendererInfo {}

impl WEBGLDebugRendererInfo {
    /// The object.
    pub fn new_inherited() -> WEBGLDebugRendererInfo {
        WEBGLDebugRendererInfo {}
    }

    /// The object.
    pub fn new() -> WEBGLDebugRendererInfo {
        WEBGLDebugRendererInfo::new_inherited()
    }

    /// Offered for every WebGL version.
    pub fn spec() -> (r: WebGLExtensionSpec)
        ensures
            r == WebGLExtensionSpec::All,
    {
        WebGLExtensionSpec::All
    }

    /// Always supported.
    pub fn is_supported() -> (r: bool)
        ensures
            r,
    {
        true
    }

    /// Enabling the extension makes `getParameter` answer for the unmasked
    /// vendor and renderer; `enabled_parameter_names` lists the parameter names
    /// the context answers for.
    pub fn enable(enabled_parameter_names: &mut Vec<u32>)
        ensures
            final(enabled_parameter_names)@ == old(enabled_parameter_names)@.push(UNMASKED_VENDOR_WEBGL).push(
                UNMASKED_RENDERER_WEBGL,
            ),
    {
        enabled_parameter_names.push(UNMASKED_VENDOR_WEBGL);
        enabled_parameter_names.push(UNMASKED_RENDERER_WEBGL);
    }

    /// The extension name.
    pub fn name() -> (r: &'static str)
        ensures
            r@ == "WEBGL_debug_renderer_info"@,
    {
        "WEBGL_debug_renderer_info"
    }
}

} // verus!
