//! Materials: the engine's standard physically based material, and the
//! demo's extension of it.
//!
//! The extension grafts user fragment shading onto the standard material. It
//! exposes two independent shader slots — one for the forward pass, one for
//! the deferred / depth pre-pass path — which this demo points at the same
//! asset. An alpha mask threshold, like the other fractional quantities of
//! the model, is stored in hundredths, so it ranges over `0..=100`.

use vstd::prelude::*;

verus! {

/// An sRGB color with alpha, each channel in `0..=255`.
#[derive(Clone, Copy, PartialEq, Eq, Debug)]
pub struct Color {
    pub r: u8,
    pub g: u8,
    pub b: u8,
    pub a: u8,
}

impl Color {
    pub fn blue() -> (c: Color)
        ensures
            c == blue_color(),
    {
        Color { r: 0, g: 0, b: 255, a: 255 }
    }

    pub fn red() -> (c: Color)
        ensures
            c == red_color(),
    {
        Color { r: 255, g: 0, b: 0, a: 255 }
    }

    pub fn white() -> (c: Color)
        ensures
            c == white_color(),
    {
        Color { r: 255, g: 255, b: 255, a: 255 }
    }
}

pub open spec fn blue_color() -> Color {
    Color { r: 0, g: 0, b: 255, a: 255 }
}

pub open spec fn red_color() -> Color {
    Color { r: 255, g: 0, b: 0, a: 255 }
}

pub open spec fn white_color() -> Color {
    Color { r: 255, g: 255, b: 255, a: 255 }
}

/// How a material treats transparency: fully opaque, alpha-tested against a
/// threshold (in hundredths), or blended.
#[derive(Clone, Copy, PartialEq, Eq, Debug)]
pub enum AlphaMode {
    Opaque,
    Mask(u32),
    Blend,
}

impl AlphaMode {
    /// A mask threshold is a fraction of one, so at most `100` hundredths.
    pub open spec fn wf(self) -> bool {
        match self {
            AlphaMode::Mask(t) => t <= 100,
            _ => true,
        }
    }
}

/// Whether a fragment of alpha `alpha` (in hundredths) is discarded by the
/// alpha test: only a masked material discards, and only below its threshold.
/// A discarded fragment writes no depth in the pre-pass.
pub open spec fn alpha_discarded(mode: AlphaMode, alpha: u32) -> bool {
    match mode {
        AlphaMode::Mask(t) => alpha < t,
        _ => false,
    }
}

/// The engine's built-in physically based material, reduced to the
/// parameters this demo sets: a base color and an alpha mode.
#[derive(Clone, Copy, PartialEq, Eq, Debug)]
pub struct StandardMaterial {
    pub base_color: Color,
    pub alpha_mode: AlphaMode,
}

impl StandardMaterial {
    pub open spec fn wf(self) -> bool {
        self.alpha_mode.wf()
    }

    /// An opaque material of the given color, as the engine defaults to.
    pub fn opaque(base_color: Color) -> (m: StandardMaterial)
        ensures
            m == (StandardMaterial { base_color, alpha_mode: AlphaMode::Opaque }),
            m.wf(),
    {
        StandardMaterial { base_color, alpha_mode: AlphaMode::Opaque }
    }

    /// A material of the given color and alpha mode.
    pub fn with_alpha(base_color: Color, alpha_mode: AlphaMode) -> (m: StandardMaterial)
        ensures
            m == (StandardMaterial { base_color, alpha_mode }),
    {
        StandardMaterial { base_color, alpha_mode }
    }

    /// The alpha test of this material on a fragment of alpha `alpha`
    /// (hundredths): true when the fragment is discarded, so writes neither
    /// color nor pre-pass depth.
    pub fn discards_fragment(&self, alpha: u32) -> (r: bool)
        ensures
            r == alpha_discarded(self.alpha_mode, alpha),
    {
        match self.alpha_mode {
            AlphaMode::Mask(t) => alpha < t,
            _ => false,
        }
    }
}

/// The asset path both of the extension's shader hooks resolve to in this
/// demo.
pub open spec fn demo_shader_path() -> Seq<char> {
    "shaders/extended_material.wgsl"@
}

/// The user-written extension payload: an empty per-instance parameter block
/// plus two fragment-shader hooks.
#[derive(Clone, Copy, PartialEq, Eq, Debug)]
pub struct MyExtension {}

impl MyExtension {
    /// The fragment shader used by the main (forward) pass.
    pub fn fragment_shader() -> (r: String)
        ensures
            r@ == demo_shader_path(),
    {
        String::from_str("shaders/extended_material.wgsl")
    }

    /// The fragment shader used by the deferred / depth pre-pass path. By
    /// contract a hook of its own; this demo points it at the same asset as
    /// the forward hook.
    pub fn deferred_fragment_shader() -> (r: String)
        ensures
            r@ == demo_shader_path(),
    {
        String::from_str("shaders/extended_material.wgsl")
    }

    /// The extension declares no uniforms, textures or samplers, so it adds
    /// no bindings to the standard material's bind-group layout.
    pub fn binding_count() -> (n: usize)
        ensures
            n == 0,
    {
        0
    }
}

/// The composite material: the standard material as base, the extension
/// payload, and the two fragment-shader slots the renderer resolved from the
/// extension's hooks. The slots are independent: each can be re-pointed
/// without moving the other.
pub struct ExtendedMaterial {
    pub base: StandardMaterial,
    pub extension: MyExtension,
    pub forward_shader: String,
    pub prepass_shader: String,
}

impl ExtendedMaterial {
    /// Composes base and extension, resolving both shader slots from the
    /// extension's hooks — in this demo, both to the same asset path.
    pub fn new(base: StandardMaterial, extension: MyExtension) -> (m: ExtendedMaterial)
        ensures
            m.base == base,
            m.extension == extension,
            m.forward_shader@ == demo_shader_path(),
            m.prepass_shader@ == demo_shader_path(),
    {
        let forward = MyExtension::fragment_shader();
        let prepass = MyExtension::deferred_fragment_shader();
        ExtendedMaterial { base, extension, forward_shader: forward, prepass_shader: prepass }
    }

    /// Re-points the forward slot alone: the pre-pass slot and the base do
    /// not move with it.
    pub fn set_forward_shader(&mut self, path: String)
        ensures
            final(self).forward_shader == path,
            final(self).prepass_shader == old(self).prepass_shader,
            final(self).base == old(self).base,
            final(self).extension == old(self).extension,
    {
        self.forward_shader = path;
    }

    /// Re-points the pre-pass slot alone: the forward slot and the base do
    /// not move with it.
    pub fn set_prepass_shader(&mut self, path: String)
        ensures
            final(self).prepass_shader == path,
            final(self).forward_shader == old(self).forward_shader,
            final(self).base == old(self).base,
            final(self).extension == old(self).extension,
    {
        self.prepass_shader = path;
    }
}

} // verus!
