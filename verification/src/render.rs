//! Rendering state that does not touch the drawing surface: the GL
//! profile choice, the layer order, and the renderer's glyph cache.

use vstd::prelude::*;

pub mod glyph_cache;

use glyph_cache::GlyphCache;

verus! {

#[derive(Clone, Copy, Debug, PartialEq, Eq, Structural)]
pub enum GlProfile {
    OpenGl20,
    OpenGl21,
    OpenGlEs20,
    Default,
}

impl GlProfile {
    pub open spec fn spec_label(self) -> Seq<char> {
        match self {
            GlProfile::OpenGl20 => "OpenGL 2.0"@,
            GlProfile::OpenGl21 => "OpenGL 2.1"@,
            GlProfile::OpenGlEs20 => "OpenGL ES 2.0"@,
            GlProfile::Default => "OpenGL padrão do driver"@,
        }
    }

    pub fn label(self) -> (name: &'static str)
        ensures
            name@ == self.spec_label(),
    {
        match self {
            GlProfile::OpenGl20 => "OpenGL 2.0",
            GlProfile::OpenGl21 => "OpenGL 2.1",
            GlProfile::OpenGlEs20 => "OpenGL ES 2.0",
            GlProfile::Default => "OpenGL padrão do driver",
        }
    }
}

/// The order the page is painted in.
#[derive(Clone, Copy, Debug, PartialEq, Eq, Structural)]
pub enum RenderLayer {
    Staff,
    Notes,
    SelectionOverlay,
}

/// The renderer's durable state; the drawing itself happens in the
/// visual shell.
#[derive(Debug)]
pub struct Renderer {
    pub glyph_cache: GlyphCache,
    pub gl_profile: GlProfile,
}

impl Renderer {
    /// A renderer for the given GL profile, with the musical symbols
    /// preloaded into its glyph cache.
    pub fn new(gl_profile: GlProfile) -> (renderer: Renderer)
        ensures
            renderer.gl_profile == gl_profile,
            renderer.glyph_cache.spec_entries().len() <= 9,
    {
        let mut glyph_cache = GlyphCache::default();
        glyph_cache.warmup_music_symbols();
        Renderer { glyph_cache, gl_profile }
    }
}

} // verus!
