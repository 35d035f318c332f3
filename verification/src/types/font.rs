//! Font descriptor: a file path and a pixel size.

use vstd::prelude::*;

verus! {

/// Where to load a font from and at what size to rasterize it.
pub struct Font {
    pub path: String,
    pub width: u32,
    pub height: u32,
}

impl Font {
    /// The bundled default font at its default size.
    pub fn new() -> (f: Self)
        ensures
            f.path@ == "./resources/default_font.ttf"@,
            f.width == 0,
            f.height == 48,
    {
        Font { path: "./resources/default_font.ttf".to_owned(), width: 0, height: 48 }
    }
}

} // verus!
