pub mod material;
pub mod mesh;
pub mod pass_2d;
pub mod texture;
pub mod ui;

use vstd::prelude::*;

verus! {

/// The size of the window, in pixels.
#[derive(Clone, Copy)]
pub struct WindowSize {
    pub width: u32,
    pub height: u32,
}

} // verus!
