//! The size of the window.

use vstd::prelude::*;

verus! {

/// The width of the window when it opens.
pub const INITIAL_WIDTH: u32 = 640;

/// The height of the window when it opens.
pub const INITIAL_HEIGHT: u32 = 480;

/// The width and height of the window, as the last resize event gave them.
#[derive(Clone, Copy, Debug, PartialEq, Eq, Structural)]
pub struct WindowGeometry {
    pub width: u32,
    pub height: u32,
}

impl WindowGeometry {
    /// The geometry has a positive width and a positive height.
    pub open spec fn is_positive(self) -> bool {
        self.width > 0 && self.height > 0
    }

    /// The geometry of the window when it opens.
    pub open spec fn spec_initial() -> WindowGeometry {
        WindowGeometry { width: INITIAL_WIDTH, height: INITIAL_HEIGHT }
    }

    /// The geometry of the window when it opens: 640 by 480.
    #[verifier::when_used_as_spec(spec_initial)]
    pub fn initial() -> (geometry: WindowGeometry)
        ensures
            geometry == WindowGeometry::spec_initial(),
            geometry.width == 640,
            geometry.height == 480,
            geometry.is_positive(),
    {
        WindowGeometry { width: INITIAL_WIDTH, height: INITIAL_HEIGHT }
    }
}

} // verus!
