use vstd::prelude::*;

verus! {

/// Width used when none is given.
pub const DEFAULT_WIDTH: usize = 800;

/// Height used when none is given.
pub const DEFAULT_HEIGHT: usize = 800;

/// The run's configuration: which drawing routine to run, and the optional
/// canvas extents.
pub struct GraphicsArgs {
    pub name: String,
    pub width: Option<usize>,
    pub height: Option<usize>,
}

impl GraphicsArgs {
    /// The requested width, or the default when none was given.
    pub fn canvas_width(&self) -> (r: usize)
        ensures
            r == match self.width {
                Some(w) => w,
                None => DEFAULT_WIDTH,
            },
    {
        match self.width {
            Some(w) => w,
            None => DEFAULT_WIDTH,
        }
    }

    /// The requested height, or the default when none was given.
    pub fn canvas_height(&self) -> (r: usize)
        ensures
            r == match self.height {
                Some(h) => h,
                None => DEFAULT_HEIGHT,
            },
    {
        match self.height {
            Some(h) => h,
            None => DEFAULT_HEIGHT,
        }
    }
}

} // verus!
