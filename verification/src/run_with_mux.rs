//! Options of the shared GUI entry point.

use vstd::prelude::*;

verus! {

/// What the GUI needs to configure its window before it starts; `Pos` is the
/// type of a window position in the configuration.
pub struct RunWithMuxOpts<Pos> {
    /// Window class for X11/Wayland; `None` takes the built-in default.
    pub class: Option<String>,
    /// Initial window position; `None` takes the frontend's placement.
    pub position: Option<Pos>,
}

impl<Pos> Default for RunWithMuxOpts<Pos> {
    /// No class and no position: both defaults apply.
    fn default() -> (opts: Self)
        ensures
            opts.class is None,
            opts.position is None,
    {
        RunWithMuxOpts { class: None, position: None }
    }
}

} // verus!
