//! Static parameters of the window manager.

use vstd::prelude::*;

verus! {

/// Pixel parameters of window arrangement. They are read when the manager
/// is built and never change afterwards.
#[derive(Debug, Clone, Copy, PartialEq, Eq, Structural)]
pub struct Config {
    /// Gap between windows and screen edges (pixels)
    pub outer_gap: i32,
    /// Gap between snapped windows (pixels)
    pub inner_gap: i32,
    /// Window move step size (pixels)
    pub move_step: i32,
    /// Window resize step size (pixels)
    pub resize_step: i32,
    /// Border width (pixels)
    pub border_width: i32,
}

impl Default for Config {
    fn default() -> (config: Self)
        ensures
            config == (Config {
                outer_gap: 10,
                inner_gap: 10,
                move_step: 50,
                resize_step: 50,
                border_width: 2,
            }),
    {
        Config { outer_gap: 10, inner_gap: 10, move_step: 50, resize_step: 50, border_width: 2 }
    }
}

/// Named target geometries a window can be snapped to.
#[derive(Debug, Clone, Copy, PartialEq, Eq, Structural)]
pub enum SnapPosition {
    Left,
    Right,
    Top,
    Bottom,
    TopLeft,
    TopRight,
    BottomLeft,
    BottomRight,
    Maximize,
    Center,
}

} // verus!
