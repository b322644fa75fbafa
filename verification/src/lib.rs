//! # minidisplay
//!
//! The layout of a multi-monitor desktop, computed from a snapshot of
//! per-display records: rectangle algebra (overlap, containment, clipping,
//! clamping), the display mode nearest to a wanted size, which display touches
//! which, and the rectangle that bounds them all.
//!
//! Every function is pure and carries a contract over mathematical integers
//! and sequences; the proof functions state what holds of them in general.
//! Querying the operating system is left to the caller, who hands the
//! enumerated records to [`arrange_displays`] and [`Displays`].

pub mod display_info;
pub mod displays;
pub mod layout;
pub mod rectangle;
pub mod win;

pub use display_info::{
    closest_dimensions, ClosestDimensionsFlags, ConnectionType, DisplayInfo, DisplayMode,
    DisplayRects, UpscaleMode,
};
pub use displays::{
    arrange_displays, DisplayInfoFull, DisplayInfoIter, Displays, EnumeratedDisplayInfo,
};
pub use layout::AdjacencyInfo;
pub use rectangle::{ClipRectFlags, Dimensions, Position, Rectangle};
pub use win::DisplayInfoWin as DisplayInfoPlatform;
pub use win::{display_mode_from_dev_mode, wstr_len, DevMode, WinRect};
