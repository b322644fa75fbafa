//! Plain-value forms of what the Windows display API hands over.

use crate::display_info::{DisplayMode, UpscaleMode};
use crate::rectangle::{Dimensions, Rectangle};
use vstd::prelude::*;

verus! {

/// Windows-specific display info contains the native monitor handle, held as
/// the integer that the handle is.
#[derive(Clone, Copy, PartialEq, Eq, Debug, Structural)]
pub struct DisplayInfoWin {
    pub monitor: usize,
}

/// A Windows rectangle: the coordinates of its four edges.
#[derive(Clone, Copy, PartialEq, Eq, Debug, Structural)]
pub struct WinRect {
    pub left: i32,
    pub top: i32,
    pub right: i32,
    pub bottom: i32,
}

impl WinRect {
    /// Whether the rectangle has no negative width or height.
    pub open spec fn spec_is_valid(&self) -> bool {
        self.right >= self.left && self.bottom >= self.top
    }

    /// Whether the rectangle has no negative width or height.
    #[verifier::when_used_as_spec(spec_is_valid)]
    pub fn is_valid(&self) -> (valid: bool)
        ensures
            valid == self.spec_is_valid(),
    {
        self.right >= self.left && self.bottom >= self.top
    }
}

impl Rectangle {
    /// The rectangle with the edges of a Windows rectangle.
    pub open spec fn spec_from_win_rect(rect: WinRect) -> Rectangle {
        Rectangle::spec_from_edges(
            rect.left as int,
            rect.top as int,
            rect.right as int,
            rect.bottom as int,
        )
    }

    /// The rectangle that spans the edges of a Windows rectangle, which must
    /// have no negative width or height.
    pub fn from_win_rect(rect: &WinRect) -> (r: Rectangle)
        requires
            rect.is_valid(),
        ensures
            r == Rectangle::spec_from_win_rect(*rect),
            r.spec_left() == rect.left,
            r.spec_top() == rect.top,
            r.spec_right() == rect.right,
            r.spec_bottom() == rect.bottom,
    {
        Rectangle::from_wide_edges(
            rect.left as i64,
            rect.top as i64,
            rect.right as i64,
            rect.bottom as i64,
        )
    }

    /// The four edges as a Windows rectangle. They must all be coordinates.
    pub fn to_win_rect(&self) -> (rect: WinRect)
        requires
            self.is_valid(),
        ensures
            rect.left == self.spec_left(),
            rect.top == self.spec_top(),
            rect.right == self.spec_right(),
            rect.bottom == self.spec_bottom(),
    {
        WinRect { left: self.left(), top: self.top(), right: self.right(), bottom: self.bottom() }
    }
}

/// A rectangle made from a Windows rectangle has coordinates for all its
/// edges, and its edges are those of the Windows rectangle, so that turning it
/// back gives the Windows rectangle it was made from.
pub proof fn lemma_from_win_rect_valid(rect: WinRect)
    requires
        rect.is_valid(),
    ensures
        Rectangle::spec_from_win_rect(rect).is_valid(),
        Rectangle::spec_from_win_rect(rect).spec_left() == rect.left,
        Rectangle::spec_from_win_rect(rect).spec_top() == rect.top,
        Rectangle::spec_from_win_rect(rect).spec_right() == rect.right,
        Rectangle::spec_from_win_rect(rect).spec_bottom() == rect.bottom,
{
}

/// A Windows rectangle with the edges of a rectangle is turned back into
/// that rectangle.
pub proof fn lemma_win_rect_round_trip(r: Rectangle, rect: WinRect)
    requires
        rect.left == r.spec_left(),
        rect.top == r.spec_top(),
        rect.right == r.spec_right(),
        rect.bottom == r.spec_bottom(),
    ensures
        rect.is_valid(),
        Rectangle::spec_from_win_rect(rect) == r,
{
}

/// What a Windows device mode says of a display mode. A field that the device
/// mode does not mark as filled in is absent.
#[derive(Clone, Copy, PartialEq, Eq, Debug, Structural)]
pub struct DevMode {
    /// Width in pixels.
    pub width: Option<u32>,
    /// Height in pixels.
    pub height: Option<u32>,
    /// Refresh rate in Hz.
    pub display_frequency: Option<u32>,
    /// Colour depth in bits per pixel.
    pub bits_per_pel: Option<u32>,
    /// How a lower resolution is shown on the panel.
    pub upscale_mode: Option<UpscaleMode>,
}

/// The one colour depth of which display modes are taken.
pub const BITS_PER_PEL: u32 = 32;

impl DevMode {
    /// Whether the device mode describes a display mode: it gives width,
    /// height and refresh rate, and its colour depth is `BITS_PER_PEL`.
    pub open spec fn is_display_mode(&self) -> bool {
        &&& self.width.is_some()
        &&& self.height.is_some()
        &&& self.display_frequency.is_some()
        &&& self.bits_per_pel == Some(BITS_PER_PEL)
    }

    /// The display mode that the device mode describes, where it does.
    pub open spec fn spec_display_mode(&self) -> DisplayMode {
        DisplayMode {
            dimensions: Dimensions { width: self.width.unwrap(), height: self.height.unwrap() },
            refresh_rate: self.display_frequency.unwrap(),
            refresh_rate_num: self.display_frequency.unwrap(),
            refresh_rate_denom: 1,
            upscale_mode: match self.upscale_mode {
                Some(mode) => mode,
                None => UpscaleMode::Unknown,
            },
        }
    }
}

/// Extracts a display mode from a device mode.
///
/// Returns `None` if one of the mandatory fields (dimensions, refresh rate)
/// is absent, or if the colour depth is absent or not `BITS_PER_PEL`. The
/// exact refresh rate is the whole number of Hz over `1`; an absent upscale
/// mode is unknown.
pub fn display_mode_from_dev_mode(display_mode: &DevMode) -> (mode: Option<DisplayMode>)
    ensures
        mode == if display_mode.is_display_mode() {
            Some(display_mode.spec_display_mode())
        } else {
            None
        },
{
    // Skip if width not specified.
    let width = match display_mode.width {
        Some(width) => width,
        None => {
            return None;
        },
    };

    // Skip if height not specified.
    let height = match display_mode.height {
        Some(height) => height,
        None => {
            return None;
        },
    };

    let dimensions = Dimensions { width, height };

    // Skip if refresh rate not specified.
    let refresh_rate = match display_mode.display_frequency {
        Some(refresh_rate) => refresh_rate,
        None => {
            return None;
        },
    };

    // Skip unknown and non-32bpp modes.
    match display_mode.bits_per_pel {
        Some(bits_per_pel) => {
            if bits_per_pel != BITS_PER_PEL {
                return None;
            }
        },
        None => {
            return None;
        },
    }

    let upscale_mode = match display_mode.upscale_mode {
        Some(upscale_mode) => upscale_mode,
        None => UpscaleMode::Unknown,
    };

    Some(
        DisplayMode {
            dimensions,
            refresh_rate,
            refresh_rate_num: refresh_rate,
            refresh_rate_denom: 1,
            upscale_mode,
        },
    )
}

/// Whether `length` is the length of the wide string at the start of
/// `string`: the number of units before the first `0`, or all of them where
/// there is no `0`.
pub open spec fn is_wstr_len(string: Seq<u16>, length: int) -> bool {
    &&& 0 <= length <= string.len()
    &&& forall|i: int| 0 <= i < length ==> #[trigger] string[i] != 0
    &&& length < string.len() ==> string[length] == 0
}

/// The length of the wide string at the start of `string`, not counting the
/// `0` that ends it.
pub fn wstr_len(string: &[u16]) -> (length: usize)
    ensures
        is_wstr_len(string@, length as int),
{
    for index in 0..string.len()
        invariant
            forall|i: int| 0 <= i < index ==> #[trigger] string@[i] != 0,
    {
        if string[index] == 0 {
            return index;
        }
    }
    string.len()
}

/// A wide string has one length.
pub proof fn lemma_wstr_len_unique(string: Seq<u16>, first: int, second: int)
    requires
        is_wstr_len(string, first),
        is_wstr_len(string, second),
    ensures
        first == second,
{
}

} // verus!
