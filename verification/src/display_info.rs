//! Per-display records and the display-mode selector.

use crate::rectangle::{Dimensions, Rectangle};
use vstd::prelude::*;

verus! {

/// Describes the display's upscaling mode.
#[derive(Clone, Copy, PartialEq, Eq, Debug, Structural)]
pub enum UpscaleMode {
    Unknown,
    Center,
    Stretch,
}

impl UpscaleMode {
    /// The text by which the mode is shown.
    pub open spec fn spec_label(self) -> Seq<char> {
        match self {
            UpscaleMode::Unknown => "<unknown>"@,
            UpscaleMode::Center => "center"@,
            UpscaleMode::Stretch => "stretch"@,
        }
    }

    /// The text by which the mode is shown.
    pub fn label(self) -> (text: &'static str)
        ensures
            text@ == self.spec_label(),
    {
        match self {
            UpscaleMode::Unknown => "<unknown>",
            UpscaleMode::Center => "center",
            UpscaleMode::Stretch => "stretch",
        }
    }
}

/// Describes the display's physical connection type.
#[derive(Clone, Copy, PartialEq, Eq, Debug, Structural)]
pub enum ConnectionType {
    Unknown,
    VGA,
    DVI,
    HDMI,
    DisplayPort,
    Internal,
}

impl ConnectionType {
    /// The text by which the connection type is shown.
    pub open spec fn spec_label(self) -> Seq<char> {
        match self {
            ConnectionType::Unknown => "<unknown>"@,
            ConnectionType::VGA => "VGA"@,
            ConnectionType::DVI => "DVI"@,
            ConnectionType::HDMI => "HDMI"@,
            ConnectionType::DisplayPort => "DisplayPort"@,
            ConnectionType::Internal => "internal"@,
        }
    }

    /// The text by which the connection type is shown.
    pub fn label(self) -> (text: &'static str)
        ensures
            text@ == self.spec_label(),
    {
        match self {
            ConnectionType::Unknown => "<unknown>",
            ConnectionType::VGA => "VGA",
            ConnectionType::DVI => "DVI",
            ConnectionType::HDMI => "HDMI",
            ConnectionType::DisplayPort => "DisplayPort",
            ConnectionType::Internal => "internal",
        }
    }
}

/// Describes a display's supported fullscreen display mode.
#[derive(Clone, Copy, PartialEq, Eq, Debug, Structural)]
pub struct DisplayMode {
    /// Display mode dimensions.
    pub dimensions: Dimensions,
    /// Refresh rate in Hz.
    pub refresh_rate: u32,
    /// Refresh rate numerator, such that numerator/denominator gives the refresh rate in Hz.
    pub refresh_rate_num: u32,
    /// Refresh rate denominator, such that numerator/denominator gives the refresh rate in Hz.
    pub refresh_rate_denom: u32,
    /// Display mode upscale mode.
    pub upscale_mode: UpscaleMode,
}

/// Describes the display's rectangles w.r.t. the virtual display.
#[derive(Clone, Copy, PartialEq, Eq, Debug, Structural)]
pub struct DisplayRects {
    /// Display (non-work, a.k.a. full) rectangle w.r.t. the virtual display.
    pub virtual_rect: Rectangle,
    /// Display work (e.g. with the taskbar subtracted) rectangle w.r.t. the virtual display.
    pub work_rect: Rectangle,
}

impl DisplayRects {
    /// The work rectangle is never wider or taller than the full rectangle.
    pub open spec fn spec_is_valid(&self) -> bool {
        self.work_rect.dimensions.spec_fits_within(self.virtual_rect.dimensions)
    }

    /// Whether the work rectangle is no wider and no taller than the full
    /// rectangle, as it has to be.
    #[verifier::when_used_as_spec(spec_is_valid)]
    pub fn is_valid(&self) -> (valid: bool)
        ensures
            valid == self.spec_is_valid(),
    {
        self.work_rect.dimensions.width <= self.virtual_rect.dimensions.width
            && self.work_rect.dimensions.height <= self.virtual_rect.dimensions.height
    }
}

/// Determines which display mode to pick when looking for one
/// with closest dimensions to provided value.
#[derive(Clone, Copy, PartialEq, Eq, Debug, Structural)]
pub enum ClosestDimensionsFlags {
    /// Pick the display mode with closest (by area) dimensions to provided value,
    /// both smaller or larger.
    Closest,
    /// Pick the display mode with closest (by area) dimensions to provided value,
    /// and additionally not wider/taller.
    ClosestSmallerOrEqual,
}

/// How far apart two sizes are: the absolute difference of their areas.
pub open spec fn area_distance(a: Dimensions, b: Dimensions) -> int {
    vstd::math::abs(a.spec_area() - b.spec_area()) as int
}

/// Whether a mode takes part in a search: every mode does, unless only those
/// no wider and no taller than `target` are wanted.
pub open spec fn is_candidate(mode: DisplayMode, target: Dimensions, fitting_only: bool) -> bool {
    fitting_only ==> mode.dimensions.spec_fits_within(target)
}

/// Whether `index` is that of the candidate nearest to `target` by area; of
/// several candidates equally near, the first in the list.
pub open spec fn is_nearest(
    modes: Seq<DisplayMode>,
    target: Dimensions,
    fitting_only: bool,
    index: int,
) -> bool {
    &&& 0 <= index < modes.len()
    &&& is_candidate(modes[index], target, fitting_only)
    &&& forall|j: int|
        0 <= j < modes.len() && is_candidate(#[trigger] modes[j], target, fitting_only)
            ==> area_distance(modes[index].dimensions, target) <= area_distance(
            modes[j].dimensions,
            target,
        )
    &&& forall|j: int|
        0 <= j < index && is_candidate(#[trigger] modes[j], target, fitting_only)
            ==> area_distance(modes[index].dimensions, target) < area_distance(
            modes[j].dimensions,
            target,
        )
}

/// Whether `index` is that of the mode that `closest_dimensions` selects.
///
/// Under `Closest` it is the mode nearest to `target`. Under
/// `ClosestSmallerOrEqual` it is the nearest among the modes no wider and no
/// taller than `target`, however far that one is; only where no mode is that
/// small it is the nearest of all.
pub open spec fn is_closest(
    modes: Seq<DisplayMode>,
    target: Dimensions,
    flags: ClosestDimensionsFlags,
    index: int,
) -> bool {
    match flags {
        ClosestDimensionsFlags::Closest => is_nearest(modes, target, false, index),
        ClosestDimensionsFlags::ClosestSmallerOrEqual => {
            ||| is_nearest(modes, target, true, index)
            ||| {
                &&& forall|j: int|
                    0 <= j < modes.len() ==> !(#[trigger] modes[j]).dimensions.spec_fits_within(
                        target,
                    )
                &&& is_nearest(modes, target, false, index)
            }
        },
    }
}

/// Whether `index` is that of the mode with the smallest area; of several
/// equally small, the first in the list.
pub open spec fn is_smallest(modes: Seq<DisplayMode>, index: int) -> bool {
    &&& 0 <= index < modes.len()
    &&& forall|j: int|
        0 <= j < modes.len() ==> modes[index].dimensions.spec_area() <= (
        #[trigger] modes[j]).dimensions.spec_area()
    &&& forall|j: int|
        0 <= j < index ==> modes[index].dimensions.spec_area() < (
        #[trigger] modes[j]).dimensions.spec_area()
}

/// Returns the dimensions of the display mode closest to provided
/// `dimensions` based on provided `flags`.
///
/// `display_modes` must not be empty.
pub fn closest_dimensions(
    display_modes: &[DisplayMode],
    dimensions: Dimensions,
    flags: ClosestDimensionsFlags,
) -> (closest: Dimensions)
    requires
        display_modes@.len() > 0,
    ensures
        exists|index: int|
            is_closest(display_modes@, dimensions, flags, index) && closest
                == display_modes@[index].dimensions,
{
    let area = dimensions.area();

    let mut min_difference: u32 = 0;
    let mut found: Option<usize> = None;
    let mut min_difference_smaller: u32 = 0;
    let mut found_smaller: Option<usize> = None;

    for index in 0..display_modes.len()
        invariant
            tracks_nearest(display_modes@, dimensions, false, index as int, found, min_difference),
            tracks_nearest(
                display_modes@,
                dimensions,
                true,
                index as int,
                found_smaller,
                min_difference_smaller,
            ),
            area == dimensions.spec_area(),
    {
        let mode = &display_modes[index];
        let mode_area = mode.dimensions.area();
        let area_difference = if mode_area > area {
            mode_area - area
        } else {
            area - mode_area
        };

        if found.is_none() || area_difference < min_difference {
            min_difference = area_difference;
            found = Some(index);
        }
        if (mode.dimensions.width <= dimensions.width) && (mode.dimensions.height
            <= dimensions.height) {
            if found_smaller.is_none() || area_difference < min_difference_smaller {
                min_difference_smaller = area_difference;
                found_smaller = Some(index);
            }
        }
    }

    assert(display_modes@.take(display_modes@.len() as int) =~= display_modes@);
    assert(found.is_some()) by {
        assert(is_candidate(display_modes@[0], dimensions, false));
    }
    let found = found.unwrap();
    let found = match flags {
        ClosestDimensionsFlags::Closest => found,
        ClosestDimensionsFlags::ClosestSmallerOrEqual => found_smaller.unwrap_or(found),
    };
    assert(is_closest(display_modes@, dimensions, flags, found as int));

    display_modes[found].dimensions
}

/// What the search knows after the first `seen` modes: `found` is the
/// nearest candidate among them, `difference` its distance; or there was no
/// candidate yet.
spec fn tracks_nearest(
    modes: Seq<DisplayMode>,
    target: Dimensions,
    fitting_only: bool,
    seen: int,
    found: Option<usize>,
    difference: u32,
) -> bool {
    match found {
        Some(index) => {
            &&& index < seen
            &&& is_nearest(modes.take(seen), target, fitting_only, index as int)
            &&& difference == area_distance(modes[index as int].dimensions, target)
        },
        None => forall|j: int|
            0 <= j < seen ==> !is_candidate(#[trigger] modes[j], target, fitting_only),
    }
}

/// At most one mode is selected: `closest_dimensions` has one result.
pub proof fn lemma_closest_unique(
    modes: Seq<DisplayMode>,
    target: Dimensions,
    flags: ClosestDimensionsFlags,
    first: int,
    second: int,
)
    requires
        is_closest(modes, target, flags, first),
        is_closest(modes, target, flags, second),
    ensures
        first == second,
{
}

/// Where some mode is no wider and no taller than the target,
/// `ClosestSmallerOrEqual` selects such a mode.
pub proof fn lemma_closest_smaller_fits(modes: Seq<DisplayMode>, target: Dimensions, index: int)
    requires
        is_closest(modes, target, ClosestDimensionsFlags::ClosestSmallerOrEqual, index),
        exists|j: int| 0 <= j < modes.len() && (#[trigger] modes[j]).dimensions.spec_fits_within(target),
    ensures
        modes[index].dimensions.spec_fits_within(target),
{
}

/// Describes a single enumerated system display.
#[derive(Clone, Debug)]
pub struct DisplayInfo {
    /// Display's friendly name, if any.
    pub name: Option<String>,
    /// Whether the display is the system's primary display.
    pub is_primary: bool,
    /// The display's rectangles w.r.t. the virtual display.
    pub rects: DisplayRects,
    /// The display's physical connection type.
    pub connection: ConnectionType,
    /// The display's current display mode.
    pub current_mode: DisplayMode,
    /// The display's preferred display mode.
    pub preferred_mode: DisplayMode,
    /// The display's supported (fullscreen) display modes.
    /// At least one display mode is supported by any enumerated display.
    pub display_modes: Vec<DisplayMode>,
    /// The dimensions of the smallest (by area) of the display's supported display modes.
    pub min_dimensions: Dimensions,
    /// The display's DPI scale value, in percent.
    /// `100` is the default and means no scaling.
    /// Higher values like `125`, `150`, `200` mean higher zoom.
    pub dpi_scale_percent: u32,
}

impl DisplayInfo {
    /// Whether the record is as `new` makes it: the work rectangle is no
    /// larger than the full one, there is a supported mode, and
    /// `min_dimensions` is the size of the smallest.
    pub open spec fn is_valid(&self) -> bool {
        &&& self.rects.is_valid()
        &&& exists|index: int|
            is_smallest(self.display_modes@, index) && self.min_dimensions
                == self.display_modes@[index].dimensions
    }

    /// Puts a record together, deriving `min_dimensions` from the modes.
    ///
    /// `display_modes` must not be empty.
    pub fn new(
        name: Option<String>,
        is_primary: bool,
        rects: DisplayRects,
        connection: ConnectionType,
        current_mode: DisplayMode,
        preferred_mode: DisplayMode,
        display_modes: Vec<DisplayMode>,
        dpi_scale_percent: u32,
    ) -> (info: Self)
        requires
            rects.is_valid(),
            display_modes@.len() > 0,
        ensures
            info.name == name,
            info.is_primary == is_primary,
            info.rects == rects,
            info.connection == connection,
            info.current_mode == current_mode,
            info.preferred_mode == preferred_mode,
            info.display_modes == display_modes,
            info.dpi_scale_percent == dpi_scale_percent,
            info.is_valid(),
    {
        let min_dimensions = DisplayInfo::calc_min_dimensions(display_modes.as_slice());

        Self {
            name,
            is_primary,
            rects,
            connection,
            current_mode,
            preferred_mode,
            display_modes,
            min_dimensions,
            dpi_scale_percent,
        }
    }

    /// Returns the dimensions of the display's display mode closest to
    /// provided `dimensions` based on provided `flags`.
    ///
    /// The display must have a supported mode.
    pub fn closest_dimensions(&self, dimensions: Dimensions, flags: ClosestDimensionsFlags) -> (closest:
        Dimensions)
        requires
            self.display_modes@.len() > 0,
        ensures
            exists|index: int|
                is_closest(self.display_modes@, dimensions, flags, index) && closest
                    == self.display_modes@[index].dimensions,
    {
        closest_dimensions(self.display_modes.as_slice(), dimensions, flags)
    }

    /// Returns the dimensions of the smallest (by area) display mode from a
    /// non-empty array of `display_modes`.
    pub fn calc_min_dimensions(display_modes: &[DisplayMode]) -> (smallest: Dimensions)
        requires
            display_modes@.len() > 0,
        ensures
            exists|index: int|
                is_smallest(display_modes@, index) && smallest == display_modes@[index].dimensions,
    {
        let mut min_area: u32 = display_modes[0].dimensions.area();
        let mut found: usize = 0;

        for index in 1..display_modes.len()
            invariant
                found < index,
                is_smallest(display_modes@.take(index as int), found as int),
                min_area == display_modes@[found as int].dimensions.spec_area(),
        {
            let area = display_modes[index].dimensions.area();

            if area < min_area {
                min_area = area;
                found = index;
            }
        }

        assert(display_modes@.take(display_modes@.len() as int) =~= display_modes@);
        display_modes[found].dimensions
    }
}

/// At most one mode is the smallest: `min_dimensions` has one value.
pub proof fn lemma_smallest_unique(modes: Seq<DisplayMode>, first: int, second: int)
    requires
        is_smallest(modes, first),
        is_smallest(modes, second),
    ensures
        first == second,
{
}

} // verus!
