//! The display registry: a snapshot of the enumerated displays, with the
//! adjacency of each and the virtual desktop that they form.

use crate::display_info::DisplayInfo;
use crate::layout::{
    any_overlap, is_adjacency, is_bounding_box, is_neighbor_among, lemma_adjacency_unique,
    lemma_bounding_box_unique, spans_fit, AdjacencyInfo, Side,
};
use crate::rectangle::Rectangle;
use crate::win::DisplayInfoWin;
use vstd::prelude::*;

verus! {

/// Single display info as the platform's enumeration returns it.
#[derive(Clone, Debug)]
pub struct EnumeratedDisplayInfo {
    /// Generic display info.
    pub info: DisplayInfo,
    /// Platform-specific display info.
    pub platform: DisplayInfoWin,
}

/// Single display info as stored by the display manager.
#[derive(Clone, Debug)]
pub struct DisplayInfoFull {
    /// Generic display info.
    pub info: DisplayInfo,
    /// Platform-specific display info.
    pub platform: DisplayInfoWin,
    /// Calculated display adjacency info.
    pub adjacency_info: AdjacencyInfo,
}

/// The full rectangles of enumerated displays, in their order.
pub open spec fn enumerated_virtual_rects(displays: Seq<EnumeratedDisplayInfo>) -> Seq<Rectangle> {
    Seq::new(displays.len(), |i: int| displays[i].info.rects.virtual_rect)
}

/// The work rectangles of enumerated displays, in their order.
pub open spec fn enumerated_work_rects(displays: Seq<EnumeratedDisplayInfo>) -> Seq<Rectangle> {
    Seq::new(displays.len(), |i: int| displays[i].info.rects.work_rect)
}

/// The full rectangles of stored displays, in their order.
pub open spec fn virtual_rects(displays: Seq<DisplayInfoFull>) -> Seq<Rectangle> {
    Seq::new(displays.len(), |i: int| displays[i].info.rects.virtual_rect)
}

/// The generic records of stored displays, in their order.
pub open spec fn infos(displays: Seq<DisplayInfoFull>) -> Seq<DisplayInfo> {
    Seq::new(displays.len(), |i: int| displays[i].info)
}

/// Whether the stored displays carry the layout that their full rectangles
/// imply: each its adjacency, and `virtual_desktop` the rectangle that bounds
/// them all, absent exactly when there is no display.
pub open spec fn is_layout(displays: Seq<DisplayInfoFull>, virtual_desktop: Option<Rectangle>) -> bool {
    &&& displays.len() <= u32::MAX
    &&& forall|i: int|
        0 <= i < displays.len() ==> is_adjacency(
            virtual_rects(displays),
            i,
            (#[trigger] displays[i]).adjacency_info,
        )
    &&& match virtual_desktop {
        Some(bounds) => is_bounding_box(virtual_rects(displays), bounds),
        None => displays.len() == 0,
    }
}

/// Whether the stored displays are the enumerated ones, in their order.
pub open spec fn is_snapshot_of(
    displays: Seq<DisplayInfoFull>,
    enumerated: Seq<EnumeratedDisplayInfo>,
) -> bool {
    &&& displays.len() == enumerated.len()
    &&& forall|i: int|
        0 <= i < displays.len() ==> (#[trigger] displays[i]).info == enumerated[i].info
            && displays[i].platform == enumerated[i].platform
}

/// Enumerates and holds the information about the system's displays.
pub struct Displays {
    displays: Vec<DisplayInfoFull>,
    virtual_desktop: Option<Rectangle>,
}

impl View for Displays {
    type V = Seq<DisplayInfoFull>;

    /// The stored displays, in their order.
    closed spec fn view(&self) -> Seq<DisplayInfoFull> {
        self.displays@
    }
}

impl Displays {
    #[verifier::type_invariant]
    spec fn well_formed(&self) -> bool {
        is_layout(self.displays@, self.virtual_desktop)
    }

    /// The stored virtual desktop rectangle.
    pub closed spec fn spec_virtual_desktop(&self) -> Option<Rectangle> {
        self.virtual_desktop
    }

    /// Creates a new, empty instance of the display manager.
    ///
    /// NOTE: call `enumerate_displays` to actually populate the display info.
    pub fn new() -> (displays: Self)
        ensures
            displays@.len() == 0,
            displays.spec_virtual_desktop().is_none(),
    {
        Self { displays: Vec::new(), virtual_desktop: None }
    }

    /// Takes what the platform's enumeration returned, updating the stored
    /// display info for later use. Returns the number of enumerated displays.
    ///
    /// A failed enumeration is handed on, and the stored info stays as it
    /// was. Otherwise the enumerated displays replace the stored ones, in
    /// their order, each with its adjacency, and the virtual desktop is
    /// computed anew.
    pub fn enumerate_displays(
        &mut self,
        enumerated: Result<Vec<EnumeratedDisplayInfo>, ()>,
    ) -> (count: Result<u32, ()>)
        requires
            enumerated matches Ok(list) ==> list@.len() <= u32::MAX && spans_fit(
                enumerated_virtual_rects(list@),
            ),
        ensures
            match enumerated {
                Ok(list) => {
                    &&& count == Ok::<u32, ()>(list@.len() as u32)
                    &&& is_snapshot_of(final(self)@, list@)
                    &&& is_layout(final(self)@, final(self).spec_virtual_desktop())
                },
                Err(_) => {
                    &&& count.is_err()
                    &&& *final(self) == *old(self)
                },
            },
    {
        let enumerated = match enumerated {
            Ok(list) => list,
            Err(_) => {
                return Err(());
            },
        };
        let num_displays = enumerated.len() as u32;

        let mut rectangles: Vec<Rectangle> = Vec::new();
        for index in 0..enumerated.len()
            invariant
                rectangles@ == enumerated_virtual_rects(enumerated@).take(index as int),
        {
            rectangles.push(enumerated[index].info.rects.virtual_rect);
        }

        // Calculate the virtual desktop rectangle.
        let virtual_desktop = Self::calc_virtual_desktop(rectangles.as_slice());

        let ghost list = enumerated@;
        let mut displays: Vec<DisplayInfoFull> = Vec::new();
        for display in iter: enumerated
            invariant
                iter.seq() == list,
                rectangles@ == enumerated_virtual_rects(list),
                list.len() <= u32::MAX,
                displays@.len() == iter.index(),
                forall|i: int|
                    0 <= i < displays@.len() ==> (#[trigger] displays@[i]).info == list[i].info
                        && displays@[i].platform == list[i].platform && is_adjacency(
                        rectangles@,
                        i,
                        displays@[i].adjacency_info,
                    ),
        {
            let adjacency_info = Self::calc_adjacency_info(rectangles.as_slice(), displays.len());
            displays.push(
                DisplayInfoFull { info: display.info, platform: display.platform, adjacency_info },
            );
        }
        assert(virtual_rects(displays@) =~= rectangles@);

        *self = Displays { displays, virtual_desktop };

        Ok(num_displays)
    }

    /// Returns the current number of enumerated displays.
    pub fn num_displays(&self) -> (count: u32)
        ensures
            count == self@.len(),
    {
        proof {
            use_type_invariant(self);
        }
        self.displays.len() as u32
    }

    /// Returns the full display info for the display with the provided
    /// `display_index`, or `None` if `display_index` is out of bounds.
    ///
    /// NOTE - `display_index == 0` corresponds to the system's primary display, if any.
    pub fn display_info_full(&self, display_index: u32) -> (found: Option<&DisplayInfoFull>)
        ensures
            display_index < self@.len() ==> found == Some(&self@[display_index as int]),
            display_index >= self@.len() ==> found.is_none(),
    {
        self.display_info_inner(display_index)
    }

    /// Returns the display info for the display with the provided
    /// `display_index`, or `None` if `display_index` is out of bounds.
    ///
    /// NOTE - `display_index == 0` corresponds to the system's primary display, if any.
    pub fn display_info(&self, display_index: u32) -> (found: Option<&DisplayInfo>)
        ensures
            display_index < self@.len() ==> found == Some(&self@[display_index as int].info),
            display_index >= self@.len() ==> found.is_none(),
    {
        match self.display_info_inner(display_index) {
            Some(display_info) => Some(&display_info.info),
            None => None,
        }
    }

    /// Returns the platform-specific info for the display with the provided
    /// `display_index`, or `None` if `display_index` is out of bounds.
    ///
    /// NOTE - `display_index == 0` corresponds to the system's primary display, if any.
    pub fn display_info_platform(&self, display_index: u32) -> (found: Option<&DisplayInfoWin>)
        ensures
            display_index < self@.len() ==> found == Some(&self@[display_index as int].platform),
            display_index >= self@.len() ==> found.is_none(),
    {
        match self.display_info_inner(display_index) {
            Some(display_info) => Some(&display_info.platform),
            None => None,
        }
    }

    /// Returns the adjacency info for the display with the provided
    /// `display_index`, or `None` if `display_index` is out of bounds.
    ///
    /// What is returned is the adjacency that the stored displays' full
    /// rectangles imply.
    ///
    /// NOTE - `display_index == 0` corresponds to the system's primary display, if any.
    pub fn adjacency_info(&self, display_index: u32) -> (found: Option<&AdjacencyInfo>)
        ensures
            display_index < self@.len() ==> found == Some(
                &self@[display_index as int].adjacency_info,
            ) && is_adjacency(virtual_rects(self@), display_index as int, *found.unwrap()),
            display_index >= self@.len() ==> found.is_none(),
    {
        proof {
            use_type_invariant(self);
        }
        match self.display_info_inner(display_index) {
            Some(display_info) => Some(&display_info.adjacency_info),
            None => None,
        }
    }

    /// Returns an iterator over the display info of all enumerated displays,
    /// from the first.
    pub fn iter(&self) -> (iter: DisplayInfoIter<'_>)
        ensures
            iter.remaining() == infos(self@),
    {
        let iter = DisplayInfoIter { displays: self.displays.as_slice(), next: 0 };
        iter
    }

    /// Returns the combined virtual desktop rectangle for all enumerated
    /// displays: the rectangle that bounds their full rectangles, or `None`
    /// if there is no display.
    pub fn virtual_desktop(&self) -> (bounds: Option<Rectangle>)
        ensures
            bounds == self.spec_virtual_desktop(),
            bounds.is_some() == (self@.len() > 0),
            is_layout(self@, bounds),
    {
        proof {
            use_type_invariant(self);
        }
        self.virtual_desktop
    }

    fn display_info_inner(&self, display_index: u32) -> (found: Option<&DisplayInfoFull>)
        ensures
            display_index < self@.len() ==> found == Some(&self@[display_index as int]),
            display_index >= self@.len() ==> found.is_none(),
    {
        let display_index = display_index as usize;

        if display_index >= self.displays.len() {
            None
        } else {
            Some(&self.displays[display_index])
        }
    }

    /// Infers the adjacency of the display with the provided `display_index`
    /// from the full rectangles of all displays.
    ///
    /// Another display is adjacent on a side when its facing edge has exactly
    /// the coordinate of that side. Of several such displays, the last in the
    /// list is reported.
    pub fn calc_adjacency_info(rectangles: &[Rectangle], display_index: usize) -> (adjacency:
        AdjacencyInfo)
        requires
            display_index < rectangles@.len() <= u32::MAX,
        ensures
            is_adjacency(rectangles@, display_index as int, adjacency),
    {
        let rectangle = &rectangles[display_index];
        let left = rectangle.position.left as i64;
        let top = rectangle.position.top as i64;
        let right = rectangle.wide_right();
        let bottom = rectangle.wide_bottom();

        let mut adjacency = AdjacencyInfo::default();

        for i in 0..rectangles.len()
            invariant
                display_index < rectangles@.len() <= u32::MAX,
                *rectangle == rectangles@[display_index as int],
                left == rectangle.spec_left(),
                top == rectangle.spec_top(),
                right == rectangle.spec_right(),
                bottom == rectangle.spec_bottom(),
                is_neighbor_among(rectangles@, display_index as int, Side::Left, i as int, adjacency.left),
                is_neighbor_among(rectangles@, display_index as int, Side::Top, i as int, adjacency.top),
                is_neighbor_among(
                    rectangles@,
                    display_index as int,
                    Side::Right,
                    i as int,
                    adjacency.right,
                ),
                is_neighbor_among(
                    rectangles@,
                    display_index as int,
                    Side::Bottom,
                    i as int,
                    adjacency.bottom,
                ),
        {
            if i != display_index {
                let other_rectangle = &rectangles[i];
                let i = i as u32;

                // Adjacent to the left?
                if other_rectangle.wide_right() == left {
                    adjacency.left = Some(i);
                }
                // Adjacent to the right?
                if other_rectangle.position.left as i64 == right {
                    adjacency.right = Some(i);
                }
                // Adjacent to the top?
                if other_rectangle.wide_bottom() == top {
                    adjacency.top = Some(i);
                }
                // Adjacent to the bottom?
                if other_rectangle.position.top as i64 == bottom {
                    adjacency.bottom = Some(i);
                }
            }
        }

        adjacency
    }

    /// Computes the rectangle that bounds all of `rectangles`, or `None` if
    /// there are none.
    ///
    /// The bounding rectangle must be one that can be held: see
    /// [`spans_fit`].
    pub fn calc_virtual_desktop(rectangles: &[Rectangle]) -> (bounds: Option<Rectangle>)
        requires
            spans_fit(rectangles@),
        ensures
            bounds.is_some() == (rectangles@.len() > 0),
            bounds matches Some(bounds) ==> is_bounding_box(rectangles@, bounds),
    {
        if rectangles.len() == 0 {
            return None;
        }
        let first = &rectangles[0];
        let mut left = first.position.left;
        let mut top = first.position.top;
        let mut right = first.wide_right();
        let mut bottom = first.wide_bottom();
        let ghost mut at_left: int = 0;
        let ghost mut at_top: int = 0;
        let ghost mut at_right: int = 0;
        let ghost mut at_bottom: int = 0;

        for i in 1..rectangles.len()
            invariant
                0 <= at_left < i && rectangles@[at_left].spec_left() == left,
                0 <= at_top < i && rectangles@[at_top].spec_top() == top,
                0 <= at_right < i && rectangles@[at_right].spec_right() == right,
                0 <= at_bottom < i && rectangles@[at_bottom].spec_bottom() == bottom,
                forall|j: int|
                    0 <= j < i ==> {
                        &&& left <= (#[trigger] rectangles@[j]).spec_left()
                        &&& top <= rectangles@[j].spec_top()
                        &&& rectangles@[j].spec_right() <= right
                        &&& rectangles@[j].spec_bottom() <= bottom
                    },
        {
            let rectangle = &rectangles[i];

            if rectangle.position.left < left {
                left = rectangle.position.left;
                proof {
                    at_left = i as int;
                }
            }
            if rectangle.position.top < top {
                top = rectangle.position.top;
                proof {
                    at_top = i as int;
                }
            }
            if rectangle.wide_right() > right {
                right = rectangle.wide_right();
                proof {
                    at_right = i as int;
                }
            }
            if rectangle.wide_bottom() > bottom {
                bottom = rectangle.wide_bottom();
                proof {
                    at_bottom = i as int;
                }
            }
        }

        Some(Rectangle::from_wide_edges(left as i64, top as i64, right, bottom))
    }
}

impl Default for Displays {
    fn default() -> (displays: Self)
        ensures
            displays@.len() == 0,
            displays.spec_virtual_desktop().is_none(),
    {
        Self::new()
    }
}

/// Returns display info for consecutive enumerated displays.
pub struct DisplayInfoIter<'d> {
    displays: &'d [DisplayInfoFull],
    next: usize,
}

impl<'d> DisplayInfoIter<'d> {
    /// The records still to come, in their order.
    pub closed spec fn remaining(&self) -> Seq<DisplayInfo> {
        if self.next <= self.displays@.len() {
            infos(self.displays@.skip(self.next as int))
        } else {
            Seq::empty()
        }
    }

    /// Hands out the next record, or `None` once all were handed out.
    pub fn next(&mut self) -> (info: Option<&'d DisplayInfo>)
        ensures
            match info {
                Some(info) => old(self).remaining().len() > 0 && *info == old(self).remaining()[0]
                    && final(self).remaining() == old(self).remaining().skip(1),
                None => old(self).remaining().len() == 0 && final(self).remaining() == old(
                    self,
                ).remaining(),
            },
    {
        if self.next < self.displays.len() {
            let info = &self.displays[self.next].info;
            self.next = self.next + 1;
            Some(info)
        } else {
            None
        }
    }
}

/// A snapshot is a function of the enumeration: two registries that took the
/// same enumerated displays hold the same displays, with the same adjacency,
/// and the same virtual desktop.
pub proof fn lemma_snapshot_unique(
    enumerated: Seq<EnumeratedDisplayInfo>,
    first: Seq<DisplayInfoFull>,
    first_desktop: Option<Rectangle>,
    second: Seq<DisplayInfoFull>,
    second_desktop: Option<Rectangle>,
)
    requires
        is_snapshot_of(first, enumerated),
        is_layout(first, first_desktop),
        is_snapshot_of(second, enumerated),
        is_layout(second, second_desktop),
    ensures
        first == second,
        first_desktop == second_desktop,
{
    let rectangles = enumerated_virtual_rects(enumerated);
    assert(virtual_rects(first) =~= rectangles);
    assert(virtual_rects(second) =~= rectangles);
    assert forall|i: int| 0 <= i < first.len() implies first[i] == second[i] by {
        lemma_adjacency_unique(rectangles, i, first[i].adjacency_info, second[i].adjacency_info);
    }
    match (first_desktop, second_desktop) {
        (Some(a), Some(b)) => {
            lemma_bounding_box_unique(rectangles, a, b);
        },
        _ => {},
    }
}

/// The virtual desktop of a registry contains the full rectangle of each of
/// its displays.
pub proof fn lemma_virtual_desktop_contains(
    displays: Seq<DisplayInfoFull>,
    virtual_desktop: Option<Rectangle>,
    index: int,
)
    requires
        is_layout(displays, virtual_desktop),
        0 <= index < displays.len(),
    ensures
        virtual_desktop.is_some(),
        virtual_desktop.unwrap().spec_contains(displays[index].info.rects.virtual_rect),
{
}

/// Whether `index` is that of the first primary display in the list.
pub open spec fn is_first_primary(displays: Seq<EnumeratedDisplayInfo>, index: int) -> bool {
    &&& 0 <= index < displays.len()
    &&& displays[index].info.is_primary
    &&& forall|j: int| 0 <= j < index ==> !(#[trigger] displays[j]).info.is_primary
}

/// Whether an enumeration is one that the registry may take: it has a
/// primary display, no two full rectangles overlap, and no two work
/// rectangles do.
pub open spec fn is_arrangeable(displays: Seq<EnumeratedDisplayInfo>) -> bool {
    &&& exists|i: int| 0 <= i < displays.len() && (#[trigger] displays[i]).info.is_primary
    &&& !any_overlap(enumerated_virtual_rects(displays))
    &&& !any_overlap(enumerated_work_rects(displays))
}

/// Whether `arranged` is `displays` with the first primary display and the
/// display at index `0` in each other's place.
pub open spec fn is_arranged(
    displays: Seq<EnumeratedDisplayInfo>,
    arranged: Seq<EnumeratedDisplayInfo>,
) -> bool {
    exists|primary: int|
        #![trigger displays[primary]]
        is_first_primary(displays, primary) && arranged == displays.update(
            0,
            displays[primary],
        ).update(primary, displays[0])
}

/// Checks an enumeration and makes sure the primary display is at index `0`.
///
/// Fails when there is no primary display (so also when there is no display
/// at all), or when two displays overlap, by their full or by their work
/// rectangles. Otherwise the first primary display changes places with the
/// display at index `0`, and all others stay where they are.
pub fn arrange_displays(displays: Vec<EnumeratedDisplayInfo>) -> (arranged: Result<
    Vec<EnumeratedDisplayInfo>,
    (),
>)
    ensures
        match arranged {
            Ok(list) => is_arrangeable(displays@) && is_arranged(displays@, list@),
            Err(_) => !is_arrangeable(displays@),
        },
{
    let mut displays = displays;
    let ghost enumerated = displays@;

    // Must have found a primary display.
    let primary_display = match find_primary(&displays) {
        Some(primary_display) => primary_display,
        None => {
            return Err(());
        },
    };

    // Must have no overlapping rectangles.
    if has_overlap(&displays) {
        return Err(());
    }

    // Make sure the primary display is at index `0`.
    if primary_display != 0 {
        let primary = displays.remove(primary_display);
        let first = displays.remove(0);
        displays.insert(0, primary);
        displays.insert(primary_display, first);
    }
    assert(displays@ =~= enumerated.update(0, enumerated[primary_display as int]).update(
        primary_display as int,
        enumerated[0],
    ));

    Ok(displays)
}

/// Finds the first primary display.
fn find_primary(displays: &Vec<EnumeratedDisplayInfo>) -> (found: Option<usize>)
    ensures
        match found {
            Some(index) => is_first_primary(displays@, index as int),
            None => forall|i: int|
                0 <= i < displays@.len() ==> !(#[trigger] displays@[i]).info.is_primary,
        },
{
    for index in 0..displays.len()
        invariant
            forall|i: int| 0 <= i < index ==> !(#[trigger] displays@[i]).info.is_primary,
    {
        if displays[index].info.is_primary {
            return Some(index);
        }
    }
    None
}

/// Whether two of the displays overlap, by their full or by their work
/// rectangles.
fn has_overlap(displays: &Vec<EnumeratedDisplayInfo>) -> (overlap: bool)
    ensures
        overlap == (any_overlap(enumerated_virtual_rects(displays@)) || any_overlap(
            enumerated_work_rects(displays@),
        )),
{
    let ghost full = enumerated_virtual_rects(displays@);
    let ghost work = enumerated_work_rects(displays@);
    for i in 0..displays.len()
        invariant
            full == enumerated_virtual_rects(displays@),
            work == enumerated_work_rects(displays@),
            forall|a: int, b: int|
                0 <= a < i && a < b < displays@.len() ==> !(#[trigger] full[a]).spec_overlaps(
                    #[trigger] full[b],
                ),
            forall|a: int, b: int|
                0 <= a < i && a < b < displays@.len() ==> !(#[trigger] work[a]).spec_overlaps(
                    #[trigger] work[b],
                ),
    {
        for j in (i + 1)..displays.len()
            invariant
                i < displays@.len(),
                full == enumerated_virtual_rects(displays@),
                work == enumerated_work_rects(displays@),
                forall|b: int| i < b < j ==> !full[i as int].spec_overlaps(#[trigger] full[b]),
                forall|b: int| i < b < j ==> !work[i as int].spec_overlaps(#[trigger] work[b]),
        {
            let left = &displays[i].info.rects;
            let right = &displays[j].info.rects;

            if left.virtual_rect.overlaps(&right.virtual_rect) {
                assert(full[i as int].spec_overlaps(full[j as int]));
                return true;
            }
            if left.work_rect.overlaps(&right.work_rect) {
                assert(work[i as int].spec_overlaps(work[j as int]));
                return true;
            }
        }
    }
    false
}

/// Arranging an enumeration puts a primary display at index `0`, keeps the
/// number of displays, and leaves them free of overlaps.
pub proof fn lemma_arranged_primary_first(
    displays: Seq<EnumeratedDisplayInfo>,
    arranged: Seq<EnumeratedDisplayInfo>,
)
    requires
        is_arrangeable(displays),
        is_arranged(displays, arranged),
    ensures
        arranged.len() == displays.len(),
        arranged[0].info.is_primary,
        is_arrangeable(arranged),
{
    let primary = choose|primary: int|
        #![trigger displays[primary]]
        is_first_primary(displays, primary) && arranged == displays.update(
            0,
            displays[primary],
        ).update(primary, displays[0]);
    let place = |i: int|
        if i == 0 {
            primary
        } else if i == primary {
            0
        } else {
            i
        };
    let full = enumerated_virtual_rects(displays);
    let work = enumerated_work_rects(displays);
    let new_full = enumerated_virtual_rects(arranged);
    let new_work = enumerated_work_rects(arranged);
    assert forall|i: int, j: int| 0 <= i < j < arranged.len() implies !(#[trigger] new_full[i]).spec_overlaps(
     #[trigger] new_full[j]) by {
        let (a, b) = (place(i), place(j));
        assert(arranged[i] == displays[a] && arranged[j] == displays[b]);
        if a < b {
            assert(!full[a].spec_overlaps(full[b]));
        } else {
            assert(!full[b].spec_overlaps(full[a]));
        }
    }
    assert forall|i: int, j: int| 0 <= i < j < arranged.len() implies !(#[trigger] new_work[i]).spec_overlaps(
     #[trigger] new_work[j]) by {
        let (a, b) = (place(i), place(j));
        assert(arranged[i] == displays[a] && arranged[j] == displays[b]);
        if a < b {
            assert(!work[a].spec_overlaps(work[b]));
        } else {
            assert(!work[b].spec_overlaps(work[a]));
        }
    }
}

/// An enumeration has one arrangement at most.
pub proof fn lemma_arranged_unique(
    displays: Seq<EnumeratedDisplayInfo>,
    first: Seq<EnumeratedDisplayInfo>,
    second: Seq<EnumeratedDisplayInfo>,
)
    requires
        is_arranged(displays, first),
        is_arranged(displays, second),
    ensures
        first == second,
{
}

} // verus!
