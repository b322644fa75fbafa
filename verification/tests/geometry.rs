use minidisplay::{ClipRectFlags, Dimensions, Position, Rectangle, WinRect};

fn rect(left: i32, top: i32, width: u32, height: u32) -> Rectangle {
    Rectangle::new(Position::new(left, top), Dimensions::new(width, height))
}

#[test]
fn defaults_are_zero() {
    assert_eq!(Position::default(), Position::new(0, 0));
    assert_eq!(Dimensions::default(), Dimensions::new(0, 0));
    assert_eq!(Rectangle::default(), rect(0, 0, 0, 0));
}

#[test]
fn rectangle_edges() {
    let r = rect(-3, 7, 10, 20);
    assert_eq!(r.left(), -3);
    assert_eq!(r.top(), 7);
    assert_eq!(r.right(), 7);
    assert_eq!(r.bottom(), 27);
    assert_eq!(r.width(), 10);
    assert_eq!(r.height(), 20);
    assert!(r.is_valid());
    assert!(r.has_area());
}

#[test]
fn rectangle_edges_at_the_limits() {
    let r = rect(i32::MIN, i32::MIN, u32::MAX, u32::MAX);
    assert!(r.is_valid());
    assert_eq!(r.right(), i32::MAX);
    assert_eq!(r.bottom(), i32::MAX);

    let too_wide = rect(i32::MIN + 1, 0, u32::MAX, 1);
    assert!(!too_wide.is_valid());
    let too_tall = rect(0, 1, 1, i32::MAX as u32);
    assert!(!too_tall.is_valid());
    assert!(!rect(0, 0, 0, 5).has_area());
    assert!(!rect(0, 0, 5, 0).has_area());
}

#[test]
fn area_is_the_product() {
    assert_eq!(Dimensions::new(0, 0).area(), 0);
    assert_eq!(Dimensions::new(0, 17).area(), 0);
    assert_eq!(Dimensions::new(3, 4).area(), 12);
    assert_eq!(Dimensions::new(1920, 1080).area(), 2_073_600);
    assert_eq!(Dimensions::new(65535, 65537).area(), u32::MAX);
    assert_eq!(Dimensions::new(65535, 65536).area(), 4_294_901_760);
}

#[test]
fn area_saturates() {
    assert_eq!(Dimensions::new(65536, 65536).area(), u32::MAX);
    assert_eq!(Dimensions::new(u32::MAX, 2).area(), u32::MAX);
    assert_eq!(Dimensions::new(u32::MAX, u32::MAX).area(), u32::MAX);
}

#[test]
fn dimensions_sub_needs_both_components() {
    assert_eq!(Dimensions::new(5, 5) - Dimensions::new(5, 5), Some(Dimensions::new(0, 0)));
    assert_eq!(Dimensions::new(5, 5) - Dimensions::new(6, 0), None);
    assert_eq!(Dimensions::new(5, 5) - Dimensions::new(0, 6), None);
    assert_eq!(
        Dimensions::new(u32::MAX, 1) - Dimensions::new(1, 1),
        Some(Dimensions::new(u32::MAX - 1, 0))
    );
}

#[test]
fn flags_are_four_independent_sides() {
    let none = ClipRectFlags::keep_none();
    assert!(!none.keeps_left() && !none.keeps_right() && !none.keeps_top() && !none.keeps_bottom());
    assert!(ClipRectFlags::keep_left().keeps_left());
    assert!(!ClipRectFlags::keep_left().keeps_right());
    assert!(ClipRectFlags::keep_right().keeps_right());
    assert!(ClipRectFlags::keep_top().keeps_top());
    assert!(ClipRectFlags::keep_bottom().keeps_bottom());
    assert!(!ClipRectFlags::keep_bottom().keeps_top());

    let all = ClipRectFlags::keep_left()
        | ClipRectFlags::keep_right()
        | ClipRectFlags::keep_top()
        | ClipRectFlags::keep_bottom();
    assert_eq!(all, ClipRectFlags::keep_all());
    assert!(all.keeps_all());
    assert!(!(ClipRectFlags::keep_left() | ClipRectFlags::keep_right()).keeps_all());
    assert_eq!(none | none, none);
}

#[test]
fn flags_contains() {
    let left_top = ClipRectFlags::keep_left() | ClipRectFlags::keep_top();
    assert!(left_top.contains(ClipRectFlags::keep_left()));
    assert!(left_top.contains(ClipRectFlags::keep_top()));
    assert!(left_top.contains(left_top));
    assert!(left_top.contains(ClipRectFlags::keep_none()));
    assert!(!left_top.contains(ClipRectFlags::keep_right()));
    assert!(!left_top.contains(ClipRectFlags::keep_all()));
    assert!(ClipRectFlags::keep_all().contains(left_top));
    assert!(!ClipRectFlags::keep_none().contains(ClipRectFlags::keep_bottom()));
}

#[test]
fn overlap_is_symmetric() {
    let rects = [
        rect(-1, -2, 4, 3),
        rect(1, -1, 1, 4),
        rect(-2, 0, 1, 2),
        rect(3, -2, 2, 2),
        rect(0, 0, 0, 0),
        rect(i32::MAX, i32::MAX, u32::MAX, u32::MAX),
    ];
    for a in rects.iter() {
        for b in rects.iter() {
            assert_eq!(a.overlaps(b), b.overlaps(a));
        }
    }
}

#[test]
fn touching_edges_do_not_overlap() {
    let a = rect(0, 0, 100, 100);
    assert!(!a.overlaps(&rect(100, 0, 100, 100)));
    assert!(!a.overlaps(&rect(-100, 0, 100, 100)));
    assert!(!a.overlaps(&rect(0, 100, 100, 100)));
    assert!(!a.overlaps(&rect(0, -100, 100, 100)));
    assert!(a.overlaps(&rect(99, 99, 100, 100)));
}

#[test]
fn overlap_beyond_the_coordinate_range() {
    let far = rect(i32::MAX, 0, 10, 10);
    let wide = rect(0, 0, u32::MAX, 10);
    assert!(far.overlaps(&wide));
    assert!(wide.contains(&far));
    assert!(!far.contains(&wide));
}

#[test]
fn containment_is_reflexive_and_antisymmetric() {
    let rects = [
        rect(-1, -2, 4, 3),
        rect(-1, -2, 3, 2),
        rect(1, -1, 1, 4),
        rect(0, 0, 0, 0),
        rect(-1, -2, 4, 3),
    ];
    for a in rects.iter() {
        assert!(a.contains(a));
        for b in rects.iter() {
            if a.contains(b) && b.contains(a) {
                assert_eq!(a, b);
            }
        }
    }
}

#[test]
fn clip_to_itself_returns_the_rectangle() {
    for r in [rect(-1, -2, 4, 3), rect(0, 0, 1, 1), rect(i32::MIN, i32::MAX, u32::MAX, 7)] {
        assert_eq!(r.clip(&r, ClipRectFlags::keep_none()), Some(r));
        assert_eq!(r.clip(&r, ClipRectFlags::keep_all()), Some(r));
    }
}

#[test]
fn clip_without_area_is_nothing() {
    let bounds = rect(-10, -10, 20, 20);
    assert_eq!(rect(0, 0, 0, 5).clip(&bounds, ClipRectFlags::keep_none()), None);
    assert_eq!(rect(0, 0, 5, 0).clip(&bounds, ClipRectFlags::keep_all()), None);
    let line = rect(0, 0, 0, 0);
    assert_eq!(line.clip(&line, ClipRectFlags::keep_none()), None);
    assert_eq!(rect(0, 0, 5, 5).clip(&rect(0, 0, 0, 9), ClipRectFlags::keep_none()), None);
}

#[test]
fn clip_inside_bounds_changes_nothing() {
    let bounds = rect(-10, -10, 20, 20);
    let r = rect(-3, 2, 5, 6);
    for flags in [
        ClipRectFlags::keep_none(),
        ClipRectFlags::keep_left(),
        ClipRectFlags::keep_right() | ClipRectFlags::keep_top(),
        ClipRectFlags::keep_all(),
    ] {
        assert_eq!(r.clip(&bounds, flags), Some(r));
    }
}

#[test]
fn clip_keep_right_clips_on_the_left() {
    let bounds = rect(-1, -2, 4, 5);
    let r = rect(-2, -1, 4, 2);
    assert_eq!(r.clip(&bounds, ClipRectFlags::keep_right()), Some(rect(-1, -1, 3, 2)));
}

#[test]
fn clip_keep_all_without_overlap_is_nothing() {
    let bounds = rect(-1, -2, 4, 5);
    let r = rect(3, 3, 1, 1);
    assert!(!r.overlaps(&bounds));
    assert_eq!(r.clip(&bounds, ClipRectFlags::keep_all()), None);
}

#[test]
fn clip_keep_all_is_the_intersection() {
    let a = rect(0, 0, 10, 10);
    let b = rect(5, -5, 10, 10);
    assert_eq!(a.clip(&b, ClipRectFlags::keep_all()), Some(rect(5, 0, 5, 5)));
    assert_eq!(b.clip(&a, ClipRectFlags::keep_all()), Some(rect(5, 0, 5, 5)));
}

#[test]
fn clip_moves_a_free_rectangle_into_the_bounds() {
    let bounds = rect(0, 0, 100, 100);
    assert_eq!(
        rect(150, 150, 10, 10).clip(&bounds, ClipRectFlags::keep_none()),
        Some(rect(90, 90, 10, 10))
    );
    assert_eq!(
        rect(-50, -50, 10, 10).clip(&bounds, ClipRectFlags::keep_none()),
        Some(rect(0, 0, 10, 10))
    );
    // Larger than the bounds: shrinks to them.
    assert_eq!(rect(-50, 20, 300, 10).clip(&bounds, ClipRectFlags::keep_none()), Some(rect(0, 20, 100, 10)));
}

#[test]
fn clip_result_lies_within_bounds() {
    let bounds = rect(-1, -2, 4, 5);
    let all_flags = [
        ClipRectFlags::keep_none(),
        ClipRectFlags::keep_left(),
        ClipRectFlags::keep_right(),
        ClipRectFlags::keep_top(),
        ClipRectFlags::keep_bottom(),
        ClipRectFlags::keep_left() | ClipRectFlags::keep_bottom(),
        ClipRectFlags::keep_all(),
    ];
    for left in -6..6 {
        for top in -6..6 {
            let r = rect(left, top, 3, 2);
            for flags in all_flags {
                if let Some(clipped) = r.clip(&bounds, flags) {
                    assert!(bounds.contains(&clipped));
                    assert!(clipped.width() <= r.width() && clipped.height() <= r.height());
                    assert!(clipped.has_area());
                }
            }
        }
    }
}

#[test]
fn clamp_keep_left_grows_rightward() {
    let r = rect(-3, -2, 2, 3);
    assert_eq!(r.clamp(Dimensions::new(3, 2), ClipRectFlags::keep_left()), rect(-3, -2, 3, 3));
}

#[test]
fn clamp_free_sides_grow_right_and_down() {
    let r = rect(10, 20, 1, 1);
    assert_eq!(r.clamp(Dimensions::new(4, 5), ClipRectFlags::keep_none()), rect(10, 20, 4, 5));
}

#[test]
fn clamp_never_shrinks() {
    let r = rect(-3, -2, 7, 9);
    for flags in [
        ClipRectFlags::keep_none(),
        ClipRectFlags::keep_right() | ClipRectFlags::keep_bottom(),
        ClipRectFlags::keep_all(),
    ] {
        assert_eq!(r.clamp(Dimensions::new(3, 2), flags), r);
        let grown = r.clamp(Dimensions::new(8, 2), flags);
        assert!(grown.contains(&r));
    }
}

#[test]
fn clamp_with_both_sides_pinned_leaves_the_axis() {
    let r = rect(0, 0, 1, 1);
    assert_eq!(r.clamp(Dimensions::new(3, 2), ClipRectFlags::keep_all()), r);
    assert_eq!(
        r.clamp(Dimensions::new(3, 2), ClipRectFlags::keep_left() | ClipRectFlags::keep_right()),
        rect(0, 0, 1, 2)
    );
    assert_eq!(
        r.clamp(Dimensions::new(3, 2), ClipRectFlags::keep_top() | ClipRectFlags::keep_bottom()),
        rect(0, 0, 3, 1)
    );
}

#[test]
fn clamp_at_the_limits() {
    let r = rect(i32::MIN + 2, 0, 1, 1);
    assert_eq!(
        r.clamp(Dimensions::new(3, 1), ClipRectFlags::keep_right()),
        rect(i32::MIN, 0, 3, 1)
    );
    let r = rect(i32::MAX, i32::MAX, 0, 0);
    assert_eq!(
        r.clamp(Dimensions::new(u32::MAX, u32::MAX), ClipRectFlags::keep_left()),
        rect(i32::MAX, i32::MAX, u32::MAX, u32::MAX)
    );
}

#[test]
fn win_rect_round_trip() {
    let win = WinRect { left: -1920, top: 0, right: 0, bottom: 1080 };
    assert!(win.is_valid());
    let r = Rectangle::from_win_rect(&win);
    assert_eq!(r, rect(-1920, 0, 1920, 1080));
    assert_eq!(r.to_win_rect(), win);

    let whole = WinRect { left: i32::MIN, top: i32::MIN, right: i32::MAX, bottom: i32::MAX };
    let r = Rectangle::from_win_rect(&whole);
    assert_eq!(r, rect(i32::MIN, i32::MIN, u32::MAX, u32::MAX));
    assert_eq!(r.to_win_rect(), whole);

    let empty = WinRect { left: 5, top: 5, right: 5, bottom: 5 };
    assert_eq!(Rectangle::from_win_rect(&empty), rect(5, 5, 0, 0));
    assert!(!WinRect { left: 1, top: 0, right: 0, bottom: 0 }.is_valid());
    assert!(!WinRect { left: 0, top: 1, right: 0, bottom: 0 }.is_valid());
}
