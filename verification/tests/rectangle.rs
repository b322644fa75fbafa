use minidisplay::{ClipRectFlags, Dimensions, Position, Rectangle};

#[test]
fn position_add_sub() {
    let position_0 = Position::new(-1, 2);
    let position_1 = Position::new(7, -14);

    assert_eq!(position_0 + position_1, Position::new(6, -12));
    assert_eq!(position_0 - position_1, Position::new(-8, 16));
}

#[test]
fn dimensions_add_sub() {
    let dimensions_0 = Dimensions::new(2, 4);
    let dimensions_1 = Dimensions::new(3, 3);
    let dimensions_2 = Dimensions::new(1, 5);
    let dimensions_3 = Dimensions::new(1, 3);

    assert_eq!(dimensions_0 + dimensions_1, Dimensions::new(5, 7));
    assert_eq!(dimensions_0 - dimensions_1, None);
    assert_eq!(dimensions_1 - dimensions_0, None);
    assert_eq!(dimensions_0 + dimensions_2, Dimensions::new(3, 9));
    assert_eq!(dimensions_0 - dimensions_2, None);
    assert_eq!(dimensions_2 - dimensions_0, None);
    assert_eq!(dimensions_0 + dimensions_3, Dimensions::new(3, 7));
    assert_eq!(dimensions_0 - dimensions_3, Some(Dimensions::new(1, 1)));
    assert_eq!(dimensions_3 - dimensions_0, None);
}

#[test]
fn overlaps() {
    let rect_0 = Rectangle::new(Position::new(-1, -2), Dimensions::new(4, 3));

    assert!(rect_0.overlaps(&rect_0));
    assert!(rect_0.clip(&rect_0, ClipRectFlags::keep_none()).is_some());

    let rect_1 = Rectangle::new(Position::new(1, -1), Dimensions::new(1, 4));

    assert!(rect_0.overlaps(&rect_1));
    assert_eq!(
        rect_0.clip(&rect_1, ClipRectFlags::keep_none()),
        Some(Rectangle::new(Position::new(1, -1), Dimensions::new(1, 3)))
    );
    assert_eq!(
        rect_0.clip(&rect_1, ClipRectFlags::keep_all()),
        Some(Rectangle::new(Position::new(1, -1), Dimensions::new(1, 2)))
    );
    assert!(rect_1.overlaps(&rect_0));
    assert_eq!(
        rect_1.clip(&rect_0, ClipRectFlags::keep_none()),
        Some(Rectangle::new(Position::new(1, -2), Dimensions::new(1, 3)))
    );
    assert_eq!(
        rect_1.clip(&rect_0, ClipRectFlags::keep_all()),
        Some(Rectangle::new(Position::new(1, -1), Dimensions::new(1, 2)))
    );

    let rect_2 = Rectangle::new(Position::new(-2, 0), Dimensions::new(1, 2));

    assert!(!rect_0.overlaps(&rect_2));
    assert_eq!(
        rect_0.clip(&rect_2, ClipRectFlags::keep_none()),
        Some(Rectangle::new(Position::new(-2, 0), Dimensions::new(1, 2)))
    );
    assert!(rect_0.clip(&rect_2, ClipRectFlags::keep_all()).is_none());
    assert!(!rect_2.overlaps(&rect_0));
    assert_eq!(
        rect_2.clip(&rect_0, ClipRectFlags::keep_none()),
        Some(Rectangle::new(Position::new(-1, -1), Dimensions::new(1, 2)))
    );
    assert!(rect_2.clip(&rect_0, ClipRectFlags::keep_all()).is_none());

    assert!(!rect_1.overlaps(&rect_2));
    assert_eq!(
        rect_1.clip(&rect_2, ClipRectFlags::keep_none()),
        Some(Rectangle::new(Position::new(-2, 0), Dimensions::new(1, 2)))
    );
    assert!(rect_1.clip(&rect_2, ClipRectFlags::keep_all()).is_none());
    assert!(!rect_2.overlaps(&rect_1));
    assert_eq!(
        rect_2.clip(&rect_1, ClipRectFlags::keep_none()),
        Some(Rectangle::new(Position::new(1, 0), Dimensions::new(1, 2)))
    );
    assert!(rect_2.clip(&rect_1, ClipRectFlags::keep_all()).is_none());
}

#[test]
fn contains() {
    let rect_0 = Rectangle::new(Position::new(-1, -2), Dimensions::new(4, 3));

    assert!(rect_0.contains(&rect_0));

    let rect_1 = Rectangle::new(Position::new(-1, -2), Dimensions::new(3, 2));

    assert!(rect_0.contains(&rect_1));
    assert!(!rect_1.contains(&rect_0));

    let rect_2 = Rectangle::new(Position::new(1, -1), Dimensions::new(1, 4));

    assert!(!rect_0.contains(&rect_2));
    assert!(!rect_2.contains(&rect_0));

    assert!(!rect_1.contains(&rect_2));
    assert!(!rect_2.contains(&rect_1));

    let rect_3 = Rectangle::new(Position::new(-2, 0), Dimensions::new(1, 2));

    assert!(!rect_0.contains(&rect_3));
    assert!(!rect_3.contains(&rect_0));

    assert!(!rect_1.contains(&rect_3));
    assert!(!rect_3.contains(&rect_1));

    assert!(!rect_2.contains(&rect_3));
    assert!(!rect_3.contains(&rect_2));
}

#[test]
fn clip() {
    //
    //    __|________
    //   |  |        |
    // __|__|__.__.__|__
    //   |  |        |
    //   |  |        |
    //   |__|________|
    //      |
    //
    let bounds = Rectangle::new(Position::new(-1, -2), Dimensions::new(4, 5));

    // Resizing on the left -> clipped on the left.
    //
    //       __|________            .         __|________
    //    __|__|______  |           .        |__|______  |
    // __|__|__|__.__|__|__.__      ->  __.__|__|__.__|__|__.__
    //   |__|__|_____|  |           .        |__|_____|  |
    //      |  |        |           .        |  |        |
    //      |__|________|           .        |__|________|
    //         |                    .           |
    //
    let rect = Rectangle::new(Position::new(-2, -1), Dimensions::new(4, 2));
    assert_eq!(
        rect.clip(&bounds, ClipRectFlags::keep_right()),
        Some(Rectangle::new(Position::new(-1, -1), Dimensions::new(3, 2)))
    );
    // Resizing on the left -> clipped on the left, moved to the bottom.
    //
    //    _____|_____               .           |
    //   |   __|_____|__            .         __|________
    //   |__|__|_____|  |           .        |  |     |  |
    // __.__|__|__.__.__|__.__      ->  __.__|__|__.__|__|__.__
    //      |  |        |           .        |  |        |
    //      |  |        |           .        |  |        |
    //      |__|________|           .        |__|________|
    //         |                    .           |
    //
    let rect = Rectangle::new(Position::new(-2, -3), Dimensions::new(4, 2));
    assert_eq!(
        rect.clip(&bounds, ClipRectFlags::keep_right()),
        Some(Rectangle::new(Position::new(-1, -2), Dimensions::new(3, 2)))
    );

    // Resizing on the right -> clipped on the right.
    //
    //         |                    .           |
    //       __|________            .         __|________
    //      |  |   _____|__         .        |  |   _____|
    // __.__|__|__|__.__|__|__      ->  __.__|__|__|__.__|__.__
    //      |  |  |_____|__|        .        |  |  |_____|
    //      |  |        |           .        |  |        |
    //      |__|________|           .        |__|________|
    //         |                    .           |
    //
    let rect = Rectangle::new(Position::new(1, -1), Dimensions::new(3, 2));
    assert_eq!(
        rect.clip(&bounds, ClipRectFlags::keep_left()),
        Some(Rectangle::new(Position::new(1, -1), Dimensions::new(2, 2)))
    );
    // Resizing on the right -> clipped on the right, moved to the bottom.
    //
    //         |   ________         .           |
    //       __|__|_____   |        .         __|________
    //      |  |  |_____|__|        .        |  |  |     |
    // __.__|__|__.__.__|__.__      ->  __.__|__|__|__.__|__.__
    //      |  |        |           .        |  |        |
    //      |  |        |           .        |  |        |
    //      |__|________|           .        |__|________|
    //         |                    .           |
    //
    let rect = Rectangle::new(Position::new(1, -3), Dimensions::new(3, 2));
    assert_eq!(
        rect.clip(&bounds, ClipRectFlags::keep_left()),
        Some(Rectangle::new(Position::new(1, -2), Dimensions::new(2, 2)))
    );

    // Resizing on the top -> clipped on the top.
    //
    //       __|__                  .           |
    //      |__|__|_____            .         __|________
    //      |  |  |     |           .        |  |  |     |
    // __.__|__|__|__.__|__.__      ->  __.__|__|__|__.__|__.__
    //      |  |        |           .        |  |        |
    //      |  |        |           .        |  |        |
    //      |__|________|           .        |__|________|
    //         |                    .           |
    //
    let rect = Rectangle::new(Position::new(-1, -3), Dimensions::new(2, 3));
    assert_eq!(
        rect.clip(&bounds, ClipRectFlags::keep_bottom()),
        Some(Rectangle::new(Position::new(-1, -2), Dimensions::new(2, 2)))
    );
    // Resizing on the top -> clipped on the top, moved to the right.
    //
    //    __ __|                    .           |
    //   |   __|________            .         __|________
    //   |  |  |        |           .        |  |  |     |
    // __|__|__|__.__.__|__.__      ->  __.__|__|__|__.__|__.__
    //      |  |        |           .        |  |        |
    //      |  |        |           .        |  |        |
    //      |__|________|           .        |__|________|
    //         |                    .           |
    //
    let rect = Rectangle::new(Position::new(-2, -3), Dimensions::new(2, 3));
    assert_eq!(
        rect.clip(&bounds, ClipRectFlags::keep_bottom()),
        Some(Rectangle::new(Position::new(-1, -2), Dimensions::new(2, 2)))
    );

    // Resizing on the bottom -> clipped on the bottom.
    //
    //       __|________            .         __|________
    //      |  |        |           .        |  |        |
    // __.__|__|__.__.__|__.__      ->  __.__|__|__.__.__|__.__
    //      |  |        |           .        |  |        |
    //      |  |____    |           .        |  |____    |
    //      |__|____|___|           .        |__|____|___|
    //         |    |               .           |
    //         |____|               .           |
    //         |                    .           |
    //
    let rect = Rectangle::new(Position::new(0, 2), Dimensions::new(2, 3));
    assert_eq!(
        rect.clip(&bounds, ClipRectFlags::keep_top()),
        Some(Rectangle::new(Position::new(0, 2), Dimensions::new(2, 1)))
    );
    // Resizing on the bottom -> clipped on the bottom, moved to the left.
    //
    //       __|________            .         __|________
    //      |  |        |           .        |  |        |
    // __.__|__|__.__.__|__.__      ->  __.__|__|__.__.__|__.__
    //      |  |        |           .        |  |        |
    //      |  |      __|__         .        |  |   _____|
    //      |__|_____|__|  |        .        |__|__|_____|
    //         |     |     |        .           |
    //         |     |_____|        .           |
    //         |                    .           |
    //
    let rect = Rectangle::new(Position::new(2, 2), Dimensions::new(2, 3));
    assert_eq!(
        rect.clip(&bounds, ClipRectFlags::keep_top()),
        Some(Rectangle::new(Position::new(1, 2), Dimensions::new(2, 1)))
    );

    // Resizing on the left and top -> clipped on the left and top.
    //
    //    __ __|                    .           |
    //   |   __|________            .         __|________
    //   |__|__|        |           .        |__|        |
    // __.__|__|__.__.__|__.__      ->  __.__|__|__.__.__|__.__
    //      |  |        |           .        |  |        |
    //      |  |        |           .        |  |        |
    //      |__|________|           .        |__|________|
    //         |                    .           |
    //
    let rect = Rectangle::new(Position::new(-2, -3), Dimensions::new(2, 2));
    assert_eq!(
        rect.clip(
            &bounds,
            ClipRectFlags::keep_right() | ClipRectFlags::keep_bottom()
        ),
        Some(Rectangle::new(Position::new(-1, -2), Dimensions::new(1, 1)))
    );

    // Resizing on the left and bottom -> clipped on the left and bottom.
    //
    //       __|________            .         __|________
    //      |  |        |           .        |  |        |
    // __.__|__|__.__.__|__.__      ->  __.__|__|__.__.__|__.__
    //    __|__|        |           .        |__|        |
    //   |  |  |        |           .        |  |        |
    //   |  |__|________|           .        |__|________|
    //   |_____|                    .           |
    //         |                    .           |
    //
    let rect = Rectangle::new(Position::new(-2, 1), Dimensions::new(2, 3));
    assert_eq!(
        rect.clip(&bounds, ClipRectFlags::keep_right() | ClipRectFlags::keep_top()),
        Some(Rectangle::new(Position::new(-1, 1), Dimensions::new(1, 2)))
    );

    // Resizing on the right and top -> clipped on the right and top.
    //
    //         |      _____         .           |
    //       __|_____|__   |        .         __|________
    //      |  |     |  |  |        .        |  |     |  |
    // __.__|__|__.__|__|__|__      ->  __.__|__|__.__|__|__.__
    //      |  |        |           .        |  |        |
    //      |  |        |           .        |  |        |
    //      |__|________|           .        |__|________|
    //         |                    .           |
    //
    let rect = Rectangle::new(Position::new(2, -3), Dimensions::new(2, 3));
    assert_eq!(
        rect.clip(&bounds, ClipRectFlags::keep_left() | ClipRectFlags::keep_bottom()),
        Some(Rectangle::new(Position::new(2, -2), Dimensions::new(1, 2)))
    );

    // Clip the rectangle to the right and bottom.
    //
    //       __|________            .         __|________
    //      |  |        |           .        |  |        |
    // __.__|__|__.__.__|__.__      ->  __.__|__|__.__.__|__.__
    //      |  |        |           .        |  |        |
    //      |  |   _____|____       .        |  |   _____|
    //      |__|__|_____|    |      .        |__|__|_____|
    //         |  |__________|      .           |
    //         |                    .           |
    //
    let rect = Rectangle::new(Position::new(1, 2), Dimensions::new(4, 2));
    assert_eq!(
        rect.clip(&bounds, ClipRectFlags::keep_all()),
        Some(Rectangle::new(Position::new(1, 2), Dimensions::new(2, 1)))
    );

    // Clip the rectangle to the left and top.
    //
    //    ________|                    .           |
    //   |      __|________            .         __|________
    //   |     |  |        |           .        |  |        |
    // __|__.__|__|__.__.__|__.__      ->  __.__|__|__.__.__|__.__
    //   |_____|__|        |           .        |__|        |
    //         |  |        |           .        |  |        |
    //         |__|________|           .        |__|________|
    //            |                    .           |
    //
    let rect = Rectangle::new(Position::new(-3, -3), Dimensions::new(3, 4));
    assert_eq!(
        rect.clip(&bounds, ClipRectFlags::keep_all()),
        Some(Rectangle::new(Position::new(-1, -2), Dimensions::new(1, 3)))
    );

    // Non-intersecting rectangle to the left and top.
    //
    //    ___     |                    .           |
    //   |__|   __|________            .         __|________
    //         |  |        |           .        |  |        |
    // __.__.__|__|__.__.__|__.__      ->  __.__|__|__.__.__|__.__
    //         |  |        |           .        |__|        |
    //         |  |        |           .        |  |        |
    //         |__|________|           .        |__|________|
    //            |                    .           |
    //
    let rect = Rectangle::new(Position::new(-3, -3), Dimensions::new(1, 1));
    assert!(!rect.overlaps(&bounds));
    assert_eq!(rect.clip(&bounds, ClipRectFlags::keep_all()), None);

    // Non-intersecting rectangle to the right and bottom.
    //
    //       __|________               .         __|________
    //      |  |        |              .        |  |        |
    // __.__|__|__.__.__|__.__.__      ->  __.__|__|__.__.__|__.__
    //      |  |        |              .        |  |        |
    //      |  |        |              .        |  |        |
    //      |__|________|__            .        |__|________|
    //         |        |__|           .           |
    //         |                       .           |
    //
    let rect = Rectangle::new(Position::new(3, 3), Dimensions::new(1, 1));
    assert!(!rect.overlaps(&bounds));
    assert_eq!(rect.clip(&bounds, ClipRectFlags::keep_all()), None);
}

#[test]
fn clamp() {
    let min_dimensions = Dimensions::new(3, 2);

    // Resizing on the left.
    let rect = Rectangle::new(Position::new(-1, -2), Dimensions::new(2, 3));
    assert_eq!(
        rect.clamp(min_dimensions, ClipRectFlags::keep_right()),
        Rectangle::new(Position::new(-2, -2), Dimensions::new(3, 3))
    );

    // Resizing on the right.
    let rect = Rectangle::new(Position::new(-3, -2), Dimensions::new(2, 3));
    assert_eq!(
        rect.clamp(min_dimensions, ClipRectFlags::keep_left()),
        Rectangle::new(Position::new(-3, -2), Dimensions::new(3, 3))
    );

    // Resizing on the top.
    let rect = Rectangle::new(Position::new(-3, 0), Dimensions::new(4, 1));
    assert_eq!(
        rect.clamp(min_dimensions, ClipRectFlags::keep_bottom()),
        Rectangle::new(Position::new(-3, -1), Dimensions::new(4, 2))
    );

    // Resizing on the bottom.
    let rect = Rectangle::new(Position::new(-3, -2), Dimensions::new(4, 1));
    assert_eq!(
        rect.clamp(min_dimensions, ClipRectFlags::keep_top()),
        Rectangle::new(Position::new(-3, -2), Dimensions::new(4, 2))
    );

    // Resizing on the left and top.
    let rect = Rectangle::new(Position::new(0, 0), Dimensions::new(1, 1));
    assert_eq!(
        rect.clamp(
            min_dimensions,
            ClipRectFlags::keep_right() | ClipRectFlags::keep_bottom()
        ),
        Rectangle::new(Position::new(-2, -1), Dimensions::new(3, 2))
    );

    // Resizing on the left and bottom.
    let rect = Rectangle::new(Position::new(0, -2), Dimensions::new(1, 1));
    assert_eq!(
        rect.clamp(
            min_dimensions,
            ClipRectFlags::keep_right() | ClipRectFlags::keep_top()
        ),
        Rectangle::new(Position::new(-2, -2), Dimensions::new(3, 2))
    );

    // Resizing on the right and bottom.
    let rect = Rectangle::new(Position::new(-3, -2), Dimensions::new(1, 1));
    assert_eq!(
        rect.clamp(
            min_dimensions,
            ClipRectFlags::keep_left() | ClipRectFlags::keep_top()
        ),
        Rectangle::new(Position::new(-3, -2), Dimensions::new(3, 2))
    );

    // Resizing on the right and top.
    let rect = Rectangle::new(Position::new(-3, 0), Dimensions::new(1, 1));
    assert_eq!(
        rect.clamp(
            min_dimensions,
            ClipRectFlags::keep_left() | ClipRectFlags::keep_bottom()
        ),
        Rectangle::new(Position::new(-3, -1), Dimensions::new(3, 2))
    );
}
