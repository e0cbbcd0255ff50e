use floating::Align;
use floating::Coord;
use floating::FloatingOptions;
use floating::FloatingPosition;
use floating::FloatingX;
use floating::FloatingY;
use floating::Side;
use floating::calculate_position_from_rect;

#[test]
fn floating_options_default_values() {
    let options = FloatingOptions::default();
    assert_eq!(options.side, Side::Bottom);
    assert_eq!(options.align, Align::Start);
    assert_eq!(options.side_offset, 0);
    assert_eq!(options.align_offset, 0);
}

#[test]
fn floating_options_custom_values() {
    let options = FloatingOptions {
        side: Side::Top,
        align: Align::Center,
        side_offset: 8,
        align_offset: 4,
    };
    assert_eq!(options.side, Side::Top);
    assert_eq!(options.align, Align::Center);
    assert_eq!(options.side_offset, 8);
    assert_eq!(options.align_offset, 4);
}

#[test]
fn side_enum_all_variants() {
    assert_eq!(format!("{:?}", Side::Top), "Top");
    assert_eq!(format!("{:?}", Side::Right), "Right");
    assert_eq!(format!("{:?}", Side::Bottom), "Bottom");
    assert_eq!(format!("{:?}", Side::Left), "Left");

    assert_eq!(Side::Top, Side::Top);
    assert_ne!(Side::Top, Side::Bottom);
}

#[test]
fn align_enum_all_variants() {
    assert_eq!(format!("{:?}", Align::Start), "Start");
    assert_eq!(format!("{:?}", Align::Center), "Center");
    assert_eq!(format!("{:?}", Align::End), "End");

    assert_eq!(Align::Start, Align::Start);
    assert_ne!(Align::Start, Align::Center);
}

#[test]
fn floating_options_clone_trait() {
    let original = FloatingOptions {
        side: Side::Right,
        align: Align::End,
        side_offset: 10,
        align_offset: 5,
    };

    let cloned = original.clone();
    assert_eq!(cloned.side, original.side);
    assert_eq!(cloned.align, original.align);
    assert_eq!(cloned.side_offset, original.side_offset);
    assert_eq!(cloned.align_offset, original.align_offset);
}

#[test]
fn floating_position_structure() {
    let position = FloatingPosition {
        x: Coord::from_px(100),
        y: Coord::from_px(200),
        side: Side::Bottom,
        align: Align::Center,
    };

    assert_eq!(position.x, Coord::from_px(100));
    assert_eq!(position.y, Coord::from_px(200));
    assert_eq!(position.side, Side::Bottom);
    assert_eq!(position.align, Align::Center);
}

#[test]
fn floating_x_default_is_zero() {
    assert_eq!(Coord::from(FloatingX::default()), Coord::from_px(0));
}

#[test]
fn floating_y_default_is_zero() {
    assert_eq!(Coord::from(FloatingY::default()), Coord::from_px(0));
}

#[test]
fn floating_options_builder_pattern() {
    let options = FloatingOptions {
        side: Side::Top,
        align: Align::End,
        side_offset: 16,
        ..Default::default()
    };

    assert_eq!(options.side, Side::Top);
    assert_eq!(options.align, Align::End);
    assert_eq!(options.side_offset, 16);
    assert_eq!(options.align_offset, 0);
}

#[test]
fn side_enum_exhaustive_match() {
    let test_side = Side::Bottom;
    let result = match test_side {
        Side::Top => "top",
        Side::Right => "right",
        Side::Bottom => "bottom",
        Side::Left => "left",
    };
    assert_eq!(result, "bottom");
}

#[test]
fn align_enum_exhaustive_match() {
    let test_align = Align::Center;
    let result = match test_align {
        Align::Start => "start",
        Align::Center => "center",
        Align::End => "end",
    };
    assert_eq!(result, "center");
}

#[test]
fn floating_options_negative_offsets() {
    let options = FloatingOptions {
        side: Side::Bottom,
        align: Align::Start,
        side_offset: -5,
        align_offset: -10,
    };

    assert_eq!(options.side_offset, -5);
    assert_eq!(options.align_offset, -10);
}

#[test]
fn floating_options_zero_offsets() {
    let options = FloatingOptions {
        side: Side::Top,
        align: Align::Start,
        side_offset: 0,
        align_offset: 0,
    };

    assert_eq!(options.side_offset, 0);
    assert_eq!(options.align_offset, 0);
}

#[test]
fn floating_position_clone() {
    let original = FloatingPosition {
        x: Coord::from_px(150),
        y: Coord::from_px(250),
        side: Side::Right,
        align: Align::End,
    };

    let cloned = original.clone();
    assert_eq!(cloned.x, original.x);
    assert_eq!(cloned.y, original.y);
    assert_eq!(cloned.side, original.side);
    assert_eq!(cloned.align, original.align);
}

#[test]
fn calculate_position_bottom_side() {
    let options = FloatingOptions {
        side: Side::Bottom,
        align: Align::Start,
        side_offset: 4,
        align_offset: 0,
    };

    let position = calculate_position_from_rect(100, 200, 120, 40, 80, 30, options).unwrap();

    assert_eq!(position.x, Coord::from_px(100));
    assert_eq!(position.y, Coord::from_px(244));
    assert_eq!(position.side, Side::Bottom);
    assert_eq!(position.align, Align::Start);
}

#[test]
fn calculate_position_top_side() {
    let options = FloatingOptions {
        side: Side::Top,
        align: Align::Start,
        side_offset: 8,
        align_offset: 0,
    };

    let position = calculate_position_from_rect(100, 200, 120, 40, 80, 30, options).unwrap();

    assert_eq!(position.x, Coord::from_px(100));
    assert_eq!(position.y, Coord::from_px(192));
    assert_eq!(position.side, Side::Top);
}

#[test]
fn calculate_position_right_side() {
    let options = FloatingOptions {
        side: Side::Right,
        align: Align::Start,
        side_offset: 12,
        align_offset: 0,
    };

    let position = calculate_position_from_rect(100, 200, 120, 40, 80, 30, options).unwrap();

    assert_eq!(position.x, Coord::from_px(232));
    assert_eq!(position.y, Coord::from_px(200));
    assert_eq!(position.side, Side::Right);
}

#[test]
fn calculate_position_left_side() {
    let options = FloatingOptions {
        side: Side::Left,
        align: Align::Start,
        side_offset: 6,
        align_offset: 0,
    };

    let position = calculate_position_from_rect(100, 200, 120, 40, 80, 30, options).unwrap();

    assert_eq!(position.x, Coord::from_px(94));
    assert_eq!(position.y, Coord::from_px(200));
    assert_eq!(position.side, Side::Left);
}

#[test]
fn calculate_position_zero_offset() {
    let options = FloatingOptions {
        side: Side::Bottom,
        align: Align::Start,
        side_offset: 0,
        align_offset: 0,
    };

    let position = calculate_position_from_rect(100, 200, 120, 40, 80, 30, options).unwrap();

    assert_eq!(position.x, Coord::from_px(100));
    assert_eq!(position.y, Coord::from_px(240));
}

#[test]
fn calculate_position_negative_offset() {
    let options = FloatingOptions {
        side: Side::Top,
        align: Align::Start,
        side_offset: -10,
        align_offset: 0,
    };

    let position = calculate_position_from_rect(100, 200, 120, 40, 80, 30, options).unwrap();

    assert_eq!(position.x, Coord::from_px(100));
    assert_eq!(position.y, Coord::from_px(210));
}

#[test]
fn calculate_position_large_offset() {
    let options = FloatingOptions {
        side: Side::Right,
        align: Align::Start,
        side_offset: 1000,
        align_offset: 0,
    };

    let position = calculate_position_from_rect(100, 200, 120, 40, 80, 30, options).unwrap();

    assert_eq!(position.x, Coord::from_px(1220));
    assert_eq!(position.y, Coord::from_px(200));
}
