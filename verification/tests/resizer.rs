use rgraph_core::xyresizer::types::{
    ControlPosition, ResizeDirection, XY_RESIZER_HANDLE_POSITIONS, XY_RESIZER_LINE_POSITIONS,
};
use rgraph_core::xyresizer::utils::{get_control_direction, xor};

#[test]
fn control_position_directions() {
    let d = get_control_direction(ControlPosition::BottomRight);
    assert!(d.is_horizontal);
    assert!(d.is_vertical);
    assert!(!d.affects_x);
    assert!(!d.affects_y);

    let d = get_control_direction(ControlPosition::TopLeft);
    assert!(d.is_horizontal);
    assert!(d.is_vertical);
    assert!(d.affects_x);
    assert!(d.affects_y);

    let d = get_control_direction(ControlPosition::Right);
    assert!(d.is_horizontal);
    assert!(!d.is_vertical);

    let d = get_control_direction(ControlPosition::Top);
    assert!(!d.is_horizontal);
    assert!(d.is_vertical);
    assert!(d.affects_y);
}

#[test]
fn every_corner_changes_both_dimensions() {
    for c in XY_RESIZER_HANDLE_POSITIONS {
        assert!(c.is_horizontal() && c.is_vertical());
    }
    for c in XY_RESIZER_LINE_POSITIONS {
        assert!(c.is_horizontal() != c.is_vertical());
    }
}

#[test]
fn moving_edges_imply_changing_dimensions() {
    let all = [
        ControlPosition::Top,
        ControlPosition::Bottom,
        ControlPosition::Left,
        ControlPosition::Right,
        ControlPosition::TopLeft,
        ControlPosition::TopRight,
        ControlPosition::BottomLeft,
        ControlPosition::BottomRight,
    ];
    for c in all {
        assert!(!c.affects_x() || c.is_horizontal());
        assert!(!c.affects_y() || c.is_vertical());
    }
    assert!(ControlPosition::BottomLeft.affects_x());
    assert!(!ControlPosition::BottomLeft.affects_y());
}

#[test]
fn resize_direction_array_and_default() {
    assert_eq!(ResizeDirection { x: -1, y: 1 }.as_array(), [-1, 1]);
    assert_eq!(ResizeDirection::default(), ResizeDirection { x: 0, y: 0 });
}

#[test]
fn xor_truth_table() {
    assert!(!xor(false, false));
    assert!(xor(true, false));
    assert!(xor(false, true));
    assert!(!xor(true, true));
}
