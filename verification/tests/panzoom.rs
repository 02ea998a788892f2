use rgraph_core::types::panzoom::PanOnDrag;
use rgraph_core::xypanzoom::eventhandler::{
    finish_pan_scroll, pan_on_scroll_step, zoom_on_scroll_step, PanOnScrollResult,
    ZoomOnScrollResult,
};
use rgraph_core::xypanzoom::filter::{
    create_filter, decide, CreateFilterParams, FilterDecision, FilterEvent, FilterEventKind,
};
use rgraph_core::xypanzoom::utils::{is_right_click_pan, is_wrapped_with_class};

fn defaults() -> CreateFilterParams {
    CreateFilterParams {
        zoom_activation_key_pressed: false,
        zoom_on_scroll: true,
        zoom_on_pinch: true,
        pan_on_drag: PanOnDrag::On,
        pan_on_scroll: false,
        zoom_on_double_click: true,
        user_selection_active: false,
        no_wheel_class_name: "nowheel".into(),
        no_pan_class_name: "nopan".into(),
        lib: "react".into(),
        connection_in_progress: false,
    }
}

fn evt(kind: FilterEventKind, button: u8, ancestors: &[String]) -> FilterEvent<'_> {
    FilterEvent { kind, button, ctrl_key: false, touches_len: 0, ancestor_classes: ancestors }
}

#[test]
fn defaults_accept_wheel_and_left_click() {
    let f = create_filter(defaults());
    assert_eq!(f(&evt(FilterEventKind::Wheel, 0, &[])), FilterDecision::Accept);
    assert_eq!(f(&evt(FilterEventKind::MouseDown, 0, &[])), FilterDecision::Accept);
}

#[test]
fn user_selection_active_rejects_everything() {
    let mut p = defaults();
    p.user_selection_active = true;
    let f = create_filter(p);
    assert_eq!(f(&evt(FilterEventKind::MouseDown, 0, &[])), FilterDecision::Reject);
}

#[test]
fn nowheel_class_blocks_wheel() {
    let f = create_filter(defaults());
    let ancestors = vec!["nowheel".into()];
    assert_eq!(f(&evt(FilterEventKind::Wheel, 0, &ancestors)), FilterDecision::Reject);
    assert_eq!(f(&evt(FilterEventKind::MouseDown, 0, &ancestors)), FilterDecision::Accept);
}

#[test]
fn nopan_blocks_mousedown() {
    let f = create_filter(defaults());
    let ancestors = vec!["nopan".into()];
    assert_eq!(f(&evt(FilterEventKind::MouseDown, 0, &ancestors)), FilterDecision::Reject);
}

#[test]
fn pan_on_drag_off_blocks_mousedown() {
    let mut p = defaults();
    p.pan_on_drag = PanOnDrag::Off;
    p.zoom_on_scroll = true;
    let f = create_filter(p);
    assert_eq!(f(&evt(FilterEventKind::MouseDown, 0, &[])), FilterDecision::Reject);
}

#[test]
fn middle_click_on_node_passes() {
    let f = create_filter(defaults());
    let ancestors = vec!["react-flow__node".into()];
    assert_eq!(f(&evt(FilterEventKind::MouseDown, 1, &ancestors)), FilterDecision::Accept);
}

#[test]
fn ctrl_pinch_touchstart_with_pinch_disabled_prevents_default() {
    let mut p = defaults();
    p.zoom_on_pinch = false;
    let f = create_filter(p);
    let mut e = evt(FilterEventKind::TouchStart, 0, &[]);
    e.touches_len = 2;
    assert_eq!(f(&e), FilterDecision::RejectAndPreventDefault);
}

#[test]
fn pan_on_drag_buttons_filters_buttons() {
    let mut p = defaults();
    p.pan_on_drag = PanOnDrag::Buttons(vec![0, 2]);
    let f = create_filter(p);
    assert_eq!(f(&evt(FilterEventKind::MouseDown, 0, &[])), FilterDecision::Accept);
    assert_eq!(f(&evt(FilterEventKind::MouseDown, 1, &[])), FilterDecision::Reject);
    assert_eq!(f(&evt(FilterEventKind::MouseDown, 2, &[])), FilterDecision::Accept);
}

#[test]
fn connection_in_progress_blocks_non_wheel() {
    let mut p = defaults();
    p.connection_in_progress = true;
    let f = create_filter(p);
    assert_eq!(f(&evt(FilterEventKind::MouseDown, 0, &[])), FilterDecision::Reject);
    assert_eq!(f(&evt(FilterEventKind::Wheel, 0, &[])), FilterDecision::Accept);
}

#[test]
fn ctrl_wheel_with_pinch_disabled_rejected() {
    let mut p = defaults();
    p.zoom_on_pinch = false;
    let f = create_filter(p);
    let mut e = evt(FilterEventKind::Wheel, 0, &[]);
    e.ctrl_key = true;
    assert_eq!(f(&e), FilterDecision::Reject);
}

#[test]
fn right_click_pan_only_when_button_listed() {
    assert!(!is_right_click_pan(&PanOnDrag::On, 2));
    assert!(!is_right_click_pan(&PanOnDrag::Off, 2));
    assert!(!is_right_click_pan(&PanOnDrag::Buttons(vec![0, 1]), 2));
    assert!(is_right_click_pan(&PanOnDrag::Buttons(vec![0, 2]), 2));
    assert!(!is_right_click_pan(&PanOnDrag::Buttons(vec![0, 2]), 1));
}

#[test]
fn is_wrapped_with_class_finds_match() {
    let ancestors = vec!["nodrag".to_string(), "react-flow__pane".to_string()];
    assert!(is_wrapped_with_class(&ancestors, "nodrag"));
    assert!(!is_wrapped_with_class(&ancestors, "missing"));
    assert!(!is_wrapped_with_class(&ancestors, ""));
}

#[test]
fn finish_pan_scroll_resets_flag() {
    let mut flag = true;
    assert!(finish_pan_scroll(&mut flag));
    assert!(!flag);
    assert!(!finish_pan_scroll(&mut flag));
}

#[test]
fn middle_click_on_edge_passes_even_during_selection() {
    let mut p = defaults();
    p.user_selection_active = true;
    p.lib = "svelte".into();
    let ancestors = vec!["svelte-flow__edge".into()];
    assert_eq!(decide(&p, &evt(FilterEventKind::MouseDown, 1, &ancestors)), FilterDecision::Accept);
    let other_lib = vec!["react-flow__edge".into()];
    assert_eq!(decide(&p, &evt(FilterEventKind::MouseDown, 1, &other_lib)), FilterDecision::Reject);
}

#[test]
fn everything_off_rejects() {
    let mut p = defaults();
    p.pan_on_drag = PanOnDrag::Off;
    p.zoom_on_scroll = false;
    p.zoom_on_pinch = false;
    p.zoom_on_double_click = false;
    assert_eq!(decide(&p, &evt(FilterEventKind::Wheel, 0, &[])), FilterDecision::Reject);
}

#[test]
fn ctrl_mousedown_rejected_but_ctrl_wheel_pinches() {
    let f = create_filter(defaults());
    let mut down = evt(FilterEventKind::MouseDown, 0, &[]);
    down.ctrl_key = true;
    assert_eq!(f(&down), FilterDecision::Reject);
    let mut wheel = evt(FilterEventKind::Wheel, 0, &[]);
    wheel.ctrl_key = true;
    assert_eq!(f(&wheel), FilterDecision::Accept);
}

#[test]
fn wheel_without_scroll_zoom_needs_pan_on_scroll() {
    let mut p = defaults();
    p.zoom_on_scroll = false;
    assert_eq!(decide(&p, &evt(FilterEventKind::Wheel, 0, &[])), FilterDecision::Reject);
    p.pan_on_scroll = true;
    assert_eq!(decide(&p, &evt(FilterEventKind::Wheel, 0, &[])), FilterDecision::Accept);
    let nopan = vec!["nopan".into()];
    assert_eq!(decide(&p, &evt(FilterEventKind::Wheel, 0, &nopan)), FilterDecision::Reject);
}

#[test]
fn right_button_rejected_by_default() {
    let f = create_filter(defaults());
    assert_eq!(f(&evt(FilterEventKind::MouseDown, 2, &[])), FilterDecision::Reject);
}

#[test]
fn pan_scroll_start_fires_once_per_sequence() {
    let mut scrolling = false;
    let none: Vec<String> = vec![];
    assert_eq!(
        pan_on_scroll_step(&mut scrolling, "nowheel", false, true, &none),
        PanOnScrollResult::Panned { start_callback_fired: true }
    );
    assert!(scrolling);
    assert_eq!(
        pan_on_scroll_step(&mut scrolling, "nowheel", false, true, &none),
        PanOnScrollResult::Panned { start_callback_fired: false }
    );
    assert!(finish_pan_scroll(&mut scrolling));
    assert_eq!(
        pan_on_scroll_step(&mut scrolling, "nowheel", false, true, &none),
        PanOnScrollResult::Panned { start_callback_fired: true }
    );
}

#[test]
fn pan_on_scroll_respects_no_wheel_and_pinch() {
    let mut scrolling = false;
    let inside = vec!["nowheel".to_string()];
    assert_eq!(pan_on_scroll_step(&mut scrolling, "nowheel", false, true, &inside), PanOnScrollResult::Ignored);
    assert_eq!(
        pan_on_scroll_step(&mut scrolling, "nowheel", true, true, &inside),
        PanOnScrollResult::PreventDefaultOnly
    );
    assert_eq!(pan_on_scroll_step(&mut scrolling, "nowheel", true, true, &[]), PanOnScrollResult::Pinched);
    assert!(!scrolling);
}

#[test]
fn zoom_on_scroll_paths() {
    let inside = vec!["nowheel".to_string()];
    assert_eq!(zoom_on_scroll_step("nowheel", true, false, &[]), ZoomOnScrollResult::Zoomed);
    assert_eq!(zoom_on_scroll_step("nowheel", true, true, &inside), ZoomOnScrollResult::PreventDefaultOnly);
    assert_eq!(zoom_on_scroll_step("nowheel", true, false, &inside), ZoomOnScrollResult::Ignored);
    assert_eq!(zoom_on_scroll_step("nowheel", false, false, &[]), ZoomOnScrollResult::Ignored);
    assert_eq!(zoom_on_scroll_step("nowheel", false, true, &[]), ZoomOnScrollResult::Zoomed);
}

use rgraph_core::xypanzoom::eventhandler::{
    pan_zoom_end_step, pan_zoom_start_step, pan_zoom_step, PanZoomEndTiming, ZoomPanFlags,
};

#[test]
fn right_click_without_pan_opens_context_menu() {
    let buttons = PanOnDrag::Buttons(vec![0, 2]);
    let mut flags = ZoomPanFlags::default();
    pan_zoom_start_step(&mut flags, 2);
    assert!(flags.is_zooming_or_panning);
    assert_eq!(flags.mouse_button, 2);
    let end = pan_zoom_end_step(&mut flags, &buttons, false, true, true);
    assert!(end.open_context_menu);
    assert_eq!(end.timing, PanZoomEndTiming::Now);
    assert!(!flags.is_zooming_or_panning);
}

#[test]
fn right_click_pan_opens_no_context_menu() {
    let buttons = PanOnDrag::Buttons(vec![0, 2]);
    let mut flags = ZoomPanFlags::default();
    pan_zoom_start_step(&mut flags, 2);
    pan_zoom_step(&mut flags, &buttons, true);
    assert!(flags.used_right_mouse_button);
    let end = pan_zoom_end_step(&mut flags, &buttons, true, true, true);
    assert!(!end.open_context_menu);
    assert_eq!(end.timing, PanZoomEndTiming::Deferred);
    assert!(!flags.used_right_mouse_button);
}

#[test]
fn end_without_callback_reports_none() {
    let mut flags = ZoomPanFlags::default();
    pan_zoom_start_step(&mut flags, 0);
    let end = pan_zoom_end_step(&mut flags, &PanOnDrag::On, false, true, false);
    assert!(!end.open_context_menu);
    assert_eq!(end.timing, PanZoomEndTiming::NoCallback);
}

#[test]
fn listed_buttons_still_let_primary_wheel_through() {
    let mut p = defaults();
    p.pan_on_drag = PanOnDrag::Buttons(vec![2]);
    let f = create_filter(p);
    assert_eq!(f(&evt(FilterEventKind::Wheel, 0, &[])), FilterDecision::Accept);
    assert_eq!(f(&evt(FilterEventKind::MouseDown, 0, &[])), FilterDecision::Reject);
    assert_eq!(f(&evt(FilterEventKind::MouseDown, 2, &[])), FilterDecision::Accept);
    assert_eq!(f(&evt(FilterEventKind::TouchStart, 0, &[])), FilterDecision::Accept);
}
