//! The pan/zoom event filter: for each browser event, whether it may
//! reach the zoom engine.
//!
//! The event is described by plain values filled in by the caller; the
//! DOM lookup `target.closest('.class')` becomes a list of the class
//! names of the target and its ancestors. The touch case that must call
//! `preventDefault()` is reported as its own decision.

use vstd::prelude::*;
use vstd::string::*;
use crate::types::panzoom::PanOnDrag;
use crate::xypanzoom::utils::{buttons_contain, is_wrapped_with_class, wrapped_with};

verus! {

/// Kind of the browser event being filtered.
#[derive(Debug, Clone, Copy, PartialEq, Eq, Hash, Structural)]
pub enum FilterEventKind {
    Wheel,
    MouseDown,
    TouchStart,
    /// Any other event.
    Other,
}

/// A browser event as the filter sees it.
#[derive(Debug, Clone)]
pub struct FilterEvent<'a> {
    pub kind: FilterEventKind,
    /// `MouseEvent.button`: 0 primary, 1 middle, 2 right.
    pub button: u8,
    pub ctrl_key: bool,
    /// Number of active touches (touchstart).
    pub touches_len: u32,
    /// Class names of the event target and each of its ancestors.
    pub ancestor_classes: &'a [String],
}

/// Decision of the filter.
#[derive(Debug, Clone, Copy, PartialEq, Eq, Structural)]
pub enum FilterDecision {
    /// The event goes on to the zoom engine.
    Accept,
    /// The event is dropped.
    Reject,
    /// The event is dropped and the caller calls `preventDefault()` on it
    /// (multi-touch start while pinch zoom is off).
    RejectAndPreventDefault,
}

/// Configuration of the filter.
#[derive(Debug, Clone)]
pub struct CreateFilterParams {
    pub zoom_activation_key_pressed: bool,
    pub zoom_on_scroll: bool,
    pub zoom_on_pinch: bool,
    pub pan_on_drag: PanOnDrag,
    pub pan_on_scroll: bool,
    pub zoom_on_double_click: bool,
    pub user_selection_active: bool,
    pub no_wheel_class_name: String,
    pub no_pan_class_name: String,
    pub lib: String,
    pub connection_in_progress: bool,
}

/// Class name of a node element of the library `lib`.
pub open spec fn node_class(lib: Seq<char>) -> Seq<char> {
    lib + "-flow__node"@
}

/// Class name of an edge element of the library `lib`.
pub open spec fn edge_class(lib: Seq<char>) -> Seq<char> {
    lib + "-flow__edge"@
}

/// A middle-button press on a node or an edge: always let through, so
/// that the pane can be dragged from there.
pub open spec fn middle_click_on_element(p: CreateFilterParams, e: FilterEvent) -> bool {
    &&& e.button == 1
    &&& e.kind == FilterEventKind::MouseDown
    &&& (wrapped_with(e.ancestor_classes@, node_class(p.lib@))
        || wrapped_with(e.ancestor_classes@, edge_class(p.lib@)))
}

/// `true` when some pan or zoom interaction is switched on at all.
pub open spec fn any_interaction(p: CreateFilterParams) -> bool {
    ||| !(p.pan_on_drag is Off)
    ||| p.zoom_activation_key_pressed
    ||| p.zoom_on_scroll
    ||| p.pan_on_scroll
    ||| p.zoom_on_double_click
    ||| p.zoom_on_pinch
}

/// `true` when a button passes the final gate: the primary or middle
/// button, or one listed for panning.
pub open spec fn button_allowed(p: CreateFilterParams, button: u8) -> bool {
    match p.pan_on_drag {
        PanOnDrag::Buttons(b) => b@.contains(button) || button <= 1,
        _ => button <= 1,
    }
}

/// `true` when a mouse press may pan: a listed button when the
/// configuration lists buttons.
pub open spec fn button_listed(p: CreateFilterParams, button: u8) -> bool {
    match p.pan_on_drag {
        PanOnDrag::Buttons(b) => b@.contains(button),
        _ => true,
    }
}

/// The filter's decision, rule by rule: the first rule that applies
/// decides.
pub open spec fn filter_decision(p: CreateFilterParams, e: FilterEvent) -> FilterDecision {
    let zoom_scroll = p.zoom_activation_key_pressed || p.zoom_on_scroll;
    let pinch_zoom = p.zoom_on_pinch && e.ctrl_key;
    let is_wheel = e.kind == FilterEventKind::Wheel;
    let classes = e.ancestor_classes@;
    if middle_click_on_element(p, e) {
        FilterDecision::Accept
    } else if !any_interaction(p) {
        FilterDecision::Reject
    } else if p.user_selection_active {
        FilterDecision::Reject
    } else if p.connection_in_progress && !is_wheel {
        FilterDecision::Reject
    } else if is_wheel && wrapped_with(classes, p.no_wheel_class_name@) {
        FilterDecision::Reject
    } else if wrapped_with(classes, p.no_pan_class_name@) && (!is_wheel || (p.pan_on_scroll
        && !p.zoom_activation_key_pressed)) {
        FilterDecision::Reject
    } else if !p.zoom_on_pinch && e.ctrl_key && is_wheel {
        FilterDecision::Reject
    } else if !p.zoom_on_pinch && e.kind == FilterEventKind::TouchStart && e.touches_len > 1 {
        FilterDecision::RejectAndPreventDefault
    } else if !zoom_scroll && !p.pan_on_scroll && !pinch_zoom && is_wheel {
        FilterDecision::Reject
    } else if (p.pan_on_drag is Off) && (e.kind == FilterEventKind::MouseDown || e.kind
        == FilterEventKind::TouchStart) {
        FilterDecision::Reject
    } else if e.kind == FilterEventKind::MouseDown && !button_listed(p, e.button) {
        FilterDecision::Reject
    } else if (!e.ctrl_key || is_wheel) && button_allowed(p, e.button) {
        FilterDecision::Accept
    } else {
        FilterDecision::Reject
    }
}

fn listed_button(pan_on_drag: &PanOnDrag, button: u8) -> (r: bool)
    ensures
        r == match *pan_on_drag {
            PanOnDrag::Buttons(b) => b@.contains(button),
            _ => true,
        },
{
    match pan_on_drag {
        PanOnDrag::Buttons(b) => buttons_contain(b, button),
        _ => true,
    }
}

/// Decide one event under the configuration `params`.
pub fn decide(params: &CreateFilterParams, event: &FilterEvent) -> (d: FilterDecision)
    ensures
        d == filter_decision(*params, *event),
        (params.pan_on_drag is Off) && (event.kind == FilterEventKind::MouseDown || event.kind
            == FilterEventKind::TouchStart) && !middle_click_on_element(*params, *event) ==> d
            != FilterDecision::Accept,
{
    let zoom_scroll = params.zoom_activation_key_pressed || params.zoom_on_scroll;
    let pinch_zoom = params.zoom_on_pinch && event.ctrl_key;
    let is_wheel = event.kind == FilterEventKind::Wheel;
    let classes = event.ancestor_classes;
    if event.button == 1 && event.kind == FilterEventKind::MouseDown {
        let mut node = params.lib.clone();
        node.append("-flow__node");
        let mut edge = params.lib.clone();
        edge.append("-flow__edge");
        if is_wrapped_with_class(classes, node.as_str()) || is_wrapped_with_class(
            classes,
            edge.as_str(),
        ) {
            return FilterDecision::Accept;
        }
    }
    let pan_off = match params.pan_on_drag {
        PanOnDrag::Off => true,
        _ => false,
    };
    let pan_buttons = match params.pan_on_drag {
        PanOnDrag::Buttons(_) => true,
        _ => false,
    };
    let any_pan_or_zoom = !pan_off || zoom_scroll || params.pan_on_scroll
        || params.zoom_on_double_click || params.zoom_on_pinch;
    if !any_pan_or_zoom {
        return FilterDecision::Reject;
    }
    if params.user_selection_active {
        return FilterDecision::Reject;
    }
    if params.connection_in_progress && !is_wheel {
        return FilterDecision::Reject;
    }
    if is_wheel && is_wrapped_with_class(classes, params.no_wheel_class_name.as_str()) {
        return FilterDecision::Reject;
    }
    if is_wrapped_with_class(classes, params.no_pan_class_name.as_str()) && (!is_wheel || (
    params.pan_on_scroll && !params.zoom_activation_key_pressed)) {
        return FilterDecision::Reject;
    }
    if !params.zoom_on_pinch && event.ctrl_key && is_wheel {
        return FilterDecision::Reject;
    }
    if !params.zoom_on_pinch && event.kind == FilterEventKind::TouchStart && event.touches_len > 1 {
        return FilterDecision::RejectAndPreventDefault;
    }
    if !zoom_scroll && !params.pan_on_scroll && !pinch_zoom && is_wheel {
        return FilterDecision::Reject;
    }
    if pan_off && (event.kind == FilterEventKind::MouseDown || event.kind
        == FilterEventKind::TouchStart) {
        return FilterDecision::Reject;
    }
    let listed = listed_button(&params.pan_on_drag, event.button);
    if pan_buttons && event.kind == FilterEventKind::MouseDown && !listed {
        return FilterDecision::Reject;
    }
    let allowed = if pan_buttons {
        listed || event.button <= 1
    } else {
        event.button <= 1
    };
    if (!event.ctrl_key || is_wheel) && allowed {
        FilterDecision::Accept
    } else {
        FilterDecision::Reject
    }
}

/// Build the filter for `params`: a function from an event to the
/// decision that `decide` gives under `params`.
pub fn create_filter(params: CreateFilterParams) -> (f: impl Fn(&FilterEvent) -> FilterDecision)
    ensures
        forall|e: &FilterEvent| f.requires((e,)),
        forall|e: &FilterEvent, d: FilterDecision|
            f.ensures((e,), d) ==> d == filter_decision(params, *e),
{
    move |event: &FilterEvent| -> (d: FilterDecision)
        ensures
            d == filter_decision(params, *event),
        { decide(&params, event) }
}

/// While a selection is being drawn every event is rejected, except the
/// middle-button press on a node or an edge.
pub proof fn lemma_selection_blocks_all(p: CreateFilterParams, e: FilterEvent)
    requires
        p.user_selection_active,
        !middle_click_on_element(p, e),
    ensures
        filter_decision(p, e) == FilterDecision::Reject,
{
}

/// While a connection is being drawn every event but a wheel is
/// rejected, except the middle-button press on a node or an edge.
pub proof fn lemma_connection_blocks_non_wheel(p: CreateFilterParams, e: FilterEvent)
    requires
        p.connection_in_progress,
        e.kind != FilterEventKind::Wheel,
        !middle_click_on_element(p, e),
    ensures
        filter_decision(p, e) == FilterDecision::Reject,
{
}

/// A middle-button press on a node or an edge is always let through.
pub proof fn lemma_middle_click_on_element_accepted(p: CreateFilterParams, e: FilterEvent)
    requires
        middle_click_on_element(p, e),
    ensures
        filter_decision(p, e) == FilterDecision::Accept,
{
}

/// A wheel event inside a `.nowheel` element never reaches the engine.
pub proof fn lemma_no_wheel_blocks_wheel(p: CreateFilterParams, e: FilterEvent)
    requires
        e.kind == FilterEventKind::Wheel,
        wrapped_with(e.ancestor_classes@, p.no_wheel_class_name@),
    ensures
        filter_decision(p, e) == FilterDecision::Reject,
{
}

/// The caller is asked to prevent the default action only for a
/// multi-touch start while pinch zoom is off.
pub proof fn lemma_prevent_default_only_for_multi_touch(p: CreateFilterParams, e: FilterEvent)
    requires
        filter_decision(p, e) == FilterDecision::RejectAndPreventDefault,
    ensures
        e.kind == FilterEventKind::TouchStart,
        e.touches_len > 1,
        !p.zoom_on_pinch,
{
}

/// An accepted event other than the middle-button press on an element
/// pressed an allowed button, and is a wheel or was made without ctrl.
pub proof fn lemma_accepted_button_allowed(p: CreateFilterParams, e: FilterEvent)
    requires
        filter_decision(p, e) == FilterDecision::Accept,
        !middle_click_on_element(p, e),
    ensures
        button_allowed(p, e.button),
        !e.ctrl_key || e.kind == FilterEventKind::Wheel,
        any_interaction(p),
        !p.user_selection_active,
{
}

/// A pane that cannot be dragged lets no press through: with panning by
/// drag switched off, no mouse-down or touch-start is accepted, except
/// the middle-button press on a node or an edge.
pub proof fn lemma_pan_off_blocks_presses(p: CreateFilterParams, e: FilterEvent)
    requires
        p.pan_on_drag is Off,
        e.kind == FilterEventKind::MouseDown || e.kind == FilterEventKind::TouchStart,
        !middle_click_on_element(p, e),
    ensures
        filter_decision(p, e) != FilterDecision::Accept,
{
}

} // verus!
