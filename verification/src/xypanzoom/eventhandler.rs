//! Decisions of the wheel handlers: whether a wheel event is ignored,
//! only has its default prevented, pinch-zooms, pans or zooms. The
//! arithmetic on the deltas and the calls into the zoom engine are made
//! by the caller once the outcome is known.

use vstd::prelude::*;
use crate::types::panzoom::PanOnDrag;
use crate::xypanzoom::utils::{is_right_click_pan, is_wrapped_with_class, lists_button, wrapped_with};

verus! {

/// Outcome of one pan-on-scroll wheel event.
#[derive(Debug, Clone, PartialEq, Eq, Structural)]
pub enum PanOnScrollResult {
    /// Only `preventDefault()`: a pinch above a `.nowheel` element, so
    /// the browser's own page zoom is suppressed.
    PreventDefaultOnly,
    /// Wheel inside `.nowheel` without ctrl: nothing to do.
    Ignored,
    /// Trackpad pinch consumed the wheel as a zoom.
    Pinched,
    /// The wheel pans the viewport; `start_callback_fired` is `true` on
    /// the first wheel of a pan-scroll sequence.
    Panned { start_callback_fired: bool },
}

/// Outcome of one zoom-on-scroll wheel event.
#[derive(Debug, Clone, PartialEq, Eq, Structural)]
pub enum ZoomOnScrollResult {
    /// Caller does nothing.
    Ignored,
    /// Caller calls `preventDefault()` only (pinch above `.nowheel`).
    PreventDefaultOnly,
    /// The wheel goes to the zoom engine; caller calls `preventDefault()`.
    Zoomed,
}

/// What the pan-on-scroll handler does with a wheel event, given whether
/// a pan-scroll sequence is already running.
pub open spec fn pan_on_scroll_outcome(
    in_no_wheel: bool,
    ctrl_key: bool,
    zoom_on_pinch: bool,
    was_pan_scrolling: bool,
) -> PanOnScrollResult {
    if in_no_wheel {
        if ctrl_key {
            PanOnScrollResult::PreventDefaultOnly
        } else {
            PanOnScrollResult::Ignored
        }
    } else if ctrl_key && zoom_on_pinch {
        PanOnScrollResult::Pinched
    } else {
        PanOnScrollResult::Panned { start_callback_fired: !was_pan_scrolling }
    }
}

/// Decide a pan-on-scroll wheel event and advance the pan-scroll flag:
/// a pan starts a sequence (the flag becomes `true`); every other outcome
/// leaves the flag as it was.
pub fn pan_on_scroll_step(
    is_pan_scrolling: &mut bool,
    no_wheel_class_name: &str,
    ctrl_key: bool,
    zoom_on_pinch: bool,
    ancestor_classes: &[String],
) -> (r: PanOnScrollResult)
    ensures
        r == pan_on_scroll_outcome(
            wrapped_with(ancestor_classes@, no_wheel_class_name@),
            ctrl_key,
            zoom_on_pinch,
            *old(is_pan_scrolling),
        ),
        *final(is_pan_scrolling) == (r is Panned || *old(is_pan_scrolling)),
{
    if is_wrapped_with_class(ancestor_classes, no_wheel_class_name) {
        if ctrl_key {
            return PanOnScrollResult::PreventDefaultOnly;
        } else {
            return PanOnScrollResult::Ignored;
        }
    }
    if ctrl_key && zoom_on_pinch {
        return PanOnScrollResult::Pinched;
    }
    let start_fired = !*is_pan_scrolling;
    *is_pan_scrolling = true;
    PanOnScrollResult::Panned { start_callback_fired: start_fired }
}

/// End a pan-scroll sequence (the debounced timer after the last wheel):
/// returns `true`, and clears the flag, exactly when a sequence was
/// running, so the trailing end callback fires once.
pub fn finish_pan_scroll(is_pan_scrolling: &mut bool) -> (fire_end: bool)
    ensures
        fire_end == *old(is_pan_scrolling),
        *final(is_pan_scrolling) == false,
{
    let was = *is_pan_scrolling;
    *is_pan_scrolling = false;
    was
}

/// Start callback fires once per pan-scroll sequence: from an idle flag,
/// a first pan reports the start, a second pan does not, and after the
/// sequence is finished the next pan reports a start again.
pub proof fn lemma_pan_scroll_start_once(ctrl_key: bool, zoom_on_pinch: bool)
    requires
        !(ctrl_key && zoom_on_pinch),
    ensures
        pan_on_scroll_outcome(false, ctrl_key, zoom_on_pinch, false)
            == (PanOnScrollResult::Panned { start_callback_fired: true }),
        pan_on_scroll_outcome(false, ctrl_key, zoom_on_pinch, true)
            == (PanOnScrollResult::Panned { start_callback_fired: false }),
{
}

/// What the zoom-on-scroll handler does with a wheel event.
pub open spec fn zoom_on_scroll_outcome(
    in_no_wheel: bool,
    prevent_scrolling: bool,
    ctrl_key: bool,
) -> ZoomOnScrollResult {
    if ctrl_key && in_no_wheel {
        ZoomOnScrollResult::PreventDefaultOnly
    } else if (!prevent_scrolling && !ctrl_key) || in_no_wheel {
        ZoomOnScrollResult::Ignored
    } else {
        ZoomOnScrollResult::Zoomed
    }
}

/// Decide a zoom-on-scroll wheel event: the `.nowheel` class and the
/// `prevent_scrolling` switch gate it before the zoom engine sees it.
pub fn zoom_on_scroll_step(
    no_wheel_class_name: &str,
    prevent_scrolling: bool,
    ctrl_key: bool,
    ancestor_classes: &[String],
) -> (r: ZoomOnScrollResult)
    ensures
        r == zoom_on_scroll_outcome(
            wrapped_with(ancestor_classes@, no_wheel_class_name@),
            prevent_scrolling,
            ctrl_key,
        ),
{
    let prevent_zoom = !prevent_scrolling && !ctrl_key;
    let has_no_wheel = is_wrapped_with_class(ancestor_classes, no_wheel_class_name);
    if ctrl_key && has_no_wheel {
        return ZoomOnScrollResult::PreventDefaultOnly;
    }
    if prevent_zoom || has_no_wheel {
        return ZoomOnScrollResult::Ignored;
    }
    ZoomOnScrollResult::Zoomed
}

/// The gesture bookkeeping shared by the start, zoom and end handlers
/// (the viewport they also remember is kept by the caller).
#[derive(Debug, Clone, Copy, PartialEq, Eq, Structural)]
pub struct ZoomPanFlags {
    pub is_zooming_or_panning: bool,
    pub used_right_mouse_button: bool,
    pub mouse_button: u8,
    pub is_pan_scrolling: bool,
}

impl Default for ZoomPanFlags {
    fn default() -> (r: ZoomPanFlags)
        ensures
            !r.is_zooming_or_panning,
            !r.used_right_mouse_button,
            r.mouse_button == 0,
            !r.is_pan_scrolling,
    {
        ZoomPanFlags {
            is_zooming_or_panning: false,
            used_right_mouse_button: false,
            mouse_button: 0,
            is_pan_scrolling: false,
        }
    }
}

/// Start of a pan/zoom gesture pressed with `button`: the gesture is in
/// progress and remembers its button.
pub fn pan_zoom_start_step(flags: &mut ZoomPanFlags, button: u8)
    ensures
        *final(flags) == (ZoomPanFlags {
            is_zooming_or_panning: true,
            mouse_button: button,
            ..*old(flags)
        }),
{
    flags.mouse_button = button;
    flags.is_zooming_or_panning = true;
}

/// One tick of a pan/zoom gesture: it counts as a right-button pan when
/// there is a pane context menu and the right button is configured to
/// pan.
pub fn pan_zoom_step(flags: &mut ZoomPanFlags, pan_on_drag: &PanOnDrag, has_pane_context_menu: bool)
    ensures
        *final(flags) == (ZoomPanFlags {
            used_right_mouse_button: has_pane_context_menu && old(flags).mouse_button == 2
                && lists_button(*pan_on_drag, 2),
            ..*old(flags)
        }),
{
    let used_right = has_pane_context_menu && is_right_click_pan(pan_on_drag, flags.mouse_button);
    flags.used_right_mouse_button = used_right;
}

/// When the end callback of a gesture fires.
#[derive(Debug, Clone, Copy, PartialEq, Eq, Structural)]
pub enum PanZoomEndTiming {
    /// There is no end callback.
    NoCallback,
    /// Fire it now.
    Now,
    /// Fire it after the pan-on-scroll debounce delay.
    Deferred,
}

/// What the caller does at the end of a gesture.
#[derive(Debug, Clone, Copy, PartialEq, Eq, Structural)]
pub struct PanZoomEndActions {
    /// Open the pane context menu: the gesture was a right-button press
    /// configured to pan that did not pan.
    pub open_context_menu: bool,
    pub timing: PanZoomEndTiming,
}

/// End of a pan/zoom gesture: the gesture stops, the right-button mark
/// is cleared, and the caller is told whether to open the context menu
/// and when to fire the end callback.
pub fn pan_zoom_end_step(
    flags: &mut ZoomPanFlags,
    pan_on_drag: &PanOnDrag,
    pan_on_scroll: bool,
    has_pane_context_menu: bool,
    has_end_callback: bool,
) -> (r: PanZoomEndActions)
    ensures
        r.open_context_menu == (has_pane_context_menu && old(flags).mouse_button == 2 && lists_button(
            *pan_on_drag,
            2,
        ) && !old(flags).used_right_mouse_button),
        r.timing == (if !has_end_callback {
            PanZoomEndTiming::NoCallback
        } else if pan_on_scroll {
            PanZoomEndTiming::Deferred
        } else {
            PanZoomEndTiming::Now
        }),
        *final(flags) == (ZoomPanFlags {
            is_zooming_or_panning: false,
            used_right_mouse_button: false,
            ..*old(flags)
        }),
{
    let mouse_button = flags.mouse_button;
    let used_right = flags.used_right_mouse_button;
    flags.is_zooming_or_panning = false;
    let open_context_menu = has_pane_context_menu && is_right_click_pan(pan_on_drag, mouse_button)
        && !used_right;
    flags.used_right_mouse_button = false;
    let timing = if !has_end_callback {
        PanZoomEndTiming::NoCallback
    } else if pan_on_scroll {
        PanZoomEndTiming::Deferred
    } else {
        PanZoomEndTiming::Now
    };
    PanZoomEndActions { open_context_menu, timing }
}

/// A right-button gesture that panned does not open the context menu:
/// after a tick has marked it as a right-button pan, its end does not
/// ask for the menu.
pub proof fn lemma_panned_right_click_opens_no_menu(
    started: ZoomPanFlags,
    ticked: ZoomPanFlags,
    pan_on_drag: PanOnDrag,
)
    requires
        ticked == (ZoomPanFlags {
            used_right_mouse_button: started.mouse_button == 2 && lists_button(pan_on_drag, 2),
            ..started
        }),
    ensures
        !(ticked.mouse_button == 2 && lists_button(pan_on_drag, 2)
            && !ticked.used_right_mouse_button),
{
}

} // verus!
