//! Viewport-related enumerations and small option types.

use vstd::prelude::*;
use vstd::string::*;

verus! {

/// How the viewport pans when the user scrolls.
#[derive(Debug, Clone, Copy, PartialEq, Eq, Hash, Structural)]
pub enum PanOnScrollMode {
    Free,
    Vertical,
    Horizontal,
}

impl Default for PanOnScrollMode {
    fn default() -> (r: PanOnScrollMode)
        ensures
            r == PanOnScrollMode::Free,
    {
        PanOnScrollMode::Free
    }
}

/// User-selection rectangle behaviour: `Partial` selects nodes that
/// overlap the rectangle, `Full` only nodes entirely inside it.
#[derive(Debug, Clone, Copy, PartialEq, Eq, Hash, Structural)]
pub enum SelectionMode {
    Partial,
    Full,
}

impl Default for SelectionMode {
    fn default() -> (r: SelectionMode)
        ensures
            r == SelectionMode::Full,
    {
        SelectionMode::Full
    }
}

/// Interpolation used by animated viewport transitions.
#[derive(Debug, Clone, Copy, PartialEq, Eq, Hash, Structural)]
pub enum InterpolationKind {
    Smooth,
    Linear,
}

impl Default for InterpolationKind {
    fn default() -> (r: InterpolationKind)
        ensures
            r == InterpolationKind::Smooth,
    {
        InterpolationKind::Smooth
    }
}

/// Position of a fixed panel component over the flow viewport.
#[derive(Debug, Clone, Copy, PartialEq, Eq, Hash, Structural)]
pub enum PanelPosition {
    TopLeft,
    TopCenter,
    TopRight,
    BottomLeft,
    BottomCenter,
    BottomRight,
    CenterLeft,
    CenterRight,
}

/// Pro options.
#[derive(Debug, Clone, PartialEq, Eq)]
pub struct ProOptions {
    pub account: Option<String>,
    pub hide_attribution: bool,
}

impl Default for ProOptions {
    fn default() -> (r: ProOptions)
        ensures
            r.account is None,
            !r.hide_attribution,
    {
        ProOptions { account: None, hide_attribution: false }
    }
}

/// Two-state colour-mode class.
#[derive(Debug, Clone, Copy, PartialEq, Eq, Hash, Structural)]
pub enum ColorModeClass {
    Light,
    Dark,
}

/// Resolved or automatic colour mode.
#[derive(Debug, Clone, Copy, PartialEq, Eq, Hash, Structural)]
pub enum ColorMode {
    Light,
    Dark,
    System,
}

impl Default for ColorMode {
    fn default() -> (r: ColorMode)
        ensures
            r == ColorMode::System,
    {
        ColorMode::System
    }
}

/// How z-indexing is calculated for nodes and edges: `Auto` manages
/// selections and sub-flows, `Basic` only selections, `Manual` nothing.
#[derive(Debug, Clone, Copy, PartialEq, Eq, Hash, Structural)]
pub enum ZIndexMode {
    Auto,
    Basic,
    Manual,
}

impl Default for ZIndexMode {
    fn default() -> (r: ZIndexMode)
        ensures
            r == ZIndexMode::Auto,
    {
        ZIndexMode::Auto
    }
}

/// A single key code or a list of equivalent codes.
#[derive(Debug, Clone, PartialEq, Eq, Hash)]
pub enum KeyCode {
    Single(String),
    Multiple(Vec<String>),
}

impl From<&str> for KeyCode {
    fn from(s: &str) -> (r: KeyCode)
        ensures
            r matches KeyCode::Single(t) && t@ == s@,
    {
        KeyCode::Single(String::from_str(s))
    }
}

impl vstd::std_specs::convert::FromSpecImpl<&str> for KeyCode {
    open spec fn obeys_from_spec() -> bool {
        false
    }

    open spec fn from_spec(v: &str) -> KeyCode {
        vstd::pervasive::arbitrary()
    }
}

impl From<String> for KeyCode {
    fn from(s: String) -> (r: KeyCode)
        ensures
            r == KeyCode::Single(s),
    {
        KeyCode::Single(s)
    }
}

impl vstd::std_specs::convert::FromSpecImpl<String> for KeyCode {
    open spec fn obeys_from_spec() -> bool {
        true
    }

    open spec fn from_spec(v: String) -> KeyCode {
        KeyCode::Single(v)
    }
}

impl From<Vec<String>> for KeyCode {
    fn from(v: Vec<String>) -> (r: KeyCode)
        ensures
            r == KeyCode::Multiple(v),
    {
        KeyCode::Multiple(v)
    }
}

impl vstd::std_specs::convert::FromSpecImpl<Vec<String>> for KeyCode {
    open spec fn obeys_from_spec() -> bool {
        true
    }

    open spec fn from_spec(v: Vec<String>) -> KeyCode {
        KeyCode::Multiple(v)
    }
}

} // verus!
