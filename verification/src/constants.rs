//! Error message catalogue, keyboard-selection keys and the default
//! aria-label configuration.

use vstd::prelude::*;
use vstd::string::*;
use crate::types::handles::HandleType;

verus! {

/// Key codes that activate / deactivate keyboard selection of nodes and
/// edges.
pub const ELEMENT_SELECTION_KEYS: [&'static str; 3] = ["Enter", " ", "Escape"];

/// Base of the documentation link appended to formatted error messages.
pub open spec fn docs_base() -> Seq<char> {
    "https://reactflow.dev/error#"@
}

/// Documentation link for the error with the given id.
fn err_link(id: &str) -> (r: String)
    ensures
        r@ == docs_base() + id@,
{
    let mut s = String::from_str("https://reactflow.dev/error#");
    proof {
        reveal_strlit("https://reactflow.dev/error#");
    }
    s.append(id);
    s
}

/// Message shown when the store provider is missing.
pub fn error_001() -> (r: String)
    ensures
        r@ == "[React Flow]: Seems like you have not used zustand provider as an ancestor. Help: "@
            + docs_base() + "001"@,
{
    let mut s = String::from_str(
        "[React Flow]: Seems like you have not used zustand provider as an ancestor. Help: ",
    );
    let link = err_link("001");
    s.append(link.as_str());
    s
}


/// Message shown when node or edge type maps are recreated on every render.
pub fn error_002() -> (r: String)
    ensures
        r@ == "It looks like you've created a new nodeTypes or edgeTypes object. If this wasn't on purpose please define the nodeTypes/edgeTypes outside of the component or memoize them."@,
{
    String::from_str(
        "It looks like you've created a new nodeTypes or edgeTypes object. If this wasn't on purpose please define the nodeTypes/edgeTypes outside of the component or memoize them.",
    )
}

/// Message shown when a node type is not registered.
pub fn error_003(node_type: &str) -> (r: String)
    ensures
        r@ == "Node type \""@ + node_type@ + "\" not found. Using fallback type \"default\"."@,
{
    let mut s = String::from_str("Node type \"");
    s.append(node_type);
    s.append("\" not found. Using fallback type \"default\".");
    s
}

/// Message shown when the container has no size.
pub fn error_004() -> (r: String)
    ensures
        r@ == "The React Flow parent container needs a width and a height to render the graph."@,
{
    String::from_str("The React Flow parent container needs a width and a height to render the graph.")
}

/// Message shown when a root node asks for a parent extent.
pub fn error_005() -> (r: String)
    ensures
        r@ == "Only child nodes can use a parent extent."@,
{
    String::from_str("Only child nodes can use a parent extent.")
}

/// Message shown when an edge lacks a source or a target.
pub fn error_006() -> (r: String)
    ensures
        r@ == "Can't create edge. An edge needs a source and a target."@,
{
    String::from_str("Can't create edge. An edge needs a source and a target.")
}

/// Message shown when an edge to reconnect does not exist.
pub fn error_007(id: &str) -> (r: String)
    ensures
        r@ == "The old edge with id="@ + id@ + " does not exist."@,
{
    let mut s = String::from_str("The old edge with id=");
    s.append(id);
    s.append(" does not exist.");
    s
}

/// Word naming a handle type in messages.
pub open spec fn handle_label(handle_type: HandleType) -> Seq<char> {
    match handle_type {
        HandleType::Source => "source"@,
        HandleType::Target => "target"@,
    }
}

/// The handle id reported for `handle_type`: the source or the target
/// handle id, the empty text when it is absent.
pub open spec fn reported_handle_id(
    handle_type: HandleType,
    source_handle: Option<&str>,
    target_handle: Option<&str>,
) -> Seq<char> {
    let chosen = match handle_type {
        HandleType::Source => source_handle,
        HandleType::Target => target_handle,
    };
    match chosen {
        Some(h) => h@,
        None => Seq::empty(),
    }
}

/// Message shown when an edge cannot be created for a handle.
/// `handle_type` selects which of `source_handle` / `target_handle` is
/// reported.
pub fn error_008(
    handle_type: HandleType,
    id: &str,
    source_handle: Option<&str>,
    target_handle: Option<&str>,
) -> (r: String)
    ensures
        r@ == "Couldn't create edge for "@ + handle_label(handle_type) + " handle id: \""@
            + reported_handle_id(handle_type, source_handle, target_handle) + "\", edge id: "@
            + id@ + "."@,
{
    let label = match handle_type {
        HandleType::Source => "source",
        HandleType::Target => "target",
    };
    let chosen = match handle_type {
        HandleType::Source => source_handle,
        HandleType::Target => target_handle,
    };
    let mut s = String::from_str("Couldn't create edge for ");
    s.append(label);
    s.append(" handle id: \"");
    match chosen {
        Some(h) => s.append(h),
        None => {},
    }
    s.append("\", edge id: ");
    s.append(id);
    s.append(".");
    s
}

/// Message shown when a marker type does not exist.
pub fn error_009(marker_type: &str) -> (r: String)
    ensures
        r@ == "Marker type \""@ + marker_type@ + "\" doesn't exist."@,
{
    let mut s = String::from_str("Marker type \"");
    s.append(marker_type);
    s.append("\" doesn't exist.");
    s
}

/// Message shown when a handle is used outside of a node.
pub fn error_010() -> (r: String)
    ensures
        r@ == "Handle: No node id found. Make sure to only use a Handle inside a custom Node."@,
{
    String::from_str("Handle: No node id found. Make sure to only use a Handle inside a custom Node.")
}

/// Message shown when an edge type is not registered.
pub fn error_011(edge_type: &str) -> (r: String)
    ensures
        r@ == "Edge type \""@ + edge_type@ + "\" not found. Using fallback type \"default\"."@,
{
    let mut s = String::from_str("Edge type \"");
    s.append(edge_type);
    s.append("\" not found. Using fallback type \"default\".");
    s
}

/// Message shown when a node vanished before its click handler ran.
pub fn error_012(id: &str) -> (r: String)
    ensures
        r@ == "Node with id \""@ + id@
            + "\" does not exist, it may have been removed. This can happen when a node is deleted before the \"onNodeClick\" handler is called."@,
{
    let mut s = String::from_str("Node with id \"");
    s.append(id);
    s.append(
        "\" does not exist, it may have been removed. This can happen when a node is deleted before the \"onNodeClick\" handler is called.",
    );
    s
}

/// Library name used by [`error_013`]: the one given, `react` otherwise.
pub open spec fn lib_or_default(lib: Option<&str>) -> Seq<char> {
    match lib {
        Some(l) => l@,
        None => "react"@,
    }
}

/// Message shown when the stylesheets were not loaded.
pub fn error_013(lib: Option<&str>) -> (r: String)
    ensures
        r@ == "It seems that you haven't loaded the styles. Please import '@xyflow/"@
            + lib_or_default(lib)
            + "/dist/style.css' or base.css to make sure everything is working properly."@,
{
    let mut s = String::from_str(
        "It seems that you haven't loaded the styles. Please import '@xyflow/",
    );
    match lib {
        Some(l) => s.append(l),
        None => s.append("react"),
    }
    s.append("/dist/style.css' or base.css to make sure everything is working properly.");
    s
}

/// Message shown when node connections are queried outside of a node.
pub fn error_014() -> (r: String)
    ensures
        r@ == "useNodeConnections: No node ID found. Call useNodeConnections inside a custom Node or provide a node ID."@,
{
    String::from_str(
        "useNodeConnections: No node ID found. Call useNodeConnections inside a custom Node or provide a node ID.",
    )
}

/// Message shown when an uninitialized node is dragged.
pub fn error_015() -> (r: String)
    ensures
        r@ == "It seems that you are trying to drag a node that is not initialized. Please use onNodesChange as explained in the docs."@,
{
    String::from_str(
        "It seems that you are trying to drag a node that is not initialized. Please use onNodesChange as explained in the docs.",
    )
}

/// Aria-label catalogue. Every field is an owned string so callers can
/// override individual entries.
#[derive(Debug, Clone, PartialEq, Eq)]
pub struct AriaLabelConfig {
    pub node_a11y_description_default: String,
    pub node_a11y_description_keyboard_disabled: String,
    pub edge_a11y_description_default: String,
    pub controls_aria_label: String,
    pub controls_zoom_in_aria_label: String,
    pub controls_zoom_out_aria_label: String,
    pub controls_fit_view_aria_label: String,
    pub controls_interactive_aria_label: String,
    pub minimap_aria_label: String,
    pub handle_aria_label: String,
}

/// The English labels of the default configuration.
pub open spec fn is_default_en(c: AriaLabelConfig) -> bool {
    &&& c.node_a11y_description_default@
        == "Press enter or space to select a node. Press delete to remove it and escape to cancel."@
    &&& c.node_a11y_description_keyboard_disabled@
        == "Press enter or space to select a node. You can then use the arrow keys to move the node around. Press delete to remove it and escape to cancel."@
    &&& c.edge_a11y_description_default@
        == "Press enter or space to select an edge. You can then press delete to remove it or escape to cancel."@
    &&& c.controls_aria_label@ == "Control Panel"@
    &&& c.controls_zoom_in_aria_label@ == "Zoom In"@
    &&& c.controls_zoom_out_aria_label@ == "Zoom Out"@
    &&& c.controls_fit_view_aria_label@ == "Fit View"@
    &&& c.controls_interactive_aria_label@ == "Toggle Interactivity"@
    &&& c.minimap_aria_label@ == "Mini Map"@
    &&& c.handle_aria_label@ == "Handle"@
}

impl AriaLabelConfig {
    /// Default English aria-label configuration.
    pub fn default_en() -> (r: AriaLabelConfig)
        ensures
            is_default_en(r),
    {
        AriaLabelConfig {
            node_a11y_description_default: String::from_str(
                "Press enter or space to select a node. Press delete to remove it and escape to cancel.",
            ),
            node_a11y_description_keyboard_disabled: String::from_str(
                "Press enter or space to select a node. You can then use the arrow keys to move the node around. Press delete to remove it and escape to cancel.",
            ),
            edge_a11y_description_default: String::from_str(
                "Press enter or space to select an edge. You can then press delete to remove it or escape to cancel.",
            ),
            controls_aria_label: String::from_str("Control Panel"),
            controls_zoom_in_aria_label: String::from_str("Zoom In"),
            controls_zoom_out_aria_label: String::from_str("Zoom Out"),
            controls_fit_view_aria_label: String::from_str("Fit View"),
            controls_interactive_aria_label: String::from_str("Toggle Interactivity"),
            minimap_aria_label: String::from_str("Mini Map"),
            handle_aria_label: String::from_str("Handle"),
        }
    }
}

impl Default for AriaLabelConfig {
    /// Same as [`AriaLabelConfig::default_en`].
    fn default() -> (r: AriaLabelConfig)
        ensures
            is_default_en(r),
    {
        Self::default_en()
    }
}

} // verus!
