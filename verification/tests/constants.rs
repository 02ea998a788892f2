use rgraph_core::constants::{
    error_001, error_003, error_007, error_008, error_011, error_012, error_013,
    AriaLabelConfig, ELEMENT_SELECTION_KEYS,
};
use rgraph_core::types::handles::HandleType;

#[test]
fn element_selection_keys_match_ts() {
    assert_eq!(&ELEMENT_SELECTION_KEYS[..], &["Enter", " ", "Escape"]);
}

#[test]
fn errors_format_their_arguments() {
    assert!(error_003("foo").contains("\"foo\""));
    assert!(error_007("e1").contains("e1"));
    assert!(error_008(HandleType::Source, "e1", Some("h1"), None).contains("source"));
    assert!(error_008(HandleType::Target, "e1", None, Some("h2")).contains("\"h2\""));
    assert!(error_011("custom").contains("\"custom\""));
    assert!(error_012("n1").contains("n1"));
    assert!(error_013(Some("dioxus")).contains("@xyflow/dioxus"));
    assert!(error_013(None).contains("@xyflow/react"));
}

#[test]
fn aria_label_config_default_has_all_strings_populated() {
    let c = AriaLabelConfig::default();
    assert!(!c.controls_aria_label.is_empty());
    assert!(!c.minimap_aria_label.is_empty());
    assert!(!c.handle_aria_label.is_empty());
}

#[test]
fn error_008_reports_the_handle_of_its_type() {
    assert_eq!(
        error_008(HandleType::Source, "e1", Some("h1"), Some("h2")),
        "Couldn't create edge for source handle id: \"h1\", edge id: e1."
    );
    assert_eq!(
        error_008(HandleType::Target, "e1", Some("h1"), None),
        "Couldn't create edge for target handle id: \"\", edge id: e1."
    );
}

#[test]
fn error_001_points_at_the_docs() {
    assert_eq!(
        error_001(),
        "[React Flow]: Seems like you have not used zustand provider as an ancestor. Help: https://reactflow.dev/error#001"
    );
}

#[test]
fn aria_label_default_en_values() {
    let c = AriaLabelConfig::default_en();
    assert_eq!(c.controls_aria_label, "Control Panel");
    assert_eq!(c.controls_zoom_in_aria_label, "Zoom In");
    assert_eq!(c.minimap_aria_label, "Mini Map");
    assert_eq!(c.handle_aria_label, "Handle");
    assert_eq!(c, AriaLabelConfig::default());
}

#[test]
fn error_012_and_013_full_text() {
    assert_eq!(
        error_012("n1"),
        "Node with id \"n1\" does not exist, it may have been removed. This can happen when a node is deleted before the \"onNodeClick\" handler is called."
    );
    assert_eq!(
        error_013(None),
        "It seems that you haven't loaded the styles. Please import '@xyflow/react/dist/style.css' or base.css to make sure everything is working properly."
    );
}
