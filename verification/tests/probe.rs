use selected_text::element::{get_non_empty_text, get_text_from_element, Element, Selection};
use selected_text::error::GetTextError;

fn node_with_ranges(ranges: Vec<Option<&str>>) -> Element {
    Element {
        selection: Selection::Ranges(
            ranges.into_iter().map(|r| r.map(|s| s.to_string())).collect(),
        ),
    }
}

#[test]
fn probe_concatenates_ranges_in_order() {
    let el = node_with_ranges(vec![Some("Hel"), Some("lo"), Some("!")]);
    assert_eq!(get_text_from_element(&el), Some("Hello!".to_string()));
}

#[test]
fn probe_with_no_ranges_yields_empty_string() {
    let el = node_with_ranges(vec![]);
    assert_eq!(get_text_from_element(&el), Some(String::new()));
}

#[test]
fn probe_without_capability_yields_nothing() {
    let el = Element { selection: Selection::NoPattern };
    assert_eq!(get_text_from_element(&el), None);
}

#[test]
fn probe_range_error_discards_the_whole_node() {
    let el = node_with_ranges(vec![Some("a"), None, Some("b")]);
    assert_eq!(get_text_from_element(&el), None);
}

#[test]
fn non_empty_probe_rejects_empty_selection() {
    let el = node_with_ranges(vec![Some("")]);
    assert_eq!(get_non_empty_text(&el), None);
}

#[test]
fn non_empty_probe_keeps_real_text() {
    let el = node_with_ranges(vec![Some("text")]);
    assert_eq!(get_non_empty_text(&el), Some("text".to_string()));
}

#[test]
fn non_empty_probe_rejects_missing_capability() {
    let el = Element { selection: Selection::NoPattern };
    assert_eq!(get_non_empty_text(&el), None);
}

#[test]
fn error_messages_name_their_cause() {
    assert_eq!(
        GetTextError::AutomationFailure("lost the tree".to_string()).message(),
        "UI Automation error: lost the tree"
    );
    assert_eq!(GetTextError::Timeout.message(), "Timeout while getting text");
    assert_eq!(GetTextError::ChannelFailure.message(), "Channel send error");
    assert_eq!(
        GetTextError::InitializationFailure.message(),
        "COM initialization failed"
    );
}
