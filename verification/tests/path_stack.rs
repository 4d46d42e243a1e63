use invoice_extract::{to_prefixed_name, QName, XmlData};

fn plain(local: &str) -> QName {
    QName { prefix: None, local_name: local.to_string() }
}

fn prefixed(prefix: &str, local: &str) -> QName {
    QName { prefix: Some(prefix.to_string()), local_name: local.to_string() }
}

#[test]
fn qualified_name_with_prefix_is_prefix_colon_local() {
    assert_eq!(to_prefixed_name(&prefixed("cbc", "ID")), "cbc:ID");
}

#[test]
fn qualified_name_without_prefix_is_the_local_name() {
    assert_eq!(to_prefixed_name(&plain("Invoice")), "Invoice");
}

#[test]
fn empty_path_renders_as_empty_string() {
    let data = XmlData::default();
    assert_eq!(data.path(), "");
    assert_eq!(data.depth(), 0);
}

#[test]
fn three_levels_render_root_anchored() {
    let mut data = XmlData::default();
    data.push_path(&plain("Root"));
    data.push_path(&plain("Outer"));
    data.push_path(&plain("Inner"));
    assert_eq!(data.path(), "/Root/Outer/Inner");
    assert_eq!(data.depth(), 3);
}

#[test]
fn prefixed_segments_keep_their_prefix() {
    let mut data = XmlData::default();
    data.push_path(&plain("Invoice"));
    data.push_path(&prefixed("cac", "InvoiceLine"));
    data.push_path(&prefixed("cbc", "ID"));
    assert_eq!(data.path(), "/Invoice/cac:InvoiceLine/cbc:ID");
    assert_eq!(
        data.current_path,
        vec!["Invoice".to_string(), "cac:InvoiceLine".to_string(), "cbc:ID".to_string()]
    );
}

#[test]
fn pop_removes_the_most_recent_segment() {
    let mut data = XmlData::default();
    data.push_path(&plain("Root"));
    data.push_path(&plain("Outer"));
    data.pop_path();
    assert_eq!(data.path(), "/Root");
    data.push_path(&plain("Other"));
    assert_eq!(data.path(), "/Root/Other");
    data.pop_path();
    data.pop_path();
    assert_eq!(data.path(), "");
    assert_eq!(data.depth(), 0);
}

#[test]
fn push_and_pop_leave_the_fields_alone() {
    let mut data = XmlData::default();
    data.id = "7".to_string();
    data.notes.push("n".to_string());
    data.push_path(&plain("Root"));
    data.pop_path();
    let mut expected = XmlData::default();
    expected.id = "7".to_string();
    expected.notes.push("n".to_string());
    assert_eq!(data, expected);
}
