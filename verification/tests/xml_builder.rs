use docx_core::documents::elements::{Justification, Run};
use docx_core::escape::{push_escaped, push_escaped_byte, Place};
use docx_core::xml_builder::XMLBuilder;
use std::str;

fn text(b: Vec<u8>) -> String {
    String::from_utf8(b).unwrap()
}

#[test]
fn test_builder_new_is_empty() {
    assert_eq!(XMLBuilder::new().build(), Vec::<u8>::new());
}

#[test]
fn test_builder_empty_element_self_closes() {
    let b = XMLBuilder::new().open("a").close().build();
    assert_eq!(text(b), "<a />");
}

#[test]
fn test_builder_attributes_keep_their_order() {
    let b = XMLBuilder::new()
        .open("a")
        .add_attribute("x", "1")
        .add_attribute("y", "2")
        .close()
        .build();
    assert_eq!(text(b), r#"<a x="1" y="2" />"#);
}

#[test]
fn test_builder_nested_elements() {
    let b = XMLBuilder::new()
        .open("a")
        .add_attribute("k", "v")
        .open("b")
        .close()
        .open("c")
        .add_text("t")
        .close()
        .close()
        .build();
    assert_eq!(text(b), r#"<a k="v"><b /><c>t</c></a>"#);
}

#[test]
fn test_builder_text_escapes_markup_only() {
    let b = XMLBuilder::new().open("t").add_text("<&>\"'").close().build();
    assert_eq!(text(b), "<t>&lt;&amp;&gt;\"'</t>");
}

#[test]
fn test_builder_attribute_escapes_quotes_too() {
    let b = XMLBuilder::new().open("t").add_attribute("v", "<&>\"'").close().build();
    assert_eq!(text(b), r#"<t v="&lt;&amp;&gt;&quot;&apos;" />"#);
}

#[test]
fn test_builder_add_child() {
    let run = Run::new("x");
    let b = XMLBuilder::new().open("a").add_child(&run).close().build();
    assert_eq!(
        text(b),
        r#"<a><w:r><w:rPr /><w:t xml:space="preserve">x</w:t></w:r></a>"#
    );
}

#[test]
fn test_builder_optional_child_absent_adds_nothing() {
    let none: Option<Justification> = None;
    let b = XMLBuilder::new().open("a").add_optional_child(&none).close().build();
    assert_eq!(text(b), "<a />");
}

#[test]
fn test_builder_optional_child_present_is_rendered_once() {
    let some = Some(Justification::new("left".to_string()));
    let b = XMLBuilder::new().open("a").add_optional_child(&some).close().build();
    assert_eq!(text(b), r#"<a><w:jc w:val="left" /></a>"#);
}

#[test]
fn test_builder_no_children_adds_nothing() {
    let runs: Vec<Run> = Vec::new();
    let b = XMLBuilder::new().open("a").add_children(&runs).close().build();
    assert_eq!(text(b), "<a />");
}

#[test]
fn test_builder_children_in_order() {
    let runs = vec![Run::new("1"), Run::new("2"), Run::new("3")];
    let b = XMLBuilder::new().open("a").add_children(&runs).close().build();
    let s = text(b);
    assert!(s.starts_with("<a><w:r>"));
    assert!(s.ends_with("</w:r></a>"));
    let one = s.find(">1<").unwrap();
    let two = s.find(">2<").unwrap();
    let three = s.find(">3<").unwrap();
    assert!(one < two && two < three);
    assert_eq!(s.matches("<w:r>").count(), 3);
}

#[test]
fn test_builder_content_between_siblings() {
    let b = XMLBuilder::new()
        .open("a")
        .add_text("x")
        .open("b")
        .close()
        .add_text("y")
        .close()
        .build();
    assert_eq!(text(b), "<a>x<b />y</a>");
}

#[test]
fn test_push_escaped_byte_each_entity() {
    let cases: [(u8, Place, &str); 9] = [
        (b'&', Place::Text, "&amp;"),
        (b'<', Place::Text, "&lt;"),
        (b'>', Place::Text, "&gt;"),
        (b'"', Place::Text, "\""),
        (b'\'', Place::Text, "'"),
        (b'"', Place::Attribute, "&quot;"),
        (b'\'', Place::Attribute, "&apos;"),
        (b'&', Place::Attribute, "&amp;"),
        (b'a', Place::Attribute, "a"),
    ];
    for (byte, place, expected) in cases {
        let mut out = vec![b'^'];
        push_escaped_byte(&mut out, byte, place);
        assert_eq!(str::from_utf8(&out).unwrap(), format!("^{}", expected));
    }
}

#[test]
fn test_push_escaped_appends() {
    let mut out = b"k=".to_vec();
    push_escaped(&mut out, b"a<b", Place::Text);
    assert_eq!(out, b"k=a&lt;b".to_vec());
    push_escaped(&mut out, b"", Place::Attribute);
    assert_eq!(out, b"k=a&lt;b".to_vec());
}
