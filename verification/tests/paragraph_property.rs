use docx_core::documents::elements::ParagraphProperty;
use docx_core::documents::BuildXML;
use docx_core::types::AlignmentType;
use std::str;

#[test]
fn test_build() {
    let c = ParagraphProperty::new();
    let b = c.build();
    assert_eq!(str::from_utf8(&b).unwrap(), r#"<w:pPr />"#);
}

#[test]
fn test_property_default_is_new() {
    let b = ParagraphProperty::default().build();
    assert_eq!(str::from_utf8(&b).unwrap(), "<w:pPr />");
}

#[test]
fn test_property_align_each_value() {
    let cases = [
        (AlignmentType::Left, r#"<w:pPr><w:jc w:val="left" /></w:pPr>"#),
        (AlignmentType::Center, r#"<w:pPr><w:jc w:val="center" /></w:pPr>"#),
        (AlignmentType::Right, r#"<w:pPr><w:jc w:val="right" /></w:pPr>"#),
        (AlignmentType::Both, r#"<w:pPr><w:jc w:val="both" /></w:pPr>"#),
    ];
    for (alignment, expected) in cases {
        let b = ParagraphProperty::new().align(alignment).build();
        assert_eq!(str::from_utf8(&b).unwrap(), expected);
    }
}

#[test]
fn test_property_align_replaces() {
    let b = ParagraphProperty::new()
        .align(AlignmentType::Left)
        .align(AlignmentType::Center)
        .build();
    assert_eq!(
        str::from_utf8(&b).unwrap(),
        r#"<w:pPr><w:jc w:val="center" /></w:pPr>"#
    );
}

#[test]
fn test_property_renders_the_same_twice() {
    let c = ParagraphProperty::new().align(AlignmentType::Right);
    assert_eq!(c.build(), c.build());
}

#[test]
fn test_alignment_type_names() {
    assert_eq!(AlignmentType::Left.as_str(), "left");
    assert_eq!(AlignmentType::Center.to_string(), "center");
    assert_eq!(AlignmentType::Right.to_string(), "right");
    assert_eq!(AlignmentType::Both.as_str(), "both");
}
