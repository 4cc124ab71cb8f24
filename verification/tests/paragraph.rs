use docx_core::documents::elements::{Paragraph, Run};
use docx_core::documents::BuildXML;
use docx_core::types::AlignmentType;
use std::str;

#[test]
fn test_paragraph() {
    let b = Paragraph::new().add_run(Run::new("Hello")).build();
    assert_eq!(
        str::from_utf8(&b).unwrap(),
        r#"<w:p><w:pPr /><w:pStyle w:val="Normal" /><w:r><w:rPr /><w:t xml:space="preserve">Hello</w:t></w:r></w:p>"#
    );
}

#[test]
fn test_paragraph_default_is_minimal() {
    let b = Paragraph::new().build();
    assert_eq!(
        str::from_utf8(&b).unwrap(),
        r#"<w:p><w:pPr /><w:pStyle w:val="Normal" /></w:p>"#
    );
    let d = Paragraph::default().build();
    assert_eq!(b, d);
}

#[test]
fn test_paragraph_style_falls_back_to_normal() {
    let b = Paragraph::new().add_run(Run::new("x")).align(AlignmentType::Left).build();
    let s = str::from_utf8(&b).unwrap();
    assert_eq!(s.matches(r#"<w:pStyle w:val="Normal" />"#).count(), 1);
}

#[test]
fn test_paragraph_align_adds_one_child_to_properties() {
    let plain = Paragraph::new().add_run(Run::new("Hello")).build();
    let aligned = Paragraph::new()
        .add_run(Run::new("Hello"))
        .align(AlignmentType::Center)
        .build();
    assert_eq!(
        str::from_utf8(&aligned).unwrap(),
        r#"<w:p><w:pPr><w:jc w:val="center" /></w:pPr><w:pStyle w:val="Normal" /><w:r><w:rPr /><w:t xml:space="preserve">Hello</w:t></w:r></w:p>"#
    );
    let plain = str::from_utf8(&plain).unwrap();
    let aligned = str::from_utf8(&aligned).unwrap();
    let expected = plain.replace("<w:pPr />", r#"<w:pPr><w:jc w:val="center" /></w:pPr>"#);
    assert_eq!(aligned, expected);
    assert_eq!(aligned.matches("<w:jc ").count(), 1);
}

#[test]
fn test_paragraph_call_order_does_not_matter() {
    let a = Paragraph::new()
        .add_run(Run::new("one"))
        .align(AlignmentType::Right)
        .add_run(Run::new("two"))
        .build();
    let b = Paragraph::new()
        .align(AlignmentType::Right)
        .add_run(Run::new("one"))
        .add_run(Run::new("two"))
        .build();
    let c = Paragraph::new()
        .align(AlignmentType::Left)
        .add_run(Run::new("one"))
        .add_run(Run::new("two"))
        .align(AlignmentType::Right)
        .build();
    assert_eq!(a, b);
    assert_eq!(a, c);
    assert_eq!(
        str::from_utf8(&a).unwrap(),
        r#"<w:p><w:pPr><w:jc w:val="right" /></w:pPr><w:pStyle w:val="Normal" /><w:r><w:rPr /><w:t xml:space="preserve">one</w:t></w:r><w:r><w:rPr /><w:t xml:space="preserve">two</w:t></w:r></w:p>"#
    );
}

#[test]
fn test_paragraph_runs_keep_append_order() {
    let a = Paragraph::new().add_run(Run::new("one")).add_run(Run::new("two")).build();
    let b = Paragraph::new().add_run(Run::new("two")).add_run(Run::new("one")).build();
    assert_ne!(a, b);
    let s = str::from_utf8(&a).unwrap();
    assert!(s.find("one").unwrap() < s.find("two").unwrap());
}

#[test]
fn test_paragraph_renders_the_same_twice() {
    let p = Paragraph::new().add_run(Run::new("Hello")).align(AlignmentType::Both);
    let first = p.build();
    let second = p.build();
    assert_eq!(first, second);
}

#[test]
fn test_paragraph_escapes_text() {
    let b = Paragraph::new().add_run(Run::new("a < b & c > \"d\" 'e'")).build();
    assert_eq!(
        str::from_utf8(&b).unwrap(),
        r#"<w:p><w:pPr /><w:pStyle w:val="Normal" /><w:r><w:rPr /><w:t xml:space="preserve">a &lt; b &amp; c &gt; "d" 'e'</w:t></w:r></w:p>"#
    );
}
