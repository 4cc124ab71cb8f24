use vstd::prelude::*;
use vstd::utf8::encode_utf8;
use crate::documents::BuildXML;
use crate::xml_builder::{attribute, element, XMLBuilder};

verus! {

/// A reference to a paragraph style by its name. There is always a name:
/// where none is given, it is that of the fallback style.
#[derive(Debug)]
pub struct ParagraphStyle {
    val: String,
}

impl View for ParagraphStyle {
    type V = Seq<char>;

    /// The name of the style that is referred to.
    closed spec fn view(&self) -> Seq<char> {
        self.val@
    }
}

impl ParagraphStyle {
    /// The name of the style that a reference falls back to.
    pub open spec fn fallback() -> Seq<char> {
        "Normal"@
    }

    pub fn new(style_id: Option<&str>) -> (style: ParagraphStyle)
        ensures
            style@ == match style_id {
                Some(name) => name@,
                None => ParagraphStyle::fallback(),
            },
    {
        match style_id {
            Some(name) => ParagraphStyle { val: name.to_owned() },
            None => ParagraphStyle { val: "Normal".to_owned() },
        }
    }

    /// The markup of a reference to the style `name`:
    /// `<w:pStyle w:val="` the escaped name `" />`.
    pub open spec fn spec_markup(name: Seq<char>) -> Seq<u8> {
        element(
            encode_utf8("w:pStyle"@),
            attribute(encode_utf8("w:val"@), encode_utf8(name)),
            None,
        )
    }
}

impl Default for ParagraphStyle {
    fn default() -> (style: ParagraphStyle)
        ensures
            style@ == ParagraphStyle::fallback(),
    {
        ParagraphStyle::new(None)
    }
}

impl BuildXML for ParagraphStyle {
    open spec fn markup(&self) -> Seq<u8> {
        ParagraphStyle::spec_markup(self@)
    }

    fn build(&self) -> (out: Vec<u8>) {
        XMLBuilder::new().open("w:pStyle").add_attribute("w:val", self.val.as_str()).close().build()
    }
}

} // verus!
