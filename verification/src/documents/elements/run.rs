use vstd::prelude::*;
use vstd::utf8::encode_utf8;
use crate::documents::elements::run_property::RunProperty;
use crate::documents::BuildXML;
use crate::escape::{escape, Place};
use crate::xml_builder::{attribute, element, XMLBuilder};

verus! {

/// A run: a stretch of text with its properties.
#[derive(Debug)]
pub struct Run {
    run_property: RunProperty,
    text: String,
}

/// What a run is: its text.
pub struct RunModel {
    pub text: Seq<char>,
}

impl RunModel {
    /// The markup of a run: its properties, then the text, escaped, in an
    /// element that keeps its white space:
    /// `<w:r><w:rPr /><w:t xml:space="preserve">` text `</w:t></w:r>`.
    pub open spec fn markup(self) -> Seq<u8> {
        element(
            encode_utf8("w:r"@),
            Seq::empty(),
            Some(
                RunProperty::spec_markup() + element(
                    encode_utf8("w:t"@),
                    attribute(encode_utf8("xml:space"@), encode_utf8("preserve"@)),
                    Some(escape(encode_utf8(self.text), Place::Text)),
                ),
            ),
        )
    }
}

impl View for Run {
    type V = RunModel;

    closed spec fn view(&self) -> RunModel {
        RunModel { text: self.text@ }
    }
}

impl Run {
    pub fn new(text: &str) -> (run: Run)
        ensures
            run@.text == text@,
    {
        Run { run_property: RunProperty::new(), text: text.to_owned() }
    }
}

impl BuildXML for Run {
    open spec fn markup(&self) -> Seq<u8> {
        self@.markup()
    }

    fn build(&self) -> (out: Vec<u8>) {
        let b = XMLBuilder::new().open("w:r").add_child(&self.run_property).open("w:t").add_attribute(
            "xml:space",
            "preserve",
        ).add_text(self.text.as_str()).close().close();
        b.build()
    }
}

} // verus!
