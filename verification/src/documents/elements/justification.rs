use vstd::prelude::*;
use vstd::utf8::encode_utf8;
use crate::documents::BuildXML;
use crate::xml_builder::{attribute, element, XMLBuilder};

verus! {

/// The justification of a paragraph: one value, rendered as an attribute of
/// an element without content.
#[derive(Debug)]
pub struct Justification {
    val: String,
}

impl View for Justification {
    type V = Seq<char>;

    closed spec fn view(&self) -> Seq<char> {
        self.val@
    }
}

impl Justification {
    pub fn new(val: String) -> (j: Justification)
        ensures
            j@ == val@,
    {
        Justification { val }
    }

    /// The markup of a justification with the value `val`:
    /// `<w:jc w:val="` the escaped value `" />`.
    pub open spec fn spec_markup(val: Seq<char>) -> Seq<u8> {
        element(
            encode_utf8("w:jc"@),
            attribute(encode_utf8("w:val"@), encode_utf8(val)),
            None,
        )
    }
}

impl BuildXML for Justification {
    open spec fn markup(&self) -> Seq<u8> {
        Justification::spec_markup(self@)
    }

    fn build(&self) -> (out: Vec<u8>) {
        XMLBuilder::new().open("w:jc").add_attribute("w:val", self.val.as_str()).close().build()
    }
}

} // verus!
