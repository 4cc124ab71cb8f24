use vstd::prelude::*;
use vstd::utf8::encode_utf8;
use crate::documents::BuildXML;
use crate::xml_builder::{element, XMLBuilder};

verus! {

/// The properties of a run. It carries no direct formatting, and renders as
/// the empty properties tag that says so.
#[derive(Debug)]
pub struct RunProperty {}

impl RunProperty {
    pub fn new() -> RunProperty {
        RunProperty {  }
    }

    /// The markup of run properties: `<w:rPr />`.
    pub open spec fn spec_markup() -> Seq<u8> {
        element(encode_utf8("w:rPr"@), Seq::empty(), None)
    }
}

impl Default for RunProperty {
    fn default() -> RunProperty {
        RunProperty::new()
    }
}

impl BuildXML for RunProperty {
    open spec fn markup(&self) -> Seq<u8> {
        RunProperty::spec_markup()
    }

    fn build(&self) -> (out: Vec<u8>) {
        XMLBuilder::new().open("w:rPr").close().build()
    }
}

} // verus!
