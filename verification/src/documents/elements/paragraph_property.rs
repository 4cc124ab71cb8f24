use vstd::prelude::*;
use vstd::string::is_ascii_spec_bytes;
use vstd::utf8::encode_utf8;
use crate::documents::elements::justification::Justification;
use crate::documents::elements::run_property::RunProperty;
use crate::documents::BuildXML;
use crate::types::alignment_type::AlignmentType;
use crate::escape::{GT, LT};
use crate::xml_builder::{element, XMLBuilder, SLASH, SPACE};

verus! {

/// The direct formatting of a paragraph: what is set here overrides what the
/// paragraph has from its style. Only what was set is rendered.
#[derive(Debug)]
pub struct ParagraphProperty {
    alignment: Option<Justification>,
    run_property: RunProperty,
}

/// What paragraph properties are: the directives that were set.
pub struct ParagraphPropertyModel {
    /// The justification value, where an alignment was set.
    pub alignment: Option<Seq<char>>,
}

impl ParagraphPropertyModel {
    /// Properties with nothing set.
    pub open spec fn new() -> ParagraphPropertyModel {
        ParagraphPropertyModel { alignment: None }
    }

    /// These properties with the alignment replaced.
    pub open spec fn align(self, alignment_type: AlignmentType) -> ParagraphPropertyModel {
        ParagraphPropertyModel { alignment: Some(alignment_type.name()) }
    }

    /// The markup of the properties: with no alignment the self-closing
    /// `<w:pPr />`, else the justification between `<w:pPr>` and `</w:pPr>`.
    pub open spec fn markup(self) -> Seq<u8> {
        element(
            encode_utf8("w:pPr"@),
            Seq::empty(),
            match self.alignment {
                Some(val) => Some(Justification::spec_markup(val)),
                None => None,
            },
        )
    }
}

/// A directive that is not set contributes no byte, and one that is set is
/// rendered once, in its place: without an alignment the properties are the
/// start of their tag and the self-closing end; with one they are the
/// finished start tag, the justification, and the end tag.
pub proof fn lemma_only_what_is_set_is_rendered(property: ParagraphPropertyModel)
    ensures
        property.alignment is None ==> property.markup() == seq![LT] + encode_utf8("w:pPr"@)
            + seq![SPACE, SLASH, GT],
        property.alignment matches Some(val) ==> property.markup() == seq![LT] + encode_utf8(
            "w:pPr"@,
        ) + seq![GT] + Justification::spec_markup(val) + seq![LT, SLASH] + encode_utf8("w:pPr"@)
            + seq![GT],
{
    let name = encode_utf8("w:pPr"@);
    assert(seq![LT] + name + Seq::<u8>::empty() =~= seq![LT] + name);
}

/// Properties with nothing set render as exactly `<w:pPr />`: one
/// self-closing tag without attributes or children.
pub proof fn lemma_markup_of_new_properties()
    ensures
        ParagraphPropertyModel::new().markup() == encode_utf8("<w:pPr />"@),
{
    reveal_strlit("w:pPr");
    reveal_strlit("<w:pPr />");
    is_ascii_spec_bytes("w:pPr");
    is_ascii_spec_bytes("<w:pPr />");
    assert(encode_utf8("w:pPr"@).len() == 5);
    assert(encode_utf8("<w:pPr />"@).len() == 9);
    assert(ParagraphPropertyModel::new().markup() =~= encode_utf8("<w:pPr />"@));
}

/// Setting the alignment twice leaves the alignment that was set last.
pub proof fn lemma_align_replaces(
    property: ParagraphPropertyModel,
    first: AlignmentType,
    second: AlignmentType,
)
    ensures
        property.align(first).align(second) == property.align(second),
{
}

impl View for ParagraphProperty {
    type V = ParagraphPropertyModel;

    closed spec fn view(&self) -> ParagraphPropertyModel {
        ParagraphPropertyModel {
            alignment: match self.alignment {
                Some(justification) => Some(justification@),
                None => None,
            },
        }
    }
}

impl Default for ParagraphProperty {
    fn default() -> (property: ParagraphProperty)
        ensures
            property@ == ParagraphPropertyModel::new(),
    {
        ParagraphProperty { alignment: None, run_property: RunProperty::new() }
    }
}

impl ParagraphProperty {
    pub fn new() -> (property: ParagraphProperty)
        ensures
            property@ == ParagraphPropertyModel::new(),
    {
        Default::default()
    }

    /// Sets the alignment, in place of the one that was set before.
    pub fn align(self, alignment_type: AlignmentType) -> (property: ParagraphProperty)
        ensures
            property@ == self@.align(alignment_type),
    {
        let mut property = self;
        property.alignment = Some(Justification::new(alignment_type.to_string()));
        property
    }
}

impl BuildXML for ParagraphProperty {
    open spec fn markup(&self) -> Seq<u8> {
        self@.markup()
    }

    fn build(&self) -> (out: Vec<u8>) {
        let b = XMLBuilder::new();
        let p = b.open("w:pPr").add_optional_child(&self.alignment);
        p.close().build()
    }
}

} // verus!
