use vstd::prelude::*;
use vstd::string::is_ascii_spec_bytes;
use vstd::utf8::encode_utf8;
use crate::documents::elements::paragraph_property::{ParagraphProperty, ParagraphPropertyModel};
use crate::documents::elements::paragraph_style::ParagraphStyle;
use crate::documents::elements::run::{Run, RunModel};
use crate::documents::{markup_of_all, BuildXML};
use crate::escape::{lemma_escape_of_plain_text, Place};
use crate::types::alignment_type::AlignmentType;
use crate::xml_builder::{element, XMLBuilder};

verus! {

/// A paragraph: its properties, a reference to its style, and its runs.
#[derive(Debug)]
pub struct Paragraph {
    runs: Vec<Run>,
    property: ParagraphProperty,
    style: ParagraphStyle,
}

/// What a paragraph is.
pub struct ParagraphModel {
    /// The runs, in the order in which they were added.
    pub runs: Seq<RunModel>,
    pub property: ParagraphPropertyModel,
    /// The name of the style that the paragraph refers to.
    pub style: Seq<char>,
}

/// The markup of a sequence of runs: the markup of each, in order.
pub open spec fn markup_of_runs(runs: Seq<RunModel>) -> Seq<u8>
    decreases runs.len(),
{
    if runs.len() == 0 {
        Seq::empty()
    } else {
        markup_of_runs(runs.drop_last()) + runs.last().markup()
    }
}

impl ParagraphModel {
    /// The paragraph with nothing set: no runs, properties with nothing set,
    /// and the fallback style.
    pub open spec fn new() -> ParagraphModel {
        ParagraphModel {
            runs: Seq::empty(),
            property: ParagraphPropertyModel::new(),
            style: ParagraphStyle::fallback(),
        }
    }

    /// This paragraph with one more run, after those it has.
    pub open spec fn add_run(self, run: RunModel) -> ParagraphModel {
        ParagraphModel { runs: self.runs.push(run), ..self }
    }

    /// This paragraph with the alignment replaced.
    pub open spec fn align(self, alignment_type: AlignmentType) -> ParagraphModel {
        ParagraphModel { property: self.property.align(alignment_type), ..self }
    }

    /// The markup of the paragraph. Between `<w:p>` and `</w:p>` stand the
    /// properties, the style and the runs, in this order, whatever the order
    /// in which they were set.
    pub open spec fn markup(self) -> Seq<u8> {
        element(
            encode_utf8("w:p"@),
            Seq::empty(),
            Some(
                self.property.markup() + ParagraphStyle::spec_markup(self.style) + markup_of_runs(
                    self.runs,
                ),
            ),
        )
    }
}

impl View for Paragraph {
    type V = ParagraphModel;

    closed spec fn view(&self) -> ParagraphModel {
        ParagraphModel {
            runs: self.runs@.map_values(|run: Run| run@),
            property: self.property@,
            style: self.style@,
        }
    }
}

impl Default for Paragraph {
    fn default() -> (paragraph: Paragraph)
        ensures
            paragraph@ == ParagraphModel::new(),
    {
        let s: Option<&str> = None;
        let paragraph = Paragraph {
            runs: Vec::new(),
            property: ParagraphProperty::new(),
            style: ParagraphStyle::new(s),
        };
        assert(paragraph@.runs == Seq::<RunModel>::empty());
        paragraph
    }
}

impl Paragraph {
    pub fn new() -> (paragraph: Paragraph)
        ensures
            paragraph@ == ParagraphModel::new(),
    {
        Default::default()
    }

    /// Adds a run after the runs that the paragraph has.
    pub fn add_run(self, run: Run) -> (paragraph: Paragraph)
        ensures
            paragraph@ == self@.add_run(run@),
    {
        let mut paragraph = self;
        paragraph.runs.push(run);
        assert(paragraph@.runs == self@.runs.push(run@));
        paragraph
    }

    /// Sets the alignment, in place of the one that was set before.
    pub fn align(self, alignment_type: AlignmentType) -> (paragraph: Paragraph)
        ensures
            paragraph@ == self@.align(alignment_type),
    {
        let mut paragraph = self;
        paragraph.property = paragraph.property.align(alignment_type);
        paragraph
    }
}

/// One call of a paragraph's fluent interface.
pub enum Mutation {
    AddRun(RunModel),
    Align(AlignmentType),
}

/// The runs that a sequence of calls adds, in the order of the calls.
pub open spec fn runs_added(calls: Seq<Mutation>) -> Seq<RunModel>
    decreases calls.len(),
{
    if calls.len() == 0 {
        Seq::empty()
    } else {
        match calls.last() {
            Mutation::AddRun(run) => runs_added(calls.drop_last()).push(run),
            Mutation::Align(_) => runs_added(calls.drop_last()),
        }
    }
}

/// The alignment that a sequence of calls leaves: that of the last call
/// which sets one.
pub open spec fn alignment_set(calls: Seq<Mutation>) -> Option<AlignmentType>
    decreases calls.len(),
{
    if calls.len() == 0 {
        None
    } else {
        match calls.last() {
            Mutation::AddRun(_) => alignment_set(calls.drop_last()),
            Mutation::Align(alignment_type) => Some(alignment_type),
        }
    }
}

impl ParagraphModel {
    pub open spec fn apply(self, call: Mutation) -> ParagraphModel {
        match call {
            Mutation::AddRun(run) => self.add_run(run),
            Mutation::Align(alignment_type) => self.align(alignment_type),
        }
    }

    /// The paragraph after a sequence of calls.
    pub open spec fn apply_all(self, calls: Seq<Mutation>) -> ParagraphModel
        decreases calls.len(),
    {
        if calls.len() == 0 {
            self
        } else {
            self.apply_all(calls.drop_last()).apply(calls.last())
        }
    }
}

/// Each call replaces one field: after a sequence of calls the paragraph has
/// the runs it had and those that were added, the alignment that was set
/// last, and the style it had.
pub proof fn lemma_fields_after_calls(paragraph: ParagraphModel, calls: Seq<Mutation>)
    ensures
        paragraph.apply_all(calls) == (ParagraphModel {
            runs: paragraph.runs + runs_added(calls),
            property: match alignment_set(calls) {
                Some(alignment_type) => paragraph.property.align(alignment_type),
                None => paragraph.property,
            },
            style: paragraph.style,
        }),
    decreases calls.len(),
{
    if calls.len() > 0 {
        lemma_fields_after_calls(paragraph, calls.drop_last());
    }
    assert(paragraph.apply_all(calls).runs =~= paragraph.runs + runs_added(calls));
}

/// The order of the calls does not show in the markup: two sequences of
/// calls that add the same runs in the same order and leave the same
/// alignment give the same paragraph, and so the same bytes.
pub proof fn lemma_call_order_does_not_matter(
    paragraph: ParagraphModel,
    first: Seq<Mutation>,
    second: Seq<Mutation>,
)
    requires
        runs_added(first) == runs_added(second),
        alignment_set(first) == alignment_set(second),
    ensures
        paragraph.apply_all(first) == paragraph.apply_all(second),
        paragraph.apply_all(first).markup() == paragraph.apply_all(second).markup(),
{
    lemma_fields_after_calls(paragraph, first);
    lemma_fields_after_calls(paragraph, second);
}

/// Adding a run and setting the alignment commute.
pub proof fn lemma_add_run_and_align_commute(
    paragraph: ParagraphModel,
    run: RunModel,
    alignment_type: AlignmentType,
)
    ensures
        paragraph.add_run(run).align(alignment_type) == paragraph.align(alignment_type).add_run(
            run,
        ),
{
}

/// A paragraph with nothing set renders as its tag around the empty
/// properties tag and a reference to the fallback style, and nothing else.
pub proof fn lemma_markup_of_new_paragraph()
    ensures
        ParagraphModel::new().markup() == encode_utf8(
            "<w:p><w:pPr /><w:pStyle w:val=\"Normal\" /></w:p>"@,
        ),
{
    let all = "<w:p><w:pPr /><w:pStyle w:val=\"Normal\" /></w:p>";
    reveal_strlit("w:p");
    reveal_strlit("w:pPr");
    reveal_strlit("w:pStyle");
    reveal_strlit("w:val");
    reveal_strlit("Normal");
    reveal_strlit("<w:p><w:pPr /><w:pStyle w:val=\"Normal\" /></w:p>");
    is_ascii_spec_bytes("w:p");
    is_ascii_spec_bytes("w:pPr");
    is_ascii_spec_bytes("w:pStyle");
    is_ascii_spec_bytes("w:val");
    is_ascii_spec_bytes("Normal");
    is_ascii_spec_bytes(all);
    assert(encode_utf8("w:p"@).len() == 3);
    assert(encode_utf8("w:pPr"@).len() == 5);
    assert(encode_utf8("w:pStyle"@).len() == 8);
    assert(encode_utf8("w:val"@).len() == 5);
    assert(encode_utf8("Normal"@).len() == 6);
    assert(encode_utf8(all@).len() == 47);
    lemma_escape_of_plain_text(encode_utf8("Normal"@), Place::Attribute);
    assert(markup_of_runs(Seq::<RunModel>::empty()) =~= Seq::<u8>::empty());
    assert(ParagraphModel::new().markup() =~= encode_utf8(all@));
}

/// Setting the alignment changes the properties inside the paragraph and
/// nothing else: style and runs follow them as before.
pub proof fn lemma_markup_after_align(paragraph: ParagraphModel, alignment_type: AlignmentType)
    ensures
        paragraph.align(alignment_type).markup() == element(
            encode_utf8("w:p"@),
            Seq::empty(),
            Some(
                paragraph.property.align(alignment_type).markup() + ParagraphStyle::spec_markup(
                    paragraph.style,
                ) + markup_of_runs(paragraph.runs),
            ),
        ),
{
}

/// Rendering the runs one by one gives the markup of their models.
proof fn lemma_markup_of_runs(runs: Seq<Run>)
    ensures
        markup_of_all(runs) == markup_of_runs(runs.map_values(|run: Run| run@)),
    decreases runs.len(),
{
    let models = runs.map_values(|run: Run| run@);
    if runs.len() > 0 {
        lemma_markup_of_runs(runs.drop_last());
        assert(models.drop_last() == runs.drop_last().map_values(|run: Run| run@));
    }
}

impl BuildXML for Paragraph {
    open spec fn markup(&self) -> Seq<u8> {
        self@.markup()
    }

    fn build(&self) -> (out: Vec<u8>) {
        proof {
            lemma_markup_of_runs(self.runs@);
        }
        let b = XMLBuilder::new().open("w:p").add_child(&self.property).add_child(
            &self.style,
        ).add_children(&self.runs).close();
        assert(b@.bytes == self@.markup());
        b.build()
    }
}

} // verus!
