//! The element tree and the capability that every element has.

use vstd::prelude::*;

pub mod elements;

verus! {

/// What every element can do: render itself and its subtree to markup.
pub trait BuildXML {
    /// The markup of this element, as UTF-8 bytes.
    spec fn markup(&self) -> Seq<u8>;

    /// Renders the element. Rendering reads the element and changes nothing.
    fn build(&self) -> (out: Vec<u8>)
        ensures
            out@ == self.markup(),
    ;
}

/// The markup of a sequence of elements: the markup of each, in order.
pub open spec fn markup_of_all<T: BuildXML>(children: Seq<T>) -> Seq<u8>
    decreases children.len(),
{
    if children.len() == 0 {
        Seq::empty()
    } else {
        markup_of_all(children.drop_last()) + children.last().markup()
    }
}

/// Rendering is a function of the element: whatever two renderings of one
/// element return, they are the same bytes.
pub proof fn lemma_rendering_repeats<T: BuildXML>(element: &T, first: Vec<u8>, second: Vec<u8>)
    requires
        first@ == element.markup(),
        second@ == element.markup(),
    ensures
        first@ == second@,
{
}

} // verus!
