use vstd::prelude::*;

verus! {

/// How the lines of a paragraph are aligned.
#[derive(Clone, Copy, Debug, PartialEq, Eq, Structural)]
pub enum AlignmentType {
    Left,
    Center,
    Right,
    Both,
}

impl AlignmentType {
    /// The value that stands for this alignment in markup.
    pub open spec fn name(self) -> Seq<char> {
        match self {
            AlignmentType::Left => "left"@,
            AlignmentType::Center => "center"@,
            AlignmentType::Right => "right"@,
            AlignmentType::Both => "both"@,
        }
    }

    pub fn as_str(&self) -> (s: &'static str)
        ensures
            s@ == self.name(),
    {
        match self {
            AlignmentType::Left => "left",
            AlignmentType::Center => "center",
            AlignmentType::Right => "right",
            AlignmentType::Both => "both",
        }
    }

    pub fn to_string(&self) -> (s: String)
        ensures
            s@ == self.name(),
    {
        self.as_str().to_owned()
    }
}

} // verus!
