//! Plain values that elements are configured with.

pub mod alignment_type;

pub use alignment_type::AlignmentType;
