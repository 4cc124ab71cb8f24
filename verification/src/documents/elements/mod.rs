//! The element types.

pub mod justification;
pub mod paragraph;
pub mod paragraph_property;
pub mod paragraph_style;
pub mod run;
pub mod run_property;

pub use justification::Justification;
pub use paragraph::Paragraph;
pub use paragraph_property::ParagraphProperty;
pub use paragraph_style::ParagraphStyle;
pub use run::Run;
pub use run_property::RunProperty;
