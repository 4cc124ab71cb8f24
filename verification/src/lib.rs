//! A typed document object model that renders to office-document markup.
//!
//! Elements are built through chained calls that consume the value and hand
//! back the updated one; every element can render itself, and its subtree,
//! to bytes through [`BuildXML`](documents::BuildXML).

pub mod documents;
pub mod escape;
pub mod types;
pub mod xml_builder;
