//! Turns a manifest of scraped profile documents into raw text extracts,
//! one per document, in manifest order.

pub mod normalize;
pub mod laws;
pub mod extract;
pub mod pipeline;
pub mod error;
