//! Look up a game in a storefront catalog by name, and project the loosely
//! typed JSON records of its detail page into plain values for display.

pub mod text;
pub mod json;
pub mod catalog;
pub mod detail;
pub mod records;
pub mod format;
pub mod lookup;
pub mod render;
