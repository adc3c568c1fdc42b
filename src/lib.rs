//! Decision logic of a small unit-movement sandbox: the editing / visualizing
//! mode switch, the per-unit editing panel and the starting layout of units.
pub mod layout;
pub mod mode;
pub mod panel;
