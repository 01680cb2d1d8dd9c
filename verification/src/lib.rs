//! Value formatting for spreadsheet documents.
//!
//! A [`format::ValueFormat`] is an ordered program of [`format::FormatPart`]
//! instructions. One render entry point per value category walks the parts in
//! order and concatenates each part's contribution; the contracts state the
//! resulting string exactly, over sequence views of the data.

pub mod attrmap2;
pub mod calendar;
pub mod ds;
pub mod format;
pub mod style;
pub mod textfmt;
