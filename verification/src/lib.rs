//! Batch conversion of spreadsheet rows into hosted payment links, and the
//! status check of links made earlier: the rules of both pipelines, stated
//! over plain values and proved.

pub mod error;
pub mod table;
pub mod remote;
pub mod run;
pub mod batch;
pub mod check;
pub mod inquiry;
