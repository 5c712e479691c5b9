//! The verified core of a set of spreadsheet bindings and of the tools that
//! keep them in step with the library they wrap:
//!
//! - `bridge`: the enumerations the bindings offer and their counterparts in
//!   the spreadsheet library; `error`: the bindings' errors.
//! - `doc_comment`, `naming`, `param_type`, `paths`: what the wrapper
//!   generator decides (doc comments, names, parameter types, file names).
//! - `extract`, `items`, `comparison`, `report`: finding the public items of a
//!   crate, comparing two crates and writing the report.
//! - `order`, `text`: string order, sorting and text primitives.

pub mod bridge;
pub mod comparison;
pub mod doc_comment;
pub mod error;
pub mod extract;
pub mod items;
pub mod naming;
pub mod order;
pub mod param_type;
pub mod paths;
pub mod report;
pub mod text;
