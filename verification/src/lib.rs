//! Conversion of Texinfo sources into Info documents.
//!
//! `text` holds the character-level operations, `inline` the expansion of
//! inline markup, `model` the mathematical model of a converter and of what
//! each command line does, `converter` and `reading` the converter itself,
//! `info` the writing of the Info document, `vars` the variable table,
//! `names` the groups of command names, and `outside` the calls into std
//! that vstd does not specify. The `*_laws` modules state what the converter
//! does to each command, block and node, over the model.

pub mod block_laws;
pub mod command_laws;
pub mod converter;
pub mod info;
pub mod inline;
pub mod inline_laws;
pub mod model;
pub mod names;
pub mod node_laws;
pub mod outside;
pub mod reading;
pub mod text;
pub mod vars;
