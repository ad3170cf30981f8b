//! Resource addressing, normalisation and reconciliation planning for a
//! connector that manages cluster resources as files at structured paths.

pub mod addr;
pub mod backend;
pub mod cache;
pub mod connector;
pub mod diag;
pub mod document;
pub mod error;
pub mod kind;
pub mod list;
pub mod mapping;
pub mod neat;
pub mod op;
pub mod path;
pub mod pattern;
pub mod resource;
pub mod text;
pub mod util;
pub mod yaml;
