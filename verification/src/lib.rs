//! A user-owned tree of files and directories kept as flat documents.
//!
//! Every node is one document keyed by its id; a directory records the ids of
//! its children and every child records the id of its parent. The store knows
//! nothing of trees, so the rules that make the documents a tree live here.

pub mod database;
pub mod error;
pub mod filter;
pub mod laws;
pub mod models;
pub mod store;
pub mod tree;
