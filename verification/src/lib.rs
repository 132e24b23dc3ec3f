//! A small library for a versioned package store: it assembles a multipart
//! upload into a metadata record plus blob writes, and reconciles the record
//! into a single-table metadata store keyed by package id.

pub mod assemble;
pub mod encode;
pub mod errors;
pub mod laws;
pub mod metadata;
pub mod store;
