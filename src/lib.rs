//! Canonical SQL text for CREATE TABLE, CREATE INDEX, INSERT and DELETE
//! statements, with every renderer proved to produce exactly the text that
//! its specification describes.
pub mod ast;
pub mod dml;
pub mod laws;
pub mod text;

pub use dml::{CreateIndex, CreateTable, Delete, Insert, RenderError};
