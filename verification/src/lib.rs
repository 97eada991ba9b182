//! A one-shot Makefile generator: a declarative project description
//! (language, language standard, source files, target name, architecture,
//! per-mode output directories) plus a chosen build mode yield the text of a
//! build script and the directory it belongs in.
//!
//! The library is pure: it computes the script text and its output path, and
//! states in contracts exactly what is produced for every input. Reading the
//! configuration file and writing the script are left to the surrounding
//! program.

pub mod config;
pub mod laws;
pub mod plan;
pub mod render;
pub mod text;
