//! Conversion of an airspace dataset into OpenAir text.
pub mod text;
pub mod yaixm;
pub mod settings;
pub mod convert;
pub mod geometry;
pub mod tessellate;
pub mod boundary;
pub mod merge;
pub mod header;
pub mod document;
