//! A file finder: the rules that decide which files of a directory walk are
//! reported, stated and proved with Verus.

pub mod cli;
pub mod enums;
pub mod finder;
pub mod outside;
pub mod stream;
pub mod text;
pub mod laws;
