//! Synthesis of the entries that let host code subclass a foreign class and
//! override its virtual methods.

pub mod names;
pub mod params;
pub mod function;
pub mod analysis;
pub mod api;
pub mod apivec;
pub mod index;
pub mod subclass;
