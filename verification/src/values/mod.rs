//! Specified values of properties of style sheets.

pub mod animation;
pub mod ident;
pub mod keyword;
pub mod serialize;
