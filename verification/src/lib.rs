//! An error-handling library for bubbling up errors in library code.
//!
//! The library defines one closed sum type, [`Bandage`], with a tag for each
//! failure origin a hosting library may meet, a [`Clean`] alias for `Result`
//! over it, and a verified, fixed-format message for every tag.

mod convert;
mod error;
pub mod foreign;
pub mod model;

pub use error::Bandage;
pub use error::Clean;
pub use model::Tag;
