//! Console variables: a closed set of named, typed values that can be read and
//! written as text, together with the visibility flag of the console overlay.

pub mod console;
pub mod convars;
pub mod decimal;
pub mod error;
pub mod value;
