//! Complex numbers over IEEE 754 binary interchange encodings.

pub mod binary32;
pub mod binary64;
pub mod complex;
pub mod datum;
pub mod element;
pub mod text;

pub use binary32::Binary32;
pub use binary64::Binary64;
pub use complex::Complex;
pub use datum::{Datum, Format};
pub use element::Element;
