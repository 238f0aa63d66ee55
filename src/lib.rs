//! Decoding of JSON or YAML text into a generic value, and classification of
//! the person records it holds by age.

pub mod extract;
pub mod transform;
