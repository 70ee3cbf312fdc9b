//! Estimate how many bytes a structured value would occupy as JSON text,
//! without producing the text itself.
//!
//! The estimate is computed by an accumulating serializer that reproduces,
//! separator by separator, what a conforming JSON encoder would emit, while
//! allocating nothing. Two documented approximations apply: string content is
//! not escaped, and timestamps are counted at a fixed millisecond-precision
//! UTC width.

pub mod attributes;
pub mod digits;
pub mod encoding;
pub mod events;
pub mod serializer;
pub mod value;
