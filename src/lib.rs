//! Sum of two machine-width unsigned integers, rendered as decimal text.

pub mod decimal;
pub mod sum;

pub use decimal::format_decimal;
pub use sum::{sum_as_string, SumError};
