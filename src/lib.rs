//! Randomised payment-attempt records and their positional encoding.

pub mod json;
pub mod timestamp;
pub mod entropy;
pub mod randr;
pub mod storage_enums;
pub mod attempt;
