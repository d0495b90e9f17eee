//! An abstract integer value for a binary serialization value model.
//!
//! An [`Integer`] holds one mathematical integer in one of several native
//! widths, and behaves as that integer for equality, ordering, hashing and
//! the length of its canonical encoding.

mod error;
mod integer;
mod laws;
mod model;
mod number;

pub use error::{conversion_message_prefix, is_conversion_message, ConvertError};
pub use integer::Integer;
pub use laws::{
    lemma_canonical_order_total, lemma_equal_across_widths, lemma_native_widths_fit,
    lemma_numeric_order_total,
};
pub use model::{canonical_len_of, canonical_order, in_integer_range, int_cmp};
