//! An immutable text value that is cheap to clone: either a reference to
//! text that lives for the whole process, or a reference-counted buffer.

mod string;

pub use string::IString;
mod laws;

pub use laws::{
    lemma_clone_keeps_text,
    lemma_default_is_empty,
    lemma_eq_hashes_same_text,
    lemma_eq_ignores_variant,
    lemma_literal_eq,
    lemma_owned_eq,
};
