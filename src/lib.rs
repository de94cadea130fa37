//! Ownership-correct handles over a native scene-description library.
//!
//! The library keeps the host side of the foreign boundary: which foreign
//! objects the host holds and which teardown call each release owes, the
//! plain-value forms of the exclusively owned value types, index-and-size
//! iteration over foreign collections, and the mapping of every foreign
//! output-parameter convention onto `Result` and `Option`.
pub mod ar;
pub mod convention;
pub mod cpp;
pub mod ownership;
pub mod sdf;
pub mod tf;
pub mod usd;
pub mod vt;
