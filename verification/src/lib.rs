//! Rank-limited approximation of image channels by a truncated singular value
//! decomposition.
//!
//! The crate holds the decisions of the compression: which ranks are admitted,
//! when a matrix is handed back untouched, how much scratch memory the
//! decomposition is given, which singular triplets are kept and how the
//! approximated channels are put back into an image. The entries of a matrix
//! are opaque to it: the decomposition itself and the product of the kept
//! factors are arithmetic on the entries and are supplied by the caller.

pub mod compress;
pub mod error;
pub mod imagewrapper;
pub mod matrix;
