//! Re-derives a trait for a data-type declaration inside a private,
//! uniquely named module, and brings the declaration back out with its
//! original visibility.
//!
//! Token streams are modelled as flat sequences of [`tokens::Tok`], where a
//! group is an opening marker, its contents and a closing marker.  The
//! declaration is split into the parts the rewrite reads
//! ([`decl::Decl`]); [`rewrite::fix`] produces the rewritten tokens, and
//! [`lemmas`] states the laws the output obeys.
pub mod decl;
pub mod lemmas;
pub mod rewrite;
pub mod tokens;
