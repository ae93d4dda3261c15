//! Value containers that remember where a value came from.
//!
//! [`MaybeSpanned`] holds a value together with the source location it was
//! parsed from, or with no location when it came from configuration.
//! [`OptWithLine`] is a slot that can be set at most once: a second attempt
//! is handed back to the caller instead of overwriting the first value.
pub mod maybe_spanned;
pub mod opt_with_line;
pub mod span;

pub use maybe_spanned::MaybeSpanned;
pub use opt_with_line::OptWithLine;
pub use span::{Span, Spanned};
