//! Utilities for working with partial-failure outcomes: pairs of a value
//! that is always produced and a status that may carry a non-fatal error.
//!
//! The central type is [`Fine<T, E>`](Fine), an ordered pair of a value `T`
//! and a status `Result<(), E>`. Unlike a strict `Result`, the value is never
//! discarded just because an error occurred: the caller decides whether to
//! consume the value, the error, both, or to escalate via [`FineExt::not_fine`].

pub mod fine;
pub mod laws;
pub mod prelude;

pub use fine::Fine;
pub use fine::FineDeref;
pub use fine::FineDerefMut;
pub use fine::FineExt;
pub use fine::FineExtWhereEDebug;
pub use fine::FineExtWhereTDebug;
pub use fine::FineTranspose;
pub use fine::from_inverse;
