//! One import that brings the whole operation set into scope.

pub use crate::fine::FineDeref;
pub use crate::fine::FineDerefMut;
pub use crate::fine::FineExt;
pub use crate::fine::FineExtWhereEDebug;
pub use crate::fine::FineExtWhereTDebug;
pub use crate::fine::FineTranspose;
