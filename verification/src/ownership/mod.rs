//! Process trees under the two ownership disciplines: a parent that owns its
//! children, and a parent that only borrows them.

pub mod borrowed;
pub mod owned;
