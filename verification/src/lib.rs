//! Small verified building blocks: integer helpers, a car record, and three
//! flavours of process descriptor.

pub mod car;
pub mod numeric;
pub mod os;
pub mod ownership;
