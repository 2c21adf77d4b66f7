//! Customer read-service core: warehouse row decoding, query rendering and
//! the shared client holder.

pub mod decode;
pub mod error;
pub mod holder;
pub mod query;
