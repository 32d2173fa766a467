//! The logic of a binding between a managed host runtime and an embedded,
//! ordered key-value storage engine: what each call's arguments must look
//! like, what is asked of the engine, under which guard, and what the host is
//! told.

pub mod term;
pub mod schema;
pub mod options;
pub mod mode;
pub mod call;
pub mod ops;
pub mod reply;
pub mod cursor;
pub mod laws;
