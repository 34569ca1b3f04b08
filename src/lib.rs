//! Time-locked custody: a depositor locks a native or token balance until a
//! deadline, after which only that depositor can take the whole balance back.

pub mod address;
pub mod error;
pub mod record;
pub mod custody;
pub mod laws;
