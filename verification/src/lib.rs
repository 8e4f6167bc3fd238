//! Names for the kinds of value that a Lua state can hand out.

pub mod kind;
pub mod classify;

pub use crate::classify::value_type;
pub use crate::kind::ValueType;
