//! Fixed-capacity arrays indexed by a fixed-width unsigned integer type.
//!
//! Each container owns exactly one slot per representable value of its index
//! type, so every lookup is total: no index can ever be out of range, and no
//! access has a failure path.

pub mod elems;
pub mod u16_array;
pub mod u8_array;

pub use u16_array::U16IndexableArray;
pub use u8_array::U8IndexableArray;
