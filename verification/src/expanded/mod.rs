//! Builders as the derive expands them for a few small structs, with the
//! support type that the expanded code refers to.
pub mod uninitialized;
pub mod no_alloc;
pub mod no_std;
pub mod dummy;
