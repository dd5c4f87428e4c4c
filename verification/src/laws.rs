//! What holds of the index, proved.
//!
//! The statements here tie the functions of the crate together: that a key
//! read back is the key written, that the bytewise order of the order book is
//! the order of the values, that the identity of an order is decided by its
//! terms, that the index lists an order once and at its current value however
//! many events arrive, that a walk of an order book meets every live order
//! and no other, and that a finished lock stays as it is.

pub mod layout;
pub mod locks;
pub mod orders;
pub mod steps;
pub mod tables;
pub mod walks;
