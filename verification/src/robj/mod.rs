//! Remote objects.

pub mod rw_lock;
