//! A pool of caller-supplied objects: the verified core.
pub mod checkout;
pub mod config;
pub mod duration;
pub mod pool;
