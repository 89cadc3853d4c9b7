//! Rapid trigger: the state machine of one key, and the poller that drives
//! the keys of a keyboard.

pub mod handler;
pub mod key;
pub mod key_laws;
