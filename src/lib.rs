//! A time-locked token escrow: an owner locks tokens in a vault controlled by a
//! derived, key-less authority, and may take them back once the unlock time has passed.
pub mod address;
pub mod record;
pub mod token;
pub mod lock;
pub mod laws;
pub mod layout;
