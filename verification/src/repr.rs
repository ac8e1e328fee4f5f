//! The data carried to and from the remote session store: session metadata,
//! the machine state snapshot, and the token pair returned by a login.

pub mod login;
pub mod session;
