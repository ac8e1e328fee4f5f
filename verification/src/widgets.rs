//! Reusable editing widgets' state and logic: the hexadecimal register editor
//! and the collapsible error list.

pub mod error;
pub mod hex;
