//! Pure helpers behind the data panels: rendering a selected byte range as a
//! number in a chosen format.

pub mod hxd;
