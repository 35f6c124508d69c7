//! Designation engine: a four-digit code derived from a name, joined with the
//! initials of selected prefix and suffix tags.

pub mod text;
pub mod code;
pub mod compose;
pub mod affix;
pub mod profile;
