//! Destinations: the consumers of converted rows.

pub mod arrow2;
