//! Decoding of Korg NanoKontrol2 control-change messages and tracking of the
//! controller's physical state.

pub mod korg;
