//! Control surfaces.

pub mod rotary_encoder;
