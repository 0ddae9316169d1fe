//! Shadow placement: what a scored placement would have sampled.

pub mod sample;
