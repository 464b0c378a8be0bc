//! A small library that turns an image file's bytes into a compact,
//! self-contained thumbnail: the bytes are decoded, scaled down to a fixed
//! width with the aspect ratio preserved, re-encoded as JPEG, and packaged
//! as a `data:` URI together with the final pixel dimensions.

pub mod codec;
pub mod errors;
pub mod geometry;
pub mod imgops;
pub mod thumbnail;
