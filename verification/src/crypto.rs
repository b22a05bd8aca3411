//! Hash functions with one calling shape: up to 64 bytes in, 32 bytes out.

pub mod hash;
