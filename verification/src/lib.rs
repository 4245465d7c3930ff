//! A small verified virtual CPU: a fetch-decode-execute engine that
//! interprets a fixed-width binary instruction stream against a register
//! file and a bounded, byte-addressable memory, with interrupt-like
//! signal dispatch.

pub mod memory;
pub mod vm;
