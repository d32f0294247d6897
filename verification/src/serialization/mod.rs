//! The codec capability: how an envelope's two fields become wire bytes.

pub mod bincode;
pub mod bitcode;
pub mod decode;
pub mod encode;
