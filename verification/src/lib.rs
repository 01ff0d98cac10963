//! A decoder for a RISC-style instruction set: it turns a little-endian byte
//! stream into a typed instruction value, covering the standard 32-bit
//! encoding and the recognized part of the 16-bit compact encoding, across
//! the 32/64/128-bit register-width configurations.

pub mod bytes;
pub mod csr;
pub mod dec;
pub mod extr;
pub mod gpr;
pub mod inst;

pub use bytes::ByteReader;
pub use bytes::ByteSlice;
pub use csr::Csr;
pub use dec::decode;
pub use dec::DecodeError;
pub use dec::Xlen;
pub use gpr::Gpr;
pub use inst::Inst;
