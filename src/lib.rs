//! Protocol layer for a power supply driven over a USB bulk link: the
//! nibble line codec, the reassembly and register transactions of the
//! request/reply exchange, the linear number format of its registers, and
//! the order of a status run.

pub mod codec;
pub mod linear;
pub mod psu;
pub mod session;
pub mod status;
