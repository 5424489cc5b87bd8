//! Authentication handshake of the remote-framebuffer display server (SASL
//! mechanism negotiation, challenge-response rounds and admission policy),
//! together with the x86 boot parameter block and the xHCI controller
//! configuration of the virtual-machine host.

pub mod auth;
pub mod bootparam;
pub mod frames;
pub mod mechlist;
pub mod usb;
pub mod wire;
