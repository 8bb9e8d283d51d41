//! Verified core of a small aarch64 Zircon-style kernel: PCI configuration
//! addressing, data-cache maintenance plans, busy-wait deadlines, the user
//! register context and its trap decoding, the init-process loader decisions,
//! the debug console syscalls and the OpenCV cross-build configuration.

pub mod error;
pub mod loader;
pub mod cache;
pub mod context;
pub mod debug;
pub mod delay;
pub mod pci;
pub mod xtask;
