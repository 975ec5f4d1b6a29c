//! Verified core of the nova-core GPU driver: firmware interface layouts, VBIOS parsing,
//! timer arithmetic, interrupt and resource-manager decisions.
pub mod error;
pub mod layout;
pub mod nvfw;
pub mod regs;
pub mod rm;
pub mod rm_riscv;
pub mod sec2;
pub mod timer;
pub mod vbios;
pub mod vfn;
pub mod vgpu_mgr;
