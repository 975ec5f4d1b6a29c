//! RISC-V microcode descriptor of the RM firmware.
#![allow(non_snake_case)]
use vstd::prelude::*;
use crate::layout::{read_u32, u32_at};

verus! {

/// Descriptor of a RISC-V microcode image, as laid out in the firmware.
#[derive(Debug, Clone, Copy)]
pub struct RmRiscvUCodeDesc {
    /// `version` entry of the descriptor.
    pub version: u32,
    /// `bootloaderOffset` entry of the descriptor.
    pub bootloaderOffset: u32,
    /// `bootloaderSize` entry of the descriptor.
    pub bootloaderSize: u32,
    /// `bootloaderParamOffset` entry of the descriptor.
    pub bootloaderParamOffset: u32,
    /// `bootloaderParamSize` entry of the descriptor.
    pub bootloaderParamSize: u32,
    /// `riscvElfOffset` entry of the descriptor.
    pub riscvElfOffset: u32,
    /// `riscvElfSize` entry of the descriptor.
    pub riscvElfSize: u32,
    /// `appVersion` entry of the descriptor.
    pub appVersion: u32,
    /// `manifestOffset` entry of the descriptor.
    pub manifestOffset: u32,
    /// `manifestSize` entry of the descriptor.
    pub manifestSize: u32,
    /// `monitorDataOffset` entry of the descriptor.
    pub monitorDataOffset: u32,
    /// `monitorDataSize` entry of the descriptor.
    pub monitorDataSize: u32,
    /// `monitorCodeOffset` entry of the descriptor.
    pub monitorCodeOffset: u32,
    /// `monitorCodeSize` entry of the descriptor.
    pub monitorCodeSize: u32,
    /// `bIsMonitorEnabled` entry of the descriptor.
    pub bIsMonitorEnabled: u32,
    /// `swbromCodeOffset` entry of the descriptor.
    pub swbromCodeOffset: u32,
    /// `swbromCodeSize` entry of the descriptor.
    pub swbromCodeSize: u32,
    /// `swbromDataOffset` entry of the descriptor.
    pub swbromDataOffset: u32,
    /// `swbromDataSize` entry of the descriptor.
    pub swbromDataSize: u32,
    /// `fbReservedSize` entry of the descriptor.
    pub fbReservedSize: u32,
    /// `bSignedAsCode` entry of the descriptor.
    pub bSignedAsCode: u32,
}

impl RmRiscvUCodeDesc {
    /// Parses the descriptor from the start of `bytes`: its first fourteen little-endian
    /// words, in order; the remaining entries are zero.
    pub fn from_bytes(bytes: &[u8]) -> (r: RmRiscvUCodeDesc)
        requires
            bytes@.len() >= 56,
        ensures
            r.version == u32_at(bytes@, 0),
            r.bootloaderOffset == u32_at(bytes@, 4),
            r.bootloaderSize == u32_at(bytes@, 8),
            r.bootloaderParamOffset == u32_at(bytes@, 12),
            r.bootloaderParamSize == u32_at(bytes@, 16),
            r.riscvElfOffset == u32_at(bytes@, 20),
            r.riscvElfSize == u32_at(bytes@, 24),
            r.appVersion == u32_at(bytes@, 28),
            r.manifestOffset == u32_at(bytes@, 32),
            r.manifestSize == u32_at(bytes@, 36),
            r.monitorDataOffset == u32_at(bytes@, 40),
            r.monitorDataSize == u32_at(bytes@, 44),
            r.monitorCodeOffset == u32_at(bytes@, 48),
            r.monitorCodeSize == u32_at(bytes@, 52),
            r.bIsMonitorEnabled == 0,
            r.swbromCodeOffset == 0,
            r.swbromCodeSize == 0,
            r.swbromDataOffset == 0,
            r.swbromDataSize == 0,
            r.fbReservedSize == 0,
            r.bSignedAsCode == 0,
    {
        RmRiscvUCodeDesc {
            version: read_u32(bytes, 0),
            bootloaderOffset: read_u32(bytes, 4),
            bootloaderSize: read_u32(bytes, 8),
            bootloaderParamOffset: read_u32(bytes, 12),
            bootloaderParamSize: read_u32(bytes, 16),
            riscvElfOffset: read_u32(bytes, 20),
            riscvElfSize: read_u32(bytes, 24),
            appVersion: read_u32(bytes, 28),
            manifestOffset: read_u32(bytes, 32),
            manifestSize: read_u32(bytes, 36),
            monitorDataOffset: read_u32(bytes, 40),
            monitorDataSize: read_u32(bytes, 44),
            monitorCodeOffset: read_u32(bytes, 48),
            monitorCodeSize: read_u32(bytes, 52),
            bIsMonitorEnabled: 0,
            swbromCodeOffset: 0,
            swbromCodeSize: 0,
            swbromDataOffset: 0,
            swbromDataSize: 0,
            fbReservedSize: 0,
            bSignedAsCode: 0,
        }
    }
}

/// Where the parts of a RISC-V firmware start, and its version.
#[derive(Debug, Clone, Copy)]
pub struct RiscvFw {
    /// Offset of the monitor code.
    pub code_offset: u32,
    /// Offset of the monitor data.
    pub data_offset: u32,
    /// Offset of the manifest.
    pub manifest_offset: u32,
    /// Application version.
    pub app_version: u32,
}

impl RiscvFw {
    /// The offsets and version that the firmware's descriptor gives.
    pub fn new_from_desc(riscv_desc: &RmRiscvUCodeDesc) -> (r: RiscvFw)
        ensures
            r.code_offset == riscv_desc.monitorCodeOffset,
            r.data_offset == riscv_desc.monitorDataOffset,
            r.manifest_offset == riscv_desc.manifestOffset,
            r.app_version == riscv_desc.appVersion,
    {
        RiscvFw {
            code_offset: riscv_desc.monitorCodeOffset,
            data_offset: riscv_desc.monitorDataOffset,
            manifest_offset: riscv_desc.manifestOffset,
            app_version: riscv_desc.appVersion,
        }
    }
}

} // verus!
