//! SEC2 falcon firmware: how the boot firmware's load header fills the falcon firmware
//! layout, and how the production signature to patch in is chosen.
use vstd::prelude::*;
use crate::error::{Error, Result};

verus! {

/// Load header (version 2) of a heavy-secure firmware image.
#[derive(Debug, Clone)]
pub struct HsLoadHeader_v2 {
    /// Offset of the OS code.
    pub os_code_offset: u32,
    /// Size of the OS code.
    pub os_code_size: u32,
    /// Offset of the OS data.
    pub os_data_offset: u32,
    /// Size of the OS data.
    pub os_data_size: u32,
    /// Applications, as (offset, size) pairs.
    pub apps: Vec<(u32, u32)>,
}

/// Layout of a falcon firmware in the falcon's memories.
#[derive(Debug, Clone, Copy, Default)]
pub struct FalconFwInfo {
    /// Base of the non-secure code in IMEM.
    pub nmem_base: u32,
    /// Size of the non-secure code.
    pub nmem_size: u32,
    /// Offset of the secure code in the image.
    pub imem_base_img: u32,
    /// Base of the secure code in IMEM.
    pub imem_base: u32,
    /// Size of the secure code.
    pub imem_size: u32,
    /// Offset of the data in the image.
    pub dmem_base_img: u32,
    /// Size of the data.
    pub dmem_size: u32,
    /// Where the signature goes, relative to the data.
    pub dmem_sign: u32,
    /// Boot address.
    pub boot_addr: u32,
    /// Fuse version the firmware was signed for.
    pub fuse_ver: u32,
    /// Engine identifier.
    pub engine_id: u32,
    /// Microcode identifier.
    pub ucode_id: u32,
}

/// SEC2 firmware.
pub struct Sec2Fw {}

impl Sec2Fw {
    /// Fills the firmware layout from the load header, for TU102 and later before GA102;
    /// `loc` is where the signature is patched in.
    pub fn fill_falcon_fw_info_tu102(fwinfo: &mut FalconFwInfo, load_hdr_v2: &HsLoadHeader_v2, loc: u32)
        requires
            load_hdr_v2.apps@.len() >= 1,
            loc >= load_hdr_v2.os_data_offset,
        ensures
            *final(fwinfo) == (FalconFwInfo {
                nmem_base: load_hdr_v2.os_code_offset,
                nmem_size: load_hdr_v2.os_code_size,
                imem_base_img: load_hdr_v2.os_code_size,
                imem_base: load_hdr_v2.apps@[0].0,
                imem_size: load_hdr_v2.apps@[0].1,
                dmem_base_img: load_hdr_v2.os_data_offset,
                dmem_size: load_hdr_v2.os_data_size,
                dmem_sign: (loc - load_hdr_v2.os_data_offset) as u32,
                boot_addr: load_hdr_v2.os_code_offset,
                ..*old(fwinfo)
            }),
    {
        fwinfo.nmem_base = load_hdr_v2.os_code_offset;
        fwinfo.nmem_size = load_hdr_v2.os_code_size;
        fwinfo.imem_base_img = load_hdr_v2.os_code_size;
        fwinfo.imem_base = load_hdr_v2.apps[0].0;
        fwinfo.imem_size = load_hdr_v2.apps[0].1;
        fwinfo.dmem_base_img = load_hdr_v2.os_data_offset;
        fwinfo.dmem_size = load_hdr_v2.os_data_size;
        fwinfo.dmem_sign = loc - load_hdr_v2.os_data_offset;
        fwinfo.boot_addr = load_hdr_v2.os_code_offset;
    }

    /// Fills the firmware layout from the load header and the metadata (fuse version,
    /// engine and microcode identifiers), for GA102 and later.
    pub fn fill_falcon_fw_info_ga102(
        info: &mut FalconFwInfo,
        load_hdr_v2: &HsLoadHeader_v2,
        loc: u32,
        meta: Vec<u32>,
    )
        requires
            load_hdr_v2.apps@.len() >= 1,
            loc >= load_hdr_v2.os_data_offset,
            meta@.len() >= 3,
        ensures
            *final(info) == (FalconFwInfo {
                imem_base_img: load_hdr_v2.apps@[0].0,
                imem_size: load_hdr_v2.apps@[0].1,
                dmem_base_img: load_hdr_v2.os_data_offset,
                dmem_size: load_hdr_v2.os_data_size,
                dmem_sign: (loc - load_hdr_v2.os_data_offset) as u32,
                boot_addr: load_hdr_v2.apps@[0].0,
                fuse_ver: meta@[0],
                engine_id: meta@[1],
                ucode_id: meta@[2],
                ..*old(info)
            }),
    {
        info.imem_base_img = load_hdr_v2.apps[0].0;
        info.imem_size = load_hdr_v2.apps[0].1;
        info.dmem_base_img = load_hdr_v2.os_data_offset;
        info.dmem_size = load_hdr_v2.os_data_size;
        info.dmem_sign = loc - load_hdr_v2.os_data_offset;
        info.boot_addr = load_hdr_v2.apps[0].0;
        info.fuse_ver = meta[0];
        info.engine_id = meta[1];
        info.ucode_id = meta[2];
    }

    /// The fuse register that holds the fuse version of the engine: SEC2 (bit 0), NVDEC
    /// (bit 2) or GSP (bit 10) of the engine identifier, one register per microcode.
    pub open spec fn spec_fuse_version_reg(info: &FalconFwInfo) -> Result<usize> {
        if info.engine_id & 0x1 != 0 {
            Ok((0x824140 + (info.ucode_id - 1) * 4) as usize)
        } else if info.engine_id & 0x4 != 0 {
            Ok((0x824100 + (info.ucode_id - 1) * 4) as usize)
        } else if info.engine_id & 0x400 != 0 {
            Ok((0x8241c0 + (info.ucode_id - 1) * 4) as usize)
        } else {
            Err(Error::Inval)
        }
    }

    /// The register address of the chosen engine can be computed without overflow.
    pub open spec fn fuse_reg_computable(info: &FalconFwInfo) -> bool {
        let u = info.ucode_id;
        if info.engine_id & 0x1 != 0 {
            1 <= u && 0x824140 + (u - 1) * 4 <= u32::MAX
        } else if info.engine_id & 0x4 != 0 {
            1 <= u && 0x824100 + (u - 1) * 4 <= u32::MAX
        } else if info.engine_id & 0x400 != 0 {
            1 <= u && 0x8241c0 + (u - 1) * 4 <= u32::MAX
        } else {
            true
        }
    }

    /// The fuse register to read for the signature choice.
    pub fn fuse_version_reg(info: &FalconFwInfo) -> (r: Result<usize>)
        requires
            Sec2Fw::fuse_reg_computable(info),
        ensures
            r == Sec2Fw::spec_fuse_version_reg(info),
    {
        if info.engine_id & 0x1 != 0 {
            Ok((0x824140 + (info.ucode_id - 1) * 4) as usize)
        } else if info.engine_id & 0x4 != 0 {
            Ok((0x824100 + (info.ucode_id - 1) * 4) as usize)
        } else if info.engine_id & 0x400 != 0 {
            Ok((0x8241c0 + (info.ucode_id - 1) * 4) as usize)
        } else {
            Err(Error::Inval)
        }
    }

    /// Number of significant bits of `v`.
    pub open spec fn spec_bit_len(v: u32) -> u32 {
        (32 - v.leading_zeros()) as u32
    }

    /// Index of the production signature to patch in, given the fuse register's value:
    /// with a nonzero fuse version (its number of significant bits), the signature for the
    /// difference to the firmware's fuse version, which must not be lower; without one,
    /// the last signature.
    pub open spec fn spec_signature_index(info: &FalconFwInfo, reg_fuse_version: u32, sig_nr_prd: usize) -> Result<u32> {
        if reg_fuse_version != 0 {
            let v = Sec2Fw::spec_bit_len(reg_fuse_version);
            if info.fuse_ver < v {
                Err(Error::Inval)
            } else {
                Ok((info.fuse_ver - v) as u32)
            }
        } else {
            Ok((sig_nr_prd - 1) as u32)
        }
    }

    /// Chooses the production signature to patch in.
    pub fn ga102_fw_signature(info: &FalconFwInfo, reg_fuse_version: u32, sig_nr_prd: usize) -> (r: Result<u32>)
        requires
            reg_fuse_version == 0 ==> sig_nr_prd >= 1,
        ensures
            r == Sec2Fw::spec_signature_index(info, reg_fuse_version, sig_nr_prd),
    {
        if reg_fuse_version != 0 {
            let lz = reg_fuse_version.leading_zeros();
            proof {
                vstd::std_specs::bits::axiom_u32_leading_zeros(reg_fuse_version);
            }
            let v = 32 - lz;
            if info.fuse_ver < v {
                return Err(Error::Inval);
            }
            Ok(info.fuse_ver - v)
        } else {
            Ok((sig_nr_prd - 1) as u32)
        }
    }
}

impl Sec2Fw {
    /// Layout of the production signatures in the firmware file: where the signature is
    /// patched in, the size of one signature (their total size split evenly over `cnt`),
    /// how many there are, and where the first one starts (`sig` past the production
    /// signatures' offset).
    pub fn signature_layout(loc: u32, sig_prod_size: u32, cnt: u32, sig_prod_offset: u32, sig: u32) -> (r: (usize, usize, usize, usize))
        requires
            cnt != 0,
            sig_prod_offset + sig <= u32::MAX,
        ensures
            r == (loc as usize, (sig_prod_size / cnt) as usize, cnt as usize, (sig_prod_offset + sig) as usize),
    {
        (loc as usize, (sig_prod_size / cnt) as usize, cnt as usize, (sig_prod_offset + sig) as usize)
    }
}

} // verus!
