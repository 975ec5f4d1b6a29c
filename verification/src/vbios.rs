//! Parsing of the video BIOS (VBIOS) ROM.
//!
//! The ROM is a chain of images. Each image starts with a PCI expansion ROM header that
//! points to a PCI data structure (PCIR), optionally followed by an NVIDIA extension
//! (NPDE). The PC-AT image carries the BIOS Information Table (BIT), whose tokens locate
//! the Falcon data used by the FWSEC image.
use vstd::prelude::*;
use crate::error::{Error, Result};
use crate::layout::{read_u32, read_u8s, u32_at};

verus! {

broadcast use vstd::seq_lib::group_seq_properties;

// ---------------------------------------------------------------------------------------
// Byte helpers
// ---------------------------------------------------------------------------------------

/// The 16-bit value whose high byte is `high` and whose low byte is `low`.
pub open spec fn spec_u16_from_u8s(high: u8, low: u8) -> u16 {
    (high * 256 + low) as u16
}

/// The little-endian 16-bit value stored at byte `off` of `s`.
pub open spec fn le16(s: Seq<u8>, off: int) -> u16 {
    spec_u16_from_u8s(s[off + 1], s[off])
}

/// Creates a `u16` from two `u8` values (little-endian: `high` is the more significant).
pub fn u16_from_u8s(high: u8, low: u8) -> (r: u16)
    ensures
        r == spec_u16_from_u8s(high, low),
        r == high * 256 + low,
{
    let r = ((high as u16) << 8) | (low as u16);
    assert(((high as u16) << 8) | (low as u16) == high * 256 + low) by (bit_vector);
    r
}

/// Whether bit 7 (the "last image" flag) of `b` is set.
pub open spec fn last_image_flag(b: u8) -> bool {
    b >= 0x80
}

/// Bit 7 of `b` is set exactly when `b` is at least 0x80.
proof fn lemma_bit7(b: u8)
    ensures
        (b & 0x80 != 0) == last_image_flag(b),
{
    assert((b & 0x80 != 0) == (b >= 0x80)) by (bit_vector);
}

fn flag_bit7(b: u8) -> (r: bool)
    ensures
        r == last_image_flag(b),
{
    assert((b & 0x80 != 0) == (b >= 0x80)) by (bit_vector);
    b & 0x80 != 0
}

/// The offset of the VBIOS ROM in the BAR0 space.
pub const ROM_OFFSET: usize = 0x300000;

// ---------------------------------------------------------------------------------------
// PCI Data Structure
// ---------------------------------------------------------------------------------------

/// PCI Data Structure as defined in the PCI Firmware Specification.
#[derive(Debug)]
pub struct PcirStruct {
    /// PCI Data Structure signature ("PCIR" or "NPDS").
    pub signature: [u8; 4],
    /// PCI Vendor ID (e.g., 0x10DE for NVIDIA).
    pub vendor_id: u16,
    /// PCI Device ID.
    pub device_id: u16,
    /// Device List Pointer.
    pub device_list_ptr: u16,
    /// PCI Data Structure Length.
    pub pci_data_struct_len: u16,
    /// PCI Data Structure Revision.
    pub pci_data_struct_rev: u8,
    /// Class code (3 bytes, 0x03 for display controller).
    pub class_code: [u8; 3],
    /// Size of this image in 512-byte blocks.
    pub image_len: u16,
    /// Revision Level of the Vendor's ROM.
    pub vendor_rom_rev: u16,
    /// ROM image type (0x00 = PC-AT compatible, 0x03 = EFI, 0x70 = NBSI).
    pub code_type: u8,
    /// Last image indicator (0x00 = Not last image, 0x80 = Last image).
    pub last_image: u8,
    /// Maximum Run-time Image Length (units of 512 bytes).
    pub max_runtime_image_len: u16,
}

/// Whether `s` starts with "PCIR" or with NVIDIA's alternative "NPDS".
pub open spec fn is_pcir_signature(s: Seq<u8>) -> bool {
    ||| s[0] == 0x50u8 && s[1] == 0x43u8 && s[2] == 0x49u8 && s[3] == 0x52u8
    ||| s[0] == 0x4eu8 && s[1] == 0x50u8 && s[2] == 0x44u8 && s[3] == 0x53u8
}

impl PcirStruct {
    /// Whether `data` holds a PCI Data Structure: 24 bytes with a valid signature.
    pub open spec fn valid(data: Seq<u8>) -> bool {
        data.len() >= 24 && is_pcir_signature(data)
    }

    /// Every field of `self` is the one stored in `data`.
    pub open spec fn parsed_from(&self, data: Seq<u8>) -> bool {
        &&& self.signature@ == data.subrange(0, 4)
        &&& self.vendor_id == le16(data, 4)
        &&& self.device_id == le16(data, 6)
        &&& self.device_list_ptr == le16(data, 8)
        &&& self.pci_data_struct_len == le16(data, 10)
        &&& self.pci_data_struct_rev == data[12]
        &&& self.class_code@ == data.subrange(13, 16)
        &&& self.image_len == le16(data, 16)
        &&& self.vendor_rom_rev == le16(data, 18)
        &&& self.code_type == data[20]
        &&& self.last_image == data[21]
        &&& self.max_runtime_image_len == le16(data, 22)
    }

    /// Parses a PCI Data Structure from the start of `data`.
    pub fn try_from(data: &[u8]) -> (r: Result<PcirStruct>)
        ensures
            match r {
                Ok(p) => PcirStruct::valid(data@) && p.parsed_from(data@),
                Err(e) => !PcirStruct::valid(data@) && e == Error::Inval,
            },
    {
        if data.len() < 24 {
            return Err(Error::Inval);
        }
        let signature: [u8; 4] = read_u8s(data, 0);
        let is_pcir = data[0] == 0x50u8 && data[1] == 0x43u8 && data[2] == 0x49u8 && data[3]
            == 0x52u8;
        let is_npds = data[0] == 0x4eu8 && data[1] == 0x50u8 && data[2] == 0x44u8 && data[3]
            == 0x53u8;
        if !is_pcir && !is_npds {
            return Err(Error::Inval);
        }
        let class_code: [u8; 3] = read_u8s(data, 13);
        Ok(PcirStruct {
            signature,
            vendor_id: u16_from_u8s(data[5], data[4]),
            device_id: u16_from_u8s(data[7], data[6]),
            device_list_ptr: u16_from_u8s(data[9], data[8]),
            pci_data_struct_len: u16_from_u8s(data[11], data[10]),
            pci_data_struct_rev: data[12],
            class_code,
            image_len: u16_from_u8s(data[17], data[16]),
            vendor_rom_rev: u16_from_u8s(data[19], data[18]),
            code_type: data[20],
            last_image: data[21],
            max_runtime_image_len: u16_from_u8s(data[23], data[22]),
        })
    }

    /// Checks if this is the last image in the ROM.
    pub fn is_last(&self) -> (r: bool)
        ensures
            r == last_image_flag(self.last_image),
    {
        flag_bit7(self.last_image)
    }

    /// Image size in bytes: `image_len` counts 512-byte blocks; an empty image is invalid.
    pub fn image_size_bytes(&self) -> (r: Result<usize>)
        ensures
            self.image_len > 0 ==> r == Ok::<usize, Error>((self.image_len * 512) as usize),
            self.image_len == 0 ==> r == Err::<usize, Error>(Error::Inval),
    {
        if self.image_len > 0 {
            Ok(self.image_len as usize * 512)
        } else {
            Err(Error::Inval)
        }
    }
}

// ---------------------------------------------------------------------------------------
// BIOS Information Table
// ---------------------------------------------------------------------------------------

/// BIOS Information Table (BIT) Header.
#[derive(Debug, Clone, Copy)]
pub struct BitHeader {
    /// 0h: BIT Header Identifier (0xB8FF).
    pub id: u16,
    /// 2h: BIT Header Signature ("BIT\0").
    pub signature: [u8; 4],
    /// 6h: Binary Coded Decimal Version, ex: 0x0100 is 1.00.
    pub bcd_version: u16,
    /// 8h: Size of BIT Header (in bytes).
    pub header_size: u8,
    /// 9h: Size of BIT Tokens (in bytes).
    pub token_size: u8,
    /// 10h: Number of token entries that follow.
    pub token_entries: u8,
    /// 11h: BIT Header Checksum.
    pub checksum: u8,
}

impl BitHeader {
    /// Whether `data` holds a BIT header: 12 bytes, identifier 0xB8FF and signature "BIT\0".
    pub open spec fn valid(data: Seq<u8>) -> bool {
        &&& data.len() >= 12
        &&& le16(data, 0) == 0xB8FF
        &&& data[2] == 0x42u8 && data[3] == 0x49u8 && data[4] == 0x54u8 && data[5] == 0u8
    }

    /// Every field of `self` is the one stored in `data`.
    pub open spec fn parsed_from(&self, data: Seq<u8>) -> bool {
        &&& self.id == le16(data, 0)
        &&& self.signature@ == data.subrange(2, 6)
        &&& self.bcd_version == le16(data, 6)
        &&& self.header_size == data[8]
        &&& self.token_size == data[9]
        &&& self.token_entries == data[10]
        &&& self.checksum == data[11]
    }

    /// Parses a BIT header from the start of `data`.
    pub fn try_from(data: &[u8]) -> (r: Result<BitHeader>)
        ensures
            match r {
                Ok(h) => BitHeader::valid(data@) && h.parsed_from(data@),
                Err(e) => !BitHeader::valid(data@) && e == Error::Inval,
            },
    {
        if data.len() < 12 {
            return Err(Error::Inval);
        }
        let signature: [u8; 4] = read_u8s(data, 2);
        let id = u16_from_u8s(data[1], data[0]);
        if id != 0xB8FF || data[2] != 0x42u8 || data[3] != 0x49u8 || data[4] != 0x54u8 || data[5]
            != 0u8 {
            return Err(Error::Inval);
        }
        Ok(BitHeader {
            id,
            signature,
            bcd_version: u16_from_u8s(data[7], data[6]),
            header_size: data[8],
            token_size: data[9],
            token_entries: data[10],
            checksum: data[11],
        })
    }
}

/// BIT Token Entry: records in the BIT table that follows the BIT header.
#[derive(Debug, Clone, Copy)]
pub struct BitToken {
    /// Token identifier.
    pub id: u8,
    /// Version of the token data.
    pub data_version: u8,
    /// Size of token data in bytes.
    pub data_size: u16,
    /// Offset to the token data.
    pub data_offset: u16,
}

/// Token ID of the Falcon data.
pub const BIT_TOKEN_ID_FALCON_DATA: u8 = 0x70;

/// Outcome of scanning the BIT token table for an identifier.
pub enum TokenScan {
    /// The first entry with the identifier starts at this byte offset.
    Found(int),
    /// An entry before any match runs past the end of the data.
    Truncated,
    /// All entries fit and none has the identifier.
    Missing,
    /// An entry that fits in the table is still too short to be read.
    Unreadable,
}

/// Scans the table of `count` tokens of `size` bytes each starting at byte `start` of
/// `data`, from entry `i` on, for the identifier `id`.
pub open spec fn scan_tokens(data: Seq<u8>, start: int, size: int, count: int, id: u8, i: int) -> TokenScan
    decreases count - i,
{
    if i >= count {
        TokenScan::Missing
    } else {
        let off = start + i * size;
        if off + size > data.len() {
            TokenScan::Truncated
        } else if off >= data.len() {
            TokenScan::Unreadable
        } else if data[off] == id {
            if off + 6 <= data.len() {
                TokenScan::Found(off)
            } else {
                TokenScan::Unreadable
            }
        } else {
            scan_tokens(data, start, size, count, id, i + 1)
        }
    }
}

/// The token stored at byte `off` of `data`.
pub open spec fn token_at(data: Seq<u8>, off: int) -> BitToken {
    BitToken {
        id: data[off],
        data_version: data[off + 1],
        data_size: le16(data, off + 2),
        data_offset: le16(data, off + 4),
    }
}

// ---------------------------------------------------------------------------------------
// PCI expansion ROM header
// ---------------------------------------------------------------------------------------

/// PCI ROM Expansion Header as defined in the PCI Firmware Specification, with the
/// NBSI-specific fields.
#[derive(Debug, Clone, Copy)]
pub struct PciRomHeader {
    /// 00h: Signature (0xAA55).
    pub signature: u16,
    /// 02h: Reserved bytes for processor architecture unique data (22 bytes).
    pub reserved: [u8; 22],
    /// 16h: NBSI Data Offset (NBSI-specific, offset from header to NBSI image).
    pub nbsi_data_offset: Option<u16>,
    /// 18h: Pointer to PCI Data Structure (offset from start of ROM image).
    pub pci_data_struct_ptr: u16,
    /// 1Ah: Size of Block (NBSI-specific).
    pub size_of_block: Option<u32>,
}

/// Whether `sig` is one of the accepted ROM signatures 0xAA55, 0xBB77 and 0x4E56.
pub open spec fn is_rom_signature(sig: u16) -> bool {
    sig == 0xAA55 || sig == 0xBB77 || sig == 0x4E56
}

impl PciRomHeader {
    /// Whether `data` holds a ROM header: 26 bytes starting with an accepted signature.
    pub open spec fn valid(data: Seq<u8>) -> bool {
        data.len() >= 26 && is_rom_signature(le16(data, 0))
    }

    /// Every field of `self` is the one stored in `data`; the reserved bytes are zero and
    /// the optional fields are present when `data` is long enough to hold them.
    pub open spec fn parsed_from(&self, data: Seq<u8>) -> bool {
        &&& self.signature == le16(data, 0)
        &&& self.reserved@ == Seq::new(22, |i: int| 0u8)
        &&& self.pci_data_struct_ptr == le16(data, 24)
        &&& self.size_of_block == if data.len() >= 30 {
            Some(u32_at(data, 26))
        } else {
            None
        }
        &&& self.nbsi_data_offset == if data.len() >= 24 {
            Some(le16(data, 22))
        } else {
            None
        }
    }

    /// Parses a ROM header from the start of `data`.
    pub fn try_from(data: &[u8]) -> (r: Result<PciRomHeader>)
        ensures
            match r {
                Ok(h) => PciRomHeader::valid(data@) && h.parsed_from(data@),
                Err(e) => !PciRomHeader::valid(data@) && e == Error::Inval,
            },
    {
        if data.len() < 26 {
            return Err(Error::Inval);
        }
        let signature = u16_from_u8s(data[1], data[0]);
        if !(signature == 0xAA55 || signature == 0xBB77 || signature == 0x4E56) {
            return Err(Error::Inval);
        }
        let pci_data_struct_ptr = u16_from_u8s(data[25], data[24]);
        let mut size_of_block = None;
        let mut nbsi_data_offset = None;
        if data.len() >= 30 {
            size_of_block = Some(read_u32(data, 26));
        }
        if data.len() >= 24 {
            nbsi_data_offset = Some(u16_from_u8s(data[23], data[22]));
        }
        let reserved: [u8; 22] = vstd::array::array_fill_for_copy_types(0u8);
        proof {
            assert(reserved@ =~= Seq::new(22, |i: int| 0u8));
        }
        Ok(PciRomHeader { signature, reserved, pci_data_struct_ptr, size_of_block, nbsi_data_offset })
    }
}

// ---------------------------------------------------------------------------------------
// NVIDIA PCI Data Extension
// ---------------------------------------------------------------------------------------

/// NVIDIA PCI Data Extension Structure.
#[derive(Debug)]
pub struct NpdeStruct {
    /// Signature ("NPDE").
    pub signature: [u8; 4],
    /// NVIDIA PCI Data Extension Revision.
    pub npci_data_ext_rev: u16,
    /// NVIDIA PCI Data Extension Length.
    pub npci_data_ext_len: u16,
    /// Sub-image Length (in 512-byte units).
    pub subimage_len: u16,
    /// Last image indicator flag.
    pub last_image: u8,
}

/// `x` rounded up to a multiple of 16.
pub open spec fn align16(x: int) -> int {
    (x + 15) / 16 * 16
}

impl NpdeStruct {
    /// Whether `data` holds an NPDE: 11 bytes starting with "NPDE".
    pub open spec fn valid(data: Seq<u8>) -> bool {
        &&& data.len() >= 11
        &&& data[0] == 0x4eu8 && data[1] == 0x50u8 && data[2] == 0x44u8 && data[3] == 0x45u8
    }

    /// Every field of `self` is the one stored in `data`.
    pub open spec fn parsed_from(&self, data: Seq<u8>) -> bool {
        &&& self.signature@ == data.subrange(0, 4)
        &&& self.npci_data_ext_rev == le16(data, 4)
        &&& self.npci_data_ext_len == le16(data, 6)
        &&& self.subimage_len == le16(data, 8)
        &&& self.last_image == data[10]
    }

    /// Parses an NPDE from the start of `data`.
    pub fn try_from(data: &[u8]) -> (r: Result<NpdeStruct>)
        ensures
            match r {
                Ok(n) => NpdeStruct::valid(data@) && n.parsed_from(data@),
                Err(e) => !NpdeStruct::valid(data@) && e == Error::Inval,
            },
    {
        if data.len() < 11 {
            return Err(Error::Inval);
        }
        let signature: [u8; 4] = read_u8s(data, 0);
        if data[0] != 0x4eu8 || data[1] != 0x50u8 || data[2] != 0x44u8 || data[3] != 0x45u8 {
            return Err(Error::Inval);
        }
        Ok(NpdeStruct {
            signature,
            npci_data_ext_rev: u16_from_u8s(data[5], data[4]),
            npci_data_ext_len: u16_from_u8s(data[7], data[6]),
            subimage_len: u16_from_u8s(data[9], data[8]),
            last_image: data[10],
        })
    }

    /// Checks if this is the last image in the ROM.
    pub fn is_last(&self) -> (r: bool)
        ensures
            r == last_image_flag(self.last_image),
    {
        flag_bit7(self.last_image)
    }

    /// Image size in bytes: `subimage_len` counts 512-byte blocks; zero is invalid.
    pub fn image_size_bytes(&self) -> (r: Result<usize>)
        ensures
            self.subimage_len > 0 ==> r == Ok::<usize, Error>((self.subimage_len * 512) as usize),
            self.subimage_len == 0 ==> r == Err::<usize, Error>(Error::Inval),
    {
        if self.subimage_len > 0 {
            Ok(self.subimage_len as usize * 512)
        } else {
            Err(Error::Inval)
        }
    }

    /// Where the NPDE of a PCIR at `pcir_offset` of length `pcir_len` would start: right
    /// after the PCIR, aligned to 16 bytes.
    pub open spec fn spec_start(pcir_offset: int, pcir_len: int) -> int {
        align16(pcir_offset + pcir_len)
    }

    /// The NPDE is looked for at the first 16-byte boundary at or after the end of the
    /// PCIR.
    pub proof fn lemma_start(pcir_offset: int, pcir_len: int)
        requires
            0 <= pcir_offset,
            0 <= pcir_len,
        ensures
            NpdeStruct::spec_start(pcir_offset, pcir_len) % 16 == 0,
            pcir_offset + pcir_len <= NpdeStruct::spec_start(pcir_offset, pcir_len),
            NpdeStruct::spec_start(pcir_offset, pcir_len) < pcir_offset + pcir_len + 16,
    {
        let e = pcir_offset + pcir_len;
        assert((e + 15) / 16 * 16 % 16 == 0 && e <= (e + 15) / 16 * 16 < e + 16) by (nonlinear_arith)
            requires
                e >= 0,
        ;
    }

    /// An NPDE is found for a PCIR at `pcir_offset` of length `pcir_len` exactly when the
    /// 16-byte boundary `p` that follows the PCIR (`p` a multiple of 16 with
    /// `pcir_offset + pcir_len <= p < pcir_offset + pcir_len + 16`) starts 11 bytes of `data`
    /// that begin with "NPDE"; it is then read from `p`.
    pub proof fn lemma_found_at_boundary(data: Seq<u8>, pcir_offset: int, pcir_len: int, p: int)
        requires
            0 <= pcir_offset,
            0 <= pcir_len,
            p % 16 == 0,
            pcir_offset + pcir_len <= p < pcir_offset + pcir_len + 16,
        ensures
            NpdeStruct::spec_start(pcir_offset, pcir_len) == p,
            NpdeStruct::found_in(data, pcir_offset, pcir_len) <==> (p + 11 <= data.len()
                && data[p] == 0x4eu8 && data[p + 1] == 0x50u8 && data[p + 2] == 0x44u8 && data[p
                + 3] == 0x45u8),
    {
        NpdeStruct::lemma_start(pcir_offset, pcir_len);
        let q = NpdeStruct::spec_start(pcir_offset, pcir_len);
        assert(q == p) by (nonlinear_arith)
            requires
                q % 16 == 0,
                p % 16 == 0,
                pcir_offset + pcir_len <= q < pcir_offset + pcir_len + 16,
                pcir_offset + pcir_len <= p < pcir_offset + pcir_len + 16,
        ;
        if p + 11 <= data.len() {
            let sub = data.subrange(p, data.len() as int);
            assert(sub[0] == data[p] && sub[1] == data[p + 1] && sub[2] == data[p + 2] && sub[3]
                == data[p + 3]);
        }
    }

    /// What `find_in_data` finds in `data`.
    pub open spec fn found_in(data: Seq<u8>, pcir_offset: int, pcir_len: int) -> bool {
        let start = NpdeStruct::spec_start(pcir_offset, pcir_len);
        start + 11 <= data.len() && NpdeStruct::valid(data.subrange(start, data.len() as int))
    }

    /// Looks for the NPDE right after the PCIR structure, aligned to 16 bytes.
    pub fn find_in_data(data: &[u8], pcir_offset: usize, pcir_len: u16) -> (r: Option<NpdeStruct>)
        requires
            pcir_offset + pcir_len + 26 <= usize::MAX,
        ensures
            match r {
                Some(n) => NpdeStruct::found_in(data@, pcir_offset as int, pcir_len as int)
                    && n.parsed_from(
                    data@.subrange(
                        NpdeStruct::spec_start(pcir_offset as int, pcir_len as int),
                        data@.len() as int,
                    ),
                ),
                None => !NpdeStruct::found_in(data@, pcir_offset as int, pcir_len as int),
            },
    {
        let x = pcir_offset + pcir_len as usize + 0x0F;
        let npde_start = x & !0x0Fusize;
        assert(x & !0x0Fusize == x / 16 * 16) by (bit_vector);
        if npde_start + 11 > data.len() {
            return None;
        }
        match NpdeStruct::try_from(vstd::slice::slice_subrange(data, npde_start, data.len())) {
            Ok(npde) => Some(npde),
            Err(_) => None,
        }
    }
}

// ---------------------------------------------------------------------------------------
// BIOS images
// ---------------------------------------------------------------------------------------

/// BIOS image structure containing the headers common to all BIOS images.
#[derive(Debug)]
pub struct BiosImageBase<'a> {
    /// PCI ROM Expansion Header.
    pub rom_header: PciRomHeader,
    /// PCI Data Structure.
    pub pcir: PcirStruct,
    /// NVIDIA PCI Data Extension (optional).
    pub npde: Option<NpdeStruct>,
    /// The image data (includes ROM header and PCIR).
    pub data: &'a [u8],
}

impl<'a> BiosImageBase<'a> {
    /// Whether `data` starts with a ROM header whose PCIR pointer leads to a PCIR.
    pub open spec fn valid(data: Seq<u8>) -> bool {
        &&& PciRomHeader::valid(data.subrange(0, 26))
        &&& le16(data, 24) + 24 <= data.len()
        &&& PcirStruct::valid(data.subrange(le16(data, 24) as int, data.len() as int))
    }

    /// `self` holds the headers found in `data`.
    pub open spec fn parsed_from(&self, data: Seq<u8>) -> bool {
        let ptr = le16(data, 24) as int;
        &&& self.data@ == data
        &&& self.rom_header.parsed_from(data.subrange(0, 26))
        &&& self.pcir.parsed_from(data.subrange(ptr, data.len() as int))
        &&& match self.npde {
            Some(n) => NpdeStruct::found_in(data, ptr, self.pcir.pci_data_struct_len as int)
                && n.parsed_from(
                data.subrange(
                    NpdeStruct::spec_start(ptr, self.pcir.pci_data_struct_len as int),
                    data.len() as int,
                ),
            ),
            None => !NpdeStruct::found_in(data, ptr, self.pcir.pci_data_struct_len as int),
        }
    }

    /// Parses the headers of the BIOS image that `data` holds.
    pub fn try_from(data: &'a [u8]) -> (r: Result<BiosImageBase<'a>>)
        ensures
            match r {
                Ok(b) => data@.len() >= 26 && BiosImageBase::valid(data@) && b.parsed_from(data@),
                Err(e) => !(data@.len() >= 26 && BiosImageBase::valid(data@)) && e == Error::Inval,
            },
    {
        if data.len() < 26 {
            return Err(Error::Inval);
        }
        let rom_header = PciRomHeader::try_from(vstd::slice::slice_subrange(data, 0, 26))?;
        let pcir_offset = rom_header.pci_data_struct_ptr as usize;
        proof {
            assert(data@.subrange(0, 26)[24] == data@[24]);
            assert(data@.subrange(0, 26)[25] == data@[25]);
        }
        if pcir_offset + 24 > data.len() {
            return Err(Error::Inval);
        }
        let pcir = PcirStruct::try_from(vstd::slice::slice_subrange(data, pcir_offset, data.len()))?;
        let npde = NpdeStruct::find_in_data(data, pcir_offset, pcir.pci_data_struct_len);
        Ok(BiosImageBase { rom_header, pcir, npde, data })
    }

    /// Determines the image type and parses the type-specific part.
    pub fn to_image(self) -> (r: Result<BiosImage<'a>>)
        ensures
            BiosImage::built_from(r, self),
    {
        BiosImage::try_from_base(self)
    }
}

/// The byte pattern that starts a BIT header: identifier 0xB8FF and "BIT\0".
pub open spec fn bit_pattern() -> Seq<u8> {
    seq![0xffu8, 0xb8u8, 0x42u8, 0x49u8, 0x54u8, 0x00u8]
}

/// Whether `needle` occurs in `haystack` at index `i`.
pub open spec fn occurs_at(haystack: Seq<u8>, needle: Seq<u8>, i: int) -> bool {
    0 <= i && i + needle.len() <= haystack.len() && haystack.subrange(i, i + needle.len()) == needle
}

/// Whether `i` is the first index at which `needle` occurs in `haystack`.
pub open spec fn first_occurrence(haystack: Seq<u8>, needle: Seq<u8>, i: int) -> bool {
    occurs_at(haystack, needle, i) && forall|j: int| 0 <= j < i ==> !occurs_at(haystack, needle, j)
}

/// Whether the window of `haystack` at `i` equals `needle`.
fn window_matches(haystack: &[u8], i: usize, needle: &[u8]) -> (r: bool)
    requires
        i + needle@.len() <= haystack@.len(),
    ensures
        r == (haystack@.subrange(i as int, i + needle@.len()) == needle@),
{
    let n = needle.len();
    let _h = haystack.len();
    let mut k: usize = 0;
    while k < n
        invariant
            n == needle@.len(),
            haystack@.len() <= usize::MAX,
            i + n <= haystack@.len(),
            0 <= k <= n,
            forall|j: int| 0 <= j < k ==> haystack@[i + j] == needle@[j],
        decreases n - k,
    {
        if haystack[i + k] != needle[k] {
            proof {
                assert(haystack@.subrange(i as int, i + n)[k as int] != needle@[k as int]);
            }
            return false;
        }
        k = k + 1;
    }
    proof {
        assert(haystack@.subrange(i as int, i + n) =~= needle@);
    }
    true
}

/// A PC-AT compatible BIOS image, with its BIOS Information Table.
pub struct PciAtBiosImage<'a> {
    /// The common headers.
    pub base: BiosImageBase<'a>,
    /// The BIT header.
    pub bit_header: Option<BitHeader>,
    /// Offset of the BIT header in the image.
    pub bit_offset: Option<usize>,
}

/// An EFI BIOS image.
pub struct EfiBiosImage<'a> {
    /// The common headers.
    pub base: BiosImageBase<'a>,
}

/// An NBSI (Nvidia Bios System Interface) image.
pub struct NbsiBiosImage<'a> {
    /// The common headers.
    pub base: BiosImageBase<'a>,
}

/// A FWSEC image.
pub struct FwSecBiosImage<'a> {
    /// The common headers.
    pub base: BiosImageBase<'a>,
    /// The offset of the Falcon data from the start of the FWSEC image.
    pub falcon_data_offset: Option<u32>,
}

/// A BIOS image of any of the known types.
pub enum BiosImage<'a> {
    /// PC-AT compatible image (code type 0x00).
    PciAt(PciAtBiosImage<'a>),
    /// EFI image (code type 0x03).
    Efi(EfiBiosImage<'a>),
    /// NBSI image (code type 0x70).
    Nbsi(NbsiBiosImage<'a>),
    /// FWSEC image (code type 0xE0).
    FwSec(FwSecBiosImage<'a>),
}

impl<'a> PciAtBiosImage<'a> {
    /// Finds the first occurrence of `needle` in `haystack`.
    pub fn find_byte_pattern(haystack: &[u8], needle: &[u8]) -> (r: Option<usize>)
        requires
            needle@.len() > 0,
        ensures
            match r {
                Some(i) => first_occurrence(haystack@, needle@, i as int),
                None => forall|j: int| !occurs_at(haystack@, needle@, j),
            },
    {
        let n = needle.len();
        let h = haystack.len();
        if n > h {
            return None;
        }
        let last = h - n;
        let mut i: usize = 0;
        while i <= last
            invariant
                n == needle@.len(),
                h == haystack@.len(),
                0 < n <= h,
                last == h - n,
                0 <= i <= last + 1,
                forall|j: int| 0 <= j < i ==> !occurs_at(haystack@, needle@, j),
            decreases last + 1 - i,
        {
            if window_matches(haystack, i, needle) {
                return Some(i);
            }
            i = i + 1;
        }
        None
    }

    /// Whether `data` holds a BIT header at the first occurrence of the BIT pattern.
    pub open spec fn bit_header_found(data: Seq<u8>) -> bool {
        exists|off: int|
            first_occurrence(data, bit_pattern(), off) && data.len() - off >= 12
    }

    /// Finds the BIT header in the image data.
    pub fn find_bit_header(data: &[u8]) -> (r: Result<(BitHeader, usize)>)
        ensures
            match r {
                Ok((h, off)) => first_occurrence(data@, bit_pattern(), off as int) && data@.len()
                    - off >= 12 && h.parsed_from(data@.subrange(off as int, data@.len() as int)),
                Err(e) => !PciAtBiosImage::bit_header_found(data@) && e == Error::Inval,
            },
    {
        let pattern: [u8; 6] = [0xffu8, 0xb8u8, 0x42u8, 0x49u8, 0x54u8, 0x00u8];
        proof {
            assert(pattern@ =~= bit_pattern());
        }
        let found = Self::find_byte_pattern(data, pattern.as_slice());
        match found {
            None => Err(Error::Inval),
            Some(off) => {
                let hdr = BitHeader::try_from(vstd::slice::slice_subrange(data, off, data.len()));
                match hdr {
                    Ok(h) => Ok((h, off)),
                    Err(e) => {
                        proof {
                            assert forall|o: int|
                                first_occurrence(data@, bit_pattern(), o) implies data@.len() - o
                                < 12 by {
                                if o < off {
                                    assert(!occurs_at(data@, bit_pattern(), o));
                                } else if o > off {
                                    assert(!occurs_at(data@, bit_pattern(), off as int));
                                }
                            }
                        }
                        Err(e)
                    },
                }
            },
        }
    }

    /// `r` is what building a PC-AT image from `base` gives: the image with the BIT header
    /// at the first occurrence of the BIT pattern, or `Inval` when there is none.
    pub open spec fn built_from(r: Result<PciAtBiosImage<'a>>, base: BiosImageBase<'a>) -> bool {
        match r {
            Ok(img) => PciAtBiosImage::bit_header_found(base.data@) && img.base == base
                && img.bit_header is Some && img.bit_offset is Some && first_occurrence(
                base.data@,
                bit_pattern(),
                img.bit_offset->0 as int,
            ) && base.data@.len() - img.bit_offset->0 >= 12
                && img.bit_header->0.parsed_from(
                base.data@.subrange(img.bit_offset->0 as int, base.data@.len() as int),
            ),
            Err(e) => !PciAtBiosImage::bit_header_found(base.data@) && e == Error::Inval,
        }
    }

    /// Builds a PC-AT image from its headers by locating its BIT header.
    pub fn try_from_base(base: BiosImageBase<'a>) -> (r: Result<PciAtBiosImage<'a>>)
        ensures
            PciAtBiosImage::built_from(r, base),
    {
        match Self::find_bit_header(base.data) {
            Ok((bit_header, bit_offset)) => {
                Ok(PciAtBiosImage { base, bit_header: Some(bit_header), bit_offset: Some(bit_offset) })
            },
            Err(e) => Err(e),
        }
    }
}

impl<'a> BiosImage<'a> {
    /// `r` is what determining the image type of `base` gives.
    pub open spec fn built_from(r: Result<BiosImage<'a>>, base: BiosImageBase<'a>) -> bool {
        if base.pcir.code_type == 0x00 {
            match r {
                Ok(BiosImage::PciAt(img)) => PciAtBiosImage::built_from(Ok(img), base),
                Ok(_) => false,
                Err(e) => PciAtBiosImage::built_from(Err(e), base),
            }
        } else if base.pcir.code_type == 0x03 {
            r == Ok::<BiosImage<'a>, Error>(BiosImage::Efi(EfiBiosImage { base }))
        } else if base.pcir.code_type == 0x70 {
            r == Ok::<BiosImage<'a>, Error>(BiosImage::Nbsi(NbsiBiosImage { base }))
        } else if base.pcir.code_type == 0xE0 {
            r == Ok::<BiosImage<'a>, Error>(
                BiosImage::FwSec(FwSecBiosImage { base, falcon_data_offset: None }),
            )
        } else {
            r == Err::<BiosImage<'a>, Error>(Error::Inval)
        }
    }

    /// Determines the image type from the PCIR code type and builds the image.
    pub fn try_from_base(base: BiosImageBase<'a>) -> (r: Result<BiosImage<'a>>)
        ensures
            BiosImage::built_from(r, base),
    {
        let code_type = base.pcir.code_type;
        if code_type == 0x00 {
            match PciAtBiosImage::try_from_base(base) {
                Ok(img) => Ok(BiosImage::PciAt(img)),
                Err(e) => Err(e),
            }
        } else if code_type == 0x03 {
            Ok(BiosImage::Efi(EfiBiosImage { base }))
        } else if code_type == 0x70 {
            Ok(BiosImage::Nbsi(NbsiBiosImage { base }))
        } else if code_type == 0xE0 {
            Ok(BiosImage::FwSec(FwSecBiosImage { base, falcon_data_offset: None }))
        } else {
            Err(Error::Inval)
        }
    }

    /// Parses the BIOS image that `data` holds.
    pub fn try_from(data: &'a [u8]) -> (r: Result<BiosImage<'a>>)
        ensures
            match r {
                Ok(img) => data@.len() >= 26 && BiosImageBase::valid(data@)
                    && img.spec_base().parsed_from(data@)
                    && BiosImage::built_from(r, img.spec_base()),
                Err(e) => !(data@.len() >= 26 && BiosImageBase::valid(data@)) && e == Error::Inval
                    || exists|b: BiosImageBase<'a>| b.parsed_from(data@) && BiosImageBase::valid(data@)
                    && data@.len() >= 26 && #[trigger] BiosImage::built_from(r, b),
            },
    {
        let base = BiosImageBase::try_from(data)?;
        base.to_image()
    }

    /// The common headers of the image.
    pub open spec fn spec_base(&self) -> BiosImageBase<'a> {
        match self {
            BiosImage::PciAt(img) => img.base,
            BiosImage::Efi(img) => img.base,
            BiosImage::Nbsi(img) => img.base,
            BiosImage::FwSec(img) => img.base,
        }
    }

    /// Gets the common BIOS image data regardless of type.
    pub fn base(&self) -> (r: &BiosImageBase<'a>)
        ensures
            *r == self.spec_base(),
    {
        match self {
            BiosImage::PciAt(img) => &img.base,
            BiosImage::Efi(img) => &img.base,
            BiosImage::Nbsi(img) => &img.base,
            BiosImage::FwSec(img) => &img.base,
        }
    }

    /// Whether this is the last image: NBSI images always are; otherwise the NPDE flag
    /// decides when there is an NPDE, else the PCIR flag.
    pub open spec fn spec_is_last(&self) -> bool {
        if self is Nbsi {
            true
        } else {
            match self.spec_base().npde {
                Some(n) => last_image_flag(n.last_image),
                None => last_image_flag(self.spec_base().pcir.last_image),
            }
        }
    }

    /// Checks if this is the last image.
    pub fn is_last(&self) -> (r: bool)
        ensures
            r == self.spec_is_last(),
            self is Nbsi ==> r,
            !(self is Nbsi) && self.spec_base().npde is Some ==> r == (
            self.spec_base().npde->0.last_image & 0x80 != 0),
            !(self is Nbsi) && self.spec_base().npde is None ==> r == (
            self.spec_base().pcir.last_image & 0x80 != 0),
    {
        proof {
            self.lemma_is_last();
        }
        let base = self.base();
        if let BiosImage::Nbsi(_) = self {
            return true;
        }
        match &base.npde {
            Some(npde) => npde.is_last(),
            None => base.pcir.is_last(),
        }
    }

    /// An NBSI image is always the last one. Any other image with an NPDE is the last one
    /// exactly when bit 7 of the NPDE's last-image byte is set, whatever its PCIR says; an
    /// image without an NPDE is the last one exactly when bit 7 of the PCIR's last-image
    /// byte is set.
    pub proof fn lemma_is_last(&self)
        ensures
            self is Nbsi ==> self.spec_is_last(),
            !(self is Nbsi) && self.spec_base().npde is Some ==> self.spec_is_last() == (
            self.spec_base().npde->0.last_image & 0x80 != 0),
            !(self is Nbsi) && self.spec_base().npde is None ==> self.spec_is_last() == (
            self.spec_base().pcir.last_image & 0x80 != 0),
    {
        lemma_bit7(self.spec_base().pcir.last_image);
        if self.spec_base().npde is Some {
            lemma_bit7(self.spec_base().npde->0.last_image);
        }
    }

    /// The image size in 512-byte blocks: from the NPDE when there is one, else from the
    /// PCIR.
    pub open spec fn spec_size_blocks(&self) -> u16 {
        match self.spec_base().npde {
            Some(n) => n.subimage_len,
            None => self.spec_base().pcir.image_len,
        }
    }

    /// Gets the image size in bytes.
    pub fn image_size_bytes(&self) -> (r: Result<usize>)
        ensures
            self.spec_size_blocks() > 0 ==> r == Ok::<usize, Error>(
                (self.spec_size_blocks() * 512) as usize,
            ),
            self.spec_size_blocks() == 0 ==> r == Err::<usize, Error>(Error::Inval),
    {
        let base = self.base();
        match &base.npde {
            Some(npde) => npde.image_size_bytes(),
            None => base.pcir.image_size_bytes(),
        }
    }
}

impl BitToken {
    /// The scan of the BIT token table of `image` for `token_id`.
    pub open spec fn spec_scan(image: &PciAtBiosImage, token_id: u8) -> TokenScan {
        let h = image.bit_header->0;
        scan_tokens(
            image.base.data@,
            image.bit_offset->0 + h.header_size,
            h.token_size as int,
            h.token_entries as int,
            token_id,
            0,
        )
    }

    /// The result of looking up `token_id` in the BIT token table of `image`: the first
    /// entry with that identifier; `Inval` when there is no BIT header or an entry before
    /// it runs past the end of the image; `NoEnt` when no entry has it.
    pub open spec fn spec_from_id(image: &PciAtBiosImage, token_id: u8) -> Result<BitToken> {
        if image.bit_header is None {
            Err(Error::Inval)
        } else {
            match BitToken::spec_scan(image, token_id) {
                TokenScan::Found(off) => Ok(token_at(image.base.data@, off)),
                TokenScan::Truncated => Err(Error::Inval),
                _ => Err(Error::NoEnt),
            }
        }
    }

    /// `image` can be searched: its BIT header comes with an offset, the table lies within
    /// the address space, and the searched entries can be read.
    pub open spec fn searchable(image: &PciAtBiosImage, token_id: u8) -> bool {
        image.bit_header is Some ==> {
            &&& image.bit_offset is Some
            &&& image.bit_offset->0 + 0x10200 <= usize::MAX
            &&& !(BitToken::spec_scan(image, token_id) is Unreadable)
        }
    }

    /// Finds a BIT token entry by BIT ID in a PC-AT BIOS image.
    pub fn from_id(image: &PciAtBiosImage, token_id: u8) -> (r: Result<Self>)
        requires
            BitToken::searchable(image, token_id),
        ensures
            r == BitToken::spec_from_id(image, token_id),
    {
        let header = match &image.bit_header {
            Some(h) => h,
            None => {
                return Err(Error::Inval);
            },
        };
        let bit_offset = match image.bit_offset {
            Some(o) => o,
            None => {
                return Err(Error::Inval);
            },
        };
        let data = image.base.data;
        let tokens_start = bit_offset + header.header_size as usize;
        let size = header.token_size as usize;
        let count = header.token_entries as usize;
        let ghost start = tokens_start as int;
        let mut i: usize = 0;
        while i < count
            invariant
                image.bit_header == Some(*header),
                image.bit_offset == Some(bit_offset),
                data == image.base.data,
                bit_offset + 0x10200 <= usize::MAX,
                tokens_start == bit_offset + header.header_size,
                start == tokens_start,
                size == header.token_size,
                count == header.token_entries,
                0 <= i <= count,
                BitToken::spec_scan(image, token_id) == scan_tokens(
                    data@,
                    start,
                    size as int,
                    count as int,
                    token_id,
                    i as int,
                ),
                !(BitToken::spec_scan(image, token_id) is Unreadable),
            decreases count - i,
        {
            assert(i * size <= 255 * 255) by (nonlinear_arith)
                requires
                    i < 256,
                    size < 256,
            ;
            let entry_offset = tokens_start + i * size;
            proof {
                reveal_with_fuel(scan_tokens, 2);
                assert(data@.len() == data.len());
                assert(entry_offset == start + (i as int) * (size as int));
            }
            if entry_offset + size > data.len() {
                return Err(Error::Inval);
            }
            if data[entry_offset] == token_id {
                return Ok(
                    BitToken {
                        id: data[entry_offset],
                        data_version: data[entry_offset + 1],
                        data_size: u16_from_u8s(data[entry_offset + 3], data[entry_offset + 2]),
                        data_offset: u16_from_u8s(data[entry_offset + 5], data[entry_offset + 4]),
                    },
                );
            }
            i = i + 1;
        }
        Err(Error::NoEnt)
    }
}

impl<'a> PciAtBiosImage<'a> {
    /// Gets a BIT token entry from the BIT table.
    pub fn get_bit_token(&self, token_id: u8) -> (r: Result<BitToken>)
        requires
            BitToken::searchable(self, token_id),
        ensures
            r == BitToken::spec_from_id(self, token_id),
    {
        BitToken::from_id(self, token_id)
    }

    /// The Falcon data pointer: the little-endian `u32` at the data offset of the Falcon
    /// data token; `Inval` when it does not fit in the image.
    pub open spec fn spec_falcon_data_ptr(&self) -> Result<u32> {
        match BitToken::spec_from_id(self, BIT_TOKEN_ID_FALCON_DATA) {
            Ok(t) => if t.data_offset + 4 > self.base.data@.len() {
                Err(Error::Inval)
            } else {
                Ok(u32_at(self.base.data@, t.data_offset as int))
            },
            Err(e) => Err(e),
        }
    }

    /// Finds the Falcon data pointer structure: a 4-byte pointer to the Falcon data in the
    /// FWSEC image.
    pub fn falcon_data_ptr(&self) -> (r: Result<u32>)
        requires
            BitToken::searchable(self, BIT_TOKEN_ID_FALCON_DATA),
        ensures
            r == self.spec_falcon_data_ptr(),
            r matches Ok(p) ==> BitToken::spec_from_id(self, BIT_TOKEN_ID_FALCON_DATA) matches Ok(
                t,
            ) && t.data_offset + 4 <= self.base.data@.len() && p == u32_at(
                self.base.data@,
                t.data_offset as int,
            ),
    {
        let token = self.get_bit_token(BIT_TOKEN_ID_FALCON_DATA)?;
        if token.data_offset as usize + 4 > self.base.data.len() {
            return Err(Error::Inval);
        }
        Ok(read_u32(self.base.data, token.data_offset as usize))
    }

    /// The Falcon data pointer is the whole little-endian `u32` stored at the data offset of
    /// the Falcon data token, which lies within the image; a failed token lookup is passed
    /// on, and a data offset too close to the end of the image gives `Inval`.
    pub proof fn lemma_falcon_data_ptr(&self)
        ensures
            self.spec_falcon_data_ptr() matches Ok(p) ==> BitToken::spec_from_id(
                self,
                BIT_TOKEN_ID_FALCON_DATA,
            ) matches Ok(t) && t.data_offset + 4 <= self.base.data@.len() && p == u32_at(
                self.base.data@,
                t.data_offset as int,
            ),
            BitToken::spec_from_id(self, BIT_TOKEN_ID_FALCON_DATA) matches Ok(t) ==> (
            t.data_offset + 4 <= self.base.data@.len() <==> self.spec_falcon_data_ptr() is Ok),
            BitToken::spec_from_id(self, BIT_TOKEN_ID_FALCON_DATA) matches Err(e)
                ==> self.spec_falcon_data_ptr() == Err::<u32, Error>(e),
    {
    }

    /// The Falcon data pointer taken relative to the end of this image.
    pub open spec fn spec_falcon_data_ptr_offset(&self) -> Result<u32> {
        match self.spec_falcon_data_ptr() {
            Ok(ptr) => if ptr < self.base.data@.len() {
                Err(Error::Inval)
            } else {
                Ok((ptr - self.base.data@.len()) as u32)
            },
            Err(e) => Err(e),
        }
    }

    /// The Falcon data pointer assumes that the PC-AT and FWSEC images are contiguous, but
    /// the EFI image sits in between them: this is the offset from the end of the PC-AT
    /// image to the Falcon data.
    pub fn falcon_data_ptr_offset(&self) -> (r: Result<u32>)
        requires
            BitToken::searchable(self, BIT_TOKEN_ID_FALCON_DATA),
        ensures
            r == self.spec_falcon_data_ptr_offset(),
    {
        let ptr = self.falcon_data_ptr()?;
        if (ptr as usize) < self.base.data.len() {
            return Err(Error::Inval);
        }
        Ok(ptr - self.base.data.len() as u32)
    }
}

impl<'a> FwSecBiosImage<'a> {
    /// Records where the Falcon data starts in this image. Without an offset this fails
    /// with `Inval`; an offset beyond the image (its length taken as a `u32`) is ignored.
    pub fn set_falcon_data_offset(&mut self, falcon_offset: Option<u32>) -> (r: Result<()>)
        ensures
            final(self).base == old(self).base,
            match falcon_offset {
                None => r == Err::<(), Error>(Error::Inval) && final(self).falcon_data_offset
                    == old(self).falcon_data_offset,
                Some(off) => r == Ok::<(), Error>(()) && final(self).falcon_data_offset == if off
                    > (old(self).base.data@.len() as u32) {
                    old(self).falcon_data_offset
                } else {
                    Some(off)
                },
            },
    {
        match falcon_offset {
            Some(offset) => {
                if offset > self.base.data.len() as u32 {
                    return Ok(());
                }
                self.falcon_data_offset = Some(offset);
                Ok(())
            },
            None => Err(Error::Inval),
        }
    }
}

// ---------------------------------------------------------------------------------------
// What an image's bytes determine
// ---------------------------------------------------------------------------------------

/// Offset of the PCIR in the image bytes `s`.
pub open spec fn image_pcir(s: Seq<u8>) -> int {
    le16(s, 24) as int
}

/// Code type of the image bytes `s`.
pub open spec fn image_code_type(s: Seq<u8>) -> u8 {
    s[image_pcir(s) + 20]
}

/// Whether `BiosImage::try_from` accepts the image bytes `s`.
pub open spec fn image_parses(s: Seq<u8>) -> bool {
    &&& s.len() >= 26
    &&& BiosImageBase::valid(s)
    &&& {
        ||| image_code_type(s) == 0x00 && PciAtBiosImage::bit_header_found(s)
        ||| image_code_type(s) == 0x03
        ||| image_code_type(s) == 0x70
        ||| image_code_type(s) == 0xE0
    }
}

/// Whether the image bytes `s` carry an NPDE.
pub open spec fn image_has_npde(s: Seq<u8>) -> bool {
    NpdeStruct::found_in(s, image_pcir(s), le16(s, image_pcir(s) + 10) as int)
}

/// Where the NPDE of the image bytes `s` starts, when there is one.
pub open spec fn image_npde_start(s: Seq<u8>) -> int {
    NpdeStruct::spec_start(image_pcir(s), le16(s, image_pcir(s) + 10) as int)
}

/// Size in 512-byte blocks of the image in `s`: from the NPDE, else from the PCIR.
pub open spec fn image_size_blocks(s: Seq<u8>) -> u16 {
    if image_has_npde(s) {
        le16(s, image_npde_start(s) + 8)
    } else {
        le16(s, image_pcir(s) + 16)
    }
}

/// Whether the image in `s` is the last one of the ROM.
pub open spec fn image_is_last(s: Seq<u8>) -> bool {
    if image_code_type(s) == 0x70 {
        true
    } else if image_has_npde(s) {
        last_image_flag(s[image_npde_start(s) + 10])
    } else {
        last_image_flag(s[image_pcir(s) + 21])
    }
}

/// What the bytes of an image say of its being the last one: an NBSI image always is;
/// another image with an NPDE is when bit 7 of the NPDE's last-image byte is set, whatever
/// the PCIR's last-image byte holds; an image without an NPDE is when bit 7 of the PCIR's
/// last-image byte is set.
pub proof fn lemma_image_is_last(s: Seq<u8>)
    ensures
        image_code_type(s) == 0x70 ==> image_is_last(s),
        image_code_type(s) != 0x70 && image_has_npde(s) ==> image_is_last(s) == (s[image_npde_start(
            s,
        ) + 10] & 0x80 != 0),
        image_code_type(s) != 0x70 && !image_has_npde(s) ==> image_is_last(s) == (s[image_pcir(s)
            + 21] & 0x80 != 0),
{
    lemma_bit7(s[image_pcir(s) + 21]);
    lemma_bit7(s[image_npde_start(s) + 10]);
}

/// First occurrences are unique.
pub proof fn lemma_first_occurrence_unique(h: Seq<u8>, n: Seq<u8>, a: int, b: int)
    requires
        first_occurrence(h, n, a),
        first_occurrence(h, n, b),
    ensures
        a == b,
{
    if a < b {
        assert(!occurs_at(h, n, a));
    } else if b < a {
        assert(!occurs_at(h, n, b));
    }
}

/// Offset of the BIT header in the image bytes `s`.
pub open spec fn image_bit_offset(s: Seq<u8>) -> int {
    choose|o: int| first_occurrence(s, bit_pattern(), o) && s.len() - o >= 12
}

/// The scan of the BIT token table of the PC-AT image bytes `s` for the Falcon data.
pub open spec fn image_falcon_scan(s: Seq<u8>) -> TokenScan {
    let o = image_bit_offset(s);
    scan_tokens(s, o + s[o + 8], s[o + 9] as int, s[o + 10] as int, BIT_TOKEN_ID_FALCON_DATA, 0)
}

/// The Falcon data pointer of the PC-AT image bytes `s`.
pub open spec fn image_falcon_ptr(s: Seq<u8>) -> Result<u32> {
    match image_falcon_scan(s) {
        TokenScan::Found(off) => if le16(s, off + 4) + 4 > s.len() {
            Err(Error::Inval)
        } else {
            Ok(u32_at(s, le16(s, off + 4) as int))
        },
        TokenScan::Truncated => Err(Error::Inval),
        _ => Err(Error::NoEnt),
    }
}

/// The Falcon data pointer of the PC-AT image bytes `s` is the whole little-endian `u32`
/// at the data offset (the little-endian `u16` 4 bytes into the entry) of the first Falcon
/// data token entry; relative to the image's end, it is that pointer less the image length.
pub proof fn lemma_image_falcon_ptr(s: Seq<u8>)
    ensures
        image_falcon_ptr(s) matches Ok(p) ==> image_falcon_scan(s) matches TokenScan::Found(off)
            && le16(s, off + 4) + 4 <= s.len() && p == u32_at(s, le16(s, off + 4) as int),
        image_falcon_ptr_offset(s) matches Ok(q) ==> image_falcon_ptr(s) matches Ok(p) && s.len()
            <= p && q == p - s.len(),
{
}

/// The Falcon data pointer of the PC-AT image bytes `s`, relative to the image's end.
pub open spec fn image_falcon_ptr_offset(s: Seq<u8>) -> Result<u32> {
    match image_falcon_ptr(s) {
        Ok(ptr) => if ptr < s.len() {
            Err(Error::Inval)
        } else {
            Ok((ptr - s.len()) as u32)
        },
        Err(e) => Err(e),
    }
}

/// The token table of the PC-AT image bytes `s` can be searched for the Falcon data.
pub open spec fn image_falcon_searchable(s: Seq<u8>) -> bool {
    &&& image_bit_offset(s) + 0x10200 <= usize::MAX
    &&& !(image_falcon_scan(s) is Unreadable)
}

impl<'a> BiosImage<'a> {
    /// What a parsed image tells about its bytes: they parse, and its size, last-image
    /// flag and (for a PC-AT image) Falcon data pointer are those that its bytes determine.
    pub proof fn lemma_parsed_image(data: Seq<u8>, img: BiosImage<'a>)
        requires
            img.spec_base().parsed_from(data),
            BiosImageBase::valid(data),
            data.len() >= 26,
            BiosImage::built_from(Ok(img), img.spec_base()),
        ensures
            image_parses(data),
            img.spec_size_blocks() == image_size_blocks(data),
            img.spec_is_last() == image_is_last(data),
            img is PciAt <==> image_code_type(data) == 0x00,
            img is FwSec <==> image_code_type(data) == 0xE0,
            img is PciAt ==> {
                let p = img->PciAt_0;
                &&& (BitToken::searchable(&p, BIT_TOKEN_ID_FALCON_DATA) <==> image_falcon_searchable(
                    data,
                ))
                &&& p.spec_falcon_data_ptr() == image_falcon_ptr(data)
                &&& p.spec_falcon_data_ptr_offset() == image_falcon_ptr_offset(data)
            },
    {
        let b = img.spec_base();
        let ptr = image_pcir(data);
        let sub = data.subrange(ptr, data.len() as int);
        assert(sub[20] == data[ptr + 20]);
        assert(sub[21] == data[ptr + 21]);
        assert(sub[16] == data[ptr + 16] && sub[17] == data[ptr + 17]);
        assert(sub[10] == data[ptr + 10] && sub[11] == data[ptr + 11]);
        if b.npde is Some {
            let st = image_npde_start(data);
            let nsub = data.subrange(st, data.len() as int);
            assert(nsub[8] == data[st + 8] && nsub[9] == data[st + 9]);
            assert(nsub[10] == data[st + 10]);
        }
        if img is PciAt {
            let p = img->PciAt_0;
            let o = p.bit_offset->0 as int;
            assert(first_occurrence(data, bit_pattern(), o) && data.len() - o >= 12);
            let o2 = image_bit_offset(data);
            lemma_first_occurrence_unique(data, bit_pattern(), o, o2);
            let hsub = data.subrange(o, data.len() as int);
            assert(hsub[8] == data[o + 8] && hsub[9] == data[o + 9] && hsub[10] == data[o + 10]);
            match BitToken::spec_scan(&p, BIT_TOKEN_ID_FALCON_DATA) {
                TokenScan::Found(off) => {
                    assert(p.base.data@ == data);
                },
                _ => {},
            }
        }
    }
}

impl<'a> BiosImage<'a> {
    /// Image bytes that `BiosImage::try_from` rejects do not parse.
    pub proof fn lemma_rejected_image(data: Seq<u8>, e: Error)
        requires
            !(data.len() >= 26 && BiosImageBase::valid(data)) && e == Error::Inval
                || exists|b: BiosImageBase<'a>|
                b.parsed_from(data) && BiosImageBase::valid(data) && data.len() >= 26
                    && #[trigger] BiosImage::built_from(Err(e), b),
        ensures
            !image_parses(data),
    {
        if data.len() >= 26 && BiosImageBase::valid(data) {
            let b = choose|b: BiosImageBase<'a>|
                b.parsed_from(data) && BiosImageBase::valid(data) && data.len() >= 26
                    && #[trigger] BiosImage::built_from(Err(e), b);
            let ptr = image_pcir(data);
            let sub = data.subrange(ptr, data.len() as int);
            assert(sub[20] == data[ptr + 20]);
        }
    }
}

// ---------------------------------------------------------------------------------------
// The VBIOS and the scan of its images
// ---------------------------------------------------------------------------------------

/// VBIOS data read from the ROM so far.
pub struct Vbios {
    /// VBIOS version.
    pub version: u16,
    /// VBIOS data, in ROM order from the start of the ROM.
    pub data: Vec<u8>,
}

impl Vbios {
    /// A VBIOS of which nothing has been read yet.
    pub fn new() -> (r: Vbios)
        ensures
            r.version == 0,
            r.data@ == Seq::<u8>::empty(),
    {
        Vbios { version: 0, data: Vec::new() }
    }

    /// Address in BAR0 of the next ROM byte to read: the byte after those read so far.
    pub fn next_rom_addr(&self) -> (r: usize)
        requires
            ROM_OFFSET + self.data@.len() <= usize::MAX,
        ensures
            r == ROM_OFFSET + self.data@.len(),
    {
        ROM_OFFSET + self.data.len()
    }

    /// Appends a byte read from the ROM.
    pub fn push_rom_byte(&mut self, byte: u8)
        ensures
            final(self).data@ == old(self).data@.push(byte),
            final(self).version == old(self).version,
    {
        self.data.push(byte);
    }

    /// Number of bytes that reading `bytes` more at `offset` appends: first the gap up to
    /// `offset` when the data stops short of it, then `bytes` more.
    pub open spec fn spec_read_more_at_offset_len(&self, offset: u32, bytes: u32) -> int {
        if offset > self.data@.len() {
            offset - self.data@.len() + bytes
        } else {
            bytes as int
        }
    }

    /// Number of bytes that reading `bytes` more at `offset` appends.
    pub fn read_more_at_offset_len(&self, offset: u32, bytes: u32) -> (r: usize)
        requires
            offset + bytes <= usize::MAX,
        ensures
            r == self.spec_read_more_at_offset_len(offset, bytes),
    {
        let current_len = self.data.len();
        if offset as usize > current_len {
            (offset as usize - current_len) + bytes as usize
        } else {
            bytes as usize
        }
    }

    /// The image bytes `data[offset..offset + bytes]`.
    pub open spec fn image_bytes(&self, offset: int, bytes: int) -> Seq<u8> {
        self.data@.subrange(offset, offset + bytes)
    }

    /// Parses the BIOS image in `data[offset..offset + bytes]`.
    pub fn bios_image_at(&self, offset: usize, bytes: usize) -> (r: Result<BiosImage<'_>>)
        requires
            offset + bytes <= self.data@.len(),
        ensures
            match r {
                Ok(img) => image_parses(self.image_bytes(offset as int, bytes as int))
                    && img.spec_base().parsed_from(self.image_bytes(offset as int, bytes as int))
                    && BiosImage::built_from(Ok(img), img.spec_base()),
                Err(e) => !image_parses(self.image_bytes(offset as int, bytes as int)),
            },
    {
        let all = self.data.as_slice();
        proof {
            assert(all@.len() == all.len());
        }
        let slice = vstd::slice::slice_subrange(all, offset, offset + bytes);
        let r = BiosImage::try_from(slice);
        proof {
            if r is Ok {
                BiosImage::lemma_parsed_image(slice@, r->Ok_0);
            } else {
                BiosImage::lemma_rejected_image(slice@, r->Err_0);
            }
        }
        r
    }
}

/// `cur` advanced past an image of `size` bytes and aligned to 512 bytes, or `None` when
/// that passes the first 1MB of the ROM.
pub open spec fn spec_next_image_offset(cur: int, size: int) -> Option<usize> {
    let next = (cur + size + 511) / 512 * 512;
    if next > 0x100000 {
        None
    } else {
        Some(next as usize)
    }
}

/// The offset of the image that follows an image of `size` bytes at `cur`.
pub fn next_image_offset(cur: usize, size: usize) -> (r: Option<usize>)
    requires
        cur <= 0x100000,
        size <= 0x2000000,
    ensures
        r == spec_next_image_offset(cur as int, size as int),
        r matches Some(n) ==> n % 512 == 0 && n >= cur + size,
{
    let x = cur + size + 511;
    let next = x & !511usize;
    assert(x & !511usize == x / 512 * 512) by (bit_vector);
    assert((x / 512 * 512) % 512 == 0) by (nonlinear_arith);
    if next > 0x100000 {
        None
    } else {
        Some(next)
    }
}

/// What the scan waits for.
#[derive(Clone, Copy, PartialEq, Eq, Structural)]
pub enum ScanStage {
    /// The header of the image at the current offset is needed.
    Header,
    /// More ROM was read so that the header of the current image can be parsed.
    HeaderRead,
    /// The whole image of this size was read at the current offset.
    Image { size: usize },
    /// More ROM was read so that the whole current image can be parsed.
    ImageRead { size: usize },
    /// The scan is over.
    Done,
}

/// What the scan asks of the ROM reader.
#[derive(Clone, Copy, PartialEq, Eq, Structural)]
pub enum ScanAction {
    /// Read `bytes` more at `offset` (after the gap up to `offset`), then step again.
    ReadMore { offset: u32, bytes: u32 },
    /// The scan is over.
    Stop,
    /// The probe fails with this error.
    Fail(Error),
}

/// State of the scan of the BIOS images of the ROM.
pub struct VbiosScan {
    /// Offset of the current image.
    pub cur_offset: usize,
    /// Whether a FWSEC image was met.
    pub first_e0_done: bool,
    /// Falcon data pointer of the PC-AT image.
    pub pci_at_falcon_data_ptr: Option<u32>,
    /// Falcon data pointer of the PC-AT image, relative to the PC-AT image's end.
    pub pci_at_falcon_data_ptr_offset: Option<u32>,
    /// Whether a FWSEC image was found.
    pub fwsec_image_found: bool,
    /// What the scan waits for.
    pub stage: ScanStage,
}

/// Whether scanning the token table can read every entry it visits.
fn token_table_readable(data: &[u8], start: usize, size: u8, count: u8, id: u8) -> (r: bool)
    requires
        start + 0x10100 <= usize::MAX,
    ensures
        r == !(scan_tokens(data@, start as int, size as int, count as int, id, 0) is Unreadable),
{
    let sz = size as usize;
    let cnt = count as usize;
    let mut i: usize = 0;
    while i < cnt
        invariant
            start + 0x10100 <= usize::MAX,
            sz == size,
            cnt == count,
            0 <= i <= cnt,
            scan_tokens(data@, start as int, size as int, count as int, id, 0) == scan_tokens(
                data@,
                start as int,
                size as int,
                count as int,
                id,
                i as int,
            ),
        decreases cnt - i,
    {
        assert(i * sz <= 255 * 255) by (nonlinear_arith)
            requires
                i < 256,
                sz < 256,
        ;
        let entry_offset = start + i * sz;
        proof {
            reveal_with_fuel(scan_tokens, 2);
            assert(data@.len() == data.len());
            assert(entry_offset == start + (i as int) * (size as int));
        }
        if entry_offset + sz > data.len() {
            return true;
        }
        if entry_offset >= data.len() {
            return false;
        }
        if data[entry_offset] == id {
            return entry_offset + 6 <= data.len();
        }
        i = i + 1;
    }
    true
}

impl<'a> PciAtBiosImage<'a> {
    /// Whether the BIT token table can be searched for `token_id`.
    pub fn token_searchable(&self, token_id: u8) -> (r: bool)
        ensures
            r == BitToken::searchable(self, token_id),
    {
        match (&self.bit_header, self.bit_offset) {
            (Some(h), Some(o)) => {
                if o > usize::MAX - 0x10200 {
                    false
                } else {
                    token_table_readable(
                        self.base.data,
                        o + h.header_size as usize,
                        h.token_size,
                        h.token_entries,
                        token_id,
                    )
                }
            },
            (Some(_), None) => false,
            (None, _) => true,
        }
    }
}

impl VbiosScan {
    /// A scan that starts with the image at the start of the ROM.
    pub fn new() -> (r: VbiosScan)
        ensures
            r == (VbiosScan {
                cur_offset: 0,
                first_e0_done: false,
                pci_at_falcon_data_ptr: None,
                pci_at_falcon_data_ptr_offset: None,
                fwsec_image_found: false,
                stage: ScanStage::Header,
            }),
    {
        VbiosScan {
            cur_offset: 0,
            first_e0_done: false,
            pci_at_falcon_data_ptr: None,
            pci_at_falcon_data_ptr_offset: None,
            fwsec_image_found: false,
            stage: ScanStage::Header,
        }
    }

    /// The scan keeps within the first 1MB of the ROM, starts images on 512-byte
    /// boundaries and sizes them in 512-byte blocks.
    pub open spec fn wf(&self) -> bool {
        &&& self.cur_offset <= 0x100000
        &&& self.cur_offset % 512 == 0
        &&& match self.stage {
            ScanStage::Image { size } => 0 < size <= 0xFFFF * 512,
            ScanStage::ImageRead { size } => 0 < size <= 0xFFFF * 512,
            _ => true,
        }
    }

    /// This scan, finished.
    pub open spec fn done(self) -> VbiosScan {
        VbiosScan { stage: ScanStage::Done, ..self }
    }

    /// Step on the header of the image at the current offset; `requested` tells whether
    /// more ROM was already read for it.
    pub open spec fn spec_header(self, data: Seq<u8>, requested: bool) -> (VbiosScan, ScanAction) {
        let cur = self.cur_offset as int;
        if cur + 1024 > data.len() {
            if requested {
                (self.done(), ScanAction::Stop)
            } else {
                (
                    VbiosScan { stage: ScanStage::HeaderRead, ..self },
                    ScanAction::ReadMore { offset: cur as u32, bytes: 1024 },
                )
            }
        } else {
            let s = data.subrange(cur, cur + 1024);
            if !image_parses(s) || image_size_blocks(s) == 0 {
                (self.done(), ScanAction::Stop)
            } else {
                let size = (image_size_blocks(s) * 512) as usize;
                (
                    VbiosScan { stage: ScanStage::Image { size }, ..self },
                    ScanAction::ReadMore { offset: cur as u32, bytes: size as u32 },
                )
            }
        }
    }

    /// Step on the whole image (`s`, of `size` bytes) at the current offset: note the
    /// Falcon data pointer of a PC-AT image, check it for a FWSEC image, and move on to the
    /// next image unless this one is the last. A PC-AT image whose token table cannot be
    /// read up to the Falcon data entry fails the scan with `Inval`.
    pub open spec fn spec_record(self, data: Seq<u8>, s: Seq<u8>, size: int) -> (VbiosScan, ScanAction) {
        let code = image_code_type(s);
        if code == 0x00 && !image_falcon_searchable(s) {
            (self.done(), ScanAction::Fail(Error::Inval))
        } else {
            let st1 = if code == 0x00 {
                VbiosScan {
                    pci_at_falcon_data_ptr: match image_falcon_ptr(s) {
                        Ok(p) => Some(p),
                        Err(_) => self.pci_at_falcon_data_ptr,
                    },
                    pci_at_falcon_data_ptr_offset: match image_falcon_ptr_offset(s) {
                        Ok(o) => Some(o),
                        Err(_) => self.pci_at_falcon_data_ptr_offset,
                    },
                    ..self
                }
            } else {
                self
            };
            if code == 0xE0 && st1.pci_at_falcon_data_ptr_offset is None {
                (VbiosScan { first_e0_done: true, ..st1 }.done(), ScanAction::Fail(Error::Inval))
            } else {
                let st2 = if code == 0xE0 {
                    VbiosScan { first_e0_done: true, fwsec_image_found: true, ..st1 }
                } else {
                    st1
                };
                if image_is_last(s) {
                    (st2.done(), ScanAction::Stop)
                } else {
                    match spec_next_image_offset(self.cur_offset as int, size) {
                        None => (st2.done(), ScanAction::Stop),
                        Some(next) => VbiosScan {
                            cur_offset: next,
                            stage: ScanStage::Header,
                            ..st2
                        }.spec_header(data, false),
                    }
                }
            }
        }
    }

    /// Step on the whole image of `size` bytes at the current offset; `requested` tells
    /// whether more ROM was already read for it.
    pub open spec fn spec_image(self, data: Seq<u8>, size: int, requested: bool) -> (VbiosScan, ScanAction) {
        let cur = self.cur_offset as int;
        if cur + size > data.len() {
            if requested {
                (self.done(), ScanAction::Stop)
            } else {
                (
                    VbiosScan { stage: ScanStage::ImageRead { size: size as usize }, ..self },
                    ScanAction::ReadMore { offset: cur as u32, bytes: size as u32 },
                )
            }
        } else {
            let s = data.subrange(cur, cur + size);
            if !image_parses(s) {
                (self.done(), ScanAction::Stop)
            } else {
                self.spec_record(data, s, size)
            }
        }
    }

    /// The next state and action of the scan, given the ROM bytes `data` read so far.
    pub open spec fn spec_step(self, data: Seq<u8>) -> (VbiosScan, ScanAction) {
        match self.stage {
            ScanStage::Header => self.spec_header(data, false),
            ScanStage::HeaderRead => self.spec_header(data, true),
            ScanStage::Image { size } => self.spec_image(data, size as int, false),
            ScanStage::ImageRead { size } => self.spec_image(data, size as int, true),
            ScanStage::Done => (self, ScanAction::Stop),
        }
    }

    fn header_step(&mut self, vbios: &Vbios, requested: bool) -> (r: ScanAction)
        requires
            old(self).wf(),
        ensures
            final(self).wf(),
            (*final(self), r) == old(self).spec_header(vbios.data@, requested),
            final(self).cur_offset >= old(self).cur_offset,
            r matches ScanAction::ReadMore { offset, bytes } ==> offset == final(self).cur_offset
                && bytes > 0,
    {
        let cur = self.cur_offset;
        if cur + 1024 > vbios.data.len() {
            if requested {
                self.stage = ScanStage::Done;
                return ScanAction::Stop;
            } else {
                self.stage = ScanStage::HeaderRead;
                return ScanAction::ReadMore { offset: cur as u32, bytes: 1024 };
            }
        }
        let size = match vbios.bios_image_at(cur, 1024) {
            Ok(image) => match image.image_size_bytes() {
                Ok(size) => size,
                Err(_) => {
                    self.stage = ScanStage::Done;
                    return ScanAction::Stop;
                },
            },
            Err(_) => {
                self.stage = ScanStage::Done;
                return ScanAction::Stop;
            },
        };
        self.stage = ScanStage::Image { size };
        ScanAction::ReadMore { offset: cur as u32, bytes: size as u32 }
    }

    fn record_image(&mut self, vbios: &Vbios, size: usize) -> (r: ScanAction)
        requires
            old(self).wf(),
            0 < size <= 0xFFFF * 512,
            old(self).cur_offset + size <= vbios.data@.len(),
            image_parses(vbios.image_bytes(old(self).cur_offset as int, size as int)),
        ensures
            final(self).wf(),
            (*final(self), r) == old(self).spec_record(
                vbios.data@,
                vbios.image_bytes(old(self).cur_offset as int, size as int),
                size as int,
            ),
            final(self).cur_offset >= old(self).cur_offset,
            r matches ScanAction::ReadMore { offset, bytes } ==> offset == final(self).cur_offset
                && bytes > 0,
    {
        let cur = self.cur_offset;
        let mut full_image = match vbios.bios_image_at(cur, size) {
            Ok(img) => img,
            Err(_) => {
                self.stage = ScanStage::Done;
                return ScanAction::Stop;
            },
        };
        let ghost s = vbios.image_bytes(cur as int, size as int);
        proof {
            BiosImage::lemma_parsed_image(s, full_image);
        }
        if let BiosImage::PciAt(image) = &full_image {
            if !image.token_searchable(BIT_TOKEN_ID_FALCON_DATA) {
                self.stage = ScanStage::Done;
                return ScanAction::Fail(Error::Inval);
            }
            if let Ok(data_ptr) = image.falcon_data_ptr() {
                self.pci_at_falcon_data_ptr = Some(data_ptr);
            }
            if let Ok(data_ptr_offset) = image.falcon_data_ptr_offset() {
                self.pci_at_falcon_data_ptr_offset = Some(data_ptr_offset);
            }
        }
        if let BiosImage::FwSec(fwsec_image) = &mut full_image {
            if !self.first_e0_done {
                self.first_e0_done = true;
            }
            match fwsec_image.set_falcon_data_offset(self.pci_at_falcon_data_ptr_offset) {
                Ok(()) => {},
                Err(e) => {
                    self.stage = ScanStage::Done;
                    return ScanAction::Fail(e);
                },
            }
            self.fwsec_image_found = true;
        }
        if full_image.is_last() {
            self.stage = ScanStage::Done;
            return ScanAction::Stop;
        }
        match next_image_offset(cur, size) {
            None => {
                self.stage = ScanStage::Done;
                ScanAction::Stop
            },
            Some(next) => {
                self.cur_offset = next;
                self.stage = ScanStage::Header;
                self.header_step(vbios, false)
            },
        }
    }

    fn image_step(&mut self, vbios: &Vbios, size: usize, requested: bool) -> (r: ScanAction)
        requires
            old(self).wf(),
            0 < size <= 0xFFFF * 512,
        ensures
            final(self).wf(),
            (*final(self), r) == old(self).spec_image(vbios.data@, size as int, requested),
            final(self).cur_offset >= old(self).cur_offset,
            r matches ScanAction::ReadMore { offset, bytes } ==> offset == final(self).cur_offset
                && bytes > 0,
    {
        let cur = self.cur_offset;
        if cur + size > vbios.data.len() {
            if requested {
                self.stage = ScanStage::Done;
                return ScanAction::Stop;
            } else {
                self.stage = ScanStage::ImageRead { size };
                return ScanAction::ReadMore { offset: cur as u32, bytes: size as u32 };
            }
        }
        match vbios.bios_image_at(cur, size) {
            Ok(_) => {},
            Err(_) => {
                self.stage = ScanStage::Done;
                return ScanAction::Stop;
            },
        }
        self.record_image(vbios, size)
    }

    /// Advances the scan over the ROM bytes read so far, after the start or after the
    /// reader carried out the last `ReadMore` action. The scan never goes back, and it
    /// only asks for ROM bytes at the image it is on.
    pub fn step(&mut self, vbios: &Vbios) -> (r: ScanAction)
        requires
            old(self).wf(),
        ensures
            final(self).wf(),
            (*final(self), r) == old(self).spec_step(vbios.data@),
            final(self).cur_offset >= old(self).cur_offset,
            r matches ScanAction::ReadMore { offset, bytes } ==> offset == final(self).cur_offset
                && bytes > 0,
    {
        match self.stage {
            ScanStage::Header => self.header_step(vbios, false),
            ScanStage::HeaderRead => self.header_step(vbios, true),
            ScanStage::Image { size } => self.image_step(vbios, size, false),
            ScanStage::ImageRead { size } => self.image_step(vbios, size, true),
            ScanStage::Done => ScanAction::Stop,
        }
    }

    /// What the scan does when the reader failed the last `ReadMore` action with `e`:
    /// a failed read of a whole image fails the probe; any other failed read ends the scan.
    pub open spec fn spec_read_failed(self, e: Error) -> (VbiosScan, ScanAction) {
        match self.stage {
            ScanStage::Image { size } => (self.done(), ScanAction::Fail(e)),
            _ => (self.done(), ScanAction::Stop),
        }
    }

    /// Takes note that the reader failed the last `ReadMore` action with `e`.
    pub fn read_failed(&mut self, e: Error) -> (r: ScanAction)
        ensures
            (*final(self), r) == old(self).spec_read_failed(e),
    {
        let action = match self.stage {
            ScanStage::Image { .. } => ScanAction::Fail(e),
            _ => ScanAction::Stop,
        };
        self.stage = ScanStage::Done;
        action
    }
}

} // verus!
