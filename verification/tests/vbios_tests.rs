use nova_core::error::Error;
use nova_core::vbios::{
    next_image_offset, u16_from_u8s, BiosImage, BiosImageBase, BitHeader, BitToken, NpdeStruct,
    PciAtBiosImage, PciRomHeader, PcirStruct, ScanAction, ScanStage, Vbios, VbiosScan,
    BIT_TOKEN_ID_FALCON_DATA, ROM_OFFSET,
};

fn put16(buf: &mut [u8], off: usize, v: u16) {
    buf[off] = v as u8;
    buf[off + 1] = (v >> 8) as u8;
}

fn put32(buf: &mut [u8], off: usize, v: u32) {
    for i in 0..4 {
        buf[off + i] = (v >> (8 * i)) as u8;
    }
}

/// A PCIR at `off` with the given length in blocks, code type and last-image byte.
fn put_pcir(buf: &mut [u8], off: usize, image_len: u16, code_type: u8, last: u8) {
    buf[off..off + 4].copy_from_slice(b"PCIR");
    put16(buf, off + 4, 0x10de);
    put16(buf, off + 6, 0x2684);
    put16(buf, off + 10, 24);
    buf[off + 12] = 3;
    buf[off + 13] = 0x00;
    buf[off + 14] = 0x00;
    buf[off + 15] = 0x03;
    put16(buf, off + 16, image_len);
    put16(buf, off + 18, 1);
    buf[off + 20] = code_type;
    buf[off + 21] = last;
}

/// A PC-AT image of two blocks whose Falcon data pointer is `falcon_ptr`.
fn pci_at_image(falcon_ptr: u32) -> Vec<u8> {
    let mut img = vec![0u8; 1024];
    put16(&mut img, 0, 0xAA55);
    put16(&mut img, 24, 0x40);
    put_pcir(&mut img, 0x40, 2, 0x00, 0x00);
    // BIT header at 0x100 with two tokens of six bytes.
    img[0x100..0x106].copy_from_slice(&[0xff, 0xb8, b'B', b'I', b'T', 0]);
    put16(&mut img, 0x106, 0x0100);
    img[0x108] = 12;
    img[0x109] = 6;
    img[0x10a] = 2;
    // token 0: some other table
    img[0x10c] = 0x32;
    img[0x10d] = 1;
    put16(&mut img, 0x10e, 8);
    put16(&mut img, 0x110, 0x180);
    // token 1: the Falcon data
    img[0x112] = BIT_TOKEN_ID_FALCON_DATA;
    img[0x113] = 2;
    put16(&mut img, 0x114, 4);
    put16(&mut img, 0x116, 0x200);
    put32(&mut img, 0x200, falcon_ptr);
    img
}

/// A FWSEC image of one block, marked as the last one through its NPDE.
fn fwsec_image() -> Vec<u8> {
    let mut img = vec![0u8; 512];
    put16(&mut img, 0, 0xAA55);
    put16(&mut img, 24, 0x40);
    put_pcir(&mut img, 0x40, 1, 0xE0, 0x00);
    // NPDE right after the PCIR, aligned to 16 bytes: 0x40 + 24 -> 0x60.
    img[0x60..0x64].copy_from_slice(b"NPDE");
    put16(&mut img, 0x64, 0x0101);
    put16(&mut img, 0x66, 16);
    put16(&mut img, 0x68, 1);
    img[0x6a] = 0x80;
    img
}

fn rom() -> Vec<u8> {
    let mut rom = pci_at_image(0x640);
    rom.extend_from_slice(&fwsec_image());
    rom.resize(4096, 0);
    rom
}

#[test]
fn u16_from_two_bytes() {
    assert_eq!(u16_from_u8s(0x12, 0x34), 0x1234);
    assert_eq!(u16_from_u8s(0, 0xff), 0x00ff);
}

#[test]
fn pcir_parses_fields() {
    let img = pci_at_image(0);
    let p = PcirStruct::try_from(&img[0x40..]).unwrap();
    assert_eq!(&p.signature, b"PCIR");
    assert_eq!(p.vendor_id, 0x10de);
    assert_eq!(p.device_id, 0x2684);
    assert_eq!(p.pci_data_struct_len, 24);
    assert_eq!(p.class_code, [0, 0, 3]);
    assert_eq!(p.image_len, 2);
    assert_eq!(p.code_type, 0);
    assert!(!p.is_last());
    assert_eq!(p.image_size_bytes(), Ok(1024));
}

#[test]
fn pcir_accepts_npds_and_rejects_others() {
    let mut d = vec![0u8; 24];
    d[0..4].copy_from_slice(b"NPDS");
    assert!(PcirStruct::try_from(&d).is_ok());
    d[0..4].copy_from_slice(b"PCIX");
    assert_eq!(PcirStruct::try_from(&d).err(), Some(Error::Inval));
    assert_eq!(PcirStruct::try_from(&d[..23]).err(), Some(Error::Inval));
}

#[test]
fn pcir_zero_length_image_is_invalid() {
    let mut d = vec![0u8; 24];
    put_pcir(&mut d, 0, 0, 0, 0x80);
    let p = PcirStruct::try_from(&d).unwrap();
    assert!(p.is_last());
    assert_eq!(p.image_size_bytes(), Err(Error::Inval));
}

#[test]
fn rom_header_signatures_and_optional_fields() {
    let mut d = vec![0u8; 30];
    put16(&mut d, 0, 0xBB77);
    put16(&mut d, 22, 0x1234);
    put16(&mut d, 24, 0x40);
    put32(&mut d, 26, 0xdeadbeef);
    let h = PciRomHeader::try_from(&d).unwrap();
    assert_eq!(h.signature, 0xBB77);
    assert_eq!(h.pci_data_struct_ptr, 0x40);
    assert_eq!(h.size_of_block, Some(0xdeadbeef));
    assert_eq!(h.nbsi_data_offset, Some(0x1234));
    let h = PciRomHeader::try_from(&d[..26]).unwrap();
    assert_eq!(h.size_of_block, None);
    put16(&mut d, 0, 0x1234);
    assert_eq!(PciRomHeader::try_from(&d).err(), Some(Error::Inval));
}

#[test]
fn bit_header_parses_and_checks_signature() {
    let img = pci_at_image(0);
    let h = BitHeader::try_from(&img[0x100..]).unwrap();
    assert_eq!(h.id, 0xB8FF);
    assert_eq!(&h.signature, b"BIT\0");
    assert_eq!(h.bcd_version, 0x0100);
    assert_eq!((h.header_size, h.token_size, h.token_entries), (12, 6, 2));
    assert_eq!(BitHeader::try_from(&img[0x101..]).err(), Some(Error::Inval));
    assert_eq!(BitHeader::try_from(&img[0x100..0x10b]).err(), Some(Error::Inval));
}

#[test]
fn npde_found_after_pcir() {
    let img = fwsec_image();
    let n = NpdeStruct::find_in_data(&img, 0x40, 24).unwrap();
    assert_eq!(n.subimage_len, 1);
    assert!(n.is_last());
    assert_eq!(n.image_size_bytes(), Ok(512));
    // No NPDE after the PC-AT image's PCIR.
    assert!(NpdeStruct::find_in_data(&pci_at_image(0), 0x40, 24).is_none());
    // Too close to the end.
    assert!(NpdeStruct::find_in_data(&img[..0x6a], 0x40, 24).is_none());
}

#[test]
fn byte_pattern_first_occurrence() {
    let hay = [1u8, 2, 3, 1, 2, 3];
    assert_eq!(PciAtBiosImage::find_byte_pattern(&hay, &[2, 3]), Some(1));
    assert_eq!(PciAtBiosImage::find_byte_pattern(&hay, &[3, 2]), None);
    assert_eq!(PciAtBiosImage::find_byte_pattern(&hay, &[1, 2, 3, 1, 2, 3, 4]), None);
}

#[test]
fn bios_image_types() {
    let img = pci_at_image(0x640);
    match BiosImage::try_from(&img).unwrap() {
        BiosImage::PciAt(p) => {
            assert_eq!(p.bit_offset, Some(0x100));
            let t = p.get_bit_token(BIT_TOKEN_ID_FALCON_DATA).unwrap();
            assert_eq!((t.id, t.data_version, t.data_size, t.data_offset), (0x70, 2, 4, 0x200));
            assert_eq!(p.falcon_data_ptr(), Ok(0x640));
            assert_eq!(p.falcon_data_ptr_offset(), Ok(0x240));
            assert_eq!(BitToken::from_id(&p, 0x99).err(), Some(Error::NoEnt));
        },
        _ => panic!("expected a PC-AT image"),
    }
    let fw = fwsec_image();
    let image = BiosImage::try_from(&fw).unwrap();
    assert!(matches!(image, BiosImage::FwSec(_)));
    assert!(image.is_last());
    assert_eq!(image.image_size_bytes(), Ok(512));
    let mut efi = fwsec_image();
    efi[0x40 + 20] = 0x03;
    assert!(matches!(BiosImage::try_from(&efi).unwrap(), BiosImage::Efi(_)));
    let mut nbsi = fwsec_image();
    nbsi[0x40 + 20] = 0x70;
    nbsi[0x6a] = 0;
    let nbsi_img = BiosImage::try_from(&nbsi).unwrap();
    assert!(nbsi_img.is_last());
    let mut unknown = fwsec_image();
    unknown[0x40 + 20] = 0x42;
    assert_eq!(BiosImage::try_from(&unknown).err(), Some(Error::Inval));
}

#[test]
fn pci_at_image_needs_bit_header() {
    let mut img = pci_at_image(0);
    img[0x100] = 0;
    assert_eq!(BiosImage::try_from(&img).err(), Some(Error::Inval));
}

#[test]
fn truncated_token_table_is_invalid() {
    let img = pci_at_image(0);
    let base = BiosImageBase::try_from(&img[..0x112]).unwrap();
    let p = PciAtBiosImage::try_from_base(base).unwrap();
    // The second entry runs past the end of the data.
    assert_eq!(BitToken::from_id(&p, BIT_TOKEN_ID_FALCON_DATA).err(), Some(Error::Inval));
}

#[test]
fn falcon_pointer_inside_image_is_invalid() {
    let img = pci_at_image(0x100);
    match BiosImage::try_from(&img).unwrap() {
        BiosImage::PciAt(p) => assert_eq!(p.falcon_data_ptr_offset(), Err(Error::Inval)),
        _ => panic!("expected a PC-AT image"),
    }
}

#[test]
fn fwsec_falcon_offset() {
    let mut fw = fwsec_image();
    fw.resize(0x400, 0);
    match BiosImage::try_from(&fw).unwrap() {
        BiosImage::FwSec(mut f) => {
            assert_eq!(f.set_falcon_data_offset(None), Err(Error::Inval));
            assert_eq!(f.set_falcon_data_offset(Some(0x500)), Ok(()));
            assert_eq!(f.falcon_data_offset, None);
            assert_eq!(f.set_falcon_data_offset(Some(0x240)), Ok(()));
            assert_eq!(f.falcon_data_offset, Some(0x240));
        },
        _ => panic!("expected a FWSEC image"),
    }
}

#[test]
fn image_offsets_are_aligned() {
    assert_eq!(next_image_offset(0, 1024), Some(1024));
    assert_eq!(next_image_offset(1024, 600), Some(2048));
    assert_eq!(next_image_offset(0x100000, 512), None);
}

/// Runs the scan over `rom`, reading it as the ROM reader would.
fn run_scan(rom: &[u8]) -> (VbiosScan, Result<(), Error>, Vbios) {
    let mut vbios = Vbios::new();
    let mut scan = VbiosScan::new();
    let mut action = scan.step(&vbios);
    loop {
        match action {
            ScanAction::ReadMore { offset, bytes } => {
                let n = vbios.read_more_at_offset_len(offset, bytes);
                let mut failed = false;
                for _ in 0..n {
                    let addr = vbios.next_rom_addr() - ROM_OFFSET;
                    if addr < rom.len() {
                        vbios.push_rom_byte(rom[addr]);
                    } else {
                        failed = true;
                        break;
                    }
                }
                action = if failed { scan.read_failed(Error::Io) } else { scan.step(&vbios) };
            },
            ScanAction::Stop => return (scan, Ok(()), vbios),
            ScanAction::Fail(e) => return (scan, Err(e), vbios),
        }
    }
}

#[test]
fn scan_finds_falcon_data() {
    let (scan, res, vbios) = run_scan(&rom());
    assert_eq!(res, Ok(()));
    assert!(scan.stage == ScanStage::Done);
    assert_eq!(scan.pci_at_falcon_data_ptr, Some(0x640));
    assert_eq!(scan.pci_at_falcon_data_ptr_offset, Some(0x240));
    assert!(scan.fwsec_image_found);
    assert!(scan.first_e0_done);
    assert_eq!(scan.cur_offset, 1024);
    assert!(vbios.data.len() >= 1536);
    assert_eq!(&vbios.data[..1536], &rom()[..1536]);
}

#[test]
fn scan_fails_on_fwsec_without_pci_at() {
    let mut rom = fwsec_image();
    rom.resize(2048, 0);
    let (_, res, _) = run_scan(&rom);
    assert_eq!(res, Err(Error::Inval));
}

#[test]
fn scan_stops_on_garbage() {
    let rom = vec![0u8; 2048];
    let (scan, res, _) = run_scan(&rom);
    assert_eq!(res, Ok(()));
    assert!(!scan.fwsec_image_found);
    assert_eq!(scan.pci_at_falcon_data_ptr, None);
}

#[test]
fn scan_stops_when_rom_ends_early() {
    let rom = pci_at_image(0x640);
    let (scan, res, _) = run_scan(&rom[..512]);
    assert_eq!(res, Ok(()));
    assert!(scan.stage == ScanStage::Done);
}

#[test]
fn read_more_counts_gap() {
    let mut v = Vbios::new();
    assert_eq!(v.read_more_at_offset_len(16, 8), 24);
    for b in 0..20u8 {
        v.push_rom_byte(b);
    }
    assert_eq!(v.read_more_at_offset_len(16, 8), 8);
    assert_eq!(v.next_rom_addr(), ROM_OFFSET + 20);
}

#[test]
fn token_table_searchability() {
    let img = pci_at_image(0x640);
    match BiosImage::try_from(&img).unwrap() {
        BiosImage::PciAt(p) => {
            assert!(p.token_searchable(BIT_TOKEN_ID_FALCON_DATA));
            assert_eq!(p.base.pcir.code_type, 0);
        },
        _ => panic!("expected a PC-AT image"),
    }
    // A Falcon data entry that fits its 4-byte table slot at the very end of the image
    // still cannot be read as a 6-byte token.
    let mut short = img.clone();
    short[0x109] = 4;
    short[0x110] = BIT_TOKEN_ID_FALCON_DATA;
    let base = BiosImageBase::try_from(&short[..0x114]).unwrap();
    let p = PciAtBiosImage::try_from_base(base).unwrap();
    assert!(!p.token_searchable(BIT_TOKEN_ID_FALCON_DATA));
}

#[test]
fn image_base_and_size() {
    let img = pci_at_image(0x640);
    let image = BiosImage::try_from(&img).unwrap();
    assert_eq!(image.base().rom_header.pci_data_struct_ptr, 0x40);
    assert!(image.base().npde.is_none());
    assert_eq!(image.image_size_bytes(), Ok(1024));
    assert!(!image.is_last());
}
