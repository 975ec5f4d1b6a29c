use nova_core::error::Error;
use nova_core::regs::{Boot0, RomShadow};
use nova_core::rm::allocation::RmAllocHeader;
use nova_core::rm::control::RmControlHeader;
use nova_core::rm::{check_status, poll_outcome, RmHeader, RmMessage};
use nova_core::rm_riscv::{RiscvFw, RmRiscvUCodeDesc};
use nova_core::sec2::{FalconFwInfo, HsLoadHeader_v2, Sec2Fw};
use nova_core::timer::{Timer, Timestamp, WaitState, MAX_STALLED_READS};
use nova_core::vfn::{Inth, RegWrite, Vfn, VFN_BASE};
use nova_core::vgpu_mgr::{ilog2, VGPUMgr};

#[test]
fn errno_values() {
    assert_eq!(Error::Inval.to_errno(), -22);
    assert_eq!(Error::NoEnt.to_errno(), -2);
    assert_eq!(Error::TimedOut.to_errno(), -110);
    assert_eq!(Error::Io.to_errno(), -5);
    assert_eq!(Error::NxIo.to_errno(), -6);
    assert_eq!(Error::Again.to_errno(), -11);
}

#[test]
fn timestamp_arithmetic_wraps() {
    let t = Timestamp(u64::MAX - 1);
    assert_eq!(t.add_nanos(3), Timestamp(1));
    assert_eq!(Timestamp(1).sub(t), 3);
    assert_eq!(Timestamp(10).add_nanos(5).sub(Timestamp(10)), 5);
    // A duration beyond u64::MAX nanoseconds: its low word is added, then the rest.
    let big = (u64::MAX as u128) + 5;
    assert_eq!(Timestamp(0).add_nanos(big), Timestamp(9));
}

#[test]
fn timer_reads_and_writes() {
    assert_eq!(Timestamp::from_reads(1, 2, 1), Some(Timestamp(0x1_0000_0002)));
    assert_eq!(Timestamp::from_reads(1, 2, 2), None);
    assert_eq!(Timer::time(0x1234_5678_9abc_def0), (0x1234_5678, 0x9abc_def0));
    let _ = Timer::new();
}

#[test]
fn wait_times_out_at_deadline() {
    let mut w = WaitState::new(Timestamp(100), 50);
    assert_eq!(w.deadline, Timestamp(150));
    assert_eq!(w.on_time_read(Timestamp(120)), Ok(()));
    assert_eq!(w.prev_time, Timestamp(120));
    assert_eq!(w.on_time_read(Timestamp(150)), Err(Error::TimedOut));
}

#[test]
fn frozen_timer_times_out() {
    let mut w = WaitState::new(Timestamp(100), 1_000_000);
    for _ in 0..MAX_STALLED_READS {
        assert_eq!(w.on_time_read(Timestamp(100)), Ok(()));
    }
    assert_eq!(w.on_time_read(Timestamp(100)), Err(Error::TimedOut));
    // A moving timer resets the count.
    let mut w = WaitState::new(Timestamp(100), 1_000_000);
    for _ in 0..MAX_STALLED_READS {
        assert_eq!(w.on_time_read(Timestamp(100)), Ok(()));
    }
    assert_eq!(w.on_time_read(Timestamp(101)), Ok(()));
    assert_eq!(w.num_reads, 0);
}

#[test]
fn vfn_translation_and_registers() {
    let mut vfn = Vfn::new();
    assert_eq!(vfn.addr, VFN_BASE);
    assert_eq!(vfn.xlat(0), Ok((0, 1)));
    assert_eq!(vfn.xlat(33), Ok((1, 2)));
    assert_eq!(vfn.xlat(255), Ok((7, 0x8000_0000)));
    assert_eq!(vfn.xlat(256), Err(Error::Inval));
    assert_eq!(
        vfn.intr_allow(37),
        Ok((
            RegWrite { addr: VFN_BASE + 0x1004, value: 0x20 },
            RegWrite { addr: VFN_BASE + 0x1204, value: 0x20 },
        ))
    );
    assert_eq!(vfn.rearm(), RegWrite { addr: VFN_BASE + 0x1608, value: 0xf });
    assert_eq!(vfn.disarm(), RegWrite { addr: VFN_BASE + 0x1610, value: 0xf });
    assert_eq!(vfn.block(2, 5), RegWrite { addr: VFN_BASE + 0x1408, value: 5 });
    assert_eq!(vfn.add_handler(40), Ok(()));
    assert_eq!(vfn.add_handler(300), Err(Error::Inval));
    assert_eq!(vfn.handlers, vec![Inth { leaf: 1, mask: 0x100 }]);
}

#[test]
fn vfn_pending_and_finish() {
    // Top bit 0 covers leaves 0 and 1; bit 1 covers leaves 2 and 3.
    let reads = [0u32, 4, 9, 0, 7, 0, 0, 0];
    assert_eq!(Vfn::pending(0b01, reads), Some([0, 4, 0, 0, 0, 0, 0, 0]));
    assert_eq!(Vfn::pending(0b10, [0, 4, 0, 0, 0, 0, 0, 0]), None);
    assert_eq!(Vfn::pending(0, reads), None);
    assert_eq!(Vfn::leaf_status_offset(3), 0x100c);
    assert!(Vfn::leaf_selected(0b100, 4));
    assert!(!Vfn::leaf_selected(0b100, 3));
    let vfn = Vfn::new();
    let x = [0u32, 4, 9, 0, 0, 0, 0, 0];
    assert!(Vfn::handler_fires(Inth { leaf: 2, mask: 1 }, &x));
    assert!(!Vfn::handler_fires(Inth { leaf: 2, mask: 2 }, &x));
    assert_eq!(
        vfn.finish_irq(&x, 0),
        vec![
            RegWrite { addr: VFN_BASE + 0x1404, value: 4 },
            RegWrite { addr: VFN_BASE + 0x1408, value: 9 },
            RegWrite { addr: VFN_BASE + 0x1608, value: 0xf },
        ]
    );
    assert_eq!(vfn.finish_irq(&x, 1), vec![RegWrite { addr: VFN_BASE + 0x1608, value: 0xf }]);
}

#[test]
fn sec2_firmware_layout() {
    let hdr = HsLoadHeader_v2 {
        os_code_offset: 0x100,
        os_code_size: 0x200,
        os_data_offset: 0x300,
        os_data_size: 0x40,
        apps: vec![(0x400, 0x500)],
    };
    let mut info = FalconFwInfo::default();
    Sec2Fw::fill_falcon_fw_info_tu102(&mut info, &hdr, 0x310);
    assert_eq!((info.nmem_base, info.nmem_size, info.imem_base_img), (0x100, 0x200, 0x200));
    assert_eq!((info.imem_base, info.imem_size), (0x400, 0x500));
    assert_eq!((info.dmem_base_img, info.dmem_size, info.dmem_sign), (0x300, 0x40, 0x10));
    assert_eq!(info.boot_addr, 0x100);
    let mut info = FalconFwInfo::default();
    Sec2Fw::fill_falcon_fw_info_ga102(&mut info, &hdr, 0x320, vec![3, 1, 2]);
    assert_eq!((info.imem_base_img, info.boot_addr, info.dmem_sign), (0x400, 0x400, 0x20));
    assert_eq!((info.fuse_ver, info.engine_id, info.ucode_id), (3, 1, 2));
    assert_eq!(Sec2Fw::fuse_version_reg(&info), Ok(0x824144));
    info.engine_id = 0x4;
    assert_eq!(Sec2Fw::fuse_version_reg(&info), Ok(0x824104));
    info.engine_id = 0x400;
    assert_eq!(Sec2Fw::fuse_version_reg(&info), Ok(0x8241c4));
    info.engine_id = 0x2;
    assert_eq!(Sec2Fw::fuse_version_reg(&info), Err(Error::Inval));
    // Fuse register 0b11 has two significant bits: 3 - 2 = 1.
    assert_eq!(Sec2Fw::ga102_fw_signature(&info, 0b11, 4), Ok(1));
    assert_eq!(Sec2Fw::ga102_fw_signature(&info, 0b1111, 4), Err(Error::Inval));
    assert_eq!(Sec2Fw::ga102_fw_signature(&info, 0, 4), Ok(3));
    assert_eq!(Sec2Fw::signature_layout(0x10, 0x300, 3, 0x1000, 0x20), (0x10, 0x100, 3, 0x1020));
}

#[test]
fn riscv_descriptor() {
    let mut bytes = vec![0u8; 56];
    for i in 0..14u32 {
        bytes[(4 * i) as usize..(4 * i + 4) as usize].copy_from_slice(&(i + 100).to_le_bytes());
    }
    let d = RmRiscvUCodeDesc::from_bytes(&bytes);
    assert_eq!(d.version, 100);
    assert_eq!(d.appVersion, 107);
    assert_eq!(d.monitorCodeSize, 113);
    assert_eq!(d.bSignedAsCode, 0);
    let fw = RiscvFw::new_from_desc(&d);
    assert_eq!((fw.code_offset, fw.data_offset, fw.manifest_offset, fw.app_version), (112, 110, 108, 107));
}

#[test]
fn rm_headers_and_replies() {
    let h = RmAllocHeader::new(1, 2, 3, 4, 5);
    assert_eq!(h.get_status(), 0);
    let bytes = h.to_bytes();
    assert_eq!(bytes.len(), 32);
    assert_eq!(bytes[0..4], [1, 0, 0, 0]);
    assert_eq!(bytes[20..24], [5, 0, 0, 0]);
    assert_eq!(RmAllocHeader::new_from_bytes(&bytes), h);
    let params = [9u8, 8];
    let msg = RmMessage { header: h, params: &params };
    assert_eq!(msg.size(), 34);
    assert_eq!(msg.copy_to_sbuf()[32..], [9, 8]);
    let c = RmControlHeader::new(0xc1, 0x5d, 0x2080_0123, 16);
    let cb = c.to_bytes();
    assert_eq!(cb.len(), 24);
    assert_eq!(cb[8..12], 0x2080_0123u32.to_le_bytes());
    assert_eq!(cb[16..20], [16, 0, 0, 0]);
    assert_eq!(RmControlHeader::new_from_bytes(&cb), c);
    let mut failed = c;
    failed.status = 0x1f;
    assert_eq!(check_status(c.get_status()), Ok(()));
    assert_eq!(check_status(failed.get_status()), Err(Error::Io));
    assert_eq!(poll_outcome::<u32>(Err(Error::Again)), None);
    assert_eq!(poll_outcome::<u32>(Err(Error::Io)), Some(Err(Error::Io)));
    assert_eq!(poll_outcome(Ok(5u32)), Some(Ok(5)));
}

#[test]
fn registers() {
    let b = Boot0(0x1234_5678);
    assert_eq!(b.minor_rev(), 8);
    assert_eq!(b.major_rev(), 7);
    assert_eq!(b.chipset(), 0x123);
    assert_eq!(RomShadow::enable_value(0xff), 0xfe);
    assert_eq!(RomShadow::enable_value(0x10), 0x10);
}

#[test]
fn vgpu_manager() {
    assert_eq!(ilog2(1), 0);
    assert_eq!(ilog2(0x20_0000), 21);
    assert_eq!(ilog2(u64::MAX), 63);
    let m = VGPUMgr::new(true, 0x20_0000);
    assert!(m.nvkm_vgpu_mgr_is_enabled());
    assert_eq!(m.fbmem_shift(true, 12), 21);
    assert_eq!(m.fbmem_shift(false, 12), 12);
    assert_eq!(m.alloc_chids(4), 512);
}
