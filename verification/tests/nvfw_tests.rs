use nova_core::layout::{read_u16, read_u32s, write_u16, write_u32, write_u32s, write_u64};
use nova_core::nvfw::r570_133_07::{
    s_GspFwWprMeta, s_PACKED_REGISTRY_TABLE, s_rpc_message_header_v03_00,
    s_UpdateBarPde_v15_00, s_rpc_update_bar_pde_v15_00, GSP_FW_HEAP_PARAM_CLIENT_ALLOC_SIZE,
    GSP_FW_WPR_META_MAGIC, NV_VGPU_MSG_FUNCTION_GSP_RM_ALLOC,
};

#[test]
fn layout_primitives_are_little_endian() {
    let mut buf = [0u8; 16];
    write_u32(&mut buf, 2, 0x11223344);
    assert_eq!(buf[2..6], [0x44, 0x33, 0x22, 0x11]);
    write_u16(&mut buf, 0, 0xbeef);
    assert_eq!(read_u16(&buf, 0), 0xbeef);
    write_u64(&mut buf, 8, 0x0102030405060708);
    assert_eq!(buf[8..16], [8, 7, 6, 5, 4, 3, 2, 1]);
    write_u32s(&mut buf, 0, &[1u32, 2]);
    let back: [u32; 2] = read_u32s(&buf, 0);
    assert_eq!(back, [1, 2]);
}

#[test]
fn constants_keep_their_values() {
    assert_eq!(NV_VGPU_MSG_FUNCTION_GSP_RM_ALLOC, 103);
    assert_eq!(GSP_FW_WPR_META_MAGIC, 0xdc3aae21371a60b3);
    assert_eq!(GSP_FW_HEAP_PARAM_CLIENT_ALLOC_SIZE, (48 << 10) * 2048);
}

#[test]
fn message_header_fields_round_trip() {
    let mut buf = vec![0u8; 32];
    {
        let mut h = s_rpc_message_header_v03_00::new(&mut buf)
            .header_version(0x03000000)
            .signature(0x43505256)
            .length(64);
        h.set_function(NV_VGPU_MSG_FUNCTION_GSP_RM_ALLOC);
        h.set_sequence(7);
        assert_eq!(h.get_header_version(), 0x03000000);
        assert_eq!(h.get_signature(), 0x43505256);
        assert_eq!(h.get_length(), 64);
        assert_eq!(h.get_function(), 103);
        assert_eq!(h.get_sequence(), 7);
        assert_eq!(h.get_rpc_result(), 0);
        let mut u = h.new_S_u();
        u.set_spare(0xaabbccdd);
        assert_eq!(u.get_cpuRmGfid(), 0xaabbccdd);
    }
    assert_eq!(s_rpc_message_header_v03_00::str_size(), 32);
    assert_eq!(buf[28..32], [0xdd, 0xcc, 0xbb, 0xaa]);
    assert_eq!(buf[12..16], [103, 0, 0, 0]);
}

#[test]
fn substructure_writes_reach_the_parent() {
    let mut buf = vec![0u8; 24];
    {
        let mut rpc = s_rpc_update_bar_pde_v15_00::new(&mut buf);
        let mut info = rpc.new_S_info();
        info.set_barType(2);
        info.set_entryValue(0x1122334455667788);
        info.set_entryLevelShift(21);
    }
    let v = s_UpdateBarPde_v15_00::new(&mut buf);
    assert_eq!(v.get_barType(), 2);
    assert_eq!(v.get_entryValue(), 0x1122334455667788);
    assert_eq!(v.get_entryLevelShift(), 21);
}

#[test]
fn array_fields_round_trip() {
    let mut buf = vec![0u8; s_GspFwWprMeta::str_size()];
    let mut m = s_GspFwWprMeta::new(&mut buf).magic(GSP_FW_WPR_META_MAGIC);
    m.set_partitionRpcPadding([1, 2, 3, 4]);
    assert_eq!(m.get_partitionRpcPadding(), [1, 2, 3, 4]);
    assert_eq!(m.get_magic(), GSP_FW_WPR_META_MAGIC);
}

#[test]
fn table_entries_follow_the_header() {
    let mut buf = vec![0u8; 8 + 2 * 16];
    {
        let mut t = s_PACKED_REGISTRY_TABLE::new(&mut buf).size(40).numEntries(2);
        let mut e1 = t.new_S_entries(1);
        e1.set_nameOffset(0x30);
        e1.set_rtype(1);
        e1.set_data(5);
        e1.set_length(4);
    }
    assert_eq!(buf[0..8], [40, 0, 0, 0, 2, 0, 0, 0]);
    assert_eq!(buf[24..28], [0x30, 0, 0, 0]);
    assert_eq!(buf[28], 1);
    assert_eq!(buf[32..36], [5, 0, 0, 0]);
}
