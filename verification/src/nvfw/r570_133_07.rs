//! Interface structures and constants of the GSP firmware, release 570.133.07.
//!
//! Each structure is a view over a byte buffer that starts at the structure's first byte
//! and runs to the end of the buffer: the structure itself occupies the first
//! `str_size()` bytes, and variable-length tables that follow some structures are reached
//! through the views as well. Every field is stored little-endian at a fixed offset.
//!
//! A view borrows its buffer mutably. Each method that borrows a view mutably states
//! `final(final(self).store)@ == final(old(self).store)@`: the view stays on the buffer
//! that it was made from, so what is written through it, and through the views of its
//! substructures, ends up in that buffer.
#![allow(non_camel_case_types)]
#![allow(non_snake_case)]
#![allow(non_upper_case_globals)]
#![allow(dead_code)]
use vstd::prelude::*;
use vstd::bytes::*;
use crate::layout::{
    read_u16, read_u16s, read_u32, read_u32s, read_u64, read_u64s, read_u8, read_u8s, splice,
    u16_at, u16s_at, u16s_to_le, u32_at, u32s_at, u32s_to_le, u64_at, u64s_at, u64s_to_le,
    write_u16, write_u16s, write_u32, write_u32s, write_u64, write_u64s, write_u8, write_u8s,
};

verus! {

pub const NV_VGPU_MSG_FUNCTION_UPDATE_BAR_PDE: u32 = 70;
pub const NV_VGPU_MSG_FUNCTION_ALLOC_MEMORY: u32 = 4;
pub const NV_VGPU_MSG_FUNCTION_FREE: u32 = 10;
pub const NV_VGPU_MSG_FUNCTION_CTRL_VASPACE_COPY_SERVER_RESERVED_PDES: u32 = 116;
pub const NV_VGPU_MSG_FUNCTION_GET_GSP_STATIC_INFO: u32 = 65;
pub const NV_VGPU_MSG_FUNCTION_SET_REGISTRY: u32 = 73;
pub const NV_VGPU_MSG_FUNCTION_GSP_RM_ALLOC: u32 = 103;
pub const NV_VGPU_MSG_FUNCTION_GSP_RM_CONTROL: u32 = 76;
pub const NV_VGPU_MSG_FUNCTION_GSP_SET_SYSTEM_INFO: u32 = 72;
pub const NV_VGPU_MSG_FUNCTION_CONTINUATION_RECORD: u32 = 71;
pub const NV_VGPU_MSG_FUNCTION_UNLOADING_GUEST_DRIVER: u32 = 47;
pub const NV_VGPU_MSG_EVENT_GSP_INIT_DONE: u32 = 4097;
pub const NV_VGPU_MSG_EVENT_GSP_RUN_CPU_SEQUENCER: u32 = 4098;
pub const NV_VGPU_MSG_EVENT_POST_EVENT: u32 = 4099;
pub const NV_VGPU_MSG_EVENT_RC_TRIGGERED: u32 = 4100;
pub const NV_VGPU_MSG_EVENT_MMU_FAULT_QUEUED: u32 = 4101;
pub const NV_VGPU_MSG_EVENT_OS_ERROR_LOG: u32 = 4102;
pub const NV_VGPU_MSG_EVENT_GPUACCT_PERFMON_UTIL_SAMPLES: u32 = 4104;
pub const NV_VGPU_MSG_EVENT_PERF_BRIDGELESS_INFO_UPDATE: u32 = 4111;
pub const NV_VGPU_MSG_EVENT_UCODE_LIBOS_PRINT: u32 = 4108;
pub const NV_VGPU_MSG_EVENT_GSP_POST_NOCAT_RECORD: u32 = 4128;
pub const MC_ENGINE_IDX_ACCESS_CNTR: u32 = 60;
pub const MC_ENGINE_IDX_BIF: u32 = 11;
pub const MC_ENGINE_IDX_BLG: u32 = 76;
pub const MC_ENGINE_IDX_BSP: u32 = 65;
pub const MC_ENGINE_IDX_BUF_RESET: u32 = 78;
pub const MC_ENGINE_IDX_BUS: u32 = 7;
pub const MC_ENGINE_IDX_C2C: u32 = 42;
pub const MC_ENGINE_IDX_CE0: u32 = 15;
pub const MC_ENGINE_IDX_CE1: u32 = 16;
pub const MC_ENGINE_IDX_CE10: u32 = 25;
pub const MC_ENGINE_IDX_CE11: u32 = 26;
pub const MC_ENGINE_IDX_CE12: u32 = 27;
pub const MC_ENGINE_IDX_CE13: u32 = 28;
pub const MC_ENGINE_IDX_CE14: u32 = 29;
pub const MC_ENGINE_IDX_CE15: u32 = 30;
pub const MC_ENGINE_IDX_CE16: u32 = 31;
pub const MC_ENGINE_IDX_CE17: u32 = 32;
pub const MC_ENGINE_IDX_CE18: u32 = 33;
pub const MC_ENGINE_IDX_CE19: u32 = 34;
pub const MC_ENGINE_IDX_CE2: u32 = 17;
pub const MC_ENGINE_IDX_CE3: u32 = 18;
pub const MC_ENGINE_IDX_CE4: u32 = 19;
pub const MC_ENGINE_IDX_CE5: u32 = 20;
pub const MC_ENGINE_IDX_CE6: u32 = 21;
pub const MC_ENGINE_IDX_CE7: u32 = 22;
pub const MC_ENGINE_IDX_CE8: u32 = 23;
pub const MC_ENGINE_IDX_CE9: u32 = 24;
pub const MC_ENGINE_IDX_CE_MAX: u32 = MC_ENGINE_IDX_CE19;
pub const MC_ENGINE_IDX_CIPHER: u32 = 10;
pub const MC_ENGINE_IDX_CPU_DOORBELL: u32 = 73;
pub const MC_ENGINE_IDX_DISP: u32 = 2;
pub const MC_ENGINE_IDX_DISP_GSP: u32 = 165;
pub const MC_ENGINE_IDX_DISP_LOW: u32 = 176;
pub const MC_ENGINE_IDX_DPAUX: u32 = 175;
pub const MC_ENGINE_IDX_ESCHED: u32 = 92;
pub const MC_ENGINE_IDX_ESCHED__SIZE: u32 = 64;
pub const MC_ENGINE_IDX_FB: u32 = 3;
pub const MC_ENGINE_IDX_FBHUB: u32 = 44;
pub const MC_ENGINE_IDX_FIFO: u32 = 4;
pub const MC_ENGINE_IDX_FSP: u32 = 48;
pub const MC_ENGINE_IDX_GMMU: u32 = 46;
pub const MC_ENGINE_IDX_GR: u32 = 84;
pub const MC_ENGINE_IDX_GR0: u32 = MC_ENGINE_IDX_GR;
pub const MC_ENGINE_IDX_GR0_FECS_LOG: u32 = MC_ENGINE_IDX_GR_FECS_LOG;
pub const MC_ENGINE_IDX_GR1: u32 = 85;
pub const MC_ENGINE_IDX_GR1_FECS_LOG: u32 = 157;
pub const MC_ENGINE_IDX_GR2: u32 = 86;
pub const MC_ENGINE_IDX_GR2_FECS_LOG: u32 = 158;
pub const MC_ENGINE_IDX_GR3: u32 = 87;
pub const MC_ENGINE_IDX_GR3_FECS_LOG: u32 = 159;
pub const MC_ENGINE_IDX_GR4: u32 = 88;
pub const MC_ENGINE_IDX_GR4_FECS_LOG: u32 = 160;
pub const MC_ENGINE_IDX_GR5: u32 = 89;
pub const MC_ENGINE_IDX_GR5_FECS_LOG: u32 = 161;
pub const MC_ENGINE_IDX_GR6: u32 = 90;
pub const MC_ENGINE_IDX_GR6_FECS_LOG: u32 = 162;
pub const MC_ENGINE_IDX_GR7: u32 = 91;
pub const MC_ENGINE_IDX_GR7_FECS_LOG: u32 = 163;
pub const MC_ENGINE_IDX_GR_FECS_LOG: u32 = 156;
pub const MC_ENGINE_IDX_GSP: u32 = 50;
pub const MC_ENGINE_IDX_GSPLITE: u32 = 171;
pub const MC_ENGINE_IDX_GSPLITE0: u32 = MC_ENGINE_IDX_GSPLITE;
pub const MC_ENGINE_IDX_GSPLITE1: u32 = 172;
pub const MC_ENGINE_IDX_GSPLITE2: u32 = 173;
pub const MC_ENGINE_IDX_GSPLITE3: u32 = 174;
pub const MC_ENGINE_IDX_GSPLITE_MAX: u32 = MC_ENGINE_IDX_GSPLITE3;
pub const MC_ENGINE_IDX_HDACODEC: u32 = 45;
pub const MC_ENGINE_IDX_INFO_FAULT: u32 = 64;
pub const MC_ENGINE_IDX_ISOHUB: u32 = 36;
pub const MC_ENGINE_IDX_LRCC: u32 = 170;
pub const MC_ENGINE_IDX_LTC: u32 = 43;
pub const MC_ENGINE_IDX_MAX: u32 = 177;
pub const MC_ENGINE_IDX_MD: u32 = 6;
pub const MC_ENGINE_IDX_MMU_ECC_ERROR: u32 = 75;
pub const MC_ENGINE_IDX_NON_REPLAYABLE_FAULT: u32 = 61;
pub const MC_ENGINE_IDX_NON_REPLAYABLE_FAULT_CPU: u32 = 167;
pub const MC_ENGINE_IDX_NON_REPLAYABLE_FAULT_ERROR: u32 = 63;
pub const MC_ENGINE_IDX_NULL: u32 = 0;
pub const MC_ENGINE_IDX_NVDEC: u32 = MC_ENGINE_IDX_BSP;
pub const MC_ENGINE_IDX_NVDEC0: u32 = MC_ENGINE_IDX_NVDEC;
pub const MC_ENGINE_IDX_NVDEC1: u32 = 66;
pub const MC_ENGINE_IDX_NVDEC2: u32 = 67;
pub const MC_ENGINE_IDX_NVDEC3: u32 = 68;
pub const MC_ENGINE_IDX_NVDEC4: u32 = 69;
pub const MC_ENGINE_IDX_NVDEC5: u32 = 70;
pub const MC_ENGINE_IDX_NVDEC6: u32 = 71;
pub const MC_ENGINE_IDX_NVDEC7: u32 = 72;
pub const MC_ENGINE_IDX_NVENC: u32 = 38;
pub const MC_ENGINE_IDX_NVENC1: u32 = 39;
pub const MC_ENGINE_IDX_NVENC2: u32 = 40;
pub const MC_ENGINE_IDX_NVENC3: u32 = 41;
pub const MC_ENGINE_IDX_NVJPEG: u32 = MC_ENGINE_IDX_NVJPG;
pub const MC_ENGINE_IDX_NVJPEG0: u32 = MC_ENGINE_IDX_NVJPEG;
pub const MC_ENGINE_IDX_NVJPEG1: u32 = 52;
pub const MC_ENGINE_IDX_NVJPEG2: u32 = 53;
pub const MC_ENGINE_IDX_NVJPEG3: u32 = 54;
pub const MC_ENGINE_IDX_NVJPEG4: u32 = 55;
pub const MC_ENGINE_IDX_NVJPEG5: u32 = 56;
pub const MC_ENGINE_IDX_NVJPEG6: u32 = 57;
pub const MC_ENGINE_IDX_NVJPEG7: u32 = 58;
pub const MC_ENGINE_IDX_NVJPG: u32 = 51;
pub const MC_ENGINE_IDX_NVLINK: u32 = 49;
pub const MC_ENGINE_IDX_OFA0: u32 = 81;
pub const MC_ENGINE_IDX_OFA1: u32 = 82;
pub const MC_ENGINE_IDX_PERFMON: u32 = 77;
pub const MC_ENGINE_IDX_PMGR: u32 = 8;
pub const MC_ENGINE_IDX_PMU: u32 = 14;
pub const MC_ENGINE_IDX_PPP: u32 = 12;
pub const MC_ENGINE_IDX_PRIVRING: u32 = 13;
pub const MC_ENGINE_IDX_PRIV_DOORBELL: u32 = 74;
pub const MC_ENGINE_IDX_PXUC: u32 = 168;
pub const MC_ENGINE_IDX_REPLAYABLE_FAULT: u32 = 59;
pub const MC_ENGINE_IDX_REPLAYABLE_FAULT_CPU: u32 = 166;
pub const MC_ENGINE_IDX_REPLAYABLE_FAULT_ERROR: u32 = 62;
pub const MC_ENGINE_IDX_SEC2: u32 = 47;
pub const MC_ENGINE_IDX_SYSLTC: u32 = 169;
pub const MC_ENGINE_IDX_TEGRA: u32 = 83;
pub const MC_ENGINE_IDX_TMR: u32 = 1;
pub const MC_ENGINE_IDX_TMR_SWRL: u32 = 164;
pub const MC_ENGINE_IDX_VGPU: u32 = 37;
pub const MC_ENGINE_IDX_VIC: u32 = 35;
pub const MC_ENGINE_IDX_VIDEO: u32 = 5;
pub const MC_ENGINE_IDX_VP2: u32 = 9;
pub const MC_ENGINE_IDX_XBAR: u32 = 79;
pub const MC_ENGINE_IDX_ZPW: u32 = 80;
pub const ENGINE_INFO_TYPE_DEV_TYPE_ENUM: u32 = 9;
pub const ENGINE_INFO_TYPE_RM_ENGINE_TYPE: u32 = 2;
pub const ENGINE_INFO_TYPE_RUNLIST: u32 = 3;
pub const ENGINE_INFO_TYPE_RUNLIST_ENGINE_ID: u32 = 13;
pub const ENGINE_INFO_TYPE_RUNLIST_PRI_BASE: u32 = 11;
pub const ENGINE_INFO_TYPE_ENG_DESC: u32 = 0;
pub const GSP_FW_WPR_META_MAGIC: u64 = 0xdc3aae21371a60b3_u64;
pub const GSP_FW_WPR_META_REVISION: u32 = 1;
pub const GSP_FW_SR_META_MAGIC: u64 = 0x8a3bb9e6c6c39d93_u64;
pub const GSP_FW_SR_META_REVISION: u32 = 2;
pub const LIBOS_MEMORY_REGION_CONTIGUOUS: u32 = 1;
pub const LIBOS_MEMORY_REGION_INIT_ARGUMENTS_MAX: u32 = 4096;
pub const LIBOS_MEMORY_REGION_LOC_FB: u32 = 2;
pub const LIBOS_MEMORY_REGION_LOC_NONE: u32 = 0;
pub const LIBOS_MEMORY_REGION_LOC_SYSMEM: u32 = 1;
pub const LIBOS_MEMORY_REGION_NONE: u32 = 0;
pub const LIBOS_MEMORY_REGION_RADIX3: u32 = 2;
pub const LIBOS_MEMORY_REGION_RADIX_PAGE_LOG2: u32 = 12;
pub const LIBOS_MEMORY_REGION_RADIX_PAGE_SIZE: u32 = 4096;
pub const GSP_FW_HEAP_PARAM_SIZE_PER_GB_FB: u32 = 96 << 10;
pub const GSP_FW_HEAP_PARAM_CLIENT_ALLOC_SIZE: u32 = 49152 * 2048;
pub const GSP_FW_HEAP_PARAM_BASE_RM_SIZE_TU10X: u32 = 8 << 20;
pub const GSP_FW_HEAP_PARAM_BASE_RM_SIZE_GH100: u32 = 14 << 20;
pub const GSP_FW_HEAP_PARAM_OS_SIZE_LIBOS2: u32 = 0 << 20;
pub const GSP_FW_HEAP_PARAM_OS_SIZE_LIBOS3_BAREMETAL: u32 = 22 << 20;
pub const GSP_FW_HEAP_SIZE_OVERRIDE_LIBOS2_MIN_MB: u32 = 64;
pub const GSP_FW_HEAP_SIZE_OVERRIDE_LIBOS2_MAX_MB: u32 = 256;
pub const GSP_FW_HEAP_SIZE_OVERRIDE_LIBOS3_BAREMETAL_MIN_MB: u32 = 88;
pub const GSP_FW_HEAP_SIZE_OVERRIDE_LIBOS3_BAREMETAL_MAX_MB: u32 = 280;
pub const LOGIDX_SIZE: u32 = 5;
pub const NV01_ROOT: u32 = 0x0;
pub const NV01_DEVICE_0: u32 = 0x00000080;
pub const NV01_EVENT_KERNEL_CALLBACK_EX: u32 = 0x0000007E;
pub const NV01_EVENT_CLIENT_RM: u32 = 0x04000000;
pub const NV04_DISPLAY_COMMON: u32 = 0x00000073;
pub const NV20_SUBDEVICE_0: u32 = 0x2080;
pub const FERMI_VASPACE_A: u32 = 0x000090f1;
pub const NV2080_CTRL_GPU_SET_POWER_STATE_GPU_LEVEL_0: u32 = 0x00000000;
pub const NV2080_CTRL_GPU_SET_POWER_STATE_GPU_LEVEL_3: u32 = 0x00000003;
pub const NV_RPC_UPDATE_PDE_BAR_2: u32 = 1;
pub const TURING_CHANNEL_GPFIFO_A: u32 = 0x0000c46f;
pub const AMPERE_CHANNEL_GPFIFO_A: u32 = 0x0000c56f;
pub const FERMI_TWOD_A: u32 = 0x0000902d;
pub const KEPLER_INLINE_TO_MEMORY_B: u32 = 0x0000a140;
pub const ADA_A: u32 = 0x0000c997;
pub const ADA_COMPUTE_A: u32 = 0x0000c9c0;
pub const AMPERE_B: u32 = 0x0000c797;
pub const AMPERE_DMA_COPY_A: u32 = 0x0000c6b5;
pub const AMPERE_DMA_COPY_B: u32 = 0x0000c7b5;
pub const AMPERE_COMPUTE_B: u32 = 0x0000c7c0;
pub const TURING_A: u32 = 0x0000c597;
pub const TURING_COMPUTE_A: u32 = 0x0000c5c0;
pub const TURING_DMA_COPY_A: u32 = 0x0000c5b5;
pub const NV_VASPACE_ALLOCATION_INDEX_GPU_NEW: u32 = 0x00;
pub const NV0080_CTRL_FIFO_GET_ENGINE_CONTEXT_PROPERTIES_ENGINE_ID_A: u32 = 4;
pub const NV0080_CTRL_FIFO_GET_ENGINE_CONTEXT_PROPERTIES_ENGINE_ID_B: u32 = 0;
pub const NV0080_CTRL_FIFO_GET_ENGINE_CONTEXT_PROPERTIES_ENGINE_ID_CAPTURE: u32 = 0x00000004;
pub const NV0080_CTRL_FIFO_GET_ENGINE_CONTEXT_PROPERTIES_ENGINE_ID_COMPUTE_PREEMPT: u32 = 0x0000000a;
pub const NV0080_CTRL_FIFO_GET_ENGINE_CONTEXT_PROPERTIES_ENGINE_ID_COUNT: u32 = 0x0000001a;
pub const NV0080_CTRL_FIFO_GET_ENGINE_CONTEXT_PROPERTIES_ENGINE_ID_DISPLAY: u32 = 0x00000005;
pub const NV0080_CTRL_FIFO_GET_ENGINE_CONTEXT_PROPERTIES_ENGINE_ID_ENCRYPTION: u32 = 0x00000006;
pub const NV0080_CTRL_FIFO_GET_ENGINE_CONTEXT_PROPERTIES_ENGINE_ID_GRAPHICS: u32 = 0x00000000;
pub const NV0080_CTRL_FIFO_GET_ENGINE_CONTEXT_PROPERTIES_ENGINE_ID_GRAPHICS_ATTRIBUTE_CB: u32 = 0x00000013;
pub const NV0080_CTRL_FIFO_GET_ENGINE_CONTEXT_PROPERTIES_ENGINE_ID_GRAPHICS_BETACB: u32 = 0x0000000e;
pub const NV0080_CTRL_FIFO_GET_ENGINE_CONTEXT_PROPERTIES_ENGINE_ID_GRAPHICS_BUNDLE_CB: u32 = 0x00000011;
pub const NV0080_CTRL_FIFO_GET_ENGINE_CONTEXT_PROPERTIES_ENGINE_ID_GRAPHICS_FECS_EVENT: u32 = 0x00000017;
pub const NV0080_CTRL_FIFO_GET_ENGINE_CONTEXT_PROPERTIES_ENGINE_ID_GRAPHICS_GFXP_CTRL_BLK: u32 = 0x00000016;
pub const NV0080_CTRL_FIFO_GET_ENGINE_CONTEXT_PROPERTIES_ENGINE_ID_GRAPHICS_GFXP_POOL: u32 = 0x00000015;
pub const NV0080_CTRL_FIFO_GET_ENGINE_CONTEXT_PROPERTIES_ENGINE_ID_GRAPHICS_PAGEPOOL: u32 = 0x0000000d;
pub const NV0080_CTRL_FIFO_GET_ENGINE_CONTEXT_PROPERTIES_ENGINE_ID_GRAPHICS_PAGEPOOL_GLOBAL: u32 = 0x00000012;
pub const NV0080_CTRL_FIFO_GET_ENGINE_CONTEXT_PROPERTIES_ENGINE_ID_GRAPHICS_PATCH: u32 = 0x00000010;
pub const NV0080_CTRL_FIFO_GET_ENGINE_CONTEXT_PROPERTIES_ENGINE_ID_GRAPHICS_PM: u32 = 0x00000009;
pub const NV0080_CTRL_FIFO_GET_ENGINE_CONTEXT_PROPERTIES_ENGINE_ID_GRAPHICS_PREEMPT: u32 = 0x0000000b;
pub const NV0080_CTRL_FIFO_GET_ENGINE_CONTEXT_PROPERTIES_ENGINE_ID_GRAPHICS_PRIV_ACCESS_MAP: u32 = 0x00000018;
pub const NV0080_CTRL_FIFO_GET_ENGINE_CONTEXT_PROPERTIES_ENGINE_ID_GRAPHICS_RTV: u32 = 0x0000000f;
pub const NV0080_CTRL_FIFO_GET_ENGINE_CONTEXT_PROPERTIES_ENGINE_ID_GRAPHICS_RTV_CB_GLOBAL: u32 = 0x00000014;
pub const NV0080_CTRL_FIFO_GET_ENGINE_CONTEXT_PROPERTIES_ENGINE_ID_GRAPHICS_SETUP: u32 = 0x00000019;
pub const NV0080_CTRL_FIFO_GET_ENGINE_CONTEXT_PROPERTIES_ENGINE_ID_GRAPHICS_SPILL: u32 = 0x0000000c;
pub const NV0080_CTRL_FIFO_GET_ENGINE_CONTEXT_PROPERTIES_ENGINE_ID_GRAPHICS_ZCULL: u32 = 0x00000008;
pub const NV0080_CTRL_FIFO_GET_ENGINE_CONTEXT_PROPERTIES_ENGINE_ID_MPEG: u32 = 0x00000003;
pub const NV0080_CTRL_FIFO_GET_ENGINE_CONTEXT_PROPERTIES_ENGINE_ID_POSTPROCESS: u32 = 0x00000007;
pub const NV0080_CTRL_FIFO_GET_ENGINE_CONTEXT_PROPERTIES_ENGINE_ID_VIDEO: u32 = 0x00000002;
pub const NV0080_CTRL_FIFO_GET_ENGINE_CONTEXT_PROPERTIES_ENGINE_ID_VLD: u32 = 0x00000001;
pub const NV2080_CTRL_INTERNAL_GR_MAX_ENGINES: u32 = 8;
pub const NVC57A_CURSOR_IMM_CHANNEL_PIO: u32 = 0x0000c57a;
pub const NVC67A_CURSOR_IMM_CHANNEL_PIO: u32 = 0x0000c67a;
pub const NVC57B_WINDOW_IMM_CHANNEL_DMA: u32 = 0x0000c57b;
pub const NVC67B_WINDOW_IMM_CHANNEL_DMA: u32 = 0x0000C67B;
pub const NVC57D_CORE_CHANNEL_DMA: u32 = 0x0000c57d;
pub const NVC67D_CORE_CHANNEL_DMA: u32 = 0x0000C67D;
pub const NVC77D_CORE_CHANNEL_DMA: u32 = 0x0000c77d;
pub const NVC57E_WINDOW_CHANNEL_DMA: u32 = 0x0000c57e;
pub const NVC67E_WINDOW_CHANNEL_DMA: u32 = 0x0000C67E;
pub const ADDR_FBMEM: u32 = 2;
pub const NV_MEMORY_WRITECOMBINED: u32 = 2;
pub const NV2080_ENGINE_TYPE_ALLENGINES: u32 = 0xffffffff;
pub const NV2080_ENGINE_TYPE_BSP: u32 = 0x00000013;
pub const NV2080_ENGINE_TYPE_CIPHER: u32 = 0x00000023;
pub const NV2080_ENGINE_TYPE_COMP_DECOMP_COPY0: u32 = 0x00000040;
pub const NV2080_ENGINE_TYPE_COMP_DECOMP_COPY1: u32 = 0x00000041;
pub const NV2080_ENGINE_TYPE_COMP_DECOMP_COPY10: u32 = 0x0000004a;
pub const NV2080_ENGINE_TYPE_COMP_DECOMP_COPY11: u32 = 0x0000004b;
pub const NV2080_ENGINE_TYPE_COMP_DECOMP_COPY12: u32 = 0x0000004c;
pub const NV2080_ENGINE_TYPE_COMP_DECOMP_COPY13: u32 = 0x0000004d;
pub const NV2080_ENGINE_TYPE_COMP_DECOMP_COPY14: u32 = 0x0000004e;
pub const NV2080_ENGINE_TYPE_COMP_DECOMP_COPY15: u32 = 0x0000004f;
pub const NV2080_ENGINE_TYPE_COMP_DECOMP_COPY16: u32 = 0x00000050;
pub const NV2080_ENGINE_TYPE_COMP_DECOMP_COPY17: u32 = 0x00000051;
pub const NV2080_ENGINE_TYPE_COMP_DECOMP_COPY18: u32 = 0x00000052;
pub const NV2080_ENGINE_TYPE_COMP_DECOMP_COPY19: u32 = 0x00000053;
pub const NV2080_ENGINE_TYPE_COMP_DECOMP_COPY2: u32 = 0x00000042;
pub const NV2080_ENGINE_TYPE_COMP_DECOMP_COPY3: u32 = 0x00000043;
pub const NV2080_ENGINE_TYPE_COMP_DECOMP_COPY4: u32 = 0x00000044;
pub const NV2080_ENGINE_TYPE_COMP_DECOMP_COPY5: u32 = 0x00000045;
pub const NV2080_ENGINE_TYPE_COMP_DECOMP_COPY6: u32 = 0x00000046;
pub const NV2080_ENGINE_TYPE_COMP_DECOMP_COPY7: u32 = 0x00000047;
pub const NV2080_ENGINE_TYPE_COMP_DECOMP_COPY8: u32 = 0x00000048;
pub const NV2080_ENGINE_TYPE_COMP_DECOMP_COPY9: u32 = 0x00000049;
pub const NV2080_ENGINE_TYPE_COPY0: u32 = 0x00000009;
pub const NV2080_ENGINE_TYPE_COPY1: u32 = 0x0000000a;
pub const NV2080_ENGINE_TYPE_COPY10: u32 = 0x00000034;
pub const NV2080_ENGINE_TYPE_COPY11: u32 = 0x00000035;
pub const NV2080_ENGINE_TYPE_COPY12: u32 = 0x00000036;
pub const NV2080_ENGINE_TYPE_COPY13: u32 = 0x00000037;
pub const NV2080_ENGINE_TYPE_COPY14: u32 = 0x00000038;
pub const NV2080_ENGINE_TYPE_COPY15: u32 = 0x00000039;
pub const NV2080_ENGINE_TYPE_COPY16: u32 = 0x0000003a;
pub const NV2080_ENGINE_TYPE_COPY17: u32 = 0x0000003b;
pub const NV2080_ENGINE_TYPE_COPY18: u32 = 0x0000003c;
pub const NV2080_ENGINE_TYPE_COPY19: u32 = 0x0000003d;
pub const NV2080_ENGINE_TYPE_COPY2: u32 = 0x0000000b;
pub const NV2080_ENGINE_TYPE_COPY3: u32 = 0x0000000c;
pub const NV2080_ENGINE_TYPE_COPY4: u32 = 0x0000000d;
pub const NV2080_ENGINE_TYPE_COPY5: u32 = 0x0000000e;
pub const NV2080_ENGINE_TYPE_COPY6: u32 = 0x0000000f;
pub const NV2080_ENGINE_TYPE_COPY7: u32 = 0x00000010;
pub const NV2080_ENGINE_TYPE_COPY8: u32 = 0x00000011;
pub const NV2080_ENGINE_TYPE_COPY9: u32 = 0x00000012;
pub const NV2080_ENGINE_TYPE_COPY_SIZE: u32 = 64;
pub const NV2080_ENGINE_TYPE_COPY_SIZE_v1A_0D: u32 = 10;
pub const NV2080_ENGINE_TYPE_COPY_SIZE_v22_00: u32 = 10;
pub const NV2080_ENGINE_TYPE_COPY_SIZE_v24_09: u32 = 64;
pub const NV2080_ENGINE_TYPE_DPU: u32 = 0x00000028;
pub const NV2080_ENGINE_TYPE_FBFLCN: u32 = 0x0000002a;
pub const NV2080_ENGINE_TYPE_GR0: u32 = NV2080_ENGINE_TYPE_GRAPHICS;
pub const NV2080_ENGINE_TYPE_GR1: u32 = 0x00000002;
pub const NV2080_ENGINE_TYPE_GR2: u32 = 0x00000003;
pub const NV2080_ENGINE_TYPE_GR3: u32 = 0x00000004;
pub const NV2080_ENGINE_TYPE_GR4: u32 = 0x00000005;
pub const NV2080_ENGINE_TYPE_GR5: u32 = 0x00000006;
pub const NV2080_ENGINE_TYPE_GR6: u32 = 0x00000007;
pub const NV2080_ENGINE_TYPE_GR7: u32 = 0x00000008;
pub const NV2080_ENGINE_TYPE_GRAPHICS: u32 = 0x00000001;
pub const NV2080_ENGINE_TYPE_GR_SIZE: u32 = 8;
pub const NV2080_ENGINE_TYPE_HOST: u32 = 0x00000027;
pub const NV2080_ENGINE_TYPE_LAST: u32 = 0x00000054;
pub const NV2080_ENGINE_TYPE_LAST_v18_01: u32 = 0x0000002a;
pub const NV2080_ENGINE_TYPE_LAST_v1A_00: u32 = 0x2a;
pub const NV2080_ENGINE_TYPE_LAST_v1C_09: u32 = 0x00000034;
pub const NV2080_ENGINE_TYPE_LAST_v27_02: u32 = 0x00000054;
pub const NV2080_ENGINE_TYPE_ME: u32 = 0x0000001f;
pub const NV2080_ENGINE_TYPE_MP: u32 = 0x00000025;
pub const NV2080_ENGINE_TYPE_MPEG: u32 = 0x00000021;
pub const NV2080_ENGINE_TYPE_MSENC: u32 = 0x0000001b;
pub const NV2080_ENGINE_TYPE_NULL: u32 = 0x00000000;
pub const NV2080_ENGINE_TYPE_NVDEC0: u32 = NV2080_ENGINE_TYPE_BSP;
pub const NV2080_ENGINE_TYPE_NVDEC1: u32 = 0x00000014;
pub const NV2080_ENGINE_TYPE_NVDEC2: u32 = 0x00000015;
pub const NV2080_ENGINE_TYPE_NVDEC3: u32 = 0x00000016;
pub const NV2080_ENGINE_TYPE_NVDEC4: u32 = 0x00000017;
pub const NV2080_ENGINE_TYPE_NVDEC5: u32 = 0x00000018;
pub const NV2080_ENGINE_TYPE_NVDEC6: u32 = 0x00000019;
pub const NV2080_ENGINE_TYPE_NVDEC7: u32 = 0x0000001a;
pub const NV2080_ENGINE_TYPE_NVDEC_SIZE: u32 = 8;
pub const NV2080_ENGINE_TYPE_NVENC0: u32 = NV2080_ENGINE_TYPE_MSENC;
pub const NV2080_ENGINE_TYPE_NVENC1: u32 = 0x0000001c;
pub const NV2080_ENGINE_TYPE_NVENC2: u32 = 0x0000001d;
pub const NV2080_ENGINE_TYPE_NVENC3: u32 = 0x0000003f;
pub const NV2080_ENGINE_TYPE_NVENC_SIZE: u32 = 4;
pub const NV2080_ENGINE_TYPE_NVJPEG0: u32 = NV2080_ENGINE_TYPE_NVJPG;
pub const NV2080_ENGINE_TYPE_NVJPEG1: u32 = 0x0000002c;
pub const NV2080_ENGINE_TYPE_NVJPEG2: u32 = 0x0000002d;
pub const NV2080_ENGINE_TYPE_NVJPEG3: u32 = 0x0000002e;
pub const NV2080_ENGINE_TYPE_NVJPEG4: u32 = 0x0000002f;
pub const NV2080_ENGINE_TYPE_NVJPEG5: u32 = 0x00000030;
pub const NV2080_ENGINE_TYPE_NVJPEG6: u32 = 0x00000031;
pub const NV2080_ENGINE_TYPE_NVJPEG7: u32 = 0x00000032;
pub const NV2080_ENGINE_TYPE_NVJPEG_SIZE: u32 = 8;
pub const NV2080_ENGINE_TYPE_NVJPG: u32 = 0x0000002b;
pub const NV2080_ENGINE_TYPE_OFA: u32 = 0x00000033;
pub const NV2080_ENGINE_TYPE_OFA0: u32 = NV2080_ENGINE_TYPE_OFA;
pub const NV2080_ENGINE_TYPE_OFA1: u32 = 0x0000003e;
pub const NV2080_ENGINE_TYPE_OFA_SIZE: u32 = 2;
pub const NV2080_ENGINE_TYPE_PMU: u32 = 0x00000029;
pub const NV2080_ENGINE_TYPE_PPP: u32 = 0x00000020;
pub const NV2080_ENGINE_TYPE_SEC2: u32 = 0x00000026;
pub const NV2080_ENGINE_TYPE_SW: u32 = 0x00000022;
pub const NV2080_ENGINE_TYPE_TSEC: u32 = NV2080_ENGINE_TYPE_CIPHER;
pub const NV2080_ENGINE_TYPE_VIC: u32 = 0x00000024;
pub const NV2080_ENGINE_TYPE_VP: u32 = 0x0000001e;
pub const RM_ENGINE_TYPE_BSP: u32 = RM_ENGINE_TYPE_NVDEC0;
pub const RM_ENGINE_TYPE_CIPHER: u32 = RM_ENGINE_TYPE_TSEC;
pub const RM_ENGINE_TYPE_COPY0: u32 = 9;
pub const RM_ENGINE_TYPE_COPY1: u32 = 10;
pub const RM_ENGINE_TYPE_COPY10: u32 = 19;
pub const RM_ENGINE_TYPE_COPY11: u32 = 20;
pub const RM_ENGINE_TYPE_COPY12: u32 = 21;
pub const RM_ENGINE_TYPE_COPY13: u32 = 22;
pub const RM_ENGINE_TYPE_COPY14: u32 = 23;
pub const RM_ENGINE_TYPE_COPY15: u32 = 24;
pub const RM_ENGINE_TYPE_COPY16: u32 = 25;
pub const RM_ENGINE_TYPE_COPY17: u32 = 26;
pub const RM_ENGINE_TYPE_COPY18: u32 = 27;
pub const RM_ENGINE_TYPE_COPY19: u32 = 28;
pub const RM_ENGINE_TYPE_COPY2: u32 = 11;
pub const RM_ENGINE_TYPE_COPY3: u32 = 12;
pub const RM_ENGINE_TYPE_COPY4: u32 = 13;
pub const RM_ENGINE_TYPE_COPY5: u32 = 14;
pub const RM_ENGINE_TYPE_COPY6: u32 = 15;
pub const RM_ENGINE_TYPE_COPY7: u32 = 16;
pub const RM_ENGINE_TYPE_COPY8: u32 = 17;
pub const RM_ENGINE_TYPE_COPY9: u32 = 18;
pub const RM_ENGINE_TYPE_COPY_SIZE: u32 = 20;
pub const RM_ENGINE_TYPE_DPU: u32 = 51;
pub const RM_ENGINE_TYPE_FBFLCN: u32 = 53;
pub const RM_ENGINE_TYPE_GR0: u32 = 1;
pub const RM_ENGINE_TYPE_GR1: u32 = 2;
pub const RM_ENGINE_TYPE_GR2: u32 = 3;
pub const RM_ENGINE_TYPE_GR3: u32 = 4;
pub const RM_ENGINE_TYPE_GR4: u32 = 5;
pub const RM_ENGINE_TYPE_GR5: u32 = 6;
pub const RM_ENGINE_TYPE_GR6: u32 = 7;
pub const RM_ENGINE_TYPE_GR7: u32 = 8;
pub const RM_ENGINE_TYPE_GRAPHICS: u32 = RM_ENGINE_TYPE_GR0;
pub const RM_ENGINE_TYPE_GR_SIZE: u32 = 8;
pub const RM_ENGINE_TYPE_HOST: u32 = 50;
pub const RM_ENGINE_TYPE_LAST: u32 = 84;
pub const RM_ENGINE_TYPE_ME: u32 = 42;
pub const RM_ENGINE_TYPE_MP: u32 = 48;
pub const RM_ENGINE_TYPE_MPEG: u32 = 44;
pub const RM_ENGINE_TYPE_MSENC: u32 = RM_ENGINE_TYPE_NVENC0;
pub const RM_ENGINE_TYPE_NULL: u32 = 0;
pub const RM_ENGINE_TYPE_NVDEC0: u32 = 29;
pub const RM_ENGINE_TYPE_NVDEC1: u32 = 30;
pub const RM_ENGINE_TYPE_NVDEC2: u32 = 31;
pub const RM_ENGINE_TYPE_NVDEC3: u32 = 32;
pub const RM_ENGINE_TYPE_NVDEC4: u32 = 33;
pub const RM_ENGINE_TYPE_NVDEC5: u32 = 34;
pub const RM_ENGINE_TYPE_NVDEC6: u32 = 35;
pub const RM_ENGINE_TYPE_NVDEC7: u32 = 36;
pub const RM_ENGINE_TYPE_NVDEC_SIZE: u32 = 8;
pub const RM_ENGINE_TYPE_NVENC0: u32 = 37;
pub const RM_ENGINE_TYPE_NVENC1: u32 = 38;
pub const RM_ENGINE_TYPE_NVENC2: u32 = 39;
pub const RM_ENGINE_TYPE_NVENC3: u32 = 40;
pub const RM_ENGINE_TYPE_NVENC_SIZE: u32 = 4;
pub const RM_ENGINE_TYPE_NVJPEG0: u32 = 54;
pub const RM_ENGINE_TYPE_NVJPEG1: u32 = 55;
pub const RM_ENGINE_TYPE_NVJPEG2: u32 = 56;
pub const RM_ENGINE_TYPE_NVJPEG3: u32 = 57;
pub const RM_ENGINE_TYPE_NVJPEG4: u32 = 58;
pub const RM_ENGINE_TYPE_NVJPEG5: u32 = 59;
pub const RM_ENGINE_TYPE_NVJPEG6: u32 = 60;
pub const RM_ENGINE_TYPE_NVJPEG7: u32 = 61;
pub const RM_ENGINE_TYPE_NVJPEG_SIZE: u32 = 8;
pub const RM_ENGINE_TYPE_NVJPG: u32 = RM_ENGINE_TYPE_NVJPEG0;
pub const RM_ENGINE_TYPE_OFA0: u32 = 62;
pub const RM_ENGINE_TYPE_OFA1: u32 = 63;
pub const RM_ENGINE_TYPE_OFA_SIZE: u32 = 2;
pub const RM_ENGINE_TYPE_PMU: u32 = 52;
pub const RM_ENGINE_TYPE_PPP: u32 = 43;
pub const RM_ENGINE_TYPE_RESERVED40: u32 = 64;
pub const RM_ENGINE_TYPE_RESERVED41: u32 = 65;
pub const RM_ENGINE_TYPE_RESERVED42: u32 = 66;
pub const RM_ENGINE_TYPE_RESERVED43: u32 = 67;
pub const RM_ENGINE_TYPE_RESERVED44: u32 = 68;
pub const RM_ENGINE_TYPE_RESERVED45: u32 = 69;
pub const RM_ENGINE_TYPE_RESERVED46: u32 = 70;
pub const RM_ENGINE_TYPE_RESERVED47: u32 = 71;
pub const RM_ENGINE_TYPE_RESERVED48: u32 = 72;
pub const RM_ENGINE_TYPE_RESERVED49: u32 = 73;
pub const RM_ENGINE_TYPE_RESERVED4a: u32 = 74;
pub const RM_ENGINE_TYPE_RESERVED4b: u32 = 75;
pub const RM_ENGINE_TYPE_RESERVED4c: u32 = 76;
pub const RM_ENGINE_TYPE_RESERVED4d: u32 = 77;
pub const RM_ENGINE_TYPE_RESERVED4e: u32 = 78;
pub const RM_ENGINE_TYPE_RESERVED4f: u32 = 79;
pub const RM_ENGINE_TYPE_RESERVED50: u32 = 80;
pub const RM_ENGINE_TYPE_RESERVED51: u32 = 81;
pub const RM_ENGINE_TYPE_RESERVED52: u32 = 82;
pub const RM_ENGINE_TYPE_RESERVED53: u32 = 83;
pub const RM_ENGINE_TYPE_SEC2: u32 = 49;
pub const RM_ENGINE_TYPE_SW: u32 = 45;
pub const RM_ENGINE_TYPE_TSEC: u32 = 46;
pub const RM_ENGINE_TYPE_VIC: u32 = 47;
pub const RM_ENGINE_TYPE_VP: u32 = 41;
pub const NV0073_CTRL_SPECIFIC_OR_PROTOCOL_DAC_RGB_CRT: u32 = 0x00000000;
pub const NV0073_CTRL_SPECIFIC_OR_PROTOCOL_DSI: u32 = 0x00000011;
pub const NV0073_CTRL_SPECIFIC_OR_PROTOCOL_PIOR_EXT_TMDS_ENC: u32 = 0x00000000;
pub const NV0073_CTRL_SPECIFIC_OR_PROTOCOL_SOR_DP_A: u32 = 0x00000008;
pub const NV0073_CTRL_SPECIFIC_OR_PROTOCOL_SOR_DP_B: u32 = 0x00000009;
pub const NV0073_CTRL_SPECIFIC_OR_PROTOCOL_SOR_DSI: u32 = 0x00000010;
pub const NV0073_CTRL_SPECIFIC_OR_PROTOCOL_SOR_DUAL_TMDS: u32 = 0x00000005;
pub const NV0073_CTRL_SPECIFIC_OR_PROTOCOL_SOR_LVDS_CUSTOM: u32 = 0x00000000;
pub const NV0073_CTRL_SPECIFIC_OR_PROTOCOL_SOR_SINGLE_TMDS_A: u32 = 0x00000001;
pub const NV0073_CTRL_SPECIFIC_OR_PROTOCOL_SOR_SINGLE_TMDS_B: u32 = 0x00000002;
pub const NV0073_CTRL_SPECIFIC_OR_PROTOCOL_UNKNOWN: u32 = 0xFFFFFFFF;
pub const NV0073_CTRL_SPECIFIC_OR_LOCATION_BOARD: u32 = 0x00000001;
pub const NV0073_CTRL_SPECIFIC_OR_LOCATION_CHIP: u32 = 0x00000000;
pub const NV0073_CTRL_SPECIFIC_OR_TYPE_DAC: u32 = 0x00000001;
pub const NV0073_CTRL_SPECIFIC_OR_TYPE_DSI: u32 = 0x00000005;
pub const NV0073_CTRL_SPECIFIC_OR_TYPE_NONE: u32 = 0x00000000;
pub const NV0073_CTRL_SPECIFIC_OR_TYPE_PIOR: u32 = 0x00000003;
pub const NV0073_CTRL_SPECIFIC_OR_TYPE_SOR: u32 = 0x00000002;
pub const NV0073_CTRL_CMD_DP_SET_MANUAL_DISPLAYPORT: u32 = 0x731365;
pub const NV0073_CTRL_CMD_DP_SET_MANUAL_DISPLAYPORT_PARAMS_MESSAGE_ID: u32 = 0x65;
pub const NV0073_CTRL_CMD_DP_GET_CAPS: u32 = 0x731369;
pub const NV0073_CTRL_CMD_DP_GET_CAPS_DP_VERSIONS_SUPPORTED_DP1_2: u32 = 0;
pub const NV0073_CTRL_CMD_DP_GET_CAPS_DP_VERSIONS_SUPPORTED_DP1_2_NO: u32 = 0x00000000;
pub const NV0073_CTRL_CMD_DP_GET_CAPS_DP_VERSIONS_SUPPORTED_DP1_2_YES: u32 = 0x00000001;
pub const NV0073_CTRL_CMD_DP_GET_CAPS_DP_VERSIONS_SUPPORTED_DP1_4: u32 = 1;
pub const NV0073_CTRL_CMD_DP_GET_CAPS_DP_VERSIONS_SUPPORTED_DP1_4_NO: u32 = 0x00000000;
pub const NV0073_CTRL_CMD_DP_GET_CAPS_DP_VERSIONS_SUPPORTED_DP1_4_YES: u32 = 0x00000001;
pub const NV0073_CTRL_CMD_DP_GET_CAPS_DP_VERSIONS_SUPPORTED_DP2_0: u32 = 2;
pub const NV0073_CTRL_CMD_DP_GET_CAPS_DP_VERSIONS_SUPPORTED_DP2_0_NO: u32 = 0x00000000;
pub const NV0073_CTRL_CMD_DP_GET_CAPS_DP_VERSIONS_SUPPORTED_DP2_0_YES: u32 = 0x00000001;
pub const NV0073_CTRL_CMD_DP_GET_CAPS_DSC_BITS_PER_PIXEL_PRECISION_1: u32 = 0x00000005;
pub const NV0073_CTRL_CMD_DP_GET_CAPS_DSC_BITS_PER_PIXEL_PRECISION_1_16: u32 = 0x00000001;
pub const NV0073_CTRL_CMD_DP_GET_CAPS_DSC_BITS_PER_PIXEL_PRECISION_1_2: u32 = 0x00000004;
pub const NV0073_CTRL_CMD_DP_GET_CAPS_DSC_BITS_PER_PIXEL_PRECISION_1_4: u32 = 0x00000003;
pub const NV0073_CTRL_CMD_DP_GET_CAPS_DSC_BITS_PER_PIXEL_PRECISION_1_8: u32 = 0x00000002;
pub const NV0073_CTRL_CMD_DP_GET_CAPS_DSC_ENCODER_COLOR_FORMAT_RGB: u32 = 0x00000001;
pub const NV0073_CTRL_CMD_DP_GET_CAPS_DSC_ENCODER_COLOR_FORMAT_Y_CB_CR_444: u32 = 0x00000002;
pub const NV0073_CTRL_CMD_DP_GET_CAPS_DSC_ENCODER_COLOR_FORMAT_Y_CB_CR_NATIVE_420: u32 = 0x00000008;
pub const NV0073_CTRL_CMD_DP_GET_CAPS_DSC_ENCODER_COLOR_FORMAT_Y_CB_CR_NATIVE_422: u32 = 0x00000004;
pub const NV0073_CTRL_CMD_DP_GET_CAPS_MAX_LINK_RATE_A: u32 = 2;
pub const NV0073_CTRL_CMD_DP_GET_CAPS_MAX_LINK_RATE_B: u32 = 0;
pub const NV0073_CTRL_CMD_DP_GET_CAPS_MAX_LINK_RATE_1_62: u32 = 0x00000001;
pub const NV0073_CTRL_CMD_DP_GET_CAPS_MAX_LINK_RATE_2_70: u32 = 0x00000002;
pub const NV0073_CTRL_CMD_DP_GET_CAPS_MAX_LINK_RATE_5_40: u32 = 0x00000003;
pub const NV0073_CTRL_CMD_DP_GET_CAPS_MAX_LINK_RATE_8_10: u32 = 0x00000004;
pub const NV0073_CTRL_CMD_DP_GET_CAPS_MAX_LINK_RATE_NONE: u32 = 0x00000000;
pub const NV0073_CTRL_CMD_DP_GET_CAPS_PARAMS_MESSAGE_ID: u32 = 0x69;
pub const NV0073_CTRL_CMD_DP_GET_CAPS_UHBR_SUPPORTED_UHBR10_0: u32 = 0;
pub const NV0073_CTRL_CMD_DP_GET_CAPS_UHBR_SUPPORTED_UHBR10_0_NO: u32 = 0x00000000;
pub const NV0073_CTRL_CMD_DP_GET_CAPS_UHBR_SUPPORTED_UHBR10_0_YES: u32 = 0x00000001;
pub const NV0073_CTRL_CMD_DP_GET_CAPS_UHBR_SUPPORTED_UHBR13_5: u32 = 1;
pub const NV0073_CTRL_CMD_DP_GET_CAPS_UHBR_SUPPORTED_UHBR13_5_NO: u32 = 0x00000000;
pub const NV0073_CTRL_CMD_DP_GET_CAPS_UHBR_SUPPORTED_UHBR13_5_YES: u32 = 0x00000001;
pub const NV0073_CTRL_CMD_DP_GET_CAPS_UHBR_SUPPORTED_UHBR20_0: u32 = 2;
pub const NV0073_CTRL_CMD_DP_GET_CAPS_UHBR_SUPPORTED_UHBR20_0_NO: u32 = 0x00000000;
pub const NV0073_CTRL_CMD_DP_GET_CAPS_UHBR_SUPPORTED_UHBR20_0_YES: u32 = 0x00000001;
pub const NV0073_CTRL_CMD_DFP_ASSIGN_SOR: u32 = 0x731152;
pub const NV0073_CTRL_CMD_DFP_ASSIGN_SOR_MAX_SORS: u32 = 4;
pub const NV0073_CTRL_DFP_ASSIGN_SOR_FLAGS_ACTIVE_SOR_NOT_AUDIO_CAPABLE: u32 = 1;
pub const NV0073_CTRL_DFP_ASSIGN_SOR_FLAGS_ACTIVE_SOR_NOT_AUDIO_CAPABLE_NO: u32 = 0x00000000;
pub const NV0073_CTRL_DFP_ASSIGN_SOR_FLAGS_ACTIVE_SOR_NOT_AUDIO_CAPABLE_YES: u32 = 0x00000001;
pub const NV0073_CTRL_DFP_ASSIGN_SOR_FLAGS_AUDIO: u32 = 0;
pub const NV0073_CTRL_DFP_ASSIGN_SOR_FLAGS_AUDIO_DEFAULT: u32 = 0x00000000;
pub const NV0073_CTRL_DFP_ASSIGN_SOR_FLAGS_AUDIO_OPTIMAL: u32 = 0x00000001;
pub const NV0073_CTRL_DFP_ASSIGN_SOR_FORCE_NONE: u32 = 0x0;
pub const NV0073_CTRL_DFP_ASSIGN_SOR_FORCE_PRIMARY_SOR_LINK: u32 = 0x1;
pub const NV0073_CTRL_DFP_ASSIGN_SOR_FORCE_SECONDARY_SOR_LINK: u32 = 0x2;
pub const NV0073_CTRL_DFP_ASSIGN_SOR_PARAMS_MESSAGE_ID: u32 = 0x52;
pub const NV0073_CTRL_CMD_DFP_GET_INFO: u32 = 0x731140;
pub const NV0073_CTRL_DFP_GET_INFO_PARAMS_MESSAGE_ID: u32 = 0x40;
pub const NV0073_CTRL_CMD_DFP_SET_AUDIO_ENABLE: u32 = 0x731150;
pub const NV0073_CTRL_DFP_SET_AUDIO_ENABLE_PARAMS_MESSAGE_ID: u32 = 0x50;
pub const NV0073_CTRL_CMD_DFP_SET_ELD_AUDIO_CAPS: u32 = 0x731144;
pub const NV0073_CTRL_CMD_DP_AUXCH_CTRL: u32 = 0x731341;
pub const NV0073_CTRL_DP_AUXCH_CTRL_PARAMS_MESSAGE_ID: u32 = 0x41;
pub const NV0073_CTRL_CMD_DP_CONFIG_INDEXED_LINK_RATES: u32 = 0x731377;
pub const NV0073_CTRL_CMD_DP_CONFIG_INDEXED_LINK_RATES_PARAMS_MESSAGE_ID: u32 = 0x77;
pub const NV0073_CTRL_CMD_DP_CONFIG_STREAM: u32 = 0x731362;
pub const NV0073_CTRL_CMD_DP_CONFIG_STREAM_PARAMS_MESSAGE_ID: u32 = 0x62;
pub const NV0073_CTRL_CMD_DP_SET_LANE_DATA: u32 = 0x731346;
pub const NV0073_CTRL_DP_SET_LANE_DATA_PARAMS_MESSAGE_ID: u32 = 0x46;
pub const NV0073_CTRL_CMD_DP_SET_AUDIO_MUTESTREAM: u32 = 0x731359;
pub const NV0073_CTRL_DP_SET_AUDIO_MUTESTREAM_PARAMS_MESSAGE_ID: u32 = 0x59;
pub const NV0073_CTRL_CMD_DP_TOPOLOGY_FREE_DISPLAYID: u32 = 0x73135c;
pub const NV0073_CTRL_CMD_DP_TOPOLOGY_FREE_DISPLAYID_PARAMS_MESSAGE_ID: u32 = 0x5C;
pub const NV0073_CTRL_CMD_DP_TOPOLOGY_ALLOCATE_DISPLAYID: u32 = 0x73135b;
pub const NV0073_CTRL_CMD_DP_TOPOLOGY_ALLOCATE_DISPLAYID_PARAMS_MESSAGE_ID: u32 = 0x5B;
pub const NV0073_CTRL_CMD_SYSTEM_GET_ACTIVE: u32 = 0x73010c;
pub const NV0073_CTRL_SYSTEM_GET_ACTIVE_FLAGS_CLIENT: u32 = 0;
pub const NV0073_CTRL_SYSTEM_GET_ACTIVE_FLAGS_CLIENT_DISABLE: u32 = 0x00000000;
pub const NV0073_CTRL_SYSTEM_GET_ACTIVE_FLAGS_CLIENT_ENABLE: u32 = 0x00000001;
pub const NV0073_CTRL_SYSTEM_GET_ACTIVE_PARAMS_MESSAGE_ID: u32 = 0x0C;
pub const NV0073_CTRL_CMD_SYSTEM_GET_NUM_HEADS: u32 = 0x730102;
pub const NV0073_CTRL_SYSTEM_GET_NUM_HEADS_FLAGS_CLIENT: u32 = 0;
pub const NV0073_CTRL_SYSTEM_GET_NUM_HEADS_FLAGS_CLIENT_DISABLE: u32 = 0x00000000;
pub const NV0073_CTRL_SYSTEM_GET_NUM_HEADS_FLAGS_CLIENT_ENABLE: u32 = 0x00000001;
pub const NV0073_CTRL_SYSTEM_GET_NUM_HEADS_PARAMS_MESSAGE_ID: u32 = 0x02;
pub const NV0073_CTRL_CMD_SYSTEM_GET_SUPPORTED: u32 = 0x730107;
pub const NV0073_CTRL_SYSTEM_GET_SUPPORTED_PARAMS_MESSAGE_ID: u32 = 0x07;
pub const NV0073_CTRL_CMD_SPECIFIC_GET_ALL_HEAD_MASK: u32 = 0x730287;
pub const NV0073_CTRL_SPECIFIC_GET_ALL_HEAD_MASK_PARAMS_MESSAGE_ID: u32 = 0x87;
pub const NV0073_CTRL_CMD_SPECIFIC_SET_BACKLIGHT_BRIGHTNESS: u32 = 0x730292;
pub const NV0073_CTRL_SPECIFIC_SET_BACKLIGHT_BRIGHTNESS_PARAMS_MESSAGE_ID: u32 = 0x92;
pub const NV0073_CTRL_CMD_SPECIFIC_GET_BACKLIGHT_BRIGHTNESS: u32 = 0x730291;
pub const NV0073_CTRL_SPECIFIC_GET_BACKLIGHT_BRIGHTNESS_PARAMS_MESSAGE_ID: u32 = 0x91;
pub const NV0073_CTRL_CMD_SPECIFIC_SET_HDMI_SINK_CAPS: u32 = 0x730293;
pub const NV0073_CTRL_CMD_SPECIFIC_SET_HDMI_SINK_CAPS_DSC_12_SUPPORTED: u32 = 6;
pub const NV0073_CTRL_CMD_SPECIFIC_SET_HDMI_SINK_CAPS_DSC_12_SUPPORTED_FALSE: u32 = 0x00000000;
pub const NV0073_CTRL_CMD_SPECIFIC_SET_HDMI_SINK_CAPS_DSC_12_SUPPORTED_TRUE: u32 = 0x00000001;
pub const NV0073_CTRL_CMD_SPECIFIC_SET_HDMI_SINK_CAPS_DSC_MAX_FRL_RATE_SUPPORTED_A: u32 = 9;
pub const NV0073_CTRL_CMD_SPECIFIC_SET_HDMI_SINK_CAPS_DSC_MAX_FRL_RATE_SUPPORTED_B: u32 = 7;
pub const NV0073_CTRL_CMD_SPECIFIC_SET_HDMI_SINK_CAPS_DSC_MAX_FRL_RATE_SUPPORTED_3LANES_3G: u32 = 0x00000001;
pub const NV0073_CTRL_CMD_SPECIFIC_SET_HDMI_SINK_CAPS_DSC_MAX_FRL_RATE_SUPPORTED_3LANES_6G: u32 = 0x00000002;
pub const NV0073_CTRL_CMD_SPECIFIC_SET_HDMI_SINK_CAPS_DSC_MAX_FRL_RATE_SUPPORTED_4LANES_10G: u32 = 0x00000005;
pub const NV0073_CTRL_CMD_SPECIFIC_SET_HDMI_SINK_CAPS_DSC_MAX_FRL_RATE_SUPPORTED_4LANES_12G: u32 = 0x00000006;
pub const NV0073_CTRL_CMD_SPECIFIC_SET_HDMI_SINK_CAPS_DSC_MAX_FRL_RATE_SUPPORTED_4LANES_6G: u32 = 0x00000003;
pub const NV0073_CTRL_CMD_SPECIFIC_SET_HDMI_SINK_CAPS_DSC_MAX_FRL_RATE_SUPPORTED_4LANES_8G: u32 = 0x00000004;
pub const NV0073_CTRL_CMD_SPECIFIC_SET_HDMI_SINK_CAPS_DSC_MAX_FRL_RATE_SUPPORTED_NONE: u32 = 0x00000000;
pub const NV0073_CTRL_CMD_SPECIFIC_SET_HDMI_SINK_CAPS_GT_340MHZ_CLOCK_SUPPORTED: u32 = 0;
pub const NV0073_CTRL_CMD_SPECIFIC_SET_HDMI_SINK_CAPS_GT_340MHZ_CLOCK_SUPPORTED_FALSE: u32 = 0x00000000;
pub const NV0073_CTRL_CMD_SPECIFIC_SET_HDMI_SINK_CAPS_GT_340MHZ_CLOCK_SUPPORTED_TRUE: u32 = 0x00000001;
pub const NV0073_CTRL_CMD_SPECIFIC_SET_HDMI_SINK_CAPS_LTE_340MHZ_SCRAMBLING_SUPPORTED: u32 = 1;
pub const NV0073_CTRL_CMD_SPECIFIC_SET_HDMI_SINK_CAPS_LTE_340MHZ_SCRAMBLING_SUPPORTED_FALSE: u32 = 0x00000000;
pub const NV0073_CTRL_CMD_SPECIFIC_SET_HDMI_SINK_CAPS_LTE_340MHZ_SCRAMBLING_SUPPORTED_TRUE: u32 = 0x00000001;
pub const NV0073_CTRL_CMD_SPECIFIC_SET_HDMI_SINK_CAPS_MAX_FRL_RATE_SUPPORTED_A: u32 = 5;
pub const NV0073_CTRL_CMD_SPECIFIC_SET_HDMI_SINK_CAPS_MAX_FRL_RATE_SUPPORTED_B: u32 = 3;
pub const NV0073_CTRL_CMD_SPECIFIC_SET_HDMI_SINK_CAPS_MAX_FRL_RATE_SUPPORTED_3LANES_3G: u32 = 0x00000001;
pub const NV0073_CTRL_CMD_SPECIFIC_SET_HDMI_SINK_CAPS_MAX_FRL_RATE_SUPPORTED_3LANES_6G: u32 = 0x00000002;
pub const NV0073_CTRL_CMD_SPECIFIC_SET_HDMI_SINK_CAPS_MAX_FRL_RATE_SUPPORTED_4LANES_10G: u32 = 0x00000005;
pub const NV0073_CTRL_CMD_SPECIFIC_SET_HDMI_SINK_CAPS_MAX_FRL_RATE_SUPPORTED_4LANES_12G: u32 = 0x00000006;
pub const NV0073_CTRL_CMD_SPECIFIC_SET_HDMI_SINK_CAPS_MAX_FRL_RATE_SUPPORTED_4LANES_6G: u32 = 0x00000003;
pub const NV0073_CTRL_CMD_SPECIFIC_SET_HDMI_SINK_CAPS_MAX_FRL_RATE_SUPPORTED_4LANES_8G: u32 = 0x00000004;
pub const NV0073_CTRL_CMD_SPECIFIC_SET_HDMI_SINK_CAPS_MAX_FRL_RATE_SUPPORTED_NONE: u32 = 0x00000000;
pub const NV0073_CTRL_CMD_SPECIFIC_SET_HDMI_SINK_CAPS_SCDC_SUPPORTED: u32 = 2;
pub const NV0073_CTRL_CMD_SPECIFIC_SET_HDMI_SINK_CAPS_SCDC_SUPPORTED_FALSE: u32 = 0x00000000;
pub const NV0073_CTRL_CMD_SPECIFIC_SET_HDMI_SINK_CAPS_SCDC_SUPPORTED_TRUE: u32 = 0x00000001;
pub const NV0073_CTRL_SPECIFIC_SET_HDMI_SINK_CAPS_PARAMS_MESSAGE_ID: u32 = 0x93;
pub const NV0073_CTRL_CMD_SPECIFIC_SET_OD_PACKET: u32 = 0x730288;
pub const NV0073_CTRL_CMD_SPECIFIC_SET_OD_PACKET_CTRL: u32 = 0x730289;
pub const NV0073_CTRL_SPECIFIC_SET_OD_PACKET_CTRL_PARAMS_MESSAGE_ID: u32 = 0x89;
pub const NV0073_CTRL_SPECIFIC_SET_OD_PACKET_CTRL_TRANSMIT_CONTROL_ENABLE: u32 = NV0073_CTRL_SPECIFIC_SET_OD_PACKET_TRANSMIT_CONTROL_ENABLE;
pub const NV0073_CTRL_SPECIFIC_SET_OD_PACKET_CTRL_TRANSMIT_CONTROL_ENABLE_NO: u32 = NV0073_CTRL_SPECIFIC_SET_OD_PACKET_TRANSMIT_CONTROL_ENABLE_NO;
pub const NV0073_CTRL_SPECIFIC_SET_OD_PACKET_CTRL_TRANSMIT_CONTROL_ENABLE_YES: u32 = NV0073_CTRL_SPECIFIC_SET_OD_PACKET_TRANSMIT_CONTROL_ENABLE_YES;
pub const NV0073_CTRL_SPECIFIC_SET_OD_PACKET_CTRL_TRANSMIT_CONTROL_ON_HBLANK: u32 = NV0073_CTRL_SPECIFIC_SET_OD_PACKET_TRANSMIT_CONTROL_ON_HBLANK;
pub const NV0073_CTRL_SPECIFIC_SET_OD_PACKET_CTRL_TRANSMIT_CONTROL_ON_HBLANK_DISABLE: u32 = NV0073_CTRL_SPECIFIC_SET_OD_PACKET_TRANSMIT_CONTROL_ON_HBLANK_DISABLE;
pub const NV0073_CTRL_SPECIFIC_SET_OD_PACKET_CTRL_TRANSMIT_CONTROL_ON_HBLANK_ENABLE: u32 = NV0073_CTRL_SPECIFIC_SET_OD_PACKET_TRANSMIT_CONTROL_ON_HBLANK_ENABLE;
pub const NV0073_CTRL_SPECIFIC_SET_OD_PACKET_CTRL_TRANSMIT_CONTROL_OTHER_FRAME: u32 = NV0073_CTRL_SPECIFIC_SET_OD_PACKET_TRANSMIT_CONTROL_OTHER_FRAME;
pub const NV0073_CTRL_SPECIFIC_SET_OD_PACKET_CTRL_TRANSMIT_CONTROL_OTHER_FRAME_DISABLE: u32 = NV0073_CTRL_SPECIFIC_SET_OD_PACKET_TRANSMIT_CONTROL_OTHER_FRAME_DISABLE;
pub const NV0073_CTRL_SPECIFIC_SET_OD_PACKET_CTRL_TRANSMIT_CONTROL_OTHER_FRAME_ENABLE: u32 = NV0073_CTRL_SPECIFIC_SET_OD_PACKET_TRANSMIT_CONTROL_OTHER_FRAME_ENABLE;
pub const NV0073_CTRL_SPECIFIC_SET_OD_PACKET_CTRL_TRANSMIT_CONTROL_RESERVED_LEGACY_MODE: u32 = NV0073_CTRL_SPECIFIC_SET_OD_PACKET_TRANSMIT_CONTROL_RESERVED_LEGACY_MODE;
pub const NV0073_CTRL_SPECIFIC_SET_OD_PACKET_CTRL_TRANSMIT_CONTROL_RESERVED_LEGACY_MODE_NO: u32 = NV0073_CTRL_SPECIFIC_SET_OD_PACKET_TRANSMIT_CONTROL_RESERVED_LEGACY_MODE_NO;
pub const NV0073_CTRL_SPECIFIC_SET_OD_PACKET_CTRL_TRANSMIT_CONTROL_RESERVED_LEGACY_MODE_YES: u32 = NV0073_CTRL_SPECIFIC_SET_OD_PACKET_TRANSMIT_CONTROL_RESERVED_LEGACY_MODE_YES;
pub const NV0073_CTRL_SPECIFIC_SET_OD_PACKET_CTRL_TRANSMIT_CONTROL_SET_SELF_REFRESH_SETTING: u32 = NV0073_CTRL_SPECIFIC_SET_OD_PACKET_TRANSMIT_CONTROL_SET_SELF_REFRESH_SETTING;
pub const NV0073_CTRL_SPECIFIC_SET_OD_PACKET_CTRL_TRANSMIT_CONTROL_SET_SELF_REFRESH_SETTING_FALSE: u32 = NV0073_CTRL_SPECIFIC_SET_OD_PACKET_TRANSMIT_CONTROL_SET_SELF_REFRESH_SETTING_TRUE;
pub const NV0073_CTRL_SPECIFIC_SET_OD_PACKET_CTRL_TRANSMIT_CONTROL_SET_SELF_REFRESH_SETTING_TRUE: u32 = NV0073_CTRL_SPECIFIC_SET_OD_PACKET_TRANSMIT_CONTROL_SET_SELF_REFRESH_SETTING_FALSE;
pub const NV0073_CTRL_SPECIFIC_SET_OD_PACKET_CTRL_TRANSMIT_CONTROL_SET_STEREO_POLARITY: u32 = NV0073_CTRL_SPECIFIC_SET_OD_PACKET_TRANSMIT_CONTROL_SET_STEREO_POLARITY;
pub const NV0073_CTRL_SPECIFIC_SET_OD_PACKET_CTRL_TRANSMIT_CONTROL_SET_STEREO_POLARITY_FALSE: u32 = NV0073_CTRL_SPECIFIC_SET_OD_PACKET_TRANSMIT_CONTROL_SET_STEREO_POLARITY_FALSE;
pub const NV0073_CTRL_SPECIFIC_SET_OD_PACKET_CTRL_TRANSMIT_CONTROL_SET_STEREO_POLARITY_TRUE: u32 = NV0073_CTRL_SPECIFIC_SET_OD_PACKET_TRANSMIT_CONTROL_SET_STEREO_POLARITY_TRUE;
pub const NV0073_CTRL_SPECIFIC_SET_OD_PACKET_CTRL_TRANSMIT_CONTROL_SINGLE_FRAME: u32 = NV0073_CTRL_SPECIFIC_SET_OD_PACKET_TRANSMIT_CONTROL_SINGLE_FRAME;
pub const NV0073_CTRL_SPECIFIC_SET_OD_PACKET_CTRL_TRANSMIT_CONTROL_SINGLE_FRAME_DISABLE: u32 = NV0073_CTRL_SPECIFIC_SET_OD_PACKET_TRANSMIT_CONTROL_SINGLE_FRAME_DISABLE;
pub const NV0073_CTRL_SPECIFIC_SET_OD_PACKET_CTRL_TRANSMIT_CONTROL_SINGLE_FRAME_ENABLE: u32 = NV0073_CTRL_SPECIFIC_SET_OD_PACKET_TRANSMIT_CONTROL_SINGLE_FRAME_ENABLE;
pub const NV0073_CTRL_SPECIFIC_SET_OD_PACKET_CTRL_TRANSMIT_CONTROL_VIDEO_FMT: u32 = NV0073_CTRL_SPECIFIC_SET_OD_PACKET_TRANSMIT_CONTROL_VIDEO_FMT;
pub const NV0073_CTRL_SPECIFIC_SET_OD_PACKET_CTRL_TRANSMIT_CONTROL_VIDEO_FMT_HW_CONTROLLED: u32 = NV0073_CTRL_SPECIFIC_SET_OD_PACKET_TRANSMIT_CONTROL_VIDEO_FMT_HW_CONTROLLED;
pub const NV0073_CTRL_SPECIFIC_SET_OD_PACKET_CTRL_TRANSMIT_CONTROL_VIDEO_FMT_SW_CONTROLLED: u32 = NV0073_CTRL_SPECIFIC_SET_OD_PACKET_TRANSMIT_CONTROL_VIDEO_FMT_SW_CONTROLLED;
pub const NV0073_CTRL_SPECIFIC_SET_OD_PACKET_PARAMS_MESSAGE_ID: u32 = 0x88;
pub const NV0073_CTRL_SPECIFIC_SET_OD_PACKET_TRANSMIT_CONTROL_ENABLE: u32 = 0;
pub const NV0073_CTRL_SPECIFIC_SET_OD_PACKET_TRANSMIT_CONTROL_ENABLE_NO: u32 = 0x0000000;
pub const NV0073_CTRL_SPECIFIC_SET_OD_PACKET_TRANSMIT_CONTROL_ENABLE_YES: u32 = 0x0000001;
pub const NV0073_CTRL_SPECIFIC_SET_OD_PACKET_TRANSMIT_CONTROL_GEN_INFOFRAME_MODE_A: u32 = 9;
pub const NV0073_CTRL_SPECIFIC_SET_OD_PACKET_TRANSMIT_CONTROL_GEN_INFOFRAME_MODE_B: u32 = 8;
pub const NV0073_CTRL_SPECIFIC_SET_OD_PACKET_TRANSMIT_CONTROL_GEN_INFOFRAME_MODE_INFOFRAME0: u32 = 0x0000000;
pub const NV0073_CTRL_SPECIFIC_SET_OD_PACKET_TRANSMIT_CONTROL_GEN_INFOFRAME_MODE_INFOFRAME1: u32 = 0x0000001;
pub const NV0073_CTRL_SPECIFIC_SET_OD_PACKET_TRANSMIT_CONTROL_IMMEDIATE: u32 = 4;
pub const NV0073_CTRL_SPECIFIC_SET_OD_PACKET_TRANSMIT_CONTROL_IMMEDIATE_DISABLE: u32 = 0x0000000;
pub const NV0073_CTRL_SPECIFIC_SET_OD_PACKET_TRANSMIT_CONTROL_IMMEDIATE_ENABLE: u32 = 0x0000001;
pub const NV0073_CTRL_SPECIFIC_SET_OD_PACKET_TRANSMIT_CONTROL_ON_HBLANK: u32 = 3;
pub const NV0073_CTRL_SPECIFIC_SET_OD_PACKET_TRANSMIT_CONTROL_ON_HBLANK_DISABLE: u32 = 0x0000000;
pub const NV0073_CTRL_SPECIFIC_SET_OD_PACKET_TRANSMIT_CONTROL_ON_HBLANK_ENABLE: u32 = 0x0000001;
pub const NV0073_CTRL_SPECIFIC_SET_OD_PACKET_TRANSMIT_CONTROL_OTHER_FRAME: u32 = 1;
pub const NV0073_CTRL_SPECIFIC_SET_OD_PACKET_TRANSMIT_CONTROL_OTHER_FRAME_DISABLE: u32 = 0x0000000;
pub const NV0073_CTRL_SPECIFIC_SET_OD_PACKET_TRANSMIT_CONTROL_OTHER_FRAME_ENABLE: u32 = 0x0000001;
pub const NV0073_CTRL_SPECIFIC_SET_OD_PACKET_TRANSMIT_CONTROL_RESERVED_LEGACY_MODE: u32 = 31;
pub const NV0073_CTRL_SPECIFIC_SET_OD_PACKET_TRANSMIT_CONTROL_RESERVED_LEGACY_MODE_NO: u32 = 0x0000000;
pub const NV0073_CTRL_SPECIFIC_SET_OD_PACKET_TRANSMIT_CONTROL_RESERVED_LEGACY_MODE_YES: u32 = 0x0000001;
pub const NV0073_CTRL_SPECIFIC_SET_OD_PACKET_TRANSMIT_CONTROL_SET_SELF_REFRESH_SETTING: u32 = 7;
pub const NV0073_CTRL_SPECIFIC_SET_OD_PACKET_TRANSMIT_CONTROL_SET_SELF_REFRESH_SETTING_FALSE: u32 = 0x0000000;
pub const NV0073_CTRL_SPECIFIC_SET_OD_PACKET_TRANSMIT_CONTROL_SET_SELF_REFRESH_SETTING_TRUE: u32 = 0x0000001;
pub const NV0073_CTRL_SPECIFIC_SET_OD_PACKET_TRANSMIT_CONTROL_SET_STEREO_POLARITY: u32 = 6;
pub const NV0073_CTRL_SPECIFIC_SET_OD_PACKET_TRANSMIT_CONTROL_SET_STEREO_POLARITY_FALSE: u32 = 0x0000000;
pub const NV0073_CTRL_SPECIFIC_SET_OD_PACKET_TRANSMIT_CONTROL_SET_STEREO_POLARITY_TRUE: u32 = 0x0000001;
pub const NV0073_CTRL_SPECIFIC_SET_OD_PACKET_TRANSMIT_CONTROL_SINGLE_FRAME: u32 = 2;
pub const NV0073_CTRL_SPECIFIC_SET_OD_PACKET_TRANSMIT_CONTROL_SINGLE_FRAME_DISABLE: u32 = 0x0000000;
pub const NV0073_CTRL_SPECIFIC_SET_OD_PACKET_TRANSMIT_CONTROL_SINGLE_FRAME_ENABLE: u32 = 0x0000001;
pub const NV0073_CTRL_SPECIFIC_SET_OD_PACKET_TRANSMIT_CONTROL_VIDEO_FMT: u32 = 5;
pub const NV0073_CTRL_SPECIFIC_SET_OD_PACKET_TRANSMIT_CONTROL_VIDEO_FMT_HW_CONTROLLED: u32 = 0x0000001;
pub const NV0073_CTRL_SPECIFIC_SET_OD_PACKET_TRANSMIT_CONTROL_VIDEO_FMT_SW_CONTROLLED: u32 = 0x0000000;
pub const NV0073_CTRL_CMD_SPECIFIC_SET_HDMI_ENABLE: u32 = 0x730273;
pub const NV0073_CTRL_SPECIFIC_SET_HDMI_ENABLE_FALSE: u32 = 0x00000000;
pub const NV0073_CTRL_SPECIFIC_SET_HDMI_ENABLE_PARAMS_MESSAGE_ID: u32 = 0x73;
pub const NV0073_CTRL_SPECIFIC_SET_HDMI_ENABLE_TRUE: u32 = 0x00000001;
pub const NV0073_CTRL_CMD_SPECIFIC_SET_HDMI_AUDIO_MUTESTREAM: u32 = 0x730275;
pub const NV0073_CTRL_CMD_SPECIFIC_SET_HDMI_AUDIO_MUTESTREAM_PARAMS_MESSAGE_ID: u32 = 0x75;
pub const NV0073_CTRL_SPECIFIC_SET_HDMI_AUDIO_MUTESTREAM_FALSE: u32 = 0x00000000;
pub const NV0073_CTRL_SPECIFIC_SET_HDMI_AUDIO_MUTESTREAM_TRUE: u32 = 0x00000001;
pub const NV0073_CTRL_CMD_SPECIFIC_OR_GET_INFO: u32 = 0x73028b;
pub const NV0073_CTRL_SPECIFIC_OR_GET_INFO_PARAMS_MESSAGE_ID: u32 = 0x8B;
pub const NV0073_CTRL_CMD_SPECIFIC_GET_CONNECTOR_DATA: u32 = 0x730250;
pub const NV0073_CTRL_SPECIFIC_GET_CONNECTOR_DATA_PARAMS_MESSAGE_ID: u32 = 0x50;
pub const NV0080_CTRL_GPU_GET_SRIOV_CAPS_PARAMS_MESSAGE_ID: u32 = 0x91;
pub const NV2080_CTRL_CE_GET_FAULT_METHOD_BUFFER_SIZE_PARAMS_MESSAGE_ID: u32 = 0x8;
pub const NV2080_CTRL_CMD_CE_GET_FAULT_METHOD_BUFFER_SIZE: u32 = 0x20802a08;
pub const NV2080_CTRL_CMD_EVENT_SET_NOTIFICATION: u32 = 0x20800301;
pub const NV2080_CTRL_EVENT_SET_NOTIFICATION_ACTION_DISABLE: u32 = 0x00000000;
pub const NV2080_CTRL_EVENT_SET_NOTIFICATION_ACTION_REPEAT: u32 = 0x00000002;
pub const NV2080_CTRL_EVENT_SET_NOTIFICATION_ACTION_SINGLE: u32 = 0x00000001;
pub const NV2080_CTRL_EVENT_SET_NOTIFICATION_PARAMS_MESSAGE_ID: u32 = 0x1;
pub const NV2080_CTRL_CMD_FB_GET_FB_REGION_INFO: u32 = 0x20801320;
pub const NV2080_CTRL_CMD_FB_GET_FB_REGION_INFO_MAX_ENTRIES: u32 = 16;
pub const NV2080_CTRL_CMD_FB_GET_FB_REGION_INFO_MEM_TYPES: u32 = 17;
pub const NV2080_CTRL_CMD_FB_GET_FB_REGION_INFO_PARAMS_MESSAGE_ID: u32 = 0x20;
pub const NV2080_CTRL_CMD_FIFO_GET_DEVICE_INFO_TABLE: u32 = 0x20801112;
pub const NV2080_CTRL_FIFO_GET_DEVICE_INFO_TABLE_ENGINE_DATA_TYPES: u32 = 16;
pub const NV2080_CTRL_FIFO_GET_DEVICE_INFO_TABLE_ENGINE_MAX_NAME_LEN: u32 = 16;
pub const NV2080_CTRL_FIFO_GET_DEVICE_INFO_TABLE_ENGINE_MAX_PBDMA: u32 = 2;
pub const NV2080_CTRL_FIFO_GET_DEVICE_INFO_TABLE_MAX_DEVICES: u32 = 256;
pub const NV2080_CTRL_FIFO_GET_DEVICE_INFO_TABLE_MAX_ENTRIES: u32 = 32;
pub const NV2080_CTRL_FIFO_GET_DEVICE_INFO_TABLE_PARAMS_MESSAGE_ID: u32 = 0x12;
pub const NV2080_CTRL_CMD_GPU_GET_FERMI_TPC_INFO: u32 = 0x20800138;
pub const NV2080_CTRL_GPU_GET_FERMI_TPC_INFO_PARAMS_MESSAGE_ID: u32 = 0x38;
pub const NV2080_CTRL_CMD_GPU_GET_FERMI_GPC_INFO: u32 = 0x20800137;
pub const NV2080_CTRL_GPU_GET_FERMI_GPC_INFO_PARAMS_MESSAGE_ID: u32 = 0x37;
pub const NV2080_CTRL_CMD_GPU_PROMOTE_CTX: u32 = 0x2080012b;
pub const NV2080_CTRL_GPU_PROMOTE_CTX_BUFFER_ID_ATTRIBUTE_CB: u32 = 5;
pub const NV2080_CTRL_GPU_PROMOTE_CTX_BUFFER_ID_BUFFER_BUNDLE_CB: u32 = 3;
pub const NV2080_CTRL_GPU_PROMOTE_CTX_BUFFER_ID_FECS_EVENT: u32 = 9;
pub const NV2080_CTRL_GPU_PROMOTE_CTX_BUFFER_ID_GFXP_CTRL_BLK: u32 = 8;
pub const NV2080_CTRL_GPU_PROMOTE_CTX_BUFFER_ID_GFXP_POOL: u32 = 7;
pub const NV2080_CTRL_GPU_PROMOTE_CTX_BUFFER_ID_GLOBAL_PRIV_ACCESS_MAP: u32 = 12;
pub const NV2080_CTRL_GPU_PROMOTE_CTX_BUFFER_ID_MAIN: u32 = 0;
pub const NV2080_CTRL_GPU_PROMOTE_CTX_BUFFER_ID_PAGEPOOL: u32 = 4;
pub const NV2080_CTRL_GPU_PROMOTE_CTX_BUFFER_ID_PATCH: u32 = 2;
pub const NV2080_CTRL_GPU_PROMOTE_CTX_BUFFER_ID_PM: u32 = 1;
pub const NV2080_CTRL_GPU_PROMOTE_CTX_BUFFER_ID_PRIV_ACCESS_MAP: u32 = 10;
pub const NV2080_CTRL_GPU_PROMOTE_CTX_BUFFER_ID_RTV_CB_GLOBAL: u32 = 6;
pub const NV2080_CTRL_GPU_PROMOTE_CTX_BUFFER_ID_UNRESTRICTED_PRIV_ACCESS_MAP: u32 = 11;
pub const NV2080_CTRL_GPU_PROMOTE_CTX_PARAMS_MESSAGE_ID: u32 = 0x2B;
pub const NV2080_CTRL_CMD_GPU_GET_CONSTRUCTED_FALCON_INFO: u32 = 0x208001b0;
pub const NV2080_CTRL_GPU_GET_CONSTRUCTED_FALCON_INFO_PARAMS_MESSAGE_ID: u32 = 0xB0;
pub const NV2080_CTRL_CMD_GPU_GET_VMMU_SEGMENT_SIZE: u32 = 0x2080017e;
pub const NV2080_CTRL_GPU_GET_VMMU_SEGMENT_SIZE_PARAMS_MESSAGE_ID: u32 = 0x7E;
pub const NV2080_CTRL_INTERNAL_STATIC_GR_GET_CONTEXT_BUFFERS_INFO_PARAMS_MESSAGE_ID: u32 = 0x33;
pub const NV2080_CTRL_CMD_INTERNAL_STATIC_KGR_GET_CONTEXT_BUFFERS_INFO: u32 = 0x20800a32;
pub const NV2080_CTRL_INTERNAL_STATIC_KGR_GET_CONTEXT_BUFFERS_INFO_PARAMS_MESSAGE_ID: u32 = 0x32;
pub const NV2080_CTRL_CMD_INTERNAL_DISPLAY_CHANNEL_PUSHBUFFER: u32 = 0x20800a58;
pub const NV2080_CTRL_INTERNAL_DISPLAY_CHANNEL_PUSHBUFFER_PARAMS_MESSAGE_ID: u32 = 0x58;
pub const NV2080_CTRL_CMD_INTERNAL_DISPLAY_WRITE_INST_MEM: u32 = 0x20800a49;
pub const NV2080_CTRL_INTERNAL_DISPLAY_WRITE_INST_MEM_PARAMS_MESSAGE_ID: u32 = 0x49;
pub const NV2080_CTRL_CMD_INTERNAL_DISPLAY_GET_STATIC_INFO: u32 = 0x20800a01;
pub const NV2080_CTRL_INTERNAL_DISPLAY_GET_STATIC_INFO_PARAMS_MESSAGE_ID: u32 = 0x1;
pub const NV2080_CTRL_CMD_INTERNAL_FBSR_INIT: u32 = 0x20800ac2;
pub const NV2080_CTRL_INTERNAL_FBSR_INIT_PARAMS_MESSAGE_ID: u32 = 0xC2;
pub const NV2080_CTRL_CMD_INTERNAL_INTR_GET_KERNEL_TABLE: u32 = 0x20800a5c;
pub const NV2080_CTRL_INTERNAL_INTR_GET_KERNEL_TABLE_PARAMS_MESSAGE_ID: u32 = 0x5C;
pub const NV2080_CTRL_CMD_VGPU_MGR_INTERNAL_SHUTDOWN_GSP_VGPU_PLUGIN_TASK: u32 = 0x20804002;
pub const NV2080_CTRL_VGPU_MGR_INTERNAL_SHUTDOWN_GSP_VGPU_PLUGIN_TASK_PARAMS_MESSAGE_ID: u32 = 0x2;
pub const NV2080_CTRL_CMD_VGPU_MGR_INTERNAL_VGPU_PLUGIN_CLEANUP: u32 = 0x20804008;
pub const NV2080_CTRL_VGPU_MGR_INTERNAL_VGPU_PLUGIN_CLEANUP_PARAMS_MESSAGE_ID: u32 = 0x8;
pub const NV2080_CTRL_CMD_VGPU_MGR_INTERNAL_BOOTLOAD_GSP_VGPU_PLUGIN_TASK: u32 = 0x20804001;
pub const NV2080_CTRL_VGPU_MGR_INTERNAL_BOOTLOAD_GSP_VGPU_PLUGIN_TASK_PARAMS_MESSAGE_ID: u32 = 0x1;
pub const NV2080_CTRL_CMD_VGPU_MGR_INTERNAL_PGPU_ADD_VGPU_TYPE: u32 = 0x20804003;
pub const NV2080_CTRL_VGPU_MGR_INTERNAL_PGPU_ADD_VGPU_TYPE_PARAMS_MESSAGE_ID: u32 = 0x3;
pub const NV90F1_CTRL_CMD_VASPACE_COPY_SERVER_RESERVED_PDES: u32 = 0x90f10106;
pub const NV90F1_CTRL_VASPACE_COPY_SERVER_RESERVED_PDES_PARAMS_MESSAGE_ID: u32 = 0x6;
pub const NVA06F_CTRL_BIND_PARAMS_MESSAGE_ID: u32 = 0x4;
pub const NVA06F_CTRL_CMD_BIND: u32 = 0xa06f0104;
pub const NVA06F_CTRL_CMD_GPFIFO_SCHEDULE: u32 = 0xa06f0103;
pub const NVA06F_CTRL_GPFIFO_SCHEDULE_PARAMS_MESSAGE_ID: u32 = 0x3;

/// View of the firmware structure `s_rpc_message_rpc_union_field_v03_00` (4 bytes).
pub struct s_rpc_message_rpc_union_field_v03_00<'s> {
    /// The buffer from the first byte of the structure to the end.
    pub store: &'s mut [u8],
}

impl<'s> s_rpc_message_rpc_union_field_v03_00<'s> {
    /// The bytes seen through this view.
    pub open spec fn bytes(&self) -> Seq<u8> {
        self.store@
    }

    /// The buffer holds at least the whole structure.
    pub open spec fn wf(&self) -> bool {
        self.store@.len() >= 4
    }

    /// Size of the structure in bytes.
    pub fn str_size() -> (n: usize)
        ensures
            n == 4,
    {
        4
    }

    /// Views `store` as this structure, starting at its first byte.
    pub fn new(store: &'s mut [u8]) -> (r: Self)
        requires
            old(store)@.len() >= 4,
        ensures
            r.bytes() == old(store)@,
            r.wf(),
            final(store)@ == final(r.store)@,
    {
        Self { store }
    }

    /// Writes `fld` to the `spare` field (bytes 0..4) and gives the view back.
    pub fn spare(self, fld: u32) -> (r: Self)
        requires
            self.wf(),
        ensures
            r.bytes() == splice(self.bytes(), 0, spec_u32_to_le_bytes(fld)),
            r.wf(),
            final(r.store)@ == final(self.store)@,
    {
        write_u32(self.store, 0, fld);
        self
    }

    /// Reads the `spare` field (bytes 0..4).
    pub fn get_spare(&self) -> (r: u32)
        requires
            self.wf(),
        ensures
            r == u32_at(self.bytes(), 0),
    {
        read_u32(self.store, 0)
    }

    /// Writes `fld` to the `spare` field (bytes 0..4).
    pub fn set_spare(&mut self, fld: u32)
        requires
            old(self).wf(),
        ensures
            final(self).bytes() == splice(old(self).bytes(), 0, spec_u32_to_le_bytes(fld)),
            final(self).wf(),
            final(final(self).store)@ == final(old(self).store)@,
    {
        write_u32(self.store, 0, fld);
    }

    /// Writes `fld` to the `cpuRmGfid` field (bytes 0..4) and gives the view back.
    pub fn cpuRmGfid(self, fld: u32) -> (r: Self)
        requires
            self.wf(),
        ensures
            r.bytes() == splice(self.bytes(), 0, spec_u32_to_le_bytes(fld)),
            r.wf(),
            final(r.store)@ == final(self.store)@,
    {
        write_u32(self.store, 0, fld);
        self
    }

    /// Reads the `cpuRmGfid` field (bytes 0..4).
    pub fn get_cpuRmGfid(&self) -> (r: u32)
        requires
            self.wf(),
        ensures
            r == u32_at(self.bytes(), 0),
    {
        read_u32(self.store, 0)
    }

    /// Writes `fld` to the `cpuRmGfid` field (bytes 0..4).
    pub fn set_cpuRmGfid(&mut self, fld: u32)
        requires
            old(self).wf(),
        ensures
            final(self).bytes() == splice(old(self).bytes(), 0, spec_u32_to_le_bytes(fld)),
            final(self).wf(),
            final(final(self).store)@ == final(old(self).store)@,
    {
        write_u32(self.store, 0, fld);
    }

}

/// View of the firmware structure `s_rpc_message_header_v03_00` (32 bytes).
pub struct s_rpc_message_header_v03_00<'s> {
    /// The buffer from the first byte of the structure to the end.
    pub store: &'s mut [u8],
}

impl<'s> s_rpc_message_header_v03_00<'s> {
    /// The bytes seen through this view.
    pub open spec fn bytes(&self) -> Seq<u8> {
        self.store@
    }

    /// The buffer holds at least the whole structure.
    pub open spec fn wf(&self) -> bool {
        self.store@.len() >= 32
    }

    /// Size of the structure in bytes.
    pub fn str_size() -> (n: usize)
        ensures
            n == 32,
    {
        32
    }

    /// Views `store` as this structure, starting at its first byte.
    pub fn new(store: &'s mut [u8]) -> (r: Self)
        requires
            old(store)@.len() >= 32,
        ensures
            r.bytes() == old(store)@,
            r.wf(),
            final(store)@ == final(r.store)@,
    {
        Self { store }
    }

    /// Writes `fld` to the `header_version` field (bytes 0..4) and gives the view back.
    pub fn header_version(self, fld: u32) -> (r: Self)
        requires
            self.wf(),
        ensures
            r.bytes() == splice(self.bytes(), 0, spec_u32_to_le_bytes(fld)),
            r.wf(),
            final(r.store)@ == final(self.store)@,
    {
        write_u32(self.store, 0, fld);
        self
    }

    /// Reads the `header_version` field (bytes 0..4).
    pub fn get_header_version(&self) -> (r: u32)
        requires
            self.wf(),
        ensures
            r == u32_at(self.bytes(), 0),
    {
        read_u32(self.store, 0)
    }

    /// Writes `fld` to the `header_version` field (bytes 0..4).
    pub fn set_header_version(&mut self, fld: u32)
        requires
            old(self).wf(),
        ensures
            final(self).bytes() == splice(old(self).bytes(), 0, spec_u32_to_le_bytes(fld)),
            final(self).wf(),
            final(final(self).store)@ == final(old(self).store)@,
    {
        write_u32(self.store, 0, fld);
    }

    /// Writes `fld` to the `signature` field (bytes 4..8) and gives the view back.
    pub fn signature(self, fld: u32) -> (r: Self)
        requires
            self.wf(),
        ensures
            r.bytes() == splice(self.bytes(), 4, spec_u32_to_le_bytes(fld)),
            r.wf(),
            final(r.store)@ == final(self.store)@,
    {
        write_u32(self.store, 4, fld);
        self
    }

    /// Reads the `signature` field (bytes 4..8).
    pub fn get_signature(&self) -> (r: u32)
        requires
            self.wf(),
        ensures
            r == u32_at(self.bytes(), 4),
    {
        read_u32(self.store, 4)
    }

    /// Writes `fld` to the `signature` field (bytes 4..8).
    pub fn set_signature(&mut self, fld: u32)
        requires
            old(self).wf(),
        ensures
            final(self).bytes() == splice(old(self).bytes(), 4, spec_u32_to_le_bytes(fld)),
            final(self).wf(),
            final(final(self).store)@ == final(old(self).store)@,
    {
        write_u32(self.store, 4, fld);
    }

    /// Writes `fld` to the `length` field (bytes 8..12) and gives the view back.
    pub fn length(self, fld: u32) -> (r: Self)
        requires
            self.wf(),
        ensures
            r.bytes() == splice(self.bytes(), 8, spec_u32_to_le_bytes(fld)),
            r.wf(),
            final(r.store)@ == final(self.store)@,
    {
        write_u32(self.store, 8, fld);
        self
    }

    /// Reads the `length` field (bytes 8..12).
    pub fn get_length(&self) -> (r: u32)
        requires
            self.wf(),
        ensures
            r == u32_at(self.bytes(), 8),
    {
        read_u32(self.store, 8)
    }

    /// Writes `fld` to the `length` field (bytes 8..12).
    pub fn set_length(&mut self, fld: u32)
        requires
            old(self).wf(),
        ensures
            final(self).bytes() == splice(old(self).bytes(), 8, spec_u32_to_le_bytes(fld)),
            final(self).wf(),
            final(final(self).store)@ == final(old(self).store)@,
    {
        write_u32(self.store, 8, fld);
    }

    /// Writes `fld` to the `function` field (bytes 12..16) and gives the view back.
    pub fn function(self, fld: u32) -> (r: Self)
        requires
            self.wf(),
        ensures
            r.bytes() == splice(self.bytes(), 12, spec_u32_to_le_bytes(fld)),
            r.wf(),
            final(r.store)@ == final(self.store)@,
    {
        write_u32(self.store, 12, fld);
        self
    }

    /// Reads the `function` field (bytes 12..16).
    pub fn get_function(&self) -> (r: u32)
        requires
            self.wf(),
        ensures
            r == u32_at(self.bytes(), 12),
    {
        read_u32(self.store, 12)
    }

    /// Writes `fld` to the `function` field (bytes 12..16).
    pub fn set_function(&mut self, fld: u32)
        requires
            old(self).wf(),
        ensures
            final(self).bytes() == splice(old(self).bytes(), 12, spec_u32_to_le_bytes(fld)),
            final(self).wf(),
            final(final(self).store)@ == final(old(self).store)@,
    {
        write_u32(self.store, 12, fld);
    }

    /// Writes `fld` to the `rpc_result` field (bytes 16..20) and gives the view back.
    pub fn rpc_result(self, fld: u32) -> (r: Self)
        requires
            self.wf(),
        ensures
            r.bytes() == splice(self.bytes(), 16, spec_u32_to_le_bytes(fld)),
            r.wf(),
            final(r.store)@ == final(self.store)@,
    {
        write_u32(self.store, 16, fld);
        self
    }

    /// Reads the `rpc_result` field (bytes 16..20).
    pub fn get_rpc_result(&self) -> (r: u32)
        requires
            self.wf(),
        ensures
            r == u32_at(self.bytes(), 16),
    {
        read_u32(self.store, 16)
    }

    /// Writes `fld` to the `rpc_result` field (bytes 16..20).
    pub fn set_rpc_result(&mut self, fld: u32)
        requires
            old(self).wf(),
        ensures
            final(self).bytes() == splice(old(self).bytes(), 16, spec_u32_to_le_bytes(fld)),
            final(self).wf(),
            final(final(self).store)@ == final(old(self).store)@,
    {
        write_u32(self.store, 16, fld);
    }

    /// Writes `fld` to the `rpc_result_private` field (bytes 20..24) and gives the view back.
    pub fn rpc_result_private(self, fld: u32) -> (r: Self)
        requires
            self.wf(),
        ensures
            r.bytes() == splice(self.bytes(), 20, spec_u32_to_le_bytes(fld)),
            r.wf(),
            final(r.store)@ == final(self.store)@,
    {
        write_u32(self.store, 20, fld);
        self
    }

    /// Reads the `rpc_result_private` field (bytes 20..24).
    pub fn get_rpc_result_private(&self) -> (r: u32)
        requires
            self.wf(),
        ensures
            r == u32_at(self.bytes(), 20),
    {
        read_u32(self.store, 20)
    }

    /// Writes `fld` to the `rpc_result_private` field (bytes 20..24).
    pub fn set_rpc_result_private(&mut self, fld: u32)
        requires
            old(self).wf(),
        ensures
            final(self).bytes() == splice(old(self).bytes(), 20, spec_u32_to_le_bytes(fld)),
            final(self).wf(),
            final(final(self).store)@ == final(old(self).store)@,
    {
        write_u32(self.store, 20, fld);
    }

    /// Writes `fld` to the `sequence` field (bytes 24..28) and gives the view back.
    pub fn sequence(self, fld: u32) -> (r: Self)
        requires
            self.wf(),
        ensures
            r.bytes() == splice(self.bytes(), 24, spec_u32_to_le_bytes(fld)),
            r.wf(),
            final(r.store)@ == final(self.store)@,
    {
        write_u32(self.store, 24, fld);
        self
    }

    /// Reads the `sequence` field (bytes 24..28).
    pub fn get_sequence(&self) -> (r: u32)
        requires
            self.wf(),
        ensures
            r == u32_at(self.bytes(), 24),
    {
        read_u32(self.store, 24)
    }

    /// Writes `fld` to the `sequence` field (bytes 24..28).
    pub fn set_sequence(&mut self, fld: u32)
        requires
            old(self).wf(),
        ensures
            final(self).bytes() == splice(old(self).bytes(), 24, spec_u32_to_le_bytes(fld)),
            final(self).wf(),
            final(final(self).store)@ == final(old(self).store)@,
    {
        write_u32(self.store, 24, fld);
    }

    /// View of the `u` substructure at byte 28.
    pub fn new_S_u(&mut self) -> (r: s_rpc_message_rpc_union_field_v03_00<'_>)
        requires
            old(self).wf(),
        ensures
            r.bytes() == old(self).bytes().subrange(28, old(self).bytes().len() as int),
            r.wf(),
            final(self).bytes() == old(self).bytes().subrange(0, 28) + final(r.store)@,
            final(final(self).store)@ == final(old(self).store)@,
    {
        let (_head, tail) = self.store.split_at_mut(28);
        s_rpc_message_rpc_union_field_v03_00 { store: tail }
    }

}

/// View of the firmware structure `s_rpc_update_bar_pde_v15_00` (24 bytes).
pub struct s_rpc_update_bar_pde_v15_00<'s> {
    /// The buffer from the first byte of the structure to the end.
    pub store: &'s mut [u8],
}

impl<'s> s_rpc_update_bar_pde_v15_00<'s> {
    /// The bytes seen through this view.
    pub open spec fn bytes(&self) -> Seq<u8> {
        self.store@
    }

    /// The buffer holds at least the whole structure.
    pub open spec fn wf(&self) -> bool {
        self.store@.len() >= 24
    }

    /// Size of the structure in bytes.
    pub fn str_size() -> (n: usize)
        ensures
            n == 24,
    {
        24
    }

    /// Views `store` as this structure, starting at its first byte.
    pub fn new(store: &'s mut [u8]) -> (r: Self)
        requires
            old(store)@.len() >= 24,
        ensures
            r.bytes() == old(store)@,
            r.wf(),
            final(store)@ == final(r.store)@,
    {
        Self { store }
    }

    /// View of the `info` substructure at byte 0.
    pub fn new_S_info(&mut self) -> (r: s_UpdateBarPde_v15_00<'_>)
        requires
            old(self).wf(),
        ensures
            r.bytes() == old(self).bytes().subrange(0, old(self).bytes().len() as int),
            r.wf(),
            final(self).bytes() == old(self).bytes().subrange(0, 0) + final(r.store)@,
            final(final(self).store)@ == final(old(self).store)@,
    {
        let (_head, tail) = self.store.split_at_mut(0);
        s_UpdateBarPde_v15_00 { store: tail }
    }

}

/// View of the firmware structure `s_UpdateBarPde_v15_00` (24 bytes).
pub struct s_UpdateBarPde_v15_00<'s> {
    /// The buffer from the first byte of the structure to the end.
    pub store: &'s mut [u8],
}

impl<'s> s_UpdateBarPde_v15_00<'s> {
    /// The bytes seen through this view.
    pub open spec fn bytes(&self) -> Seq<u8> {
        self.store@
    }

    /// The buffer holds at least the whole structure.
    pub open spec fn wf(&self) -> bool {
        self.store@.len() >= 24
    }

    /// Size of the structure in bytes.
    pub fn str_size() -> (n: usize)
        ensures
            n == 24,
    {
        24
    }

    /// Views `store` as this structure, starting at its first byte.
    pub fn new(store: &'s mut [u8]) -> (r: Self)
        requires
            old(store)@.len() >= 24,
        ensures
            r.bytes() == old(store)@,
            r.wf(),
            final(store)@ == final(r.store)@,
    {
        Self { store }
    }

    /// Writes `fld` to the `barType` field (bytes 0..4) and gives the view back.
    pub fn barType(self, fld: u32) -> (r: Self)
        requires
            self.wf(),
        ensures
            r.bytes() == splice(self.bytes(), 0, spec_u32_to_le_bytes(fld)),
            r.wf(),
            final(r.store)@ == final(self.store)@,
    {
        write_u32(self.store, 0, fld);
        self
    }

    /// Reads the `barType` field (bytes 0..4).
    pub fn get_barType(&self) -> (r: u32)
        requires
            self.wf(),
        ensures
            r == u32_at(self.bytes(), 0),
    {
        read_u32(self.store, 0)
    }

    /// Writes `fld` to the `barType` field (bytes 0..4).
    pub fn set_barType(&mut self, fld: u32)
        requires
            old(self).wf(),
        ensures
            final(self).bytes() == splice(old(self).bytes(), 0, spec_u32_to_le_bytes(fld)),
            final(self).wf(),
            final(final(self).store)@ == final(old(self).store)@,
    {
        write_u32(self.store, 0, fld);
    }

    /// Writes `fld` to the `entryValue` field (bytes 8..16) and gives the view back.
    pub fn entryValue(self, fld: u64) -> (r: Self)
        requires
            self.wf(),
        ensures
            r.bytes() == splice(self.bytes(), 8, spec_u64_to_le_bytes(fld)),
            r.wf(),
            final(r.store)@ == final(self.store)@,
    {
        write_u64(self.store, 8, fld);
        self
    }

    /// Reads the `entryValue` field (bytes 8..16).
    pub fn get_entryValue(&self) -> (r: u64)
        requires
            self.wf(),
        ensures
            r == u64_at(self.bytes(), 8),
    {
        read_u64(self.store, 8)
    }

    /// Writes `fld` to the `entryValue` field (bytes 8..16).
    pub fn set_entryValue(&mut self, fld: u64)
        requires
            old(self).wf(),
        ensures
            final(self).bytes() == splice(old(self).bytes(), 8, spec_u64_to_le_bytes(fld)),
            final(self).wf(),
            final(final(self).store)@ == final(old(self).store)@,
    {
        write_u64(self.store, 8, fld);
    }

    /// Writes `fld` to the `entryLevelShift` field (bytes 16..24) and gives the view back.
    pub fn entryLevelShift(self, fld: u64) -> (r: Self)
        requires
            self.wf(),
        ensures
            r.bytes() == splice(self.bytes(), 16, spec_u64_to_le_bytes(fld)),
            r.wf(),
            final(r.store)@ == final(self.store)@,
    {
        write_u64(self.store, 16, fld);
        self
    }

    /// Reads the `entryLevelShift` field (bytes 16..24).
    pub fn get_entryLevelShift(&self) -> (r: u64)
        requires
            self.wf(),
        ensures
            r == u64_at(self.bytes(), 16),
    {
        read_u64(self.store, 16)
    }

    /// Writes `fld` to the `entryLevelShift` field (bytes 16..24).
    pub fn set_entryLevelShift(&mut self, fld: u64)
        requires
            old(self).wf(),
        ensures
            final(self).bytes() == splice(old(self).bytes(), 16, spec_u64_to_le_bytes(fld)),
            final(self).wf(),
            final(final(self).store)@ == final(old(self).store)@,
    {
        write_u64(self.store, 16, fld);
    }

}

/// View of the firmware structure `s_GspFwWprMeta` (256 bytes).
pub struct s_GspFwWprMeta<'s> {
    /// The buffer from the first byte of the structure to the end.
    pub store: &'s mut [u8],
}

impl<'s> s_GspFwWprMeta<'s> {
    /// The bytes seen through this view.
    pub open spec fn bytes(&self) -> Seq<u8> {
        self.store@
    }

    /// The buffer holds at least the whole structure.
    pub open spec fn wf(&self) -> bool {
        self.store@.len() >= 256
    }

    /// Size of the structure in bytes.
    pub fn str_size() -> (n: usize)
        ensures
            n == 256,
    {
        256
    }

    /// Views `store` as this structure, starting at its first byte.
    pub fn new(store: &'s mut [u8]) -> (r: Self)
        requires
            old(store)@.len() >= 256,
        ensures
            r.bytes() == old(store)@,
            r.wf(),
            final(store)@ == final(r.store)@,
    {
        Self { store }
    }

    /// Writes `fld` to the `magic` field (bytes 0..8) and gives the view back.
    pub fn magic(self, fld: u64) -> (r: Self)
        requires
            self.wf(),
        ensures
            r.bytes() == splice(self.bytes(), 0, spec_u64_to_le_bytes(fld)),
            r.wf(),
            final(r.store)@ == final(self.store)@,
    {
        write_u64(self.store, 0, fld);
        self
    }

    /// Reads the `magic` field (bytes 0..8).
    pub fn get_magic(&self) -> (r: u64)
        requires
            self.wf(),
        ensures
            r == u64_at(self.bytes(), 0),
    {
        read_u64(self.store, 0)
    }

    /// Writes `fld` to the `magic` field (bytes 0..8).
    pub fn set_magic(&mut self, fld: u64)
        requires
            old(self).wf(),
        ensures
            final(self).bytes() == splice(old(self).bytes(), 0, spec_u64_to_le_bytes(fld)),
            final(self).wf(),
            final(final(self).store)@ == final(old(self).store)@,
    {
        write_u64(self.store, 0, fld);
    }

    /// Writes `fld` to the `revision` field (bytes 8..16) and gives the view back.
    pub fn revision(self, fld: u64) -> (r: Self)
        requires
            self.wf(),
        ensures
            r.bytes() == splice(self.bytes(), 8, spec_u64_to_le_bytes(fld)),
            r.wf(),
            final(r.store)@ == final(self.store)@,
    {
        write_u64(self.store, 8, fld);
        self
    }

    /// Reads the `revision` field (bytes 8..16).
    pub fn get_revision(&self) -> (r: u64)
        requires
            self.wf(),
        ensures
            r == u64_at(self.bytes(), 8),
    {
        read_u64(self.store, 8)
    }

    /// Writes `fld` to the `revision` field (bytes 8..16).
    pub fn set_revision(&mut self, fld: u64)
        requires
            old(self).wf(),
        ensures
            final(self).bytes() == splice(old(self).bytes(), 8, spec_u64_to_le_bytes(fld)),
            final(self).wf(),
            final(final(self).store)@ == final(old(self).store)@,
    {
        write_u64(self.store, 8, fld);
    }

    /// Writes `fld` to the `sysmemAddrOfRadix3Elf` field (bytes 16..24) and gives the view back.
    pub fn sysmemAddrOfRadix3Elf(self, fld: u64) -> (r: Self)
        requires
            self.wf(),
        ensures
            r.bytes() == splice(self.bytes(), 16, spec_u64_to_le_bytes(fld)),
            r.wf(),
            final(r.store)@ == final(self.store)@,
    {
        write_u64(self.store, 16, fld);
        self
    }

    /// Reads the `sysmemAddrOfRadix3Elf` field (bytes 16..24).
    pub fn get_sysmemAddrOfRadix3Elf(&self) -> (r: u64)
        requires
            self.wf(),
        ensures
            r == u64_at(self.bytes(), 16),
    {
        read_u64(self.store, 16)
    }

    /// Writes `fld` to the `sysmemAddrOfRadix3Elf` field (bytes 16..24).
    pub fn set_sysmemAddrOfRadix3Elf(&mut self, fld: u64)
        requires
            old(self).wf(),
        ensures
            final(self).bytes() == splice(old(self).bytes(), 16, spec_u64_to_le_bytes(fld)),
            final(self).wf(),
            final(final(self).store)@ == final(old(self).store)@,
    {
        write_u64(self.store, 16, fld);
    }

    /// Writes `fld` to the `sizeOfRadix3Elf` field (bytes 24..32) and gives the view back.
    pub fn sizeOfRadix3Elf(self, fld: u64) -> (r: Self)
        requires
            self.wf(),
        ensures
            r.bytes() == splice(self.bytes(), 24, spec_u64_to_le_bytes(fld)),
            r.wf(),
            final(r.store)@ == final(self.store)@,
    {
        write_u64(self.store, 24, fld);
        self
    }

    /// Reads the `sizeOfRadix3Elf` field (bytes 24..32).
    pub fn get_sizeOfRadix3Elf(&self) -> (r: u64)
        requires
            self.wf(),
        ensures
            r == u64_at(self.bytes(), 24),
    {
        read_u64(self.store, 24)
    }

    /// Writes `fld` to the `sizeOfRadix3Elf` field (bytes 24..32).
    pub fn set_sizeOfRadix3Elf(&mut self, fld: u64)
        requires
            old(self).wf(),
        ensures
            final(self).bytes() == splice(old(self).bytes(), 24, spec_u64_to_le_bytes(fld)),
            final(self).wf(),
            final(final(self).store)@ == final(old(self).store)@,
    {
        write_u64(self.store, 24, fld);
    }

    /// Writes `fld` to the `sysmemAddrOfBootloader` field (bytes 32..40) and gives the view back.
    pub fn sysmemAddrOfBootloader(self, fld: u64) -> (r: Self)
        requires
            self.wf(),
        ensures
            r.bytes() == splice(self.bytes(), 32, spec_u64_to_le_bytes(fld)),
            r.wf(),
            final(r.store)@ == final(self.store)@,
    {
        write_u64(self.store, 32, fld);
        self
    }

    /// Reads the `sysmemAddrOfBootloader` field (bytes 32..40).
    pub fn get_sysmemAddrOfBootloader(&self) -> (r: u64)
        requires
            self.wf(),
        ensures
            r == u64_at(self.bytes(), 32),
    {
        read_u64(self.store, 32)
    }

    /// Writes `fld` to the `sysmemAddrOfBootloader` field (bytes 32..40).
    pub fn set_sysmemAddrOfBootloader(&mut self, fld: u64)
        requires
            old(self).wf(),
        ensures
            final(self).bytes() == splice(old(self).bytes(), 32, spec_u64_to_le_bytes(fld)),
            final(self).wf(),
            final(final(self).store)@ == final(old(self).store)@,
    {
        write_u64(self.store, 32, fld);
    }

    /// Writes `fld` to the `sizeOfBootloader` field (bytes 40..48) and gives the view back.
    pub fn sizeOfBootloader(self, fld: u64) -> (r: Self)
        requires
            self.wf(),
        ensures
            r.bytes() == splice(self.bytes(), 40, spec_u64_to_le_bytes(fld)),
            r.wf(),
            final(r.store)@ == final(self.store)@,
    {
        write_u64(self.store, 40, fld);
        self
    }

    /// Reads the `sizeOfBootloader` field (bytes 40..48).
    pub fn get_sizeOfBootloader(&self) -> (r: u64)
        requires
            self.wf(),
        ensures
            r == u64_at(self.bytes(), 40),
    {
        read_u64(self.store, 40)
    }

    /// Writes `fld` to the `sizeOfBootloader` field (bytes 40..48).
    pub fn set_sizeOfBootloader(&mut self, fld: u64)
        requires
            old(self).wf(),
        ensures
            final(self).bytes() == splice(old(self).bytes(), 40, spec_u64_to_le_bytes(fld)),
            final(self).wf(),
            final(final(self).store)@ == final(old(self).store)@,
    {
        write_u64(self.store, 40, fld);
    }

    /// Writes `fld` to the `bootloaderCodeOffset` field (bytes 48..56) and gives the view back.
    pub fn bootloaderCodeOffset(self, fld: u64) -> (r: Self)
        requires
            self.wf(),
        ensures
            r.bytes() == splice(self.bytes(), 48, spec_u64_to_le_bytes(fld)),
            r.wf(),
            final(r.store)@ == final(self.store)@,
    {
        write_u64(self.store, 48, fld);
        self
    }

    /// Reads the `bootloaderCodeOffset` field (bytes 48..56).
    pub fn get_bootloaderCodeOffset(&self) -> (r: u64)
        requires
            self.wf(),
        ensures
            r == u64_at(self.bytes(), 48),
    {
        read_u64(self.store, 48)
    }

    /// Writes `fld` to the `bootloaderCodeOffset` field (bytes 48..56).
    pub fn set_bootloaderCodeOffset(&mut self, fld: u64)
        requires
            old(self).wf(),
        ensures
            final(self).bytes() == splice(old(self).bytes(), 48, spec_u64_to_le_bytes(fld)),
            final(self).wf(),
            final(final(self).store)@ == final(old(self).store)@,
    {
        write_u64(self.store, 48, fld);
    }

    /// Writes `fld` to the `bootloaderDataOffset` field (bytes 56..64) and gives the view back.
    pub fn bootloaderDataOffset(self, fld: u64) -> (r: Self)
        requires
            self.wf(),
        ensures
            r.bytes() == splice(self.bytes(), 56, spec_u64_to_le_bytes(fld)),
            r.wf(),
            final(r.store)@ == final(self.store)@,
    {
        write_u64(self.store, 56, fld);
        self
    }

    /// Reads the `bootloaderDataOffset` field (bytes 56..64).
    pub fn get_bootloaderDataOffset(&self) -> (r: u64)
        requires
            self.wf(),
        ensures
            r == u64_at(self.bytes(), 56),
    {
        read_u64(self.store, 56)
    }

    /// Writes `fld` to the `bootloaderDataOffset` field (bytes 56..64).
    pub fn set_bootloaderDataOffset(&mut self, fld: u64)
        requires
            old(self).wf(),
        ensures
            final(self).bytes() == splice(old(self).bytes(), 56, spec_u64_to_le_bytes(fld)),
            final(self).wf(),
            final(final(self).store)@ == final(old(self).store)@,
    {
        write_u64(self.store, 56, fld);
    }

    /// Writes `fld` to the `bootloaderManifestOffset` field (bytes 64..72) and gives the view back.
    pub fn bootloaderManifestOffset(self, fld: u64) -> (r: Self)
        requires
            self.wf(),
        ensures
            r.bytes() == splice(self.bytes(), 64, spec_u64_to_le_bytes(fld)),
            r.wf(),
            final(r.store)@ == final(self.store)@,
    {
        write_u64(self.store, 64, fld);
        self
    }

    /// Reads the `bootloaderManifestOffset` field (bytes 64..72).
    pub fn get_bootloaderManifestOffset(&self) -> (r: u64)
        requires
            self.wf(),
        ensures
            r == u64_at(self.bytes(), 64),
    {
        read_u64(self.store, 64)
    }

    /// Writes `fld` to the `bootloaderManifestOffset` field (bytes 64..72).
    pub fn set_bootloaderManifestOffset(&mut self, fld: u64)
        requires
            old(self).wf(),
        ensures
            final(self).bytes() == splice(old(self).bytes(), 64, spec_u64_to_le_bytes(fld)),
            final(self).wf(),
            final(final(self).store)@ == final(old(self).store)@,
    {
        write_u64(self.store, 64, fld);
    }

    /// Writes `fld` to the `sysmemAddrOfSignature` field (bytes 72..80) and gives the view back.
    pub fn sysmemAddrOfSignature(self, fld: u64) -> (r: Self)
        requires
            self.wf(),
        ensures
            r.bytes() == splice(self.bytes(), 72, spec_u64_to_le_bytes(fld)),
            r.wf(),
            final(r.store)@ == final(self.store)@,
    {
        write_u64(self.store, 72, fld);
        self
    }

    /// Reads the `sysmemAddrOfSignature` field (bytes 72..80).
    pub fn get_sysmemAddrOfSignature(&self) -> (r: u64)
        requires
            self.wf(),
        ensures
            r == u64_at(self.bytes(), 72),
    {
        read_u64(self.store, 72)
    }

    /// Writes `fld` to the `sysmemAddrOfSignature` field (bytes 72..80).
    pub fn set_sysmemAddrOfSignature(&mut self, fld: u64)
        requires
            old(self).wf(),
        ensures
            final(self).bytes() == splice(old(self).bytes(), 72, spec_u64_to_le_bytes(fld)),
            final(self).wf(),
            final(final(self).store)@ == final(old(self).store)@,
    {
        write_u64(self.store, 72, fld);
    }

    /// Writes `fld` to the `sizeOfSignature` field (bytes 80..88) and gives the view back.
    pub fn sizeOfSignature(self, fld: u64) -> (r: Self)
        requires
            self.wf(),
        ensures
            r.bytes() == splice(self.bytes(), 80, spec_u64_to_le_bytes(fld)),
            r.wf(),
            final(r.store)@ == final(self.store)@,
    {
        write_u64(self.store, 80, fld);
        self
    }

    /// Reads the `sizeOfSignature` field (bytes 80..88).
    pub fn get_sizeOfSignature(&self) -> (r: u64)
        requires
            self.wf(),
        ensures
            r == u64_at(self.bytes(), 80),
    {
        read_u64(self.store, 80)
    }

    /// Writes `fld` to the `sizeOfSignature` field (bytes 80..88).
    pub fn set_sizeOfSignature(&mut self, fld: u64)
        requires
            old(self).wf(),
        ensures
            final(self).bytes() == splice(old(self).bytes(), 80, spec_u64_to_le_bytes(fld)),
            final(self).wf(),
            final(final(self).store)@ == final(old(self).store)@,
    {
        write_u64(self.store, 80, fld);
    }

    /// Writes `fld` to the `gspFwHeapFreeListWprOffset` field (bytes 72..76) and gives the view back.
    pub fn gspFwHeapFreeListWprOffset(self, fld: u32) -> (r: Self)
        requires
            self.wf(),
        ensures
            r.bytes() == splice(self.bytes(), 72, spec_u32_to_le_bytes(fld)),
            r.wf(),
            final(r.store)@ == final(self.store)@,
    {
        write_u32(self.store, 72, fld);
        self
    }

    /// Reads the `gspFwHeapFreeListWprOffset` field (bytes 72..76).
    pub fn get_gspFwHeapFreeListWprOffset(&self) -> (r: u32)
        requires
            self.wf(),
        ensures
            r == u32_at(self.bytes(), 72),
    {
        read_u32(self.store, 72)
    }

    /// Writes `fld` to the `gspFwHeapFreeListWprOffset` field (bytes 72..76).
    pub fn set_gspFwHeapFreeListWprOffset(&mut self, fld: u32)
        requires
            old(self).wf(),
        ensures
            final(self).bytes() == splice(old(self).bytes(), 72, spec_u32_to_le_bytes(fld)),
            final(self).wf(),
            final(final(self).store)@ == final(old(self).store)@,
    {
        write_u32(self.store, 72, fld);
    }

    /// Writes `fld` to the `unused0` field (bytes 76..80) and gives the view back.
    pub fn unused0(self, fld: u32) -> (r: Self)
        requires
            self.wf(),
        ensures
            r.bytes() == splice(self.bytes(), 76, spec_u32_to_le_bytes(fld)),
            r.wf(),
            final(r.store)@ == final(self.store)@,
    {
        write_u32(self.store, 76, fld);
        self
    }

    /// Reads the `unused0` field (bytes 76..80).
    pub fn get_unused0(&self) -> (r: u32)
        requires
            self.wf(),
        ensures
            r == u32_at(self.bytes(), 76),
    {
        read_u32(self.store, 76)
    }

    /// Writes `fld` to the `unused0` field (bytes 76..80).
    pub fn set_unused0(&mut self, fld: u32)
        requires
            old(self).wf(),
        ensures
            final(self).bytes() == splice(old(self).bytes(), 76, spec_u32_to_le_bytes(fld)),
            final(self).wf(),
            final(final(self).store)@ == final(old(self).store)@,
    {
        write_u32(self.store, 76, fld);
    }

    /// Writes `fld` to the `unused1` field (bytes 80..88) and gives the view back.
    pub fn unused1(self, fld: u64) -> (r: Self)
        requires
            self.wf(),
        ensures
            r.bytes() == splice(self.bytes(), 80, spec_u64_to_le_bytes(fld)),
            r.wf(),
            final(r.store)@ == final(self.store)@,
    {
        write_u64(self.store, 80, fld);
        self
    }

    /// Reads the `unused1` field (bytes 80..88).
    pub fn get_unused1(&self) -> (r: u64)
        requires
            self.wf(),
        ensures
            r == u64_at(self.bytes(), 80),
    {
        read_u64(self.store, 80)
    }

    /// Writes `fld` to the `unused1` field (bytes 80..88).
    pub fn set_unused1(&mut self, fld: u64)
        requires
            old(self).wf(),
        ensures
            final(self).bytes() == splice(old(self).bytes(), 80, spec_u64_to_le_bytes(fld)),
            final(self).wf(),
            final(final(self).store)@ == final(old(self).store)@,
    {
        write_u64(self.store, 80, fld);
    }

    /// Writes `fld` to the `gspFwRsvdStart` field (bytes 88..96) and gives the view back.
    pub fn gspFwRsvdStart(self, fld: u64) -> (r: Self)
        requires
            self.wf(),
        ensures
            r.bytes() == splice(self.bytes(), 88, spec_u64_to_le_bytes(fld)),
            r.wf(),
            final(r.store)@ == final(self.store)@,
    {
        write_u64(self.store, 88, fld);
        self
    }

    /// Reads the `gspFwRsvdStart` field (bytes 88..96).
    pub fn get_gspFwRsvdStart(&self) -> (r: u64)
        requires
            self.wf(),
        ensures
            r == u64_at(self.bytes(), 88),
    {
        read_u64(self.store, 88)
    }

    /// Writes `fld` to the `gspFwRsvdStart` field (bytes 88..96).
    pub fn set_gspFwRsvdStart(&mut self, fld: u64)
        requires
            old(self).wf(),
        ensures
            final(self).bytes() == splice(old(self).bytes(), 88, spec_u64_to_le_bytes(fld)),
            final(self).wf(),
            final(final(self).store)@ == final(old(self).store)@,
    {
        write_u64(self.store, 88, fld);
    }

    /// Writes `fld` to the `nonWprHeapOffset` field (bytes 96..104) and gives the view back.
    pub fn nonWprHeapOffset(self, fld: u64) -> (r: Self)
        requires
            self.wf(),
        ensures
            r.bytes() == splice(self.bytes(), 96, spec_u64_to_le_bytes(fld)),
            r.wf(),
            final(r.store)@ == final(self.store)@,
    {
        write_u64(self.store, 96, fld);
        self
    }

    /// Reads the `nonWprHeapOffset` field (bytes 96..104).
    pub fn get_nonWprHeapOffset(&self) -> (r: u64)
        requires
            self.wf(),
        ensures
            r == u64_at(self.bytes(), 96),
    {
        read_u64(self.store, 96)
    }

    /// Writes `fld` to the `nonWprHeapOffset` field (bytes 96..104).
    pub fn set_nonWprHeapOffset(&mut self, fld: u64)
        requires
            old(self).wf(),
        ensures
            final(self).bytes() == splice(old(self).bytes(), 96, spec_u64_to_le_bytes(fld)),
            final(self).wf(),
            final(final(self).store)@ == final(old(self).store)@,
    {
        write_u64(self.store, 96, fld);
    }

    /// Writes `fld` to the `nonWprHeapSize` field (bytes 104..112) and gives the view back.
    pub fn nonWprHeapSize(self, fld: u64) -> (r: Self)
        requires
            self.wf(),
        ensures
            r.bytes() == splice(self.bytes(), 104, spec_u64_to_le_bytes(fld)),
            r.wf(),
            final(r.store)@ == final(self.store)@,
    {
        write_u64(self.store, 104, fld);
        self
    }

    /// Reads the `nonWprHeapSize` field (bytes 104..112).
    pub fn get_nonWprHeapSize(&self) -> (r: u64)
        requires
            self.wf(),
        ensures
            r == u64_at(self.bytes(), 104),
    {
        read_u64(self.store, 104)
    }

    /// Writes `fld` to the `nonWprHeapSize` field (bytes 104..112).
    pub fn set_nonWprHeapSize(&mut self, fld: u64)
        requires
            old(self).wf(),
        ensures
            final(self).bytes() == splice(old(self).bytes(), 104, spec_u64_to_le_bytes(fld)),
            final(self).wf(),
            final(final(self).store)@ == final(old(self).store)@,
    {
        write_u64(self.store, 104, fld);
    }

    /// Writes `fld` to the `gspFwWprStart` field (bytes 112..120) and gives the view back.
    pub fn gspFwWprStart(self, fld: u64) -> (r: Self)
        requires
            self.wf(),
        ensures
            r.bytes() == splice(self.bytes(), 112, spec_u64_to_le_bytes(fld)),
            r.wf(),
            final(r.store)@ == final(self.store)@,
    {
        write_u64(self.store, 112, fld);
        self
    }

    /// Reads the `gspFwWprStart` field (bytes 112..120).
    pub fn get_gspFwWprStart(&self) -> (r: u64)
        requires
            self.wf(),
        ensures
            r == u64_at(self.bytes(), 112),
    {
        read_u64(self.store, 112)
    }

    /// Writes `fld` to the `gspFwWprStart` field (bytes 112..120).
    pub fn set_gspFwWprStart(&mut self, fld: u64)
        requires
            old(self).wf(),
        ensures
            final(self).bytes() == splice(old(self).bytes(), 112, spec_u64_to_le_bytes(fld)),
            final(self).wf(),
            final(final(self).store)@ == final(old(self).store)@,
    {
        write_u64(self.store, 112, fld);
    }

    /// Writes `fld` to the `gspFwHeapOffset` field (bytes 120..128) and gives the view back.
    pub fn gspFwHeapOffset(self, fld: u64) -> (r: Self)
        requires
            self.wf(),
        ensures
            r.bytes() == splice(self.bytes(), 120, spec_u64_to_le_bytes(fld)),
            r.wf(),
            final(r.store)@ == final(self.store)@,
    {
        write_u64(self.store, 120, fld);
        self
    }

    /// Reads the `gspFwHeapOffset` field (bytes 120..128).
    pub fn get_gspFwHeapOffset(&self) -> (r: u64)
        requires
            self.wf(),
        ensures
            r == u64_at(self.bytes(), 120),
    {
        read_u64(self.store, 120)
    }

    /// Writes `fld` to the `gspFwHeapOffset` field (bytes 120..128).
    pub fn set_gspFwHeapOffset(&mut self, fld: u64)
        requires
            old(self).wf(),
        ensures
            final(self).bytes() == splice(old(self).bytes(), 120, spec_u64_to_le_bytes(fld)),
            final(self).wf(),
            final(final(self).store)@ == final(old(self).store)@,
    {
        write_u64(self.store, 120, fld);
    }

    /// Writes `fld` to the `gspFwHeapSize` field (bytes 128..136) and gives the view back.
    pub fn gspFwHeapSize(self, fld: u64) -> (r: Self)
        requires
            self.wf(),
        ensures
            r.bytes() == splice(self.bytes(), 128, spec_u64_to_le_bytes(fld)),
            r.wf(),
            final(r.store)@ == final(self.store)@,
    {
        write_u64(self.store, 128, fld);
        self
    }

    /// Reads the `gspFwHeapSize` field (bytes 128..136).
    pub fn get_gspFwHeapSize(&self) -> (r: u64)
        requires
            self.wf(),
        ensures
            r == u64_at(self.bytes(), 128),
    {
        read_u64(self.store, 128)
    }

    /// Writes `fld` to the `gspFwHeapSize` field (bytes 128..136).
    pub fn set_gspFwHeapSize(&mut self, fld: u64)
        requires
            old(self).wf(),
        ensures
            final(self).bytes() == splice(old(self).bytes(), 128, spec_u64_to_le_bytes(fld)),
            final(self).wf(),
            final(final(self).store)@ == final(old(self).store)@,
    {
        write_u64(self.store, 128, fld);
    }

    /// Writes `fld` to the `gspFwOffset` field (bytes 136..144) and gives the view back.
    pub fn gspFwOffset(self, fld: u64) -> (r: Self)
        requires
            self.wf(),
        ensures
            r.bytes() == splice(self.bytes(), 136, spec_u64_to_le_bytes(fld)),
            r.wf(),
            final(r.store)@ == final(self.store)@,
    {
        write_u64(self.store, 136, fld);
        self
    }

    /// Reads the `gspFwOffset` field (bytes 136..144).
    pub fn get_gspFwOffset(&self) -> (r: u64)
        requires
            self.wf(),
        ensures
            r == u64_at(self.bytes(), 136),
    {
        read_u64(self.store, 136)
    }

    /// Writes `fld` to the `gspFwOffset` field (bytes 136..144).
    pub fn set_gspFwOffset(&mut self, fld: u64)
        requires
            old(self).wf(),
        ensures
            final(self).bytes() == splice(old(self).bytes(), 136, spec_u64_to_le_bytes(fld)),
            final(self).wf(),
            final(final(self).store)@ == final(old(self).store)@,
    {
        write_u64(self.store, 136, fld);
    }

    /// Writes `fld` to the `bootBinOffset` field (bytes 144..152) and gives the view back.
    pub fn bootBinOffset(self, fld: u64) -> (r: Self)
        requires
            self.wf(),
        ensures
            r.bytes() == splice(self.bytes(), 144, spec_u64_to_le_bytes(fld)),
            r.wf(),
            final(r.store)@ == final(self.store)@,
    {
        write_u64(self.store, 144, fld);
        self
    }

    /// Reads the `bootBinOffset` field (bytes 144..152).
    pub fn get_bootBinOffset(&self) -> (r: u64)
        requires
            self.wf(),
        ensures
            r == u64_at(self.bytes(), 144),
    {
        read_u64(self.store, 144)
    }

    /// Writes `fld` to the `bootBinOffset` field (bytes 144..152).
    pub fn set_bootBinOffset(&mut self, fld: u64)
        requires
            old(self).wf(),
        ensures
            final(self).bytes() == splice(old(self).bytes(), 144, spec_u64_to_le_bytes(fld)),
            final(self).wf(),
            final(final(self).store)@ == final(old(self).store)@,
    {
        write_u64(self.store, 144, fld);
    }

    /// Writes `fld` to the `frtsOffset` field (bytes 152..160) and gives the view back.
    pub fn frtsOffset(self, fld: u64) -> (r: Self)
        requires
            self.wf(),
        ensures
            r.bytes() == splice(self.bytes(), 152, spec_u64_to_le_bytes(fld)),
            r.wf(),
            final(r.store)@ == final(self.store)@,
    {
        write_u64(self.store, 152, fld);
        self
    }

    /// Reads the `frtsOffset` field (bytes 152..160).
    pub fn get_frtsOffset(&self) -> (r: u64)
        requires
            self.wf(),
        ensures
            r == u64_at(self.bytes(), 152),
    {
        read_u64(self.store, 152)
    }

    /// Writes `fld` to the `frtsOffset` field (bytes 152..160).
    pub fn set_frtsOffset(&mut self, fld: u64)
        requires
            old(self).wf(),
        ensures
            final(self).bytes() == splice(old(self).bytes(), 152, spec_u64_to_le_bytes(fld)),
            final(self).wf(),
            final(final(self).store)@ == final(old(self).store)@,
    {
        write_u64(self.store, 152, fld);
    }

    /// Writes `fld` to the `frtsSize` field (bytes 160..168) and gives the view back.
    pub fn frtsSize(self, fld: u64) -> (r: Self)
        requires
            self.wf(),
        ensures
            r.bytes() == splice(self.bytes(), 160, spec_u64_to_le_bytes(fld)),
            r.wf(),
            final(r.store)@ == final(self.store)@,
    {
        write_u64(self.store, 160, fld);
        self
    }

    /// Reads the `frtsSize` field (bytes 160..168).
    pub fn get_frtsSize(&self) -> (r: u64)
        requires
            self.wf(),
        ensures
            r == u64_at(self.bytes(), 160),
    {
        read_u64(self.store, 160)
    }

    /// Writes `fld` to the `frtsSize` field (bytes 160..168).
    pub fn set_frtsSize(&mut self, fld: u64)
        requires
            old(self).wf(),
        ensures
            final(self).bytes() == splice(old(self).bytes(), 160, spec_u64_to_le_bytes(fld)),
            final(self).wf(),
            final(final(self).store)@ == final(old(self).store)@,
    {
        write_u64(self.store, 160, fld);
    }

    /// Writes `fld` to the `gspFwWprEnd` field (bytes 168..176) and gives the view back.
    pub fn gspFwWprEnd(self, fld: u64) -> (r: Self)
        requires
            self.wf(),
        ensures
            r.bytes() == splice(self.bytes(), 168, spec_u64_to_le_bytes(fld)),
            r.wf(),
            final(r.store)@ == final(self.store)@,
    {
        write_u64(self.store, 168, fld);
        self
    }

    /// Reads the `gspFwWprEnd` field (bytes 168..176).
    pub fn get_gspFwWprEnd(&self) -> (r: u64)
        requires
            self.wf(),
        ensures
            r == u64_at(self.bytes(), 168),
    {
        read_u64(self.store, 168)
    }

    /// Writes `fld` to the `gspFwWprEnd` field (bytes 168..176).
    pub fn set_gspFwWprEnd(&mut self, fld: u64)
        requires
            old(self).wf(),
        ensures
            final(self).bytes() == splice(old(self).bytes(), 168, spec_u64_to_le_bytes(fld)),
            final(self).wf(),
            final(final(self).store)@ == final(old(self).store)@,
    {
        write_u64(self.store, 168, fld);
    }

    /// Writes `fld` to the `fbSize` field (bytes 176..184) and gives the view back.
    pub fn fbSize(self, fld: u64) -> (r: Self)
        requires
            self.wf(),
        ensures
            r.bytes() == splice(self.bytes(), 176, spec_u64_to_le_bytes(fld)),
            r.wf(),
            final(r.store)@ == final(self.store)@,
    {
        write_u64(self.store, 176, fld);
        self
    }

    /// Reads the `fbSize` field (bytes 176..184).
    pub fn get_fbSize(&self) -> (r: u64)
        requires
            self.wf(),
        ensures
            r == u64_at(self.bytes(), 176),
    {
        read_u64(self.store, 176)
    }

    /// Writes `fld` to the `fbSize` field (bytes 176..184).
    pub fn set_fbSize(&mut self, fld: u64)
        requires
            old(self).wf(),
        ensures
            final(self).bytes() == splice(old(self).bytes(), 176, spec_u64_to_le_bytes(fld)),
            final(self).wf(),
            final(final(self).store)@ == final(old(self).store)@,
    {
        write_u64(self.store, 176, fld);
    }

    /// Writes `fld` to the `vgaWorkspaceOffset` field (bytes 184..192) and gives the view back.
    pub fn vgaWorkspaceOffset(self, fld: u64) -> (r: Self)
        requires
            self.wf(),
        ensures
            r.bytes() == splice(self.bytes(), 184, spec_u64_to_le_bytes(fld)),
            r.wf(),
            final(r.store)@ == final(self.store)@,
    {
        write_u64(self.store, 184, fld);
        self
    }

    /// Reads the `vgaWorkspaceOffset` field (bytes 184..192).
    pub fn get_vgaWorkspaceOffset(&self) -> (r: u64)
        requires
            self.wf(),
        ensures
            r == u64_at(self.bytes(), 184),
    {
        read_u64(self.store, 184)
    }

    /// Writes `fld` to the `vgaWorkspaceOffset` field (bytes 184..192).
    pub fn set_vgaWorkspaceOffset(&mut self, fld: u64)
        requires
            old(self).wf(),
        ensures
            final(self).bytes() == splice(old(self).bytes(), 184, spec_u64_to_le_bytes(fld)),
            final(self).wf(),
            final(final(self).store)@ == final(old(self).store)@,
    {
        write_u64(self.store, 184, fld);
    }

    /// Writes `fld` to the `vgaWorkspaceSize` field (bytes 192..200) and gives the view back.
    pub fn vgaWorkspaceSize(self, fld: u64) -> (r: Self)
        requires
            self.wf(),
        ensures
            r.bytes() == splice(self.bytes(), 192, spec_u64_to_le_bytes(fld)),
            r.wf(),
            final(r.store)@ == final(self.store)@,
    {
        write_u64(self.store, 192, fld);
        self
    }

    /// Reads the `vgaWorkspaceSize` field (bytes 192..200).
    pub fn get_vgaWorkspaceSize(&self) -> (r: u64)
        requires
            self.wf(),
        ensures
            r == u64_at(self.bytes(), 192),
    {
        read_u64(self.store, 192)
    }

    /// Writes `fld` to the `vgaWorkspaceSize` field (bytes 192..200).
    pub fn set_vgaWorkspaceSize(&mut self, fld: u64)
        requires
            old(self).wf(),
        ensures
            final(self).bytes() == splice(old(self).bytes(), 192, spec_u64_to_le_bytes(fld)),
            final(self).wf(),
            final(final(self).store)@ == final(old(self).store)@,
    {
        write_u64(self.store, 192, fld);
    }

    /// Writes `fld` to the `bootCount` field (bytes 200..208) and gives the view back.
    pub fn bootCount(self, fld: u64) -> (r: Self)
        requires
            self.wf(),
        ensures
            r.bytes() == splice(self.bytes(), 200, spec_u64_to_le_bytes(fld)),
            r.wf(),
            final(r.store)@ == final(self.store)@,
    {
        write_u64(self.store, 200, fld);
        self
    }

    /// Reads the `bootCount` field (bytes 200..208).
    pub fn get_bootCount(&self) -> (r: u64)
        requires
            self.wf(),
        ensures
            r == u64_at(self.bytes(), 200),
    {
        read_u64(self.store, 200)
    }

    /// Writes `fld` to the `bootCount` field (bytes 200..208).
    pub fn set_bootCount(&mut self, fld: u64)
        requires
            old(self).wf(),
        ensures
            final(self).bytes() == splice(old(self).bytes(), 200, spec_u64_to_le_bytes(fld)),
            final(self).wf(),
            final(final(self).store)@ == final(old(self).store)@,
    {
        write_u64(self.store, 200, fld);
    }

    /// Writes `fld` to the `partitionRpcAddr` field (bytes 208..216) and gives the view back.
    pub fn partitionRpcAddr(self, fld: u64) -> (r: Self)
        requires
            self.wf(),
        ensures
            r.bytes() == splice(self.bytes(), 208, spec_u64_to_le_bytes(fld)),
            r.wf(),
            final(r.store)@ == final(self.store)@,
    {
        write_u64(self.store, 208, fld);
        self
    }

    /// Reads the `partitionRpcAddr` field (bytes 208..216).
    pub fn get_partitionRpcAddr(&self) -> (r: u64)
        requires
            self.wf(),
        ensures
            r == u64_at(self.bytes(), 208),
    {
        read_u64(self.store, 208)
    }

    /// Writes `fld` to the `partitionRpcAddr` field (bytes 208..216).
    pub fn set_partitionRpcAddr(&mut self, fld: u64)
        requires
            old(self).wf(),
        ensures
            final(self).bytes() == splice(old(self).bytes(), 208, spec_u64_to_le_bytes(fld)),
            final(self).wf(),
            final(final(self).store)@ == final(old(self).store)@,
    {
        write_u64(self.store, 208, fld);
    }

    /// Writes `fld` to the `partitionRpcRequestOffset` field (bytes 216..218) and gives the view back.
    pub fn partitionRpcRequestOffset(self, fld: u16) -> (r: Self)
        requires
            self.wf(),
        ensures
            r.bytes() == splice(self.bytes(), 216, spec_u16_to_le_bytes(fld)),
            r.wf(),
            final(r.store)@ == final(self.store)@,
    {
        write_u16(self.store, 216, fld);
        self
    }

    /// Reads the `partitionRpcRequestOffset` field (bytes 216..218).
    pub fn get_partitionRpcRequestOffset(&self) -> (r: u16)
        requires
            self.wf(),
        ensures
            r == u16_at(self.bytes(), 216),
    {
        read_u16(self.store, 216)
    }

    /// Writes `fld` to the `partitionRpcRequestOffset` field (bytes 216..218).
    pub fn set_partitionRpcRequestOffset(&mut self, fld: u16)
        requires
            old(self).wf(),
        ensures
            final(self).bytes() == splice(old(self).bytes(), 216, spec_u16_to_le_bytes(fld)),
            final(self).wf(),
            final(final(self).store)@ == final(old(self).store)@,
    {
        write_u16(self.store, 216, fld);
    }

    /// Writes `fld` to the `partitionRpcReplyOffset` field (bytes 218..220) and gives the view back.
    pub fn partitionRpcReplyOffset(self, fld: u16) -> (r: Self)
        requires
            self.wf(),
        ensures
            r.bytes() == splice(self.bytes(), 218, spec_u16_to_le_bytes(fld)),
            r.wf(),
            final(r.store)@ == final(self.store)@,
    {
        write_u16(self.store, 218, fld);
        self
    }

    /// Reads the `partitionRpcReplyOffset` field (bytes 218..220).
    pub fn get_partitionRpcReplyOffset(&self) -> (r: u16)
        requires
            self.wf(),
        ensures
            r == u16_at(self.bytes(), 218),
    {
        read_u16(self.store, 218)
    }

    /// Writes `fld` to the `partitionRpcReplyOffset` field (bytes 218..220).
    pub fn set_partitionRpcReplyOffset(&mut self, fld: u16)
        requires
            old(self).wf(),
        ensures
            final(self).bytes() == splice(old(self).bytes(), 218, spec_u16_to_le_bytes(fld)),
            final(self).wf(),
            final(final(self).store)@ == final(old(self).store)@,
    {
        write_u16(self.store, 218, fld);
    }

    /// Writes `fld` to the `elfCodeOffset` field (bytes 220..224) and gives the view back.
    pub fn elfCodeOffset(self, fld: u32) -> (r: Self)
        requires
            self.wf(),
        ensures
            r.bytes() == splice(self.bytes(), 220, spec_u32_to_le_bytes(fld)),
            r.wf(),
            final(r.store)@ == final(self.store)@,
    {
        write_u32(self.store, 220, fld);
        self
    }

    /// Reads the `elfCodeOffset` field (bytes 220..224).
    pub fn get_elfCodeOffset(&self) -> (r: u32)
        requires
            self.wf(),
        ensures
            r == u32_at(self.bytes(), 220),
    {
        read_u32(self.store, 220)
    }

    /// Writes `fld` to the `elfCodeOffset` field (bytes 220..224).
    pub fn set_elfCodeOffset(&mut self, fld: u32)
        requires
            old(self).wf(),
        ensures
            final(self).bytes() == splice(old(self).bytes(), 220, spec_u32_to_le_bytes(fld)),
            final(self).wf(),
            final(final(self).store)@ == final(old(self).store)@,
    {
        write_u32(self.store, 220, fld);
    }

    /// Writes `fld` to the `elfDataOffset` field (bytes 224..228) and gives the view back.
    pub fn elfDataOffset(self, fld: u32) -> (r: Self)
        requires
            self.wf(),
        ensures
            r.bytes() == splice(self.bytes(), 224, spec_u32_to_le_bytes(fld)),
            r.wf(),
            final(r.store)@ == final(self.store)@,
    {
        write_u32(self.store, 224, fld);
        self
    }

    /// Reads the `elfDataOffset` field (bytes 224..228).
    pub fn get_elfDataOffset(&self) -> (r: u32)
        requires
            self.wf(),
        ensures
            r == u32_at(self.bytes(), 224),
    {
        read_u32(self.store, 224)
    }

    /// Writes `fld` to the `elfDataOffset` field (bytes 224..228).
    pub fn set_elfDataOffset(&mut self, fld: u32)
        requires
            old(self).wf(),
        ensures
            final(self).bytes() == splice(old(self).bytes(), 224, spec_u32_to_le_bytes(fld)),
            final(self).wf(),
            final(final(self).store)@ == final(old(self).store)@,
    {
        write_u32(self.store, 224, fld);
    }

    /// Writes `fld` to the `elfCodeSize` field (bytes 228..232) and gives the view back.
    pub fn elfCodeSize(self, fld: u32) -> (r: Self)
        requires
            self.wf(),
        ensures
            r.bytes() == splice(self.bytes(), 228, spec_u32_to_le_bytes(fld)),
            r.wf(),
            final(r.store)@ == final(self.store)@,
    {
        write_u32(self.store, 228, fld);
        self
    }

    /// Reads the `elfCodeSize` field (bytes 228..232).
    pub fn get_elfCodeSize(&self) -> (r: u32)
        requires
            self.wf(),
        ensures
            r == u32_at(self.bytes(), 228),
    {
        read_u32(self.store, 228)
    }

    /// Writes `fld` to the `elfCodeSize` field (bytes 228..232).
    pub fn set_elfCodeSize(&mut self, fld: u32)
        requires
            old(self).wf(),
        ensures
            final(self).bytes() == splice(old(self).bytes(), 228, spec_u32_to_le_bytes(fld)),
            final(self).wf(),
            final(final(self).store)@ == final(old(self).store)@,
    {
        write_u32(self.store, 228, fld);
    }

    /// Writes `fld` to the `elfDataSize` field (bytes 232..236) and gives the view back.
    pub fn elfDataSize(self, fld: u32) -> (r: Self)
        requires
            self.wf(),
        ensures
            r.bytes() == splice(self.bytes(), 232, spec_u32_to_le_bytes(fld)),
            r.wf(),
            final(r.store)@ == final(self.store)@,
    {
        write_u32(self.store, 232, fld);
        self
    }

    /// Reads the `elfDataSize` field (bytes 232..236).
    pub fn get_elfDataSize(&self) -> (r: u32)
        requires
            self.wf(),
        ensures
            r == u32_at(self.bytes(), 232),
    {
        read_u32(self.store, 232)
    }

    /// Writes `fld` to the `elfDataSize` field (bytes 232..236).
    pub fn set_elfDataSize(&mut self, fld: u32)
        requires
            old(self).wf(),
        ensures
            final(self).bytes() == splice(old(self).bytes(), 232, spec_u32_to_le_bytes(fld)),
            final(self).wf(),
            final(final(self).store)@ == final(old(self).store)@,
    {
        write_u32(self.store, 232, fld);
    }

    /// Writes `fld` to the `lsUcodeVersion` field (bytes 236..240) and gives the view back.
    pub fn lsUcodeVersion(self, fld: u32) -> (r: Self)
        requires
            self.wf(),
        ensures
            r.bytes() == splice(self.bytes(), 236, spec_u32_to_le_bytes(fld)),
            r.wf(),
            final(r.store)@ == final(self.store)@,
    {
        write_u32(self.store, 236, fld);
        self
    }

    /// Reads the `lsUcodeVersion` field (bytes 236..240).
    pub fn get_lsUcodeVersion(&self) -> (r: u32)
        requires
            self.wf(),
        ensures
            r == u32_at(self.bytes(), 236),
    {
        read_u32(self.store, 236)
    }

    /// Writes `fld` to the `lsUcodeVersion` field (bytes 236..240).
    pub fn set_lsUcodeVersion(&mut self, fld: u32)
        requires
            old(self).wf(),
        ensures
            final(self).bytes() == splice(old(self).bytes(), 236, spec_u32_to_le_bytes(fld)),
            final(self).wf(),
            final(final(self).store)@ == final(old(self).store)@,
    {
        write_u32(self.store, 236, fld);
    }

    /// Writes `fld` to the `partitionRpcPadding` field (bytes 208..224) and gives the view back.
    pub fn partitionRpcPadding(self, fld: [u32; 4]) -> (r: Self)
        requires
            self.wf(),
        ensures
            r.bytes() == splice(self.bytes(), 208, u32s_to_le(fld@)),
            r.wf(),
            final(r.store)@ == final(self.store)@,
    {
        write_u32s(self.store, 208, &fld);
        self
    }

    /// Writes `fld` to the `partitionRpcPadding` field (bytes 208..224).
    pub fn set_partitionRpcPadding(&mut self, fld: [u32; 4])
        requires
            old(self).wf(),
        ensures
            final(self).bytes() == splice(old(self).bytes(), 208, u32s_to_le(fld@)),
            final(self).wf(),
            final(final(self).store)@ == final(old(self).store)@,
    {
        write_u32s(self.store, 208, &fld);
    }

    /// Reads the `partitionRpcPadding` array (bytes 208..224).
    pub fn get_partitionRpcPadding(&mut self) -> (r: [u32; 4])
        requires
            old(self).wf(),
        ensures
            r@ == u32s_at(old(self).bytes(), 208, 4),
            final(self).bytes() == old(self).bytes(),
            final(final(self).store)@ == final(old(self).store)@,
    {
        read_u32s(self.store, 208)
    }

    /// Writes `fld` to the `sysmemAddrOfCrashReportQueue` field (bytes 224..232) and gives the view back.
    pub fn sysmemAddrOfCrashReportQueue(self, fld: u64) -> (r: Self)
        requires
            self.wf(),
        ensures
            r.bytes() == splice(self.bytes(), 224, spec_u64_to_le_bytes(fld)),
            r.wf(),
            final(r.store)@ == final(self.store)@,
    {
        write_u64(self.store, 224, fld);
        self
    }

    /// Reads the `sysmemAddrOfCrashReportQueue` field (bytes 224..232).
    pub fn get_sysmemAddrOfCrashReportQueue(&self) -> (r: u64)
        requires
            self.wf(),
        ensures
            r == u64_at(self.bytes(), 224),
    {
        read_u64(self.store, 224)
    }

    /// Writes `fld` to the `sysmemAddrOfCrashReportQueue` field (bytes 224..232).
    pub fn set_sysmemAddrOfCrashReportQueue(&mut self, fld: u64)
        requires
            old(self).wf(),
        ensures
            final(self).bytes() == splice(old(self).bytes(), 224, spec_u64_to_le_bytes(fld)),
            final(self).wf(),
            final(final(self).store)@ == final(old(self).store)@,
    {
        write_u64(self.store, 224, fld);
    }

    /// Writes `fld` to the `sizeOfCrashReportQueue` field (bytes 232..236) and gives the view back.
    pub fn sizeOfCrashReportQueue(self, fld: u32) -> (r: Self)
        requires
            self.wf(),
        ensures
            r.bytes() == splice(self.bytes(), 232, spec_u32_to_le_bytes(fld)),
            r.wf(),
            final(r.store)@ == final(self.store)@,
    {
        write_u32(self.store, 232, fld);
        self
    }

    /// Reads the `sizeOfCrashReportQueue` field (bytes 232..236).
    pub fn get_sizeOfCrashReportQueue(&self) -> (r: u32)
        requires
            self.wf(),
        ensures
            r == u32_at(self.bytes(), 232),
    {
        read_u32(self.store, 232)
    }

    /// Writes `fld` to the `sizeOfCrashReportQueue` field (bytes 232..236).
    pub fn set_sizeOfCrashReportQueue(&mut self, fld: u32)
        requires
            old(self).wf(),
        ensures
            final(self).bytes() == splice(old(self).bytes(), 232, spec_u32_to_le_bytes(fld)),
            final(self).wf(),
            final(final(self).store)@ == final(old(self).store)@,
    {
        write_u32(self.store, 232, fld);
    }

    /// Writes `fld` to the `lsUcodeVersionPadding` field (bytes 236..240) and gives the view back.
    pub fn lsUcodeVersionPadding(self, fld: [u32; 1]) -> (r: Self)
        requires
            self.wf(),
        ensures
            r.bytes() == splice(self.bytes(), 236, u32s_to_le(fld@)),
            r.wf(),
            final(r.store)@ == final(self.store)@,
    {
        write_u32s(self.store, 236, &fld);
        self
    }

    /// Writes `fld` to the `lsUcodeVersionPadding` field (bytes 236..240).
    pub fn set_lsUcodeVersionPadding(&mut self, fld: [u32; 1])
        requires
            old(self).wf(),
        ensures
            final(self).bytes() == splice(old(self).bytes(), 236, u32s_to_le(fld@)),
            final(self).wf(),
            final(final(self).store)@ == final(old(self).store)@,
    {
        write_u32s(self.store, 236, &fld);
    }

    /// Reads the `lsUcodeVersionPadding` array (bytes 236..240).
    pub fn get_lsUcodeVersionPadding(&mut self) -> (r: [u32; 1])
        requires
            old(self).wf(),
        ensures
            r@ == u32s_at(old(self).bytes(), 236, 1),
            final(self).bytes() == old(self).bytes(),
            final(final(self).store)@ == final(old(self).store)@,
    {
        read_u32s(self.store, 236)
    }

    /// Writes `fld` to the `gspFwHeapVfPartitionCount` field (bytes 240..241) and gives the view back.
    pub fn gspFwHeapVfPartitionCount(self, fld: u8) -> (r: Self)
        requires
            self.wf(),
        ensures
            r.bytes() == splice(self.bytes(), 240, seq![fld]),
            r.wf(),
            final(r.store)@ == final(self.store)@,
    {
        write_u8(self.store, 240, fld);
        self
    }

    /// Reads the `gspFwHeapVfPartitionCount` field (bytes 240..241).
    pub fn get_gspFwHeapVfPartitionCount(&self) -> (r: u8)
        requires
            self.wf(),
        ensures
            r == self.bytes()[240],
    {
        read_u8(self.store, 240)
    }

    /// Writes `fld` to the `gspFwHeapVfPartitionCount` field (bytes 240..241).
    pub fn set_gspFwHeapVfPartitionCount(&mut self, fld: u8)
        requires
            old(self).wf(),
        ensures
            final(self).bytes() == splice(old(self).bytes(), 240, seq![fld]),
            final(self).wf(),
            final(final(self).store)@ == final(old(self).store)@,
    {
        write_u8(self.store, 240, fld);
    }

    /// Writes `fld` to the `flags` field (bytes 241..242) and gives the view back.
    pub fn flags(self, fld: u8) -> (r: Self)
        requires
            self.wf(),
        ensures
            r.bytes() == splice(self.bytes(), 241, seq![fld]),
            r.wf(),
            final(r.store)@ == final(self.store)@,
    {
        write_u8(self.store, 241, fld);
        self
    }

    /// Reads the `flags` field (bytes 241..242).
    pub fn get_flags(&self) -> (r: u8)
        requires
            self.wf(),
        ensures
            r == self.bytes()[241],
    {
        read_u8(self.store, 241)
    }

    /// Writes `fld` to the `flags` field (bytes 241..242).
    pub fn set_flags(&mut self, fld: u8)
        requires
            old(self).wf(),
        ensures
            final(self).bytes() == splice(old(self).bytes(), 241, seq![fld]),
            final(self).wf(),
            final(final(self).store)@ == final(old(self).store)@,
    {
        write_u8(self.store, 241, fld);
    }

    /// Writes `fld` to the `padding` field (bytes 242..244) and gives the view back.
    pub fn padding(self, fld: [u8; 2]) -> (r: Self)
        requires
            self.wf(),
        ensures
            r.bytes() == splice(self.bytes(), 242, fld@),
            r.wf(),
            final(r.store)@ == final(self.store)@,
    {
        write_u8s(self.store, 242, &fld);
        self
    }

    /// Writes `fld` to the `padding` field (bytes 242..244).
    pub fn set_padding(&mut self, fld: [u8; 2])
        requires
            old(self).wf(),
        ensures
            final(self).bytes() == splice(old(self).bytes(), 242, fld@),
            final(self).wf(),
            final(final(self).store)@ == final(old(self).store)@,
    {
        write_u8s(self.store, 242, &fld);
    }

    /// Reads the `padding` array (bytes 242..244).
    pub fn get_padding(&mut self) -> (r: [u8; 2])
        requires
            old(self).wf(),
        ensures
            r@ == old(self).bytes().subrange(242, 244),
            final(self).bytes() == old(self).bytes(),
            final(final(self).store)@ == final(old(self).store)@,
    {
        read_u8s(self.store, 242)
    }

    /// Writes `fld` to the `pmuReservedSize` field (bytes 244..248) and gives the view back.
    pub fn pmuReservedSize(self, fld: u32) -> (r: Self)
        requires
            self.wf(),
        ensures
            r.bytes() == splice(self.bytes(), 244, spec_u32_to_le_bytes(fld)),
            r.wf(),
            final(r.store)@ == final(self.store)@,
    {
        write_u32(self.store, 244, fld);
        self
    }

    /// Reads the `pmuReservedSize` field (bytes 244..248).
    pub fn get_pmuReservedSize(&self) -> (r: u32)
        requires
            self.wf(),
        ensures
            r == u32_at(self.bytes(), 244),
    {
        read_u32(self.store, 244)
    }

    /// Writes `fld` to the `pmuReservedSize` field (bytes 244..248).
    pub fn set_pmuReservedSize(&mut self, fld: u32)
        requires
            old(self).wf(),
        ensures
            final(self).bytes() == splice(old(self).bytes(), 244, spec_u32_to_le_bytes(fld)),
            final(self).wf(),
            final(final(self).store)@ == final(old(self).store)@,
    {
        write_u32(self.store, 244, fld);
    }

    /// Writes `fld` to the `verified` field (bytes 248..256) and gives the view back.
    pub fn verified(self, fld: u64) -> (r: Self)
        requires
            self.wf(),
        ensures
            r.bytes() == splice(self.bytes(), 248, spec_u64_to_le_bytes(fld)),
            r.wf(),
            final(r.store)@ == final(self.store)@,
    {
        write_u64(self.store, 248, fld);
        self
    }

    /// Reads the `verified` field (bytes 248..256).
    pub fn get_verified(&self) -> (r: u64)
        requires
            self.wf(),
        ensures
            r == u64_at(self.bytes(), 248),
    {
        read_u64(self.store, 248)
    }

    /// Writes `fld` to the `verified` field (bytes 248..256).
    pub fn set_verified(&mut self, fld: u64)
        requires
            old(self).wf(),
        ensures
            final(self).bytes() == splice(old(self).bytes(), 248, spec_u64_to_le_bytes(fld)),
            final(self).wf(),
            final(final(self).store)@ == final(old(self).store)@,
    {
        write_u64(self.store, 248, fld);
    }

}

/// View of the firmware structure `s_GspFwSRMeta` (256 bytes).
pub struct s_GspFwSRMeta<'s> {
    /// The buffer from the first byte of the structure to the end.
    pub store: &'s mut [u8],
}

impl<'s> s_GspFwSRMeta<'s> {
    /// The bytes seen through this view.
    pub open spec fn bytes(&self) -> Seq<u8> {
        self.store@
    }

    /// The buffer holds at least the whole structure.
    pub open spec fn wf(&self) -> bool {
        self.store@.len() >= 256
    }

    /// Size of the structure in bytes.
    pub fn str_size() -> (n: usize)
        ensures
            n == 256,
    {
        256
    }

    /// Views `store` as this structure, starting at its first byte.
    pub fn new(store: &'s mut [u8]) -> (r: Self)
        requires
            old(store)@.len() >= 256,
        ensures
            r.bytes() == old(store)@,
            r.wf(),
            final(store)@ == final(r.store)@,
    {
        Self { store }
    }

    /// Writes `fld` to the `magic` field (bytes 0..8) and gives the view back.
    pub fn magic(self, fld: u64) -> (r: Self)
        requires
            self.wf(),
        ensures
            r.bytes() == splice(self.bytes(), 0, spec_u64_to_le_bytes(fld)),
            r.wf(),
            final(r.store)@ == final(self.store)@,
    {
        write_u64(self.store, 0, fld);
        self
    }

    /// Reads the `magic` field (bytes 0..8).
    pub fn get_magic(&self) -> (r: u64)
        requires
            self.wf(),
        ensures
            r == u64_at(self.bytes(), 0),
    {
        read_u64(self.store, 0)
    }

    /// Writes `fld` to the `magic` field (bytes 0..8).
    pub fn set_magic(&mut self, fld: u64)
        requires
            old(self).wf(),
        ensures
            final(self).bytes() == splice(old(self).bytes(), 0, spec_u64_to_le_bytes(fld)),
            final(self).wf(),
            final(final(self).store)@ == final(old(self).store)@,
    {
        write_u64(self.store, 0, fld);
    }

    /// Writes `fld` to the `revision` field (bytes 8..16) and gives the view back.
    pub fn revision(self, fld: u64) -> (r: Self)
        requires
            self.wf(),
        ensures
            r.bytes() == splice(self.bytes(), 8, spec_u64_to_le_bytes(fld)),
            r.wf(),
            final(r.store)@ == final(self.store)@,
    {
        write_u64(self.store, 8, fld);
        self
    }

    /// Reads the `revision` field (bytes 8..16).
    pub fn get_revision(&self) -> (r: u64)
        requires
            self.wf(),
        ensures
            r == u64_at(self.bytes(), 8),
    {
        read_u64(self.store, 8)
    }

    /// Writes `fld` to the `revision` field (bytes 8..16).
    pub fn set_revision(&mut self, fld: u64)
        requires
            old(self).wf(),
        ensures
            final(self).bytes() == splice(old(self).bytes(), 8, spec_u64_to_le_bytes(fld)),
            final(self).wf(),
            final(final(self).store)@ == final(old(self).store)@,
    {
        write_u64(self.store, 8, fld);
    }

    /// Writes `fld` to the `sysmemAddrOfSuspendResumeData` field (bytes 16..24) and gives the view back.
    pub fn sysmemAddrOfSuspendResumeData(self, fld: u64) -> (r: Self)
        requires
            self.wf(),
        ensures
            r.bytes() == splice(self.bytes(), 16, spec_u64_to_le_bytes(fld)),
            r.wf(),
            final(r.store)@ == final(self.store)@,
    {
        write_u64(self.store, 16, fld);
        self
    }

    /// Reads the `sysmemAddrOfSuspendResumeData` field (bytes 16..24).
    pub fn get_sysmemAddrOfSuspendResumeData(&self) -> (r: u64)
        requires
            self.wf(),
        ensures
            r == u64_at(self.bytes(), 16),
    {
        read_u64(self.store, 16)
    }

    /// Writes `fld` to the `sysmemAddrOfSuspendResumeData` field (bytes 16..24).
    pub fn set_sysmemAddrOfSuspendResumeData(&mut self, fld: u64)
        requires
            old(self).wf(),
        ensures
            final(self).bytes() == splice(old(self).bytes(), 16, spec_u64_to_le_bytes(fld)),
            final(self).wf(),
            final(final(self).store)@ == final(old(self).store)@,
    {
        write_u64(self.store, 16, fld);
    }

    /// Writes `fld` to the `sizeOfSuspendResumeData` field (bytes 24..32) and gives the view back.
    pub fn sizeOfSuspendResumeData(self, fld: u64) -> (r: Self)
        requires
            self.wf(),
        ensures
            r.bytes() == splice(self.bytes(), 24, spec_u64_to_le_bytes(fld)),
            r.wf(),
            final(r.store)@ == final(self.store)@,
    {
        write_u64(self.store, 24, fld);
        self
    }

    /// Reads the `sizeOfSuspendResumeData` field (bytes 24..32).
    pub fn get_sizeOfSuspendResumeData(&self) -> (r: u64)
        requires
            self.wf(),
        ensures
            r == u64_at(self.bytes(), 24),
    {
        read_u64(self.store, 24)
    }

    /// Writes `fld` to the `sizeOfSuspendResumeData` field (bytes 24..32).
    pub fn set_sizeOfSuspendResumeData(&mut self, fld: u64)
        requires
            old(self).wf(),
        ensures
            final(self).bytes() == splice(old(self).bytes(), 24, spec_u64_to_le_bytes(fld)),
            final(self).wf(),
            final(final(self).store)@ == final(old(self).store)@,
    {
        write_u64(self.store, 24, fld);
    }

    /// Writes `fld` to the `internal` field (bytes 32..160) and gives the view back.
    pub fn internal(self, fld: [u32; 32]) -> (r: Self)
        requires
            self.wf(),
        ensures
            r.bytes() == splice(self.bytes(), 32, u32s_to_le(fld@)),
            r.wf(),
            final(r.store)@ == final(self.store)@,
    {
        write_u32s(self.store, 32, &fld);
        self
    }

    /// Writes `fld` to the `internal` field (bytes 32..160).
    pub fn set_internal(&mut self, fld: [u32; 32])
        requires
            old(self).wf(),
        ensures
            final(self).bytes() == splice(old(self).bytes(), 32, u32s_to_le(fld@)),
            final(self).wf(),
            final(final(self).store)@ == final(old(self).store)@,
    {
        write_u32s(self.store, 32, &fld);
    }

    /// Reads the `internal` array (bytes 32..160).
    pub fn get_internal(&mut self) -> (r: [u32; 32])
        requires
            old(self).wf(),
        ensures
            r@ == u32s_at(old(self).bytes(), 32, 32),
            final(self).bytes() == old(self).bytes(),
            final(final(self).store)@ == final(old(self).store)@,
    {
        read_u32s(self.store, 32)
    }

    /// Writes `fld` to the `flags` field (bytes 160..164) and gives the view back.
    pub fn flags(self, fld: u32) -> (r: Self)
        requires
            self.wf(),
        ensures
            r.bytes() == splice(self.bytes(), 160, spec_u32_to_le_bytes(fld)),
            r.wf(),
            final(r.store)@ == final(self.store)@,
    {
        write_u32(self.store, 160, fld);
        self
    }

    /// Reads the `flags` field (bytes 160..164).
    pub fn get_flags(&self) -> (r: u32)
        requires
            self.wf(),
        ensures
            r == u32_at(self.bytes(), 160),
    {
        read_u32(self.store, 160)
    }

    /// Writes `fld` to the `flags` field (bytes 160..164).
    pub fn set_flags(&mut self, fld: u32)
        requires
            old(self).wf(),
        ensures
            final(self).bytes() == splice(old(self).bytes(), 160, spec_u32_to_le_bytes(fld)),
            final(self).wf(),
            final(final(self).store)@ == final(old(self).store)@,
    {
        write_u32(self.store, 160, fld);
    }

    /// Writes `fld` to the `subrevision` field (bytes 164..168) and gives the view back.
    pub fn subrevision(self, fld: u32) -> (r: Self)
        requires
            self.wf(),
        ensures
            r.bytes() == splice(self.bytes(), 164, spec_u32_to_le_bytes(fld)),
            r.wf(),
            final(r.store)@ == final(self.store)@,
    {
        write_u32(self.store, 164, fld);
        self
    }

    /// Reads the `subrevision` field (bytes 164..168).
    pub fn get_subrevision(&self) -> (r: u32)
        requires
            self.wf(),
        ensures
            r == u32_at(self.bytes(), 164),
    {
        read_u32(self.store, 164)
    }

    /// Writes `fld` to the `subrevision` field (bytes 164..168).
    pub fn set_subrevision(&mut self, fld: u32)
        requires
            old(self).wf(),
        ensures
            final(self).bytes() == splice(old(self).bytes(), 164, spec_u32_to_le_bytes(fld)),
            final(self).wf(),
            final(final(self).store)@ == final(old(self).store)@,
    {
        write_u32(self.store, 164, fld);
    }

    /// Writes `fld` to the `padding` field (bytes 168..256) and gives the view back.
    pub fn padding(self, fld: [u32; 22]) -> (r: Self)
        requires
            self.wf(),
        ensures
            r.bytes() == splice(self.bytes(), 168, u32s_to_le(fld@)),
            r.wf(),
            final(r.store)@ == final(self.store)@,
    {
        write_u32s(self.store, 168, &fld);
        self
    }

    /// Writes `fld` to the `padding` field (bytes 168..256).
    pub fn set_padding(&mut self, fld: [u32; 22])
        requires
            old(self).wf(),
        ensures
            final(self).bytes() == splice(old(self).bytes(), 168, u32s_to_le(fld@)),
            final(self).wf(),
            final(final(self).store)@ == final(old(self).store)@,
    {
        write_u32s(self.store, 168, &fld);
    }

    /// Reads the `padding` array (bytes 168..256).
    pub fn get_padding(&mut self) -> (r: [u32; 22])
        requires
            old(self).wf(),
        ensures
            r@ == u32s_at(old(self).bytes(), 168, 22),
            final(self).bytes() == old(self).bytes(),
            final(final(self).store)@ == final(old(self).store)@,
    {
        read_u32s(self.store, 168)
    }

}

/// View of the firmware structure `s_MESSAGE_QUEUE_INIT_ARGUMENTS` (32 bytes).
pub struct s_MESSAGE_QUEUE_INIT_ARGUMENTS<'s> {
    /// The buffer from the first byte of the structure to the end.
    pub store: &'s mut [u8],
}

impl<'s> s_MESSAGE_QUEUE_INIT_ARGUMENTS<'s> {
    /// The bytes seen through this view.
    pub open spec fn bytes(&self) -> Seq<u8> {
        self.store@
    }

    /// The buffer holds at least the whole structure.
    pub open spec fn wf(&self) -> bool {
        self.store@.len() >= 32
    }

    /// Size of the structure in bytes.
    pub fn str_size() -> (n: usize)
        ensures
            n == 32,
    {
        32
    }

    /// Views `store` as this structure, starting at its first byte.
    pub fn new(store: &'s mut [u8]) -> (r: Self)
        requires
            old(store)@.len() >= 32,
        ensures
            r.bytes() == old(store)@,
            r.wf(),
            final(store)@ == final(r.store)@,
    {
        Self { store }
    }

    /// Writes `fld` to the `sharedMemPhysAddr` field (bytes 0..8) and gives the view back.
    pub fn sharedMemPhysAddr(self, fld: u64) -> (r: Self)
        requires
            self.wf(),
        ensures
            r.bytes() == splice(self.bytes(), 0, spec_u64_to_le_bytes(fld)),
            r.wf(),
            final(r.store)@ == final(self.store)@,
    {
        write_u64(self.store, 0, fld);
        self
    }

    /// Reads the `sharedMemPhysAddr` field (bytes 0..8).
    pub fn get_sharedMemPhysAddr(&self) -> (r: u64)
        requires
            self.wf(),
        ensures
            r == u64_at(self.bytes(), 0),
    {
        read_u64(self.store, 0)
    }

    /// Writes `fld` to the `sharedMemPhysAddr` field (bytes 0..8).
    pub fn set_sharedMemPhysAddr(&mut self, fld: u64)
        requires
            old(self).wf(),
        ensures
            final(self).bytes() == splice(old(self).bytes(), 0, spec_u64_to_le_bytes(fld)),
            final(self).wf(),
            final(final(self).store)@ == final(old(self).store)@,
    {
        write_u64(self.store, 0, fld);
    }

    /// Writes `fld` to the `pageTableEntryCount` field (bytes 8..12) and gives the view back.
    pub fn pageTableEntryCount(self, fld: u32) -> (r: Self)
        requires
            self.wf(),
        ensures
            r.bytes() == splice(self.bytes(), 8, spec_u32_to_le_bytes(fld)),
            r.wf(),
            final(r.store)@ == final(self.store)@,
    {
        write_u32(self.store, 8, fld);
        self
    }

    /// Reads the `pageTableEntryCount` field (bytes 8..12).
    pub fn get_pageTableEntryCount(&self) -> (r: u32)
        requires
            self.wf(),
        ensures
            r == u32_at(self.bytes(), 8),
    {
        read_u32(self.store, 8)
    }

    /// Writes `fld` to the `pageTableEntryCount` field (bytes 8..12).
    pub fn set_pageTableEntryCount(&mut self, fld: u32)
        requires
            old(self).wf(),
        ensures
            final(self).bytes() == splice(old(self).bytes(), 8, spec_u32_to_le_bytes(fld)),
            final(self).wf(),
            final(final(self).store)@ == final(old(self).store)@,
    {
        write_u32(self.store, 8, fld);
    }

    /// Writes `fld` to the `cmdQueueOffset` field (bytes 16..24) and gives the view back.
    pub fn cmdQueueOffset(self, fld: u64) -> (r: Self)
        requires
            self.wf(),
        ensures
            r.bytes() == splice(self.bytes(), 16, spec_u64_to_le_bytes(fld)),
            r.wf(),
            final(r.store)@ == final(self.store)@,
    {
        write_u64(self.store, 16, fld);
        self
    }

    /// Reads the `cmdQueueOffset` field (bytes 16..24).
    pub fn get_cmdQueueOffset(&self) -> (r: u64)
        requires
            self.wf(),
        ensures
            r == u64_at(self.bytes(), 16),
    {
        read_u64(self.store, 16)
    }

    /// Writes `fld` to the `cmdQueueOffset` field (bytes 16..24).
    pub fn set_cmdQueueOffset(&mut self, fld: u64)
        requires
            old(self).wf(),
        ensures
            final(self).bytes() == splice(old(self).bytes(), 16, spec_u64_to_le_bytes(fld)),
            final(self).wf(),
            final(final(self).store)@ == final(old(self).store)@,
    {
        write_u64(self.store, 16, fld);
    }

    /// Writes `fld` to the `statQueueOffset` field (bytes 24..32) and gives the view back.
    pub fn statQueueOffset(self, fld: u64) -> (r: Self)
        requires
            self.wf(),
        ensures
            r.bytes() == splice(self.bytes(), 24, spec_u64_to_le_bytes(fld)),
            r.wf(),
            final(r.store)@ == final(self.store)@,
    {
        write_u64(self.store, 24, fld);
        self
    }

    /// Reads the `statQueueOffset` field (bytes 24..32).
    pub fn get_statQueueOffset(&self) -> (r: u64)
        requires
            self.wf(),
        ensures
            r == u64_at(self.bytes(), 24),
    {
        read_u64(self.store, 24)
    }

    /// Writes `fld` to the `statQueueOffset` field (bytes 24..32).
    pub fn set_statQueueOffset(&mut self, fld: u64)
        requires
            old(self).wf(),
        ensures
            final(self).bytes() == splice(old(self).bytes(), 24, spec_u64_to_le_bytes(fld)),
            final(self).wf(),
            final(final(self).store)@ == final(old(self).store)@,
    {
        write_u64(self.store, 24, fld);
    }

}

/// View of the firmware structure `s_GSP_SR_INIT_ARGUMENTS` (12 bytes).
pub struct s_GSP_SR_INIT_ARGUMENTS<'s> {
    /// The buffer from the first byte of the structure to the end.
    pub store: &'s mut [u8],
}

impl<'s> s_GSP_SR_INIT_ARGUMENTS<'s> {
    /// The bytes seen through this view.
    pub open spec fn bytes(&self) -> Seq<u8> {
        self.store@
    }

    /// The buffer holds at least the whole structure.
    pub open spec fn wf(&self) -> bool {
        self.store@.len() >= 12
    }

    /// Size of the structure in bytes.
    pub fn str_size() -> (n: usize)
        ensures
            n == 12,
    {
        12
    }

    /// Views `store` as this structure, starting at its first byte.
    pub fn new(store: &'s mut [u8]) -> (r: Self)
        requires
            old(store)@.len() >= 12,
        ensures
            r.bytes() == old(store)@,
            r.wf(),
            final(store)@ == final(r.store)@,
    {
        Self { store }
    }

    /// Writes `fld` to the `oldLevel` field (bytes 0..4) and gives the view back.
    pub fn oldLevel(self, fld: u32) -> (r: Self)
        requires
            self.wf(),
        ensures
            r.bytes() == splice(self.bytes(), 0, spec_u32_to_le_bytes(fld)),
            r.wf(),
            final(r.store)@ == final(self.store)@,
    {
        write_u32(self.store, 0, fld);
        self
    }

    /// Reads the `oldLevel` field (bytes 0..4).
    pub fn get_oldLevel(&self) -> (r: u32)
        requires
            self.wf(),
        ensures
            r == u32_at(self.bytes(), 0),
    {
        read_u32(self.store, 0)
    }

    /// Writes `fld` to the `oldLevel` field (bytes 0..4).
    pub fn set_oldLevel(&mut self, fld: u32)
        requires
            old(self).wf(),
        ensures
            final(self).bytes() == splice(old(self).bytes(), 0, spec_u32_to_le_bytes(fld)),
            final(self).wf(),
            final(final(self).store)@ == final(old(self).store)@,
    {
        write_u32(self.store, 0, fld);
    }

    /// Writes `fld` to the `flags` field (bytes 4..8) and gives the view back.
    pub fn flags(self, fld: u32) -> (r: Self)
        requires
            self.wf(),
        ensures
            r.bytes() == splice(self.bytes(), 4, spec_u32_to_le_bytes(fld)),
            r.wf(),
            final(r.store)@ == final(self.store)@,
    {
        write_u32(self.store, 4, fld);
        self
    }

    /// Reads the `flags` field (bytes 4..8).
    pub fn get_flags(&self) -> (r: u32)
        requires
            self.wf(),
        ensures
            r == u32_at(self.bytes(), 4),
    {
        read_u32(self.store, 4)
    }

    /// Writes `fld` to the `flags` field (bytes 4..8).
    pub fn set_flags(&mut self, fld: u32)
        requires
            old(self).wf(),
        ensures
            final(self).bytes() == splice(old(self).bytes(), 4, spec_u32_to_le_bytes(fld)),
            final(self).wf(),
            final(final(self).store)@ == final(old(self).store)@,
    {
        write_u32(self.store, 4, fld);
    }

    /// Writes `fld` to the `bInPMTransition` field (bytes 8..9) and gives the view back.
    pub fn bInPMTransition(self, fld: u8) -> (r: Self)
        requires
            self.wf(),
        ensures
            r.bytes() == splice(self.bytes(), 8, seq![fld]),
            r.wf(),
            final(r.store)@ == final(self.store)@,
    {
        write_u8(self.store, 8, fld);
        self
    }

    /// Reads the `bInPMTransition` field (bytes 8..9).
    pub fn get_bInPMTransition(&self) -> (r: u8)
        requires
            self.wf(),
        ensures
            r == self.bytes()[8],
    {
        read_u8(self.store, 8)
    }

    /// Writes `fld` to the `bInPMTransition` field (bytes 8..9).
    pub fn set_bInPMTransition(&mut self, fld: u8)
        requires
            old(self).wf(),
        ensures
            final(self).bytes() == splice(old(self).bytes(), 8, seq![fld]),
            final(self).wf(),
            final(final(self).store)@ == final(old(self).store)@,
    {
        write_u8(self.store, 8, fld);
    }

}

/// View of the firmware structure `s_GSP_ARGUMENTS_CACHED` (72 bytes).
pub struct s_GSP_ARGUMENTS_CACHED<'s> {
    /// The buffer from the first byte of the structure to the end.
    pub store: &'s mut [u8],
}

impl<'s> s_GSP_ARGUMENTS_CACHED<'s> {
    /// The bytes seen through this view.
    pub open spec fn bytes(&self) -> Seq<u8> {
        self.store@
    }

    /// The buffer holds at least the whole structure.
    pub open spec fn wf(&self) -> bool {
        self.store@.len() >= 72
    }

    /// Size of the structure in bytes.
    pub fn str_size() -> (n: usize)
        ensures
            n == 72,
    {
        72
    }

    /// Views `store` as this structure, starting at its first byte.
    pub fn new(store: &'s mut [u8]) -> (r: Self)
        requires
            old(store)@.len() >= 72,
        ensures
            r.bytes() == old(store)@,
            r.wf(),
            final(store)@ == final(r.store)@,
    {
        Self { store }
    }

    /// View of the `messageQueueInitArguments` substructure at byte 0.
    pub fn new_S_messageQueueInitArguments(&mut self) -> (r: s_MESSAGE_QUEUE_INIT_ARGUMENTS<'_>)
        requires
            old(self).wf(),
        ensures
            r.bytes() == old(self).bytes().subrange(0, old(self).bytes().len() as int),
            r.wf(),
            final(self).bytes() == old(self).bytes().subrange(0, 0) + final(r.store)@,
            final(final(self).store)@ == final(old(self).store)@,
    {
        let (_head, tail) = self.store.split_at_mut(0);
        s_MESSAGE_QUEUE_INIT_ARGUMENTS { store: tail }
    }

    /// View of the `srInitArguments` substructure at byte 32.
    pub fn new_S_srInitArguments(&mut self) -> (r: s_GSP_SR_INIT_ARGUMENTS<'_>)
        requires
            old(self).wf(),
        ensures
            r.bytes() == old(self).bytes().subrange(32, old(self).bytes().len() as int),
            r.wf(),
            final(self).bytes() == old(self).bytes().subrange(0, 32) + final(r.store)@,
            final(final(self).store)@ == final(old(self).store)@,
    {
        let (_head, tail) = self.store.split_at_mut(32);
        s_GSP_SR_INIT_ARGUMENTS { store: tail }
    }

    /// Writes `fld` to the `gpuInstance` field (bytes 44..48) and gives the view back.
    pub fn gpuInstance(self, fld: u32) -> (r: Self)
        requires
            self.wf(),
        ensures
            r.bytes() == splice(self.bytes(), 44, spec_u32_to_le_bytes(fld)),
            r.wf(),
            final(r.store)@ == final(self.store)@,
    {
        write_u32(self.store, 44, fld);
        self
    }

    /// Reads the `gpuInstance` field (bytes 44..48).
    pub fn get_gpuInstance(&self) -> (r: u32)
        requires
            self.wf(),
        ensures
            r == u32_at(self.bytes(), 44),
    {
        read_u32(self.store, 44)
    }

    /// Writes `fld` to the `gpuInstance` field (bytes 44..48).
    pub fn set_gpuInstance(&mut self, fld: u32)
        requires
            old(self).wf(),
        ensures
            final(self).bytes() == splice(old(self).bytes(), 44, spec_u32_to_le_bytes(fld)),
            final(self).wf(),
            final(final(self).store)@ == final(old(self).store)@,
    {
        write_u32(self.store, 44, fld);
    }

    /// Writes `fld` to the `bDmemStack` field (bytes 48..49) and gives the view back.
    pub fn bDmemStack(self, fld: u8) -> (r: Self)
        requires
            self.wf(),
        ensures
            r.bytes() == splice(self.bytes(), 48, seq![fld]),
            r.wf(),
            final(r.store)@ == final(self.store)@,
    {
        write_u8(self.store, 48, fld);
        self
    }

    /// Reads the `bDmemStack` field (bytes 48..49).
    pub fn get_bDmemStack(&self) -> (r: u8)
        requires
            self.wf(),
        ensures
            r == self.bytes()[48],
    {
        read_u8(self.store, 48)
    }

    /// Writes `fld` to the `bDmemStack` field (bytes 48..49).
    pub fn set_bDmemStack(&mut self, fld: u8)
        requires
            old(self).wf(),
        ensures
            final(self).bytes() == splice(old(self).bytes(), 48, seq![fld]),
            final(self).wf(),
            final(final(self).store)@ == final(old(self).store)@,
    {
        write_u8(self.store, 48, fld);
    }

    /// Writes `fld` to the `profilerArgs_pa` field (bytes 56..64) and gives the view back.
    pub fn profilerArgs_pa(self, fld: u64) -> (r: Self)
        requires
            self.wf(),
        ensures
            r.bytes() == splice(self.bytes(), 56, spec_u64_to_le_bytes(fld)),
            r.wf(),
            final(r.store)@ == final(self.store)@,
    {
        write_u64(self.store, 56, fld);
        self
    }

    /// Reads the `profilerArgs_pa` field (bytes 56..64).
    pub fn get_profilerArgs_pa(&self) -> (r: u64)
        requires
            self.wf(),
        ensures
            r == u64_at(self.bytes(), 56),
    {
        read_u64(self.store, 56)
    }

    /// Writes `fld` to the `profilerArgs_pa` field (bytes 56..64).
    pub fn set_profilerArgs_pa(&mut self, fld: u64)
        requires
            old(self).wf(),
        ensures
            final(self).bytes() == splice(old(self).bytes(), 56, spec_u64_to_le_bytes(fld)),
            final(self).wf(),
            final(final(self).store)@ == final(old(self).store)@,
    {
        write_u64(self.store, 56, fld);
    }

    /// Writes `fld` to the `profilerArgs_size` field (bytes 64..72) and gives the view back.
    pub fn profilerArgs_size(self, fld: u64) -> (r: Self)
        requires
            self.wf(),
        ensures
            r.bytes() == splice(self.bytes(), 64, spec_u64_to_le_bytes(fld)),
            r.wf(),
            final(r.store)@ == final(self.store)@,
    {
        write_u64(self.store, 64, fld);
        self
    }

    /// Reads the `profilerArgs_size` field (bytes 64..72).
    pub fn get_profilerArgs_size(&self) -> (r: u64)
        requires
            self.wf(),
        ensures
            r == u64_at(self.bytes(), 64),
    {
        read_u64(self.store, 64)
    }

    /// Writes `fld` to the `profilerArgs_size` field (bytes 64..72).
    pub fn set_profilerArgs_size(&mut self, fld: u64)
        requires
            old(self).wf(),
        ensures
            final(self).bytes() == splice(old(self).bytes(), 64, spec_u64_to_le_bytes(fld)),
            final(self).wf(),
            final(final(self).store)@ == final(old(self).store)@,
    {
        write_u64(self.store, 64, fld);
    }

}

/// View of the firmware structure `s_GSP_MSG_QUEUE_ELEMENT` (80 bytes).
pub struct s_GSP_MSG_QUEUE_ELEMENT<'s> {
    /// The buffer from the first byte of the structure to the end.
    pub store: &'s mut [u8],
}

impl<'s> s_GSP_MSG_QUEUE_ELEMENT<'s> {
    /// The bytes seen through this view.
    pub open spec fn bytes(&self) -> Seq<u8> {
        self.store@
    }

    /// The buffer holds at least the whole structure.
    pub open spec fn wf(&self) -> bool {
        self.store@.len() >= 80
    }

    /// Size of the structure in bytes.
    pub fn str_size() -> (n: usize)
        ensures
            n == 80,
    {
        80
    }

    /// Views `store` as this structure, starting at its first byte.
    pub fn new(store: &'s mut [u8]) -> (r: Self)
        requires
            old(store)@.len() >= 80,
        ensures
            r.bytes() == old(store)@,
            r.wf(),
            final(store)@ == final(r.store)@,
    {
        Self { store }
    }

    /// Writes `fld` to the `authTagBuffer` field (bytes 0..16) and gives the view back.
    pub fn authTagBuffer(self, fld: [u8; 16]) -> (r: Self)
        requires
            self.wf(),
        ensures
            r.bytes() == splice(self.bytes(), 0, fld@),
            r.wf(),
            final(r.store)@ == final(self.store)@,
    {
        write_u8s(self.store, 0, &fld);
        self
    }

    /// Writes `fld` to the `authTagBuffer` field (bytes 0..16).
    pub fn set_authTagBuffer(&mut self, fld: [u8; 16])
        requires
            old(self).wf(),
        ensures
            final(self).bytes() == splice(old(self).bytes(), 0, fld@),
            final(self).wf(),
            final(final(self).store)@ == final(old(self).store)@,
    {
        write_u8s(self.store, 0, &fld);
    }

    /// Reads the `authTagBuffer` array (bytes 0..16).
    pub fn get_authTagBuffer(&mut self) -> (r: [u8; 16])
        requires
            old(self).wf(),
        ensures
            r@ == old(self).bytes().subrange(0, 16),
            final(self).bytes() == old(self).bytes(),
            final(final(self).store)@ == final(old(self).store)@,
    {
        read_u8s(self.store, 0)
    }

    /// Writes `fld` to the `aadBuffer` field (bytes 16..32) and gives the view back.
    pub fn aadBuffer(self, fld: [u8; 16]) -> (r: Self)
        requires
            self.wf(),
        ensures
            r.bytes() == splice(self.bytes(), 16, fld@),
            r.wf(),
            final(r.store)@ == final(self.store)@,
    {
        write_u8s(self.store, 16, &fld);
        self
    }

    /// Writes `fld` to the `aadBuffer` field (bytes 16..32).
    pub fn set_aadBuffer(&mut self, fld: [u8; 16])
        requires
            old(self).wf(),
        ensures
            final(self).bytes() == splice(old(self).bytes(), 16, fld@),
            final(self).wf(),
            final(final(self).store)@ == final(old(self).store)@,
    {
        write_u8s(self.store, 16, &fld);
    }

    /// Reads the `aadBuffer` array (bytes 16..32).
    pub fn get_aadBuffer(&mut self) -> (r: [u8; 16])
        requires
            old(self).wf(),
        ensures
            r@ == old(self).bytes().subrange(16, 32),
            final(self).bytes() == old(self).bytes(),
            final(final(self).store)@ == final(old(self).store)@,
    {
        read_u8s(self.store, 16)
    }

    /// Writes `fld` to the `checkSum` field (bytes 32..36) and gives the view back.
    pub fn checkSum(self, fld: u32) -> (r: Self)
        requires
            self.wf(),
        ensures
            r.bytes() == splice(self.bytes(), 32, spec_u32_to_le_bytes(fld)),
            r.wf(),
            final(r.store)@ == final(self.store)@,
    {
        write_u32(self.store, 32, fld);
        self
    }

    /// Reads the `checkSum` field (bytes 32..36).
    pub fn get_checkSum(&self) -> (r: u32)
        requires
            self.wf(),
        ensures
            r == u32_at(self.bytes(), 32),
    {
        read_u32(self.store, 32)
    }

    /// Writes `fld` to the `checkSum` field (bytes 32..36).
    pub fn set_checkSum(&mut self, fld: u32)
        requires
            old(self).wf(),
        ensures
            final(self).bytes() == splice(old(self).bytes(), 32, spec_u32_to_le_bytes(fld)),
            final(self).wf(),
            final(final(self).store)@ == final(old(self).store)@,
    {
        write_u32(self.store, 32, fld);
    }

    /// Writes `fld` to the `seqNum` field (bytes 36..40) and gives the view back.
    pub fn seqNum(self, fld: u32) -> (r: Self)
        requires
            self.wf(),
        ensures
            r.bytes() == splice(self.bytes(), 36, spec_u32_to_le_bytes(fld)),
            r.wf(),
            final(r.store)@ == final(self.store)@,
    {
        write_u32(self.store, 36, fld);
        self
    }

    /// Reads the `seqNum` field (bytes 36..40).
    pub fn get_seqNum(&self) -> (r: u32)
        requires
            self.wf(),
        ensures
            r == u32_at(self.bytes(), 36),
    {
        read_u32(self.store, 36)
    }

    /// Writes `fld` to the `seqNum` field (bytes 36..40).
    pub fn set_seqNum(&mut self, fld: u32)
        requires
            old(self).wf(),
        ensures
            final(self).bytes() == splice(old(self).bytes(), 36, spec_u32_to_le_bytes(fld)),
            final(self).wf(),
            final(final(self).store)@ == final(old(self).store)@,
    {
        write_u32(self.store, 36, fld);
    }

    /// Writes `fld` to the `elemCount` field (bytes 40..44) and gives the view back.
    pub fn elemCount(self, fld: u32) -> (r: Self)
        requires
            self.wf(),
        ensures
            r.bytes() == splice(self.bytes(), 40, spec_u32_to_le_bytes(fld)),
            r.wf(),
            final(r.store)@ == final(self.store)@,
    {
        write_u32(self.store, 40, fld);
        self
    }

    /// Reads the `elemCount` field (bytes 40..44).
    pub fn get_elemCount(&self) -> (r: u32)
        requires
            self.wf(),
        ensures
            r == u32_at(self.bytes(), 40),
    {
        read_u32(self.store, 40)
    }

    /// Writes `fld` to the `elemCount` field (bytes 40..44).
    pub fn set_elemCount(&mut self, fld: u32)
        requires
            old(self).wf(),
        ensures
            final(self).bytes() == splice(old(self).bytes(), 40, spec_u32_to_le_bytes(fld)),
            final(self).wf(),
            final(final(self).store)@ == final(old(self).store)@,
    {
        write_u32(self.store, 40, fld);
    }

    /// View of the `rpc` substructure at byte 48.
    pub fn new_S_rpc(&mut self) -> (r: s_rpc_message_header_v03_00<'_>)
        requires
            old(self).wf(),
        ensures
            r.bytes() == old(self).bytes().subrange(48, old(self).bytes().len() as int),
            r.wf(),
            final(self).bytes() == old(self).bytes().subrange(0, 48) + final(r.store)@,
            final(final(self).store)@ == final(old(self).store)@,
    {
        let (_head, tail) = self.store.split_at_mut(48);
        s_rpc_message_header_v03_00 { store: tail }
    }

}

/// View of the firmware structure `s_LibosMemoryRegionInitArgument` (32 bytes).
pub struct s_LibosMemoryRegionInitArgument<'s> {
    /// The buffer from the first byte of the structure to the end.
    pub store: &'s mut [u8],
}

impl<'s> s_LibosMemoryRegionInitArgument<'s> {
    /// The bytes seen through this view.
    pub open spec fn bytes(&self) -> Seq<u8> {
        self.store@
    }

    /// The buffer holds at least the whole structure.
    pub open spec fn wf(&self) -> bool {
        self.store@.len() >= 32
    }

    /// Size of the structure in bytes.
    pub fn str_size() -> (n: usize)
        ensures
            n == 32,
    {
        32
    }

    /// Views `store` as this structure, starting at its first byte.
    pub fn new(store: &'s mut [u8]) -> (r: Self)
        requires
            old(store)@.len() >= 32,
        ensures
            r.bytes() == old(store)@,
            r.wf(),
            final(store)@ == final(r.store)@,
    {
        Self { store }
    }

    /// Writes `fld` to the `id8` field (bytes 0..8) and gives the view back.
    pub fn id8(self, fld: u64) -> (r: Self)
        requires
            self.wf(),
        ensures
            r.bytes() == splice(self.bytes(), 0, spec_u64_to_le_bytes(fld)),
            r.wf(),
            final(r.store)@ == final(self.store)@,
    {
        write_u64(self.store, 0, fld);
        self
    }

    /// Reads the `id8` field (bytes 0..8).
    pub fn get_id8(&self) -> (r: u64)
        requires
            self.wf(),
        ensures
            r == u64_at(self.bytes(), 0),
    {
        read_u64(self.store, 0)
    }

    /// Writes `fld` to the `id8` field (bytes 0..8).
    pub fn set_id8(&mut self, fld: u64)
        requires
            old(self).wf(),
        ensures
            final(self).bytes() == splice(old(self).bytes(), 0, spec_u64_to_le_bytes(fld)),
            final(self).wf(),
            final(final(self).store)@ == final(old(self).store)@,
    {
        write_u64(self.store, 0, fld);
    }

    /// Writes `fld` to the `pa` field (bytes 8..16) and gives the view back.
    pub fn pa(self, fld: u64) -> (r: Self)
        requires
            self.wf(),
        ensures
            r.bytes() == splice(self.bytes(), 8, spec_u64_to_le_bytes(fld)),
            r.wf(),
            final(r.store)@ == final(self.store)@,
    {
        write_u64(self.store, 8, fld);
        self
    }

    /// Reads the `pa` field (bytes 8..16).
    pub fn get_pa(&self) -> (r: u64)
        requires
            self.wf(),
        ensures
            r == u64_at(self.bytes(), 8),
    {
        read_u64(self.store, 8)
    }

    /// Writes `fld` to the `pa` field (bytes 8..16).
    pub fn set_pa(&mut self, fld: u64)
        requires
            old(self).wf(),
        ensures
            final(self).bytes() == splice(old(self).bytes(), 8, spec_u64_to_le_bytes(fld)),
            final(self).wf(),
            final(final(self).store)@ == final(old(self).store)@,
    {
        write_u64(self.store, 8, fld);
    }

    /// Writes `fld` to the `size` field (bytes 16..24) and gives the view back.
    pub fn size(self, fld: u64) -> (r: Self)
        requires
            self.wf(),
        ensures
            r.bytes() == splice(self.bytes(), 16, spec_u64_to_le_bytes(fld)),
            r.wf(),
            final(r.store)@ == final(self.store)@,
    {
        write_u64(self.store, 16, fld);
        self
    }

    /// Reads the `size` field (bytes 16..24).
    pub fn get_size(&self) -> (r: u64)
        requires
            self.wf(),
        ensures
            r == u64_at(self.bytes(), 16),
    {
        read_u64(self.store, 16)
    }

    /// Writes `fld` to the `size` field (bytes 16..24).
    pub fn set_size(&mut self, fld: u64)
        requires
            old(self).wf(),
        ensures
            final(self).bytes() == splice(old(self).bytes(), 16, spec_u64_to_le_bytes(fld)),
            final(self).wf(),
            final(final(self).store)@ == final(old(self).store)@,
    {
        write_u64(self.store, 16, fld);
    }

    /// Writes `fld` to the `kind` field (bytes 24..25) and gives the view back.
    pub fn kind(self, fld: u8) -> (r: Self)
        requires
            self.wf(),
        ensures
            r.bytes() == splice(self.bytes(), 24, seq![fld]),
            r.wf(),
            final(r.store)@ == final(self.store)@,
    {
        write_u8(self.store, 24, fld);
        self
    }

    /// Reads the `kind` field (bytes 24..25).
    pub fn get_kind(&self) -> (r: u8)
        requires
            self.wf(),
        ensures
            r == self.bytes()[24],
    {
        read_u8(self.store, 24)
    }

    /// Writes `fld` to the `kind` field (bytes 24..25).
    pub fn set_kind(&mut self, fld: u8)
        requires
            old(self).wf(),
        ensures
            final(self).bytes() == splice(old(self).bytes(), 24, seq![fld]),
            final(self).wf(),
            final(final(self).store)@ == final(old(self).store)@,
    {
        write_u8(self.store, 24, fld);
    }

    /// Writes `fld` to the `loc` field (bytes 25..26) and gives the view back.
    pub fn loc(self, fld: u8) -> (r: Self)
        requires
            self.wf(),
        ensures
            r.bytes() == splice(self.bytes(), 25, seq![fld]),
            r.wf(),
            final(r.store)@ == final(self.store)@,
    {
        write_u8(self.store, 25, fld);
        self
    }

    /// Reads the `loc` field (bytes 25..26).
    pub fn get_loc(&self) -> (r: u8)
        requires
            self.wf(),
        ensures
            r == self.bytes()[25],
    {
        read_u8(self.store, 25)
    }

    /// Writes `fld` to the `loc` field (bytes 25..26).
    pub fn set_loc(&mut self, fld: u8)
        requires
            old(self).wf(),
        ensures
            final(self).bytes() == splice(old(self).bytes(), 25, seq![fld]),
            final(self).wf(),
            final(final(self).store)@ == final(old(self).store)@,
    {
        write_u8(self.store, 25, fld);
    }

}

/// View of the firmware structure `s_rpc_gsp_rm_alloc_v03_00` (32 bytes).
pub struct s_rpc_gsp_rm_alloc_v03_00<'s> {
    /// The buffer from the first byte of the structure to the end.
    pub store: &'s mut [u8],
}

impl<'s> s_rpc_gsp_rm_alloc_v03_00<'s> {
    /// The bytes seen through this view.
    pub open spec fn bytes(&self) -> Seq<u8> {
        self.store@
    }

    /// The buffer holds at least the whole structure.
    pub open spec fn wf(&self) -> bool {
        self.store@.len() >= 32
    }

    /// Size of the structure in bytes.
    pub fn str_size() -> (n: usize)
        ensures
            n == 32,
    {
        32
    }

    /// Views `store` as this structure, starting at its first byte.
    pub fn new(store: &'s mut [u8]) -> (r: Self)
        requires
            old(store)@.len() >= 32,
        ensures
            r.bytes() == old(store)@,
            r.wf(),
            final(store)@ == final(r.store)@,
    {
        Self { store }
    }

    /// Writes `fld` to the `hClient` field (bytes 0..4) and gives the view back.
    pub fn hClient(self, fld: u32) -> (r: Self)
        requires
            self.wf(),
        ensures
            r.bytes() == splice(self.bytes(), 0, spec_u32_to_le_bytes(fld)),
            r.wf(),
            final(r.store)@ == final(self.store)@,
    {
        write_u32(self.store, 0, fld);
        self
    }

    /// Reads the `hClient` field (bytes 0..4).
    pub fn get_hClient(&self) -> (r: u32)
        requires
            self.wf(),
        ensures
            r == u32_at(self.bytes(), 0),
    {
        read_u32(self.store, 0)
    }

    /// Writes `fld` to the `hClient` field (bytes 0..4).
    pub fn set_hClient(&mut self, fld: u32)
        requires
            old(self).wf(),
        ensures
            final(self).bytes() == splice(old(self).bytes(), 0, spec_u32_to_le_bytes(fld)),
            final(self).wf(),
            final(final(self).store)@ == final(old(self).store)@,
    {
        write_u32(self.store, 0, fld);
    }

    /// Writes `fld` to the `hParent` field (bytes 4..8) and gives the view back.
    pub fn hParent(self, fld: u32) -> (r: Self)
        requires
            self.wf(),
        ensures
            r.bytes() == splice(self.bytes(), 4, spec_u32_to_le_bytes(fld)),
            r.wf(),
            final(r.store)@ == final(self.store)@,
    {
        write_u32(self.store, 4, fld);
        self
    }

    /// Reads the `hParent` field (bytes 4..8).
    pub fn get_hParent(&self) -> (r: u32)
        requires
            self.wf(),
        ensures
            r == u32_at(self.bytes(), 4),
    {
        read_u32(self.store, 4)
    }

    /// Writes `fld` to the `hParent` field (bytes 4..8).
    pub fn set_hParent(&mut self, fld: u32)
        requires
            old(self).wf(),
        ensures
            final(self).bytes() == splice(old(self).bytes(), 4, spec_u32_to_le_bytes(fld)),
            final(self).wf(),
            final(final(self).store)@ == final(old(self).store)@,
    {
        write_u32(self.store, 4, fld);
    }

    /// Writes `fld` to the `hObject` field (bytes 8..12) and gives the view back.
    pub fn hObject(self, fld: u32) -> (r: Self)
        requires
            self.wf(),
        ensures
            r.bytes() == splice(self.bytes(), 8, spec_u32_to_le_bytes(fld)),
            r.wf(),
            final(r.store)@ == final(self.store)@,
    {
        write_u32(self.store, 8, fld);
        self
    }

    /// Reads the `hObject` field (bytes 8..12).
    pub fn get_hObject(&self) -> (r: u32)
        requires
            self.wf(),
        ensures
            r == u32_at(self.bytes(), 8),
    {
        read_u32(self.store, 8)
    }

    /// Writes `fld` to the `hObject` field (bytes 8..12).
    pub fn set_hObject(&mut self, fld: u32)
        requires
            old(self).wf(),
        ensures
            final(self).bytes() == splice(old(self).bytes(), 8, spec_u32_to_le_bytes(fld)),
            final(self).wf(),
            final(final(self).store)@ == final(old(self).store)@,
    {
        write_u32(self.store, 8, fld);
    }

    /// Writes `fld` to the `hClass` field (bytes 12..16) and gives the view back.
    pub fn hClass(self, fld: u32) -> (r: Self)
        requires
            self.wf(),
        ensures
            r.bytes() == splice(self.bytes(), 12, spec_u32_to_le_bytes(fld)),
            r.wf(),
            final(r.store)@ == final(self.store)@,
    {
        write_u32(self.store, 12, fld);
        self
    }

    /// Reads the `hClass` field (bytes 12..16).
    pub fn get_hClass(&self) -> (r: u32)
        requires
            self.wf(),
        ensures
            r == u32_at(self.bytes(), 12),
    {
        read_u32(self.store, 12)
    }

    /// Writes `fld` to the `hClass` field (bytes 12..16).
    pub fn set_hClass(&mut self, fld: u32)
        requires
            old(self).wf(),
        ensures
            final(self).bytes() == splice(old(self).bytes(), 12, spec_u32_to_le_bytes(fld)),
            final(self).wf(),
            final(final(self).store)@ == final(old(self).store)@,
    {
        write_u32(self.store, 12, fld);
    }

    /// Writes `fld` to the `status` field (bytes 16..20) and gives the view back.
    pub fn status(self, fld: u32) -> (r: Self)
        requires
            self.wf(),
        ensures
            r.bytes() == splice(self.bytes(), 16, spec_u32_to_le_bytes(fld)),
            r.wf(),
            final(r.store)@ == final(self.store)@,
    {
        write_u32(self.store, 16, fld);
        self
    }

    /// Reads the `status` field (bytes 16..20).
    pub fn get_status(&self) -> (r: u32)
        requires
            self.wf(),
        ensures
            r == u32_at(self.bytes(), 16),
    {
        read_u32(self.store, 16)
    }

    /// Writes `fld` to the `status` field (bytes 16..20).
    pub fn set_status(&mut self, fld: u32)
        requires
            old(self).wf(),
        ensures
            final(self).bytes() == splice(old(self).bytes(), 16, spec_u32_to_le_bytes(fld)),
            final(self).wf(),
            final(final(self).store)@ == final(old(self).store)@,
    {
        write_u32(self.store, 16, fld);
    }

    /// Writes `fld` to the `paramsSize` field (bytes 20..24) and gives the view back.
    pub fn paramsSize(self, fld: u32) -> (r: Self)
        requires
            self.wf(),
        ensures
            r.bytes() == splice(self.bytes(), 20, spec_u32_to_le_bytes(fld)),
            r.wf(),
            final(r.store)@ == final(self.store)@,
    {
        write_u32(self.store, 20, fld);
        self
    }

    /// Reads the `paramsSize` field (bytes 20..24).
    pub fn get_paramsSize(&self) -> (r: u32)
        requires
            self.wf(),
        ensures
            r == u32_at(self.bytes(), 20),
    {
        read_u32(self.store, 20)
    }

    /// Writes `fld` to the `paramsSize` field (bytes 20..24).
    pub fn set_paramsSize(&mut self, fld: u32)
        requires
            old(self).wf(),
        ensures
            final(self).bytes() == splice(old(self).bytes(), 20, spec_u32_to_le_bytes(fld)),
            final(self).wf(),
            final(final(self).store)@ == final(old(self).store)@,
    {
        write_u32(self.store, 20, fld);
    }

    /// Writes `fld` to the `flags` field (bytes 24..28) and gives the view back.
    pub fn flags(self, fld: u32) -> (r: Self)
        requires
            self.wf(),
        ensures
            r.bytes() == splice(self.bytes(), 24, spec_u32_to_le_bytes(fld)),
            r.wf(),
            final(r.store)@ == final(self.store)@,
    {
        write_u32(self.store, 24, fld);
        self
    }

    /// Reads the `flags` field (bytes 24..28).
    pub fn get_flags(&self) -> (r: u32)
        requires
            self.wf(),
        ensures
            r == u32_at(self.bytes(), 24),
    {
        read_u32(self.store, 24)
    }

    /// Writes `fld` to the `flags` field (bytes 24..28).
    pub fn set_flags(&mut self, fld: u32)
        requires
            old(self).wf(),
        ensures
            final(self).bytes() == splice(old(self).bytes(), 24, spec_u32_to_le_bytes(fld)),
            final(self).wf(),
            final(final(self).store)@ == final(old(self).store)@,
    {
        write_u32(self.store, 24, fld);
    }

    /// Writes `fld` to the `reserved` field (bytes 28..32) and gives the view back.
    pub fn reserved(self, fld: [u8; 4]) -> (r: Self)
        requires
            self.wf(),
        ensures
            r.bytes() == splice(self.bytes(), 28, fld@),
            r.wf(),
            final(r.store)@ == final(self.store)@,
    {
        write_u8s(self.store, 28, &fld);
        self
    }

    /// Writes `fld` to the `reserved` field (bytes 28..32).
    pub fn set_reserved(&mut self, fld: [u8; 4])
        requires
            old(self).wf(),
        ensures
            final(self).bytes() == splice(old(self).bytes(), 28, fld@),
            final(self).wf(),
            final(final(self).store)@ == final(old(self).store)@,
    {
        write_u8s(self.store, 28, &fld);
    }

    /// Reads the `reserved` array (bytes 28..32).
    pub fn get_reserved(&mut self) -> (r: [u8; 4])
        requires
            old(self).wf(),
        ensures
            r@ == old(self).bytes().subrange(28, 32),
            final(self).bytes() == old(self).bytes(),
            final(final(self).store)@ == final(old(self).store)@,
    {
        read_u8s(self.store, 28)
    }

}

/// View of the firmware structure `s_rpc_gsp_rm_control_v03_00` (24 bytes).
pub struct s_rpc_gsp_rm_control_v03_00<'s> {
    /// The buffer from the first byte of the structure to the end.
    pub store: &'s mut [u8],
}

impl<'s> s_rpc_gsp_rm_control_v03_00<'s> {
    /// The bytes seen through this view.
    pub open spec fn bytes(&self) -> Seq<u8> {
        self.store@
    }

    /// The buffer holds at least the whole structure.
    pub open spec fn wf(&self) -> bool {
        self.store@.len() >= 24
    }

    /// Size of the structure in bytes.
    pub fn str_size() -> (n: usize)
        ensures
            n == 24,
    {
        24
    }

    /// Views `store` as this structure, starting at its first byte.
    pub fn new(store: &'s mut [u8]) -> (r: Self)
        requires
            old(store)@.len() >= 24,
        ensures
            r.bytes() == old(store)@,
            r.wf(),
            final(store)@ == final(r.store)@,
    {
        Self { store }
    }

    /// Writes `fld` to the `hClient` field (bytes 0..4) and gives the view back.
    pub fn hClient(self, fld: u32) -> (r: Self)
        requires
            self.wf(),
        ensures
            r.bytes() == splice(self.bytes(), 0, spec_u32_to_le_bytes(fld)),
            r.wf(),
            final(r.store)@ == final(self.store)@,
    {
        write_u32(self.store, 0, fld);
        self
    }

    /// Reads the `hClient` field (bytes 0..4).
    pub fn get_hClient(&self) -> (r: u32)
        requires
            self.wf(),
        ensures
            r == u32_at(self.bytes(), 0),
    {
        read_u32(self.store, 0)
    }

    /// Writes `fld` to the `hClient` field (bytes 0..4).
    pub fn set_hClient(&mut self, fld: u32)
        requires
            old(self).wf(),
        ensures
            final(self).bytes() == splice(old(self).bytes(), 0, spec_u32_to_le_bytes(fld)),
            final(self).wf(),
            final(final(self).store)@ == final(old(self).store)@,
    {
        write_u32(self.store, 0, fld);
    }

    /// Writes `fld` to the `hObject` field (bytes 4..8) and gives the view back.
    pub fn hObject(self, fld: u32) -> (r: Self)
        requires
            self.wf(),
        ensures
            r.bytes() == splice(self.bytes(), 4, spec_u32_to_le_bytes(fld)),
            r.wf(),
            final(r.store)@ == final(self.store)@,
    {
        write_u32(self.store, 4, fld);
        self
    }

    /// Reads the `hObject` field (bytes 4..8).
    pub fn get_hObject(&self) -> (r: u32)
        requires
            self.wf(),
        ensures
            r == u32_at(self.bytes(), 4),
    {
        read_u32(self.store, 4)
    }

    /// Writes `fld` to the `hObject` field (bytes 4..8).
    pub fn set_hObject(&mut self, fld: u32)
        requires
            old(self).wf(),
        ensures
            final(self).bytes() == splice(old(self).bytes(), 4, spec_u32_to_le_bytes(fld)),
            final(self).wf(),
            final(final(self).store)@ == final(old(self).store)@,
    {
        write_u32(self.store, 4, fld);
    }

    /// Writes `fld` to the `cmd` field (bytes 8..12) and gives the view back.
    pub fn cmd(self, fld: u32) -> (r: Self)
        requires
            self.wf(),
        ensures
            r.bytes() == splice(self.bytes(), 8, spec_u32_to_le_bytes(fld)),
            r.wf(),
            final(r.store)@ == final(self.store)@,
    {
        write_u32(self.store, 8, fld);
        self
    }

    /// Reads the `cmd` field (bytes 8..12).
    pub fn get_cmd(&self) -> (r: u32)
        requires
            self.wf(),
        ensures
            r == u32_at(self.bytes(), 8),
    {
        read_u32(self.store, 8)
    }

    /// Writes `fld` to the `cmd` field (bytes 8..12).
    pub fn set_cmd(&mut self, fld: u32)
        requires
            old(self).wf(),
        ensures
            final(self).bytes() == splice(old(self).bytes(), 8, spec_u32_to_le_bytes(fld)),
            final(self).wf(),
            final(final(self).store)@ == final(old(self).store)@,
    {
        write_u32(self.store, 8, fld);
    }

    /// Writes `fld` to the `status` field (bytes 12..16) and gives the view back.
    pub fn status(self, fld: u32) -> (r: Self)
        requires
            self.wf(),
        ensures
            r.bytes() == splice(self.bytes(), 12, spec_u32_to_le_bytes(fld)),
            r.wf(),
            final(r.store)@ == final(self.store)@,
    {
        write_u32(self.store, 12, fld);
        self
    }

    /// Reads the `status` field (bytes 12..16).
    pub fn get_status(&self) -> (r: u32)
        requires
            self.wf(),
        ensures
            r == u32_at(self.bytes(), 12),
    {
        read_u32(self.store, 12)
    }

    /// Writes `fld` to the `status` field (bytes 12..16).
    pub fn set_status(&mut self, fld: u32)
        requires
            old(self).wf(),
        ensures
            final(self).bytes() == splice(old(self).bytes(), 12, spec_u32_to_le_bytes(fld)),
            final(self).wf(),
            final(final(self).store)@ == final(old(self).store)@,
    {
        write_u32(self.store, 12, fld);
    }

    /// Writes `fld` to the `paramsSize` field (bytes 16..20) and gives the view back.
    pub fn paramsSize(self, fld: u32) -> (r: Self)
        requires
            self.wf(),
        ensures
            r.bytes() == splice(self.bytes(), 16, spec_u32_to_le_bytes(fld)),
            r.wf(),
            final(r.store)@ == final(self.store)@,
    {
        write_u32(self.store, 16, fld);
        self
    }

    /// Reads the `paramsSize` field (bytes 16..20).
    pub fn get_paramsSize(&self) -> (r: u32)
        requires
            self.wf(),
        ensures
            r == u32_at(self.bytes(), 16),
    {
        read_u32(self.store, 16)
    }

    /// Writes `fld` to the `paramsSize` field (bytes 16..20).
    pub fn set_paramsSize(&mut self, fld: u32)
        requires
            old(self).wf(),
        ensures
            final(self).bytes() == splice(old(self).bytes(), 16, spec_u32_to_le_bytes(fld)),
            final(self).wf(),
            final(final(self).store)@ == final(old(self).store)@,
    {
        write_u32(self.store, 16, fld);
    }

    /// Writes `fld` to the `flags` field (bytes 20..24) and gives the view back.
    pub fn flags(self, fld: u32) -> (r: Self)
        requires
            self.wf(),
        ensures
            r.bytes() == splice(self.bytes(), 20, spec_u32_to_le_bytes(fld)),
            r.wf(),
            final(r.store)@ == final(self.store)@,
    {
        write_u32(self.store, 20, fld);
        self
    }

    /// Reads the `flags` field (bytes 20..24).
    pub fn get_flags(&self) -> (r: u32)
        requires
            self.wf(),
        ensures
            r == u32_at(self.bytes(), 20),
    {
        read_u32(self.store, 20)
    }

    /// Writes `fld` to the `flags` field (bytes 20..24).
    pub fn set_flags(&mut self, fld: u32)
        requires
            old(self).wf(),
        ensures
            final(self).bytes() == splice(old(self).bytes(), 20, spec_u32_to_le_bytes(fld)),
            final(self).wf(),
            final(final(self).store)@ == final(old(self).store)@,
    {
        write_u32(self.store, 20, fld);
    }

}

/// View of the firmware structure `s_rpc_free_v03_00` (16 bytes).
pub struct s_rpc_free_v03_00<'s> {
    /// The buffer from the first byte of the structure to the end.
    pub store: &'s mut [u8],
}

impl<'s> s_rpc_free_v03_00<'s> {
    /// The bytes seen through this view.
    pub open spec fn bytes(&self) -> Seq<u8> {
        self.store@
    }

    /// The buffer holds at least the whole structure.
    pub open spec fn wf(&self) -> bool {
        self.store@.len() >= 16
    }

    /// Size of the structure in bytes.
    pub fn str_size() -> (n: usize)
        ensures
            n == 16,
    {
        16
    }

    /// Views `store` as this structure, starting at its first byte.
    pub fn new(store: &'s mut [u8]) -> (r: Self)
        requires
            old(store)@.len() >= 16,
        ensures
            r.bytes() == old(store)@,
            r.wf(),
            final(store)@ == final(r.store)@,
    {
        Self { store }
    }

    /// View of the `params` substructure at byte 0.
    pub fn new_S_params(&mut self) -> (r: s_NVOS00_PARAMETERS_v03_00<'_>)
        requires
            old(self).wf(),
        ensures
            r.bytes() == old(self).bytes().subrange(0, old(self).bytes().len() as int),
            r.wf(),
            final(self).bytes() == old(self).bytes().subrange(0, 0) + final(r.store)@,
            final(final(self).store)@ == final(old(self).store)@,
    {
        let (_head, tail) = self.store.split_at_mut(0);
        s_NVOS00_PARAMETERS_v03_00 { store: tail }
    }

}

/// View of the firmware structure `s_NVOS00_PARAMETERS_v03_00` (16 bytes).
pub struct s_NVOS00_PARAMETERS_v03_00<'s> {
    /// The buffer from the first byte of the structure to the end.
    pub store: &'s mut [u8],
}

impl<'s> s_NVOS00_PARAMETERS_v03_00<'s> {
    /// The bytes seen through this view.
    pub open spec fn bytes(&self) -> Seq<u8> {
        self.store@
    }

    /// The buffer holds at least the whole structure.
    pub open spec fn wf(&self) -> bool {
        self.store@.len() >= 16
    }

    /// Size of the structure in bytes.
    pub fn str_size() -> (n: usize)
        ensures
            n == 16,
    {
        16
    }

    /// Views `store` as this structure, starting at its first byte.
    pub fn new(store: &'s mut [u8]) -> (r: Self)
        requires
            old(store)@.len() >= 16,
        ensures
            r.bytes() == old(store)@,
            r.wf(),
            final(store)@ == final(r.store)@,
    {
        Self { store }
    }

    /// Writes `fld` to the `hRoot` field (bytes 0..4) and gives the view back.
    pub fn hRoot(self, fld: u32) -> (r: Self)
        requires
            self.wf(),
        ensures
            r.bytes() == splice(self.bytes(), 0, spec_u32_to_le_bytes(fld)),
            r.wf(),
            final(r.store)@ == final(self.store)@,
    {
        write_u32(self.store, 0, fld);
        self
    }

    /// Reads the `hRoot` field (bytes 0..4).
    pub fn get_hRoot(&self) -> (r: u32)
        requires
            self.wf(),
        ensures
            r == u32_at(self.bytes(), 0),
    {
        read_u32(self.store, 0)
    }

    /// Writes `fld` to the `hRoot` field (bytes 0..4).
    pub fn set_hRoot(&mut self, fld: u32)
        requires
            old(self).wf(),
        ensures
            final(self).bytes() == splice(old(self).bytes(), 0, spec_u32_to_le_bytes(fld)),
            final(self).wf(),
            final(final(self).store)@ == final(old(self).store)@,
    {
        write_u32(self.store, 0, fld);
    }

    /// Writes `fld` to the `hObjectParent` field (bytes 4..8) and gives the view back.
    pub fn hObjectParent(self, fld: u32) -> (r: Self)
        requires
            self.wf(),
        ensures
            r.bytes() == splice(self.bytes(), 4, spec_u32_to_le_bytes(fld)),
            r.wf(),
            final(r.store)@ == final(self.store)@,
    {
        write_u32(self.store, 4, fld);
        self
    }

    /// Reads the `hObjectParent` field (bytes 4..8).
    pub fn get_hObjectParent(&self) -> (r: u32)
        requires
            self.wf(),
        ensures
            r == u32_at(self.bytes(), 4),
    {
        read_u32(self.store, 4)
    }

    /// Writes `fld` to the `hObjectParent` field (bytes 4..8).
    pub fn set_hObjectParent(&mut self, fld: u32)
        requires
            old(self).wf(),
        ensures
            final(self).bytes() == splice(old(self).bytes(), 4, spec_u32_to_le_bytes(fld)),
            final(self).wf(),
            final(final(self).store)@ == final(old(self).store)@,
    {
        write_u32(self.store, 4, fld);
    }

    /// Writes `fld` to the `hObjectOld` field (bytes 8..12) and gives the view back.
    pub fn hObjectOld(self, fld: u32) -> (r: Self)
        requires
            self.wf(),
        ensures
            r.bytes() == splice(self.bytes(), 8, spec_u32_to_le_bytes(fld)),
            r.wf(),
            final(r.store)@ == final(self.store)@,
    {
        write_u32(self.store, 8, fld);
        self
    }

    /// Reads the `hObjectOld` field (bytes 8..12).
    pub fn get_hObjectOld(&self) -> (r: u32)
        requires
            self.wf(),
        ensures
            r == u32_at(self.bytes(), 8),
    {
        read_u32(self.store, 8)
    }

    /// Writes `fld` to the `hObjectOld` field (bytes 8..12).
    pub fn set_hObjectOld(&mut self, fld: u32)
        requires
            old(self).wf(),
        ensures
            final(self).bytes() == splice(old(self).bytes(), 8, spec_u32_to_le_bytes(fld)),
            final(self).wf(),
            final(final(self).store)@ == final(old(self).store)@,
    {
        write_u32(self.store, 8, fld);
    }

    /// Writes `fld` to the `status` field (bytes 12..16) and gives the view back.
    pub fn status(self, fld: u32) -> (r: Self)
        requires
            self.wf(),
        ensures
            r.bytes() == splice(self.bytes(), 12, spec_u32_to_le_bytes(fld)),
            r.wf(),
            final(r.store)@ == final(self.store)@,
    {
        write_u32(self.store, 12, fld);
        self
    }

    /// Reads the `status` field (bytes 12..16).
    pub fn get_status(&self) -> (r: u32)
        requires
            self.wf(),
        ensures
            r == u32_at(self.bytes(), 12),
    {
        read_u32(self.store, 12)
    }

    /// Writes `fld` to the `status` field (bytes 12..16).
    pub fn set_status(&mut self, fld: u32)
        requires
            old(self).wf(),
        ensures
            final(self).bytes() == splice(old(self).bytes(), 12, spec_u32_to_le_bytes(fld)),
            final(self).wf(),
            final(final(self).store)@ == final(old(self).store)@,
    {
        write_u32(self.store, 12, fld);
    }

}

/// View of the firmware structure `s_GSP_SEQ_BUF_PAYLOAD_REG_WRITE` (8 bytes).
pub struct s_GSP_SEQ_BUF_PAYLOAD_REG_WRITE<'s> {
    /// The buffer from the first byte of the structure to the end.
    pub store: &'s mut [u8],
}

impl<'s> s_GSP_SEQ_BUF_PAYLOAD_REG_WRITE<'s> {
    /// The bytes seen through this view.
    pub open spec fn bytes(&self) -> Seq<u8> {
        self.store@
    }

    /// The buffer holds at least the whole structure.
    pub open spec fn wf(&self) -> bool {
        self.store@.len() >= 8
    }

    /// Size of the structure in bytes.
    pub fn str_size() -> (n: usize)
        ensures
            n == 8,
    {
        8
    }

    /// Views `store` as this structure, starting at its first byte.
    pub fn new(store: &'s mut [u8]) -> (r: Self)
        requires
            old(store)@.len() >= 8,
        ensures
            r.bytes() == old(store)@,
            r.wf(),
            final(store)@ == final(r.store)@,
    {
        Self { store }
    }

    /// Writes `fld` to the `addr` field (bytes 0..4) and gives the view back.
    pub fn addr(self, fld: u32) -> (r: Self)
        requires
            self.wf(),
        ensures
            r.bytes() == splice(self.bytes(), 0, spec_u32_to_le_bytes(fld)),
            r.wf(),
            final(r.store)@ == final(self.store)@,
    {
        write_u32(self.store, 0, fld);
        self
    }

    /// Reads the `addr` field (bytes 0..4).
    pub fn get_addr(&self) -> (r: u32)
        requires
            self.wf(),
        ensures
            r == u32_at(self.bytes(), 0),
    {
        read_u32(self.store, 0)
    }

    /// Writes `fld` to the `addr` field (bytes 0..4).
    pub fn set_addr(&mut self, fld: u32)
        requires
            old(self).wf(),
        ensures
            final(self).bytes() == splice(old(self).bytes(), 0, spec_u32_to_le_bytes(fld)),
            final(self).wf(),
            final(final(self).store)@ == final(old(self).store)@,
    {
        write_u32(self.store, 0, fld);
    }

    /// Writes `fld` to the `val` field (bytes 4..8) and gives the view back.
    pub fn val(self, fld: u32) -> (r: Self)
        requires
            self.wf(),
        ensures
            r.bytes() == splice(self.bytes(), 4, spec_u32_to_le_bytes(fld)),
            r.wf(),
            final(r.store)@ == final(self.store)@,
    {
        write_u32(self.store, 4, fld);
        self
    }

    /// Reads the `val` field (bytes 4..8).
    pub fn get_val(&self) -> (r: u32)
        requires
            self.wf(),
        ensures
            r == u32_at(self.bytes(), 4),
    {
        read_u32(self.store, 4)
    }

    /// Writes `fld` to the `val` field (bytes 4..8).
    pub fn set_val(&mut self, fld: u32)
        requires
            old(self).wf(),
        ensures
            final(self).bytes() == splice(old(self).bytes(), 4, spec_u32_to_le_bytes(fld)),
            final(self).wf(),
            final(final(self).store)@ == final(old(self).store)@,
    {
        write_u32(self.store, 4, fld);
    }

}

/// View of the firmware structure `s_GSP_SEQ_BUF_PAYLOAD_REG_MODIFY` (12 bytes).
pub struct s_GSP_SEQ_BUF_PAYLOAD_REG_MODIFY<'s> {
    /// The buffer from the first byte of the structure to the end.
    pub store: &'s mut [u8],
}

impl<'s> s_GSP_SEQ_BUF_PAYLOAD_REG_MODIFY<'s> {
    /// The bytes seen through this view.
    pub open spec fn bytes(&self) -> Seq<u8> {
        self.store@
    }

    /// The buffer holds at least the whole structure.
    pub open spec fn wf(&self) -> bool {
        self.store@.len() >= 12
    }

    /// Size of the structure in bytes.
    pub fn str_size() -> (n: usize)
        ensures
            n == 12,
    {
        12
    }

    /// Views `store` as this structure, starting at its first byte.
    pub fn new(store: &'s mut [u8]) -> (r: Self)
        requires
            old(store)@.len() >= 12,
        ensures
            r.bytes() == old(store)@,
            r.wf(),
            final(store)@ == final(r.store)@,
    {
        Self { store }
    }

    /// Writes `fld` to the `addr` field (bytes 0..4) and gives the view back.
    pub fn addr(self, fld: u32) -> (r: Self)
        requires
            self.wf(),
        ensures
            r.bytes() == splice(self.bytes(), 0, spec_u32_to_le_bytes(fld)),
            r.wf(),
            final(r.store)@ == final(self.store)@,
    {
        write_u32(self.store, 0, fld);
        self
    }

    /// Reads the `addr` field (bytes 0..4).
    pub fn get_addr(&self) -> (r: u32)
        requires
            self.wf(),
        ensures
            r == u32_at(self.bytes(), 0),
    {
        read_u32(self.store, 0)
    }

    /// Writes `fld` to the `addr` field (bytes 0..4).
    pub fn set_addr(&mut self, fld: u32)
        requires
            old(self).wf(),
        ensures
            final(self).bytes() == splice(old(self).bytes(), 0, spec_u32_to_le_bytes(fld)),
            final(self).wf(),
            final(final(self).store)@ == final(old(self).store)@,
    {
        write_u32(self.store, 0, fld);
    }

    /// Writes `fld` to the `mask` field (bytes 4..8) and gives the view back.
    pub fn mask(self, fld: u32) -> (r: Self)
        requires
            self.wf(),
        ensures
            r.bytes() == splice(self.bytes(), 4, spec_u32_to_le_bytes(fld)),
            r.wf(),
            final(r.store)@ == final(self.store)@,
    {
        write_u32(self.store, 4, fld);
        self
    }

    /// Reads the `mask` field (bytes 4..8).
    pub fn get_mask(&self) -> (r: u32)
        requires
            self.wf(),
        ensures
            r == u32_at(self.bytes(), 4),
    {
        read_u32(self.store, 4)
    }

    /// Writes `fld` to the `mask` field (bytes 4..8).
    pub fn set_mask(&mut self, fld: u32)
        requires
            old(self).wf(),
        ensures
            final(self).bytes() == splice(old(self).bytes(), 4, spec_u32_to_le_bytes(fld)),
            final(self).wf(),
            final(final(self).store)@ == final(old(self).store)@,
    {
        write_u32(self.store, 4, fld);
    }

    /// Writes `fld` to the `val` field (bytes 8..12) and gives the view back.
    pub fn val(self, fld: u32) -> (r: Self)
        requires
            self.wf(),
        ensures
            r.bytes() == splice(self.bytes(), 8, spec_u32_to_le_bytes(fld)),
            r.wf(),
            final(r.store)@ == final(self.store)@,
    {
        write_u32(self.store, 8, fld);
        self
    }

    /// Reads the `val` field (bytes 8..12).
    pub fn get_val(&self) -> (r: u32)
        requires
            self.wf(),
        ensures
            r == u32_at(self.bytes(), 8),
    {
        read_u32(self.store, 8)
    }

    /// Writes `fld` to the `val` field (bytes 8..12).
    pub fn set_val(&mut self, fld: u32)
        requires
            old(self).wf(),
        ensures
            final(self).bytes() == splice(old(self).bytes(), 8, spec_u32_to_le_bytes(fld)),
            final(self).wf(),
            final(final(self).store)@ == final(old(self).store)@,
    {
        write_u32(self.store, 8, fld);
    }

}

/// View of the firmware structure `s_GSP_SEQ_BUF_PAYLOAD_REG_POLL` (20 bytes).
pub struct s_GSP_SEQ_BUF_PAYLOAD_REG_POLL<'s> {
    /// The buffer from the first byte of the structure to the end.
    pub store: &'s mut [u8],
}

impl<'s> s_GSP_SEQ_BUF_PAYLOAD_REG_POLL<'s> {
    /// The bytes seen through this view.
    pub open spec fn bytes(&self) -> Seq<u8> {
        self.store@
    }

    /// The buffer holds at least the whole structure.
    pub open spec fn wf(&self) -> bool {
        self.store@.len() >= 20
    }

    /// Size of the structure in bytes.
    pub fn str_size() -> (n: usize)
        ensures
            n == 20,
    {
        20
    }

    /// Views `store` as this structure, starting at its first byte.
    pub fn new(store: &'s mut [u8]) -> (r: Self)
        requires
            old(store)@.len() >= 20,
        ensures
            r.bytes() == old(store)@,
            r.wf(),
            final(store)@ == final(r.store)@,
    {
        Self { store }
    }

    /// Writes `fld` to the `addr` field (bytes 0..4) and gives the view back.
    pub fn addr(self, fld: u32) -> (r: Self)
        requires
            self.wf(),
        ensures
            r.bytes() == splice(self.bytes(), 0, spec_u32_to_le_bytes(fld)),
            r.wf(),
            final(r.store)@ == final(self.store)@,
    {
        write_u32(self.store, 0, fld);
        self
    }

    /// Reads the `addr` field (bytes 0..4).
    pub fn get_addr(&self) -> (r: u32)
        requires
            self.wf(),
        ensures
            r == u32_at(self.bytes(), 0),
    {
        read_u32(self.store, 0)
    }

    /// Writes `fld` to the `addr` field (bytes 0..4).
    pub fn set_addr(&mut self, fld: u32)
        requires
            old(self).wf(),
        ensures
            final(self).bytes() == splice(old(self).bytes(), 0, spec_u32_to_le_bytes(fld)),
            final(self).wf(),
            final(final(self).store)@ == final(old(self).store)@,
    {
        write_u32(self.store, 0, fld);
    }

    /// Writes `fld` to the `mask` field (bytes 4..8) and gives the view back.
    pub fn mask(self, fld: u32) -> (r: Self)
        requires
            self.wf(),
        ensures
            r.bytes() == splice(self.bytes(), 4, spec_u32_to_le_bytes(fld)),
            r.wf(),
            final(r.store)@ == final(self.store)@,
    {
        write_u32(self.store, 4, fld);
        self
    }

    /// Reads the `mask` field (bytes 4..8).
    pub fn get_mask(&self) -> (r: u32)
        requires
            self.wf(),
        ensures
            r == u32_at(self.bytes(), 4),
    {
        read_u32(self.store, 4)
    }

    /// Writes `fld` to the `mask` field (bytes 4..8).
    pub fn set_mask(&mut self, fld: u32)
        requires
            old(self).wf(),
        ensures
            final(self).bytes() == splice(old(self).bytes(), 4, spec_u32_to_le_bytes(fld)),
            final(self).wf(),
            final(final(self).store)@ == final(old(self).store)@,
    {
        write_u32(self.store, 4, fld);
    }

    /// Writes `fld` to the `val` field (bytes 8..12) and gives the view back.
    pub fn val(self, fld: u32) -> (r: Self)
        requires
            self.wf(),
        ensures
            r.bytes() == splice(self.bytes(), 8, spec_u32_to_le_bytes(fld)),
            r.wf(),
            final(r.store)@ == final(self.store)@,
    {
        write_u32(self.store, 8, fld);
        self
    }

    /// Reads the `val` field (bytes 8..12).
    pub fn get_val(&self) -> (r: u32)
        requires
            self.wf(),
        ensures
            r == u32_at(self.bytes(), 8),
    {
        read_u32(self.store, 8)
    }

    /// Writes `fld` to the `val` field (bytes 8..12).
    pub fn set_val(&mut self, fld: u32)
        requires
            old(self).wf(),
        ensures
            final(self).bytes() == splice(old(self).bytes(), 8, spec_u32_to_le_bytes(fld)),
            final(self).wf(),
            final(final(self).store)@ == final(old(self).store)@,
    {
        write_u32(self.store, 8, fld);
    }

    /// Writes `fld` to the `timeout` field (bytes 12..16) and gives the view back.
    pub fn timeout(self, fld: u32) -> (r: Self)
        requires
            self.wf(),
        ensures
            r.bytes() == splice(self.bytes(), 12, spec_u32_to_le_bytes(fld)),
            r.wf(),
            final(r.store)@ == final(self.store)@,
    {
        write_u32(self.store, 12, fld);
        self
    }

    /// Reads the `timeout` field (bytes 12..16).
    pub fn get_timeout(&self) -> (r: u32)
        requires
            self.wf(),
        ensures
            r == u32_at(self.bytes(), 12),
    {
        read_u32(self.store, 12)
    }

    /// Writes `fld` to the `timeout` field (bytes 12..16).
    pub fn set_timeout(&mut self, fld: u32)
        requires
            old(self).wf(),
        ensures
            final(self).bytes() == splice(old(self).bytes(), 12, spec_u32_to_le_bytes(fld)),
            final(self).wf(),
            final(final(self).store)@ == final(old(self).store)@,
    {
        write_u32(self.store, 12, fld);
    }

    /// Writes `fld` to the `error` field (bytes 16..20) and gives the view back.
    pub fn error(self, fld: u32) -> (r: Self)
        requires
            self.wf(),
        ensures
            r.bytes() == splice(self.bytes(), 16, spec_u32_to_le_bytes(fld)),
            r.wf(),
            final(r.store)@ == final(self.store)@,
    {
        write_u32(self.store, 16, fld);
        self
    }

    /// Reads the `error` field (bytes 16..20).
    pub fn get_error(&self) -> (r: u32)
        requires
            self.wf(),
        ensures
            r == u32_at(self.bytes(), 16),
    {
        read_u32(self.store, 16)
    }

    /// Writes `fld` to the `error` field (bytes 16..20).
    pub fn set_error(&mut self, fld: u32)
        requires
            old(self).wf(),
        ensures
            final(self).bytes() == splice(old(self).bytes(), 16, spec_u32_to_le_bytes(fld)),
            final(self).wf(),
            final(final(self).store)@ == final(old(self).store)@,
    {
        write_u32(self.store, 16, fld);
    }

}

/// View of the firmware structure `s_GSP_SEQ_BUF_PAYLOAD_DELAY_US` (4 bytes).
pub struct s_GSP_SEQ_BUF_PAYLOAD_DELAY_US<'s> {
    /// The buffer from the first byte of the structure to the end.
    pub store: &'s mut [u8],
}

impl<'s> s_GSP_SEQ_BUF_PAYLOAD_DELAY_US<'s> {
    /// The bytes seen through this view.
    pub open spec fn bytes(&self) -> Seq<u8> {
        self.store@
    }

    /// The buffer holds at least the whole structure.
    pub open spec fn wf(&self) -> bool {
        self.store@.len() >= 4
    }

    /// Size of the structure in bytes.
    pub fn str_size() -> (n: usize)
        ensures
            n == 4,
    {
        4
    }

    /// Views `store` as this structure, starting at its first byte.
    pub fn new(store: &'s mut [u8]) -> (r: Self)
        requires
            old(store)@.len() >= 4,
        ensures
            r.bytes() == old(store)@,
            r.wf(),
            final(store)@ == final(r.store)@,
    {
        Self { store }
    }

    /// Writes `fld` to the `val` field (bytes 0..4) and gives the view back.
    pub fn val(self, fld: u32) -> (r: Self)
        requires
            self.wf(),
        ensures
            r.bytes() == splice(self.bytes(), 0, spec_u32_to_le_bytes(fld)),
            r.wf(),
            final(r.store)@ == final(self.store)@,
    {
        write_u32(self.store, 0, fld);
        self
    }

    /// Reads the `val` field (bytes 0..4).
    pub fn get_val(&self) -> (r: u32)
        requires
            self.wf(),
        ensures
            r == u32_at(self.bytes(), 0),
    {
        read_u32(self.store, 0)
    }

    /// Writes `fld` to the `val` field (bytes 0..4).
    pub fn set_val(&mut self, fld: u32)
        requires
            old(self).wf(),
        ensures
            final(self).bytes() == splice(old(self).bytes(), 0, spec_u32_to_le_bytes(fld)),
            final(self).wf(),
            final(final(self).store)@ == final(old(self).store)@,
    {
        write_u32(self.store, 0, fld);
    }

}

/// View of the firmware structure `s_GSP_SEQ_BUF_PAYLOAD_REG_STORE` (8 bytes).
pub struct s_GSP_SEQ_BUF_PAYLOAD_REG_STORE<'s> {
    /// The buffer from the first byte of the structure to the end.
    pub store: &'s mut [u8],
}

impl<'s> s_GSP_SEQ_BUF_PAYLOAD_REG_STORE<'s> {
    /// The bytes seen through this view.
    pub open spec fn bytes(&self) -> Seq<u8> {
        self.store@
    }

    /// The buffer holds at least the whole structure.
    pub open spec fn wf(&self) -> bool {
        self.store@.len() >= 8
    }

    /// Size of the structure in bytes.
    pub fn str_size() -> (n: usize)
        ensures
            n == 8,
    {
        8
    }

    /// Views `store` as this structure, starting at its first byte.
    pub fn new(store: &'s mut [u8]) -> (r: Self)
        requires
            old(store)@.len() >= 8,
        ensures
            r.bytes() == old(store)@,
            r.wf(),
            final(store)@ == final(r.store)@,
    {
        Self { store }
    }

    /// Writes `fld` to the `addr` field (bytes 0..4) and gives the view back.
    pub fn addr(self, fld: u32) -> (r: Self)
        requires
            self.wf(),
        ensures
            r.bytes() == splice(self.bytes(), 0, spec_u32_to_le_bytes(fld)),
            r.wf(),
            final(r.store)@ == final(self.store)@,
    {
        write_u32(self.store, 0, fld);
        self
    }

    /// Reads the `addr` field (bytes 0..4).
    pub fn get_addr(&self) -> (r: u32)
        requires
            self.wf(),
        ensures
            r == u32_at(self.bytes(), 0),
    {
        read_u32(self.store, 0)
    }

    /// Writes `fld` to the `addr` field (bytes 0..4).
    pub fn set_addr(&mut self, fld: u32)
        requires
            old(self).wf(),
        ensures
            final(self).bytes() == splice(old(self).bytes(), 0, spec_u32_to_le_bytes(fld)),
            final(self).wf(),
            final(final(self).store)@ == final(old(self).store)@,
    {
        write_u32(self.store, 0, fld);
    }

    /// Writes `fld` to the `index` field (bytes 4..8) and gives the view back.
    pub fn index(self, fld: u32) -> (r: Self)
        requires
            self.wf(),
        ensures
            r.bytes() == splice(self.bytes(), 4, spec_u32_to_le_bytes(fld)),
            r.wf(),
            final(r.store)@ == final(self.store)@,
    {
        write_u32(self.store, 4, fld);
        self
    }

    /// Reads the `index` field (bytes 4..8).
    pub fn get_index(&self) -> (r: u32)
        requires
            self.wf(),
        ensures
            r == u32_at(self.bytes(), 4),
    {
        read_u32(self.store, 4)
    }

    /// Writes `fld` to the `index` field (bytes 4..8).
    pub fn set_index(&mut self, fld: u32)
        requires
            old(self).wf(),
        ensures
            final(self).bytes() == splice(old(self).bytes(), 4, spec_u32_to_le_bytes(fld)),
            final(self).wf(),
            final(final(self).store)@ == final(old(self).store)@,
    {
        write_u32(self.store, 4, fld);
    }

}

/// View of the firmware structure `s_GSP_SEQUENCER_BUFFER_CMD` (24 bytes).
pub struct s_GSP_SEQUENCER_BUFFER_CMD<'s> {
    /// The buffer from the first byte of the structure to the end.
    pub store: &'s mut [u8],
}

impl<'s> s_GSP_SEQUENCER_BUFFER_CMD<'s> {
    /// The bytes seen through this view.
    pub open spec fn bytes(&self) -> Seq<u8> {
        self.store@
    }

    /// The buffer holds at least the whole structure.
    pub open spec fn wf(&self) -> bool {
        self.store@.len() >= 24
    }

    /// Size of the structure in bytes.
    pub fn str_size() -> (n: usize)
        ensures
            n == 24,
    {
        24
    }

    /// Views `store` as this structure, starting at its first byte.
    pub fn new(store: &'s mut [u8]) -> (r: Self)
        requires
            old(store)@.len() >= 24,
        ensures
            r.bytes() == old(store)@,
            r.wf(),
            final(store)@ == final(r.store)@,
    {
        Self { store }
    }

    /// Writes `fld` to the `opCode` field (bytes 0..4) and gives the view back.
    pub fn opCode(self, fld: u32) -> (r: Self)
        requires
            self.wf(),
        ensures
            r.bytes() == splice(self.bytes(), 0, spec_u32_to_le_bytes(fld)),
            r.wf(),
            final(r.store)@ == final(self.store)@,
    {
        write_u32(self.store, 0, fld);
        self
    }

    /// Reads the `opCode` field (bytes 0..4).
    pub fn get_opCode(&self) -> (r: u32)
        requires
            self.wf(),
        ensures
            r == u32_at(self.bytes(), 0),
    {
        read_u32(self.store, 0)
    }

    /// Writes `fld` to the `opCode` field (bytes 0..4).
    pub fn set_opCode(&mut self, fld: u32)
        requires
            old(self).wf(),
        ensures
            final(self).bytes() == splice(old(self).bytes(), 0, spec_u32_to_le_bytes(fld)),
            final(self).wf(),
            final(final(self).store)@ == final(old(self).store)@,
    {
        write_u32(self.store, 0, fld);
    }

    /// View of the `payload_regWrite` substructure at byte 4.
    pub fn new_S_payload_regWrite(&mut self) -> (r: s_GSP_SEQ_BUF_PAYLOAD_REG_WRITE<'_>)
        requires
            old(self).wf(),
        ensures
            r.bytes() == old(self).bytes().subrange(4, old(self).bytes().len() as int),
            r.wf(),
            final(self).bytes() == old(self).bytes().subrange(0, 4) + final(r.store)@,
            final(final(self).store)@ == final(old(self).store)@,
    {
        let (_head, tail) = self.store.split_at_mut(4);
        s_GSP_SEQ_BUF_PAYLOAD_REG_WRITE { store: tail }
    }

    /// View of the `payload_regModify` substructure at byte 4.
    pub fn new_S_payload_regModify(&mut self) -> (r: s_GSP_SEQ_BUF_PAYLOAD_REG_MODIFY<'_>)
        requires
            old(self).wf(),
        ensures
            r.bytes() == old(self).bytes().subrange(4, old(self).bytes().len() as int),
            r.wf(),
            final(self).bytes() == old(self).bytes().subrange(0, 4) + final(r.store)@,
            final(final(self).store)@ == final(old(self).store)@,
    {
        let (_head, tail) = self.store.split_at_mut(4);
        s_GSP_SEQ_BUF_PAYLOAD_REG_MODIFY { store: tail }
    }

    /// View of the `payload_regPoll` substructure at byte 4.
    pub fn new_S_payload_regPoll(&mut self) -> (r: s_GSP_SEQ_BUF_PAYLOAD_REG_POLL<'_>)
        requires
            old(self).wf(),
        ensures
            r.bytes() == old(self).bytes().subrange(4, old(self).bytes().len() as int),
            r.wf(),
            final(self).bytes() == old(self).bytes().subrange(0, 4) + final(r.store)@,
            final(final(self).store)@ == final(old(self).store)@,
    {
        let (_head, tail) = self.store.split_at_mut(4);
        s_GSP_SEQ_BUF_PAYLOAD_REG_POLL { store: tail }
    }

    /// View of the `payload_delayUs` substructure at byte 4.
    pub fn new_S_payload_delayUs(&mut self) -> (r: s_GSP_SEQ_BUF_PAYLOAD_DELAY_US<'_>)
        requires
            old(self).wf(),
        ensures
            r.bytes() == old(self).bytes().subrange(4, old(self).bytes().len() as int),
            r.wf(),
            final(self).bytes() == old(self).bytes().subrange(0, 4) + final(r.store)@,
            final(final(self).store)@ == final(old(self).store)@,
    {
        let (_head, tail) = self.store.split_at_mut(4);
        s_GSP_SEQ_BUF_PAYLOAD_DELAY_US { store: tail }
    }

    /// View of the `payload_regStore` substructure at byte 4.
    pub fn new_S_payload_regStore(&mut self) -> (r: s_GSP_SEQ_BUF_PAYLOAD_REG_STORE<'_>)
        requires
            old(self).wf(),
        ensures
            r.bytes() == old(self).bytes().subrange(4, old(self).bytes().len() as int),
            r.wf(),
            final(self).bytes() == old(self).bytes().subrange(0, 4) + final(r.store)@,
            final(final(self).store)@ == final(old(self).store)@,
    {
        let (_head, tail) = self.store.split_at_mut(4);
        s_GSP_SEQ_BUF_PAYLOAD_REG_STORE { store: tail }
    }

}

/// View of the firmware structure `s_rpc_run_cpu_sequencer_v17_00` (40 bytes).
pub struct s_rpc_run_cpu_sequencer_v17_00<'s> {
    /// The buffer from the first byte of the structure to the end.
    pub store: &'s mut [u8],
}

impl<'s> s_rpc_run_cpu_sequencer_v17_00<'s> {
    /// The bytes seen through this view.
    pub open spec fn bytes(&self) -> Seq<u8> {
        self.store@
    }

    /// The buffer holds at least the whole structure.
    pub open spec fn wf(&self) -> bool {
        self.store@.len() >= 40
    }

    /// Size of the structure in bytes.
    pub fn str_size() -> (n: usize)
        ensures
            n == 40,
    {
        40
    }

    /// Views `store` as this structure, starting at its first byte.
    pub fn new(store: &'s mut [u8]) -> (r: Self)
        requires
            old(store)@.len() >= 40,
        ensures
            r.bytes() == old(store)@,
            r.wf(),
            final(store)@ == final(r.store)@,
    {
        Self { store }
    }

    /// Writes `fld` to the `bufferSizeDWord` field (bytes 0..4) and gives the view back.
    pub fn bufferSizeDWord(self, fld: u32) -> (r: Self)
        requires
            self.wf(),
        ensures
            r.bytes() == splice(self.bytes(), 0, spec_u32_to_le_bytes(fld)),
            r.wf(),
            final(r.store)@ == final(self.store)@,
    {
        write_u32(self.store, 0, fld);
        self
    }

    /// Reads the `bufferSizeDWord` field (bytes 0..4).
    pub fn get_bufferSizeDWord(&self) -> (r: u32)
        requires
            self.wf(),
        ensures
            r == u32_at(self.bytes(), 0),
    {
        read_u32(self.store, 0)
    }

    /// Writes `fld` to the `bufferSizeDWord` field (bytes 0..4).
    pub fn set_bufferSizeDWord(&mut self, fld: u32)
        requires
            old(self).wf(),
        ensures
            final(self).bytes() == splice(old(self).bytes(), 0, spec_u32_to_le_bytes(fld)),
            final(self).wf(),
            final(final(self).store)@ == final(old(self).store)@,
    {
        write_u32(self.store, 0, fld);
    }

    /// Writes `fld` to the `cmdIndex` field (bytes 4..8) and gives the view back.
    pub fn cmdIndex(self, fld: u32) -> (r: Self)
        requires
            self.wf(),
        ensures
            r.bytes() == splice(self.bytes(), 4, spec_u32_to_le_bytes(fld)),
            r.wf(),
            final(r.store)@ == final(self.store)@,
    {
        write_u32(self.store, 4, fld);
        self
    }

    /// Reads the `cmdIndex` field (bytes 4..8).
    pub fn get_cmdIndex(&self) -> (r: u32)
        requires
            self.wf(),
        ensures
            r == u32_at(self.bytes(), 4),
    {
        read_u32(self.store, 4)
    }

    /// Writes `fld` to the `cmdIndex` field (bytes 4..8).
    pub fn set_cmdIndex(&mut self, fld: u32)
        requires
            old(self).wf(),
        ensures
            final(self).bytes() == splice(old(self).bytes(), 4, spec_u32_to_le_bytes(fld)),
            final(self).wf(),
            final(final(self).store)@ == final(old(self).store)@,
    {
        write_u32(self.store, 4, fld);
    }

    /// Writes `fld` to the `regSaveArea` field (bytes 8..40) and gives the view back.
    pub fn regSaveArea(self, fld: [u32; 8]) -> (r: Self)
        requires
            self.wf(),
        ensures
            r.bytes() == splice(self.bytes(), 8, u32s_to_le(fld@)),
            r.wf(),
            final(r.store)@ == final(self.store)@,
    {
        write_u32s(self.store, 8, &fld);
        self
    }

    /// Writes `fld` to the `regSaveArea` field (bytes 8..40).
    pub fn set_regSaveArea(&mut self, fld: [u32; 8])
        requires
            old(self).wf(),
        ensures
            final(self).bytes() == splice(old(self).bytes(), 8, u32s_to_le(fld@)),
            final(self).wf(),
            final(final(self).store)@ == final(old(self).store)@,
    {
        write_u32s(self.store, 8, &fld);
    }

    /// Reads the `regSaveArea` array (bytes 8..40).
    pub fn get_regSaveArea(&mut self) -> (r: [u32; 8])
        requires
            old(self).wf(),
        ensures
            r@ == u32s_at(old(self).bytes(), 8, 8),
            final(self).bytes() == old(self).bytes(),
            final(final(self).store)@ == final(old(self).store)@,
    {
        read_u32s(self.store, 8)
    }

}

/// View of the firmware structure `s_rpc_post_event_v17_00` (32 bytes).
pub struct s_rpc_post_event_v17_00<'s> {
    /// The buffer from the first byte of the structure to the end.
    pub store: &'s mut [u8],
}

impl<'s> s_rpc_post_event_v17_00<'s> {
    /// The bytes seen through this view.
    pub open spec fn bytes(&self) -> Seq<u8> {
        self.store@
    }

    /// The buffer holds at least the whole structure.
    pub open spec fn wf(&self) -> bool {
        self.store@.len() >= 32
    }

    /// Size of the structure in bytes.
    pub fn str_size() -> (n: usize)
        ensures
            n == 32,
    {
        32
    }

    /// Views `store` as this structure, starting at its first byte.
    pub fn new(store: &'s mut [u8]) -> (r: Self)
        requires
            old(store)@.len() >= 32,
        ensures
            r.bytes() == old(store)@,
            r.wf(),
            final(store)@ == final(r.store)@,
    {
        Self { store }
    }

    /// Writes `fld` to the `hClient` field (bytes 0..4) and gives the view back.
    pub fn hClient(self, fld: u32) -> (r: Self)
        requires
            self.wf(),
        ensures
            r.bytes() == splice(self.bytes(), 0, spec_u32_to_le_bytes(fld)),
            r.wf(),
            final(r.store)@ == final(self.store)@,
    {
        write_u32(self.store, 0, fld);
        self
    }

    /// Reads the `hClient` field (bytes 0..4).
    pub fn get_hClient(&self) -> (r: u32)
        requires
            self.wf(),
        ensures
            r == u32_at(self.bytes(), 0),
    {
        read_u32(self.store, 0)
    }

    /// Writes `fld` to the `hClient` field (bytes 0..4).
    pub fn set_hClient(&mut self, fld: u32)
        requires
            old(self).wf(),
        ensures
            final(self).bytes() == splice(old(self).bytes(), 0, spec_u32_to_le_bytes(fld)),
            final(self).wf(),
            final(final(self).store)@ == final(old(self).store)@,
    {
        write_u32(self.store, 0, fld);
    }

    /// Writes `fld` to the `hEvent` field (bytes 4..8) and gives the view back.
    pub fn hEvent(self, fld: u32) -> (r: Self)
        requires
            self.wf(),
        ensures
            r.bytes() == splice(self.bytes(), 4, spec_u32_to_le_bytes(fld)),
            r.wf(),
            final(r.store)@ == final(self.store)@,
    {
        write_u32(self.store, 4, fld);
        self
    }

    /// Reads the `hEvent` field (bytes 4..8).
    pub fn get_hEvent(&self) -> (r: u32)
        requires
            self.wf(),
        ensures
            r == u32_at(self.bytes(), 4),
    {
        read_u32(self.store, 4)
    }

    /// Writes `fld` to the `hEvent` field (bytes 4..8).
    pub fn set_hEvent(&mut self, fld: u32)
        requires
            old(self).wf(),
        ensures
            final(self).bytes() == splice(old(self).bytes(), 4, spec_u32_to_le_bytes(fld)),
            final(self).wf(),
            final(final(self).store)@ == final(old(self).store)@,
    {
        write_u32(self.store, 4, fld);
    }

    /// Writes `fld` to the `notifyIndex` field (bytes 8..12) and gives the view back.
    pub fn notifyIndex(self, fld: u32) -> (r: Self)
        requires
            self.wf(),
        ensures
            r.bytes() == splice(self.bytes(), 8, spec_u32_to_le_bytes(fld)),
            r.wf(),
            final(r.store)@ == final(self.store)@,
    {
        write_u32(self.store, 8, fld);
        self
    }

    /// Reads the `notifyIndex` field (bytes 8..12).
    pub fn get_notifyIndex(&self) -> (r: u32)
        requires
            self.wf(),
        ensures
            r == u32_at(self.bytes(), 8),
    {
        read_u32(self.store, 8)
    }

    /// Writes `fld` to the `notifyIndex` field (bytes 8..12).
    pub fn set_notifyIndex(&mut self, fld: u32)
        requires
            old(self).wf(),
        ensures
            final(self).bytes() == splice(old(self).bytes(), 8, spec_u32_to_le_bytes(fld)),
            final(self).wf(),
            final(final(self).store)@ == final(old(self).store)@,
    {
        write_u32(self.store, 8, fld);
    }

    /// Writes `fld` to the `data` field (bytes 12..16) and gives the view back.
    pub fn data(self, fld: u32) -> (r: Self)
        requires
            self.wf(),
        ensures
            r.bytes() == splice(self.bytes(), 12, spec_u32_to_le_bytes(fld)),
            r.wf(),
            final(r.store)@ == final(self.store)@,
    {
        write_u32(self.store, 12, fld);
        self
    }

    /// Reads the `data` field (bytes 12..16).
    pub fn get_data(&self) -> (r: u32)
        requires
            self.wf(),
        ensures
            r == u32_at(self.bytes(), 12),
    {
        read_u32(self.store, 12)
    }

    /// Writes `fld` to the `data` field (bytes 12..16).
    pub fn set_data(&mut self, fld: u32)
        requires
            old(self).wf(),
        ensures
            final(self).bytes() == splice(old(self).bytes(), 12, spec_u32_to_le_bytes(fld)),
            final(self).wf(),
            final(final(self).store)@ == final(old(self).store)@,
    {
        write_u32(self.store, 12, fld);
    }

    /// Writes `fld` to the `info16` field (bytes 16..18) and gives the view back.
    pub fn info16(self, fld: u16) -> (r: Self)
        requires
            self.wf(),
        ensures
            r.bytes() == splice(self.bytes(), 16, spec_u16_to_le_bytes(fld)),
            r.wf(),
            final(r.store)@ == final(self.store)@,
    {
        write_u16(self.store, 16, fld);
        self
    }

    /// Reads the `info16` field (bytes 16..18).
    pub fn get_info16(&self) -> (r: u16)
        requires
            self.wf(),
        ensures
            r == u16_at(self.bytes(), 16),
    {
        read_u16(self.store, 16)
    }

    /// Writes `fld` to the `info16` field (bytes 16..18).
    pub fn set_info16(&mut self, fld: u16)
        requires
            old(self).wf(),
        ensures
            final(self).bytes() == splice(old(self).bytes(), 16, spec_u16_to_le_bytes(fld)),
            final(self).wf(),
            final(final(self).store)@ == final(old(self).store)@,
    {
        write_u16(self.store, 16, fld);
    }

    /// Writes `fld` to the `status` field (bytes 20..24) and gives the view back.
    pub fn status(self, fld: u32) -> (r: Self)
        requires
            self.wf(),
        ensures
            r.bytes() == splice(self.bytes(), 20, spec_u32_to_le_bytes(fld)),
            r.wf(),
            final(r.store)@ == final(self.store)@,
    {
        write_u32(self.store, 20, fld);
        self
    }

    /// Reads the `status` field (bytes 20..24).
    pub fn get_status(&self) -> (r: u32)
        requires
            self.wf(),
        ensures
            r == u32_at(self.bytes(), 20),
    {
        read_u32(self.store, 20)
    }

    /// Writes `fld` to the `status` field (bytes 20..24).
    pub fn set_status(&mut self, fld: u32)
        requires
            old(self).wf(),
        ensures
            final(self).bytes() == splice(old(self).bytes(), 20, spec_u32_to_le_bytes(fld)),
            final(self).wf(),
            final(final(self).store)@ == final(old(self).store)@,
    {
        write_u32(self.store, 20, fld);
    }

    /// Writes `fld` to the `eventDataSize` field (bytes 24..28) and gives the view back.
    pub fn eventDataSize(self, fld: u32) -> (r: Self)
        requires
            self.wf(),
        ensures
            r.bytes() == splice(self.bytes(), 24, spec_u32_to_le_bytes(fld)),
            r.wf(),
            final(r.store)@ == final(self.store)@,
    {
        write_u32(self.store, 24, fld);
        self
    }

    /// Reads the `eventDataSize` field (bytes 24..28).
    pub fn get_eventDataSize(&self) -> (r: u32)
        requires
            self.wf(),
        ensures
            r == u32_at(self.bytes(), 24),
    {
        read_u32(self.store, 24)
    }

    /// Writes `fld` to the `eventDataSize` field (bytes 24..28).
    pub fn set_eventDataSize(&mut self, fld: u32)
        requires
            old(self).wf(),
        ensures
            final(self).bytes() == splice(old(self).bytes(), 24, spec_u32_to_le_bytes(fld)),
            final(self).wf(),
            final(final(self).store)@ == final(old(self).store)@,
    {
        write_u32(self.store, 24, fld);
    }

    /// Writes `fld` to the `bNotifyList` field (bytes 28..29) and gives the view back.
    pub fn bNotifyList(self, fld: u8) -> (r: Self)
        requires
            self.wf(),
        ensures
            r.bytes() == splice(self.bytes(), 28, seq![fld]),
            r.wf(),
            final(r.store)@ == final(self.store)@,
    {
        write_u8(self.store, 28, fld);
        self
    }

    /// Reads the `bNotifyList` field (bytes 28..29).
    pub fn get_bNotifyList(&self) -> (r: u8)
        requires
            self.wf(),
        ensures
            r == self.bytes()[28],
    {
        read_u8(self.store, 28)
    }

    /// Writes `fld` to the `bNotifyList` field (bytes 28..29).
    pub fn set_bNotifyList(&mut self, fld: u8)
        requires
            old(self).wf(),
        ensures
            final(self).bytes() == splice(old(self).bytes(), 28, seq![fld]),
            final(self).wf(),
            final(final(self).store)@ == final(old(self).store)@,
    {
        write_u8(self.store, 28, fld);
    }

}

/// View of the firmware structure `s_rpc_os_error_log_v17_00` (272 bytes).
pub struct s_rpc_os_error_log_v17_00<'s> {
    /// The buffer from the first byte of the structure to the end.
    pub store: &'s mut [u8],
}

impl<'s> s_rpc_os_error_log_v17_00<'s> {
    /// The bytes seen through this view.
    pub open spec fn bytes(&self) -> Seq<u8> {
        self.store@
    }

    /// The buffer holds at least the whole structure.
    pub open spec fn wf(&self) -> bool {
        self.store@.len() >= 272
    }

    /// Size of the structure in bytes.
    pub fn str_size() -> (n: usize)
        ensures
            n == 272,
    {
        272
    }

    /// Views `store` as this structure, starting at its first byte.
    pub fn new(store: &'s mut [u8]) -> (r: Self)
        requires
            old(store)@.len() >= 272,
        ensures
            r.bytes() == old(store)@,
            r.wf(),
            final(store)@ == final(r.store)@,
    {
        Self { store }
    }

    /// Writes `fld` to the `exceptType` field (bytes 0..4) and gives the view back.
    pub fn exceptType(self, fld: u32) -> (r: Self)
        requires
            self.wf(),
        ensures
            r.bytes() == splice(self.bytes(), 0, spec_u32_to_le_bytes(fld)),
            r.wf(),
            final(r.store)@ == final(self.store)@,
    {
        write_u32(self.store, 0, fld);
        self
    }

    /// Reads the `exceptType` field (bytes 0..4).
    pub fn get_exceptType(&self) -> (r: u32)
        requires
            self.wf(),
        ensures
            r == u32_at(self.bytes(), 0),
    {
        read_u32(self.store, 0)
    }

    /// Writes `fld` to the `exceptType` field (bytes 0..4).
    pub fn set_exceptType(&mut self, fld: u32)
        requires
            old(self).wf(),
        ensures
            final(self).bytes() == splice(old(self).bytes(), 0, spec_u32_to_le_bytes(fld)),
            final(self).wf(),
            final(final(self).store)@ == final(old(self).store)@,
    {
        write_u32(self.store, 0, fld);
    }

    /// Writes `fld` to the `runlistId` field (bytes 4..8) and gives the view back.
    pub fn runlistId(self, fld: u32) -> (r: Self)
        requires
            self.wf(),
        ensures
            r.bytes() == splice(self.bytes(), 4, spec_u32_to_le_bytes(fld)),
            r.wf(),
            final(r.store)@ == final(self.store)@,
    {
        write_u32(self.store, 4, fld);
        self
    }

    /// Reads the `runlistId` field (bytes 4..8).
    pub fn get_runlistId(&self) -> (r: u32)
        requires
            self.wf(),
        ensures
            r == u32_at(self.bytes(), 4),
    {
        read_u32(self.store, 4)
    }

    /// Writes `fld` to the `runlistId` field (bytes 4..8).
    pub fn set_runlistId(&mut self, fld: u32)
        requires
            old(self).wf(),
        ensures
            final(self).bytes() == splice(old(self).bytes(), 4, spec_u32_to_le_bytes(fld)),
            final(self).wf(),
            final(final(self).store)@ == final(old(self).store)@,
    {
        write_u32(self.store, 4, fld);
    }

    /// Writes `fld` to the `chid` field (bytes 8..12) and gives the view back.
    pub fn chid(self, fld: u32) -> (r: Self)
        requires
            self.wf(),
        ensures
            r.bytes() == splice(self.bytes(), 8, spec_u32_to_le_bytes(fld)),
            r.wf(),
            final(r.store)@ == final(self.store)@,
    {
        write_u32(self.store, 8, fld);
        self
    }

    /// Reads the `chid` field (bytes 8..12).
    pub fn get_chid(&self) -> (r: u32)
        requires
            self.wf(),
        ensures
            r == u32_at(self.bytes(), 8),
    {
        read_u32(self.store, 8)
    }

    /// Writes `fld` to the `chid` field (bytes 8..12).
    pub fn set_chid(&mut self, fld: u32)
        requires
            old(self).wf(),
        ensures
            final(self).bytes() == splice(old(self).bytes(), 8, spec_u32_to_le_bytes(fld)),
            final(self).wf(),
            final(final(self).store)@ == final(old(self).store)@,
    {
        write_u32(self.store, 8, fld);
    }

    /// Writes `fld` to the `errString` field (bytes 12..268) and gives the view back.
    pub fn errString(self, fld: [u8; 256]) -> (r: Self)
        requires
            self.wf(),
        ensures
            r.bytes() == splice(self.bytes(), 12, fld@),
            r.wf(),
            final(r.store)@ == final(self.store)@,
    {
        write_u8s(self.store, 12, &fld);
        self
    }

    /// Writes `fld` to the `errString` field (bytes 12..268).
    pub fn set_errString(&mut self, fld: [u8; 256])
        requires
            old(self).wf(),
        ensures
            final(self).bytes() == splice(old(self).bytes(), 12, fld@),
            final(self).wf(),
            final(final(self).store)@ == final(old(self).store)@,
    {
        write_u8s(self.store, 12, &fld);
    }

    /// Reads the `errString` array (bytes 12..268).
    pub fn get_errString(&mut self) -> (r: [u8; 256])
        requires
            old(self).wf(),
        ensures
            r@ == old(self).bytes().subrange(12, 268),
            final(self).bytes() == old(self).bytes(),
            final(final(self).store)@ == final(old(self).store)@,
    {
        read_u8s(self.store, 12)
    }

    /// Writes `fld` to the `preemptiveRemovalPreviousXid` field (bytes 268..272) and gives the view back.
    pub fn preemptiveRemovalPreviousXid(self, fld: u32) -> (r: Self)
        requires
            self.wf(),
        ensures
            r.bytes() == splice(self.bytes(), 268, spec_u32_to_le_bytes(fld)),
            r.wf(),
            final(r.store)@ == final(self.store)@,
    {
        write_u32(self.store, 268, fld);
        self
    }

    /// Reads the `preemptiveRemovalPreviousXid` field (bytes 268..272).
    pub fn get_preemptiveRemovalPreviousXid(&self) -> (r: u32)
        requires
            self.wf(),
        ensures
            r == u32_at(self.bytes(), 268),
    {
        read_u32(self.store, 268)
    }

    /// Writes `fld` to the `preemptiveRemovalPreviousXid` field (bytes 268..272).
    pub fn set_preemptiveRemovalPreviousXid(&mut self, fld: u32)
        requires
            old(self).wf(),
        ensures
            final(self).bytes() == splice(old(self).bytes(), 268, spec_u32_to_le_bytes(fld)),
            final(self).wf(),
            final(final(self).store)@ == final(old(self).store)@,
    {
        write_u32(self.store, 268, fld);
    }

}

/// View of the firmware structure `s_rpc_gsp_post_nocat_record_v01_00` (4 bytes).
pub struct s_rpc_gsp_post_nocat_record_v01_00<'s> {
    /// The buffer from the first byte of the structure to the end.
    pub store: &'s mut [u8],
}

impl<'s> s_rpc_gsp_post_nocat_record_v01_00<'s> {
    /// The bytes seen through this view.
    pub open spec fn bytes(&self) -> Seq<u8> {
        self.store@
    }

    /// The buffer holds at least the whole structure.
    pub open spec fn wf(&self) -> bool {
        self.store@.len() >= 4
    }

    /// Size of the structure in bytes.
    pub fn str_size() -> (n: usize)
        ensures
            n == 4,
    {
        4
    }

    /// Views `store` as this structure, starting at its first byte.
    pub fn new(store: &'s mut [u8]) -> (r: Self)
        requires
            old(store)@.len() >= 4,
        ensures
            r.bytes() == old(store)@,
            r.wf(),
            final(store)@ == final(r.store)@,
    {
        Self { store }
    }

    /// Writes `fld` to the `data` field (bytes 0..4) and gives the view back.
    pub fn data(self, fld: u32) -> (r: Self)
        requires
            self.wf(),
        ensures
            r.bytes() == splice(self.bytes(), 0, spec_u32_to_le_bytes(fld)),
            r.wf(),
            final(r.store)@ == final(self.store)@,
    {
        write_u32(self.store, 0, fld);
        self
    }

    /// Reads the `data` field (bytes 0..4).
    pub fn get_data(&self) -> (r: u32)
        requires
            self.wf(),
        ensures
            r == u32_at(self.bytes(), 0),
    {
        read_u32(self.store, 0)
    }

    /// Writes `fld` to the `data` field (bytes 0..4).
    pub fn set_data(&mut self, fld: u32)
        requires
            old(self).wf(),
        ensures
            final(self).bytes() == splice(old(self).bytes(), 0, spec_u32_to_le_bytes(fld)),
            final(self).wf(),
            final(final(self).store)@ == final(old(self).store)@,
    {
        write_u32(self.store, 0, fld);
    }

}

/// View of the firmware structure `s_rpc_unloading_guest_driver_v1F_07` (8 bytes).
pub struct s_rpc_unloading_guest_driver_v1F_07<'s> {
    /// The buffer from the first byte of the structure to the end.
    pub store: &'s mut [u8],
}

impl<'s> s_rpc_unloading_guest_driver_v1F_07<'s> {
    /// The bytes seen through this view.
    pub open spec fn bytes(&self) -> Seq<u8> {
        self.store@
    }

    /// The buffer holds at least the whole structure.
    pub open spec fn wf(&self) -> bool {
        self.store@.len() >= 8
    }

    /// Size of the structure in bytes.
    pub fn str_size() -> (n: usize)
        ensures
            n == 8,
    {
        8
    }

    /// Views `store` as this structure, starting at its first byte.
    pub fn new(store: &'s mut [u8]) -> (r: Self)
        requires
            old(store)@.len() >= 8,
        ensures
            r.bytes() == old(store)@,
            r.wf(),
            final(store)@ == final(r.store)@,
    {
        Self { store }
    }

    /// Writes `fld` to the `bInPMTransition` field (bytes 0..1) and gives the view back.
    pub fn bInPMTransition(self, fld: u8) -> (r: Self)
        requires
            self.wf(),
        ensures
            r.bytes() == splice(self.bytes(), 0, seq![fld]),
            r.wf(),
            final(r.store)@ == final(self.store)@,
    {
        write_u8(self.store, 0, fld);
        self
    }

    /// Reads the `bInPMTransition` field (bytes 0..1).
    pub fn get_bInPMTransition(&self) -> (r: u8)
        requires
            self.wf(),
        ensures
            r == self.bytes()[0],
    {
        read_u8(self.store, 0)
    }

    /// Writes `fld` to the `bInPMTransition` field (bytes 0..1).
    pub fn set_bInPMTransition(&mut self, fld: u8)
        requires
            old(self).wf(),
        ensures
            final(self).bytes() == splice(old(self).bytes(), 0, seq![fld]),
            final(self).wf(),
            final(final(self).store)@ == final(old(self).store)@,
    {
        write_u8(self.store, 0, fld);
    }

    /// Writes `fld` to the `bGc6Entering` field (bytes 1..2) and gives the view back.
    pub fn bGc6Entering(self, fld: u8) -> (r: Self)
        requires
            self.wf(),
        ensures
            r.bytes() == splice(self.bytes(), 1, seq![fld]),
            r.wf(),
            final(r.store)@ == final(self.store)@,
    {
        write_u8(self.store, 1, fld);
        self
    }

    /// Reads the `bGc6Entering` field (bytes 1..2).
    pub fn get_bGc6Entering(&self) -> (r: u8)
        requires
            self.wf(),
        ensures
            r == self.bytes()[1],
    {
        read_u8(self.store, 1)
    }

    /// Writes `fld` to the `bGc6Entering` field (bytes 1..2).
    pub fn set_bGc6Entering(&mut self, fld: u8)
        requires
            old(self).wf(),
        ensures
            final(self).bytes() == splice(old(self).bytes(), 1, seq![fld]),
            final(self).wf(),
            final(final(self).store)@ == final(old(self).store)@,
    {
        write_u8(self.store, 1, fld);
    }

    /// Writes `fld` to the `newLevel` field (bytes 4..8) and gives the view back.
    pub fn newLevel(self, fld: u32) -> (r: Self)
        requires
            self.wf(),
        ensures
            r.bytes() == splice(self.bytes(), 4, spec_u32_to_le_bytes(fld)),
            r.wf(),
            final(r.store)@ == final(self.store)@,
    {
        write_u32(self.store, 4, fld);
        self
    }

    /// Reads the `newLevel` field (bytes 4..8).
    pub fn get_newLevel(&self) -> (r: u32)
        requires
            self.wf(),
        ensures
            r == u32_at(self.bytes(), 4),
    {
        read_u32(self.store, 4)
    }

    /// Writes `fld` to the `newLevel` field (bytes 4..8).
    pub fn set_newLevel(&mut self, fld: u32)
        requires
            old(self).wf(),
        ensures
            final(self).bytes() == splice(old(self).bytes(), 4, spec_u32_to_le_bytes(fld)),
            final(self).wf(),
            final(final(self).store)@ == final(old(self).store)@,
    {
        write_u32(self.store, 4, fld);
    }

}

/// View of the firmware structure `s_rpc_rc_triggered_v17_02` (48 bytes).
pub struct s_rpc_rc_triggered_v17_02<'s> {
    /// The buffer from the first byte of the structure to the end.
    pub store: &'s mut [u8],
}

impl<'s> s_rpc_rc_triggered_v17_02<'s> {
    /// The bytes seen through this view.
    pub open spec fn bytes(&self) -> Seq<u8> {
        self.store@
    }

    /// The buffer holds at least the whole structure.
    pub open spec fn wf(&self) -> bool {
        self.store@.len() >= 48
    }

    /// Size of the structure in bytes.
    pub fn str_size() -> (n: usize)
        ensures
            n == 48,
    {
        48
    }

    /// Views `store` as this structure, starting at its first byte.
    pub fn new(store: &'s mut [u8]) -> (r: Self)
        requires
            old(store)@.len() >= 48,
        ensures
            r.bytes() == old(store)@,
            r.wf(),
            final(store)@ == final(r.store)@,
    {
        Self { store }
    }

    /// Writes `fld` to the `nv2080EngineType` field (bytes 0..4) and gives the view back.
    pub fn nv2080EngineType(self, fld: u32) -> (r: Self)
        requires
            self.wf(),
        ensures
            r.bytes() == splice(self.bytes(), 0, spec_u32_to_le_bytes(fld)),
            r.wf(),
            final(r.store)@ == final(self.store)@,
    {
        write_u32(self.store, 0, fld);
        self
    }

    /// Reads the `nv2080EngineType` field (bytes 0..4).
    pub fn get_nv2080EngineType(&self) -> (r: u32)
        requires
            self.wf(),
        ensures
            r == u32_at(self.bytes(), 0),
    {
        read_u32(self.store, 0)
    }

    /// Writes `fld` to the `nv2080EngineType` field (bytes 0..4).
    pub fn set_nv2080EngineType(&mut self, fld: u32)
        requires
            old(self).wf(),
        ensures
            final(self).bytes() == splice(old(self).bytes(), 0, spec_u32_to_le_bytes(fld)),
            final(self).wf(),
            final(final(self).store)@ == final(old(self).store)@,
    {
        write_u32(self.store, 0, fld);
    }

    /// Writes `fld` to the `chid` field (bytes 4..8) and gives the view back.
    pub fn chid(self, fld: u32) -> (r: Self)
        requires
            self.wf(),
        ensures
            r.bytes() == splice(self.bytes(), 4, spec_u32_to_le_bytes(fld)),
            r.wf(),
            final(r.store)@ == final(self.store)@,
    {
        write_u32(self.store, 4, fld);
        self
    }

    /// Reads the `chid` field (bytes 4..8).
    pub fn get_chid(&self) -> (r: u32)
        requires
            self.wf(),
        ensures
            r == u32_at(self.bytes(), 4),
    {
        read_u32(self.store, 4)
    }

    /// Writes `fld` to the `chid` field (bytes 4..8).
    pub fn set_chid(&mut self, fld: u32)
        requires
            old(self).wf(),
        ensures
            final(self).bytes() == splice(old(self).bytes(), 4, spec_u32_to_le_bytes(fld)),
            final(self).wf(),
            final(final(self).store)@ == final(old(self).store)@,
    {
        write_u32(self.store, 4, fld);
    }

    /// Writes `fld` to the `gfid` field (bytes 8..12) and gives the view back.
    pub fn gfid(self, fld: u32) -> (r: Self)
        requires
            self.wf(),
        ensures
            r.bytes() == splice(self.bytes(), 8, spec_u32_to_le_bytes(fld)),
            r.wf(),
            final(r.store)@ == final(self.store)@,
    {
        write_u32(self.store, 8, fld);
        self
    }

    /// Reads the `gfid` field (bytes 8..12).
    pub fn get_gfid(&self) -> (r: u32)
        requires
            self.wf(),
        ensures
            r == u32_at(self.bytes(), 8),
    {
        read_u32(self.store, 8)
    }

    /// Writes `fld` to the `gfid` field (bytes 8..12).
    pub fn set_gfid(&mut self, fld: u32)
        requires
            old(self).wf(),
        ensures
            final(self).bytes() == splice(old(self).bytes(), 8, spec_u32_to_le_bytes(fld)),
            final(self).wf(),
            final(final(self).store)@ == final(old(self).store)@,
    {
        write_u32(self.store, 8, fld);
    }

    /// Writes `fld` to the `exceptLevel` field (bytes 12..16) and gives the view back.
    pub fn exceptLevel(self, fld: u32) -> (r: Self)
        requires
            self.wf(),
        ensures
            r.bytes() == splice(self.bytes(), 12, spec_u32_to_le_bytes(fld)),
            r.wf(),
            final(r.store)@ == final(self.store)@,
    {
        write_u32(self.store, 12, fld);
        self
    }

    /// Reads the `exceptLevel` field (bytes 12..16).
    pub fn get_exceptLevel(&self) -> (r: u32)
        requires
            self.wf(),
        ensures
            r == u32_at(self.bytes(), 12),
    {
        read_u32(self.store, 12)
    }

    /// Writes `fld` to the `exceptLevel` field (bytes 12..16).
    pub fn set_exceptLevel(&mut self, fld: u32)
        requires
            old(self).wf(),
        ensures
            final(self).bytes() == splice(old(self).bytes(), 12, spec_u32_to_le_bytes(fld)),
            final(self).wf(),
            final(final(self).store)@ == final(old(self).store)@,
    {
        write_u32(self.store, 12, fld);
    }

    /// Writes `fld` to the `exceptType` field (bytes 16..20) and gives the view back.
    pub fn exceptType(self, fld: u32) -> (r: Self)
        requires
            self.wf(),
        ensures
            r.bytes() == splice(self.bytes(), 16, spec_u32_to_le_bytes(fld)),
            r.wf(),
            final(r.store)@ == final(self.store)@,
    {
        write_u32(self.store, 16, fld);
        self
    }

    /// Reads the `exceptType` field (bytes 16..20).
    pub fn get_exceptType(&self) -> (r: u32)
        requires
            self.wf(),
        ensures
            r == u32_at(self.bytes(), 16),
    {
        read_u32(self.store, 16)
    }

    /// Writes `fld` to the `exceptType` field (bytes 16..20).
    pub fn set_exceptType(&mut self, fld: u32)
        requires
            old(self).wf(),
        ensures
            final(self).bytes() == splice(old(self).bytes(), 16, spec_u32_to_le_bytes(fld)),
            final(self).wf(),
            final(final(self).store)@ == final(old(self).store)@,
    {
        write_u32(self.store, 16, fld);
    }

    /// Writes `fld` to the `scope` field (bytes 20..24) and gives the view back.
    pub fn scope(self, fld: u32) -> (r: Self)
        requires
            self.wf(),
        ensures
            r.bytes() == splice(self.bytes(), 20, spec_u32_to_le_bytes(fld)),
            r.wf(),
            final(r.store)@ == final(self.store)@,
    {
        write_u32(self.store, 20, fld);
        self
    }

    /// Reads the `scope` field (bytes 20..24).
    pub fn get_scope(&self) -> (r: u32)
        requires
            self.wf(),
        ensures
            r == u32_at(self.bytes(), 20),
    {
        read_u32(self.store, 20)
    }

    /// Writes `fld` to the `scope` field (bytes 20..24).
    pub fn set_scope(&mut self, fld: u32)
        requires
            old(self).wf(),
        ensures
            final(self).bytes() == splice(old(self).bytes(), 20, spec_u32_to_le_bytes(fld)),
            final(self).wf(),
            final(final(self).store)@ == final(old(self).store)@,
    {
        write_u32(self.store, 20, fld);
    }

    /// Writes `fld` to the `partitionAttributionId` field (bytes 24..26) and gives the view back.
    pub fn partitionAttributionId(self, fld: u16) -> (r: Self)
        requires
            self.wf(),
        ensures
            r.bytes() == splice(self.bytes(), 24, spec_u16_to_le_bytes(fld)),
            r.wf(),
            final(r.store)@ == final(self.store)@,
    {
        write_u16(self.store, 24, fld);
        self
    }

    /// Reads the `partitionAttributionId` field (bytes 24..26).
    pub fn get_partitionAttributionId(&self) -> (r: u16)
        requires
            self.wf(),
        ensures
            r == u16_at(self.bytes(), 24),
    {
        read_u16(self.store, 24)
    }

    /// Writes `fld` to the `partitionAttributionId` field (bytes 24..26).
    pub fn set_partitionAttributionId(&mut self, fld: u16)
        requires
            old(self).wf(),
        ensures
            final(self).bytes() == splice(old(self).bytes(), 24, spec_u16_to_le_bytes(fld)),
            final(self).wf(),
            final(final(self).store)@ == final(old(self).store)@,
    {
        write_u16(self.store, 24, fld);
    }

    /// Writes `fld` to the `mmuFaultAddrLo` field (bytes 28..32) and gives the view back.
    pub fn mmuFaultAddrLo(self, fld: u32) -> (r: Self)
        requires
            self.wf(),
        ensures
            r.bytes() == splice(self.bytes(), 28, spec_u32_to_le_bytes(fld)),
            r.wf(),
            final(r.store)@ == final(self.store)@,
    {
        write_u32(self.store, 28, fld);
        self
    }

    /// Reads the `mmuFaultAddrLo` field (bytes 28..32).
    pub fn get_mmuFaultAddrLo(&self) -> (r: u32)
        requires
            self.wf(),
        ensures
            r == u32_at(self.bytes(), 28),
    {
        read_u32(self.store, 28)
    }

    /// Writes `fld` to the `mmuFaultAddrLo` field (bytes 28..32).
    pub fn set_mmuFaultAddrLo(&mut self, fld: u32)
        requires
            old(self).wf(),
        ensures
            final(self).bytes() == splice(old(self).bytes(), 28, spec_u32_to_le_bytes(fld)),
            final(self).wf(),
            final(final(self).store)@ == final(old(self).store)@,
    {
        write_u32(self.store, 28, fld);
    }

    /// Writes `fld` to the `mmuFaultAddrHi` field (bytes 32..36) and gives the view back.
    pub fn mmuFaultAddrHi(self, fld: u32) -> (r: Self)
        requires
            self.wf(),
        ensures
            r.bytes() == splice(self.bytes(), 32, spec_u32_to_le_bytes(fld)),
            r.wf(),
            final(r.store)@ == final(self.store)@,
    {
        write_u32(self.store, 32, fld);
        self
    }

    /// Reads the `mmuFaultAddrHi` field (bytes 32..36).
    pub fn get_mmuFaultAddrHi(&self) -> (r: u32)
        requires
            self.wf(),
        ensures
            r == u32_at(self.bytes(), 32),
    {
        read_u32(self.store, 32)
    }

    /// Writes `fld` to the `mmuFaultAddrHi` field (bytes 32..36).
    pub fn set_mmuFaultAddrHi(&mut self, fld: u32)
        requires
            old(self).wf(),
        ensures
            final(self).bytes() == splice(old(self).bytes(), 32, spec_u32_to_le_bytes(fld)),
            final(self).wf(),
            final(final(self).store)@ == final(old(self).store)@,
    {
        write_u32(self.store, 32, fld);
    }

    /// Writes `fld` to the `mmuFaultType` field (bytes 36..40) and gives the view back.
    pub fn mmuFaultType(self, fld: u32) -> (r: Self)
        requires
            self.wf(),
        ensures
            r.bytes() == splice(self.bytes(), 36, spec_u32_to_le_bytes(fld)),
            r.wf(),
            final(r.store)@ == final(self.store)@,
    {
        write_u32(self.store, 36, fld);
        self
    }

    /// Reads the `mmuFaultType` field (bytes 36..40).
    pub fn get_mmuFaultType(&self) -> (r: u32)
        requires
            self.wf(),
        ensures
            r == u32_at(self.bytes(), 36),
    {
        read_u32(self.store, 36)
    }

    /// Writes `fld` to the `mmuFaultType` field (bytes 36..40).
    pub fn set_mmuFaultType(&mut self, fld: u32)
        requires
            old(self).wf(),
        ensures
            final(self).bytes() == splice(old(self).bytes(), 36, spec_u32_to_le_bytes(fld)),
            final(self).wf(),
            final(final(self).store)@ == final(old(self).store)@,
    {
        write_u32(self.store, 36, fld);
    }

    /// Writes `fld` to the `bCallbackNeeded` field (bytes 40..41) and gives the view back.
    pub fn bCallbackNeeded(self, fld: u8) -> (r: Self)
        requires
            self.wf(),
        ensures
            r.bytes() == splice(self.bytes(), 40, seq![fld]),
            r.wf(),
            final(r.store)@ == final(self.store)@,
    {
        write_u8(self.store, 40, fld);
        self
    }

    /// Reads the `bCallbackNeeded` field (bytes 40..41).
    pub fn get_bCallbackNeeded(&self) -> (r: u8)
        requires
            self.wf(),
        ensures
            r == self.bytes()[40],
    {
        read_u8(self.store, 40)
    }

    /// Writes `fld` to the `bCallbackNeeded` field (bytes 40..41).
    pub fn set_bCallbackNeeded(&mut self, fld: u8)
        requires
            old(self).wf(),
        ensures
            final(self).bytes() == splice(old(self).bytes(), 40, seq![fld]),
            final(self).wf(),
            final(final(self).store)@ == final(old(self).store)@,
    {
        write_u8(self.store, 40, fld);
    }

    /// Writes `fld` to the `rcJournalBufferSize` field (bytes 44..48) and gives the view back.
    pub fn rcJournalBufferSize(self, fld: u32) -> (r: Self)
        requires
            self.wf(),
        ensures
            r.bytes() == splice(self.bytes(), 44, spec_u32_to_le_bytes(fld)),
            r.wf(),
            final(r.store)@ == final(self.store)@,
    {
        write_u32(self.store, 44, fld);
        self
    }

    /// Reads the `rcJournalBufferSize` field (bytes 44..48).
    pub fn get_rcJournalBufferSize(&self) -> (r: u32)
        requires
            self.wf(),
        ensures
            r == u32_at(self.bytes(), 44),
    {
        read_u32(self.store, 44)
    }

    /// Writes `fld` to the `rcJournalBufferSize` field (bytes 44..48).
    pub fn set_rcJournalBufferSize(&mut self, fld: u32)
        requires
            old(self).wf(),
        ensures
            final(self).bytes() == splice(old(self).bytes(), 44, spec_u32_to_le_bytes(fld)),
            final(self).wf(),
            final(final(self).store)@ == final(old(self).store)@,
    {
        write_u32(self.store, 44, fld);
    }

}

/// View of the firmware structure `s_PACKED_REGISTRY_ENTRY` (16 bytes).
pub struct s_PACKED_REGISTRY_ENTRY<'s> {
    /// The buffer from the first byte of the structure to the end.
    pub store: &'s mut [u8],
}

impl<'s> s_PACKED_REGISTRY_ENTRY<'s> {
    /// The bytes seen through this view.
    pub open spec fn bytes(&self) -> Seq<u8> {
        self.store@
    }

    /// The buffer holds at least the whole structure.
    pub open spec fn wf(&self) -> bool {
        self.store@.len() >= 16
    }

    /// Size of the structure in bytes.
    pub fn str_size() -> (n: usize)
        ensures
            n == 16,
    {
        16
    }

    /// Views `store` as this structure, starting at its first byte.
    pub fn new(store: &'s mut [u8]) -> (r: Self)
        requires
            old(store)@.len() >= 16,
        ensures
            r.bytes() == old(store)@,
            r.wf(),
            final(store)@ == final(r.store)@,
    {
        Self { store }
    }

    /// Writes `fld` to the `nameOffset` field (bytes 0..4) and gives the view back.
    pub fn nameOffset(self, fld: u32) -> (r: Self)
        requires
            self.wf(),
        ensures
            r.bytes() == splice(self.bytes(), 0, spec_u32_to_le_bytes(fld)),
            r.wf(),
            final(r.store)@ == final(self.store)@,
    {
        write_u32(self.store, 0, fld);
        self
    }

    /// Reads the `nameOffset` field (bytes 0..4).
    pub fn get_nameOffset(&self) -> (r: u32)
        requires
            self.wf(),
        ensures
            r == u32_at(self.bytes(), 0),
    {
        read_u32(self.store, 0)
    }

    /// Writes `fld` to the `nameOffset` field (bytes 0..4).
    pub fn set_nameOffset(&mut self, fld: u32)
        requires
            old(self).wf(),
        ensures
            final(self).bytes() == splice(old(self).bytes(), 0, spec_u32_to_le_bytes(fld)),
            final(self).wf(),
            final(final(self).store)@ == final(old(self).store)@,
    {
        write_u32(self.store, 0, fld);
    }

    /// Writes `fld` to the `rtype` field (bytes 4..5) and gives the view back.
    pub fn rtype(self, fld: u8) -> (r: Self)
        requires
            self.wf(),
        ensures
            r.bytes() == splice(self.bytes(), 4, seq![fld]),
            r.wf(),
            final(r.store)@ == final(self.store)@,
    {
        write_u8(self.store, 4, fld);
        self
    }

    /// Reads the `rtype` field (bytes 4..5).
    pub fn get_rtype(&self) -> (r: u8)
        requires
            self.wf(),
        ensures
            r == self.bytes()[4],
    {
        read_u8(self.store, 4)
    }

    /// Writes `fld` to the `rtype` field (bytes 4..5).
    pub fn set_rtype(&mut self, fld: u8)
        requires
            old(self).wf(),
        ensures
            final(self).bytes() == splice(old(self).bytes(), 4, seq![fld]),
            final(self).wf(),
            final(final(self).store)@ == final(old(self).store)@,
    {
        write_u8(self.store, 4, fld);
    }

    /// Writes `fld` to the `data` field (bytes 8..12) and gives the view back.
    pub fn data(self, fld: u32) -> (r: Self)
        requires
            self.wf(),
        ensures
            r.bytes() == splice(self.bytes(), 8, spec_u32_to_le_bytes(fld)),
            r.wf(),
            final(r.store)@ == final(self.store)@,
    {
        write_u32(self.store, 8, fld);
        self
    }

    /// Reads the `data` field (bytes 8..12).
    pub fn get_data(&self) -> (r: u32)
        requires
            self.wf(),
        ensures
            r == u32_at(self.bytes(), 8),
    {
        read_u32(self.store, 8)
    }

    /// Writes `fld` to the `data` field (bytes 8..12).
    pub fn set_data(&mut self, fld: u32)
        requires
            old(self).wf(),
        ensures
            final(self).bytes() == splice(old(self).bytes(), 8, spec_u32_to_le_bytes(fld)),
            final(self).wf(),
            final(final(self).store)@ == final(old(self).store)@,
    {
        write_u32(self.store, 8, fld);
    }

    /// Writes `fld` to the `length` field (bytes 12..16) and gives the view back.
    pub fn length(self, fld: u32) -> (r: Self)
        requires
            self.wf(),
        ensures
            r.bytes() == splice(self.bytes(), 12, spec_u32_to_le_bytes(fld)),
            r.wf(),
            final(r.store)@ == final(self.store)@,
    {
        write_u32(self.store, 12, fld);
        self
    }

    /// Reads the `length` field (bytes 12..16).
    pub fn get_length(&self) -> (r: u32)
        requires
            self.wf(),
        ensures
            r == u32_at(self.bytes(), 12),
    {
        read_u32(self.store, 12)
    }

    /// Writes `fld` to the `length` field (bytes 12..16).
    pub fn set_length(&mut self, fld: u32)
        requires
            old(self).wf(),
        ensures
            final(self).bytes() == splice(old(self).bytes(), 12, spec_u32_to_le_bytes(fld)),
            final(self).wf(),
            final(final(self).store)@ == final(old(self).store)@,
    {
        write_u32(self.store, 12, fld);
    }

}

/// View of the firmware structure `s_PACKED_REGISTRY_TABLE` (8 bytes).
pub struct s_PACKED_REGISTRY_TABLE<'s> {
    /// The buffer from the first byte of the structure to the end.
    pub store: &'s mut [u8],
}

impl<'s> s_PACKED_REGISTRY_TABLE<'s> {
    /// The bytes seen through this view.
    pub open spec fn bytes(&self) -> Seq<u8> {
        self.store@
    }

    /// The buffer holds at least the whole structure.
    pub open spec fn wf(&self) -> bool {
        self.store@.len() >= 8
    }

    /// Size of the structure in bytes.
    pub fn str_size() -> (n: usize)
        ensures
            n == 8,
    {
        8
    }

    /// Views `store` as this structure, starting at its first byte.
    pub fn new(store: &'s mut [u8]) -> (r: Self)
        requires
            old(store)@.len() >= 8,
        ensures
            r.bytes() == old(store)@,
            r.wf(),
            final(store)@ == final(r.store)@,
    {
        Self { store }
    }

    /// Writes `fld` to the `size` field (bytes 0..4) and gives the view back.
    pub fn size(self, fld: u32) -> (r: Self)
        requires
            self.wf(),
        ensures
            r.bytes() == splice(self.bytes(), 0, spec_u32_to_le_bytes(fld)),
            r.wf(),
            final(r.store)@ == final(self.store)@,
    {
        write_u32(self.store, 0, fld);
        self
    }

    /// Reads the `size` field (bytes 0..4).
    pub fn get_size(&self) -> (r: u32)
        requires
            self.wf(),
        ensures
            r == u32_at(self.bytes(), 0),
    {
        read_u32(self.store, 0)
    }

    /// Writes `fld` to the `size` field (bytes 0..4).
    pub fn set_size(&mut self, fld: u32)
        requires
            old(self).wf(),
        ensures
            final(self).bytes() == splice(old(self).bytes(), 0, spec_u32_to_le_bytes(fld)),
            final(self).wf(),
            final(final(self).store)@ == final(old(self).store)@,
    {
        write_u32(self.store, 0, fld);
    }

    /// Writes `fld` to the `numEntries` field (bytes 4..8) and gives the view back.
    pub fn numEntries(self, fld: u32) -> (r: Self)
        requires
            self.wf(),
        ensures
            r.bytes() == splice(self.bytes(), 4, spec_u32_to_le_bytes(fld)),
            r.wf(),
            final(r.store)@ == final(self.store)@,
    {
        write_u32(self.store, 4, fld);
        self
    }

    /// Reads the `numEntries` field (bytes 4..8).
    pub fn get_numEntries(&self) -> (r: u32)
        requires
            self.wf(),
        ensures
            r == u32_at(self.bytes(), 4),
    {
        read_u32(self.store, 4)
    }

    /// Writes `fld` to the `numEntries` field (bytes 4..8).
    pub fn set_numEntries(&mut self, fld: u32)
        requires
            old(self).wf(),
        ensures
            final(self).bytes() == splice(old(self).bytes(), 4, spec_u32_to_le_bytes(fld)),
            final(self).wf(),
            final(final(self).store)@ == final(old(self).store)@,
    {
        write_u32(self.store, 4, fld);
    }

    /// View of entry `idx` of the `entries` table, whose entries are 16 bytes apart
    /// from byte 8 on.
    pub fn new_S_entries(&mut self, idx: isize) -> (r: s_PACKED_REGISTRY_ENTRY<'_>)
        requires
            old(self).wf(),
            0 <= idx,
            idx * 16 + 8 + 16 <= old(self).bytes().len(),
        ensures
            r.bytes() == old(self).bytes().subrange(idx * 16 + 8, old(self).bytes().len() as int),
            r.wf(),
            final(self).bytes() == old(self).bytes().subrange(0, idx * 16 + 8) + final(r.store)@,
            final(final(self).store)@ == final(old(self).store)@,
    {
        proof {
            assert(self.store@.len() == self.store.len());
        }
        let off = idx as usize * 16 + 8;
        let (_head, tail) = self.store.split_at_mut(off);
        s_PACKED_REGISTRY_ENTRY { store: tail }
    }

}

/// View of the firmware structure `s_ACPI_METHOD_DATA` (676 bytes).
pub struct s_ACPI_METHOD_DATA<'s> {
    /// The buffer from the first byte of the structure to the end.
    pub store: &'s mut [u8],
}

impl<'s> s_ACPI_METHOD_DATA<'s> {
    /// The bytes seen through this view.
    pub open spec fn bytes(&self) -> Seq<u8> {
        self.store@
    }

    /// The buffer holds at least the whole structure.
    pub open spec fn wf(&self) -> bool {
        self.store@.len() >= 676
    }

    /// Size of the structure in bytes.
    pub fn str_size() -> (n: usize)
        ensures
            n == 676,
    {
        676
    }

    /// Views `store` as this structure, starting at its first byte.
    pub fn new(store: &'s mut [u8]) -> (r: Self)
        requires
            old(store)@.len() >= 676,
        ensures
            r.bytes() == old(store)@,
            r.wf(),
            final(store)@ == final(r.store)@,
    {
        Self { store }
    }

    /// Writes `fld` to the `bValid` field (bytes 0..1) and gives the view back.
    pub fn bValid(self, fld: u8) -> (r: Self)
        requires
            self.wf(),
        ensures
            r.bytes() == splice(self.bytes(), 0, seq![fld]),
            r.wf(),
            final(r.store)@ == final(self.store)@,
    {
        write_u8(self.store, 0, fld);
        self
    }

    /// Reads the `bValid` field (bytes 0..1).
    pub fn get_bValid(&self) -> (r: u8)
        requires
            self.wf(),
        ensures
            r == self.bytes()[0],
    {
        read_u8(self.store, 0)
    }

    /// Writes `fld` to the `bValid` field (bytes 0..1).
    pub fn set_bValid(&mut self, fld: u8)
        requires
            old(self).wf(),
        ensures
            final(self).bytes() == splice(old(self).bytes(), 0, seq![fld]),
            final(self).wf(),
            final(final(self).store)@ == final(old(self).store)@,
    {
        write_u8(self.store, 0, fld);
    }

    /// View of the `dodMethodData` substructure at byte 4.
    pub fn new_S_dodMethodData(&mut self) -> (r: s_DOD_METHOD_DATA<'_>)
        requires
            old(self).wf(),
        ensures
            r.bytes() == old(self).bytes().subrange(4, old(self).bytes().len() as int),
            r.wf(),
            final(self).bytes() == old(self).bytes().subrange(0, 4) + final(r.store)@,
            final(final(self).store)@ == final(old(self).store)@,
    {
        let (_head, tail) = self.store.split_at_mut(4);
        s_DOD_METHOD_DATA { store: tail }
    }

    /// View of the `jtMethodData` substructure at byte 76.
    pub fn new_S_jtMethodData(&mut self) -> (r: s_JT_METHOD_DATA<'_>)
        requires
            old(self).wf(),
        ensures
            r.bytes() == old(self).bytes().subrange(76, old(self).bytes().len() as int),
            r.wf(),
            final(self).bytes() == old(self).bytes().subrange(0, 76) + final(r.store)@,
            final(final(self).store)@ == final(old(self).store)@,
    {
        let (_head, tail) = self.store.split_at_mut(76);
        s_JT_METHOD_DATA { store: tail }
    }

    /// View of the `muxMethodData` substructure at byte 88.
    pub fn new_S_muxMethodData(&mut self) -> (r: s_MUX_METHOD_DATA<'_>)
        requires
            old(self).wf(),
        ensures
            r.bytes() == old(self).bytes().subrange(88, old(self).bytes().len() as int),
            r.wf(),
            final(self).bytes() == old(self).bytes().subrange(0, 88) + final(r.store)@,
            final(final(self).store)@ == final(old(self).store)@,
    {
        let (_head, tail) = self.store.split_at_mut(88);
        s_MUX_METHOD_DATA { store: tail }
    }

    /// View of the `capsMethodData` substructure at byte 668.
    pub fn new_S_capsMethodData(&mut self) -> (r: s_CAPS_METHOD_DATA<'_>)
        requires
            old(self).wf(),
        ensures
            r.bytes() == old(self).bytes().subrange(668, old(self).bytes().len() as int),
            r.wf(),
            final(self).bytes() == old(self).bytes().subrange(0, 668) + final(r.store)@,
            final(final(self).store)@ == final(old(self).store)@,
    {
        let (_head, tail) = self.store.split_at_mut(668);
        s_CAPS_METHOD_DATA { store: tail }
    }

}

/// View of the firmware structure `s_DOD_METHOD_DATA` (72 bytes).
pub struct s_DOD_METHOD_DATA<'s> {
    /// The buffer from the first byte of the structure to the end.
    pub store: &'s mut [u8],
}

impl<'s> s_DOD_METHOD_DATA<'s> {
    /// The bytes seen through this view.
    pub open spec fn bytes(&self) -> Seq<u8> {
        self.store@
    }

    /// The buffer holds at least the whole structure.
    pub open spec fn wf(&self) -> bool {
        self.store@.len() >= 72
    }

    /// Size of the structure in bytes.
    pub fn str_size() -> (n: usize)
        ensures
            n == 72,
    {
        72
    }

    /// Views `store` as this structure, starting at its first byte.
    pub fn new(store: &'s mut [u8]) -> (r: Self)
        requires
            old(store)@.len() >= 72,
        ensures
            r.bytes() == old(store)@,
            r.wf(),
            final(store)@ == final(r.store)@,
    {
        Self { store }
    }

    /// Writes `fld` to the `status` field (bytes 0..4) and gives the view back.
    pub fn status(self, fld: u32) -> (r: Self)
        requires
            self.wf(),
        ensures
            r.bytes() == splice(self.bytes(), 0, spec_u32_to_le_bytes(fld)),
            r.wf(),
            final(r.store)@ == final(self.store)@,
    {
        write_u32(self.store, 0, fld);
        self
    }

    /// Reads the `status` field (bytes 0..4).
    pub fn get_status(&self) -> (r: u32)
        requires
            self.wf(),
        ensures
            r == u32_at(self.bytes(), 0),
    {
        read_u32(self.store, 0)
    }

    /// Writes `fld` to the `status` field (bytes 0..4).
    pub fn set_status(&mut self, fld: u32)
        requires
            old(self).wf(),
        ensures
            final(self).bytes() == splice(old(self).bytes(), 0, spec_u32_to_le_bytes(fld)),
            final(self).wf(),
            final(final(self).store)@ == final(old(self).store)@,
    {
        write_u32(self.store, 0, fld);
    }

    /// Writes `fld` to the `acpiIdListLen` field (bytes 4..8) and gives the view back.
    pub fn acpiIdListLen(self, fld: u32) -> (r: Self)
        requires
            self.wf(),
        ensures
            r.bytes() == splice(self.bytes(), 4, spec_u32_to_le_bytes(fld)),
            r.wf(),
            final(r.store)@ == final(self.store)@,
    {
        write_u32(self.store, 4, fld);
        self
    }

    /// Reads the `acpiIdListLen` field (bytes 4..8).
    pub fn get_acpiIdListLen(&self) -> (r: u32)
        requires
            self.wf(),
        ensures
            r == u32_at(self.bytes(), 4),
    {
        read_u32(self.store, 4)
    }

    /// Writes `fld` to the `acpiIdListLen` field (bytes 4..8).
    pub fn set_acpiIdListLen(&mut self, fld: u32)
        requires
            old(self).wf(),
        ensures
            final(self).bytes() == splice(old(self).bytes(), 4, spec_u32_to_le_bytes(fld)),
            final(self).wf(),
            final(final(self).store)@ == final(old(self).store)@,
    {
        write_u32(self.store, 4, fld);
    }

    /// Writes `fld` to the `acpiIdList` field (bytes 8..72) and gives the view back.
    pub fn acpiIdList(self, fld: [u32; 16]) -> (r: Self)
        requires
            self.wf(),
        ensures
            r.bytes() == splice(self.bytes(), 8, u32s_to_le(fld@)),
            r.wf(),
            final(r.store)@ == final(self.store)@,
    {
        write_u32s(self.store, 8, &fld);
        self
    }

    /// Writes `fld` to the `acpiIdList` field (bytes 8..72).
    pub fn set_acpiIdList(&mut self, fld: [u32; 16])
        requires
            old(self).wf(),
        ensures
            final(self).bytes() == splice(old(self).bytes(), 8, u32s_to_le(fld@)),
            final(self).wf(),
            final(final(self).store)@ == final(old(self).store)@,
    {
        write_u32s(self.store, 8, &fld);
    }

    /// Reads the `acpiIdList` array (bytes 8..72).
    pub fn get_acpiIdList(&mut self) -> (r: [u32; 16])
        requires
            old(self).wf(),
        ensures
            r@ == u32s_at(old(self).bytes(), 8, 16),
            final(self).bytes() == old(self).bytes(),
            final(final(self).store)@ == final(old(self).store)@,
    {
        read_u32s(self.store, 8)
    }

}

/// View of the firmware structure `s_JT_METHOD_DATA` (12 bytes).
pub struct s_JT_METHOD_DATA<'s> {
    /// The buffer from the first byte of the structure to the end.
    pub store: &'s mut [u8],
}

impl<'s> s_JT_METHOD_DATA<'s> {
    /// The bytes seen through this view.
    pub open spec fn bytes(&self) -> Seq<u8> {
        self.store@
    }

    /// The buffer holds at least the whole structure.
    pub open spec fn wf(&self) -> bool {
        self.store@.len() >= 12
    }

    /// Size of the structure in bytes.
    pub fn str_size() -> (n: usize)
        ensures
            n == 12,
    {
        12
    }

    /// Views `store` as this structure, starting at its first byte.
    pub fn new(store: &'s mut [u8]) -> (r: Self)
        requires
            old(store)@.len() >= 12,
        ensures
            r.bytes() == old(store)@,
            r.wf(),
            final(store)@ == final(r.store)@,
    {
        Self { store }
    }

    /// Writes `fld` to the `status` field (bytes 0..4) and gives the view back.
    pub fn status(self, fld: u32) -> (r: Self)
        requires
            self.wf(),
        ensures
            r.bytes() == splice(self.bytes(), 0, spec_u32_to_le_bytes(fld)),
            r.wf(),
            final(r.store)@ == final(self.store)@,
    {
        write_u32(self.store, 0, fld);
        self
    }

    /// Reads the `status` field (bytes 0..4).
    pub fn get_status(&self) -> (r: u32)
        requires
            self.wf(),
        ensures
            r == u32_at(self.bytes(), 0),
    {
        read_u32(self.store, 0)
    }

    /// Writes `fld` to the `status` field (bytes 0..4).
    pub fn set_status(&mut self, fld: u32)
        requires
            old(self).wf(),
        ensures
            final(self).bytes() == splice(old(self).bytes(), 0, spec_u32_to_le_bytes(fld)),
            final(self).wf(),
            final(final(self).store)@ == final(old(self).store)@,
    {
        write_u32(self.store, 0, fld);
    }

    /// Writes `fld` to the `jtCaps` field (bytes 4..8) and gives the view back.
    pub fn jtCaps(self, fld: u32) -> (r: Self)
        requires
            self.wf(),
        ensures
            r.bytes() == splice(self.bytes(), 4, spec_u32_to_le_bytes(fld)),
            r.wf(),
            final(r.store)@ == final(self.store)@,
    {
        write_u32(self.store, 4, fld);
        self
    }

    /// Reads the `jtCaps` field (bytes 4..8).
    pub fn get_jtCaps(&self) -> (r: u32)
        requires
            self.wf(),
        ensures
            r == u32_at(self.bytes(), 4),
    {
        read_u32(self.store, 4)
    }

    /// Writes `fld` to the `jtCaps` field (bytes 4..8).
    pub fn set_jtCaps(&mut self, fld: u32)
        requires
            old(self).wf(),
        ensures
            final(self).bytes() == splice(old(self).bytes(), 4, spec_u32_to_le_bytes(fld)),
            final(self).wf(),
            final(final(self).store)@ == final(old(self).store)@,
    {
        write_u32(self.store, 4, fld);
    }

    /// Writes `fld` to the `jtRevId` field (bytes 8..10) and gives the view back.
    pub fn jtRevId(self, fld: u16) -> (r: Self)
        requires
            self.wf(),
        ensures
            r.bytes() == splice(self.bytes(), 8, spec_u16_to_le_bytes(fld)),
            r.wf(),
            final(r.store)@ == final(self.store)@,
    {
        write_u16(self.store, 8, fld);
        self
    }

    /// Reads the `jtRevId` field (bytes 8..10).
    pub fn get_jtRevId(&self) -> (r: u16)
        requires
            self.wf(),
        ensures
            r == u16_at(self.bytes(), 8),
    {
        read_u16(self.store, 8)
    }

    /// Writes `fld` to the `jtRevId` field (bytes 8..10).
    pub fn set_jtRevId(&mut self, fld: u16)
        requires
            old(self).wf(),
        ensures
            final(self).bytes() == splice(old(self).bytes(), 8, spec_u16_to_le_bytes(fld)),
            final(self).wf(),
            final(final(self).store)@ == final(old(self).store)@,
    {
        write_u16(self.store, 8, fld);
    }

    /// Writes `fld` to the `bSBIOSCaps` field (bytes 10..11) and gives the view back.
    pub fn bSBIOSCaps(self, fld: u8) -> (r: Self)
        requires
            self.wf(),
        ensures
            r.bytes() == splice(self.bytes(), 10, seq![fld]),
            r.wf(),
            final(r.store)@ == final(self.store)@,
    {
        write_u8(self.store, 10, fld);
        self
    }

    /// Reads the `bSBIOSCaps` field (bytes 10..11).
    pub fn get_bSBIOSCaps(&self) -> (r: u8)
        requires
            self.wf(),
        ensures
            r == self.bytes()[10],
    {
        read_u8(self.store, 10)
    }

    /// Writes `fld` to the `bSBIOSCaps` field (bytes 10..11).
    pub fn set_bSBIOSCaps(&mut self, fld: u8)
        requires
            old(self).wf(),
        ensures
            final(self).bytes() == splice(old(self).bytes(), 10, seq![fld]),
            final(self).wf(),
            final(final(self).store)@ == final(old(self).store)@,
    {
        write_u8(self.store, 10, fld);
    }

}

/// View of the firmware structure `s_MUX_METHOD_DATA_ELEMENT` (12 bytes).
pub struct s_MUX_METHOD_DATA_ELEMENT<'s> {
    /// The buffer from the first byte of the structure to the end.
    pub store: &'s mut [u8],
}

impl<'s> s_MUX_METHOD_DATA_ELEMENT<'s> {
    /// The bytes seen through this view.
    pub open spec fn bytes(&self) -> Seq<u8> {
        self.store@
    }

    /// The buffer holds at least the whole structure.
    pub open spec fn wf(&self) -> bool {
        self.store@.len() >= 12
    }

    /// Size of the structure in bytes.
    pub fn str_size() -> (n: usize)
        ensures
            n == 12,
    {
        12
    }

    /// Views `store` as this structure, starting at its first byte.
    pub fn new(store: &'s mut [u8]) -> (r: Self)
        requires
            old(store)@.len() >= 12,
        ensures
            r.bytes() == old(store)@,
            r.wf(),
            final(store)@ == final(r.store)@,
    {
        Self { store }
    }

    /// Writes `fld` to the `acpiId` field (bytes 0..4) and gives the view back.
    pub fn acpiId(self, fld: u32) -> (r: Self)
        requires
            self.wf(),
        ensures
            r.bytes() == splice(self.bytes(), 0, spec_u32_to_le_bytes(fld)),
            r.wf(),
            final(r.store)@ == final(self.store)@,
    {
        write_u32(self.store, 0, fld);
        self
    }

    /// Reads the `acpiId` field (bytes 0..4).
    pub fn get_acpiId(&self) -> (r: u32)
        requires
            self.wf(),
        ensures
            r == u32_at(self.bytes(), 0),
    {
        read_u32(self.store, 0)
    }

    /// Writes `fld` to the `acpiId` field (bytes 0..4).
    pub fn set_acpiId(&mut self, fld: u32)
        requires
            old(self).wf(),
        ensures
            final(self).bytes() == splice(old(self).bytes(), 0, spec_u32_to_le_bytes(fld)),
            final(self).wf(),
            final(final(self).store)@ == final(old(self).store)@,
    {
        write_u32(self.store, 0, fld);
    }

    /// Writes `fld` to the `mode` field (bytes 4..8) and gives the view back.
    pub fn mode(self, fld: u32) -> (r: Self)
        requires
            self.wf(),
        ensures
            r.bytes() == splice(self.bytes(), 4, spec_u32_to_le_bytes(fld)),
            r.wf(),
            final(r.store)@ == final(self.store)@,
    {
        write_u32(self.store, 4, fld);
        self
    }

    /// Reads the `mode` field (bytes 4..8).
    pub fn get_mode(&self) -> (r: u32)
        requires
            self.wf(),
        ensures
            r == u32_at(self.bytes(), 4),
    {
        read_u32(self.store, 4)
    }

    /// Writes `fld` to the `mode` field (bytes 4..8).
    pub fn set_mode(&mut self, fld: u32)
        requires
            old(self).wf(),
        ensures
            final(self).bytes() == splice(old(self).bytes(), 4, spec_u32_to_le_bytes(fld)),
            final(self).wf(),
            final(final(self).store)@ == final(old(self).store)@,
    {
        write_u32(self.store, 4, fld);
    }

    /// Writes `fld` to the `status` field (bytes 8..12) and gives the view back.
    pub fn status(self, fld: u32) -> (r: Self)
        requires
            self.wf(),
        ensures
            r.bytes() == splice(self.bytes(), 8, spec_u32_to_le_bytes(fld)),
            r.wf(),
            final(r.store)@ == final(self.store)@,
    {
        write_u32(self.store, 8, fld);
        self
    }

    /// Reads the `status` field (bytes 8..12).
    pub fn get_status(&self) -> (r: u32)
        requires
            self.wf(),
        ensures
            r == u32_at(self.bytes(), 8),
    {
        read_u32(self.store, 8)
    }

    /// Writes `fld` to the `status` field (bytes 8..12).
    pub fn set_status(&mut self, fld: u32)
        requires
            old(self).wf(),
        ensures
            final(self).bytes() == splice(old(self).bytes(), 8, spec_u32_to_le_bytes(fld)),
            final(self).wf(),
            final(final(self).store)@ == final(old(self).store)@,
    {
        write_u32(self.store, 8, fld);
    }

}

/// View of the firmware structure `s_MUX_METHOD_DATA` (580 bytes).
pub struct s_MUX_METHOD_DATA<'s> {
    /// The buffer from the first byte of the structure to the end.
    pub store: &'s mut [u8],
}

impl<'s> s_MUX_METHOD_DATA<'s> {
    /// The bytes seen through this view.
    pub open spec fn bytes(&self) -> Seq<u8> {
        self.store@
    }

    /// The buffer holds at least the whole structure.
    pub open spec fn wf(&self) -> bool {
        self.store@.len() >= 580
    }

    /// Size of the structure in bytes.
    pub fn str_size() -> (n: usize)
        ensures
            n == 580,
    {
        580
    }

    /// Views `store` as this structure, starting at its first byte.
    pub fn new(store: &'s mut [u8]) -> (r: Self)
        requires
            old(store)@.len() >= 580,
        ensures
            r.bytes() == old(store)@,
            r.wf(),
            final(store)@ == final(r.store)@,
    {
        Self { store }
    }

    /// Writes `fld` to the `tableLen` field (bytes 0..4) and gives the view back.
    pub fn tableLen(self, fld: u32) -> (r: Self)
        requires
            self.wf(),
        ensures
            r.bytes() == splice(self.bytes(), 0, spec_u32_to_le_bytes(fld)),
            r.wf(),
            final(r.store)@ == final(self.store)@,
    {
        write_u32(self.store, 0, fld);
        self
    }

    /// Reads the `tableLen` field (bytes 0..4).
    pub fn get_tableLen(&self) -> (r: u32)
        requires
            self.wf(),
        ensures
            r == u32_at(self.bytes(), 0),
    {
        read_u32(self.store, 0)
    }

    /// Writes `fld` to the `tableLen` field (bytes 0..4).
    pub fn set_tableLen(&mut self, fld: u32)
        requires
            old(self).wf(),
        ensures
            final(self).bytes() == splice(old(self).bytes(), 0, spec_u32_to_le_bytes(fld)),
            final(self).wf(),
            final(final(self).store)@ == final(old(self).store)@,
    {
        write_u32(self.store, 0, fld);
    }

    /// View of entry `idx` of the `acpiIdMuxModeTable` table, whose entries are 12 bytes apart
    /// from byte 4 on.
    pub fn new_S_acpiIdMuxModeTable(&mut self, idx: isize) -> (r: s_MUX_METHOD_DATA_ELEMENT<'_>)
        requires
            old(self).wf(),
            0 <= idx,
            idx * 12 + 4 + 12 <= old(self).bytes().len(),
        ensures
            r.bytes() == old(self).bytes().subrange(idx * 12 + 4, old(self).bytes().len() as int),
            r.wf(),
            final(self).bytes() == old(self).bytes().subrange(0, idx * 12 + 4) + final(r.store)@,
            final(final(self).store)@ == final(old(self).store)@,
    {
        proof {
            assert(self.store@.len() == self.store.len());
        }
        let off = idx as usize * 12 + 4;
        let (_head, tail) = self.store.split_at_mut(off);
        s_MUX_METHOD_DATA_ELEMENT { store: tail }
    }

    /// View of entry `idx` of the `acpiIdMuxPartTable` table, whose entries are 12 bytes apart
    /// from byte 196 on.
    pub fn new_S_acpiIdMuxPartTable(&mut self, idx: isize) -> (r: s_MUX_METHOD_DATA_ELEMENT<'_>)
        requires
            old(self).wf(),
            0 <= idx,
            idx * 12 + 196 + 12 <= old(self).bytes().len(),
        ensures
            r.bytes() == old(self).bytes().subrange(idx * 12 + 196, old(self).bytes().len() as int),
            r.wf(),
            final(self).bytes() == old(self).bytes().subrange(0, idx * 12 + 196) + final(r.store)@,
            final(final(self).store)@ == final(old(self).store)@,
    {
        proof {
            assert(self.store@.len() == self.store.len());
        }
        let off = idx as usize * 12 + 196;
        let (_head, tail) = self.store.split_at_mut(off);
        s_MUX_METHOD_DATA_ELEMENT { store: tail }
    }

    /// View of entry `idx` of the `acpiIdMuxStateTable` table, whose entries are 12 bytes apart
    /// from byte 388 on.
    pub fn new_S_acpiIdMuxStateTable(&mut self, idx: isize) -> (r: s_MUX_METHOD_DATA_ELEMENT<'_>)
        requires
            old(self).wf(),
            0 <= idx,
            idx * 12 + 388 + 12 <= old(self).bytes().len(),
        ensures
            r.bytes() == old(self).bytes().subrange(idx * 12 + 388, old(self).bytes().len() as int),
            r.wf(),
            final(self).bytes() == old(self).bytes().subrange(0, idx * 12 + 388) + final(r.store)@,
            final(final(self).store)@ == final(old(self).store)@,
    {
        proof {
            assert(self.store@.len() == self.store.len());
        }
        let off = idx as usize * 12 + 388;
        let (_head, tail) = self.store.split_at_mut(off);
        s_MUX_METHOD_DATA_ELEMENT { store: tail }
    }

}

/// View of the firmware structure `s_CAPS_METHOD_DATA` (8 bytes).
pub struct s_CAPS_METHOD_DATA<'s> {
    /// The buffer from the first byte of the structure to the end.
    pub store: &'s mut [u8],
}

impl<'s> s_CAPS_METHOD_DATA<'s> {
    /// The bytes seen through this view.
    pub open spec fn bytes(&self) -> Seq<u8> {
        self.store@
    }

    /// The buffer holds at least the whole structure.
    pub open spec fn wf(&self) -> bool {
        self.store@.len() >= 8
    }

    /// Size of the structure in bytes.
    pub fn str_size() -> (n: usize)
        ensures
            n == 8,
    {
        8
    }

    /// Views `store` as this structure, starting at its first byte.
    pub fn new(store: &'s mut [u8]) -> (r: Self)
        requires
            old(store)@.len() >= 8,
        ensures
            r.bytes() == old(store)@,
            r.wf(),
            final(store)@ == final(r.store)@,
    {
        Self { store }
    }

    /// Writes `fld` to the `status` field (bytes 0..4) and gives the view back.
    pub fn status(self, fld: u32) -> (r: Self)
        requires
            self.wf(),
        ensures
            r.bytes() == splice(self.bytes(), 0, spec_u32_to_le_bytes(fld)),
            r.wf(),
            final(r.store)@ == final(self.store)@,
    {
        write_u32(self.store, 0, fld);
        self
    }

    /// Reads the `status` field (bytes 0..4).
    pub fn get_status(&self) -> (r: u32)
        requires
            self.wf(),
        ensures
            r == u32_at(self.bytes(), 0),
    {
        read_u32(self.store, 0)
    }

    /// Writes `fld` to the `status` field (bytes 0..4).
    pub fn set_status(&mut self, fld: u32)
        requires
            old(self).wf(),
        ensures
            final(self).bytes() == splice(old(self).bytes(), 0, spec_u32_to_le_bytes(fld)),
            final(self).wf(),
            final(final(self).store)@ == final(old(self).store)@,
    {
        write_u32(self.store, 0, fld);
    }

    /// Writes `fld` to the `optimusCaps` field (bytes 4..8) and gives the view back.
    pub fn optimusCaps(self, fld: u32) -> (r: Self)
        requires
            self.wf(),
        ensures
            r.bytes() == splice(self.bytes(), 4, spec_u32_to_le_bytes(fld)),
            r.wf(),
            final(r.store)@ == final(self.store)@,
    {
        write_u32(self.store, 4, fld);
        self
    }

    /// Reads the `optimusCaps` field (bytes 4..8).
    pub fn get_optimusCaps(&self) -> (r: u32)
        requires
            self.wf(),
        ensures
            r == u32_at(self.bytes(), 4),
    {
        read_u32(self.store, 4)
    }

    /// Writes `fld` to the `optimusCaps` field (bytes 4..8).
    pub fn set_optimusCaps(&mut self, fld: u32)
        requires
            old(self).wf(),
        ensures
            final(self).bytes() == splice(old(self).bytes(), 4, spec_u32_to_le_bytes(fld)),
            final(self).wf(),
            final(final(self).store)@ == final(old(self).store)@,
    {
        write_u32(self.store, 4, fld);
    }

}

/// View of the firmware structure `s_BUSINFO` (10 bytes).
pub struct s_BUSINFO<'s> {
    /// The buffer from the first byte of the structure to the end.
    pub store: &'s mut [u8],
}

impl<'s> s_BUSINFO<'s> {
    /// The bytes seen through this view.
    pub open spec fn bytes(&self) -> Seq<u8> {
        self.store@
    }

    /// The buffer holds at least the whole structure.
    pub open spec fn wf(&self) -> bool {
        self.store@.len() >= 10
    }

    /// Size of the structure in bytes.
    pub fn str_size() -> (n: usize)
        ensures
            n == 10,
    {
        10
    }

    /// Views `store` as this structure, starting at its first byte.
    pub fn new(store: &'s mut [u8]) -> (r: Self)
        requires
            old(store)@.len() >= 10,
        ensures
            r.bytes() == old(store)@,
            r.wf(),
            final(store)@ == final(r.store)@,
    {
        Self { store }
    }

    /// Writes `fld` to the `deviceID` field (bytes 0..2) and gives the view back.
    pub fn deviceID(self, fld: u16) -> (r: Self)
        requires
            self.wf(),
        ensures
            r.bytes() == splice(self.bytes(), 0, spec_u16_to_le_bytes(fld)),
            r.wf(),
            final(r.store)@ == final(self.store)@,
    {
        write_u16(self.store, 0, fld);
        self
    }

    /// Reads the `deviceID` field (bytes 0..2).
    pub fn get_deviceID(&self) -> (r: u16)
        requires
            self.wf(),
        ensures
            r == u16_at(self.bytes(), 0),
    {
        read_u16(self.store, 0)
    }

    /// Writes `fld` to the `deviceID` field (bytes 0..2).
    pub fn set_deviceID(&mut self, fld: u16)
        requires
            old(self).wf(),
        ensures
            final(self).bytes() == splice(old(self).bytes(), 0, spec_u16_to_le_bytes(fld)),
            final(self).wf(),
            final(final(self).store)@ == final(old(self).store)@,
    {
        write_u16(self.store, 0, fld);
    }

    /// Writes `fld` to the `vendorID` field (bytes 2..4) and gives the view back.
    pub fn vendorID(self, fld: u16) -> (r: Self)
        requires
            self.wf(),
        ensures
            r.bytes() == splice(self.bytes(), 2, spec_u16_to_le_bytes(fld)),
            r.wf(),
            final(r.store)@ == final(self.store)@,
    {
        write_u16(self.store, 2, fld);
        self
    }

    /// Reads the `vendorID` field (bytes 2..4).
    pub fn get_vendorID(&self) -> (r: u16)
        requires
            self.wf(),
        ensures
            r == u16_at(self.bytes(), 2),
    {
        read_u16(self.store, 2)
    }

    /// Writes `fld` to the `vendorID` field (bytes 2..4).
    pub fn set_vendorID(&mut self, fld: u16)
        requires
            old(self).wf(),
        ensures
            final(self).bytes() == splice(old(self).bytes(), 2, spec_u16_to_le_bytes(fld)),
            final(self).wf(),
            final(final(self).store)@ == final(old(self).store)@,
    {
        write_u16(self.store, 2, fld);
    }

    /// Writes `fld` to the `subdeviceID` field (bytes 4..6) and gives the view back.
    pub fn subdeviceID(self, fld: u16) -> (r: Self)
        requires
            self.wf(),
        ensures
            r.bytes() == splice(self.bytes(), 4, spec_u16_to_le_bytes(fld)),
            r.wf(),
            final(r.store)@ == final(self.store)@,
    {
        write_u16(self.store, 4, fld);
        self
    }

    /// Reads the `subdeviceID` field (bytes 4..6).
    pub fn get_subdeviceID(&self) -> (r: u16)
        requires
            self.wf(),
        ensures
            r == u16_at(self.bytes(), 4),
    {
        read_u16(self.store, 4)
    }

    /// Writes `fld` to the `subdeviceID` field (bytes 4..6).
    pub fn set_subdeviceID(&mut self, fld: u16)
        requires
            old(self).wf(),
        ensures
            final(self).bytes() == splice(old(self).bytes(), 4, spec_u16_to_le_bytes(fld)),
            final(self).wf(),
            final(final(self).store)@ == final(old(self).store)@,
    {
        write_u16(self.store, 4, fld);
    }

    /// Writes `fld` to the `subvendorID` field (bytes 6..8) and gives the view back.
    pub fn subvendorID(self, fld: u16) -> (r: Self)
        requires
            self.wf(),
        ensures
            r.bytes() == splice(self.bytes(), 6, spec_u16_to_le_bytes(fld)),
            r.wf(),
            final(r.store)@ == final(self.store)@,
    {
        write_u16(self.store, 6, fld);
        self
    }

    /// Reads the `subvendorID` field (bytes 6..8).
    pub fn get_subvendorID(&self) -> (r: u16)
        requires
            self.wf(),
        ensures
            r == u16_at(self.bytes(), 6),
    {
        read_u16(self.store, 6)
    }

    /// Writes `fld` to the `subvendorID` field (bytes 6..8).
    pub fn set_subvendorID(&mut self, fld: u16)
        requires
            old(self).wf(),
        ensures
            final(self).bytes() == splice(old(self).bytes(), 6, spec_u16_to_le_bytes(fld)),
            final(self).wf(),
            final(final(self).store)@ == final(old(self).store)@,
    {
        write_u16(self.store, 6, fld);
    }

    /// Writes `fld` to the `revisionID` field (bytes 8..9) and gives the view back.
    pub fn revisionID(self, fld: u8) -> (r: Self)
        requires
            self.wf(),
        ensures
            r.bytes() == splice(self.bytes(), 8, seq![fld]),
            r.wf(),
            final(r.store)@ == final(self.store)@,
    {
        write_u8(self.store, 8, fld);
        self
    }

    /// Reads the `revisionID` field (bytes 8..9).
    pub fn get_revisionID(&self) -> (r: u8)
        requires
            self.wf(),
        ensures
            r == self.bytes()[8],
    {
        read_u8(self.store, 8)
    }

    /// Writes `fld` to the `revisionID` field (bytes 8..9).
    pub fn set_revisionID(&mut self, fld: u8)
        requires
            old(self).wf(),
        ensures
            final(self).bytes() == splice(old(self).bytes(), 8, seq![fld]),
            final(self).wf(),
            final(final(self).store)@ == final(old(self).store)@,
    {
        write_u8(self.store, 8, fld);
    }

}

/// View of the firmware structure `s_GSP_VF_INFO` (40 bytes).
pub struct s_GSP_VF_INFO<'s> {
    /// The buffer from the first byte of the structure to the end.
    pub store: &'s mut [u8],
}

impl<'s> s_GSP_VF_INFO<'s> {
    /// The bytes seen through this view.
    pub open spec fn bytes(&self) -> Seq<u8> {
        self.store@
    }

    /// The buffer holds at least the whole structure.
    pub open spec fn wf(&self) -> bool {
        self.store@.len() >= 40
    }

    /// Size of the structure in bytes.
    pub fn str_size() -> (n: usize)
        ensures
            n == 40,
    {
        40
    }

    /// Views `store` as this structure, starting at its first byte.
    pub fn new(store: &'s mut [u8]) -> (r: Self)
        requires
            old(store)@.len() >= 40,
        ensures
            r.bytes() == old(store)@,
            r.wf(),
            final(store)@ == final(r.store)@,
    {
        Self { store }
    }

    /// Writes `fld` to the `totalVFs` field (bytes 0..4) and gives the view back.
    pub fn totalVFs(self, fld: u32) -> (r: Self)
        requires
            self.wf(),
        ensures
            r.bytes() == splice(self.bytes(), 0, spec_u32_to_le_bytes(fld)),
            r.wf(),
            final(r.store)@ == final(self.store)@,
    {
        write_u32(self.store, 0, fld);
        self
    }

    /// Reads the `totalVFs` field (bytes 0..4).
    pub fn get_totalVFs(&self) -> (r: u32)
        requires
            self.wf(),
        ensures
            r == u32_at(self.bytes(), 0),
    {
        read_u32(self.store, 0)
    }

    /// Writes `fld` to the `totalVFs` field (bytes 0..4).
    pub fn set_totalVFs(&mut self, fld: u32)
        requires
            old(self).wf(),
        ensures
            final(self).bytes() == splice(old(self).bytes(), 0, spec_u32_to_le_bytes(fld)),
            final(self).wf(),
            final(final(self).store)@ == final(old(self).store)@,
    {
        write_u32(self.store, 0, fld);
    }

    /// Writes `fld` to the `firstVFOffset` field (bytes 4..8) and gives the view back.
    pub fn firstVFOffset(self, fld: u32) -> (r: Self)
        requires
            self.wf(),
        ensures
            r.bytes() == splice(self.bytes(), 4, spec_u32_to_le_bytes(fld)),
            r.wf(),
            final(r.store)@ == final(self.store)@,
    {
        write_u32(self.store, 4, fld);
        self
    }

    /// Reads the `firstVFOffset` field (bytes 4..8).
    pub fn get_firstVFOffset(&self) -> (r: u32)
        requires
            self.wf(),
        ensures
            r == u32_at(self.bytes(), 4),
    {
        read_u32(self.store, 4)
    }

    /// Writes `fld` to the `firstVFOffset` field (bytes 4..8).
    pub fn set_firstVFOffset(&mut self, fld: u32)
        requires
            old(self).wf(),
        ensures
            final(self).bytes() == splice(old(self).bytes(), 4, spec_u32_to_le_bytes(fld)),
            final(self).wf(),
            final(final(self).store)@ == final(old(self).store)@,
    {
        write_u32(self.store, 4, fld);
    }

    /// Writes `fld` to the `FirstVFBar0Address` field (bytes 8..16) and gives the view back.
    pub fn FirstVFBar0Address(self, fld: u64) -> (r: Self)
        requires
            self.wf(),
        ensures
            r.bytes() == splice(self.bytes(), 8, spec_u64_to_le_bytes(fld)),
            r.wf(),
            final(r.store)@ == final(self.store)@,
    {
        write_u64(self.store, 8, fld);
        self
    }

    /// Reads the `FirstVFBar0Address` field (bytes 8..16).
    pub fn get_FirstVFBar0Address(&self) -> (r: u64)
        requires
            self.wf(),
        ensures
            r == u64_at(self.bytes(), 8),
    {
        read_u64(self.store, 8)
    }

    /// Writes `fld` to the `FirstVFBar0Address` field (bytes 8..16).
    pub fn set_FirstVFBar0Address(&mut self, fld: u64)
        requires
            old(self).wf(),
        ensures
            final(self).bytes() == splice(old(self).bytes(), 8, spec_u64_to_le_bytes(fld)),
            final(self).wf(),
            final(final(self).store)@ == final(old(self).store)@,
    {
        write_u64(self.store, 8, fld);
    }

    /// Writes `fld` to the `FirstVFBar1Address` field (bytes 16..24) and gives the view back.
    pub fn FirstVFBar1Address(self, fld: u64) -> (r: Self)
        requires
            self.wf(),
        ensures
            r.bytes() == splice(self.bytes(), 16, spec_u64_to_le_bytes(fld)),
            r.wf(),
            final(r.store)@ == final(self.store)@,
    {
        write_u64(self.store, 16, fld);
        self
    }

    /// Reads the `FirstVFBar1Address` field (bytes 16..24).
    pub fn get_FirstVFBar1Address(&self) -> (r: u64)
        requires
            self.wf(),
        ensures
            r == u64_at(self.bytes(), 16),
    {
        read_u64(self.store, 16)
    }

    /// Writes `fld` to the `FirstVFBar1Address` field (bytes 16..24).
    pub fn set_FirstVFBar1Address(&mut self, fld: u64)
        requires
            old(self).wf(),
        ensures
            final(self).bytes() == splice(old(self).bytes(), 16, spec_u64_to_le_bytes(fld)),
            final(self).wf(),
            final(final(self).store)@ == final(old(self).store)@,
    {
        write_u64(self.store, 16, fld);
    }

    /// Writes `fld` to the `FirstVFBar2Address` field (bytes 24..32) and gives the view back.
    pub fn FirstVFBar2Address(self, fld: u64) -> (r: Self)
        requires
            self.wf(),
        ensures
            r.bytes() == splice(self.bytes(), 24, spec_u64_to_le_bytes(fld)),
            r.wf(),
            final(r.store)@ == final(self.store)@,
    {
        write_u64(self.store, 24, fld);
        self
    }

    /// Reads the `FirstVFBar2Address` field (bytes 24..32).
    pub fn get_FirstVFBar2Address(&self) -> (r: u64)
        requires
            self.wf(),
        ensures
            r == u64_at(self.bytes(), 24),
    {
        read_u64(self.store, 24)
    }

    /// Writes `fld` to the `FirstVFBar2Address` field (bytes 24..32).
    pub fn set_FirstVFBar2Address(&mut self, fld: u64)
        requires
            old(self).wf(),
        ensures
            final(self).bytes() == splice(old(self).bytes(), 24, spec_u64_to_le_bytes(fld)),
            final(self).wf(),
            final(final(self).store)@ == final(old(self).store)@,
    {
        write_u64(self.store, 24, fld);
    }

    /// Writes `fld` to the `b64bitBar0` field (bytes 32..33) and gives the view back.
    pub fn b64bitBar0(self, fld: u8) -> (r: Self)
        requires
            self.wf(),
        ensures
            r.bytes() == splice(self.bytes(), 32, seq![fld]),
            r.wf(),
            final(r.store)@ == final(self.store)@,
    {
        write_u8(self.store, 32, fld);
        self
    }

    /// Reads the `b64bitBar0` field (bytes 32..33).
    pub fn get_b64bitBar0(&self) -> (r: u8)
        requires
            self.wf(),
        ensures
            r == self.bytes()[32],
    {
        read_u8(self.store, 32)
    }

    /// Writes `fld` to the `b64bitBar0` field (bytes 32..33).
    pub fn set_b64bitBar0(&mut self, fld: u8)
        requires
            old(self).wf(),
        ensures
            final(self).bytes() == splice(old(self).bytes(), 32, seq![fld]),
            final(self).wf(),
            final(final(self).store)@ == final(old(self).store)@,
    {
        write_u8(self.store, 32, fld);
    }

    /// Writes `fld` to the `b64bitBar1` field (bytes 33..34) and gives the view back.
    pub fn b64bitBar1(self, fld: u8) -> (r: Self)
        requires
            self.wf(),
        ensures
            r.bytes() == splice(self.bytes(), 33, seq![fld]),
            r.wf(),
            final(r.store)@ == final(self.store)@,
    {
        write_u8(self.store, 33, fld);
        self
    }

    /// Reads the `b64bitBar1` field (bytes 33..34).
    pub fn get_b64bitBar1(&self) -> (r: u8)
        requires
            self.wf(),
        ensures
            r == self.bytes()[33],
    {
        read_u8(self.store, 33)
    }

    /// Writes `fld` to the `b64bitBar1` field (bytes 33..34).
    pub fn set_b64bitBar1(&mut self, fld: u8)
        requires
            old(self).wf(),
        ensures
            final(self).bytes() == splice(old(self).bytes(), 33, seq![fld]),
            final(self).wf(),
            final(final(self).store)@ == final(old(self).store)@,
    {
        write_u8(self.store, 33, fld);
    }

    /// Writes `fld` to the `b64bitBar2` field (bytes 34..35) and gives the view back.
    pub fn b64bitBar2(self, fld: u8) -> (r: Self)
        requires
            self.wf(),
        ensures
            r.bytes() == splice(self.bytes(), 34, seq![fld]),
            r.wf(),
            final(r.store)@ == final(self.store)@,
    {
        write_u8(self.store, 34, fld);
        self
    }

    /// Reads the `b64bitBar2` field (bytes 34..35).
    pub fn get_b64bitBar2(&self) -> (r: u8)
        requires
            self.wf(),
        ensures
            r == self.bytes()[34],
    {
        read_u8(self.store, 34)
    }

    /// Writes `fld` to the `b64bitBar2` field (bytes 34..35).
    pub fn set_b64bitBar2(&mut self, fld: u8)
        requires
            old(self).wf(),
        ensures
            final(self).bytes() == splice(old(self).bytes(), 34, seq![fld]),
            final(self).wf(),
            final(final(self).store)@ == final(old(self).store)@,
    {
        write_u8(self.store, 34, fld);
    }

}

/// View of the firmware structure `s_EcidManufacturingInfo` (12 bytes).
pub struct s_EcidManufacturingInfo<'s> {
    /// The buffer from the first byte of the structure to the end.
    pub store: &'s mut [u8],
}

impl<'s> s_EcidManufacturingInfo<'s> {
    /// The bytes seen through this view.
    pub open spec fn bytes(&self) -> Seq<u8> {
        self.store@
    }

    /// The buffer holds at least the whole structure.
    pub open spec fn wf(&self) -> bool {
        self.store@.len() >= 12
    }

    /// Size of the structure in bytes.
    pub fn str_size() -> (n: usize)
        ensures
            n == 12,
    {
        12
    }

    /// Views `store` as this structure, starting at its first byte.
    pub fn new(store: &'s mut [u8]) -> (r: Self)
        requires
            old(store)@.len() >= 12,
        ensures
            r.bytes() == old(store)@,
            r.wf(),
            final(store)@ == final(r.store)@,
    {
        Self { store }
    }

    /// Writes `fld` to the `ecidLow` field (bytes 0..4) and gives the view back.
    pub fn ecidLow(self, fld: u32) -> (r: Self)
        requires
            self.wf(),
        ensures
            r.bytes() == splice(self.bytes(), 0, spec_u32_to_le_bytes(fld)),
            r.wf(),
            final(r.store)@ == final(self.store)@,
    {
        write_u32(self.store, 0, fld);
        self
    }

    /// Reads the `ecidLow` field (bytes 0..4).
    pub fn get_ecidLow(&self) -> (r: u32)
        requires
            self.wf(),
        ensures
            r == u32_at(self.bytes(), 0),
    {
        read_u32(self.store, 0)
    }

    /// Writes `fld` to the `ecidLow` field (bytes 0..4).
    pub fn set_ecidLow(&mut self, fld: u32)
        requires
            old(self).wf(),
        ensures
            final(self).bytes() == splice(old(self).bytes(), 0, spec_u32_to_le_bytes(fld)),
            final(self).wf(),
            final(final(self).store)@ == final(old(self).store)@,
    {
        write_u32(self.store, 0, fld);
    }

    /// Writes `fld` to the `ecidHigh` field (bytes 4..8) and gives the view back.
    pub fn ecidHigh(self, fld: u32) -> (r: Self)
        requires
            self.wf(),
        ensures
            r.bytes() == splice(self.bytes(), 4, spec_u32_to_le_bytes(fld)),
            r.wf(),
            final(r.store)@ == final(self.store)@,
    {
        write_u32(self.store, 4, fld);
        self
    }

    /// Reads the `ecidHigh` field (bytes 4..8).
    pub fn get_ecidHigh(&self) -> (r: u32)
        requires
            self.wf(),
        ensures
            r == u32_at(self.bytes(), 4),
    {
        read_u32(self.store, 4)
    }

    /// Writes `fld` to the `ecidHigh` field (bytes 4..8).
    pub fn set_ecidHigh(&mut self, fld: u32)
        requires
            old(self).wf(),
        ensures
            final(self).bytes() == splice(old(self).bytes(), 4, spec_u32_to_le_bytes(fld)),
            final(self).wf(),
            final(final(self).store)@ == final(old(self).store)@,
    {
        write_u32(self.store, 4, fld);
    }

    /// Writes `fld` to the `ecidExtended` field (bytes 8..12) and gives the view back.
    pub fn ecidExtended(self, fld: u32) -> (r: Self)
        requires
            self.wf(),
        ensures
            r.bytes() == splice(self.bytes(), 8, spec_u32_to_le_bytes(fld)),
            r.wf(),
            final(r.store)@ == final(self.store)@,
    {
        write_u32(self.store, 8, fld);
        self
    }

    /// Reads the `ecidExtended` field (bytes 8..12).
    pub fn get_ecidExtended(&self) -> (r: u32)
        requires
            self.wf(),
        ensures
            r == u32_at(self.bytes(), 8),
    {
        read_u32(self.store, 8)
    }

    /// Writes `fld` to the `ecidExtended` field (bytes 8..12).
    pub fn set_ecidExtended(&mut self, fld: u32)
        requires
            old(self).wf(),
        ensures
            final(self).bytes() == splice(old(self).bytes(), 8, spec_u32_to_le_bytes(fld)),
            final(self).wf(),
            final(final(self).store)@ == final(old(self).store)@,
    {
        write_u32(self.store, 8, fld);
    }

}

/// View of the firmware structure `s_GspStaticConfigInfo` (1656 bytes).
pub struct s_GspStaticConfigInfo<'s> {
    /// The buffer from the first byte of the structure to the end.
    pub store: &'s mut [u8],
}

impl<'s> s_GspStaticConfigInfo<'s> {
    /// The bytes seen through this view.
    pub open spec fn bytes(&self) -> Seq<u8> {
        self.store@
    }

    /// The buffer holds at least the whole structure.
    pub open spec fn wf(&self) -> bool {
        self.store@.len() >= 1656
    }

    /// Size of the structure in bytes.
    pub fn str_size() -> (n: usize)
        ensures
            n == 1656,
    {
        1656
    }

    /// Views `store` as this structure, starting at its first byte.
    pub fn new(store: &'s mut [u8]) -> (r: Self)
        requires
            old(store)@.len() >= 1656,
        ensures
            r.bytes() == old(store)@,
            r.wf(),
            final(store)@ == final(r.store)@,
    {
        Self { store }
    }

    /// Writes `fld` to the `grCapsBits` field (bytes 0..23) and gives the view back.
    pub fn grCapsBits(self, fld: [u8; 23]) -> (r: Self)
        requires
            self.wf(),
        ensures
            r.bytes() == splice(self.bytes(), 0, fld@),
            r.wf(),
            final(r.store)@ == final(self.store)@,
    {
        write_u8s(self.store, 0, &fld);
        self
    }

    /// Writes `fld` to the `grCapsBits` field (bytes 0..23).
    pub fn set_grCapsBits(&mut self, fld: [u8; 23])
        requires
            old(self).wf(),
        ensures
            final(self).bytes() == splice(old(self).bytes(), 0, fld@),
            final(self).wf(),
            final(final(self).store)@ == final(old(self).store)@,
    {
        write_u8s(self.store, 0, &fld);
    }

    /// Reads the `grCapsBits` array (bytes 0..23).
    pub fn get_grCapsBits(&mut self) -> (r: [u8; 23])
        requires
            old(self).wf(),
        ensures
            r@ == old(self).bytes().subrange(0, 23),
            final(self).bytes() == old(self).bytes(),
            final(final(self).store)@ == final(old(self).store)@,
    {
        read_u8s(self.store, 0)
    }

    /// View of the `gidInfo` substructure at byte 24.
    pub fn new_S_gidInfo(&mut self) -> (r: s_NV2080_CTRL_GPU_GET_GID_INFO_PARAMS<'_>)
        requires
            old(self).wf(),
        ensures
            r.bytes() == old(self).bytes().subrange(24, old(self).bytes().len() as int),
            r.wf(),
            final(self).bytes() == old(self).bytes().subrange(0, 24) + final(r.store)@,
            final(final(self).store)@ == final(old(self).store)@,
    {
        let (_head, tail) = self.store.split_at_mut(24);
        s_NV2080_CTRL_GPU_GET_GID_INFO_PARAMS { store: tail }
    }

    /// View of the `SKUInfo` substructure at byte 292.
    pub fn new_S_SKUInfo(&mut self) -> (r: s_NV2080_CTRL_BIOS_GET_SKU_INFO_PARAMS<'_>)
        requires
            old(self).wf(),
        ensures
            r.bytes() == old(self).bytes().subrange(292, old(self).bytes().len() as int),
            r.wf(),
            final(self).bytes() == old(self).bytes().subrange(0, 292) + final(r.store)@,
            final(final(self).store)@ == final(old(self).store)@,
    {
        let (_head, tail) = self.store.split_at_mut(292);
        s_NV2080_CTRL_BIOS_GET_SKU_INFO_PARAMS { store: tail }
    }

    /// View of the `fbRegionInfoParams` substructure at byte 344.
    pub fn new_S_fbRegionInfoParams(&mut self) -> (r: s_NV2080_CTRL_CMD_FB_GET_FB_REGION_INFO_PARAMS<'_>)
        requires
            old(self).wf(),
        ensures
            r.bytes() == old(self).bytes().subrange(344, old(self).bytes().len() as int),
            r.wf(),
            final(self).bytes() == old(self).bytes().subrange(0, 344) + final(r.store)@,
            final(final(self).store)@ == final(old(self).store)@,
    {
        let (_head, tail) = self.store.split_at_mut(344);
        s_NV2080_CTRL_CMD_FB_GET_FB_REGION_INFO_PARAMS { store: tail }
    }

    /// View of the `sriovCaps` substructure at byte 1120.
    pub fn new_S_sriovCaps(&mut self) -> (r: s_NV0080_CTRL_GPU_GET_SRIOV_CAPS_PARAMS<'_>)
        requires
            old(self).wf(),
        ensures
            r.bytes() == old(self).bytes().subrange(1120, old(self).bytes().len() as int),
            r.wf(),
            final(self).bytes() == old(self).bytes().subrange(0, 1120) + final(r.store)@,
            final(final(self).store)@ == final(old(self).store)@,
    {
        let (_head, tail) = self.store.split_at_mut(1120);
        s_NV0080_CTRL_GPU_GET_SRIOV_CAPS_PARAMS { store: tail }
    }

    /// Writes `fld` to the `sriovMaxGfid` field (bytes 1200..1204) and gives the view back.
    pub fn sriovMaxGfid(self, fld: u32) -> (r: Self)
        requires
            self.wf(),
        ensures
            r.bytes() == splice(self.bytes(), 1200, spec_u32_to_le_bytes(fld)),
            r.wf(),
            final(r.store)@ == final(self.store)@,
    {
        write_u32(self.store, 1200, fld);
        self
    }

    /// Reads the `sriovMaxGfid` field (bytes 1200..1204).
    pub fn get_sriovMaxGfid(&self) -> (r: u32)
        requires
            self.wf(),
        ensures
            r == u32_at(self.bytes(), 1200),
    {
        read_u32(self.store, 1200)
    }

    /// Writes `fld` to the `sriovMaxGfid` field (bytes 1200..1204).
    pub fn set_sriovMaxGfid(&mut self, fld: u32)
        requires
            old(self).wf(),
        ensures
            final(self).bytes() == splice(old(self).bytes(), 1200, spec_u32_to_le_bytes(fld)),
            final(self).wf(),
            final(final(self).store)@ == final(old(self).store)@,
    {
        write_u32(self.store, 1200, fld);
    }

    /// Writes `fld` to the `engineCaps` field (bytes 1204..1216) and gives the view back.
    pub fn engineCaps(self, fld: [u32; 3]) -> (r: Self)
        requires
            self.wf(),
        ensures
            r.bytes() == splice(self.bytes(), 1204, u32s_to_le(fld@)),
            r.wf(),
            final(r.store)@ == final(self.store)@,
    {
        write_u32s(self.store, 1204, &fld);
        self
    }

    /// Writes `fld` to the `engineCaps` field (bytes 1204..1216).
    pub fn set_engineCaps(&mut self, fld: [u32; 3])
        requires
            old(self).wf(),
        ensures
            final(self).bytes() == splice(old(self).bytes(), 1204, u32s_to_le(fld@)),
            final(self).wf(),
            final(final(self).store)@ == final(old(self).store)@,
    {
        write_u32s(self.store, 1204, &fld);
    }

    /// Reads the `engineCaps` array (bytes 1204..1216).
    pub fn get_engineCaps(&mut self) -> (r: [u32; 3])
        requires
            old(self).wf(),
        ensures
            r@ == u32s_at(old(self).bytes(), 1204, 3),
            final(self).bytes() == old(self).bytes(),
            final(final(self).store)@ == final(old(self).store)@,
    {
        read_u32s(self.store, 1204)
    }

    /// Writes `fld` to the `poisonFuseEnabled` field (bytes 1216..1217) and gives the view back.
    pub fn poisonFuseEnabled(self, fld: u8) -> (r: Self)
        requires
            self.wf(),
        ensures
            r.bytes() == splice(self.bytes(), 1216, seq![fld]),
            r.wf(),
            final(r.store)@ == final(self.store)@,
    {
        write_u8(self.store, 1216, fld);
        self
    }

    /// Reads the `poisonFuseEnabled` field (bytes 1216..1217).
    pub fn get_poisonFuseEnabled(&self) -> (r: u8)
        requires
            self.wf(),
        ensures
            r == self.bytes()[1216],
    {
        read_u8(self.store, 1216)
    }

    /// Writes `fld` to the `poisonFuseEnabled` field (bytes 1216..1217).
    pub fn set_poisonFuseEnabled(&mut self, fld: u8)
        requires
            old(self).wf(),
        ensures
            final(self).bytes() == splice(old(self).bytes(), 1216, seq![fld]),
            final(self).wf(),
            final(final(self).store)@ == final(old(self).store)@,
    {
        write_u8(self.store, 1216, fld);
    }

    /// Writes `fld` to the `fb_length` field (bytes 1224..1232) and gives the view back.
    pub fn fb_length(self, fld: u64) -> (r: Self)
        requires
            self.wf(),
        ensures
            r.bytes() == splice(self.bytes(), 1224, spec_u64_to_le_bytes(fld)),
            r.wf(),
            final(r.store)@ == final(self.store)@,
    {
        write_u64(self.store, 1224, fld);
        self
    }

    /// Reads the `fb_length` field (bytes 1224..1232).
    pub fn get_fb_length(&self) -> (r: u64)
        requires
            self.wf(),
        ensures
            r == u64_at(self.bytes(), 1224),
    {
        read_u64(self.store, 1224)
    }

    /// Writes `fld` to the `fb_length` field (bytes 1224..1232).
    pub fn set_fb_length(&mut self, fld: u64)
        requires
            old(self).wf(),
        ensures
            final(self).bytes() == splice(old(self).bytes(), 1224, spec_u64_to_le_bytes(fld)),
            final(self).wf(),
            final(final(self).store)@ == final(old(self).store)@,
    {
        write_u64(self.store, 1224, fld);
    }

    /// Writes `fld` to the `fbio_mask` field (bytes 1232..1240) and gives the view back.
    pub fn fbio_mask(self, fld: u64) -> (r: Self)
        requires
            self.wf(),
        ensures
            r.bytes() == splice(self.bytes(), 1232, spec_u64_to_le_bytes(fld)),
            r.wf(),
            final(r.store)@ == final(self.store)@,
    {
        write_u64(self.store, 1232, fld);
        self
    }

    /// Reads the `fbio_mask` field (bytes 1232..1240).
    pub fn get_fbio_mask(&self) -> (r: u64)
        requires
            self.wf(),
        ensures
            r == u64_at(self.bytes(), 1232),
    {
        read_u64(self.store, 1232)
    }

    /// Writes `fld` to the `fbio_mask` field (bytes 1232..1240).
    pub fn set_fbio_mask(&mut self, fld: u64)
        requires
            old(self).wf(),
        ensures
            final(self).bytes() == splice(old(self).bytes(), 1232, spec_u64_to_le_bytes(fld)),
            final(self).wf(),
            final(final(self).store)@ == final(old(self).store)@,
    {
        write_u64(self.store, 1232, fld);
    }

    /// Writes `fld` to the `fb_bus_width` field (bytes 1240..1244) and gives the view back.
    pub fn fb_bus_width(self, fld: u32) -> (r: Self)
        requires
            self.wf(),
        ensures
            r.bytes() == splice(self.bytes(), 1240, spec_u32_to_le_bytes(fld)),
            r.wf(),
            final(r.store)@ == final(self.store)@,
    {
        write_u32(self.store, 1240, fld);
        self
    }

    /// Reads the `fb_bus_width` field (bytes 1240..1244).
    pub fn get_fb_bus_width(&self) -> (r: u32)
        requires
            self.wf(),
        ensures
            r == u32_at(self.bytes(), 1240),
    {
        read_u32(self.store, 1240)
    }

    /// Writes `fld` to the `fb_bus_width` field (bytes 1240..1244).
    pub fn set_fb_bus_width(&mut self, fld: u32)
        requires
            old(self).wf(),
        ensures
            final(self).bytes() == splice(old(self).bytes(), 1240, spec_u32_to_le_bytes(fld)),
            final(self).wf(),
            final(final(self).store)@ == final(old(self).store)@,
    {
        write_u32(self.store, 1240, fld);
    }

    /// Writes `fld` to the `fb_ram_type` field (bytes 1244..1248) and gives the view back.
    pub fn fb_ram_type(self, fld: u32) -> (r: Self)
        requires
            self.wf(),
        ensures
            r.bytes() == splice(self.bytes(), 1244, spec_u32_to_le_bytes(fld)),
            r.wf(),
            final(r.store)@ == final(self.store)@,
    {
        write_u32(self.store, 1244, fld);
        self
    }

    /// Reads the `fb_ram_type` field (bytes 1244..1248).
    pub fn get_fb_ram_type(&self) -> (r: u32)
        requires
            self.wf(),
        ensures
            r == u32_at(self.bytes(), 1244),
    {
        read_u32(self.store, 1244)
    }

    /// Writes `fld` to the `fb_ram_type` field (bytes 1244..1248).
    pub fn set_fb_ram_type(&mut self, fld: u32)
        requires
            old(self).wf(),
        ensures
            final(self).bytes() == splice(old(self).bytes(), 1244, spec_u32_to_le_bytes(fld)),
            final(self).wf(),
            final(final(self).store)@ == final(old(self).store)@,
    {
        write_u32(self.store, 1244, fld);
    }

    /// Writes `fld` to the `fbp_mask` field (bytes 1248..1256) and gives the view back.
    pub fn fbp_mask(self, fld: u64) -> (r: Self)
        requires
            self.wf(),
        ensures
            r.bytes() == splice(self.bytes(), 1248, spec_u64_to_le_bytes(fld)),
            r.wf(),
            final(r.store)@ == final(self.store)@,
    {
        write_u64(self.store, 1248, fld);
        self
    }

    /// Reads the `fbp_mask` field (bytes 1248..1256).
    pub fn get_fbp_mask(&self) -> (r: u64)
        requires
            self.wf(),
        ensures
            r == u64_at(self.bytes(), 1248),
    {
        read_u64(self.store, 1248)
    }

    /// Writes `fld` to the `fbp_mask` field (bytes 1248..1256).
    pub fn set_fbp_mask(&mut self, fld: u64)
        requires
            old(self).wf(),
        ensures
            final(self).bytes() == splice(old(self).bytes(), 1248, spec_u64_to_le_bytes(fld)),
            final(self).wf(),
            final(final(self).store)@ == final(old(self).store)@,
    {
        write_u64(self.store, 1248, fld);
    }

    /// Writes `fld` to the `l2_cache_size` field (bytes 1256..1260) and gives the view back.
    pub fn l2_cache_size(self, fld: u32) -> (r: Self)
        requires
            self.wf(),
        ensures
            r.bytes() == splice(self.bytes(), 1256, spec_u32_to_le_bytes(fld)),
            r.wf(),
            final(r.store)@ == final(self.store)@,
    {
        write_u32(self.store, 1256, fld);
        self
    }

    /// Reads the `l2_cache_size` field (bytes 1256..1260).
    pub fn get_l2_cache_size(&self) -> (r: u32)
        requires
            self.wf(),
        ensures
            r == u32_at(self.bytes(), 1256),
    {
        read_u32(self.store, 1256)
    }

    /// Writes `fld` to the `l2_cache_size` field (bytes 1256..1260).
    pub fn set_l2_cache_size(&mut self, fld: u32)
        requires
            old(self).wf(),
        ensures
            final(self).bytes() == splice(old(self).bytes(), 1256, spec_u32_to_le_bytes(fld)),
            final(self).wf(),
            final(final(self).store)@ == final(old(self).store)@,
    {
        write_u32(self.store, 1256, fld);
    }

    /// Writes `fld` to the `gpuNameString` field (bytes 1260..1324) and gives the view back.
    pub fn gpuNameString(self, fld: [u8; 64]) -> (r: Self)
        requires
            self.wf(),
        ensures
            r.bytes() == splice(self.bytes(), 1260, fld@),
            r.wf(),
            final(r.store)@ == final(self.store)@,
    {
        write_u8s(self.store, 1260, &fld);
        self
    }

    /// Writes `fld` to the `gpuNameString` field (bytes 1260..1324).
    pub fn set_gpuNameString(&mut self, fld: [u8; 64])
        requires
            old(self).wf(),
        ensures
            final(self).bytes() == splice(old(self).bytes(), 1260, fld@),
            final(self).wf(),
            final(final(self).store)@ == final(old(self).store)@,
    {
        write_u8s(self.store, 1260, &fld);
    }

    /// Reads the `gpuNameString` array (bytes 1260..1324).
    pub fn get_gpuNameString(&mut self) -> (r: [u8; 64])
        requires
            old(self).wf(),
        ensures
            r@ == old(self).bytes().subrange(1260, 1324),
            final(self).bytes() == old(self).bytes(),
            final(final(self).store)@ == final(old(self).store)@,
    {
        read_u8s(self.store, 1260)
    }

    /// Writes `fld` to the `gpuShortNameString` field (bytes 1324..1388) and gives the view back.
    pub fn gpuShortNameString(self, fld: [u8; 64]) -> (r: Self)
        requires
            self.wf(),
        ensures
            r.bytes() == splice(self.bytes(), 1324, fld@),
            r.wf(),
            final(r.store)@ == final(self.store)@,
    {
        write_u8s(self.store, 1324, &fld);
        self
    }

    /// Writes `fld` to the `gpuShortNameString` field (bytes 1324..1388).
    pub fn set_gpuShortNameString(&mut self, fld: [u8; 64])
        requires
            old(self).wf(),
        ensures
            final(self).bytes() == splice(old(self).bytes(), 1324, fld@),
            final(self).wf(),
            final(final(self).store)@ == final(old(self).store)@,
    {
        write_u8s(self.store, 1324, &fld);
    }

    /// Reads the `gpuShortNameString` array (bytes 1324..1388).
    pub fn get_gpuShortNameString(&mut self) -> (r: [u8; 64])
        requires
            old(self).wf(),
        ensures
            r@ == old(self).bytes().subrange(1324, 1388),
            final(self).bytes() == old(self).bytes(),
            final(final(self).store)@ == final(old(self).store)@,
    {
        read_u8s(self.store, 1324)
    }

    /// Writes `fld` to the `gpuNameString_Unicode` field (bytes 1388..1516) and gives the view back.
    pub fn gpuNameString_Unicode(self, fld: [u16; 64]) -> (r: Self)
        requires
            self.wf(),
        ensures
            r.bytes() == splice(self.bytes(), 1388, u16s_to_le(fld@)),
            r.wf(),
            final(r.store)@ == final(self.store)@,
    {
        write_u16s(self.store, 1388, &fld);
        self
    }

    /// Writes `fld` to the `gpuNameString_Unicode` field (bytes 1388..1516).
    pub fn set_gpuNameString_Unicode(&mut self, fld: [u16; 64])
        requires
            old(self).wf(),
        ensures
            final(self).bytes() == splice(old(self).bytes(), 1388, u16s_to_le(fld@)),
            final(self).wf(),
            final(final(self).store)@ == final(old(self).store)@,
    {
        write_u16s(self.store, 1388, &fld);
    }

    /// Reads the `gpuNameString_Unicode` array (bytes 1388..1516).
    pub fn get_gpuNameString_Unicode(&mut self) -> (r: [u16; 64])
        requires
            old(self).wf(),
        ensures
            r@ == u16s_at(old(self).bytes(), 1388, 64),
            final(self).bytes() == old(self).bytes(),
            final(final(self).store)@ == final(old(self).store)@,
    {
        read_u16s(self.store, 1388)
    }

    /// Writes `fld` to the `bGpuInternalSku` field (bytes 1516..1517) and gives the view back.
    pub fn bGpuInternalSku(self, fld: u8) -> (r: Self)
        requires
            self.wf(),
        ensures
            r.bytes() == splice(self.bytes(), 1516, seq![fld]),
            r.wf(),
            final(r.store)@ == final(self.store)@,
    {
        write_u8(self.store, 1516, fld);
        self
    }

    /// Reads the `bGpuInternalSku` field (bytes 1516..1517).
    pub fn get_bGpuInternalSku(&self) -> (r: u8)
        requires
            self.wf(),
        ensures
            r == self.bytes()[1516],
    {
        read_u8(self.store, 1516)
    }

    /// Writes `fld` to the `bGpuInternalSku` field (bytes 1516..1517).
    pub fn set_bGpuInternalSku(&mut self, fld: u8)
        requires
            old(self).wf(),
        ensures
            final(self).bytes() == splice(old(self).bytes(), 1516, seq![fld]),
            final(self).wf(),
            final(final(self).store)@ == final(old(self).store)@,
    {
        write_u8(self.store, 1516, fld);
    }

    /// Writes `fld` to the `bIsQuadroGeneric` field (bytes 1517..1518) and gives the view back.
    pub fn bIsQuadroGeneric(self, fld: u8) -> (r: Self)
        requires
            self.wf(),
        ensures
            r.bytes() == splice(self.bytes(), 1517, seq![fld]),
            r.wf(),
            final(r.store)@ == final(self.store)@,
    {
        write_u8(self.store, 1517, fld);
        self
    }

    /// Reads the `bIsQuadroGeneric` field (bytes 1517..1518).
    pub fn get_bIsQuadroGeneric(&self) -> (r: u8)
        requires
            self.wf(),
        ensures
            r == self.bytes()[1517],
    {
        read_u8(self.store, 1517)
    }

    /// Writes `fld` to the `bIsQuadroGeneric` field (bytes 1517..1518).
    pub fn set_bIsQuadroGeneric(&mut self, fld: u8)
        requires
            old(self).wf(),
        ensures
            final(self).bytes() == splice(old(self).bytes(), 1517, seq![fld]),
            final(self).wf(),
            final(final(self).store)@ == final(old(self).store)@,
    {
        write_u8(self.store, 1517, fld);
    }

    /// Writes `fld` to the `bIsQuadroAd` field (bytes 1518..1519) and gives the view back.
    pub fn bIsQuadroAd(self, fld: u8) -> (r: Self)
        requires
            self.wf(),
        ensures
            r.bytes() == splice(self.bytes(), 1518, seq![fld]),
            r.wf(),
            final(r.store)@ == final(self.store)@,
    {
        write_u8(self.store, 1518, fld);
        self
    }

    /// Reads the `bIsQuadroAd` field (bytes 1518..1519).
    pub fn get_bIsQuadroAd(&self) -> (r: u8)
        requires
            self.wf(),
        ensures
            r == self.bytes()[1518],
    {
        read_u8(self.store, 1518)
    }

    /// Writes `fld` to the `bIsQuadroAd` field (bytes 1518..1519).
    pub fn set_bIsQuadroAd(&mut self, fld: u8)
        requires
            old(self).wf(),
        ensures
            final(self).bytes() == splice(old(self).bytes(), 1518, seq![fld]),
            final(self).wf(),
            final(final(self).store)@ == final(old(self).store)@,
    {
        write_u8(self.store, 1518, fld);
    }

    /// Writes `fld` to the `bIsNvidiaNvs` field (bytes 1519..1520) and gives the view back.
    pub fn bIsNvidiaNvs(self, fld: u8) -> (r: Self)
        requires
            self.wf(),
        ensures
            r.bytes() == splice(self.bytes(), 1519, seq![fld]),
            r.wf(),
            final(r.store)@ == final(self.store)@,
    {
        write_u8(self.store, 1519, fld);
        self
    }

    /// Reads the `bIsNvidiaNvs` field (bytes 1519..1520).
    pub fn get_bIsNvidiaNvs(&self) -> (r: u8)
        requires
            self.wf(),
        ensures
            r == self.bytes()[1519],
    {
        read_u8(self.store, 1519)
    }

    /// Writes `fld` to the `bIsNvidiaNvs` field (bytes 1519..1520).
    pub fn set_bIsNvidiaNvs(&mut self, fld: u8)
        requires
            old(self).wf(),
        ensures
            final(self).bytes() == splice(old(self).bytes(), 1519, seq![fld]),
            final(self).wf(),
            final(final(self).store)@ == final(old(self).store)@,
    {
        write_u8(self.store, 1519, fld);
    }

    /// Writes `fld` to the `bIsVgx` field (bytes 1520..1521) and gives the view back.
    pub fn bIsVgx(self, fld: u8) -> (r: Self)
        requires
            self.wf(),
        ensures
            r.bytes() == splice(self.bytes(), 1520, seq![fld]),
            r.wf(),
            final(r.store)@ == final(self.store)@,
    {
        write_u8(self.store, 1520, fld);
        self
    }

    /// Reads the `bIsVgx` field (bytes 1520..1521).
    pub fn get_bIsVgx(&self) -> (r: u8)
        requires
            self.wf(),
        ensures
            r == self.bytes()[1520],
    {
        read_u8(self.store, 1520)
    }

    /// Writes `fld` to the `bIsVgx` field (bytes 1520..1521).
    pub fn set_bIsVgx(&mut self, fld: u8)
        requires
            old(self).wf(),
        ensures
            final(self).bytes() == splice(old(self).bytes(), 1520, seq![fld]),
            final(self).wf(),
            final(final(self).store)@ == final(old(self).store)@,
    {
        write_u8(self.store, 1520, fld);
    }

    /// Writes `fld` to the `bGeforceSmb` field (bytes 1521..1522) and gives the view back.
    pub fn bGeforceSmb(self, fld: u8) -> (r: Self)
        requires
            self.wf(),
        ensures
            r.bytes() == splice(self.bytes(), 1521, seq![fld]),
            r.wf(),
            final(r.store)@ == final(self.store)@,
    {
        write_u8(self.store, 1521, fld);
        self
    }

    /// Reads the `bGeforceSmb` field (bytes 1521..1522).
    pub fn get_bGeforceSmb(&self) -> (r: u8)
        requires
            self.wf(),
        ensures
            r == self.bytes()[1521],
    {
        read_u8(self.store, 1521)
    }

    /// Writes `fld` to the `bGeforceSmb` field (bytes 1521..1522).
    pub fn set_bGeforceSmb(&mut self, fld: u8)
        requires
            old(self).wf(),
        ensures
            final(self).bytes() == splice(old(self).bytes(), 1521, seq![fld]),
            final(self).wf(),
            final(final(self).store)@ == final(old(self).store)@,
    {
        write_u8(self.store, 1521, fld);
    }

    /// Writes `fld` to the `bIsTitan` field (bytes 1522..1523) and gives the view back.
    pub fn bIsTitan(self, fld: u8) -> (r: Self)
        requires
            self.wf(),
        ensures
            r.bytes() == splice(self.bytes(), 1522, seq![fld]),
            r.wf(),
            final(r.store)@ == final(self.store)@,
    {
        write_u8(self.store, 1522, fld);
        self
    }

    /// Reads the `bIsTitan` field (bytes 1522..1523).
    pub fn get_bIsTitan(&self) -> (r: u8)
        requires
            self.wf(),
        ensures
            r == self.bytes()[1522],
    {
        read_u8(self.store, 1522)
    }

    /// Writes `fld` to the `bIsTitan` field (bytes 1522..1523).
    pub fn set_bIsTitan(&mut self, fld: u8)
        requires
            old(self).wf(),
        ensures
            final(self).bytes() == splice(old(self).bytes(), 1522, seq![fld]),
            final(self).wf(),
            final(final(self).store)@ == final(old(self).store)@,
    {
        write_u8(self.store, 1522, fld);
    }

    /// Writes `fld` to the `bIsTesla` field (bytes 1523..1524) and gives the view back.
    pub fn bIsTesla(self, fld: u8) -> (r: Self)
        requires
            self.wf(),
        ensures
            r.bytes() == splice(self.bytes(), 1523, seq![fld]),
            r.wf(),
            final(r.store)@ == final(self.store)@,
    {
        write_u8(self.store, 1523, fld);
        self
    }

    /// Reads the `bIsTesla` field (bytes 1523..1524).
    pub fn get_bIsTesla(&self) -> (r: u8)
        requires
            self.wf(),
        ensures
            r == self.bytes()[1523],
    {
        read_u8(self.store, 1523)
    }

    /// Writes `fld` to the `bIsTesla` field (bytes 1523..1524).
    pub fn set_bIsTesla(&mut self, fld: u8)
        requires
            old(self).wf(),
        ensures
            final(self).bytes() == splice(old(self).bytes(), 1523, seq![fld]),
            final(self).wf(),
            final(final(self).store)@ == final(old(self).store)@,
    {
        write_u8(self.store, 1523, fld);
    }

    /// Writes `fld` to the `bIsMobile` field (bytes 1524..1525) and gives the view back.
    pub fn bIsMobile(self, fld: u8) -> (r: Self)
        requires
            self.wf(),
        ensures
            r.bytes() == splice(self.bytes(), 1524, seq![fld]),
            r.wf(),
            final(r.store)@ == final(self.store)@,
    {
        write_u8(self.store, 1524, fld);
        self
    }

    /// Reads the `bIsMobile` field (bytes 1524..1525).
    pub fn get_bIsMobile(&self) -> (r: u8)
        requires
            self.wf(),
        ensures
            r == self.bytes()[1524],
    {
        read_u8(self.store, 1524)
    }

    /// Writes `fld` to the `bIsMobile` field (bytes 1524..1525).
    pub fn set_bIsMobile(&mut self, fld: u8)
        requires
            old(self).wf(),
        ensures
            final(self).bytes() == splice(old(self).bytes(), 1524, seq![fld]),
            final(self).wf(),
            final(final(self).store)@ == final(old(self).store)@,
    {
        write_u8(self.store, 1524, fld);
    }

    /// Writes `fld` to the `bIsGc6Rtd3Allowed` field (bytes 1525..1526) and gives the view back.
    pub fn bIsGc6Rtd3Allowed(self, fld: u8) -> (r: Self)
        requires
            self.wf(),
        ensures
            r.bytes() == splice(self.bytes(), 1525, seq![fld]),
            r.wf(),
            final(r.store)@ == final(self.store)@,
    {
        write_u8(self.store, 1525, fld);
        self
    }

    /// Reads the `bIsGc6Rtd3Allowed` field (bytes 1525..1526).
    pub fn get_bIsGc6Rtd3Allowed(&self) -> (r: u8)
        requires
            self.wf(),
        ensures
            r == self.bytes()[1525],
    {
        read_u8(self.store, 1525)
    }

    /// Writes `fld` to the `bIsGc6Rtd3Allowed` field (bytes 1525..1526).
    pub fn set_bIsGc6Rtd3Allowed(&mut self, fld: u8)
        requires
            old(self).wf(),
        ensures
            final(self).bytes() == splice(old(self).bytes(), 1525, seq![fld]),
            final(self).wf(),
            final(final(self).store)@ == final(old(self).store)@,
    {
        write_u8(self.store, 1525, fld);
    }

    /// Writes `fld` to the `bIsGc8Rtd3Allowed` field (bytes 1526..1527) and gives the view back.
    pub fn bIsGc8Rtd3Allowed(self, fld: u8) -> (r: Self)
        requires
            self.wf(),
        ensures
            r.bytes() == splice(self.bytes(), 1526, seq![fld]),
            r.wf(),
            final(r.store)@ == final(self.store)@,
    {
        write_u8(self.store, 1526, fld);
        self
    }

    /// Reads the `bIsGc8Rtd3Allowed` field (bytes 1526..1527).
    pub fn get_bIsGc8Rtd3Allowed(&self) -> (r: u8)
        requires
            self.wf(),
        ensures
            r == self.bytes()[1526],
    {
        read_u8(self.store, 1526)
    }

    /// Writes `fld` to the `bIsGc8Rtd3Allowed` field (bytes 1526..1527).
    pub fn set_bIsGc8Rtd3Allowed(&mut self, fld: u8)
        requires
            old(self).wf(),
        ensures
            final(self).bytes() == splice(old(self).bytes(), 1526, seq![fld]),
            final(self).wf(),
            final(final(self).store)@ == final(old(self).store)@,
    {
        write_u8(self.store, 1526, fld);
    }

    /// Writes `fld` to the `bIsGcOffRtd3Allowed` field (bytes 1527..1528) and gives the view back.
    pub fn bIsGcOffRtd3Allowed(self, fld: u8) -> (r: Self)
        requires
            self.wf(),
        ensures
            r.bytes() == splice(self.bytes(), 1527, seq![fld]),
            r.wf(),
            final(r.store)@ == final(self.store)@,
    {
        write_u8(self.store, 1527, fld);
        self
    }

    /// Reads the `bIsGcOffRtd3Allowed` field (bytes 1527..1528).
    pub fn get_bIsGcOffRtd3Allowed(&self) -> (r: u8)
        requires
            self.wf(),
        ensures
            r == self.bytes()[1527],
    {
        read_u8(self.store, 1527)
    }

    /// Writes `fld` to the `bIsGcOffRtd3Allowed` field (bytes 1527..1528).
    pub fn set_bIsGcOffRtd3Allowed(&mut self, fld: u8)
        requires
            old(self).wf(),
        ensures
            final(self).bytes() == splice(old(self).bytes(), 1527, seq![fld]),
            final(self).wf(),
            final(final(self).store)@ == final(old(self).store)@,
    {
        write_u8(self.store, 1527, fld);
    }

    /// Writes `fld` to the `bIsGcoffLegacyAllowed` field (bytes 1528..1529) and gives the view back.
    pub fn bIsGcoffLegacyAllowed(self, fld: u8) -> (r: Self)
        requires
            self.wf(),
        ensures
            r.bytes() == splice(self.bytes(), 1528, seq![fld]),
            r.wf(),
            final(r.store)@ == final(self.store)@,
    {
        write_u8(self.store, 1528, fld);
        self
    }

    /// Reads the `bIsGcoffLegacyAllowed` field (bytes 1528..1529).
    pub fn get_bIsGcoffLegacyAllowed(&self) -> (r: u8)
        requires
            self.wf(),
        ensures
            r == self.bytes()[1528],
    {
        read_u8(self.store, 1528)
    }

    /// Writes `fld` to the `bIsGcoffLegacyAllowed` field (bytes 1528..1529).
    pub fn set_bIsGcoffLegacyAllowed(&mut self, fld: u8)
        requires
            old(self).wf(),
        ensures
            final(self).bytes() == splice(old(self).bytes(), 1528, seq![fld]),
            final(self).wf(),
            final(final(self).store)@ == final(old(self).store)@,
    {
        write_u8(self.store, 1528, fld);
    }

    /// Writes `fld` to the `bIsMigSupported` field (bytes 1529..1530) and gives the view back.
    pub fn bIsMigSupported(self, fld: u8) -> (r: Self)
        requires
            self.wf(),
        ensures
            r.bytes() == splice(self.bytes(), 1529, seq![fld]),
            r.wf(),
            final(r.store)@ == final(self.store)@,
    {
        write_u8(self.store, 1529, fld);
        self
    }

    /// Reads the `bIsMigSupported` field (bytes 1529..1530).
    pub fn get_bIsMigSupported(&self) -> (r: u8)
        requires
            self.wf(),
        ensures
            r == self.bytes()[1529],
    {
        read_u8(self.store, 1529)
    }

    /// Writes `fld` to the `bIsMigSupported` field (bytes 1529..1530).
    pub fn set_bIsMigSupported(&mut self, fld: u8)
        requires
            old(self).wf(),
        ensures
            final(self).bytes() == splice(old(self).bytes(), 1529, seq![fld]),
            final(self).wf(),
            final(final(self).store)@ == final(old(self).store)@,
    {
        write_u8(self.store, 1529, fld);
    }

    /// Writes `fld` to the `RTD3GC6TotalBoardPower` field (bytes 1530..1532) and gives the view back.
    pub fn RTD3GC6TotalBoardPower(self, fld: u16) -> (r: Self)
        requires
            self.wf(),
        ensures
            r.bytes() == splice(self.bytes(), 1530, spec_u16_to_le_bytes(fld)),
            r.wf(),
            final(r.store)@ == final(self.store)@,
    {
        write_u16(self.store, 1530, fld);
        self
    }

    /// Reads the `RTD3GC6TotalBoardPower` field (bytes 1530..1532).
    pub fn get_RTD3GC6TotalBoardPower(&self) -> (r: u16)
        requires
            self.wf(),
        ensures
            r == u16_at(self.bytes(), 1530),
    {
        read_u16(self.store, 1530)
    }

    /// Writes `fld` to the `RTD3GC6TotalBoardPower` field (bytes 1530..1532).
    pub fn set_RTD3GC6TotalBoardPower(&mut self, fld: u16)
        requires
            old(self).wf(),
        ensures
            final(self).bytes() == splice(old(self).bytes(), 1530, spec_u16_to_le_bytes(fld)),
            final(self).wf(),
            final(final(self).store)@ == final(old(self).store)@,
    {
        write_u16(self.store, 1530, fld);
    }

    /// Writes `fld` to the `RTD3GC6PerstDelay` field (bytes 1532..1534) and gives the view back.
    pub fn RTD3GC6PerstDelay(self, fld: u16) -> (r: Self)
        requires
            self.wf(),
        ensures
            r.bytes() == splice(self.bytes(), 1532, spec_u16_to_le_bytes(fld)),
            r.wf(),
            final(r.store)@ == final(self.store)@,
    {
        write_u16(self.store, 1532, fld);
        self
    }

    /// Reads the `RTD3GC6PerstDelay` field (bytes 1532..1534).
    pub fn get_RTD3GC6PerstDelay(&self) -> (r: u16)
        requires
            self.wf(),
        ensures
            r == u16_at(self.bytes(), 1532),
    {
        read_u16(self.store, 1532)
    }

    /// Writes `fld` to the `RTD3GC6PerstDelay` field (bytes 1532..1534).
    pub fn set_RTD3GC6PerstDelay(&mut self, fld: u16)
        requires
            old(self).wf(),
        ensures
            final(self).bytes() == splice(old(self).bytes(), 1532, spec_u16_to_le_bytes(fld)),
            final(self).wf(),
            final(final(self).store)@ == final(old(self).store)@,
    {
        write_u16(self.store, 1532, fld);
    }

    /// Writes `fld` to the `bar1PdeBase` field (bytes 1536..1544) and gives the view back.
    pub fn bar1PdeBase(self, fld: u64) -> (r: Self)
        requires
            self.wf(),
        ensures
            r.bytes() == splice(self.bytes(), 1536, spec_u64_to_le_bytes(fld)),
            r.wf(),
            final(r.store)@ == final(self.store)@,
    {
        write_u64(self.store, 1536, fld);
        self
    }

    /// Reads the `bar1PdeBase` field (bytes 1536..1544).
    pub fn get_bar1PdeBase(&self) -> (r: u64)
        requires
            self.wf(),
        ensures
            r == u64_at(self.bytes(), 1536),
    {
        read_u64(self.store, 1536)
    }

    /// Writes `fld` to the `bar1PdeBase` field (bytes 1536..1544).
    pub fn set_bar1PdeBase(&mut self, fld: u64)
        requires
            old(self).wf(),
        ensures
            final(self).bytes() == splice(old(self).bytes(), 1536, spec_u64_to_le_bytes(fld)),
            final(self).wf(),
            final(final(self).store)@ == final(old(self).store)@,
    {
        write_u64(self.store, 1536, fld);
    }

    /// Writes `fld` to the `bar2PdeBase` field (bytes 1544..1552) and gives the view back.
    pub fn bar2PdeBase(self, fld: u64) -> (r: Self)
        requires
            self.wf(),
        ensures
            r.bytes() == splice(self.bytes(), 1544, spec_u64_to_le_bytes(fld)),
            r.wf(),
            final(r.store)@ == final(self.store)@,
    {
        write_u64(self.store, 1544, fld);
        self
    }

    /// Reads the `bar2PdeBase` field (bytes 1544..1552).
    pub fn get_bar2PdeBase(&self) -> (r: u64)
        requires
            self.wf(),
        ensures
            r == u64_at(self.bytes(), 1544),
    {
        read_u64(self.store, 1544)
    }

    /// Writes `fld` to the `bar2PdeBase` field (bytes 1544..1552).
    pub fn set_bar2PdeBase(&mut self, fld: u64)
        requires
            old(self).wf(),
        ensures
            final(self).bytes() == splice(old(self).bytes(), 1544, spec_u64_to_le_bytes(fld)),
            final(self).wf(),
            final(final(self).store)@ == final(old(self).store)@,
    {
        write_u64(self.store, 1544, fld);
    }

    /// Writes `fld` to the `bVbiosValid` field (bytes 1552..1553) and gives the view back.
    pub fn bVbiosValid(self, fld: u8) -> (r: Self)
        requires
            self.wf(),
        ensures
            r.bytes() == splice(self.bytes(), 1552, seq![fld]),
            r.wf(),
            final(r.store)@ == final(self.store)@,
    {
        write_u8(self.store, 1552, fld);
        self
    }

    /// Reads the `bVbiosValid` field (bytes 1552..1553).
    pub fn get_bVbiosValid(&self) -> (r: u8)
        requires
            self.wf(),
        ensures
            r == self.bytes()[1552],
    {
        read_u8(self.store, 1552)
    }

    /// Writes `fld` to the `bVbiosValid` field (bytes 1552..1553).
    pub fn set_bVbiosValid(&mut self, fld: u8)
        requires
            old(self).wf(),
        ensures
            final(self).bytes() == splice(old(self).bytes(), 1552, seq![fld]),
            final(self).wf(),
            final(final(self).store)@ == final(old(self).store)@,
    {
        write_u8(self.store, 1552, fld);
    }

    /// Writes `fld` to the `vbiosSubVendor` field (bytes 1556..1560) and gives the view back.
    pub fn vbiosSubVendor(self, fld: u32) -> (r: Self)
        requires
            self.wf(),
        ensures
            r.bytes() == splice(self.bytes(), 1556, spec_u32_to_le_bytes(fld)),
            r.wf(),
            final(r.store)@ == final(self.store)@,
    {
        write_u32(self.store, 1556, fld);
        self
    }

    /// Reads the `vbiosSubVendor` field (bytes 1556..1560).
    pub fn get_vbiosSubVendor(&self) -> (r: u32)
        requires
            self.wf(),
        ensures
            r == u32_at(self.bytes(), 1556),
    {
        read_u32(self.store, 1556)
    }

    /// Writes `fld` to the `vbiosSubVendor` field (bytes 1556..1560).
    pub fn set_vbiosSubVendor(&mut self, fld: u32)
        requires
            old(self).wf(),
        ensures
            final(self).bytes() == splice(old(self).bytes(), 1556, spec_u32_to_le_bytes(fld)),
            final(self).wf(),
            final(final(self).store)@ == final(old(self).store)@,
    {
        write_u32(self.store, 1556, fld);
    }

    /// Writes `fld` to the `vbiosSubDevice` field (bytes 1560..1564) and gives the view back.
    pub fn vbiosSubDevice(self, fld: u32) -> (r: Self)
        requires
            self.wf(),
        ensures
            r.bytes() == splice(self.bytes(), 1560, spec_u32_to_le_bytes(fld)),
            r.wf(),
            final(r.store)@ == final(self.store)@,
    {
        write_u32(self.store, 1560, fld);
        self
    }

    /// Reads the `vbiosSubDevice` field (bytes 1560..1564).
    pub fn get_vbiosSubDevice(&self) -> (r: u32)
        requires
            self.wf(),
        ensures
            r == u32_at(self.bytes(), 1560),
    {
        read_u32(self.store, 1560)
    }

    /// Writes `fld` to the `vbiosSubDevice` field (bytes 1560..1564).
    pub fn set_vbiosSubDevice(&mut self, fld: u32)
        requires
            old(self).wf(),
        ensures
            final(self).bytes() == splice(old(self).bytes(), 1560, spec_u32_to_le_bytes(fld)),
            final(self).wf(),
            final(final(self).store)@ == final(old(self).store)@,
    {
        write_u32(self.store, 1560, fld);
    }

    /// Writes `fld` to the `bPageRetirementSupported` field (bytes 1564..1565) and gives the view back.
    pub fn bPageRetirementSupported(self, fld: u8) -> (r: Self)
        requires
            self.wf(),
        ensures
            r.bytes() == splice(self.bytes(), 1564, seq![fld]),
            r.wf(),
            final(r.store)@ == final(self.store)@,
    {
        write_u8(self.store, 1564, fld);
        self
    }

    /// Reads the `bPageRetirementSupported` field (bytes 1564..1565).
    pub fn get_bPageRetirementSupported(&self) -> (r: u8)
        requires
            self.wf(),
        ensures
            r == self.bytes()[1564],
    {
        read_u8(self.store, 1564)
    }

    /// Writes `fld` to the `bPageRetirementSupported` field (bytes 1564..1565).
    pub fn set_bPageRetirementSupported(&mut self, fld: u8)
        requires
            old(self).wf(),
        ensures
            final(self).bytes() == splice(old(self).bytes(), 1564, seq![fld]),
            final(self).wf(),
            final(final(self).store)@ == final(old(self).store)@,
    {
        write_u8(self.store, 1564, fld);
    }

    /// Writes `fld` to the `bSplitVasBetweenServerClientRm` field (bytes 1565..1566) and gives the view back.
    pub fn bSplitVasBetweenServerClientRm(self, fld: u8) -> (r: Self)
        requires
            self.wf(),
        ensures
            r.bytes() == splice(self.bytes(), 1565, seq![fld]),
            r.wf(),
            final(r.store)@ == final(self.store)@,
    {
        write_u8(self.store, 1565, fld);
        self
    }

    /// Reads the `bSplitVasBetweenServerClientRm` field (bytes 1565..1566).
    pub fn get_bSplitVasBetweenServerClientRm(&self) -> (r: u8)
        requires
            self.wf(),
        ensures
            r == self.bytes()[1565],
    {
        read_u8(self.store, 1565)
    }

    /// Writes `fld` to the `bSplitVasBetweenServerClientRm` field (bytes 1565..1566).
    pub fn set_bSplitVasBetweenServerClientRm(&mut self, fld: u8)
        requires
            old(self).wf(),
        ensures
            final(self).bytes() == splice(old(self).bytes(), 1565, seq![fld]),
            final(self).wf(),
            final(final(self).store)@ == final(old(self).store)@,
    {
        write_u8(self.store, 1565, fld);
    }

    /// Writes `fld` to the `bClRootportNeedsNosnoopWAR` field (bytes 1566..1567) and gives the view back.
    pub fn bClRootportNeedsNosnoopWAR(self, fld: u8) -> (r: Self)
        requires
            self.wf(),
        ensures
            r.bytes() == splice(self.bytes(), 1566, seq![fld]),
            r.wf(),
            final(r.store)@ == final(self.store)@,
    {
        write_u8(self.store, 1566, fld);
        self
    }

    /// Reads the `bClRootportNeedsNosnoopWAR` field (bytes 1566..1567).
    pub fn get_bClRootportNeedsNosnoopWAR(&self) -> (r: u8)
        requires
            self.wf(),
        ensures
            r == self.bytes()[1566],
    {
        read_u8(self.store, 1566)
    }

    /// Writes `fld` to the `bClRootportNeedsNosnoopWAR` field (bytes 1566..1567).
    pub fn set_bClRootportNeedsNosnoopWAR(&mut self, fld: u8)
        requires
            old(self).wf(),
        ensures
            final(self).bytes() == splice(old(self).bytes(), 1566, seq![fld]),
            final(self).wf(),
            final(final(self).store)@ == final(old(self).store)@,
    {
        write_u8(self.store, 1566, fld);
    }

    /// View of the `displaylessMaxHeads` substructure at byte 1568.
    pub fn new_S_displaylessMaxHeads(&mut self) -> (r: s_VIRTUAL_DISPLAY_GET_NUM_HEADS_PARAMS<'_>)
        requires
            old(self).wf(),
        ensures
            r.bytes() == old(self).bytes().subrange(1568, old(self).bytes().len() as int),
            r.wf(),
            final(self).bytes() == old(self).bytes().subrange(0, 1568) + final(r.store)@,
            final(final(self).store)@ == final(old(self).store)@,
    {
        let (_head, tail) = self.store.split_at_mut(1568);
        s_VIRTUAL_DISPLAY_GET_NUM_HEADS_PARAMS { store: tail }
    }

    /// View of the `displaylessMaxResolution` substructure at byte 1576.
    pub fn new_S_displaylessMaxResolution(&mut self) -> (r: s_VIRTUAL_DISPLAY_GET_MAX_RESOLUTION_PARAMS<'_>)
        requires
            old(self).wf(),
        ensures
            r.bytes() == old(self).bytes().subrange(1576, old(self).bytes().len() as int),
            r.wf(),
            final(self).bytes() == old(self).bytes().subrange(0, 1576) + final(r.store)@,
            final(final(self).store)@ == final(old(self).store)@,
    {
        let (_head, tail) = self.store.split_at_mut(1576);
        s_VIRTUAL_DISPLAY_GET_MAX_RESOLUTION_PARAMS { store: tail }
    }

    /// Writes `fld` to the `displaylessMaxPixels` field (bytes 1592..1600) and gives the view back.
    pub fn displaylessMaxPixels(self, fld: u64) -> (r: Self)
        requires
            self.wf(),
        ensures
            r.bytes() == splice(self.bytes(), 1592, spec_u64_to_le_bytes(fld)),
            r.wf(),
            final(r.store)@ == final(self.store)@,
    {
        write_u64(self.store, 1592, fld);
        self
    }

    /// Reads the `displaylessMaxPixels` field (bytes 1592..1600).
    pub fn get_displaylessMaxPixels(&self) -> (r: u64)
        requires
            self.wf(),
        ensures
            r == u64_at(self.bytes(), 1592),
    {
        read_u64(self.store, 1592)
    }

    /// Writes `fld` to the `displaylessMaxPixels` field (bytes 1592..1600).
    pub fn set_displaylessMaxPixels(&mut self, fld: u64)
        requires
            old(self).wf(),
        ensures
            final(self).bytes() == splice(old(self).bytes(), 1592, spec_u64_to_le_bytes(fld)),
            final(self).wf(),
            final(final(self).store)@ == final(old(self).store)@,
    {
        write_u64(self.store, 1592, fld);
    }

    /// Writes `fld` to the `hInternalClient` field (bytes 1600..1604) and gives the view back.
    pub fn hInternalClient(self, fld: u32) -> (r: Self)
        requires
            self.wf(),
        ensures
            r.bytes() == splice(self.bytes(), 1600, spec_u32_to_le_bytes(fld)),
            r.wf(),
            final(r.store)@ == final(self.store)@,
    {
        write_u32(self.store, 1600, fld);
        self
    }

    /// Reads the `hInternalClient` field (bytes 1600..1604).
    pub fn get_hInternalClient(&self) -> (r: u32)
        requires
            self.wf(),
        ensures
            r == u32_at(self.bytes(), 1600),
    {
        read_u32(self.store, 1600)
    }

    /// Writes `fld` to the `hInternalClient` field (bytes 1600..1604).
    pub fn set_hInternalClient(&mut self, fld: u32)
        requires
            old(self).wf(),
        ensures
            final(self).bytes() == splice(old(self).bytes(), 1600, spec_u32_to_le_bytes(fld)),
            final(self).wf(),
            final(final(self).store)@ == final(old(self).store)@,
    {
        write_u32(self.store, 1600, fld);
    }

    /// Writes `fld` to the `hInternalDevice` field (bytes 1604..1608) and gives the view back.
    pub fn hInternalDevice(self, fld: u32) -> (r: Self)
        requires
            self.wf(),
        ensures
            r.bytes() == splice(self.bytes(), 1604, spec_u32_to_le_bytes(fld)),
            r.wf(),
            final(r.store)@ == final(self.store)@,
    {
        write_u32(self.store, 1604, fld);
        self
    }

    /// Reads the `hInternalDevice` field (bytes 1604..1608).
    pub fn get_hInternalDevice(&self) -> (r: u32)
        requires
            self.wf(),
        ensures
            r == u32_at(self.bytes(), 1604),
    {
        read_u32(self.store, 1604)
    }

    /// Writes `fld` to the `hInternalDevice` field (bytes 1604..1608).
    pub fn set_hInternalDevice(&mut self, fld: u32)
        requires
            old(self).wf(),
        ensures
            final(self).bytes() == splice(old(self).bytes(), 1604, spec_u32_to_le_bytes(fld)),
            final(self).wf(),
            final(final(self).store)@ == final(old(self).store)@,
    {
        write_u32(self.store, 1604, fld);
    }

    /// Writes `fld` to the `hInternalSubdevice` field (bytes 1608..1612) and gives the view back.
    pub fn hInternalSubdevice(self, fld: u32) -> (r: Self)
        requires
            self.wf(),
        ensures
            r.bytes() == splice(self.bytes(), 1608, spec_u32_to_le_bytes(fld)),
            r.wf(),
            final(r.store)@ == final(self.store)@,
    {
        write_u32(self.store, 1608, fld);
        self
    }

    /// Reads the `hInternalSubdevice` field (bytes 1608..1612).
    pub fn get_hInternalSubdevice(&self) -> (r: u32)
        requires
            self.wf(),
        ensures
            r == u32_at(self.bytes(), 1608),
    {
        read_u32(self.store, 1608)
    }

    /// Writes `fld` to the `hInternalSubdevice` field (bytes 1608..1612).
    pub fn set_hInternalSubdevice(&mut self, fld: u32)
        requires
            old(self).wf(),
        ensures
            final(self).bytes() == splice(old(self).bytes(), 1608, spec_u32_to_le_bytes(fld)),
            final(self).wf(),
            final(final(self).store)@ == final(old(self).store)@,
    {
        write_u32(self.store, 1608, fld);
    }

    /// Writes `fld` to the `bSelfHostedMode` field (bytes 1612..1613) and gives the view back.
    pub fn bSelfHostedMode(self, fld: u8) -> (r: Self)
        requires
            self.wf(),
        ensures
            r.bytes() == splice(self.bytes(), 1612, seq![fld]),
            r.wf(),
            final(r.store)@ == final(self.store)@,
    {
        write_u8(self.store, 1612, fld);
        self
    }

    /// Reads the `bSelfHostedMode` field (bytes 1612..1613).
    pub fn get_bSelfHostedMode(&self) -> (r: u8)
        requires
            self.wf(),
        ensures
            r == self.bytes()[1612],
    {
        read_u8(self.store, 1612)
    }

    /// Writes `fld` to the `bSelfHostedMode` field (bytes 1612..1613).
    pub fn set_bSelfHostedMode(&mut self, fld: u8)
        requires
            old(self).wf(),
        ensures
            final(self).bytes() == splice(old(self).bytes(), 1612, seq![fld]),
            final(self).wf(),
            final(final(self).store)@ == final(old(self).store)@,
    {
        write_u8(self.store, 1612, fld);
    }

    /// Writes `fld` to the `bAtsSupported` field (bytes 1613..1614) and gives the view back.
    pub fn bAtsSupported(self, fld: u8) -> (r: Self)
        requires
            self.wf(),
        ensures
            r.bytes() == splice(self.bytes(), 1613, seq![fld]),
            r.wf(),
            final(r.store)@ == final(self.store)@,
    {
        write_u8(self.store, 1613, fld);
        self
    }

    /// Reads the `bAtsSupported` field (bytes 1613..1614).
    pub fn get_bAtsSupported(&self) -> (r: u8)
        requires
            self.wf(),
        ensures
            r == self.bytes()[1613],
    {
        read_u8(self.store, 1613)
    }

    /// Writes `fld` to the `bAtsSupported` field (bytes 1613..1614).
    pub fn set_bAtsSupported(&mut self, fld: u8)
        requires
            old(self).wf(),
        ensures
            final(self).bytes() == splice(old(self).bytes(), 1613, seq![fld]),
            final(self).wf(),
            final(final(self).store)@ == final(old(self).store)@,
    {
        write_u8(self.store, 1613, fld);
    }

    /// Writes `fld` to the `bIsGpuUefi` field (bytes 1614..1615) and gives the view back.
    pub fn bIsGpuUefi(self, fld: u8) -> (r: Self)
        requires
            self.wf(),
        ensures
            r.bytes() == splice(self.bytes(), 1614, seq![fld]),
            r.wf(),
            final(r.store)@ == final(self.store)@,
    {
        write_u8(self.store, 1614, fld);
        self
    }

    /// Reads the `bIsGpuUefi` field (bytes 1614..1615).
    pub fn get_bIsGpuUefi(&self) -> (r: u8)
        requires
            self.wf(),
        ensures
            r == self.bytes()[1614],
    {
        read_u8(self.store, 1614)
    }

    /// Writes `fld` to the `bIsGpuUefi` field (bytes 1614..1615).
    pub fn set_bIsGpuUefi(&mut self, fld: u8)
        requires
            old(self).wf(),
        ensures
            final(self).bytes() == splice(old(self).bytes(), 1614, seq![fld]),
            final(self).wf(),
            final(final(self).store)@ == final(old(self).store)@,
    {
        write_u8(self.store, 1614, fld);
    }

    /// Writes `fld` to the `bIsEfiInit` field (bytes 1615..1616) and gives the view back.
    pub fn bIsEfiInit(self, fld: u8) -> (r: Self)
        requires
            self.wf(),
        ensures
            r.bytes() == splice(self.bytes(), 1615, seq![fld]),
            r.wf(),
            final(r.store)@ == final(self.store)@,
    {
        write_u8(self.store, 1615, fld);
        self
    }

    /// Reads the `bIsEfiInit` field (bytes 1615..1616).
    pub fn get_bIsEfiInit(&self) -> (r: u8)
        requires
            self.wf(),
        ensures
            r == self.bytes()[1615],
    {
        read_u8(self.store, 1615)
    }

    /// Writes `fld` to the `bIsEfiInit` field (bytes 1615..1616).
    pub fn set_bIsEfiInit(&mut self, fld: u8)
        requires
            old(self).wf(),
        ensures
            final(self).bytes() == splice(old(self).bytes(), 1615, seq![fld]),
            final(self).wf(),
            final(final(self).store)@ == final(old(self).store)@,
    {
        write_u8(self.store, 1615, fld);
    }

    /// View of entry `idx` of the `ecidInfo` table, whose entries are 12 bytes apart
    /// from byte 1616 on.
    pub fn new_S_ecidInfo(&mut self, idx: isize) -> (r: s_EcidManufacturingInfo<'_>)
        requires
            old(self).wf(),
            0 <= idx,
            idx * 12 + 1616 + 12 <= old(self).bytes().len(),
        ensures
            r.bytes() == old(self).bytes().subrange(idx * 12 + 1616, old(self).bytes().len() as int),
            r.wf(),
            final(self).bytes() == old(self).bytes().subrange(0, idx * 12 + 1616) + final(r.store)@,
            final(final(self).store)@ == final(old(self).store)@,
    {
        proof {
            assert(self.store@.len() == self.store.len());
        }
        let off = idx as usize * 12 + 1616;
        let (_head, tail) = self.store.split_at_mut(off);
        s_EcidManufacturingInfo { store: tail }
    }

    /// View of the `fwWprLayoutOffset` substructure at byte 1640.
    pub fn new_S_fwWprLayoutOffset(&mut self) -> (r: s_FW_WPR_LAYOUT_OFFSET<'_>)
        requires
            old(self).wf(),
        ensures
            r.bytes() == old(self).bytes().subrange(1640, old(self).bytes().len() as int),
            r.wf(),
            final(self).bytes() == old(self).bytes().subrange(0, 1640) + final(r.store)@,
            final(final(self).store)@ == final(old(self).store)@,
    {
        let (_head, tail) = self.store.split_at_mut(1640);
        s_FW_WPR_LAYOUT_OFFSET { store: tail }
    }

}

/// View of the firmware structure `s_NV2080_CTRL_GPU_GET_GID_INFO_PARAMS` (268 bytes).
pub struct s_NV2080_CTRL_GPU_GET_GID_INFO_PARAMS<'s> {
    /// The buffer from the first byte of the structure to the end.
    pub store: &'s mut [u8],
}

impl<'s> s_NV2080_CTRL_GPU_GET_GID_INFO_PARAMS<'s> {
    /// The bytes seen through this view.
    pub open spec fn bytes(&self) -> Seq<u8> {
        self.store@
    }

    /// The buffer holds at least the whole structure.
    pub open spec fn wf(&self) -> bool {
        self.store@.len() >= 268
    }

    /// Size of the structure in bytes.
    pub fn str_size() -> (n: usize)
        ensures
            n == 268,
    {
        268
    }

    /// Views `store` as this structure, starting at its first byte.
    pub fn new(store: &'s mut [u8]) -> (r: Self)
        requires
            old(store)@.len() >= 268,
        ensures
            r.bytes() == old(store)@,
            r.wf(),
            final(store)@ == final(r.store)@,
    {
        Self { store }
    }

    /// Writes `fld` to the `index` field (bytes 0..4) and gives the view back.
    pub fn index(self, fld: u32) -> (r: Self)
        requires
            self.wf(),
        ensures
            r.bytes() == splice(self.bytes(), 0, spec_u32_to_le_bytes(fld)),
            r.wf(),
            final(r.store)@ == final(self.store)@,
    {
        write_u32(self.store, 0, fld);
        self
    }

    /// Reads the `index` field (bytes 0..4).
    pub fn get_index(&self) -> (r: u32)
        requires
            self.wf(),
        ensures
            r == u32_at(self.bytes(), 0),
    {
        read_u32(self.store, 0)
    }

    /// Writes `fld` to the `index` field (bytes 0..4).
    pub fn set_index(&mut self, fld: u32)
        requires
            old(self).wf(),
        ensures
            final(self).bytes() == splice(old(self).bytes(), 0, spec_u32_to_le_bytes(fld)),
            final(self).wf(),
            final(final(self).store)@ == final(old(self).store)@,
    {
        write_u32(self.store, 0, fld);
    }

    /// Writes `fld` to the `flags` field (bytes 4..8) and gives the view back.
    pub fn flags(self, fld: u32) -> (r: Self)
        requires
            self.wf(),
        ensures
            r.bytes() == splice(self.bytes(), 4, spec_u32_to_le_bytes(fld)),
            r.wf(),
            final(r.store)@ == final(self.store)@,
    {
        write_u32(self.store, 4, fld);
        self
    }

    /// Reads the `flags` field (bytes 4..8).
    pub fn get_flags(&self) -> (r: u32)
        requires
            self.wf(),
        ensures
            r == u32_at(self.bytes(), 4),
    {
        read_u32(self.store, 4)
    }

    /// Writes `fld` to the `flags` field (bytes 4..8).
    pub fn set_flags(&mut self, fld: u32)
        requires
            old(self).wf(),
        ensures
            final(self).bytes() == splice(old(self).bytes(), 4, spec_u32_to_le_bytes(fld)),
            final(self).wf(),
            final(final(self).store)@ == final(old(self).store)@,
    {
        write_u32(self.store, 4, fld);
    }

    /// Writes `fld` to the `length` field (bytes 8..12) and gives the view back.
    pub fn length(self, fld: u32) -> (r: Self)
        requires
            self.wf(),
        ensures
            r.bytes() == splice(self.bytes(), 8, spec_u32_to_le_bytes(fld)),
            r.wf(),
            final(r.store)@ == final(self.store)@,
    {
        write_u32(self.store, 8, fld);
        self
    }

    /// Reads the `length` field (bytes 8..12).
    pub fn get_length(&self) -> (r: u32)
        requires
            self.wf(),
        ensures
            r == u32_at(self.bytes(), 8),
    {
        read_u32(self.store, 8)
    }

    /// Writes `fld` to the `length` field (bytes 8..12).
    pub fn set_length(&mut self, fld: u32)
        requires
            old(self).wf(),
        ensures
            final(self).bytes() == splice(old(self).bytes(), 8, spec_u32_to_le_bytes(fld)),
            final(self).wf(),
            final(final(self).store)@ == final(old(self).store)@,
    {
        write_u32(self.store, 8, fld);
    }

    /// Writes `fld` to the `data` field (bytes 12..268) and gives the view back.
    pub fn data(self, fld: [u8; 256]) -> (r: Self)
        requires
            self.wf(),
        ensures
            r.bytes() == splice(self.bytes(), 12, fld@),
            r.wf(),
            final(r.store)@ == final(self.store)@,
    {
        write_u8s(self.store, 12, &fld);
        self
    }

    /// Writes `fld` to the `data` field (bytes 12..268).
    pub fn set_data(&mut self, fld: [u8; 256])
        requires
            old(self).wf(),
        ensures
            final(self).bytes() == splice(old(self).bytes(), 12, fld@),
            final(self).wf(),
            final(final(self).store)@ == final(old(self).store)@,
    {
        write_u8s(self.store, 12, &fld);
    }

    /// Reads the `data` array (bytes 12..268).
    pub fn get_data(&mut self) -> (r: [u8; 256])
        requires
            old(self).wf(),
        ensures
            r@ == old(self).bytes().subrange(12, 268),
            final(self).bytes() == old(self).bytes(),
            final(final(self).store)@ == final(old(self).store)@,
    {
        read_u8s(self.store, 12)
    }

}

/// View of the firmware structure `s_NV2080_CTRL_GPU_GET_FERMI_ZCULL_INFO_PARAMS` (8 bytes).
pub struct s_NV2080_CTRL_GPU_GET_FERMI_ZCULL_INFO_PARAMS<'s> {
    /// The buffer from the first byte of the structure to the end.
    pub store: &'s mut [u8],
}

impl<'s> s_NV2080_CTRL_GPU_GET_FERMI_ZCULL_INFO_PARAMS<'s> {
    /// The bytes seen through this view.
    pub open spec fn bytes(&self) -> Seq<u8> {
        self.store@
    }

    /// The buffer holds at least the whole structure.
    pub open spec fn wf(&self) -> bool {
        self.store@.len() >= 8
    }

    /// Size of the structure in bytes.
    pub fn str_size() -> (n: usize)
        ensures
            n == 8,
    {
        8
    }

    /// Views `store` as this structure, starting at its first byte.
    pub fn new(store: &'s mut [u8]) -> (r: Self)
        requires
            old(store)@.len() >= 8,
        ensures
            r.bytes() == old(store)@,
            r.wf(),
            final(store)@ == final(r.store)@,
    {
        Self { store }
    }

    /// Writes `fld` to the `gpcId` field (bytes 0..4) and gives the view back.
    pub fn gpcId(self, fld: u32) -> (r: Self)
        requires
            self.wf(),
        ensures
            r.bytes() == splice(self.bytes(), 0, spec_u32_to_le_bytes(fld)),
            r.wf(),
            final(r.store)@ == final(self.store)@,
    {
        write_u32(self.store, 0, fld);
        self
    }

    /// Reads the `gpcId` field (bytes 0..4).
    pub fn get_gpcId(&self) -> (r: u32)
        requires
            self.wf(),
        ensures
            r == u32_at(self.bytes(), 0),
    {
        read_u32(self.store, 0)
    }

    /// Writes `fld` to the `gpcId` field (bytes 0..4).
    pub fn set_gpcId(&mut self, fld: u32)
        requires
            old(self).wf(),
        ensures
            final(self).bytes() == splice(old(self).bytes(), 0, spec_u32_to_le_bytes(fld)),
            final(self).wf(),
            final(final(self).store)@ == final(old(self).store)@,
    {
        write_u32(self.store, 0, fld);
    }

    /// Writes `fld` to the `zcullMask` field (bytes 4..8) and gives the view back.
    pub fn zcullMask(self, fld: u32) -> (r: Self)
        requires
            self.wf(),
        ensures
            r.bytes() == splice(self.bytes(), 4, spec_u32_to_le_bytes(fld)),
            r.wf(),
            final(r.store)@ == final(self.store)@,
    {
        write_u32(self.store, 4, fld);
        self
    }

    /// Reads the `zcullMask` field (bytes 4..8).
    pub fn get_zcullMask(&self) -> (r: u32)
        requires
            self.wf(),
        ensures
            r == u32_at(self.bytes(), 4),
    {
        read_u32(self.store, 4)
    }

    /// Writes `fld` to the `zcullMask` field (bytes 4..8).
    pub fn set_zcullMask(&mut self, fld: u32)
        requires
            old(self).wf(),
        ensures
            final(self).bytes() == splice(old(self).bytes(), 4, spec_u32_to_le_bytes(fld)),
            final(self).wf(),
            final(final(self).store)@ == final(old(self).store)@,
    {
        write_u32(self.store, 4, fld);
    }

}

/// View of the firmware structure `s_NV2080_CTRL_BIOS_GET_SKU_INFO_PARAMS` (48 bytes).
pub struct s_NV2080_CTRL_BIOS_GET_SKU_INFO_PARAMS<'s> {
    /// The buffer from the first byte of the structure to the end.
    pub store: &'s mut [u8],
}

impl<'s> s_NV2080_CTRL_BIOS_GET_SKU_INFO_PARAMS<'s> {
    /// The bytes seen through this view.
    pub open spec fn bytes(&self) -> Seq<u8> {
        self.store@
    }

    /// The buffer holds at least the whole structure.
    pub open spec fn wf(&self) -> bool {
        self.store@.len() >= 48
    }

    /// Size of the structure in bytes.
    pub fn str_size() -> (n: usize)
        ensures
            n == 48,
    {
        48
    }

    /// Views `store` as this structure, starting at its first byte.
    pub fn new(store: &'s mut [u8]) -> (r: Self)
        requires
            old(store)@.len() >= 48,
        ensures
            r.bytes() == old(store)@,
            r.wf(),
            final(store)@ == final(r.store)@,
    {
        Self { store }
    }

    /// Writes `fld` to the `BoardID` field (bytes 0..4) and gives the view back.
    pub fn BoardID(self, fld: u32) -> (r: Self)
        requires
            self.wf(),
        ensures
            r.bytes() == splice(self.bytes(), 0, spec_u32_to_le_bytes(fld)),
            r.wf(),
            final(r.store)@ == final(self.store)@,
    {
        write_u32(self.store, 0, fld);
        self
    }

    /// Reads the `BoardID` field (bytes 0..4).
    pub fn get_BoardID(&self) -> (r: u32)
        requires
            self.wf(),
        ensures
            r == u32_at(self.bytes(), 0),
    {
        read_u32(self.store, 0)
    }

    /// Writes `fld` to the `BoardID` field (bytes 0..4).
    pub fn set_BoardID(&mut self, fld: u32)
        requires
            old(self).wf(),
        ensures
            final(self).bytes() == splice(old(self).bytes(), 0, spec_u32_to_le_bytes(fld)),
            final(self).wf(),
            final(final(self).store)@ == final(old(self).store)@,
    {
        write_u32(self.store, 0, fld);
    }

    /// Writes `fld` to the `chipSKU` field (bytes 4..13) and gives the view back.
    pub fn chipSKU(self, fld: [u8; 9]) -> (r: Self)
        requires
            self.wf(),
        ensures
            r.bytes() == splice(self.bytes(), 4, fld@),
            r.wf(),
            final(r.store)@ == final(self.store)@,
    {
        write_u8s(self.store, 4, &fld);
        self
    }

    /// Writes `fld` to the `chipSKU` field (bytes 4..13).
    pub fn set_chipSKU(&mut self, fld: [u8; 9])
        requires
            old(self).wf(),
        ensures
            final(self).bytes() == splice(old(self).bytes(), 4, fld@),
            final(self).wf(),
            final(final(self).store)@ == final(old(self).store)@,
    {
        write_u8s(self.store, 4, &fld);
    }

    /// Reads the `chipSKU` array (bytes 4..13).
    pub fn get_chipSKU(&mut self) -> (r: [u8; 9])
        requires
            old(self).wf(),
        ensures
            r@ == old(self).bytes().subrange(4, 13),
            final(self).bytes() == old(self).bytes(),
            final(final(self).store)@ == final(old(self).store)@,
    {
        read_u8s(self.store, 4)
    }

    /// Writes `fld` to the `chipSKUMod` field (bytes 13..18) and gives the view back.
    pub fn chipSKUMod(self, fld: [u8; 5]) -> (r: Self)
        requires
            self.wf(),
        ensures
            r.bytes() == splice(self.bytes(), 13, fld@),
            r.wf(),
            final(r.store)@ == final(self.store)@,
    {
        write_u8s(self.store, 13, &fld);
        self
    }

    /// Writes `fld` to the `chipSKUMod` field (bytes 13..18).
    pub fn set_chipSKUMod(&mut self, fld: [u8; 5])
        requires
            old(self).wf(),
        ensures
            final(self).bytes() == splice(old(self).bytes(), 13, fld@),
            final(self).wf(),
            final(final(self).store)@ == final(old(self).store)@,
    {
        write_u8s(self.store, 13, &fld);
    }

    /// Reads the `chipSKUMod` array (bytes 13..18).
    pub fn get_chipSKUMod(&mut self) -> (r: [u8; 5])
        requires
            old(self).wf(),
        ensures
            r@ == old(self).bytes().subrange(13, 18),
            final(self).bytes() == old(self).bytes(),
            final(final(self).store)@ == final(old(self).store)@,
    {
        read_u8s(self.store, 13)
    }

    /// Writes `fld` to the `skuConfigVersion` field (bytes 20..24) and gives the view back.
    pub fn skuConfigVersion(self, fld: u32) -> (r: Self)
        requires
            self.wf(),
        ensures
            r.bytes() == splice(self.bytes(), 20, spec_u32_to_le_bytes(fld)),
            r.wf(),
            final(r.store)@ == final(self.store)@,
    {
        write_u32(self.store, 20, fld);
        self
    }

    /// Reads the `skuConfigVersion` field (bytes 20..24).
    pub fn get_skuConfigVersion(&self) -> (r: u32)
        requires
            self.wf(),
        ensures
            r == u32_at(self.bytes(), 20),
    {
        read_u32(self.store, 20)
    }

    /// Writes `fld` to the `skuConfigVersion` field (bytes 20..24).
    pub fn set_skuConfigVersion(&mut self, fld: u32)
        requires
            old(self).wf(),
        ensures
            final(self).bytes() == splice(old(self).bytes(), 20, spec_u32_to_le_bytes(fld)),
            final(self).wf(),
            final(final(self).store)@ == final(old(self).store)@,
    {
        write_u32(self.store, 20, fld);
    }

    /// Writes `fld` to the `project` field (bytes 24..29) and gives the view back.
    pub fn project(self, fld: [u8; 5]) -> (r: Self)
        requires
            self.wf(),
        ensures
            r.bytes() == splice(self.bytes(), 24, fld@),
            r.wf(),
            final(r.store)@ == final(self.store)@,
    {
        write_u8s(self.store, 24, &fld);
        self
    }

    /// Writes `fld` to the `project` field (bytes 24..29).
    pub fn set_project(&mut self, fld: [u8; 5])
        requires
            old(self).wf(),
        ensures
            final(self).bytes() == splice(old(self).bytes(), 24, fld@),
            final(self).wf(),
            final(final(self).store)@ == final(old(self).store)@,
    {
        write_u8s(self.store, 24, &fld);
    }

    /// Reads the `project` array (bytes 24..29).
    pub fn get_project(&mut self) -> (r: [u8; 5])
        requires
            old(self).wf(),
        ensures
            r@ == old(self).bytes().subrange(24, 29),
            final(self).bytes() == old(self).bytes(),
            final(final(self).store)@ == final(old(self).store)@,
    {
        read_u8s(self.store, 24)
    }

    /// Writes `fld` to the `projectSKU` field (bytes 29..34) and gives the view back.
    pub fn projectSKU(self, fld: [u8; 5]) -> (r: Self)
        requires
            self.wf(),
        ensures
            r.bytes() == splice(self.bytes(), 29, fld@),
            r.wf(),
            final(r.store)@ == final(self.store)@,
    {
        write_u8s(self.store, 29, &fld);
        self
    }

    /// Writes `fld` to the `projectSKU` field (bytes 29..34).
    pub fn set_projectSKU(&mut self, fld: [u8; 5])
        requires
            old(self).wf(),
        ensures
            final(self).bytes() == splice(old(self).bytes(), 29, fld@),
            final(self).wf(),
            final(final(self).store)@ == final(old(self).store)@,
    {
        write_u8s(self.store, 29, &fld);
    }

    /// Reads the `projectSKU` array (bytes 29..34).
    pub fn get_projectSKU(&mut self) -> (r: [u8; 5])
        requires
            old(self).wf(),
        ensures
            r@ == old(self).bytes().subrange(29, 34),
            final(self).bytes() == old(self).bytes(),
            final(final(self).store)@ == final(old(self).store)@,
    {
        read_u8s(self.store, 29)
    }

    /// Writes `fld` to the `CDP` field (bytes 34..40) and gives the view back.
    pub fn CDP(self, fld: [u8; 6]) -> (r: Self)
        requires
            self.wf(),
        ensures
            r.bytes() == splice(self.bytes(), 34, fld@),
            r.wf(),
            final(r.store)@ == final(self.store)@,
    {
        write_u8s(self.store, 34, &fld);
        self
    }

    /// Writes `fld` to the `CDP` field (bytes 34..40).
    pub fn set_CDP(&mut self, fld: [u8; 6])
        requires
            old(self).wf(),
        ensures
            final(self).bytes() == splice(old(self).bytes(), 34, fld@),
            final(self).wf(),
            final(final(self).store)@ == final(old(self).store)@,
    {
        write_u8s(self.store, 34, &fld);
    }

    /// Reads the `CDP` array (bytes 34..40).
    pub fn get_CDP(&mut self) -> (r: [u8; 6])
        requires
            old(self).wf(),
        ensures
            r@ == old(self).bytes().subrange(34, 40),
            final(self).bytes() == old(self).bytes(),
            final(final(self).store)@ == final(old(self).store)@,
    {
        read_u8s(self.store, 34)
    }

    /// Writes `fld` to the `projectSKUMod` field (bytes 40..42) and gives the view back.
    pub fn projectSKUMod(self, fld: [u8; 2]) -> (r: Self)
        requires
            self.wf(),
        ensures
            r.bytes() == splice(self.bytes(), 40, fld@),
            r.wf(),
            final(r.store)@ == final(self.store)@,
    {
        write_u8s(self.store, 40, &fld);
        self
    }

    /// Writes `fld` to the `projectSKUMod` field (bytes 40..42).
    pub fn set_projectSKUMod(&mut self, fld: [u8; 2])
        requires
            old(self).wf(),
        ensures
            final(self).bytes() == splice(old(self).bytes(), 40, fld@),
            final(self).wf(),
            final(final(self).store)@ == final(old(self).store)@,
    {
        write_u8s(self.store, 40, &fld);
    }

    /// Reads the `projectSKUMod` array (bytes 40..42).
    pub fn get_projectSKUMod(&mut self) -> (r: [u8; 2])
        requires
            old(self).wf(),
        ensures
            r@ == old(self).bytes().subrange(40, 42),
            final(self).bytes() == old(self).bytes(),
            final(final(self).store)@ == final(old(self).store)@,
    {
        read_u8s(self.store, 40)
    }

    /// Writes `fld` to the `businessCycle` field (bytes 44..48) and gives the view back.
    pub fn businessCycle(self, fld: u32) -> (r: Self)
        requires
            self.wf(),
        ensures
            r.bytes() == splice(self.bytes(), 44, spec_u32_to_le_bytes(fld)),
            r.wf(),
            final(r.store)@ == final(self.store)@,
    {
        write_u32(self.store, 44, fld);
        self
    }

    /// Reads the `businessCycle` field (bytes 44..48).
    pub fn get_businessCycle(&self) -> (r: u32)
        requires
            self.wf(),
        ensures
            r == u32_at(self.bytes(), 44),
    {
        read_u32(self.store, 44)
    }

    /// Writes `fld` to the `businessCycle` field (bytes 44..48).
    pub fn set_businessCycle(&mut self, fld: u32)
        requires
            old(self).wf(),
        ensures
            final(self).bytes() == splice(old(self).bytes(), 44, spec_u32_to_le_bytes(fld)),
            final(self).wf(),
            final(final(self).store)@ == final(old(self).store)@,
    {
        write_u32(self.store, 44, fld);
    }

}

/// View of the firmware structure `s_NV2080_CTRL_CMD_FB_GET_FB_REGION_FB_REGION_INFO` (48 bytes).
pub struct s_NV2080_CTRL_CMD_FB_GET_FB_REGION_FB_REGION_INFO<'s> {
    /// The buffer from the first byte of the structure to the end.
    pub store: &'s mut [u8],
}

impl<'s> s_NV2080_CTRL_CMD_FB_GET_FB_REGION_FB_REGION_INFO<'s> {
    /// The bytes seen through this view.
    pub open spec fn bytes(&self) -> Seq<u8> {
        self.store@
    }

    /// The buffer holds at least the whole structure.
    pub open spec fn wf(&self) -> bool {
        self.store@.len() >= 48
    }

    /// Size of the structure in bytes.
    pub fn str_size() -> (n: usize)
        ensures
            n == 48,
    {
        48
    }

    /// Views `store` as this structure, starting at its first byte.
    pub fn new(store: &'s mut [u8]) -> (r: Self)
        requires
            old(store)@.len() >= 48,
        ensures
            r.bytes() == old(store)@,
            r.wf(),
            final(store)@ == final(r.store)@,
    {
        Self { store }
    }

    /// Writes `fld` to the `base` field (bytes 0..8) and gives the view back.
    pub fn base(self, fld: u64) -> (r: Self)
        requires
            self.wf(),
        ensures
            r.bytes() == splice(self.bytes(), 0, spec_u64_to_le_bytes(fld)),
            r.wf(),
            final(r.store)@ == final(self.store)@,
    {
        write_u64(self.store, 0, fld);
        self
    }

    /// Reads the `base` field (bytes 0..8).
    pub fn get_base(&self) -> (r: u64)
        requires
            self.wf(),
        ensures
            r == u64_at(self.bytes(), 0),
    {
        read_u64(self.store, 0)
    }

    /// Writes `fld` to the `base` field (bytes 0..8).
    pub fn set_base(&mut self, fld: u64)
        requires
            old(self).wf(),
        ensures
            final(self).bytes() == splice(old(self).bytes(), 0, spec_u64_to_le_bytes(fld)),
            final(self).wf(),
            final(final(self).store)@ == final(old(self).store)@,
    {
        write_u64(self.store, 0, fld);
    }

    /// Writes `fld` to the `limit` field (bytes 8..16) and gives the view back.
    pub fn limit(self, fld: u64) -> (r: Self)
        requires
            self.wf(),
        ensures
            r.bytes() == splice(self.bytes(), 8, spec_u64_to_le_bytes(fld)),
            r.wf(),
            final(r.store)@ == final(self.store)@,
    {
        write_u64(self.store, 8, fld);
        self
    }

    /// Reads the `limit` field (bytes 8..16).
    pub fn get_limit(&self) -> (r: u64)
        requires
            self.wf(),
        ensures
            r == u64_at(self.bytes(), 8),
    {
        read_u64(self.store, 8)
    }

    /// Writes `fld` to the `limit` field (bytes 8..16).
    pub fn set_limit(&mut self, fld: u64)
        requires
            old(self).wf(),
        ensures
            final(self).bytes() == splice(old(self).bytes(), 8, spec_u64_to_le_bytes(fld)),
            final(self).wf(),
            final(final(self).store)@ == final(old(self).store)@,
    {
        write_u64(self.store, 8, fld);
    }

    /// Writes `fld` to the `reserved` field (bytes 16..24) and gives the view back.
    pub fn reserved(self, fld: u64) -> (r: Self)
        requires
            self.wf(),
        ensures
            r.bytes() == splice(self.bytes(), 16, spec_u64_to_le_bytes(fld)),
            r.wf(),
            final(r.store)@ == final(self.store)@,
    {
        write_u64(self.store, 16, fld);
        self
    }

    /// Reads the `reserved` field (bytes 16..24).
    pub fn get_reserved(&self) -> (r: u64)
        requires
            self.wf(),
        ensures
            r == u64_at(self.bytes(), 16),
    {
        read_u64(self.store, 16)
    }

    /// Writes `fld` to the `reserved` field (bytes 16..24).
    pub fn set_reserved(&mut self, fld: u64)
        requires
            old(self).wf(),
        ensures
            final(self).bytes() == splice(old(self).bytes(), 16, spec_u64_to_le_bytes(fld)),
            final(self).wf(),
            final(final(self).store)@ == final(old(self).store)@,
    {
        write_u64(self.store, 16, fld);
    }

    /// Writes `fld` to the `performance` field (bytes 24..28) and gives the view back.
    pub fn performance(self, fld: u32) -> (r: Self)
        requires
            self.wf(),
        ensures
            r.bytes() == splice(self.bytes(), 24, spec_u32_to_le_bytes(fld)),
            r.wf(),
            final(r.store)@ == final(self.store)@,
    {
        write_u32(self.store, 24, fld);
        self
    }

    /// Reads the `performance` field (bytes 24..28).
    pub fn get_performance(&self) -> (r: u32)
        requires
            self.wf(),
        ensures
            r == u32_at(self.bytes(), 24),
    {
        read_u32(self.store, 24)
    }

    /// Writes `fld` to the `performance` field (bytes 24..28).
    pub fn set_performance(&mut self, fld: u32)
        requires
            old(self).wf(),
        ensures
            final(self).bytes() == splice(old(self).bytes(), 24, spec_u32_to_le_bytes(fld)),
            final(self).wf(),
            final(final(self).store)@ == final(old(self).store)@,
    {
        write_u32(self.store, 24, fld);
    }

    /// Writes `fld` to the `supportCompressed` field (bytes 28..29) and gives the view back.
    pub fn supportCompressed(self, fld: u8) -> (r: Self)
        requires
            self.wf(),
        ensures
            r.bytes() == splice(self.bytes(), 28, seq![fld]),
            r.wf(),
            final(r.store)@ == final(self.store)@,
    {
        write_u8(self.store, 28, fld);
        self
    }

    /// Reads the `supportCompressed` field (bytes 28..29).
    pub fn get_supportCompressed(&self) -> (r: u8)
        requires
            self.wf(),
        ensures
            r == self.bytes()[28],
    {
        read_u8(self.store, 28)
    }

    /// Writes `fld` to the `supportCompressed` field (bytes 28..29).
    pub fn set_supportCompressed(&mut self, fld: u8)
        requires
            old(self).wf(),
        ensures
            final(self).bytes() == splice(old(self).bytes(), 28, seq![fld]),
            final(self).wf(),
            final(final(self).store)@ == final(old(self).store)@,
    {
        write_u8(self.store, 28, fld);
    }

    /// Writes `fld` to the `supportISO` field (bytes 29..30) and gives the view back.
    pub fn supportISO(self, fld: u8) -> (r: Self)
        requires
            self.wf(),
        ensures
            r.bytes() == splice(self.bytes(), 29, seq![fld]),
            r.wf(),
            final(r.store)@ == final(self.store)@,
    {
        write_u8(self.store, 29, fld);
        self
    }

    /// Reads the `supportISO` field (bytes 29..30).
    pub fn get_supportISO(&self) -> (r: u8)
        requires
            self.wf(),
        ensures
            r == self.bytes()[29],
    {
        read_u8(self.store, 29)
    }

    /// Writes `fld` to the `supportISO` field (bytes 29..30).
    pub fn set_supportISO(&mut self, fld: u8)
        requires
            old(self).wf(),
        ensures
            final(self).bytes() == splice(old(self).bytes(), 29, seq![fld]),
            final(self).wf(),
            final(final(self).store)@ == final(old(self).store)@,
    {
        write_u8(self.store, 29, fld);
    }

    /// Writes `fld` to the `bProtected` field (bytes 30..31) and gives the view back.
    pub fn bProtected(self, fld: u8) -> (r: Self)
        requires
            self.wf(),
        ensures
            r.bytes() == splice(self.bytes(), 30, seq![fld]),
            r.wf(),
            final(r.store)@ == final(self.store)@,
    {
        write_u8(self.store, 30, fld);
        self
    }

    /// Reads the `bProtected` field (bytes 30..31).
    pub fn get_bProtected(&self) -> (r: u8)
        requires
            self.wf(),
        ensures
            r == self.bytes()[30],
    {
        read_u8(self.store, 30)
    }

    /// Writes `fld` to the `bProtected` field (bytes 30..31).
    pub fn set_bProtected(&mut self, fld: u8)
        requires
            old(self).wf(),
        ensures
            final(self).bytes() == splice(old(self).bytes(), 30, seq![fld]),
            final(self).wf(),
            final(final(self).store)@ == final(old(self).store)@,
    {
        write_u8(self.store, 30, fld);
    }

    /// Writes `fld` to the `blackList` field (bytes 31..48) and gives the view back.
    pub fn blackList(self, fld: [u8; 17]) -> (r: Self)
        requires
            self.wf(),
        ensures
            r.bytes() == splice(self.bytes(), 31, fld@),
            r.wf(),
            final(r.store)@ == final(self.store)@,
    {
        write_u8s(self.store, 31, &fld);
        self
    }

    /// Writes `fld` to the `blackList` field (bytes 31..48).
    pub fn set_blackList(&mut self, fld: [u8; 17])
        requires
            old(self).wf(),
        ensures
            final(self).bytes() == splice(old(self).bytes(), 31, fld@),
            final(self).wf(),
            final(final(self).store)@ == final(old(self).store)@,
    {
        write_u8s(self.store, 31, &fld);
    }

    /// Reads the `blackList` array (bytes 31..48).
    pub fn get_blackList(&mut self) -> (r: [u8; 17])
        requires
            old(self).wf(),
        ensures
            r@ == old(self).bytes().subrange(31, 48),
            final(self).bytes() == old(self).bytes(),
            final(final(self).store)@ == final(old(self).store)@,
    {
        read_u8s(self.store, 31)
    }

}

/// View of the firmware structure `s_NV2080_CTRL_CMD_FB_GET_FB_REGION_INFO_PARAMS` (776 bytes).
pub struct s_NV2080_CTRL_CMD_FB_GET_FB_REGION_INFO_PARAMS<'s> {
    /// The buffer from the first byte of the structure to the end.
    pub store: &'s mut [u8],
}

impl<'s> s_NV2080_CTRL_CMD_FB_GET_FB_REGION_INFO_PARAMS<'s> {
    /// The bytes seen through this view.
    pub open spec fn bytes(&self) -> Seq<u8> {
        self.store@
    }

    /// The buffer holds at least the whole structure.
    pub open spec fn wf(&self) -> bool {
        self.store@.len() >= 776
    }

    /// Size of the structure in bytes.
    pub fn str_size() -> (n: usize)
        ensures
            n == 776,
    {
        776
    }

    /// Views `store` as this structure, starting at its first byte.
    pub fn new(store: &'s mut [u8]) -> (r: Self)
        requires
            old(store)@.len() >= 776,
        ensures
            r.bytes() == old(store)@,
            r.wf(),
            final(store)@ == final(r.store)@,
    {
        Self { store }
    }

    /// Writes `fld` to the `numFBRegions` field (bytes 0..4) and gives the view back.
    pub fn numFBRegions(self, fld: u32) -> (r: Self)
        requires
            self.wf(),
        ensures
            r.bytes() == splice(self.bytes(), 0, spec_u32_to_le_bytes(fld)),
            r.wf(),
            final(r.store)@ == final(self.store)@,
    {
        write_u32(self.store, 0, fld);
        self
    }

    /// Reads the `numFBRegions` field (bytes 0..4).
    pub fn get_numFBRegions(&self) -> (r: u32)
        requires
            self.wf(),
        ensures
            r == u32_at(self.bytes(), 0),
    {
        read_u32(self.store, 0)
    }

    /// Writes `fld` to the `numFBRegions` field (bytes 0..4).
    pub fn set_numFBRegions(&mut self, fld: u32)
        requires
            old(self).wf(),
        ensures
            final(self).bytes() == splice(old(self).bytes(), 0, spec_u32_to_le_bytes(fld)),
            final(self).wf(),
            final(final(self).store)@ == final(old(self).store)@,
    {
        write_u32(self.store, 0, fld);
    }

    /// View of entry `idx` of the `fbRegion` table, whose entries are 48 bytes apart
    /// from byte 8 on.
    pub fn new_S_fbRegion(&mut self, idx: isize) -> (r: s_NV2080_CTRL_CMD_FB_GET_FB_REGION_FB_REGION_INFO<'_>)
        requires
            old(self).wf(),
            0 <= idx,
            idx * 48 + 8 + 48 <= old(self).bytes().len(),
        ensures
            r.bytes() == old(self).bytes().subrange(idx * 48 + 8, old(self).bytes().len() as int),
            r.wf(),
            final(self).bytes() == old(self).bytes().subrange(0, idx * 48 + 8) + final(r.store)@,
            final(final(self).store)@ == final(old(self).store)@,
    {
        proof {
            assert(self.store@.len() == self.store.len());
        }
        let off = idx as usize * 48 + 8;
        let (_head, tail) = self.store.split_at_mut(off);
        s_NV2080_CTRL_CMD_FB_GET_FB_REGION_FB_REGION_INFO { store: tail }
    }

}

/// View of the firmware structure `s_NV0080_CTRL_GPU_GET_SRIOV_CAPS_PARAMS` (80 bytes).
pub struct s_NV0080_CTRL_GPU_GET_SRIOV_CAPS_PARAMS<'s> {
    /// The buffer from the first byte of the structure to the end.
    pub store: &'s mut [u8],
}

impl<'s> s_NV0080_CTRL_GPU_GET_SRIOV_CAPS_PARAMS<'s> {
    /// The bytes seen through this view.
    pub open spec fn bytes(&self) -> Seq<u8> {
        self.store@
    }

    /// The buffer holds at least the whole structure.
    pub open spec fn wf(&self) -> bool {
        self.store@.len() >= 80
    }

    /// Size of the structure in bytes.
    pub fn str_size() -> (n: usize)
        ensures
            n == 80,
    {
        80
    }

    /// Views `store` as this structure, starting at its first byte.
    pub fn new(store: &'s mut [u8]) -> (r: Self)
        requires
            old(store)@.len() >= 80,
        ensures
            r.bytes() == old(store)@,
            r.wf(),
            final(store)@ == final(r.store)@,
    {
        Self { store }
    }

    /// Writes `fld` to the `totalVFs` field (bytes 0..4) and gives the view back.
    pub fn totalVFs(self, fld: u32) -> (r: Self)
        requires
            self.wf(),
        ensures
            r.bytes() == splice(self.bytes(), 0, spec_u32_to_le_bytes(fld)),
            r.wf(),
            final(r.store)@ == final(self.store)@,
    {
        write_u32(self.store, 0, fld);
        self
    }

    /// Reads the `totalVFs` field (bytes 0..4).
    pub fn get_totalVFs(&self) -> (r: u32)
        requires
            self.wf(),
        ensures
            r == u32_at(self.bytes(), 0),
    {
        read_u32(self.store, 0)
    }

    /// Writes `fld` to the `totalVFs` field (bytes 0..4).
    pub fn set_totalVFs(&mut self, fld: u32)
        requires
            old(self).wf(),
        ensures
            final(self).bytes() == splice(old(self).bytes(), 0, spec_u32_to_le_bytes(fld)),
            final(self).wf(),
            final(final(self).store)@ == final(old(self).store)@,
    {
        write_u32(self.store, 0, fld);
    }

    /// Writes `fld` to the `firstVfOffset` field (bytes 4..8) and gives the view back.
    pub fn firstVfOffset(self, fld: u32) -> (r: Self)
        requires
            self.wf(),
        ensures
            r.bytes() == splice(self.bytes(), 4, spec_u32_to_le_bytes(fld)),
            r.wf(),
            final(r.store)@ == final(self.store)@,
    {
        write_u32(self.store, 4, fld);
        self
    }

    /// Reads the `firstVfOffset` field (bytes 4..8).
    pub fn get_firstVfOffset(&self) -> (r: u32)
        requires
            self.wf(),
        ensures
            r == u32_at(self.bytes(), 4),
    {
        read_u32(self.store, 4)
    }

    /// Writes `fld` to the `firstVfOffset` field (bytes 4..8).
    pub fn set_firstVfOffset(&mut self, fld: u32)
        requires
            old(self).wf(),
        ensures
            final(self).bytes() == splice(old(self).bytes(), 4, spec_u32_to_le_bytes(fld)),
            final(self).wf(),
            final(final(self).store)@ == final(old(self).store)@,
    {
        write_u32(self.store, 4, fld);
    }

    /// Writes `fld` to the `vfFeatureMask` field (bytes 8..12) and gives the view back.
    pub fn vfFeatureMask(self, fld: u32) -> (r: Self)
        requires
            self.wf(),
        ensures
            r.bytes() == splice(self.bytes(), 8, spec_u32_to_le_bytes(fld)),
            r.wf(),
            final(r.store)@ == final(self.store)@,
    {
        write_u32(self.store, 8, fld);
        self
    }

    /// Reads the `vfFeatureMask` field (bytes 8..12).
    pub fn get_vfFeatureMask(&self) -> (r: u32)
        requires
            self.wf(),
        ensures
            r == u32_at(self.bytes(), 8),
    {
        read_u32(self.store, 8)
    }

    /// Writes `fld` to the `vfFeatureMask` field (bytes 8..12).
    pub fn set_vfFeatureMask(&mut self, fld: u32)
        requires
            old(self).wf(),
        ensures
            final(self).bytes() == splice(old(self).bytes(), 8, spec_u32_to_le_bytes(fld)),
            final(self).wf(),
            final(final(self).store)@ == final(old(self).store)@,
    {
        write_u32(self.store, 8, fld);
    }

    /// Writes `fld` to the `FirstVFBar0Address` field (bytes 16..24) and gives the view back.
    pub fn FirstVFBar0Address(self, fld: u64) -> (r: Self)
        requires
            self.wf(),
        ensures
            r.bytes() == splice(self.bytes(), 16, spec_u64_to_le_bytes(fld)),
            r.wf(),
            final(r.store)@ == final(self.store)@,
    {
        write_u64(self.store, 16, fld);
        self
    }

    /// Reads the `FirstVFBar0Address` field (bytes 16..24).
    pub fn get_FirstVFBar0Address(&self) -> (r: u64)
        requires
            self.wf(),
        ensures
            r == u64_at(self.bytes(), 16),
    {
        read_u64(self.store, 16)
    }

    /// Writes `fld` to the `FirstVFBar0Address` field (bytes 16..24).
    pub fn set_FirstVFBar0Address(&mut self, fld: u64)
        requires
            old(self).wf(),
        ensures
            final(self).bytes() == splice(old(self).bytes(), 16, spec_u64_to_le_bytes(fld)),
            final(self).wf(),
            final(final(self).store)@ == final(old(self).store)@,
    {
        write_u64(self.store, 16, fld);
    }

    /// Writes `fld` to the `FirstVFBar1Address` field (bytes 24..32) and gives the view back.
    pub fn FirstVFBar1Address(self, fld: u64) -> (r: Self)
        requires
            self.wf(),
        ensures
            r.bytes() == splice(self.bytes(), 24, spec_u64_to_le_bytes(fld)),
            r.wf(),
            final(r.store)@ == final(self.store)@,
    {
        write_u64(self.store, 24, fld);
        self
    }

    /// Reads the `FirstVFBar1Address` field (bytes 24..32).
    pub fn get_FirstVFBar1Address(&self) -> (r: u64)
        requires
            self.wf(),
        ensures
            r == u64_at(self.bytes(), 24),
    {
        read_u64(self.store, 24)
    }

    /// Writes `fld` to the `FirstVFBar1Address` field (bytes 24..32).
    pub fn set_FirstVFBar1Address(&mut self, fld: u64)
        requires
            old(self).wf(),
        ensures
            final(self).bytes() == splice(old(self).bytes(), 24, spec_u64_to_le_bytes(fld)),
            final(self).wf(),
            final(final(self).store)@ == final(old(self).store)@,
    {
        write_u64(self.store, 24, fld);
    }

    /// Writes `fld` to the `FirstVFBar2Address` field (bytes 32..40) and gives the view back.
    pub fn FirstVFBar2Address(self, fld: u64) -> (r: Self)
        requires
            self.wf(),
        ensures
            r.bytes() == splice(self.bytes(), 32, spec_u64_to_le_bytes(fld)),
            r.wf(),
            final(r.store)@ == final(self.store)@,
    {
        write_u64(self.store, 32, fld);
        self
    }

    /// Reads the `FirstVFBar2Address` field (bytes 32..40).
    pub fn get_FirstVFBar2Address(&self) -> (r: u64)
        requires
            self.wf(),
        ensures
            r == u64_at(self.bytes(), 32),
    {
        read_u64(self.store, 32)
    }

    /// Writes `fld` to the `FirstVFBar2Address` field (bytes 32..40).
    pub fn set_FirstVFBar2Address(&mut self, fld: u64)
        requires
            old(self).wf(),
        ensures
            final(self).bytes() == splice(old(self).bytes(), 32, spec_u64_to_le_bytes(fld)),
            final(self).wf(),
            final(final(self).store)@ == final(old(self).store)@,
    {
        write_u64(self.store, 32, fld);
    }

    /// Writes `fld` to the `bar0Size` field (bytes 40..48) and gives the view back.
    pub fn bar0Size(self, fld: u64) -> (r: Self)
        requires
            self.wf(),
        ensures
            r.bytes() == splice(self.bytes(), 40, spec_u64_to_le_bytes(fld)),
            r.wf(),
            final(r.store)@ == final(self.store)@,
    {
        write_u64(self.store, 40, fld);
        self
    }

    /// Reads the `bar0Size` field (bytes 40..48).
    pub fn get_bar0Size(&self) -> (r: u64)
        requires
            self.wf(),
        ensures
            r == u64_at(self.bytes(), 40),
    {
        read_u64(self.store, 40)
    }

    /// Writes `fld` to the `bar0Size` field (bytes 40..48).
    pub fn set_bar0Size(&mut self, fld: u64)
        requires
            old(self).wf(),
        ensures
            final(self).bytes() == splice(old(self).bytes(), 40, spec_u64_to_le_bytes(fld)),
            final(self).wf(),
            final(final(self).store)@ == final(old(self).store)@,
    {
        write_u64(self.store, 40, fld);
    }

    /// Writes `fld` to the `bar1Size` field (bytes 48..56) and gives the view back.
    pub fn bar1Size(self, fld: u64) -> (r: Self)
        requires
            self.wf(),
        ensures
            r.bytes() == splice(self.bytes(), 48, spec_u64_to_le_bytes(fld)),
            r.wf(),
            final(r.store)@ == final(self.store)@,
    {
        write_u64(self.store, 48, fld);
        self
    }

    /// Reads the `bar1Size` field (bytes 48..56).
    pub fn get_bar1Size(&self) -> (r: u64)
        requires
            self.wf(),
        ensures
            r == u64_at(self.bytes(), 48),
    {
        read_u64(self.store, 48)
    }

    /// Writes `fld` to the `bar1Size` field (bytes 48..56).
    pub fn set_bar1Size(&mut self, fld: u64)
        requires
            old(self).wf(),
        ensures
            final(self).bytes() == splice(old(self).bytes(), 48, spec_u64_to_le_bytes(fld)),
            final(self).wf(),
            final(final(self).store)@ == final(old(self).store)@,
    {
        write_u64(self.store, 48, fld);
    }

    /// Writes `fld` to the `bar2Size` field (bytes 56..64) and gives the view back.
    pub fn bar2Size(self, fld: u64) -> (r: Self)
        requires
            self.wf(),
        ensures
            r.bytes() == splice(self.bytes(), 56, spec_u64_to_le_bytes(fld)),
            r.wf(),
            final(r.store)@ == final(self.store)@,
    {
        write_u64(self.store, 56, fld);
        self
    }

    /// Reads the `bar2Size` field (bytes 56..64).
    pub fn get_bar2Size(&self) -> (r: u64)
        requires
            self.wf(),
        ensures
            r == u64_at(self.bytes(), 56),
    {
        read_u64(self.store, 56)
    }

    /// Writes `fld` to the `bar2Size` field (bytes 56..64).
    pub fn set_bar2Size(&mut self, fld: u64)
        requires
            old(self).wf(),
        ensures
            final(self).bytes() == splice(old(self).bytes(), 56, spec_u64_to_le_bytes(fld)),
            final(self).wf(),
            final(final(self).store)@ == final(old(self).store)@,
    {
        write_u64(self.store, 56, fld);
    }

    /// Writes `fld` to the `b64bitBar0` field (bytes 64..65) and gives the view back.
    pub fn b64bitBar0(self, fld: u8) -> (r: Self)
        requires
            self.wf(),
        ensures
            r.bytes() == splice(self.bytes(), 64, seq![fld]),
            r.wf(),
            final(r.store)@ == final(self.store)@,
    {
        write_u8(self.store, 64, fld);
        self
    }

    /// Reads the `b64bitBar0` field (bytes 64..65).
    pub fn get_b64bitBar0(&self) -> (r: u8)
        requires
            self.wf(),
        ensures
            r == self.bytes()[64],
    {
        read_u8(self.store, 64)
    }

    /// Writes `fld` to the `b64bitBar0` field (bytes 64..65).
    pub fn set_b64bitBar0(&mut self, fld: u8)
        requires
            old(self).wf(),
        ensures
            final(self).bytes() == splice(old(self).bytes(), 64, seq![fld]),
            final(self).wf(),
            final(final(self).store)@ == final(old(self).store)@,
    {
        write_u8(self.store, 64, fld);
    }

    /// Writes `fld` to the `b64bitBar1` field (bytes 65..66) and gives the view back.
    pub fn b64bitBar1(self, fld: u8) -> (r: Self)
        requires
            self.wf(),
        ensures
            r.bytes() == splice(self.bytes(), 65, seq![fld]),
            r.wf(),
            final(r.store)@ == final(self.store)@,
    {
        write_u8(self.store, 65, fld);
        self
    }

    /// Reads the `b64bitBar1` field (bytes 65..66).
    pub fn get_b64bitBar1(&self) -> (r: u8)
        requires
            self.wf(),
        ensures
            r == self.bytes()[65],
    {
        read_u8(self.store, 65)
    }

    /// Writes `fld` to the `b64bitBar1` field (bytes 65..66).
    pub fn set_b64bitBar1(&mut self, fld: u8)
        requires
            old(self).wf(),
        ensures
            final(self).bytes() == splice(old(self).bytes(), 65, seq![fld]),
            final(self).wf(),
            final(final(self).store)@ == final(old(self).store)@,
    {
        write_u8(self.store, 65, fld);
    }

    /// Writes `fld` to the `b64bitBar2` field (bytes 66..67) and gives the view back.
    pub fn b64bitBar2(self, fld: u8) -> (r: Self)
        requires
            self.wf(),
        ensures
            r.bytes() == splice(self.bytes(), 66, seq![fld]),
            r.wf(),
            final(r.store)@ == final(self.store)@,
    {
        write_u8(self.store, 66, fld);
        self
    }

    /// Reads the `b64bitBar2` field (bytes 66..67).
    pub fn get_b64bitBar2(&self) -> (r: u8)
        requires
            self.wf(),
        ensures
            r == self.bytes()[66],
    {
        read_u8(self.store, 66)
    }

    /// Writes `fld` to the `b64bitBar2` field (bytes 66..67).
    pub fn set_b64bitBar2(&mut self, fld: u8)
        requires
            old(self).wf(),
        ensures
            final(self).bytes() == splice(old(self).bytes(), 66, seq![fld]),
            final(self).wf(),
            final(final(self).store)@ == final(old(self).store)@,
    {
        write_u8(self.store, 66, fld);
    }

    /// Writes `fld` to the `bSriovEnabled` field (bytes 67..68) and gives the view back.
    pub fn bSriovEnabled(self, fld: u8) -> (r: Self)
        requires
            self.wf(),
        ensures
            r.bytes() == splice(self.bytes(), 67, seq![fld]),
            r.wf(),
            final(r.store)@ == final(self.store)@,
    {
        write_u8(self.store, 67, fld);
        self
    }

    /// Reads the `bSriovEnabled` field (bytes 67..68).
    pub fn get_bSriovEnabled(&self) -> (r: u8)
        requires
            self.wf(),
        ensures
            r == self.bytes()[67],
    {
        read_u8(self.store, 67)
    }

    /// Writes `fld` to the `bSriovEnabled` field (bytes 67..68).
    pub fn set_bSriovEnabled(&mut self, fld: u8)
        requires
            old(self).wf(),
        ensures
            final(self).bytes() == splice(old(self).bytes(), 67, seq![fld]),
            final(self).wf(),
            final(final(self).store)@ == final(old(self).store)@,
    {
        write_u8(self.store, 67, fld);
    }

    /// Writes `fld` to the `bSriovHeavyEnabled` field (bytes 68..69) and gives the view back.
    pub fn bSriovHeavyEnabled(self, fld: u8) -> (r: Self)
        requires
            self.wf(),
        ensures
            r.bytes() == splice(self.bytes(), 68, seq![fld]),
            r.wf(),
            final(r.store)@ == final(self.store)@,
    {
        write_u8(self.store, 68, fld);
        self
    }

    /// Reads the `bSriovHeavyEnabled` field (bytes 68..69).
    pub fn get_bSriovHeavyEnabled(&self) -> (r: u8)
        requires
            self.wf(),
        ensures
            r == self.bytes()[68],
    {
        read_u8(self.store, 68)
    }

    /// Writes `fld` to the `bSriovHeavyEnabled` field (bytes 68..69).
    pub fn set_bSriovHeavyEnabled(&mut self, fld: u8)
        requires
            old(self).wf(),
        ensures
            final(self).bytes() == splice(old(self).bytes(), 68, seq![fld]),
            final(self).wf(),
            final(final(self).store)@ == final(old(self).store)@,
    {
        write_u8(self.store, 68, fld);
    }

    /// Writes `fld` to the `bEmulateVFBar0TlbInvalidationRegister` field (bytes 69..70) and gives the view back.
    pub fn bEmulateVFBar0TlbInvalidationRegister(self, fld: u8) -> (r: Self)
        requires
            self.wf(),
        ensures
            r.bytes() == splice(self.bytes(), 69, seq![fld]),
            r.wf(),
            final(r.store)@ == final(self.store)@,
    {
        write_u8(self.store, 69, fld);
        self
    }

    /// Reads the `bEmulateVFBar0TlbInvalidationRegister` field (bytes 69..70).
    pub fn get_bEmulateVFBar0TlbInvalidationRegister(&self) -> (r: u8)
        requires
            self.wf(),
        ensures
            r == self.bytes()[69],
    {
        read_u8(self.store, 69)
    }

    /// Writes `fld` to the `bEmulateVFBar0TlbInvalidationRegister` field (bytes 69..70).
    pub fn set_bEmulateVFBar0TlbInvalidationRegister(&mut self, fld: u8)
        requires
            old(self).wf(),
        ensures
            final(self).bytes() == splice(old(self).bytes(), 69, seq![fld]),
            final(self).wf(),
            final(final(self).store)@ == final(old(self).store)@,
    {
        write_u8(self.store, 69, fld);
    }

    /// Writes `fld` to the `bClientRmAllocatedCtxBuffer` field (bytes 70..71) and gives the view back.
    pub fn bClientRmAllocatedCtxBuffer(self, fld: u8) -> (r: Self)
        requires
            self.wf(),
        ensures
            r.bytes() == splice(self.bytes(), 70, seq![fld]),
            r.wf(),
            final(r.store)@ == final(self.store)@,
    {
        write_u8(self.store, 70, fld);
        self
    }

    /// Reads the `bClientRmAllocatedCtxBuffer` field (bytes 70..71).
    pub fn get_bClientRmAllocatedCtxBuffer(&self) -> (r: u8)
        requires
            self.wf(),
        ensures
            r == self.bytes()[70],
    {
        read_u8(self.store, 70)
    }

    /// Writes `fld` to the `bClientRmAllocatedCtxBuffer` field (bytes 70..71).
    pub fn set_bClientRmAllocatedCtxBuffer(&mut self, fld: u8)
        requires
            old(self).wf(),
        ensures
            final(self).bytes() == splice(old(self).bytes(), 70, seq![fld]),
            final(self).wf(),
            final(final(self).store)@ == final(old(self).store)@,
    {
        write_u8(self.store, 70, fld);
    }

    /// Writes `fld` to the `bNonPowerOf2ChannelCountSupported` field (bytes 71..72) and gives the view back.
    pub fn bNonPowerOf2ChannelCountSupported(self, fld: u8) -> (r: Self)
        requires
            self.wf(),
        ensures
            r.bytes() == splice(self.bytes(), 71, seq![fld]),
            r.wf(),
            final(r.store)@ == final(self.store)@,
    {
        write_u8(self.store, 71, fld);
        self
    }

    /// Reads the `bNonPowerOf2ChannelCountSupported` field (bytes 71..72).
    pub fn get_bNonPowerOf2ChannelCountSupported(&self) -> (r: u8)
        requires
            self.wf(),
        ensures
            r == self.bytes()[71],
    {
        read_u8(self.store, 71)
    }

    /// Writes `fld` to the `bNonPowerOf2ChannelCountSupported` field (bytes 71..72).
    pub fn set_bNonPowerOf2ChannelCountSupported(&mut self, fld: u8)
        requires
            old(self).wf(),
        ensures
            final(self).bytes() == splice(old(self).bytes(), 71, seq![fld]),
            final(self).wf(),
            final(final(self).store)@ == final(old(self).store)@,
    {
        write_u8(self.store, 71, fld);
    }

    /// Writes `fld` to the `bVfResizableBAR1Supported` field (bytes 72..73) and gives the view back.
    pub fn bVfResizableBAR1Supported(self, fld: u8) -> (r: Self)
        requires
            self.wf(),
        ensures
            r.bytes() == splice(self.bytes(), 72, seq![fld]),
            r.wf(),
            final(r.store)@ == final(self.store)@,
    {
        write_u8(self.store, 72, fld);
        self
    }

    /// Reads the `bVfResizableBAR1Supported` field (bytes 72..73).
    pub fn get_bVfResizableBAR1Supported(&self) -> (r: u8)
        requires
            self.wf(),
        ensures
            r == self.bytes()[72],
    {
        read_u8(self.store, 72)
    }

    /// Writes `fld` to the `bVfResizableBAR1Supported` field (bytes 72..73).
    pub fn set_bVfResizableBAR1Supported(&mut self, fld: u8)
        requires
            old(self).wf(),
        ensures
            final(self).bytes() == splice(old(self).bytes(), 72, seq![fld]),
            final(self).wf(),
            final(final(self).store)@ == final(old(self).store)@,
    {
        write_u8(self.store, 72, fld);
    }

}

/// View of the firmware structure `s_NV2080_CTRL_INTERNAL_ENGINE_CONTEXT_BUFFER_INFO` (8 bytes).
pub struct s_NV2080_CTRL_INTERNAL_ENGINE_CONTEXT_BUFFER_INFO<'s> {
    /// The buffer from the first byte of the structure to the end.
    pub store: &'s mut [u8],
}

impl<'s> s_NV2080_CTRL_INTERNAL_ENGINE_CONTEXT_BUFFER_INFO<'s> {
    /// The bytes seen through this view.
    pub open spec fn bytes(&self) -> Seq<u8> {
        self.store@
    }

    /// The buffer holds at least the whole structure.
    pub open spec fn wf(&self) -> bool {
        self.store@.len() >= 8
    }

    /// Size of the structure in bytes.
    pub fn str_size() -> (n: usize)
        ensures
            n == 8,
    {
        8
    }

    /// Views `store` as this structure, starting at its first byte.
    pub fn new(store: &'s mut [u8]) -> (r: Self)
        requires
            old(store)@.len() >= 8,
        ensures
            r.bytes() == old(store)@,
            r.wf(),
            final(store)@ == final(r.store)@,
    {
        Self { store }
    }

    /// Writes `fld` to the `size` field (bytes 0..4) and gives the view back.
    pub fn size(self, fld: u32) -> (r: Self)
        requires
            self.wf(),
        ensures
            r.bytes() == splice(self.bytes(), 0, spec_u32_to_le_bytes(fld)),
            r.wf(),
            final(r.store)@ == final(self.store)@,
    {
        write_u32(self.store, 0, fld);
        self
    }

    /// Reads the `size` field (bytes 0..4).
    pub fn get_size(&self) -> (r: u32)
        requires
            self.wf(),
        ensures
            r == u32_at(self.bytes(), 0),
    {
        read_u32(self.store, 0)
    }

    /// Writes `fld` to the `size` field (bytes 0..4).
    pub fn set_size(&mut self, fld: u32)
        requires
            old(self).wf(),
        ensures
            final(self).bytes() == splice(old(self).bytes(), 0, spec_u32_to_le_bytes(fld)),
            final(self).wf(),
            final(final(self).store)@ == final(old(self).store)@,
    {
        write_u32(self.store, 0, fld);
    }

    /// Writes `fld` to the `alignment` field (bytes 4..8) and gives the view back.
    pub fn alignment(self, fld: u32) -> (r: Self)
        requires
            self.wf(),
        ensures
            r.bytes() == splice(self.bytes(), 4, spec_u32_to_le_bytes(fld)),
            r.wf(),
            final(r.store)@ == final(self.store)@,
    {
        write_u32(self.store, 4, fld);
        self
    }

    /// Reads the `alignment` field (bytes 4..8).
    pub fn get_alignment(&self) -> (r: u32)
        requires
            self.wf(),
        ensures
            r == u32_at(self.bytes(), 4),
    {
        read_u32(self.store, 4)
    }

    /// Writes `fld` to the `alignment` field (bytes 4..8).
    pub fn set_alignment(&mut self, fld: u32)
        requires
            old(self).wf(),
        ensures
            final(self).bytes() == splice(old(self).bytes(), 4, spec_u32_to_le_bytes(fld)),
            final(self).wf(),
            final(final(self).store)@ == final(old(self).store)@,
    {
        write_u32(self.store, 4, fld);
    }

}

/// View of the firmware structure `s_VIRTUAL_DISPLAY_GET_MAX_RESOLUTION_PARAMS` (12 bytes).
pub struct s_VIRTUAL_DISPLAY_GET_MAX_RESOLUTION_PARAMS<'s> {
    /// The buffer from the first byte of the structure to the end.
    pub store: &'s mut [u8],
}

impl<'s> s_VIRTUAL_DISPLAY_GET_MAX_RESOLUTION_PARAMS<'s> {
    /// The bytes seen through this view.
    pub open spec fn bytes(&self) -> Seq<u8> {
        self.store@
    }

    /// The buffer holds at least the whole structure.
    pub open spec fn wf(&self) -> bool {
        self.store@.len() >= 12
    }

    /// Size of the structure in bytes.
    pub fn str_size() -> (n: usize)
        ensures
            n == 12,
    {
        12
    }

    /// Views `store` as this structure, starting at its first byte.
    pub fn new(store: &'s mut [u8]) -> (r: Self)
        requires
            old(store)@.len() >= 12,
        ensures
            r.bytes() == old(store)@,
            r.wf(),
            final(store)@ == final(r.store)@,
    {
        Self { store }
    }

    /// Writes `fld` to the `headIndex` field (bytes 0..4) and gives the view back.
    pub fn headIndex(self, fld: u32) -> (r: Self)
        requires
            self.wf(),
        ensures
            r.bytes() == splice(self.bytes(), 0, spec_u32_to_le_bytes(fld)),
            r.wf(),
            final(r.store)@ == final(self.store)@,
    {
        write_u32(self.store, 0, fld);
        self
    }

    /// Reads the `headIndex` field (bytes 0..4).
    pub fn get_headIndex(&self) -> (r: u32)
        requires
            self.wf(),
        ensures
            r == u32_at(self.bytes(), 0),
    {
        read_u32(self.store, 0)
    }

    /// Writes `fld` to the `headIndex` field (bytes 0..4).
    pub fn set_headIndex(&mut self, fld: u32)
        requires
            old(self).wf(),
        ensures
            final(self).bytes() == splice(old(self).bytes(), 0, spec_u32_to_le_bytes(fld)),
            final(self).wf(),
            final(final(self).store)@ == final(old(self).store)@,
    {
        write_u32(self.store, 0, fld);
    }

    /// Writes `fld` to the `maxHResolution` field (bytes 4..8) and gives the view back.
    pub fn maxHResolution(self, fld: u32) -> (r: Self)
        requires
            self.wf(),
        ensures
            r.bytes() == splice(self.bytes(), 4, spec_u32_to_le_bytes(fld)),
            r.wf(),
            final(r.store)@ == final(self.store)@,
    {
        write_u32(self.store, 4, fld);
        self
    }

    /// Reads the `maxHResolution` field (bytes 4..8).
    pub fn get_maxHResolution(&self) -> (r: u32)
        requires
            self.wf(),
        ensures
            r == u32_at(self.bytes(), 4),
    {
        read_u32(self.store, 4)
    }

    /// Writes `fld` to the `maxHResolution` field (bytes 4..8).
    pub fn set_maxHResolution(&mut self, fld: u32)
        requires
            old(self).wf(),
        ensures
            final(self).bytes() == splice(old(self).bytes(), 4, spec_u32_to_le_bytes(fld)),
            final(self).wf(),
            final(final(self).store)@ == final(old(self).store)@,
    {
        write_u32(self.store, 4, fld);
    }

    /// Writes `fld` to the `maxVResolution` field (bytes 8..12) and gives the view back.
    pub fn maxVResolution(self, fld: u32) -> (r: Self)
        requires
            self.wf(),
        ensures
            r.bytes() == splice(self.bytes(), 8, spec_u32_to_le_bytes(fld)),
            r.wf(),
            final(r.store)@ == final(self.store)@,
    {
        write_u32(self.store, 8, fld);
        self
    }

    /// Reads the `maxVResolution` field (bytes 8..12).
    pub fn get_maxVResolution(&self) -> (r: u32)
        requires
            self.wf(),
        ensures
            r == u32_at(self.bytes(), 8),
    {
        read_u32(self.store, 8)
    }

    /// Writes `fld` to the `maxVResolution` field (bytes 8..12).
    pub fn set_maxVResolution(&mut self, fld: u32)
        requires
            old(self).wf(),
        ensures
            final(self).bytes() == splice(old(self).bytes(), 8, spec_u32_to_le_bytes(fld)),
            final(self).wf(),
            final(final(self).store)@ == final(old(self).store)@,
    {
        write_u32(self.store, 8, fld);
    }

}

/// View of the firmware structure `s_VIRTUAL_DISPLAY_GET_NUM_HEADS_PARAMS` (8 bytes).
pub struct s_VIRTUAL_DISPLAY_GET_NUM_HEADS_PARAMS<'s> {
    /// The buffer from the first byte of the structure to the end.
    pub store: &'s mut [u8],
}

impl<'s> s_VIRTUAL_DISPLAY_GET_NUM_HEADS_PARAMS<'s> {
    /// The bytes seen through this view.
    pub open spec fn bytes(&self) -> Seq<u8> {
        self.store@
    }

    /// The buffer holds at least the whole structure.
    pub open spec fn wf(&self) -> bool {
        self.store@.len() >= 8
    }

    /// Size of the structure in bytes.
    pub fn str_size() -> (n: usize)
        ensures
            n == 8,
    {
        8
    }

    /// Views `store` as this structure, starting at its first byte.
    pub fn new(store: &'s mut [u8]) -> (r: Self)
        requires
            old(store)@.len() >= 8,
        ensures
            r.bytes() == old(store)@,
            r.wf(),
            final(store)@ == final(r.store)@,
    {
        Self { store }
    }

    /// Writes `fld` to the `numHeads` field (bytes 0..4) and gives the view back.
    pub fn numHeads(self, fld: u32) -> (r: Self)
        requires
            self.wf(),
        ensures
            r.bytes() == splice(self.bytes(), 0, spec_u32_to_le_bytes(fld)),
            r.wf(),
            final(r.store)@ == final(self.store)@,
    {
        write_u32(self.store, 0, fld);
        self
    }

    /// Reads the `numHeads` field (bytes 0..4).
    pub fn get_numHeads(&self) -> (r: u32)
        requires
            self.wf(),
        ensures
            r == u32_at(self.bytes(), 0),
    {
        read_u32(self.store, 0)
    }

    /// Writes `fld` to the `numHeads` field (bytes 0..4).
    pub fn set_numHeads(&mut self, fld: u32)
        requires
            old(self).wf(),
        ensures
            final(self).bytes() == splice(old(self).bytes(), 0, spec_u32_to_le_bytes(fld)),
            final(self).wf(),
            final(final(self).store)@ == final(old(self).store)@,
    {
        write_u32(self.store, 0, fld);
    }

    /// Writes `fld` to the `maxNumHeads` field (bytes 4..8) and gives the view back.
    pub fn maxNumHeads(self, fld: u32) -> (r: Self)
        requires
            self.wf(),
        ensures
            r.bytes() == splice(self.bytes(), 4, spec_u32_to_le_bytes(fld)),
            r.wf(),
            final(r.store)@ == final(self.store)@,
    {
        write_u32(self.store, 4, fld);
        self
    }

    /// Reads the `maxNumHeads` field (bytes 4..8).
    pub fn get_maxNumHeads(&self) -> (r: u32)
        requires
            self.wf(),
        ensures
            r == u32_at(self.bytes(), 4),
    {
        read_u32(self.store, 4)
    }

    /// Writes `fld` to the `maxNumHeads` field (bytes 4..8).
    pub fn set_maxNumHeads(&mut self, fld: u32)
        requires
            old(self).wf(),
        ensures
            final(self).bytes() == splice(old(self).bytes(), 4, spec_u32_to_le_bytes(fld)),
            final(self).wf(),
            final(final(self).store)@ == final(old(self).store)@,
    {
        write_u32(self.store, 4, fld);
    }

}

/// View of the firmware structure `s_GspSystemInfo` (928 bytes).
pub struct s_GspSystemInfo<'s> {
    /// The buffer from the first byte of the structure to the end.
    pub store: &'s mut [u8],
}

impl<'s> s_GspSystemInfo<'s> {
    /// The bytes seen through this view.
    pub open spec fn bytes(&self) -> Seq<u8> {
        self.store@
    }

    /// The buffer holds at least the whole structure.
    pub open spec fn wf(&self) -> bool {
        self.store@.len() >= 928
    }

    /// Size of the structure in bytes.
    pub fn str_size() -> (n: usize)
        ensures
            n == 928,
    {
        928
    }

    /// Views `store` as this structure, starting at its first byte.
    pub fn new(store: &'s mut [u8]) -> (r: Self)
        requires
            old(store)@.len() >= 928,
        ensures
            r.bytes() == old(store)@,
            r.wf(),
            final(store)@ == final(r.store)@,
    {
        Self { store }
    }

    /// Writes `fld` to the `gpuPhysAddr` field (bytes 0..8) and gives the view back.
    pub fn gpuPhysAddr(self, fld: u64) -> (r: Self)
        requires
            self.wf(),
        ensures
            r.bytes() == splice(self.bytes(), 0, spec_u64_to_le_bytes(fld)),
            r.wf(),
            final(r.store)@ == final(self.store)@,
    {
        write_u64(self.store, 0, fld);
        self
    }

    /// Reads the `gpuPhysAddr` field (bytes 0..8).
    pub fn get_gpuPhysAddr(&self) -> (r: u64)
        requires
            self.wf(),
        ensures
            r == u64_at(self.bytes(), 0),
    {
        read_u64(self.store, 0)
    }

    /// Writes `fld` to the `gpuPhysAddr` field (bytes 0..8).
    pub fn set_gpuPhysAddr(&mut self, fld: u64)
        requires
            old(self).wf(),
        ensures
            final(self).bytes() == splice(old(self).bytes(), 0, spec_u64_to_le_bytes(fld)),
            final(self).wf(),
            final(final(self).store)@ == final(old(self).store)@,
    {
        write_u64(self.store, 0, fld);
    }

    /// Writes `fld` to the `gpuPhysFbAddr` field (bytes 8..16) and gives the view back.
    pub fn gpuPhysFbAddr(self, fld: u64) -> (r: Self)
        requires
            self.wf(),
        ensures
            r.bytes() == splice(self.bytes(), 8, spec_u64_to_le_bytes(fld)),
            r.wf(),
            final(r.store)@ == final(self.store)@,
    {
        write_u64(self.store, 8, fld);
        self
    }

    /// Reads the `gpuPhysFbAddr` field (bytes 8..16).
    pub fn get_gpuPhysFbAddr(&self) -> (r: u64)
        requires
            self.wf(),
        ensures
            r == u64_at(self.bytes(), 8),
    {
        read_u64(self.store, 8)
    }

    /// Writes `fld` to the `gpuPhysFbAddr` field (bytes 8..16).
    pub fn set_gpuPhysFbAddr(&mut self, fld: u64)
        requires
            old(self).wf(),
        ensures
            final(self).bytes() == splice(old(self).bytes(), 8, spec_u64_to_le_bytes(fld)),
            final(self).wf(),
            final(final(self).store)@ == final(old(self).store)@,
    {
        write_u64(self.store, 8, fld);
    }

    /// Writes `fld` to the `gpuPhysInstAddr` field (bytes 16..24) and gives the view back.
    pub fn gpuPhysInstAddr(self, fld: u64) -> (r: Self)
        requires
            self.wf(),
        ensures
            r.bytes() == splice(self.bytes(), 16, spec_u64_to_le_bytes(fld)),
            r.wf(),
            final(r.store)@ == final(self.store)@,
    {
        write_u64(self.store, 16, fld);
        self
    }

    /// Reads the `gpuPhysInstAddr` field (bytes 16..24).
    pub fn get_gpuPhysInstAddr(&self) -> (r: u64)
        requires
            self.wf(),
        ensures
            r == u64_at(self.bytes(), 16),
    {
        read_u64(self.store, 16)
    }

    /// Writes `fld` to the `gpuPhysInstAddr` field (bytes 16..24).
    pub fn set_gpuPhysInstAddr(&mut self, fld: u64)
        requires
            old(self).wf(),
        ensures
            final(self).bytes() == splice(old(self).bytes(), 16, spec_u64_to_le_bytes(fld)),
            final(self).wf(),
            final(final(self).store)@ == final(old(self).store)@,
    {
        write_u64(self.store, 16, fld);
    }

    /// Writes `fld` to the `gpuPhysIoAddr` field (bytes 24..32) and gives the view back.
    pub fn gpuPhysIoAddr(self, fld: u64) -> (r: Self)
        requires
            self.wf(),
        ensures
            r.bytes() == splice(self.bytes(), 24, spec_u64_to_le_bytes(fld)),
            r.wf(),
            final(r.store)@ == final(self.store)@,
    {
        write_u64(self.store, 24, fld);
        self
    }

    /// Reads the `gpuPhysIoAddr` field (bytes 24..32).
    pub fn get_gpuPhysIoAddr(&self) -> (r: u64)
        requires
            self.wf(),
        ensures
            r == u64_at(self.bytes(), 24),
    {
        read_u64(self.store, 24)
    }

    /// Writes `fld` to the `gpuPhysIoAddr` field (bytes 24..32).
    pub fn set_gpuPhysIoAddr(&mut self, fld: u64)
        requires
            old(self).wf(),
        ensures
            final(self).bytes() == splice(old(self).bytes(), 24, spec_u64_to_le_bytes(fld)),
            final(self).wf(),
            final(final(self).store)@ == final(old(self).store)@,
    {
        write_u64(self.store, 24, fld);
    }

    /// Writes `fld` to the `nvDomainBusDeviceFunc` field (bytes 32..40) and gives the view back.
    pub fn nvDomainBusDeviceFunc(self, fld: u64) -> (r: Self)
        requires
            self.wf(),
        ensures
            r.bytes() == splice(self.bytes(), 32, spec_u64_to_le_bytes(fld)),
            r.wf(),
            final(r.store)@ == final(self.store)@,
    {
        write_u64(self.store, 32, fld);
        self
    }

    /// Reads the `nvDomainBusDeviceFunc` field (bytes 32..40).
    pub fn get_nvDomainBusDeviceFunc(&self) -> (r: u64)
        requires
            self.wf(),
        ensures
            r == u64_at(self.bytes(), 32),
    {
        read_u64(self.store, 32)
    }

    /// Writes `fld` to the `nvDomainBusDeviceFunc` field (bytes 32..40).
    pub fn set_nvDomainBusDeviceFunc(&mut self, fld: u64)
        requires
            old(self).wf(),
        ensures
            final(self).bytes() == splice(old(self).bytes(), 32, spec_u64_to_le_bytes(fld)),
            final(self).wf(),
            final(final(self).store)@ == final(old(self).store)@,
    {
        write_u64(self.store, 32, fld);
    }

    /// Writes `fld` to the `simAccessBufPhysAddr` field (bytes 40..48) and gives the view back.
    pub fn simAccessBufPhysAddr(self, fld: u64) -> (r: Self)
        requires
            self.wf(),
        ensures
            r.bytes() == splice(self.bytes(), 40, spec_u64_to_le_bytes(fld)),
            r.wf(),
            final(r.store)@ == final(self.store)@,
    {
        write_u64(self.store, 40, fld);
        self
    }

    /// Reads the `simAccessBufPhysAddr` field (bytes 40..48).
    pub fn get_simAccessBufPhysAddr(&self) -> (r: u64)
        requires
            self.wf(),
        ensures
            r == u64_at(self.bytes(), 40),
    {
        read_u64(self.store, 40)
    }

    /// Writes `fld` to the `simAccessBufPhysAddr` field (bytes 40..48).
    pub fn set_simAccessBufPhysAddr(&mut self, fld: u64)
        requires
            old(self).wf(),
        ensures
            final(self).bytes() == splice(old(self).bytes(), 40, spec_u64_to_le_bytes(fld)),
            final(self).wf(),
            final(final(self).store)@ == final(old(self).store)@,
    {
        write_u64(self.store, 40, fld);
    }

    /// Writes `fld` to the `notifyOpSharedSurfacePhysAddr` field (bytes 48..56) and gives the view back.
    pub fn notifyOpSharedSurfacePhysAddr(self, fld: u64) -> (r: Self)
        requires
            self.wf(),
        ensures
            r.bytes() == splice(self.bytes(), 48, spec_u64_to_le_bytes(fld)),
            r.wf(),
            final(r.store)@ == final(self.store)@,
    {
        write_u64(self.store, 48, fld);
        self
    }

    /// Reads the `notifyOpSharedSurfacePhysAddr` field (bytes 48..56).
    pub fn get_notifyOpSharedSurfacePhysAddr(&self) -> (r: u64)
        requires
            self.wf(),
        ensures
            r == u64_at(self.bytes(), 48),
    {
        read_u64(self.store, 48)
    }

    /// Writes `fld` to the `notifyOpSharedSurfacePhysAddr` field (bytes 48..56).
    pub fn set_notifyOpSharedSurfacePhysAddr(&mut self, fld: u64)
        requires
            old(self).wf(),
        ensures
            final(self).bytes() == splice(old(self).bytes(), 48, spec_u64_to_le_bytes(fld)),
            final(self).wf(),
            final(final(self).store)@ == final(old(self).store)@,
    {
        write_u64(self.store, 48, fld);
    }

    /// Writes `fld` to the `pcieAtomicsOpMask` field (bytes 56..64) and gives the view back.
    pub fn pcieAtomicsOpMask(self, fld: u64) -> (r: Self)
        requires
            self.wf(),
        ensures
            r.bytes() == splice(self.bytes(), 56, spec_u64_to_le_bytes(fld)),
            r.wf(),
            final(r.store)@ == final(self.store)@,
    {
        write_u64(self.store, 56, fld);
        self
    }

    /// Reads the `pcieAtomicsOpMask` field (bytes 56..64).
    pub fn get_pcieAtomicsOpMask(&self) -> (r: u64)
        requires
            self.wf(),
        ensures
            r == u64_at(self.bytes(), 56),
    {
        read_u64(self.store, 56)
    }

    /// Writes `fld` to the `pcieAtomicsOpMask` field (bytes 56..64).
    pub fn set_pcieAtomicsOpMask(&mut self, fld: u64)
        requires
            old(self).wf(),
        ensures
            final(self).bytes() == splice(old(self).bytes(), 56, spec_u64_to_le_bytes(fld)),
            final(self).wf(),
            final(final(self).store)@ == final(old(self).store)@,
    {
        write_u64(self.store, 56, fld);
    }

    /// Writes `fld` to the `consoleMemSize` field (bytes 64..72) and gives the view back.
    pub fn consoleMemSize(self, fld: u64) -> (r: Self)
        requires
            self.wf(),
        ensures
            r.bytes() == splice(self.bytes(), 64, spec_u64_to_le_bytes(fld)),
            r.wf(),
            final(r.store)@ == final(self.store)@,
    {
        write_u64(self.store, 64, fld);
        self
    }

    /// Reads the `consoleMemSize` field (bytes 64..72).
    pub fn get_consoleMemSize(&self) -> (r: u64)
        requires
            self.wf(),
        ensures
            r == u64_at(self.bytes(), 64),
    {
        read_u64(self.store, 64)
    }

    /// Writes `fld` to the `consoleMemSize` field (bytes 64..72).
    pub fn set_consoleMemSize(&mut self, fld: u64)
        requires
            old(self).wf(),
        ensures
            final(self).bytes() == splice(old(self).bytes(), 64, spec_u64_to_le_bytes(fld)),
            final(self).wf(),
            final(final(self).store)@ == final(old(self).store)@,
    {
        write_u64(self.store, 64, fld);
    }

    /// Writes `fld` to the `maxUserVa` field (bytes 72..80) and gives the view back.
    pub fn maxUserVa(self, fld: u64) -> (r: Self)
        requires
            self.wf(),
        ensures
            r.bytes() == splice(self.bytes(), 72, spec_u64_to_le_bytes(fld)),
            r.wf(),
            final(r.store)@ == final(self.store)@,
    {
        write_u64(self.store, 72, fld);
        self
    }

    /// Reads the `maxUserVa` field (bytes 72..80).
    pub fn get_maxUserVa(&self) -> (r: u64)
        requires
            self.wf(),
        ensures
            r == u64_at(self.bytes(), 72),
    {
        read_u64(self.store, 72)
    }

    /// Writes `fld` to the `maxUserVa` field (bytes 72..80).
    pub fn set_maxUserVa(&mut self, fld: u64)
        requires
            old(self).wf(),
        ensures
            final(self).bytes() == splice(old(self).bytes(), 72, spec_u64_to_le_bytes(fld)),
            final(self).wf(),
            final(final(self).store)@ == final(old(self).store)@,
    {
        write_u64(self.store, 72, fld);
    }

    /// Writes `fld` to the `pciConfigMirrorBase` field (bytes 80..84) and gives the view back.
    pub fn pciConfigMirrorBase(self, fld: u32) -> (r: Self)
        requires
            self.wf(),
        ensures
            r.bytes() == splice(self.bytes(), 80, spec_u32_to_le_bytes(fld)),
            r.wf(),
            final(r.store)@ == final(self.store)@,
    {
        write_u32(self.store, 80, fld);
        self
    }

    /// Reads the `pciConfigMirrorBase` field (bytes 80..84).
    pub fn get_pciConfigMirrorBase(&self) -> (r: u32)
        requires
            self.wf(),
        ensures
            r == u32_at(self.bytes(), 80),
    {
        read_u32(self.store, 80)
    }

    /// Writes `fld` to the `pciConfigMirrorBase` field (bytes 80..84).
    pub fn set_pciConfigMirrorBase(&mut self, fld: u32)
        requires
            old(self).wf(),
        ensures
            final(self).bytes() == splice(old(self).bytes(), 80, spec_u32_to_le_bytes(fld)),
            final(self).wf(),
            final(final(self).store)@ == final(old(self).store)@,
    {
        write_u32(self.store, 80, fld);
    }

    /// Writes `fld` to the `pciConfigMirrorSize` field (bytes 84..88) and gives the view back.
    pub fn pciConfigMirrorSize(self, fld: u32) -> (r: Self)
        requires
            self.wf(),
        ensures
            r.bytes() == splice(self.bytes(), 84, spec_u32_to_le_bytes(fld)),
            r.wf(),
            final(r.store)@ == final(self.store)@,
    {
        write_u32(self.store, 84, fld);
        self
    }

    /// Reads the `pciConfigMirrorSize` field (bytes 84..88).
    pub fn get_pciConfigMirrorSize(&self) -> (r: u32)
        requires
            self.wf(),
        ensures
            r == u32_at(self.bytes(), 84),
    {
        read_u32(self.store, 84)
    }

    /// Writes `fld` to the `pciConfigMirrorSize` field (bytes 84..88).
    pub fn set_pciConfigMirrorSize(&mut self, fld: u32)
        requires
            old(self).wf(),
        ensures
            final(self).bytes() == splice(old(self).bytes(), 84, spec_u32_to_le_bytes(fld)),
            final(self).wf(),
            final(final(self).store)@ == final(old(self).store)@,
    {
        write_u32(self.store, 84, fld);
    }

    /// Writes `fld` to the `PCIDeviceID` field (bytes 88..92) and gives the view back.
    pub fn PCIDeviceID(self, fld: u32) -> (r: Self)
        requires
            self.wf(),
        ensures
            r.bytes() == splice(self.bytes(), 88, spec_u32_to_le_bytes(fld)),
            r.wf(),
            final(r.store)@ == final(self.store)@,
    {
        write_u32(self.store, 88, fld);
        self
    }

    /// Reads the `PCIDeviceID` field (bytes 88..92).
    pub fn get_PCIDeviceID(&self) -> (r: u32)
        requires
            self.wf(),
        ensures
            r == u32_at(self.bytes(), 88),
    {
        read_u32(self.store, 88)
    }

    /// Writes `fld` to the `PCIDeviceID` field (bytes 88..92).
    pub fn set_PCIDeviceID(&mut self, fld: u32)
        requires
            old(self).wf(),
        ensures
            final(self).bytes() == splice(old(self).bytes(), 88, spec_u32_to_le_bytes(fld)),
            final(self).wf(),
            final(final(self).store)@ == final(old(self).store)@,
    {
        write_u32(self.store, 88, fld);
    }

    /// Writes `fld` to the `PCISubDeviceID` field (bytes 92..96) and gives the view back.
    pub fn PCISubDeviceID(self, fld: u32) -> (r: Self)
        requires
            self.wf(),
        ensures
            r.bytes() == splice(self.bytes(), 92, spec_u32_to_le_bytes(fld)),
            r.wf(),
            final(r.store)@ == final(self.store)@,
    {
        write_u32(self.store, 92, fld);
        self
    }

    /// Reads the `PCISubDeviceID` field (bytes 92..96).
    pub fn get_PCISubDeviceID(&self) -> (r: u32)
        requires
            self.wf(),
        ensures
            r == u32_at(self.bytes(), 92),
    {
        read_u32(self.store, 92)
    }

    /// Writes `fld` to the `PCISubDeviceID` field (bytes 92..96).
    pub fn set_PCISubDeviceID(&mut self, fld: u32)
        requires
            old(self).wf(),
        ensures
            final(self).bytes() == splice(old(self).bytes(), 92, spec_u32_to_le_bytes(fld)),
            final(self).wf(),
            final(final(self).store)@ == final(old(self).store)@,
    {
        write_u32(self.store, 92, fld);
    }

    /// Writes `fld` to the `PCIRevisionID` field (bytes 96..100) and gives the view back.
    pub fn PCIRevisionID(self, fld: u32) -> (r: Self)
        requires
            self.wf(),
        ensures
            r.bytes() == splice(self.bytes(), 96, spec_u32_to_le_bytes(fld)),
            r.wf(),
            final(r.store)@ == final(self.store)@,
    {
        write_u32(self.store, 96, fld);
        self
    }

    /// Reads the `PCIRevisionID` field (bytes 96..100).
    pub fn get_PCIRevisionID(&self) -> (r: u32)
        requires
            self.wf(),
        ensures
            r == u32_at(self.bytes(), 96),
    {
        read_u32(self.store, 96)
    }

    /// Writes `fld` to the `PCIRevisionID` field (bytes 96..100).
    pub fn set_PCIRevisionID(&mut self, fld: u32)
        requires
            old(self).wf(),
        ensures
            final(self).bytes() == splice(old(self).bytes(), 96, spec_u32_to_le_bytes(fld)),
            final(self).wf(),
            final(final(self).store)@ == final(old(self).store)@,
    {
        write_u32(self.store, 96, fld);
    }

    /// Writes `fld` to the `pcieAtomicsCplDeviceCapMask` field (bytes 100..104) and gives the view back.
    pub fn pcieAtomicsCplDeviceCapMask(self, fld: u32) -> (r: Self)
        requires
            self.wf(),
        ensures
            r.bytes() == splice(self.bytes(), 100, spec_u32_to_le_bytes(fld)),
            r.wf(),
            final(r.store)@ == final(self.store)@,
    {
        write_u32(self.store, 100, fld);
        self
    }

    /// Reads the `pcieAtomicsCplDeviceCapMask` field (bytes 100..104).
    pub fn get_pcieAtomicsCplDeviceCapMask(&self) -> (r: u32)
        requires
            self.wf(),
        ensures
            r == u32_at(self.bytes(), 100),
    {
        read_u32(self.store, 100)
    }

    /// Writes `fld` to the `pcieAtomicsCplDeviceCapMask` field (bytes 100..104).
    pub fn set_pcieAtomicsCplDeviceCapMask(&mut self, fld: u32)
        requires
            old(self).wf(),
        ensures
            final(self).bytes() == splice(old(self).bytes(), 100, spec_u32_to_le_bytes(fld)),
            final(self).wf(),
            final(final(self).store)@ == final(old(self).store)@,
    {
        write_u32(self.store, 100, fld);
    }

    /// Writes `fld` to the `oorArch` field (bytes 104..105) and gives the view back.
    pub fn oorArch(self, fld: u8) -> (r: Self)
        requires
            self.wf(),
        ensures
            r.bytes() == splice(self.bytes(), 104, seq![fld]),
            r.wf(),
            final(r.store)@ == final(self.store)@,
    {
        write_u8(self.store, 104, fld);
        self
    }

    /// Reads the `oorArch` field (bytes 104..105).
    pub fn get_oorArch(&self) -> (r: u8)
        requires
            self.wf(),
        ensures
            r == self.bytes()[104],
    {
        read_u8(self.store, 104)
    }

    /// Writes `fld` to the `oorArch` field (bytes 104..105).
    pub fn set_oorArch(&mut self, fld: u8)
        requires
            old(self).wf(),
        ensures
            final(self).bytes() == splice(old(self).bytes(), 104, seq![fld]),
            final(self).wf(),
            final(final(self).store)@ == final(old(self).store)@,
    {
        write_u8(self.store, 104, fld);
    }

    /// Writes `fld` to the `clPdbProperties` field (bytes 112..120) and gives the view back.
    pub fn clPdbProperties(self, fld: u64) -> (r: Self)
        requires
            self.wf(),
        ensures
            r.bytes() == splice(self.bytes(), 112, spec_u64_to_le_bytes(fld)),
            r.wf(),
            final(r.store)@ == final(self.store)@,
    {
        write_u64(self.store, 112, fld);
        self
    }

    /// Reads the `clPdbProperties` field (bytes 112..120).
    pub fn get_clPdbProperties(&self) -> (r: u64)
        requires
            self.wf(),
        ensures
            r == u64_at(self.bytes(), 112),
    {
        read_u64(self.store, 112)
    }

    /// Writes `fld` to the `clPdbProperties` field (bytes 112..120).
    pub fn set_clPdbProperties(&mut self, fld: u64)
        requires
            old(self).wf(),
        ensures
            final(self).bytes() == splice(old(self).bytes(), 112, spec_u64_to_le_bytes(fld)),
            final(self).wf(),
            final(final(self).store)@ == final(old(self).store)@,
    {
        write_u64(self.store, 112, fld);
    }

    /// Writes `fld` to the `Chipset` field (bytes 120..124) and gives the view back.
    pub fn Chipset(self, fld: u32) -> (r: Self)
        requires
            self.wf(),
        ensures
            r.bytes() == splice(self.bytes(), 120, spec_u32_to_le_bytes(fld)),
            r.wf(),
            final(r.store)@ == final(self.store)@,
    {
        write_u32(self.store, 120, fld);
        self
    }

    /// Reads the `Chipset` field (bytes 120..124).
    pub fn get_Chipset(&self) -> (r: u32)
        requires
            self.wf(),
        ensures
            r == u32_at(self.bytes(), 120),
    {
        read_u32(self.store, 120)
    }

    /// Writes `fld` to the `Chipset` field (bytes 120..124).
    pub fn set_Chipset(&mut self, fld: u32)
        requires
            old(self).wf(),
        ensures
            final(self).bytes() == splice(old(self).bytes(), 120, spec_u32_to_le_bytes(fld)),
            final(self).wf(),
            final(final(self).store)@ == final(old(self).store)@,
    {
        write_u32(self.store, 120, fld);
    }

    /// Writes `fld` to the `bGpuBehindBridge` field (bytes 124..125) and gives the view back.
    pub fn bGpuBehindBridge(self, fld: u8) -> (r: Self)
        requires
            self.wf(),
        ensures
            r.bytes() == splice(self.bytes(), 124, seq![fld]),
            r.wf(),
            final(r.store)@ == final(self.store)@,
    {
        write_u8(self.store, 124, fld);
        self
    }

    /// Reads the `bGpuBehindBridge` field (bytes 124..125).
    pub fn get_bGpuBehindBridge(&self) -> (r: u8)
        requires
            self.wf(),
        ensures
            r == self.bytes()[124],
    {
        read_u8(self.store, 124)
    }

    /// Writes `fld` to the `bGpuBehindBridge` field (bytes 124..125).
    pub fn set_bGpuBehindBridge(&mut self, fld: u8)
        requires
            old(self).wf(),
        ensures
            final(self).bytes() == splice(old(self).bytes(), 124, seq![fld]),
            final(self).wf(),
            final(final(self).store)@ == final(old(self).store)@,
    {
        write_u8(self.store, 124, fld);
    }

    /// Writes `fld` to the `bFlrSupported` field (bytes 125..126) and gives the view back.
    pub fn bFlrSupported(self, fld: u8) -> (r: Self)
        requires
            self.wf(),
        ensures
            r.bytes() == splice(self.bytes(), 125, seq![fld]),
            r.wf(),
            final(r.store)@ == final(self.store)@,
    {
        write_u8(self.store, 125, fld);
        self
    }

    /// Reads the `bFlrSupported` field (bytes 125..126).
    pub fn get_bFlrSupported(&self) -> (r: u8)
        requires
            self.wf(),
        ensures
            r == self.bytes()[125],
    {
        read_u8(self.store, 125)
    }

    /// Writes `fld` to the `bFlrSupported` field (bytes 125..126).
    pub fn set_bFlrSupported(&mut self, fld: u8)
        requires
            old(self).wf(),
        ensures
            final(self).bytes() == splice(old(self).bytes(), 125, seq![fld]),
            final(self).wf(),
            final(final(self).store)@ == final(old(self).store)@,
    {
        write_u8(self.store, 125, fld);
    }

    /// Writes `fld` to the `b64bBar0Supported` field (bytes 126..127) and gives the view back.
    pub fn b64bBar0Supported(self, fld: u8) -> (r: Self)
        requires
            self.wf(),
        ensures
            r.bytes() == splice(self.bytes(), 126, seq![fld]),
            r.wf(),
            final(r.store)@ == final(self.store)@,
    {
        write_u8(self.store, 126, fld);
        self
    }

    /// Reads the `b64bBar0Supported` field (bytes 126..127).
    pub fn get_b64bBar0Supported(&self) -> (r: u8)
        requires
            self.wf(),
        ensures
            r == self.bytes()[126],
    {
        read_u8(self.store, 126)
    }

    /// Writes `fld` to the `b64bBar0Supported` field (bytes 126..127).
    pub fn set_b64bBar0Supported(&mut self, fld: u8)
        requires
            old(self).wf(),
        ensures
            final(self).bytes() == splice(old(self).bytes(), 126, seq![fld]),
            final(self).wf(),
            final(final(self).store)@ == final(old(self).store)@,
    {
        write_u8(self.store, 126, fld);
    }

    /// Writes `fld` to the `bMnocAvailable` field (bytes 127..128) and gives the view back.
    pub fn bMnocAvailable(self, fld: u8) -> (r: Self)
        requires
            self.wf(),
        ensures
            r.bytes() == splice(self.bytes(), 127, seq![fld]),
            r.wf(),
            final(r.store)@ == final(self.store)@,
    {
        write_u8(self.store, 127, fld);
        self
    }

    /// Reads the `bMnocAvailable` field (bytes 127..128).
    pub fn get_bMnocAvailable(&self) -> (r: u8)
        requires
            self.wf(),
        ensures
            r == self.bytes()[127],
    {
        read_u8(self.store, 127)
    }

    /// Writes `fld` to the `bMnocAvailable` field (bytes 127..128).
    pub fn set_bMnocAvailable(&mut self, fld: u8)
        requires
            old(self).wf(),
        ensures
            final(self).bytes() == splice(old(self).bytes(), 127, seq![fld]),
            final(self).wf(),
            final(final(self).store)@ == final(old(self).store)@,
    {
        write_u8(self.store, 127, fld);
    }

    /// Writes `fld` to the `chipsetL1ssEnable` field (bytes 128..132) and gives the view back.
    pub fn chipsetL1ssEnable(self, fld: u32) -> (r: Self)
        requires
            self.wf(),
        ensures
            r.bytes() == splice(self.bytes(), 128, spec_u32_to_le_bytes(fld)),
            r.wf(),
            final(r.store)@ == final(self.store)@,
    {
        write_u32(self.store, 128, fld);
        self
    }

    /// Reads the `chipsetL1ssEnable` field (bytes 128..132).
    pub fn get_chipsetL1ssEnable(&self) -> (r: u32)
        requires
            self.wf(),
        ensures
            r == u32_at(self.bytes(), 128),
    {
        read_u32(self.store, 128)
    }

    /// Writes `fld` to the `chipsetL1ssEnable` field (bytes 128..132).
    pub fn set_chipsetL1ssEnable(&mut self, fld: u32)
        requires
            old(self).wf(),
        ensures
            final(self).bytes() == splice(old(self).bytes(), 128, spec_u32_to_le_bytes(fld)),
            final(self).wf(),
            final(final(self).store)@ == final(old(self).store)@,
    {
        write_u32(self.store, 128, fld);
    }

    /// Writes `fld` to the `bUpstreamL0sUnsupported` field (bytes 132..133) and gives the view back.
    pub fn bUpstreamL0sUnsupported(self, fld: u8) -> (r: Self)
        requires
            self.wf(),
        ensures
            r.bytes() == splice(self.bytes(), 132, seq![fld]),
            r.wf(),
            final(r.store)@ == final(self.store)@,
    {
        write_u8(self.store, 132, fld);
        self
    }

    /// Reads the `bUpstreamL0sUnsupported` field (bytes 132..133).
    pub fn get_bUpstreamL0sUnsupported(&self) -> (r: u8)
        requires
            self.wf(),
        ensures
            r == self.bytes()[132],
    {
        read_u8(self.store, 132)
    }

    /// Writes `fld` to the `bUpstreamL0sUnsupported` field (bytes 132..133).
    pub fn set_bUpstreamL0sUnsupported(&mut self, fld: u8)
        requires
            old(self).wf(),
        ensures
            final(self).bytes() == splice(old(self).bytes(), 132, seq![fld]),
            final(self).wf(),
            final(final(self).store)@ == final(old(self).store)@,
    {
        write_u8(self.store, 132, fld);
    }

    /// Writes `fld` to the `bUpstreamL1Unsupported` field (bytes 133..134) and gives the view back.
    pub fn bUpstreamL1Unsupported(self, fld: u8) -> (r: Self)
        requires
            self.wf(),
        ensures
            r.bytes() == splice(self.bytes(), 133, seq![fld]),
            r.wf(),
            final(r.store)@ == final(self.store)@,
    {
        write_u8(self.store, 133, fld);
        self
    }

    /// Reads the `bUpstreamL1Unsupported` field (bytes 133..134).
    pub fn get_bUpstreamL1Unsupported(&self) -> (r: u8)
        requires
            self.wf(),
        ensures
            r == self.bytes()[133],
    {
        read_u8(self.store, 133)
    }

    /// Writes `fld` to the `bUpstreamL1Unsupported` field (bytes 133..134).
    pub fn set_bUpstreamL1Unsupported(&mut self, fld: u8)
        requires
            old(self).wf(),
        ensures
            final(self).bytes() == splice(old(self).bytes(), 133, seq![fld]),
            final(self).wf(),
            final(final(self).store)@ == final(old(self).store)@,
    {
        write_u8(self.store, 133, fld);
    }

    /// Writes `fld` to the `bUpstreamL1PorSupported` field (bytes 134..135) and gives the view back.
    pub fn bUpstreamL1PorSupported(self, fld: u8) -> (r: Self)
        requires
            self.wf(),
        ensures
            r.bytes() == splice(self.bytes(), 134, seq![fld]),
            r.wf(),
            final(r.store)@ == final(self.store)@,
    {
        write_u8(self.store, 134, fld);
        self
    }

    /// Reads the `bUpstreamL1PorSupported` field (bytes 134..135).
    pub fn get_bUpstreamL1PorSupported(&self) -> (r: u8)
        requires
            self.wf(),
        ensures
            r == self.bytes()[134],
    {
        read_u8(self.store, 134)
    }

    /// Writes `fld` to the `bUpstreamL1PorSupported` field (bytes 134..135).
    pub fn set_bUpstreamL1PorSupported(&mut self, fld: u8)
        requires
            old(self).wf(),
        ensures
            final(self).bytes() == splice(old(self).bytes(), 134, seq![fld]),
            final(self).wf(),
            final(final(self).store)@ == final(old(self).store)@,
    {
        write_u8(self.store, 134, fld);
    }

    /// Writes `fld` to the `bUpstreamL1PorMobileOnly` field (bytes 135..136) and gives the view back.
    pub fn bUpstreamL1PorMobileOnly(self, fld: u8) -> (r: Self)
        requires
            self.wf(),
        ensures
            r.bytes() == splice(self.bytes(), 135, seq![fld]),
            r.wf(),
            final(r.store)@ == final(self.store)@,
    {
        write_u8(self.store, 135, fld);
        self
    }

    /// Reads the `bUpstreamL1PorMobileOnly` field (bytes 135..136).
    pub fn get_bUpstreamL1PorMobileOnly(&self) -> (r: u8)
        requires
            self.wf(),
        ensures
            r == self.bytes()[135],
    {
        read_u8(self.store, 135)
    }

    /// Writes `fld` to the `bUpstreamL1PorMobileOnly` field (bytes 135..136).
    pub fn set_bUpstreamL1PorMobileOnly(&mut self, fld: u8)
        requires
            old(self).wf(),
        ensures
            final(self).bytes() == splice(old(self).bytes(), 135, seq![fld]),
            final(self).wf(),
            final(final(self).store)@ == final(old(self).store)@,
    {
        write_u8(self.store, 135, fld);
    }

    /// Writes `fld` to the `bSystemHasMux` field (bytes 136..137) and gives the view back.
    pub fn bSystemHasMux(self, fld: u8) -> (r: Self)
        requires
            self.wf(),
        ensures
            r.bytes() == splice(self.bytes(), 136, seq![fld]),
            r.wf(),
            final(r.store)@ == final(self.store)@,
    {
        write_u8(self.store, 136, fld);
        self
    }

    /// Reads the `bSystemHasMux` field (bytes 136..137).
    pub fn get_bSystemHasMux(&self) -> (r: u8)
        requires
            self.wf(),
        ensures
            r == self.bytes()[136],
    {
        read_u8(self.store, 136)
    }

    /// Writes `fld` to the `bSystemHasMux` field (bytes 136..137).
    pub fn set_bSystemHasMux(&mut self, fld: u8)
        requires
            old(self).wf(),
        ensures
            final(self).bytes() == splice(old(self).bytes(), 136, seq![fld]),
            final(self).wf(),
            final(final(self).store)@ == final(old(self).store)@,
    {
        write_u8(self.store, 136, fld);
    }

    /// Writes `fld` to the `upstreamAddressValid` field (bytes 137..138) and gives the view back.
    pub fn upstreamAddressValid(self, fld: u8) -> (r: Self)
        requires
            self.wf(),
        ensures
            r.bytes() == splice(self.bytes(), 137, seq![fld]),
            r.wf(),
            final(r.store)@ == final(self.store)@,
    {
        write_u8(self.store, 137, fld);
        self
    }

    /// Reads the `upstreamAddressValid` field (bytes 137..138).
    pub fn get_upstreamAddressValid(&self) -> (r: u8)
        requires
            self.wf(),
        ensures
            r == self.bytes()[137],
    {
        read_u8(self.store, 137)
    }

    /// Writes `fld` to the `upstreamAddressValid` field (bytes 137..138).
    pub fn set_upstreamAddressValid(&mut self, fld: u8)
        requires
            old(self).wf(),
        ensures
            final(self).bytes() == splice(old(self).bytes(), 137, seq![fld]),
            final(self).wf(),
            final(final(self).store)@ == final(old(self).store)@,
    {
        write_u8(self.store, 137, fld);
    }

    /// View of the `FHBBusInfo` substructure at byte 138.
    pub fn new_S_FHBBusInfo(&mut self) -> (r: s_BUSINFO<'_>)
        requires
            old(self).wf(),
        ensures
            r.bytes() == old(self).bytes().subrange(138, old(self).bytes().len() as int),
            r.wf(),
            final(self).bytes() == old(self).bytes().subrange(0, 138) + final(r.store)@,
            final(final(self).store)@ == final(old(self).store)@,
    {
        let (_head, tail) = self.store.split_at_mut(138);
        s_BUSINFO { store: tail }
    }

    /// View of the `chipsetIDInfo` substructure at byte 148.
    pub fn new_S_chipsetIDInfo(&mut self) -> (r: s_BUSINFO<'_>)
        requires
            old(self).wf(),
        ensures
            r.bytes() == old(self).bytes().subrange(148, old(self).bytes().len() as int),
            r.wf(),
            final(self).bytes() == old(self).bytes().subrange(0, 148) + final(r.store)@,
            final(final(self).store)@ == final(old(self).store)@,
    {
        let (_head, tail) = self.store.split_at_mut(148);
        s_BUSINFO { store: tail }
    }

    /// View of the `acpiMethodData` substructure at byte 160.
    pub fn new_S_acpiMethodData(&mut self) -> (r: s_ACPI_METHOD_DATA<'_>)
        requires
            old(self).wf(),
        ensures
            r.bytes() == old(self).bytes().subrange(160, old(self).bytes().len() as int),
            r.wf(),
            final(self).bytes() == old(self).bytes().subrange(0, 160) + final(r.store)@,
            final(final(self).store)@ == final(old(self).store)@,
    {
        let (_head, tail) = self.store.split_at_mut(160);
        s_ACPI_METHOD_DATA { store: tail }
    }

    /// Writes `fld` to the `hypervisorType` field (bytes 836..840) and gives the view back.
    pub fn hypervisorType(self, fld: u32) -> (r: Self)
        requires
            self.wf(),
        ensures
            r.bytes() == splice(self.bytes(), 836, spec_u32_to_le_bytes(fld)),
            r.wf(),
            final(r.store)@ == final(self.store)@,
    {
        write_u32(self.store, 836, fld);
        self
    }

    /// Reads the `hypervisorType` field (bytes 836..840).
    pub fn get_hypervisorType(&self) -> (r: u32)
        requires
            self.wf(),
        ensures
            r == u32_at(self.bytes(), 836),
    {
        read_u32(self.store, 836)
    }

    /// Writes `fld` to the `hypervisorType` field (bytes 836..840).
    pub fn set_hypervisorType(&mut self, fld: u32)
        requires
            old(self).wf(),
        ensures
            final(self).bytes() == splice(old(self).bytes(), 836, spec_u32_to_le_bytes(fld)),
            final(self).wf(),
            final(final(self).store)@ == final(old(self).store)@,
    {
        write_u32(self.store, 836, fld);
    }

    /// Writes `fld` to the `bIsPassthru` field (bytes 840..841) and gives the view back.
    pub fn bIsPassthru(self, fld: u8) -> (r: Self)
        requires
            self.wf(),
        ensures
            r.bytes() == splice(self.bytes(), 840, seq![fld]),
            r.wf(),
            final(r.store)@ == final(self.store)@,
    {
        write_u8(self.store, 840, fld);
        self
    }

    /// Reads the `bIsPassthru` field (bytes 840..841).
    pub fn get_bIsPassthru(&self) -> (r: u8)
        requires
            self.wf(),
        ensures
            r == self.bytes()[840],
    {
        read_u8(self.store, 840)
    }

    /// Writes `fld` to the `bIsPassthru` field (bytes 840..841).
    pub fn set_bIsPassthru(&mut self, fld: u8)
        requires
            old(self).wf(),
        ensures
            final(self).bytes() == splice(old(self).bytes(), 840, seq![fld]),
            final(self).wf(),
            final(final(self).store)@ == final(old(self).store)@,
    {
        write_u8(self.store, 840, fld);
    }

    /// Writes `fld` to the `sysTimerOffsetNs` field (bytes 848..856) and gives the view back.
    pub fn sysTimerOffsetNs(self, fld: u64) -> (r: Self)
        requires
            self.wf(),
        ensures
            r.bytes() == splice(self.bytes(), 848, spec_u64_to_le_bytes(fld)),
            r.wf(),
            final(r.store)@ == final(self.store)@,
    {
        write_u64(self.store, 848, fld);
        self
    }

    /// Reads the `sysTimerOffsetNs` field (bytes 848..856).
    pub fn get_sysTimerOffsetNs(&self) -> (r: u64)
        requires
            self.wf(),
        ensures
            r == u64_at(self.bytes(), 848),
    {
        read_u64(self.store, 848)
    }

    /// Writes `fld` to the `sysTimerOffsetNs` field (bytes 848..856).
    pub fn set_sysTimerOffsetNs(&mut self, fld: u64)
        requires
            old(self).wf(),
        ensures
            final(self).bytes() == splice(old(self).bytes(), 848, spec_u64_to_le_bytes(fld)),
            final(self).wf(),
            final(final(self).store)@ == final(old(self).store)@,
    {
        write_u64(self.store, 848, fld);
    }

    /// View of the `gspVFInfo` substructure at byte 856.
    pub fn new_S_gspVFInfo(&mut self) -> (r: s_GSP_VF_INFO<'_>)
        requires
            old(self).wf(),
        ensures
            r.bytes() == old(self).bytes().subrange(856, old(self).bytes().len() as int),
            r.wf(),
            final(self).bytes() == old(self).bytes().subrange(0, 856) + final(r.store)@,
            final(final(self).store)@ == final(old(self).store)@,
    {
        let (_head, tail) = self.store.split_at_mut(856);
        s_GSP_VF_INFO { store: tail }
    }

    /// Writes `fld` to the `bIsPrimary` field (bytes 896..897) and gives the view back.
    pub fn bIsPrimary(self, fld: u8) -> (r: Self)
        requires
            self.wf(),
        ensures
            r.bytes() == splice(self.bytes(), 896, seq![fld]),
            r.wf(),
            final(r.store)@ == final(self.store)@,
    {
        write_u8(self.store, 896, fld);
        self
    }

    /// Reads the `bIsPrimary` field (bytes 896..897).
    pub fn get_bIsPrimary(&self) -> (r: u8)
        requires
            self.wf(),
        ensures
            r == self.bytes()[896],
    {
        read_u8(self.store, 896)
    }

    /// Writes `fld` to the `bIsPrimary` field (bytes 896..897).
    pub fn set_bIsPrimary(&mut self, fld: u8)
        requires
            old(self).wf(),
        ensures
            final(self).bytes() == splice(old(self).bytes(), 896, seq![fld]),
            final(self).wf(),
            final(final(self).store)@ == final(old(self).store)@,
    {
        write_u8(self.store, 896, fld);
    }

    /// Writes `fld` to the `isGridBuild` field (bytes 897..898) and gives the view back.
    pub fn isGridBuild(self, fld: u8) -> (r: Self)
        requires
            self.wf(),
        ensures
            r.bytes() == splice(self.bytes(), 897, seq![fld]),
            r.wf(),
            final(r.store)@ == final(self.store)@,
    {
        write_u8(self.store, 897, fld);
        self
    }

    /// Reads the `isGridBuild` field (bytes 897..898).
    pub fn get_isGridBuild(&self) -> (r: u8)
        requires
            self.wf(),
        ensures
            r == self.bytes()[897],
    {
        read_u8(self.store, 897)
    }

    /// Writes `fld` to the `isGridBuild` field (bytes 897..898).
    pub fn set_isGridBuild(&mut self, fld: u8)
        requires
            old(self).wf(),
        ensures
            final(self).bytes() == splice(old(self).bytes(), 897, seq![fld]),
            final(self).wf(),
            final(final(self).store)@ == final(old(self).store)@,
    {
        write_u8(self.store, 897, fld);
    }

    /// View of the `pcieConfigReg` substructure at byte 900.
    pub fn new_S_pcieConfigReg(&mut self) -> (r: s_GSP_PCIE_CONFIG_REG<'_>)
        requires
            old(self).wf(),
        ensures
            r.bytes() == old(self).bytes().subrange(900, old(self).bytes().len() as int),
            r.wf(),
            final(self).bytes() == old(self).bytes().subrange(0, 900) + final(r.store)@,
            final(final(self).store)@ == final(old(self).store)@,
    {
        let (_head, tail) = self.store.split_at_mut(900);
        s_GSP_PCIE_CONFIG_REG { store: tail }
    }

    /// Writes `fld` to the `gridBuildCsp` field (bytes 904..908) and gives the view back.
    pub fn gridBuildCsp(self, fld: u32) -> (r: Self)
        requires
            self.wf(),
        ensures
            r.bytes() == splice(self.bytes(), 904, spec_u32_to_le_bytes(fld)),
            r.wf(),
            final(r.store)@ == final(self.store)@,
    {
        write_u32(self.store, 904, fld);
        self
    }

    /// Reads the `gridBuildCsp` field (bytes 904..908).
    pub fn get_gridBuildCsp(&self) -> (r: u32)
        requires
            self.wf(),
        ensures
            r == u32_at(self.bytes(), 904),
    {
        read_u32(self.store, 904)
    }

    /// Writes `fld` to the `gridBuildCsp` field (bytes 904..908).
    pub fn set_gridBuildCsp(&mut self, fld: u32)
        requires
            old(self).wf(),
        ensures
            final(self).bytes() == splice(old(self).bytes(), 904, spec_u32_to_le_bytes(fld)),
            final(self).wf(),
            final(final(self).store)@ == final(old(self).store)@,
    {
        write_u32(self.store, 904, fld);
    }

    /// Writes `fld` to the `bPreserveVideoMemoryAllocations` field (bytes 908..909) and gives the view back.
    pub fn bPreserveVideoMemoryAllocations(self, fld: u8) -> (r: Self)
        requires
            self.wf(),
        ensures
            r.bytes() == splice(self.bytes(), 908, seq![fld]),
            r.wf(),
            final(r.store)@ == final(self.store)@,
    {
        write_u8(self.store, 908, fld);
        self
    }

    /// Reads the `bPreserveVideoMemoryAllocations` field (bytes 908..909).
    pub fn get_bPreserveVideoMemoryAllocations(&self) -> (r: u8)
        requires
            self.wf(),
        ensures
            r == self.bytes()[908],
    {
        read_u8(self.store, 908)
    }

    /// Writes `fld` to the `bPreserveVideoMemoryAllocations` field (bytes 908..909).
    pub fn set_bPreserveVideoMemoryAllocations(&mut self, fld: u8)
        requires
            old(self).wf(),
        ensures
            final(self).bytes() == splice(old(self).bytes(), 908, seq![fld]),
            final(self).wf(),
            final(final(self).store)@ == final(old(self).store)@,
    {
        write_u8(self.store, 908, fld);
    }

    /// Writes `fld` to the `bTdrEventSupported` field (bytes 909..910) and gives the view back.
    pub fn bTdrEventSupported(self, fld: u8) -> (r: Self)
        requires
            self.wf(),
        ensures
            r.bytes() == splice(self.bytes(), 909, seq![fld]),
            r.wf(),
            final(r.store)@ == final(self.store)@,
    {
        write_u8(self.store, 909, fld);
        self
    }

    /// Reads the `bTdrEventSupported` field (bytes 909..910).
    pub fn get_bTdrEventSupported(&self) -> (r: u8)
        requires
            self.wf(),
        ensures
            r == self.bytes()[909],
    {
        read_u8(self.store, 909)
    }

    /// Writes `fld` to the `bTdrEventSupported` field (bytes 909..910).
    pub fn set_bTdrEventSupported(&mut self, fld: u8)
        requires
            old(self).wf(),
        ensures
            final(self).bytes() == splice(old(self).bytes(), 909, seq![fld]),
            final(self).wf(),
            final(final(self).store)@ == final(old(self).store)@,
    {
        write_u8(self.store, 909, fld);
    }

    /// Writes `fld` to the `bFeatureStretchVblankCapable` field (bytes 910..911) and gives the view back.
    pub fn bFeatureStretchVblankCapable(self, fld: u8) -> (r: Self)
        requires
            self.wf(),
        ensures
            r.bytes() == splice(self.bytes(), 910, seq![fld]),
            r.wf(),
            final(r.store)@ == final(self.store)@,
    {
        write_u8(self.store, 910, fld);
        self
    }

    /// Reads the `bFeatureStretchVblankCapable` field (bytes 910..911).
    pub fn get_bFeatureStretchVblankCapable(&self) -> (r: u8)
        requires
            self.wf(),
        ensures
            r == self.bytes()[910],
    {
        read_u8(self.store, 910)
    }

    /// Writes `fld` to the `bFeatureStretchVblankCapable` field (bytes 910..911).
    pub fn set_bFeatureStretchVblankCapable(&mut self, fld: u8)
        requires
            old(self).wf(),
        ensures
            final(self).bytes() == splice(old(self).bytes(), 910, seq![fld]),
            final(self).wf(),
            final(final(self).store)@ == final(old(self).store)@,
    {
        write_u8(self.store, 910, fld);
    }

    /// Writes `fld` to the `bEnableDynamicGranularityPageArrays` field (bytes 911..912) and gives the view back.
    pub fn bEnableDynamicGranularityPageArrays(self, fld: u8) -> (r: Self)
        requires
            self.wf(),
        ensures
            r.bytes() == splice(self.bytes(), 911, seq![fld]),
            r.wf(),
            final(r.store)@ == final(self.store)@,
    {
        write_u8(self.store, 911, fld);
        self
    }

    /// Reads the `bEnableDynamicGranularityPageArrays` field (bytes 911..912).
    pub fn get_bEnableDynamicGranularityPageArrays(&self) -> (r: u8)
        requires
            self.wf(),
        ensures
            r == self.bytes()[911],
    {
        read_u8(self.store, 911)
    }

    /// Writes `fld` to the `bEnableDynamicGranularityPageArrays` field (bytes 911..912).
    pub fn set_bEnableDynamicGranularityPageArrays(&mut self, fld: u8)
        requires
            old(self).wf(),
        ensures
            final(self).bytes() == splice(old(self).bytes(), 911, seq![fld]),
            final(self).wf(),
            final(final(self).store)@ == final(old(self).store)@,
    {
        write_u8(self.store, 911, fld);
    }

    /// Writes `fld` to the `bClockBoostSupported` field (bytes 912..913) and gives the view back.
    pub fn bClockBoostSupported(self, fld: u8) -> (r: Self)
        requires
            self.wf(),
        ensures
            r.bytes() == splice(self.bytes(), 912, seq![fld]),
            r.wf(),
            final(r.store)@ == final(self.store)@,
    {
        write_u8(self.store, 912, fld);
        self
    }

    /// Reads the `bClockBoostSupported` field (bytes 912..913).
    pub fn get_bClockBoostSupported(&self) -> (r: u8)
        requires
            self.wf(),
        ensures
            r == self.bytes()[912],
    {
        read_u8(self.store, 912)
    }

    /// Writes `fld` to the `bClockBoostSupported` field (bytes 912..913).
    pub fn set_bClockBoostSupported(&mut self, fld: u8)
        requires
            old(self).wf(),
        ensures
            final(self).bytes() == splice(old(self).bytes(), 912, seq![fld]),
            final(self).wf(),
            final(final(self).store)@ == final(old(self).store)@,
    {
        write_u8(self.store, 912, fld);
    }

    /// Writes `fld` to the `bRouteDispIntrsToCPU` field (bytes 913..914) and gives the view back.
    pub fn bRouteDispIntrsToCPU(self, fld: u8) -> (r: Self)
        requires
            self.wf(),
        ensures
            r.bytes() == splice(self.bytes(), 913, seq![fld]),
            r.wf(),
            final(r.store)@ == final(self.store)@,
    {
        write_u8(self.store, 913, fld);
        self
    }

    /// Reads the `bRouteDispIntrsToCPU` field (bytes 913..914).
    pub fn get_bRouteDispIntrsToCPU(&self) -> (r: u8)
        requires
            self.wf(),
        ensures
            r == self.bytes()[913],
    {
        read_u8(self.store, 913)
    }

    /// Writes `fld` to the `bRouteDispIntrsToCPU` field (bytes 913..914).
    pub fn set_bRouteDispIntrsToCPU(&mut self, fld: u8)
        requires
            old(self).wf(),
        ensures
            final(self).bytes() == splice(old(self).bytes(), 913, seq![fld]),
            final(self).wf(),
            final(final(self).store)@ == final(old(self).store)@,
    {
        write_u8(self.store, 913, fld);
    }

    /// Writes `fld` to the `hostPageSize` field (bytes 920..928) and gives the view back.
    pub fn hostPageSize(self, fld: u64) -> (r: Self)
        requires
            self.wf(),
        ensures
            r.bytes() == splice(self.bytes(), 920, spec_u64_to_le_bytes(fld)),
            r.wf(),
            final(r.store)@ == final(self.store)@,
    {
        write_u64(self.store, 920, fld);
        self
    }

    /// Reads the `hostPageSize` field (bytes 920..928).
    pub fn get_hostPageSize(&self) -> (r: u64)
        requires
            self.wf(),
        ensures
            r == u64_at(self.bytes(), 920),
    {
        read_u64(self.store, 920)
    }

    /// Writes `fld` to the `hostPageSize` field (bytes 920..928).
    pub fn set_hostPageSize(&mut self, fld: u64)
        requires
            old(self).wf(),
        ensures
            final(self).bytes() == splice(old(self).bytes(), 920, spec_u64_to_le_bytes(fld)),
            final(self).wf(),
            final(final(self).store)@ == final(old(self).store)@,
    {
        write_u64(self.store, 920, fld);
    }

}

/// View of the firmware structure `s_NV_MEMORY_DESC_PARAMS` (24 bytes).
pub struct s_NV_MEMORY_DESC_PARAMS<'s> {
    /// The buffer from the first byte of the structure to the end.
    pub store: &'s mut [u8],
}

impl<'s> s_NV_MEMORY_DESC_PARAMS<'s> {
    /// The bytes seen through this view.
    pub open spec fn bytes(&self) -> Seq<u8> {
        self.store@
    }

    /// The buffer holds at least the whole structure.
    pub open spec fn wf(&self) -> bool {
        self.store@.len() >= 24
    }

    /// Size of the structure in bytes.
    pub fn str_size() -> (n: usize)
        ensures
            n == 24,
    {
        24
    }

    /// Views `store` as this structure, starting at its first byte.
    pub fn new(store: &'s mut [u8]) -> (r: Self)
        requires
            old(store)@.len() >= 24,
        ensures
            r.bytes() == old(store)@,
            r.wf(),
            final(store)@ == final(r.store)@,
    {
        Self { store }
    }

    /// Writes `fld` to the `base` field (bytes 0..8) and gives the view back.
    pub fn base(self, fld: u64) -> (r: Self)
        requires
            self.wf(),
        ensures
            r.bytes() == splice(self.bytes(), 0, spec_u64_to_le_bytes(fld)),
            r.wf(),
            final(r.store)@ == final(self.store)@,
    {
        write_u64(self.store, 0, fld);
        self
    }

    /// Reads the `base` field (bytes 0..8).
    pub fn get_base(&self) -> (r: u64)
        requires
            self.wf(),
        ensures
            r == u64_at(self.bytes(), 0),
    {
        read_u64(self.store, 0)
    }

    /// Writes `fld` to the `base` field (bytes 0..8).
    pub fn set_base(&mut self, fld: u64)
        requires
            old(self).wf(),
        ensures
            final(self).bytes() == splice(old(self).bytes(), 0, spec_u64_to_le_bytes(fld)),
            final(self).wf(),
            final(final(self).store)@ == final(old(self).store)@,
    {
        write_u64(self.store, 0, fld);
    }

    /// Writes `fld` to the `size` field (bytes 8..16) and gives the view back.
    pub fn size(self, fld: u64) -> (r: Self)
        requires
            self.wf(),
        ensures
            r.bytes() == splice(self.bytes(), 8, spec_u64_to_le_bytes(fld)),
            r.wf(),
            final(r.store)@ == final(self.store)@,
    {
        write_u64(self.store, 8, fld);
        self
    }

    /// Reads the `size` field (bytes 8..16).
    pub fn get_size(&self) -> (r: u64)
        requires
            self.wf(),
        ensures
            r == u64_at(self.bytes(), 8),
    {
        read_u64(self.store, 8)
    }

    /// Writes `fld` to the `size` field (bytes 8..16).
    pub fn set_size(&mut self, fld: u64)
        requires
            old(self).wf(),
        ensures
            final(self).bytes() == splice(old(self).bytes(), 8, spec_u64_to_le_bytes(fld)),
            final(self).wf(),
            final(final(self).store)@ == final(old(self).store)@,
    {
        write_u64(self.store, 8, fld);
    }

    /// Writes `fld` to the `addressSpace` field (bytes 16..20) and gives the view back.
    pub fn addressSpace(self, fld: u32) -> (r: Self)
        requires
            self.wf(),
        ensures
            r.bytes() == splice(self.bytes(), 16, spec_u32_to_le_bytes(fld)),
            r.wf(),
            final(r.store)@ == final(self.store)@,
    {
        write_u32(self.store, 16, fld);
        self
    }

    /// Reads the `addressSpace` field (bytes 16..20).
    pub fn get_addressSpace(&self) -> (r: u32)
        requires
            self.wf(),
        ensures
            r == u32_at(self.bytes(), 16),
    {
        read_u32(self.store, 16)
    }

    /// Writes `fld` to the `addressSpace` field (bytes 16..20).
    pub fn set_addressSpace(&mut self, fld: u32)
        requires
            old(self).wf(),
        ensures
            final(self).bytes() == splice(old(self).bytes(), 16, spec_u32_to_le_bytes(fld)),
            final(self).wf(),
            final(final(self).store)@ == final(old(self).store)@,
    {
        write_u32(self.store, 16, fld);
    }

    /// Writes `fld` to the `cacheAttrib` field (bytes 20..24) and gives the view back.
    pub fn cacheAttrib(self, fld: u32) -> (r: Self)
        requires
            self.wf(),
        ensures
            r.bytes() == splice(self.bytes(), 20, spec_u32_to_le_bytes(fld)),
            r.wf(),
            final(r.store)@ == final(self.store)@,
    {
        write_u32(self.store, 20, fld);
        self
    }

    /// Reads the `cacheAttrib` field (bytes 20..24).
    pub fn get_cacheAttrib(&self) -> (r: u32)
        requires
            self.wf(),
        ensures
            r == u32_at(self.bytes(), 20),
    {
        read_u32(self.store, 20)
    }

    /// Writes `fld` to the `cacheAttrib` field (bytes 20..24).
    pub fn set_cacheAttrib(&mut self, fld: u32)
        requires
            old(self).wf(),
        ensures
            final(self).bytes() == splice(old(self).bytes(), 20, spec_u32_to_le_bytes(fld)),
            final(self).wf(),
            final(final(self).store)@ == final(old(self).store)@,
    {
        write_u32(self.store, 20, fld);
    }

}

/// View of the firmware structure `s_NV0000_ALLOC_PARAMETERS` (120 bytes).
pub struct s_NV0000_ALLOC_PARAMETERS<'s> {
    /// The buffer from the first byte of the structure to the end.
    pub store: &'s mut [u8],
}

impl<'s> s_NV0000_ALLOC_PARAMETERS<'s> {
    /// The bytes seen through this view.
    pub open spec fn bytes(&self) -> Seq<u8> {
        self.store@
    }

    /// The buffer holds at least the whole structure.
    pub open spec fn wf(&self) -> bool {
        self.store@.len() >= 120
    }

    /// Size of the structure in bytes.
    pub fn str_size() -> (n: usize)
        ensures
            n == 120,
    {
        120
    }

    /// Views `store` as this structure, starting at its first byte.
    pub fn new(store: &'s mut [u8]) -> (r: Self)
        requires
            old(store)@.len() >= 120,
        ensures
            r.bytes() == old(store)@,
            r.wf(),
            final(store)@ == final(r.store)@,
    {
        Self { store }
    }

    /// Writes `fld` to the `hClient` field (bytes 0..4) and gives the view back.
    pub fn hClient(self, fld: u32) -> (r: Self)
        requires
            self.wf(),
        ensures
            r.bytes() == splice(self.bytes(), 0, spec_u32_to_le_bytes(fld)),
            r.wf(),
            final(r.store)@ == final(self.store)@,
    {
        write_u32(self.store, 0, fld);
        self
    }

    /// Reads the `hClient` field (bytes 0..4).
    pub fn get_hClient(&self) -> (r: u32)
        requires
            self.wf(),
        ensures
            r == u32_at(self.bytes(), 0),
    {
        read_u32(self.store, 0)
    }

    /// Writes `fld` to the `hClient` field (bytes 0..4).
    pub fn set_hClient(&mut self, fld: u32)
        requires
            old(self).wf(),
        ensures
            final(self).bytes() == splice(old(self).bytes(), 0, spec_u32_to_le_bytes(fld)),
            final(self).wf(),
            final(final(self).store)@ == final(old(self).store)@,
    {
        write_u32(self.store, 0, fld);
    }

    /// Writes `fld` to the `processID` field (bytes 4..8) and gives the view back.
    pub fn processID(self, fld: u32) -> (r: Self)
        requires
            self.wf(),
        ensures
            r.bytes() == splice(self.bytes(), 4, spec_u32_to_le_bytes(fld)),
            r.wf(),
            final(r.store)@ == final(self.store)@,
    {
        write_u32(self.store, 4, fld);
        self
    }

    /// Reads the `processID` field (bytes 4..8).
    pub fn get_processID(&self) -> (r: u32)
        requires
            self.wf(),
        ensures
            r == u32_at(self.bytes(), 4),
    {
        read_u32(self.store, 4)
    }

    /// Writes `fld` to the `processID` field (bytes 4..8).
    pub fn set_processID(&mut self, fld: u32)
        requires
            old(self).wf(),
        ensures
            final(self).bytes() == splice(old(self).bytes(), 4, spec_u32_to_le_bytes(fld)),
            final(self).wf(),
            final(final(self).store)@ == final(old(self).store)@,
    {
        write_u32(self.store, 4, fld);
    }

    /// Writes `fld` to the `processName` field (bytes 8..108) and gives the view back.
    pub fn processName(self, fld: [u8; 100]) -> (r: Self)
        requires
            self.wf(),
        ensures
            r.bytes() == splice(self.bytes(), 8, fld@),
            r.wf(),
            final(r.store)@ == final(self.store)@,
    {
        write_u8s(self.store, 8, &fld);
        self
    }

    /// Writes `fld` to the `processName` field (bytes 8..108).
    pub fn set_processName(&mut self, fld: [u8; 100])
        requires
            old(self).wf(),
        ensures
            final(self).bytes() == splice(old(self).bytes(), 8, fld@),
            final(self).wf(),
            final(final(self).store)@ == final(old(self).store)@,
    {
        write_u8s(self.store, 8, &fld);
    }

    /// Reads the `processName` array (bytes 8..108).
    pub fn get_processName(&mut self) -> (r: [u8; 100])
        requires
            old(self).wf(),
        ensures
            r@ == old(self).bytes().subrange(8, 108),
            final(self).bytes() == old(self).bytes(),
            final(final(self).store)@ == final(old(self).store)@,
    {
        read_u8s(self.store, 8)
    }

    /// Writes `fld` to the `pOsPidInfo` field (bytes 112..120) and gives the view back.
    pub fn pOsPidInfo(self, fld: u64) -> (r: Self)
        requires
            self.wf(),
        ensures
            r.bytes() == splice(self.bytes(), 112, spec_u64_to_le_bytes(fld)),
            r.wf(),
            final(r.store)@ == final(self.store)@,
    {
        write_u64(self.store, 112, fld);
        self
    }

    /// Reads the `pOsPidInfo` field (bytes 112..120).
    pub fn get_pOsPidInfo(&self) -> (r: u64)
        requires
            self.wf(),
        ensures
            r == u64_at(self.bytes(), 112),
    {
        read_u64(self.store, 112)
    }

    /// Writes `fld` to the `pOsPidInfo` field (bytes 112..120).
    pub fn set_pOsPidInfo(&mut self, fld: u64)
        requires
            old(self).wf(),
        ensures
            final(self).bytes() == splice(old(self).bytes(), 112, spec_u64_to_le_bytes(fld)),
            final(self).wf(),
            final(final(self).store)@ == final(old(self).store)@,
    {
        write_u64(self.store, 112, fld);
    }

}

/// View of the firmware structure `s_NV0005_ALLOC_PARAMETERS` (24 bytes).
pub struct s_NV0005_ALLOC_PARAMETERS<'s> {
    /// The buffer from the first byte of the structure to the end.
    pub store: &'s mut [u8],
}

impl<'s> s_NV0005_ALLOC_PARAMETERS<'s> {
    /// The bytes seen through this view.
    pub open spec fn bytes(&self) -> Seq<u8> {
        self.store@
    }

    /// The buffer holds at least the whole structure.
    pub open spec fn wf(&self) -> bool {
        self.store@.len() >= 24
    }

    /// Size of the structure in bytes.
    pub fn str_size() -> (n: usize)
        ensures
            n == 24,
    {
        24
    }

    /// Views `store` as this structure, starting at its first byte.
    pub fn new(store: &'s mut [u8]) -> (r: Self)
        requires
            old(store)@.len() >= 24,
        ensures
            r.bytes() == old(store)@,
            r.wf(),
            final(store)@ == final(r.store)@,
    {
        Self { store }
    }

    /// Writes `fld` to the `hParentClient` field (bytes 0..4) and gives the view back.
    pub fn hParentClient(self, fld: u32) -> (r: Self)
        requires
            self.wf(),
        ensures
            r.bytes() == splice(self.bytes(), 0, spec_u32_to_le_bytes(fld)),
            r.wf(),
            final(r.store)@ == final(self.store)@,
    {
        write_u32(self.store, 0, fld);
        self
    }

    /// Reads the `hParentClient` field (bytes 0..4).
    pub fn get_hParentClient(&self) -> (r: u32)
        requires
            self.wf(),
        ensures
            r == u32_at(self.bytes(), 0),
    {
        read_u32(self.store, 0)
    }

    /// Writes `fld` to the `hParentClient` field (bytes 0..4).
    pub fn set_hParentClient(&mut self, fld: u32)
        requires
            old(self).wf(),
        ensures
            final(self).bytes() == splice(old(self).bytes(), 0, spec_u32_to_le_bytes(fld)),
            final(self).wf(),
            final(final(self).store)@ == final(old(self).store)@,
    {
        write_u32(self.store, 0, fld);
    }

    /// Writes `fld` to the `hSrcResource` field (bytes 4..8) and gives the view back.
    pub fn hSrcResource(self, fld: u32) -> (r: Self)
        requires
            self.wf(),
        ensures
            r.bytes() == splice(self.bytes(), 4, spec_u32_to_le_bytes(fld)),
            r.wf(),
            final(r.store)@ == final(self.store)@,
    {
        write_u32(self.store, 4, fld);
        self
    }

    /// Reads the `hSrcResource` field (bytes 4..8).
    pub fn get_hSrcResource(&self) -> (r: u32)
        requires
            self.wf(),
        ensures
            r == u32_at(self.bytes(), 4),
    {
        read_u32(self.store, 4)
    }

    /// Writes `fld` to the `hSrcResource` field (bytes 4..8).
    pub fn set_hSrcResource(&mut self, fld: u32)
        requires
            old(self).wf(),
        ensures
            final(self).bytes() == splice(old(self).bytes(), 4, spec_u32_to_le_bytes(fld)),
            final(self).wf(),
            final(final(self).store)@ == final(old(self).store)@,
    {
        write_u32(self.store, 4, fld);
    }

    /// Writes `fld` to the `hClass` field (bytes 8..12) and gives the view back.
    pub fn hClass(self, fld: u32) -> (r: Self)
        requires
            self.wf(),
        ensures
            r.bytes() == splice(self.bytes(), 8, spec_u32_to_le_bytes(fld)),
            r.wf(),
            final(r.store)@ == final(self.store)@,
    {
        write_u32(self.store, 8, fld);
        self
    }

    /// Reads the `hClass` field (bytes 8..12).
    pub fn get_hClass(&self) -> (r: u32)
        requires
            self.wf(),
        ensures
            r == u32_at(self.bytes(), 8),
    {
        read_u32(self.store, 8)
    }

    /// Writes `fld` to the `hClass` field (bytes 8..12).
    pub fn set_hClass(&mut self, fld: u32)
        requires
            old(self).wf(),
        ensures
            final(self).bytes() == splice(old(self).bytes(), 8, spec_u32_to_le_bytes(fld)),
            final(self).wf(),
            final(final(self).store)@ == final(old(self).store)@,
    {
        write_u32(self.store, 8, fld);
    }

    /// Writes `fld` to the `notifyIndex` field (bytes 12..16) and gives the view back.
    pub fn notifyIndex(self, fld: u32) -> (r: Self)
        requires
            self.wf(),
        ensures
            r.bytes() == splice(self.bytes(), 12, spec_u32_to_le_bytes(fld)),
            r.wf(),
            final(r.store)@ == final(self.store)@,
    {
        write_u32(self.store, 12, fld);
        self
    }

    /// Reads the `notifyIndex` field (bytes 12..16).
    pub fn get_notifyIndex(&self) -> (r: u32)
        requires
            self.wf(),
        ensures
            r == u32_at(self.bytes(), 12),
    {
        read_u32(self.store, 12)
    }

    /// Writes `fld` to the `notifyIndex` field (bytes 12..16).
    pub fn set_notifyIndex(&mut self, fld: u32)
        requires
            old(self).wf(),
        ensures
            final(self).bytes() == splice(old(self).bytes(), 12, spec_u32_to_le_bytes(fld)),
            final(self).wf(),
            final(final(self).store)@ == final(old(self).store)@,
    {
        write_u32(self.store, 12, fld);
    }

    /// Writes `fld` to the `data` field (bytes 16..24) and gives the view back.
    pub fn data(self, fld: u64) -> (r: Self)
        requires
            self.wf(),
        ensures
            r.bytes() == splice(self.bytes(), 16, spec_u64_to_le_bytes(fld)),
            r.wf(),
            final(r.store)@ == final(self.store)@,
    {
        write_u64(self.store, 16, fld);
        self
    }

    /// Reads the `data` field (bytes 16..24).
    pub fn get_data(&self) -> (r: u64)
        requires
            self.wf(),
        ensures
            r == u64_at(self.bytes(), 16),
    {
        read_u64(self.store, 16)
    }

    /// Writes `fld` to the `data` field (bytes 16..24).
    pub fn set_data(&mut self, fld: u64)
        requires
            old(self).wf(),
        ensures
            final(self).bytes() == splice(old(self).bytes(), 16, spec_u64_to_le_bytes(fld)),
            final(self).wf(),
            final(final(self).store)@ == final(old(self).store)@,
    {
        write_u64(self.store, 16, fld);
    }

}

/// View of the firmware structure `s_NV0080_ALLOC_PARAMETERS` (56 bytes).
pub struct s_NV0080_ALLOC_PARAMETERS<'s> {
    /// The buffer from the first byte of the structure to the end.
    pub store: &'s mut [u8],
}

impl<'s> s_NV0080_ALLOC_PARAMETERS<'s> {
    /// The bytes seen through this view.
    pub open spec fn bytes(&self) -> Seq<u8> {
        self.store@
    }

    /// The buffer holds at least the whole structure.
    pub open spec fn wf(&self) -> bool {
        self.store@.len() >= 56
    }

    /// Size of the structure in bytes.
    pub fn str_size() -> (n: usize)
        ensures
            n == 56,
    {
        56
    }

    /// Views `store` as this structure, starting at its first byte.
    pub fn new(store: &'s mut [u8]) -> (r: Self)
        requires
            old(store)@.len() >= 56,
        ensures
            r.bytes() == old(store)@,
            r.wf(),
            final(store)@ == final(r.store)@,
    {
        Self { store }
    }

    /// Writes `fld` to the `deviceId` field (bytes 0..4) and gives the view back.
    pub fn deviceId(self, fld: u32) -> (r: Self)
        requires
            self.wf(),
        ensures
            r.bytes() == splice(self.bytes(), 0, spec_u32_to_le_bytes(fld)),
            r.wf(),
            final(r.store)@ == final(self.store)@,
    {
        write_u32(self.store, 0, fld);
        self
    }

    /// Reads the `deviceId` field (bytes 0..4).
    pub fn get_deviceId(&self) -> (r: u32)
        requires
            self.wf(),
        ensures
            r == u32_at(self.bytes(), 0),
    {
        read_u32(self.store, 0)
    }

    /// Writes `fld` to the `deviceId` field (bytes 0..4).
    pub fn set_deviceId(&mut self, fld: u32)
        requires
            old(self).wf(),
        ensures
            final(self).bytes() == splice(old(self).bytes(), 0, spec_u32_to_le_bytes(fld)),
            final(self).wf(),
            final(final(self).store)@ == final(old(self).store)@,
    {
        write_u32(self.store, 0, fld);
    }

    /// Writes `fld` to the `hClientShare` field (bytes 4..8) and gives the view back.
    pub fn hClientShare(self, fld: u32) -> (r: Self)
        requires
            self.wf(),
        ensures
            r.bytes() == splice(self.bytes(), 4, spec_u32_to_le_bytes(fld)),
            r.wf(),
            final(r.store)@ == final(self.store)@,
    {
        write_u32(self.store, 4, fld);
        self
    }

    /// Reads the `hClientShare` field (bytes 4..8).
    pub fn get_hClientShare(&self) -> (r: u32)
        requires
            self.wf(),
        ensures
            r == u32_at(self.bytes(), 4),
    {
        read_u32(self.store, 4)
    }

    /// Writes `fld` to the `hClientShare` field (bytes 4..8).
    pub fn set_hClientShare(&mut self, fld: u32)
        requires
            old(self).wf(),
        ensures
            final(self).bytes() == splice(old(self).bytes(), 4, spec_u32_to_le_bytes(fld)),
            final(self).wf(),
            final(final(self).store)@ == final(old(self).store)@,
    {
        write_u32(self.store, 4, fld);
    }

    /// Writes `fld` to the `hTargetClient` field (bytes 8..12) and gives the view back.
    pub fn hTargetClient(self, fld: u32) -> (r: Self)
        requires
            self.wf(),
        ensures
            r.bytes() == splice(self.bytes(), 8, spec_u32_to_le_bytes(fld)),
            r.wf(),
            final(r.store)@ == final(self.store)@,
    {
        write_u32(self.store, 8, fld);
        self
    }

    /// Reads the `hTargetClient` field (bytes 8..12).
    pub fn get_hTargetClient(&self) -> (r: u32)
        requires
            self.wf(),
        ensures
            r == u32_at(self.bytes(), 8),
    {
        read_u32(self.store, 8)
    }

    /// Writes `fld` to the `hTargetClient` field (bytes 8..12).
    pub fn set_hTargetClient(&mut self, fld: u32)
        requires
            old(self).wf(),
        ensures
            final(self).bytes() == splice(old(self).bytes(), 8, spec_u32_to_le_bytes(fld)),
            final(self).wf(),
            final(final(self).store)@ == final(old(self).store)@,
    {
        write_u32(self.store, 8, fld);
    }

    /// Writes `fld` to the `hTargetDevice` field (bytes 12..16) and gives the view back.
    pub fn hTargetDevice(self, fld: u32) -> (r: Self)
        requires
            self.wf(),
        ensures
            r.bytes() == splice(self.bytes(), 12, spec_u32_to_le_bytes(fld)),
            r.wf(),
            final(r.store)@ == final(self.store)@,
    {
        write_u32(self.store, 12, fld);
        self
    }

    /// Reads the `hTargetDevice` field (bytes 12..16).
    pub fn get_hTargetDevice(&self) -> (r: u32)
        requires
            self.wf(),
        ensures
            r == u32_at(self.bytes(), 12),
    {
        read_u32(self.store, 12)
    }

    /// Writes `fld` to the `hTargetDevice` field (bytes 12..16).
    pub fn set_hTargetDevice(&mut self, fld: u32)
        requires
            old(self).wf(),
        ensures
            final(self).bytes() == splice(old(self).bytes(), 12, spec_u32_to_le_bytes(fld)),
            final(self).wf(),
            final(final(self).store)@ == final(old(self).store)@,
    {
        write_u32(self.store, 12, fld);
    }

    /// Writes `fld` to the `flags` field (bytes 16..20) and gives the view back.
    pub fn flags(self, fld: u32) -> (r: Self)
        requires
            self.wf(),
        ensures
            r.bytes() == splice(self.bytes(), 16, spec_u32_to_le_bytes(fld)),
            r.wf(),
            final(r.store)@ == final(self.store)@,
    {
        write_u32(self.store, 16, fld);
        self
    }

    /// Reads the `flags` field (bytes 16..20).
    pub fn get_flags(&self) -> (r: u32)
        requires
            self.wf(),
        ensures
            r == u32_at(self.bytes(), 16),
    {
        read_u32(self.store, 16)
    }

    /// Writes `fld` to the `flags` field (bytes 16..20).
    pub fn set_flags(&mut self, fld: u32)
        requires
            old(self).wf(),
        ensures
            final(self).bytes() == splice(old(self).bytes(), 16, spec_u32_to_le_bytes(fld)),
            final(self).wf(),
            final(final(self).store)@ == final(old(self).store)@,
    {
        write_u32(self.store, 16, fld);
    }

    /// Writes `fld` to the `vaSpaceSize` field (bytes 24..32) and gives the view back.
    pub fn vaSpaceSize(self, fld: u64) -> (r: Self)
        requires
            self.wf(),
        ensures
            r.bytes() == splice(self.bytes(), 24, spec_u64_to_le_bytes(fld)),
            r.wf(),
            final(r.store)@ == final(self.store)@,
    {
        write_u64(self.store, 24, fld);
        self
    }

    /// Reads the `vaSpaceSize` field (bytes 24..32).
    pub fn get_vaSpaceSize(&self) -> (r: u64)
        requires
            self.wf(),
        ensures
            r == u64_at(self.bytes(), 24),
    {
        read_u64(self.store, 24)
    }

    /// Writes `fld` to the `vaSpaceSize` field (bytes 24..32).
    pub fn set_vaSpaceSize(&mut self, fld: u64)
        requires
            old(self).wf(),
        ensures
            final(self).bytes() == splice(old(self).bytes(), 24, spec_u64_to_le_bytes(fld)),
            final(self).wf(),
            final(final(self).store)@ == final(old(self).store)@,
    {
        write_u64(self.store, 24, fld);
    }

    /// Writes `fld` to the `vaStartInternal` field (bytes 32..40) and gives the view back.
    pub fn vaStartInternal(self, fld: u64) -> (r: Self)
        requires
            self.wf(),
        ensures
            r.bytes() == splice(self.bytes(), 32, spec_u64_to_le_bytes(fld)),
            r.wf(),
            final(r.store)@ == final(self.store)@,
    {
        write_u64(self.store, 32, fld);
        self
    }

    /// Reads the `vaStartInternal` field (bytes 32..40).
    pub fn get_vaStartInternal(&self) -> (r: u64)
        requires
            self.wf(),
        ensures
            r == u64_at(self.bytes(), 32),
    {
        read_u64(self.store, 32)
    }

    /// Writes `fld` to the `vaStartInternal` field (bytes 32..40).
    pub fn set_vaStartInternal(&mut self, fld: u64)
        requires
            old(self).wf(),
        ensures
            final(self).bytes() == splice(old(self).bytes(), 32, spec_u64_to_le_bytes(fld)),
            final(self).wf(),
            final(final(self).store)@ == final(old(self).store)@,
    {
        write_u64(self.store, 32, fld);
    }

    /// Writes `fld` to the `vaLimitInternal` field (bytes 40..48) and gives the view back.
    pub fn vaLimitInternal(self, fld: u64) -> (r: Self)
        requires
            self.wf(),
        ensures
            r.bytes() == splice(self.bytes(), 40, spec_u64_to_le_bytes(fld)),
            r.wf(),
            final(r.store)@ == final(self.store)@,
    {
        write_u64(self.store, 40, fld);
        self
    }

    /// Reads the `vaLimitInternal` field (bytes 40..48).
    pub fn get_vaLimitInternal(&self) -> (r: u64)
        requires
            self.wf(),
        ensures
            r == u64_at(self.bytes(), 40),
    {
        read_u64(self.store, 40)
    }

    /// Writes `fld` to the `vaLimitInternal` field (bytes 40..48).
    pub fn set_vaLimitInternal(&mut self, fld: u64)
        requires
            old(self).wf(),
        ensures
            final(self).bytes() == splice(old(self).bytes(), 40, spec_u64_to_le_bytes(fld)),
            final(self).wf(),
            final(final(self).store)@ == final(old(self).store)@,
    {
        write_u64(self.store, 40, fld);
    }

    /// Writes `fld` to the `vaMode` field (bytes 48..52) and gives the view back.
    pub fn vaMode(self, fld: u32) -> (r: Self)
        requires
            self.wf(),
        ensures
            r.bytes() == splice(self.bytes(), 48, spec_u32_to_le_bytes(fld)),
            r.wf(),
            final(r.store)@ == final(self.store)@,
    {
        write_u32(self.store, 48, fld);
        self
    }

    /// Reads the `vaMode` field (bytes 48..52).
    pub fn get_vaMode(&self) -> (r: u32)
        requires
            self.wf(),
        ensures
            r == u32_at(self.bytes(), 48),
    {
        read_u32(self.store, 48)
    }

    /// Writes `fld` to the `vaMode` field (bytes 48..52).
    pub fn set_vaMode(&mut self, fld: u32)
        requires
            old(self).wf(),
        ensures
            final(self).bytes() == splice(old(self).bytes(), 48, spec_u32_to_le_bytes(fld)),
            final(self).wf(),
            final(final(self).store)@ == final(old(self).store)@,
    {
        write_u32(self.store, 48, fld);
    }

}

/// View of the firmware structure `s_NV2080_ALLOC_PARAMETERS` (4 bytes).
pub struct s_NV2080_ALLOC_PARAMETERS<'s> {
    /// The buffer from the first byte of the structure to the end.
    pub store: &'s mut [u8],
}

impl<'s> s_NV2080_ALLOC_PARAMETERS<'s> {
    /// The bytes seen through this view.
    pub open spec fn bytes(&self) -> Seq<u8> {
        self.store@
    }

    /// The buffer holds at least the whole structure.
    pub open spec fn wf(&self) -> bool {
        self.store@.len() >= 4
    }

    /// Size of the structure in bytes.
    pub fn str_size() -> (n: usize)
        ensures
            n == 4,
    {
        4
    }

    /// Views `store` as this structure, starting at its first byte.
    pub fn new(store: &'s mut [u8]) -> (r: Self)
        requires
            old(store)@.len() >= 4,
        ensures
            r.bytes() == old(store)@,
            r.wf(),
            final(store)@ == final(r.store)@,
    {
        Self { store }
    }

    /// Writes `fld` to the `subDeviceId` field (bytes 0..4) and gives the view back.
    pub fn subDeviceId(self, fld: u32) -> (r: Self)
        requires
            self.wf(),
        ensures
            r.bytes() == splice(self.bytes(), 0, spec_u32_to_le_bytes(fld)),
            r.wf(),
            final(r.store)@ == final(self.store)@,
    {
        write_u32(self.store, 0, fld);
        self
    }

    /// Reads the `subDeviceId` field (bytes 0..4).
    pub fn get_subDeviceId(&self) -> (r: u32)
        requires
            self.wf(),
        ensures
            r == u32_at(self.bytes(), 0),
    {
        read_u32(self.store, 0)
    }

    /// Writes `fld` to the `subDeviceId` field (bytes 0..4).
    pub fn set_subDeviceId(&mut self, fld: u32)
        requires
            old(self).wf(),
        ensures
            final(self).bytes() == splice(old(self).bytes(), 0, spec_u32_to_le_bytes(fld)),
            final(self).wf(),
            final(final(self).store)@ == final(old(self).store)@,
    {
        write_u32(self.store, 0, fld);
    }

}

/// View of the firmware structure `s_NV_CHANNEL_ALLOC_PARAMS` (368 bytes).
pub struct s_NV_CHANNEL_ALLOC_PARAMS<'s> {
    /// The buffer from the first byte of the structure to the end.
    pub store: &'s mut [u8],
}

impl<'s> s_NV_CHANNEL_ALLOC_PARAMS<'s> {
    /// The bytes seen through this view.
    pub open spec fn bytes(&self) -> Seq<u8> {
        self.store@
    }

    /// The buffer holds at least the whole structure.
    pub open spec fn wf(&self) -> bool {
        self.store@.len() >= 368
    }

    /// Size of the structure in bytes.
    pub fn str_size() -> (n: usize)
        ensures
            n == 368,
    {
        368
    }

    /// Views `store` as this structure, starting at its first byte.
    pub fn new(store: &'s mut [u8]) -> (r: Self)
        requires
            old(store)@.len() >= 368,
        ensures
            r.bytes() == old(store)@,
            r.wf(),
            final(store)@ == final(r.store)@,
    {
        Self { store }
    }

    /// Writes `fld` to the `hObjectError` field (bytes 0..4) and gives the view back.
    pub fn hObjectError(self, fld: u32) -> (r: Self)
        requires
            self.wf(),
        ensures
            r.bytes() == splice(self.bytes(), 0, spec_u32_to_le_bytes(fld)),
            r.wf(),
            final(r.store)@ == final(self.store)@,
    {
        write_u32(self.store, 0, fld);
        self
    }

    /// Reads the `hObjectError` field (bytes 0..4).
    pub fn get_hObjectError(&self) -> (r: u32)
        requires
            self.wf(),
        ensures
            r == u32_at(self.bytes(), 0),
    {
        read_u32(self.store, 0)
    }

    /// Writes `fld` to the `hObjectError` field (bytes 0..4).
    pub fn set_hObjectError(&mut self, fld: u32)
        requires
            old(self).wf(),
        ensures
            final(self).bytes() == splice(old(self).bytes(), 0, spec_u32_to_le_bytes(fld)),
            final(self).wf(),
            final(final(self).store)@ == final(old(self).store)@,
    {
        write_u32(self.store, 0, fld);
    }

    /// Writes `fld` to the `hObjectBuffer` field (bytes 4..8) and gives the view back.
    pub fn hObjectBuffer(self, fld: u32) -> (r: Self)
        requires
            self.wf(),
        ensures
            r.bytes() == splice(self.bytes(), 4, spec_u32_to_le_bytes(fld)),
            r.wf(),
            final(r.store)@ == final(self.store)@,
    {
        write_u32(self.store, 4, fld);
        self
    }

    /// Reads the `hObjectBuffer` field (bytes 4..8).
    pub fn get_hObjectBuffer(&self) -> (r: u32)
        requires
            self.wf(),
        ensures
            r == u32_at(self.bytes(), 4),
    {
        read_u32(self.store, 4)
    }

    /// Writes `fld` to the `hObjectBuffer` field (bytes 4..8).
    pub fn set_hObjectBuffer(&mut self, fld: u32)
        requires
            old(self).wf(),
        ensures
            final(self).bytes() == splice(old(self).bytes(), 4, spec_u32_to_le_bytes(fld)),
            final(self).wf(),
            final(final(self).store)@ == final(old(self).store)@,
    {
        write_u32(self.store, 4, fld);
    }

    /// Writes `fld` to the `gpFifoOffset` field (bytes 8..16) and gives the view back.
    pub fn gpFifoOffset(self, fld: u64) -> (r: Self)
        requires
            self.wf(),
        ensures
            r.bytes() == splice(self.bytes(), 8, spec_u64_to_le_bytes(fld)),
            r.wf(),
            final(r.store)@ == final(self.store)@,
    {
        write_u64(self.store, 8, fld);
        self
    }

    /// Reads the `gpFifoOffset` field (bytes 8..16).
    pub fn get_gpFifoOffset(&self) -> (r: u64)
        requires
            self.wf(),
        ensures
            r == u64_at(self.bytes(), 8),
    {
        read_u64(self.store, 8)
    }

    /// Writes `fld` to the `gpFifoOffset` field (bytes 8..16).
    pub fn set_gpFifoOffset(&mut self, fld: u64)
        requires
            old(self).wf(),
        ensures
            final(self).bytes() == splice(old(self).bytes(), 8, spec_u64_to_le_bytes(fld)),
            final(self).wf(),
            final(final(self).store)@ == final(old(self).store)@,
    {
        write_u64(self.store, 8, fld);
    }

    /// Writes `fld` to the `gpFifoEntries` field (bytes 16..20) and gives the view back.
    pub fn gpFifoEntries(self, fld: u32) -> (r: Self)
        requires
            self.wf(),
        ensures
            r.bytes() == splice(self.bytes(), 16, spec_u32_to_le_bytes(fld)),
            r.wf(),
            final(r.store)@ == final(self.store)@,
    {
        write_u32(self.store, 16, fld);
        self
    }

    /// Reads the `gpFifoEntries` field (bytes 16..20).
    pub fn get_gpFifoEntries(&self) -> (r: u32)
        requires
            self.wf(),
        ensures
            r == u32_at(self.bytes(), 16),
    {
        read_u32(self.store, 16)
    }

    /// Writes `fld` to the `gpFifoEntries` field (bytes 16..20).
    pub fn set_gpFifoEntries(&mut self, fld: u32)
        requires
            old(self).wf(),
        ensures
            final(self).bytes() == splice(old(self).bytes(), 16, spec_u32_to_le_bytes(fld)),
            final(self).wf(),
            final(final(self).store)@ == final(old(self).store)@,
    {
        write_u32(self.store, 16, fld);
    }

    /// Writes `fld` to the `flags` field (bytes 20..24) and gives the view back.
    pub fn flags(self, fld: u32) -> (r: Self)
        requires
            self.wf(),
        ensures
            r.bytes() == splice(self.bytes(), 20, spec_u32_to_le_bytes(fld)),
            r.wf(),
            final(r.store)@ == final(self.store)@,
    {
        write_u32(self.store, 20, fld);
        self
    }

    /// Reads the `flags` field (bytes 20..24).
    pub fn get_flags(&self) -> (r: u32)
        requires
            self.wf(),
        ensures
            r == u32_at(self.bytes(), 20),
    {
        read_u32(self.store, 20)
    }

    /// Writes `fld` to the `flags` field (bytes 20..24).
    pub fn set_flags(&mut self, fld: u32)
        requires
            old(self).wf(),
        ensures
            final(self).bytes() == splice(old(self).bytes(), 20, spec_u32_to_le_bytes(fld)),
            final(self).wf(),
            final(final(self).store)@ == final(old(self).store)@,
    {
        write_u32(self.store, 20, fld);
    }

    /// Writes `fld` to the `hContextShare` field (bytes 24..28) and gives the view back.
    pub fn hContextShare(self, fld: u32) -> (r: Self)
        requires
            self.wf(),
        ensures
            r.bytes() == splice(self.bytes(), 24, spec_u32_to_le_bytes(fld)),
            r.wf(),
            final(r.store)@ == final(self.store)@,
    {
        write_u32(self.store, 24, fld);
        self
    }

    /// Reads the `hContextShare` field (bytes 24..28).
    pub fn get_hContextShare(&self) -> (r: u32)
        requires
            self.wf(),
        ensures
            r == u32_at(self.bytes(), 24),
    {
        read_u32(self.store, 24)
    }

    /// Writes `fld` to the `hContextShare` field (bytes 24..28).
    pub fn set_hContextShare(&mut self, fld: u32)
        requires
            old(self).wf(),
        ensures
            final(self).bytes() == splice(old(self).bytes(), 24, spec_u32_to_le_bytes(fld)),
            final(self).wf(),
            final(final(self).store)@ == final(old(self).store)@,
    {
        write_u32(self.store, 24, fld);
    }

    /// Writes `fld` to the `hVASpace` field (bytes 28..32) and gives the view back.
    pub fn hVASpace(self, fld: u32) -> (r: Self)
        requires
            self.wf(),
        ensures
            r.bytes() == splice(self.bytes(), 28, spec_u32_to_le_bytes(fld)),
            r.wf(),
            final(r.store)@ == final(self.store)@,
    {
        write_u32(self.store, 28, fld);
        self
    }

    /// Reads the `hVASpace` field (bytes 28..32).
    pub fn get_hVASpace(&self) -> (r: u32)
        requires
            self.wf(),
        ensures
            r == u32_at(self.bytes(), 28),
    {
        read_u32(self.store, 28)
    }

    /// Writes `fld` to the `hVASpace` field (bytes 28..32).
    pub fn set_hVASpace(&mut self, fld: u32)
        requires
            old(self).wf(),
        ensures
            final(self).bytes() == splice(old(self).bytes(), 28, spec_u32_to_le_bytes(fld)),
            final(self).wf(),
            final(final(self).store)@ == final(old(self).store)@,
    {
        write_u32(self.store, 28, fld);
    }

    /// Writes `fld` to the `hUserdMemory` field (bytes 32..64) and gives the view back.
    pub fn hUserdMemory(self, fld: [u32; 8]) -> (r: Self)
        requires
            self.wf(),
        ensures
            r.bytes() == splice(self.bytes(), 32, u32s_to_le(fld@)),
            r.wf(),
            final(r.store)@ == final(self.store)@,
    {
        write_u32s(self.store, 32, &fld);
        self
    }

    /// Writes `fld` to the `hUserdMemory` field (bytes 32..64).
    pub fn set_hUserdMemory(&mut self, fld: [u32; 8])
        requires
            old(self).wf(),
        ensures
            final(self).bytes() == splice(old(self).bytes(), 32, u32s_to_le(fld@)),
            final(self).wf(),
            final(final(self).store)@ == final(old(self).store)@,
    {
        write_u32s(self.store, 32, &fld);
    }

    /// Reads the `hUserdMemory` array (bytes 32..64).
    pub fn get_hUserdMemory(&mut self) -> (r: [u32; 8])
        requires
            old(self).wf(),
        ensures
            r@ == u32s_at(old(self).bytes(), 32, 8),
            final(self).bytes() == old(self).bytes(),
            final(final(self).store)@ == final(old(self).store)@,
    {
        read_u32s(self.store, 32)
    }

    /// Writes `fld` to the `userdOffset` field (bytes 64..128) and gives the view back.
    pub fn userdOffset(self, fld: [u64; 8]) -> (r: Self)
        requires
            self.wf(),
        ensures
            r.bytes() == splice(self.bytes(), 64, u64s_to_le(fld@)),
            r.wf(),
            final(r.store)@ == final(self.store)@,
    {
        write_u64s(self.store, 64, &fld);
        self
    }

    /// Writes `fld` to the `userdOffset` field (bytes 64..128).
    pub fn set_userdOffset(&mut self, fld: [u64; 8])
        requires
            old(self).wf(),
        ensures
            final(self).bytes() == splice(old(self).bytes(), 64, u64s_to_le(fld@)),
            final(self).wf(),
            final(final(self).store)@ == final(old(self).store)@,
    {
        write_u64s(self.store, 64, &fld);
    }

    /// Reads the `userdOffset` array (bytes 64..128).
    pub fn get_userdOffset(&mut self) -> (r: [u64; 8])
        requires
            old(self).wf(),
        ensures
            r@ == u64s_at(old(self).bytes(), 64, 8),
            final(self).bytes() == old(self).bytes(),
            final(final(self).store)@ == final(old(self).store)@,
    {
        read_u64s(self.store, 64)
    }

    /// Writes `fld` to the `engineType` field (bytes 128..132) and gives the view back.
    pub fn engineType(self, fld: u32) -> (r: Self)
        requires
            self.wf(),
        ensures
            r.bytes() == splice(self.bytes(), 128, spec_u32_to_le_bytes(fld)),
            r.wf(),
            final(r.store)@ == final(self.store)@,
    {
        write_u32(self.store, 128, fld);
        self
    }

    /// Reads the `engineType` field (bytes 128..132).
    pub fn get_engineType(&self) -> (r: u32)
        requires
            self.wf(),
        ensures
            r == u32_at(self.bytes(), 128),
    {
        read_u32(self.store, 128)
    }

    /// Writes `fld` to the `engineType` field (bytes 128..132).
    pub fn set_engineType(&mut self, fld: u32)
        requires
            old(self).wf(),
        ensures
            final(self).bytes() == splice(old(self).bytes(), 128, spec_u32_to_le_bytes(fld)),
            final(self).wf(),
            final(final(self).store)@ == final(old(self).store)@,
    {
        write_u32(self.store, 128, fld);
    }

    /// Writes `fld` to the `cid` field (bytes 132..136) and gives the view back.
    pub fn cid(self, fld: u32) -> (r: Self)
        requires
            self.wf(),
        ensures
            r.bytes() == splice(self.bytes(), 132, spec_u32_to_le_bytes(fld)),
            r.wf(),
            final(r.store)@ == final(self.store)@,
    {
        write_u32(self.store, 132, fld);
        self
    }

    /// Reads the `cid` field (bytes 132..136).
    pub fn get_cid(&self) -> (r: u32)
        requires
            self.wf(),
        ensures
            r == u32_at(self.bytes(), 132),
    {
        read_u32(self.store, 132)
    }

    /// Writes `fld` to the `cid` field (bytes 132..136).
    pub fn set_cid(&mut self, fld: u32)
        requires
            old(self).wf(),
        ensures
            final(self).bytes() == splice(old(self).bytes(), 132, spec_u32_to_le_bytes(fld)),
            final(self).wf(),
            final(final(self).store)@ == final(old(self).store)@,
    {
        write_u32(self.store, 132, fld);
    }

    /// Writes `fld` to the `subDeviceId` field (bytes 136..140) and gives the view back.
    pub fn subDeviceId(self, fld: u32) -> (r: Self)
        requires
            self.wf(),
        ensures
            r.bytes() == splice(self.bytes(), 136, spec_u32_to_le_bytes(fld)),
            r.wf(),
            final(r.store)@ == final(self.store)@,
    {
        write_u32(self.store, 136, fld);
        self
    }

    /// Reads the `subDeviceId` field (bytes 136..140).
    pub fn get_subDeviceId(&self) -> (r: u32)
        requires
            self.wf(),
        ensures
            r == u32_at(self.bytes(), 136),
    {
        read_u32(self.store, 136)
    }

    /// Writes `fld` to the `subDeviceId` field (bytes 136..140).
    pub fn set_subDeviceId(&mut self, fld: u32)
        requires
            old(self).wf(),
        ensures
            final(self).bytes() == splice(old(self).bytes(), 136, spec_u32_to_le_bytes(fld)),
            final(self).wf(),
            final(final(self).store)@ == final(old(self).store)@,
    {
        write_u32(self.store, 136, fld);
    }

    /// Writes `fld` to the `hObjectEccError` field (bytes 140..144) and gives the view back.
    pub fn hObjectEccError(self, fld: u32) -> (r: Self)
        requires
            self.wf(),
        ensures
            r.bytes() == splice(self.bytes(), 140, spec_u32_to_le_bytes(fld)),
            r.wf(),
            final(r.store)@ == final(self.store)@,
    {
        write_u32(self.store, 140, fld);
        self
    }

    /// Reads the `hObjectEccError` field (bytes 140..144).
    pub fn get_hObjectEccError(&self) -> (r: u32)
        requires
            self.wf(),
        ensures
            r == u32_at(self.bytes(), 140),
    {
        read_u32(self.store, 140)
    }

    /// Writes `fld` to the `hObjectEccError` field (bytes 140..144).
    pub fn set_hObjectEccError(&mut self, fld: u32)
        requires
            old(self).wf(),
        ensures
            final(self).bytes() == splice(old(self).bytes(), 140, spec_u32_to_le_bytes(fld)),
            final(self).wf(),
            final(final(self).store)@ == final(old(self).store)@,
    {
        write_u32(self.store, 140, fld);
    }

    /// View of the `instanceMem` substructure at byte 144.
    pub fn new_S_instanceMem(&mut self) -> (r: s_NV_MEMORY_DESC_PARAMS<'_>)
        requires
            old(self).wf(),
        ensures
            r.bytes() == old(self).bytes().subrange(144, old(self).bytes().len() as int),
            r.wf(),
            final(self).bytes() == old(self).bytes().subrange(0, 144) + final(r.store)@,
            final(final(self).store)@ == final(old(self).store)@,
    {
        let (_head, tail) = self.store.split_at_mut(144);
        s_NV_MEMORY_DESC_PARAMS { store: tail }
    }

    /// View of the `userdMem` substructure at byte 168.
    pub fn new_S_userdMem(&mut self) -> (r: s_NV_MEMORY_DESC_PARAMS<'_>)
        requires
            old(self).wf(),
        ensures
            r.bytes() == old(self).bytes().subrange(168, old(self).bytes().len() as int),
            r.wf(),
            final(self).bytes() == old(self).bytes().subrange(0, 168) + final(r.store)@,
            final(final(self).store)@ == final(old(self).store)@,
    {
        let (_head, tail) = self.store.split_at_mut(168);
        s_NV_MEMORY_DESC_PARAMS { store: tail }
    }

    /// View of the `ramfcMem` substructure at byte 192.
    pub fn new_S_ramfcMem(&mut self) -> (r: s_NV_MEMORY_DESC_PARAMS<'_>)
        requires
            old(self).wf(),
        ensures
            r.bytes() == old(self).bytes().subrange(192, old(self).bytes().len() as int),
            r.wf(),
            final(self).bytes() == old(self).bytes().subrange(0, 192) + final(r.store)@,
            final(final(self).store)@ == final(old(self).store)@,
    {
        let (_head, tail) = self.store.split_at_mut(192);
        s_NV_MEMORY_DESC_PARAMS { store: tail }
    }

    /// View of the `mthdbufMem` substructure at byte 216.
    pub fn new_S_mthdbufMem(&mut self) -> (r: s_NV_MEMORY_DESC_PARAMS<'_>)
        requires
            old(self).wf(),
        ensures
            r.bytes() == old(self).bytes().subrange(216, old(self).bytes().len() as int),
            r.wf(),
            final(self).bytes() == old(self).bytes().subrange(0, 216) + final(r.store)@,
            final(final(self).store)@ == final(old(self).store)@,
    {
        let (_head, tail) = self.store.split_at_mut(216);
        s_NV_MEMORY_DESC_PARAMS { store: tail }
    }

    /// Writes `fld` to the `hPhysChannelGroup` field (bytes 240..244) and gives the view back.
    pub fn hPhysChannelGroup(self, fld: u32) -> (r: Self)
        requires
            self.wf(),
        ensures
            r.bytes() == splice(self.bytes(), 240, spec_u32_to_le_bytes(fld)),
            r.wf(),
            final(r.store)@ == final(self.store)@,
    {
        write_u32(self.store, 240, fld);
        self
    }

    /// Reads the `hPhysChannelGroup` field (bytes 240..244).
    pub fn get_hPhysChannelGroup(&self) -> (r: u32)
        requires
            self.wf(),
        ensures
            r == u32_at(self.bytes(), 240),
    {
        read_u32(self.store, 240)
    }

    /// Writes `fld` to the `hPhysChannelGroup` field (bytes 240..244).
    pub fn set_hPhysChannelGroup(&mut self, fld: u32)
        requires
            old(self).wf(),
        ensures
            final(self).bytes() == splice(old(self).bytes(), 240, spec_u32_to_le_bytes(fld)),
            final(self).wf(),
            final(final(self).store)@ == final(old(self).store)@,
    {
        write_u32(self.store, 240, fld);
    }

    /// Writes `fld` to the `internalFlags` field (bytes 244..248) and gives the view back.
    pub fn internalFlags(self, fld: u32) -> (r: Self)
        requires
            self.wf(),
        ensures
            r.bytes() == splice(self.bytes(), 244, spec_u32_to_le_bytes(fld)),
            r.wf(),
            final(r.store)@ == final(self.store)@,
    {
        write_u32(self.store, 244, fld);
        self
    }

    /// Reads the `internalFlags` field (bytes 244..248).
    pub fn get_internalFlags(&self) -> (r: u32)
        requires
            self.wf(),
        ensures
            r == u32_at(self.bytes(), 244),
    {
        read_u32(self.store, 244)
    }

    /// Writes `fld` to the `internalFlags` field (bytes 244..248).
    pub fn set_internalFlags(&mut self, fld: u32)
        requires
            old(self).wf(),
        ensures
            final(self).bytes() == splice(old(self).bytes(), 244, spec_u32_to_le_bytes(fld)),
            final(self).wf(),
            final(final(self).store)@ == final(old(self).store)@,
    {
        write_u32(self.store, 244, fld);
    }

    /// View of the `errorNotifierMem` substructure at byte 248.
    pub fn new_S_errorNotifierMem(&mut self) -> (r: s_NV_MEMORY_DESC_PARAMS<'_>)
        requires
            old(self).wf(),
        ensures
            r.bytes() == old(self).bytes().subrange(248, old(self).bytes().len() as int),
            r.wf(),
            final(self).bytes() == old(self).bytes().subrange(0, 248) + final(r.store)@,
            final(final(self).store)@ == final(old(self).store)@,
    {
        let (_head, tail) = self.store.split_at_mut(248);
        s_NV_MEMORY_DESC_PARAMS { store: tail }
    }

    /// View of the `eccErrorNotifierMem` substructure at byte 272.
    pub fn new_S_eccErrorNotifierMem(&mut self) -> (r: s_NV_MEMORY_DESC_PARAMS<'_>)
        requires
            old(self).wf(),
        ensures
            r.bytes() == old(self).bytes().subrange(272, old(self).bytes().len() as int),
            r.wf(),
            final(self).bytes() == old(self).bytes().subrange(0, 272) + final(r.store)@,
            final(final(self).store)@ == final(old(self).store)@,
    {
        let (_head, tail) = self.store.split_at_mut(272);
        s_NV_MEMORY_DESC_PARAMS { store: tail }
    }

    /// Writes `fld` to the `ProcessID` field (bytes 296..300) and gives the view back.
    pub fn ProcessID(self, fld: u32) -> (r: Self)
        requires
            self.wf(),
        ensures
            r.bytes() == splice(self.bytes(), 296, spec_u32_to_le_bytes(fld)),
            r.wf(),
            final(r.store)@ == final(self.store)@,
    {
        write_u32(self.store, 296, fld);
        self
    }

    /// Reads the `ProcessID` field (bytes 296..300).
    pub fn get_ProcessID(&self) -> (r: u32)
        requires
            self.wf(),
        ensures
            r == u32_at(self.bytes(), 296),
    {
        read_u32(self.store, 296)
    }

    /// Writes `fld` to the `ProcessID` field (bytes 296..300).
    pub fn set_ProcessID(&mut self, fld: u32)
        requires
            old(self).wf(),
        ensures
            final(self).bytes() == splice(old(self).bytes(), 296, spec_u32_to_le_bytes(fld)),
            final(self).wf(),
            final(final(self).store)@ == final(old(self).store)@,
    {
        write_u32(self.store, 296, fld);
    }

    /// Writes `fld` to the `SubProcessID` field (bytes 300..304) and gives the view back.
    pub fn SubProcessID(self, fld: u32) -> (r: Self)
        requires
            self.wf(),
        ensures
            r.bytes() == splice(self.bytes(), 300, spec_u32_to_le_bytes(fld)),
            r.wf(),
            final(r.store)@ == final(self.store)@,
    {
        write_u32(self.store, 300, fld);
        self
    }

    /// Reads the `SubProcessID` field (bytes 300..304).
    pub fn get_SubProcessID(&self) -> (r: u32)
        requires
            self.wf(),
        ensures
            r == u32_at(self.bytes(), 300),
    {
        read_u32(self.store, 300)
    }

    /// Writes `fld` to the `SubProcessID` field (bytes 300..304).
    pub fn set_SubProcessID(&mut self, fld: u32)
        requires
            old(self).wf(),
        ensures
            final(self).bytes() == splice(old(self).bytes(), 300, spec_u32_to_le_bytes(fld)),
            final(self).wf(),
            final(final(self).store)@ == final(old(self).store)@,
    {
        write_u32(self.store, 300, fld);
    }

    /// Writes `fld` to the `encryptIv` field (bytes 304..316) and gives the view back.
    pub fn encryptIv(self, fld: [u32; 3]) -> (r: Self)
        requires
            self.wf(),
        ensures
            r.bytes() == splice(self.bytes(), 304, u32s_to_le(fld@)),
            r.wf(),
            final(r.store)@ == final(self.store)@,
    {
        write_u32s(self.store, 304, &fld);
        self
    }

    /// Writes `fld` to the `encryptIv` field (bytes 304..316).
    pub fn set_encryptIv(&mut self, fld: [u32; 3])
        requires
            old(self).wf(),
        ensures
            final(self).bytes() == splice(old(self).bytes(), 304, u32s_to_le(fld@)),
            final(self).wf(),
            final(final(self).store)@ == final(old(self).store)@,
    {
        write_u32s(self.store, 304, &fld);
    }

    /// Reads the `encryptIv` array (bytes 304..316).
    pub fn get_encryptIv(&mut self) -> (r: [u32; 3])
        requires
            old(self).wf(),
        ensures
            r@ == u32s_at(old(self).bytes(), 304, 3),
            final(self).bytes() == old(self).bytes(),
            final(final(self).store)@ == final(old(self).store)@,
    {
        read_u32s(self.store, 304)
    }

    /// Writes `fld` to the `decryptIv` field (bytes 316..328) and gives the view back.
    pub fn decryptIv(self, fld: [u32; 3]) -> (r: Self)
        requires
            self.wf(),
        ensures
            r.bytes() == splice(self.bytes(), 316, u32s_to_le(fld@)),
            r.wf(),
            final(r.store)@ == final(self.store)@,
    {
        write_u32s(self.store, 316, &fld);
        self
    }

    /// Writes `fld` to the `decryptIv` field (bytes 316..328).
    pub fn set_decryptIv(&mut self, fld: [u32; 3])
        requires
            old(self).wf(),
        ensures
            final(self).bytes() == splice(old(self).bytes(), 316, u32s_to_le(fld@)),
            final(self).wf(),
            final(final(self).store)@ == final(old(self).store)@,
    {
        write_u32s(self.store, 316, &fld);
    }

    /// Reads the `decryptIv` array (bytes 316..328).
    pub fn get_decryptIv(&mut self) -> (r: [u32; 3])
        requires
            old(self).wf(),
        ensures
            r@ == u32s_at(old(self).bytes(), 316, 3),
            final(self).bytes() == old(self).bytes(),
            final(final(self).store)@ == final(old(self).store)@,
    {
        read_u32s(self.store, 316)
    }

    /// Writes `fld` to the `hmacNonce` field (bytes 328..360) and gives the view back.
    pub fn hmacNonce(self, fld: [u32; 8]) -> (r: Self)
        requires
            self.wf(),
        ensures
            r.bytes() == splice(self.bytes(), 328, u32s_to_le(fld@)),
            r.wf(),
            final(r.store)@ == final(self.store)@,
    {
        write_u32s(self.store, 328, &fld);
        self
    }

    /// Writes `fld` to the `hmacNonce` field (bytes 328..360).
    pub fn set_hmacNonce(&mut self, fld: [u32; 8])
        requires
            old(self).wf(),
        ensures
            final(self).bytes() == splice(old(self).bytes(), 328, u32s_to_le(fld@)),
            final(self).wf(),
            final(final(self).store)@ == final(old(self).store)@,
    {
        write_u32s(self.store, 328, &fld);
    }

    /// Reads the `hmacNonce` array (bytes 328..360).
    pub fn get_hmacNonce(&mut self) -> (r: [u32; 8])
        requires
            old(self).wf(),
        ensures
            r@ == u32s_at(old(self).bytes(), 328, 8),
            final(self).bytes() == old(self).bytes(),
            final(final(self).store)@ == final(old(self).store)@,
    {
        read_u32s(self.store, 328)
    }

    /// Writes `fld` to the `tpcConfigID` field (bytes 360..364) and gives the view back.
    pub fn tpcConfigID(self, fld: u32) -> (r: Self)
        requires
            self.wf(),
        ensures
            r.bytes() == splice(self.bytes(), 360, spec_u32_to_le_bytes(fld)),
            r.wf(),
            final(r.store)@ == final(self.store)@,
    {
        write_u32(self.store, 360, fld);
        self
    }

    /// Reads the `tpcConfigID` field (bytes 360..364).
    pub fn get_tpcConfigID(&self) -> (r: u32)
        requires
            self.wf(),
        ensures
            r == u32_at(self.bytes(), 360),
    {
        read_u32(self.store, 360)
    }

    /// Writes `fld` to the `tpcConfigID` field (bytes 360..364).
    pub fn set_tpcConfigID(&mut self, fld: u32)
        requires
            old(self).wf(),
        ensures
            final(self).bytes() == splice(old(self).bytes(), 360, spec_u32_to_le_bytes(fld)),
            final(self).wf(),
            final(final(self).store)@ == final(old(self).store)@,
    {
        write_u32(self.store, 360, fld);
    }

}

/// View of the firmware structure `s_NV_VASPACE_ALLOCATION_PARAMETERS` (48 bytes).
pub struct s_NV_VASPACE_ALLOCATION_PARAMETERS<'s> {
    /// The buffer from the first byte of the structure to the end.
    pub store: &'s mut [u8],
}

impl<'s> s_NV_VASPACE_ALLOCATION_PARAMETERS<'s> {
    /// The bytes seen through this view.
    pub open spec fn bytes(&self) -> Seq<u8> {
        self.store@
    }

    /// The buffer holds at least the whole structure.
    pub open spec fn wf(&self) -> bool {
        self.store@.len() >= 48
    }

    /// Size of the structure in bytes.
    pub fn str_size() -> (n: usize)
        ensures
            n == 48,
    {
        48
    }

    /// Views `store` as this structure, starting at its first byte.
    pub fn new(store: &'s mut [u8]) -> (r: Self)
        requires
            old(store)@.len() >= 48,
        ensures
            r.bytes() == old(store)@,
            r.wf(),
            final(store)@ == final(r.store)@,
    {
        Self { store }
    }

    /// Writes `fld` to the `index` field (bytes 0..4) and gives the view back.
    pub fn index(self, fld: u32) -> (r: Self)
        requires
            self.wf(),
        ensures
            r.bytes() == splice(self.bytes(), 0, spec_u32_to_le_bytes(fld)),
            r.wf(),
            final(r.store)@ == final(self.store)@,
    {
        write_u32(self.store, 0, fld);
        self
    }

    /// Reads the `index` field (bytes 0..4).
    pub fn get_index(&self) -> (r: u32)
        requires
            self.wf(),
        ensures
            r == u32_at(self.bytes(), 0),
    {
        read_u32(self.store, 0)
    }

    /// Writes `fld` to the `index` field (bytes 0..4).
    pub fn set_index(&mut self, fld: u32)
        requires
            old(self).wf(),
        ensures
            final(self).bytes() == splice(old(self).bytes(), 0, spec_u32_to_le_bytes(fld)),
            final(self).wf(),
            final(final(self).store)@ == final(old(self).store)@,
    {
        write_u32(self.store, 0, fld);
    }

    /// Writes `fld` to the `flags` field (bytes 4..8) and gives the view back.
    pub fn flags(self, fld: u32) -> (r: Self)
        requires
            self.wf(),
        ensures
            r.bytes() == splice(self.bytes(), 4, spec_u32_to_le_bytes(fld)),
            r.wf(),
            final(r.store)@ == final(self.store)@,
    {
        write_u32(self.store, 4, fld);
        self
    }

    /// Reads the `flags` field (bytes 4..8).
    pub fn get_flags(&self) -> (r: u32)
        requires
            self.wf(),
        ensures
            r == u32_at(self.bytes(), 4),
    {
        read_u32(self.store, 4)
    }

    /// Writes `fld` to the `flags` field (bytes 4..8).
    pub fn set_flags(&mut self, fld: u32)
        requires
            old(self).wf(),
        ensures
            final(self).bytes() == splice(old(self).bytes(), 4, spec_u32_to_le_bytes(fld)),
            final(self).wf(),
            final(final(self).store)@ == final(old(self).store)@,
    {
        write_u32(self.store, 4, fld);
    }

    /// Writes `fld` to the `vaSize` field (bytes 8..16) and gives the view back.
    pub fn vaSize(self, fld: u64) -> (r: Self)
        requires
            self.wf(),
        ensures
            r.bytes() == splice(self.bytes(), 8, spec_u64_to_le_bytes(fld)),
            r.wf(),
            final(r.store)@ == final(self.store)@,
    {
        write_u64(self.store, 8, fld);
        self
    }

    /// Reads the `vaSize` field (bytes 8..16).
    pub fn get_vaSize(&self) -> (r: u64)
        requires
            self.wf(),
        ensures
            r == u64_at(self.bytes(), 8),
    {
        read_u64(self.store, 8)
    }

    /// Writes `fld` to the `vaSize` field (bytes 8..16).
    pub fn set_vaSize(&mut self, fld: u64)
        requires
            old(self).wf(),
        ensures
            final(self).bytes() == splice(old(self).bytes(), 8, spec_u64_to_le_bytes(fld)),
            final(self).wf(),
            final(final(self).store)@ == final(old(self).store)@,
    {
        write_u64(self.store, 8, fld);
    }

    /// Writes `fld` to the `vaStartInternal` field (bytes 16..24) and gives the view back.
    pub fn vaStartInternal(self, fld: u64) -> (r: Self)
        requires
            self.wf(),
        ensures
            r.bytes() == splice(self.bytes(), 16, spec_u64_to_le_bytes(fld)),
            r.wf(),
            final(r.store)@ == final(self.store)@,
    {
        write_u64(self.store, 16, fld);
        self
    }

    /// Reads the `vaStartInternal` field (bytes 16..24).
    pub fn get_vaStartInternal(&self) -> (r: u64)
        requires
            self.wf(),
        ensures
            r == u64_at(self.bytes(), 16),
    {
        read_u64(self.store, 16)
    }

    /// Writes `fld` to the `vaStartInternal` field (bytes 16..24).
    pub fn set_vaStartInternal(&mut self, fld: u64)
        requires
            old(self).wf(),
        ensures
            final(self).bytes() == splice(old(self).bytes(), 16, spec_u64_to_le_bytes(fld)),
            final(self).wf(),
            final(final(self).store)@ == final(old(self).store)@,
    {
        write_u64(self.store, 16, fld);
    }

    /// Writes `fld` to the `vaLimitInternal` field (bytes 24..32) and gives the view back.
    pub fn vaLimitInternal(self, fld: u64) -> (r: Self)
        requires
            self.wf(),
        ensures
            r.bytes() == splice(self.bytes(), 24, spec_u64_to_le_bytes(fld)),
            r.wf(),
            final(r.store)@ == final(self.store)@,
    {
        write_u64(self.store, 24, fld);
        self
    }

    /// Reads the `vaLimitInternal` field (bytes 24..32).
    pub fn get_vaLimitInternal(&self) -> (r: u64)
        requires
            self.wf(),
        ensures
            r == u64_at(self.bytes(), 24),
    {
        read_u64(self.store, 24)
    }

    /// Writes `fld` to the `vaLimitInternal` field (bytes 24..32).
    pub fn set_vaLimitInternal(&mut self, fld: u64)
        requires
            old(self).wf(),
        ensures
            final(self).bytes() == splice(old(self).bytes(), 24, spec_u64_to_le_bytes(fld)),
            final(self).wf(),
            final(final(self).store)@ == final(old(self).store)@,
    {
        write_u64(self.store, 24, fld);
    }

    /// Writes `fld` to the `bigPageSize` field (bytes 32..36) and gives the view back.
    pub fn bigPageSize(self, fld: u32) -> (r: Self)
        requires
            self.wf(),
        ensures
            r.bytes() == splice(self.bytes(), 32, spec_u32_to_le_bytes(fld)),
            r.wf(),
            final(r.store)@ == final(self.store)@,
    {
        write_u32(self.store, 32, fld);
        self
    }

    /// Reads the `bigPageSize` field (bytes 32..36).
    pub fn get_bigPageSize(&self) -> (r: u32)
        requires
            self.wf(),
        ensures
            r == u32_at(self.bytes(), 32),
    {
        read_u32(self.store, 32)
    }

    /// Writes `fld` to the `bigPageSize` field (bytes 32..36).
    pub fn set_bigPageSize(&mut self, fld: u32)
        requires
            old(self).wf(),
        ensures
            final(self).bytes() == splice(old(self).bytes(), 32, spec_u32_to_le_bytes(fld)),
            final(self).wf(),
            final(final(self).store)@ == final(old(self).store)@,
    {
        write_u32(self.store, 32, fld);
    }

    /// Writes `fld` to the `vaBase` field (bytes 40..48) and gives the view back.
    pub fn vaBase(self, fld: u64) -> (r: Self)
        requires
            self.wf(),
        ensures
            r.bytes() == splice(self.bytes(), 40, spec_u64_to_le_bytes(fld)),
            r.wf(),
            final(r.store)@ == final(self.store)@,
    {
        write_u64(self.store, 40, fld);
        self
    }

    /// Reads the `vaBase` field (bytes 40..48).
    pub fn get_vaBase(&self) -> (r: u64)
        requires
            self.wf(),
        ensures
            r == u64_at(self.bytes(), 40),
    {
        read_u64(self.store, 40)
    }

    /// Writes `fld` to the `vaBase` field (bytes 40..48).
    pub fn set_vaBase(&mut self, fld: u64)
        requires
            old(self).wf(),
        ensures
            final(self).bytes() == splice(old(self).bytes(), 40, spec_u64_to_le_bytes(fld)),
            final(self).wf(),
            final(final(self).store)@ == final(old(self).store)@,
    {
        write_u64(self.store, 40, fld);
    }

}

/// View of the firmware structure `s_NVC0B5_ALLOCATION_PARAMETERS` (8 bytes).
pub struct s_NVC0B5_ALLOCATION_PARAMETERS<'s> {
    /// The buffer from the first byte of the structure to the end.
    pub store: &'s mut [u8],
}

impl<'s> s_NVC0B5_ALLOCATION_PARAMETERS<'s> {
    /// The bytes seen through this view.
    pub open spec fn bytes(&self) -> Seq<u8> {
        self.store@
    }

    /// The buffer holds at least the whole structure.
    pub open spec fn wf(&self) -> bool {
        self.store@.len() >= 8
    }

    /// Size of the structure in bytes.
    pub fn str_size() -> (n: usize)
        ensures
            n == 8,
    {
        8
    }

    /// Views `store` as this structure, starting at its first byte.
    pub fn new(store: &'s mut [u8]) -> (r: Self)
        requires
            old(store)@.len() >= 8,
        ensures
            r.bytes() == old(store)@,
            r.wf(),
            final(store)@ == final(r.store)@,
    {
        Self { store }
    }

    /// Writes `fld` to the `version` field (bytes 0..4) and gives the view back.
    pub fn version(self, fld: u32) -> (r: Self)
        requires
            self.wf(),
        ensures
            r.bytes() == splice(self.bytes(), 0, spec_u32_to_le_bytes(fld)),
            r.wf(),
            final(r.store)@ == final(self.store)@,
    {
        write_u32(self.store, 0, fld);
        self
    }

    /// Reads the `version` field (bytes 0..4).
    pub fn get_version(&self) -> (r: u32)
        requires
            self.wf(),
        ensures
            r == u32_at(self.bytes(), 0),
    {
        read_u32(self.store, 0)
    }

    /// Writes `fld` to the `version` field (bytes 0..4).
    pub fn set_version(&mut self, fld: u32)
        requires
            old(self).wf(),
        ensures
            final(self).bytes() == splice(old(self).bytes(), 0, spec_u32_to_le_bytes(fld)),
            final(self).wf(),
            final(final(self).store)@ == final(old(self).store)@,
    {
        write_u32(self.store, 0, fld);
    }

    /// Writes `fld` to the `engineType` field (bytes 4..8) and gives the view back.
    pub fn engineType(self, fld: u32) -> (r: Self)
        requires
            self.wf(),
        ensures
            r.bytes() == splice(self.bytes(), 4, spec_u32_to_le_bytes(fld)),
            r.wf(),
            final(r.store)@ == final(self.store)@,
    {
        write_u32(self.store, 4, fld);
        self
    }

    /// Reads the `engineType` field (bytes 4..8).
    pub fn get_engineType(&self) -> (r: u32)
        requires
            self.wf(),
        ensures
            r == u32_at(self.bytes(), 4),
    {
        read_u32(self.store, 4)
    }

    /// Writes `fld` to the `engineType` field (bytes 4..8).
    pub fn set_engineType(&mut self, fld: u32)
        requires
            old(self).wf(),
        ensures
            final(self).bytes() == splice(old(self).bytes(), 4, spec_u32_to_le_bytes(fld)),
            final(self).wf(),
            final(final(self).store)@ == final(old(self).store)@,
    {
        write_u32(self.store, 4, fld);
    }

}

/// View of the firmware structure `s_NV50VAIO_CHANNELPIO_ALLOCATION_PARAMETERS` (16 bytes).
pub struct s_NV50VAIO_CHANNELPIO_ALLOCATION_PARAMETERS<'s> {
    /// The buffer from the first byte of the structure to the end.
    pub store: &'s mut [u8],
}

impl<'s> s_NV50VAIO_CHANNELPIO_ALLOCATION_PARAMETERS<'s> {
    /// The bytes seen through this view.
    pub open spec fn bytes(&self) -> Seq<u8> {
        self.store@
    }

    /// The buffer holds at least the whole structure.
    pub open spec fn wf(&self) -> bool {
        self.store@.len() >= 16
    }

    /// Size of the structure in bytes.
    pub fn str_size() -> (n: usize)
        ensures
            n == 16,
    {
        16
    }

    /// Views `store` as this structure, starting at its first byte.
    pub fn new(store: &'s mut [u8]) -> (r: Self)
        requires
            old(store)@.len() >= 16,
        ensures
            r.bytes() == old(store)@,
            r.wf(),
            final(store)@ == final(r.store)@,
    {
        Self { store }
    }

    /// Writes `fld` to the `channelInstance` field (bytes 0..4) and gives the view back.
    pub fn channelInstance(self, fld: u32) -> (r: Self)
        requires
            self.wf(),
        ensures
            r.bytes() == splice(self.bytes(), 0, spec_u32_to_le_bytes(fld)),
            r.wf(),
            final(r.store)@ == final(self.store)@,
    {
        write_u32(self.store, 0, fld);
        self
    }

    /// Reads the `channelInstance` field (bytes 0..4).
    pub fn get_channelInstance(&self) -> (r: u32)
        requires
            self.wf(),
        ensures
            r == u32_at(self.bytes(), 0),
    {
        read_u32(self.store, 0)
    }

    /// Writes `fld` to the `channelInstance` field (bytes 0..4).
    pub fn set_channelInstance(&mut self, fld: u32)
        requires
            old(self).wf(),
        ensures
            final(self).bytes() == splice(old(self).bytes(), 0, spec_u32_to_le_bytes(fld)),
            final(self).wf(),
            final(final(self).store)@ == final(old(self).store)@,
    {
        write_u32(self.store, 0, fld);
    }

    /// Writes `fld` to the `hObjectNotify` field (bytes 4..8) and gives the view back.
    pub fn hObjectNotify(self, fld: u32) -> (r: Self)
        requires
            self.wf(),
        ensures
            r.bytes() == splice(self.bytes(), 4, spec_u32_to_le_bytes(fld)),
            r.wf(),
            final(r.store)@ == final(self.store)@,
    {
        write_u32(self.store, 4, fld);
        self
    }

    /// Reads the `hObjectNotify` field (bytes 4..8).
    pub fn get_hObjectNotify(&self) -> (r: u32)
        requires
            self.wf(),
        ensures
            r == u32_at(self.bytes(), 4),
    {
        read_u32(self.store, 4)
    }

    /// Writes `fld` to the `hObjectNotify` field (bytes 4..8).
    pub fn set_hObjectNotify(&mut self, fld: u32)
        requires
            old(self).wf(),
        ensures
            final(self).bytes() == splice(old(self).bytes(), 4, spec_u32_to_le_bytes(fld)),
            final(self).wf(),
            final(final(self).store)@ == final(old(self).store)@,
    {
        write_u32(self.store, 4, fld);
    }

    /// Writes `fld` to the `pControl` field (bytes 8..16) and gives the view back.
    pub fn pControl(self, fld: u64) -> (r: Self)
        requires
            self.wf(),
        ensures
            r.bytes() == splice(self.bytes(), 8, spec_u64_to_le_bytes(fld)),
            r.wf(),
            final(r.store)@ == final(self.store)@,
    {
        write_u64(self.store, 8, fld);
        self
    }

    /// Reads the `pControl` field (bytes 8..16).
    pub fn get_pControl(&self) -> (r: u64)
        requires
            self.wf(),
        ensures
            r == u64_at(self.bytes(), 8),
    {
        read_u64(self.store, 8)
    }

    /// Writes `fld` to the `pControl` field (bytes 8..16).
    pub fn set_pControl(&mut self, fld: u64)
        requires
            old(self).wf(),
        ensures
            final(self).bytes() == splice(old(self).bytes(), 8, spec_u64_to_le_bytes(fld)),
            final(self).wf(),
            final(final(self).store)@ == final(old(self).store)@,
    {
        write_u64(self.store, 8, fld);
    }

}

/// View of the firmware structure `s_NV50VAIO_CHANNELDMA_ALLOCATION_PARAMETERS` (40 bytes).
pub struct s_NV50VAIO_CHANNELDMA_ALLOCATION_PARAMETERS<'s> {
    /// The buffer from the first byte of the structure to the end.
    pub store: &'s mut [u8],
}

impl<'s> s_NV50VAIO_CHANNELDMA_ALLOCATION_PARAMETERS<'s> {
    /// The bytes seen through this view.
    pub open spec fn bytes(&self) -> Seq<u8> {
        self.store@
    }

    /// The buffer holds at least the whole structure.
    pub open spec fn wf(&self) -> bool {
        self.store@.len() >= 40
    }

    /// Size of the structure in bytes.
    pub fn str_size() -> (n: usize)
        ensures
            n == 40,
    {
        40
    }

    /// Views `store` as this structure, starting at its first byte.
    pub fn new(store: &'s mut [u8]) -> (r: Self)
        requires
            old(store)@.len() >= 40,
        ensures
            r.bytes() == old(store)@,
            r.wf(),
            final(store)@ == final(r.store)@,
    {
        Self { store }
    }

    /// Writes `fld` to the `channelInstance` field (bytes 0..4) and gives the view back.
    pub fn channelInstance(self, fld: u32) -> (r: Self)
        requires
            self.wf(),
        ensures
            r.bytes() == splice(self.bytes(), 0, spec_u32_to_le_bytes(fld)),
            r.wf(),
            final(r.store)@ == final(self.store)@,
    {
        write_u32(self.store, 0, fld);
        self
    }

    /// Reads the `channelInstance` field (bytes 0..4).
    pub fn get_channelInstance(&self) -> (r: u32)
        requires
            self.wf(),
        ensures
            r == u32_at(self.bytes(), 0),
    {
        read_u32(self.store, 0)
    }

    /// Writes `fld` to the `channelInstance` field (bytes 0..4).
    pub fn set_channelInstance(&mut self, fld: u32)
        requires
            old(self).wf(),
        ensures
            final(self).bytes() == splice(old(self).bytes(), 0, spec_u32_to_le_bytes(fld)),
            final(self).wf(),
            final(final(self).store)@ == final(old(self).store)@,
    {
        write_u32(self.store, 0, fld);
    }

    /// Writes `fld` to the `hObjectBuffer` field (bytes 4..8) and gives the view back.
    pub fn hObjectBuffer(self, fld: u32) -> (r: Self)
        requires
            self.wf(),
        ensures
            r.bytes() == splice(self.bytes(), 4, spec_u32_to_le_bytes(fld)),
            r.wf(),
            final(r.store)@ == final(self.store)@,
    {
        write_u32(self.store, 4, fld);
        self
    }

    /// Reads the `hObjectBuffer` field (bytes 4..8).
    pub fn get_hObjectBuffer(&self) -> (r: u32)
        requires
            self.wf(),
        ensures
            r == u32_at(self.bytes(), 4),
    {
        read_u32(self.store, 4)
    }

    /// Writes `fld` to the `hObjectBuffer` field (bytes 4..8).
    pub fn set_hObjectBuffer(&mut self, fld: u32)
        requires
            old(self).wf(),
        ensures
            final(self).bytes() == splice(old(self).bytes(), 4, spec_u32_to_le_bytes(fld)),
            final(self).wf(),
            final(final(self).store)@ == final(old(self).store)@,
    {
        write_u32(self.store, 4, fld);
    }

    /// Writes `fld` to the `hObjectNotify` field (bytes 8..12) and gives the view back.
    pub fn hObjectNotify(self, fld: u32) -> (r: Self)
        requires
            self.wf(),
        ensures
            r.bytes() == splice(self.bytes(), 8, spec_u32_to_le_bytes(fld)),
            r.wf(),
            final(r.store)@ == final(self.store)@,
    {
        write_u32(self.store, 8, fld);
        self
    }

    /// Reads the `hObjectNotify` field (bytes 8..12).
    pub fn get_hObjectNotify(&self) -> (r: u32)
        requires
            self.wf(),
        ensures
            r == u32_at(self.bytes(), 8),
    {
        read_u32(self.store, 8)
    }

    /// Writes `fld` to the `hObjectNotify` field (bytes 8..12).
    pub fn set_hObjectNotify(&mut self, fld: u32)
        requires
            old(self).wf(),
        ensures
            final(self).bytes() == splice(old(self).bytes(), 8, spec_u32_to_le_bytes(fld)),
            final(self).wf(),
            final(final(self).store)@ == final(old(self).store)@,
    {
        write_u32(self.store, 8, fld);
    }

    /// Writes `fld` to the `offset` field (bytes 12..16) and gives the view back.
    pub fn offset(self, fld: u32) -> (r: Self)
        requires
            self.wf(),
        ensures
            r.bytes() == splice(self.bytes(), 12, spec_u32_to_le_bytes(fld)),
            r.wf(),
            final(r.store)@ == final(self.store)@,
    {
        write_u32(self.store, 12, fld);
        self
    }

    /// Reads the `offset` field (bytes 12..16).
    pub fn get_offset(&self) -> (r: u32)
        requires
            self.wf(),
        ensures
            r == u32_at(self.bytes(), 12),
    {
        read_u32(self.store, 12)
    }

    /// Writes `fld` to the `offset` field (bytes 12..16).
    pub fn set_offset(&mut self, fld: u32)
        requires
            old(self).wf(),
        ensures
            final(self).bytes() == splice(old(self).bytes(), 12, spec_u32_to_le_bytes(fld)),
            final(self).wf(),
            final(final(self).store)@ == final(old(self).store)@,
    {
        write_u32(self.store, 12, fld);
    }

    /// Writes `fld` to the `pControl` field (bytes 16..24) and gives the view back.
    pub fn pControl(self, fld: u64) -> (r: Self)
        requires
            self.wf(),
        ensures
            r.bytes() == splice(self.bytes(), 16, spec_u64_to_le_bytes(fld)),
            r.wf(),
            final(r.store)@ == final(self.store)@,
    {
        write_u64(self.store, 16, fld);
        self
    }

    /// Reads the `pControl` field (bytes 16..24).
    pub fn get_pControl(&self) -> (r: u64)
        requires
            self.wf(),
        ensures
            r == u64_at(self.bytes(), 16),
    {
        read_u64(self.store, 16)
    }

    /// Writes `fld` to the `pControl` field (bytes 16..24).
    pub fn set_pControl(&mut self, fld: u64)
        requires
            old(self).wf(),
        ensures
            final(self).bytes() == splice(old(self).bytes(), 16, spec_u64_to_le_bytes(fld)),
            final(self).wf(),
            final(final(self).store)@ == final(old(self).store)@,
    {
        write_u64(self.store, 16, fld);
    }

    /// Writes `fld` to the `flags` field (bytes 24..28) and gives the view back.
    pub fn flags(self, fld: u32) -> (r: Self)
        requires
            self.wf(),
        ensures
            r.bytes() == splice(self.bytes(), 24, spec_u32_to_le_bytes(fld)),
            r.wf(),
            final(r.store)@ == final(self.store)@,
    {
        write_u32(self.store, 24, fld);
        self
    }

    /// Reads the `flags` field (bytes 24..28).
    pub fn get_flags(&self) -> (r: u32)
        requires
            self.wf(),
        ensures
            r == u32_at(self.bytes(), 24),
    {
        read_u32(self.store, 24)
    }

    /// Writes `fld` to the `flags` field (bytes 24..28).
    pub fn set_flags(&mut self, fld: u32)
        requires
            old(self).wf(),
        ensures
            final(self).bytes() == splice(old(self).bytes(), 24, spec_u32_to_le_bytes(fld)),
            final(self).wf(),
            final(final(self).store)@ == final(old(self).store)@,
    {
        write_u32(self.store, 24, fld);
    }

    /// Writes `fld` to the `channelPBSize` field (bytes 28..32) and gives the view back.
    pub fn channelPBSize(self, fld: u32) -> (r: Self)
        requires
            self.wf(),
        ensures
            r.bytes() == splice(self.bytes(), 28, spec_u32_to_le_bytes(fld)),
            r.wf(),
            final(r.store)@ == final(self.store)@,
    {
        write_u32(self.store, 28, fld);
        self
    }

    /// Reads the `channelPBSize` field (bytes 28..32).
    pub fn get_channelPBSize(&self) -> (r: u32)
        requires
            self.wf(),
        ensures
            r == u32_at(self.bytes(), 28),
    {
        read_u32(self.store, 28)
    }

    /// Writes `fld` to the `channelPBSize` field (bytes 28..32).
    pub fn set_channelPBSize(&mut self, fld: u32)
        requires
            old(self).wf(),
        ensures
            final(self).bytes() == splice(old(self).bytes(), 28, spec_u32_to_le_bytes(fld)),
            final(self).wf(),
            final(final(self).store)@ == final(old(self).store)@,
    {
        write_u32(self.store, 28, fld);
    }

    /// Writes `fld` to the `subDeviceId` field (bytes 32..36) and gives the view back.
    pub fn subDeviceId(self, fld: u32) -> (r: Self)
        requires
            self.wf(),
        ensures
            r.bytes() == splice(self.bytes(), 32, spec_u32_to_le_bytes(fld)),
            r.wf(),
            final(r.store)@ == final(self.store)@,
    {
        write_u32(self.store, 32, fld);
        self
    }

    /// Reads the `subDeviceId` field (bytes 32..36).
    pub fn get_subDeviceId(&self) -> (r: u32)
        requires
            self.wf(),
        ensures
            r == u32_at(self.bytes(), 32),
    {
        read_u32(self.store, 32)
    }

    /// Writes `fld` to the `subDeviceId` field (bytes 32..36).
    pub fn set_subDeviceId(&mut self, fld: u32)
        requires
            old(self).wf(),
        ensures
            final(self).bytes() == splice(old(self).bytes(), 32, spec_u32_to_le_bytes(fld)),
            final(self).wf(),
            final(final(self).store)@ == final(old(self).store)@,
    {
        write_u32(self.store, 32, fld);
    }

}

/// View of the firmware structure `s_NV_BSP_ALLOCATION_PARAMETERS` (12 bytes).
pub struct s_NV_BSP_ALLOCATION_PARAMETERS<'s> {
    /// The buffer from the first byte of the structure to the end.
    pub store: &'s mut [u8],
}

impl<'s> s_NV_BSP_ALLOCATION_PARAMETERS<'s> {
    /// The bytes seen through this view.
    pub open spec fn bytes(&self) -> Seq<u8> {
        self.store@
    }

    /// The buffer holds at least the whole structure.
    pub open spec fn wf(&self) -> bool {
        self.store@.len() >= 12
    }

    /// Size of the structure in bytes.
    pub fn str_size() -> (n: usize)
        ensures
            n == 12,
    {
        12
    }

    /// Views `store` as this structure, starting at its first byte.
    pub fn new(store: &'s mut [u8]) -> (r: Self)
        requires
            old(store)@.len() >= 12,
        ensures
            r.bytes() == old(store)@,
            r.wf(),
            final(store)@ == final(r.store)@,
    {
        Self { store }
    }

    /// Writes `fld` to the `size` field (bytes 0..4) and gives the view back.
    pub fn size(self, fld: u32) -> (r: Self)
        requires
            self.wf(),
        ensures
            r.bytes() == splice(self.bytes(), 0, spec_u32_to_le_bytes(fld)),
            r.wf(),
            final(r.store)@ == final(self.store)@,
    {
        write_u32(self.store, 0, fld);
        self
    }

    /// Reads the `size` field (bytes 0..4).
    pub fn get_size(&self) -> (r: u32)
        requires
            self.wf(),
        ensures
            r == u32_at(self.bytes(), 0),
    {
        read_u32(self.store, 0)
    }

    /// Writes `fld` to the `size` field (bytes 0..4).
    pub fn set_size(&mut self, fld: u32)
        requires
            old(self).wf(),
        ensures
            final(self).bytes() == splice(old(self).bytes(), 0, spec_u32_to_le_bytes(fld)),
            final(self).wf(),
            final(final(self).store)@ == final(old(self).store)@,
    {
        write_u32(self.store, 0, fld);
    }

    /// Writes `fld` to the `prohibitMultipleInstances` field (bytes 4..8) and gives the view back.
    pub fn prohibitMultipleInstances(self, fld: u32) -> (r: Self)
        requires
            self.wf(),
        ensures
            r.bytes() == splice(self.bytes(), 4, spec_u32_to_le_bytes(fld)),
            r.wf(),
            final(r.store)@ == final(self.store)@,
    {
        write_u32(self.store, 4, fld);
        self
    }

    /// Reads the `prohibitMultipleInstances` field (bytes 4..8).
    pub fn get_prohibitMultipleInstances(&self) -> (r: u32)
        requires
            self.wf(),
        ensures
            r == u32_at(self.bytes(), 4),
    {
        read_u32(self.store, 4)
    }

    /// Writes `fld` to the `prohibitMultipleInstances` field (bytes 4..8).
    pub fn set_prohibitMultipleInstances(&mut self, fld: u32)
        requires
            old(self).wf(),
        ensures
            final(self).bytes() == splice(old(self).bytes(), 4, spec_u32_to_le_bytes(fld)),
            final(self).wf(),
            final(final(self).store)@ == final(old(self).store)@,
    {
        write_u32(self.store, 4, fld);
    }

    /// Writes `fld` to the `engineInstance` field (bytes 8..12) and gives the view back.
    pub fn engineInstance(self, fld: u32) -> (r: Self)
        requires
            self.wf(),
        ensures
            r.bytes() == splice(self.bytes(), 8, spec_u32_to_le_bytes(fld)),
            r.wf(),
            final(r.store)@ == final(self.store)@,
    {
        write_u32(self.store, 8, fld);
        self
    }

    /// Reads the `engineInstance` field (bytes 8..12).
    pub fn get_engineInstance(&self) -> (r: u32)
        requires
            self.wf(),
        ensures
            r == u32_at(self.bytes(), 8),
    {
        read_u32(self.store, 8)
    }

    /// Writes `fld` to the `engineInstance` field (bytes 8..12).
    pub fn set_engineInstance(&mut self, fld: u32)
        requires
            old(self).wf(),
        ensures
            final(self).bytes() == splice(old(self).bytes(), 8, spec_u32_to_le_bytes(fld)),
            final(self).wf(),
            final(final(self).store)@ == final(old(self).store)@,
    {
        write_u32(self.store, 8, fld);
    }

}

/// View of the firmware structure `s_NV_MSENC_ALLOCATION_PARAMETERS` (12 bytes).
pub struct s_NV_MSENC_ALLOCATION_PARAMETERS<'s> {
    /// The buffer from the first byte of the structure to the end.
    pub store: &'s mut [u8],
}

impl<'s> s_NV_MSENC_ALLOCATION_PARAMETERS<'s> {
    /// The bytes seen through this view.
    pub open spec fn bytes(&self) -> Seq<u8> {
        self.store@
    }

    /// The buffer holds at least the whole structure.
    pub open spec fn wf(&self) -> bool {
        self.store@.len() >= 12
    }

    /// Size of the structure in bytes.
    pub fn str_size() -> (n: usize)
        ensures
            n == 12,
    {
        12
    }

    /// Views `store` as this structure, starting at its first byte.
    pub fn new(store: &'s mut [u8]) -> (r: Self)
        requires
            old(store)@.len() >= 12,
        ensures
            r.bytes() == old(store)@,
            r.wf(),
            final(store)@ == final(r.store)@,
    {
        Self { store }
    }

    /// Writes `fld` to the `size` field (bytes 0..4) and gives the view back.
    pub fn size(self, fld: u32) -> (r: Self)
        requires
            self.wf(),
        ensures
            r.bytes() == splice(self.bytes(), 0, spec_u32_to_le_bytes(fld)),
            r.wf(),
            final(r.store)@ == final(self.store)@,
    {
        write_u32(self.store, 0, fld);
        self
    }

    /// Reads the `size` field (bytes 0..4).
    pub fn get_size(&self) -> (r: u32)
        requires
            self.wf(),
        ensures
            r == u32_at(self.bytes(), 0),
    {
        read_u32(self.store, 0)
    }

    /// Writes `fld` to the `size` field (bytes 0..4).
    pub fn set_size(&mut self, fld: u32)
        requires
            old(self).wf(),
        ensures
            final(self).bytes() == splice(old(self).bytes(), 0, spec_u32_to_le_bytes(fld)),
            final(self).wf(),
            final(final(self).store)@ == final(old(self).store)@,
    {
        write_u32(self.store, 0, fld);
    }

    /// Writes `fld` to the `prohibitMultipleInstances` field (bytes 4..8) and gives the view back.
    pub fn prohibitMultipleInstances(self, fld: u32) -> (r: Self)
        requires
            self.wf(),
        ensures
            r.bytes() == splice(self.bytes(), 4, spec_u32_to_le_bytes(fld)),
            r.wf(),
            final(r.store)@ == final(self.store)@,
    {
        write_u32(self.store, 4, fld);
        self
    }

    /// Reads the `prohibitMultipleInstances` field (bytes 4..8).
    pub fn get_prohibitMultipleInstances(&self) -> (r: u32)
        requires
            self.wf(),
        ensures
            r == u32_at(self.bytes(), 4),
    {
        read_u32(self.store, 4)
    }

    /// Writes `fld` to the `prohibitMultipleInstances` field (bytes 4..8).
    pub fn set_prohibitMultipleInstances(&mut self, fld: u32)
        requires
            old(self).wf(),
        ensures
            final(self).bytes() == splice(old(self).bytes(), 4, spec_u32_to_le_bytes(fld)),
            final(self).wf(),
            final(final(self).store)@ == final(old(self).store)@,
    {
        write_u32(self.store, 4, fld);
    }

    /// Writes `fld` to the `engineInstance` field (bytes 8..12) and gives the view back.
    pub fn engineInstance(self, fld: u32) -> (r: Self)
        requires
            self.wf(),
        ensures
            r.bytes() == splice(self.bytes(), 8, spec_u32_to_le_bytes(fld)),
            r.wf(),
            final(r.store)@ == final(self.store)@,
    {
        write_u32(self.store, 8, fld);
        self
    }

    /// Reads the `engineInstance` field (bytes 8..12).
    pub fn get_engineInstance(&self) -> (r: u32)
        requires
            self.wf(),
        ensures
            r == u32_at(self.bytes(), 8),
    {
        read_u32(self.store, 8)
    }

    /// Writes `fld` to the `engineInstance` field (bytes 8..12).
    pub fn set_engineInstance(&mut self, fld: u32)
        requires
            old(self).wf(),
        ensures
            final(self).bytes() == splice(old(self).bytes(), 8, spec_u32_to_le_bytes(fld)),
            final(self).wf(),
            final(final(self).store)@ == final(old(self).store)@,
    {
        write_u32(self.store, 8, fld);
    }

}

/// View of the firmware structure `s_NV_NVJPG_ALLOCATION_PARAMETERS` (12 bytes).
pub struct s_NV_NVJPG_ALLOCATION_PARAMETERS<'s> {
    /// The buffer from the first byte of the structure to the end.
    pub store: &'s mut [u8],
}

impl<'s> s_NV_NVJPG_ALLOCATION_PARAMETERS<'s> {
    /// The bytes seen through this view.
    pub open spec fn bytes(&self) -> Seq<u8> {
        self.store@
    }

    /// The buffer holds at least the whole structure.
    pub open spec fn wf(&self) -> bool {
        self.store@.len() >= 12
    }

    /// Size of the structure in bytes.
    pub fn str_size() -> (n: usize)
        ensures
            n == 12,
    {
        12
    }

    /// Views `store` as this structure, starting at its first byte.
    pub fn new(store: &'s mut [u8]) -> (r: Self)
        requires
            old(store)@.len() >= 12,
        ensures
            r.bytes() == old(store)@,
            r.wf(),
            final(store)@ == final(r.store)@,
    {
        Self { store }
    }

    /// Writes `fld` to the `size` field (bytes 0..4) and gives the view back.
    pub fn size(self, fld: u32) -> (r: Self)
        requires
            self.wf(),
        ensures
            r.bytes() == splice(self.bytes(), 0, spec_u32_to_le_bytes(fld)),
            r.wf(),
            final(r.store)@ == final(self.store)@,
    {
        write_u32(self.store, 0, fld);
        self
    }

    /// Reads the `size` field (bytes 0..4).
    pub fn get_size(&self) -> (r: u32)
        requires
            self.wf(),
        ensures
            r == u32_at(self.bytes(), 0),
    {
        read_u32(self.store, 0)
    }

    /// Writes `fld` to the `size` field (bytes 0..4).
    pub fn set_size(&mut self, fld: u32)
        requires
            old(self).wf(),
        ensures
            final(self).bytes() == splice(old(self).bytes(), 0, spec_u32_to_le_bytes(fld)),
            final(self).wf(),
            final(final(self).store)@ == final(old(self).store)@,
    {
        write_u32(self.store, 0, fld);
    }

    /// Writes `fld` to the `prohibitMultipleInstances` field (bytes 4..8) and gives the view back.
    pub fn prohibitMultipleInstances(self, fld: u32) -> (r: Self)
        requires
            self.wf(),
        ensures
            r.bytes() == splice(self.bytes(), 4, spec_u32_to_le_bytes(fld)),
            r.wf(),
            final(r.store)@ == final(self.store)@,
    {
        write_u32(self.store, 4, fld);
        self
    }

    /// Reads the `prohibitMultipleInstances` field (bytes 4..8).
    pub fn get_prohibitMultipleInstances(&self) -> (r: u32)
        requires
            self.wf(),
        ensures
            r == u32_at(self.bytes(), 4),
    {
        read_u32(self.store, 4)
    }

    /// Writes `fld` to the `prohibitMultipleInstances` field (bytes 4..8).
    pub fn set_prohibitMultipleInstances(&mut self, fld: u32)
        requires
            old(self).wf(),
        ensures
            final(self).bytes() == splice(old(self).bytes(), 4, spec_u32_to_le_bytes(fld)),
            final(self).wf(),
            final(final(self).store)@ == final(old(self).store)@,
    {
        write_u32(self.store, 4, fld);
    }

    /// Writes `fld` to the `engineInstance` field (bytes 8..12) and gives the view back.
    pub fn engineInstance(self, fld: u32) -> (r: Self)
        requires
            self.wf(),
        ensures
            r.bytes() == splice(self.bytes(), 8, spec_u32_to_le_bytes(fld)),
            r.wf(),
            final(r.store)@ == final(self.store)@,
    {
        write_u32(self.store, 8, fld);
        self
    }

    /// Reads the `engineInstance` field (bytes 8..12).
    pub fn get_engineInstance(&self) -> (r: u32)
        requires
            self.wf(),
        ensures
            r == u32_at(self.bytes(), 8),
    {
        read_u32(self.store, 8)
    }

    /// Writes `fld` to the `engineInstance` field (bytes 8..12).
    pub fn set_engineInstance(&mut self, fld: u32)
        requires
            old(self).wf(),
        ensures
            final(self).bytes() == splice(old(self).bytes(), 8, spec_u32_to_le_bytes(fld)),
            final(self).wf(),
            final(final(self).store)@ == final(old(self).store)@,
    {
        write_u32(self.store, 8, fld);
    }

}

/// View of the firmware structure `s_NV_OFA_ALLOCATION_PARAMETERS` (12 bytes).
pub struct s_NV_OFA_ALLOCATION_PARAMETERS<'s> {
    /// The buffer from the first byte of the structure to the end.
    pub store: &'s mut [u8],
}

impl<'s> s_NV_OFA_ALLOCATION_PARAMETERS<'s> {
    /// The bytes seen through this view.
    pub open spec fn bytes(&self) -> Seq<u8> {
        self.store@
    }

    /// The buffer holds at least the whole structure.
    pub open spec fn wf(&self) -> bool {
        self.store@.len() >= 12
    }

    /// Size of the structure in bytes.
    pub fn str_size() -> (n: usize)
        ensures
            n == 12,
    {
        12
    }

    /// Views `store` as this structure, starting at its first byte.
    pub fn new(store: &'s mut [u8]) -> (r: Self)
        requires
            old(store)@.len() >= 12,
        ensures
            r.bytes() == old(store)@,
            r.wf(),
            final(store)@ == final(r.store)@,
    {
        Self { store }
    }

    /// Writes `fld` to the `size` field (bytes 0..4) and gives the view back.
    pub fn size(self, fld: u32) -> (r: Self)
        requires
            self.wf(),
        ensures
            r.bytes() == splice(self.bytes(), 0, spec_u32_to_le_bytes(fld)),
            r.wf(),
            final(r.store)@ == final(self.store)@,
    {
        write_u32(self.store, 0, fld);
        self
    }

    /// Reads the `size` field (bytes 0..4).
    pub fn get_size(&self) -> (r: u32)
        requires
            self.wf(),
        ensures
            r == u32_at(self.bytes(), 0),
    {
        read_u32(self.store, 0)
    }

    /// Writes `fld` to the `size` field (bytes 0..4).
    pub fn set_size(&mut self, fld: u32)
        requires
            old(self).wf(),
        ensures
            final(self).bytes() == splice(old(self).bytes(), 0, spec_u32_to_le_bytes(fld)),
            final(self).wf(),
            final(final(self).store)@ == final(old(self).store)@,
    {
        write_u32(self.store, 0, fld);
    }

    /// Writes `fld` to the `prohibitMultipleInstances` field (bytes 4..8) and gives the view back.
    pub fn prohibitMultipleInstances(self, fld: u32) -> (r: Self)
        requires
            self.wf(),
        ensures
            r.bytes() == splice(self.bytes(), 4, spec_u32_to_le_bytes(fld)),
            r.wf(),
            final(r.store)@ == final(self.store)@,
    {
        write_u32(self.store, 4, fld);
        self
    }

    /// Reads the `prohibitMultipleInstances` field (bytes 4..8).
    pub fn get_prohibitMultipleInstances(&self) -> (r: u32)
        requires
            self.wf(),
        ensures
            r == u32_at(self.bytes(), 4),
    {
        read_u32(self.store, 4)
    }

    /// Writes `fld` to the `prohibitMultipleInstances` field (bytes 4..8).
    pub fn set_prohibitMultipleInstances(&mut self, fld: u32)
        requires
            old(self).wf(),
        ensures
            final(self).bytes() == splice(old(self).bytes(), 4, spec_u32_to_le_bytes(fld)),
            final(self).wf(),
            final(final(self).store)@ == final(old(self).store)@,
    {
        write_u32(self.store, 4, fld);
    }

    /// Writes `fld` to the `engineInstance` field (bytes 8..12) and gives the view back.
    pub fn engineInstance(self, fld: u32) -> (r: Self)
        requires
            self.wf(),
        ensures
            r.bytes() == splice(self.bytes(), 8, spec_u32_to_le_bytes(fld)),
            r.wf(),
            final(r.store)@ == final(self.store)@,
    {
        write_u32(self.store, 8, fld);
        self
    }

    /// Reads the `engineInstance` field (bytes 8..12).
    pub fn get_engineInstance(&self) -> (r: u32)
        requires
            self.wf(),
        ensures
            r == u32_at(self.bytes(), 8),
    {
        read_u32(self.store, 8)
    }

    /// Writes `fld` to the `engineInstance` field (bytes 8..12).
    pub fn set_engineInstance(&mut self, fld: u32)
        requires
            old(self).wf(),
        ensures
            final(self).bytes() == splice(old(self).bytes(), 8, spec_u32_to_le_bytes(fld)),
            final(self).wf(),
            final(final(self).store)@ == final(old(self).store)@,
    {
        write_u32(self.store, 8, fld);
    }

}

/// View of the firmware structure `s_GSP_PCIE_CONFIG_REG` (4 bytes).
pub struct s_GSP_PCIE_CONFIG_REG<'s> {
    /// The buffer from the first byte of the structure to the end.
    pub store: &'s mut [u8],
}

impl<'s> s_GSP_PCIE_CONFIG_REG<'s> {
    /// The bytes seen through this view.
    pub open spec fn bytes(&self) -> Seq<u8> {
        self.store@
    }

    /// The buffer holds at least the whole structure.
    pub open spec fn wf(&self) -> bool {
        self.store@.len() >= 4
    }

    /// Size of the structure in bytes.
    pub fn str_size() -> (n: usize)
        ensures
            n == 4,
    {
        4
    }

    /// Views `store` as this structure, starting at its first byte.
    pub fn new(store: &'s mut [u8]) -> (r: Self)
        requires
            old(store)@.len() >= 4,
        ensures
            r.bytes() == old(store)@,
            r.wf(),
            final(store)@ == final(r.store)@,
    {
        Self { store }
    }

    /// Writes `fld` to the `linkCap` field (bytes 0..4) and gives the view back.
    pub fn linkCap(self, fld: u32) -> (r: Self)
        requires
            self.wf(),
        ensures
            r.bytes() == splice(self.bytes(), 0, spec_u32_to_le_bytes(fld)),
            r.wf(),
            final(r.store)@ == final(self.store)@,
    {
        write_u32(self.store, 0, fld);
        self
    }

    /// Reads the `linkCap` field (bytes 0..4).
    pub fn get_linkCap(&self) -> (r: u32)
        requires
            self.wf(),
        ensures
            r == u32_at(self.bytes(), 0),
    {
        read_u32(self.store, 0)
    }

    /// Writes `fld` to the `linkCap` field (bytes 0..4).
    pub fn set_linkCap(&mut self, fld: u32)
        requires
            old(self).wf(),
        ensures
            final(self).bytes() == splice(old(self).bytes(), 0, spec_u32_to_le_bytes(fld)),
            final(self).wf(),
            final(final(self).store)@ == final(old(self).store)@,
    {
        write_u32(self.store, 0, fld);
    }

}

/// View of the firmware structure `s_FW_WPR_LAYOUT_OFFSET` (16 bytes).
pub struct s_FW_WPR_LAYOUT_OFFSET<'s> {
    /// The buffer from the first byte of the structure to the end.
    pub store: &'s mut [u8],
}

impl<'s> s_FW_WPR_LAYOUT_OFFSET<'s> {
    /// The bytes seen through this view.
    pub open spec fn bytes(&self) -> Seq<u8> {
        self.store@
    }

    /// The buffer holds at least the whole structure.
    pub open spec fn wf(&self) -> bool {
        self.store@.len() >= 16
    }

    /// Size of the structure in bytes.
    pub fn str_size() -> (n: usize)
        ensures
            n == 16,
    {
        16
    }

    /// Views `store` as this structure, starting at its first byte.
    pub fn new(store: &'s mut [u8]) -> (r: Self)
        requires
            old(store)@.len() >= 16,
        ensures
            r.bytes() == old(store)@,
            r.wf(),
            final(store)@ == final(r.store)@,
    {
        Self { store }
    }

    /// Writes `fld` to the `nonWprHeapOffset` field (bytes 0..8) and gives the view back.
    pub fn nonWprHeapOffset(self, fld: u64) -> (r: Self)
        requires
            self.wf(),
        ensures
            r.bytes() == splice(self.bytes(), 0, spec_u64_to_le_bytes(fld)),
            r.wf(),
            final(r.store)@ == final(self.store)@,
    {
        write_u64(self.store, 0, fld);
        self
    }

    /// Reads the `nonWprHeapOffset` field (bytes 0..8).
    pub fn get_nonWprHeapOffset(&self) -> (r: u64)
        requires
            self.wf(),
        ensures
            r == u64_at(self.bytes(), 0),
    {
        read_u64(self.store, 0)
    }

    /// Writes `fld` to the `nonWprHeapOffset` field (bytes 0..8).
    pub fn set_nonWprHeapOffset(&mut self, fld: u64)
        requires
            old(self).wf(),
        ensures
            final(self).bytes() == splice(old(self).bytes(), 0, spec_u64_to_le_bytes(fld)),
            final(self).wf(),
            final(final(self).store)@ == final(old(self).store)@,
    {
        write_u64(self.store, 0, fld);
    }

    /// Writes `fld` to the `frtsOffset` field (bytes 8..16) and gives the view back.
    pub fn frtsOffset(self, fld: u64) -> (r: Self)
        requires
            self.wf(),
        ensures
            r.bytes() == splice(self.bytes(), 8, spec_u64_to_le_bytes(fld)),
            r.wf(),
            final(r.store)@ == final(self.store)@,
    {
        write_u64(self.store, 8, fld);
        self
    }

    /// Reads the `frtsOffset` field (bytes 8..16).
    pub fn get_frtsOffset(&self) -> (r: u64)
        requires
            self.wf(),
        ensures
            r == u64_at(self.bytes(), 8),
    {
        read_u64(self.store, 8)
    }

    /// Writes `fld` to the `frtsOffset` field (bytes 8..16).
    pub fn set_frtsOffset(&mut self, fld: u64)
        requires
            old(self).wf(),
        ensures
            final(self).bytes() == splice(old(self).bytes(), 8, spec_u64_to_le_bytes(fld)),
            final(self).wf(),
            final(final(self).store)@ == final(old(self).store)@,
    {
        write_u64(self.store, 8, fld);
    }

}

/// View of the firmware structure `s_GSP_FMC_BOOT_PARAMS` (80 bytes).
pub struct s_GSP_FMC_BOOT_PARAMS<'s> {
    /// The buffer from the first byte of the structure to the end.
    pub store: &'s mut [u8],
}

impl<'s> s_GSP_FMC_BOOT_PARAMS<'s> {
    /// The bytes seen through this view.
    pub open spec fn bytes(&self) -> Seq<u8> {
        self.store@
    }

    /// The buffer holds at least the whole structure.
    pub open spec fn wf(&self) -> bool {
        self.store@.len() >= 80
    }

    /// Size of the structure in bytes.
    pub fn str_size() -> (n: usize)
        ensures
            n == 80,
    {
        80
    }

    /// Views `store` as this structure, starting at its first byte.
    pub fn new(store: &'s mut [u8]) -> (r: Self)
        requires
            old(store)@.len() >= 80,
        ensures
            r.bytes() == old(store)@,
            r.wf(),
            final(store)@ == final(r.store)@,
    {
        Self { store }
    }

    /// View of the `initParams` substructure at byte 0.
    pub fn new_S_initParams(&mut self) -> (r: s_GSP_FMC_INIT_PARAMS<'_>)
        requires
            old(self).wf(),
        ensures
            r.bytes() == old(self).bytes().subrange(0, old(self).bytes().len() as int),
            r.wf(),
            final(self).bytes() == old(self).bytes().subrange(0, 0) + final(r.store)@,
            final(final(self).store)@ == final(old(self).store)@,
    {
        let (_head, tail) = self.store.split_at_mut(0);
        s_GSP_FMC_INIT_PARAMS { store: tail }
    }

    /// View of the `bootGspRmParams` substructure at byte 8.
    pub fn new_S_bootGspRmParams(&mut self) -> (r: s_GSP_ACR_BOOT_GSP_RM_PARAMS<'_>)
        requires
            old(self).wf(),
        ensures
            r.bytes() == old(self).bytes().subrange(8, old(self).bytes().len() as int),
            r.wf(),
            final(self).bytes() == old(self).bytes().subrange(0, 8) + final(r.store)@,
            final(final(self).store)@ == final(old(self).store)@,
    {
        let (_head, tail) = self.store.split_at_mut(8);
        s_GSP_ACR_BOOT_GSP_RM_PARAMS { store: tail }
    }

    /// View of the `gspRmParams` substructure at byte 40.
    pub fn new_S_gspRmParams(&mut self) -> (r: s_GSP_RM_PARAMS<'_>)
        requires
            old(self).wf(),
        ensures
            r.bytes() == old(self).bytes().subrange(40, old(self).bytes().len() as int),
            r.wf(),
            final(self).bytes() == old(self).bytes().subrange(0, 40) + final(r.store)@,
            final(final(self).store)@ == final(old(self).store)@,
    {
        let (_head, tail) = self.store.split_at_mut(40);
        s_GSP_RM_PARAMS { store: tail }
    }

    /// View of the `gspSpdmParams` substructure at byte 56.
    pub fn new_S_gspSpdmParams(&mut self) -> (r: s_GSP_SPDM_PARAMS<'_>)
        requires
            old(self).wf(),
        ensures
            r.bytes() == old(self).bytes().subrange(56, old(self).bytes().len() as int),
            r.wf(),
            final(self).bytes() == old(self).bytes().subrange(0, 56) + final(r.store)@,
            final(final(self).store)@ == final(old(self).store)@,
    {
        let (_head, tail) = self.store.split_at_mut(56);
        s_GSP_SPDM_PARAMS { store: tail }
    }

}

/// View of the firmware structure `s_GSP_FMC_INIT_PARAMS` (4 bytes).
pub struct s_GSP_FMC_INIT_PARAMS<'s> {
    /// The buffer from the first byte of the structure to the end.
    pub store: &'s mut [u8],
}

impl<'s> s_GSP_FMC_INIT_PARAMS<'s> {
    /// The bytes seen through this view.
    pub open spec fn bytes(&self) -> Seq<u8> {
        self.store@
    }

    /// The buffer holds at least the whole structure.
    pub open spec fn wf(&self) -> bool {
        self.store@.len() >= 4
    }

    /// Size of the structure in bytes.
    pub fn str_size() -> (n: usize)
        ensures
            n == 4,
    {
        4
    }

    /// Views `store` as this structure, starting at its first byte.
    pub fn new(store: &'s mut [u8]) -> (r: Self)
        requires
            old(store)@.len() >= 4,
        ensures
            r.bytes() == old(store)@,
            r.wf(),
            final(store)@ == final(r.store)@,
    {
        Self { store }
    }

    /// Writes `fld` to the `regkeys` field (bytes 0..4) and gives the view back.
    pub fn regkeys(self, fld: u32) -> (r: Self)
        requires
            self.wf(),
        ensures
            r.bytes() == splice(self.bytes(), 0, spec_u32_to_le_bytes(fld)),
            r.wf(),
            final(r.store)@ == final(self.store)@,
    {
        write_u32(self.store, 0, fld);
        self
    }

    /// Reads the `regkeys` field (bytes 0..4).
    pub fn get_regkeys(&self) -> (r: u32)
        requires
            self.wf(),
        ensures
            r == u32_at(self.bytes(), 0),
    {
        read_u32(self.store, 0)
    }

    /// Writes `fld` to the `regkeys` field (bytes 0..4).
    pub fn set_regkeys(&mut self, fld: u32)
        requires
            old(self).wf(),
        ensures
            final(self).bytes() == splice(old(self).bytes(), 0, spec_u32_to_le_bytes(fld)),
            final(self).wf(),
            final(final(self).store)@ == final(old(self).store)@,
    {
        write_u32(self.store, 0, fld);
    }

}

/// View of the firmware structure `s_GSP_ACR_BOOT_GSP_RM_PARAMS` (32 bytes).
pub struct s_GSP_ACR_BOOT_GSP_RM_PARAMS<'s> {
    /// The buffer from the first byte of the structure to the end.
    pub store: &'s mut [u8],
}

impl<'s> s_GSP_ACR_BOOT_GSP_RM_PARAMS<'s> {
    /// The bytes seen through this view.
    pub open spec fn bytes(&self) -> Seq<u8> {
        self.store@
    }

    /// The buffer holds at least the whole structure.
    pub open spec fn wf(&self) -> bool {
        self.store@.len() >= 32
    }

    /// Size of the structure in bytes.
    pub fn str_size() -> (n: usize)
        ensures
            n == 32,
    {
        32
    }

    /// Views `store` as this structure, starting at its first byte.
    pub fn new(store: &'s mut [u8]) -> (r: Self)
        requires
            old(store)@.len() >= 32,
        ensures
            r.bytes() == old(store)@,
            r.wf(),
            final(store)@ == final(r.store)@,
    {
        Self { store }
    }

    /// Writes `fld` to the `target` field (bytes 0..4) and gives the view back.
    pub fn target(self, fld: u32) -> (r: Self)
        requires
            self.wf(),
        ensures
            r.bytes() == splice(self.bytes(), 0, spec_u32_to_le_bytes(fld)),
            r.wf(),
            final(r.store)@ == final(self.store)@,
    {
        write_u32(self.store, 0, fld);
        self
    }

    /// Reads the `target` field (bytes 0..4).
    pub fn get_target(&self) -> (r: u32)
        requires
            self.wf(),
        ensures
            r == u32_at(self.bytes(), 0),
    {
        read_u32(self.store, 0)
    }

    /// Writes `fld` to the `target` field (bytes 0..4).
    pub fn set_target(&mut self, fld: u32)
        requires
            old(self).wf(),
        ensures
            final(self).bytes() == splice(old(self).bytes(), 0, spec_u32_to_le_bytes(fld)),
            final(self).wf(),
            final(final(self).store)@ == final(old(self).store)@,
    {
        write_u32(self.store, 0, fld);
    }

    /// Writes `fld` to the `gspRmDescSize` field (bytes 4..8) and gives the view back.
    pub fn gspRmDescSize(self, fld: u32) -> (r: Self)
        requires
            self.wf(),
        ensures
            r.bytes() == splice(self.bytes(), 4, spec_u32_to_le_bytes(fld)),
            r.wf(),
            final(r.store)@ == final(self.store)@,
    {
        write_u32(self.store, 4, fld);
        self
    }

    /// Reads the `gspRmDescSize` field (bytes 4..8).
    pub fn get_gspRmDescSize(&self) -> (r: u32)
        requires
            self.wf(),
        ensures
            r == u32_at(self.bytes(), 4),
    {
        read_u32(self.store, 4)
    }

    /// Writes `fld` to the `gspRmDescSize` field (bytes 4..8).
    pub fn set_gspRmDescSize(&mut self, fld: u32)
        requires
            old(self).wf(),
        ensures
            final(self).bytes() == splice(old(self).bytes(), 4, spec_u32_to_le_bytes(fld)),
            final(self).wf(),
            final(final(self).store)@ == final(old(self).store)@,
    {
        write_u32(self.store, 4, fld);
    }

    /// Writes `fld` to the `gspRmDescOffset` field (bytes 8..16) and gives the view back.
    pub fn gspRmDescOffset(self, fld: u64) -> (r: Self)
        requires
            self.wf(),
        ensures
            r.bytes() == splice(self.bytes(), 8, spec_u64_to_le_bytes(fld)),
            r.wf(),
            final(r.store)@ == final(self.store)@,
    {
        write_u64(self.store, 8, fld);
        self
    }

    /// Reads the `gspRmDescOffset` field (bytes 8..16).
    pub fn get_gspRmDescOffset(&self) -> (r: u64)
        requires
            self.wf(),
        ensures
            r == u64_at(self.bytes(), 8),
    {
        read_u64(self.store, 8)
    }

    /// Writes `fld` to the `gspRmDescOffset` field (bytes 8..16).
    pub fn set_gspRmDescOffset(&mut self, fld: u64)
        requires
            old(self).wf(),
        ensures
            final(self).bytes() == splice(old(self).bytes(), 8, spec_u64_to_le_bytes(fld)),
            final(self).wf(),
            final(final(self).store)@ == final(old(self).store)@,
    {
        write_u64(self.store, 8, fld);
    }

    /// Writes `fld` to the `wprCarveoutOffset` field (bytes 16..24) and gives the view back.
    pub fn wprCarveoutOffset(self, fld: u64) -> (r: Self)
        requires
            self.wf(),
        ensures
            r.bytes() == splice(self.bytes(), 16, spec_u64_to_le_bytes(fld)),
            r.wf(),
            final(r.store)@ == final(self.store)@,
    {
        write_u64(self.store, 16, fld);
        self
    }

    /// Reads the `wprCarveoutOffset` field (bytes 16..24).
    pub fn get_wprCarveoutOffset(&self) -> (r: u64)
        requires
            self.wf(),
        ensures
            r == u64_at(self.bytes(), 16),
    {
        read_u64(self.store, 16)
    }

    /// Writes `fld` to the `wprCarveoutOffset` field (bytes 16..24).
    pub fn set_wprCarveoutOffset(&mut self, fld: u64)
        requires
            old(self).wf(),
        ensures
            final(self).bytes() == splice(old(self).bytes(), 16, spec_u64_to_le_bytes(fld)),
            final(self).wf(),
            final(final(self).store)@ == final(old(self).store)@,
    {
        write_u64(self.store, 16, fld);
    }

    /// Writes `fld` to the `wprCarveoutSize` field (bytes 24..28) and gives the view back.
    pub fn wprCarveoutSize(self, fld: u32) -> (r: Self)
        requires
            self.wf(),
        ensures
            r.bytes() == splice(self.bytes(), 24, spec_u32_to_le_bytes(fld)),
            r.wf(),
            final(r.store)@ == final(self.store)@,
    {
        write_u32(self.store, 24, fld);
        self
    }

    /// Reads the `wprCarveoutSize` field (bytes 24..28).
    pub fn get_wprCarveoutSize(&self) -> (r: u32)
        requires
            self.wf(),
        ensures
            r == u32_at(self.bytes(), 24),
    {
        read_u32(self.store, 24)
    }

    /// Writes `fld` to the `wprCarveoutSize` field (bytes 24..28).
    pub fn set_wprCarveoutSize(&mut self, fld: u32)
        requires
            old(self).wf(),
        ensures
            final(self).bytes() == splice(old(self).bytes(), 24, spec_u32_to_le_bytes(fld)),
            final(self).wf(),
            final(final(self).store)@ == final(old(self).store)@,
    {
        write_u32(self.store, 24, fld);
    }

    /// Writes `fld` to the `bIsGspRmBoot` field (bytes 28..29) and gives the view back.
    pub fn bIsGspRmBoot(self, fld: u8) -> (r: Self)
        requires
            self.wf(),
        ensures
            r.bytes() == splice(self.bytes(), 28, seq![fld]),
            r.wf(),
            final(r.store)@ == final(self.store)@,
    {
        write_u8(self.store, 28, fld);
        self
    }

    /// Reads the `bIsGspRmBoot` field (bytes 28..29).
    pub fn get_bIsGspRmBoot(&self) -> (r: u8)
        requires
            self.wf(),
        ensures
            r == self.bytes()[28],
    {
        read_u8(self.store, 28)
    }

    /// Writes `fld` to the `bIsGspRmBoot` field (bytes 28..29).
    pub fn set_bIsGspRmBoot(&mut self, fld: u8)
        requires
            old(self).wf(),
        ensures
            final(self).bytes() == splice(old(self).bytes(), 28, seq![fld]),
            final(self).wf(),
            final(final(self).store)@ == final(old(self).store)@,
    {
        write_u8(self.store, 28, fld);
    }

}

/// View of the firmware structure `s_GSP_RM_PARAMS` (16 bytes).
pub struct s_GSP_RM_PARAMS<'s> {
    /// The buffer from the first byte of the structure to the end.
    pub store: &'s mut [u8],
}

impl<'s> s_GSP_RM_PARAMS<'s> {
    /// The bytes seen through this view.
    pub open spec fn bytes(&self) -> Seq<u8> {
        self.store@
    }

    /// The buffer holds at least the whole structure.
    pub open spec fn wf(&self) -> bool {
        self.store@.len() >= 16
    }

    /// Size of the structure in bytes.
    pub fn str_size() -> (n: usize)
        ensures
            n == 16,
    {
        16
    }

    /// Views `store` as this structure, starting at its first byte.
    pub fn new(store: &'s mut [u8]) -> (r: Self)
        requires
            old(store)@.len() >= 16,
        ensures
            r.bytes() == old(store)@,
            r.wf(),
            final(store)@ == final(r.store)@,
    {
        Self { store }
    }

    /// Writes `fld` to the `target` field (bytes 0..4) and gives the view back.
    pub fn target(self, fld: u32) -> (r: Self)
        requires
            self.wf(),
        ensures
            r.bytes() == splice(self.bytes(), 0, spec_u32_to_le_bytes(fld)),
            r.wf(),
            final(r.store)@ == final(self.store)@,
    {
        write_u32(self.store, 0, fld);
        self
    }

    /// Reads the `target` field (bytes 0..4).
    pub fn get_target(&self) -> (r: u32)
        requires
            self.wf(),
        ensures
            r == u32_at(self.bytes(), 0),
    {
        read_u32(self.store, 0)
    }

    /// Writes `fld` to the `target` field (bytes 0..4).
    pub fn set_target(&mut self, fld: u32)
        requires
            old(self).wf(),
        ensures
            final(self).bytes() == splice(old(self).bytes(), 0, spec_u32_to_le_bytes(fld)),
            final(self).wf(),
            final(final(self).store)@ == final(old(self).store)@,
    {
        write_u32(self.store, 0, fld);
    }

    /// Writes `fld` to the `bootArgsOffset` field (bytes 8..16) and gives the view back.
    pub fn bootArgsOffset(self, fld: u64) -> (r: Self)
        requires
            self.wf(),
        ensures
            r.bytes() == splice(self.bytes(), 8, spec_u64_to_le_bytes(fld)),
            r.wf(),
            final(r.store)@ == final(self.store)@,
    {
        write_u64(self.store, 8, fld);
        self
    }

    /// Reads the `bootArgsOffset` field (bytes 8..16).
    pub fn get_bootArgsOffset(&self) -> (r: u64)
        requires
            self.wf(),
        ensures
            r == u64_at(self.bytes(), 8),
    {
        read_u64(self.store, 8)
    }

    /// Writes `fld` to the `bootArgsOffset` field (bytes 8..16).
    pub fn set_bootArgsOffset(&mut self, fld: u64)
        requires
            old(self).wf(),
        ensures
            final(self).bytes() == splice(old(self).bytes(), 8, spec_u64_to_le_bytes(fld)),
            final(self).wf(),
            final(final(self).store)@ == final(old(self).store)@,
    {
        write_u64(self.store, 8, fld);
    }

}

/// View of the firmware structure `s_GSP_SPDM_PARAMS` (24 bytes).
pub struct s_GSP_SPDM_PARAMS<'s> {
    /// The buffer from the first byte of the structure to the end.
    pub store: &'s mut [u8],
}

impl<'s> s_GSP_SPDM_PARAMS<'s> {
    /// The bytes seen through this view.
    pub open spec fn bytes(&self) -> Seq<u8> {
        self.store@
    }

    /// The buffer holds at least the whole structure.
    pub open spec fn wf(&self) -> bool {
        self.store@.len() >= 24
    }

    /// Size of the structure in bytes.
    pub fn str_size() -> (n: usize)
        ensures
            n == 24,
    {
        24
    }

    /// Views `store` as this structure, starting at its first byte.
    pub fn new(store: &'s mut [u8]) -> (r: Self)
        requires
            old(store)@.len() >= 24,
        ensures
            r.bytes() == old(store)@,
            r.wf(),
            final(store)@ == final(r.store)@,
    {
        Self { store }
    }

    /// Writes `fld` to the `target` field (bytes 0..4) and gives the view back.
    pub fn target(self, fld: u32) -> (r: Self)
        requires
            self.wf(),
        ensures
            r.bytes() == splice(self.bytes(), 0, spec_u32_to_le_bytes(fld)),
            r.wf(),
            final(r.store)@ == final(self.store)@,
    {
        write_u32(self.store, 0, fld);
        self
    }

    /// Reads the `target` field (bytes 0..4).
    pub fn get_target(&self) -> (r: u32)
        requires
            self.wf(),
        ensures
            r == u32_at(self.bytes(), 0),
    {
        read_u32(self.store, 0)
    }

    /// Writes `fld` to the `target` field (bytes 0..4).
    pub fn set_target(&mut self, fld: u32)
        requires
            old(self).wf(),
        ensures
            final(self).bytes() == splice(old(self).bytes(), 0, spec_u32_to_le_bytes(fld)),
            final(self).wf(),
            final(final(self).store)@ == final(old(self).store)@,
    {
        write_u32(self.store, 0, fld);
    }

    /// Writes `fld` to the `payloadBufferOffset` field (bytes 8..16) and gives the view back.
    pub fn payloadBufferOffset(self, fld: u64) -> (r: Self)
        requires
            self.wf(),
        ensures
            r.bytes() == splice(self.bytes(), 8, spec_u64_to_le_bytes(fld)),
            r.wf(),
            final(r.store)@ == final(self.store)@,
    {
        write_u64(self.store, 8, fld);
        self
    }

    /// Reads the `payloadBufferOffset` field (bytes 8..16).
    pub fn get_payloadBufferOffset(&self) -> (r: u64)
        requires
            self.wf(),
        ensures
            r == u64_at(self.bytes(), 8),
    {
        read_u64(self.store, 8)
    }

    /// Writes `fld` to the `payloadBufferOffset` field (bytes 8..16).
    pub fn set_payloadBufferOffset(&mut self, fld: u64)
        requires
            old(self).wf(),
        ensures
            final(self).bytes() == splice(old(self).bytes(), 8, spec_u64_to_le_bytes(fld)),
            final(self).wf(),
            final(final(self).store)@ == final(old(self).store)@,
    {
        write_u64(self.store, 8, fld);
    }

    /// Writes `fld` to the `payloadBufferSize` field (bytes 16..20) and gives the view back.
    pub fn payloadBufferSize(self, fld: u32) -> (r: Self)
        requires
            self.wf(),
        ensures
            r.bytes() == splice(self.bytes(), 16, spec_u32_to_le_bytes(fld)),
            r.wf(),
            final(r.store)@ == final(self.store)@,
    {
        write_u32(self.store, 16, fld);
        self
    }

    /// Reads the `payloadBufferSize` field (bytes 16..20).
    pub fn get_payloadBufferSize(&self) -> (r: u32)
        requires
            self.wf(),
        ensures
            r == u32_at(self.bytes(), 16),
    {
        read_u32(self.store, 16)
    }

    /// Writes `fld` to the `payloadBufferSize` field (bytes 16..20).
    pub fn set_payloadBufferSize(&mut self, fld: u32)
        requires
            old(self).wf(),
        ensures
            final(self).bytes() == splice(old(self).bytes(), 16, spec_u32_to_le_bytes(fld)),
            final(self).wf(),
            final(final(self).store)@ == final(old(self).store)@,
    {
        write_u32(self.store, 16, fld);
    }

}

/// View of the firmware structure `s_NV0073_CTRL_CMD_DP_SET_MANUAL_DISPLAYPORT_PARAMS` (4 bytes).
pub struct s_NV0073_CTRL_CMD_DP_SET_MANUAL_DISPLAYPORT_PARAMS<'s> {
    /// The buffer from the first byte of the structure to the end.
    pub store: &'s mut [u8],
}

impl<'s> s_NV0073_CTRL_CMD_DP_SET_MANUAL_DISPLAYPORT_PARAMS<'s> {
    /// The bytes seen through this view.
    pub open spec fn bytes(&self) -> Seq<u8> {
        self.store@
    }

    /// The buffer holds at least the whole structure.
    pub open spec fn wf(&self) -> bool {
        self.store@.len() >= 4
    }

    /// Size of the structure in bytes.
    pub fn str_size() -> (n: usize)
        ensures
            n == 4,
    {
        4
    }

    /// Views `store` as this structure, starting at its first byte.
    pub fn new(store: &'s mut [u8]) -> (r: Self)
        requires
            old(store)@.len() >= 4,
        ensures
            r.bytes() == old(store)@,
            r.wf(),
            final(store)@ == final(r.store)@,
    {
        Self { store }
    }

    /// Writes `fld` to the `subDeviceInstance` field (bytes 0..4) and gives the view back.
    pub fn subDeviceInstance(self, fld: u32) -> (r: Self)
        requires
            self.wf(),
        ensures
            r.bytes() == splice(self.bytes(), 0, spec_u32_to_le_bytes(fld)),
            r.wf(),
            final(r.store)@ == final(self.store)@,
    {
        write_u32(self.store, 0, fld);
        self
    }

    /// Reads the `subDeviceInstance` field (bytes 0..4).
    pub fn get_subDeviceInstance(&self) -> (r: u32)
        requires
            self.wf(),
        ensures
            r == u32_at(self.bytes(), 0),
    {
        read_u32(self.store, 0)
    }

    /// Writes `fld` to the `subDeviceInstance` field (bytes 0..4).
    pub fn set_subDeviceInstance(&mut self, fld: u32)
        requires
            old(self).wf(),
        ensures
            final(self).bytes() == splice(old(self).bytes(), 0, spec_u32_to_le_bytes(fld)),
            final(self).wf(),
            final(final(self).store)@ == final(old(self).store)@,
    {
        write_u32(self.store, 0, fld);
    }

}

/// View of the firmware structure `s_NV0073_CTRL_CMD_DP_GET_CAPS_PARAMS` (64 bytes).
pub struct s_NV0073_CTRL_CMD_DP_GET_CAPS_PARAMS<'s> {
    /// The buffer from the first byte of the structure to the end.
    pub store: &'s mut [u8],
}

impl<'s> s_NV0073_CTRL_CMD_DP_GET_CAPS_PARAMS<'s> {
    /// The bytes seen through this view.
    pub open spec fn bytes(&self) -> Seq<u8> {
        self.store@
    }

    /// The buffer holds at least the whole structure.
    pub open spec fn wf(&self) -> bool {
        self.store@.len() >= 64
    }

    /// Size of the structure in bytes.
    pub fn str_size() -> (n: usize)
        ensures
            n == 64,
    {
        64
    }

    /// Views `store` as this structure, starting at its first byte.
    pub fn new(store: &'s mut [u8]) -> (r: Self)
        requires
            old(store)@.len() >= 64,
        ensures
            r.bytes() == old(store)@,
            r.wf(),
            final(store)@ == final(r.store)@,
    {
        Self { store }
    }

    /// Writes `fld` to the `subDeviceInstance` field (bytes 0..4) and gives the view back.
    pub fn subDeviceInstance(self, fld: u32) -> (r: Self)
        requires
            self.wf(),
        ensures
            r.bytes() == splice(self.bytes(), 0, spec_u32_to_le_bytes(fld)),
            r.wf(),
            final(r.store)@ == final(self.store)@,
    {
        write_u32(self.store, 0, fld);
        self
    }

    /// Reads the `subDeviceInstance` field (bytes 0..4).
    pub fn get_subDeviceInstance(&self) -> (r: u32)
        requires
            self.wf(),
        ensures
            r == u32_at(self.bytes(), 0),
    {
        read_u32(self.store, 0)
    }

    /// Writes `fld` to the `subDeviceInstance` field (bytes 0..4).
    pub fn set_subDeviceInstance(&mut self, fld: u32)
        requires
            old(self).wf(),
        ensures
            final(self).bytes() == splice(old(self).bytes(), 0, spec_u32_to_le_bytes(fld)),
            final(self).wf(),
            final(final(self).store)@ == final(old(self).store)@,
    {
        write_u32(self.store, 0, fld);
    }

    /// Writes `fld` to the `sorIndex` field (bytes 4..8) and gives the view back.
    pub fn sorIndex(self, fld: u32) -> (r: Self)
        requires
            self.wf(),
        ensures
            r.bytes() == splice(self.bytes(), 4, spec_u32_to_le_bytes(fld)),
            r.wf(),
            final(r.store)@ == final(self.store)@,
    {
        write_u32(self.store, 4, fld);
        self
    }

    /// Reads the `sorIndex` field (bytes 4..8).
    pub fn get_sorIndex(&self) -> (r: u32)
        requires
            self.wf(),
        ensures
            r == u32_at(self.bytes(), 4),
    {
        read_u32(self.store, 4)
    }

    /// Writes `fld` to the `sorIndex` field (bytes 4..8).
    pub fn set_sorIndex(&mut self, fld: u32)
        requires
            old(self).wf(),
        ensures
            final(self).bytes() == splice(old(self).bytes(), 4, spec_u32_to_le_bytes(fld)),
            final(self).wf(),
            final(final(self).store)@ == final(old(self).store)@,
    {
        write_u32(self.store, 4, fld);
    }

    /// Writes `fld` to the `maxLinkRate` field (bytes 8..12) and gives the view back.
    pub fn maxLinkRate(self, fld: u32) -> (r: Self)
        requires
            self.wf(),
        ensures
            r.bytes() == splice(self.bytes(), 8, spec_u32_to_le_bytes(fld)),
            r.wf(),
            final(r.store)@ == final(self.store)@,
    {
        write_u32(self.store, 8, fld);
        self
    }

    /// Reads the `maxLinkRate` field (bytes 8..12).
    pub fn get_maxLinkRate(&self) -> (r: u32)
        requires
            self.wf(),
        ensures
            r == u32_at(self.bytes(), 8),
    {
        read_u32(self.store, 8)
    }

    /// Writes `fld` to the `maxLinkRate` field (bytes 8..12).
    pub fn set_maxLinkRate(&mut self, fld: u32)
        requires
            old(self).wf(),
        ensures
            final(self).bytes() == splice(old(self).bytes(), 8, spec_u32_to_le_bytes(fld)),
            final(self).wf(),
            final(final(self).store)@ == final(old(self).store)@,
    {
        write_u32(self.store, 8, fld);
    }

    /// Writes `fld` to the `dpVersionsSupported` field (bytes 12..16) and gives the view back.
    pub fn dpVersionsSupported(self, fld: u32) -> (r: Self)
        requires
            self.wf(),
        ensures
            r.bytes() == splice(self.bytes(), 12, spec_u32_to_le_bytes(fld)),
            r.wf(),
            final(r.store)@ == final(self.store)@,
    {
        write_u32(self.store, 12, fld);
        self
    }

    /// Reads the `dpVersionsSupported` field (bytes 12..16).
    pub fn get_dpVersionsSupported(&self) -> (r: u32)
        requires
            self.wf(),
        ensures
            r == u32_at(self.bytes(), 12),
    {
        read_u32(self.store, 12)
    }

    /// Writes `fld` to the `dpVersionsSupported` field (bytes 12..16).
    pub fn set_dpVersionsSupported(&mut self, fld: u32)
        requires
            old(self).wf(),
        ensures
            final(self).bytes() == splice(old(self).bytes(), 12, spec_u32_to_le_bytes(fld)),
            final(self).wf(),
            final(final(self).store)@ == final(old(self).store)@,
    {
        write_u32(self.store, 12, fld);
    }

    /// Writes `fld` to the `UHBRSupportedByGpu` field (bytes 16..20) and gives the view back.
    pub fn UHBRSupportedByGpu(self, fld: u32) -> (r: Self)
        requires
            self.wf(),
        ensures
            r.bytes() == splice(self.bytes(), 16, spec_u32_to_le_bytes(fld)),
            r.wf(),
            final(r.store)@ == final(self.store)@,
    {
        write_u32(self.store, 16, fld);
        self
    }

    /// Reads the `UHBRSupportedByGpu` field (bytes 16..20).
    pub fn get_UHBRSupportedByGpu(&self) -> (r: u32)
        requires
            self.wf(),
        ensures
            r == u32_at(self.bytes(), 16),
    {
        read_u32(self.store, 16)
    }

    /// Writes `fld` to the `UHBRSupportedByGpu` field (bytes 16..20).
    pub fn set_UHBRSupportedByGpu(&mut self, fld: u32)
        requires
            old(self).wf(),
        ensures
            final(self).bytes() == splice(old(self).bytes(), 16, spec_u32_to_le_bytes(fld)),
            final(self).wf(),
            final(final(self).store)@ == final(old(self).store)@,
    {
        write_u32(self.store, 16, fld);
    }

    /// Writes `fld` to the `minPClkForCompressed` field (bytes 20..24) and gives the view back.
    pub fn minPClkForCompressed(self, fld: u32) -> (r: Self)
        requires
            self.wf(),
        ensures
            r.bytes() == splice(self.bytes(), 20, spec_u32_to_le_bytes(fld)),
            r.wf(),
            final(r.store)@ == final(self.store)@,
    {
        write_u32(self.store, 20, fld);
        self
    }

    /// Reads the `minPClkForCompressed` field (bytes 20..24).
    pub fn get_minPClkForCompressed(&self) -> (r: u32)
        requires
            self.wf(),
        ensures
            r == u32_at(self.bytes(), 20),
    {
        read_u32(self.store, 20)
    }

    /// Writes `fld` to the `minPClkForCompressed` field (bytes 20..24).
    pub fn set_minPClkForCompressed(&mut self, fld: u32)
        requires
            old(self).wf(),
        ensures
            final(self).bytes() == splice(old(self).bytes(), 20, spec_u32_to_le_bytes(fld)),
            final(self).wf(),
            final(final(self).store)@ == final(old(self).store)@,
    {
        write_u32(self.store, 20, fld);
    }

    /// Writes `fld` to the `bIsMultistreamSupported` field (bytes 24..25) and gives the view back.
    pub fn bIsMultistreamSupported(self, fld: u8) -> (r: Self)
        requires
            self.wf(),
        ensures
            r.bytes() == splice(self.bytes(), 24, seq![fld]),
            r.wf(),
            final(r.store)@ == final(self.store)@,
    {
        write_u8(self.store, 24, fld);
        self
    }

    /// Reads the `bIsMultistreamSupported` field (bytes 24..25).
    pub fn get_bIsMultistreamSupported(&self) -> (r: u8)
        requires
            self.wf(),
        ensures
            r == self.bytes()[24],
    {
        read_u8(self.store, 24)
    }

    /// Writes `fld` to the `bIsMultistreamSupported` field (bytes 24..25).
    pub fn set_bIsMultistreamSupported(&mut self, fld: u8)
        requires
            old(self).wf(),
        ensures
            final(self).bytes() == splice(old(self).bytes(), 24, seq![fld]),
            final(self).wf(),
            final(final(self).store)@ == final(old(self).store)@,
    {
        write_u8(self.store, 24, fld);
    }

    /// Writes `fld` to the `bIsSCEnabled` field (bytes 25..26) and gives the view back.
    pub fn bIsSCEnabled(self, fld: u8) -> (r: Self)
        requires
            self.wf(),
        ensures
            r.bytes() == splice(self.bytes(), 25, seq![fld]),
            r.wf(),
            final(r.store)@ == final(self.store)@,
    {
        write_u8(self.store, 25, fld);
        self
    }

    /// Reads the `bIsSCEnabled` field (bytes 25..26).
    pub fn get_bIsSCEnabled(&self) -> (r: u8)
        requires
            self.wf(),
        ensures
            r == self.bytes()[25],
    {
        read_u8(self.store, 25)
    }

    /// Writes `fld` to the `bIsSCEnabled` field (bytes 25..26).
    pub fn set_bIsSCEnabled(&mut self, fld: u8)
        requires
            old(self).wf(),
        ensures
            final(self).bytes() == splice(old(self).bytes(), 25, seq![fld]),
            final(self).wf(),
            final(final(self).store)@ == final(old(self).store)@,
    {
        write_u8(self.store, 25, fld);
    }

    /// Writes `fld` to the `bHasIncreasedWatermarkLimits` field (bytes 26..27) and gives the view back.
    pub fn bHasIncreasedWatermarkLimits(self, fld: u8) -> (r: Self)
        requires
            self.wf(),
        ensures
            r.bytes() == splice(self.bytes(), 26, seq![fld]),
            r.wf(),
            final(r.store)@ == final(self.store)@,
    {
        write_u8(self.store, 26, fld);
        self
    }

    /// Reads the `bHasIncreasedWatermarkLimits` field (bytes 26..27).
    pub fn get_bHasIncreasedWatermarkLimits(&self) -> (r: u8)
        requires
            self.wf(),
        ensures
            r == self.bytes()[26],
    {
        read_u8(self.store, 26)
    }

    /// Writes `fld` to the `bHasIncreasedWatermarkLimits` field (bytes 26..27).
    pub fn set_bHasIncreasedWatermarkLimits(&mut self, fld: u8)
        requires
            old(self).wf(),
        ensures
            final(self).bytes() == splice(old(self).bytes(), 26, seq![fld]),
            final(self).wf(),
            final(final(self).store)@ == final(old(self).store)@,
    {
        write_u8(self.store, 26, fld);
    }

    /// Writes `fld` to the `bIsPC2Disabled` field (bytes 27..28) and gives the view back.
    pub fn bIsPC2Disabled(self, fld: u8) -> (r: Self)
        requires
            self.wf(),
        ensures
            r.bytes() == splice(self.bytes(), 27, seq![fld]),
            r.wf(),
            final(r.store)@ == final(self.store)@,
    {
        write_u8(self.store, 27, fld);
        self
    }

    /// Reads the `bIsPC2Disabled` field (bytes 27..28).
    pub fn get_bIsPC2Disabled(&self) -> (r: u8)
        requires
            self.wf(),
        ensures
            r == self.bytes()[27],
    {
        read_u8(self.store, 27)
    }

    /// Writes `fld` to the `bIsPC2Disabled` field (bytes 27..28).
    pub fn set_bIsPC2Disabled(&mut self, fld: u8)
        requires
            old(self).wf(),
        ensures
            final(self).bytes() == splice(old(self).bytes(), 27, seq![fld]),
            final(self).wf(),
            final(final(self).store)@ == final(old(self).store)@,
    {
        write_u8(self.store, 27, fld);
    }

    /// Writes `fld` to the `isSingleHeadMSTSupported` field (bytes 28..29) and gives the view back.
    pub fn isSingleHeadMSTSupported(self, fld: u8) -> (r: Self)
        requires
            self.wf(),
        ensures
            r.bytes() == splice(self.bytes(), 28, seq![fld]),
            r.wf(),
            final(r.store)@ == final(self.store)@,
    {
        write_u8(self.store, 28, fld);
        self
    }

    /// Reads the `isSingleHeadMSTSupported` field (bytes 28..29).
    pub fn get_isSingleHeadMSTSupported(&self) -> (r: u8)
        requires
            self.wf(),
        ensures
            r == self.bytes()[28],
    {
        read_u8(self.store, 28)
    }

    /// Writes `fld` to the `isSingleHeadMSTSupported` field (bytes 28..29).
    pub fn set_isSingleHeadMSTSupported(&mut self, fld: u8)
        requires
            old(self).wf(),
        ensures
            final(self).bytes() == splice(old(self).bytes(), 28, seq![fld]),
            final(self).wf(),
            final(final(self).store)@ == final(old(self).store)@,
    {
        write_u8(self.store, 28, fld);
    }

    /// Writes `fld` to the `bFECSupported` field (bytes 29..30) and gives the view back.
    pub fn bFECSupported(self, fld: u8) -> (r: Self)
        requires
            self.wf(),
        ensures
            r.bytes() == splice(self.bytes(), 29, seq![fld]),
            r.wf(),
            final(r.store)@ == final(self.store)@,
    {
        write_u8(self.store, 29, fld);
        self
    }

    /// Reads the `bFECSupported` field (bytes 29..30).
    pub fn get_bFECSupported(&self) -> (r: u8)
        requires
            self.wf(),
        ensures
            r == self.bytes()[29],
    {
        read_u8(self.store, 29)
    }

    /// Writes `fld` to the `bFECSupported` field (bytes 29..30).
    pub fn set_bFECSupported(&mut self, fld: u8)
        requires
            old(self).wf(),
        ensures
            final(self).bytes() == splice(old(self).bytes(), 29, seq![fld]),
            final(self).wf(),
            final(final(self).store)@ == final(old(self).store)@,
    {
        write_u8(self.store, 29, fld);
    }

    /// Writes `fld` to the `bIsTrainPhyRepeater` field (bytes 30..31) and gives the view back.
    pub fn bIsTrainPhyRepeater(self, fld: u8) -> (r: Self)
        requires
            self.wf(),
        ensures
            r.bytes() == splice(self.bytes(), 30, seq![fld]),
            r.wf(),
            final(r.store)@ == final(self.store)@,
    {
        write_u8(self.store, 30, fld);
        self
    }

    /// Reads the `bIsTrainPhyRepeater` field (bytes 30..31).
    pub fn get_bIsTrainPhyRepeater(&self) -> (r: u8)
        requires
            self.wf(),
        ensures
            r == self.bytes()[30],
    {
        read_u8(self.store, 30)
    }

    /// Writes `fld` to the `bIsTrainPhyRepeater` field (bytes 30..31).
    pub fn set_bIsTrainPhyRepeater(&mut self, fld: u8)
        requires
            old(self).wf(),
        ensures
            final(self).bytes() == splice(old(self).bytes(), 30, seq![fld]),
            final(self).wf(),
            final(final(self).store)@ == final(old(self).store)@,
    {
        write_u8(self.store, 30, fld);
    }

    /// Writes `fld` to the `bOverrideLinkBw` field (bytes 31..32) and gives the view back.
    pub fn bOverrideLinkBw(self, fld: u8) -> (r: Self)
        requires
            self.wf(),
        ensures
            r.bytes() == splice(self.bytes(), 31, seq![fld]),
            r.wf(),
            final(r.store)@ == final(self.store)@,
    {
        write_u8(self.store, 31, fld);
        self
    }

    /// Reads the `bOverrideLinkBw` field (bytes 31..32).
    pub fn get_bOverrideLinkBw(&self) -> (r: u8)
        requires
            self.wf(),
        ensures
            r == self.bytes()[31],
    {
        read_u8(self.store, 31)
    }

    /// Writes `fld` to the `bOverrideLinkBw` field (bytes 31..32).
    pub fn set_bOverrideLinkBw(&mut self, fld: u8)
        requires
            old(self).wf(),
        ensures
            final(self).bytes() == splice(old(self).bytes(), 31, seq![fld]),
            final(self).wf(),
            final(final(self).store)@ == final(old(self).store)@,
    {
        write_u8(self.store, 31, fld);
    }

    /// Writes `fld` to the `bUseRgFlushSequence` field (bytes 32..33) and gives the view back.
    pub fn bUseRgFlushSequence(self, fld: u8) -> (r: Self)
        requires
            self.wf(),
        ensures
            r.bytes() == splice(self.bytes(), 32, seq![fld]),
            r.wf(),
            final(r.store)@ == final(self.store)@,
    {
        write_u8(self.store, 32, fld);
        self
    }

    /// Reads the `bUseRgFlushSequence` field (bytes 32..33).
    pub fn get_bUseRgFlushSequence(&self) -> (r: u8)
        requires
            self.wf(),
        ensures
            r == self.bytes()[32],
    {
        read_u8(self.store, 32)
    }

    /// Writes `fld` to the `bUseRgFlushSequence` field (bytes 32..33).
    pub fn set_bUseRgFlushSequence(&mut self, fld: u8)
        requires
            old(self).wf(),
        ensures
            final(self).bytes() == splice(old(self).bytes(), 32, seq![fld]),
            final(self).wf(),
            final(final(self).store)@ == final(old(self).store)@,
    {
        write_u8(self.store, 32, fld);
    }

    /// Writes `fld` to the `bSupportDPDownSpread` field (bytes 33..34) and gives the view back.
    pub fn bSupportDPDownSpread(self, fld: u8) -> (r: Self)
        requires
            self.wf(),
        ensures
            r.bytes() == splice(self.bytes(), 33, seq![fld]),
            r.wf(),
            final(r.store)@ == final(self.store)@,
    {
        write_u8(self.store, 33, fld);
        self
    }

    /// Reads the `bSupportDPDownSpread` field (bytes 33..34).
    pub fn get_bSupportDPDownSpread(&self) -> (r: u8)
        requires
            self.wf(),
        ensures
            r == self.bytes()[33],
    {
        read_u8(self.store, 33)
    }

    /// Writes `fld` to the `bSupportDPDownSpread` field (bytes 33..34).
    pub fn set_bSupportDPDownSpread(&mut self, fld: u8)
        requires
            old(self).wf(),
        ensures
            final(self).bytes() == splice(old(self).bytes(), 33, seq![fld]),
            final(self).wf(),
            final(final(self).store)@ == final(old(self).store)@,
    {
        write_u8(self.store, 33, fld);
    }

    /// View of the `DSC` substructure at byte 36.
    pub fn new_S_DSC(&mut self) -> (r: s_NV0073_CTRL_CMD_DSC_CAP_PARAMS<'_>)
        requires
            old(self).wf(),
        ensures
            r.bytes() == old(self).bytes().subrange(36, old(self).bytes().len() as int),
            r.wf(),
            final(self).bytes() == old(self).bytes().subrange(0, 36) + final(r.store)@,
            final(final(self).store)@ == final(old(self).store)@,
    {
        let (_head, tail) = self.store.split_at_mut(36);
        s_NV0073_CTRL_CMD_DSC_CAP_PARAMS { store: tail }
    }

}

/// View of the firmware structure `s_NV0073_CTRL_CMD_DSC_CAP_PARAMS` (28 bytes).
pub struct s_NV0073_CTRL_CMD_DSC_CAP_PARAMS<'s> {
    /// The buffer from the first byte of the structure to the end.
    pub store: &'s mut [u8],
}

impl<'s> s_NV0073_CTRL_CMD_DSC_CAP_PARAMS<'s> {
    /// The bytes seen through this view.
    pub open spec fn bytes(&self) -> Seq<u8> {
        self.store@
    }

    /// The buffer holds at least the whole structure.
    pub open spec fn wf(&self) -> bool {
        self.store@.len() >= 28
    }

    /// Size of the structure in bytes.
    pub fn str_size() -> (n: usize)
        ensures
            n == 28,
    {
        28
    }

    /// Views `store` as this structure, starting at its first byte.
    pub fn new(store: &'s mut [u8]) -> (r: Self)
        requires
            old(store)@.len() >= 28,
        ensures
            r.bytes() == old(store)@,
            r.wf(),
            final(store)@ == final(r.store)@,
    {
        Self { store }
    }

    /// Writes `fld` to the `bDscSupported` field (bytes 0..1) and gives the view back.
    pub fn bDscSupported(self, fld: u8) -> (r: Self)
        requires
            self.wf(),
        ensures
            r.bytes() == splice(self.bytes(), 0, seq![fld]),
            r.wf(),
            final(r.store)@ == final(self.store)@,
    {
        write_u8(self.store, 0, fld);
        self
    }

    /// Reads the `bDscSupported` field (bytes 0..1).
    pub fn get_bDscSupported(&self) -> (r: u8)
        requires
            self.wf(),
        ensures
            r == self.bytes()[0],
    {
        read_u8(self.store, 0)
    }

    /// Writes `fld` to the `bDscSupported` field (bytes 0..1).
    pub fn set_bDscSupported(&mut self, fld: u8)
        requires
            old(self).wf(),
        ensures
            final(self).bytes() == splice(old(self).bytes(), 0, seq![fld]),
            final(self).wf(),
            final(final(self).store)@ == final(old(self).store)@,
    {
        write_u8(self.store, 0, fld);
    }

    /// Writes `fld` to the `encoderColorFormatMask` field (bytes 4..8) and gives the view back.
    pub fn encoderColorFormatMask(self, fld: u32) -> (r: Self)
        requires
            self.wf(),
        ensures
            r.bytes() == splice(self.bytes(), 4, spec_u32_to_le_bytes(fld)),
            r.wf(),
            final(r.store)@ == final(self.store)@,
    {
        write_u32(self.store, 4, fld);
        self
    }

    /// Reads the `encoderColorFormatMask` field (bytes 4..8).
    pub fn get_encoderColorFormatMask(&self) -> (r: u32)
        requires
            self.wf(),
        ensures
            r == u32_at(self.bytes(), 4),
    {
        read_u32(self.store, 4)
    }

    /// Writes `fld` to the `encoderColorFormatMask` field (bytes 4..8).
    pub fn set_encoderColorFormatMask(&mut self, fld: u32)
        requires
            old(self).wf(),
        ensures
            final(self).bytes() == splice(old(self).bytes(), 4, spec_u32_to_le_bytes(fld)),
            final(self).wf(),
            final(final(self).store)@ == final(old(self).store)@,
    {
        write_u32(self.store, 4, fld);
    }

    /// Writes `fld` to the `lineBufferSizeKB` field (bytes 8..12) and gives the view back.
    pub fn lineBufferSizeKB(self, fld: u32) -> (r: Self)
        requires
            self.wf(),
        ensures
            r.bytes() == splice(self.bytes(), 8, spec_u32_to_le_bytes(fld)),
            r.wf(),
            final(r.store)@ == final(self.store)@,
    {
        write_u32(self.store, 8, fld);
        self
    }

    /// Reads the `lineBufferSizeKB` field (bytes 8..12).
    pub fn get_lineBufferSizeKB(&self) -> (r: u32)
        requires
            self.wf(),
        ensures
            r == u32_at(self.bytes(), 8),
    {
        read_u32(self.store, 8)
    }

    /// Writes `fld` to the `lineBufferSizeKB` field (bytes 8..12).
    pub fn set_lineBufferSizeKB(&mut self, fld: u32)
        requires
            old(self).wf(),
        ensures
            final(self).bytes() == splice(old(self).bytes(), 8, spec_u32_to_le_bytes(fld)),
            final(self).wf(),
            final(final(self).store)@ == final(old(self).store)@,
    {
        write_u32(self.store, 8, fld);
    }

    /// Writes `fld` to the `rateBufferSizeKB` field (bytes 12..16) and gives the view back.
    pub fn rateBufferSizeKB(self, fld: u32) -> (r: Self)
        requires
            self.wf(),
        ensures
            r.bytes() == splice(self.bytes(), 12, spec_u32_to_le_bytes(fld)),
            r.wf(),
            final(r.store)@ == final(self.store)@,
    {
        write_u32(self.store, 12, fld);
        self
    }

    /// Reads the `rateBufferSizeKB` field (bytes 12..16).
    pub fn get_rateBufferSizeKB(&self) -> (r: u32)
        requires
            self.wf(),
        ensures
            r == u32_at(self.bytes(), 12),
    {
        read_u32(self.store, 12)
    }

    /// Writes `fld` to the `rateBufferSizeKB` field (bytes 12..16).
    pub fn set_rateBufferSizeKB(&mut self, fld: u32)
        requires
            old(self).wf(),
        ensures
            final(self).bytes() == splice(old(self).bytes(), 12, spec_u32_to_le_bytes(fld)),
            final(self).wf(),
            final(final(self).store)@ == final(old(self).store)@,
    {
        write_u32(self.store, 12, fld);
    }

    /// Writes `fld` to the `bitsPerPixelPrecision` field (bytes 16..20) and gives the view back.
    pub fn bitsPerPixelPrecision(self, fld: u32) -> (r: Self)
        requires
            self.wf(),
        ensures
            r.bytes() == splice(self.bytes(), 16, spec_u32_to_le_bytes(fld)),
            r.wf(),
            final(r.store)@ == final(self.store)@,
    {
        write_u32(self.store, 16, fld);
        self
    }

    /// Reads the `bitsPerPixelPrecision` field (bytes 16..20).
    pub fn get_bitsPerPixelPrecision(&self) -> (r: u32)
        requires
            self.wf(),
        ensures
            r == u32_at(self.bytes(), 16),
    {
        read_u32(self.store, 16)
    }

    /// Writes `fld` to the `bitsPerPixelPrecision` field (bytes 16..20).
    pub fn set_bitsPerPixelPrecision(&mut self, fld: u32)
        requires
            old(self).wf(),
        ensures
            final(self).bytes() == splice(old(self).bytes(), 16, spec_u32_to_le_bytes(fld)),
            final(self).wf(),
            final(final(self).store)@ == final(old(self).store)@,
    {
        write_u32(self.store, 16, fld);
    }

    /// Writes `fld` to the `maxNumHztSlices` field (bytes 20..24) and gives the view back.
    pub fn maxNumHztSlices(self, fld: u32) -> (r: Self)
        requires
            self.wf(),
        ensures
            r.bytes() == splice(self.bytes(), 20, spec_u32_to_le_bytes(fld)),
            r.wf(),
            final(r.store)@ == final(self.store)@,
    {
        write_u32(self.store, 20, fld);
        self
    }

    /// Reads the `maxNumHztSlices` field (bytes 20..24).
    pub fn get_maxNumHztSlices(&self) -> (r: u32)
        requires
            self.wf(),
        ensures
            r == u32_at(self.bytes(), 20),
    {
        read_u32(self.store, 20)
    }

    /// Writes `fld` to the `maxNumHztSlices` field (bytes 20..24).
    pub fn set_maxNumHztSlices(&mut self, fld: u32)
        requires
            old(self).wf(),
        ensures
            final(self).bytes() == splice(old(self).bytes(), 20, spec_u32_to_le_bytes(fld)),
            final(self).wf(),
            final(final(self).store)@ == final(old(self).store)@,
    {
        write_u32(self.store, 20, fld);
    }

    /// Writes `fld` to the `lineBufferBitDepth` field (bytes 24..28) and gives the view back.
    pub fn lineBufferBitDepth(self, fld: u32) -> (r: Self)
        requires
            self.wf(),
        ensures
            r.bytes() == splice(self.bytes(), 24, spec_u32_to_le_bytes(fld)),
            r.wf(),
            final(r.store)@ == final(self.store)@,
    {
        write_u32(self.store, 24, fld);
        self
    }

    /// Reads the `lineBufferBitDepth` field (bytes 24..28).
    pub fn get_lineBufferBitDepth(&self) -> (r: u32)
        requires
            self.wf(),
        ensures
            r == u32_at(self.bytes(), 24),
    {
        read_u32(self.store, 24)
    }

    /// Writes `fld` to the `lineBufferBitDepth` field (bytes 24..28).
    pub fn set_lineBufferBitDepth(&mut self, fld: u32)
        requires
            old(self).wf(),
        ensures
            final(self).bytes() == splice(old(self).bytes(), 24, spec_u32_to_le_bytes(fld)),
            final(self).wf(),
            final(final(self).store)@ == final(old(self).store)@,
    {
        write_u32(self.store, 24, fld);
    }

}

/// View of the firmware structure `s_NV0073_CTRL_DFP_ASSIGN_SOR_PARAMS` (80 bytes).
pub struct s_NV0073_CTRL_DFP_ASSIGN_SOR_PARAMS<'s> {
    /// The buffer from the first byte of the structure to the end.
    pub store: &'s mut [u8],
}

impl<'s> s_NV0073_CTRL_DFP_ASSIGN_SOR_PARAMS<'s> {
    /// The bytes seen through this view.
    pub open spec fn bytes(&self) -> Seq<u8> {
        self.store@
    }

    /// The buffer holds at least the whole structure.
    pub open spec fn wf(&self) -> bool {
        self.store@.len() >= 80
    }

    /// Size of the structure in bytes.
    pub fn str_size() -> (n: usize)
        ensures
            n == 80,
    {
        80
    }

    /// Views `store` as this structure, starting at its first byte.
    pub fn new(store: &'s mut [u8]) -> (r: Self)
        requires
            old(store)@.len() >= 80,
        ensures
            r.bytes() == old(store)@,
            r.wf(),
            final(store)@ == final(r.store)@,
    {
        Self { store }
    }

    /// Writes `fld` to the `subDeviceInstance` field (bytes 0..4) and gives the view back.
    pub fn subDeviceInstance(self, fld: u32) -> (r: Self)
        requires
            self.wf(),
        ensures
            r.bytes() == splice(self.bytes(), 0, spec_u32_to_le_bytes(fld)),
            r.wf(),
            final(r.store)@ == final(self.store)@,
    {
        write_u32(self.store, 0, fld);
        self
    }

    /// Reads the `subDeviceInstance` field (bytes 0..4).
    pub fn get_subDeviceInstance(&self) -> (r: u32)
        requires
            self.wf(),
        ensures
            r == u32_at(self.bytes(), 0),
    {
        read_u32(self.store, 0)
    }

    /// Writes `fld` to the `subDeviceInstance` field (bytes 0..4).
    pub fn set_subDeviceInstance(&mut self, fld: u32)
        requires
            old(self).wf(),
        ensures
            final(self).bytes() == splice(old(self).bytes(), 0, spec_u32_to_le_bytes(fld)),
            final(self).wf(),
            final(final(self).store)@ == final(old(self).store)@,
    {
        write_u32(self.store, 0, fld);
    }

    /// Writes `fld` to the `displayId` field (bytes 4..8) and gives the view back.
    pub fn displayId(self, fld: u32) -> (r: Self)
        requires
            self.wf(),
        ensures
            r.bytes() == splice(self.bytes(), 4, spec_u32_to_le_bytes(fld)),
            r.wf(),
            final(r.store)@ == final(self.store)@,
    {
        write_u32(self.store, 4, fld);
        self
    }

    /// Reads the `displayId` field (bytes 4..8).
    pub fn get_displayId(&self) -> (r: u32)
        requires
            self.wf(),
        ensures
            r == u32_at(self.bytes(), 4),
    {
        read_u32(self.store, 4)
    }

    /// Writes `fld` to the `displayId` field (bytes 4..8).
    pub fn set_displayId(&mut self, fld: u32)
        requires
            old(self).wf(),
        ensures
            final(self).bytes() == splice(old(self).bytes(), 4, spec_u32_to_le_bytes(fld)),
            final(self).wf(),
            final(final(self).store)@ == final(old(self).store)@,
    {
        write_u32(self.store, 4, fld);
    }

    /// Writes `fld` to the `sorExcludeMask` field (bytes 8..9) and gives the view back.
    pub fn sorExcludeMask(self, fld: u8) -> (r: Self)
        requires
            self.wf(),
        ensures
            r.bytes() == splice(self.bytes(), 8, seq![fld]),
            r.wf(),
            final(r.store)@ == final(self.store)@,
    {
        write_u8(self.store, 8, fld);
        self
    }

    /// Reads the `sorExcludeMask` field (bytes 8..9).
    pub fn get_sorExcludeMask(&self) -> (r: u8)
        requires
            self.wf(),
        ensures
            r == self.bytes()[8],
    {
        read_u8(self.store, 8)
    }

    /// Writes `fld` to the `sorExcludeMask` field (bytes 8..9).
    pub fn set_sorExcludeMask(&mut self, fld: u8)
        requires
            old(self).wf(),
        ensures
            final(self).bytes() == splice(old(self).bytes(), 8, seq![fld]),
            final(self).wf(),
            final(final(self).store)@ == final(old(self).store)@,
    {
        write_u8(self.store, 8, fld);
    }

    /// Writes `fld` to the `slaveDisplayId` field (bytes 12..16) and gives the view back.
    pub fn slaveDisplayId(self, fld: u32) -> (r: Self)
        requires
            self.wf(),
        ensures
            r.bytes() == splice(self.bytes(), 12, spec_u32_to_le_bytes(fld)),
            r.wf(),
            final(r.store)@ == final(self.store)@,
    {
        write_u32(self.store, 12, fld);
        self
    }

    /// Reads the `slaveDisplayId` field (bytes 12..16).
    pub fn get_slaveDisplayId(&self) -> (r: u32)
        requires
            self.wf(),
        ensures
            r == u32_at(self.bytes(), 12),
    {
        read_u32(self.store, 12)
    }

    /// Writes `fld` to the `slaveDisplayId` field (bytes 12..16).
    pub fn set_slaveDisplayId(&mut self, fld: u32)
        requires
            old(self).wf(),
        ensures
            final(self).bytes() == splice(old(self).bytes(), 12, spec_u32_to_le_bytes(fld)),
            final(self).wf(),
            final(final(self).store)@ == final(old(self).store)@,
    {
        write_u32(self.store, 12, fld);
    }

    /// Writes `fld` to the `forceSublinkConfig` field (bytes 16..20) and gives the view back.
    pub fn forceSublinkConfig(self, fld: u32) -> (r: Self)
        requires
            self.wf(),
        ensures
            r.bytes() == splice(self.bytes(), 16, spec_u32_to_le_bytes(fld)),
            r.wf(),
            final(r.store)@ == final(self.store)@,
    {
        write_u32(self.store, 16, fld);
        self
    }

    /// Reads the `forceSublinkConfig` field (bytes 16..20).
    pub fn get_forceSublinkConfig(&self) -> (r: u32)
        requires
            self.wf(),
        ensures
            r == u32_at(self.bytes(), 16),
    {
        read_u32(self.store, 16)
    }

    /// Writes `fld` to the `forceSublinkConfig` field (bytes 16..20).
    pub fn set_forceSublinkConfig(&mut self, fld: u32)
        requires
            old(self).wf(),
        ensures
            final(self).bytes() == splice(old(self).bytes(), 16, spec_u32_to_le_bytes(fld)),
            final(self).wf(),
            final(final(self).store)@ == final(old(self).store)@,
    {
        write_u32(self.store, 16, fld);
    }

    /// Writes `fld` to the `bIs2Head1Or` field (bytes 20..21) and gives the view back.
    pub fn bIs2Head1Or(self, fld: u8) -> (r: Self)
        requires
            self.wf(),
        ensures
            r.bytes() == splice(self.bytes(), 20, seq![fld]),
            r.wf(),
            final(r.store)@ == final(self.store)@,
    {
        write_u8(self.store, 20, fld);
        self
    }

    /// Reads the `bIs2Head1Or` field (bytes 20..21).
    pub fn get_bIs2Head1Or(&self) -> (r: u8)
        requires
            self.wf(),
        ensures
            r == self.bytes()[20],
    {
        read_u8(self.store, 20)
    }

    /// Writes `fld` to the `bIs2Head1Or` field (bytes 20..21).
    pub fn set_bIs2Head1Or(&mut self, fld: u8)
        requires
            old(self).wf(),
        ensures
            final(self).bytes() == splice(old(self).bytes(), 20, seq![fld]),
            final(self).wf(),
            final(final(self).store)@ == final(old(self).store)@,
    {
        write_u8(self.store, 20, fld);
    }

    /// Writes `fld` to the `sorAssignList` field (bytes 24..40) and gives the view back.
    pub fn sorAssignList(self, fld: [u32; 4]) -> (r: Self)
        requires
            self.wf(),
        ensures
            r.bytes() == splice(self.bytes(), 24, u32s_to_le(fld@)),
            r.wf(),
            final(r.store)@ == final(self.store)@,
    {
        write_u32s(self.store, 24, &fld);
        self
    }

    /// Writes `fld` to the `sorAssignList` field (bytes 24..40).
    pub fn set_sorAssignList(&mut self, fld: [u32; 4])
        requires
            old(self).wf(),
        ensures
            final(self).bytes() == splice(old(self).bytes(), 24, u32s_to_le(fld@)),
            final(self).wf(),
            final(final(self).store)@ == final(old(self).store)@,
    {
        write_u32s(self.store, 24, &fld);
    }

    /// Reads the `sorAssignList` array (bytes 24..40).
    pub fn get_sorAssignList(&mut self) -> (r: [u32; 4])
        requires
            old(self).wf(),
        ensures
            r@ == u32s_at(old(self).bytes(), 24, 4),
            final(self).bytes() == old(self).bytes(),
            final(final(self).store)@ == final(old(self).store)@,
    {
        read_u32s(self.store, 24)
    }

    /// View of entry `idx` of the `sorAssignListWithTag` table, whose entries are 8 bytes apart
    /// from byte 40 on.
    pub fn new_S_sorAssignListWithTag(&mut self, idx: isize) -> (r: s_NV0073_CTRL_DFP_ASSIGN_SOR_INFO<'_>)
        requires
            old(self).wf(),
            0 <= idx,
            idx * 8 + 40 + 8 <= old(self).bytes().len(),
        ensures
            r.bytes() == old(self).bytes().subrange(idx * 8 + 40, old(self).bytes().len() as int),
            r.wf(),
            final(self).bytes() == old(self).bytes().subrange(0, idx * 8 + 40) + final(r.store)@,
            final(final(self).store)@ == final(old(self).store)@,
    {
        proof {
            assert(self.store@.len() == self.store.len());
        }
        let off = idx as usize * 8 + 40;
        let (_head, tail) = self.store.split_at_mut(off);
        s_NV0073_CTRL_DFP_ASSIGN_SOR_INFO { store: tail }
    }

    /// Writes `fld` to the `reservedSorMask` field (bytes 72..73) and gives the view back.
    pub fn reservedSorMask(self, fld: u8) -> (r: Self)
        requires
            self.wf(),
        ensures
            r.bytes() == splice(self.bytes(), 72, seq![fld]),
            r.wf(),
            final(r.store)@ == final(self.store)@,
    {
        write_u8(self.store, 72, fld);
        self
    }

    /// Reads the `reservedSorMask` field (bytes 72..73).
    pub fn get_reservedSorMask(&self) -> (r: u8)
        requires
            self.wf(),
        ensures
            r == self.bytes()[72],
    {
        read_u8(self.store, 72)
    }

    /// Writes `fld` to the `reservedSorMask` field (bytes 72..73).
    pub fn set_reservedSorMask(&mut self, fld: u8)
        requires
            old(self).wf(),
        ensures
            final(self).bytes() == splice(old(self).bytes(), 72, seq![fld]),
            final(self).wf(),
            final(final(self).store)@ == final(old(self).store)@,
    {
        write_u8(self.store, 72, fld);
    }

    /// Writes `fld` to the `flags` field (bytes 76..80) and gives the view back.
    pub fn flags(self, fld: u32) -> (r: Self)
        requires
            self.wf(),
        ensures
            r.bytes() == splice(self.bytes(), 76, spec_u32_to_le_bytes(fld)),
            r.wf(),
            final(r.store)@ == final(self.store)@,
    {
        write_u32(self.store, 76, fld);
        self
    }

    /// Reads the `flags` field (bytes 76..80).
    pub fn get_flags(&self) -> (r: u32)
        requires
            self.wf(),
        ensures
            r == u32_at(self.bytes(), 76),
    {
        read_u32(self.store, 76)
    }

    /// Writes `fld` to the `flags` field (bytes 76..80).
    pub fn set_flags(&mut self, fld: u32)
        requires
            old(self).wf(),
        ensures
            final(self).bytes() == splice(old(self).bytes(), 76, spec_u32_to_le_bytes(fld)),
            final(self).wf(),
            final(final(self).store)@ == final(old(self).store)@,
    {
        write_u32(self.store, 76, fld);
    }

}

/// View of the firmware structure `s_NV0073_CTRL_DFP_ASSIGN_SOR_INFO` (8 bytes).
pub struct s_NV0073_CTRL_DFP_ASSIGN_SOR_INFO<'s> {
    /// The buffer from the first byte of the structure to the end.
    pub store: &'s mut [u8],
}

impl<'s> s_NV0073_CTRL_DFP_ASSIGN_SOR_INFO<'s> {
    /// The bytes seen through this view.
    pub open spec fn bytes(&self) -> Seq<u8> {
        self.store@
    }

    /// The buffer holds at least the whole structure.
    pub open spec fn wf(&self) -> bool {
        self.store@.len() >= 8
    }

    /// Size of the structure in bytes.
    pub fn str_size() -> (n: usize)
        ensures
            n == 8,
    {
        8
    }

    /// Views `store` as this structure, starting at its first byte.
    pub fn new(store: &'s mut [u8]) -> (r: Self)
        requires
            old(store)@.len() >= 8,
        ensures
            r.bytes() == old(store)@,
            r.wf(),
            final(store)@ == final(r.store)@,
    {
        Self { store }
    }

    /// Writes `fld` to the `displayMask` field (bytes 0..4) and gives the view back.
    pub fn displayMask(self, fld: u32) -> (r: Self)
        requires
            self.wf(),
        ensures
            r.bytes() == splice(self.bytes(), 0, spec_u32_to_le_bytes(fld)),
            r.wf(),
            final(r.store)@ == final(self.store)@,
    {
        write_u32(self.store, 0, fld);
        self
    }

    /// Reads the `displayMask` field (bytes 0..4).
    pub fn get_displayMask(&self) -> (r: u32)
        requires
            self.wf(),
        ensures
            r == u32_at(self.bytes(), 0),
    {
        read_u32(self.store, 0)
    }

    /// Writes `fld` to the `displayMask` field (bytes 0..4).
    pub fn set_displayMask(&mut self, fld: u32)
        requires
            old(self).wf(),
        ensures
            final(self).bytes() == splice(old(self).bytes(), 0, spec_u32_to_le_bytes(fld)),
            final(self).wf(),
            final(final(self).store)@ == final(old(self).store)@,
    {
        write_u32(self.store, 0, fld);
    }

    /// Writes `fld` to the `sorType` field (bytes 4..8) and gives the view back.
    pub fn sorType(self, fld: u32) -> (r: Self)
        requires
            self.wf(),
        ensures
            r.bytes() == splice(self.bytes(), 4, spec_u32_to_le_bytes(fld)),
            r.wf(),
            final(r.store)@ == final(self.store)@,
    {
        write_u32(self.store, 4, fld);
        self
    }

    /// Reads the `sorType` field (bytes 4..8).
    pub fn get_sorType(&self) -> (r: u32)
        requires
            self.wf(),
        ensures
            r == u32_at(self.bytes(), 4),
    {
        read_u32(self.store, 4)
    }

    /// Writes `fld` to the `sorType` field (bytes 4..8).
    pub fn set_sorType(&mut self, fld: u32)
        requires
            old(self).wf(),
        ensures
            final(self).bytes() == splice(old(self).bytes(), 4, spec_u32_to_le_bytes(fld)),
            final(self).wf(),
            final(final(self).store)@ == final(old(self).store)@,
    {
        write_u32(self.store, 4, fld);
    }

}

/// View of the firmware structure `s_NV0073_CTRL_DFP_GET_INFO_PARAMS` (16 bytes).
pub struct s_NV0073_CTRL_DFP_GET_INFO_PARAMS<'s> {
    /// The buffer from the first byte of the structure to the end.
    pub store: &'s mut [u8],
}

impl<'s> s_NV0073_CTRL_DFP_GET_INFO_PARAMS<'s> {
    /// The bytes seen through this view.
    pub open spec fn bytes(&self) -> Seq<u8> {
        self.store@
    }

    /// The buffer holds at least the whole structure.
    pub open spec fn wf(&self) -> bool {
        self.store@.len() >= 16
    }

    /// Size of the structure in bytes.
    pub fn str_size() -> (n: usize)
        ensures
            n == 16,
    {
        16
    }

    /// Views `store` as this structure, starting at its first byte.
    pub fn new(store: &'s mut [u8]) -> (r: Self)
        requires
            old(store)@.len() >= 16,
        ensures
            r.bytes() == old(store)@,
            r.wf(),
            final(store)@ == final(r.store)@,
    {
        Self { store }
    }

    /// Writes `fld` to the `subDeviceInstance` field (bytes 0..4) and gives the view back.
    pub fn subDeviceInstance(self, fld: u32) -> (r: Self)
        requires
            self.wf(),
        ensures
            r.bytes() == splice(self.bytes(), 0, spec_u32_to_le_bytes(fld)),
            r.wf(),
            final(r.store)@ == final(self.store)@,
    {
        write_u32(self.store, 0, fld);
        self
    }

    /// Reads the `subDeviceInstance` field (bytes 0..4).
    pub fn get_subDeviceInstance(&self) -> (r: u32)
        requires
            self.wf(),
        ensures
            r == u32_at(self.bytes(), 0),
    {
        read_u32(self.store, 0)
    }

    /// Writes `fld` to the `subDeviceInstance` field (bytes 0..4).
    pub fn set_subDeviceInstance(&mut self, fld: u32)
        requires
            old(self).wf(),
        ensures
            final(self).bytes() == splice(old(self).bytes(), 0, spec_u32_to_le_bytes(fld)),
            final(self).wf(),
            final(final(self).store)@ == final(old(self).store)@,
    {
        write_u32(self.store, 0, fld);
    }

    /// Writes `fld` to the `displayId` field (bytes 4..8) and gives the view back.
    pub fn displayId(self, fld: u32) -> (r: Self)
        requires
            self.wf(),
        ensures
            r.bytes() == splice(self.bytes(), 4, spec_u32_to_le_bytes(fld)),
            r.wf(),
            final(r.store)@ == final(self.store)@,
    {
        write_u32(self.store, 4, fld);
        self
    }

    /// Reads the `displayId` field (bytes 4..8).
    pub fn get_displayId(&self) -> (r: u32)
        requires
            self.wf(),
        ensures
            r == u32_at(self.bytes(), 4),
    {
        read_u32(self.store, 4)
    }

    /// Writes `fld` to the `displayId` field (bytes 4..8).
    pub fn set_displayId(&mut self, fld: u32)
        requires
            old(self).wf(),
        ensures
            final(self).bytes() == splice(old(self).bytes(), 4, spec_u32_to_le_bytes(fld)),
            final(self).wf(),
            final(final(self).store)@ == final(old(self).store)@,
    {
        write_u32(self.store, 4, fld);
    }

    /// Writes `fld` to the `flags` field (bytes 8..12) and gives the view back.
    pub fn flags(self, fld: u32) -> (r: Self)
        requires
            self.wf(),
        ensures
            r.bytes() == splice(self.bytes(), 8, spec_u32_to_le_bytes(fld)),
            r.wf(),
            final(r.store)@ == final(self.store)@,
    {
        write_u32(self.store, 8, fld);
        self
    }

    /// Reads the `flags` field (bytes 8..12).
    pub fn get_flags(&self) -> (r: u32)
        requires
            self.wf(),
        ensures
            r == u32_at(self.bytes(), 8),
    {
        read_u32(self.store, 8)
    }

    /// Writes `fld` to the `flags` field (bytes 8..12).
    pub fn set_flags(&mut self, fld: u32)
        requires
            old(self).wf(),
        ensures
            final(self).bytes() == splice(old(self).bytes(), 8, spec_u32_to_le_bytes(fld)),
            final(self).wf(),
            final(final(self).store)@ == final(old(self).store)@,
    {
        write_u32(self.store, 8, fld);
    }

    /// Writes `fld` to the `UHBRSupportedByDfp` field (bytes 12..16) and gives the view back.
    pub fn UHBRSupportedByDfp(self, fld: u32) -> (r: Self)
        requires
            self.wf(),
        ensures
            r.bytes() == splice(self.bytes(), 12, spec_u32_to_le_bytes(fld)),
            r.wf(),
            final(r.store)@ == final(self.store)@,
    {
        write_u32(self.store, 12, fld);
        self
    }

    /// Reads the `UHBRSupportedByDfp` field (bytes 12..16).
    pub fn get_UHBRSupportedByDfp(&self) -> (r: u32)
        requires
            self.wf(),
        ensures
            r == u32_at(self.bytes(), 12),
    {
        read_u32(self.store, 12)
    }

    /// Writes `fld` to the `UHBRSupportedByDfp` field (bytes 12..16).
    pub fn set_UHBRSupportedByDfp(&mut self, fld: u32)
        requires
            old(self).wf(),
        ensures
            final(self).bytes() == splice(old(self).bytes(), 12, spec_u32_to_le_bytes(fld)),
            final(self).wf(),
            final(final(self).store)@ == final(old(self).store)@,
    {
        write_u32(self.store, 12, fld);
    }

}

/// View of the firmware structure `s_NV0073_CTRL_DFP_SET_AUDIO_ENABLE_PARAMS` (12 bytes).
pub struct s_NV0073_CTRL_DFP_SET_AUDIO_ENABLE_PARAMS<'s> {
    /// The buffer from the first byte of the structure to the end.
    pub store: &'s mut [u8],
}

impl<'s> s_NV0073_CTRL_DFP_SET_AUDIO_ENABLE_PARAMS<'s> {
    /// The bytes seen through this view.
    pub open spec fn bytes(&self) -> Seq<u8> {
        self.store@
    }

    /// The buffer holds at least the whole structure.
    pub open spec fn wf(&self) -> bool {
        self.store@.len() >= 12
    }

    /// Size of the structure in bytes.
    pub fn str_size() -> (n: usize)
        ensures
            n == 12,
    {
        12
    }

    /// Views `store` as this structure, starting at its first byte.
    pub fn new(store: &'s mut [u8]) -> (r: Self)
        requires
            old(store)@.len() >= 12,
        ensures
            r.bytes() == old(store)@,
            r.wf(),
            final(store)@ == final(r.store)@,
    {
        Self { store }
    }

    /// Writes `fld` to the `subDeviceInstance` field (bytes 0..4) and gives the view back.
    pub fn subDeviceInstance(self, fld: u32) -> (r: Self)
        requires
            self.wf(),
        ensures
            r.bytes() == splice(self.bytes(), 0, spec_u32_to_le_bytes(fld)),
            r.wf(),
            final(r.store)@ == final(self.store)@,
    {
        write_u32(self.store, 0, fld);
        self
    }

    /// Reads the `subDeviceInstance` field (bytes 0..4).
    pub fn get_subDeviceInstance(&self) -> (r: u32)
        requires
            self.wf(),
        ensures
            r == u32_at(self.bytes(), 0),
    {
        read_u32(self.store, 0)
    }

    /// Writes `fld` to the `subDeviceInstance` field (bytes 0..4).
    pub fn set_subDeviceInstance(&mut self, fld: u32)
        requires
            old(self).wf(),
        ensures
            final(self).bytes() == splice(old(self).bytes(), 0, spec_u32_to_le_bytes(fld)),
            final(self).wf(),
            final(final(self).store)@ == final(old(self).store)@,
    {
        write_u32(self.store, 0, fld);
    }

    /// Writes `fld` to the `displayId` field (bytes 4..8) and gives the view back.
    pub fn displayId(self, fld: u32) -> (r: Self)
        requires
            self.wf(),
        ensures
            r.bytes() == splice(self.bytes(), 4, spec_u32_to_le_bytes(fld)),
            r.wf(),
            final(r.store)@ == final(self.store)@,
    {
        write_u32(self.store, 4, fld);
        self
    }

    /// Reads the `displayId` field (bytes 4..8).
    pub fn get_displayId(&self) -> (r: u32)
        requires
            self.wf(),
        ensures
            r == u32_at(self.bytes(), 4),
    {
        read_u32(self.store, 4)
    }

    /// Writes `fld` to the `displayId` field (bytes 4..8).
    pub fn set_displayId(&mut self, fld: u32)
        requires
            old(self).wf(),
        ensures
            final(self).bytes() == splice(old(self).bytes(), 4, spec_u32_to_le_bytes(fld)),
            final(self).wf(),
            final(final(self).store)@ == final(old(self).store)@,
    {
        write_u32(self.store, 4, fld);
    }

    /// Writes `fld` to the `enable` field (bytes 8..9) and gives the view back.
    pub fn enable(self, fld: u8) -> (r: Self)
        requires
            self.wf(),
        ensures
            r.bytes() == splice(self.bytes(), 8, seq![fld]),
            r.wf(),
            final(r.store)@ == final(self.store)@,
    {
        write_u8(self.store, 8, fld);
        self
    }

    /// Reads the `enable` field (bytes 8..9).
    pub fn get_enable(&self) -> (r: u8)
        requires
            self.wf(),
        ensures
            r == self.bytes()[8],
    {
        read_u8(self.store, 8)
    }

    /// Writes `fld` to the `enable` field (bytes 8..9).
    pub fn set_enable(&mut self, fld: u8)
        requires
            old(self).wf(),
        ensures
            final(self).bytes() == splice(old(self).bytes(), 8, seq![fld]),
            final(self).wf(),
            final(final(self).store)@ == final(old(self).store)@,
    {
        write_u8(self.store, 8, fld);
    }

}

/// View of the firmware structure `s_NV0073_CTRL_DP_AUXCH_CTRL_PARAMS` (48 bytes).
pub struct s_NV0073_CTRL_DP_AUXCH_CTRL_PARAMS<'s> {
    /// The buffer from the first byte of the structure to the end.
    pub store: &'s mut [u8],
}

impl<'s> s_NV0073_CTRL_DP_AUXCH_CTRL_PARAMS<'s> {
    /// The bytes seen through this view.
    pub open spec fn bytes(&self) -> Seq<u8> {
        self.store@
    }

    /// The buffer holds at least the whole structure.
    pub open spec fn wf(&self) -> bool {
        self.store@.len() >= 48
    }

    /// Size of the structure in bytes.
    pub fn str_size() -> (n: usize)
        ensures
            n == 48,
    {
        48
    }

    /// Views `store` as this structure, starting at its first byte.
    pub fn new(store: &'s mut [u8]) -> (r: Self)
        requires
            old(store)@.len() >= 48,
        ensures
            r.bytes() == old(store)@,
            r.wf(),
            final(store)@ == final(r.store)@,
    {
        Self { store }
    }

    /// Writes `fld` to the `subDeviceInstance` field (bytes 0..4) and gives the view back.
    pub fn subDeviceInstance(self, fld: u32) -> (r: Self)
        requires
            self.wf(),
        ensures
            r.bytes() == splice(self.bytes(), 0, spec_u32_to_le_bytes(fld)),
            r.wf(),
            final(r.store)@ == final(self.store)@,
    {
        write_u32(self.store, 0, fld);
        self
    }

    /// Reads the `subDeviceInstance` field (bytes 0..4).
    pub fn get_subDeviceInstance(&self) -> (r: u32)
        requires
            self.wf(),
        ensures
            r == u32_at(self.bytes(), 0),
    {
        read_u32(self.store, 0)
    }

    /// Writes `fld` to the `subDeviceInstance` field (bytes 0..4).
    pub fn set_subDeviceInstance(&mut self, fld: u32)
        requires
            old(self).wf(),
        ensures
            final(self).bytes() == splice(old(self).bytes(), 0, spec_u32_to_le_bytes(fld)),
            final(self).wf(),
            final(final(self).store)@ == final(old(self).store)@,
    {
        write_u32(self.store, 0, fld);
    }

    /// Writes `fld` to the `displayId` field (bytes 4..8) and gives the view back.
    pub fn displayId(self, fld: u32) -> (r: Self)
        requires
            self.wf(),
        ensures
            r.bytes() == splice(self.bytes(), 4, spec_u32_to_le_bytes(fld)),
            r.wf(),
            final(r.store)@ == final(self.store)@,
    {
        write_u32(self.store, 4, fld);
        self
    }

    /// Reads the `displayId` field (bytes 4..8).
    pub fn get_displayId(&self) -> (r: u32)
        requires
            self.wf(),
        ensures
            r == u32_at(self.bytes(), 4),
    {
        read_u32(self.store, 4)
    }

    /// Writes `fld` to the `displayId` field (bytes 4..8).
    pub fn set_displayId(&mut self, fld: u32)
        requires
            old(self).wf(),
        ensures
            final(self).bytes() == splice(old(self).bytes(), 4, spec_u32_to_le_bytes(fld)),
            final(self).wf(),
            final(final(self).store)@ == final(old(self).store)@,
    {
        write_u32(self.store, 4, fld);
    }

    /// Writes `fld` to the `bAddrOnly` field (bytes 8..9) and gives the view back.
    pub fn bAddrOnly(self, fld: u8) -> (r: Self)
        requires
            self.wf(),
        ensures
            r.bytes() == splice(self.bytes(), 8, seq![fld]),
            r.wf(),
            final(r.store)@ == final(self.store)@,
    {
        write_u8(self.store, 8, fld);
        self
    }

    /// Reads the `bAddrOnly` field (bytes 8..9).
    pub fn get_bAddrOnly(&self) -> (r: u8)
        requires
            self.wf(),
        ensures
            r == self.bytes()[8],
    {
        read_u8(self.store, 8)
    }

    /// Writes `fld` to the `bAddrOnly` field (bytes 8..9).
    pub fn set_bAddrOnly(&mut self, fld: u8)
        requires
            old(self).wf(),
        ensures
            final(self).bytes() == splice(old(self).bytes(), 8, seq![fld]),
            final(self).wf(),
            final(final(self).store)@ == final(old(self).store)@,
    {
        write_u8(self.store, 8, fld);
    }

    /// Writes `fld` to the `cmd` field (bytes 12..16) and gives the view back.
    pub fn cmd(self, fld: u32) -> (r: Self)
        requires
            self.wf(),
        ensures
            r.bytes() == splice(self.bytes(), 12, spec_u32_to_le_bytes(fld)),
            r.wf(),
            final(r.store)@ == final(self.store)@,
    {
        write_u32(self.store, 12, fld);
        self
    }

    /// Reads the `cmd` field (bytes 12..16).
    pub fn get_cmd(&self) -> (r: u32)
        requires
            self.wf(),
        ensures
            r == u32_at(self.bytes(), 12),
    {
        read_u32(self.store, 12)
    }

    /// Writes `fld` to the `cmd` field (bytes 12..16).
    pub fn set_cmd(&mut self, fld: u32)
        requires
            old(self).wf(),
        ensures
            final(self).bytes() == splice(old(self).bytes(), 12, spec_u32_to_le_bytes(fld)),
            final(self).wf(),
            final(final(self).store)@ == final(old(self).store)@,
    {
        write_u32(self.store, 12, fld);
    }

    /// Writes `fld` to the `addr` field (bytes 16..20) and gives the view back.
    pub fn addr(self, fld: u32) -> (r: Self)
        requires
            self.wf(),
        ensures
            r.bytes() == splice(self.bytes(), 16, spec_u32_to_le_bytes(fld)),
            r.wf(),
            final(r.store)@ == final(self.store)@,
    {
        write_u32(self.store, 16, fld);
        self
    }

    /// Reads the `addr` field (bytes 16..20).
    pub fn get_addr(&self) -> (r: u32)
        requires
            self.wf(),
        ensures
            r == u32_at(self.bytes(), 16),
    {
        read_u32(self.store, 16)
    }

    /// Writes `fld` to the `addr` field (bytes 16..20).
    pub fn set_addr(&mut self, fld: u32)
        requires
            old(self).wf(),
        ensures
            final(self).bytes() == splice(old(self).bytes(), 16, spec_u32_to_le_bytes(fld)),
            final(self).wf(),
            final(final(self).store)@ == final(old(self).store)@,
    {
        write_u32(self.store, 16, fld);
    }

    /// Writes `fld` to the `data` field (bytes 20..36) and gives the view back.
    pub fn data(self, fld: [u8; 16]) -> (r: Self)
        requires
            self.wf(),
        ensures
            r.bytes() == splice(self.bytes(), 20, fld@),
            r.wf(),
            final(r.store)@ == final(self.store)@,
    {
        write_u8s(self.store, 20, &fld);
        self
    }

    /// Writes `fld` to the `data` field (bytes 20..36).
    pub fn set_data(&mut self, fld: [u8; 16])
        requires
            old(self).wf(),
        ensures
            final(self).bytes() == splice(old(self).bytes(), 20, fld@),
            final(self).wf(),
            final(final(self).store)@ == final(old(self).store)@,
    {
        write_u8s(self.store, 20, &fld);
    }

    /// Reads the `data` array (bytes 20..36).
    pub fn get_data(&mut self) -> (r: [u8; 16])
        requires
            old(self).wf(),
        ensures
            r@ == old(self).bytes().subrange(20, 36),
            final(self).bytes() == old(self).bytes(),
            final(final(self).store)@ == final(old(self).store)@,
    {
        read_u8s(self.store, 20)
    }

    /// Writes `fld` to the `size` field (bytes 36..40) and gives the view back.
    pub fn size(self, fld: u32) -> (r: Self)
        requires
            self.wf(),
        ensures
            r.bytes() == splice(self.bytes(), 36, spec_u32_to_le_bytes(fld)),
            r.wf(),
            final(r.store)@ == final(self.store)@,
    {
        write_u32(self.store, 36, fld);
        self
    }

    /// Reads the `size` field (bytes 36..40).
    pub fn get_size(&self) -> (r: u32)
        requires
            self.wf(),
        ensures
            r == u32_at(self.bytes(), 36),
    {
        read_u32(self.store, 36)
    }

    /// Writes `fld` to the `size` field (bytes 36..40).
    pub fn set_size(&mut self, fld: u32)
        requires
            old(self).wf(),
        ensures
            final(self).bytes() == splice(old(self).bytes(), 36, spec_u32_to_le_bytes(fld)),
            final(self).wf(),
            final(final(self).store)@ == final(old(self).store)@,
    {
        write_u32(self.store, 36, fld);
    }

    /// Writes `fld` to the `replyType` field (bytes 40..44) and gives the view back.
    pub fn replyType(self, fld: u32) -> (r: Self)
        requires
            self.wf(),
        ensures
            r.bytes() == splice(self.bytes(), 40, spec_u32_to_le_bytes(fld)),
            r.wf(),
            final(r.store)@ == final(self.store)@,
    {
        write_u32(self.store, 40, fld);
        self
    }

    /// Reads the `replyType` field (bytes 40..44).
    pub fn get_replyType(&self) -> (r: u32)
        requires
            self.wf(),
        ensures
            r == u32_at(self.bytes(), 40),
    {
        read_u32(self.store, 40)
    }

    /// Writes `fld` to the `replyType` field (bytes 40..44).
    pub fn set_replyType(&mut self, fld: u32)
        requires
            old(self).wf(),
        ensures
            final(self).bytes() == splice(old(self).bytes(), 40, spec_u32_to_le_bytes(fld)),
            final(self).wf(),
            final(final(self).store)@ == final(old(self).store)@,
    {
        write_u32(self.store, 40, fld);
    }

    /// Writes `fld` to the `retryTimeMs` field (bytes 44..48) and gives the view back.
    pub fn retryTimeMs(self, fld: u32) -> (r: Self)
        requires
            self.wf(),
        ensures
            r.bytes() == splice(self.bytes(), 44, spec_u32_to_le_bytes(fld)),
            r.wf(),
            final(r.store)@ == final(self.store)@,
    {
        write_u32(self.store, 44, fld);
        self
    }

    /// Reads the `retryTimeMs` field (bytes 44..48).
    pub fn get_retryTimeMs(&self) -> (r: u32)
        requires
            self.wf(),
        ensures
            r == u32_at(self.bytes(), 44),
    {
        read_u32(self.store, 44)
    }

    /// Writes `fld` to the `retryTimeMs` field (bytes 44..48).
    pub fn set_retryTimeMs(&mut self, fld: u32)
        requires
            old(self).wf(),
        ensures
            final(self).bytes() == splice(old(self).bytes(), 44, spec_u32_to_le_bytes(fld)),
            final(self).wf(),
            final(final(self).store)@ == final(old(self).store)@,
    {
        write_u32(self.store, 44, fld);
    }

}

/// View of the firmware structure `s_NV0073_CTRL_DP_SET_AUDIO_MUTESTREAM_PARAMS` (12 bytes).
pub struct s_NV0073_CTRL_DP_SET_AUDIO_MUTESTREAM_PARAMS<'s> {
    /// The buffer from the first byte of the structure to the end.
    pub store: &'s mut [u8],
}

impl<'s> s_NV0073_CTRL_DP_SET_AUDIO_MUTESTREAM_PARAMS<'s> {
    /// The bytes seen through this view.
    pub open spec fn bytes(&self) -> Seq<u8> {
        self.store@
    }

    /// The buffer holds at least the whole structure.
    pub open spec fn wf(&self) -> bool {
        self.store@.len() >= 12
    }

    /// Size of the structure in bytes.
    pub fn str_size() -> (n: usize)
        ensures
            n == 12,
    {
        12
    }

    /// Views `store` as this structure, starting at its first byte.
    pub fn new(store: &'s mut [u8]) -> (r: Self)
        requires
            old(store)@.len() >= 12,
        ensures
            r.bytes() == old(store)@,
            r.wf(),
            final(store)@ == final(r.store)@,
    {
        Self { store }
    }

    /// Writes `fld` to the `subDeviceInstance` field (bytes 0..4) and gives the view back.
    pub fn subDeviceInstance(self, fld: u32) -> (r: Self)
        requires
            self.wf(),
        ensures
            r.bytes() == splice(self.bytes(), 0, spec_u32_to_le_bytes(fld)),
            r.wf(),
            final(r.store)@ == final(self.store)@,
    {
        write_u32(self.store, 0, fld);
        self
    }

    /// Reads the `subDeviceInstance` field (bytes 0..4).
    pub fn get_subDeviceInstance(&self) -> (r: u32)
        requires
            self.wf(),
        ensures
            r == u32_at(self.bytes(), 0),
    {
        read_u32(self.store, 0)
    }

    /// Writes `fld` to the `subDeviceInstance` field (bytes 0..4).
    pub fn set_subDeviceInstance(&mut self, fld: u32)
        requires
            old(self).wf(),
        ensures
            final(self).bytes() == splice(old(self).bytes(), 0, spec_u32_to_le_bytes(fld)),
            final(self).wf(),
            final(final(self).store)@ == final(old(self).store)@,
    {
        write_u32(self.store, 0, fld);
    }

    /// Writes `fld` to the `displayId` field (bytes 4..8) and gives the view back.
    pub fn displayId(self, fld: u32) -> (r: Self)
        requires
            self.wf(),
        ensures
            r.bytes() == splice(self.bytes(), 4, spec_u32_to_le_bytes(fld)),
            r.wf(),
            final(r.store)@ == final(self.store)@,
    {
        write_u32(self.store, 4, fld);
        self
    }

    /// Reads the `displayId` field (bytes 4..8).
    pub fn get_displayId(&self) -> (r: u32)
        requires
            self.wf(),
        ensures
            r == u32_at(self.bytes(), 4),
    {
        read_u32(self.store, 4)
    }

    /// Writes `fld` to the `displayId` field (bytes 4..8).
    pub fn set_displayId(&mut self, fld: u32)
        requires
            old(self).wf(),
        ensures
            final(self).bytes() == splice(old(self).bytes(), 4, spec_u32_to_le_bytes(fld)),
            final(self).wf(),
            final(final(self).store)@ == final(old(self).store)@,
    {
        write_u32(self.store, 4, fld);
    }

    /// Writes `fld` to the `mute` field (bytes 8..12) and gives the view back.
    pub fn mute(self, fld: u32) -> (r: Self)
        requires
            self.wf(),
        ensures
            r.bytes() == splice(self.bytes(), 8, spec_u32_to_le_bytes(fld)),
            r.wf(),
            final(r.store)@ == final(self.store)@,
    {
        write_u32(self.store, 8, fld);
        self
    }

    /// Reads the `mute` field (bytes 8..12).
    pub fn get_mute(&self) -> (r: u32)
        requires
            self.wf(),
        ensures
            r == u32_at(self.bytes(), 8),
    {
        read_u32(self.store, 8)
    }

    /// Writes `fld` to the `mute` field (bytes 8..12).
    pub fn set_mute(&mut self, fld: u32)
        requires
            old(self).wf(),
        ensures
            final(self).bytes() == splice(old(self).bytes(), 8, spec_u32_to_le_bytes(fld)),
            final(self).wf(),
            final(final(self).store)@ == final(old(self).store)@,
    {
        write_u32(self.store, 8, fld);
    }

}

/// View of the firmware structure `s_NV0073_CTRL_SYSTEM_GET_ACTIVE_PARAMS` (16 bytes).
pub struct s_NV0073_CTRL_SYSTEM_GET_ACTIVE_PARAMS<'s> {
    /// The buffer from the first byte of the structure to the end.
    pub store: &'s mut [u8],
}

impl<'s> s_NV0073_CTRL_SYSTEM_GET_ACTIVE_PARAMS<'s> {
    /// The bytes seen through this view.
    pub open spec fn bytes(&self) -> Seq<u8> {
        self.store@
    }

    /// The buffer holds at least the whole structure.
    pub open spec fn wf(&self) -> bool {
        self.store@.len() >= 16
    }

    /// Size of the structure in bytes.
    pub fn str_size() -> (n: usize)
        ensures
            n == 16,
    {
        16
    }

    /// Views `store` as this structure, starting at its first byte.
    pub fn new(store: &'s mut [u8]) -> (r: Self)
        requires
            old(store)@.len() >= 16,
        ensures
            r.bytes() == old(store)@,
            r.wf(),
            final(store)@ == final(r.store)@,
    {
        Self { store }
    }

    /// Writes `fld` to the `subDeviceInstance` field (bytes 0..4) and gives the view back.
    pub fn subDeviceInstance(self, fld: u32) -> (r: Self)
        requires
            self.wf(),
        ensures
            r.bytes() == splice(self.bytes(), 0, spec_u32_to_le_bytes(fld)),
            r.wf(),
            final(r.store)@ == final(self.store)@,
    {
        write_u32(self.store, 0, fld);
        self
    }

    /// Reads the `subDeviceInstance` field (bytes 0..4).
    pub fn get_subDeviceInstance(&self) -> (r: u32)
        requires
            self.wf(),
        ensures
            r == u32_at(self.bytes(), 0),
    {
        read_u32(self.store, 0)
    }

    /// Writes `fld` to the `subDeviceInstance` field (bytes 0..4).
    pub fn set_subDeviceInstance(&mut self, fld: u32)
        requires
            old(self).wf(),
        ensures
            final(self).bytes() == splice(old(self).bytes(), 0, spec_u32_to_le_bytes(fld)),
            final(self).wf(),
            final(final(self).store)@ == final(old(self).store)@,
    {
        write_u32(self.store, 0, fld);
    }

    /// Writes `fld` to the `head` field (bytes 4..8) and gives the view back.
    pub fn head(self, fld: u32) -> (r: Self)
        requires
            self.wf(),
        ensures
            r.bytes() == splice(self.bytes(), 4, spec_u32_to_le_bytes(fld)),
            r.wf(),
            final(r.store)@ == final(self.store)@,
    {
        write_u32(self.store, 4, fld);
        self
    }

    /// Reads the `head` field (bytes 4..8).
    pub fn get_head(&self) -> (r: u32)
        requires
            self.wf(),
        ensures
            r == u32_at(self.bytes(), 4),
    {
        read_u32(self.store, 4)
    }

    /// Writes `fld` to the `head` field (bytes 4..8).
    pub fn set_head(&mut self, fld: u32)
        requires
            old(self).wf(),
        ensures
            final(self).bytes() == splice(old(self).bytes(), 4, spec_u32_to_le_bytes(fld)),
            final(self).wf(),
            final(final(self).store)@ == final(old(self).store)@,
    {
        write_u32(self.store, 4, fld);
    }

    /// Writes `fld` to the `flags` field (bytes 8..12) and gives the view back.
    pub fn flags(self, fld: u32) -> (r: Self)
        requires
            self.wf(),
        ensures
            r.bytes() == splice(self.bytes(), 8, spec_u32_to_le_bytes(fld)),
            r.wf(),
            final(r.store)@ == final(self.store)@,
    {
        write_u32(self.store, 8, fld);
        self
    }

    /// Reads the `flags` field (bytes 8..12).
    pub fn get_flags(&self) -> (r: u32)
        requires
            self.wf(),
        ensures
            r == u32_at(self.bytes(), 8),
    {
        read_u32(self.store, 8)
    }

    /// Writes `fld` to the `flags` field (bytes 8..12).
    pub fn set_flags(&mut self, fld: u32)
        requires
            old(self).wf(),
        ensures
            final(self).bytes() == splice(old(self).bytes(), 8, spec_u32_to_le_bytes(fld)),
            final(self).wf(),
            final(final(self).store)@ == final(old(self).store)@,
    {
        write_u32(self.store, 8, fld);
    }

    /// Writes `fld` to the `displayId` field (bytes 12..16) and gives the view back.
    pub fn displayId(self, fld: u32) -> (r: Self)
        requires
            self.wf(),
        ensures
            r.bytes() == splice(self.bytes(), 12, spec_u32_to_le_bytes(fld)),
            r.wf(),
            final(r.store)@ == final(self.store)@,
    {
        write_u32(self.store, 12, fld);
        self
    }

    /// Reads the `displayId` field (bytes 12..16).
    pub fn get_displayId(&self) -> (r: u32)
        requires
            self.wf(),
        ensures
            r == u32_at(self.bytes(), 12),
    {
        read_u32(self.store, 12)
    }

    /// Writes `fld` to the `displayId` field (bytes 12..16).
    pub fn set_displayId(&mut self, fld: u32)
        requires
            old(self).wf(),
        ensures
            final(self).bytes() == splice(old(self).bytes(), 12, spec_u32_to_le_bytes(fld)),
            final(self).wf(),
            final(final(self).store)@ == final(old(self).store)@,
    {
        write_u32(self.store, 12, fld);
    }

}

/// View of the firmware structure `s_NV0073_CTRL_SYSTEM_GET_NUM_HEADS_PARAMS` (12 bytes).
pub struct s_NV0073_CTRL_SYSTEM_GET_NUM_HEADS_PARAMS<'s> {
    /// The buffer from the first byte of the structure to the end.
    pub store: &'s mut [u8],
}

impl<'s> s_NV0073_CTRL_SYSTEM_GET_NUM_HEADS_PARAMS<'s> {
    /// The bytes seen through this view.
    pub open spec fn bytes(&self) -> Seq<u8> {
        self.store@
    }

    /// The buffer holds at least the whole structure.
    pub open spec fn wf(&self) -> bool {
        self.store@.len() >= 12
    }

    /// Size of the structure in bytes.
    pub fn str_size() -> (n: usize)
        ensures
            n == 12,
    {
        12
    }

    /// Views `store` as this structure, starting at its first byte.
    pub fn new(store: &'s mut [u8]) -> (r: Self)
        requires
            old(store)@.len() >= 12,
        ensures
            r.bytes() == old(store)@,
            r.wf(),
            final(store)@ == final(r.store)@,
    {
        Self { store }
    }

    /// Writes `fld` to the `subDeviceInstance` field (bytes 0..4) and gives the view back.
    pub fn subDeviceInstance(self, fld: u32) -> (r: Self)
        requires
            self.wf(),
        ensures
            r.bytes() == splice(self.bytes(), 0, spec_u32_to_le_bytes(fld)),
            r.wf(),
            final(r.store)@ == final(self.store)@,
    {
        write_u32(self.store, 0, fld);
        self
    }

    /// Reads the `subDeviceInstance` field (bytes 0..4).
    pub fn get_subDeviceInstance(&self) -> (r: u32)
        requires
            self.wf(),
        ensures
            r == u32_at(self.bytes(), 0),
    {
        read_u32(self.store, 0)
    }

    /// Writes `fld` to the `subDeviceInstance` field (bytes 0..4).
    pub fn set_subDeviceInstance(&mut self, fld: u32)
        requires
            old(self).wf(),
        ensures
            final(self).bytes() == splice(old(self).bytes(), 0, spec_u32_to_le_bytes(fld)),
            final(self).wf(),
            final(final(self).store)@ == final(old(self).store)@,
    {
        write_u32(self.store, 0, fld);
    }

    /// Writes `fld` to the `flags` field (bytes 4..8) and gives the view back.
    pub fn flags(self, fld: u32) -> (r: Self)
        requires
            self.wf(),
        ensures
            r.bytes() == splice(self.bytes(), 4, spec_u32_to_le_bytes(fld)),
            r.wf(),
            final(r.store)@ == final(self.store)@,
    {
        write_u32(self.store, 4, fld);
        self
    }

    /// Reads the `flags` field (bytes 4..8).
    pub fn get_flags(&self) -> (r: u32)
        requires
            self.wf(),
        ensures
            r == u32_at(self.bytes(), 4),
    {
        read_u32(self.store, 4)
    }

    /// Writes `fld` to the `flags` field (bytes 4..8).
    pub fn set_flags(&mut self, fld: u32)
        requires
            old(self).wf(),
        ensures
            final(self).bytes() == splice(old(self).bytes(), 4, spec_u32_to_le_bytes(fld)),
            final(self).wf(),
            final(final(self).store)@ == final(old(self).store)@,
    {
        write_u32(self.store, 4, fld);
    }

    /// Writes `fld` to the `numHeads` field (bytes 8..12) and gives the view back.
    pub fn numHeads(self, fld: u32) -> (r: Self)
        requires
            self.wf(),
        ensures
            r.bytes() == splice(self.bytes(), 8, spec_u32_to_le_bytes(fld)),
            r.wf(),
            final(r.store)@ == final(self.store)@,
    {
        write_u32(self.store, 8, fld);
        self
    }

    /// Reads the `numHeads` field (bytes 8..12).
    pub fn get_numHeads(&self) -> (r: u32)
        requires
            self.wf(),
        ensures
            r == u32_at(self.bytes(), 8),
    {
        read_u32(self.store, 8)
    }

    /// Writes `fld` to the `numHeads` field (bytes 8..12).
    pub fn set_numHeads(&mut self, fld: u32)
        requires
            old(self).wf(),
        ensures
            final(self).bytes() == splice(old(self).bytes(), 8, spec_u32_to_le_bytes(fld)),
            final(self).wf(),
            final(final(self).store)@ == final(old(self).store)@,
    {
        write_u32(self.store, 8, fld);
    }

}

/// View of the firmware structure `s_NV0073_CTRL_SYSTEM_GET_SUPPORTED_PARAMS` (12 bytes).
pub struct s_NV0073_CTRL_SYSTEM_GET_SUPPORTED_PARAMS<'s> {
    /// The buffer from the first byte of the structure to the end.
    pub store: &'s mut [u8],
}

impl<'s> s_NV0073_CTRL_SYSTEM_GET_SUPPORTED_PARAMS<'s> {
    /// The bytes seen through this view.
    pub open spec fn bytes(&self) -> Seq<u8> {
        self.store@
    }

    /// The buffer holds at least the whole structure.
    pub open spec fn wf(&self) -> bool {
        self.store@.len() >= 12
    }

    /// Size of the structure in bytes.
    pub fn str_size() -> (n: usize)
        ensures
            n == 12,
    {
        12
    }

    /// Views `store` as this structure, starting at its first byte.
    pub fn new(store: &'s mut [u8]) -> (r: Self)
        requires
            old(store)@.len() >= 12,
        ensures
            r.bytes() == old(store)@,
            r.wf(),
            final(store)@ == final(r.store)@,
    {
        Self { store }
    }

    /// Writes `fld` to the `subDeviceInstance` field (bytes 0..4) and gives the view back.
    pub fn subDeviceInstance(self, fld: u32) -> (r: Self)
        requires
            self.wf(),
        ensures
            r.bytes() == splice(self.bytes(), 0, spec_u32_to_le_bytes(fld)),
            r.wf(),
            final(r.store)@ == final(self.store)@,
    {
        write_u32(self.store, 0, fld);
        self
    }

    /// Reads the `subDeviceInstance` field (bytes 0..4).
    pub fn get_subDeviceInstance(&self) -> (r: u32)
        requires
            self.wf(),
        ensures
            r == u32_at(self.bytes(), 0),
    {
        read_u32(self.store, 0)
    }

    /// Writes `fld` to the `subDeviceInstance` field (bytes 0..4).
    pub fn set_subDeviceInstance(&mut self, fld: u32)
        requires
            old(self).wf(),
        ensures
            final(self).bytes() == splice(old(self).bytes(), 0, spec_u32_to_le_bytes(fld)),
            final(self).wf(),
            final(final(self).store)@ == final(old(self).store)@,
    {
        write_u32(self.store, 0, fld);
    }

    /// Writes `fld` to the `displayMask` field (bytes 4..8) and gives the view back.
    pub fn displayMask(self, fld: u32) -> (r: Self)
        requires
            self.wf(),
        ensures
            r.bytes() == splice(self.bytes(), 4, spec_u32_to_le_bytes(fld)),
            r.wf(),
            final(r.store)@ == final(self.store)@,
    {
        write_u32(self.store, 4, fld);
        self
    }

    /// Reads the `displayMask` field (bytes 4..8).
    pub fn get_displayMask(&self) -> (r: u32)
        requires
            self.wf(),
        ensures
            r == u32_at(self.bytes(), 4),
    {
        read_u32(self.store, 4)
    }

    /// Writes `fld` to the `displayMask` field (bytes 4..8).
    pub fn set_displayMask(&mut self, fld: u32)
        requires
            old(self).wf(),
        ensures
            final(self).bytes() == splice(old(self).bytes(), 4, spec_u32_to_le_bytes(fld)),
            final(self).wf(),
            final(final(self).store)@ == final(old(self).store)@,
    {
        write_u32(self.store, 4, fld);
    }

    /// Writes `fld` to the `displayMaskDDC` field (bytes 8..12) and gives the view back.
    pub fn displayMaskDDC(self, fld: u32) -> (r: Self)
        requires
            self.wf(),
        ensures
            r.bytes() == splice(self.bytes(), 8, spec_u32_to_le_bytes(fld)),
            r.wf(),
            final(r.store)@ == final(self.store)@,
    {
        write_u32(self.store, 8, fld);
        self
    }

    /// Reads the `displayMaskDDC` field (bytes 8..12).
    pub fn get_displayMaskDDC(&self) -> (r: u32)
        requires
            self.wf(),
        ensures
            r == u32_at(self.bytes(), 8),
    {
        read_u32(self.store, 8)
    }

    /// Writes `fld` to the `displayMaskDDC` field (bytes 8..12).
    pub fn set_displayMaskDDC(&mut self, fld: u32)
        requires
            old(self).wf(),
        ensures
            final(self).bytes() == splice(old(self).bytes(), 8, spec_u32_to_le_bytes(fld)),
            final(self).wf(),
            final(final(self).store)@ == final(old(self).store)@,
    {
        write_u32(self.store, 8, fld);
    }

}

/// View of the firmware structure `s_NV0073_CTRL_SPECIFIC_GET_ALL_HEAD_MASK_PARAMS` (8 bytes).
pub struct s_NV0073_CTRL_SPECIFIC_GET_ALL_HEAD_MASK_PARAMS<'s> {
    /// The buffer from the first byte of the structure to the end.
    pub store: &'s mut [u8],
}

impl<'s> s_NV0073_CTRL_SPECIFIC_GET_ALL_HEAD_MASK_PARAMS<'s> {
    /// The bytes seen through this view.
    pub open spec fn bytes(&self) -> Seq<u8> {
        self.store@
    }

    /// The buffer holds at least the whole structure.
    pub open spec fn wf(&self) -> bool {
        self.store@.len() >= 8
    }

    /// Size of the structure in bytes.
    pub fn str_size() -> (n: usize)
        ensures
            n == 8,
    {
        8
    }

    /// Views `store` as this structure, starting at its first byte.
    pub fn new(store: &'s mut [u8]) -> (r: Self)
        requires
            old(store)@.len() >= 8,
        ensures
            r.bytes() == old(store)@,
            r.wf(),
            final(store)@ == final(r.store)@,
    {
        Self { store }
    }

    /// Writes `fld` to the `subDeviceInstance` field (bytes 0..4) and gives the view back.
    pub fn subDeviceInstance(self, fld: u32) -> (r: Self)
        requires
            self.wf(),
        ensures
            r.bytes() == splice(self.bytes(), 0, spec_u32_to_le_bytes(fld)),
            r.wf(),
            final(r.store)@ == final(self.store)@,
    {
        write_u32(self.store, 0, fld);
        self
    }

    /// Reads the `subDeviceInstance` field (bytes 0..4).
    pub fn get_subDeviceInstance(&self) -> (r: u32)
        requires
            self.wf(),
        ensures
            r == u32_at(self.bytes(), 0),
    {
        read_u32(self.store, 0)
    }

    /// Writes `fld` to the `subDeviceInstance` field (bytes 0..4).
    pub fn set_subDeviceInstance(&mut self, fld: u32)
        requires
            old(self).wf(),
        ensures
            final(self).bytes() == splice(old(self).bytes(), 0, spec_u32_to_le_bytes(fld)),
            final(self).wf(),
            final(final(self).store)@ == final(old(self).store)@,
    {
        write_u32(self.store, 0, fld);
    }

    /// Writes `fld` to the `headMask` field (bytes 4..8) and gives the view back.
    pub fn headMask(self, fld: u32) -> (r: Self)
        requires
            self.wf(),
        ensures
            r.bytes() == splice(self.bytes(), 4, spec_u32_to_le_bytes(fld)),
            r.wf(),
            final(r.store)@ == final(self.store)@,
    {
        write_u32(self.store, 4, fld);
        self
    }

    /// Reads the `headMask` field (bytes 4..8).
    pub fn get_headMask(&self) -> (r: u32)
        requires
            self.wf(),
        ensures
            r == u32_at(self.bytes(), 4),
    {
        read_u32(self.store, 4)
    }

    /// Writes `fld` to the `headMask` field (bytes 4..8).
    pub fn set_headMask(&mut self, fld: u32)
        requires
            old(self).wf(),
        ensures
            final(self).bytes() == splice(old(self).bytes(), 4, spec_u32_to_le_bytes(fld)),
            final(self).wf(),
            final(final(self).store)@ == final(old(self).store)@,
    {
        write_u32(self.store, 4, fld);
    }

}

/// View of the firmware structure `s_NV0073_CTRL_SPECIFIC_SET_HDMI_SINK_CAPS_PARAMS` (12 bytes).
pub struct s_NV0073_CTRL_SPECIFIC_SET_HDMI_SINK_CAPS_PARAMS<'s> {
    /// The buffer from the first byte of the structure to the end.
    pub store: &'s mut [u8],
}

impl<'s> s_NV0073_CTRL_SPECIFIC_SET_HDMI_SINK_CAPS_PARAMS<'s> {
    /// The bytes seen through this view.
    pub open spec fn bytes(&self) -> Seq<u8> {
        self.store@
    }

    /// The buffer holds at least the whole structure.
    pub open spec fn wf(&self) -> bool {
        self.store@.len() >= 12
    }

    /// Size of the structure in bytes.
    pub fn str_size() -> (n: usize)
        ensures
            n == 12,
    {
        12
    }

    /// Views `store` as this structure, starting at its first byte.
    pub fn new(store: &'s mut [u8]) -> (r: Self)
        requires
            old(store)@.len() >= 12,
        ensures
            r.bytes() == old(store)@,
            r.wf(),
            final(store)@ == final(r.store)@,
    {
        Self { store }
    }

    /// Writes `fld` to the `subDeviceInstance` field (bytes 0..4) and gives the view back.
    pub fn subDeviceInstance(self, fld: u32) -> (r: Self)
        requires
            self.wf(),
        ensures
            r.bytes() == splice(self.bytes(), 0, spec_u32_to_le_bytes(fld)),
            r.wf(),
            final(r.store)@ == final(self.store)@,
    {
        write_u32(self.store, 0, fld);
        self
    }

    /// Reads the `subDeviceInstance` field (bytes 0..4).
    pub fn get_subDeviceInstance(&self) -> (r: u32)
        requires
            self.wf(),
        ensures
            r == u32_at(self.bytes(), 0),
    {
        read_u32(self.store, 0)
    }

    /// Writes `fld` to the `subDeviceInstance` field (bytes 0..4).
    pub fn set_subDeviceInstance(&mut self, fld: u32)
        requires
            old(self).wf(),
        ensures
            final(self).bytes() == splice(old(self).bytes(), 0, spec_u32_to_le_bytes(fld)),
            final(self).wf(),
            final(final(self).store)@ == final(old(self).store)@,
    {
        write_u32(self.store, 0, fld);
    }

    /// Writes `fld` to the `displayId` field (bytes 4..8) and gives the view back.
    pub fn displayId(self, fld: u32) -> (r: Self)
        requires
            self.wf(),
        ensures
            r.bytes() == splice(self.bytes(), 4, spec_u32_to_le_bytes(fld)),
            r.wf(),
            final(r.store)@ == final(self.store)@,
    {
        write_u32(self.store, 4, fld);
        self
    }

    /// Reads the `displayId` field (bytes 4..8).
    pub fn get_displayId(&self) -> (r: u32)
        requires
            self.wf(),
        ensures
            r == u32_at(self.bytes(), 4),
    {
        read_u32(self.store, 4)
    }

    /// Writes `fld` to the `displayId` field (bytes 4..8).
    pub fn set_displayId(&mut self, fld: u32)
        requires
            old(self).wf(),
        ensures
            final(self).bytes() == splice(old(self).bytes(), 4, spec_u32_to_le_bytes(fld)),
            final(self).wf(),
            final(final(self).store)@ == final(old(self).store)@,
    {
        write_u32(self.store, 4, fld);
    }

    /// Writes `fld` to the `caps` field (bytes 8..12) and gives the view back.
    pub fn caps(self, fld: u32) -> (r: Self)
        requires
            self.wf(),
        ensures
            r.bytes() == splice(self.bytes(), 8, spec_u32_to_le_bytes(fld)),
            r.wf(),
            final(r.store)@ == final(self.store)@,
    {
        write_u32(self.store, 8, fld);
        self
    }

    /// Reads the `caps` field (bytes 8..12).
    pub fn get_caps(&self) -> (r: u32)
        requires
            self.wf(),
        ensures
            r == u32_at(self.bytes(), 8),
    {
        read_u32(self.store, 8)
    }

    /// Writes `fld` to the `caps` field (bytes 8..12).
    pub fn set_caps(&mut self, fld: u32)
        requires
            old(self).wf(),
        ensures
            final(self).bytes() == splice(old(self).bytes(), 8, spec_u32_to_le_bytes(fld)),
            final(self).wf(),
            final(final(self).store)@ == final(old(self).store)@,
    {
        write_u32(self.store, 8, fld);
    }

}

/// View of the firmware structure `s_NV0073_CTRL_SPECIFIC_SET_OD_PACKET_PARAMS` (60 bytes).
pub struct s_NV0073_CTRL_SPECIFIC_SET_OD_PACKET_PARAMS<'s> {
    /// The buffer from the first byte of the structure to the end.
    pub store: &'s mut [u8],
}

impl<'s> s_NV0073_CTRL_SPECIFIC_SET_OD_PACKET_PARAMS<'s> {
    /// The bytes seen through this view.
    pub open spec fn bytes(&self) -> Seq<u8> {
        self.store@
    }

    /// The buffer holds at least the whole structure.
    pub open spec fn wf(&self) -> bool {
        self.store@.len() >= 60
    }

    /// Size of the structure in bytes.
    pub fn str_size() -> (n: usize)
        ensures
            n == 60,
    {
        60
    }

    /// Views `store` as this structure, starting at its first byte.
    pub fn new(store: &'s mut [u8]) -> (r: Self)
        requires
            old(store)@.len() >= 60,
        ensures
            r.bytes() == old(store)@,
            r.wf(),
            final(store)@ == final(r.store)@,
    {
        Self { store }
    }

    /// Writes `fld` to the `subDeviceInstance` field (bytes 0..4) and gives the view back.
    pub fn subDeviceInstance(self, fld: u32) -> (r: Self)
        requires
            self.wf(),
        ensures
            r.bytes() == splice(self.bytes(), 0, spec_u32_to_le_bytes(fld)),
            r.wf(),
            final(r.store)@ == final(self.store)@,
    {
        write_u32(self.store, 0, fld);
        self
    }

    /// Reads the `subDeviceInstance` field (bytes 0..4).
    pub fn get_subDeviceInstance(&self) -> (r: u32)
        requires
            self.wf(),
        ensures
            r == u32_at(self.bytes(), 0),
    {
        read_u32(self.store, 0)
    }

    /// Writes `fld` to the `subDeviceInstance` field (bytes 0..4).
    pub fn set_subDeviceInstance(&mut self, fld: u32)
        requires
            old(self).wf(),
        ensures
            final(self).bytes() == splice(old(self).bytes(), 0, spec_u32_to_le_bytes(fld)),
            final(self).wf(),
            final(final(self).store)@ == final(old(self).store)@,
    {
        write_u32(self.store, 0, fld);
    }

    /// Writes `fld` to the `displayId` field (bytes 4..8) and gives the view back.
    pub fn displayId(self, fld: u32) -> (r: Self)
        requires
            self.wf(),
        ensures
            r.bytes() == splice(self.bytes(), 4, spec_u32_to_le_bytes(fld)),
            r.wf(),
            final(r.store)@ == final(self.store)@,
    {
        write_u32(self.store, 4, fld);
        self
    }

    /// Reads the `displayId` field (bytes 4..8).
    pub fn get_displayId(&self) -> (r: u32)
        requires
            self.wf(),
        ensures
            r == u32_at(self.bytes(), 4),
    {
        read_u32(self.store, 4)
    }

    /// Writes `fld` to the `displayId` field (bytes 4..8).
    pub fn set_displayId(&mut self, fld: u32)
        requires
            old(self).wf(),
        ensures
            final(self).bytes() == splice(old(self).bytes(), 4, spec_u32_to_le_bytes(fld)),
            final(self).wf(),
            final(final(self).store)@ == final(old(self).store)@,
    {
        write_u32(self.store, 4, fld);
    }

    /// Writes `fld` to the `transmitControl` field (bytes 8..12) and gives the view back.
    pub fn transmitControl(self, fld: u32) -> (r: Self)
        requires
            self.wf(),
        ensures
            r.bytes() == splice(self.bytes(), 8, spec_u32_to_le_bytes(fld)),
            r.wf(),
            final(r.store)@ == final(self.store)@,
    {
        write_u32(self.store, 8, fld);
        self
    }

    /// Reads the `transmitControl` field (bytes 8..12).
    pub fn get_transmitControl(&self) -> (r: u32)
        requires
            self.wf(),
        ensures
            r == u32_at(self.bytes(), 8),
    {
        read_u32(self.store, 8)
    }

    /// Writes `fld` to the `transmitControl` field (bytes 8..12).
    pub fn set_transmitControl(&mut self, fld: u32)
        requires
            old(self).wf(),
        ensures
            final(self).bytes() == splice(old(self).bytes(), 8, spec_u32_to_le_bytes(fld)),
            final(self).wf(),
            final(final(self).store)@ == final(old(self).store)@,
    {
        write_u32(self.store, 8, fld);
    }

    /// Writes `fld` to the `packetSize` field (bytes 12..16) and gives the view back.
    pub fn packetSize(self, fld: u32) -> (r: Self)
        requires
            self.wf(),
        ensures
            r.bytes() == splice(self.bytes(), 12, spec_u32_to_le_bytes(fld)),
            r.wf(),
            final(r.store)@ == final(self.store)@,
    {
        write_u32(self.store, 12, fld);
        self
    }

    /// Reads the `packetSize` field (bytes 12..16).
    pub fn get_packetSize(&self) -> (r: u32)
        requires
            self.wf(),
        ensures
            r == u32_at(self.bytes(), 12),
    {
        read_u32(self.store, 12)
    }

    /// Writes `fld` to the `packetSize` field (bytes 12..16).
    pub fn set_packetSize(&mut self, fld: u32)
        requires
            old(self).wf(),
        ensures
            final(self).bytes() == splice(old(self).bytes(), 12, spec_u32_to_le_bytes(fld)),
            final(self).wf(),
            final(final(self).store)@ == final(old(self).store)@,
    {
        write_u32(self.store, 12, fld);
    }

    /// Writes `fld` to the `targetHead` field (bytes 16..20) and gives the view back.
    pub fn targetHead(self, fld: u32) -> (r: Self)
        requires
            self.wf(),
        ensures
            r.bytes() == splice(self.bytes(), 16, spec_u32_to_le_bytes(fld)),
            r.wf(),
            final(r.store)@ == final(self.store)@,
    {
        write_u32(self.store, 16, fld);
        self
    }

    /// Reads the `targetHead` field (bytes 16..20).
    pub fn get_targetHead(&self) -> (r: u32)
        requires
            self.wf(),
        ensures
            r == u32_at(self.bytes(), 16),
    {
        read_u32(self.store, 16)
    }

    /// Writes `fld` to the `targetHead` field (bytes 16..20).
    pub fn set_targetHead(&mut self, fld: u32)
        requires
            old(self).wf(),
        ensures
            final(self).bytes() == splice(old(self).bytes(), 16, spec_u32_to_le_bytes(fld)),
            final(self).wf(),
            final(final(self).store)@ == final(old(self).store)@,
    {
        write_u32(self.store, 16, fld);
    }

    /// Writes `fld` to the `bUsePsrHeadforSdp` field (bytes 20..21) and gives the view back.
    pub fn bUsePsrHeadforSdp(self, fld: u8) -> (r: Self)
        requires
            self.wf(),
        ensures
            r.bytes() == splice(self.bytes(), 20, seq![fld]),
            r.wf(),
            final(r.store)@ == final(self.store)@,
    {
        write_u8(self.store, 20, fld);
        self
    }

    /// Reads the `bUsePsrHeadforSdp` field (bytes 20..21).
    pub fn get_bUsePsrHeadforSdp(&self) -> (r: u8)
        requires
            self.wf(),
        ensures
            r == self.bytes()[20],
    {
        read_u8(self.store, 20)
    }

    /// Writes `fld` to the `bUsePsrHeadforSdp` field (bytes 20..21).
    pub fn set_bUsePsrHeadforSdp(&mut self, fld: u8)
        requires
            old(self).wf(),
        ensures
            final(self).bytes() == splice(old(self).bytes(), 20, seq![fld]),
            final(self).wf(),
            final(final(self).store)@ == final(old(self).store)@,
    {
        write_u8(self.store, 20, fld);
    }

    /// Writes `fld` to the `aPacket` field (bytes 21..57) and gives the view back.
    pub fn aPacket(self, fld: [u8; 36]) -> (r: Self)
        requires
            self.wf(),
        ensures
            r.bytes() == splice(self.bytes(), 21, fld@),
            r.wf(),
            final(r.store)@ == final(self.store)@,
    {
        write_u8s(self.store, 21, &fld);
        self
    }

    /// Writes `fld` to the `aPacket` field (bytes 21..57).
    pub fn set_aPacket(&mut self, fld: [u8; 36])
        requires
            old(self).wf(),
        ensures
            final(self).bytes() == splice(old(self).bytes(), 21, fld@),
            final(self).wf(),
            final(final(self).store)@ == final(old(self).store)@,
    {
        write_u8s(self.store, 21, &fld);
    }

    /// Reads the `aPacket` array (bytes 21..57).
    pub fn get_aPacket(&mut self) -> (r: [u8; 36])
        requires
            old(self).wf(),
        ensures
            r@ == old(self).bytes().subrange(21, 57),
            final(self).bytes() == old(self).bytes(),
            final(final(self).store)@ == final(old(self).store)@,
    {
        read_u8s(self.store, 21)
    }

}

/// View of the firmware structure `s_NV0073_CTRL_SPECIFIC_SET_HDMI_ENABLE_PARAMS` (12 bytes).
pub struct s_NV0073_CTRL_SPECIFIC_SET_HDMI_ENABLE_PARAMS<'s> {
    /// The buffer from the first byte of the structure to the end.
    pub store: &'s mut [u8],
}

impl<'s> s_NV0073_CTRL_SPECIFIC_SET_HDMI_ENABLE_PARAMS<'s> {
    /// The bytes seen through this view.
    pub open spec fn bytes(&self) -> Seq<u8> {
        self.store@
    }

    /// The buffer holds at least the whole structure.
    pub open spec fn wf(&self) -> bool {
        self.store@.len() >= 12
    }

    /// Size of the structure in bytes.
    pub fn str_size() -> (n: usize)
        ensures
            n == 12,
    {
        12
    }

    /// Views `store` as this structure, starting at its first byte.
    pub fn new(store: &'s mut [u8]) -> (r: Self)
        requires
            old(store)@.len() >= 12,
        ensures
            r.bytes() == old(store)@,
            r.wf(),
            final(store)@ == final(r.store)@,
    {
        Self { store }
    }

    /// Writes `fld` to the `subDeviceInstance` field (bytes 0..1) and gives the view back.
    pub fn subDeviceInstance(self, fld: u8) -> (r: Self)
        requires
            self.wf(),
        ensures
            r.bytes() == splice(self.bytes(), 0, seq![fld]),
            r.wf(),
            final(r.store)@ == final(self.store)@,
    {
        write_u8(self.store, 0, fld);
        self
    }

    /// Reads the `subDeviceInstance` field (bytes 0..1).
    pub fn get_subDeviceInstance(&self) -> (r: u8)
        requires
            self.wf(),
        ensures
            r == self.bytes()[0],
    {
        read_u8(self.store, 0)
    }

    /// Writes `fld` to the `subDeviceInstance` field (bytes 0..1).
    pub fn set_subDeviceInstance(&mut self, fld: u8)
        requires
            old(self).wf(),
        ensures
            final(self).bytes() == splice(old(self).bytes(), 0, seq![fld]),
            final(self).wf(),
            final(final(self).store)@ == final(old(self).store)@,
    {
        write_u8(self.store, 0, fld);
    }

    /// Writes `fld` to the `displayId` field (bytes 4..8) and gives the view back.
    pub fn displayId(self, fld: u32) -> (r: Self)
        requires
            self.wf(),
        ensures
            r.bytes() == splice(self.bytes(), 4, spec_u32_to_le_bytes(fld)),
            r.wf(),
            final(r.store)@ == final(self.store)@,
    {
        write_u32(self.store, 4, fld);
        self
    }

    /// Reads the `displayId` field (bytes 4..8).
    pub fn get_displayId(&self) -> (r: u32)
        requires
            self.wf(),
        ensures
            r == u32_at(self.bytes(), 4),
    {
        read_u32(self.store, 4)
    }

    /// Writes `fld` to the `displayId` field (bytes 4..8).
    pub fn set_displayId(&mut self, fld: u32)
        requires
            old(self).wf(),
        ensures
            final(self).bytes() == splice(old(self).bytes(), 4, spec_u32_to_le_bytes(fld)),
            final(self).wf(),
            final(final(self).store)@ == final(old(self).store)@,
    {
        write_u32(self.store, 4, fld);
    }

    /// Writes `fld` to the `enable` field (bytes 8..9) and gives the view back.
    pub fn enable(self, fld: u8) -> (r: Self)
        requires
            self.wf(),
        ensures
            r.bytes() == splice(self.bytes(), 8, seq![fld]),
            r.wf(),
            final(r.store)@ == final(self.store)@,
    {
        write_u8(self.store, 8, fld);
        self
    }

    /// Reads the `enable` field (bytes 8..9).
    pub fn get_enable(&self) -> (r: u8)
        requires
            self.wf(),
        ensures
            r == self.bytes()[8],
    {
        read_u8(self.store, 8)
    }

    /// Writes `fld` to the `enable` field (bytes 8..9).
    pub fn set_enable(&mut self, fld: u8)
        requires
            old(self).wf(),
        ensures
            final(self).bytes() == splice(old(self).bytes(), 8, seq![fld]),
            final(self).wf(),
            final(final(self).store)@ == final(old(self).store)@,
    {
        write_u8(self.store, 8, fld);
    }

}

/// View of the firmware structure `s_NV0073_CTRL_SPECIFIC_OR_GET_INFO_PARAMS` (56 bytes).
pub struct s_NV0073_CTRL_SPECIFIC_OR_GET_INFO_PARAMS<'s> {
    /// The buffer from the first byte of the structure to the end.
    pub store: &'s mut [u8],
}

impl<'s> s_NV0073_CTRL_SPECIFIC_OR_GET_INFO_PARAMS<'s> {
    /// The bytes seen through this view.
    pub open spec fn bytes(&self) -> Seq<u8> {
        self.store@
    }

    /// The buffer holds at least the whole structure.
    pub open spec fn wf(&self) -> bool {
        self.store@.len() >= 56
    }

    /// Size of the structure in bytes.
    pub fn str_size() -> (n: usize)
        ensures
            n == 56,
    {
        56
    }

    /// Views `store` as this structure, starting at its first byte.
    pub fn new(store: &'s mut [u8]) -> (r: Self)
        requires
            old(store)@.len() >= 56,
        ensures
            r.bytes() == old(store)@,
            r.wf(),
            final(store)@ == final(r.store)@,
    {
        Self { store }
    }

    /// Writes `fld` to the `subDeviceInstance` field (bytes 0..4) and gives the view back.
    pub fn subDeviceInstance(self, fld: u32) -> (r: Self)
        requires
            self.wf(),
        ensures
            r.bytes() == splice(self.bytes(), 0, spec_u32_to_le_bytes(fld)),
            r.wf(),
            final(r.store)@ == final(self.store)@,
    {
        write_u32(self.store, 0, fld);
        self
    }

    /// Reads the `subDeviceInstance` field (bytes 0..4).
    pub fn get_subDeviceInstance(&self) -> (r: u32)
        requires
            self.wf(),
        ensures
            r == u32_at(self.bytes(), 0),
    {
        read_u32(self.store, 0)
    }

    /// Writes `fld` to the `subDeviceInstance` field (bytes 0..4).
    pub fn set_subDeviceInstance(&mut self, fld: u32)
        requires
            old(self).wf(),
        ensures
            final(self).bytes() == splice(old(self).bytes(), 0, spec_u32_to_le_bytes(fld)),
            final(self).wf(),
            final(final(self).store)@ == final(old(self).store)@,
    {
        write_u32(self.store, 0, fld);
    }

    /// Writes `fld` to the `displayId` field (bytes 4..8) and gives the view back.
    pub fn displayId(self, fld: u32) -> (r: Self)
        requires
            self.wf(),
        ensures
            r.bytes() == splice(self.bytes(), 4, spec_u32_to_le_bytes(fld)),
            r.wf(),
            final(r.store)@ == final(self.store)@,
    {
        write_u32(self.store, 4, fld);
        self
    }

    /// Reads the `displayId` field (bytes 4..8).
    pub fn get_displayId(&self) -> (r: u32)
        requires
            self.wf(),
        ensures
            r == u32_at(self.bytes(), 4),
    {
        read_u32(self.store, 4)
    }

    /// Writes `fld` to the `displayId` field (bytes 4..8).
    pub fn set_displayId(&mut self, fld: u32)
        requires
            old(self).wf(),
        ensures
            final(self).bytes() == splice(old(self).bytes(), 4, spec_u32_to_le_bytes(fld)),
            final(self).wf(),
            final(final(self).store)@ == final(old(self).store)@,
    {
        write_u32(self.store, 4, fld);
    }

    /// Writes `fld` to the `index` field (bytes 8..12) and gives the view back.
    pub fn index(self, fld: u32) -> (r: Self)
        requires
            self.wf(),
        ensures
            r.bytes() == splice(self.bytes(), 8, spec_u32_to_le_bytes(fld)),
            r.wf(),
            final(r.store)@ == final(self.store)@,
    {
        write_u32(self.store, 8, fld);
        self
    }

    /// Reads the `index` field (bytes 8..12).
    pub fn get_index(&self) -> (r: u32)
        requires
            self.wf(),
        ensures
            r == u32_at(self.bytes(), 8),
    {
        read_u32(self.store, 8)
    }

    /// Writes `fld` to the `index` field (bytes 8..12).
    pub fn set_index(&mut self, fld: u32)
        requires
            old(self).wf(),
        ensures
            final(self).bytes() == splice(old(self).bytes(), 8, spec_u32_to_le_bytes(fld)),
            final(self).wf(),
            final(final(self).store)@ == final(old(self).store)@,
    {
        write_u32(self.store, 8, fld);
    }

    /// Writes `fld` to the `rtype` field (bytes 12..16) and gives the view back.
    pub fn rtype(self, fld: u32) -> (r: Self)
        requires
            self.wf(),
        ensures
            r.bytes() == splice(self.bytes(), 12, spec_u32_to_le_bytes(fld)),
            r.wf(),
            final(r.store)@ == final(self.store)@,
    {
        write_u32(self.store, 12, fld);
        self
    }

    /// Reads the `rtype` field (bytes 12..16).
    pub fn get_rtype(&self) -> (r: u32)
        requires
            self.wf(),
        ensures
            r == u32_at(self.bytes(), 12),
    {
        read_u32(self.store, 12)
    }

    /// Writes `fld` to the `rtype` field (bytes 12..16).
    pub fn set_rtype(&mut self, fld: u32)
        requires
            old(self).wf(),
        ensures
            final(self).bytes() == splice(old(self).bytes(), 12, spec_u32_to_le_bytes(fld)),
            final(self).wf(),
            final(final(self).store)@ == final(old(self).store)@,
    {
        write_u32(self.store, 12, fld);
    }

    /// Writes `fld` to the `protocol` field (bytes 16..20) and gives the view back.
    pub fn protocol(self, fld: u32) -> (r: Self)
        requires
            self.wf(),
        ensures
            r.bytes() == splice(self.bytes(), 16, spec_u32_to_le_bytes(fld)),
            r.wf(),
            final(r.store)@ == final(self.store)@,
    {
        write_u32(self.store, 16, fld);
        self
    }

    /// Reads the `protocol` field (bytes 16..20).
    pub fn get_protocol(&self) -> (r: u32)
        requires
            self.wf(),
        ensures
            r == u32_at(self.bytes(), 16),
    {
        read_u32(self.store, 16)
    }

    /// Writes `fld` to the `protocol` field (bytes 16..20).
    pub fn set_protocol(&mut self, fld: u32)
        requires
            old(self).wf(),
        ensures
            final(self).bytes() == splice(old(self).bytes(), 16, spec_u32_to_le_bytes(fld)),
            final(self).wf(),
            final(final(self).store)@ == final(old(self).store)@,
    {
        write_u32(self.store, 16, fld);
    }

    /// Writes `fld` to the `ditherType` field (bytes 20..24) and gives the view back.
    pub fn ditherType(self, fld: u32) -> (r: Self)
        requires
            self.wf(),
        ensures
            r.bytes() == splice(self.bytes(), 20, spec_u32_to_le_bytes(fld)),
            r.wf(),
            final(r.store)@ == final(self.store)@,
    {
        write_u32(self.store, 20, fld);
        self
    }

    /// Reads the `ditherType` field (bytes 20..24).
    pub fn get_ditherType(&self) -> (r: u32)
        requires
            self.wf(),
        ensures
            r == u32_at(self.bytes(), 20),
    {
        read_u32(self.store, 20)
    }

    /// Writes `fld` to the `ditherType` field (bytes 20..24).
    pub fn set_ditherType(&mut self, fld: u32)
        requires
            old(self).wf(),
        ensures
            final(self).bytes() == splice(old(self).bytes(), 20, spec_u32_to_le_bytes(fld)),
            final(self).wf(),
            final(final(self).store)@ == final(old(self).store)@,
    {
        write_u32(self.store, 20, fld);
    }

    /// Writes `fld` to the `ditherAlgo` field (bytes 24..28) and gives the view back.
    pub fn ditherAlgo(self, fld: u32) -> (r: Self)
        requires
            self.wf(),
        ensures
            r.bytes() == splice(self.bytes(), 24, spec_u32_to_le_bytes(fld)),
            r.wf(),
            final(r.store)@ == final(self.store)@,
    {
        write_u32(self.store, 24, fld);
        self
    }

    /// Reads the `ditherAlgo` field (bytes 24..28).
    pub fn get_ditherAlgo(&self) -> (r: u32)
        requires
            self.wf(),
        ensures
            r == u32_at(self.bytes(), 24),
    {
        read_u32(self.store, 24)
    }

    /// Writes `fld` to the `ditherAlgo` field (bytes 24..28).
    pub fn set_ditherAlgo(&mut self, fld: u32)
        requires
            old(self).wf(),
        ensures
            final(self).bytes() == splice(old(self).bytes(), 24, spec_u32_to_le_bytes(fld)),
            final(self).wf(),
            final(final(self).store)@ == final(old(self).store)@,
    {
        write_u32(self.store, 24, fld);
    }

    /// Writes `fld` to the `location` field (bytes 28..32) and gives the view back.
    pub fn location(self, fld: u32) -> (r: Self)
        requires
            self.wf(),
        ensures
            r.bytes() == splice(self.bytes(), 28, spec_u32_to_le_bytes(fld)),
            r.wf(),
            final(r.store)@ == final(self.store)@,
    {
        write_u32(self.store, 28, fld);
        self
    }

    /// Reads the `location` field (bytes 28..32).
    pub fn get_location(&self) -> (r: u32)
        requires
            self.wf(),
        ensures
            r == u32_at(self.bytes(), 28),
    {
        read_u32(self.store, 28)
    }

    /// Writes `fld` to the `location` field (bytes 28..32).
    pub fn set_location(&mut self, fld: u32)
        requires
            old(self).wf(),
        ensures
            final(self).bytes() == splice(old(self).bytes(), 28, spec_u32_to_le_bytes(fld)),
            final(self).wf(),
            final(final(self).store)@ == final(old(self).store)@,
    {
        write_u32(self.store, 28, fld);
    }

    /// Writes `fld` to the `rootPortId` field (bytes 32..36) and gives the view back.
    pub fn rootPortId(self, fld: u32) -> (r: Self)
        requires
            self.wf(),
        ensures
            r.bytes() == splice(self.bytes(), 32, spec_u32_to_le_bytes(fld)),
            r.wf(),
            final(r.store)@ == final(self.store)@,
    {
        write_u32(self.store, 32, fld);
        self
    }

    /// Reads the `rootPortId` field (bytes 32..36).
    pub fn get_rootPortId(&self) -> (r: u32)
        requires
            self.wf(),
        ensures
            r == u32_at(self.bytes(), 32),
    {
        read_u32(self.store, 32)
    }

    /// Writes `fld` to the `rootPortId` field (bytes 32..36).
    pub fn set_rootPortId(&mut self, fld: u32)
        requires
            old(self).wf(),
        ensures
            final(self).bytes() == splice(old(self).bytes(), 32, spec_u32_to_le_bytes(fld)),
            final(self).wf(),
            final(final(self).store)@ == final(old(self).store)@,
    {
        write_u32(self.store, 32, fld);
    }

    /// Writes `fld` to the `dcbIndex` field (bytes 36..40) and gives the view back.
    pub fn dcbIndex(self, fld: u32) -> (r: Self)
        requires
            self.wf(),
        ensures
            r.bytes() == splice(self.bytes(), 36, spec_u32_to_le_bytes(fld)),
            r.wf(),
            final(r.store)@ == final(self.store)@,
    {
        write_u32(self.store, 36, fld);
        self
    }

    /// Reads the `dcbIndex` field (bytes 36..40).
    pub fn get_dcbIndex(&self) -> (r: u32)
        requires
            self.wf(),
        ensures
            r == u32_at(self.bytes(), 36),
    {
        read_u32(self.store, 36)
    }

    /// Writes `fld` to the `dcbIndex` field (bytes 36..40).
    pub fn set_dcbIndex(&mut self, fld: u32)
        requires
            old(self).wf(),
        ensures
            final(self).bytes() == splice(old(self).bytes(), 36, spec_u32_to_le_bytes(fld)),
            final(self).wf(),
            final(final(self).store)@ == final(old(self).store)@,
    {
        write_u32(self.store, 36, fld);
    }

    /// Writes `fld` to the `vbiosAddress` field (bytes 40..48) and gives the view back.
    pub fn vbiosAddress(self, fld: u64) -> (r: Self)
        requires
            self.wf(),
        ensures
            r.bytes() == splice(self.bytes(), 40, spec_u64_to_le_bytes(fld)),
            r.wf(),
            final(r.store)@ == final(self.store)@,
    {
        write_u64(self.store, 40, fld);
        self
    }

    /// Reads the `vbiosAddress` field (bytes 40..48).
    pub fn get_vbiosAddress(&self) -> (r: u64)
        requires
            self.wf(),
        ensures
            r == u64_at(self.bytes(), 40),
    {
        read_u64(self.store, 40)
    }

    /// Writes `fld` to the `vbiosAddress` field (bytes 40..48).
    pub fn set_vbiosAddress(&mut self, fld: u64)
        requires
            old(self).wf(),
        ensures
            final(self).bytes() == splice(old(self).bytes(), 40, spec_u64_to_le_bytes(fld)),
            final(self).wf(),
            final(final(self).store)@ == final(old(self).store)@,
    {
        write_u64(self.store, 40, fld);
    }

    /// Writes `fld` to the `bIsLitByVbios` field (bytes 48..49) and gives the view back.
    pub fn bIsLitByVbios(self, fld: u8) -> (r: Self)
        requires
            self.wf(),
        ensures
            r.bytes() == splice(self.bytes(), 48, seq![fld]),
            r.wf(),
            final(r.store)@ == final(self.store)@,
    {
        write_u8(self.store, 48, fld);
        self
    }

    /// Reads the `bIsLitByVbios` field (bytes 48..49).
    pub fn get_bIsLitByVbios(&self) -> (r: u8)
        requires
            self.wf(),
        ensures
            r == self.bytes()[48],
    {
        read_u8(self.store, 48)
    }

    /// Writes `fld` to the `bIsLitByVbios` field (bytes 48..49).
    pub fn set_bIsLitByVbios(&mut self, fld: u8)
        requires
            old(self).wf(),
        ensures
            final(self).bytes() == splice(old(self).bytes(), 48, seq![fld]),
            final(self).wf(),
            final(final(self).store)@ == final(old(self).store)@,
    {
        write_u8(self.store, 48, fld);
    }

    /// Writes `fld` to the `bIsDispDynamic` field (bytes 49..50) and gives the view back.
    pub fn bIsDispDynamic(self, fld: u8) -> (r: Self)
        requires
            self.wf(),
        ensures
            r.bytes() == splice(self.bytes(), 49, seq![fld]),
            r.wf(),
            final(r.store)@ == final(self.store)@,
    {
        write_u8(self.store, 49, fld);
        self
    }

    /// Reads the `bIsDispDynamic` field (bytes 49..50).
    pub fn get_bIsDispDynamic(&self) -> (r: u8)
        requires
            self.wf(),
        ensures
            r == self.bytes()[49],
    {
        read_u8(self.store, 49)
    }

    /// Writes `fld` to the `bIsDispDynamic` field (bytes 49..50).
    pub fn set_bIsDispDynamic(&mut self, fld: u8)
        requires
            old(self).wf(),
        ensures
            final(self).bytes() == splice(old(self).bytes(), 49, seq![fld]),
            final(self).wf(),
            final(final(self).store)@ == final(old(self).store)@,
    {
        write_u8(self.store, 49, fld);
    }

}

/// View of the firmware structure `s_NV0073_CTRL_SPECIFIC_GET_CONNECTOR_DATA_PARAMS` (72 bytes).
pub struct s_NV0073_CTRL_SPECIFIC_GET_CONNECTOR_DATA_PARAMS<'s> {
    /// The buffer from the first byte of the structure to the end.
    pub store: &'s mut [u8],
}

impl<'s> s_NV0073_CTRL_SPECIFIC_GET_CONNECTOR_DATA_PARAMS<'s> {
    /// The bytes seen through this view.
    pub open spec fn bytes(&self) -> Seq<u8> {
        self.store@
    }

    /// The buffer holds at least the whole structure.
    pub open spec fn wf(&self) -> bool {
        self.store@.len() >= 72
    }

    /// Size of the structure in bytes.
    pub fn str_size() -> (n: usize)
        ensures
            n == 72,
    {
        72
    }

    /// Views `store` as this structure, starting at its first byte.
    pub fn new(store: &'s mut [u8]) -> (r: Self)
        requires
            old(store)@.len() >= 72,
        ensures
            r.bytes() == old(store)@,
            r.wf(),
            final(store)@ == final(r.store)@,
    {
        Self { store }
    }

    /// Writes `fld` to the `subDeviceInstance` field (bytes 0..4) and gives the view back.
    pub fn subDeviceInstance(self, fld: u32) -> (r: Self)
        requires
            self.wf(),
        ensures
            r.bytes() == splice(self.bytes(), 0, spec_u32_to_le_bytes(fld)),
            r.wf(),
            final(r.store)@ == final(self.store)@,
    {
        write_u32(self.store, 0, fld);
        self
    }

    /// Reads the `subDeviceInstance` field (bytes 0..4).
    pub fn get_subDeviceInstance(&self) -> (r: u32)
        requires
            self.wf(),
        ensures
            r == u32_at(self.bytes(), 0),
    {
        read_u32(self.store, 0)
    }

    /// Writes `fld` to the `subDeviceInstance` field (bytes 0..4).
    pub fn set_subDeviceInstance(&mut self, fld: u32)
        requires
            old(self).wf(),
        ensures
            final(self).bytes() == splice(old(self).bytes(), 0, spec_u32_to_le_bytes(fld)),
            final(self).wf(),
            final(final(self).store)@ == final(old(self).store)@,
    {
        write_u32(self.store, 0, fld);
    }

    /// Writes `fld` to the `displayId` field (bytes 4..8) and gives the view back.
    pub fn displayId(self, fld: u32) -> (r: Self)
        requires
            self.wf(),
        ensures
            r.bytes() == splice(self.bytes(), 4, spec_u32_to_le_bytes(fld)),
            r.wf(),
            final(r.store)@ == final(self.store)@,
    {
        write_u32(self.store, 4, fld);
        self
    }

    /// Reads the `displayId` field (bytes 4..8).
    pub fn get_displayId(&self) -> (r: u32)
        requires
            self.wf(),
        ensures
            r == u32_at(self.bytes(), 4),
    {
        read_u32(self.store, 4)
    }

    /// Writes `fld` to the `displayId` field (bytes 4..8).
    pub fn set_displayId(&mut self, fld: u32)
        requires
            old(self).wf(),
        ensures
            final(self).bytes() == splice(old(self).bytes(), 4, spec_u32_to_le_bytes(fld)),
            final(self).wf(),
            final(final(self).store)@ == final(old(self).store)@,
    {
        write_u32(self.store, 4, fld);
    }

    /// Writes `fld` to the `flags` field (bytes 8..12) and gives the view back.
    pub fn flags(self, fld: u32) -> (r: Self)
        requires
            self.wf(),
        ensures
            r.bytes() == splice(self.bytes(), 8, spec_u32_to_le_bytes(fld)),
            r.wf(),
            final(r.store)@ == final(self.store)@,
    {
        write_u32(self.store, 8, fld);
        self
    }

    /// Reads the `flags` field (bytes 8..12).
    pub fn get_flags(&self) -> (r: u32)
        requires
            self.wf(),
        ensures
            r == u32_at(self.bytes(), 8),
    {
        read_u32(self.store, 8)
    }

    /// Writes `fld` to the `flags` field (bytes 8..12).
    pub fn set_flags(&mut self, fld: u32)
        requires
            old(self).wf(),
        ensures
            final(self).bytes() == splice(old(self).bytes(), 8, spec_u32_to_le_bytes(fld)),
            final(self).wf(),
            final(final(self).store)@ == final(old(self).store)@,
    {
        write_u32(self.store, 8, fld);
    }

    /// Writes `fld` to the `DDCPartners` field (bytes 12..16) and gives the view back.
    pub fn DDCPartners(self, fld: u32) -> (r: Self)
        requires
            self.wf(),
        ensures
            r.bytes() == splice(self.bytes(), 12, spec_u32_to_le_bytes(fld)),
            r.wf(),
            final(r.store)@ == final(self.store)@,
    {
        write_u32(self.store, 12, fld);
        self
    }

    /// Reads the `DDCPartners` field (bytes 12..16).
    pub fn get_DDCPartners(&self) -> (r: u32)
        requires
            self.wf(),
        ensures
            r == u32_at(self.bytes(), 12),
    {
        read_u32(self.store, 12)
    }

    /// Writes `fld` to the `DDCPartners` field (bytes 12..16).
    pub fn set_DDCPartners(&mut self, fld: u32)
        requires
            old(self).wf(),
        ensures
            final(self).bytes() == splice(old(self).bytes(), 12, spec_u32_to_le_bytes(fld)),
            final(self).wf(),
            final(final(self).store)@ == final(old(self).store)@,
    {
        write_u32(self.store, 12, fld);
    }

    /// Writes `fld` to the `count` field (bytes 16..20) and gives the view back.
    pub fn count(self, fld: u32) -> (r: Self)
        requires
            self.wf(),
        ensures
            r.bytes() == splice(self.bytes(), 16, spec_u32_to_le_bytes(fld)),
            r.wf(),
            final(r.store)@ == final(self.store)@,
    {
        write_u32(self.store, 16, fld);
        self
    }

    /// Reads the `count` field (bytes 16..20).
    pub fn get_count(&self) -> (r: u32)
        requires
            self.wf(),
        ensures
            r == u32_at(self.bytes(), 16),
    {
        read_u32(self.store, 16)
    }

    /// Writes `fld` to the `count` field (bytes 16..20).
    pub fn set_count(&mut self, fld: u32)
        requires
            old(self).wf(),
        ensures
            final(self).bytes() == splice(old(self).bytes(), 16, spec_u32_to_le_bytes(fld)),
            final(self).wf(),
            final(final(self).store)@ == final(old(self).store)@,
    {
        write_u32(self.store, 16, fld);
    }

    /// Writes `fld` to the `data_0_index` field (bytes 20..24) and gives the view back.
    pub fn data_0_index(self, fld: u32) -> (r: Self)
        requires
            self.wf(),
        ensures
            r.bytes() == splice(self.bytes(), 20, spec_u32_to_le_bytes(fld)),
            r.wf(),
            final(r.store)@ == final(self.store)@,
    {
        write_u32(self.store, 20, fld);
        self
    }

    /// Reads the `data_0_index` field (bytes 20..24).
    pub fn get_data_0_index(&self) -> (r: u32)
        requires
            self.wf(),
        ensures
            r == u32_at(self.bytes(), 20),
    {
        read_u32(self.store, 20)
    }

    /// Writes `fld` to the `data_0_index` field (bytes 20..24).
    pub fn set_data_0_index(&mut self, fld: u32)
        requires
            old(self).wf(),
        ensures
            final(self).bytes() == splice(old(self).bytes(), 20, spec_u32_to_le_bytes(fld)),
            final(self).wf(),
            final(final(self).store)@ == final(old(self).store)@,
    {
        write_u32(self.store, 20, fld);
    }

    /// Writes `fld` to the `data_0_type` field (bytes 24..28) and gives the view back.
    pub fn data_0_type(self, fld: u32) -> (r: Self)
        requires
            self.wf(),
        ensures
            r.bytes() == splice(self.bytes(), 24, spec_u32_to_le_bytes(fld)),
            r.wf(),
            final(r.store)@ == final(self.store)@,
    {
        write_u32(self.store, 24, fld);
        self
    }

    /// Reads the `data_0_type` field (bytes 24..28).
    pub fn get_data_0_type(&self) -> (r: u32)
        requires
            self.wf(),
        ensures
            r == u32_at(self.bytes(), 24),
    {
        read_u32(self.store, 24)
    }

    /// Writes `fld` to the `data_0_type` field (bytes 24..28).
    pub fn set_data_0_type(&mut self, fld: u32)
        requires
            old(self).wf(),
        ensures
            final(self).bytes() == splice(old(self).bytes(), 24, spec_u32_to_le_bytes(fld)),
            final(self).wf(),
            final(final(self).store)@ == final(old(self).store)@,
    {
        write_u32(self.store, 24, fld);
    }

    /// Writes `fld` to the `data_0_location` field (bytes 28..32) and gives the view back.
    pub fn data_0_location(self, fld: u32) -> (r: Self)
        requires
            self.wf(),
        ensures
            r.bytes() == splice(self.bytes(), 28, spec_u32_to_le_bytes(fld)),
            r.wf(),
            final(r.store)@ == final(self.store)@,
    {
        write_u32(self.store, 28, fld);
        self
    }

    /// Reads the `data_0_location` field (bytes 28..32).
    pub fn get_data_0_location(&self) -> (r: u32)
        requires
            self.wf(),
        ensures
            r == u32_at(self.bytes(), 28),
    {
        read_u32(self.store, 28)
    }

    /// Writes `fld` to the `data_0_location` field (bytes 28..32).
    pub fn set_data_0_location(&mut self, fld: u32)
        requires
            old(self).wf(),
        ensures
            final(self).bytes() == splice(old(self).bytes(), 28, spec_u32_to_le_bytes(fld)),
            final(self).wf(),
            final(final(self).store)@ == final(old(self).store)@,
    {
        write_u32(self.store, 28, fld);
    }

    /// Writes `fld` to the `data_1_index` field (bytes 32..36) and gives the view back.
    pub fn data_1_index(self, fld: u32) -> (r: Self)
        requires
            self.wf(),
        ensures
            r.bytes() == splice(self.bytes(), 32, spec_u32_to_le_bytes(fld)),
            r.wf(),
            final(r.store)@ == final(self.store)@,
    {
        write_u32(self.store, 32, fld);
        self
    }

    /// Reads the `data_1_index` field (bytes 32..36).
    pub fn get_data_1_index(&self) -> (r: u32)
        requires
            self.wf(),
        ensures
            r == u32_at(self.bytes(), 32),
    {
        read_u32(self.store, 32)
    }

    /// Writes `fld` to the `data_1_index` field (bytes 32..36).
    pub fn set_data_1_index(&mut self, fld: u32)
        requires
            old(self).wf(),
        ensures
            final(self).bytes() == splice(old(self).bytes(), 32, spec_u32_to_le_bytes(fld)),
            final(self).wf(),
            final(final(self).store)@ == final(old(self).store)@,
    {
        write_u32(self.store, 32, fld);
    }

    /// Writes `fld` to the `data_1_type` field (bytes 36..40) and gives the view back.
    pub fn data_1_type(self, fld: u32) -> (r: Self)
        requires
            self.wf(),
        ensures
            r.bytes() == splice(self.bytes(), 36, spec_u32_to_le_bytes(fld)),
            r.wf(),
            final(r.store)@ == final(self.store)@,
    {
        write_u32(self.store, 36, fld);
        self
    }

    /// Reads the `data_1_type` field (bytes 36..40).
    pub fn get_data_1_type(&self) -> (r: u32)
        requires
            self.wf(),
        ensures
            r == u32_at(self.bytes(), 36),
    {
        read_u32(self.store, 36)
    }

    /// Writes `fld` to the `data_1_type` field (bytes 36..40).
    pub fn set_data_1_type(&mut self, fld: u32)
        requires
            old(self).wf(),
        ensures
            final(self).bytes() == splice(old(self).bytes(), 36, spec_u32_to_le_bytes(fld)),
            final(self).wf(),
            final(final(self).store)@ == final(old(self).store)@,
    {
        write_u32(self.store, 36, fld);
    }

    /// Writes `fld` to the `data_1_location` field (bytes 40..44) and gives the view back.
    pub fn data_1_location(self, fld: u32) -> (r: Self)
        requires
            self.wf(),
        ensures
            r.bytes() == splice(self.bytes(), 40, spec_u32_to_le_bytes(fld)),
            r.wf(),
            final(r.store)@ == final(self.store)@,
    {
        write_u32(self.store, 40, fld);
        self
    }

    /// Reads the `data_1_location` field (bytes 40..44).
    pub fn get_data_1_location(&self) -> (r: u32)
        requires
            self.wf(),
        ensures
            r == u32_at(self.bytes(), 40),
    {
        read_u32(self.store, 40)
    }

    /// Writes `fld` to the `data_1_location` field (bytes 40..44).
    pub fn set_data_1_location(&mut self, fld: u32)
        requires
            old(self).wf(),
        ensures
            final(self).bytes() == splice(old(self).bytes(), 40, spec_u32_to_le_bytes(fld)),
            final(self).wf(),
            final(final(self).store)@ == final(old(self).store)@,
    {
        write_u32(self.store, 40, fld);
    }

    /// Writes `fld` to the `data_2_index` field (bytes 44..48) and gives the view back.
    pub fn data_2_index(self, fld: u32) -> (r: Self)
        requires
            self.wf(),
        ensures
            r.bytes() == splice(self.bytes(), 44, spec_u32_to_le_bytes(fld)),
            r.wf(),
            final(r.store)@ == final(self.store)@,
    {
        write_u32(self.store, 44, fld);
        self
    }

    /// Reads the `data_2_index` field (bytes 44..48).
    pub fn get_data_2_index(&self) -> (r: u32)
        requires
            self.wf(),
        ensures
            r == u32_at(self.bytes(), 44),
    {
        read_u32(self.store, 44)
    }

    /// Writes `fld` to the `data_2_index` field (bytes 44..48).
    pub fn set_data_2_index(&mut self, fld: u32)
        requires
            old(self).wf(),
        ensures
            final(self).bytes() == splice(old(self).bytes(), 44, spec_u32_to_le_bytes(fld)),
            final(self).wf(),
            final(final(self).store)@ == final(old(self).store)@,
    {
        write_u32(self.store, 44, fld);
    }

    /// Writes `fld` to the `data_2_type` field (bytes 48..52) and gives the view back.
    pub fn data_2_type(self, fld: u32) -> (r: Self)
        requires
            self.wf(),
        ensures
            r.bytes() == splice(self.bytes(), 48, spec_u32_to_le_bytes(fld)),
            r.wf(),
            final(r.store)@ == final(self.store)@,
    {
        write_u32(self.store, 48, fld);
        self
    }

    /// Reads the `data_2_type` field (bytes 48..52).
    pub fn get_data_2_type(&self) -> (r: u32)
        requires
            self.wf(),
        ensures
            r == u32_at(self.bytes(), 48),
    {
        read_u32(self.store, 48)
    }

    /// Writes `fld` to the `data_2_type` field (bytes 48..52).
    pub fn set_data_2_type(&mut self, fld: u32)
        requires
            old(self).wf(),
        ensures
            final(self).bytes() == splice(old(self).bytes(), 48, spec_u32_to_le_bytes(fld)),
            final(self).wf(),
            final(final(self).store)@ == final(old(self).store)@,
    {
        write_u32(self.store, 48, fld);
    }

    /// Writes `fld` to the `data_2_location` field (bytes 52..56) and gives the view back.
    pub fn data_2_location(self, fld: u32) -> (r: Self)
        requires
            self.wf(),
        ensures
            r.bytes() == splice(self.bytes(), 52, spec_u32_to_le_bytes(fld)),
            r.wf(),
            final(r.store)@ == final(self.store)@,
    {
        write_u32(self.store, 52, fld);
        self
    }

    /// Reads the `data_2_location` field (bytes 52..56).
    pub fn get_data_2_location(&self) -> (r: u32)
        requires
            self.wf(),
        ensures
            r == u32_at(self.bytes(), 52),
    {
        read_u32(self.store, 52)
    }

    /// Writes `fld` to the `data_2_location` field (bytes 52..56).
    pub fn set_data_2_location(&mut self, fld: u32)
        requires
            old(self).wf(),
        ensures
            final(self).bytes() == splice(old(self).bytes(), 52, spec_u32_to_le_bytes(fld)),
            final(self).wf(),
            final(final(self).store)@ == final(old(self).store)@,
    {
        write_u32(self.store, 52, fld);
    }

    /// Writes `fld` to the `data_3_index` field (bytes 56..60) and gives the view back.
    pub fn data_3_index(self, fld: u32) -> (r: Self)
        requires
            self.wf(),
        ensures
            r.bytes() == splice(self.bytes(), 56, spec_u32_to_le_bytes(fld)),
            r.wf(),
            final(r.store)@ == final(self.store)@,
    {
        write_u32(self.store, 56, fld);
        self
    }

    /// Reads the `data_3_index` field (bytes 56..60).
    pub fn get_data_3_index(&self) -> (r: u32)
        requires
            self.wf(),
        ensures
            r == u32_at(self.bytes(), 56),
    {
        read_u32(self.store, 56)
    }

    /// Writes `fld` to the `data_3_index` field (bytes 56..60).
    pub fn set_data_3_index(&mut self, fld: u32)
        requires
            old(self).wf(),
        ensures
            final(self).bytes() == splice(old(self).bytes(), 56, spec_u32_to_le_bytes(fld)),
            final(self).wf(),
            final(final(self).store)@ == final(old(self).store)@,
    {
        write_u32(self.store, 56, fld);
    }

    /// Writes `fld` to the `data_3_type` field (bytes 60..64) and gives the view back.
    pub fn data_3_type(self, fld: u32) -> (r: Self)
        requires
            self.wf(),
        ensures
            r.bytes() == splice(self.bytes(), 60, spec_u32_to_le_bytes(fld)),
            r.wf(),
            final(r.store)@ == final(self.store)@,
    {
        write_u32(self.store, 60, fld);
        self
    }

    /// Reads the `data_3_type` field (bytes 60..64).
    pub fn get_data_3_type(&self) -> (r: u32)
        requires
            self.wf(),
        ensures
            r == u32_at(self.bytes(), 60),
    {
        read_u32(self.store, 60)
    }

    /// Writes `fld` to the `data_3_type` field (bytes 60..64).
    pub fn set_data_3_type(&mut self, fld: u32)
        requires
            old(self).wf(),
        ensures
            final(self).bytes() == splice(old(self).bytes(), 60, spec_u32_to_le_bytes(fld)),
            final(self).wf(),
            final(final(self).store)@ == final(old(self).store)@,
    {
        write_u32(self.store, 60, fld);
    }

    /// Writes `fld` to the `data_3_location` field (bytes 64..68) and gives the view back.
    pub fn data_3_location(self, fld: u32) -> (r: Self)
        requires
            self.wf(),
        ensures
            r.bytes() == splice(self.bytes(), 64, spec_u32_to_le_bytes(fld)),
            r.wf(),
            final(r.store)@ == final(self.store)@,
    {
        write_u32(self.store, 64, fld);
        self
    }

    /// Reads the `data_3_location` field (bytes 64..68).
    pub fn get_data_3_location(&self) -> (r: u32)
        requires
            self.wf(),
        ensures
            r == u32_at(self.bytes(), 64),
    {
        read_u32(self.store, 64)
    }

    /// Writes `fld` to the `data_3_location` field (bytes 64..68).
    pub fn set_data_3_location(&mut self, fld: u32)
        requires
            old(self).wf(),
        ensures
            final(self).bytes() == splice(old(self).bytes(), 64, spec_u32_to_le_bytes(fld)),
            final(self).wf(),
            final(final(self).store)@ == final(old(self).store)@,
    {
        write_u32(self.store, 64, fld);
    }

    /// Writes `fld` to the `platform` field (bytes 68..72) and gives the view back.
    pub fn platform(self, fld: u32) -> (r: Self)
        requires
            self.wf(),
        ensures
            r.bytes() == splice(self.bytes(), 68, spec_u32_to_le_bytes(fld)),
            r.wf(),
            final(r.store)@ == final(self.store)@,
    {
        write_u32(self.store, 68, fld);
        self
    }

    /// Reads the `platform` field (bytes 68..72).
    pub fn get_platform(&self) -> (r: u32)
        requires
            self.wf(),
        ensures
            r == u32_at(self.bytes(), 68),
    {
        read_u32(self.store, 68)
    }

    /// Writes `fld` to the `platform` field (bytes 68..72).
    pub fn set_platform(&mut self, fld: u32)
        requires
            old(self).wf(),
        ensures
            final(self).bytes() == splice(old(self).bytes(), 68, spec_u32_to_le_bytes(fld)),
            final(self).wf(),
            final(final(self).store)@ == final(old(self).store)@,
    {
        write_u32(self.store, 68, fld);
    }

}

/// View of the firmware structure `s_NV2080_CTRL_CE_GET_FAULT_METHOD_BUFFER_SIZE_PARAMS` (4 bytes).
pub struct s_NV2080_CTRL_CE_GET_FAULT_METHOD_BUFFER_SIZE_PARAMS<'s> {
    /// The buffer from the first byte of the structure to the end.
    pub store: &'s mut [u8],
}

impl<'s> s_NV2080_CTRL_CE_GET_FAULT_METHOD_BUFFER_SIZE_PARAMS<'s> {
    /// The bytes seen through this view.
    pub open spec fn bytes(&self) -> Seq<u8> {
        self.store@
    }

    /// The buffer holds at least the whole structure.
    pub open spec fn wf(&self) -> bool {
        self.store@.len() >= 4
    }

    /// Size of the structure in bytes.
    pub fn str_size() -> (n: usize)
        ensures
            n == 4,
    {
        4
    }

    /// Views `store` as this structure, starting at its first byte.
    pub fn new(store: &'s mut [u8]) -> (r: Self)
        requires
            old(store)@.len() >= 4,
        ensures
            r.bytes() == old(store)@,
            r.wf(),
            final(store)@ == final(r.store)@,
    {
        Self { store }
    }

    /// Writes `fld` to the `size` field (bytes 0..4) and gives the view back.
    pub fn size(self, fld: u32) -> (r: Self)
        requires
            self.wf(),
        ensures
            r.bytes() == splice(self.bytes(), 0, spec_u32_to_le_bytes(fld)),
            r.wf(),
            final(r.store)@ == final(self.store)@,
    {
        write_u32(self.store, 0, fld);
        self
    }

    /// Reads the `size` field (bytes 0..4).
    pub fn get_size(&self) -> (r: u32)
        requires
            self.wf(),
        ensures
            r == u32_at(self.bytes(), 0),
    {
        read_u32(self.store, 0)
    }

    /// Writes `fld` to the `size` field (bytes 0..4).
    pub fn set_size(&mut self, fld: u32)
        requires
            old(self).wf(),
        ensures
            final(self).bytes() == splice(old(self).bytes(), 0, spec_u32_to_le_bytes(fld)),
            final(self).wf(),
            final(final(self).store)@ == final(old(self).store)@,
    {
        write_u32(self.store, 0, fld);
    }

}

/// View of the firmware structure `s_NV2080_CTRL_EVENT_SET_NOTIFICATION_PARAMS` (20 bytes).
pub struct s_NV2080_CTRL_EVENT_SET_NOTIFICATION_PARAMS<'s> {
    /// The buffer from the first byte of the structure to the end.
    pub store: &'s mut [u8],
}

impl<'s> s_NV2080_CTRL_EVENT_SET_NOTIFICATION_PARAMS<'s> {
    /// The bytes seen through this view.
    pub open spec fn bytes(&self) -> Seq<u8> {
        self.store@
    }

    /// The buffer holds at least the whole structure.
    pub open spec fn wf(&self) -> bool {
        self.store@.len() >= 20
    }

    /// Size of the structure in bytes.
    pub fn str_size() -> (n: usize)
        ensures
            n == 20,
    {
        20
    }

    /// Views `store` as this structure, starting at its first byte.
    pub fn new(store: &'s mut [u8]) -> (r: Self)
        requires
            old(store)@.len() >= 20,
        ensures
            r.bytes() == old(store)@,
            r.wf(),
            final(store)@ == final(r.store)@,
    {
        Self { store }
    }

    /// Writes `fld` to the `event` field (bytes 0..4) and gives the view back.
    pub fn event(self, fld: u32) -> (r: Self)
        requires
            self.wf(),
        ensures
            r.bytes() == splice(self.bytes(), 0, spec_u32_to_le_bytes(fld)),
            r.wf(),
            final(r.store)@ == final(self.store)@,
    {
        write_u32(self.store, 0, fld);
        self
    }

    /// Reads the `event` field (bytes 0..4).
    pub fn get_event(&self) -> (r: u32)
        requires
            self.wf(),
        ensures
            r == u32_at(self.bytes(), 0),
    {
        read_u32(self.store, 0)
    }

    /// Writes `fld` to the `event` field (bytes 0..4).
    pub fn set_event(&mut self, fld: u32)
        requires
            old(self).wf(),
        ensures
            final(self).bytes() == splice(old(self).bytes(), 0, spec_u32_to_le_bytes(fld)),
            final(self).wf(),
            final(final(self).store)@ == final(old(self).store)@,
    {
        write_u32(self.store, 0, fld);
    }

    /// Writes `fld` to the `action` field (bytes 4..8) and gives the view back.
    pub fn action(self, fld: u32) -> (r: Self)
        requires
            self.wf(),
        ensures
            r.bytes() == splice(self.bytes(), 4, spec_u32_to_le_bytes(fld)),
            r.wf(),
            final(r.store)@ == final(self.store)@,
    {
        write_u32(self.store, 4, fld);
        self
    }

    /// Reads the `action` field (bytes 4..8).
    pub fn get_action(&self) -> (r: u32)
        requires
            self.wf(),
        ensures
            r == u32_at(self.bytes(), 4),
    {
        read_u32(self.store, 4)
    }

    /// Writes `fld` to the `action` field (bytes 4..8).
    pub fn set_action(&mut self, fld: u32)
        requires
            old(self).wf(),
        ensures
            final(self).bytes() == splice(old(self).bytes(), 4, spec_u32_to_le_bytes(fld)),
            final(self).wf(),
            final(final(self).store)@ == final(old(self).store)@,
    {
        write_u32(self.store, 4, fld);
    }

    /// Writes `fld` to the `bNotifyState` field (bytes 8..9) and gives the view back.
    pub fn bNotifyState(self, fld: u8) -> (r: Self)
        requires
            self.wf(),
        ensures
            r.bytes() == splice(self.bytes(), 8, seq![fld]),
            r.wf(),
            final(r.store)@ == final(self.store)@,
    {
        write_u8(self.store, 8, fld);
        self
    }

    /// Reads the `bNotifyState` field (bytes 8..9).
    pub fn get_bNotifyState(&self) -> (r: u8)
        requires
            self.wf(),
        ensures
            r == self.bytes()[8],
    {
        read_u8(self.store, 8)
    }

    /// Writes `fld` to the `bNotifyState` field (bytes 8..9).
    pub fn set_bNotifyState(&mut self, fld: u8)
        requires
            old(self).wf(),
        ensures
            final(self).bytes() == splice(old(self).bytes(), 8, seq![fld]),
            final(self).wf(),
            final(final(self).store)@ == final(old(self).store)@,
    {
        write_u8(self.store, 8, fld);
    }

    /// Writes `fld` to the `info32` field (bytes 12..16) and gives the view back.
    pub fn info32(self, fld: u32) -> (r: Self)
        requires
            self.wf(),
        ensures
            r.bytes() == splice(self.bytes(), 12, spec_u32_to_le_bytes(fld)),
            r.wf(),
            final(r.store)@ == final(self.store)@,
    {
        write_u32(self.store, 12, fld);
        self
    }

    /// Reads the `info32` field (bytes 12..16).
    pub fn get_info32(&self) -> (r: u32)
        requires
            self.wf(),
        ensures
            r == u32_at(self.bytes(), 12),
    {
        read_u32(self.store, 12)
    }

    /// Writes `fld` to the `info32` field (bytes 12..16).
    pub fn set_info32(&mut self, fld: u32)
        requires
            old(self).wf(),
        ensures
            final(self).bytes() == splice(old(self).bytes(), 12, spec_u32_to_le_bytes(fld)),
            final(self).wf(),
            final(final(self).store)@ == final(old(self).store)@,
    {
        write_u32(self.store, 12, fld);
    }

    /// Writes `fld` to the `info16` field (bytes 16..18) and gives the view back.
    pub fn info16(self, fld: u16) -> (r: Self)
        requires
            self.wf(),
        ensures
            r.bytes() == splice(self.bytes(), 16, spec_u16_to_le_bytes(fld)),
            r.wf(),
            final(r.store)@ == final(self.store)@,
    {
        write_u16(self.store, 16, fld);
        self
    }

    /// Reads the `info16` field (bytes 16..18).
    pub fn get_info16(&self) -> (r: u16)
        requires
            self.wf(),
        ensures
            r == u16_at(self.bytes(), 16),
    {
        read_u16(self.store, 16)
    }

    /// Writes `fld` to the `info16` field (bytes 16..18).
    pub fn set_info16(&mut self, fld: u16)
        requires
            old(self).wf(),
        ensures
            final(self).bytes() == splice(old(self).bytes(), 16, spec_u16_to_le_bytes(fld)),
            final(self).wf(),
            final(final(self).store)@ == final(old(self).store)@,
    {
        write_u16(self.store, 16, fld);
    }

}

/// View of the firmware structure `s_NV2080_CTRL_FIFO_GET_DEVICE_INFO_TABLE_PARAMS` (3212 bytes).
pub struct s_NV2080_CTRL_FIFO_GET_DEVICE_INFO_TABLE_PARAMS<'s> {
    /// The buffer from the first byte of the structure to the end.
    pub store: &'s mut [u8],
}

impl<'s> s_NV2080_CTRL_FIFO_GET_DEVICE_INFO_TABLE_PARAMS<'s> {
    /// The bytes seen through this view.
    pub open spec fn bytes(&self) -> Seq<u8> {
        self.store@
    }

    /// The buffer holds at least the whole structure.
    pub open spec fn wf(&self) -> bool {
        self.store@.len() >= 3212
    }

    /// Size of the structure in bytes.
    pub fn str_size() -> (n: usize)
        ensures
            n == 3212,
    {
        3212
    }

    /// Views `store` as this structure, starting at its first byte.
    pub fn new(store: &'s mut [u8]) -> (r: Self)
        requires
            old(store)@.len() >= 3212,
        ensures
            r.bytes() == old(store)@,
            r.wf(),
            final(store)@ == final(r.store)@,
    {
        Self { store }
    }

    /// Writes `fld` to the `baseIndex` field (bytes 0..4) and gives the view back.
    pub fn baseIndex(self, fld: u32) -> (r: Self)
        requires
            self.wf(),
        ensures
            r.bytes() == splice(self.bytes(), 0, spec_u32_to_le_bytes(fld)),
            r.wf(),
            final(r.store)@ == final(self.store)@,
    {
        write_u32(self.store, 0, fld);
        self
    }

    /// Reads the `baseIndex` field (bytes 0..4).
    pub fn get_baseIndex(&self) -> (r: u32)
        requires
            self.wf(),
        ensures
            r == u32_at(self.bytes(), 0),
    {
        read_u32(self.store, 0)
    }

    /// Writes `fld` to the `baseIndex` field (bytes 0..4).
    pub fn set_baseIndex(&mut self, fld: u32)
        requires
            old(self).wf(),
        ensures
            final(self).bytes() == splice(old(self).bytes(), 0, spec_u32_to_le_bytes(fld)),
            final(self).wf(),
            final(final(self).store)@ == final(old(self).store)@,
    {
        write_u32(self.store, 0, fld);
    }

    /// Writes `fld` to the `numEntries` field (bytes 4..8) and gives the view back.
    pub fn numEntries(self, fld: u32) -> (r: Self)
        requires
            self.wf(),
        ensures
            r.bytes() == splice(self.bytes(), 4, spec_u32_to_le_bytes(fld)),
            r.wf(),
            final(r.store)@ == final(self.store)@,
    {
        write_u32(self.store, 4, fld);
        self
    }

    /// Reads the `numEntries` field (bytes 4..8).
    pub fn get_numEntries(&self) -> (r: u32)
        requires
            self.wf(),
        ensures
            r == u32_at(self.bytes(), 4),
    {
        read_u32(self.store, 4)
    }

    /// Writes `fld` to the `numEntries` field (bytes 4..8).
    pub fn set_numEntries(&mut self, fld: u32)
        requires
            old(self).wf(),
        ensures
            final(self).bytes() == splice(old(self).bytes(), 4, spec_u32_to_le_bytes(fld)),
            final(self).wf(),
            final(final(self).store)@ == final(old(self).store)@,
    {
        write_u32(self.store, 4, fld);
    }

    /// Writes `fld` to the `bMore` field (bytes 8..9) and gives the view back.
    pub fn bMore(self, fld: u8) -> (r: Self)
        requires
            self.wf(),
        ensures
            r.bytes() == splice(self.bytes(), 8, seq![fld]),
            r.wf(),
            final(r.store)@ == final(self.store)@,
    {
        write_u8(self.store, 8, fld);
        self
    }

    /// Reads the `bMore` field (bytes 8..9).
    pub fn get_bMore(&self) -> (r: u8)
        requires
            self.wf(),
        ensures
            r == self.bytes()[8],
    {
        read_u8(self.store, 8)
    }

    /// Writes `fld` to the `bMore` field (bytes 8..9).
    pub fn set_bMore(&mut self, fld: u8)
        requires
            old(self).wf(),
        ensures
            final(self).bytes() == splice(old(self).bytes(), 8, seq![fld]),
            final(self).wf(),
            final(final(self).store)@ == final(old(self).store)@,
    {
        write_u8(self.store, 8, fld);
    }

    /// View of entry `idx` of the `entries` table, whose entries are 100 bytes apart
    /// from byte 12 on.
    pub fn new_S_entries(&mut self, idx: isize) -> (r: s_NV2080_CTRL_FIFO_DEVICE_ENTRY<'_>)
        requires
            old(self).wf(),
            0 <= idx,
            idx * 100 + 12 + 100 <= old(self).bytes().len(),
        ensures
            r.bytes() == old(self).bytes().subrange(idx * 100 + 12, old(self).bytes().len() as int),
            r.wf(),
            final(self).bytes() == old(self).bytes().subrange(0, idx * 100 + 12) + final(r.store)@,
            final(final(self).store)@ == final(old(self).store)@,
    {
        proof {
            assert(self.store@.len() == self.store.len());
        }
        let off = idx as usize * 100 + 12;
        let (_head, tail) = self.store.split_at_mut(off);
        s_NV2080_CTRL_FIFO_DEVICE_ENTRY { store: tail }
    }

}

/// View of the firmware structure `s_NV2080_CTRL_FIFO_DEVICE_ENTRY` (100 bytes).
pub struct s_NV2080_CTRL_FIFO_DEVICE_ENTRY<'s> {
    /// The buffer from the first byte of the structure to the end.
    pub store: &'s mut [u8],
}

impl<'s> s_NV2080_CTRL_FIFO_DEVICE_ENTRY<'s> {
    /// The bytes seen through this view.
    pub open spec fn bytes(&self) -> Seq<u8> {
        self.store@
    }

    /// The buffer holds at least the whole structure.
    pub open spec fn wf(&self) -> bool {
        self.store@.len() >= 100
    }

    /// Size of the structure in bytes.
    pub fn str_size() -> (n: usize)
        ensures
            n == 100,
    {
        100
    }

    /// Views `store` as this structure, starting at its first byte.
    pub fn new(store: &'s mut [u8]) -> (r: Self)
        requires
            old(store)@.len() >= 100,
        ensures
            r.bytes() == old(store)@,
            r.wf(),
            final(store)@ == final(r.store)@,
    {
        Self { store }
    }

    /// Writes `fld` to the `engineData` field (bytes 0..64) and gives the view back.
    pub fn engineData(self, fld: [u32; 16]) -> (r: Self)
        requires
            self.wf(),
        ensures
            r.bytes() == splice(self.bytes(), 0, u32s_to_le(fld@)),
            r.wf(),
            final(r.store)@ == final(self.store)@,
    {
        write_u32s(self.store, 0, &fld);
        self
    }

    /// Writes `fld` to the `engineData` field (bytes 0..64).
    pub fn set_engineData(&mut self, fld: [u32; 16])
        requires
            old(self).wf(),
        ensures
            final(self).bytes() == splice(old(self).bytes(), 0, u32s_to_le(fld@)),
            final(self).wf(),
            final(final(self).store)@ == final(old(self).store)@,
    {
        write_u32s(self.store, 0, &fld);
    }

    /// Reads the `engineData` array (bytes 0..64).
    pub fn get_engineData(&mut self) -> (r: [u32; 16])
        requires
            old(self).wf(),
        ensures
            r@ == u32s_at(old(self).bytes(), 0, 16),
            final(self).bytes() == old(self).bytes(),
            final(final(self).store)@ == final(old(self).store)@,
    {
        read_u32s(self.store, 0)
    }

    /// Writes `fld` to the `pbdmaIds` field (bytes 64..72) and gives the view back.
    pub fn pbdmaIds(self, fld: [u32; 2]) -> (r: Self)
        requires
            self.wf(),
        ensures
            r.bytes() == splice(self.bytes(), 64, u32s_to_le(fld@)),
            r.wf(),
            final(r.store)@ == final(self.store)@,
    {
        write_u32s(self.store, 64, &fld);
        self
    }

    /// Writes `fld` to the `pbdmaIds` field (bytes 64..72).
    pub fn set_pbdmaIds(&mut self, fld: [u32; 2])
        requires
            old(self).wf(),
        ensures
            final(self).bytes() == splice(old(self).bytes(), 64, u32s_to_le(fld@)),
            final(self).wf(),
            final(final(self).store)@ == final(old(self).store)@,
    {
        write_u32s(self.store, 64, &fld);
    }

    /// Reads the `pbdmaIds` array (bytes 64..72).
    pub fn get_pbdmaIds(&mut self) -> (r: [u32; 2])
        requires
            old(self).wf(),
        ensures
            r@ == u32s_at(old(self).bytes(), 64, 2),
            final(self).bytes() == old(self).bytes(),
            final(final(self).store)@ == final(old(self).store)@,
    {
        read_u32s(self.store, 64)
    }

    /// Writes `fld` to the `pbdmaFaultIds` field (bytes 72..80) and gives the view back.
    pub fn pbdmaFaultIds(self, fld: [u32; 2]) -> (r: Self)
        requires
            self.wf(),
        ensures
            r.bytes() == splice(self.bytes(), 72, u32s_to_le(fld@)),
            r.wf(),
            final(r.store)@ == final(self.store)@,
    {
        write_u32s(self.store, 72, &fld);
        self
    }

    /// Writes `fld` to the `pbdmaFaultIds` field (bytes 72..80).
    pub fn set_pbdmaFaultIds(&mut self, fld: [u32; 2])
        requires
            old(self).wf(),
        ensures
            final(self).bytes() == splice(old(self).bytes(), 72, u32s_to_le(fld@)),
            final(self).wf(),
            final(final(self).store)@ == final(old(self).store)@,
    {
        write_u32s(self.store, 72, &fld);
    }

    /// Reads the `pbdmaFaultIds` array (bytes 72..80).
    pub fn get_pbdmaFaultIds(&mut self) -> (r: [u32; 2])
        requires
            old(self).wf(),
        ensures
            r@ == u32s_at(old(self).bytes(), 72, 2),
            final(self).bytes() == old(self).bytes(),
            final(final(self).store)@ == final(old(self).store)@,
    {
        read_u32s(self.store, 72)
    }

    /// Writes `fld` to the `numPbdmas` field (bytes 80..84) and gives the view back.
    pub fn numPbdmas(self, fld: u32) -> (r: Self)
        requires
            self.wf(),
        ensures
            r.bytes() == splice(self.bytes(), 80, spec_u32_to_le_bytes(fld)),
            r.wf(),
            final(r.store)@ == final(self.store)@,
    {
        write_u32(self.store, 80, fld);
        self
    }

    /// Reads the `numPbdmas` field (bytes 80..84).
    pub fn get_numPbdmas(&self) -> (r: u32)
        requires
            self.wf(),
        ensures
            r == u32_at(self.bytes(), 80),
    {
        read_u32(self.store, 80)
    }

    /// Writes `fld` to the `numPbdmas` field (bytes 80..84).
    pub fn set_numPbdmas(&mut self, fld: u32)
        requires
            old(self).wf(),
        ensures
            final(self).bytes() == splice(old(self).bytes(), 80, spec_u32_to_le_bytes(fld)),
            final(self).wf(),
            final(final(self).store)@ == final(old(self).store)@,
    {
        write_u32(self.store, 80, fld);
    }

    /// Writes `fld` to the `engineName` field (bytes 84..100) and gives the view back.
    pub fn engineName(self, fld: [u8; 16]) -> (r: Self)
        requires
            self.wf(),
        ensures
            r.bytes() == splice(self.bytes(), 84, fld@),
            r.wf(),
            final(r.store)@ == final(self.store)@,
    {
        write_u8s(self.store, 84, &fld);
        self
    }

    /// Writes `fld` to the `engineName` field (bytes 84..100).
    pub fn set_engineName(&mut self, fld: [u8; 16])
        requires
            old(self).wf(),
        ensures
            final(self).bytes() == splice(old(self).bytes(), 84, fld@),
            final(self).wf(),
            final(final(self).store)@ == final(old(self).store)@,
    {
        write_u8s(self.store, 84, &fld);
    }

    /// Reads the `engineName` array (bytes 84..100).
    pub fn get_engineName(&mut self) -> (r: [u8; 16])
        requires
            old(self).wf(),
        ensures
            r@ == old(self).bytes().subrange(84, 100),
            final(self).bytes() == old(self).bytes(),
            final(final(self).store)@ == final(old(self).store)@,
    {
        read_u8s(self.store, 84)
    }

}

/// View of the firmware structure `s_NV2080_CTRL_GPU_GET_FERMI_TPC_INFO_PARAMS` (8 bytes).
pub struct s_NV2080_CTRL_GPU_GET_FERMI_TPC_INFO_PARAMS<'s> {
    /// The buffer from the first byte of the structure to the end.
    pub store: &'s mut [u8],
}

impl<'s> s_NV2080_CTRL_GPU_GET_FERMI_TPC_INFO_PARAMS<'s> {
    /// The bytes seen through this view.
    pub open spec fn bytes(&self) -> Seq<u8> {
        self.store@
    }

    /// The buffer holds at least the whole structure.
    pub open spec fn wf(&self) -> bool {
        self.store@.len() >= 8
    }

    /// Size of the structure in bytes.
    pub fn str_size() -> (n: usize)
        ensures
            n == 8,
    {
        8
    }

    /// Views `store` as this structure, starting at its first byte.
    pub fn new(store: &'s mut [u8]) -> (r: Self)
        requires
            old(store)@.len() >= 8,
        ensures
            r.bytes() == old(store)@,
            r.wf(),
            final(store)@ == final(r.store)@,
    {
        Self { store }
    }

    /// Writes `fld` to the `gpcId` field (bytes 0..4) and gives the view back.
    pub fn gpcId(self, fld: u32) -> (r: Self)
        requires
            self.wf(),
        ensures
            r.bytes() == splice(self.bytes(), 0, spec_u32_to_le_bytes(fld)),
            r.wf(),
            final(r.store)@ == final(self.store)@,
    {
        write_u32(self.store, 0, fld);
        self
    }

    /// Reads the `gpcId` field (bytes 0..4).
    pub fn get_gpcId(&self) -> (r: u32)
        requires
            self.wf(),
        ensures
            r == u32_at(self.bytes(), 0),
    {
        read_u32(self.store, 0)
    }

    /// Writes `fld` to the `gpcId` field (bytes 0..4).
    pub fn set_gpcId(&mut self, fld: u32)
        requires
            old(self).wf(),
        ensures
            final(self).bytes() == splice(old(self).bytes(), 0, spec_u32_to_le_bytes(fld)),
            final(self).wf(),
            final(final(self).store)@ == final(old(self).store)@,
    {
        write_u32(self.store, 0, fld);
    }

    /// Writes `fld` to the `tpcMask` field (bytes 4..8) and gives the view back.
    pub fn tpcMask(self, fld: u32) -> (r: Self)
        requires
            self.wf(),
        ensures
            r.bytes() == splice(self.bytes(), 4, spec_u32_to_le_bytes(fld)),
            r.wf(),
            final(r.store)@ == final(self.store)@,
    {
        write_u32(self.store, 4, fld);
        self
    }

    /// Reads the `tpcMask` field (bytes 4..8).
    pub fn get_tpcMask(&self) -> (r: u32)
        requires
            self.wf(),
        ensures
            r == u32_at(self.bytes(), 4),
    {
        read_u32(self.store, 4)
    }

    /// Writes `fld` to the `tpcMask` field (bytes 4..8).
    pub fn set_tpcMask(&mut self, fld: u32)
        requires
            old(self).wf(),
        ensures
            final(self).bytes() == splice(old(self).bytes(), 4, spec_u32_to_le_bytes(fld)),
            final(self).wf(),
            final(final(self).store)@ == final(old(self).store)@,
    {
        write_u32(self.store, 4, fld);
    }

}

/// View of the firmware structure `s_NV2080_CTRL_GPU_GET_FERMI_GPC_INFO_PARAMS` (4 bytes).
pub struct s_NV2080_CTRL_GPU_GET_FERMI_GPC_INFO_PARAMS<'s> {
    /// The buffer from the first byte of the structure to the end.
    pub store: &'s mut [u8],
}

impl<'s> s_NV2080_CTRL_GPU_GET_FERMI_GPC_INFO_PARAMS<'s> {
    /// The bytes seen through this view.
    pub open spec fn bytes(&self) -> Seq<u8> {
        self.store@
    }

    /// The buffer holds at least the whole structure.
    pub open spec fn wf(&self) -> bool {
        self.store@.len() >= 4
    }

    /// Size of the structure in bytes.
    pub fn str_size() -> (n: usize)
        ensures
            n == 4,
    {
        4
    }

    /// Views `store` as this structure, starting at its first byte.
    pub fn new(store: &'s mut [u8]) -> (r: Self)
        requires
            old(store)@.len() >= 4,
        ensures
            r.bytes() == old(store)@,
            r.wf(),
            final(store)@ == final(r.store)@,
    {
        Self { store }
    }

    /// Writes `fld` to the `gpcMask` field (bytes 0..4) and gives the view back.
    pub fn gpcMask(self, fld: u32) -> (r: Self)
        requires
            self.wf(),
        ensures
            r.bytes() == splice(self.bytes(), 0, spec_u32_to_le_bytes(fld)),
            r.wf(),
            final(r.store)@ == final(self.store)@,
    {
        write_u32(self.store, 0, fld);
        self
    }

    /// Reads the `gpcMask` field (bytes 0..4).
    pub fn get_gpcMask(&self) -> (r: u32)
        requires
            self.wf(),
        ensures
            r == u32_at(self.bytes(), 0),
    {
        read_u32(self.store, 0)
    }

    /// Writes `fld` to the `gpcMask` field (bytes 0..4).
    pub fn set_gpcMask(&mut self, fld: u32)
        requires
            old(self).wf(),
        ensures
            final(self).bytes() == splice(old(self).bytes(), 0, spec_u32_to_le_bytes(fld)),
            final(self).wf(),
            final(final(self).store)@ == final(old(self).store)@,
    {
        write_u32(self.store, 0, fld);
    }

}

/// View of the firmware structure `s_NV2080_CTRL_GPU_PROMOTE_CTX_PARAMS` (560 bytes).
pub struct s_NV2080_CTRL_GPU_PROMOTE_CTX_PARAMS<'s> {
    /// The buffer from the first byte of the structure to the end.
    pub store: &'s mut [u8],
}

impl<'s> s_NV2080_CTRL_GPU_PROMOTE_CTX_PARAMS<'s> {
    /// The bytes seen through this view.
    pub open spec fn bytes(&self) -> Seq<u8> {
        self.store@
    }

    /// The buffer holds at least the whole structure.
    pub open spec fn wf(&self) -> bool {
        self.store@.len() >= 560
    }

    /// Size of the structure in bytes.
    pub fn str_size() -> (n: usize)
        ensures
            n == 560,
    {
        560
    }

    /// Views `store` as this structure, starting at its first byte.
    pub fn new(store: &'s mut [u8]) -> (r: Self)
        requires
            old(store)@.len() >= 560,
        ensures
            r.bytes() == old(store)@,
            r.wf(),
            final(store)@ == final(r.store)@,
    {
        Self { store }
    }

    /// Writes `fld` to the `engineType` field (bytes 0..4) and gives the view back.
    pub fn engineType(self, fld: u32) -> (r: Self)
        requires
            self.wf(),
        ensures
            r.bytes() == splice(self.bytes(), 0, spec_u32_to_le_bytes(fld)),
            r.wf(),
            final(r.store)@ == final(self.store)@,
    {
        write_u32(self.store, 0, fld);
        self
    }

    /// Reads the `engineType` field (bytes 0..4).
    pub fn get_engineType(&self) -> (r: u32)
        requires
            self.wf(),
        ensures
            r == u32_at(self.bytes(), 0),
    {
        read_u32(self.store, 0)
    }

    /// Writes `fld` to the `engineType` field (bytes 0..4).
    pub fn set_engineType(&mut self, fld: u32)
        requires
            old(self).wf(),
        ensures
            final(self).bytes() == splice(old(self).bytes(), 0, spec_u32_to_le_bytes(fld)),
            final(self).wf(),
            final(final(self).store)@ == final(old(self).store)@,
    {
        write_u32(self.store, 0, fld);
    }

    /// Writes `fld` to the `hClient` field (bytes 4..8) and gives the view back.
    pub fn hClient(self, fld: u32) -> (r: Self)
        requires
            self.wf(),
        ensures
            r.bytes() == splice(self.bytes(), 4, spec_u32_to_le_bytes(fld)),
            r.wf(),
            final(r.store)@ == final(self.store)@,
    {
        write_u32(self.store, 4, fld);
        self
    }

    /// Reads the `hClient` field (bytes 4..8).
    pub fn get_hClient(&self) -> (r: u32)
        requires
            self.wf(),
        ensures
            r == u32_at(self.bytes(), 4),
    {
        read_u32(self.store, 4)
    }

    /// Writes `fld` to the `hClient` field (bytes 4..8).
    pub fn set_hClient(&mut self, fld: u32)
        requires
            old(self).wf(),
        ensures
            final(self).bytes() == splice(old(self).bytes(), 4, spec_u32_to_le_bytes(fld)),
            final(self).wf(),
            final(final(self).store)@ == final(old(self).store)@,
    {
        write_u32(self.store, 4, fld);
    }

    /// Writes `fld` to the `ChID` field (bytes 8..12) and gives the view back.
    pub fn ChID(self, fld: u32) -> (r: Self)
        requires
            self.wf(),
        ensures
            r.bytes() == splice(self.bytes(), 8, spec_u32_to_le_bytes(fld)),
            r.wf(),
            final(r.store)@ == final(self.store)@,
    {
        write_u32(self.store, 8, fld);
        self
    }

    /// Reads the `ChID` field (bytes 8..12).
    pub fn get_ChID(&self) -> (r: u32)
        requires
            self.wf(),
        ensures
            r == u32_at(self.bytes(), 8),
    {
        read_u32(self.store, 8)
    }

    /// Writes `fld` to the `ChID` field (bytes 8..12).
    pub fn set_ChID(&mut self, fld: u32)
        requires
            old(self).wf(),
        ensures
            final(self).bytes() == splice(old(self).bytes(), 8, spec_u32_to_le_bytes(fld)),
            final(self).wf(),
            final(final(self).store)@ == final(old(self).store)@,
    {
        write_u32(self.store, 8, fld);
    }

    /// Writes `fld` to the `hChanClient` field (bytes 12..16) and gives the view back.
    pub fn hChanClient(self, fld: u32) -> (r: Self)
        requires
            self.wf(),
        ensures
            r.bytes() == splice(self.bytes(), 12, spec_u32_to_le_bytes(fld)),
            r.wf(),
            final(r.store)@ == final(self.store)@,
    {
        write_u32(self.store, 12, fld);
        self
    }

    /// Reads the `hChanClient` field (bytes 12..16).
    pub fn get_hChanClient(&self) -> (r: u32)
        requires
            self.wf(),
        ensures
            r == u32_at(self.bytes(), 12),
    {
        read_u32(self.store, 12)
    }

    /// Writes `fld` to the `hChanClient` field (bytes 12..16).
    pub fn set_hChanClient(&mut self, fld: u32)
        requires
            old(self).wf(),
        ensures
            final(self).bytes() == splice(old(self).bytes(), 12, spec_u32_to_le_bytes(fld)),
            final(self).wf(),
            final(final(self).store)@ == final(old(self).store)@,
    {
        write_u32(self.store, 12, fld);
    }

    /// Writes `fld` to the `hObject` field (bytes 16..20) and gives the view back.
    pub fn hObject(self, fld: u32) -> (r: Self)
        requires
            self.wf(),
        ensures
            r.bytes() == splice(self.bytes(), 16, spec_u32_to_le_bytes(fld)),
            r.wf(),
            final(r.store)@ == final(self.store)@,
    {
        write_u32(self.store, 16, fld);
        self
    }

    /// Reads the `hObject` field (bytes 16..20).
    pub fn get_hObject(&self) -> (r: u32)
        requires
            self.wf(),
        ensures
            r == u32_at(self.bytes(), 16),
    {
        read_u32(self.store, 16)
    }

    /// Writes `fld` to the `hObject` field (bytes 16..20).
    pub fn set_hObject(&mut self, fld: u32)
        requires
            old(self).wf(),
        ensures
            final(self).bytes() == splice(old(self).bytes(), 16, spec_u32_to_le_bytes(fld)),
            final(self).wf(),
            final(final(self).store)@ == final(old(self).store)@,
    {
        write_u32(self.store, 16, fld);
    }

    /// Writes `fld` to the `hVirtMemory` field (bytes 20..24) and gives the view back.
    pub fn hVirtMemory(self, fld: u32) -> (r: Self)
        requires
            self.wf(),
        ensures
            r.bytes() == splice(self.bytes(), 20, spec_u32_to_le_bytes(fld)),
            r.wf(),
            final(r.store)@ == final(self.store)@,
    {
        write_u32(self.store, 20, fld);
        self
    }

    /// Reads the `hVirtMemory` field (bytes 20..24).
    pub fn get_hVirtMemory(&self) -> (r: u32)
        requires
            self.wf(),
        ensures
            r == u32_at(self.bytes(), 20),
    {
        read_u32(self.store, 20)
    }

    /// Writes `fld` to the `hVirtMemory` field (bytes 20..24).
    pub fn set_hVirtMemory(&mut self, fld: u32)
        requires
            old(self).wf(),
        ensures
            final(self).bytes() == splice(old(self).bytes(), 20, spec_u32_to_le_bytes(fld)),
            final(self).wf(),
            final(final(self).store)@ == final(old(self).store)@,
    {
        write_u32(self.store, 20, fld);
    }

    /// Writes `fld` to the `virtAddress` field (bytes 24..32) and gives the view back.
    pub fn virtAddress(self, fld: u64) -> (r: Self)
        requires
            self.wf(),
        ensures
            r.bytes() == splice(self.bytes(), 24, spec_u64_to_le_bytes(fld)),
            r.wf(),
            final(r.store)@ == final(self.store)@,
    {
        write_u64(self.store, 24, fld);
        self
    }

    /// Reads the `virtAddress` field (bytes 24..32).
    pub fn get_virtAddress(&self) -> (r: u64)
        requires
            self.wf(),
        ensures
            r == u64_at(self.bytes(), 24),
    {
        read_u64(self.store, 24)
    }

    /// Writes `fld` to the `virtAddress` field (bytes 24..32).
    pub fn set_virtAddress(&mut self, fld: u64)
        requires
            old(self).wf(),
        ensures
            final(self).bytes() == splice(old(self).bytes(), 24, spec_u64_to_le_bytes(fld)),
            final(self).wf(),
            final(final(self).store)@ == final(old(self).store)@,
    {
        write_u64(self.store, 24, fld);
    }

    /// Writes `fld` to the `size` field (bytes 32..40) and gives the view back.
    pub fn size(self, fld: u64) -> (r: Self)
        requires
            self.wf(),
        ensures
            r.bytes() == splice(self.bytes(), 32, spec_u64_to_le_bytes(fld)),
            r.wf(),
            final(r.store)@ == final(self.store)@,
    {
        write_u64(self.store, 32, fld);
        self
    }

    /// Reads the `size` field (bytes 32..40).
    pub fn get_size(&self) -> (r: u64)
        requires
            self.wf(),
        ensures
            r == u64_at(self.bytes(), 32),
    {
        read_u64(self.store, 32)
    }

    /// Writes `fld` to the `size` field (bytes 32..40).
    pub fn set_size(&mut self, fld: u64)
        requires
            old(self).wf(),
        ensures
            final(self).bytes() == splice(old(self).bytes(), 32, spec_u64_to_le_bytes(fld)),
            final(self).wf(),
            final(final(self).store)@ == final(old(self).store)@,
    {
        write_u64(self.store, 32, fld);
    }

    /// Writes `fld` to the `entryCount` field (bytes 40..44) and gives the view back.
    pub fn entryCount(self, fld: u32) -> (r: Self)
        requires
            self.wf(),
        ensures
            r.bytes() == splice(self.bytes(), 40, spec_u32_to_le_bytes(fld)),
            r.wf(),
            final(r.store)@ == final(self.store)@,
    {
        write_u32(self.store, 40, fld);
        self
    }

    /// Reads the `entryCount` field (bytes 40..44).
    pub fn get_entryCount(&self) -> (r: u32)
        requires
            self.wf(),
        ensures
            r == u32_at(self.bytes(), 40),
    {
        read_u32(self.store, 40)
    }

    /// Writes `fld` to the `entryCount` field (bytes 40..44).
    pub fn set_entryCount(&mut self, fld: u32)
        requires
            old(self).wf(),
        ensures
            final(self).bytes() == splice(old(self).bytes(), 40, spec_u32_to_le_bytes(fld)),
            final(self).wf(),
            final(final(self).store)@ == final(old(self).store)@,
    {
        write_u32(self.store, 40, fld);
    }

    /// View of entry `idx` of the `promoteEntry` table, whose entries are 32 bytes apart
    /// from byte 48 on.
    pub fn new_S_promoteEntry(&mut self, idx: isize) -> (r: s_NV2080_CTRL_GPU_PROMOTE_CTX_BUFFER_ENTRY<'_>)
        requires
            old(self).wf(),
            0 <= idx,
            idx * 32 + 48 + 32 <= old(self).bytes().len(),
        ensures
            r.bytes() == old(self).bytes().subrange(idx * 32 + 48, old(self).bytes().len() as int),
            r.wf(),
            final(self).bytes() == old(self).bytes().subrange(0, idx * 32 + 48) + final(r.store)@,
            final(final(self).store)@ == final(old(self).store)@,
    {
        proof {
            assert(self.store@.len() == self.store.len());
        }
        let off = idx as usize * 32 + 48;
        let (_head, tail) = self.store.split_at_mut(off);
        s_NV2080_CTRL_GPU_PROMOTE_CTX_BUFFER_ENTRY { store: tail }
    }

}

/// View of the firmware structure `s_NV2080_CTRL_GPU_PROMOTE_CTX_BUFFER_ENTRY` (32 bytes).
pub struct s_NV2080_CTRL_GPU_PROMOTE_CTX_BUFFER_ENTRY<'s> {
    /// The buffer from the first byte of the structure to the end.
    pub store: &'s mut [u8],
}

impl<'s> s_NV2080_CTRL_GPU_PROMOTE_CTX_BUFFER_ENTRY<'s> {
    /// The bytes seen through this view.
    pub open spec fn bytes(&self) -> Seq<u8> {
        self.store@
    }

    /// The buffer holds at least the whole structure.
    pub open spec fn wf(&self) -> bool {
        self.store@.len() >= 32
    }

    /// Size of the structure in bytes.
    pub fn str_size() -> (n: usize)
        ensures
            n == 32,
    {
        32
    }

    /// Views `store` as this structure, starting at its first byte.
    pub fn new(store: &'s mut [u8]) -> (r: Self)
        requires
            old(store)@.len() >= 32,
        ensures
            r.bytes() == old(store)@,
            r.wf(),
            final(store)@ == final(r.store)@,
    {
        Self { store }
    }

    /// Writes `fld` to the `gpuPhysAddr` field (bytes 0..8) and gives the view back.
    pub fn gpuPhysAddr(self, fld: u64) -> (r: Self)
        requires
            self.wf(),
        ensures
            r.bytes() == splice(self.bytes(), 0, spec_u64_to_le_bytes(fld)),
            r.wf(),
            final(r.store)@ == final(self.store)@,
    {
        write_u64(self.store, 0, fld);
        self
    }

    /// Reads the `gpuPhysAddr` field (bytes 0..8).
    pub fn get_gpuPhysAddr(&self) -> (r: u64)
        requires
            self.wf(),
        ensures
            r == u64_at(self.bytes(), 0),
    {
        read_u64(self.store, 0)
    }

    /// Writes `fld` to the `gpuPhysAddr` field (bytes 0..8).
    pub fn set_gpuPhysAddr(&mut self, fld: u64)
        requires
            old(self).wf(),
        ensures
            final(self).bytes() == splice(old(self).bytes(), 0, spec_u64_to_le_bytes(fld)),
            final(self).wf(),
            final(final(self).store)@ == final(old(self).store)@,
    {
        write_u64(self.store, 0, fld);
    }

    /// Writes `fld` to the `gpuVirtAddr` field (bytes 8..16) and gives the view back.
    pub fn gpuVirtAddr(self, fld: u64) -> (r: Self)
        requires
            self.wf(),
        ensures
            r.bytes() == splice(self.bytes(), 8, spec_u64_to_le_bytes(fld)),
            r.wf(),
            final(r.store)@ == final(self.store)@,
    {
        write_u64(self.store, 8, fld);
        self
    }

    /// Reads the `gpuVirtAddr` field (bytes 8..16).
    pub fn get_gpuVirtAddr(&self) -> (r: u64)
        requires
            self.wf(),
        ensures
            r == u64_at(self.bytes(), 8),
    {
        read_u64(self.store, 8)
    }

    /// Writes `fld` to the `gpuVirtAddr` field (bytes 8..16).
    pub fn set_gpuVirtAddr(&mut self, fld: u64)
        requires
            old(self).wf(),
        ensures
            final(self).bytes() == splice(old(self).bytes(), 8, spec_u64_to_le_bytes(fld)),
            final(self).wf(),
            final(final(self).store)@ == final(old(self).store)@,
    {
        write_u64(self.store, 8, fld);
    }

    /// Writes `fld` to the `size` field (bytes 16..24) and gives the view back.
    pub fn size(self, fld: u64) -> (r: Self)
        requires
            self.wf(),
        ensures
            r.bytes() == splice(self.bytes(), 16, spec_u64_to_le_bytes(fld)),
            r.wf(),
            final(r.store)@ == final(self.store)@,
    {
        write_u64(self.store, 16, fld);
        self
    }

    /// Reads the `size` field (bytes 16..24).
    pub fn get_size(&self) -> (r: u64)
        requires
            self.wf(),
        ensures
            r == u64_at(self.bytes(), 16),
    {
        read_u64(self.store, 16)
    }

    /// Writes `fld` to the `size` field (bytes 16..24).
    pub fn set_size(&mut self, fld: u64)
        requires
            old(self).wf(),
        ensures
            final(self).bytes() == splice(old(self).bytes(), 16, spec_u64_to_le_bytes(fld)),
            final(self).wf(),
            final(final(self).store)@ == final(old(self).store)@,
    {
        write_u64(self.store, 16, fld);
    }

    /// Writes `fld` to the `physAttr` field (bytes 24..28) and gives the view back.
    pub fn physAttr(self, fld: u32) -> (r: Self)
        requires
            self.wf(),
        ensures
            r.bytes() == splice(self.bytes(), 24, spec_u32_to_le_bytes(fld)),
            r.wf(),
            final(r.store)@ == final(self.store)@,
    {
        write_u32(self.store, 24, fld);
        self
    }

    /// Reads the `physAttr` field (bytes 24..28).
    pub fn get_physAttr(&self) -> (r: u32)
        requires
            self.wf(),
        ensures
            r == u32_at(self.bytes(), 24),
    {
        read_u32(self.store, 24)
    }

    /// Writes `fld` to the `physAttr` field (bytes 24..28).
    pub fn set_physAttr(&mut self, fld: u32)
        requires
            old(self).wf(),
        ensures
            final(self).bytes() == splice(old(self).bytes(), 24, spec_u32_to_le_bytes(fld)),
            final(self).wf(),
            final(final(self).store)@ == final(old(self).store)@,
    {
        write_u32(self.store, 24, fld);
    }

    /// Writes `fld` to the `bufferId` field (bytes 28..30) and gives the view back.
    pub fn bufferId(self, fld: u16) -> (r: Self)
        requires
            self.wf(),
        ensures
            r.bytes() == splice(self.bytes(), 28, spec_u16_to_le_bytes(fld)),
            r.wf(),
            final(r.store)@ == final(self.store)@,
    {
        write_u16(self.store, 28, fld);
        self
    }

    /// Reads the `bufferId` field (bytes 28..30).
    pub fn get_bufferId(&self) -> (r: u16)
        requires
            self.wf(),
        ensures
            r == u16_at(self.bytes(), 28),
    {
        read_u16(self.store, 28)
    }

    /// Writes `fld` to the `bufferId` field (bytes 28..30).
    pub fn set_bufferId(&mut self, fld: u16)
        requires
            old(self).wf(),
        ensures
            final(self).bytes() == splice(old(self).bytes(), 28, spec_u16_to_le_bytes(fld)),
            final(self).wf(),
            final(final(self).store)@ == final(old(self).store)@,
    {
        write_u16(self.store, 28, fld);
    }

    /// Writes `fld` to the `bInitialize` field (bytes 30..31) and gives the view back.
    pub fn bInitialize(self, fld: u8) -> (r: Self)
        requires
            self.wf(),
        ensures
            r.bytes() == splice(self.bytes(), 30, seq![fld]),
            r.wf(),
            final(r.store)@ == final(self.store)@,
    {
        write_u8(self.store, 30, fld);
        self
    }

    /// Reads the `bInitialize` field (bytes 30..31).
    pub fn get_bInitialize(&self) -> (r: u8)
        requires
            self.wf(),
        ensures
            r == self.bytes()[30],
    {
        read_u8(self.store, 30)
    }

    /// Writes `fld` to the `bInitialize` field (bytes 30..31).
    pub fn set_bInitialize(&mut self, fld: u8)
        requires
            old(self).wf(),
        ensures
            final(self).bytes() == splice(old(self).bytes(), 30, seq![fld]),
            final(self).wf(),
            final(final(self).store)@ == final(old(self).store)@,
    {
        write_u8(self.store, 30, fld);
    }

    /// Writes `fld` to the `bNonmapped` field (bytes 31..32) and gives the view back.
    pub fn bNonmapped(self, fld: u8) -> (r: Self)
        requires
            self.wf(),
        ensures
            r.bytes() == splice(self.bytes(), 31, seq![fld]),
            r.wf(),
            final(r.store)@ == final(self.store)@,
    {
        write_u8(self.store, 31, fld);
        self
    }

    /// Reads the `bNonmapped` field (bytes 31..32).
    pub fn get_bNonmapped(&self) -> (r: u8)
        requires
            self.wf(),
        ensures
            r == self.bytes()[31],
    {
        read_u8(self.store, 31)
    }

    /// Writes `fld` to the `bNonmapped` field (bytes 31..32).
    pub fn set_bNonmapped(&mut self, fld: u8)
        requires
            old(self).wf(),
        ensures
            final(self).bytes() == splice(old(self).bytes(), 31, seq![fld]),
            final(self).wf(),
            final(final(self).store)@ == final(old(self).store)@,
    {
        write_u8(self.store, 31, fld);
    }

}

/// View of the firmware structure `s_NV2080_CTRL_GPU_GET_CONSTRUCTED_FALCON_INFO_PARAMS` (1284 bytes).
pub struct s_NV2080_CTRL_GPU_GET_CONSTRUCTED_FALCON_INFO_PARAMS<'s> {
    /// The buffer from the first byte of the structure to the end.
    pub store: &'s mut [u8],
}

impl<'s> s_NV2080_CTRL_GPU_GET_CONSTRUCTED_FALCON_INFO_PARAMS<'s> {
    /// The bytes seen through this view.
    pub open spec fn bytes(&self) -> Seq<u8> {
        self.store@
    }

    /// The buffer holds at least the whole structure.
    pub open spec fn wf(&self) -> bool {
        self.store@.len() >= 1284
    }

    /// Size of the structure in bytes.
    pub fn str_size() -> (n: usize)
        ensures
            n == 1284,
    {
        1284
    }

    /// Views `store` as this structure, starting at its first byte.
    pub fn new(store: &'s mut [u8]) -> (r: Self)
        requires
            old(store)@.len() >= 1284,
        ensures
            r.bytes() == old(store)@,
            r.wf(),
            final(store)@ == final(r.store)@,
    {
        Self { store }
    }

    /// Writes `fld` to the `numConstructedFalcons` field (bytes 0..4) and gives the view back.
    pub fn numConstructedFalcons(self, fld: u32) -> (r: Self)
        requires
            self.wf(),
        ensures
            r.bytes() == splice(self.bytes(), 0, spec_u32_to_le_bytes(fld)),
            r.wf(),
            final(r.store)@ == final(self.store)@,
    {
        write_u32(self.store, 0, fld);
        self
    }

    /// Reads the `numConstructedFalcons` field (bytes 0..4).
    pub fn get_numConstructedFalcons(&self) -> (r: u32)
        requires
            self.wf(),
        ensures
            r == u32_at(self.bytes(), 0),
    {
        read_u32(self.store, 0)
    }

    /// Writes `fld` to the `numConstructedFalcons` field (bytes 0..4).
    pub fn set_numConstructedFalcons(&mut self, fld: u32)
        requires
            old(self).wf(),
        ensures
            final(self).bytes() == splice(old(self).bytes(), 0, spec_u32_to_le_bytes(fld)),
            final(self).wf(),
            final(final(self).store)@ == final(old(self).store)@,
    {
        write_u32(self.store, 0, fld);
    }

    /// View of entry `idx` of the `constructedFalconsTable` table, whose entries are 20 bytes apart
    /// from byte 4 on.
    pub fn new_S_constructedFalconsTable(&mut self, idx: isize) -> (r: s_NV2080_CTRL_GPU_CONSTRUCTED_FALCON_INFO<'_>)
        requires
            old(self).wf(),
            0 <= idx,
            idx * 20 + 4 + 20 <= old(self).bytes().len(),
        ensures
            r.bytes() == old(self).bytes().subrange(idx * 20 + 4, old(self).bytes().len() as int),
            r.wf(),
            final(self).bytes() == old(self).bytes().subrange(0, idx * 20 + 4) + final(r.store)@,
            final(final(self).store)@ == final(old(self).store)@,
    {
        proof {
            assert(self.store@.len() == self.store.len());
        }
        let off = idx as usize * 20 + 4;
        let (_head, tail) = self.store.split_at_mut(off);
        s_NV2080_CTRL_GPU_CONSTRUCTED_FALCON_INFO { store: tail }
    }

}

/// View of the firmware structure `s_NV2080_CTRL_GPU_CONSTRUCTED_FALCON_INFO` (20 bytes).
pub struct s_NV2080_CTRL_GPU_CONSTRUCTED_FALCON_INFO<'s> {
    /// The buffer from the first byte of the structure to the end.
    pub store: &'s mut [u8],
}

impl<'s> s_NV2080_CTRL_GPU_CONSTRUCTED_FALCON_INFO<'s> {
    /// The bytes seen through this view.
    pub open spec fn bytes(&self) -> Seq<u8> {
        self.store@
    }

    /// The buffer holds at least the whole structure.
    pub open spec fn wf(&self) -> bool {
        self.store@.len() >= 20
    }

    /// Size of the structure in bytes.
    pub fn str_size() -> (n: usize)
        ensures
            n == 20,
    {
        20
    }

    /// Views `store` as this structure, starting at its first byte.
    pub fn new(store: &'s mut [u8]) -> (r: Self)
        requires
            old(store)@.len() >= 20,
        ensures
            r.bytes() == old(store)@,
            r.wf(),
            final(store)@ == final(r.store)@,
    {
        Self { store }
    }

    /// Writes `fld` to the `engDesc` field (bytes 0..4) and gives the view back.
    pub fn engDesc(self, fld: u32) -> (r: Self)
        requires
            self.wf(),
        ensures
            r.bytes() == splice(self.bytes(), 0, spec_u32_to_le_bytes(fld)),
            r.wf(),
            final(r.store)@ == final(self.store)@,
    {
        write_u32(self.store, 0, fld);
        self
    }

    /// Reads the `engDesc` field (bytes 0..4).
    pub fn get_engDesc(&self) -> (r: u32)
        requires
            self.wf(),
        ensures
            r == u32_at(self.bytes(), 0),
    {
        read_u32(self.store, 0)
    }

    /// Writes `fld` to the `engDesc` field (bytes 0..4).
    pub fn set_engDesc(&mut self, fld: u32)
        requires
            old(self).wf(),
        ensures
            final(self).bytes() == splice(old(self).bytes(), 0, spec_u32_to_le_bytes(fld)),
            final(self).wf(),
            final(final(self).store)@ == final(old(self).store)@,
    {
        write_u32(self.store, 0, fld);
    }

    /// Writes `fld` to the `ctxAttr` field (bytes 4..8) and gives the view back.
    pub fn ctxAttr(self, fld: u32) -> (r: Self)
        requires
            self.wf(),
        ensures
            r.bytes() == splice(self.bytes(), 4, spec_u32_to_le_bytes(fld)),
            r.wf(),
            final(r.store)@ == final(self.store)@,
    {
        write_u32(self.store, 4, fld);
        self
    }

    /// Reads the `ctxAttr` field (bytes 4..8).
    pub fn get_ctxAttr(&self) -> (r: u32)
        requires
            self.wf(),
        ensures
            r == u32_at(self.bytes(), 4),
    {
        read_u32(self.store, 4)
    }

    /// Writes `fld` to the `ctxAttr` field (bytes 4..8).
    pub fn set_ctxAttr(&mut self, fld: u32)
        requires
            old(self).wf(),
        ensures
            final(self).bytes() == splice(old(self).bytes(), 4, spec_u32_to_le_bytes(fld)),
            final(self).wf(),
            final(final(self).store)@ == final(old(self).store)@,
    {
        write_u32(self.store, 4, fld);
    }

    /// Writes `fld` to the `ctxBufferSize` field (bytes 8..12) and gives the view back.
    pub fn ctxBufferSize(self, fld: u32) -> (r: Self)
        requires
            self.wf(),
        ensures
            r.bytes() == splice(self.bytes(), 8, spec_u32_to_le_bytes(fld)),
            r.wf(),
            final(r.store)@ == final(self.store)@,
    {
        write_u32(self.store, 8, fld);
        self
    }

    /// Reads the `ctxBufferSize` field (bytes 8..12).
    pub fn get_ctxBufferSize(&self) -> (r: u32)
        requires
            self.wf(),
        ensures
            r == u32_at(self.bytes(), 8),
    {
        read_u32(self.store, 8)
    }

    /// Writes `fld` to the `ctxBufferSize` field (bytes 8..12).
    pub fn set_ctxBufferSize(&mut self, fld: u32)
        requires
            old(self).wf(),
        ensures
            final(self).bytes() == splice(old(self).bytes(), 8, spec_u32_to_le_bytes(fld)),
            final(self).wf(),
            final(final(self).store)@ == final(old(self).store)@,
    {
        write_u32(self.store, 8, fld);
    }

    /// Writes `fld` to the `addrSpaceList` field (bytes 12..16) and gives the view back.
    pub fn addrSpaceList(self, fld: u32) -> (r: Self)
        requires
            self.wf(),
        ensures
            r.bytes() == splice(self.bytes(), 12, spec_u32_to_le_bytes(fld)),
            r.wf(),
            final(r.store)@ == final(self.store)@,
    {
        write_u32(self.store, 12, fld);
        self
    }

    /// Reads the `addrSpaceList` field (bytes 12..16).
    pub fn get_addrSpaceList(&self) -> (r: u32)
        requires
            self.wf(),
        ensures
            r == u32_at(self.bytes(), 12),
    {
        read_u32(self.store, 12)
    }

    /// Writes `fld` to the `addrSpaceList` field (bytes 12..16).
    pub fn set_addrSpaceList(&mut self, fld: u32)
        requires
            old(self).wf(),
        ensures
            final(self).bytes() == splice(old(self).bytes(), 12, spec_u32_to_le_bytes(fld)),
            final(self).wf(),
            final(final(self).store)@ == final(old(self).store)@,
    {
        write_u32(self.store, 12, fld);
    }

    /// Writes `fld` to the `registerBase` field (bytes 16..20) and gives the view back.
    pub fn registerBase(self, fld: u32) -> (r: Self)
        requires
            self.wf(),
        ensures
            r.bytes() == splice(self.bytes(), 16, spec_u32_to_le_bytes(fld)),
            r.wf(),
            final(r.store)@ == final(self.store)@,
    {
        write_u32(self.store, 16, fld);
        self
    }

    /// Reads the `registerBase` field (bytes 16..20).
    pub fn get_registerBase(&self) -> (r: u32)
        requires
            self.wf(),
        ensures
            r == u32_at(self.bytes(), 16),
    {
        read_u32(self.store, 16)
    }

    /// Writes `fld` to the `registerBase` field (bytes 16..20).
    pub fn set_registerBase(&mut self, fld: u32)
        requires
            old(self).wf(),
        ensures
            final(self).bytes() == splice(old(self).bytes(), 16, spec_u32_to_le_bytes(fld)),
            final(self).wf(),
            final(final(self).store)@ == final(old(self).store)@,
    {
        write_u32(self.store, 16, fld);
    }

}

/// View of the firmware structure `s_NV2080_CTRL_GPU_GET_VMMU_SEGMENT_SIZE_PARAMS` (8 bytes).
pub struct s_NV2080_CTRL_GPU_GET_VMMU_SEGMENT_SIZE_PARAMS<'s> {
    /// The buffer from the first byte of the structure to the end.
    pub store: &'s mut [u8],
}

impl<'s> s_NV2080_CTRL_GPU_GET_VMMU_SEGMENT_SIZE_PARAMS<'s> {
    /// The bytes seen through this view.
    pub open spec fn bytes(&self) -> Seq<u8> {
        self.store@
    }

    /// The buffer holds at least the whole structure.
    pub open spec fn wf(&self) -> bool {
        self.store@.len() >= 8
    }

    /// Size of the structure in bytes.
    pub fn str_size() -> (n: usize)
        ensures
            n == 8,
    {
        8
    }

    /// Views `store` as this structure, starting at its first byte.
    pub fn new(store: &'s mut [u8]) -> (r: Self)
        requires
            old(store)@.len() >= 8,
        ensures
            r.bytes() == old(store)@,
            r.wf(),
            final(store)@ == final(r.store)@,
    {
        Self { store }
    }

    /// Writes `fld` to the `vmmuSegmentSize` field (bytes 0..8) and gives the view back.
    pub fn vmmuSegmentSize(self, fld: u64) -> (r: Self)
        requires
            self.wf(),
        ensures
            r.bytes() == splice(self.bytes(), 0, spec_u64_to_le_bytes(fld)),
            r.wf(),
            final(r.store)@ == final(self.store)@,
    {
        write_u64(self.store, 0, fld);
        self
    }

    /// Reads the `vmmuSegmentSize` field (bytes 0..8).
    pub fn get_vmmuSegmentSize(&self) -> (r: u64)
        requires
            self.wf(),
        ensures
            r == u64_at(self.bytes(), 0),
    {
        read_u64(self.store, 0)
    }

    /// Writes `fld` to the `vmmuSegmentSize` field (bytes 0..8).
    pub fn set_vmmuSegmentSize(&mut self, fld: u64)
        requires
            old(self).wf(),
        ensures
            final(self).bytes() == splice(old(self).bytes(), 0, spec_u64_to_le_bytes(fld)),
            final(self).wf(),
            final(final(self).store)@ == final(old(self).store)@,
    {
        write_u64(self.store, 0, fld);
    }

}

/// View of the firmware structure `s_NV2080_CTRL_INTERNAL_STATIC_GR_GET_CONTEXT_BUFFERS_INFO_PARAMS` (1664 bytes).
pub struct s_NV2080_CTRL_INTERNAL_STATIC_GR_GET_CONTEXT_BUFFERS_INFO_PARAMS<'s> {
    /// The buffer from the first byte of the structure to the end.
    pub store: &'s mut [u8],
}

impl<'s> s_NV2080_CTRL_INTERNAL_STATIC_GR_GET_CONTEXT_BUFFERS_INFO_PARAMS<'s> {
    /// The bytes seen through this view.
    pub open spec fn bytes(&self) -> Seq<u8> {
        self.store@
    }

    /// The buffer holds at least the whole structure.
    pub open spec fn wf(&self) -> bool {
        self.store@.len() >= 1664
    }

    /// Size of the structure in bytes.
    pub fn str_size() -> (n: usize)
        ensures
            n == 1664,
    {
        1664
    }

    /// Views `store` as this structure, starting at its first byte.
    pub fn new(store: &'s mut [u8]) -> (r: Self)
        requires
            old(store)@.len() >= 1664,
        ensures
            r.bytes() == old(store)@,
            r.wf(),
            final(store)@ == final(r.store)@,
    {
        Self { store }
    }

    /// View of entry `idx` of the `engineContextBuffersInfo` table, whose entries are 208 bytes apart
    /// from byte 0 on.
    pub fn new_S_engineContextBuffersInfo(&mut self, idx: isize) -> (r: s_NV2080_CTRL_INTERNAL_STATIC_GR_CONTEXT_BUFFERS_INFO<'_>)
        requires
            old(self).wf(),
            0 <= idx,
            idx * 208 + 0 + 208 <= old(self).bytes().len(),
        ensures
            r.bytes() == old(self).bytes().subrange(idx * 208 + 0, old(self).bytes().len() as int),
            r.wf(),
            final(self).bytes() == old(self).bytes().subrange(0, idx * 208 + 0) + final(r.store)@,
            final(final(self).store)@ == final(old(self).store)@,
    {
        proof {
            assert(self.store@.len() == self.store.len());
        }
        let off = idx as usize * 208 + 0;
        let (_head, tail) = self.store.split_at_mut(off);
        s_NV2080_CTRL_INTERNAL_STATIC_GR_CONTEXT_BUFFERS_INFO { store: tail }
    }

}

/// View of the firmware structure `s_NV2080_CTRL_INTERNAL_STATIC_GR_CONTEXT_BUFFERS_INFO` (208 bytes).
pub struct s_NV2080_CTRL_INTERNAL_STATIC_GR_CONTEXT_BUFFERS_INFO<'s> {
    /// The buffer from the first byte of the structure to the end.
    pub store: &'s mut [u8],
}

impl<'s> s_NV2080_CTRL_INTERNAL_STATIC_GR_CONTEXT_BUFFERS_INFO<'s> {
    /// The bytes seen through this view.
    pub open spec fn bytes(&self) -> Seq<u8> {
        self.store@
    }

    /// The buffer holds at least the whole structure.
    pub open spec fn wf(&self) -> bool {
        self.store@.len() >= 208
    }

    /// Size of the structure in bytes.
    pub fn str_size() -> (n: usize)
        ensures
            n == 208,
    {
        208
    }

    /// Views `store` as this structure, starting at its first byte.
    pub fn new(store: &'s mut [u8]) -> (r: Self)
        requires
            old(store)@.len() >= 208,
        ensures
            r.bytes() == old(store)@,
            r.wf(),
            final(store)@ == final(r.store)@,
    {
        Self { store }
    }

    /// View of entry `idx` of the `engine` table, whose entries are 8 bytes apart
    /// from byte 0 on.
    pub fn new_S_engine(&mut self, idx: isize) -> (r: s_NV2080_CTRL_INTERNAL_ENGINE_CONTEXT_BUFFER_INFO<'_>)
        requires
            old(self).wf(),
            0 <= idx,
            idx * 8 + 0 + 8 <= old(self).bytes().len(),
        ensures
            r.bytes() == old(self).bytes().subrange(idx * 8 + 0, old(self).bytes().len() as int),
            r.wf(),
            final(self).bytes() == old(self).bytes().subrange(0, idx * 8 + 0) + final(r.store)@,
            final(final(self).store)@ == final(old(self).store)@,
    {
        proof {
            assert(self.store@.len() == self.store.len());
        }
        let off = idx as usize * 8 + 0;
        let (_head, tail) = self.store.split_at_mut(off);
        s_NV2080_CTRL_INTERNAL_ENGINE_CONTEXT_BUFFER_INFO { store: tail }
    }

}

/// View of the firmware structure `s_NV2080_CTRL_INTERNAL_DISPLAY_CHANNEL_PUSHBUFFER_PARAMS` (56 bytes).
pub struct s_NV2080_CTRL_INTERNAL_DISPLAY_CHANNEL_PUSHBUFFER_PARAMS<'s> {
    /// The buffer from the first byte of the structure to the end.
    pub store: &'s mut [u8],
}

impl<'s> s_NV2080_CTRL_INTERNAL_DISPLAY_CHANNEL_PUSHBUFFER_PARAMS<'s> {
    /// The bytes seen through this view.
    pub open spec fn bytes(&self) -> Seq<u8> {
        self.store@
    }

    /// The buffer holds at least the whole structure.
    pub open spec fn wf(&self) -> bool {
        self.store@.len() >= 56
    }

    /// Size of the structure in bytes.
    pub fn str_size() -> (n: usize)
        ensures
            n == 56,
    {
        56
    }

    /// Views `store` as this structure, starting at its first byte.
    pub fn new(store: &'s mut [u8]) -> (r: Self)
        requires
            old(store)@.len() >= 56,
        ensures
            r.bytes() == old(store)@,
            r.wf(),
            final(store)@ == final(r.store)@,
    {
        Self { store }
    }

    /// Writes `fld` to the `addressSpace` field (bytes 0..4) and gives the view back.
    pub fn addressSpace(self, fld: u32) -> (r: Self)
        requires
            self.wf(),
        ensures
            r.bytes() == splice(self.bytes(), 0, spec_u32_to_le_bytes(fld)),
            r.wf(),
            final(r.store)@ == final(self.store)@,
    {
        write_u32(self.store, 0, fld);
        self
    }

    /// Reads the `addressSpace` field (bytes 0..4).
    pub fn get_addressSpace(&self) -> (r: u32)
        requires
            self.wf(),
        ensures
            r == u32_at(self.bytes(), 0),
    {
        read_u32(self.store, 0)
    }

    /// Writes `fld` to the `addressSpace` field (bytes 0..4).
    pub fn set_addressSpace(&mut self, fld: u32)
        requires
            old(self).wf(),
        ensures
            final(self).bytes() == splice(old(self).bytes(), 0, spec_u32_to_le_bytes(fld)),
            final(self).wf(),
            final(final(self).store)@ == final(old(self).store)@,
    {
        write_u32(self.store, 0, fld);
    }

    /// Writes `fld` to the `physicalAddr` field (bytes 8..16) and gives the view back.
    pub fn physicalAddr(self, fld: u64) -> (r: Self)
        requires
            self.wf(),
        ensures
            r.bytes() == splice(self.bytes(), 8, spec_u64_to_le_bytes(fld)),
            r.wf(),
            final(r.store)@ == final(self.store)@,
    {
        write_u64(self.store, 8, fld);
        self
    }

    /// Reads the `physicalAddr` field (bytes 8..16).
    pub fn get_physicalAddr(&self) -> (r: u64)
        requires
            self.wf(),
        ensures
            r == u64_at(self.bytes(), 8),
    {
        read_u64(self.store, 8)
    }

    /// Writes `fld` to the `physicalAddr` field (bytes 8..16).
    pub fn set_physicalAddr(&mut self, fld: u64)
        requires
            old(self).wf(),
        ensures
            final(self).bytes() == splice(old(self).bytes(), 8, spec_u64_to_le_bytes(fld)),
            final(self).wf(),
            final(final(self).store)@ == final(old(self).store)@,
    {
        write_u64(self.store, 8, fld);
    }

    /// Writes `fld` to the `limit` field (bytes 16..24) and gives the view back.
    pub fn limit(self, fld: u64) -> (r: Self)
        requires
            self.wf(),
        ensures
            r.bytes() == splice(self.bytes(), 16, spec_u64_to_le_bytes(fld)),
            r.wf(),
            final(r.store)@ == final(self.store)@,
    {
        write_u64(self.store, 16, fld);
        self
    }

    /// Reads the `limit` field (bytes 16..24).
    pub fn get_limit(&self) -> (r: u64)
        requires
            self.wf(),
        ensures
            r == u64_at(self.bytes(), 16),
    {
        read_u64(self.store, 16)
    }

    /// Writes `fld` to the `limit` field (bytes 16..24).
    pub fn set_limit(&mut self, fld: u64)
        requires
            old(self).wf(),
        ensures
            final(self).bytes() == splice(old(self).bytes(), 16, spec_u64_to_le_bytes(fld)),
            final(self).wf(),
            final(final(self).store)@ == final(old(self).store)@,
    {
        write_u64(self.store, 16, fld);
    }

    /// Writes `fld` to the `cacheSnoop` field (bytes 24..28) and gives the view back.
    pub fn cacheSnoop(self, fld: u32) -> (r: Self)
        requires
            self.wf(),
        ensures
            r.bytes() == splice(self.bytes(), 24, spec_u32_to_le_bytes(fld)),
            r.wf(),
            final(r.store)@ == final(self.store)@,
    {
        write_u32(self.store, 24, fld);
        self
    }

    /// Reads the `cacheSnoop` field (bytes 24..28).
    pub fn get_cacheSnoop(&self) -> (r: u32)
        requires
            self.wf(),
        ensures
            r == u32_at(self.bytes(), 24),
    {
        read_u32(self.store, 24)
    }

    /// Writes `fld` to the `cacheSnoop` field (bytes 24..28).
    pub fn set_cacheSnoop(&mut self, fld: u32)
        requires
            old(self).wf(),
        ensures
            final(self).bytes() == splice(old(self).bytes(), 24, spec_u32_to_le_bytes(fld)),
            final(self).wf(),
            final(final(self).store)@ == final(old(self).store)@,
    {
        write_u32(self.store, 24, fld);
    }

    /// Writes `fld` to the `hclass` field (bytes 28..32) and gives the view back.
    pub fn hclass(self, fld: u32) -> (r: Self)
        requires
            self.wf(),
        ensures
            r.bytes() == splice(self.bytes(), 28, spec_u32_to_le_bytes(fld)),
            r.wf(),
            final(r.store)@ == final(self.store)@,
    {
        write_u32(self.store, 28, fld);
        self
    }

    /// Reads the `hclass` field (bytes 28..32).
    pub fn get_hclass(&self) -> (r: u32)
        requires
            self.wf(),
        ensures
            r == u32_at(self.bytes(), 28),
    {
        read_u32(self.store, 28)
    }

    /// Writes `fld` to the `hclass` field (bytes 28..32).
    pub fn set_hclass(&mut self, fld: u32)
        requires
            old(self).wf(),
        ensures
            final(self).bytes() == splice(old(self).bytes(), 28, spec_u32_to_le_bytes(fld)),
            final(self).wf(),
            final(final(self).store)@ == final(old(self).store)@,
    {
        write_u32(self.store, 28, fld);
    }

    /// Writes `fld` to the `channelInstance` field (bytes 32..36) and gives the view back.
    pub fn channelInstance(self, fld: u32) -> (r: Self)
        requires
            self.wf(),
        ensures
            r.bytes() == splice(self.bytes(), 32, spec_u32_to_le_bytes(fld)),
            r.wf(),
            final(r.store)@ == final(self.store)@,
    {
        write_u32(self.store, 32, fld);
        self
    }

    /// Reads the `channelInstance` field (bytes 32..36).
    pub fn get_channelInstance(&self) -> (r: u32)
        requires
            self.wf(),
        ensures
            r == u32_at(self.bytes(), 32),
    {
        read_u32(self.store, 32)
    }

    /// Writes `fld` to the `channelInstance` field (bytes 32..36).
    pub fn set_channelInstance(&mut self, fld: u32)
        requires
            old(self).wf(),
        ensures
            final(self).bytes() == splice(old(self).bytes(), 32, spec_u32_to_le_bytes(fld)),
            final(self).wf(),
            final(final(self).store)@ == final(old(self).store)@,
    {
        write_u32(self.store, 32, fld);
    }

    /// Writes `fld` to the `valid` field (bytes 36..37) and gives the view back.
    pub fn valid(self, fld: u8) -> (r: Self)
        requires
            self.wf(),
        ensures
            r.bytes() == splice(self.bytes(), 36, seq![fld]),
            r.wf(),
            final(r.store)@ == final(self.store)@,
    {
        write_u8(self.store, 36, fld);
        self
    }

    /// Reads the `valid` field (bytes 36..37).
    pub fn get_valid(&self) -> (r: u8)
        requires
            self.wf(),
        ensures
            r == self.bytes()[36],
    {
        read_u8(self.store, 36)
    }

    /// Writes `fld` to the `valid` field (bytes 36..37).
    pub fn set_valid(&mut self, fld: u8)
        requires
            old(self).wf(),
        ensures
            final(self).bytes() == splice(old(self).bytes(), 36, seq![fld]),
            final(self).wf(),
            final(final(self).store)@ == final(old(self).store)@,
    {
        write_u8(self.store, 36, fld);
    }

    /// Writes `fld` to the `pbTargetAperture` field (bytes 40..44) and gives the view back.
    pub fn pbTargetAperture(self, fld: u32) -> (r: Self)
        requires
            self.wf(),
        ensures
            r.bytes() == splice(self.bytes(), 40, spec_u32_to_le_bytes(fld)),
            r.wf(),
            final(r.store)@ == final(self.store)@,
    {
        write_u32(self.store, 40, fld);
        self
    }

    /// Reads the `pbTargetAperture` field (bytes 40..44).
    pub fn get_pbTargetAperture(&self) -> (r: u32)
        requires
            self.wf(),
        ensures
            r == u32_at(self.bytes(), 40),
    {
        read_u32(self.store, 40)
    }

    /// Writes `fld` to the `pbTargetAperture` field (bytes 40..44).
    pub fn set_pbTargetAperture(&mut self, fld: u32)
        requires
            old(self).wf(),
        ensures
            final(self).bytes() == splice(old(self).bytes(), 40, spec_u32_to_le_bytes(fld)),
            final(self).wf(),
            final(final(self).store)@ == final(old(self).store)@,
    {
        write_u32(self.store, 40, fld);
    }

    /// Writes `fld` to the `channelPBSize` field (bytes 44..48) and gives the view back.
    pub fn channelPBSize(self, fld: u32) -> (r: Self)
        requires
            self.wf(),
        ensures
            r.bytes() == splice(self.bytes(), 44, spec_u32_to_le_bytes(fld)),
            r.wf(),
            final(r.store)@ == final(self.store)@,
    {
        write_u32(self.store, 44, fld);
        self
    }

    /// Reads the `channelPBSize` field (bytes 44..48).
    pub fn get_channelPBSize(&self) -> (r: u32)
        requires
            self.wf(),
        ensures
            r == u32_at(self.bytes(), 44),
    {
        read_u32(self.store, 44)
    }

    /// Writes `fld` to the `channelPBSize` field (bytes 44..48).
    pub fn set_channelPBSize(&mut self, fld: u32)
        requires
            old(self).wf(),
        ensures
            final(self).bytes() == splice(old(self).bytes(), 44, spec_u32_to_le_bytes(fld)),
            final(self).wf(),
            final(final(self).store)@ == final(old(self).store)@,
    {
        write_u32(self.store, 44, fld);
    }

    /// Writes `fld` to the `subDeviceId` field (bytes 48..52) and gives the view back.
    pub fn subDeviceId(self, fld: u32) -> (r: Self)
        requires
            self.wf(),
        ensures
            r.bytes() == splice(self.bytes(), 48, spec_u32_to_le_bytes(fld)),
            r.wf(),
            final(r.store)@ == final(self.store)@,
    {
        write_u32(self.store, 48, fld);
        self
    }

    /// Reads the `subDeviceId` field (bytes 48..52).
    pub fn get_subDeviceId(&self) -> (r: u32)
        requires
            self.wf(),
        ensures
            r == u32_at(self.bytes(), 48),
    {
        read_u32(self.store, 48)
    }

    /// Writes `fld` to the `subDeviceId` field (bytes 48..52).
    pub fn set_subDeviceId(&mut self, fld: u32)
        requires
            old(self).wf(),
        ensures
            final(self).bytes() == splice(old(self).bytes(), 48, spec_u32_to_le_bytes(fld)),
            final(self).wf(),
            final(final(self).store)@ == final(old(self).store)@,
    {
        write_u32(self.store, 48, fld);
    }

}

/// View of the firmware structure `s_NV2080_CTRL_INTERNAL_DISPLAY_WRITE_INST_MEM_PARAMS` (24 bytes).
pub struct s_NV2080_CTRL_INTERNAL_DISPLAY_WRITE_INST_MEM_PARAMS<'s> {
    /// The buffer from the first byte of the structure to the end.
    pub store: &'s mut [u8],
}

impl<'s> s_NV2080_CTRL_INTERNAL_DISPLAY_WRITE_INST_MEM_PARAMS<'s> {
    /// The bytes seen through this view.
    pub open spec fn bytes(&self) -> Seq<u8> {
        self.store@
    }

    /// The buffer holds at least the whole structure.
    pub open spec fn wf(&self) -> bool {
        self.store@.len() >= 24
    }

    /// Size of the structure in bytes.
    pub fn str_size() -> (n: usize)
        ensures
            n == 24,
    {
        24
    }

    /// Views `store` as this structure, starting at its first byte.
    pub fn new(store: &'s mut [u8]) -> (r: Self)
        requires
            old(store)@.len() >= 24,
        ensures
            r.bytes() == old(store)@,
            r.wf(),
            final(store)@ == final(r.store)@,
    {
        Self { store }
    }

    /// Writes `fld` to the `instMemPhysAddr` field (bytes 0..8) and gives the view back.
    pub fn instMemPhysAddr(self, fld: u64) -> (r: Self)
        requires
            self.wf(),
        ensures
            r.bytes() == splice(self.bytes(), 0, spec_u64_to_le_bytes(fld)),
            r.wf(),
            final(r.store)@ == final(self.store)@,
    {
        write_u64(self.store, 0, fld);
        self
    }

    /// Reads the `instMemPhysAddr` field (bytes 0..8).
    pub fn get_instMemPhysAddr(&self) -> (r: u64)
        requires
            self.wf(),
        ensures
            r == u64_at(self.bytes(), 0),
    {
        read_u64(self.store, 0)
    }

    /// Writes `fld` to the `instMemPhysAddr` field (bytes 0..8).
    pub fn set_instMemPhysAddr(&mut self, fld: u64)
        requires
            old(self).wf(),
        ensures
            final(self).bytes() == splice(old(self).bytes(), 0, spec_u64_to_le_bytes(fld)),
            final(self).wf(),
            final(final(self).store)@ == final(old(self).store)@,
    {
        write_u64(self.store, 0, fld);
    }

    /// Writes `fld` to the `instMemSize` field (bytes 8..16) and gives the view back.
    pub fn instMemSize(self, fld: u64) -> (r: Self)
        requires
            self.wf(),
        ensures
            r.bytes() == splice(self.bytes(), 8, spec_u64_to_le_bytes(fld)),
            r.wf(),
            final(r.store)@ == final(self.store)@,
    {
        write_u64(self.store, 8, fld);
        self
    }

    /// Reads the `instMemSize` field (bytes 8..16).
    pub fn get_instMemSize(&self) -> (r: u64)
        requires
            self.wf(),
        ensures
            r == u64_at(self.bytes(), 8),
    {
        read_u64(self.store, 8)
    }

    /// Writes `fld` to the `instMemSize` field (bytes 8..16).
    pub fn set_instMemSize(&mut self, fld: u64)
        requires
            old(self).wf(),
        ensures
            final(self).bytes() == splice(old(self).bytes(), 8, spec_u64_to_le_bytes(fld)),
            final(self).wf(),
            final(final(self).store)@ == final(old(self).store)@,
    {
        write_u64(self.store, 8, fld);
    }

    /// Writes `fld` to the `instMemAddrSpace` field (bytes 16..20) and gives the view back.
    pub fn instMemAddrSpace(self, fld: u32) -> (r: Self)
        requires
            self.wf(),
        ensures
            r.bytes() == splice(self.bytes(), 16, spec_u32_to_le_bytes(fld)),
            r.wf(),
            final(r.store)@ == final(self.store)@,
    {
        write_u32(self.store, 16, fld);
        self
    }

    /// Reads the `instMemAddrSpace` field (bytes 16..20).
    pub fn get_instMemAddrSpace(&self) -> (r: u32)
        requires
            self.wf(),
        ensures
            r == u32_at(self.bytes(), 16),
    {
        read_u32(self.store, 16)
    }

    /// Writes `fld` to the `instMemAddrSpace` field (bytes 16..20).
    pub fn set_instMemAddrSpace(&mut self, fld: u32)
        requires
            old(self).wf(),
        ensures
            final(self).bytes() == splice(old(self).bytes(), 16, spec_u32_to_le_bytes(fld)),
            final(self).wf(),
            final(final(self).store)@ == final(old(self).store)@,
    {
        write_u32(self.store, 16, fld);
    }

    /// Writes `fld` to the `instMemCpuCacheAttr` field (bytes 20..24) and gives the view back.
    pub fn instMemCpuCacheAttr(self, fld: u32) -> (r: Self)
        requires
            self.wf(),
        ensures
            r.bytes() == splice(self.bytes(), 20, spec_u32_to_le_bytes(fld)),
            r.wf(),
            final(r.store)@ == final(self.store)@,
    {
        write_u32(self.store, 20, fld);
        self
    }

    /// Reads the `instMemCpuCacheAttr` field (bytes 20..24).
    pub fn get_instMemCpuCacheAttr(&self) -> (r: u32)
        requires
            self.wf(),
        ensures
            r == u32_at(self.bytes(), 20),
    {
        read_u32(self.store, 20)
    }

    /// Writes `fld` to the `instMemCpuCacheAttr` field (bytes 20..24).
    pub fn set_instMemCpuCacheAttr(&mut self, fld: u32)
        requires
            old(self).wf(),
        ensures
            final(self).bytes() == splice(old(self).bytes(), 20, spec_u32_to_le_bytes(fld)),
            final(self).wf(),
            final(final(self).store)@ == final(old(self).store)@,
    {
        write_u32(self.store, 20, fld);
    }

}

/// View of the firmware structure `s_NV2080_CTRL_INTERNAL_DISPLAY_GET_STATIC_INFO_PARAMS` (36 bytes).
pub struct s_NV2080_CTRL_INTERNAL_DISPLAY_GET_STATIC_INFO_PARAMS<'s> {
    /// The buffer from the first byte of the structure to the end.
    pub store: &'s mut [u8],
}

impl<'s> s_NV2080_CTRL_INTERNAL_DISPLAY_GET_STATIC_INFO_PARAMS<'s> {
    /// The bytes seen through this view.
    pub open spec fn bytes(&self) -> Seq<u8> {
        self.store@
    }

    /// The buffer holds at least the whole structure.
    pub open spec fn wf(&self) -> bool {
        self.store@.len() >= 36
    }

    /// Size of the structure in bytes.
    pub fn str_size() -> (n: usize)
        ensures
            n == 36,
    {
        36
    }

    /// Views `store` as this structure, starting at its first byte.
    pub fn new(store: &'s mut [u8]) -> (r: Self)
        requires
            old(store)@.len() >= 36,
        ensures
            r.bytes() == old(store)@,
            r.wf(),
            final(store)@ == final(r.store)@,
    {
        Self { store }
    }

    /// Writes `fld` to the `feHwSysCap` field (bytes 0..4) and gives the view back.
    pub fn feHwSysCap(self, fld: u32) -> (r: Self)
        requires
            self.wf(),
        ensures
            r.bytes() == splice(self.bytes(), 0, spec_u32_to_le_bytes(fld)),
            r.wf(),
            final(r.store)@ == final(self.store)@,
    {
        write_u32(self.store, 0, fld);
        self
    }

    /// Reads the `feHwSysCap` field (bytes 0..4).
    pub fn get_feHwSysCap(&self) -> (r: u32)
        requires
            self.wf(),
        ensures
            r == u32_at(self.bytes(), 0),
    {
        read_u32(self.store, 0)
    }

    /// Writes `fld` to the `feHwSysCap` field (bytes 0..4).
    pub fn set_feHwSysCap(&mut self, fld: u32)
        requires
            old(self).wf(),
        ensures
            final(self).bytes() == splice(old(self).bytes(), 0, spec_u32_to_le_bytes(fld)),
            final(self).wf(),
            final(final(self).store)@ == final(old(self).store)@,
    {
        write_u32(self.store, 0, fld);
    }

    /// Writes `fld` to the `windowPresentMask` field (bytes 4..8) and gives the view back.
    pub fn windowPresentMask(self, fld: u32) -> (r: Self)
        requires
            self.wf(),
        ensures
            r.bytes() == splice(self.bytes(), 4, spec_u32_to_le_bytes(fld)),
            r.wf(),
            final(r.store)@ == final(self.store)@,
    {
        write_u32(self.store, 4, fld);
        self
    }

    /// Reads the `windowPresentMask` field (bytes 4..8).
    pub fn get_windowPresentMask(&self) -> (r: u32)
        requires
            self.wf(),
        ensures
            r == u32_at(self.bytes(), 4),
    {
        read_u32(self.store, 4)
    }

    /// Writes `fld` to the `windowPresentMask` field (bytes 4..8).
    pub fn set_windowPresentMask(&mut self, fld: u32)
        requires
            old(self).wf(),
        ensures
            final(self).bytes() == splice(old(self).bytes(), 4, spec_u32_to_le_bytes(fld)),
            final(self).wf(),
            final(final(self).store)@ == final(old(self).store)@,
    {
        write_u32(self.store, 4, fld);
    }

    /// Writes `fld` to the `bFbRemapperEnabled` field (bytes 8..9) and gives the view back.
    pub fn bFbRemapperEnabled(self, fld: u8) -> (r: Self)
        requires
            self.wf(),
        ensures
            r.bytes() == splice(self.bytes(), 8, seq![fld]),
            r.wf(),
            final(r.store)@ == final(self.store)@,
    {
        write_u8(self.store, 8, fld);
        self
    }

    /// Reads the `bFbRemapperEnabled` field (bytes 8..9).
    pub fn get_bFbRemapperEnabled(&self) -> (r: u8)
        requires
            self.wf(),
        ensures
            r == self.bytes()[8],
    {
        read_u8(self.store, 8)
    }

    /// Writes `fld` to the `bFbRemapperEnabled` field (bytes 8..9).
    pub fn set_bFbRemapperEnabled(&mut self, fld: u8)
        requires
            old(self).wf(),
        ensures
            final(self).bytes() == splice(old(self).bytes(), 8, seq![fld]),
            final(self).wf(),
            final(final(self).store)@ == final(old(self).store)@,
    {
        write_u8(self.store, 8, fld);
    }

    /// Writes `fld` to the `numHeads` field (bytes 12..16) and gives the view back.
    pub fn numHeads(self, fld: u32) -> (r: Self)
        requires
            self.wf(),
        ensures
            r.bytes() == splice(self.bytes(), 12, spec_u32_to_le_bytes(fld)),
            r.wf(),
            final(r.store)@ == final(self.store)@,
    {
        write_u32(self.store, 12, fld);
        self
    }

    /// Reads the `numHeads` field (bytes 12..16).
    pub fn get_numHeads(&self) -> (r: u32)
        requires
            self.wf(),
        ensures
            r == u32_at(self.bytes(), 12),
    {
        read_u32(self.store, 12)
    }

    /// Writes `fld` to the `numHeads` field (bytes 12..16).
    pub fn set_numHeads(&mut self, fld: u32)
        requires
            old(self).wf(),
        ensures
            final(self).bytes() == splice(old(self).bytes(), 12, spec_u32_to_le_bytes(fld)),
            final(self).wf(),
            final(final(self).store)@ == final(old(self).store)@,
    {
        write_u32(self.store, 12, fld);
    }

    /// Writes `fld` to the `i2cPort` field (bytes 16..20) and gives the view back.
    pub fn i2cPort(self, fld: u32) -> (r: Self)
        requires
            self.wf(),
        ensures
            r.bytes() == splice(self.bytes(), 16, spec_u32_to_le_bytes(fld)),
            r.wf(),
            final(r.store)@ == final(self.store)@,
    {
        write_u32(self.store, 16, fld);
        self
    }

    /// Reads the `i2cPort` field (bytes 16..20).
    pub fn get_i2cPort(&self) -> (r: u32)
        requires
            self.wf(),
        ensures
            r == u32_at(self.bytes(), 16),
    {
        read_u32(self.store, 16)
    }

    /// Writes `fld` to the `i2cPort` field (bytes 16..20).
    pub fn set_i2cPort(&mut self, fld: u32)
        requires
            old(self).wf(),
        ensures
            final(self).bytes() == splice(old(self).bytes(), 16, spec_u32_to_le_bytes(fld)),
            final(self).wf(),
            final(final(self).store)@ == final(old(self).store)@,
    {
        write_u32(self.store, 16, fld);
    }

    /// Writes `fld` to the `internalDispActiveMask` field (bytes 20..24) and gives the view back.
    pub fn internalDispActiveMask(self, fld: u32) -> (r: Self)
        requires
            self.wf(),
        ensures
            r.bytes() == splice(self.bytes(), 20, spec_u32_to_le_bytes(fld)),
            r.wf(),
            final(r.store)@ == final(self.store)@,
    {
        write_u32(self.store, 20, fld);
        self
    }

    /// Reads the `internalDispActiveMask` field (bytes 20..24).
    pub fn get_internalDispActiveMask(&self) -> (r: u32)
        requires
            self.wf(),
        ensures
            r == u32_at(self.bytes(), 20),
    {
        read_u32(self.store, 20)
    }

    /// Writes `fld` to the `internalDispActiveMask` field (bytes 20..24).
    pub fn set_internalDispActiveMask(&mut self, fld: u32)
        requires
            old(self).wf(),
        ensures
            final(self).bytes() == splice(old(self).bytes(), 20, spec_u32_to_le_bytes(fld)),
            final(self).wf(),
            final(final(self).store)@ == final(old(self).store)@,
    {
        write_u32(self.store, 20, fld);
    }

    /// Writes `fld` to the `embeddedDisplayPortMask` field (bytes 24..28) and gives the view back.
    pub fn embeddedDisplayPortMask(self, fld: u32) -> (r: Self)
        requires
            self.wf(),
        ensures
            r.bytes() == splice(self.bytes(), 24, spec_u32_to_le_bytes(fld)),
            r.wf(),
            final(r.store)@ == final(self.store)@,
    {
        write_u32(self.store, 24, fld);
        self
    }

    /// Reads the `embeddedDisplayPortMask` field (bytes 24..28).
    pub fn get_embeddedDisplayPortMask(&self) -> (r: u32)
        requires
            self.wf(),
        ensures
            r == u32_at(self.bytes(), 24),
    {
        read_u32(self.store, 24)
    }

    /// Writes `fld` to the `embeddedDisplayPortMask` field (bytes 24..28).
    pub fn set_embeddedDisplayPortMask(&mut self, fld: u32)
        requires
            old(self).wf(),
        ensures
            final(self).bytes() == splice(old(self).bytes(), 24, spec_u32_to_le_bytes(fld)),
            final(self).wf(),
            final(final(self).store)@ == final(old(self).store)@,
    {
        write_u32(self.store, 24, fld);
    }

    /// Writes `fld` to the `bExternalMuxSupported` field (bytes 28..29) and gives the view back.
    pub fn bExternalMuxSupported(self, fld: u8) -> (r: Self)
        requires
            self.wf(),
        ensures
            r.bytes() == splice(self.bytes(), 28, seq![fld]),
            r.wf(),
            final(r.store)@ == final(self.store)@,
    {
        write_u8(self.store, 28, fld);
        self
    }

    /// Reads the `bExternalMuxSupported` field (bytes 28..29).
    pub fn get_bExternalMuxSupported(&self) -> (r: u8)
        requires
            self.wf(),
        ensures
            r == self.bytes()[28],
    {
        read_u8(self.store, 28)
    }

    /// Writes `fld` to the `bExternalMuxSupported` field (bytes 28..29).
    pub fn set_bExternalMuxSupported(&mut self, fld: u8)
        requires
            old(self).wf(),
        ensures
            final(self).bytes() == splice(old(self).bytes(), 28, seq![fld]),
            final(self).wf(),
            final(final(self).store)@ == final(old(self).store)@,
    {
        write_u8(self.store, 28, fld);
    }

    /// Writes `fld` to the `bInternalMuxSupported` field (bytes 29..30) and gives the view back.
    pub fn bInternalMuxSupported(self, fld: u8) -> (r: Self)
        requires
            self.wf(),
        ensures
            r.bytes() == splice(self.bytes(), 29, seq![fld]),
            r.wf(),
            final(r.store)@ == final(self.store)@,
    {
        write_u8(self.store, 29, fld);
        self
    }

    /// Reads the `bInternalMuxSupported` field (bytes 29..30).
    pub fn get_bInternalMuxSupported(&self) -> (r: u8)
        requires
            self.wf(),
        ensures
            r == self.bytes()[29],
    {
        read_u8(self.store, 29)
    }

    /// Writes `fld` to the `bInternalMuxSupported` field (bytes 29..30).
    pub fn set_bInternalMuxSupported(&mut self, fld: u8)
        requires
            old(self).wf(),
        ensures
            final(self).bytes() == splice(old(self).bytes(), 29, seq![fld]),
            final(self).wf(),
            final(final(self).store)@ == final(old(self).store)@,
    {
        write_u8(self.store, 29, fld);
    }

    /// Writes `fld` to the `numDispChannels` field (bytes 32..36) and gives the view back.
    pub fn numDispChannels(self, fld: u32) -> (r: Self)
        requires
            self.wf(),
        ensures
            r.bytes() == splice(self.bytes(), 32, spec_u32_to_le_bytes(fld)),
            r.wf(),
            final(r.store)@ == final(self.store)@,
    {
        write_u32(self.store, 32, fld);
        self
    }

    /// Reads the `numDispChannels` field (bytes 32..36).
    pub fn get_numDispChannels(&self) -> (r: u32)
        requires
            self.wf(),
        ensures
            r == u32_at(self.bytes(), 32),
    {
        read_u32(self.store, 32)
    }

    /// Writes `fld` to the `numDispChannels` field (bytes 32..36).
    pub fn set_numDispChannels(&mut self, fld: u32)
        requires
            old(self).wf(),
        ensures
            final(self).bytes() == splice(old(self).bytes(), 32, spec_u32_to_le_bytes(fld)),
            final(self).wf(),
            final(final(self).store)@ == final(old(self).store)@,
    {
        write_u32(self.store, 32, fld);
    }

}

/// View of the firmware structure `s_NV2080_CTRL_INTERNAL_FBSR_INIT_PARAMS` (24 bytes).
pub struct s_NV2080_CTRL_INTERNAL_FBSR_INIT_PARAMS<'s> {
    /// The buffer from the first byte of the structure to the end.
    pub store: &'s mut [u8],
}

impl<'s> s_NV2080_CTRL_INTERNAL_FBSR_INIT_PARAMS<'s> {
    /// The bytes seen through this view.
    pub open spec fn bytes(&self) -> Seq<u8> {
        self.store@
    }

    /// The buffer holds at least the whole structure.
    pub open spec fn wf(&self) -> bool {
        self.store@.len() >= 24
    }

    /// Size of the structure in bytes.
    pub fn str_size() -> (n: usize)
        ensures
            n == 24,
    {
        24
    }

    /// Views `store` as this structure, starting at its first byte.
    pub fn new(store: &'s mut [u8]) -> (r: Self)
        requires
            old(store)@.len() >= 24,
        ensures
            r.bytes() == old(store)@,
            r.wf(),
            final(store)@ == final(r.store)@,
    {
        Self { store }
    }

    /// Writes `fld` to the `hClient` field (bytes 0..4) and gives the view back.
    pub fn hClient(self, fld: u32) -> (r: Self)
        requires
            self.wf(),
        ensures
            r.bytes() == splice(self.bytes(), 0, spec_u32_to_le_bytes(fld)),
            r.wf(),
            final(r.store)@ == final(self.store)@,
    {
        write_u32(self.store, 0, fld);
        self
    }

    /// Reads the `hClient` field (bytes 0..4).
    pub fn get_hClient(&self) -> (r: u32)
        requires
            self.wf(),
        ensures
            r == u32_at(self.bytes(), 0),
    {
        read_u32(self.store, 0)
    }

    /// Writes `fld` to the `hClient` field (bytes 0..4).
    pub fn set_hClient(&mut self, fld: u32)
        requires
            old(self).wf(),
        ensures
            final(self).bytes() == splice(old(self).bytes(), 0, spec_u32_to_le_bytes(fld)),
            final(self).wf(),
            final(final(self).store)@ == final(old(self).store)@,
    {
        write_u32(self.store, 0, fld);
    }

    /// Writes `fld` to the `hSysMem` field (bytes 4..8) and gives the view back.
    pub fn hSysMem(self, fld: u32) -> (r: Self)
        requires
            self.wf(),
        ensures
            r.bytes() == splice(self.bytes(), 4, spec_u32_to_le_bytes(fld)),
            r.wf(),
            final(r.store)@ == final(self.store)@,
    {
        write_u32(self.store, 4, fld);
        self
    }

    /// Reads the `hSysMem` field (bytes 4..8).
    pub fn get_hSysMem(&self) -> (r: u32)
        requires
            self.wf(),
        ensures
            r == u32_at(self.bytes(), 4),
    {
        read_u32(self.store, 4)
    }

    /// Writes `fld` to the `hSysMem` field (bytes 4..8).
    pub fn set_hSysMem(&mut self, fld: u32)
        requires
            old(self).wf(),
        ensures
            final(self).bytes() == splice(old(self).bytes(), 4, spec_u32_to_le_bytes(fld)),
            final(self).wf(),
            final(final(self).store)@ == final(old(self).store)@,
    {
        write_u32(self.store, 4, fld);
    }

    /// Writes `fld` to the `bEnteringGcoffState` field (bytes 8..9) and gives the view back.
    pub fn bEnteringGcoffState(self, fld: u8) -> (r: Self)
        requires
            self.wf(),
        ensures
            r.bytes() == splice(self.bytes(), 8, seq![fld]),
            r.wf(),
            final(r.store)@ == final(self.store)@,
    {
        write_u8(self.store, 8, fld);
        self
    }

    /// Reads the `bEnteringGcoffState` field (bytes 8..9).
    pub fn get_bEnteringGcoffState(&self) -> (r: u8)
        requires
            self.wf(),
        ensures
            r == self.bytes()[8],
    {
        read_u8(self.store, 8)
    }

    /// Writes `fld` to the `bEnteringGcoffState` field (bytes 8..9).
    pub fn set_bEnteringGcoffState(&mut self, fld: u8)
        requires
            old(self).wf(),
        ensures
            final(self).bytes() == splice(old(self).bytes(), 8, seq![fld]),
            final(self).wf(),
            final(final(self).store)@ == final(old(self).store)@,
    {
        write_u8(self.store, 8, fld);
    }

    /// Writes `fld` to the `sysmemAddrOfSuspendResumeData` field (bytes 16..24) and gives the view back.
    pub fn sysmemAddrOfSuspendResumeData(self, fld: u64) -> (r: Self)
        requires
            self.wf(),
        ensures
            r.bytes() == splice(self.bytes(), 16, spec_u64_to_le_bytes(fld)),
            r.wf(),
            final(r.store)@ == final(self.store)@,
    {
        write_u64(self.store, 16, fld);
        self
    }

    /// Reads the `sysmemAddrOfSuspendResumeData` field (bytes 16..24).
    pub fn get_sysmemAddrOfSuspendResumeData(&self) -> (r: u64)
        requires
            self.wf(),
        ensures
            r == u64_at(self.bytes(), 16),
    {
        read_u64(self.store, 16)
    }

    /// Writes `fld` to the `sysmemAddrOfSuspendResumeData` field (bytes 16..24).
    pub fn set_sysmemAddrOfSuspendResumeData(&mut self, fld: u64)
        requires
            old(self).wf(),
        ensures
            final(self).bytes() == splice(old(self).bytes(), 16, spec_u64_to_le_bytes(fld)),
            final(self).wf(),
            final(final(self).store)@ == final(old(self).store)@,
    {
        write_u64(self.store, 16, fld);
    }

}

/// View of the firmware structure `s_NV2080_CTRL_INTERNAL_INTR_GET_KERNEL_TABLE_PARAMS` (2068 bytes).
pub struct s_NV2080_CTRL_INTERNAL_INTR_GET_KERNEL_TABLE_PARAMS<'s> {
    /// The buffer from the first byte of the structure to the end.
    pub store: &'s mut [u8],
}

impl<'s> s_NV2080_CTRL_INTERNAL_INTR_GET_KERNEL_TABLE_PARAMS<'s> {
    /// The bytes seen through this view.
    pub open spec fn bytes(&self) -> Seq<u8> {
        self.store@
    }

    /// The buffer holds at least the whole structure.
    pub open spec fn wf(&self) -> bool {
        self.store@.len() >= 2068
    }

    /// Size of the structure in bytes.
    pub fn str_size() -> (n: usize)
        ensures
            n == 2068,
    {
        2068
    }

    /// Views `store` as this structure, starting at its first byte.
    pub fn new(store: &'s mut [u8]) -> (r: Self)
        requires
            old(store)@.len() >= 2068,
        ensures
            r.bytes() == old(store)@,
            r.wf(),
            final(store)@ == final(r.store)@,
    {
        Self { store }
    }

    /// Writes `fld` to the `tableLen` field (bytes 0..4) and gives the view back.
    pub fn tableLen(self, fld: u32) -> (r: Self)
        requires
            self.wf(),
        ensures
            r.bytes() == splice(self.bytes(), 0, spec_u32_to_le_bytes(fld)),
            r.wf(),
            final(r.store)@ == final(self.store)@,
    {
        write_u32(self.store, 0, fld);
        self
    }

    /// Reads the `tableLen` field (bytes 0..4).
    pub fn get_tableLen(&self) -> (r: u32)
        requires
            self.wf(),
        ensures
            r == u32_at(self.bytes(), 0),
    {
        read_u32(self.store, 0)
    }

    /// Writes `fld` to the `tableLen` field (bytes 0..4).
    pub fn set_tableLen(&mut self, fld: u32)
        requires
            old(self).wf(),
        ensures
            final(self).bytes() == splice(old(self).bytes(), 0, spec_u32_to_le_bytes(fld)),
            final(self).wf(),
            final(final(self).store)@ == final(old(self).store)@,
    {
        write_u32(self.store, 0, fld);
    }

    /// View of entry `idx` of the `table` table, whose entries are 16 bytes apart
    /// from byte 4 on.
    pub fn new_S_table(&mut self, idx: isize) -> (r: s_NV2080_CTRL_INTERNAL_INTR_GET_KERNEL_TABLE_ENTRY<'_>)
        requires
            old(self).wf(),
            0 <= idx,
            idx * 16 + 4 + 16 <= old(self).bytes().len(),
        ensures
            r.bytes() == old(self).bytes().subrange(idx * 16 + 4, old(self).bytes().len() as int),
            r.wf(),
            final(self).bytes() == old(self).bytes().subrange(0, idx * 16 + 4) + final(r.store)@,
            final(final(self).store)@ == final(old(self).store)@,
    {
        proof {
            assert(self.store@.len() == self.store.len());
        }
        let off = idx as usize * 16 + 4;
        let (_head, tail) = self.store.split_at_mut(off);
        s_NV2080_CTRL_INTERNAL_INTR_GET_KERNEL_TABLE_ENTRY { store: tail }
    }

    /// View of entry `idx` of the `subtreeMap` table, whose entries are 2 bytes apart
    /// from byte 2052 on.
    pub fn new_S_subtreeMap(&mut self, idx: isize) -> (r: s_NV2080_INTR_CATEGORY_SUBTREE_MAP<'_>)
        requires
            old(self).wf(),
            0 <= idx,
            idx * 2 + 2052 + 2 <= old(self).bytes().len(),
        ensures
            r.bytes() == old(self).bytes().subrange(idx * 2 + 2052, old(self).bytes().len() as int),
            r.wf(),
            final(self).bytes() == old(self).bytes().subrange(0, idx * 2 + 2052) + final(r.store)@,
            final(final(self).store)@ == final(old(self).store)@,
    {
        proof {
            assert(self.store@.len() == self.store.len());
        }
        let off = idx as usize * 2 + 2052;
        let (_head, tail) = self.store.split_at_mut(off);
        s_NV2080_INTR_CATEGORY_SUBTREE_MAP { store: tail }
    }

}

/// View of the firmware structure `s_NV2080_CTRL_INTERNAL_INTR_GET_KERNEL_TABLE_ENTRY` (16 bytes).
pub struct s_NV2080_CTRL_INTERNAL_INTR_GET_KERNEL_TABLE_ENTRY<'s> {
    /// The buffer from the first byte of the structure to the end.
    pub store: &'s mut [u8],
}

impl<'s> s_NV2080_CTRL_INTERNAL_INTR_GET_KERNEL_TABLE_ENTRY<'s> {
    /// The bytes seen through this view.
    pub open spec fn bytes(&self) -> Seq<u8> {
        self.store@
    }

    /// The buffer holds at least the whole structure.
    pub open spec fn wf(&self) -> bool {
        self.store@.len() >= 16
    }

    /// Size of the structure in bytes.
    pub fn str_size() -> (n: usize)
        ensures
            n == 16,
    {
        16
    }

    /// Views `store` as this structure, starting at its first byte.
    pub fn new(store: &'s mut [u8]) -> (r: Self)
        requires
            old(store)@.len() >= 16,
        ensures
            r.bytes() == old(store)@,
            r.wf(),
            final(store)@ == final(r.store)@,
    {
        Self { store }
    }

    /// Writes `fld` to the `engineIdx` field (bytes 0..2) and gives the view back.
    pub fn engineIdx(self, fld: u16) -> (r: Self)
        requires
            self.wf(),
        ensures
            r.bytes() == splice(self.bytes(), 0, spec_u16_to_le_bytes(fld)),
            r.wf(),
            final(r.store)@ == final(self.store)@,
    {
        write_u16(self.store, 0, fld);
        self
    }

    /// Reads the `engineIdx` field (bytes 0..2).
    pub fn get_engineIdx(&self) -> (r: u16)
        requires
            self.wf(),
        ensures
            r == u16_at(self.bytes(), 0),
    {
        read_u16(self.store, 0)
    }

    /// Writes `fld` to the `engineIdx` field (bytes 0..2).
    pub fn set_engineIdx(&mut self, fld: u16)
        requires
            old(self).wf(),
        ensures
            final(self).bytes() == splice(old(self).bytes(), 0, spec_u16_to_le_bytes(fld)),
            final(self).wf(),
            final(final(self).store)@ == final(old(self).store)@,
    {
        write_u16(self.store, 0, fld);
    }

    /// Writes `fld` to the `pmcIntrMask` field (bytes 4..8) and gives the view back.
    pub fn pmcIntrMask(self, fld: u32) -> (r: Self)
        requires
            self.wf(),
        ensures
            r.bytes() == splice(self.bytes(), 4, spec_u32_to_le_bytes(fld)),
            r.wf(),
            final(r.store)@ == final(self.store)@,
    {
        write_u32(self.store, 4, fld);
        self
    }

    /// Reads the `pmcIntrMask` field (bytes 4..8).
    pub fn get_pmcIntrMask(&self) -> (r: u32)
        requires
            self.wf(),
        ensures
            r == u32_at(self.bytes(), 4),
    {
        read_u32(self.store, 4)
    }

    /// Writes `fld` to the `pmcIntrMask` field (bytes 4..8).
    pub fn set_pmcIntrMask(&mut self, fld: u32)
        requires
            old(self).wf(),
        ensures
            final(self).bytes() == splice(old(self).bytes(), 4, spec_u32_to_le_bytes(fld)),
            final(self).wf(),
            final(final(self).store)@ == final(old(self).store)@,
    {
        write_u32(self.store, 4, fld);
    }

    /// Writes `fld` to the `vectorStall` field (bytes 8..12) and gives the view back.
    pub fn vectorStall(self, fld: u32) -> (r: Self)
        requires
            self.wf(),
        ensures
            r.bytes() == splice(self.bytes(), 8, spec_u32_to_le_bytes(fld)),
            r.wf(),
            final(r.store)@ == final(self.store)@,
    {
        write_u32(self.store, 8, fld);
        self
    }

    /// Reads the `vectorStall` field (bytes 8..12).
    pub fn get_vectorStall(&self) -> (r: u32)
        requires
            self.wf(),
        ensures
            r == u32_at(self.bytes(), 8),
    {
        read_u32(self.store, 8)
    }

    /// Writes `fld` to the `vectorStall` field (bytes 8..12).
    pub fn set_vectorStall(&mut self, fld: u32)
        requires
            old(self).wf(),
        ensures
            final(self).bytes() == splice(old(self).bytes(), 8, spec_u32_to_le_bytes(fld)),
            final(self).wf(),
            final(final(self).store)@ == final(old(self).store)@,
    {
        write_u32(self.store, 8, fld);
    }

    /// Writes `fld` to the `vectorNonStall` field (bytes 12..16) and gives the view back.
    pub fn vectorNonStall(self, fld: u32) -> (r: Self)
        requires
            self.wf(),
        ensures
            r.bytes() == splice(self.bytes(), 12, spec_u32_to_le_bytes(fld)),
            r.wf(),
            final(r.store)@ == final(self.store)@,
    {
        write_u32(self.store, 12, fld);
        self
    }

    /// Reads the `vectorNonStall` field (bytes 12..16).
    pub fn get_vectorNonStall(&self) -> (r: u32)
        requires
            self.wf(),
        ensures
            r == u32_at(self.bytes(), 12),
    {
        read_u32(self.store, 12)
    }

    /// Writes `fld` to the `vectorNonStall` field (bytes 12..16).
    pub fn set_vectorNonStall(&mut self, fld: u32)
        requires
            old(self).wf(),
        ensures
            final(self).bytes() == splice(old(self).bytes(), 12, spec_u32_to_le_bytes(fld)),
            final(self).wf(),
            final(final(self).store)@ == final(old(self).store)@,
    {
        write_u32(self.store, 12, fld);
    }

}

/// View of the firmware structure `s_NV2080_INTR_CATEGORY_SUBTREE_MAP` (2 bytes).
pub struct s_NV2080_INTR_CATEGORY_SUBTREE_MAP<'s> {
    /// The buffer from the first byte of the structure to the end.
    pub store: &'s mut [u8],
}

impl<'s> s_NV2080_INTR_CATEGORY_SUBTREE_MAP<'s> {
    /// The bytes seen through this view.
    pub open spec fn bytes(&self) -> Seq<u8> {
        self.store@
    }

    /// The buffer holds at least the whole structure.
    pub open spec fn wf(&self) -> bool {
        self.store@.len() >= 2
    }

    /// Size of the structure in bytes.
    pub fn str_size() -> (n: usize)
        ensures
            n == 2,
    {
        2
    }

    /// Views `store` as this structure, starting at its first byte.
    pub fn new(store: &'s mut [u8]) -> (r: Self)
        requires
            old(store)@.len() >= 2,
        ensures
            r.bytes() == old(store)@,
            r.wf(),
            final(store)@ == final(r.store)@,
    {
        Self { store }
    }

    /// Writes `fld` to the `subtreeStart` field (bytes 0..1) and gives the view back.
    pub fn subtreeStart(self, fld: u8) -> (r: Self)
        requires
            self.wf(),
        ensures
            r.bytes() == splice(self.bytes(), 0, seq![fld]),
            r.wf(),
            final(r.store)@ == final(self.store)@,
    {
        write_u8(self.store, 0, fld);
        self
    }

    /// Reads the `subtreeStart` field (bytes 0..1).
    pub fn get_subtreeStart(&self) -> (r: u8)
        requires
            self.wf(),
        ensures
            r == self.bytes()[0],
    {
        read_u8(self.store, 0)
    }

    /// Writes `fld` to the `subtreeStart` field (bytes 0..1).
    pub fn set_subtreeStart(&mut self, fld: u8)
        requires
            old(self).wf(),
        ensures
            final(self).bytes() == splice(old(self).bytes(), 0, seq![fld]),
            final(self).wf(),
            final(final(self).store)@ == final(old(self).store)@,
    {
        write_u8(self.store, 0, fld);
    }

    /// Writes `fld` to the `subtreeEnd` field (bytes 1..2) and gives the view back.
    pub fn subtreeEnd(self, fld: u8) -> (r: Self)
        requires
            self.wf(),
        ensures
            r.bytes() == splice(self.bytes(), 1, seq![fld]),
            r.wf(),
            final(r.store)@ == final(self.store)@,
    {
        write_u8(self.store, 1, fld);
        self
    }

    /// Reads the `subtreeEnd` field (bytes 1..2).
    pub fn get_subtreeEnd(&self) -> (r: u8)
        requires
            self.wf(),
        ensures
            r == self.bytes()[1],
    {
        read_u8(self.store, 1)
    }

    /// Writes `fld` to the `subtreeEnd` field (bytes 1..2).
    pub fn set_subtreeEnd(&mut self, fld: u8)
        requires
            old(self).wf(),
        ensures
            final(self).bytes() == splice(old(self).bytes(), 1, seq![fld]),
            final(self).wf(),
            final(final(self).store)@ == final(old(self).store)@,
    {
        write_u8(self.store, 1, fld);
    }

}

/// View of the firmware structure `s_NV2080_CTRL_VGPU_MGR_INTERNAL_SHUTDOWN_GSP_VGPU_PLUGIN_TASK_PARAMS` (4 bytes).
pub struct s_NV2080_CTRL_VGPU_MGR_INTERNAL_SHUTDOWN_GSP_VGPU_PLUGIN_TASK_PARAMS<'s> {
    /// The buffer from the first byte of the structure to the end.
    pub store: &'s mut [u8],
}

impl<'s> s_NV2080_CTRL_VGPU_MGR_INTERNAL_SHUTDOWN_GSP_VGPU_PLUGIN_TASK_PARAMS<'s> {
    /// The bytes seen through this view.
    pub open spec fn bytes(&self) -> Seq<u8> {
        self.store@
    }

    /// The buffer holds at least the whole structure.
    pub open spec fn wf(&self) -> bool {
        self.store@.len() >= 4
    }

    /// Size of the structure in bytes.
    pub fn str_size() -> (n: usize)
        ensures
            n == 4,
    {
        4
    }

    /// Views `store` as this structure, starting at its first byte.
    pub fn new(store: &'s mut [u8]) -> (r: Self)
        requires
            old(store)@.len() >= 4,
        ensures
            r.bytes() == old(store)@,
            r.wf(),
            final(store)@ == final(r.store)@,
    {
        Self { store }
    }

    /// Writes `fld` to the `gfid` field (bytes 0..4) and gives the view back.
    pub fn gfid(self, fld: u32) -> (r: Self)
        requires
            self.wf(),
        ensures
            r.bytes() == splice(self.bytes(), 0, spec_u32_to_le_bytes(fld)),
            r.wf(),
            final(r.store)@ == final(self.store)@,
    {
        write_u32(self.store, 0, fld);
        self
    }

    /// Reads the `gfid` field (bytes 0..4).
    pub fn get_gfid(&self) -> (r: u32)
        requires
            self.wf(),
        ensures
            r == u32_at(self.bytes(), 0),
    {
        read_u32(self.store, 0)
    }

    /// Writes `fld` to the `gfid` field (bytes 0..4).
    pub fn set_gfid(&mut self, fld: u32)
        requires
            old(self).wf(),
        ensures
            final(self).bytes() == splice(old(self).bytes(), 0, spec_u32_to_le_bytes(fld)),
            final(self).wf(),
            final(final(self).store)@ == final(old(self).store)@,
    {
        write_u32(self.store, 0, fld);
    }

}

/// View of the firmware structure `s_NV2080_CTRL_VGPU_MGR_INTERNAL_VGPU_PLUGIN_CLEANUP_PARAMS` (4 bytes).
pub struct s_NV2080_CTRL_VGPU_MGR_INTERNAL_VGPU_PLUGIN_CLEANUP_PARAMS<'s> {
    /// The buffer from the first byte of the structure to the end.
    pub store: &'s mut [u8],
}

impl<'s> s_NV2080_CTRL_VGPU_MGR_INTERNAL_VGPU_PLUGIN_CLEANUP_PARAMS<'s> {
    /// The bytes seen through this view.
    pub open spec fn bytes(&self) -> Seq<u8> {
        self.store@
    }

    /// The buffer holds at least the whole structure.
    pub open spec fn wf(&self) -> bool {
        self.store@.len() >= 4
    }

    /// Size of the structure in bytes.
    pub fn str_size() -> (n: usize)
        ensures
            n == 4,
    {
        4
    }

    /// Views `store` as this structure, starting at its first byte.
    pub fn new(store: &'s mut [u8]) -> (r: Self)
        requires
            old(store)@.len() >= 4,
        ensures
            r.bytes() == old(store)@,
            r.wf(),
            final(store)@ == final(r.store)@,
    {
        Self { store }
    }

    /// Writes `fld` to the `gfid` field (bytes 0..4) and gives the view back.
    pub fn gfid(self, fld: u32) -> (r: Self)
        requires
            self.wf(),
        ensures
            r.bytes() == splice(self.bytes(), 0, spec_u32_to_le_bytes(fld)),
            r.wf(),
            final(r.store)@ == final(self.store)@,
    {
        write_u32(self.store, 0, fld);
        self
    }

    /// Reads the `gfid` field (bytes 0..4).
    pub fn get_gfid(&self) -> (r: u32)
        requires
            self.wf(),
        ensures
            r == u32_at(self.bytes(), 0),
    {
        read_u32(self.store, 0)
    }

    /// Writes `fld` to the `gfid` field (bytes 0..4).
    pub fn set_gfid(&mut self, fld: u32)
        requires
            old(self).wf(),
        ensures
            final(self).bytes() == splice(old(self).bytes(), 0, spec_u32_to_le_bytes(fld)),
            final(self).wf(),
            final(final(self).store)@ == final(old(self).store)@,
    {
        write_u32(self.store, 0, fld);
    }

}

/// View of the firmware structure `s_NV2080_CTRL_VGPU_MGR_INTERNAL_BOOTLOAD_GSP_VGPU_PLUGIN_TASK_PARAMS` (6616 bytes).
pub struct s_NV2080_CTRL_VGPU_MGR_INTERNAL_BOOTLOAD_GSP_VGPU_PLUGIN_TASK_PARAMS<'s> {
    /// The buffer from the first byte of the structure to the end.
    pub store: &'s mut [u8],
}

impl<'s> s_NV2080_CTRL_VGPU_MGR_INTERNAL_BOOTLOAD_GSP_VGPU_PLUGIN_TASK_PARAMS<'s> {
    /// The bytes seen through this view.
    pub open spec fn bytes(&self) -> Seq<u8> {
        self.store@
    }

    /// The buffer holds at least the whole structure.
    pub open spec fn wf(&self) -> bool {
        self.store@.len() >= 6616
    }

    /// Size of the structure in bytes.
    pub fn str_size() -> (n: usize)
        ensures
            n == 6616,
    {
        6616
    }

    /// Views `store` as this structure, starting at its first byte.
    pub fn new(store: &'s mut [u8]) -> (r: Self)
        requires
            old(store)@.len() >= 6616,
        ensures
            r.bytes() == old(store)@,
            r.wf(),
            final(store)@ == final(r.store)@,
    {
        Self { store }
    }

    /// Writes `fld` to the `dbdf` field (bytes 0..4) and gives the view back.
    pub fn dbdf(self, fld: u32) -> (r: Self)
        requires
            self.wf(),
        ensures
            r.bytes() == splice(self.bytes(), 0, spec_u32_to_le_bytes(fld)),
            r.wf(),
            final(r.store)@ == final(self.store)@,
    {
        write_u32(self.store, 0, fld);
        self
    }

    /// Reads the `dbdf` field (bytes 0..4).
    pub fn get_dbdf(&self) -> (r: u32)
        requires
            self.wf(),
        ensures
            r == u32_at(self.bytes(), 0),
    {
        read_u32(self.store, 0)
    }

    /// Writes `fld` to the `dbdf` field (bytes 0..4).
    pub fn set_dbdf(&mut self, fld: u32)
        requires
            old(self).wf(),
        ensures
            final(self).bytes() == splice(old(self).bytes(), 0, spec_u32_to_le_bytes(fld)),
            final(self).wf(),
            final(final(self).store)@ == final(old(self).store)@,
    {
        write_u32(self.store, 0, fld);
    }

    /// Writes `fld` to the `gfid` field (bytes 4..8) and gives the view back.
    pub fn gfid(self, fld: u32) -> (r: Self)
        requires
            self.wf(),
        ensures
            r.bytes() == splice(self.bytes(), 4, spec_u32_to_le_bytes(fld)),
            r.wf(),
            final(r.store)@ == final(self.store)@,
    {
        write_u32(self.store, 4, fld);
        self
    }

    /// Reads the `gfid` field (bytes 4..8).
    pub fn get_gfid(&self) -> (r: u32)
        requires
            self.wf(),
        ensures
            r == u32_at(self.bytes(), 4),
    {
        read_u32(self.store, 4)
    }

    /// Writes `fld` to the `gfid` field (bytes 4..8).
    pub fn set_gfid(&mut self, fld: u32)
        requires
            old(self).wf(),
        ensures
            final(self).bytes() == splice(old(self).bytes(), 4, spec_u32_to_le_bytes(fld)),
            final(self).wf(),
            final(final(self).store)@ == final(old(self).store)@,
    {
        write_u32(self.store, 4, fld);
    }

    /// Writes `fld` to the `vgpuType` field (bytes 8..12) and gives the view back.
    pub fn vgpuType(self, fld: u32) -> (r: Self)
        requires
            self.wf(),
        ensures
            r.bytes() == splice(self.bytes(), 8, spec_u32_to_le_bytes(fld)),
            r.wf(),
            final(r.store)@ == final(self.store)@,
    {
        write_u32(self.store, 8, fld);
        self
    }

    /// Reads the `vgpuType` field (bytes 8..12).
    pub fn get_vgpuType(&self) -> (r: u32)
        requires
            self.wf(),
        ensures
            r == u32_at(self.bytes(), 8),
    {
        read_u32(self.store, 8)
    }

    /// Writes `fld` to the `vgpuType` field (bytes 8..12).
    pub fn set_vgpuType(&mut self, fld: u32)
        requires
            old(self).wf(),
        ensures
            final(self).bytes() == splice(old(self).bytes(), 8, spec_u32_to_le_bytes(fld)),
            final(self).wf(),
            final(final(self).store)@ == final(old(self).store)@,
    {
        write_u32(self.store, 8, fld);
    }

    /// Writes `fld` to the `vmPid` field (bytes 12..16) and gives the view back.
    pub fn vmPid(self, fld: u32) -> (r: Self)
        requires
            self.wf(),
        ensures
            r.bytes() == splice(self.bytes(), 12, spec_u32_to_le_bytes(fld)),
            r.wf(),
            final(r.store)@ == final(self.store)@,
    {
        write_u32(self.store, 12, fld);
        self
    }

    /// Reads the `vmPid` field (bytes 12..16).
    pub fn get_vmPid(&self) -> (r: u32)
        requires
            self.wf(),
        ensures
            r == u32_at(self.bytes(), 12),
    {
        read_u32(self.store, 12)
    }

    /// Writes `fld` to the `vmPid` field (bytes 12..16).
    pub fn set_vmPid(&mut self, fld: u32)
        requires
            old(self).wf(),
        ensures
            final(self).bytes() == splice(old(self).bytes(), 12, spec_u32_to_le_bytes(fld)),
            final(self).wf(),
            final(final(self).store)@ == final(old(self).store)@,
    {
        write_u32(self.store, 12, fld);
    }

    /// Writes `fld` to the `swizzId` field (bytes 16..20) and gives the view back.
    pub fn swizzId(self, fld: u32) -> (r: Self)
        requires
            self.wf(),
        ensures
            r.bytes() == splice(self.bytes(), 16, spec_u32_to_le_bytes(fld)),
            r.wf(),
            final(r.store)@ == final(self.store)@,
    {
        write_u32(self.store, 16, fld);
        self
    }

    /// Reads the `swizzId` field (bytes 16..20).
    pub fn get_swizzId(&self) -> (r: u32)
        requires
            self.wf(),
        ensures
            r == u32_at(self.bytes(), 16),
    {
        read_u32(self.store, 16)
    }

    /// Writes `fld` to the `swizzId` field (bytes 16..20).
    pub fn set_swizzId(&mut self, fld: u32)
        requires
            old(self).wf(),
        ensures
            final(self).bytes() == splice(old(self).bytes(), 16, spec_u32_to_le_bytes(fld)),
            final(self).wf(),
            final(final(self).store)@ == final(old(self).store)@,
    {
        write_u32(self.store, 16, fld);
    }

    /// Writes `fld` to the `numChannels` field (bytes 20..24) and gives the view back.
    pub fn numChannels(self, fld: u32) -> (r: Self)
        requires
            self.wf(),
        ensures
            r.bytes() == splice(self.bytes(), 20, spec_u32_to_le_bytes(fld)),
            r.wf(),
            final(r.store)@ == final(self.store)@,
    {
        write_u32(self.store, 20, fld);
        self
    }

    /// Reads the `numChannels` field (bytes 20..24).
    pub fn get_numChannels(&self) -> (r: u32)
        requires
            self.wf(),
        ensures
            r == u32_at(self.bytes(), 20),
    {
        read_u32(self.store, 20)
    }

    /// Writes `fld` to the `numChannels` field (bytes 20..24).
    pub fn set_numChannels(&mut self, fld: u32)
        requires
            old(self).wf(),
        ensures
            final(self).bytes() == splice(old(self).bytes(), 20, spec_u32_to_le_bytes(fld)),
            final(self).wf(),
            final(final(self).store)@ == final(old(self).store)@,
    {
        write_u32(self.store, 20, fld);
    }

    /// Writes `fld` to the `numPluginChannels` field (bytes 24..28) and gives the view back.
    pub fn numPluginChannels(self, fld: u32) -> (r: Self)
        requires
            self.wf(),
        ensures
            r.bytes() == splice(self.bytes(), 24, spec_u32_to_le_bytes(fld)),
            r.wf(),
            final(r.store)@ == final(self.store)@,
    {
        write_u32(self.store, 24, fld);
        self
    }

    /// Reads the `numPluginChannels` field (bytes 24..28).
    pub fn get_numPluginChannels(&self) -> (r: u32)
        requires
            self.wf(),
        ensures
            r == u32_at(self.bytes(), 24),
    {
        read_u32(self.store, 24)
    }

    /// Writes `fld` to the `numPluginChannels` field (bytes 24..28).
    pub fn set_numPluginChannels(&mut self, fld: u32)
        requires
            old(self).wf(),
        ensures
            final(self).bytes() == splice(old(self).bytes(), 24, spec_u32_to_le_bytes(fld)),
            final(self).wf(),
            final(final(self).store)@ == final(old(self).store)@,
    {
        write_u32(self.store, 24, fld);
    }

    /// Writes `fld` to the `chidOffset` field (bytes 28..364) and gives the view back.
    pub fn chidOffset(self, fld: [u32; 84]) -> (r: Self)
        requires
            self.wf(),
        ensures
            r.bytes() == splice(self.bytes(), 28, u32s_to_le(fld@)),
            r.wf(),
            final(r.store)@ == final(self.store)@,
    {
        write_u32s(self.store, 28, &fld);
        self
    }

    /// Writes `fld` to the `chidOffset` field (bytes 28..364).
    pub fn set_chidOffset(&mut self, fld: [u32; 84])
        requires
            old(self).wf(),
        ensures
            final(self).bytes() == splice(old(self).bytes(), 28, u32s_to_le(fld@)),
            final(self).wf(),
            final(final(self).store)@ == final(old(self).store)@,
    {
        write_u32s(self.store, 28, &fld);
    }

    /// Reads the `chidOffset` array (bytes 28..364).
    pub fn get_chidOffset(&mut self) -> (r: [u32; 84])
        requires
            old(self).wf(),
        ensures
            r@ == u32s_at(old(self).bytes(), 28, 84),
            final(self).bytes() == old(self).bytes(),
            final(final(self).store)@ == final(old(self).store)@,
    {
        read_u32s(self.store, 28)
    }

    /// Writes `fld` to the `bDisableDefaultSmcExecPartRestore` field (bytes 364..365) and gives the view back.
    pub fn bDisableDefaultSmcExecPartRestore(self, fld: u8) -> (r: Self)
        requires
            self.wf(),
        ensures
            r.bytes() == splice(self.bytes(), 364, seq![fld]),
            r.wf(),
            final(r.store)@ == final(self.store)@,
    {
        write_u8(self.store, 364, fld);
        self
    }

    /// Reads the `bDisableDefaultSmcExecPartRestore` field (bytes 364..365).
    pub fn get_bDisableDefaultSmcExecPartRestore(&self) -> (r: u8)
        requires
            self.wf(),
        ensures
            r == self.bytes()[364],
    {
        read_u8(self.store, 364)
    }

    /// Writes `fld` to the `bDisableDefaultSmcExecPartRestore` field (bytes 364..365).
    pub fn set_bDisableDefaultSmcExecPartRestore(&mut self, fld: u8)
        requires
            old(self).wf(),
        ensures
            final(self).bytes() == splice(old(self).bytes(), 364, seq![fld]),
            final(self).wf(),
            final(final(self).store)@ == final(old(self).store)@,
    {
        write_u8(self.store, 364, fld);
    }

    /// Writes `fld` to the `numGuestFbSegments` field (bytes 368..372) and gives the view back.
    pub fn numGuestFbSegments(self, fld: u32) -> (r: Self)
        requires
            self.wf(),
        ensures
            r.bytes() == splice(self.bytes(), 368, spec_u32_to_le_bytes(fld)),
            r.wf(),
            final(r.store)@ == final(self.store)@,
    {
        write_u32(self.store, 368, fld);
        self
    }

    /// Reads the `numGuestFbSegments` field (bytes 368..372).
    pub fn get_numGuestFbSegments(&self) -> (r: u32)
        requires
            self.wf(),
        ensures
            r == u32_at(self.bytes(), 368),
    {
        read_u32(self.store, 368)
    }

    /// Writes `fld` to the `numGuestFbSegments` field (bytes 368..372).
    pub fn set_numGuestFbSegments(&mut self, fld: u32)
        requires
            old(self).wf(),
        ensures
            final(self).bytes() == splice(old(self).bytes(), 368, spec_u32_to_le_bytes(fld)),
            final(self).wf(),
            final(final(self).store)@ == final(old(self).store)@,
    {
        write_u32(self.store, 368, fld);
    }

    /// Writes `fld` to the `guestFbPhysAddrList` field (bytes 376..3448) and gives the view back.
    pub fn guestFbPhysAddrList(self, fld: [u64; 384]) -> (r: Self)
        requires
            self.wf(),
        ensures
            r.bytes() == splice(self.bytes(), 376, u64s_to_le(fld@)),
            r.wf(),
            final(r.store)@ == final(self.store)@,
    {
        write_u64s(self.store, 376, &fld);
        self
    }

    /// Writes `fld` to the `guestFbPhysAddrList` field (bytes 376..3448).
    pub fn set_guestFbPhysAddrList(&mut self, fld: [u64; 384])
        requires
            old(self).wf(),
        ensures
            final(self).bytes() == splice(old(self).bytes(), 376, u64s_to_le(fld@)),
            final(self).wf(),
            final(final(self).store)@ == final(old(self).store)@,
    {
        write_u64s(self.store, 376, &fld);
    }

    /// Reads the `guestFbPhysAddrList` array (bytes 376..3448).
    pub fn get_guestFbPhysAddrList(&mut self) -> (r: [u64; 384])
        requires
            old(self).wf(),
        ensures
            r@ == u64s_at(old(self).bytes(), 376, 384),
            final(self).bytes() == old(self).bytes(),
            final(final(self).store)@ == final(old(self).store)@,
    {
        read_u64s(self.store, 376)
    }

    /// Writes `fld` to the `guestFbLengthList` field (bytes 3448..6520) and gives the view back.
    pub fn guestFbLengthList(self, fld: [u64; 384]) -> (r: Self)
        requires
            self.wf(),
        ensures
            r.bytes() == splice(self.bytes(), 3448, u64s_to_le(fld@)),
            r.wf(),
            final(r.store)@ == final(self.store)@,
    {
        write_u64s(self.store, 3448, &fld);
        self
    }

    /// Writes `fld` to the `guestFbLengthList` field (bytes 3448..6520).
    pub fn set_guestFbLengthList(&mut self, fld: [u64; 384])
        requires
            old(self).wf(),
        ensures
            final(self).bytes() == splice(old(self).bytes(), 3448, u64s_to_le(fld@)),
            final(self).wf(),
            final(final(self).store)@ == final(old(self).store)@,
    {
        write_u64s(self.store, 3448, &fld);
    }

    /// Reads the `guestFbLengthList` array (bytes 3448..6520).
    pub fn get_guestFbLengthList(&mut self) -> (r: [u64; 384])
        requires
            old(self).wf(),
        ensures
            r@ == u64s_at(old(self).bytes(), 3448, 384),
            final(self).bytes() == old(self).bytes(),
            final(final(self).store)@ == final(old(self).store)@,
    {
        read_u64s(self.store, 3448)
    }

    /// Writes `fld` to the `pluginHeapMemoryPhysAddr` field (bytes 6520..6528) and gives the view back.
    pub fn pluginHeapMemoryPhysAddr(self, fld: u64) -> (r: Self)
        requires
            self.wf(),
        ensures
            r.bytes() == splice(self.bytes(), 6520, spec_u64_to_le_bytes(fld)),
            r.wf(),
            final(r.store)@ == final(self.store)@,
    {
        write_u64(self.store, 6520, fld);
        self
    }

    /// Reads the `pluginHeapMemoryPhysAddr` field (bytes 6520..6528).
    pub fn get_pluginHeapMemoryPhysAddr(&self) -> (r: u64)
        requires
            self.wf(),
        ensures
            r == u64_at(self.bytes(), 6520),
    {
        read_u64(self.store, 6520)
    }

    /// Writes `fld` to the `pluginHeapMemoryPhysAddr` field (bytes 6520..6528).
    pub fn set_pluginHeapMemoryPhysAddr(&mut self, fld: u64)
        requires
            old(self).wf(),
        ensures
            final(self).bytes() == splice(old(self).bytes(), 6520, spec_u64_to_le_bytes(fld)),
            final(self).wf(),
            final(final(self).store)@ == final(old(self).store)@,
    {
        write_u64(self.store, 6520, fld);
    }

    /// Writes `fld` to the `pluginHeapMemoryLength` field (bytes 6528..6536) and gives the view back.
    pub fn pluginHeapMemoryLength(self, fld: u64) -> (r: Self)
        requires
            self.wf(),
        ensures
            r.bytes() == splice(self.bytes(), 6528, spec_u64_to_le_bytes(fld)),
            r.wf(),
            final(r.store)@ == final(self.store)@,
    {
        write_u64(self.store, 6528, fld);
        self
    }

    /// Reads the `pluginHeapMemoryLength` field (bytes 6528..6536).
    pub fn get_pluginHeapMemoryLength(&self) -> (r: u64)
        requires
            self.wf(),
        ensures
            r == u64_at(self.bytes(), 6528),
    {
        read_u64(self.store, 6528)
    }

    /// Writes `fld` to the `pluginHeapMemoryLength` field (bytes 6528..6536).
    pub fn set_pluginHeapMemoryLength(&mut self, fld: u64)
        requires
            old(self).wf(),
        ensures
            final(self).bytes() == splice(old(self).bytes(), 6528, spec_u64_to_le_bytes(fld)),
            final(self).wf(),
            final(final(self).store)@ == final(old(self).store)@,
    {
        write_u64(self.store, 6528, fld);
    }

    /// Writes `fld` to the `ctrlBuffOffset` field (bytes 6536..6544) and gives the view back.
    pub fn ctrlBuffOffset(self, fld: u64) -> (r: Self)
        requires
            self.wf(),
        ensures
            r.bytes() == splice(self.bytes(), 6536, spec_u64_to_le_bytes(fld)),
            r.wf(),
            final(r.store)@ == final(self.store)@,
    {
        write_u64(self.store, 6536, fld);
        self
    }

    /// Reads the `ctrlBuffOffset` field (bytes 6536..6544).
    pub fn get_ctrlBuffOffset(&self) -> (r: u64)
        requires
            self.wf(),
        ensures
            r == u64_at(self.bytes(), 6536),
    {
        read_u64(self.store, 6536)
    }

    /// Writes `fld` to the `ctrlBuffOffset` field (bytes 6536..6544).
    pub fn set_ctrlBuffOffset(&mut self, fld: u64)
        requires
            old(self).wf(),
        ensures
            final(self).bytes() == splice(old(self).bytes(), 6536, spec_u64_to_le_bytes(fld)),
            final(self).wf(),
            final(final(self).store)@ == final(old(self).store)@,
    {
        write_u64(self.store, 6536, fld);
    }

    /// Writes `fld` to the `initTaskLogBuffOffset` field (bytes 6544..6552) and gives the view back.
    pub fn initTaskLogBuffOffset(self, fld: u64) -> (r: Self)
        requires
            self.wf(),
        ensures
            r.bytes() == splice(self.bytes(), 6544, spec_u64_to_le_bytes(fld)),
            r.wf(),
            final(r.store)@ == final(self.store)@,
    {
        write_u64(self.store, 6544, fld);
        self
    }

    /// Reads the `initTaskLogBuffOffset` field (bytes 6544..6552).
    pub fn get_initTaskLogBuffOffset(&self) -> (r: u64)
        requires
            self.wf(),
        ensures
            r == u64_at(self.bytes(), 6544),
    {
        read_u64(self.store, 6544)
    }

    /// Writes `fld` to the `initTaskLogBuffOffset` field (bytes 6544..6552).
    pub fn set_initTaskLogBuffOffset(&mut self, fld: u64)
        requires
            old(self).wf(),
        ensures
            final(self).bytes() == splice(old(self).bytes(), 6544, spec_u64_to_le_bytes(fld)),
            final(self).wf(),
            final(final(self).store)@ == final(old(self).store)@,
    {
        write_u64(self.store, 6544, fld);
    }

    /// Writes `fld` to the `initTaskLogBuffSize` field (bytes 6552..6560) and gives the view back.
    pub fn initTaskLogBuffSize(self, fld: u64) -> (r: Self)
        requires
            self.wf(),
        ensures
            r.bytes() == splice(self.bytes(), 6552, spec_u64_to_le_bytes(fld)),
            r.wf(),
            final(r.store)@ == final(self.store)@,
    {
        write_u64(self.store, 6552, fld);
        self
    }

    /// Reads the `initTaskLogBuffSize` field (bytes 6552..6560).
    pub fn get_initTaskLogBuffSize(&self) -> (r: u64)
        requires
            self.wf(),
        ensures
            r == u64_at(self.bytes(), 6552),
    {
        read_u64(self.store, 6552)
    }

    /// Writes `fld` to the `initTaskLogBuffSize` field (bytes 6552..6560).
    pub fn set_initTaskLogBuffSize(&mut self, fld: u64)
        requires
            old(self).wf(),
        ensures
            final(self).bytes() == splice(old(self).bytes(), 6552, spec_u64_to_le_bytes(fld)),
            final(self).wf(),
            final(final(self).store)@ == final(old(self).store)@,
    {
        write_u64(self.store, 6552, fld);
    }

    /// Writes `fld` to the `vgpuTaskLogBuffOffset` field (bytes 6560..6568) and gives the view back.
    pub fn vgpuTaskLogBuffOffset(self, fld: u64) -> (r: Self)
        requires
            self.wf(),
        ensures
            r.bytes() == splice(self.bytes(), 6560, spec_u64_to_le_bytes(fld)),
            r.wf(),
            final(r.store)@ == final(self.store)@,
    {
        write_u64(self.store, 6560, fld);
        self
    }

    /// Reads the `vgpuTaskLogBuffOffset` field (bytes 6560..6568).
    pub fn get_vgpuTaskLogBuffOffset(&self) -> (r: u64)
        requires
            self.wf(),
        ensures
            r == u64_at(self.bytes(), 6560),
    {
        read_u64(self.store, 6560)
    }

    /// Writes `fld` to the `vgpuTaskLogBuffOffset` field (bytes 6560..6568).
    pub fn set_vgpuTaskLogBuffOffset(&mut self, fld: u64)
        requires
            old(self).wf(),
        ensures
            final(self).bytes() == splice(old(self).bytes(), 6560, spec_u64_to_le_bytes(fld)),
            final(self).wf(),
            final(final(self).store)@ == final(old(self).store)@,
    {
        write_u64(self.store, 6560, fld);
    }

    /// Writes `fld` to the `vgpuTaskLogBuffSize` field (bytes 6568..6576) and gives the view back.
    pub fn vgpuTaskLogBuffSize(self, fld: u64) -> (r: Self)
        requires
            self.wf(),
        ensures
            r.bytes() == splice(self.bytes(), 6568, spec_u64_to_le_bytes(fld)),
            r.wf(),
            final(r.store)@ == final(self.store)@,
    {
        write_u64(self.store, 6568, fld);
        self
    }

    /// Reads the `vgpuTaskLogBuffSize` field (bytes 6568..6576).
    pub fn get_vgpuTaskLogBuffSize(&self) -> (r: u64)
        requires
            self.wf(),
        ensures
            r == u64_at(self.bytes(), 6568),
    {
        read_u64(self.store, 6568)
    }

    /// Writes `fld` to the `vgpuTaskLogBuffSize` field (bytes 6568..6576).
    pub fn set_vgpuTaskLogBuffSize(&mut self, fld: u64)
        requires
            old(self).wf(),
        ensures
            final(self).bytes() == splice(old(self).bytes(), 6568, spec_u64_to_le_bytes(fld)),
            final(self).wf(),
            final(final(self).store)@ == final(old(self).store)@,
    {
        write_u64(self.store, 6568, fld);
    }

    /// Writes `fld` to the `kernelLogBuffOffset` field (bytes 6576..6584) and gives the view back.
    pub fn kernelLogBuffOffset(self, fld: u64) -> (r: Self)
        requires
            self.wf(),
        ensures
            r.bytes() == splice(self.bytes(), 6576, spec_u64_to_le_bytes(fld)),
            r.wf(),
            final(r.store)@ == final(self.store)@,
    {
        write_u64(self.store, 6576, fld);
        self
    }

    /// Reads the `kernelLogBuffOffset` field (bytes 6576..6584).
    pub fn get_kernelLogBuffOffset(&self) -> (r: u64)
        requires
            self.wf(),
        ensures
            r == u64_at(self.bytes(), 6576),
    {
        read_u64(self.store, 6576)
    }

    /// Writes `fld` to the `kernelLogBuffOffset` field (bytes 6576..6584).
    pub fn set_kernelLogBuffOffset(&mut self, fld: u64)
        requires
            old(self).wf(),
        ensures
            final(self).bytes() == splice(old(self).bytes(), 6576, spec_u64_to_le_bytes(fld)),
            final(self).wf(),
            final(final(self).store)@ == final(old(self).store)@,
    {
        write_u64(self.store, 6576, fld);
    }

    /// Writes `fld` to the `kernelLogBuffSize` field (bytes 6584..6592) and gives the view back.
    pub fn kernelLogBuffSize(self, fld: u64) -> (r: Self)
        requires
            self.wf(),
        ensures
            r.bytes() == splice(self.bytes(), 6584, spec_u64_to_le_bytes(fld)),
            r.wf(),
            final(r.store)@ == final(self.store)@,
    {
        write_u64(self.store, 6584, fld);
        self
    }

    /// Reads the `kernelLogBuffSize` field (bytes 6584..6592).
    pub fn get_kernelLogBuffSize(&self) -> (r: u64)
        requires
            self.wf(),
        ensures
            r == u64_at(self.bytes(), 6584),
    {
        read_u64(self.store, 6584)
    }

    /// Writes `fld` to the `kernelLogBuffSize` field (bytes 6584..6592).
    pub fn set_kernelLogBuffSize(&mut self, fld: u64)
        requires
            old(self).wf(),
        ensures
            final(self).bytes() == splice(old(self).bytes(), 6584, spec_u64_to_le_bytes(fld)),
            final(self).wf(),
            final(final(self).store)@ == final(old(self).store)@,
    {
        write_u64(self.store, 6584, fld);
    }

    /// Writes `fld` to the `migRmHeapMemoryPhysAddr` field (bytes 6592..6600) and gives the view back.
    pub fn migRmHeapMemoryPhysAddr(self, fld: u64) -> (r: Self)
        requires
            self.wf(),
        ensures
            r.bytes() == splice(self.bytes(), 6592, spec_u64_to_le_bytes(fld)),
            r.wf(),
            final(r.store)@ == final(self.store)@,
    {
        write_u64(self.store, 6592, fld);
        self
    }

    /// Reads the `migRmHeapMemoryPhysAddr` field (bytes 6592..6600).
    pub fn get_migRmHeapMemoryPhysAddr(&self) -> (r: u64)
        requires
            self.wf(),
        ensures
            r == u64_at(self.bytes(), 6592),
    {
        read_u64(self.store, 6592)
    }

    /// Writes `fld` to the `migRmHeapMemoryPhysAddr` field (bytes 6592..6600).
    pub fn set_migRmHeapMemoryPhysAddr(&mut self, fld: u64)
        requires
            old(self).wf(),
        ensures
            final(self).bytes() == splice(old(self).bytes(), 6592, spec_u64_to_le_bytes(fld)),
            final(self).wf(),
            final(final(self).store)@ == final(old(self).store)@,
    {
        write_u64(self.store, 6592, fld);
    }

    /// Writes `fld` to the `migRmHeapMemoryLength` field (bytes 6600..6608) and gives the view back.
    pub fn migRmHeapMemoryLength(self, fld: u64) -> (r: Self)
        requires
            self.wf(),
        ensures
            r.bytes() == splice(self.bytes(), 6600, spec_u64_to_le_bytes(fld)),
            r.wf(),
            final(r.store)@ == final(self.store)@,
    {
        write_u64(self.store, 6600, fld);
        self
    }

    /// Reads the `migRmHeapMemoryLength` field (bytes 6600..6608).
    pub fn get_migRmHeapMemoryLength(&self) -> (r: u64)
        requires
            self.wf(),
        ensures
            r == u64_at(self.bytes(), 6600),
    {
        read_u64(self.store, 6600)
    }

    /// Writes `fld` to the `migRmHeapMemoryLength` field (bytes 6600..6608).
    pub fn set_migRmHeapMemoryLength(&mut self, fld: u64)
        requires
            old(self).wf(),
        ensures
            final(self).bytes() == splice(old(self).bytes(), 6600, spec_u64_to_le_bytes(fld)),
            final(self).wf(),
            final(final(self).store)@ == final(old(self).store)@,
    {
        write_u64(self.store, 6600, fld);
    }

    /// Writes `fld` to the `bDeviceProfilingEnabled` field (bytes 6608..6609) and gives the view back.
    pub fn bDeviceProfilingEnabled(self, fld: u8) -> (r: Self)
        requires
            self.wf(),
        ensures
            r.bytes() == splice(self.bytes(), 6608, seq![fld]),
            r.wf(),
            final(r.store)@ == final(self.store)@,
    {
        write_u8(self.store, 6608, fld);
        self
    }

    /// Reads the `bDeviceProfilingEnabled` field (bytes 6608..6609).
    pub fn get_bDeviceProfilingEnabled(&self) -> (r: u8)
        requires
            self.wf(),
        ensures
            r == self.bytes()[6608],
    {
        read_u8(self.store, 6608)
    }

    /// Writes `fld` to the `bDeviceProfilingEnabled` field (bytes 6608..6609).
    pub fn set_bDeviceProfilingEnabled(&mut self, fld: u8)
        requires
            old(self).wf(),
        ensures
            final(self).bytes() == splice(old(self).bytes(), 6608, seq![fld]),
            final(self).wf(),
            final(final(self).store)@ == final(old(self).store)@,
    {
        write_u8(self.store, 6608, fld);
    }

}

/// View of the firmware structure `s_NV2080_CTRL_VGPU_MGR_INTERNAL_PGPU_ADD_VGPU_TYPE_PARAMS` (334344 bytes).
pub struct s_NV2080_CTRL_VGPU_MGR_INTERNAL_PGPU_ADD_VGPU_TYPE_PARAMS<'s> {
    /// The buffer from the first byte of the structure to the end.
    pub store: &'s mut [u8],
}

impl<'s> s_NV2080_CTRL_VGPU_MGR_INTERNAL_PGPU_ADD_VGPU_TYPE_PARAMS<'s> {
    /// The bytes seen through this view.
    pub open spec fn bytes(&self) -> Seq<u8> {
        self.store@
    }

    /// The buffer holds at least the whole structure.
    pub open spec fn wf(&self) -> bool {
        self.store@.len() >= 334344
    }

    /// Size of the structure in bytes.
    pub fn str_size() -> (n: usize)
        ensures
            n == 334344,
    {
        334344
    }

    /// Views `store` as this structure, starting at its first byte.
    pub fn new(store: &'s mut [u8]) -> (r: Self)
        requires
            old(store)@.len() >= 334344,
        ensures
            r.bytes() == old(store)@,
            r.wf(),
            final(store)@ == final(r.store)@,
    {
        Self { store }
    }

    /// Writes `fld` to the `discardVgpuTypes` field (bytes 0..1) and gives the view back.
    pub fn discardVgpuTypes(self, fld: u8) -> (r: Self)
        requires
            self.wf(),
        ensures
            r.bytes() == splice(self.bytes(), 0, seq![fld]),
            r.wf(),
            final(r.store)@ == final(self.store)@,
    {
        write_u8(self.store, 0, fld);
        self
    }

    /// Reads the `discardVgpuTypes` field (bytes 0..1).
    pub fn get_discardVgpuTypes(&self) -> (r: u8)
        requires
            self.wf(),
        ensures
            r == self.bytes()[0],
    {
        read_u8(self.store, 0)
    }

    /// Writes `fld` to the `discardVgpuTypes` field (bytes 0..1).
    pub fn set_discardVgpuTypes(&mut self, fld: u8)
        requires
            old(self).wf(),
        ensures
            final(self).bytes() == splice(old(self).bytes(), 0, seq![fld]),
            final(self).wf(),
            final(final(self).store)@ == final(old(self).store)@,
    {
        write_u8(self.store, 0, fld);
    }

    /// Writes `fld` to the `vgpuInfoCount` field (bytes 4..8) and gives the view back.
    pub fn vgpuInfoCount(self, fld: u32) -> (r: Self)
        requires
            self.wf(),
        ensures
            r.bytes() == splice(self.bytes(), 4, spec_u32_to_le_bytes(fld)),
            r.wf(),
            final(r.store)@ == final(self.store)@,
    {
        write_u32(self.store, 4, fld);
        self
    }

    /// Reads the `vgpuInfoCount` field (bytes 4..8).
    pub fn get_vgpuInfoCount(&self) -> (r: u32)
        requires
            self.wf(),
        ensures
            r == u32_at(self.bytes(), 4),
    {
        read_u32(self.store, 4)
    }

    /// Writes `fld` to the `vgpuInfoCount` field (bytes 4..8).
    pub fn set_vgpuInfoCount(&mut self, fld: u32)
        requires
            old(self).wf(),
        ensures
            final(self).bytes() == splice(old(self).bytes(), 4, spec_u32_to_le_bytes(fld)),
            final(self).wf(),
            final(final(self).store)@ == final(old(self).store)@,
    {
        write_u32(self.store, 4, fld);
    }

    /// View of entry `idx` of the `vgpuInfo` table, whose entries are 5224 bytes apart
    /// from byte 8 on.
    pub fn new_S_vgpuInfo(&mut self, idx: isize) -> (r: s_NVA081_CTRL_VGPU_INFO<'_>)
        requires
            old(self).wf(),
            0 <= idx,
            idx * 5224 + 8 + 5224 <= old(self).bytes().len(),
        ensures
            r.bytes() == old(self).bytes().subrange(idx * 5224 + 8, old(self).bytes().len() as int),
            r.wf(),
            final(self).bytes() == old(self).bytes().subrange(0, idx * 5224 + 8) + final(r.store)@,
            final(final(self).store)@ == final(old(self).store)@,
    {
        proof {
            assert(self.store@.len() == self.store.len());
        }
        let off = idx as usize * 5224 + 8;
        let (_head, tail) = self.store.split_at_mut(off);
        s_NVA081_CTRL_VGPU_INFO { store: tail }
    }

}

/// View of the firmware structure `s_NVA081_CTRL_VGPU_INFO` (5224 bytes).
pub struct s_NVA081_CTRL_VGPU_INFO<'s> {
    /// The buffer from the first byte of the structure to the end.
    pub store: &'s mut [u8],
}

impl<'s> s_NVA081_CTRL_VGPU_INFO<'s> {
    /// The bytes seen through this view.
    pub open spec fn bytes(&self) -> Seq<u8> {
        self.store@
    }

    /// The buffer holds at least the whole structure.
    pub open spec fn wf(&self) -> bool {
        self.store@.len() >= 5224
    }

    /// Size of the structure in bytes.
    pub fn str_size() -> (n: usize)
        ensures
            n == 5224,
    {
        5224
    }

    /// Views `store` as this structure, starting at its first byte.
    pub fn new(store: &'s mut [u8]) -> (r: Self)
        requires
            old(store)@.len() >= 5224,
        ensures
            r.bytes() == old(store)@,
            r.wf(),
            final(store)@ == final(r.store)@,
    {
        Self { store }
    }

    /// Writes `fld` to the `vgpuType` field (bytes 0..4) and gives the view back.
    pub fn vgpuType(self, fld: u32) -> (r: Self)
        requires
            self.wf(),
        ensures
            r.bytes() == splice(self.bytes(), 0, spec_u32_to_le_bytes(fld)),
            r.wf(),
            final(r.store)@ == final(self.store)@,
    {
        write_u32(self.store, 0, fld);
        self
    }

    /// Reads the `vgpuType` field (bytes 0..4).
    pub fn get_vgpuType(&self) -> (r: u32)
        requires
            self.wf(),
        ensures
            r == u32_at(self.bytes(), 0),
    {
        read_u32(self.store, 0)
    }

    /// Writes `fld` to the `vgpuType` field (bytes 0..4).
    pub fn set_vgpuType(&mut self, fld: u32)
        requires
            old(self).wf(),
        ensures
            final(self).bytes() == splice(old(self).bytes(), 0, spec_u32_to_le_bytes(fld)),
            final(self).wf(),
            final(final(self).store)@ == final(old(self).store)@,
    {
        write_u32(self.store, 0, fld);
    }

    /// Writes `fld` to the `vgpuName` field (bytes 4..36) and gives the view back.
    pub fn vgpuName(self, fld: [u8; 32]) -> (r: Self)
        requires
            self.wf(),
        ensures
            r.bytes() == splice(self.bytes(), 4, fld@),
            r.wf(),
            final(r.store)@ == final(self.store)@,
    {
        write_u8s(self.store, 4, &fld);
        self
    }

    /// Writes `fld` to the `vgpuName` field (bytes 4..36).
    pub fn set_vgpuName(&mut self, fld: [u8; 32])
        requires
            old(self).wf(),
        ensures
            final(self).bytes() == splice(old(self).bytes(), 4, fld@),
            final(self).wf(),
            final(final(self).store)@ == final(old(self).store)@,
    {
        write_u8s(self.store, 4, &fld);
    }

    /// Reads the `vgpuName` array (bytes 4..36).
    pub fn get_vgpuName(&mut self) -> (r: [u8; 32])
        requires
            old(self).wf(),
        ensures
            r@ == old(self).bytes().subrange(4, 36),
            final(self).bytes() == old(self).bytes(),
            final(final(self).store)@ == final(old(self).store)@,
    {
        read_u8s(self.store, 4)
    }

    /// Writes `fld` to the `vgpuClass` field (bytes 36..68) and gives the view back.
    pub fn vgpuClass(self, fld: [u8; 32]) -> (r: Self)
        requires
            self.wf(),
        ensures
            r.bytes() == splice(self.bytes(), 36, fld@),
            r.wf(),
            final(r.store)@ == final(self.store)@,
    {
        write_u8s(self.store, 36, &fld);
        self
    }

    /// Writes `fld` to the `vgpuClass` field (bytes 36..68).
    pub fn set_vgpuClass(&mut self, fld: [u8; 32])
        requires
            old(self).wf(),
        ensures
            final(self).bytes() == splice(old(self).bytes(), 36, fld@),
            final(self).wf(),
            final(final(self).store)@ == final(old(self).store)@,
    {
        write_u8s(self.store, 36, &fld);
    }

    /// Reads the `vgpuClass` array (bytes 36..68).
    pub fn get_vgpuClass(&mut self) -> (r: [u8; 32])
        requires
            old(self).wf(),
        ensures
            r@ == old(self).bytes().subrange(36, 68),
            final(self).bytes() == old(self).bytes(),
            final(final(self).store)@ == final(old(self).store)@,
    {
        read_u8s(self.store, 36)
    }

    /// Writes `fld` to the `vgpuSignature` field (bytes 68..196) and gives the view back.
    pub fn vgpuSignature(self, fld: [u8; 128]) -> (r: Self)
        requires
            self.wf(),
        ensures
            r.bytes() == splice(self.bytes(), 68, fld@),
            r.wf(),
            final(r.store)@ == final(self.store)@,
    {
        write_u8s(self.store, 68, &fld);
        self
    }

    /// Writes `fld` to the `vgpuSignature` field (bytes 68..196).
    pub fn set_vgpuSignature(&mut self, fld: [u8; 128])
        requires
            old(self).wf(),
        ensures
            final(self).bytes() == splice(old(self).bytes(), 68, fld@),
            final(self).wf(),
            final(final(self).store)@ == final(old(self).store)@,
    {
        write_u8s(self.store, 68, &fld);
    }

    /// Reads the `vgpuSignature` array (bytes 68..196).
    pub fn get_vgpuSignature(&mut self) -> (r: [u8; 128])
        requires
            old(self).wf(),
        ensures
            r@ == old(self).bytes().subrange(68, 196),
            final(self).bytes() == old(self).bytes(),
            final(final(self).store)@ == final(old(self).store)@,
    {
        read_u8s(self.store, 68)
    }

    /// Writes `fld` to the `license` field (bytes 196..324) and gives the view back.
    pub fn license(self, fld: [u8; 128]) -> (r: Self)
        requires
            self.wf(),
        ensures
            r.bytes() == splice(self.bytes(), 196, fld@),
            r.wf(),
            final(r.store)@ == final(self.store)@,
    {
        write_u8s(self.store, 196, &fld);
        self
    }

    /// Writes `fld` to the `license` field (bytes 196..324).
    pub fn set_license(&mut self, fld: [u8; 128])
        requires
            old(self).wf(),
        ensures
            final(self).bytes() == splice(old(self).bytes(), 196, fld@),
            final(self).wf(),
            final(final(self).store)@ == final(old(self).store)@,
    {
        write_u8s(self.store, 196, &fld);
    }

    /// Reads the `license` array (bytes 196..324).
    pub fn get_license(&mut self) -> (r: [u8; 128])
        requires
            old(self).wf(),
        ensures
            r@ == old(self).bytes().subrange(196, 324),
            final(self).bytes() == old(self).bytes(),
            final(final(self).store)@ == final(old(self).store)@,
    {
        read_u8s(self.store, 196)
    }

    /// Writes `fld` to the `maxInstance` field (bytes 324..328) and gives the view back.
    pub fn maxInstance(self, fld: u32) -> (r: Self)
        requires
            self.wf(),
        ensures
            r.bytes() == splice(self.bytes(), 324, spec_u32_to_le_bytes(fld)),
            r.wf(),
            final(r.store)@ == final(self.store)@,
    {
        write_u32(self.store, 324, fld);
        self
    }

    /// Reads the `maxInstance` field (bytes 324..328).
    pub fn get_maxInstance(&self) -> (r: u32)
        requires
            self.wf(),
        ensures
            r == u32_at(self.bytes(), 324),
    {
        read_u32(self.store, 324)
    }

    /// Writes `fld` to the `maxInstance` field (bytes 324..328).
    pub fn set_maxInstance(&mut self, fld: u32)
        requires
            old(self).wf(),
        ensures
            final(self).bytes() == splice(old(self).bytes(), 324, spec_u32_to_le_bytes(fld)),
            final(self).wf(),
            final(final(self).store)@ == final(old(self).store)@,
    {
        write_u32(self.store, 324, fld);
    }

    /// Writes `fld` to the `numHeads` field (bytes 328..332) and gives the view back.
    pub fn numHeads(self, fld: u32) -> (r: Self)
        requires
            self.wf(),
        ensures
            r.bytes() == splice(self.bytes(), 328, spec_u32_to_le_bytes(fld)),
            r.wf(),
            final(r.store)@ == final(self.store)@,
    {
        write_u32(self.store, 328, fld);
        self
    }

    /// Reads the `numHeads` field (bytes 328..332).
    pub fn get_numHeads(&self) -> (r: u32)
        requires
            self.wf(),
        ensures
            r == u32_at(self.bytes(), 328),
    {
        read_u32(self.store, 328)
    }

    /// Writes `fld` to the `numHeads` field (bytes 328..332).
    pub fn set_numHeads(&mut self, fld: u32)
        requires
            old(self).wf(),
        ensures
            final(self).bytes() == splice(old(self).bytes(), 328, spec_u32_to_le_bytes(fld)),
            final(self).wf(),
            final(final(self).store)@ == final(old(self).store)@,
    {
        write_u32(self.store, 328, fld);
    }

    /// Writes `fld` to the `maxResolutionX` field (bytes 332..336) and gives the view back.
    pub fn maxResolutionX(self, fld: u32) -> (r: Self)
        requires
            self.wf(),
        ensures
            r.bytes() == splice(self.bytes(), 332, spec_u32_to_le_bytes(fld)),
            r.wf(),
            final(r.store)@ == final(self.store)@,
    {
        write_u32(self.store, 332, fld);
        self
    }

    /// Reads the `maxResolutionX` field (bytes 332..336).
    pub fn get_maxResolutionX(&self) -> (r: u32)
        requires
            self.wf(),
        ensures
            r == u32_at(self.bytes(), 332),
    {
        read_u32(self.store, 332)
    }

    /// Writes `fld` to the `maxResolutionX` field (bytes 332..336).
    pub fn set_maxResolutionX(&mut self, fld: u32)
        requires
            old(self).wf(),
        ensures
            final(self).bytes() == splice(old(self).bytes(), 332, spec_u32_to_le_bytes(fld)),
            final(self).wf(),
            final(final(self).store)@ == final(old(self).store)@,
    {
        write_u32(self.store, 332, fld);
    }

    /// Writes `fld` to the `maxResolutionY` field (bytes 336..340) and gives the view back.
    pub fn maxResolutionY(self, fld: u32) -> (r: Self)
        requires
            self.wf(),
        ensures
            r.bytes() == splice(self.bytes(), 336, spec_u32_to_le_bytes(fld)),
            r.wf(),
            final(r.store)@ == final(self.store)@,
    {
        write_u32(self.store, 336, fld);
        self
    }

    /// Reads the `maxResolutionY` field (bytes 336..340).
    pub fn get_maxResolutionY(&self) -> (r: u32)
        requires
            self.wf(),
        ensures
            r == u32_at(self.bytes(), 336),
    {
        read_u32(self.store, 336)
    }

    /// Writes `fld` to the `maxResolutionY` field (bytes 336..340).
    pub fn set_maxResolutionY(&mut self, fld: u32)
        requires
            old(self).wf(),
        ensures
            final(self).bytes() == splice(old(self).bytes(), 336, spec_u32_to_le_bytes(fld)),
            final(self).wf(),
            final(final(self).store)@ == final(old(self).store)@,
    {
        write_u32(self.store, 336, fld);
    }

    /// Writes `fld` to the `maxPixels` field (bytes 340..344) and gives the view back.
    pub fn maxPixels(self, fld: u32) -> (r: Self)
        requires
            self.wf(),
        ensures
            r.bytes() == splice(self.bytes(), 340, spec_u32_to_le_bytes(fld)),
            r.wf(),
            final(r.store)@ == final(self.store)@,
    {
        write_u32(self.store, 340, fld);
        self
    }

    /// Reads the `maxPixels` field (bytes 340..344).
    pub fn get_maxPixels(&self) -> (r: u32)
        requires
            self.wf(),
        ensures
            r == u32_at(self.bytes(), 340),
    {
        read_u32(self.store, 340)
    }

    /// Writes `fld` to the `maxPixels` field (bytes 340..344).
    pub fn set_maxPixels(&mut self, fld: u32)
        requires
            old(self).wf(),
        ensures
            final(self).bytes() == splice(old(self).bytes(), 340, spec_u32_to_le_bytes(fld)),
            final(self).wf(),
            final(final(self).store)@ == final(old(self).store)@,
    {
        write_u32(self.store, 340, fld);
    }

    /// Writes `fld` to the `frlConfig` field (bytes 344..348) and gives the view back.
    pub fn frlConfig(self, fld: u32) -> (r: Self)
        requires
            self.wf(),
        ensures
            r.bytes() == splice(self.bytes(), 344, spec_u32_to_le_bytes(fld)),
            r.wf(),
            final(r.store)@ == final(self.store)@,
    {
        write_u32(self.store, 344, fld);
        self
    }

    /// Reads the `frlConfig` field (bytes 344..348).
    pub fn get_frlConfig(&self) -> (r: u32)
        requires
            self.wf(),
        ensures
            r == u32_at(self.bytes(), 344),
    {
        read_u32(self.store, 344)
    }

    /// Writes `fld` to the `frlConfig` field (bytes 344..348).
    pub fn set_frlConfig(&mut self, fld: u32)
        requires
            old(self).wf(),
        ensures
            final(self).bytes() == splice(old(self).bytes(), 344, spec_u32_to_le_bytes(fld)),
            final(self).wf(),
            final(final(self).store)@ == final(old(self).store)@,
    {
        write_u32(self.store, 344, fld);
    }

    /// Writes `fld` to the `cudaEnabled` field (bytes 348..352) and gives the view back.
    pub fn cudaEnabled(self, fld: u32) -> (r: Self)
        requires
            self.wf(),
        ensures
            r.bytes() == splice(self.bytes(), 348, spec_u32_to_le_bytes(fld)),
            r.wf(),
            final(r.store)@ == final(self.store)@,
    {
        write_u32(self.store, 348, fld);
        self
    }

    /// Reads the `cudaEnabled` field (bytes 348..352).
    pub fn get_cudaEnabled(&self) -> (r: u32)
        requires
            self.wf(),
        ensures
            r == u32_at(self.bytes(), 348),
    {
        read_u32(self.store, 348)
    }

    /// Writes `fld` to the `cudaEnabled` field (bytes 348..352).
    pub fn set_cudaEnabled(&mut self, fld: u32)
        requires
            old(self).wf(),
        ensures
            final(self).bytes() == splice(old(self).bytes(), 348, spec_u32_to_le_bytes(fld)),
            final(self).wf(),
            final(final(self).store)@ == final(old(self).store)@,
    {
        write_u32(self.store, 348, fld);
    }

    /// Writes `fld` to the `eccSupported` field (bytes 352..356) and gives the view back.
    pub fn eccSupported(self, fld: u32) -> (r: Self)
        requires
            self.wf(),
        ensures
            r.bytes() == splice(self.bytes(), 352, spec_u32_to_le_bytes(fld)),
            r.wf(),
            final(r.store)@ == final(self.store)@,
    {
        write_u32(self.store, 352, fld);
        self
    }

    /// Reads the `eccSupported` field (bytes 352..356).
    pub fn get_eccSupported(&self) -> (r: u32)
        requires
            self.wf(),
        ensures
            r == u32_at(self.bytes(), 352),
    {
        read_u32(self.store, 352)
    }

    /// Writes `fld` to the `eccSupported` field (bytes 352..356).
    pub fn set_eccSupported(&mut self, fld: u32)
        requires
            old(self).wf(),
        ensures
            final(self).bytes() == splice(old(self).bytes(), 352, spec_u32_to_le_bytes(fld)),
            final(self).wf(),
            final(final(self).store)@ == final(old(self).store)@,
    {
        write_u32(self.store, 352, fld);
    }

    /// Writes `fld` to the `gpuInstanceSize` field (bytes 356..360) and gives the view back.
    pub fn gpuInstanceSize(self, fld: u32) -> (r: Self)
        requires
            self.wf(),
        ensures
            r.bytes() == splice(self.bytes(), 356, spec_u32_to_le_bytes(fld)),
            r.wf(),
            final(r.store)@ == final(self.store)@,
    {
        write_u32(self.store, 356, fld);
        self
    }

    /// Reads the `gpuInstanceSize` field (bytes 356..360).
    pub fn get_gpuInstanceSize(&self) -> (r: u32)
        requires
            self.wf(),
        ensures
            r == u32_at(self.bytes(), 356),
    {
        read_u32(self.store, 356)
    }

    /// Writes `fld` to the `gpuInstanceSize` field (bytes 356..360).
    pub fn set_gpuInstanceSize(&mut self, fld: u32)
        requires
            old(self).wf(),
        ensures
            final(self).bytes() == splice(old(self).bytes(), 356, spec_u32_to_le_bytes(fld)),
            final(self).wf(),
            final(final(self).store)@ == final(old(self).store)@,
    {
        write_u32(self.store, 356, fld);
    }

    /// Writes `fld` to the `multiVgpuSupported` field (bytes 360..364) and gives the view back.
    pub fn multiVgpuSupported(self, fld: u32) -> (r: Self)
        requires
            self.wf(),
        ensures
            r.bytes() == splice(self.bytes(), 360, spec_u32_to_le_bytes(fld)),
            r.wf(),
            final(r.store)@ == final(self.store)@,
    {
        write_u32(self.store, 360, fld);
        self
    }

    /// Reads the `multiVgpuSupported` field (bytes 360..364).
    pub fn get_multiVgpuSupported(&self) -> (r: u32)
        requires
            self.wf(),
        ensures
            r == u32_at(self.bytes(), 360),
    {
        read_u32(self.store, 360)
    }

    /// Writes `fld` to the `multiVgpuSupported` field (bytes 360..364).
    pub fn set_multiVgpuSupported(&mut self, fld: u32)
        requires
            old(self).wf(),
        ensures
            final(self).bytes() == splice(old(self).bytes(), 360, spec_u32_to_le_bytes(fld)),
            final(self).wf(),
            final(final(self).store)@ == final(old(self).store)@,
    {
        write_u32(self.store, 360, fld);
    }

    /// Writes `fld` to the `vdevId` field (bytes 368..376) and gives the view back.
    pub fn vdevId(self, fld: u64) -> (r: Self)
        requires
            self.wf(),
        ensures
            r.bytes() == splice(self.bytes(), 368, spec_u64_to_le_bytes(fld)),
            r.wf(),
            final(r.store)@ == final(self.store)@,
    {
        write_u64(self.store, 368, fld);
        self
    }

    /// Reads the `vdevId` field (bytes 368..376).
    pub fn get_vdevId(&self) -> (r: u64)
        requires
            self.wf(),
        ensures
            r == u64_at(self.bytes(), 368),
    {
        read_u64(self.store, 368)
    }

    /// Writes `fld` to the `vdevId` field (bytes 368..376).
    pub fn set_vdevId(&mut self, fld: u64)
        requires
            old(self).wf(),
        ensures
            final(self).bytes() == splice(old(self).bytes(), 368, spec_u64_to_le_bytes(fld)),
            final(self).wf(),
            final(final(self).store)@ == final(old(self).store)@,
    {
        write_u64(self.store, 368, fld);
    }

    /// Writes `fld` to the `pdevId` field (bytes 376..384) and gives the view back.
    pub fn pdevId(self, fld: u64) -> (r: Self)
        requires
            self.wf(),
        ensures
            r.bytes() == splice(self.bytes(), 376, spec_u64_to_le_bytes(fld)),
            r.wf(),
            final(r.store)@ == final(self.store)@,
    {
        write_u64(self.store, 376, fld);
        self
    }

    /// Reads the `pdevId` field (bytes 376..384).
    pub fn get_pdevId(&self) -> (r: u64)
        requires
            self.wf(),
        ensures
            r == u64_at(self.bytes(), 376),
    {
        read_u64(self.store, 376)
    }

    /// Writes `fld` to the `pdevId` field (bytes 376..384).
    pub fn set_pdevId(&mut self, fld: u64)
        requires
            old(self).wf(),
        ensures
            final(self).bytes() == splice(old(self).bytes(), 376, spec_u64_to_le_bytes(fld)),
            final(self).wf(),
            final(final(self).store)@ == final(old(self).store)@,
    {
        write_u64(self.store, 376, fld);
    }

    /// Writes `fld` to the `profileSize` field (bytes 384..392) and gives the view back.
    pub fn profileSize(self, fld: u64) -> (r: Self)
        requires
            self.wf(),
        ensures
            r.bytes() == splice(self.bytes(), 384, spec_u64_to_le_bytes(fld)),
            r.wf(),
            final(r.store)@ == final(self.store)@,
    {
        write_u64(self.store, 384, fld);
        self
    }

    /// Reads the `profileSize` field (bytes 384..392).
    pub fn get_profileSize(&self) -> (r: u64)
        requires
            self.wf(),
        ensures
            r == u64_at(self.bytes(), 384),
    {
        read_u64(self.store, 384)
    }

    /// Writes `fld` to the `profileSize` field (bytes 384..392).
    pub fn set_profileSize(&mut self, fld: u64)
        requires
            old(self).wf(),
        ensures
            final(self).bytes() == splice(old(self).bytes(), 384, spec_u64_to_le_bytes(fld)),
            final(self).wf(),
            final(final(self).store)@ == final(old(self).store)@,
    {
        write_u64(self.store, 384, fld);
    }

    /// Writes `fld` to the `fbLength` field (bytes 392..400) and gives the view back.
    pub fn fbLength(self, fld: u64) -> (r: Self)
        requires
            self.wf(),
        ensures
            r.bytes() == splice(self.bytes(), 392, spec_u64_to_le_bytes(fld)),
            r.wf(),
            final(r.store)@ == final(self.store)@,
    {
        write_u64(self.store, 392, fld);
        self
    }

    /// Reads the `fbLength` field (bytes 392..400).
    pub fn get_fbLength(&self) -> (r: u64)
        requires
            self.wf(),
        ensures
            r == u64_at(self.bytes(), 392),
    {
        read_u64(self.store, 392)
    }

    /// Writes `fld` to the `fbLength` field (bytes 392..400).
    pub fn set_fbLength(&mut self, fld: u64)
        requires
            old(self).wf(),
        ensures
            final(self).bytes() == splice(old(self).bytes(), 392, spec_u64_to_le_bytes(fld)),
            final(self).wf(),
            final(final(self).store)@ == final(old(self).store)@,
    {
        write_u64(self.store, 392, fld);
    }

    /// Writes `fld` to the `gspHeapSize` field (bytes 400..408) and gives the view back.
    pub fn gspHeapSize(self, fld: u64) -> (r: Self)
        requires
            self.wf(),
        ensures
            r.bytes() == splice(self.bytes(), 400, spec_u64_to_le_bytes(fld)),
            r.wf(),
            final(r.store)@ == final(self.store)@,
    {
        write_u64(self.store, 400, fld);
        self
    }

    /// Reads the `gspHeapSize` field (bytes 400..408).
    pub fn get_gspHeapSize(&self) -> (r: u64)
        requires
            self.wf(),
        ensures
            r == u64_at(self.bytes(), 400),
    {
        read_u64(self.store, 400)
    }

    /// Writes `fld` to the `gspHeapSize` field (bytes 400..408).
    pub fn set_gspHeapSize(&mut self, fld: u64)
        requires
            old(self).wf(),
        ensures
            final(self).bytes() == splice(old(self).bytes(), 400, spec_u64_to_le_bytes(fld)),
            final(self).wf(),
            final(final(self).store)@ == final(old(self).store)@,
    {
        write_u64(self.store, 400, fld);
    }

    /// Writes `fld` to the `fbReservation` field (bytes 408..416) and gives the view back.
    pub fn fbReservation(self, fld: u64) -> (r: Self)
        requires
            self.wf(),
        ensures
            r.bytes() == splice(self.bytes(), 408, spec_u64_to_le_bytes(fld)),
            r.wf(),
            final(r.store)@ == final(self.store)@,
    {
        write_u64(self.store, 408, fld);
        self
    }

    /// Reads the `fbReservation` field (bytes 408..416).
    pub fn get_fbReservation(&self) -> (r: u64)
        requires
            self.wf(),
        ensures
            r == u64_at(self.bytes(), 408),
    {
        read_u64(self.store, 408)
    }

    /// Writes `fld` to the `fbReservation` field (bytes 408..416).
    pub fn set_fbReservation(&mut self, fld: u64)
        requires
            old(self).wf(),
        ensures
            final(self).bytes() == splice(old(self).bytes(), 408, spec_u64_to_le_bytes(fld)),
            final(self).wf(),
            final(final(self).store)@ == final(old(self).store)@,
    {
        write_u64(self.store, 408, fld);
    }

    /// Writes `fld` to the `mappableVideoSize` field (bytes 416..424) and gives the view back.
    pub fn mappableVideoSize(self, fld: u64) -> (r: Self)
        requires
            self.wf(),
        ensures
            r.bytes() == splice(self.bytes(), 416, spec_u64_to_le_bytes(fld)),
            r.wf(),
            final(r.store)@ == final(self.store)@,
    {
        write_u64(self.store, 416, fld);
        self
    }

    /// Reads the `mappableVideoSize` field (bytes 416..424).
    pub fn get_mappableVideoSize(&self) -> (r: u64)
        requires
            self.wf(),
        ensures
            r == u64_at(self.bytes(), 416),
    {
        read_u64(self.store, 416)
    }

    /// Writes `fld` to the `mappableVideoSize` field (bytes 416..424).
    pub fn set_mappableVideoSize(&mut self, fld: u64)
        requires
            old(self).wf(),
        ensures
            final(self).bytes() == splice(old(self).bytes(), 416, spec_u64_to_le_bytes(fld)),
            final(self).wf(),
            final(final(self).store)@ == final(old(self).store)@,
    {
        write_u64(self.store, 416, fld);
    }

    /// Writes `fld` to the `encoderCapacity` field (bytes 424..428) and gives the view back.
    pub fn encoderCapacity(self, fld: u32) -> (r: Self)
        requires
            self.wf(),
        ensures
            r.bytes() == splice(self.bytes(), 424, spec_u32_to_le_bytes(fld)),
            r.wf(),
            final(r.store)@ == final(self.store)@,
    {
        write_u32(self.store, 424, fld);
        self
    }

    /// Reads the `encoderCapacity` field (bytes 424..428).
    pub fn get_encoderCapacity(&self) -> (r: u32)
        requires
            self.wf(),
        ensures
            r == u32_at(self.bytes(), 424),
    {
        read_u32(self.store, 424)
    }

    /// Writes `fld` to the `encoderCapacity` field (bytes 424..428).
    pub fn set_encoderCapacity(&mut self, fld: u32)
        requires
            old(self).wf(),
        ensures
            final(self).bytes() == splice(old(self).bytes(), 424, spec_u32_to_le_bytes(fld)),
            final(self).wf(),
            final(final(self).store)@ == final(old(self).store)@,
    {
        write_u32(self.store, 424, fld);
    }

    /// Writes `fld` to the `bar1Length` field (bytes 432..440) and gives the view back.
    pub fn bar1Length(self, fld: u64) -> (r: Self)
        requires
            self.wf(),
        ensures
            r.bytes() == splice(self.bytes(), 432, spec_u64_to_le_bytes(fld)),
            r.wf(),
            final(r.store)@ == final(self.store)@,
    {
        write_u64(self.store, 432, fld);
        self
    }

    /// Reads the `bar1Length` field (bytes 432..440).
    pub fn get_bar1Length(&self) -> (r: u64)
        requires
            self.wf(),
        ensures
            r == u64_at(self.bytes(), 432),
    {
        read_u64(self.store, 432)
    }

    /// Writes `fld` to the `bar1Length` field (bytes 432..440).
    pub fn set_bar1Length(&mut self, fld: u64)
        requires
            old(self).wf(),
        ensures
            final(self).bytes() == splice(old(self).bytes(), 432, spec_u64_to_le_bytes(fld)),
            final(self).wf(),
            final(final(self).store)@ == final(old(self).store)@,
    {
        write_u64(self.store, 432, fld);
    }

    /// Writes `fld` to the `frlEnable` field (bytes 440..444) and gives the view back.
    pub fn frlEnable(self, fld: u32) -> (r: Self)
        requires
            self.wf(),
        ensures
            r.bytes() == splice(self.bytes(), 440, spec_u32_to_le_bytes(fld)),
            r.wf(),
            final(r.store)@ == final(self.store)@,
    {
        write_u32(self.store, 440, fld);
        self
    }

    /// Reads the `frlEnable` field (bytes 440..444).
    pub fn get_frlEnable(&self) -> (r: u32)
        requires
            self.wf(),
        ensures
            r == u32_at(self.bytes(), 440),
    {
        read_u32(self.store, 440)
    }

    /// Writes `fld` to the `frlEnable` field (bytes 440..444).
    pub fn set_frlEnable(&mut self, fld: u32)
        requires
            old(self).wf(),
        ensures
            final(self).bytes() == splice(old(self).bytes(), 440, spec_u32_to_le_bytes(fld)),
            final(self).wf(),
            final(final(self).store)@ == final(old(self).store)@,
    {
        write_u32(self.store, 440, fld);
    }

    /// Writes `fld` to the `adapterName` field (bytes 444..508) and gives the view back.
    pub fn adapterName(self, fld: [u8; 64]) -> (r: Self)
        requires
            self.wf(),
        ensures
            r.bytes() == splice(self.bytes(), 444, fld@),
            r.wf(),
            final(r.store)@ == final(self.store)@,
    {
        write_u8s(self.store, 444, &fld);
        self
    }

    /// Writes `fld` to the `adapterName` field (bytes 444..508).
    pub fn set_adapterName(&mut self, fld: [u8; 64])
        requires
            old(self).wf(),
        ensures
            final(self).bytes() == splice(old(self).bytes(), 444, fld@),
            final(self).wf(),
            final(final(self).store)@ == final(old(self).store)@,
    {
        write_u8s(self.store, 444, &fld);
    }

    /// Reads the `adapterName` array (bytes 444..508).
    pub fn get_adapterName(&mut self) -> (r: [u8; 64])
        requires
            old(self).wf(),
        ensures
            r@ == old(self).bytes().subrange(444, 508),
            final(self).bytes() == old(self).bytes(),
            final(final(self).store)@ == final(old(self).store)@,
    {
        read_u8s(self.store, 444)
    }

    /// Writes `fld` to the `adapterName_Unicode` field (bytes 508..636) and gives the view back.
    pub fn adapterName_Unicode(self, fld: [u16; 64]) -> (r: Self)
        requires
            self.wf(),
        ensures
            r.bytes() == splice(self.bytes(), 508, u16s_to_le(fld@)),
            r.wf(),
            final(r.store)@ == final(self.store)@,
    {
        write_u16s(self.store, 508, &fld);
        self
    }

    /// Writes `fld` to the `adapterName_Unicode` field (bytes 508..636).
    pub fn set_adapterName_Unicode(&mut self, fld: [u16; 64])
        requires
            old(self).wf(),
        ensures
            final(self).bytes() == splice(old(self).bytes(), 508, u16s_to_le(fld@)),
            final(self).wf(),
            final(final(self).store)@ == final(old(self).store)@,
    {
        write_u16s(self.store, 508, &fld);
    }

    /// Reads the `adapterName_Unicode` array (bytes 508..636).
    pub fn get_adapterName_Unicode(&mut self) -> (r: [u16; 64])
        requires
            old(self).wf(),
        ensures
            r@ == u16s_at(old(self).bytes(), 508, 64),
            final(self).bytes() == old(self).bytes(),
            final(final(self).store)@ == final(old(self).store)@,
    {
        read_u16s(self.store, 508)
    }

    /// Writes `fld` to the `shortGpuNameString` field (bytes 636..700) and gives the view back.
    pub fn shortGpuNameString(self, fld: [u8; 64]) -> (r: Self)
        requires
            self.wf(),
        ensures
            r.bytes() == splice(self.bytes(), 636, fld@),
            r.wf(),
            final(r.store)@ == final(self.store)@,
    {
        write_u8s(self.store, 636, &fld);
        self
    }

    /// Writes `fld` to the `shortGpuNameString` field (bytes 636..700).
    pub fn set_shortGpuNameString(&mut self, fld: [u8; 64])
        requires
            old(self).wf(),
        ensures
            final(self).bytes() == splice(old(self).bytes(), 636, fld@),
            final(self).wf(),
            final(final(self).store)@ == final(old(self).store)@,
    {
        write_u8s(self.store, 636, &fld);
    }

    /// Reads the `shortGpuNameString` array (bytes 636..700).
    pub fn get_shortGpuNameString(&mut self) -> (r: [u8; 64])
        requires
            old(self).wf(),
        ensures
            r@ == old(self).bytes().subrange(636, 700),
            final(self).bytes() == old(self).bytes(),
            final(final(self).store)@ == final(old(self).store)@,
    {
        read_u8s(self.store, 636)
    }

    /// Writes `fld` to the `licensedProductName` field (bytes 700..828) and gives the view back.
    pub fn licensedProductName(self, fld: [u8; 128]) -> (r: Self)
        requires
            self.wf(),
        ensures
            r.bytes() == splice(self.bytes(), 700, fld@),
            r.wf(),
            final(r.store)@ == final(self.store)@,
    {
        write_u8s(self.store, 700, &fld);
        self
    }

    /// Writes `fld` to the `licensedProductName` field (bytes 700..828).
    pub fn set_licensedProductName(&mut self, fld: [u8; 128])
        requires
            old(self).wf(),
        ensures
            final(self).bytes() == splice(old(self).bytes(), 700, fld@),
            final(self).wf(),
            final(final(self).store)@ == final(old(self).store)@,
    {
        write_u8s(self.store, 700, &fld);
    }

    /// Reads the `licensedProductName` array (bytes 700..828).
    pub fn get_licensedProductName(&mut self) -> (r: [u8; 128])
        requires
            old(self).wf(),
        ensures
            r@ == old(self).bytes().subrange(700, 828),
            final(self).bytes() == old(self).bytes(),
            final(final(self).store)@ == final(old(self).store)@,
    {
        read_u8s(self.store, 700)
    }

    /// Writes `fld` to the `vgpuExtraParams` field (bytes 828..4924) and gives the view back.
    pub fn vgpuExtraParams(self, fld: [u32; 1024]) -> (r: Self)
        requires
            self.wf(),
        ensures
            r.bytes() == splice(self.bytes(), 828, u32s_to_le(fld@)),
            r.wf(),
            final(r.store)@ == final(self.store)@,
    {
        write_u32s(self.store, 828, &fld);
        self
    }

    /// Writes `fld` to the `vgpuExtraParams` field (bytes 828..4924).
    pub fn set_vgpuExtraParams(&mut self, fld: [u32; 1024])
        requires
            old(self).wf(),
        ensures
            final(self).bytes() == splice(old(self).bytes(), 828, u32s_to_le(fld@)),
            final(self).wf(),
            final(final(self).store)@ == final(old(self).store)@,
    {
        write_u32s(self.store, 828, &fld);
    }

    /// Reads the `vgpuExtraParams` array (bytes 828..4924).
    pub fn get_vgpuExtraParams(&mut self) -> (r: [u32; 1024])
        requires
            old(self).wf(),
        ensures
            r@ == u32s_at(old(self).bytes(), 828, 1024),
            final(self).bytes() == old(self).bytes(),
            final(final(self).store)@ == final(old(self).store)@,
    {
        read_u32s(self.store, 828)
    }

    /// Writes `fld` to the `ftraceEnable` field (bytes 4924..4928) and gives the view back.
    pub fn ftraceEnable(self, fld: u32) -> (r: Self)
        requires
            self.wf(),
        ensures
            r.bytes() == splice(self.bytes(), 4924, spec_u32_to_le_bytes(fld)),
            r.wf(),
            final(r.store)@ == final(self.store)@,
    {
        write_u32(self.store, 4924, fld);
        self
    }

    /// Reads the `ftraceEnable` field (bytes 4924..4928).
    pub fn get_ftraceEnable(&self) -> (r: u32)
        requires
            self.wf(),
        ensures
            r == u32_at(self.bytes(), 4924),
    {
        read_u32(self.store, 4924)
    }

    /// Writes `fld` to the `ftraceEnable` field (bytes 4924..4928).
    pub fn set_ftraceEnable(&mut self, fld: u32)
        requires
            old(self).wf(),
        ensures
            final(self).bytes() == splice(old(self).bytes(), 4924, spec_u32_to_le_bytes(fld)),
            final(self).wf(),
            final(final(self).store)@ == final(old(self).store)@,
    {
        write_u32(self.store, 4924, fld);
    }

    /// Writes `fld` to the `gpuDirectSupported` field (bytes 4928..4932) and gives the view back.
    pub fn gpuDirectSupported(self, fld: u32) -> (r: Self)
        requires
            self.wf(),
        ensures
            r.bytes() == splice(self.bytes(), 4928, spec_u32_to_le_bytes(fld)),
            r.wf(),
            final(r.store)@ == final(self.store)@,
    {
        write_u32(self.store, 4928, fld);
        self
    }

    /// Reads the `gpuDirectSupported` field (bytes 4928..4932).
    pub fn get_gpuDirectSupported(&self) -> (r: u32)
        requires
            self.wf(),
        ensures
            r == u32_at(self.bytes(), 4928),
    {
        read_u32(self.store, 4928)
    }

    /// Writes `fld` to the `gpuDirectSupported` field (bytes 4928..4932).
    pub fn set_gpuDirectSupported(&mut self, fld: u32)
        requires
            old(self).wf(),
        ensures
            final(self).bytes() == splice(old(self).bytes(), 4928, spec_u32_to_le_bytes(fld)),
            final(self).wf(),
            final(final(self).store)@ == final(old(self).store)@,
    {
        write_u32(self.store, 4928, fld);
    }

    /// Writes `fld` to the `nvlinkP2PSupported` field (bytes 4932..4936) and gives the view back.
    pub fn nvlinkP2PSupported(self, fld: u32) -> (r: Self)
        requires
            self.wf(),
        ensures
            r.bytes() == splice(self.bytes(), 4932, spec_u32_to_le_bytes(fld)),
            r.wf(),
            final(r.store)@ == final(self.store)@,
    {
        write_u32(self.store, 4932, fld);
        self
    }

    /// Reads the `nvlinkP2PSupported` field (bytes 4932..4936).
    pub fn get_nvlinkP2PSupported(&self) -> (r: u32)
        requires
            self.wf(),
        ensures
            r == u32_at(self.bytes(), 4932),
    {
        read_u32(self.store, 4932)
    }

    /// Writes `fld` to the `nvlinkP2PSupported` field (bytes 4932..4936).
    pub fn set_nvlinkP2PSupported(&mut self, fld: u32)
        requires
            old(self).wf(),
        ensures
            final(self).bytes() == splice(old(self).bytes(), 4932, spec_u32_to_le_bytes(fld)),
            final(self).wf(),
            final(final(self).store)@ == final(old(self).store)@,
    {
        write_u32(self.store, 4932, fld);
    }

    /// Writes `fld` to the `multiVgpuExclusive` field (bytes 4936..4940) and gives the view back.
    pub fn multiVgpuExclusive(self, fld: u32) -> (r: Self)
        requires
            self.wf(),
        ensures
            r.bytes() == splice(self.bytes(), 4936, spec_u32_to_le_bytes(fld)),
            r.wf(),
            final(r.store)@ == final(self.store)@,
    {
        write_u32(self.store, 4936, fld);
        self
    }

    /// Reads the `multiVgpuExclusive` field (bytes 4936..4940).
    pub fn get_multiVgpuExclusive(&self) -> (r: u32)
        requires
            self.wf(),
        ensures
            r == u32_at(self.bytes(), 4936),
    {
        read_u32(self.store, 4936)
    }

    /// Writes `fld` to the `multiVgpuExclusive` field (bytes 4936..4940).
    pub fn set_multiVgpuExclusive(&mut self, fld: u32)
        requires
            old(self).wf(),
        ensures
            final(self).bytes() == splice(old(self).bytes(), 4936, spec_u32_to_le_bytes(fld)),
            final(self).wf(),
            final(final(self).store)@ == final(old(self).store)@,
    {
        write_u32(self.store, 4936, fld);
    }

    /// Writes `fld` to the `exclusiveType` field (bytes 4940..4944) and gives the view back.
    pub fn exclusiveType(self, fld: u32) -> (r: Self)
        requires
            self.wf(),
        ensures
            r.bytes() == splice(self.bytes(), 4940, spec_u32_to_le_bytes(fld)),
            r.wf(),
            final(r.store)@ == final(self.store)@,
    {
        write_u32(self.store, 4940, fld);
        self
    }

    /// Reads the `exclusiveType` field (bytes 4940..4944).
    pub fn get_exclusiveType(&self) -> (r: u32)
        requires
            self.wf(),
        ensures
            r == u32_at(self.bytes(), 4940),
    {
        read_u32(self.store, 4940)
    }

    /// Writes `fld` to the `exclusiveType` field (bytes 4940..4944).
    pub fn set_exclusiveType(&mut self, fld: u32)
        requires
            old(self).wf(),
        ensures
            final(self).bytes() == splice(old(self).bytes(), 4940, spec_u32_to_le_bytes(fld)),
            final(self).wf(),
            final(final(self).store)@ == final(old(self).store)@,
    {
        write_u32(self.store, 4940, fld);
    }

    /// Writes `fld` to the `exclusiveSize` field (bytes 4944..4948) and gives the view back.
    pub fn exclusiveSize(self, fld: u32) -> (r: Self)
        requires
            self.wf(),
        ensures
            r.bytes() == splice(self.bytes(), 4944, spec_u32_to_le_bytes(fld)),
            r.wf(),
            final(r.store)@ == final(self.store)@,
    {
        write_u32(self.store, 4944, fld);
        self
    }

    /// Reads the `exclusiveSize` field (bytes 4944..4948).
    pub fn get_exclusiveSize(&self) -> (r: u32)
        requires
            self.wf(),
        ensures
            r == u32_at(self.bytes(), 4944),
    {
        read_u32(self.store, 4944)
    }

    /// Writes `fld` to the `exclusiveSize` field (bytes 4944..4948).
    pub fn set_exclusiveSize(&mut self, fld: u32)
        requires
            old(self).wf(),
        ensures
            final(self).bytes() == splice(old(self).bytes(), 4944, spec_u32_to_le_bytes(fld)),
            final(self).wf(),
            final(final(self).store)@ == final(old(self).store)@,
    {
        write_u32(self.store, 4944, fld);
    }

    /// Writes `fld` to the `gpuInstanceProfileId` field (bytes 4948..4952) and gives the view back.
    pub fn gpuInstanceProfileId(self, fld: u32) -> (r: Self)
        requires
            self.wf(),
        ensures
            r.bytes() == splice(self.bytes(), 4948, spec_u32_to_le_bytes(fld)),
            r.wf(),
            final(r.store)@ == final(self.store)@,
    {
        write_u32(self.store, 4948, fld);
        self
    }

    /// Reads the `gpuInstanceProfileId` field (bytes 4948..4952).
    pub fn get_gpuInstanceProfileId(&self) -> (r: u32)
        requires
            self.wf(),
        ensures
            r == u32_at(self.bytes(), 4948),
    {
        read_u32(self.store, 4948)
    }

    /// Writes `fld` to the `gpuInstanceProfileId` field (bytes 4948..4952).
    pub fn set_gpuInstanceProfileId(&mut self, fld: u32)
        requires
            old(self).wf(),
        ensures
            final(self).bytes() == splice(old(self).bytes(), 4948, spec_u32_to_le_bytes(fld)),
            final(self).wf(),
            final(final(self).store)@ == final(old(self).store)@,
    {
        write_u32(self.store, 4948, fld);
    }

    /// Writes `fld` to the `placementSize` field (bytes 4952..4956) and gives the view back.
    pub fn placementSize(self, fld: u32) -> (r: Self)
        requires
            self.wf(),
        ensures
            r.bytes() == splice(self.bytes(), 4952, spec_u32_to_le_bytes(fld)),
            r.wf(),
            final(r.store)@ == final(self.store)@,
    {
        write_u32(self.store, 4952, fld);
        self
    }

    /// Reads the `placementSize` field (bytes 4952..4956).
    pub fn get_placementSize(&self) -> (r: u32)
        requires
            self.wf(),
        ensures
            r == u32_at(self.bytes(), 4952),
    {
        read_u32(self.store, 4952)
    }

    /// Writes `fld` to the `placementSize` field (bytes 4952..4956).
    pub fn set_placementSize(&mut self, fld: u32)
        requires
            old(self).wf(),
        ensures
            final(self).bytes() == splice(old(self).bytes(), 4952, spec_u32_to_le_bytes(fld)),
            final(self).wf(),
            final(final(self).store)@ == final(old(self).store)@,
    {
        write_u32(self.store, 4952, fld);
    }

    /// Writes `fld` to the `homogeneousPlacementCount` field (bytes 4956..4960) and gives the view back.
    pub fn homogeneousPlacementCount(self, fld: u32) -> (r: Self)
        requires
            self.wf(),
        ensures
            r.bytes() == splice(self.bytes(), 4956, spec_u32_to_le_bytes(fld)),
            r.wf(),
            final(r.store)@ == final(self.store)@,
    {
        write_u32(self.store, 4956, fld);
        self
    }

    /// Reads the `homogeneousPlacementCount` field (bytes 4956..4960).
    pub fn get_homogeneousPlacementCount(&self) -> (r: u32)
        requires
            self.wf(),
        ensures
            r == u32_at(self.bytes(), 4956),
    {
        read_u32(self.store, 4956)
    }

    /// Writes `fld` to the `homogeneousPlacementCount` field (bytes 4956..4960).
    pub fn set_homogeneousPlacementCount(&mut self, fld: u32)
        requires
            old(self).wf(),
        ensures
            final(self).bytes() == splice(old(self).bytes(), 4956, spec_u32_to_le_bytes(fld)),
            final(self).wf(),
            final(final(self).store)@ == final(old(self).store)@,
    {
        write_u32(self.store, 4956, fld);
    }

    /// Writes `fld` to the `homogeneousPlacementIds` field (bytes 4960..5088) and gives the view back.
    pub fn homogeneousPlacementIds(self, fld: [u32; 32]) -> (r: Self)
        requires
            self.wf(),
        ensures
            r.bytes() == splice(self.bytes(), 4960, u32s_to_le(fld@)),
            r.wf(),
            final(r.store)@ == final(self.store)@,
    {
        write_u32s(self.store, 4960, &fld);
        self
    }

    /// Writes `fld` to the `homogeneousPlacementIds` field (bytes 4960..5088).
    pub fn set_homogeneousPlacementIds(&mut self, fld: [u32; 32])
        requires
            old(self).wf(),
        ensures
            final(self).bytes() == splice(old(self).bytes(), 4960, u32s_to_le(fld@)),
            final(self).wf(),
            final(final(self).store)@ == final(old(self).store)@,
    {
        write_u32s(self.store, 4960, &fld);
    }

    /// Reads the `homogeneousPlacementIds` array (bytes 4960..5088).
    pub fn get_homogeneousPlacementIds(&mut self) -> (r: [u32; 32])
        requires
            old(self).wf(),
        ensures
            r@ == u32s_at(old(self).bytes(), 4960, 32),
            final(self).bytes() == old(self).bytes(),
            final(final(self).store)@ == final(old(self).store)@,
    {
        read_u32s(self.store, 4960)
    }

    /// Writes `fld` to the `heterogeneousPlacementCount` field (bytes 5088..5092) and gives the view back.
    pub fn heterogeneousPlacementCount(self, fld: u32) -> (r: Self)
        requires
            self.wf(),
        ensures
            r.bytes() == splice(self.bytes(), 5088, spec_u32_to_le_bytes(fld)),
            r.wf(),
            final(r.store)@ == final(self.store)@,
    {
        write_u32(self.store, 5088, fld);
        self
    }

    /// Reads the `heterogeneousPlacementCount` field (bytes 5088..5092).
    pub fn get_heterogeneousPlacementCount(&self) -> (r: u32)
        requires
            self.wf(),
        ensures
            r == u32_at(self.bytes(), 5088),
    {
        read_u32(self.store, 5088)
    }

    /// Writes `fld` to the `heterogeneousPlacementCount` field (bytes 5088..5092).
    pub fn set_heterogeneousPlacementCount(&mut self, fld: u32)
        requires
            old(self).wf(),
        ensures
            final(self).bytes() == splice(old(self).bytes(), 5088, spec_u32_to_le_bytes(fld)),
            final(self).wf(),
            final(final(self).store)@ == final(old(self).store)@,
    {
        write_u32(self.store, 5088, fld);
    }

    /// Writes `fld` to the `heterogeneousPlacementIds` field (bytes 5092..5220) and gives the view back.
    pub fn heterogeneousPlacementIds(self, fld: [u32; 32]) -> (r: Self)
        requires
            self.wf(),
        ensures
            r.bytes() == splice(self.bytes(), 5092, u32s_to_le(fld@)),
            r.wf(),
            final(r.store)@ == final(self.store)@,
    {
        write_u32s(self.store, 5092, &fld);
        self
    }

    /// Writes `fld` to the `heterogeneousPlacementIds` field (bytes 5092..5220).
    pub fn set_heterogeneousPlacementIds(&mut self, fld: [u32; 32])
        requires
            old(self).wf(),
        ensures
            final(self).bytes() == splice(old(self).bytes(), 5092, u32s_to_le(fld@)),
            final(self).wf(),
            final(final(self).store)@ == final(old(self).store)@,
    {
        write_u32s(self.store, 5092, &fld);
    }

    /// Reads the `heterogeneousPlacementIds` array (bytes 5092..5220).
    pub fn get_heterogeneousPlacementIds(&mut self) -> (r: [u32; 32])
        requires
            old(self).wf(),
        ensures
            r@ == u32s_at(old(self).bytes(), 5092, 32),
            final(self).bytes() == old(self).bytes(),
            final(final(self).store)@ == final(old(self).store)@,
    {
        read_u32s(self.store, 5092)
    }

}

/// View of the firmware structure `s_NV90F1_CTRL_VASPACE_COPY_SERVER_RESERVED_PDES_PARAMS` (184 bytes).
pub struct s_NV90F1_CTRL_VASPACE_COPY_SERVER_RESERVED_PDES_PARAMS<'s> {
    /// The buffer from the first byte of the structure to the end.
    pub store: &'s mut [u8],
}

impl<'s> s_NV90F1_CTRL_VASPACE_COPY_SERVER_RESERVED_PDES_PARAMS<'s> {
    /// The bytes seen through this view.
    pub open spec fn bytes(&self) -> Seq<u8> {
        self.store@
    }

    /// The buffer holds at least the whole structure.
    pub open spec fn wf(&self) -> bool {
        self.store@.len() >= 184
    }

    /// Size of the structure in bytes.
    pub fn str_size() -> (n: usize)
        ensures
            n == 184,
    {
        184
    }

    /// Views `store` as this structure, starting at its first byte.
    pub fn new(store: &'s mut [u8]) -> (r: Self)
        requires
            old(store)@.len() >= 184,
        ensures
            r.bytes() == old(store)@,
            r.wf(),
            final(store)@ == final(r.store)@,
    {
        Self { store }
    }

    /// Writes `fld` to the `hSubDevice` field (bytes 0..4) and gives the view back.
    pub fn hSubDevice(self, fld: u32) -> (r: Self)
        requires
            self.wf(),
        ensures
            r.bytes() == splice(self.bytes(), 0, spec_u32_to_le_bytes(fld)),
            r.wf(),
            final(r.store)@ == final(self.store)@,
    {
        write_u32(self.store, 0, fld);
        self
    }

    /// Reads the `hSubDevice` field (bytes 0..4).
    pub fn get_hSubDevice(&self) -> (r: u32)
        requires
            self.wf(),
        ensures
            r == u32_at(self.bytes(), 0),
    {
        read_u32(self.store, 0)
    }

    /// Writes `fld` to the `hSubDevice` field (bytes 0..4).
    pub fn set_hSubDevice(&mut self, fld: u32)
        requires
            old(self).wf(),
        ensures
            final(self).bytes() == splice(old(self).bytes(), 0, spec_u32_to_le_bytes(fld)),
            final(self).wf(),
            final(final(self).store)@ == final(old(self).store)@,
    {
        write_u32(self.store, 0, fld);
    }

    /// Writes `fld` to the `subDeviceId` field (bytes 4..8) and gives the view back.
    pub fn subDeviceId(self, fld: u32) -> (r: Self)
        requires
            self.wf(),
        ensures
            r.bytes() == splice(self.bytes(), 4, spec_u32_to_le_bytes(fld)),
            r.wf(),
            final(r.store)@ == final(self.store)@,
    {
        write_u32(self.store, 4, fld);
        self
    }

    /// Reads the `subDeviceId` field (bytes 4..8).
    pub fn get_subDeviceId(&self) -> (r: u32)
        requires
            self.wf(),
        ensures
            r == u32_at(self.bytes(), 4),
    {
        read_u32(self.store, 4)
    }

    /// Writes `fld` to the `subDeviceId` field (bytes 4..8).
    pub fn set_subDeviceId(&mut self, fld: u32)
        requires
            old(self).wf(),
        ensures
            final(self).bytes() == splice(old(self).bytes(), 4, spec_u32_to_le_bytes(fld)),
            final(self).wf(),
            final(final(self).store)@ == final(old(self).store)@,
    {
        write_u32(self.store, 4, fld);
    }

    /// Writes `fld` to the `pageSize` field (bytes 8..16) and gives the view back.
    pub fn pageSize(self, fld: u64) -> (r: Self)
        requires
            self.wf(),
        ensures
            r.bytes() == splice(self.bytes(), 8, spec_u64_to_le_bytes(fld)),
            r.wf(),
            final(r.store)@ == final(self.store)@,
    {
        write_u64(self.store, 8, fld);
        self
    }

    /// Reads the `pageSize` field (bytes 8..16).
    pub fn get_pageSize(&self) -> (r: u64)
        requires
            self.wf(),
        ensures
            r == u64_at(self.bytes(), 8),
    {
        read_u64(self.store, 8)
    }

    /// Writes `fld` to the `pageSize` field (bytes 8..16).
    pub fn set_pageSize(&mut self, fld: u64)
        requires
            old(self).wf(),
        ensures
            final(self).bytes() == splice(old(self).bytes(), 8, spec_u64_to_le_bytes(fld)),
            final(self).wf(),
            final(final(self).store)@ == final(old(self).store)@,
    {
        write_u64(self.store, 8, fld);
    }

    /// Writes `fld` to the `virtAddrLo` field (bytes 16..24) and gives the view back.
    pub fn virtAddrLo(self, fld: u64) -> (r: Self)
        requires
            self.wf(),
        ensures
            r.bytes() == splice(self.bytes(), 16, spec_u64_to_le_bytes(fld)),
            r.wf(),
            final(r.store)@ == final(self.store)@,
    {
        write_u64(self.store, 16, fld);
        self
    }

    /// Reads the `virtAddrLo` field (bytes 16..24).
    pub fn get_virtAddrLo(&self) -> (r: u64)
        requires
            self.wf(),
        ensures
            r == u64_at(self.bytes(), 16),
    {
        read_u64(self.store, 16)
    }

    /// Writes `fld` to the `virtAddrLo` field (bytes 16..24).
    pub fn set_virtAddrLo(&mut self, fld: u64)
        requires
            old(self).wf(),
        ensures
            final(self).bytes() == splice(old(self).bytes(), 16, spec_u64_to_le_bytes(fld)),
            final(self).wf(),
            final(final(self).store)@ == final(old(self).store)@,
    {
        write_u64(self.store, 16, fld);
    }

    /// Writes `fld` to the `virtAddrHi` field (bytes 24..32) and gives the view back.
    pub fn virtAddrHi(self, fld: u64) -> (r: Self)
        requires
            self.wf(),
        ensures
            r.bytes() == splice(self.bytes(), 24, spec_u64_to_le_bytes(fld)),
            r.wf(),
            final(r.store)@ == final(self.store)@,
    {
        write_u64(self.store, 24, fld);
        self
    }

    /// Reads the `virtAddrHi` field (bytes 24..32).
    pub fn get_virtAddrHi(&self) -> (r: u64)
        requires
            self.wf(),
        ensures
            r == u64_at(self.bytes(), 24),
    {
        read_u64(self.store, 24)
    }

    /// Writes `fld` to the `virtAddrHi` field (bytes 24..32).
    pub fn set_virtAddrHi(&mut self, fld: u64)
        requires
            old(self).wf(),
        ensures
            final(self).bytes() == splice(old(self).bytes(), 24, spec_u64_to_le_bytes(fld)),
            final(self).wf(),
            final(final(self).store)@ == final(old(self).store)@,
    {
        write_u64(self.store, 24, fld);
    }

    /// Writes `fld` to the `numLevelsToCopy` field (bytes 32..36) and gives the view back.
    pub fn numLevelsToCopy(self, fld: u32) -> (r: Self)
        requires
            self.wf(),
        ensures
            r.bytes() == splice(self.bytes(), 32, spec_u32_to_le_bytes(fld)),
            r.wf(),
            final(r.store)@ == final(self.store)@,
    {
        write_u32(self.store, 32, fld);
        self
    }

    /// Reads the `numLevelsToCopy` field (bytes 32..36).
    pub fn get_numLevelsToCopy(&self) -> (r: u32)
        requires
            self.wf(),
        ensures
            r == u32_at(self.bytes(), 32),
    {
        read_u32(self.store, 32)
    }

    /// Writes `fld` to the `numLevelsToCopy` field (bytes 32..36).
    pub fn set_numLevelsToCopy(&mut self, fld: u32)
        requires
            old(self).wf(),
        ensures
            final(self).bytes() == splice(old(self).bytes(), 32, spec_u32_to_le_bytes(fld)),
            final(self).wf(),
            final(final(self).store)@ == final(old(self).store)@,
    {
        write_u32(self.store, 32, fld);
    }

    /// Writes `fld` to the `levels_0_physAddress` field (bytes 40..48) and gives the view back.
    pub fn levels_0_physAddress(self, fld: u64) -> (r: Self)
        requires
            self.wf(),
        ensures
            r.bytes() == splice(self.bytes(), 40, spec_u64_to_le_bytes(fld)),
            r.wf(),
            final(r.store)@ == final(self.store)@,
    {
        write_u64(self.store, 40, fld);
        self
    }

    /// Reads the `levels_0_physAddress` field (bytes 40..48).
    pub fn get_levels_0_physAddress(&self) -> (r: u64)
        requires
            self.wf(),
        ensures
            r == u64_at(self.bytes(), 40),
    {
        read_u64(self.store, 40)
    }

    /// Writes `fld` to the `levels_0_physAddress` field (bytes 40..48).
    pub fn set_levels_0_physAddress(&mut self, fld: u64)
        requires
            old(self).wf(),
        ensures
            final(self).bytes() == splice(old(self).bytes(), 40, spec_u64_to_le_bytes(fld)),
            final(self).wf(),
            final(final(self).store)@ == final(old(self).store)@,
    {
        write_u64(self.store, 40, fld);
    }

    /// Writes `fld` to the `levels_0_size` field (bytes 48..56) and gives the view back.
    pub fn levels_0_size(self, fld: u64) -> (r: Self)
        requires
            self.wf(),
        ensures
            r.bytes() == splice(self.bytes(), 48, spec_u64_to_le_bytes(fld)),
            r.wf(),
            final(r.store)@ == final(self.store)@,
    {
        write_u64(self.store, 48, fld);
        self
    }

    /// Reads the `levels_0_size` field (bytes 48..56).
    pub fn get_levels_0_size(&self) -> (r: u64)
        requires
            self.wf(),
        ensures
            r == u64_at(self.bytes(), 48),
    {
        read_u64(self.store, 48)
    }

    /// Writes `fld` to the `levels_0_size` field (bytes 48..56).
    pub fn set_levels_0_size(&mut self, fld: u64)
        requires
            old(self).wf(),
        ensures
            final(self).bytes() == splice(old(self).bytes(), 48, spec_u64_to_le_bytes(fld)),
            final(self).wf(),
            final(final(self).store)@ == final(old(self).store)@,
    {
        write_u64(self.store, 48, fld);
    }

    /// Writes `fld` to the `levels_0_aperture` field (bytes 56..60) and gives the view back.
    pub fn levels_0_aperture(self, fld: u32) -> (r: Self)
        requires
            self.wf(),
        ensures
            r.bytes() == splice(self.bytes(), 56, spec_u32_to_le_bytes(fld)),
            r.wf(),
            final(r.store)@ == final(self.store)@,
    {
        write_u32(self.store, 56, fld);
        self
    }

    /// Reads the `levels_0_aperture` field (bytes 56..60).
    pub fn get_levels_0_aperture(&self) -> (r: u32)
        requires
            self.wf(),
        ensures
            r == u32_at(self.bytes(), 56),
    {
        read_u32(self.store, 56)
    }

    /// Writes `fld` to the `levels_0_aperture` field (bytes 56..60).
    pub fn set_levels_0_aperture(&mut self, fld: u32)
        requires
            old(self).wf(),
        ensures
            final(self).bytes() == splice(old(self).bytes(), 56, spec_u32_to_le_bytes(fld)),
            final(self).wf(),
            final(final(self).store)@ == final(old(self).store)@,
    {
        write_u32(self.store, 56, fld);
    }

    /// Writes `fld` to the `levels_0_pageShift` field (bytes 60..61) and gives the view back.
    pub fn levels_0_pageShift(self, fld: u8) -> (r: Self)
        requires
            self.wf(),
        ensures
            r.bytes() == splice(self.bytes(), 60, seq![fld]),
            r.wf(),
            final(r.store)@ == final(self.store)@,
    {
        write_u8(self.store, 60, fld);
        self
    }

    /// Reads the `levels_0_pageShift` field (bytes 60..61).
    pub fn get_levels_0_pageShift(&self) -> (r: u8)
        requires
            self.wf(),
        ensures
            r == self.bytes()[60],
    {
        read_u8(self.store, 60)
    }

    /// Writes `fld` to the `levels_0_pageShift` field (bytes 60..61).
    pub fn set_levels_0_pageShift(&mut self, fld: u8)
        requires
            old(self).wf(),
        ensures
            final(self).bytes() == splice(old(self).bytes(), 60, seq![fld]),
            final(self).wf(),
            final(final(self).store)@ == final(old(self).store)@,
    {
        write_u8(self.store, 60, fld);
    }

    /// Writes `fld` to the `levels_1_physAddress` field (bytes 64..72) and gives the view back.
    pub fn levels_1_physAddress(self, fld: u64) -> (r: Self)
        requires
            self.wf(),
        ensures
            r.bytes() == splice(self.bytes(), 64, spec_u64_to_le_bytes(fld)),
            r.wf(),
            final(r.store)@ == final(self.store)@,
    {
        write_u64(self.store, 64, fld);
        self
    }

    /// Reads the `levels_1_physAddress` field (bytes 64..72).
    pub fn get_levels_1_physAddress(&self) -> (r: u64)
        requires
            self.wf(),
        ensures
            r == u64_at(self.bytes(), 64),
    {
        read_u64(self.store, 64)
    }

    /// Writes `fld` to the `levels_1_physAddress` field (bytes 64..72).
    pub fn set_levels_1_physAddress(&mut self, fld: u64)
        requires
            old(self).wf(),
        ensures
            final(self).bytes() == splice(old(self).bytes(), 64, spec_u64_to_le_bytes(fld)),
            final(self).wf(),
            final(final(self).store)@ == final(old(self).store)@,
    {
        write_u64(self.store, 64, fld);
    }

    /// Writes `fld` to the `levels_1_size` field (bytes 72..80) and gives the view back.
    pub fn levels_1_size(self, fld: u64) -> (r: Self)
        requires
            self.wf(),
        ensures
            r.bytes() == splice(self.bytes(), 72, spec_u64_to_le_bytes(fld)),
            r.wf(),
            final(r.store)@ == final(self.store)@,
    {
        write_u64(self.store, 72, fld);
        self
    }

    /// Reads the `levels_1_size` field (bytes 72..80).
    pub fn get_levels_1_size(&self) -> (r: u64)
        requires
            self.wf(),
        ensures
            r == u64_at(self.bytes(), 72),
    {
        read_u64(self.store, 72)
    }

    /// Writes `fld` to the `levels_1_size` field (bytes 72..80).
    pub fn set_levels_1_size(&mut self, fld: u64)
        requires
            old(self).wf(),
        ensures
            final(self).bytes() == splice(old(self).bytes(), 72, spec_u64_to_le_bytes(fld)),
            final(self).wf(),
            final(final(self).store)@ == final(old(self).store)@,
    {
        write_u64(self.store, 72, fld);
    }

    /// Writes `fld` to the `levels_1_aperture` field (bytes 80..84) and gives the view back.
    pub fn levels_1_aperture(self, fld: u32) -> (r: Self)
        requires
            self.wf(),
        ensures
            r.bytes() == splice(self.bytes(), 80, spec_u32_to_le_bytes(fld)),
            r.wf(),
            final(r.store)@ == final(self.store)@,
    {
        write_u32(self.store, 80, fld);
        self
    }

    /// Reads the `levels_1_aperture` field (bytes 80..84).
    pub fn get_levels_1_aperture(&self) -> (r: u32)
        requires
            self.wf(),
        ensures
            r == u32_at(self.bytes(), 80),
    {
        read_u32(self.store, 80)
    }

    /// Writes `fld` to the `levels_1_aperture` field (bytes 80..84).
    pub fn set_levels_1_aperture(&mut self, fld: u32)
        requires
            old(self).wf(),
        ensures
            final(self).bytes() == splice(old(self).bytes(), 80, spec_u32_to_le_bytes(fld)),
            final(self).wf(),
            final(final(self).store)@ == final(old(self).store)@,
    {
        write_u32(self.store, 80, fld);
    }

    /// Writes `fld` to the `levels_1_pageShift` field (bytes 84..85) and gives the view back.
    pub fn levels_1_pageShift(self, fld: u8) -> (r: Self)
        requires
            self.wf(),
        ensures
            r.bytes() == splice(self.bytes(), 84, seq![fld]),
            r.wf(),
            final(r.store)@ == final(self.store)@,
    {
        write_u8(self.store, 84, fld);
        self
    }

    /// Reads the `levels_1_pageShift` field (bytes 84..85).
    pub fn get_levels_1_pageShift(&self) -> (r: u8)
        requires
            self.wf(),
        ensures
            r == self.bytes()[84],
    {
        read_u8(self.store, 84)
    }

    /// Writes `fld` to the `levels_1_pageShift` field (bytes 84..85).
    pub fn set_levels_1_pageShift(&mut self, fld: u8)
        requires
            old(self).wf(),
        ensures
            final(self).bytes() == splice(old(self).bytes(), 84, seq![fld]),
            final(self).wf(),
            final(final(self).store)@ == final(old(self).store)@,
    {
        write_u8(self.store, 84, fld);
    }

    /// Writes `fld` to the `levels_2_physAddress` field (bytes 88..96) and gives the view back.
    pub fn levels_2_physAddress(self, fld: u64) -> (r: Self)
        requires
            self.wf(),
        ensures
            r.bytes() == splice(self.bytes(), 88, spec_u64_to_le_bytes(fld)),
            r.wf(),
            final(r.store)@ == final(self.store)@,
    {
        write_u64(self.store, 88, fld);
        self
    }

    /// Reads the `levels_2_physAddress` field (bytes 88..96).
    pub fn get_levels_2_physAddress(&self) -> (r: u64)
        requires
            self.wf(),
        ensures
            r == u64_at(self.bytes(), 88),
    {
        read_u64(self.store, 88)
    }

    /// Writes `fld` to the `levels_2_physAddress` field (bytes 88..96).
    pub fn set_levels_2_physAddress(&mut self, fld: u64)
        requires
            old(self).wf(),
        ensures
            final(self).bytes() == splice(old(self).bytes(), 88, spec_u64_to_le_bytes(fld)),
            final(self).wf(),
            final(final(self).store)@ == final(old(self).store)@,
    {
        write_u64(self.store, 88, fld);
    }

    /// Writes `fld` to the `levels_2_size` field (bytes 96..104) and gives the view back.
    pub fn levels_2_size(self, fld: u64) -> (r: Self)
        requires
            self.wf(),
        ensures
            r.bytes() == splice(self.bytes(), 96, spec_u64_to_le_bytes(fld)),
            r.wf(),
            final(r.store)@ == final(self.store)@,
    {
        write_u64(self.store, 96, fld);
        self
    }

    /// Reads the `levels_2_size` field (bytes 96..104).
    pub fn get_levels_2_size(&self) -> (r: u64)
        requires
            self.wf(),
        ensures
            r == u64_at(self.bytes(), 96),
    {
        read_u64(self.store, 96)
    }

    /// Writes `fld` to the `levels_2_size` field (bytes 96..104).
    pub fn set_levels_2_size(&mut self, fld: u64)
        requires
            old(self).wf(),
        ensures
            final(self).bytes() == splice(old(self).bytes(), 96, spec_u64_to_le_bytes(fld)),
            final(self).wf(),
            final(final(self).store)@ == final(old(self).store)@,
    {
        write_u64(self.store, 96, fld);
    }

    /// Writes `fld` to the `levels_2_aperture` field (bytes 104..108) and gives the view back.
    pub fn levels_2_aperture(self, fld: u32) -> (r: Self)
        requires
            self.wf(),
        ensures
            r.bytes() == splice(self.bytes(), 104, spec_u32_to_le_bytes(fld)),
            r.wf(),
            final(r.store)@ == final(self.store)@,
    {
        write_u32(self.store, 104, fld);
        self
    }

    /// Reads the `levels_2_aperture` field (bytes 104..108).
    pub fn get_levels_2_aperture(&self) -> (r: u32)
        requires
            self.wf(),
        ensures
            r == u32_at(self.bytes(), 104),
    {
        read_u32(self.store, 104)
    }

    /// Writes `fld` to the `levels_2_aperture` field (bytes 104..108).
    pub fn set_levels_2_aperture(&mut self, fld: u32)
        requires
            old(self).wf(),
        ensures
            final(self).bytes() == splice(old(self).bytes(), 104, spec_u32_to_le_bytes(fld)),
            final(self).wf(),
            final(final(self).store)@ == final(old(self).store)@,
    {
        write_u32(self.store, 104, fld);
    }

    /// Writes `fld` to the `levels_2_pageShift` field (bytes 108..109) and gives the view back.
    pub fn levels_2_pageShift(self, fld: u8) -> (r: Self)
        requires
            self.wf(),
        ensures
            r.bytes() == splice(self.bytes(), 108, seq![fld]),
            r.wf(),
            final(r.store)@ == final(self.store)@,
    {
        write_u8(self.store, 108, fld);
        self
    }

    /// Reads the `levels_2_pageShift` field (bytes 108..109).
    pub fn get_levels_2_pageShift(&self) -> (r: u8)
        requires
            self.wf(),
        ensures
            r == self.bytes()[108],
    {
        read_u8(self.store, 108)
    }

    /// Writes `fld` to the `levels_2_pageShift` field (bytes 108..109).
    pub fn set_levels_2_pageShift(&mut self, fld: u8)
        requires
            old(self).wf(),
        ensures
            final(self).bytes() == splice(old(self).bytes(), 108, seq![fld]),
            final(self).wf(),
            final(final(self).store)@ == final(old(self).store)@,
    {
        write_u8(self.store, 108, fld);
    }

    /// Writes `fld` to the `levels_3_physAddress` field (bytes 112..120) and gives the view back.
    pub fn levels_3_physAddress(self, fld: u64) -> (r: Self)
        requires
            self.wf(),
        ensures
            r.bytes() == splice(self.bytes(), 112, spec_u64_to_le_bytes(fld)),
            r.wf(),
            final(r.store)@ == final(self.store)@,
    {
        write_u64(self.store, 112, fld);
        self
    }

    /// Reads the `levels_3_physAddress` field (bytes 112..120).
    pub fn get_levels_3_physAddress(&self) -> (r: u64)
        requires
            self.wf(),
        ensures
            r == u64_at(self.bytes(), 112),
    {
        read_u64(self.store, 112)
    }

    /// Writes `fld` to the `levels_3_physAddress` field (bytes 112..120).
    pub fn set_levels_3_physAddress(&mut self, fld: u64)
        requires
            old(self).wf(),
        ensures
            final(self).bytes() == splice(old(self).bytes(), 112, spec_u64_to_le_bytes(fld)),
            final(self).wf(),
            final(final(self).store)@ == final(old(self).store)@,
    {
        write_u64(self.store, 112, fld);
    }

    /// Writes `fld` to the `levels_3_size` field (bytes 120..128) and gives the view back.
    pub fn levels_3_size(self, fld: u64) -> (r: Self)
        requires
            self.wf(),
        ensures
            r.bytes() == splice(self.bytes(), 120, spec_u64_to_le_bytes(fld)),
            r.wf(),
            final(r.store)@ == final(self.store)@,
    {
        write_u64(self.store, 120, fld);
        self
    }

    /// Reads the `levels_3_size` field (bytes 120..128).
    pub fn get_levels_3_size(&self) -> (r: u64)
        requires
            self.wf(),
        ensures
            r == u64_at(self.bytes(), 120),
    {
        read_u64(self.store, 120)
    }

    /// Writes `fld` to the `levels_3_size` field (bytes 120..128).
    pub fn set_levels_3_size(&mut self, fld: u64)
        requires
            old(self).wf(),
        ensures
            final(self).bytes() == splice(old(self).bytes(), 120, spec_u64_to_le_bytes(fld)),
            final(self).wf(),
            final(final(self).store)@ == final(old(self).store)@,
    {
        write_u64(self.store, 120, fld);
    }

    /// Writes `fld` to the `levels_3_aperture` field (bytes 128..132) and gives the view back.
    pub fn levels_3_aperture(self, fld: u32) -> (r: Self)
        requires
            self.wf(),
        ensures
            r.bytes() == splice(self.bytes(), 128, spec_u32_to_le_bytes(fld)),
            r.wf(),
            final(r.store)@ == final(self.store)@,
    {
        write_u32(self.store, 128, fld);
        self
    }

    /// Reads the `levels_3_aperture` field (bytes 128..132).
    pub fn get_levels_3_aperture(&self) -> (r: u32)
        requires
            self.wf(),
        ensures
            r == u32_at(self.bytes(), 128),
    {
        read_u32(self.store, 128)
    }

    /// Writes `fld` to the `levels_3_aperture` field (bytes 128..132).
    pub fn set_levels_3_aperture(&mut self, fld: u32)
        requires
            old(self).wf(),
        ensures
            final(self).bytes() == splice(old(self).bytes(), 128, spec_u32_to_le_bytes(fld)),
            final(self).wf(),
            final(final(self).store)@ == final(old(self).store)@,
    {
        write_u32(self.store, 128, fld);
    }

    /// Writes `fld` to the `levels_3_pageShift` field (bytes 132..133) and gives the view back.
    pub fn levels_3_pageShift(self, fld: u8) -> (r: Self)
        requires
            self.wf(),
        ensures
            r.bytes() == splice(self.bytes(), 132, seq![fld]),
            r.wf(),
            final(r.store)@ == final(self.store)@,
    {
        write_u8(self.store, 132, fld);
        self
    }

    /// Reads the `levels_3_pageShift` field (bytes 132..133).
    pub fn get_levels_3_pageShift(&self) -> (r: u8)
        requires
            self.wf(),
        ensures
            r == self.bytes()[132],
    {
        read_u8(self.store, 132)
    }

    /// Writes `fld` to the `levels_3_pageShift` field (bytes 132..133).
    pub fn set_levels_3_pageShift(&mut self, fld: u8)
        requires
            old(self).wf(),
        ensures
            final(self).bytes() == splice(old(self).bytes(), 132, seq![fld]),
            final(self).wf(),
            final(final(self).store)@ == final(old(self).store)@,
    {
        write_u8(self.store, 132, fld);
    }

    /// Writes `fld` to the `levels_4_physAddress` field (bytes 136..144) and gives the view back.
    pub fn levels_4_physAddress(self, fld: u64) -> (r: Self)
        requires
            self.wf(),
        ensures
            r.bytes() == splice(self.bytes(), 136, spec_u64_to_le_bytes(fld)),
            r.wf(),
            final(r.store)@ == final(self.store)@,
    {
        write_u64(self.store, 136, fld);
        self
    }

    /// Reads the `levels_4_physAddress` field (bytes 136..144).
    pub fn get_levels_4_physAddress(&self) -> (r: u64)
        requires
            self.wf(),
        ensures
            r == u64_at(self.bytes(), 136),
    {
        read_u64(self.store, 136)
    }

    /// Writes `fld` to the `levels_4_physAddress` field (bytes 136..144).
    pub fn set_levels_4_physAddress(&mut self, fld: u64)
        requires
            old(self).wf(),
        ensures
            final(self).bytes() == splice(old(self).bytes(), 136, spec_u64_to_le_bytes(fld)),
            final(self).wf(),
            final(final(self).store)@ == final(old(self).store)@,
    {
        write_u64(self.store, 136, fld);
    }

    /// Writes `fld` to the `levels_4_size` field (bytes 144..152) and gives the view back.
    pub fn levels_4_size(self, fld: u64) -> (r: Self)
        requires
            self.wf(),
        ensures
            r.bytes() == splice(self.bytes(), 144, spec_u64_to_le_bytes(fld)),
            r.wf(),
            final(r.store)@ == final(self.store)@,
    {
        write_u64(self.store, 144, fld);
        self
    }

    /// Reads the `levels_4_size` field (bytes 144..152).
    pub fn get_levels_4_size(&self) -> (r: u64)
        requires
            self.wf(),
        ensures
            r == u64_at(self.bytes(), 144),
    {
        read_u64(self.store, 144)
    }

    /// Writes `fld` to the `levels_4_size` field (bytes 144..152).
    pub fn set_levels_4_size(&mut self, fld: u64)
        requires
            old(self).wf(),
        ensures
            final(self).bytes() == splice(old(self).bytes(), 144, spec_u64_to_le_bytes(fld)),
            final(self).wf(),
            final(final(self).store)@ == final(old(self).store)@,
    {
        write_u64(self.store, 144, fld);
    }

    /// Writes `fld` to the `levels_4_aperture` field (bytes 152..156) and gives the view back.
    pub fn levels_4_aperture(self, fld: u32) -> (r: Self)
        requires
            self.wf(),
        ensures
            r.bytes() == splice(self.bytes(), 152, spec_u32_to_le_bytes(fld)),
            r.wf(),
            final(r.store)@ == final(self.store)@,
    {
        write_u32(self.store, 152, fld);
        self
    }

    /// Reads the `levels_4_aperture` field (bytes 152..156).
    pub fn get_levels_4_aperture(&self) -> (r: u32)
        requires
            self.wf(),
        ensures
            r == u32_at(self.bytes(), 152),
    {
        read_u32(self.store, 152)
    }

    /// Writes `fld` to the `levels_4_aperture` field (bytes 152..156).
    pub fn set_levels_4_aperture(&mut self, fld: u32)
        requires
            old(self).wf(),
        ensures
            final(self).bytes() == splice(old(self).bytes(), 152, spec_u32_to_le_bytes(fld)),
            final(self).wf(),
            final(final(self).store)@ == final(old(self).store)@,
    {
        write_u32(self.store, 152, fld);
    }

    /// Writes `fld` to the `levels_4_pageShift` field (bytes 156..157) and gives the view back.
    pub fn levels_4_pageShift(self, fld: u8) -> (r: Self)
        requires
            self.wf(),
        ensures
            r.bytes() == splice(self.bytes(), 156, seq![fld]),
            r.wf(),
            final(r.store)@ == final(self.store)@,
    {
        write_u8(self.store, 156, fld);
        self
    }

    /// Reads the `levels_4_pageShift` field (bytes 156..157).
    pub fn get_levels_4_pageShift(&self) -> (r: u8)
        requires
            self.wf(),
        ensures
            r == self.bytes()[156],
    {
        read_u8(self.store, 156)
    }

    /// Writes `fld` to the `levels_4_pageShift` field (bytes 156..157).
    pub fn set_levels_4_pageShift(&mut self, fld: u8)
        requires
            old(self).wf(),
        ensures
            final(self).bytes() == splice(old(self).bytes(), 156, seq![fld]),
            final(self).wf(),
            final(final(self).store)@ == final(old(self).store)@,
    {
        write_u8(self.store, 156, fld);
    }

    /// Writes `fld` to the `levels_5_physAddress` field (bytes 160..168) and gives the view back.
    pub fn levels_5_physAddress(self, fld: u64) -> (r: Self)
        requires
            self.wf(),
        ensures
            r.bytes() == splice(self.bytes(), 160, spec_u64_to_le_bytes(fld)),
            r.wf(),
            final(r.store)@ == final(self.store)@,
    {
        write_u64(self.store, 160, fld);
        self
    }

    /// Reads the `levels_5_physAddress` field (bytes 160..168).
    pub fn get_levels_5_physAddress(&self) -> (r: u64)
        requires
            self.wf(),
        ensures
            r == u64_at(self.bytes(), 160),
    {
        read_u64(self.store, 160)
    }

    /// Writes `fld` to the `levels_5_physAddress` field (bytes 160..168).
    pub fn set_levels_5_physAddress(&mut self, fld: u64)
        requires
            old(self).wf(),
        ensures
            final(self).bytes() == splice(old(self).bytes(), 160, spec_u64_to_le_bytes(fld)),
            final(self).wf(),
            final(final(self).store)@ == final(old(self).store)@,
    {
        write_u64(self.store, 160, fld);
    }

    /// Writes `fld` to the `levels_5_size` field (bytes 168..176) and gives the view back.
    pub fn levels_5_size(self, fld: u64) -> (r: Self)
        requires
            self.wf(),
        ensures
            r.bytes() == splice(self.bytes(), 168, spec_u64_to_le_bytes(fld)),
            r.wf(),
            final(r.store)@ == final(self.store)@,
    {
        write_u64(self.store, 168, fld);
        self
    }

    /// Reads the `levels_5_size` field (bytes 168..176).
    pub fn get_levels_5_size(&self) -> (r: u64)
        requires
            self.wf(),
        ensures
            r == u64_at(self.bytes(), 168),
    {
        read_u64(self.store, 168)
    }

    /// Writes `fld` to the `levels_5_size` field (bytes 168..176).
    pub fn set_levels_5_size(&mut self, fld: u64)
        requires
            old(self).wf(),
        ensures
            final(self).bytes() == splice(old(self).bytes(), 168, spec_u64_to_le_bytes(fld)),
            final(self).wf(),
            final(final(self).store)@ == final(old(self).store)@,
    {
        write_u64(self.store, 168, fld);
    }

    /// Writes `fld` to the `levels_5_aperture` field (bytes 176..180) and gives the view back.
    pub fn levels_5_aperture(self, fld: u32) -> (r: Self)
        requires
            self.wf(),
        ensures
            r.bytes() == splice(self.bytes(), 176, spec_u32_to_le_bytes(fld)),
            r.wf(),
            final(r.store)@ == final(self.store)@,
    {
        write_u32(self.store, 176, fld);
        self
    }

    /// Reads the `levels_5_aperture` field (bytes 176..180).
    pub fn get_levels_5_aperture(&self) -> (r: u32)
        requires
            self.wf(),
        ensures
            r == u32_at(self.bytes(), 176),
    {
        read_u32(self.store, 176)
    }

    /// Writes `fld` to the `levels_5_aperture` field (bytes 176..180).
    pub fn set_levels_5_aperture(&mut self, fld: u32)
        requires
            old(self).wf(),
        ensures
            final(self).bytes() == splice(old(self).bytes(), 176, spec_u32_to_le_bytes(fld)),
            final(self).wf(),
            final(final(self).store)@ == final(old(self).store)@,
    {
        write_u32(self.store, 176, fld);
    }

    /// Writes `fld` to the `levels_5_pageShift` field (bytes 180..181) and gives the view back.
    pub fn levels_5_pageShift(self, fld: u8) -> (r: Self)
        requires
            self.wf(),
        ensures
            r.bytes() == splice(self.bytes(), 180, seq![fld]),
            r.wf(),
            final(r.store)@ == final(self.store)@,
    {
        write_u8(self.store, 180, fld);
        self
    }

    /// Reads the `levels_5_pageShift` field (bytes 180..181).
    pub fn get_levels_5_pageShift(&self) -> (r: u8)
        requires
            self.wf(),
        ensures
            r == self.bytes()[180],
    {
        read_u8(self.store, 180)
    }

    /// Writes `fld` to the `levels_5_pageShift` field (bytes 180..181).
    pub fn set_levels_5_pageShift(&mut self, fld: u8)
        requires
            old(self).wf(),
        ensures
            final(self).bytes() == splice(old(self).bytes(), 180, seq![fld]),
            final(self).wf(),
            final(final(self).store)@ == final(old(self).store)@,
    {
        write_u8(self.store, 180, fld);
    }

}

/// View of the firmware structure `s_NVA06F_CTRL_BIND_PARAMS` (4 bytes).
pub struct s_NVA06F_CTRL_BIND_PARAMS<'s> {
    /// The buffer from the first byte of the structure to the end.
    pub store: &'s mut [u8],
}

impl<'s> s_NVA06F_CTRL_BIND_PARAMS<'s> {
    /// The bytes seen through this view.
    pub open spec fn bytes(&self) -> Seq<u8> {
        self.store@
    }

    /// The buffer holds at least the whole structure.
    pub open spec fn wf(&self) -> bool {
        self.store@.len() >= 4
    }

    /// Size of the structure in bytes.
    pub fn str_size() -> (n: usize)
        ensures
            n == 4,
    {
        4
    }

    /// Views `store` as this structure, starting at its first byte.
    pub fn new(store: &'s mut [u8]) -> (r: Self)
        requires
            old(store)@.len() >= 4,
        ensures
            r.bytes() == old(store)@,
            r.wf(),
            final(store)@ == final(r.store)@,
    {
        Self { store }
    }

    /// Writes `fld` to the `engineType` field (bytes 0..4) and gives the view back.
    pub fn engineType(self, fld: u32) -> (r: Self)
        requires
            self.wf(),
        ensures
            r.bytes() == splice(self.bytes(), 0, spec_u32_to_le_bytes(fld)),
            r.wf(),
            final(r.store)@ == final(self.store)@,
    {
        write_u32(self.store, 0, fld);
        self
    }

    /// Reads the `engineType` field (bytes 0..4).
    pub fn get_engineType(&self) -> (r: u32)
        requires
            self.wf(),
        ensures
            r == u32_at(self.bytes(), 0),
    {
        read_u32(self.store, 0)
    }

    /// Writes `fld` to the `engineType` field (bytes 0..4).
    pub fn set_engineType(&mut self, fld: u32)
        requires
            old(self).wf(),
        ensures
            final(self).bytes() == splice(old(self).bytes(), 0, spec_u32_to_le_bytes(fld)),
            final(self).wf(),
            final(final(self).store)@ == final(old(self).store)@,
    {
        write_u32(self.store, 0, fld);
    }

}

/// View of the firmware structure `s_NVA06F_CTRL_GPFIFO_SCHEDULE_PARAMS` (2 bytes).
pub struct s_NVA06F_CTRL_GPFIFO_SCHEDULE_PARAMS<'s> {
    /// The buffer from the first byte of the structure to the end.
    pub store: &'s mut [u8],
}

impl<'s> s_NVA06F_CTRL_GPFIFO_SCHEDULE_PARAMS<'s> {
    /// The bytes seen through this view.
    pub open spec fn bytes(&self) -> Seq<u8> {
        self.store@
    }

    /// The buffer holds at least the whole structure.
    pub open spec fn wf(&self) -> bool {
        self.store@.len() >= 2
    }

    /// Size of the structure in bytes.
    pub fn str_size() -> (n: usize)
        ensures
            n == 2,
    {
        2
    }

    /// Views `store` as this structure, starting at its first byte.
    pub fn new(store: &'s mut [u8]) -> (r: Self)
        requires
            old(store)@.len() >= 2,
        ensures
            r.bytes() == old(store)@,
            r.wf(),
            final(store)@ == final(r.store)@,
    {
        Self { store }
    }

    /// Writes `fld` to the `bEnable` field (bytes 0..1) and gives the view back.
    pub fn bEnable(self, fld: u8) -> (r: Self)
        requires
            self.wf(),
        ensures
            r.bytes() == splice(self.bytes(), 0, seq![fld]),
            r.wf(),
            final(r.store)@ == final(self.store)@,
    {
        write_u8(self.store, 0, fld);
        self
    }

    /// Reads the `bEnable` field (bytes 0..1).
    pub fn get_bEnable(&self) -> (r: u8)
        requires
            self.wf(),
        ensures
            r == self.bytes()[0],
    {
        read_u8(self.store, 0)
    }

    /// Writes `fld` to the `bEnable` field (bytes 0..1).
    pub fn set_bEnable(&mut self, fld: u8)
        requires
            old(self).wf(),
        ensures
            final(self).bytes() == splice(old(self).bytes(), 0, seq![fld]),
            final(self).wf(),
            final(final(self).store)@ == final(old(self).store)@,
    {
        write_u8(self.store, 0, fld);
    }

    /// Writes `fld` to the `bSkipSubmit` field (bytes 1..2) and gives the view back.
    pub fn bSkipSubmit(self, fld: u8) -> (r: Self)
        requires
            self.wf(),
        ensures
            r.bytes() == splice(self.bytes(), 1, seq![fld]),
            r.wf(),
            final(r.store)@ == final(self.store)@,
    {
        write_u8(self.store, 1, fld);
        self
    }

    /// Reads the `bSkipSubmit` field (bytes 1..2).
    pub fn get_bSkipSubmit(&self) -> (r: u8)
        requires
            self.wf(),
        ensures
            r == self.bytes()[1],
    {
        read_u8(self.store, 1)
    }

    /// Writes `fld` to the `bSkipSubmit` field (bytes 1..2).
    pub fn set_bSkipSubmit(&mut self, fld: u8)
        requires
            old(self).wf(),
        ensures
            final(self).bytes() == splice(old(self).bytes(), 1, seq![fld]),
            final(self).wf(),
            final(final(self).store)@ == final(old(self).store)@,
    {
        write_u8(self.store, 1, fld);
    }

}

} // verus!
