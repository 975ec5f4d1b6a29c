//! vGPU manager: the decisions behind the operations offered to the VFIO driver.
use vstd::prelude::*;
use vstd::arithmetic::logarithm::log;

verus! {

/// The vGPU manager's settings.
#[derive(Debug, Clone, Copy)]
pub struct VGPUMgr {
    /// Whether vGPU support is enabled.
    pub enabled: bool,
    /// Size of a VMMU segment in bytes.
    pub vmmu_segment_size: u64,
}

/// Base-2 logarithm of `x`, rounded down.
pub fn ilog2(x: u64) -> (r: u32)
    requires
        x > 0,
    ensures
        r == log(2, x as int),
{
    let mut v = x;
    let mut r: u32 = 0;
    proof {
        reveal(log);
        assert(x <= u64::MAX >> 0u64) by (bit_vector);
    }
    while v >= 2
        invariant
            v > 0,
            r + log(2, v as int) == log(2, x as int),
            r <= 64 - 1,
            v <= u64::MAX >> (r as u64),
        decreases v,
    {
        proof {
            reveal(log);
            assert(v / 2 < v);
            assert(log(2, v as int) == 1 + log(2, (v / 2) as int));
            let rr = r as u64;
            assert(v >= 2 && v <= u64::MAX >> rr ==> rr < 63) by (bit_vector);
            assert(v / 2 <= u64::MAX >> ((rr + 1) as u64)) by (bit_vector)
                requires
                    v <= u64::MAX >> rr,
                    rr < 63,
                    v >= 2,
            ;
        }
        v = v / 2;
        r = r + 1;
    }
    proof {
        reveal(log);
    }
    r
}

impl VGPUMgr {
    /// Creates the manager.
    pub fn new(enabled: bool, segment_size: u64) -> (r: VGPUMgr)
        ensures
            r.enabled == enabled,
            r.vmmu_segment_size == segment_size,
    {
        VGPUMgr { enabled, vmmu_segment_size: segment_size }
    }

    /// Whether vGPU support is enabled.
    pub fn nvkm_vgpu_mgr_is_enabled(&self) -> (r: bool)
        ensures
            r == self.enabled,
    {
        self.enabled
    }

    /// Page shift of a framebuffer allocation: VMMU-aligned allocations use the segment
    /// size, the others the memory manager's page shift.
    pub fn fbmem_shift(&self, vmmu_aligned: bool, page_shift: u32) -> (r: u32)
        requires
            vmmu_aligned ==> self.vmmu_segment_size > 0,
        ensures
            vmmu_aligned ==> r == log(2, self.vmmu_segment_size as int),
            !vmmu_aligned ==> r == page_shift,
    {
        if vmmu_aligned {
            ilog2(self.vmmu_segment_size)
        } else {
            page_shift
        }
    }

    /// Allocates `count` channel IDs: they always start at 512.
    pub fn alloc_chids(&self, count: i32) -> (r: i32)
        ensures
            r == 512,
    {
        512
    }
}

} // verus!
