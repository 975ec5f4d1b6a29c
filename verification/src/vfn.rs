//! Virtual-function interrupt block: interrupt numbering, the registers that the interrupt
//! handling reads and writes, and the decisions of the interrupt thread.
use vstd::prelude::*;
use crate::error::{Error, Result};

verus! {

/// Base address of the interrupt block.
pub const VFN_BASE: u32 = 0xb80000;

/// Number of 32-bit interrupt leaves.
pub const VFN_NUM_MASKS: usize = 8;

/// A register write: `value` to the register at `addr`.
#[derive(Debug, Clone, Copy, PartialEq, Eq, Structural)]
pub struct RegWrite {
    /// Address in BAR0.
    pub addr: u32,
    /// Value to write.
    pub value: u32,
}

/// An installed interrupt handler: the leaf and bit of its interrupt.
#[derive(Debug, Clone, Copy, PartialEq, Eq, Structural)]
pub struct Inth {
    /// Interrupt leaf (index of the 32-bit status word).
    pub leaf: u32,
    /// Bit of the interrupt within the leaf.
    pub mask: u32,
}

/// The interrupt block and the interrupts that have handlers.
pub struct Vfn {
    /// Base address of the block.
    pub addr: u32,
    /// The installed handlers, in installation order.
    pub handlers: Vec<Inth>,
}

/// The leaf and bit mask of interrupt `intr`, which must be below 256.
pub open spec fn spec_xlat(intr: u32) -> Result<(u32, u32)> {
    if intr >= 256 {
        Err(Error::Inval)
    } else {
        Ok(((intr / 32) as u32, (1u32 << (intr % 32)) as u32))
    }
}

impl Vfn {
    /// The interrupt block at its usual base address, without handlers.
    pub fn new() -> (r: Vfn)
        ensures
            r.addr == VFN_BASE,
            r.handlers@ == Seq::<Inth>::empty(),
    {
        Vfn { addr: VFN_BASE, handlers: Vec::new() }
    }

    /// The block's addresses fit in 32 bits.
    pub open spec fn wf(&self) -> bool {
        self.addr <= 0xff00_0000
    }

    /// Address of the register at `offset` in the block.
    pub fn reg_addr(&self, offset: u32) -> (r: u32)
        requires
            self.wf(),
            offset <= 0xffff,
        ensures
            r == self.addr + offset,
    {
        self.addr + offset
    }

    /// The write of `val` to the register at `offset` in the block.
    pub fn wr32(&self, offset: u32, val: u32) -> (r: RegWrite)
        requires
            self.wf(),
            offset <= 0xffff,
        ensures
            r == (RegWrite { addr: (self.addr + offset) as u32, value: val }),
    {
        RegWrite { addr: self.addr + offset, value: val }
    }

    /// Translates interrupt `intr` into its leaf and the bit within it.
    pub fn xlat(&self, intr: u32) -> (r: Result<(u32, u32)>)
        ensures
            r == spec_xlat(intr),
    {
        if intr >= (VFN_NUM_MASKS * 4 * 8) as u32 {
            return Err(Error::Inval);
        }
        Ok((intr / 32, 1u32 << (intr % 32)))
    }

    /// Acknowledges interrupts `mask` of `leaf`.
    pub fn reset(&self, leaf: u32, mask: u32) -> (r: RegWrite)
        requires
            self.wf(),
            leaf < VFN_NUM_MASKS,
        ensures
            r == (RegWrite { addr: (self.addr + 0x1000 + leaf * 4) as u32, value: mask }),
    {
        self.wr32(0x1000 + leaf * 4, mask)
    }

    /// Enables interrupts `mask` of `leaf`.
    pub fn allow(&self, leaf: u32, mask: u32) -> (r: RegWrite)
        requires
            self.wf(),
            leaf < VFN_NUM_MASKS,
        ensures
            r == (RegWrite { addr: (self.addr + 0x1200 + leaf * 4) as u32, value: mask }),
    {
        self.wr32(0x1200 + leaf * 4, mask)
    }

    /// Disables interrupts `mask` of `leaf`.
    pub fn block(&self, leaf: u32, mask: u32) -> (r: RegWrite)
        requires
            self.wf(),
            leaf < VFN_NUM_MASKS,
        ensures
            r == (RegWrite { addr: (self.addr + 0x1400 + leaf * 4) as u32, value: mask }),
    {
        self.wr32(0x1400 + leaf * 4, mask)
    }

    /// Re-arms the interrupt.
    pub fn rearm(&self) -> (r: RegWrite)
        requires
            self.wf(),
        ensures
            r == (RegWrite { addr: (self.addr + 0x1608) as u32, value: 0x0000000f }),
    {
        self.wr32(0x1608, 0x0000000f)
    }

    /// Disarms the interrupt.
    pub fn disarm(&self) -> (r: RegWrite)
        requires
            self.wf(),
        ensures
            r == (RegWrite { addr: (self.addr + 0x1610) as u32, value: 0x0000000f }),
    {
        self.wr32(0x1610, 0x0000000f)
    }

    /// The writes that let interrupt `intr` through: acknowledge it, then enable it.
    pub fn intr_allow(&self, intr: u32) -> (r: Result<(RegWrite, RegWrite)>)
        requires
            self.wf(),
        ensures
            match spec_xlat(intr) {
                Ok((leaf, mask)) => r == Ok::<(RegWrite, RegWrite), Error>(
                    (
                        RegWrite { addr: (self.addr + 0x1000 + leaf * 4) as u32, value: mask },
                        RegWrite { addr: (self.addr + 0x1200 + leaf * 4) as u32, value: mask },
                    ),
                ),
                Err(e) => r == Err::<(RegWrite, RegWrite), Error>(e),
            },
    {
        let (leaf, mask) = self.xlat(intr)?;
        let w1 = self.reset(leaf, mask);
        let w2 = self.allow(leaf, mask);
        Ok((w1, w2))
    }

    /// Installs a handler for interrupt `intr`.
    pub fn add_handler(&mut self, intr: u32) -> (r: Result<()>)
        ensures
            final(self).addr == old(self).addr,
            match spec_xlat(intr) {
                Ok((leaf, mask)) => r == Ok::<(), Error>(()) && final(self).handlers@ == old(
                    self,
                ).handlers@.push(Inth { leaf, mask }),
                Err(e) => r == Err::<(), Error>(e) && final(self).handlers@ == old(self).handlers@,
            },
    {
        let (leaf, mask) = self.xlat(intr)?;
        self.handlers.push(Inth { leaf, mask });
        Ok(())
    }

    /// Offset of the top-level interrupt register, which tells which leaves are pending.
    pub fn intr_top_offset() -> (r: u32)
        ensures
            r == 0x1600,
    {
        0x1600
    }

    /// Whether the status word of `leaf` has to be read, given the top-level register:
    /// each bit of it covers two leaves.
    pub open spec fn spec_leaf_selected(intr_top: u32, leaf: int) -> bool {
        intr_top & (1u32 << ((leaf / 2) as u32)) != 0
    }

    /// Offset of the status word of `leaf`.
    pub fn leaf_status_offset(leaf: usize) -> (r: u32)
        requires
            leaf < VFN_NUM_MASKS,
        ensures
            r == 0x1000 + leaf * 4,
    {
        (0x1000 + leaf * 4) as u32
    }

    /// Whether the status word of `leaf` has to be read.
    pub fn leaf_selected(intr_top: u32, leaf: usize) -> (r: bool)
        requires
            leaf < VFN_NUM_MASKS,
        ensures
            r == Vfn::spec_leaf_selected(intr_top, leaf as int),
    {
        intr_top & (1u32 << ((leaf / 2) as u32)) != 0
    }

    /// The pending interrupts: the status words read for the selected leaves (`reads` holds
    /// them; the other leaves count as zero), or `None` when all of them are zero.
    pub fn pending(intr_top: u32, reads: [u32; 8]) -> (r: Option<[u32; 8]>)
        ensures
            (exists|l: int|
                0 <= l < 8 && Vfn::spec_leaf_selected(intr_top, l) && reads@[l] != 0) <==> r is Some,
            r is Some ==> forall|l: int|
                0 <= l < 8 ==> #[trigger] r->0@[l] == if Vfn::spec_leaf_selected(intr_top, l) {
                    reads@[l]
                } else {
                    0
                },
    {
        let mut stat: [u32; 8] = [0u32; 8];
        let mut pending: bool = false;
        let mut leaf: usize = 0;
        while leaf < VFN_NUM_MASKS
            invariant
                0 <= leaf <= 8,
                stat@.len() == 8,
                forall|l: int|
                    0 <= l < leaf ==> #[trigger] stat@[l] == if Vfn::spec_leaf_selected(intr_top, l) {
                        reads@[l]
                    } else {
                        0
                    },
                forall|l: int| leaf <= l < 8 ==> #[trigger] stat@[l] == 0,
                pending <==> exists|l: int|
                    0 <= l < leaf && Vfn::spec_leaf_selected(intr_top, l) && reads@[l] != 0,
            decreases 8 - leaf,
        {
            if Vfn::leaf_selected(intr_top, leaf) {
                stat[leaf] = reads[leaf];
                if stat[leaf] != 0 {
                    pending = true;
                }
            }
            leaf = leaf + 1;
        }
        if pending {
            Some(stat)
        } else {
            None
        }
    }

    /// Whether the handler `inth` has to run for the pending interrupts `x`.
    pub fn handler_fires(inth: Inth, x: &[u32; 8]) -> (r: bool)
        requires
            inth.leaf < VFN_NUM_MASKS,
        ensures
            r == (x@[inth.leaf as int] & inth.mask != 0),
    {
        x[inth.leaf as usize] & inth.mask != 0
    }

    /// The block writes for the leaves below `n` that have pending interrupts in `x`, in
    /// leaf order.
    pub open spec fn spec_block_writes(&self, x: Seq<u32>, n: int) -> Seq<RegWrite>
        decreases n,
    {
        if n <= 0 {
            Seq::empty()
        } else {
            let pre = self.spec_block_writes(x, n - 1);
            if x[n - 1] != 0 {
                pre.push(RegWrite { addr: (self.addr + 0x1400 + (n - 1) * 4) as u32, value: x[n - 1] })
            } else {
                pre
            }
        }
    }

    /// Blocking the pending leaves below `n` writes `x[l]` to the block register of each
    /// leaf `l < n` whose word `x[l]` is nonzero, and nothing else; the writes go to
    /// strictly increasing addresses, so each such leaf is blocked exactly once.
    pub proof fn lemma_block_writes(&self, x: Seq<u32>, n: int)
        requires
            self.wf(),
            0 <= n <= 8,
        ensures
            forall|l: int|
                0 <= l < n && #[trigger] x[l] != 0 ==> exists|i: int|
                    0 <= i < self.spec_block_writes(x, n).len()
                        && #[trigger] self.spec_block_writes(x, n)[i] == (RegWrite {
                        addr: (self.addr + 0x1400 + 4 * l) as u32,
                        value: x[l],
                    }),
            forall|i: int|
                0 <= i < self.spec_block_writes(x, n).len() ==> {
                    let a = (#[trigger] self.spec_block_writes(x, n)[i]).addr - self.addr - 0x1400;
                    &&& 0 <= a < 4 * n
                    &&& a % 4 == 0
                    &&& x[a / 4] != 0
                    &&& self.spec_block_writes(x, n)[i].value == x[a / 4]
                },
            forall|i: int, j: int|
                0 <= i < j < self.spec_block_writes(x, n).len() ==> (
                #[trigger] self.spec_block_writes(x, n)[i]).addr < (
                #[trigger] self.spec_block_writes(x, n)[j]).addr,
        decreases n,
    {
        if n > 0 {
            self.lemma_block_writes(x, n - 1);
            let pre = self.spec_block_writes(x, n - 1);
            let w = self.spec_block_writes(x, n);
            let pending = x[n - 1] != 0;
            if pending {
                let last = RegWrite { addr: (self.addr + 0x1400 + 4 * (n - 1)) as u32, value: x[n - 1] };
                assert(w == pre.push(last));
                assert(last.addr - self.addr - 0x1400 == 4 * (n - 1));
                assert((4 * (n - 1)) / 4 == n - 1 && (4 * (n - 1)) % 4 == 0);
                assert forall|i: int| 0 <= i < pre.len() implies #[trigger] w[i] == pre[i] && pre[i].addr
                    < last.addr by {}
                assert forall|l: int| 0 <= l < n && #[trigger] x[l] != 0 implies exists|i: int|
                    0 <= i < w.len() && #[trigger] w[i] == (RegWrite {
                        addr: (self.addr + 0x1400 + 4 * l) as u32,
                        value: x[l],
                    }) by {
                    if l == n - 1 {
                        assert(w[pre.len() as int] == last);
                    } else {
                        let i = choose|i: int|
                            0 <= i < pre.len() && #[trigger] pre[i] == (RegWrite {
                                addr: (self.addr + 0x1400 + 4 * l) as u32,
                                value: x[l],
                            });
                        assert(w[i] == pre[i]);
                    }
                }
                assert forall|i: int, j: int| 0 <= i < j < w.len() implies (#[trigger] w[i]).addr < (
                #[trigger] w[j]).addr by {
                    assert(w[i] == pre[i]);
                    if j == pre.len() {
                        assert(w[j] == last);
                    } else {
                        assert(w[j] == pre[j]);
                    }
                }
            } else {
                assert(w == pre);
            }
        }
    }

    /// The writes that end the interrupt thread, taken leaf by leaf: a block write for each
    /// pending leaf when `res` is 0, nothing but block writes of pending leaves before the
    /// re-arm, in increasing address order.
    proof fn lemma_finish_writes(&self, x: Seq<u32>, res: u32, r: Seq<RegWrite>)
        requires
            self.wf(),
            r == (if res == 0 {
                self.spec_block_writes(x, 8)
            } else {
                Seq::empty()
            }).push(RegWrite { addr: (self.addr + 0x1608) as u32, value: 0x0000000f }),
        ensures
            res == 0 ==> forall|l: int|
                0 <= l < 8 && #[trigger] x[l] != 0 ==> exists|i: int|
                    0 <= i < r.len() - 1 && #[trigger] r[i] == (RegWrite {
                        addr: (self.addr + 0x1400 + 4 * l) as u32,
                        value: x[l],
                    }),
            forall|i: int|
                0 <= i < r.len() - 1 ==> {
                    let a = (#[trigger] r[i]).addr - self.addr - 0x1400;
                    &&& 0 <= a < 32
                    &&& a % 4 == 0
                    &&& x[a / 4] != 0
                    &&& r[i].value == x[a / 4]
                },
            forall|i: int, j: int|
                0 <= i < j < r.len() - 1 ==> (#[trigger] r[i]).addr < (#[trigger] r[j]).addr,
    {
        self.lemma_block_writes(x, 8);
        let b = if res == 0 {
            self.spec_block_writes(x, 8)
        } else {
            Seq::empty()
        };
        assert forall|i: int| 0 <= i < b.len() implies #[trigger] r[i] == b[i] by {}
        if res == 0 {
            assert forall|l: int| 0 <= l < 8 && #[trigger] x[l] != 0 implies exists|i: int|
                0 <= i < r.len() - 1 && #[trigger] r[i] == (RegWrite {
                    addr: (self.addr + 0x1400 + 4 * l) as u32,
                    value: x[l],
                }) by {
                let i = choose|i: int|
                    0 <= i < b.len() && #[trigger] b[i] == (RegWrite {
                        addr: (self.addr + 0x1400 + 4 * l) as u32,
                        value: x[l],
                    });
                assert(r[i] == b[i]);
            }
        }
    }

    /// The writes that end the interrupt thread after the handlers ran: when the last
    /// handler that ran reported 0 (or none ran), every leaf with pending interrupts is
    /// blocked, in leaf order; the interrupt is then re-armed.
    pub fn finish_irq(&self, x: &[u32; 8], res: u32) -> (r: Vec<RegWrite>)
        requires
            self.wf(),
        ensures
            r@ == (if res == 0 {
                self.spec_block_writes(x@, 8)
            } else {
                Seq::empty()
            }).push(RegWrite { addr: (self.addr + 0x1608) as u32, value: 0x0000000f }),
            r@.len() >= 1,
            r@.last() == (RegWrite { addr: (self.addr + 0x1608) as u32, value: 0x0000000f }),
            res != 0 ==> r@.len() == 1,
            res == 0 ==> forall|l: int|
                0 <= l < 8 && #[trigger] x@[l] != 0 ==> exists|i: int|
                    0 <= i < r@.len() - 1 && #[trigger] r@[i] == (RegWrite {
                        addr: (self.addr + 0x1400 + 4 * l) as u32,
                        value: x@[l],
                    }),
            forall|i: int|
                0 <= i < r@.len() - 1 ==> {
                    let a = (#[trigger] r@[i]).addr - self.addr - 0x1400;
                    &&& 0 <= a < 32
                    &&& a % 4 == 0
                    &&& x@[a / 4] != 0
                    &&& r@[i].value == x@[a / 4]
                },
            forall|i: int, j: int|
                0 <= i < j < r@.len() - 1 ==> (#[trigger] r@[i]).addr < (#[trigger] r@[j]).addr,
    {
        let mut writes: Vec<RegWrite> = Vec::new();
        if res == 0 {
            let mut i: usize = 0;
            while i < VFN_NUM_MASKS
                invariant
                    self.wf(),
                    0 <= i <= 8,
                    writes@ == self.spec_block_writes(x@, i as int),
                decreases 8 - i,
            {
                if x[i] != 0 {
                    let w = self.block(i as u32, x[i]);
                    writes.push(w);
                }
                i = i + 1;
            }
        }
        let w = self.rearm();
        writes.push(w);
        proof {
            self.lemma_finish_writes(x@, res, writes@);
        }
        writes
    }
}

/// Interrupts below 256 land in one of the leaves, and distinct interrupts never share a
/// leaf and a bit.
pub proof fn lemma_xlat_injective(a: u32, b: u32)
    requires
        a < 256,
        b < 256,
        a != b,
    ensures
        spec_xlat(a) is Ok && spec_xlat(b) is Ok,
        spec_xlat(a)->Ok_0.0 < VFN_NUM_MASKS,
        spec_xlat(a) != spec_xlat(b),
{
    let x = a % 32;
    let y = b % 32;
    if a / 32 == b / 32 {
        assert(x != y);
        assert(x < 32 && y < 32 && x != y ==> (1u32 << x) != (1u32 << y)) by (bit_vector);
    }
}

} // verus!
