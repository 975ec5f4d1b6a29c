//! RM alloc operation.
use vstd::prelude::*;
use crate::layout::{read_u32, u32_at, u32s_at, u32s_to_le, write_u32s, lemma_u32s_to_le_len, lemma_u32s_to_le_decode};
use super::RmHeader;

verus! {

/// RM Alloc header structure (32 bytes).
#[derive(Debug, Clone, Copy, Default, PartialEq, Eq, Structural)]
pub struct RmAllocHeader {
    /// Client handle.
    pub h_client: u32,
    /// Parent object handle.
    pub h_parent: u32,
    /// Object handle to allocate.
    pub h_object: u32,
    /// Class ID to allocate.
    pub h_class: u32,
    /// Operation status.
    pub status: u32,
    /// Size of parameters.
    pub params_size: u32,
    /// Flags.
    pub flags: u32,
    /// Padding for 32-byte alignment.
    pub _padding: u32,
}

impl RmAllocHeader {
    /// Creates an alloc header with a clear status, no flags and no padding.
    pub fn new(h_client: u32, h_parent: u32, h_object: u32, h_class: u32, params_size: u32) -> (r: Self)
        ensures
            r == (RmAllocHeader {
                h_client,
                h_parent,
                h_object,
                h_class,
                status: 0,
                params_size,
                flags: 0,
                _padding: 0,
            }),
    {
        Self { h_client, h_parent, h_object, h_class, status: 0, params_size, flags: 0, _padding: 0 }
    }

    /// Reads a header from the start of `data`: its fields, each little-endian, in order.
    pub fn new_from_bytes(data: &[u8]) -> (r: Self)
        requires
            data@.len() >= 32,
        ensures
            r.h_client == u32_at(data@, 0),
            r.h_parent == u32_at(data@, 4),
            r.h_object == u32_at(data@, 8),
            r.h_class == u32_at(data@, 12),
            r.status == u32_at(data@, 16),
            r.params_size == u32_at(data@, 20),
            r.flags == u32_at(data@, 24),
            r._padding == u32_at(data@, 28),
    {
        Self {
            h_client: read_u32(data, 0),
            h_parent: read_u32(data, 4),
            h_object: read_u32(data, 8),
            h_class: read_u32(data, 12),
            status: read_u32(data, 16),
            params_size: read_u32(data, 20),
            flags: read_u32(data, 24),
            _padding: read_u32(data, 28),
        }
    }

    /// The fields in the order they are laid out.
    pub open spec fn words(&self) -> Seq<u32> {
        seq![
            self.h_client,
            self.h_parent,
            self.h_object,
            self.h_class,
            self.status,
            self.params_size,
            self.flags,
            self._padding,
        ]
    }
}

impl RmHeader for RmAllocHeader {
    open spec fn spec_status(&self) -> u32 {
        self.status
    }

    open spec fn spec_bytes(&self) -> Seq<u8> {
        u32s_to_le(self.words())
    }

    fn get_status(&self) -> (r: u32) {
        self.status
    }

    fn to_bytes(&self) -> (r: Vec<u8>) {
        let words: [u32; 8] = [
            self.h_client,
            self.h_parent,
            self.h_object,
            self.h_class,
            self.status,
            self.params_size,
            self.flags,
            self._padding,
        ];
        let mut out: Vec<u8> = vec![0u8; 32];
        write_u32s(out.as_mut_slice(), 0, &words);
        proof {
            assert(words@ =~= self.words());
            lemma_u32s_to_le_len(words@);
            assert(out@ =~= u32s_to_le(self.words()));
        }
        out
    }
}

/// The bytes of a header are its 8 fields, each little-endian, and read back as them.
pub proof fn lemma_alloc_header_bytes(h: RmAllocHeader)
    ensures
        h.spec_bytes().len() == 32,
        u32s_at(h.spec_bytes(), 0, 8) == h.words(),
{
    lemma_u32s_to_le_decode(h.words());
}

/// Reading a header back from its bytes gives the header: its bytes hold each field at
/// its place.
pub proof fn lemma_alloc_header_round_trip(h: RmAllocHeader)
    ensures
        h.spec_bytes().len() == 32,
        u32_at(h.spec_bytes(), 0) == h.h_client,
        u32_at(h.spec_bytes(), 4) == h.h_parent,
        u32_at(h.spec_bytes(), 8) == h.h_object,
        u32_at(h.spec_bytes(), 12) == h.h_class,
        u32_at(h.spec_bytes(), 16) == h.status,
        u32_at(h.spec_bytes(), 20) == h.params_size,
        u32_at(h.spec_bytes(), 24) == h.flags,
        u32_at(h.spec_bytes(), 28) == h._padding,
{
    lemma_alloc_header_bytes(h);
    let b = h.spec_bytes();
    assert(u32s_at(b, 0, 8)[0] == u32_at(b, 0));
    assert(u32s_at(b, 0, 8)[1] == u32_at(b, 4));
    assert(u32s_at(b, 0, 8)[2] == u32_at(b, 8));
    assert(u32s_at(b, 0, 8)[3] == u32_at(b, 12));
    assert(u32s_at(b, 0, 8)[4] == u32_at(b, 16));
    assert(u32s_at(b, 0, 8)[5] == u32_at(b, 20));
    assert(u32s_at(b, 0, 8)[6] == u32_at(b, 24));
    assert(u32s_at(b, 0, 8)[7] == u32_at(b, 28));
}

/// The status of a header is its status field: the little-endian word at byte 16 of the
/// header as sent, where a reply carries it.
pub proof fn lemma_alloc_header_status(h: RmAllocHeader)
    ensures
        h.spec_status() == h.status,
        h.spec_status() == u32_at(h.spec_bytes(), 16),
{
    lemma_alloc_header_round_trip(h);
}

} // verus!
