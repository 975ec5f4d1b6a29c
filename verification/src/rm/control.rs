//! RM control operation: commands that query and configure GPU resources.
use vstd::prelude::*;
use crate::layout::{read_u32, u32_at, u32s_at, u32s_to_le, write_u32s, lemma_u32s_to_le_len, lemma_u32s_to_le_decode};
use super::RmHeader;

verus! {

/// RM Control header structure (24 bytes).
#[derive(Debug, Clone, Copy, Default, PartialEq, Eq, Structural)]
pub struct RmControlHeader {
    /// Client handle (in).
    pub h_client: u32,
    /// Object handle (in).
    pub h_object: u32,
    /// Control command (in).
    pub cmd: u32,
    /// Status (out).
    pub status: u32,
    /// Size of the parameters (in).
    pub params_size: u32,
    /// Flags (in).
    pub flags: u32,
}

impl RmControlHeader {
    /// Creates a control header for command `cmd` on the internal client and subdevice,
    /// with `params_len` bytes of parameters (the size is kept as a `u32`).
    pub fn new(h_internal_client: u32, h_internal_subdevice: u32, cmd: u32, params_len: usize) -> (r: Self)
        ensures
            r == (RmControlHeader {
                h_client: h_internal_client,
                h_object: h_internal_subdevice,
                cmd,
                status: 0,
                params_size: params_len as u32,
                flags: 0,
            }),
    {
        Self {
            h_client: h_internal_client,
            h_object: h_internal_subdevice,
            cmd,
            status: 0,
            params_size: params_len as u32,
            flags: 0,
        }
    }

    /// Reads a header from the start of `data`: its fields, each little-endian, in order.
    pub fn new_from_bytes(data: &[u8]) -> (r: Self)
        requires
            data@.len() >= 24,
        ensures
            r.h_client == u32_at(data@, 0),
            r.h_object == u32_at(data@, 4),
            r.cmd == u32_at(data@, 8),
            r.status == u32_at(data@, 12),
            r.params_size == u32_at(data@, 16),
            r.flags == u32_at(data@, 20),
    {
        Self {
            h_client: read_u32(data, 0),
            h_object: read_u32(data, 4),
            cmd: read_u32(data, 8),
            status: read_u32(data, 12),
            params_size: read_u32(data, 16),
            flags: read_u32(data, 20),
        }
    }

    /// The fields in the order they are laid out.
    pub open spec fn words(&self) -> Seq<u32> {
        seq![self.h_client, self.h_object, self.cmd, self.status, self.params_size, self.flags]
    }
}

impl RmHeader for RmControlHeader {
    open spec fn spec_status(&self) -> u32 {
        self.status
    }

    open spec fn spec_bytes(&self) -> Seq<u8> {
        u32s_to_le(self.words())
    }

    fn get_status(&self) -> (r: u32) {
        self.status
    }

    fn to_bytes(&self) -> (r: Vec<u8>) {
        let words: [u32; 6] = [
            self.h_client,
            self.h_object,
            self.cmd,
            self.status,
            self.params_size,
            self.flags,
        ];
        let mut out: Vec<u8> = vec![0u8; 24];
        write_u32s(out.as_mut_slice(), 0, &words);
        proof {
            assert(words@ =~= self.words());
            lemma_u32s_to_le_len(words@);
            assert(out@ =~= u32s_to_le(self.words()));
        }
        out
    }
}

/// The bytes of a header are its 6 fields, each little-endian, and read back as them.
pub proof fn lemma_control_header_bytes(h: RmControlHeader)
    ensures
        h.spec_bytes().len() == 24,
        u32s_at(h.spec_bytes(), 0, 6) == h.words(),
{
    lemma_u32s_to_le_decode(h.words());
}

/// Reading a header back from its bytes gives the header: its bytes hold each field at
/// its place.
pub proof fn lemma_control_header_round_trip(h: RmControlHeader)
    ensures
        h.spec_bytes().len() == 24,
        u32_at(h.spec_bytes(), 0) == h.h_client,
        u32_at(h.spec_bytes(), 4) == h.h_object,
        u32_at(h.spec_bytes(), 8) == h.cmd,
        u32_at(h.spec_bytes(), 12) == h.status,
        u32_at(h.spec_bytes(), 16) == h.params_size,
        u32_at(h.spec_bytes(), 20) == h.flags,
{
    lemma_control_header_bytes(h);
    let b = h.spec_bytes();
    assert(u32s_at(b, 0, 6)[0] == u32_at(b, 0));
    assert(u32s_at(b, 0, 6)[1] == u32_at(b, 4));
    assert(u32s_at(b, 0, 6)[2] == u32_at(b, 8));
    assert(u32s_at(b, 0, 6)[3] == u32_at(b, 12));
    assert(u32s_at(b, 0, 6)[4] == u32_at(b, 16));
    assert(u32s_at(b, 0, 6)[5] == u32_at(b, 20));
}

/// The status of a header is its status field: the little-endian word at byte 12 of the
/// header as sent, where a reply carries it.
pub proof fn lemma_control_header_status(h: RmControlHeader)
    ensures
        h.spec_status() == h.status,
        h.spec_status() == u32_at(h.spec_bytes(), 12),
{
    lemma_control_header_round_trip(h);
}

} // verus!
