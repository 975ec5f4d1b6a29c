//! Resource-manager (RM) API: the messages sent to the GSP and the checks on its replies.
pub mod allocation;
pub mod control;

use vstd::prelude::*;
use crate::error::{Error, Result};

verus! {

/// Headers common to the RM API operations.
pub trait RmHeader {
    /// The status code that the header carries.
    spec fn spec_status(&self) -> u32;

    /// The bytes of the header as it is sent.
    spec fn spec_bytes(&self) -> Seq<u8>;

    /// Gets the status code of a response.
    fn get_status(&self) -> (r: u32)
        ensures
            r == self.spec_status(),
    ;

    /// The bytes of the header as it is sent.
    fn to_bytes(&self) -> (r: Vec<u8>)
        ensures
            r@ == self.spec_bytes(),
    ;
}

/// A message to send: a header and optional parameters.
pub struct RmMessage<'a, H: RmHeader> {
    /// The header.
    pub header: H,
    /// The parameters that follow the header.
    pub params: &'a [u8],
}

impl<'a, H: RmHeader> RmMessage<'a, H> {
    /// The bytes of the message: the header, then the parameters.
    pub fn copy_to_sbuf(&self) -> (r: Vec<u8>)
        ensures
            r@ == self.header.spec_bytes() + self.params@,
    {
        let mut out = self.header.to_bytes();
        let n = self.params.len();
        let mut i: usize = 0;
        while i < n
            invariant
                n == self.params@.len(),
                0 <= i <= n,
                out@ == self.header.spec_bytes() + self.params@.subrange(0, i as int),
            decreases n - i,
        {
            out.push(self.params[i]);
            i = i + 1;
            proof {
                assert(out@ =~= self.header.spec_bytes() + self.params@.subrange(0, i as int));
            }
        }
        proof {
            assert(self.params@.subrange(0, n as int) =~= self.params@);
        }
        out
    }

    /// Size of the message in bytes.
    pub fn size(&self) -> (r: usize)
        requires
            self.header.spec_bytes().len() + self.params@.len() <= usize::MAX,
        ensures
            r == self.header.spec_bytes().len() + self.params@.len(),
    {
        let h = self.header.to_bytes();
        h.len() + self.params.len()
    }
}

/// What an attempt to receive the reply gives the wait: no reply yet (`Again`) means to
/// keep waiting; any other outcome ends the wait with it.
pub fn poll_outcome<T>(received: Result<T>) -> (r: Option<Result<T>>)
    ensures
        match received {
            Err(Error::Again) => r is None,
            _ => r == Some(received),
        },
{
    match received {
        Ok(response) => Some(Ok(response)),
        Err(Error::Again) => None,
        Err(e) => Some(Err(e)),
    }
}

/// Checks the status of a reply: any nonzero status is an I/O error.
pub fn check_status(status: u32) -> (r: Result<()>)
    ensures
        status == 0 ==> r == Ok::<(), Error>(()),
        status != 0 ==> r == Err::<(), Error>(Error::Io),
{
    if status != 0 {
        return Err(Error::Io);
    }
    Ok(())
}

} // verus!
