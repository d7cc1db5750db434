//! How a packet gets out of the TCP stack.

use vstd::prelude::*;

verus! {

/// The leave to send one packet through the device.
pub struct TxToken {}

impl TxToken {
    /// Lets `fill` write a packet of `len` octets, all of them zero before. The packet is to be
    /// sent if `fill` succeeds, and only then; what `fill` returned is handed on.
    pub fn consume<R, E, F: FnOnce(&mut [u8]) -> Result<R, E>>(self, len: usize, fill: F) -> (r: (
        Result<R, E>,
        Option<Vec<u8>>,
    ))
        requires
            forall|buf: &mut [u8]|
                buf@ == Seq::new(len as nat, |i: int| 0u8) ==> #[trigger] fill.requires((buf,)),
        ensures
            r.1 is Some <==> r.0 is Ok,
            exists|buf: &mut [u8]|
                {
                    &&& buf@ == Seq::new(len as nat, |i: int| 0u8)
                    &&& #[trigger] fill.ensures((buf,), r.0)
                    &&& r.1 matches Some(packet) ==> packet@ == final(buf)@
                },
    {
        let mut packet: Vec<u8> = vec![0; len];
        assert(packet@ == Seq::new(len as nat, |i: int| 0u8));
        let result = fill(packet.as_mut_slice());
        match result {
            Ok(_) => (result, Some(packet)),
            Err(_) => (result, None),
        }
    }
}

} // verus!
