//! What the program reads of an account that the runtime hands it.
use vstd::prelude::*;
use crate::address::Address;

verus! {

/// The state of one account as the program sees it: its address, the
/// program that owns it, whether it signed the transaction, whether it
/// may be written, and its data bytes.
#[derive(Clone, Debug)]
pub struct AccountState {
    pub address: Address,
    pub owner: Address,
    pub is_signer: bool,
    pub is_writable: bool,
    pub data: Vec<u8>,
}

/// Copies the 32 bytes at `start` of `data` into an address.
pub fn read_address(data: &[u8], start: usize) -> (r: Address)
    requires
        start + 32 <= data@.len(),
    ensures
        r@ == data@.subrange(start as int, start + 32),
{
    let len = data.len();
    let mut bytes = [0u8; 32];
    let mut i: usize = 0;
    while i < 32
        invariant
            i <= 32,
            start + 32 <= data@.len(),
            len == data@.len(),
            bytes@.len() == 32,
            forall|j: int| 0 <= j < i ==> bytes@[j] == data@[start + j],
        decreases 32 - i,
    {
        bytes[i] = data[start + i];
        i = i + 1;
    }
    let r = Address { bytes };
    assert(r@ =~= data@.subrange(start as int, start + 32));
    r
}

/// Appends the 32 bytes of an address to `out`.
pub fn write_address(out: &mut Vec<u8>, a: &Address)
    ensures
        final(out)@ == old(out)@ + a@,
{
    let mut i: usize = 0;
    while i < 32
        invariant
            i <= 32,
            a@.len() == 32,
            out@ == old(out)@ + a@.subrange(0, i as int),
        decreases 32 - i,
    {
        out.push(a.bytes[i]);
        i = i + 1;
        assert(out@ =~= old(out)@ + a@.subrange(0, i as int));
    }
    assert(a@.subrange(0, 32) =~= a@);
}

} // verus!
