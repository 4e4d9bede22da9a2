//! 32-byte account addresses and the program addresses this program talks to.
use vstd::prelude::*;

verus! {

/// A 32-byte account address (a public key or a program-derived address).
#[derive(Clone, Copy, Debug)]
pub struct Address {
    pub bytes: [u8; 32],
}

impl View for Address {
    type V = Seq<u8>;

    open spec fn view(&self) -> Seq<u8> {
        self.bytes@
    }
}

/// Lexicographic "strictly less than" on byte strings of equal length:
/// at the first position where they differ, `a` holds the smaller byte.
pub open spec fn bytes_lt(a: Seq<u8>, b: Seq<u8>) -> bool {
    exists|k: int|
        0 <= k < a.len() && k < b.len() && a[k] < b[k] && forall|j: int|
            0 <= j < k ==> #[trigger] a[j] == b[j]
}

pub open spec fn program_id_bytes() -> Seq<u8> {
    seq![
        226u8, 220, 80, 83, 124, 19, 15, 255, 47, 152, 214, 150, 191, 0, 12, 54,
        207, 108, 117, 180, 145, 106, 28, 197, 79, 86, 57, 233, 31, 98, 215, 138,
    ]
}

pub open spec fn token_program_bytes() -> Seq<u8> {
    seq![
        6u8, 221, 246, 225, 215, 101, 161, 147, 217, 203, 225, 70, 206, 235, 121, 172,
        28, 180, 133, 237, 95, 91, 55, 145, 58, 140, 245, 133, 126, 255, 0, 169,
    ]
}

pub open spec fn associated_token_program_bytes() -> Seq<u8> {
    seq![
        140u8, 151, 37, 143, 78, 36, 137, 241, 187, 61, 16, 41, 20, 142, 13, 131,
        11, 90, 19, 153, 218, 255, 16, 132, 4, 142, 123, 216, 219, 233, 248, 89,
    ]
}

pub open spec fn system_program_bytes() -> Seq<u8> {
    Seq::new(32, |i: int| 0u8)
}

impl Address {
    pub fn new_from_array(bytes: [u8; 32]) -> (r: Address)
        ensures
            r.bytes == bytes,
    {
        Address { bytes }
    }

    pub fn as_slice(&self) -> (r: &[u8])
        ensures
            r@ == self@,
    {
        self.bytes.as_slice()
    }

    /// Byte-wise equality of two addresses.
    pub fn equals(&self, other: &Address) -> (r: bool)
        ensures
            r == (self@ == other@),
    {
        let mut i: usize = 0;
        while i < 32
            invariant
                i <= 32,
                self@.len() == 32,
                other@.len() == 32,
                forall|j: int| 0 <= j < i ==> self@[j] == other@[j],
            decreases 32 - i,
        {
            if self.bytes[i] != other.bytes[i] {
                return false;
            }
            i = i + 1;
        }
        assert(self@ =~= other@);
        true
    }

    /// Lexicographic comparison: `self` orders strictly before `other`.
    pub fn less_than(&self, other: &Address) -> (r: bool)
        ensures
            r == bytes_lt(self@, other@),
    {
        let mut i: usize = 0;
        while i < 32
            invariant
                i <= 32,
                self@.len() == 32,
                other@.len() == 32,
                forall|j: int| 0 <= j < i ==> self@[j] == other@[j],
            decreases 32 - i,
        {
            if self.bytes[i] != other.bytes[i] {
                let r = self.bytes[i] < other.bytes[i];
                proof {
                    if !r {
                        assert forall|k: int|
                            0 <= k < self@.len() && k < other@.len() && self@[k] < other@[k]
                            implies !(forall|j: int| 0 <= j < k ==> #[trigger] self@[j] == other@[j]) by {
                            if k > i {
                                assert(self@[i as int] != other@[i as int]);
                            }
                        }
                    }
                }
                return r;
            }
            i = i + 1;
        }
        false
    }
}

/// The address of this program.
pub fn program_id() -> (r: Address)
    ensures
        r@ == program_id_bytes(),
{
    let r = Address {
        bytes: [
            226u8, 220, 80, 83, 124, 19, 15, 255, 47, 152, 214, 150, 191, 0, 12, 54,
            207, 108, 117, 180, 145, 106, 28, 197, 79, 86, 57, 233, 31, 98, 215, 138,
        ],
    };
    assert(r@ =~= program_id_bytes());
    r
}

/// The address of the SPL Token program.
pub fn token_program_id() -> (r: Address)
    ensures
        r@ == token_program_bytes(),
{
    let r = Address {
        bytes: [
            6u8, 221, 246, 225, 215, 101, 161, 147, 217, 203, 225, 70, 206, 235, 121, 172,
            28, 180, 133, 237, 95, 91, 55, 145, 58, 140, 245, 133, 126, 255, 0, 169,
        ],
    };
    assert(r@ =~= token_program_bytes());
    r
}

/// The address of the Associated Token Account program.
pub fn associated_token_program_id() -> (r: Address)
    ensures
        r@ == associated_token_program_bytes(),
{
    let r = Address {
        bytes: [
            140u8, 151, 37, 143, 78, 36, 137, 241, 187, 61, 16, 41, 20, 142, 13, 131,
            11, 90, 19, 153, 218, 255, 16, 132, 4, 142, 123, 216, 219, 233, 248, 89,
        ],
    };
    assert(r@ =~= associated_token_program_bytes());
    r
}

/// The address of the System program (all zero bytes).
pub fn system_program_id() -> (r: Address)
    ensures
        r@ == system_program_bytes(),
{
    let r = Address { bytes: [0u8; 32] };
    assert(r@ =~= system_program_bytes());
    r
}

} // verus!
