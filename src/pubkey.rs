use vstd::prelude::*;

verus! {

/// Length in bytes of an account key.
pub const KEY_LEN: usize = 32;

/// An account key: 32 raw bytes.
#[derive(Clone, Copy, Debug)]
pub struct Pubkey {
    pub bytes: [u8; 32],
}

impl View for Pubkey {
    type V = Seq<u8>;

    open spec fn view(&self) -> Seq<u8> {
        self.bytes@
    }
}

/// The key of the platform's system program, which allocates new accounts.
pub open spec fn system_program_key() -> Seq<u8> {
    Seq::new(32, |i: int| 0u8)
}

impl Pubkey {
    pub fn new_from_array(bytes: [u8; 32]) -> (r: Pubkey)
        ensures
            r@ == bytes@,
    {
        Pubkey { bytes }
    }

    pub fn to_bytes(&self) -> (r: [u8; 32])
        ensures
            r@ == self@,
    {
        self.bytes
    }

    /// The system program's key (all zero bytes).
    pub fn system_program() -> (r: Pubkey)
        ensures
            r@ == system_program_key(),
    {
        let r = Pubkey { bytes: [0u8; 32] };
        assert(r@ =~= system_program_key());
        r
    }

    /// Byte-wise comparison of two keys.
    pub fn equals(&self, other: &Pubkey) -> (r: bool)
        ensures
            r == (self@ == other@),
    {
        let mut i: usize = 0;
        while i < KEY_LEN
            invariant
                0 <= i <= KEY_LEN,
                self@.len() == KEY_LEN,
                other@.len() == KEY_LEN,
                forall|j: int| 0 <= j < i ==> self@[j] == other@[j],
            decreases KEY_LEN - i,
        {
            if self.bytes[i] != other.bytes[i] {
                return false;
            }
            i = i + 1;
        }
        assert(self@ =~= other@);
        true
    }

    pub fn is_system_program(&self) -> (r: bool)
        ensures
            r == (self@ == system_program_key()),
    {
        self.equals(&Pubkey::system_program())
    }
}

} // verus!
