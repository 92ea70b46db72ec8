//! The data that a verification call reads: account identities, one sibling
//! instruction, and the batch's ordered introspection record.

use vstd::prelude::*;

verus! {

/// A 32-byte account identity, as the native execution environment defines it.
#[derive(Clone, Copy)]
pub struct Pubkey {
    pub bytes: [u8; 32],
}

impl View for Pubkey {
    type V = Seq<u8>;

    open spec fn view(&self) -> Seq<u8> {
        self.bytes@
    }
}

impl Pubkey {
    pub fn new(bytes: [u8; 32]) -> (r: Pubkey)
        ensures
            r@ == bytes@,
    {
        Pubkey { bytes }
    }

    /// Byte-for-byte equality of two identities.
    pub fn eq_key(&self, other: &Pubkey) -> (r: bool)
        ensures
            r == (self@ == other@),
    {
        let mut i: usize = 0;
        while i < 32
            invariant
                0 <= i <= 32,
                forall|j: int| 0 <= j < i ==> self.bytes@[j] == other.bytes@[j],
            decreases 32 - i,
        {
            if self.bytes[i] != other.bytes[i] {
                return false;
            }
            i = i + 1;
        }
        proof {
            assert(self@ =~= other@);
        }
        true
    }
}

/// What a verification call sees of one sibling instruction, as mathematical
/// values: its origin identity, its account identities, and its raw payload.
pub struct InstructionView {
    pub origin_id: Seq<u8>,
    pub accounts: Seq<Seq<u8>>,
    pub data: Seq<u8>,
}

/// One entry of the introspection record: an instruction of the current
/// atomic batch, addressed to the facility `origin_id`, referencing
/// `accounts` in facility-defined order, with an opaque binary payload.
pub struct SiblingInstruction {
    pub origin_id: Pubkey,
    pub accounts: Vec<Pubkey>,
    pub data: Vec<u8>,
}

impl View for SiblingInstruction {
    type V = InstructionView;

    open spec fn view(&self) -> InstructionView {
        InstructionView {
            origin_id: self.origin_id@,
            accounts: self.accounts@.map_values(|a: Pubkey| a@),
            data: self.data@,
        }
    }
}

impl SiblingInstruction {
    pub fn new(origin_id: Pubkey, accounts: Vec<Pubkey>, data: Vec<u8>) -> (r: SiblingInstruction)
        ensures
            r@.origin_id == origin_id@,
            r@.accounts == accounts@.map_values(|a: Pubkey| a@),
            r@.data == data@,
    {
        SiblingInstruction { origin_id, accounts, data }
    }
}

/// The read-only, ordered record of every operation in the current atomic
/// batch, in execution order. The verifier never mutates it.
pub struct IntrospectionRecord {
    pub instructions: Vec<SiblingInstruction>,
}

impl View for IntrospectionRecord {
    type V = Seq<InstructionView>;

    open spec fn view(&self) -> Seq<InstructionView> {
        self.instructions@.map_values(|i: SiblingInstruction| i@)
    }
}

impl IntrospectionRecord {
    pub fn new(instructions: Vec<SiblingInstruction>) -> (r: IntrospectionRecord)
        ensures
            r@ == instructions@.map_values(|i: SiblingInstruction| i@),
    {
        IntrospectionRecord { instructions }
    }

    pub fn len(&self) -> (r: usize)
        ensures
            r == self@.len(),
    {
        self.instructions.len()
    }
}

} // verus!
