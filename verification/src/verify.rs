//! The transfer proof verifier: accepts or rejects the claim that slot 0 of
//! the introspection record holds a native transfer of a given amount to a
//! given recipient.

use vstd::prelude::*;

use crate::instruction::InstructionView;
use crate::instruction::IntrospectionRecord;
use crate::instruction::Pubkey;

verus! {

/// Why a claimed transfer proof was rejected. The first failing check is
/// surfaced as-is; no aggregation.
#[derive(Clone, Copy, Debug, PartialEq, Eq, Structural)]
pub enum VerificationError {
    /// The sibling instruction is not a native transfer: its origin identity
    /// or its payload discriminator is not the native transfer facility's.
    WrongOrigin,
    /// The payload is too short to hold a discriminator and an amount.
    MalformedPayload,
    /// The recipient account is absent or does not match the claim.
    WrongRecipient,
    /// The transferred amount does not match the claim exactly.
    WrongAmount,
}

/// The identity of the native transfer facility: the all-zero key.
pub open spec fn native_transfer_facility_id() -> Seq<u8> {
    Seq::new(32, |i: int| 0u8)
}

/// The 4-byte little-endian discriminator of the facility's transfer
/// operation kind (value 2).
pub open spec fn transfer_discriminator() -> Seq<u8> {
    seq![2u8, 0u8, 0u8, 0u8]
}

/// The amount a transfer payload carries: bytes [4, 12) of the payload read
/// as a little-endian unsigned 64-bit integer.
pub open spec fn payload_amount(data: Seq<u8>) -> u64
    recommends
        data.len() >= 12,
{
    vstd::bytes::spec_u64_from_le_bytes(data.subrange(4, 12))
}

/// A sibling instruction that proves the claimed payment: a native transfer
/// whose recipient (its second account) and amount both match the claim.
pub open spec fn is_valid_transfer_proof(ins: InstructionView, recipient: Seq<u8>, amount: u64) -> bool {
    &&& ins.origin_id == native_transfer_facility_id()
    &&& ins.data.len() >= 12
    &&& ins.data.subrange(0, 4) == transfer_discriminator()
    &&& ins.accounts.len() >= 2
    &&& ins.accounts[1] == recipient
    &&& payload_amount(ins.data) == amount
}

/// The verdict on one sibling instruction, with the checks in the order the
/// verifier applies them: origin, payload length, discriminator, recipient,
/// amount. The first failing check decides the error.
pub open spec fn expected_verdict(ins: InstructionView, recipient: Seq<u8>, amount: u64) -> Result<(), VerificationError> {
    if ins.origin_id != native_transfer_facility_id() {
        Err(VerificationError::WrongOrigin)
    } else if ins.data.len() < 12 {
        Err(VerificationError::MalformedPayload)
    } else if ins.data.subrange(0, 4) != transfer_discriminator() {
        Err(VerificationError::WrongOrigin)
    } else if ins.accounts.len() < 2 || ins.accounts[1] != recipient {
        Err(VerificationError::WrongRecipient)
    } else if payload_amount(ins.data) != amount {
        Err(VerificationError::WrongAmount)
    } else {
        Ok(())
    }
}

/// The native transfer facility's identity as an account key.
pub fn native_transfer_facility_key() -> (r: Pubkey)
    ensures
        r@ == native_transfer_facility_id(),
{
    let bytes: [u8; 32] = [0u8; 32];
    proof {
        assert(bytes@ =~= native_transfer_facility_id());
    }
    Pubkey { bytes }
}

/// Checks that the instruction at slot 0 of the record is a native transfer
/// of exactly `amount` to `recipient`. The record must be non-empty; the
/// environment guarantees that before the verifier is reached.
pub fn verify_transfer_instruction(
    record: &IntrospectionRecord,
    recipient: &Pubkey,
    amount: u64,
) -> (r: Result<(), VerificationError>)
    requires
        record@.len() >= 1,
    ensures
        r == expected_verdict(record@[0], recipient@, amount),
        r is Ok <==> is_valid_transfer_proof(record@[0], recipient@, amount),
{
    let instruction = &record.instructions[0];
    proof {
        assert(record@[0] == instruction@);
    }

    // Origin check: the instruction must target the native transfer facility.
    let facility = native_transfer_facility_key();
    if !instruction.origin_id.eq_key(&facility) {
        return Err(VerificationError::WrongOrigin);
    }

    // Length check: 4-byte discriminator plus 8-byte amount.
    if instruction.data.len() < 12 {
        return Err(VerificationError::MalformedPayload);
    }

    // Discriminator check: the payload must begin with the transfer kind.
    let d0 = instruction.data[0];
    let d1 = instruction.data[1];
    let d2 = instruction.data[2];
    let d3 = instruction.data[3];
    if d0 != 2 || d1 != 0 || d2 != 0 || d3 != 0 {
        proof {
            let sub = instruction@.data.subrange(0, 4);
            assert(sub[0] == d0 && sub[1] == d1 && sub[2] == d2 && sub[3] == d3);
            assert(transfer_discriminator()[0] == 2);
            assert(transfer_discriminator()[1] == 0);
            assert(transfer_discriminator()[2] == 0);
            assert(transfer_discriminator()[3] == 0);
            assert(sub != transfer_discriminator());
        }
        return Err(VerificationError::WrongOrigin);
    }
    proof {
        assert(instruction@.data.subrange(0, 4) =~= transfer_discriminator());
    }

    // Recipient check: the facility places the recipient second; the payer
    // (first account) is intentionally never checked.
    if instruction.accounts.len() < 2 {
        return Err(VerificationError::WrongRecipient);
    }
    proof {
        assert(instruction@.accounts[1] == instruction.accounts@[1]@);
    }
    if !instruction.accounts[1].eq_key(recipient) {
        return Err(VerificationError::WrongRecipient);
    }

    // Amount check: exact equality, no tolerance.
    let payload = vstd::slice::slice_subrange(instruction.data.as_slice(), 4, 12);
    let instruction_amount = vstd::bytes::u64_from_le_bytes(payload);
    if instruction_amount != amount {
        return Err(VerificationError::WrongAmount);
    }

    Ok(())
}

/// A well-formed native transfer whose recipient and amount both match the
/// claim is accepted.
pub proof fn lemma_accepts_valid_transfer(ins: InstructionView, recipient: Seq<u8>, amount: u64)
    requires
        is_valid_transfer_proof(ins, recipient, amount),
    ensures
        expected_verdict(ins, recipient, amount) == Ok::<(), VerificationError>(()),
{
}

/// An instruction whose origin identity is not the native transfer
/// facility's is rejected as `WrongOrigin`, whatever its payload holds.
pub proof fn lemma_rejects_wrong_origin(ins: InstructionView, recipient: Seq<u8>, amount: u64)
    requires
        ins.origin_id != native_transfer_facility_id(),
    ensures
        expected_verdict(ins, recipient, amount) == Err::<(), VerificationError>(
            VerificationError::WrongOrigin,
        ),
{
}

/// A payload shorter than 12 bytes is rejected as `MalformedPayload`, even
/// when the origin identity matches.
pub proof fn lemma_rejects_short_payload(ins: InstructionView, recipient: Seq<u8>, amount: u64)
    requires
        ins.origin_id == native_transfer_facility_id(),
        ins.data.len() < 12,
    ensures
        expected_verdict(ins, recipient, amount) == Err::<(), VerificationError>(
            VerificationError::MalformedPayload,
        ),
{
}

/// A full-length payload whose discriminator is not the transfer kind is
/// rejected as `WrongOrigin`: it is not the transfer we expect.
pub proof fn lemma_rejects_wrong_discriminator(
    ins: InstructionView,
    recipient: Seq<u8>,
    amount: u64,
)
    requires
        ins.origin_id == native_transfer_facility_id(),
        ins.data.len() >= 12,
        ins.data.subrange(0, 4) != transfer_discriminator(),
    ensures
        expected_verdict(ins, recipient, amount) == Err::<(), VerificationError>(
            VerificationError::WrongOrigin,
        ),
{
}

/// A transfer instruction with fewer than two accounts, or whose second
/// account is not the expected recipient, is rejected as `WrongRecipient`,
/// independent of the amount.
pub proof fn lemma_rejects_wrong_recipient(ins: InstructionView, recipient: Seq<u8>, amount: u64)
    requires
        ins.origin_id == native_transfer_facility_id(),
        ins.data.len() >= 12,
        ins.data.subrange(0, 4) == transfer_discriminator(),
        ins.accounts.len() < 2 || ins.accounts[1] != recipient,
    ensures
        expected_verdict(ins, recipient, amount) == Err::<(), VerificationError>(
            VerificationError::WrongRecipient,
        ),
{
}

/// A transfer to the right recipient whose decoded amount differs from the
/// claim is rejected as `WrongAmount`; equality is exact, with no tolerance.
pub proof fn lemma_rejects_wrong_amount(ins: InstructionView, recipient: Seq<u8>, amount: u64)
    requires
        ins.origin_id == native_transfer_facility_id(),
        ins.data.len() >= 12,
        ins.data.subrange(0, 4) == transfer_discriminator(),
        ins.accounts.len() >= 2,
        ins.accounts[1] == recipient,
        payload_amount(ins.data) != amount,
    ensures
        expected_verdict(ins, recipient, amount) == Err::<(), VerificationError>(
            VerificationError::WrongAmount,
        ),
{
}

/// Verification is deterministic: two runs over the same unchanged record
/// and claim reach the same verdict.
pub proof fn lemma_verify_idempotent(
    r1: Result<(), VerificationError>,
    r2: Result<(), VerificationError>,
    ins: InstructionView,
    recipient: Seq<u8>,
    amount: u64,
)
    requires
        r1 == expected_verdict(ins, recipient, amount),
        r2 == expected_verdict(ins, recipient, amount),
    ensures
        r1 == r2,
{
}

} // verus!
