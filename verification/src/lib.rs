//! Proof-of-payment checks over an atomic batch's introspection record.
//!
//! The verifier reads the sibling instruction at slot 0 of the record,
//! recognizes a native transfer by its origin identity and its payload
//! discriminator, and accepts it only when the transfer's recipient and
//! amount match the caller's claim exactly.

pub mod instruction;
pub mod verify;

pub use instruction::IntrospectionRecord;
pub use instruction::Pubkey;
pub use instruction::SiblingInstruction;
pub use verify::VerificationError;
pub use verify::native_transfer_facility_key;
pub use verify::verify_transfer_instruction;
