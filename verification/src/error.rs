//! The failure codes of the record store. Every operation reports its first
//! failing check through one of these and leaves the slot unchanged.

use vstd::prelude::*;

verus! {

/// One code per way an operation can fail. The host maps these to its own
/// error space; the mapping is part of the external contract and stays stable.
#[derive(Clone, Copy, Debug, PartialEq, Eq, Structural)]
pub enum StudentIntroError {
    /// The instruction buffer is empty: no opcode byte.
    EmptyInstruction,
    /// The opcode byte is not a known command.
    UnknownOpcode,
    /// The instruction payload is not a well-formed pair of length-prefixed strings.
    MalformedPayload,
    /// The record would serialize to more than `RECORD_CAPACITY` bytes.
    DataTooLarge,
    /// The acting identity did not sign the operation.
    MissingSignature,
    /// The target slot is not at the address derived from the acting identity.
    AddressMismatch,
    /// The target slot is not owned by this program's namespace.
    IllegalOwner,
    /// A create was attempted on a slot that already holds a record.
    AlreadyInitialized,
    /// An update was attempted on a slot that never held a record.
    UninitializedRecord,
    /// The external allocation primitive refused to reserve the slot.
    AllocationFailed,
    /// No adjustment byte yields an address outside the reserved subspace.
    DerivationExhausted,
    /// The slot's bytes are not a well-formed serialized record.
    MalformedRecord,
}

} // verus!
