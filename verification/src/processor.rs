//! The record manager: creating and updating a record in its storage slot,
//! after the size, signature, address, ownership and initialization checks.
//! The first failing check aborts the operation with its error and the slot is
//! left unchanged; atomicity across an aborted host call is the host's own
//! guarantee.

use crate::codec::{bytes_eq, copy_bytes, parse_str_at};
use crate::error::StudentIntroError;
use crate::instruction::{spec_unpack, Command, StudentIntroInstruction};
use crate::pda::spec_derive;
use crate::state::{
    lemma_blank_slot_reads_uninitialized, spec_parse_record, spec_serialize_record,
    spec_total_len, RecordModel, StudentIntroState,
};
use crate::RECORD_CAPACITY;
use vstd::prelude::*;

verus! {

/// The acting identity as the host hands it over: its 32-byte public key and
/// whether it supplied a verified signature for this call.
#[derive(Clone, Debug, PartialEq, Eq)]
pub struct SignerInfo {
    pub key: Vec<u8>,
    pub is_signer: bool,
}

/// One storage slot as the host hands it over: its 32-byte address, the
/// 32-byte key of the program that owns it, and its fixed-capacity byte
/// buffer, all zeros while no record was ever written.
#[derive(Clone, Debug, PartialEq, Eq)]
pub struct AccountSlot {
    pub address: Vec<u8>,
    pub owner: Vec<u8>,
    pub data: Vec<u8>,
}

/// What a create answers, by the first failing check: the record must fit the
/// slot, the identity must have signed, an address must be derivable and must
/// equal the slot's, the external allocator must have granted the slot, the
/// slot's bytes must read back as a record, and that record must not already
/// be initialized.
pub open spec fn spec_create_outcome(
    program_id: Seq<u8>,
    signer_key: Seq<u8>,
    is_signer: bool,
    slot_address: Seq<u8>,
    slot_data: Seq<u8>,
    allocation_granted: bool,
    name: Seq<u8>,
    message: Seq<u8>,
) -> Result<(), StudentIntroError> {
    if spec_total_len(name, message) > RECORD_CAPACITY as int {
        Err(StudentIntroError::DataTooLarge)
    } else if !is_signer {
        Err(StudentIntroError::MissingSignature)
    } else {
        match spec_derive(signer_key, program_id) {
            None => Err(StudentIntroError::DerivationExhausted),
            Some(derived) => if derived.0 != slot_address {
                Err(StudentIntroError::AddressMismatch)
            } else if !allocation_granted {
                Err(StudentIntroError::AllocationFailed)
            } else {
                match spec_parse_record(slot_data) {
                    None => Err(StudentIntroError::MalformedRecord),
                    Some(rec) => if rec.initialized {
                        Err(StudentIntroError::AlreadyInitialized)
                    } else {
                        Ok(())
                    },
                }
            },
        }
    }
}

/// What an update answers, by the first failing check: the record must fit
/// the slot, the payer must have signed, the slot must be owned by this
/// program, and the slot must already hold an initialized record. No address
/// re-derivation happens here: ownership plus signature is all an update asks.
pub open spec fn spec_update_outcome(
    program_id: Seq<u8>,
    is_signer: bool,
    slot_owner: Seq<u8>,
    slot_data: Seq<u8>,
    name: Seq<u8>,
    message: Seq<u8>,
) -> Result<(), StudentIntroError> {
    if spec_total_len(name, message) > RECORD_CAPACITY as int {
        Err(StudentIntroError::DataTooLarge)
    } else if !is_signer {
        Err(StudentIntroError::MissingSignature)
    } else if slot_owner != program_id {
        Err(StudentIntroError::IllegalOwner)
    } else {
        match spec_parse_record(slot_data) {
            None => Err(StudentIntroError::MalformedRecord),
            Some(rec) => if !rec.initialized {
                Err(StudentIntroError::UninitializedRecord)
            } else {
                Ok(())
            },
        }
    }
}

/// The slot buffer after a successful write: the serialized record, then the
/// prior bytes beyond it, untouched.
pub open spec fn spec_slot_data_after(slot_data: Seq<u8>, name: Seq<u8>, message: Seq<u8>) -> Seq<
    u8,
> {
    spec_serialize_record(RecordModel { initialized: true, name, message }) + slot_data.skip(
        spec_total_len(name, message),
    )
}

/// Reads a record out of a slot buffer without requiring that the buffer be
/// fully consumed, so the zero padding after the record is ignored. Fails
/// with `MalformedRecord` where the buffer is shorter than the fields it
/// declares or the flag byte is not `0` or `1`.
pub fn my_try_from_slice_unchecked(data: &Vec<u8>) -> (r: Result<
    StudentIntroState,
    StudentIntroError,
>)
    ensures
        (r matches Ok(rec) ==> spec_parse_record(data@) == Some(rec@)),
        (r matches Err(e) ==> spec_parse_record(data@) is None && e
            == StudentIntroError::MalformedRecord),
{
    if data.len() < 1 {
        return Err(StudentIntroError::MalformedRecord);
    }
    let flag = data[0];
    if flag != 0 && flag != 1 {
        return Err(StudentIntroError::MalformedRecord);
    }
    let (name, j) = match parse_str_at(data, 1) {
        Some(p) => p,
        None => {
            return Err(StudentIntroError::MalformedRecord);
        },
    };
    let (message, _) = match parse_str_at(data, j) {
        Some(p) => p,
        None => {
            return Err(StudentIntroError::MalformedRecord);
        },
    };
    Ok(StudentIntroState { is_initialized: flag == 1, name, message })
}

/// Writes the serialized record over the front of the slot buffer, leaving
/// the bytes beyond it as they were.
fn store_record(record: &StudentIntroState, slot_data: &mut Vec<u8>)
    requires
        record@.wf(),
        record@.total_len() <= old(slot_data)@.len(),
    ensures
        final(slot_data)@ == spec_serialize_record(record@) + old(slot_data)@.skip(
            record@.total_len(),
        ),
{
    let mut new_data = record.serialize();
    let mut j: usize = new_data.len();
    while j < slot_data.len()
        invariant
            record@.total_len() <= j <= slot_data@.len(),
            slot_data@ == old(slot_data)@,
            new_data@ == spec_serialize_record(record@) + slot_data@.subrange(
                record@.total_len(),
                j as int,
            ),
        decreases slot_data@.len() - j,
    {
        new_data.push(slot_data[j]);
        assert(new_data@ =~= spec_serialize_record(record@) + slot_data@.subrange(
            record@.total_len(),
            j + 1 as int,
        ));
        j += 1;
    }
    assert(new_data@ =~= spec_serialize_record(record@) + slot_data@.skip(record@.total_len()));
    *slot_data = new_data;
}

/// Creates the record for the acting identity in its slot. The checks, their
/// order and their errors are exactly `spec_create_outcome`; a failing create
/// leaves the slot as it was, and a successful one hands the slot to this
/// program and writes the record, leaving the padding beyond it untouched.
///
/// The external allocation primitive reserves the slot and funds its rent;
/// the host performs that call and passes its verdict in
/// `allocation_granted`.
pub fn add_intro(
    program_id: &Vec<u8>,
    initializer: &SignerInfo,
    pda_account: &mut AccountSlot,
    allocation_granted: bool,
    name: Vec<u8>,
    message: Vec<u8>,
) -> (r: Result<(), StudentIntroError>)
    requires
        program_id@.len() == 32,
        initializer.key@.len() == 32,
        old(pda_account).data@.len() == RECORD_CAPACITY as int,
    ensures
        r == spec_create_outcome(
            program_id@,
            initializer.key@,
            initializer.is_signer,
            old(pda_account).address@,
            old(pda_account).data@,
            allocation_granted,
            name@,
            message@,
        ),
        (r is Err ==> *final(pda_account) == *old(pda_account)),
        (r is Ok ==> final(pda_account).address@ == old(pda_account).address@ && final(pda_account).owner@ == program_id@ && final(pda_account).data@ == spec_slot_data_after(
            old(pda_account).data@,
            name@,
            message@,
        )),
{
    if name.len() > RECORD_CAPACITY || message.len() > RECORD_CAPACITY {
        return Err(StudentIntroError::DataTooLarge);
    }
    let total_len = 1 + (4 + name.len()) + (4 + message.len());
    if total_len > RECORD_CAPACITY {
        return Err(StudentIntroError::DataTooLarge);
    }
    if !initializer.is_signer {
        return Err(StudentIntroError::MissingSignature);
    }
    let (derived_address, _adjustment) = match crate::pda::derive(&initializer.key, program_id) {
        Ok(p) => p,
        Err(e) => {
            return Err(e);
        },
    };
    if !bytes_eq(&derived_address, &pda_account.address) {
        return Err(StudentIntroError::AddressMismatch);
    }
    if !allocation_granted {
        return Err(StudentIntroError::AllocationFailed);
    }
    let existing = match my_try_from_slice_unchecked(&pda_account.data) {
        Ok(rec) => rec,
        Err(e) => {
            return Err(e);
        },
    };
    if existing.is_initialized() {
        return Err(StudentIntroError::AlreadyInitialized);
    }
    let record = StudentIntroState { is_initialized: true, name, message };
    store_record(&record, &mut pda_account.data);
    pda_account.owner = copy_bytes(program_id);
    Ok(())
}

/// Replaces the record's name and message in an already created slot. The
/// checks, their order and their errors are exactly `spec_update_outcome`; a
/// failing update leaves the slot as it was, and a successful one keeps the
/// slot's address, owner and initialization.
pub fn update_intro(
    program_id: &Vec<u8>,
    payer: &SignerInfo,
    pda_account: &mut AccountSlot,
    name: Vec<u8>,
    message: Vec<u8>,
) -> (r: Result<(), StudentIntroError>)
    requires
        old(pda_account).data@.len() == RECORD_CAPACITY as int,
    ensures
        r == spec_update_outcome(
            program_id@,
            payer.is_signer,
            old(pda_account).owner@,
            old(pda_account).data@,
            name@,
            message@,
        ),
        (r is Err ==> *final(pda_account) == *old(pda_account)),
        (r is Ok ==> final(pda_account).address@ == old(pda_account).address@ && final(pda_account).owner@ == old(pda_account).owner@ && final(pda_account).data@ == spec_slot_data_after(
            old(pda_account).data@,
            name@,
            message@,
        )),
{
    if name.len() > RECORD_CAPACITY || message.len() > RECORD_CAPACITY {
        return Err(StudentIntroError::DataTooLarge);
    }
    let total_len = 1 + (4 + name.len()) + (4 + message.len());
    if total_len > RECORD_CAPACITY {
        return Err(StudentIntroError::DataTooLarge);
    }
    if !payer.is_signer {
        return Err(StudentIntroError::MissingSignature);
    }
    if !bytes_eq(&pda_account.owner, program_id) {
        return Err(StudentIntroError::IllegalOwner);
    }
    let existing = match my_try_from_slice_unchecked(&pda_account.data) {
        Ok(rec) => rec,
        Err(e) => {
            return Err(e);
        },
    };
    if !existing.is_initialized() {
        return Err(StudentIntroError::UninitializedRecord);
    }
    let record = StudentIntroState { is_initialized: true, name, message };
    store_record(&record, &mut pda_account.data);
    Ok(())
}

/// The entry of the record store: decodes the instruction bytes and runs the
/// command they carry against the given identity and slot. Decoding errors
/// leave the slot untouched; a decoded command behaves exactly as `add_intro`
/// or `update_intro` says.
pub fn process_instrcution(
    program_id: &Vec<u8>,
    initializer: &SignerInfo,
    pda_account: &mut AccountSlot,
    allocation_granted: bool,
    data: &Vec<u8>,
) -> (r: Result<(), StudentIntroError>)
    requires
        program_id@.len() == 32,
        initializer.key@.len() == 32,
        old(pda_account).data@.len() == RECORD_CAPACITY as int,
    ensures
        (spec_unpack(data@) matches Err(e) ==> r == Err::<(), StudentIntroError>(e) && *final(pda_account) == *old(pda_account)),
        (spec_unpack(data@) matches Ok(c) ==> match c {
            Command::Create { name, message } => {
                &&& r == spec_create_outcome(
                    program_id@,
                    initializer.key@,
                    initializer.is_signer,
                    old(pda_account).address@,
                    old(pda_account).data@,
                    allocation_granted,
                    name,
                    message,
                )
                &&& (r is Err ==> *final(pda_account) == *old(pda_account))
                &&& (r is Ok ==> final(pda_account).address@ == old(pda_account).address@ && final(pda_account).owner@ == program_id@ && final(pda_account).data@ == spec_slot_data_after(
                    old(pda_account).data@,
                    name,
                    message,
                ))
            },
            Command::Update { name, message } => {
                &&& r == spec_update_outcome(
                    program_id@,
                    initializer.is_signer,
                    old(pda_account).owner@,
                    old(pda_account).data@,
                    name,
                    message,
                )
                &&& (r is Err ==> *final(pda_account) == *old(pda_account))
                &&& (r is Ok ==> final(pda_account).address@ == old(pda_account).address@ && final(pda_account).owner@ == old(pda_account).owner@ && final(pda_account).data@
                    == spec_slot_data_after(old(pda_account).data@, name, message))
            },
        }),
{
    let instruction = match StudentIntroInstruction::unpack(data) {
        Ok(instruction) => instruction,
        Err(e) => {
            return Err(e);
        },
    };
    match instruction {
        StudentIntroInstruction::AddIntro { name, message } => add_intro(
            program_id,
            initializer,
            pda_account,
            allocation_granted,
            name,
            message,
        ),
        StudentIntroInstruction::UpdateIntro { name, message } => update_intro(
            program_id,
            initializer,
            pda_account,
            name,
            message,
        ),
    }
}

/// A slot just written by a successful create or update reads back as exactly
/// the record that was stored: initialized, with the new name and message.
/// In particular a slot never reads back as uninitialized once a create
/// succeeded, whatever updates follow.
pub proof fn lemma_written_slot_reads_back(slot_data: Seq<u8>, name: Seq<u8>, message: Seq<u8>)
    requires
        spec_total_len(name, message) <= RECORD_CAPACITY as int,
    ensures
        spec_parse_record(spec_slot_data_after(slot_data, name, message)) == Some(
            RecordModel { initialized: true, name, message },
        ),
{
    crate::state::lemma_record_round_trip(
        RecordModel { initialized: true, name, message },
        slot_data.skip(spec_total_len(name, message)),
    );
}

/// A record too large for its slot is refused with `DataTooLarge`, by create
/// and by update alike, whatever the other inputs; the operations' own
/// contracts add that a refused slot is unchanged.
pub proof fn lemma_oversize_is_rejected(
    program_id: Seq<u8>,
    signer_key: Seq<u8>,
    is_signer: bool,
    slot_address: Seq<u8>,
    slot_owner: Seq<u8>,
    slot_data: Seq<u8>,
    allocation_granted: bool,
    name: Seq<u8>,
    message: Seq<u8>,
)
    requires
        spec_total_len(name, message) > RECORD_CAPACITY as int,
    ensures
        spec_create_outcome(
            program_id,
            signer_key,
            is_signer,
            slot_address,
            slot_data,
            allocation_granted,
            name,
            message,
        ) == Err::<(), StudentIntroError>(StudentIntroError::DataTooLarge),
        spec_update_outcome(program_id, is_signer, slot_owner, slot_data, name, message) == Err::<
            (),
            StudentIntroError,
        >(StudentIntroError::DataTooLarge),
{
}

/// A create without the acting identity's signature is refused with
/// `MissingSignature`, whatever the slot, allocator or payload; only a record
/// too large for the slot is reported sooner.
pub proof fn lemma_unsigned_create_is_rejected(
    program_id: Seq<u8>,
    signer_key: Seq<u8>,
    slot_address: Seq<u8>,
    slot_data: Seq<u8>,
    allocation_granted: bool,
    name: Seq<u8>,
    message: Seq<u8>,
)
    requires
        spec_total_len(name, message) <= RECORD_CAPACITY as int,
    ensures
        spec_create_outcome(
            program_id,
            signer_key,
            false,
            slot_address,
            slot_data,
            allocation_granted,
            name,
            message,
        ) == Err::<(), StudentIntroError>(StudentIntroError::MissingSignature),
{
}

/// A create aimed at a slot whose address is not the one derived from the
/// acting identity is refused with `AddressMismatch`.
pub proof fn lemma_wrong_address_is_rejected(
    program_id: Seq<u8>,
    signer_key: Seq<u8>,
    slot_address: Seq<u8>,
    slot_data: Seq<u8>,
    allocation_granted: bool,
    name: Seq<u8>,
    message: Seq<u8>,
)
    requires
        spec_total_len(name, message) <= RECORD_CAPACITY as int,
        spec_derive(signer_key, program_id) matches Some(derived) && derived.0 != slot_address,
    ensures
        spec_create_outcome(
            program_id,
            signer_key,
            true,
            slot_address,
            slot_data,
            allocation_granted,
            name,
            message,
        ) == Err::<(), StudentIntroError>(StudentIntroError::AddressMismatch),
{
}

/// A create on a slot that already holds an initialized record, at the
/// correct derived address and with the allocation granted, is refused with
/// `AlreadyInitialized`; since a refused create leaves the slot unchanged,
/// the stored name and message remain readable afterwards.
pub proof fn lemma_create_on_initialized_slot_is_rejected(
    program_id: Seq<u8>,
    signer_key: Seq<u8>,
    slot_address: Seq<u8>,
    slot_data: Seq<u8>,
    name: Seq<u8>,
    message: Seq<u8>,
)
    requires
        spec_total_len(name, message) <= RECORD_CAPACITY as int,
        spec_derive(signer_key, program_id) matches Some(derived) && derived.0 == slot_address,
        spec_parse_record(slot_data) matches Some(rec) && rec.initialized,
    ensures
        spec_create_outcome(
            program_id,
            signer_key,
            true,
            slot_address,
            slot_data,
            true,
            name,
            message,
        ) == Err::<(), StudentIntroError>(StudentIntroError::AlreadyInitialized),
{
}

/// An update aimed at a slot that was never created — its buffer still all
/// zeros — is refused with `UninitializedRecord`, even when the payer signed
/// and the slot is owned by this program.
pub proof fn lemma_update_before_create_is_rejected(
    program_id: Seq<u8>,
    slot_data: Seq<u8>,
    name: Seq<u8>,
    message: Seq<u8>,
)
    requires
        spec_total_len(name, message) <= RECORD_CAPACITY as int,
        slot_data.len() >= 9,
        forall|i: int| 0 <= i < slot_data.len() ==> slot_data[i] == 0,
    ensures
        spec_update_outcome(program_id, true, program_id, slot_data, name, message) == Err::<
            (),
            StudentIntroError,
        >(StudentIntroError::UninitializedRecord),
{
    lemma_blank_slot_reads_uninitialized(slot_data);
}

} // verus!
