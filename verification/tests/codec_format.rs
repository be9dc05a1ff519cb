//! The byte format: the record layout, the instruction layout, and their
//! agreement with the borsh encoding the host ecosystem uses.

use student_intro::error::StudentIntroError;
use student_intro::instruction::StudentIntroInstruction;
use student_intro::processor::my_try_from_slice_unchecked;
use student_intro::state::StudentIntroState;
use student_intro::RECORD_CAPACITY;

fn encode_str(s: &[u8]) -> Vec<u8> {
    let mut v = (s.len() as u32).to_le_bytes().to_vec();
    v.extend_from_slice(s);
    v
}

fn instruction_bytes(opcode: u8, name: &[u8], message: &[u8]) -> Vec<u8> {
    let mut v = vec![opcode];
    v.extend(encode_str(name));
    v.extend(encode_str(message));
    v
}

#[test]
fn record_serialize_matches_borsh() {
    let record = StudentIntroState {
        is_initialized: true,
        name: b"Ann".to_vec(),
        message: b"Hi".to_vec(),
    };
    let expected = borsh::to_vec(&(true, "Ann".to_string(), "Hi".to_string())).unwrap();
    assert_eq!(record.serialize(), expected);
}

#[test]
fn record_round_trip_exact() {
    let record = StudentIntroState {
        is_initialized: true,
        name: b"Ann".to_vec(),
        message: b"Hi".to_vec(),
    };
    let bytes = record.serialize();
    assert_eq!(bytes.len(), 1 + 4 + 3 + 4 + 2);
    let back = my_try_from_slice_unchecked(&bytes).unwrap();
    assert_eq!(back, record);
}

#[test]
fn record_round_trip_with_padding() {
    let record = StudentIntroState {
        is_initialized: false,
        name: b"a longer name with spaces".to_vec(),
        message: vec![0xff; 100],
    };
    let mut bytes = record.serialize();
    bytes.resize(RECORD_CAPACITY, 0);
    let back = my_try_from_slice_unchecked(&bytes).unwrap();
    assert_eq!(back, record);
}

#[test]
fn blank_slot_reads_uninitialized() {
    let blank = vec![0u8; RECORD_CAPACITY];
    let record = my_try_from_slice_unchecked(&blank).unwrap();
    assert_eq!(record.is_initialized, false);
    assert_eq!(record.name, Vec::<u8>::new());
    assert_eq!(record.message, Vec::<u8>::new());
}

#[test]
fn record_with_bad_flag_is_malformed() {
    let mut bytes = vec![0u8; RECORD_CAPACITY];
    bytes[0] = 2;
    assert_eq!(
        my_try_from_slice_unchecked(&bytes),
        Err(StudentIntroError::MalformedRecord)
    );
}

#[test]
fn record_with_overrunning_length_is_malformed() {
    let mut bytes = vec![0u8; RECORD_CAPACITY];
    bytes[1..5].copy_from_slice(&(2000u32).to_le_bytes());
    assert_eq!(
        my_try_from_slice_unchecked(&bytes),
        Err(StudentIntroError::MalformedRecord)
    );
}

#[test]
fn record_shorter_than_fixed_fields_is_malformed() {
    assert_eq!(
        my_try_from_slice_unchecked(&vec![1u8, 3, 0]),
        Err(StudentIntroError::MalformedRecord)
    );
}

#[test]
fn unpack_create_matches_borsh_payload() {
    let payload = borsh::to_vec(&("Ann".to_string(), "Hi".to_string())).unwrap();
    let mut bytes = vec![0u8];
    bytes.extend(payload);
    let decoded = StudentIntroInstruction::unpack(&bytes).unwrap();
    assert_eq!(
        decoded,
        StudentIntroInstruction::AddIntro { name: b"Ann".to_vec(), message: b"Hi".to_vec() }
    );
}

#[test]
fn unpack_update() {
    let bytes = instruction_bytes(1, b"Ann", b"Hello again");
    let decoded = StudentIntroInstruction::unpack(&bytes).unwrap();
    assert_eq!(
        decoded,
        StudentIntroInstruction::UpdateIntro {
            name: b"Ann".to_vec(),
            message: b"Hello again".to_vec(),
        }
    );
}

#[test]
fn unpack_empty_fails_empty_instruction() {
    assert_eq!(
        StudentIntroInstruction::unpack(&Vec::new()),
        Err(StudentIntroError::EmptyInstruction)
    );
}

#[test]
fn unpack_unknown_opcode() {
    let bytes = instruction_bytes(2, b"Ann", b"Hi");
    assert_eq!(
        StudentIntroInstruction::unpack(&bytes),
        Err(StudentIntroError::UnknownOpcode)
    );
}

#[test]
fn unpack_truncated_prefix_is_malformed() {
    assert_eq!(
        StudentIntroInstruction::unpack(&vec![0u8, 1, 2]),
        Err(StudentIntroError::MalformedPayload)
    );
}

#[test]
fn unpack_overrunning_string_is_malformed() {
    let mut bytes = vec![0u8];
    bytes.extend_from_slice(&(10u32).to_le_bytes());
    bytes.extend_from_slice(b"abc");
    assert_eq!(
        StudentIntroInstruction::unpack(&bytes),
        Err(StudentIntroError::MalformedPayload)
    );
}

#[test]
fn unpack_trailing_bytes_are_malformed() {
    let mut bytes = instruction_bytes(0, b"Ann", b"Hi");
    bytes.push(0);
    assert_eq!(
        StudentIntroInstruction::unpack(&bytes),
        Err(StudentIntroError::MalformedPayload)
    );
}

#[test]
fn unpack_opcode_alone_is_malformed() {
    assert_eq!(
        StudentIntroInstruction::unpack(&vec![2u8]),
        Err(StudentIntroError::MalformedPayload)
    );
}
