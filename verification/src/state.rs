//! The stored record and its fixed binary layout: one initialization byte
//! (`0` or `1`), then the name and the message, each as a length-prefixed
//! string. A slot that was never written is all zeros and reads back as an
//! uninitialized record with empty strings.

use crate::codec::{
    le32_at, lemma_parse_encoded_str, push_bytes, push_le32, spec_encode_str, spec_le32,
    spec_parse_str,
};
use crate::RECORD_CAPACITY;
use vstd::prelude::*;

verus! {

/// The mathematical value of a record: the initialization flag and the two
/// strings, held as their bytes.
#[verifier::ext_equal]
pub struct RecordModel {
    pub initialized: bool,
    pub name: Seq<u8>,
    pub message: Seq<u8>,
}

impl RecordModel {
    /// The serialized width: one flag byte and two length-prefixed strings.
    pub open spec fn total_len(self) -> int {
        spec_total_len(self.name, self.message)
    }

    /// A record is well formed when it fits in one storage slot.
    pub open spec fn wf(self) -> bool {
        self.total_len() <= RECORD_CAPACITY as int
    }
}

/// The serialized width of a record holding these two strings.
pub open spec fn spec_total_len(name: Seq<u8>, message: Seq<u8>) -> int {
    1 + (4 + name.len() as int) + (4 + message.len() as int)
}

/// The serialized bytes of a record.
pub open spec fn spec_serialize_record(m: RecordModel) -> Seq<u8>
    recommends
        m.wf(),
{
    seq![if m.initialized { 1u8 } else { 0u8 }] + spec_encode_str(m.name) + spec_encode_str(
        m.message,
    )
}

/// Reading a record back from a buffer: the flag byte must be `0` or `1` and
/// both strings must lie inside the buffer; trailing bytes are ignored.
pub open spec fn spec_parse_record(b: Seq<u8>) -> Option<RecordModel> {
    if b.len() < 1 {
        None
    } else if b[0] != 0 && b[0] != 1 {
        None
    } else {
        match spec_parse_str(b, 1) {
            None => None,
            Some((name, j)) => match spec_parse_str(b, j) {
                None => None,
                Some((message, _)) => Some(
                    RecordModel { initialized: b[0] == 1, name, message },
                ),
            },
        }
    }
}

/// The persisted record: whether it was ever created, and its two strings,
/// held as their bytes.
#[derive(Clone, Debug, PartialEq, Eq)]
pub struct StudentIntroState {
    pub is_initialized: bool,
    pub name: Vec<u8>,
    pub message: Vec<u8>,
}

impl View for StudentIntroState {
    type V = RecordModel;

    open spec fn view(&self) -> RecordModel {
        RecordModel { initialized: self.is_initialized, name: self.name@, message: self.message@ }
    }
}

impl StudentIntroState {
    /// Whether the record was ever created.
    pub fn is_initialized(&self) -> (r: bool)
        ensures
            r == self@.initialized,
    {
        self.is_initialized
    }

    /// Writes the record to its serialized form: flag byte, then the two
    /// length-prefixed strings.
    pub fn serialize(&self) -> (out: Vec<u8>)
        requires
            self@.wf(),
        ensures
            out@ == spec_serialize_record(self@),
            out@.len() == self@.total_len(),
    {
        let mut out: Vec<u8> = Vec::new();
        out.push(if self.is_initialized { 1 } else { 0 });
        push_le32(&mut out, self.name.len() as u32);
        push_bytes(&mut out, &self.name);
        push_le32(&mut out, self.message.len() as u32);
        push_bytes(&mut out, &self.message);
        proof {
            assert(out@ =~= spec_serialize_record(self@));
        }
        out
    }
}

/// Serialization and deserialization are exact inverses: any well-formed
/// record written to a buffer reads back as itself, whatever bytes follow it.
pub proof fn lemma_record_round_trip(m: RecordModel, tail: Seq<u8>)
    requires
        m.wf(),
    ensures
        spec_parse_record(spec_serialize_record(m) + tail) == Some(m),
        spec_parse_record(spec_serialize_record(m)) == Some(m),
{
    lemma_record_round_trip_with_tail(m, tail);
    lemma_record_round_trip_with_tail(m, Seq::empty());
    assert(spec_serialize_record(m) + Seq::<u8>::empty() =~= spec_serialize_record(m));
}

/// The round trip for one given tail.
proof fn lemma_record_round_trip_with_tail(m: RecordModel, tail: Seq<u8>)
    requires
        m.wf(),
    ensures
        spec_parse_record(spec_serialize_record(m) + tail) == Some(m),
{
    let b = spec_serialize_record(m) + tail;
    let nl = m.name.len() as int;
    let ml = m.message.len() as int;
    assert(b[0] == if m.initialized { 1u8 } else { 0u8 });
    assert(b.subrange(1, 5) =~= spec_le32(m.name.len() as u32));
    assert(b.subrange(5, 5 + nl) =~= m.name);
    lemma_parse_encoded_str(b, 1, m.name);
    assert(b.subrange(5 + nl, 9 + nl) =~= spec_le32(m.message.len() as u32));
    assert(b.subrange(9 + nl, 9 + nl + ml) =~= m.message);
    lemma_parse_encoded_str(b, 5 + nl, m.message);
    assert((b[0] == 1) == m.initialized);
    assert(spec_parse_record(b) matches Some(r) && r =~= m);
}

/// A buffer of zeros — a slot that was never written — reads back as an
/// uninitialized record with empty name and message.
pub proof fn lemma_blank_slot_reads_uninitialized(b: Seq<u8>)
    requires
        b.len() >= 9,
        forall|i: int| 0 <= i < b.len() ==> b[i] == 0,
    ensures
        spec_parse_record(b) == Some(
            RecordModel { initialized: false, name: Seq::empty(), message: Seq::empty() },
        ),
{
    assert(le32_at(b, 1) == 0) by {
        assert((0u32 | (0u32 << 8) | (0u32 << 16) | (0u32 << 24)) == 0) by (bit_vector);
    }
    assert(b.subrange(5, 5) =~= Seq::<u8>::empty());
    assert(spec_parse_str(b, 1) == Some((Seq::<u8>::empty(), 5int)));
    assert(le32_at(b, 5) == 0) by {
        assert((0u32 | (0u32 << 8) | (0u32 << 16) | (0u32 << 24)) == 0) by (bit_vector);
    }
    assert(b.subrange(9, 9) =~= Seq::<u8>::empty());
    assert(spec_parse_str(b, 5) == Some((Seq::<u8>::empty(), 9int)));
}

} // verus!
