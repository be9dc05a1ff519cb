//! The instruction decoder: byte 0 is the opcode (`0` creates a record, `1`
//! updates one); the rest is a payload of two length-prefixed strings, which
//! must be consumed exactly.

use crate::codec::{parse_str_at, spec_parse_str};
use crate::error::StudentIntroError;
use vstd::prelude::*;

verus! {

/// The mathematical value of a decoded command.
#[verifier::ext_equal]
pub enum Command {
    Create { name: Seq<u8>, message: Seq<u8> },
    Update { name: Seq<u8>, message: Seq<u8> },
}

/// The payload after the opcode byte: a name and a message, each length
/// prefixed, filling the remaining bytes exactly.
pub open spec fn spec_parse_payload(b: Seq<u8>, i: int) -> Option<(Seq<u8>, Seq<u8>)>
    recommends
        0 <= i <= b.len(),
{
    match spec_parse_str(b, i) {
        None => None,
        Some((name, j)) => match spec_parse_str(b, j) {
            None => None,
            Some((message, k)) => if k == b.len() {
                Some((name, message))
            } else {
                None
            },
        },
    }
}

/// What decoding an instruction buffer yields: the first failing check wins,
/// in the order empty buffer, malformed payload, unknown opcode.
pub open spec fn spec_unpack(b: Seq<u8>) -> Result<Command, StudentIntroError> {
    if b.len() == 0 {
        Err(StudentIntroError::EmptyInstruction)
    } else {
        match spec_parse_payload(b, 1) {
            None => Err(StudentIntroError::MalformedPayload),
            Some((name, message)) => if b[0] == 0 {
                Ok(Command::Create { name, message })
            } else if b[0] == 1 {
                Ok(Command::Update { name, message })
            } else {
                Err(StudentIntroError::UnknownOpcode)
            },
        }
    }
}

/// A decoded command: create a record or update one, with the name and
/// message to store.
#[derive(Clone, Debug, PartialEq, Eq)]
pub enum StudentIntroInstruction {
    AddIntro { name: Vec<u8>, message: Vec<u8> },
    UpdateIntro { name: Vec<u8>, message: Vec<u8> },
}

impl View for StudentIntroInstruction {
    type V = Command;

    open spec fn view(&self) -> Command {
        match self {
            StudentIntroInstruction::AddIntro { name, message } => Command::Create {
                name: name@,
                message: message@,
            },
            StudentIntroInstruction::UpdateIntro { name, message } => Command::Update {
                name: name@,
                message: message@,
            },
        }
    }
}

impl StudentIntroInstruction {
    /// Decodes an instruction buffer, exactly as `spec_unpack` describes.
    pub fn unpack(input: &Vec<u8>) -> (r: Result<Self, StudentIntroError>)
        ensures
            (r matches Ok(inst) ==> spec_unpack(input@) == Ok::<Command, StudentIntroError>(
                inst@,
            )),
            (r matches Err(e) ==> spec_unpack(input@) == Err::<Command, StudentIntroError>(e)),
    {
        if input.len() == 0 {
            return Err(StudentIntroError::EmptyInstruction);
        }
        let (name, j) = match parse_str_at(input, 1) {
            Some(p) => p,
            None => {
                return Err(StudentIntroError::MalformedPayload);
            },
        };
        let (message, k) = match parse_str_at(input, j) {
            Some(p) => p,
            None => {
                return Err(StudentIntroError::MalformedPayload);
            },
        };
        if k != input.len() {
            return Err(StudentIntroError::MalformedPayload);
        }
        let opcode = input[0];
        if opcode == 0 {
            Ok(StudentIntroInstruction::AddIntro { name, message })
        } else if opcode == 1 {
            Ok(StudentIntroInstruction::UpdateIntro { name, message })
        } else {
            Err(StudentIntroError::UnknownOpcode)
        }
    }
}

} // verus!
