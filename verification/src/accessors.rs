//! The typed fields of the instrument: what the answer to each read means.
//!
//! Floating-point fields are handed over as the bits of the 32-bit IEEE-754
//! number that the instrument sent; `f32::from_bits` gives the number.

use crate::command::Command;
use crate::error::NsrtError;
use crate::exchange::{field_of, read_exchange, Exchange, Reply};
use crate::session::NSRT;
use crate::text::{decode_text, text_bytes, text_end, TEXT_LEN};
use crate::values::{SamplingFrequency, Weighting};
use crate::wire::{le_value, read_u16, read_u32, read_u64};
use vstd::prelude::*;
use vstd::utf8::{decode_utf8, valid_utf8};

verus! {

/// The 32-bit number that the answer to `command` holds.
pub open spec fn u32_field(command: Command, reply: Reply) -> Result<u32, NsrtError> {
    match field_of(reply, command.spec_reply_len() as nat) {
        Ok(field) => Ok(le_value(field) as u32),
        Err(error) => Err(error),
    }
}

/// The 64-bit number that the answer to `command` holds.
pub open spec fn u64_field(command: Command, reply: Reply) -> Result<u64, NsrtError> {
    match field_of(reply, command.spec_reply_len() as nat) {
        Ok(field) => Ok(le_value(field) as u64),
        Err(error) => Err(error),
    }
}

/// The weighting that an answer holds: its one byte has to be a
/// weighting's code.
pub open spec fn weighting_field(reply: Reply) -> Result<Weighting, NsrtError> {
    match field_of(reply, Command::ReadWeighting.spec_reply_len() as nat) {
        Ok(field) => match Weighting::spec_from_code(field[0]) {
            Some(weighting) => Ok(weighting),
            None => Err(NsrtError::InvalidResponse),
        },
        Err(error) => Err(error),
    }
}

/// The sampling frequency that an answer holds: its 16-bit number has to
/// be one of the instrument's frequencies, in hertz.
pub open spec fn sampling_frequency_field(reply: Reply) -> Result<SamplingFrequency, NsrtError> {
    match field_of(reply, Command::ReadFS.spec_reply_len() as nat) {
        Ok(field) => match SamplingFrequency::spec_from_hertz(le_value(field) as u16) {
            Some(frequency) => Ok(frequency),
            None => Err(NsrtError::InvalidResponse),
        },
        Err(error) => Err(error),
    }
}

/// Whether `result` is what the answer `reply` to a read of a text field
/// holds.  The text is what stands before the first NUL of the field's
/// [`TEXT_LEN`] bytes, as UTF-8.  A failed exchange gives its I/O error; an answer that
/// is too short or has no NUL in the field is an invalid response; text
/// that is not UTF-8 is a UTF-8 error.
pub open spec fn is_text_field(reply: Reply, result: Result<String, NsrtError>) -> bool {
    match result {
        Ok(text) => {
            &&& field_of(reply, TEXT_LEN as nat) matches Ok(field)
            &&& text_end(field) < TEXT_LEN
            &&& valid_utf8(text_bytes(field))
            &&& text@ == decode_utf8(text_bytes(field))
        },
        Err(NsrtError::IoError(error)) => reply == Err::<Vec<u8>, std::io::Error>(error),
        Err(NsrtError::InvalidResponse) => {
            &&& reply is Ok
            &&& field_of(reply, TEXT_LEN as nat) matches Ok(field) ==> text_end(field)
                == TEXT_LEN
        },
        Err(NsrtError::Utf8Error(_)) => {
            &&& field_of(reply, TEXT_LEN as nat) matches Ok(field)
            &&& text_end(field) < TEXT_LEN
            &&& !valid_utf8(text_bytes(field))
        },
        Err(_) => false,
    }
}

/// An answer with fewer bytes than the field of the command has is an
/// invalid response, whatever the command and however the field is read.
pub proof fn short_reply_is_invalid(command: Command, reply: Reply)
    requires
        reply matches Ok(data) && data@.len() < command.spec_reply_len(),
    ensures
        u32_field(command, reply) == Err::<u32, NsrtError>(NsrtError::InvalidResponse),
        u64_field(command, reply) == Err::<u64, NsrtError>(NsrtError::InvalidResponse),
        command == Command::ReadWeighting ==> weighting_field(reply) == Err::<
            Weighting,
            NsrtError,
        >(NsrtError::InvalidResponse),
        command == Command::ReadFS ==> sampling_frequency_field(reply) == Err::<
            SamplingFrequency,
            NsrtError,
        >(NsrtError::InvalidResponse),
        command.spec_reply_len() == TEXT_LEN ==> forall|result: Result<String, NsrtError>|
            is_text_field(reply, result) ==> result matches Err(NsrtError::InvalidResponse),
{
}

/// The bytes of an answer, or the I/O error of a failed exchange.
fn received(reply: Reply) -> (result: Result<Vec<u8>, NsrtError>)
    ensures
        match reply {
            Ok(data) => result == Ok::<Vec<u8>, NsrtError>(data),
            Err(error) => result == Err::<Vec<u8>, NsrtError>(NsrtError::IoError(error)),
        },
{
    match reply {
        Ok(data) => Ok(data),
        Err(error) => Err(NsrtError::IoError(error)),
    }
}

/// The 32-bit little-endian number at the start of an answer.
fn decode_u32(command: Command, reply: Reply) -> (result: Result<u32, NsrtError>)
    requires
        command.spec_reply_len() == 4,
    ensures
        result == u32_field(command, reply),
{
    let data = received(reply)?;
    match read_u32(data.as_slice()) {
        Some(value) => Ok(value),
        None => Err(NsrtError::InvalidResponse),
    }
}

/// The 64-bit little-endian number at the start of an answer.
fn decode_u64(command: Command, reply: Reply) -> (result: Result<u64, NsrtError>)
    requires
        command.spec_reply_len() == 8,
    ensures
        result == u64_field(command, reply),
{
    let data = received(reply)?;
    match read_u64(data.as_slice()) {
        Some(value) => Ok(value),
        None => Err(NsrtError::InvalidResponse),
    }
}

/// The text at the start of an answer.
fn decode_string(reply: Reply) -> (result: Result<String, NsrtError>)
    ensures
        is_text_field(reply, result),
{
    let data = received(reply)?;
    decode_text(data.as_slice())
}

impl NSRT {
    /// The exchange that reads the field of `command`: the packet asks for
    /// as many bytes as the instrument answers `command` with.  The answer
    /// goes to the accessor of that field.
    pub fn query(command: Command) -> (exchange: Exchange)
        ensures
            exchange@ == read_exchange(command.spec_opcode(), 0, command.spec_reply_len()),
    {
        Self::send_command_and_read(command, 0, command.reply_len())
    }

    /// The current sound level in dB, from the answer to
    /// [`Command::ReadLevel`].
    pub fn read_level(&self, reply: Reply) -> (result: Result<u32, NsrtError>)
        ensures
            result == u32_field(Command::ReadLevel, reply),
    {
        decode_u32(Command::ReadLevel, reply)
    }

    /// The LEQ (equivalent continuous sound level) in dB, from the answer
    /// to [`Command::ReadLEQ`].  Reading it makes the instrument start the
    /// integration for the next LEQ.
    pub fn read_leq(&self, reply: Reply) -> (result: Result<u32, NsrtError>)
        ensures
            result == u32_field(Command::ReadLEQ, reply),
    {
        decode_u32(Command::ReadLEQ, reply)
    }

    /// The temperature in degrees Celsius, from the answer to
    /// [`Command::ReadTemperature`].
    pub fn read_temperature(&self, reply: Reply) -> (result: Result<u32, NsrtError>)
        ensures
            result == u32_field(Command::ReadTemperature, reply),
    {
        decode_u32(Command::ReadTemperature, reply)
    }

    /// The weighting curve, from the answer to [`Command::ReadWeighting`].
    pub fn read_weighting(&self, reply: Reply) -> (result: Result<Weighting, NsrtError>)
        ensures
            result == weighting_field(reply),
    {
        let data = received(reply)?;
        if data.len() < 1 {
            return Err(NsrtError::InvalidResponse);
        }
        match Weighting::from_code(data[0]) {
            Some(weighting) => Ok(weighting),
            None => Err(NsrtError::InvalidResponse),
        }
    }

    /// The sampling frequency, from the answer to [`Command::ReadFS`].
    pub fn read_sampling_frequency(&self, reply: Reply) -> (result: Result<
        SamplingFrequency,
        NsrtError,
    >)
        ensures
            result == sampling_frequency_field(reply),
    {
        let data = received(reply)?;
        let value = match read_u16(data.as_slice()) {
            Some(value) => value,
            None => {
                return Err(NsrtError::InvalidResponse);
            },
        };
        match SamplingFrequency::from_hertz(value) {
            Some(frequency) => Ok(frequency),
            None => Err(NsrtError::InvalidResponse),
        }
    }

    /// The time constant in seconds, from the answer to
    /// [`Command::ReadTau`].
    pub fn read_time_constant(&self, reply: Reply) -> (result: Result<u32, NsrtError>)
        ensures
            result == u32_field(Command::ReadTau, reply),
    {
        decode_u32(Command::ReadTau, reply)
    }

    /// The model name, from the answer to [`Command::ReadModel`].
    pub fn read_model(&self, reply: Reply) -> (result: Result<String, NsrtError>)
        ensures
            is_text_field(reply, result),
    {
        decode_string(reply)
    }

    /// The serial number, from the answer to [`Command::ReadSN`].
    pub fn read_serial_number(&self, reply: Reply) -> (result: Result<String, NsrtError>)
        ensures
            is_text_field(reply, result),
    {
        decode_string(reply)
    }

    /// The firmware revision, from the answer to [`Command::ReadFWRev`].
    pub fn read_firmware_revision(&self, reply: Reply) -> (result: Result<String, NsrtError>)
        ensures
            is_text_field(reply, result),
    {
        decode_string(reply)
    }

    /// The date of the last calibration, from the answer to
    /// [`Command::ReadDOC`]: seconds since the instrument's epoch.
    pub fn read_calibration_date(&self, reply: Reply) -> (result: Result<u64, NsrtError>)
        ensures
            result == u64_field(Command::ReadDOC, reply),
    {
        decode_u64(Command::ReadDOC, reply)
    }

    /// The date of birth (of manufacture), from the answer to
    /// [`Command::ReadDOB`]: seconds since the instrument's epoch.
    pub fn read_birth_date(&self, reply: Reply) -> (result: Result<u64, NsrtError>)
        ensures
            result == u64_field(Command::ReadDOB, reply),
    {
        decode_u64(Command::ReadDOB, reply)
    }

    /// The user id, from the answer to [`Command::ReadUserID`].
    pub fn read_user_id(&self, reply: Reply) -> (result: Result<String, NsrtError>)
        ensures
            is_text_field(reply, result),
    {
        decode_string(reply)
    }
}

} // verus!
