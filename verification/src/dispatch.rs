//! The command dispatcher: the shapes an exchange can take, and what the
//! answer to a write means.

use crate::command::{Command, CommandPacket};
use crate::error::NsrtError;
use crate::exchange::{acknowledges, read_exchange, write_exchange, Exchange, Reply, ACK};
use crate::session::NSRT;
use vstd::prelude::*;
use vstd::slice::slice_to_vec;

verus! {

/// The count field of a packet that announces `len` bytes of payload.  A
/// length that does not fit the field's 32 bits is refused.
pub fn payload_count(len: usize) -> (count: Result<u32, NsrtError>)
    ensures
        len <= u32::MAX ==> count == Ok::<u32, NsrtError>(len as u32),
        len > u32::MAX ==> (count matches Err(NsrtError::InvalidParameter(why)) && why@
            == "Data too large for command"@),
{
    if len > 0xffff_ffff {
        Err(NsrtError::InvalidParameter("Data too large for command".to_string()))
    } else {
        Ok(len as u32)
    }
}

impl NSRT {
    /// The packet that opens an exchange: the command's code, the address
    /// and the count, twelve bytes in all.
    pub fn send_command(command: Command, address: u32, count: u32) -> (bytes: Vec<u8>)
        ensures
            bytes@ == (CommandPacket {
                command: command.spec_opcode(),
                address,
                count,
            }).spec_serialize(),
            bytes@.len() == 12,
    {
        let packet = CommandPacket { command: command.opcode(), address, count };
        packet.serialize()
    }

    /// The exchange that reads `count` bytes with `command`.  No
    /// acknowledge byte is part of a read.
    pub fn send_command_and_read(command: Command, address: u32, count: u32) -> (exchange:
        Exchange)
        ensures
            exchange@ == read_exchange(command.spec_opcode(), address, count),
    {
        Exchange { packet: Self::send_command(command, address, count), payload: None, reply_len: count }
    }

    /// The exchange that writes `data` with `command`.  The packet carries
    /// the length of `data` as its count; `data` itself goes out as a write
    /// of its own, after the packet; one byte comes back, which
    /// [`NSRT::acknowledge`] judges.  Data too long for the count field are
    /// refused.
    pub fn send_command_with_data(command: Command, address: u32, data: &[u8]) -> (exchange:
        Result<Exchange, NsrtError>)
        ensures
            data@.len() <= u32::MAX ==> (exchange matches Ok(x) && x@ == write_exchange(
                command.spec_opcode(),
                address,
                data@,
            )),
            data@.len() > u32::MAX ==> (exchange matches Err(NsrtError::InvalidParameter(why))
                && why@ == "Data too large for command"@),
    {
        Self::raw_write_with_ack(command.opcode(), address, data)
    }

    /// The exchange that writes `data` under a bare code, for a command
    /// that [`Command`] has no name for.  Apart from that it is
    /// [`NSRT::send_command_with_data`].
    pub fn raw_write_with_ack(opcode: u32, address: u32, data: &[u8]) -> (exchange: Result<
        Exchange,
        NsrtError,
    >)
        ensures
            data@.len() <= u32::MAX ==> (exchange matches Ok(x) && x@ == write_exchange(
                opcode,
                address,
                data@,
            )),
            data@.len() > u32::MAX ==> (exchange matches Err(NsrtError::InvalidParameter(why))
                && why@ == "Data too large for command"@),
    {
        let count = match payload_count(data.len()) {
            Ok(count) => count,
            Err(error) => {
                return Err(error);
            },
        };
        let packet = CommandPacket { command: opcode, address, count };
        Ok(Exchange { packet: packet.serialize(), payload: Some(slice_to_vec(data)), reply_len: 1 })
    }

    /// Judges the answer to a write.  The write succeeded exactly if the
    /// read succeeded and its first byte is [`ACK`].  A failed write or
    /// read, a timeout included, comes back as that I/O error; any other
    /// byte, or none, means that the instrument did not acknowledge.
    pub fn acknowledge(reply: Reply) -> (result: Result<(), NsrtError>)
        ensures
            acknowledges(reply) <==> result is Ok,
            reply matches Err(error) ==> result == Err::<(), NsrtError>(NsrtError::IoError(error)),
            reply is Ok && !acknowledges(reply) ==> result == Err::<(), NsrtError>(
                NsrtError::NoAcknowledge,
            ),
    {
        match reply {
            Err(error) => Err(NsrtError::IoError(error)),
            Ok(data) => {
                if data.len() >= 1 && data[0] == ACK {
                    Ok(())
                } else {
                    Err(NsrtError::NoAcknowledge)
                }
            },
        }
    }
}

} // verus!
