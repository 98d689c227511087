//! The commands of the instrument and the twelve-byte packet that opens
//! every exchange.

use crate::wire::{
    le_bytes, le_bytes_len, le_bytes_of_le_value, le_limit, le_value, le_value_of_le_bytes,
    read_u32, write_u32,
};
use vstd::prelude::*;
use vstd::slice::slice_subrange;

verus! {

/// Command codes for the `NSRT_mk4` device.
#[derive(Debug, Clone, Copy, PartialEq, Eq, Structural)]
pub enum Command {
    ReadLevel,
    ReadLEQ,
    ReadTemperature,
    ReadWeighting,
    ReadFS,
    ReadTau,
    ReadModel,
    ReadSN,
    ReadFWRev,
    ReadDOC,
    ReadDOB,
    ReadUserID,
    WriteWeighting,
    WriteFS,
    WriteTau,
    WriteUserID,
}

impl Command {
    /// The 32-bit code that names the command on the wire.
    pub open spec fn spec_opcode(self) -> u32 {
        match self {
            Command::ReadLevel => 0x8000_0010,
            Command::ReadLEQ => 0x8000_0011,
            Command::ReadTemperature => 0x8000_0012,
            Command::ReadWeighting => 0x8000_0020,
            Command::ReadFS => 0x8000_0021,
            Command::ReadTau => 0x8000_0022,
            Command::ReadModel => 0x8000_0031,
            Command::ReadSN => 0x8000_0032,
            Command::ReadFWRev => 0x8000_0033,
            Command::ReadDOC => 0x8000_0034,
            Command::ReadDOB => 0x8000_0035,
            Command::ReadUserID => 0x8000_0036,
            Command::WriteWeighting => 0x0000_0020,
            Command::WriteFS => 0x0000_0021,
            Command::WriteTau => 0x0000_0022,
            Command::WriteUserID => 0x0000_0036,
        }
    }

    /// Whether the command asks the instrument for a field.  The others
    /// hand it one.
    pub open spec fn spec_is_read(self) -> bool {
        match self {
            Command::WriteWeighting | Command::WriteFS | Command::WriteTau
            | Command::WriteUserID => false,
            _ => true,
        }
    }

    /// How many bytes the instrument answers with: the size of the field
    /// for a read, the one acknowledge byte for a write.
    pub open spec fn spec_reply_len(self) -> u32 {
        match self {
            Command::ReadLevel | Command::ReadLEQ | Command::ReadTemperature
            | Command::ReadTau => 4,
            Command::ReadWeighting => 1,
            Command::ReadFS => 2,
            Command::ReadModel | Command::ReadSN | Command::ReadFWRev
            | Command::ReadUserID => 32,
            Command::ReadDOC | Command::ReadDOB => 8,
            Command::WriteWeighting | Command::WriteFS | Command::WriteTau
            | Command::WriteUserID => 1,
        }
    }

    /// The 32-bit code that names the command on the wire.
    #[verifier::when_used_as_spec(spec_opcode)]
    pub fn opcode(self) -> (code: u32)
        ensures
            code == self.spec_opcode(),
    {
        match self {
            Command::ReadLevel => 0x8000_0010,
            Command::ReadLEQ => 0x8000_0011,
            Command::ReadTemperature => 0x8000_0012,
            Command::ReadWeighting => 0x8000_0020,
            Command::ReadFS => 0x8000_0021,
            Command::ReadTau => 0x8000_0022,
            Command::ReadModel => 0x8000_0031,
            Command::ReadSN => 0x8000_0032,
            Command::ReadFWRev => 0x8000_0033,
            Command::ReadDOC => 0x8000_0034,
            Command::ReadDOB => 0x8000_0035,
            Command::ReadUserID => 0x8000_0036,
            Command::WriteWeighting => 0x0000_0020,
            Command::WriteFS => 0x0000_0021,
            Command::WriteTau => 0x0000_0022,
            Command::WriteUserID => 0x0000_0036,
        }
    }

    /// Whether the command asks the instrument for a field.
    #[verifier::when_used_as_spec(spec_is_read)]
    pub fn is_read(self) -> (read: bool)
        ensures
            read == self.spec_is_read(),
    {
        match self {
            Command::WriteWeighting | Command::WriteFS | Command::WriteTau
            | Command::WriteUserID => false,
            _ => true,
        }
    }

    /// How many bytes the instrument answers with.
    #[verifier::when_used_as_spec(spec_reply_len)]
    pub fn reply_len(self) -> (len: u32)
        ensures
            len == self.spec_reply_len(),
    {
        match self {
            Command::ReadLevel | Command::ReadLEQ | Command::ReadTemperature
            | Command::ReadTau => 4,
            Command::ReadWeighting => 1,
            Command::ReadFS => 2,
            Command::ReadModel | Command::ReadSN | Command::ReadFWRev
            | Command::ReadUserID => 32,
            Command::ReadDOC | Command::ReadDOB => 8,
            Command::WriteWeighting | Command::WriteFS | Command::WriteTau
            | Command::WriteUserID => 1,
        }
    }

    /// Reads and writes lie in two halves of the code space: a command is a
    /// read exactly if the top bit of its code is set.
    pub proof fn reads_have_the_top_bit(self)
        ensures
            self.spec_is_read() <==> self.spec_opcode() >= 0x8000_0000,
    {
    }

    /// No two commands share a code.
    pub proof fn opcodes_are_distinct(self, other: Command)
        ensures
            self.spec_opcode() == other.spec_opcode() ==> self == other,
    {
    }
}

/// Command packet structure: what is asked, at which address, and how many
/// bytes of payload follow (for a write) or are expected back (for a read).
#[derive(Debug, Clone, Copy, PartialEq, Eq, Structural)]
pub struct CommandPacket {
    pub command: u32,
    pub address: u32,
    pub count: u32,
}

impl CommandPacket {
    /// The packet on the wire: the three fields in order, each as four
    /// little-endian bytes.
    pub open spec fn spec_serialize(self) -> Seq<u8> {
        le_bytes(self.command as nat, 4) + le_bytes(self.address as nat, 4) + le_bytes(
            self.count as nat,
            4,
        )
    }

    /// The packet that twelve bytes on the wire stand for.  Any other
    /// number of bytes is no packet.
    pub open spec fn spec_deserialize(bytes: Seq<u8>) -> Option<CommandPacket> {
        if bytes.len() == 12 {
            Some(
                CommandPacket {
                    command: le_value(bytes.subrange(0, 4)) as u32,
                    address: le_value(bytes.subrange(4, 8)) as u32,
                    count: le_value(bytes.subrange(8, 12)) as u32,
                },
            )
        } else {
            None
        }
    }

    /// Lays the packet out for the wire.
    pub fn serialize(&self) -> (bytes: Vec<u8>)
        ensures
            bytes@ == self.spec_serialize(),
            bytes@.len() == 12,
    {
        let mut result: Vec<u8> = Vec::with_capacity(12);
        write_u32(&mut result, self.command);
        write_u32(&mut result, self.address);
        write_u32(&mut result, self.count);
        proof {
            le_bytes_len(self.command as nat, 4);
            le_bytes_len(self.address as nat, 4);
            le_bytes_len(self.count as nat, 4);
        }
        result
    }

    /// Reads a packet back from the wire.
    pub fn deserialize(bytes: &[u8]) -> (packet: Option<CommandPacket>)
        ensures
            packet == Self::spec_deserialize(bytes@),
    {
        if bytes.len() != 12 {
            return None;
        }
        let command = read_u32(bytes);
        let address = read_u32(slice_subrange(bytes, 4, 12));
        let count = read_u32(slice_subrange(bytes, 8, 12));
        proof {
            assert(bytes@.subrange(4, 12).subrange(0, 4) =~= bytes@.subrange(4, 8));
            assert(bytes@.subrange(8, 12).subrange(0, 4) =~= bytes@.subrange(8, 12));
        }
        match (command, address, count) {
            (Some(command), Some(address), Some(count)) => Some(
                CommandPacket { command, address, count },
            ),
            _ => None,
        }
    }

    /// A packet laid out for the wire and read back is the same packet:
    /// command, address and count come back exactly.
    pub proof fn serialize_round_trip(self)
        ensures
            self.spec_serialize().len() == 12,
            Self::spec_deserialize(self.spec_serialize()) == Some(self),
    {
        let c = le_bytes(self.command as nat, 4);
        let a = le_bytes(self.address as nat, 4);
        let n = le_bytes(self.count as nat, 4);
        let bytes = self.spec_serialize();
        le_bytes_len(self.command as nat, 4);
        le_bytes_len(self.address as nat, 4);
        le_bytes_len(self.count as nat, 4);
        assert(bytes.subrange(0, 4) =~= c);
        assert(bytes.subrange(4, 8) =~= a);
        assert(bytes.subrange(8, 12) =~= n);
        assert(le_limit(4) == 4294967296) by {
            reveal_with_fuel(le_limit, 5);
        }
        le_value_of_le_bytes(self.command as nat, 4);
        le_value_of_le_bytes(self.address as nat, 4);
        le_value_of_le_bytes(self.count as nat, 4);
    }

    /// Twelve bytes read as a packet and laid out again are the same bytes.
    pub proof fn deserialize_round_trip(bytes: Seq<u8>)
        requires
            bytes.len() == 12,
        ensures
            Self::spec_deserialize(bytes) matches Some(packet) && packet.spec_serialize()
                == bytes,
    {
        let c = bytes.subrange(0, 4);
        let a = bytes.subrange(4, 8);
        let n = bytes.subrange(8, 12);
        assert(le_limit(4) == 4294967296) by {
            reveal_with_fuel(le_limit, 5);
        }
        le_bytes_of_le_value(c);
        le_bytes_of_le_value(a);
        le_bytes_of_le_value(n);
        assert(c + a + n =~= bytes);
    }
}

} // verus!
