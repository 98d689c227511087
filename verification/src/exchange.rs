//! One command and its answer, as the transport has to carry them out.

use crate::command::CommandPacket;
use crate::error::NsrtError;
use vstd::prelude::*;

verus! {

/// The byte with which the instrument acknowledges a write.
pub const ACK: u8 = 0x06;

/// What the transport handed back for one exchange: the bytes that were
/// read, or the failure of a write or of the read, a timeout included.
pub type Reply = Result<Vec<u8>, std::io::Error>;

/// One exchange with the instrument.  The transport writes `packet`; then,
/// where there is a `payload`, writes it as a second write of its own; then
/// reads exactly `reply_len` bytes.  Nothing else may go over the port before
/// those bytes are in.
#[derive(Debug, PartialEq, Eq)]
pub struct Exchange {
    /// The twelve bytes of the command packet.
    pub packet: Vec<u8>,
    /// The bytes that follow the packet in a write.
    pub payload: Option<Vec<u8>>,
    /// How many bytes the instrument answers with.
    pub reply_len: u32,
}

/// An [`Exchange`] as plain sequences.
pub struct ExchangeView {
    pub packet: Seq<u8>,
    pub payload: Option<Seq<u8>>,
    pub reply_len: nat,
}

impl View for Exchange {
    type V = ExchangeView;

    open spec fn view(&self) -> ExchangeView {
        ExchangeView {
            packet: self.packet@,
            payload: match self.payload {
                Some(data) => Some(data@),
                None => None,
            },
            reply_len: self.reply_len as nat,
        }
    }
}

impl ExchangeView {
    /// The writes that the transport makes, in order.
    pub open spec fn writes(self) -> Seq<Seq<u8>> {
        match self.payload {
            Some(data) => seq![self.packet, data],
            None => seq![self.packet],
        }
    }

    /// Whether this is a write that the instrument acknowledges: a payload
    /// goes out, and one byte comes back.
    pub open spec fn is_write_with_ack(self) -> bool {
        self.payload is Some && self.reply_len == 1
    }
}

/// The exchange that reads `count` bytes: the packet alone goes out, and
/// `count` bytes come back.
pub open spec fn read_exchange(opcode: u32, address: u32, count: u32) -> ExchangeView {
    ExchangeView {
        packet: (CommandPacket { command: opcode, address, count }).spec_serialize(),
        payload: None,
        reply_len: count as nat,
    }
}

/// The exchange that writes `data`: the packet announces the length of
/// the data, the data follow in a write of their own, and the acknowledge
/// byte comes back.
pub open spec fn write_exchange(opcode: u32, address: u32, data: Seq<u8>) -> ExchangeView
    recommends
        data.len() <= u32::MAX,
{
    ExchangeView {
        packet: (CommandPacket {
            command: opcode,
            address,
            count: data.len() as u32,
        }).spec_serialize(),
        payload: Some(data),
        reply_len: 1,
    }
}

/// Whether the reply to a write acknowledges it: the read succeeded and
/// its first byte is [`ACK`].
pub open spec fn acknowledges(reply: Reply) -> bool {
    reply matches Ok(data) && data@.len() >= 1 && data@[0] == ACK
}

/// The first `width` bytes of a reply, which hold the field that was asked
/// for.  A failed exchange gives its I/O error, and a reply of fewer bytes
/// is an invalid response.
pub open spec fn field_of(reply: Reply, width: nat) -> Result<Seq<u8>, NsrtError> {
    match reply {
        Err(error) => Err(NsrtError::IoError(error)),
        Ok(data) => if data@.len() < width {
            Err(NsrtError::InvalidResponse)
        } else {
            Ok(data@.subrange(0, width as int))
        },
    }
}

} // verus!
