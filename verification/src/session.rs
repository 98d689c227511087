//! The session with one instrument: which port it is on, how its settings
//! are changed, and when it has to be left alone to settle.
//!
//! After a change of weighting, sampling frequency or time constant the
//! instrument's readings are worth nothing until ten time constants have
//! passed, and a second at least.  A change can call for that wait at once,
//! or put it off: several changes in a row are then followed by one call of
//! [`NSRT::apply`], and by one wait.  The session keeps the account in its
//! [`Phase`], which says how long to wait; the caller does the waiting.

use crate::accessors::u32_field;
use crate::command::Command;
use crate::discovery::{
    find_instrument, is_first_instrument, no_instrument, SerialPortInfo, BAUD_RATE, TIMEOUT_MS,
};
use crate::error::NsrtError;
use crate::exchange::{acknowledges, read_exchange, write_exchange, Exchange, ExchangeView, Reply};
use crate::stabilization::{stabilization_nanos, stabilization_wait};
use crate::text::{encode_user_id, USER_ID_MAX};
use crate::values::{SamplingFrequency, Weighting};
use crate::wire::{le_bytes, le_bytes_len, write_u16, write_u32};
use vstd::prelude::*;
use vstd::string::StringSliceAdditionalSpecFns;

verus! {

/// How far a session is from trustworthy readings.
#[derive(Debug, Clone, Copy, PartialEq, Eq, Structural)]
pub enum Phase {
    /// The port is chosen and nothing has been changed on the instrument.
    Open,
    /// Settings were changed, and the wait they call for is put off until
    /// [`NSRT::apply`].
    Configuring,
    /// A setting was changed and the wait is due at once: [`NSRT::apply`]
    /// has to follow now.
    Applying,
    /// A stabilization wait of this many nanoseconds is due now;
    /// [`NSRT::settled`] follows it.
    Settling(u64),
    /// The instrument has settled.
    Ready,
}

/// What ends an exchange that the session has begun.
#[derive(Debug, Clone, Copy, PartialEq, Eq, Structural)]
pub enum After {
    /// A write: the instrument has to acknowledge it, and the session then
    /// enters this phase.
    Acknowledge(Phase),
    /// The read of the time constant on which the wait depends.
    ReadBack,
}

/// The main driver for the `NSRT_mk4` device.
#[derive(Debug)]
pub struct NSRT {
    port_name: String,
    phase: Phase,
}

/// An [`NSRT`] as plain values.
pub struct SessionView {
    /// The name of the serial port that the instrument is on.
    pub port_name: Seq<char>,
    /// Where the session stands.
    pub phase: Phase,
}

/// The instrument's port, found and not yet open.  The port of this name
/// has to be opened with these settings, and the outcome handed to
/// [`Opening::complete`], which gives the session.
#[derive(Debug)]
pub struct Opening {
    port_name: String,
    baud_rate: u32,
    timeout_ms: u64,
}

/// An [`Opening`] as plain values.
pub struct OpeningView {
    /// The name of the serial port to open.
    pub port_name: Seq<char>,
    /// The baud rate to open it at.
    pub baud_rate: u32,
    /// The timeout of a read on it, in milliseconds.
    pub timeout_ms: u64,
}

impl View for Opening {
    type V = OpeningView;

    closed spec fn view(&self) -> OpeningView {
        OpeningView {
            port_name: self.port_name@,
            baud_rate: self.baud_rate,
            timeout_ms: self.timeout_ms,
        }
    }
}

/// A session in the middle of an exchange: the exchange has to be carried
/// out, and its outcome handed to [`Pending::complete`], which gives the
/// session back.
#[derive(Debug)]
pub struct Pending {
    session: NSRT,
    exchange: Exchange,
    after: After,
}

/// A [`Pending`] as plain values.
pub struct PendingView {
    pub session: SessionView,
    pub exchange: ExchangeView,
    pub after: After,
}

impl View for NSRT {
    type V = SessionView;

    closed spec fn view(&self) -> SessionView {
        SessionView { port_name: self.port_name@, phase: self.phase }
    }
}

impl View for Pending {
    type V = PendingView;

    closed spec fn view(&self) -> PendingView {
        PendingView { session: self.session@, exchange: self.exchange@, after: self.after }
    }
}

/// The phase that an acknowledged change leaves the session in, if the
/// change itself does not say how long to wait: the wait is put off, or
/// the time constant has to be read back for it.
pub open spec fn phase_after_change(skip_wait: bool) -> Phase {
    if skip_wait {
        Phase::Configuring
    } else {
        Phase::Applying
    }
}

impl SessionView {
    /// The session in another phase.
    pub open spec fn in_phase(self, phase: Phase) -> SessionView {
        SessionView { phase, ..self }
    }

    /// The write of a weighting: one byte, the weighting's code.
    pub open spec fn write_weighting(self, weighting: Weighting, skip_wait: bool) -> PendingView {
        PendingView {
            session: self,
            exchange: write_exchange(
                Command::WriteWeighting.spec_opcode(),
                0,
                seq![weighting.spec_code()],
            ),
            after: After::Acknowledge(phase_after_change(skip_wait)),
        }
    }

    /// The write of a sampling frequency: the number of hertz as two
    /// little-endian bytes.
    pub open spec fn write_sampling_frequency(
        self,
        freq: SamplingFrequency,
        skip_wait: bool,
    ) -> PendingView {
        PendingView {
            session: self,
            exchange: write_exchange(
                Command::WriteFS.spec_opcode(),
                0,
                le_bytes(freq.spec_hertz() as nat, 2),
            ),
            after: After::Acknowledge(phase_after_change(skip_wait)),
        }
    }

    /// The write of a time constant: the four little-endian bytes of the
    /// float.  A wait that is due at once is the one for the time constant
    /// just written.
    pub open spec fn write_time_constant(self, tau: u32, skip_wait: bool) -> PendingView {
        PendingView {
            session: self,
            exchange: write_exchange(Command::WriteTau.spec_opcode(), 0, le_bytes(tau as nat, 4)),
            after: After::Acknowledge(
                if skip_wait {
                    Phase::Configuring
                } else {
                    Phase::Settling(stabilization_nanos(tau) as u64)
                },
            ),
        }
    }

    /// The write of a user id: the text's bytes and a NUL.  It is no
    /// change that the instrument has to settle after.
    pub open spec fn write_user_id(self, user_id: Seq<u8>) -> PendingView {
        PendingView {
            session: self,
            exchange: write_exchange(Command::WriteUserID.spec_opcode(), 0, user_id + seq![0u8]),
            after: After::Acknowledge(self.phase),
        }
    }

    /// The read of the time constant that the wait depends on.
    pub open spec fn apply(self) -> PendingView {
        PendingView {
            session: self,
            exchange: read_exchange(
                Command::ReadTau.spec_opcode(),
                0,
                Command::ReadTau.spec_reply_len(),
            ),
            after: After::ReadBack,
        }
    }

    /// The session after the wait that was due.
    pub open spec fn settled(self) -> SessionView {
        match self.phase {
            Phase::Settling(_) => self.in_phase(Phase::Ready),
            _ => self,
        }
    }
}

impl PendingView {
    /// What the outcome of the exchange makes of the session.
    ///
    /// A write succeeds exactly if it is acknowledged, and the session then
    /// enters the phase that the write named.  The read of the time
    /// constant succeeds exactly if four bytes came back, and the
    /// stabilization wait for that time constant is then due.  A failed
    /// exchange gives its I/O error.
    pub open spec fn outcome(self, reply: Reply) -> Result<SessionView, NsrtError> {
        match self.after {
            After::Acknowledge(phase) => match reply {
                Err(error) => Err(NsrtError::IoError(error)),
                Ok(_) => if acknowledges(reply) {
                    Ok(self.session.in_phase(phase))
                } else {
                    Err(NsrtError::NoAcknowledge)
                },
            },
            After::ReadBack => match u32_field(Command::ReadTau, reply) {
                Ok(tau) => Ok(
                    self.session.in_phase(Phase::Settling(stabilization_nanos(tau) as u64)),
                ),
                Err(error) => Err(error),
            },
        }
    }
}

/// A write never succeeds in silence: the session comes back from a write
/// exactly if the instrument acknowledged it, and then in the phase that
/// the write named.
pub proof fn write_succeeds_only_if_acknowledged(pending: PendingView, reply: Reply)
    requires
        pending.after is Acknowledge,
    ensures
        pending.outcome(reply) is Ok <==> acknowledges(reply),
        acknowledges(reply) ==> pending.outcome(reply) == Ok::<SessionView, NsrtError>(
            pending.session.in_phase(pending.after->Acknowledge_0),
        ),
{
}

/// Changes that put their wait off are settled by one wait.  A weighting
/// and a sampling frequency set one after the other, each acknowledged, are
/// two acknowledged writes that leave no wait due; `apply` then reads the
/// time constant back, which is no write, and the one wait for it is due;
/// after that wait the instrument has settled.
pub proof fn deferred_changes_settle_once(
    session: SessionView,
    weighting: Weighting,
    freq: SamplingFrequency,
    first: Reply,
    second: Reply,
    read_back: Reply,
)
    requires
        acknowledges(first),
        acknowledges(second),
        read_back matches Ok(data) && data@.len() >= 4,
    ensures
        ({
            let change = session.write_weighting(weighting, true);
            &&& change.exchange.is_write_with_ack()
            &&& change.outcome(first) == Ok::<SessionView, NsrtError>(
                session.in_phase(Phase::Configuring),
            )
        }),
        ({
            let change = session.in_phase(Phase::Configuring).write_sampling_frequency(freq, true);
            &&& change.exchange.is_write_with_ack()
            &&& change.outcome(second) == Ok::<SessionView, NsrtError>(
                session.in_phase(Phase::Configuring),
            )
        }),
        ({
            let read = session.in_phase(Phase::Configuring).apply();
            &&& !read.exchange.is_write_with_ack()
            &&& u32_field(Command::ReadTau, read_back) matches Ok(tau)
            &&& read.outcome(read_back) == Ok::<SessionView, NsrtError>(
                session.in_phase(Phase::Settling(stabilization_nanos(tau) as u64)),
            )
            &&& session.in_phase(Phase::Settling(stabilization_nanos(tau) as u64)).settled()
                == session.in_phase(Phase::Ready)
        }),
{
}

/// The exchange that writes a payload which is known to fit the count
/// field.
fn write_of(command: Command, data: Vec<u8>) -> (exchange: Exchange)
    requires
        data@.len() <= u32::MAX,
    ensures
        exchange@ == write_exchange(command.spec_opcode(), 0, data@),
{
    let count = data.len() as u32;
    Exchange { packet: NSRT::send_command(command, 0, count), payload: Some(data), reply_len: 1 }
}

impl NSRT {
    /// Begins a session with the instrument, given what the platform
    /// answered when asked for its serial ports.  The instrument is the
    /// first of the ports, in the order in which the platform listed them,
    /// that is a USB port with the instrument's vendor and product ids; it
    /// is to be opened at 9600 baud with a read timeout of 1000 ms.
    ///
    /// Where the ports could not be listed, that error comes back.  Where
    /// none of them is the instrument's there is no device, and no port to
    /// open.
    pub fn open(ports: Result<Vec<SerialPortInfo>, serialport::Error>) -> (result: Result<
        Opening,
        NsrtError,
    >)
        ensures
            match ports {
                Err(error) => result matches Err(e) && e == NsrtError::SerialError(error),
                Ok(listed) => match result {
                    Ok(opening) => exists|index: int|
                        {
                            &&& is_first_instrument(listed@, index)
                            &&& opening@.port_name == (#[trigger] listed@[index]).port_name@
                            &&& opening@.baud_rate == 9600
                            &&& opening@.timeout_ms == 1000
                        },
                    Err(NsrtError::NoDevice) => no_instrument(listed@),
                    Err(_) => false,
                },
            },
    {
        let listed = match ports {
            Ok(listed) => listed,
            Err(error) => {
                return Err(NsrtError::SerialError(error));
            },
        };
        match find_instrument(&listed) {
            Some(index) => Ok(
                Opening {
                    port_name: listed[index].port_name.clone(),
                    baud_rate: BAUD_RATE,
                    timeout_ms: TIMEOUT_MS,
                },
            ),
            None => Err(NsrtError::NoDevice),
        }
    }

    /// The name of the serial port that the instrument is on.
    pub fn port_name(&self) -> (name: &String)
        ensures
            name@ == self@.port_name,
    {
        &self.port_name
    }

    /// Where the session stands.
    pub fn phase(&self) -> (phase: Phase)
        ensures
            phase == self@.phase,
    {
        self.phase
    }

    /// Begins to set the weighting curve.  With `skip_wait` the wait is put
    /// off until [`NSRT::apply`]; without it the wait is due as soon as the
    /// write is acknowledged.
    pub fn write_weighting(self, weighting: Weighting, skip_wait: bool) -> (pending: Pending)
        ensures
            pending@ == self@.write_weighting(weighting, skip_wait),
    {
        let mut data: Vec<u8> = Vec::new();
        data.push(weighting.code());
        assert(data@ =~= seq![weighting.spec_code()]);
        let after = After::Acknowledge(
            if skip_wait {
                Phase::Configuring
            } else {
                Phase::Applying
            },
        );
        Pending { session: self, exchange: write_of(Command::WriteWeighting, data), after }
    }

    /// Begins to set the weighting curve, as one of several changes: the
    /// wait is put off until [`NSRT::apply`].
    #[must_use]
    pub fn weighting(self, weighting: Weighting) -> (pending: Pending)
        ensures
            pending@ == self@.write_weighting(weighting, true),
    {
        self.write_weighting(weighting, true)
    }

    /// Begins to set the sampling frequency.  With `skip_wait` the wait is
    /// put off until [`NSRT::apply`]; without it the wait is due as soon as
    /// the write is acknowledged.
    pub fn write_sampling_frequency(self, freq: SamplingFrequency, skip_wait: bool) -> (pending:
        Pending)
        ensures
            pending@ == self@.write_sampling_frequency(freq, skip_wait),
    {
        let mut data: Vec<u8> = Vec::new();
        write_u16(&mut data, freq.hertz());
        proof {
            le_bytes_len(freq.spec_hertz() as nat, 2);
            assert(data@ =~= le_bytes(freq.spec_hertz() as nat, 2));
        }
        let after = After::Acknowledge(
            if skip_wait {
                Phase::Configuring
            } else {
                Phase::Applying
            },
        );
        Pending { session: self, exchange: write_of(Command::WriteFS, data), after }
    }

    /// Begins to set the sampling frequency, as one of several changes: the
    /// wait is put off until [`NSRT::apply`].
    #[must_use]
    pub fn sampling_frequency(self, freq: SamplingFrequency) -> (pending: Pending)
        ensures
            pending@ == self@.write_sampling_frequency(freq, true),
    {
        self.write_sampling_frequency(freq, true)
    }

    /// Begins to set the time constant, given as the bits of a 32-bit
    /// float, in seconds.  With `skip_wait` the wait is put off until
    /// [`NSRT::apply`]; without it the stabilization wait for the new time
    /// constant is due as soon as the write is acknowledged.
    pub fn write_time_constant(self, tau: u32, skip_wait: bool) -> (pending: Pending)
        ensures
            pending@ == self@.write_time_constant(tau, skip_wait),
    {
        let mut data: Vec<u8> = Vec::new();
        write_u32(&mut data, tau);
        proof {
            le_bytes_len(tau as nat, 4);
            assert(data@ =~= le_bytes(tau as nat, 4));
        }
        let after = After::Acknowledge(
            if skip_wait {
                Phase::Configuring
            } else {
                Phase::Settling(stabilization_wait(tau))
            },
        );
        Pending { session: self, exchange: write_of(Command::WriteTau, data), after }
    }

    /// Begins to set the time constant, as one of several changes: the wait
    /// is put off until [`NSRT::apply`].
    #[must_use]
    pub fn time_constant(self, tau: u32) -> (pending: Pending)
        ensures
            pending@ == self@.write_time_constant(tau, true),
    {
        self.write_time_constant(tau, true)
    }

    /// Begins to set the user id.  Text of more than 31 bytes is refused,
    /// before anything goes over the port.
    pub fn write_user_id(self, user_id: &str) -> (result: Result<Pending, NsrtError>)
        ensures
            user_id.spec_bytes().len() <= USER_ID_MAX ==> (result matches Ok(pending) && pending@
                == self@.write_user_id(user_id.spec_bytes())),
            user_id.spec_bytes().len() > USER_ID_MAX ==> (result matches Err(
                NsrtError::InvalidParameter(why),
            ) && why@ == "User ID too long"@),
    {
        let data = encode_user_id(user_id)?;
        let after = After::Acknowledge(self.phase);
        Ok(Pending { session: self, exchange: write_of(Command::WriteUserID, data), after })
    }

    /// Begins the one wait that ends a run of changes: the time constant is
    /// read back from the instrument, and the stabilization wait for it is
    /// due when the read is completed.
    #[must_use]
    pub fn apply(self) -> (pending: Pending)
        ensures
            pending@ == self@.apply(),
    {
        Pending { session: self, exchange: NSRT::query(Command::ReadTau), after: After::ReadBack }
    }

    /// The session after the wait that was due: the instrument has settled.
    /// Where no wait was due the session stays as it is.
    pub fn settled(self) -> (session: NSRT)
        ensures
            session@ == self@.settled(),
    {
        let mut session = self;
        match session.phase {
            Phase::Settling(_) => {
                session.phase = Phase::Ready;
            },
            _ => {},
        }
        session
    }
}

impl Opening {
    /// The name of the serial port to open.
    pub fn port_name(&self) -> (name: &String)
        ensures
            name@ == self@.port_name,
    {
        &self.port_name
    }

    /// The baud rate to open the port at.
    pub fn baud_rate(&self) -> (baud_rate: u32)
        ensures
            baud_rate == self@.baud_rate,
    {
        self.baud_rate
    }

    /// The timeout of a read on the port, in milliseconds.
    pub fn timeout_ms(&self) -> (timeout_ms: u64)
        ensures
            timeout_ms == self@.timeout_ms,
    {
        self.timeout_ms
    }

    /// Ends the opening with what came of it.  Where the port is open, the
    /// session begins, and the open port comes back beside it; where it
    /// could not be opened, that error comes back.
    pub fn complete<T>(self, opened: Result<T, serialport::Error>) -> (result: Result<
        (NSRT, T),
        NsrtError,
    >)
        ensures
            match opened {
                Ok(port) => {
                    &&& result matches Ok((session, handle))
                    &&& handle == port
                    &&& session@ == (SessionView {
                        port_name: self@.port_name,
                        phase: Phase::Open,
                    })
                },
                Err(error) => result matches Err(e) && e == NsrtError::SerialError(error),
            },
    {
        match opened {
            Ok(port) => Ok((NSRT { port_name: self.port_name, phase: Phase::Open }, port)),
            Err(error) => Err(NsrtError::SerialError(error)),
        }
    }
}

impl Pending {
    /// The exchange that the transport has to carry out.
    pub fn exchange(&self) -> (exchange: &Exchange)
        ensures
            exchange@ == self@.exchange,
    {
        &self.exchange
    }

    /// Ends the exchange with what the transport handed back, and gives
    /// the session back if it went well.
    pub fn complete(self, reply: Reply) -> (result: Result<NSRT, NsrtError>)
        ensures
            match self@.outcome(reply) {
                Ok(session) => result matches Ok(s) && s@ == session,
                Err(error) => result matches Err(e) && e == error,
            },
    {
        let Pending { session, exchange: _, after } = self;
        let mut session = session;
        match after {
            After::Acknowledge(phase) => {
                NSRT::acknowledge(reply)?;
                session.phase = phase;
            },
            After::ReadBack => {
                let tau = session.read_time_constant(reply)?;
                session.phase = Phase::Settling(stabilization_wait(tau));
            },
        }
        Ok(session)
    }
}

} // verus!
