//! Protocol core of a driver for the NSRT_mk4 sound level meter.
//!
//! The crate holds everything the driver decides: how a command is framed,
//! what the instrument's answers mean, which serial port is the instrument,
//! and when and how long the instrument has to be left alone to settle.  It
//! performs no I/O, and it keeps no time.
//!
//! A caller lists the serial ports and hands them to [`NSRT::open`], opens
//! the port that the [`Opening`] names, and gets the session.  From then on
//! the caller moves bytes: it carries out the [`Exchange`] of a read
//! ([`NSRT::query`]) and hands the [`Reply`] to the accessor of the field;
//! it carries out the exchange of a [`Pending`] change and hands the reply
//! to [`Pending::complete`]; and it sleeps for as long as the session's
//! [`Phase`] says.
//!
//! Floating-point fields cross the border as the bits of the 32-bit
//! IEEE-754 number on the wire.

pub mod accessors;
pub mod command;
pub mod discovery;
pub mod dispatch;
pub mod error;
pub mod exchange;
pub mod session;
pub mod stabilization;
pub mod text;
pub mod values;
pub mod wire;

pub use command::{Command, CommandPacket};
pub use discovery::{SerialPortInfo, SerialPortType, UsbPortInfo};
pub use error::NsrtError;
pub use exchange::{Exchange, Reply, ACK};
pub use session::{After, Opening, Pending, Phase, NSRT};
pub use values::{SamplingFrequency, Weighting};
