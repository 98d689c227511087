//! Finding the instrument among the serial ports of the machine.

use vstd::prelude::*;

verus! {

/// The USB vendor id of the instrument.
pub const VID: u16 = 2649;

/// The USB product id of the instrument.
pub const PID: u16 = 323;

/// The baud rate at which the instrument's port is opened.
pub const BAUD_RATE: u32 = 9600;

/// The timeout, in milliseconds, of every read on the instrument's port.
pub const TIMEOUT_MS: u64 = 1000;

/// What a USB serial port tells of the device behind it.
#[derive(Debug, Clone, Copy, PartialEq, Eq, Structural)]
pub struct UsbPortInfo {
    /// Vendor ID
    pub vid: u16,
    /// Product ID
    pub pid: u16,
}

/// How a serial port is connected.
#[derive(Debug, Clone, Copy, PartialEq, Eq, Structural)]
pub enum SerialPortType {
    /// The serial port is connected via USB
    UsbPort(UsbPortInfo),
    /// The serial port is connected via PCI
    PciPort,
    /// The serial port is connected via Bluetooth
    BluetoothPort,
    /// It can't be determined how the serial port is connected
    Unknown,
}

/// One serial port, as the platform lists it.
#[derive(Debug, PartialEq, Eq)]
pub struct SerialPortInfo {
    /// The name by which the port is opened
    pub port_name: String,
    /// How the port is connected
    pub port_type: SerialPortType,
}

/// Whether a port is the instrument's: a USB port with the instrument's
/// vendor and product ids.
pub open spec fn is_instrument(port: SerialPortInfo) -> bool {
    port.port_type matches SerialPortType::UsbPort(usb) && usb.vid == VID && usb.pid == PID
}

/// Whether `index` is the place of the first instrument in `ports`.
pub open spec fn is_first_instrument(ports: Seq<SerialPortInfo>, index: int) -> bool {
    &&& 0 <= index < ports.len()
    &&& is_instrument(ports[index])
    &&& forall|j: int| 0 <= j < index ==> !is_instrument(#[trigger] ports[j])
}

/// Whether `ports` holds no instrument.
pub open spec fn no_instrument(ports: Seq<SerialPortInfo>) -> bool {
    forall|j: int| 0 <= j < ports.len() ==> !is_instrument(#[trigger] ports[j])
}

/// Whether a port is the instrument's.
pub fn matches_instrument(port: &SerialPortInfo) -> (found: bool)
    ensures
        found == is_instrument(*port),
{
    match port.port_type {
        SerialPortType::UsbPort(usb) => usb.vid == VID && usb.pid == PID,
        _ => false,
    }
}

/// The place of the first of `ports` that is the instrument's, in the order
/// in which the platform listed them.
pub fn find_instrument(ports: &Vec<SerialPortInfo>) -> (found: Option<usize>)
    ensures
        match found {
            Some(index) => is_first_instrument(ports@, index as int),
            None => no_instrument(ports@),
        },
{
    let mut i: usize = 0;
    while i < ports.len()
        invariant
            i <= ports.len(),
            forall|j: int| 0 <= j < i ==> !is_instrument(#[trigger] ports@[j]),
        decreases ports.len() - i,
    {
        if matches_instrument(&ports[i]) {
            return Some(i);
        }
        i += 1;
    }
    None
}

/// There is one first instrument at most.
pub proof fn first_instrument_is_unique(ports: Seq<SerialPortInfo>, a: int, b: int)
    requires
        is_first_instrument(ports, a),
        is_first_instrument(ports, b),
    ensures
        a == b,
{
    if a < b {
        assert(!is_instrument(ports[a]));
    } else if b < a {
        assert(!is_instrument(ports[b]));
    }
}

} // verus!
