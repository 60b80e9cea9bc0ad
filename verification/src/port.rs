//! Line settings of the serial medium.

use vstd::prelude::*;

verus! {

/// Baud rate of a serial line: one of the widely supported rates, or any
/// other speed.
#[derive(Clone, Copy, Debug, PartialEq, Eq, Structural)]
pub enum BaudRate {
    Baud110,
    Baud300,
    Baud600,
    Baud1200,
    Baud2400,
    Baud4800,
    Baud9600,
    Baud19200,
    Baud38400,
    Baud57600,
    Baud115200,
    BaudOther(usize),
}

/// Number of data bits in a character.
#[derive(Clone, Copy, Debug, PartialEq, Eq, Structural)]
pub enum CharSize {
    Bits5,
    Bits6,
    Bits7,
    Bits8,
}

/// Parity checking mode.
#[derive(Clone, Copy, Debug, PartialEq, Eq, Structural)]
pub enum Parity {
    ParityNone,
    ParityOdd,
    ParityEven,
}

/// Number of stop bits after a character.
#[derive(Clone, Copy, Debug, PartialEq, Eq, Structural)]
pub enum StopBits {
    Stop1,
    Stop2,
}

/// Flow control mode.
#[derive(Clone, Copy, Debug, PartialEq, Eq, Structural)]
pub enum FlowControl {
    FlowNone,
    FlowSoftware,
    FlowHardware,
}

/// Everything that is written to a serial device when it is configured.
#[derive(Clone, Copy, Debug, PartialEq, Eq, Structural)]
pub struct PortSettings {
    pub baud_rate: BaudRate,
    pub char_size: CharSize,
    pub parity: Parity,
    pub stop_bits: StopBits,
    pub flow_control: FlowControl,
}

/// Timeout of every read and write on a configured serial device, in
/// milliseconds: short enough to keep a polling caller responsive, long
/// enough not to burn the processor.
pub const PORT_TIMEOUT_MS: u64 = 1;

/// The baud rate that stands for `speed`: the standard rate of that speed
/// where there is one, `BaudOther(speed)` otherwise.
pub open spec fn baud_of_speed(speed: usize) -> BaudRate {
    if speed == 110 {
        BaudRate::Baud110
    } else if speed == 300 {
        BaudRate::Baud300
    } else if speed == 600 {
        BaudRate::Baud600
    } else if speed == 1200 {
        BaudRate::Baud1200
    } else if speed == 2400 {
        BaudRate::Baud2400
    } else if speed == 4800 {
        BaudRate::Baud4800
    } else if speed == 9600 {
        BaudRate::Baud9600
    } else if speed == 19200 {
        BaudRate::Baud19200
    } else if speed == 38400 {
        BaudRate::Baud38400
    } else if speed == 57600 {
        BaudRate::Baud57600
    } else if speed == 115200 {
        BaudRate::Baud115200
    } else {
        BaudRate::BaudOther(speed)
    }
}

/// The settings of the fixed line discipline at `baud`: eight data bits, no
/// parity, one stop bit, no flow control.
pub open spec fn line_settings(baud: usize) -> PortSettings {
    PortSettings {
        baud_rate: baud_of_speed(baud),
        char_size: CharSize::Bits8,
        parity: Parity::ParityNone,
        stop_bits: StopBits::Stop1,
        flow_control: FlowControl::FlowNone,
    }
}

/// Calls `serial::BaudRate::from_speed` and renames the variant it returns.
/// Trusted: that function matches `speed` against the eleven standard rates
/// and returns `BaudOther(speed)` for every other value, which is what
/// `baud_of_speed` says.
#[verifier::external_body]
fn baud_from_speed(speed: usize) -> (rate: BaudRate)
    ensures
        rate == baud_of_speed(speed),
{
    match serial::BaudRate::from_speed(speed) {
        serial::BaudRate::Baud110 => BaudRate::Baud110,
        serial::BaudRate::Baud300 => BaudRate::Baud300,
        serial::BaudRate::Baud600 => BaudRate::Baud600,
        serial::BaudRate::Baud1200 => BaudRate::Baud1200,
        serial::BaudRate::Baud2400 => BaudRate::Baud2400,
        serial::BaudRate::Baud4800 => BaudRate::Baud4800,
        serial::BaudRate::Baud9600 => BaudRate::Baud9600,
        serial::BaudRate::Baud19200 => BaudRate::Baud19200,
        serial::BaudRate::Baud38400 => BaudRate::Baud38400,
        serial::BaudRate::Baud57600 => BaudRate::Baud57600,
        serial::BaudRate::Baud115200 => BaudRate::Baud115200,
        serial::BaudRate::BaudOther(n) => BaudRate::BaudOther(n),
    }
}

impl BaudRate {
    /// The speed of this rate in bits per second.
    pub open spec fn spec_speed(self) -> usize {
        match self {
            BaudRate::Baud110 => 110,
            BaudRate::Baud300 => 300,
            BaudRate::Baud600 => 600,
            BaudRate::Baud1200 => 1200,
            BaudRate::Baud2400 => 2400,
            BaudRate::Baud4800 => 4800,
            BaudRate::Baud9600 => 9600,
            BaudRate::Baud19200 => 19200,
            BaudRate::Baud38400 => 38400,
            BaudRate::Baud57600 => 57600,
            BaudRate::Baud115200 => 115200,
            BaudRate::BaudOther(n) => n,
        }
    }

    /// The speed of this rate in bits per second.
    #[verifier::when_used_as_spec(spec_speed)]
    pub fn speed(self) -> (bps: usize)
        ensures
            bps == self.spec_speed(),
    {
        match self {
            BaudRate::Baud110 => 110,
            BaudRate::Baud300 => 300,
            BaudRate::Baud600 => 600,
            BaudRate::Baud1200 => 1200,
            BaudRate::Baud2400 => 2400,
            BaudRate::Baud4800 => 4800,
            BaudRate::Baud9600 => 9600,
            BaudRate::Baud19200 => 19200,
            BaudRate::Baud38400 => 38400,
            BaudRate::Baud57600 => 57600,
            BaudRate::Baud115200 => 115200,
            BaudRate::BaudOther(n) => n,
        }
    }
}

/// The settings that a serial device is configured with for `baud`: the
/// fixed line discipline, at the rate that stands for `baud`.
pub fn port_settings(baud: usize) -> (settings: PortSettings)
    ensures
        settings == line_settings(baud),
{
    PortSettings {
        baud_rate: baud_from_speed(baud),
        char_size: CharSize::Bits8,
        parity: Parity::ParityNone,
        stop_bits: StopBits::Stop1,
        flow_control: FlowControl::FlowNone,
    }
}

/// Every speed is kept by the baud rate that stands for it.
pub proof fn lemma_baud_keeps_speed(speed: usize)
    ensures
        baud_of_speed(speed).spec_speed() == speed,
{
}

} // verus!
