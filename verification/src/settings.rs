//! The line parameters of the serial connection.

use vstd::prelude::*;

verus! {

/// Number of bits per character.
#[derive(Clone, Copy, Debug, PartialEq, Eq, Structural)]
pub enum DataBits {
    Five,
    Six,
    Seven,
    Eight,
}

/// Parity checking.
#[derive(Clone, Copy, Debug, PartialEq, Eq, Structural)]
pub enum Parity {
    Disabled,
    Odd,
    Even,
}

/// Number of stop bits.
#[derive(Clone, Copy, Debug, PartialEq, Eq, Structural)]
pub enum StopBits {
    One,
    Two,
}

/// Flow control.
#[derive(Clone, Copy, Debug, PartialEq, Eq, Structural)]
pub enum FlowControl {
    Disabled,
    Software,
    Hardware,
}

/// Everything a connection must be set to before a command may be sent.
#[derive(Clone, Copy, Debug, PartialEq, Eq, Structural)]
pub struct PortSettings {
    /// Symbols per second.
    pub baud_rate: u32,
    pub data_bits: DataBits,
    pub parity: Parity,
    pub stop_bits: StopBits,
    pub flow_control: FlowControl,
    /// How long one read waits for data, in milliseconds.
    pub read_timeout_ms: u64,
}

/// The parameters the supply talks at: 9600 baud, eight data bits, no
/// parity, one stop bit, no flow control, and reads that give up after
/// 100 ms. They are the same for every request.
pub open spec fn required_settings() -> PortSettings {
    PortSettings {
        baud_rate: 9600,
        data_bits: DataBits::Eight,
        parity: Parity::Disabled,
        stop_bits: StopBits::One,
        flow_control: FlowControl::Disabled,
        read_timeout_ms: 100,
    }
}

impl PortSettings {
    /// The parameters the supply talks at.
    pub fn required() -> (settings: PortSettings)
        ensures
            settings == required_settings(),
    {
        PortSettings {
            baud_rate: 9600,
            data_bits: DataBits::Eight,
            parity: Parity::Disabled,
            stop_bits: StopBits::One,
            flow_control: FlowControl::Disabled,
            read_timeout_ms: 100,
        }
    }
}

} // verus!
