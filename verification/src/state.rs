//! The interpreter's state vocabulary.

use vstd::prelude::*;

verus! {

/// Sentinel operand: in a GPIO SET_PULL value slot or a SET_STATE value or
/// direction slot it suppresses the corresponding setter call, while the
/// phase still advances and the byte is still echoed.
pub const NO_CHANGE: u8 = 0xFF;

/// The interpreter takes exactly one of these values at any time.
///
/// `Idle` awaits a top-level opcode; the `*Enable` states are the bus-open
/// states; the `*Transfer`, `I2CWrite` and `I2CRead` states consume payload
/// bytes; the remaining states await the operand bytes of a configuration
/// or pin-bank command.  A few variants are reserved codepoints that no
/// transition ever enters.
#[allow(non_camel_case_types)]
#[derive(Clone, Copy, Debug, PartialEq, Eq, Structural)]
pub enum State {
    Idle,
    ID_Set,
    SPIEnable,
    SPITransfer,
    SPISetClockDivisor,
    SPISetMode,
    SPISetRole,
    SPISetFrame,
    I2CEnable,
    I2CWrite,
    I2CRead,
    I2CSetSlaveAddress,
    I2CSetMode,
    UARTEnable,
    UARTTransfer,
    UARTReceive,
    UARTSetBaudrate,
    UARTSetDataBits,
    UARTSetParity,
    UARTSetStopBits,
    GPIOSetPullPin,
    GPIOSetPullValue,
    GPIOSetState,
    GPIOSetStatePin,
    GPIOSetStateValue,
    GPIOSetStateDirection,
    GPIOWritePwmValuePin,
    GPIOWritePwmValueValue,
    GPIOGetPull,
    GPIOGetState,
    GPIOGetStatePin,
    GPIOGetStateValue,
    GPIOGetStateDirection,
    GPIOReadAnalogValue,
    GPIOReadPulseLength,
    GPIOGetDirection,
    GPIOSetInterruptPin,
    GPIOSetInterruptValue,
    ExpectRepeatCommand,
}

/// A bus-open state: the peripheral is enabled and awaits a bus-scoped
/// opcode.  Only these states accept a repeat prefix.
pub open spec fn is_bus_open(s: State) -> bool {
    s == State::SPIEnable || s == State::I2CEnable || s == State::UARTEnable
}

} // verus!
