//! The mathematical transition relation of the interpreter.
//!
//! `Model` is the abstract view of a whole interpreter: its control state,
//! repeat register, scratch pin register, echo register, and the models of
//! the four peripheral capabilities.  `step` maps a model and one input
//! byte to the successor model and the response bytes emitted for that
//! byte; `run` folds `step` over a byte sequence.  The executable
//! interpreter is proved to follow `step` exactly, so everything the wire
//! protocol does is pinned down here.

use vstd::prelude::*;

use crate::commands::{
    CMD_BASE, CMD_NOP, CMD_SLEEP, CMD_SPIENABLE, CMD_SPITRANSFER, CMD_SPIDISABLE,
    CMD_SPISETCLOCKDIVISOR, CMD_SPISETMODE, CMD_SPISETROLE, CMD_SPISETFRAME, CMD_I2CENABLE,
    CMD_I2CWRITE, CMD_I2CREAD, CMD_I2CDISABLE, CMD_I2CSETMODE, CMD_I2CSETSLAVEADDRESS,
    CMD_UARTENABLE, CMD_UARTTRANSFER, CMD_UARTDISABLE, CMD_UARTSETBAUDRATE, CMD_UARTSETDATABITS,
    CMD_UARTSETPARITY, CMD_UARTSETSTOPBITS, CMD_GPIO_SET_PULL, CMD_GPIO_SET_STATE,
    CMD_GPIO_WRITE_PWM_VALUE, CMD_GPIO_GET_PULL, CMD_GPIO_GET_STATE, CMD_GPIO_READ_PULSE_LENGTH,
    CMD_GPIO_SET_INTERRUPT,
};
use crate::peripherals::{SpiModel, I2cModel, UartModel, GpioModel};
use crate::state::{State, NO_CHANGE, is_bus_open};

verus! {

/// The abstract view of a whole interpreter.
#[verifier::ext_equal]
pub struct Model {
    /// Control state.
    pub state: State,
    /// Repeat register: payload bytes still to consume in a run.
    pub repeat: u8,
    /// Scratch pin register of the multi-phase pin-bank commands.
    pub pin: u8,
    /// The byte most recently received.
    pub out: u8,
    pub spi: SpiModel,
    pub i2c: I2cModel,
    pub uart: UartModel,
    /// One model per pin of the bank.
    pub gpio: Seq<GpioModel>,
}

/// The outcome of feeding bytes to an interpreter: the successor model and
/// the response bytes written to the output channel, in order.
#[verifier::ext_equal]
pub struct StepResult {
    pub m: Model,
    pub out: Seq<u8>,
}

/// Repeat resolution: the interpreter holds a non-zero repeat count and
/// this byte names the command to repeat.  An immediate command (NOP,
/// SLEEP) is performed `repeat` times on the spot; a payload command keeps
/// the count and moves to its payload state; any other byte is a silent
/// no-op that keeps both the state and the count.
pub open spec fn resolve_repeat(m: Model, byte: u8) -> Model {
    if byte == CMD_NOP {
        Model { repeat: 0, state: State::Idle, ..m }
    } else if byte == CMD_SLEEP {
        Model { repeat: 0, state: State::Idle, ..m }
    } else if byte == CMD_SPITRANSFER {
        Model { state: State::SPITransfer, ..m }
    } else if byte == CMD_I2CWRITE {
        Model { state: State::I2CWrite, ..m }
    } else if byte == CMD_I2CREAD {
        Model { state: State::I2CRead, ..m }
    } else if byte == CMD_UARTTRANSFER {
        Model { state: State::UARTTransfer, ..m }
    } else {
        m
    }
}

/// Main dispatch, total over `(state, byte)`: every unrecognized pair is a
/// silent no-op.  The repeat register has already been decremented; a
/// payload state reads `repeat == 0` as "this is the last byte of the
/// run".  A pin index at or beyond the end of the bank leaves the bank
/// untouched (and a read of such a pin answers `0`); conforming hosts use
/// indices within the bank.
pub open spec fn dispatch(m: Model, byte: u8) -> StepResult {
    match m.state {
        State::Idle => {
            if byte == CMD_NOP {
                StepResult { m, out: Seq::empty() }
            } else if byte == CMD_SLEEP {
                StepResult { m, out: Seq::empty() }
            } else if byte == CMD_SPIENABLE {
                StepResult {
                    m: Model {
                        state: State::SPIEnable,
                        spi: SpiModel { enabled: true, ..m.spi },
                        ..m
                    },
                    out: Seq::empty(),
                }
            } else if byte == CMD_SPISETCLOCKDIVISOR {
                StepResult { m: Model { state: State::SPISetClockDivisor, ..m }, out: Seq::empty() }
            } else if byte == CMD_SPISETMODE {
                StepResult { m: Model { state: State::SPISetMode, ..m }, out: Seq::empty() }
            } else if byte == CMD_SPISETFRAME {
                StepResult { m: Model { state: State::SPISetFrame, ..m }, out: Seq::empty() }
            } else if byte == CMD_SPISETROLE {
                StepResult { m: Model { state: State::SPISetRole, ..m }, out: Seq::empty() }
            } else if byte == CMD_I2CENABLE {
                StepResult {
                    m: Model {
                        state: State::I2CEnable,
                        i2c: I2cModel { enabled: true, ..m.i2c },
                        ..m
                    },
                    out: Seq::empty(),
                }
            } else if byte == CMD_I2CSETSLAVEADDRESS {
                StepResult { m: Model { state: State::I2CSetSlaveAddress, ..m }, out: Seq::empty() }
            } else if byte == CMD_I2CSETMODE {
                StepResult { m: Model { state: State::I2CSetMode, ..m }, out: Seq::empty() }
            } else if byte == CMD_UARTENABLE {
                StepResult {
                    m: Model {
                        state: State::UARTEnable,
                        uart: UartModel { enabled: true, ..m.uart },
                        ..m
                    },
                    out: Seq::empty(),
                }
            } else if byte == CMD_UARTSETBAUDRATE {
                StepResult { m: Model { state: State::UARTSetBaudrate, ..m }, out: Seq::empty() }
            } else if byte == CMD_UARTSETSTOPBITS {
                StepResult { m: Model { state: State::UARTSetStopBits, ..m }, out: Seq::empty() }
            } else if byte == CMD_UARTSETPARITY {
                StepResult { m: Model { state: State::UARTSetParity, ..m }, out: Seq::empty() }
            } else if byte == CMD_UARTSETDATABITS {
                StepResult { m: Model { state: State::UARTSetDataBits, ..m }, out: Seq::empty() }
            } else if byte == CMD_GPIO_SET_PULL {
                StepResult {
                    m: Model { state: State::GPIOSetPullPin, ..m },
                    out: seq![CMD_GPIO_SET_PULL],
                }
            } else if byte == CMD_GPIO_SET_STATE {
                StepResult {
                    m: Model { state: State::GPIOSetStatePin, ..m },
                    out: seq![CMD_GPIO_SET_STATE],
                }
            } else if byte == CMD_GPIO_WRITE_PWM_VALUE {
                StepResult { m: Model { state: State::GPIOWritePwmValuePin, ..m }, out: Seq::empty() }
            } else if byte == CMD_GPIO_GET_PULL {
                StepResult {
                    m: Model { state: State::GPIOGetPull, ..m },
                    out: seq![CMD_GPIO_GET_PULL],
                }
            } else if byte == CMD_GPIO_GET_STATE {
                StepResult {
                    m: Model { state: State::GPIOGetStatePin, ..m },
                    out: seq![CMD_GPIO_GET_STATE],
                }
            } else if byte == CMD_GPIO_READ_PULSE_LENGTH {
                StepResult { m: Model { state: State::GPIOReadPulseLength, ..m }, out: Seq::empty() }
            } else if byte == CMD_GPIO_SET_INTERRUPT {
                StepResult { m: Model { state: State::GPIOSetInterruptPin, ..m }, out: Seq::empty() }
            } else {
                StepResult { m, out: Seq::empty() }
            }
        },
        State::SPIEnable => {
            if byte == CMD_SPITRANSFER {
                StepResult { m: Model { state: State::SPITransfer, ..m }, out: Seq::empty() }
            } else if byte == CMD_SPIDISABLE {
                StepResult {
                    m: Model {
                        state: State::Idle,
                        spi: SpiModel { enabled: false, ..m.spi },
                        ..m
                    },
                    out: Seq::empty(),
                }
            } else if byte == CMD_GPIO_GET_PULL {
                StepResult {
                    m: Model { state: State::GPIOGetPull, ..m },
                    out: seq![CMD_GPIO_GET_PULL],
                }
            } else if byte == CMD_GPIO_READ_PULSE_LENGTH {
                StepResult { m: Model { state: State::GPIOReadPulseLength, ..m }, out: Seq::empty() }
            } else if byte == CMD_GPIO_SET_INTERRUPT {
                StepResult { m: Model { state: State::GPIOSetInterruptPin, ..m }, out: Seq::empty() }
            } else {
                StepResult { m, out: Seq::empty() }
            }
        },
        State::SPITransfer => {
            StepResult {
                m: Model {
                    state: if m.repeat == 0 { State::SPIEnable } else { State::SPITransfer },
                    spi: SpiModel { written: m.spi.written.push(byte), ..m.spi },
                    ..m
                },
                out: Seq::empty(),
            }
        },
        State::SPISetClockDivisor => {
            StepResult {
                m: Model {
                    state: State::Idle,
                    spi: SpiModel { clock_divisor: byte, ..m.spi },
                    ..m
                },
                out: Seq::empty(),
            }
        },
        State::SPISetMode => {
            StepResult {
                m: Model { state: State::Idle, spi: SpiModel { mode: byte, ..m.spi }, ..m },
                out: Seq::empty(),
            }
        },
        State::SPISetFrame => {
            StepResult {
                m: Model { state: State::Idle, spi: SpiModel { frame: byte, ..m.spi }, ..m },
                out: Seq::empty(),
            }
        },
        State::SPISetRole => {
            StepResult {
                m: Model { state: State::Idle, spi: SpiModel { role: byte, ..m.spi }, ..m },
                out: Seq::empty(),
            }
        },
        State::I2CEnable => {
            if byte == CMD_I2CWRITE {
                StepResult { m: Model { state: State::I2CWrite, ..m }, out: Seq::empty() }
            } else if byte == CMD_I2CREAD {
                StepResult {
                    m: Model {
                        state: if m.repeat == 0 { State::I2CEnable } else { State::I2CRead },
                        i2c: I2cModel { reads: m.i2c.reads + 1, ..m.i2c },
                        ..m
                    },
                    out: Seq::empty(),
                }
            } else if byte == CMD_I2CDISABLE {
                StepResult {
                    m: Model {
                        state: State::Idle,
                        i2c: I2cModel { enabled: false, ..m.i2c },
                        ..m
                    },
                    out: Seq::empty(),
                }
            } else if byte == CMD_GPIO_GET_PULL {
                StepResult {
                    m: Model { state: State::GPIOGetPull, ..m },
                    out: seq![CMD_GPIO_GET_PULL],
                }
            } else if byte == CMD_GPIO_READ_PULSE_LENGTH {
                StepResult { m: Model { state: State::GPIOReadPulseLength, ..m }, out: Seq::empty() }
            } else if byte == CMD_GPIO_SET_INTERRUPT {
                StepResult { m: Model { state: State::GPIOSetInterruptPin, ..m }, out: Seq::empty() }
            } else {
                StepResult { m, out: Seq::empty() }
            }
        },
        State::I2CWrite => {
            StepResult {
                m: Model {
                    state: if m.repeat == 0 { State::I2CEnable } else { State::I2CWrite },
                    i2c: I2cModel { written: m.i2c.written.push(byte), ..m.i2c },
                    ..m
                },
                out: Seq::empty(),
            }
        },
        State::I2CRead => {
            StepResult {
                m: Model {
                    state: if m.repeat == 0 { State::I2CEnable } else { State::I2CRead },
                    i2c: I2cModel { reads: m.i2c.reads + 1, ..m.i2c },
                    ..m
                },
                out: Seq::empty(),
            }
        },
        State::I2CSetSlaveAddress => {
            StepResult {
                m: Model {
                    state: State::Idle,
                    i2c: I2cModel { slave_address: byte, ..m.i2c },
                    ..m
                },
                out: Seq::empty(),
            }
        },
        State::I2CSetMode => {
            StepResult {
                m: Model { state: State::Idle, i2c: I2cModel { mode: byte, ..m.i2c }, ..m },
                out: Seq::empty(),
            }
        },
        State::UARTEnable => {
            if byte == CMD_UARTTRANSFER {
                StepResult { m: Model { state: State::UARTTransfer, ..m }, out: Seq::empty() }
            } else if byte == CMD_UARTDISABLE {
                StepResult {
                    m: Model {
                        state: State::Idle,
                        uart: UartModel { enabled: false, ..m.uart },
                        ..m
                    },
                    out: Seq::empty(),
                }
            } else if byte == CMD_GPIO_GET_PULL {
                StepResult {
                    m: Model { state: State::GPIOGetPull, ..m },
                    out: seq![CMD_GPIO_GET_PULL],
                }
            } else if byte == CMD_GPIO_READ_PULSE_LENGTH {
                StepResult { m: Model { state: State::GPIOReadPulseLength, ..m }, out: Seq::empty() }
            } else if byte == CMD_GPIO_SET_INTERRUPT {
                StepResult { m: Model { state: State::GPIOSetInterruptPin, ..m }, out: Seq::empty() }
            } else {
                StepResult { m, out: Seq::empty() }
            }
        },
        State::UARTTransfer => {
            StepResult {
                m: Model {
                    state: if m.repeat == 0 { State::UARTEnable } else { State::UARTTransfer },
                    uart: UartModel { written: m.uart.written.push(byte), ..m.uart },
                    ..m
                },
                out: Seq::empty(),
            }
        },
        State::UARTSetBaudrate => {
            StepResult {
                m: Model { state: State::Idle, uart: UartModel { baudrate: byte, ..m.uart }, ..m },
                out: Seq::empty(),
            }
        },
        State::UARTSetStopBits => {
            StepResult {
                m: Model { state: State::Idle, uart: UartModel { stop_bits: byte, ..m.uart }, ..m },
                out: Seq::empty(),
            }
        },
        State::UARTSetParity => {
            StepResult {
                m: Model { state: State::Idle, uart: UartModel { parity: byte, ..m.uart }, ..m },
                out: Seq::empty(),
            }
        },
        State::UARTSetDataBits => {
            StepResult {
                m: Model { state: State::Idle, uart: UartModel { data_bits: byte, ..m.uart }, ..m },
                out: Seq::empty(),
            }
        },
        State::GPIOSetPullPin => {
            StepResult {
                m: Model { state: State::GPIOSetPullValue, pin: byte, ..m },
                out: seq![byte],
            }
        },
        State::GPIOSetPullValue => {
            let bank = if byte != NO_CHANGE && (m.pin as int) < m.gpio.len() {
                m.gpio.update(m.pin as int, GpioModel { pull: byte, ..m.gpio[m.pin as int] })
            } else {
                m.gpio
            };
            StepResult { m: Model { state: State::Idle, gpio: bank, ..m }, out: seq![byte] }
        },
        State::GPIOSetStatePin => {
            StepResult {
                m: Model { state: State::GPIOSetStateValue, pin: byte, ..m },
                out: seq![byte],
            }
        },
        State::GPIOSetStateValue => {
            let bank = if byte != NO_CHANGE && (m.pin as int) < m.gpio.len() {
                m.gpio.update(m.pin as int, GpioModel { digital: byte, ..m.gpio[m.pin as int] })
            } else {
                m.gpio
            };
            StepResult {
                m: Model { state: State::GPIOSetStateDirection, gpio: bank, ..m },
                out: seq![byte],
            }
        },
        State::GPIOSetStateDirection => {
            let bank = if byte != NO_CHANGE && (m.pin as int) < m.gpio.len() {
                m.gpio.update(m.pin as int, GpioModel { direction: byte, ..m.gpio[m.pin as int] })
            } else {
                m.gpio
            };
            StepResult { m: Model { state: State::Idle, gpio: bank, ..m }, out: seq![byte] }
        },
        State::GPIOWritePwmValuePin => {
            StepResult {
                m: Model { state: State::GPIOWritePwmValueValue, pin: byte, ..m },
                out: Seq::empty(),
            }
        },
        State::GPIOWritePwmValueValue => {
            let bank = if (m.pin as int) < m.gpio.len() {
                m.gpio.update(m.pin as int, GpioModel { pwm: byte, ..m.gpio[m.pin as int] })
            } else {
                m.gpio
            };
            StepResult { m: Model { state: State::Idle, gpio: bank, ..m }, out: Seq::empty() }
        },
        State::GPIOGetPull => {
            let answer = if (byte as int) < m.gpio.len() {
                m.gpio[byte as int].pull
            } else {
                0u8
            };
            StepResult { m: Model { state: State::Idle, ..m }, out: seq![answer] }
        },
        State::GPIOGetStatePin => {
            StepResult {
                m: Model { state: State::GPIOGetStateValue, pin: byte, ..m },
                out: seq![byte],
            }
        },
        State::GPIOGetStateValue => {
            let answer = if (m.pin as int) < m.gpio.len() {
                m.gpio[m.pin as int].digital
            } else {
                0u8
            };
            StepResult {
                m: Model { state: State::GPIOGetStateDirection, ..m },
                out: seq![answer],
            }
        },
        State::GPIOGetStateDirection => {
            let answer = if (m.pin as int) < m.gpio.len() {
                m.gpio[m.pin as int].direction
            } else {
                0u8
            };
            StepResult { m: Model { state: State::Idle, ..m }, out: seq![answer] }
        },
        State::GPIOReadPulseLength => {
            StepResult { m: Model { state: State::Idle, ..m }, out: Seq::empty() }
        },
        State::GPIOSetInterruptPin => {
            StepResult {
                m: Model { state: State::GPIOSetInterruptValue, pin: byte, ..m },
                out: Seq::empty(),
            }
        },
        State::GPIOSetInterruptValue => {
            let bank = if (m.pin as int) < m.gpio.len() {
                m.gpio.update(m.pin as int, GpioModel { interrupt: byte, ..m.gpio[m.pin as int] })
            } else {
                m.gpio
            };
            StepResult { m: Model { state: State::Idle, gpio: bank, ..m }, out: Seq::empty() }
        },
        _ => {
            // Reserved codepoint states.  SET_INTERRUPT is accepted from any
            // such state; everything else is a silent no-op.
            if byte == CMD_GPIO_SET_INTERRUPT {
                StepResult { m: Model { state: State::GPIOSetInterruptPin, ..m }, out: Seq::empty() }
            } else {
                StepResult { m, out: Seq::empty() }
            }
        },
    }
}

/// One step of the interpreter: the byte is latched into the echo
/// register, then either the repeat preamble fires (a non-zero non-opcode
/// byte in a bus-open state sets the repeat count), or a pending repeat is
/// resolved, or the repeat register is normalized for a one-shot command,
/// decremented, and the byte dispatched.
pub open spec fn step(m0: Model, byte: u8) -> StepResult {
    let m = Model { out: byte, ..m0 };
    if byte != 0 && byte < CMD_BASE && is_bus_open(m.state) {
        StepResult {
            m: Model { repeat: byte, state: State::ExpectRepeatCommand, ..m },
            out: Seq::empty(),
        }
    } else if m.repeat != 0 && m.state == State::ExpectRepeatCommand {
        StepResult { m: resolve_repeat(m, byte), out: Seq::empty() }
    } else {
        let started = if m.repeat == 0 { 1u8 } else { m.repeat };
        dispatch(Model { repeat: (started - 1) as u8, ..m }, byte)
    }
}

/// `step` folded over a byte sequence: the successor model and the
/// concatenation of all response bytes.
pub open spec fn run(m: Model, bytes: Seq<u8>) -> StepResult
    decreases bytes.len(),
{
    if bytes.len() == 0 {
        StepResult { m, out: Seq::empty() }
    } else {
        let first = step(m, bytes[0]);
        let rest = run(first.m, bytes.drop_first());
        StepResult { m: rest.m, out: first.out + rest.out }
    }
}

/// Appending a sequence to the empty sequence changes nothing.
pub proof fn lemma_seq_add_empty<A>(s: Seq<A>)
    ensures
        s + Seq::<A>::empty() == s,
        Seq::<A>::empty() + s == s,
{
    assert(s + Seq::<A>::empty() =~= s);
    assert(Seq::<A>::empty() + s =~= s);
}

/// A single step emits at most one response byte.
pub proof fn lemma_step_out_len(m: Model, byte: u8)
    ensures
        step(m, byte).out.len() <= 1,
{
}

/// A run emits at most one response byte per input byte.
pub proof fn lemma_run_out_len(m: Model, bytes: Seq<u8>)
    ensures
        run(m, bytes).out.len() <= bytes.len(),
    decreases bytes.len(),
{
    if bytes.len() > 0 {
        lemma_step_out_len(m, bytes[0]);
        lemma_run_out_len(step(m, bytes[0]).m, bytes.drop_first());
    }
}

} // verus!
