//! The byte-stream command interpreter.
//!
//! `IOStateMachine` owns one driver for each peripheral capability and a
//! bank of pin drivers.  `handle_byte` consumes one input byte, drives the
//! peripherals, and appends the response bytes for that byte to the output
//! buffer; it is proved to follow the specification-level `step` function
//! exactly, for every state and every byte.  `handle_buffer` folds
//! `handle_byte` over a whole input slice.

use vstd::prelude::*;

use crate::commands::{
    CMD_BASE, CMD_NOP, CMD_SLEEP, CMD_SPIENABLE, CMD_SPITRANSFER, CMD_SPIDISABLE,
    CMD_SPISETCLOCKDIVISOR, CMD_SPISETMODE, CMD_SPISETROLE, CMD_SPISETFRAME, CMD_I2CENABLE,
    CMD_I2CWRITE, CMD_I2CREAD, CMD_I2CDISABLE, CMD_I2CSETMODE, CMD_I2CSETSLAVEADDRESS,
    CMD_UARTENABLE, CMD_UARTTRANSFER, CMD_UARTDISABLE, CMD_UARTSETBAUDRATE, CMD_UARTSETDATABITS,
    CMD_UARTSETPARITY, CMD_UARTSETSTOPBITS, CMD_GPIO_SET_PULL, CMD_GPIO_SET_STATE,
    CMD_GPIO_WRITE_PWM_VALUE, CMD_GPIO_GET_PULL, CMD_GPIO_GET_STATE, CMD_GPIO_READ_PULSE_LENGTH,
    CMD_GPIO_SET_INTERRUPT,
};
use crate::peripherals::{SPI, I2C, UART, GPIO, gpio_models, lemma_gpio_models_update};
use crate::state::{State, NO_CHANGE, is_bus_open};
use crate::step::{Model, step, dispatch, run, lemma_seq_add_empty, lemma_step_out_len};

verus! {

/// The no-op action: an unrecognized or deliberately empty command does
/// nothing at all.
fn nop() {
}

/// The sleep action.  Timing is outside the interpreter's contract, so it
/// is indistinguishable from the no-op action here.
fn sleep() {
    nop()
}

/// Appends one response byte to the output buffer.
fn emit(outgoing: &mut Vec<u8>, byte: u8)
    ensures
        final(outgoing)@ == old(outgoing)@ + seq![byte],
{
    outgoing.push(byte);
    proof {
        assert(old(outgoing)@.push(byte) =~= old(outgoing)@ + seq![byte]);
    }
}

/// The interpreter: control state, repeat register, scratch pin register,
/// echo register, and one driver per peripheral capability.
pub struct IOStateMachine<SPIT, I2CT, UARTT, GPIOT> {
    pub state: State,
    pub repeat_remaining: u8,
    pub pin: u8,
    pub spi: SPIT,
    pub i2c: I2CT,
    pub uart: UARTT,
    pub gpio: Vec<GPIOT>,
    pub out: u8,
}

impl<SPIT: SPI, I2CT: I2C, UARTT: UART, GPIOT: GPIO> IOStateMachine<SPIT, I2CT, UARTT, GPIOT> {
    /// The abstract view of the whole interpreter.
    pub open spec fn model(&self) -> Model {
        Model {
            state: self.state,
            repeat: self.repeat_remaining,
            pin: self.pin,
            out: self.out,
            spi: self.spi.model(),
            i2c: self.i2c.model(),
            uart: self.uart.model(),
            gpio: gpio_models(self.gpio@),
        }
    }

    /// A byte with the high bit clear is a repeat count or an operand,
    /// never an opcode.
    pub fn is_repeat_token(&mut self, byte: u8) -> (r: bool)
        ensures
            *final(self) == *old(self),
            r == (byte < CMD_BASE),
    {
        byte < CMD_BASE
    }

    /// Only a bus-open state accepts a repeat prefix.
    pub fn is_valid_repeat_state(&mut self) -> (r: bool)
        ensures
            *final(self) == *old(self),
            r == is_bus_open(old(self).state),
    {
        (self.state == State::SPIEnable
        || self.state == State::I2CEnable
        || self.state == State::UARTEnable)
    }

    /// The byte most recently received.
    pub fn return_byte(&self) -> (r: u8)
        ensures
            r == self.out,
    {
        self.out
    }

    /// Main dispatch over `(state, byte)`.  The repeat register has
    /// already been decremented by the caller.
    fn dispatch_byte(&mut self, byte: u8, outgoing: &mut Vec<u8>) -> (written: usize)
        ensures
            final(self).model() == dispatch(old(self).model(), byte).m,
            final(outgoing)@ == old(outgoing)@ + dispatch(old(self).model(), byte).out,
            written == dispatch(old(self).model(), byte).out.len(),
    {
        match self.state {
            State::Idle => {
                if byte == CMD_NOP {
                    nop();
                } else if byte == CMD_SLEEP {
                    sleep();
                } else if byte == CMD_SPIENABLE {
                    self.spi.enable();
                    self.state = State::SPIEnable;
                } else if byte == CMD_SPISETCLOCKDIVISOR {
                    self.state = State::SPISetClockDivisor;
                } else if byte == CMD_SPISETMODE {
                    self.state = State::SPISetMode;
                } else if byte == CMD_SPISETFRAME {
                    self.state = State::SPISetFrame;
                } else if byte == CMD_SPISETROLE {
                    self.state = State::SPISetRole;
                } else if byte == CMD_I2CENABLE {
                    self.i2c.enable();
                    self.state = State::I2CEnable;
                } else if byte == CMD_I2CSETSLAVEADDRESS {
                    self.state = State::I2CSetSlaveAddress;
                } else if byte == CMD_I2CSETMODE {
                    self.state = State::I2CSetMode;
                } else if byte == CMD_UARTENABLE {
                    self.uart.enable();
                    self.state = State::UARTEnable;
                } else if byte == CMD_UARTSETBAUDRATE {
                    self.state = State::UARTSetBaudrate;
                } else if byte == CMD_UARTSETSTOPBITS {
                    self.state = State::UARTSetStopBits;
                } else if byte == CMD_UARTSETPARITY {
                    self.state = State::UARTSetParity;
                } else if byte == CMD_UARTSETDATABITS {
                    self.state = State::UARTSetDataBits;
                } else if byte == CMD_GPIO_SET_PULL {
                    // Echo the command being acknowledged.
                    emit(outgoing, CMD_GPIO_SET_PULL);
                    self.state = State::GPIOSetPullPin;
                    return 1;
                } else if byte == CMD_GPIO_SET_STATE {
                    emit(outgoing, CMD_GPIO_SET_STATE);
                    self.state = State::GPIOSetStatePin;
                    return 1;
                } else if byte == CMD_GPIO_WRITE_PWM_VALUE {
                    self.state = State::GPIOWritePwmValuePin;
                } else if byte == CMD_GPIO_GET_PULL {
                    emit(outgoing, CMD_GPIO_GET_PULL);
                    self.state = State::GPIOGetPull;
                    return 1;
                } else if byte == CMD_GPIO_GET_STATE {
                    emit(outgoing, CMD_GPIO_GET_STATE);
                    self.state = State::GPIOGetStatePin;
                    return 1;
                } else if byte == CMD_GPIO_READ_PULSE_LENGTH {
                    self.state = State::GPIOReadPulseLength;
                } else if byte == CMD_GPIO_SET_INTERRUPT {
                    self.state = State::GPIOSetInterruptPin;
                } else {
                    nop();
                }
            },
            State::SPIEnable => {
                if byte == CMD_SPITRANSFER {
                    self.state = State::SPITransfer;
                } else if byte == CMD_SPIDISABLE {
                    self.spi.disable();
                    self.state = State::Idle;
                } else if byte == CMD_GPIO_GET_PULL {
                    emit(outgoing, CMD_GPIO_GET_PULL);
                    self.state = State::GPIOGetPull;
                    return 1;
                } else if byte == CMD_GPIO_READ_PULSE_LENGTH {
                    self.state = State::GPIOReadPulseLength;
                } else if byte == CMD_GPIO_SET_INTERRUPT {
                    self.state = State::GPIOSetInterruptPin;
                } else {
                    nop();
                }
            },
            State::SPITransfer => {
                let _ = self.spi.transfer(byte);
                if self.repeat_remaining == 0 {
                    self.state = State::SPIEnable;
                }
            },
            State::SPISetClockDivisor => {
                self.spi.set_clock_speed_divisor(byte);
                self.state = State::Idle;
            },
            State::SPISetMode => {
                self.spi.set_mode(byte);
                self.state = State::Idle;
            },
            State::SPISetFrame => {
                self.spi.set_frame(byte);
                self.state = State::Idle;
            },
            State::SPISetRole => {
                self.spi.set_role(byte);
                self.state = State::Idle;
            },
            State::I2CEnable => {
                if byte == CMD_I2CWRITE {
                    self.state = State::I2CWrite;
                } else if byte == CMD_I2CREAD {
                    let _ = self.i2c.read();
                    if self.repeat_remaining == 0 {
                        self.state = State::I2CEnable;
                    } else {
                        self.state = State::I2CRead;
                    }
                } else if byte == CMD_I2CDISABLE {
                    self.i2c.disable();
                    self.state = State::Idle;
                } else if byte == CMD_GPIO_GET_PULL {
                    emit(outgoing, CMD_GPIO_GET_PULL);
                    self.state = State::GPIOGetPull;
                    return 1;
                } else if byte == CMD_GPIO_READ_PULSE_LENGTH {
                    self.state = State::GPIOReadPulseLength;
                } else if byte == CMD_GPIO_SET_INTERRUPT {
                    self.state = State::GPIOSetInterruptPin;
                } else {
                    nop();
                }
            },
            State::I2CWrite => {
                self.i2c.write(byte);
                if self.repeat_remaining == 0 {
                    self.state = State::I2CEnable;
                }
            },
            State::I2CRead => {
                let _ = self.i2c.read();
                if self.repeat_remaining == 0 {
                    self.state = State::I2CEnable;
                }
            },
            State::I2CSetSlaveAddress => {
                self.i2c.set_slave_address(byte);
                self.state = State::Idle;
            },
            State::I2CSetMode => {
                self.i2c.set_mode(byte);
                self.state = State::Idle;
            },
            State::UARTEnable => {
                if byte == CMD_UARTTRANSFER {
                    self.state = State::UARTTransfer;
                } else if byte == CMD_UARTDISABLE {
                    self.uart.disable();
                    self.state = State::Idle;
                } else if byte == CMD_GPIO_GET_PULL {
                    emit(outgoing, CMD_GPIO_GET_PULL);
                    self.state = State::GPIOGetPull;
                    return 1;
                } else if byte == CMD_GPIO_READ_PULSE_LENGTH {
                    self.state = State::GPIOReadPulseLength;
                } else if byte == CMD_GPIO_SET_INTERRUPT {
                    self.state = State::GPIOSetInterruptPin;
                } else {
                    nop();
                }
            },
            State::UARTTransfer => {
                self.uart.transfer(byte);
                if self.repeat_remaining == 0 {
                    self.state = State::UARTEnable;
                }
            },
            State::UARTSetBaudrate => {
                self.uart.set_baudrate(byte);
                self.state = State::Idle;
            },
            State::UARTSetStopBits => {
                self.uart.set_stop_bits(byte);
                self.state = State::Idle;
            },
            State::UARTSetParity => {
                self.uart.set_parity(byte);
                self.state = State::Idle;
            },
            State::UARTSetDataBits => {
                self.uart.set_data_bits(byte);
                self.state = State::Idle;
            },
            State::GPIOSetPullPin => {
                self.pin = byte;
                emit(outgoing, byte);
                self.state = State::GPIOSetPullValue;
                return 1;
            },
            State::GPIOSetPullValue => {
                if byte != NO_CHANGE {
                    let p: usize = self.pin as usize;
                    if p < self.gpio.len() {
                        self.gpio[p].set_pull(byte);
                        proof {
                            lemma_gpio_models_update(old(self).gpio@, p as int, self.gpio@[p as int]);
                        }
                    }
                }
                emit(outgoing, byte);
                self.state = State::Idle;
                return 1;
            },
            State::GPIOSetStatePin => {
                self.pin = byte;
                emit(outgoing, byte);
                self.state = State::GPIOSetStateValue;
                return 1;
            },
            State::GPIOSetStateValue => {
                if byte != NO_CHANGE {
                    let p: usize = self.pin as usize;
                    if p < self.gpio.len() {
                        self.gpio[p].write_digital_value(byte);
                        proof {
                            lemma_gpio_models_update(old(self).gpio@, p as int, self.gpio@[p as int]);
                        }
                    }
                }
                emit(outgoing, byte);
                self.state = State::GPIOSetStateDirection;
                return 1;
            },
            State::GPIOSetStateDirection => {
                if byte != NO_CHANGE {
                    let p: usize = self.pin as usize;
                    if p < self.gpio.len() {
                        self.gpio[p].set_direction(byte);
                        proof {
                            lemma_gpio_models_update(old(self).gpio@, p as int, self.gpio@[p as int]);
                        }
                    }
                }
                emit(outgoing, byte);
                self.state = State::Idle;
                return 1;
            },
            State::GPIOWritePwmValuePin => {
                self.pin = byte;
                self.state = State::GPIOWritePwmValueValue;
            },
            State::GPIOWritePwmValueValue => {
                let p: usize = self.pin as usize;
                if p < self.gpio.len() {
                    self.gpio[p].write_pwm_value(byte);
                    proof {
                        lemma_gpio_models_update(old(self).gpio@, p as int, self.gpio@[p as int]);
                    }
                }
                self.state = State::Idle;
            },
            State::GPIOGetPull => {
                let p: usize = byte as usize;
                let answer: u8;
                if p < self.gpio.len() {
                    answer = self.gpio[p].get_pull();
                    proof {
                        lemma_gpio_models_update(old(self).gpio@, p as int, self.gpio@[p as int]);
                        assert(gpio_models(old(self).gpio@).update(
                            p as int,
                            self.gpio@[p as int].model(),
                        ) =~= gpio_models(old(self).gpio@));
                    }
                } else {
                    answer = 0;
                }
                emit(outgoing, answer);
                self.state = State::Idle;
                return 1;
            },
            State::GPIOGetStatePin => {
                self.pin = byte;
                emit(outgoing, byte);
                self.state = State::GPIOGetStateValue;
                return 1;
            },
            State::GPIOGetStateValue => {
                let p: usize = self.pin as usize;
                let answer: u8;
                if p < self.gpio.len() {
                    answer = self.gpio[p].read_digital_value();
                    proof {
                        lemma_gpio_models_update(old(self).gpio@, p as int, self.gpio@[p as int]);
                        assert(gpio_models(old(self).gpio@).update(
                            p as int,
                            self.gpio@[p as int].model(),
                        ) =~= gpio_models(old(self).gpio@));
                    }
                } else {
                    answer = 0;
                }
                emit(outgoing, answer);
                self.state = State::GPIOGetStateDirection;
                return 1;
            },
            State::GPIOGetStateDirection => {
                let p: usize = self.pin as usize;
                let answer: u8;
                if p < self.gpio.len() {
                    answer = self.gpio[p].get_direction();
                    proof {
                        lemma_gpio_models_update(old(self).gpio@, p as int, self.gpio@[p as int]);
                        assert(gpio_models(old(self).gpio@).update(
                            p as int,
                            self.gpio@[p as int].model(),
                        ) =~= gpio_models(old(self).gpio@));
                    }
                } else {
                    answer = 0;
                }
                emit(outgoing, answer);
                self.state = State::Idle;
                return 1;
            },
            State::GPIOReadPulseLength => {
                self.state = State::Idle;
            },
            State::GPIOSetInterruptPin => {
                self.pin = byte;
                self.state = State::GPIOSetInterruptValue;
            },
            State::GPIOSetInterruptValue => {
                let p: usize = self.pin as usize;
                if p < self.gpio.len() {
                    self.gpio[p].set_interrupt(byte);
                    proof {
                        lemma_gpio_models_update(old(self).gpio@, p as int, self.gpio@[p as int]);
                    }
                }
                self.state = State::Idle;
            },
            _ => {
                // Reserved codepoint states: SET_INTERRUPT is accepted from
                // any state; everything else is a silent no-op.
                if byte == CMD_GPIO_SET_INTERRUPT {
                    self.state = State::GPIOSetInterruptPin;
                } else {
                    nop();
                }
            },
        }
        proof {
            lemma_seq_add_empty::<u8>(old(outgoing)@);
        }
        0
    }

    /// Consumes one input byte and appends this byte's response bytes to
    /// `outgoing`; the returned count is how many bytes were appended.
    /// The whole effect — on the control state, the repeat and pin
    /// registers, and every peripheral — is exactly one `step` of the
    /// specification-level transition function.
    pub fn handle_byte(&mut self, byte: u8, outgoing: &mut Vec<u8>) -> (written: usize)
        ensures
            final(self).model() == step(old(self).model(), byte).m,
            final(outgoing)@ == old(outgoing)@ + step(old(self).model(), byte).out,
            written == step(old(self).model(), byte).out.len(),
    {
        self.out = byte;

        // A non-zero non-opcode byte in a bus-open state is a repeat
        // prefix: latch the count and await the command to repeat.
        if byte != 0 && self.is_repeat_token(byte) && self.is_valid_repeat_state() {
            self.repeat_remaining = byte;
            self.state = State::ExpectRepeatCommand;
            proof {
                lemma_seq_add_empty::<u8>(old(outgoing)@);
            }
            return 0;
        }

        // A repeat count has been latched; this byte names the command.
        if self.repeat_remaining != 0 && self.state == State::ExpectRepeatCommand {
            if byte == CMD_NOP {
                while self.repeat_remaining > 0
                    invariant
                        self.state == old(self).state,
                        self.pin == old(self).pin,
                        self.out == byte,
                        self.spi == old(self).spi,
                        self.i2c == old(self).i2c,
                        self.uart == old(self).uart,
                        self.gpio@ == old(self).gpio@,
                    decreases self.repeat_remaining,
                {
                    nop();
                    self.repeat_remaining = self.repeat_remaining - 1;
                }
                self.state = State::Idle;
            } else if byte == CMD_SLEEP {
                while self.repeat_remaining > 0
                    invariant
                        self.state == old(self).state,
                        self.pin == old(self).pin,
                        self.out == byte,
                        self.spi == old(self).spi,
                        self.i2c == old(self).i2c,
                        self.uart == old(self).uart,
                        self.gpio@ == old(self).gpio@,
                    decreases self.repeat_remaining,
                {
                    sleep();
                    self.repeat_remaining = self.repeat_remaining - 1;
                }
                self.state = State::Idle;
            } else if byte == CMD_SPITRANSFER {
                self.state = State::SPITransfer;
            } else if byte == CMD_I2CWRITE {
                self.state = State::I2CWrite;
            } else if byte == CMD_I2CREAD {
                self.state = State::I2CRead;
            } else if byte == CMD_UARTTRANSFER {
                self.state = State::UARTTransfer;
            } else {
                nop();
            }
            proof {
                lemma_seq_add_empty::<u8>(old(outgoing)@);
            }
            return 0;
        }

        // A bare command is a one-shot run.
        if self.repeat_remaining == 0 {
            self.repeat_remaining = 1;
        }
        self.repeat_remaining = self.repeat_remaining - 1;

        self.dispatch_byte(byte, outgoing)
    }

    /// Feeds a whole input slice byte by byte, appending all response
    /// bytes to `outgoing`; the returned count is how many bytes were
    /// appended in total.
    pub fn handle_buffer(&mut self, incoming: &[u8], outgoing: &mut Vec<u8>) -> (written: usize)
        ensures
            final(self).model() == run(old(self).model(), incoming@).m,
            final(outgoing)@ == old(outgoing)@ + run(old(self).model(), incoming@).out,
            written == run(old(self).model(), incoming@).out.len(),
    {
        let mut written: usize = 0;
        let ghost mut acc: Seq<u8> = Seq::empty();
        let mut i: usize = 0;
        proof {
            assert(incoming@.skip(0) =~= incoming@);
            lemma_seq_add_empty::<u8>(old(outgoing)@);
        }
        while i < incoming.len()
            invariant
                i <= incoming@.len(),
                written == acc.len(),
                acc.len() <= i,
                outgoing@ == old(outgoing)@ + acc,
                run(self.model(), incoming@.skip(i as int)).m
                    == run(old(self).model(), incoming@).m,
                acc + run(self.model(), incoming@.skip(i as int)).out
                    == run(old(self).model(), incoming@).out,
            decreases incoming@.len() - i,
        {
            let b = incoming[i];
            let ghost prev = self.model();
            let ghost prev_out = outgoing@;
            let n = self.handle_byte(b, outgoing);
            proof {
                lemma_step_out_len(prev, b);
                assert(incoming@.skip(i as int)[0] == b);
                assert(incoming@.skip(i as int).drop_first() =~= incoming@.skip(i as int + 1));
                assert((old(outgoing)@ + acc) + step(prev, b).out
                    =~= old(outgoing)@ + (acc + step(prev, b).out));
                assert((acc + step(prev, b).out)
                    + run(self.model(), incoming@.skip(i as int + 1)).out
                    =~= acc + (step(prev, b).out
                        + run(self.model(), incoming@.skip(i as int + 1)).out));
                acc = acc + step(prev, b).out;
            }
            written = written + n;
            i = i + 1;
        }
        proof {
            assert(incoming@.skip(i as int) =~= Seq::<u8>::empty());
            lemma_seq_add_empty::<u8>(acc);
        }
        written
    }
}

} // verus!
