//! Mock peripheral drivers.
//!
//! Each mock implements its capability contract with plain registers and
//! proves the contract's method specifications; the `written`/`reads`
//! histories of the models are carried in ghost fields, so the mocks cost
//! nothing at run time beyond the registers themselves.

use vstd::prelude::*;

use crate::peripherals::{SPI, I2C, UART, GPIO, SpiModel, I2cModel, UartModel, GpioModel};

verus! {

/// A serial-master driver backed by plain registers.
#[derive(Clone, Copy)]
pub struct MockSPI {
    pub enable: bool,
    pub clock_speed_divisor: u8,
    pub out_reg: u8,
    pub mode: u8,
    pub frame: u8,
    pub role: u8,
    /// History of transferred bytes.
    pub written: Ghost<Seq<u8>>,
}

impl SPI for MockSPI {
    open spec fn model(&self) -> SpiModel {
        SpiModel {
            enabled: self.enable,
            clock_divisor: self.clock_speed_divisor,
            mode: self.mode,
            role: self.role,
            frame: self.frame,
            written: self.written@,
        }
    }

    fn enable(&mut self) {
        self.enable = true;
    }

    fn transfer(&mut self, byte: u8) -> (r: u8) {
        if self.enable {
            self.out_reg = byte;
        }
        self.written = Ghost(self.written@.push(byte));
        if byte == 0 {
            255
        } else {
            byte - 1
        }
    }

    fn disable(&mut self) {
        self.enable = false;
    }

    fn set_clock_speed_divisor(&mut self, divisor: u8) {
        self.clock_speed_divisor = divisor;
    }

    fn set_mode(&mut self, mode: u8) {
        self.mode = mode;
    }

    fn set_role(&mut self, role: u8) {
        self.role = role;
    }

    fn set_frame(&mut self, frame: u8) {
        self.frame = frame;
    }
}

/// A two-wire driver backed by plain registers.
#[derive(Clone, Copy)]
pub struct MockI2C {
    pub enable: bool,
    pub slave_address: u8,
    pub mode: u8,
    pub out_reg: u8,
    /// History of written bytes.
    pub written: Ghost<Seq<u8>>,
    /// How many reads were performed.
    pub reads: Ghost<nat>,
}

impl I2C for MockI2C {
    open spec fn model(&self) -> I2cModel {
        I2cModel {
            enabled: self.enable,
            slave_address: self.slave_address,
            mode: self.mode,
            written: self.written@,
            reads: self.reads@,
        }
    }

    fn enable(&mut self) {
        self.enable = true;
    }

    fn write(&mut self, byte: u8) {
        self.out_reg = byte;
        self.written = Ghost(self.written@.push(byte));
    }

    fn read(&mut self) -> (r: u8) {
        self.reads = Ghost(self.reads@ + 1);
        42
    }

    fn disable(&mut self) {
        self.enable = false;
    }

    fn set_slave_address(&mut self, address: u8) {
        self.slave_address = address;
    }

    fn set_mode(&mut self, mode: u8) {
        self.mode = mode;
    }
}

/// An asynchronous-serial driver backed by plain registers.
#[derive(Clone, Copy)]
pub struct MockUART {
    pub enable: bool,
    pub baudrate: u8,
    pub parity: u8,
    pub stop_bits: u8,
    pub data_bits: u8,
    pub out_reg: u8,
    /// History of transferred bytes.
    pub written: Ghost<Seq<u8>>,
}

impl UART for MockUART {
    open spec fn model(&self) -> UartModel {
        UartModel {
            enabled: self.enable,
            baudrate: self.baudrate,
            data_bits: self.data_bits,
            parity: self.parity,
            stop_bits: self.stop_bits,
            written: self.written@,
        }
    }

    fn enable(&mut self) {
        self.enable = true;
    }

    fn transfer(&mut self, byte: u8) {
        self.out_reg = byte;
        self.written = Ghost(self.written@.push(byte));
    }

    fn disable(&mut self) {
        self.enable = false;
    }

    fn set_baudrate(&mut self, baudrate: u8) {
        self.baudrate = baudrate;
    }

    fn set_data_bits(&mut self, data_bits: u8) {
        self.data_bits = data_bits;
    }

    fn set_parity(&mut self, parity: u8) {
        self.parity = parity;
    }

    fn set_stop_bits(&mut self, stop_bits: u8) {
        self.stop_bits = stop_bits;
    }
}

/// A general-purpose pin driver backed by plain registers.
#[derive(Clone, Copy)]
pub struct MockGPIO {
    pub pull: u8,
    pub direction: u8,
    pub digital_value: u8,
    pub analog_value: u8,
    pub pwm_value: u8,
    pub interrupt: u8,
}

impl GPIO for MockGPIO {
    open spec fn model(&self) -> GpioModel {
        GpioModel {
            pull: self.pull,
            direction: self.direction,
            digital: self.digital_value,
            analog: self.analog_value,
            pwm: self.pwm_value,
            interrupt: self.interrupt,
        }
    }

    fn set_pull(&mut self, pull: u8) {
        self.pull = pull;
    }

    fn set_direction(&mut self, direction: u8) {
        self.direction = direction;
    }

    fn write_digital_value(&mut self, value: u8) {
        self.digital_value = value;
    }

    fn write_analog_value(&mut self, value: u8) {
        self.analog_value = value;
    }

    fn write_pwm_value(&mut self, value: u8) {
        self.pwm_value = value;
    }

    fn get_pull(&mut self) -> (r: u8) {
        self.pull
    }

    fn get_direction(&mut self) -> (r: u8) {
        self.direction
    }

    fn read_digital_value(&mut self) -> (r: u8) {
        self.digital_value
    }

    fn read_analog_value(&mut self) -> (r: u8) {
        self.analog_value
    }

    fn read_pulse_length(&mut self) -> (r: u8) {
        self.pwm_value
    }

    fn set_interrupt(&mut self, interrupt: u8) {
        self.interrupt = interrupt;
    }
}

/// A whole mock microcontroller: one driver per capability and a bank of
/// eight pins, all zeroed.
pub struct MockMCU {
    pub spi: MockSPI,
    pub i2c: MockI2C,
    pub uart: MockUART,
    pub gpio: Vec<MockGPIO>,
}

impl MockMCU {
    pub fn new() -> (m: MockMCU)
        ensures
            m.spi.model() == (SpiModel {
                enabled: false,
                clock_divisor: 0,
                mode: 0,
                role: 0,
                frame: 0,
                written: Seq::empty(),
            }),
            m.i2c.model() == (I2cModel {
                enabled: false,
                slave_address: 0,
                mode: 0,
                written: Seq::empty(),
                reads: 0,
            }),
            m.uart.model() == (UartModel {
                enabled: false,
                baudrate: 0,
                data_bits: 0,
                parity: 0,
                stop_bits: 0,
                written: Seq::empty(),
            }),
            m.gpio@.len() == 8,
            forall|i: int|
                0 <= i < m.gpio@.len() ==> #[trigger] m.gpio@[i].model() == (GpioModel {
                    pull: 0,
                    direction: 0,
                    digital: 0,
                    analog: 0,
                    pwm: 0,
                    interrupt: 0,
                }),
    {
        let pin = MockGPIO {
            pull: 0,
            direction: 0,
            digital_value: 0,
            analog_value: 0,
            pwm_value: 0,
            interrupt: 0,
        };
        let mut gpio: Vec<MockGPIO> = Vec::new();
        let mut k: usize = 0;
        while k < 8
            invariant
                k <= 8,
                gpio@.len() == k,
                forall|i: int| 0 <= i < k ==> gpio@[i] == pin,
            decreases 8 - k,
        {
            gpio.push(pin);
            k = k + 1;
        }
        MockMCU {
            spi: MockSPI {
                enable: false,
                clock_speed_divisor: 0,
                out_reg: 0,
                mode: 0,
                frame: 0,
                role: 0,
                written: Ghost(Seq::empty()),
            },
            i2c: MockI2C {
                enable: false,
                out_reg: 0,
                slave_address: 0,
                mode: 0,
                written: Ghost(Seq::empty()),
                reads: Ghost(0nat),
            },
            uart: MockUART {
                enable: false,
                out_reg: 0,
                baudrate: 0,
                parity: 0,
                data_bits: 0,
                stop_bits: 0,
                written: Ghost(Seq::empty()),
            },
            gpio,
        }
    }
}

} // verus!
