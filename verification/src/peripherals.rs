//! The four peripheral capability contracts and their abstract models.
//!
//! Each capability is a trait whose methods carry contracts over a small
//! mathematical model of the driver: configuration registers as plain
//! bytes, and the payload traffic as a sequence (so that a contract can say
//! how often, and with which bytes, a method was invoked).  Any driver that
//! maps itself onto such a model satisfies the contract; the mock drivers
//! in this crate do so and are verified against it.

use vstd::prelude::*;

verus! {

/// Abstract model of a serial-master (SPI-like) peripheral.
#[verifier::ext_equal]
pub struct SpiModel {
    pub enabled: bool,
    pub clock_divisor: u8,
    pub mode: u8,
    pub role: u8,
    pub frame: u8,
    /// Every byte handed to `transfer`, in order.
    pub written: Seq<u8>,
}

/// Abstract model of a two-wire (I2C-like) peripheral.
#[verifier::ext_equal]
pub struct I2cModel {
    pub enabled: bool,
    pub slave_address: u8,
    pub mode: u8,
    /// Every byte handed to `write`, in order.
    pub written: Seq<u8>,
    /// How many times `read` was invoked.
    pub reads: nat,
}

/// Abstract model of an asynchronous-serial (UART-like) peripheral.
#[verifier::ext_equal]
pub struct UartModel {
    pub enabled: bool,
    pub baudrate: u8,
    pub data_bits: u8,
    pub parity: u8,
    pub stop_bits: u8,
    /// Every byte handed to `transfer`, in order.
    pub written: Seq<u8>,
}

/// Abstract model of a single general-purpose pin.
#[verifier::ext_equal]
pub struct GpioModel {
    pub pull: u8,
    pub direction: u8,
    pub digital: u8,
    pub analog: u8,
    pub pwm: u8,
    pub interrupt: u8,
}

/// Serial-master capability.  All operations are infallible.
pub trait SPI: Sized {
    /// The driver's mapping onto the abstract model.
    spec fn model(&self) -> SpiModel;

    fn enable(&mut self)
        ensures
            final(self).model() == (SpiModel { enabled: true, ..old(self).model() }),
    ;

    /// Clocks one byte out on the bus; the returned byte is whatever the
    /// bus clocked in, about which nothing is promised.
    fn transfer(&mut self, byte: u8) -> (r: u8)
        ensures
            final(self).model() == (SpiModel {
                written: old(self).model().written.push(byte),
                ..old(self).model()
            }),
    ;

    fn disable(&mut self)
        ensures
            final(self).model() == (SpiModel { enabled: false, ..old(self).model() }),
    ;

    fn set_clock_speed_divisor(&mut self, divisor: u8)
        ensures
            final(self).model() == (SpiModel { clock_divisor: divisor, ..old(self).model() }),
    ;

    fn set_mode(&mut self, mode: u8)
        ensures
            final(self).model() == (SpiModel { mode: mode, ..old(self).model() }),
    ;

    fn set_role(&mut self, role: u8)
        ensures
            final(self).model() == (SpiModel { role: role, ..old(self).model() }),
    ;

    fn set_frame(&mut self, frame: u8)
        ensures
            final(self).model() == (SpiModel { frame: frame, ..old(self).model() }),
    ;
}

/// Two-wire bus capability.  All operations are infallible.
pub trait I2C: Sized {
    /// The driver's mapping onto the abstract model.
    spec fn model(&self) -> I2cModel;

    fn enable(&mut self)
        ensures
            final(self).model() == (I2cModel { enabled: true, ..old(self).model() }),
    ;

    fn write(&mut self, byte: u8)
        ensures
            final(self).model() == (I2cModel {
                written: old(self).model().written.push(byte),
                ..old(self).model()
            }),
    ;

    /// Reads one byte from the bus; nothing is promised about its value.
    fn read(&mut self) -> (r: u8)
        ensures
            final(self).model() == (I2cModel {
                reads: old(self).model().reads + 1,
                ..old(self).model()
            }),
    ;

    fn disable(&mut self)
        ensures
            final(self).model() == (I2cModel { enabled: false, ..old(self).model() }),
    ;

    fn set_slave_address(&mut self, address: u8)
        ensures
            final(self).model() == (I2cModel { slave_address: address, ..old(self).model() }),
    ;

    fn set_mode(&mut self, mode: u8)
        ensures
            final(self).model() == (I2cModel { mode: mode, ..old(self).model() }),
    ;
}

/// Asynchronous-serial capability.  All operations are infallible.
pub trait UART: Sized {
    /// The driver's mapping onto the abstract model.
    spec fn model(&self) -> UartModel;

    fn enable(&mut self)
        ensures
            final(self).model() == (UartModel { enabled: true, ..old(self).model() }),
    ;

    fn transfer(&mut self, byte: u8)
        ensures
            final(self).model() == (UartModel {
                written: old(self).model().written.push(byte),
                ..old(self).model()
            }),
    ;

    fn disable(&mut self)
        ensures
            final(self).model() == (UartModel { enabled: false, ..old(self).model() }),
    ;

    fn set_baudrate(&mut self, baudrate: u8)
        ensures
            final(self).model() == (UartModel { baudrate: baudrate, ..old(self).model() }),
    ;

    fn set_data_bits(&mut self, data_bits: u8)
        ensures
            final(self).model() == (UartModel { data_bits: data_bits, ..old(self).model() }),
    ;

    fn set_parity(&mut self, parity: u8)
        ensures
            final(self).model() == (UartModel { parity: parity, ..old(self).model() }),
    ;

    fn set_stop_bits(&mut self, stop_bits: u8)
        ensures
            final(self).model() == (UartModel { stop_bits: stop_bits, ..old(self).model() }),
    ;
}

/// General-purpose pin capability.  All operations are infallible.
pub trait GPIO: Sized {
    /// The driver's mapping onto the abstract model.
    spec fn model(&self) -> GpioModel;

    fn set_pull(&mut self, pull: u8)
        ensures
            final(self).model() == (GpioModel { pull: pull, ..old(self).model() }),
    ;

    fn set_direction(&mut self, direction: u8)
        ensures
            final(self).model() == (GpioModel { direction: direction, ..old(self).model() }),
    ;

    fn write_digital_value(&mut self, value: u8)
        ensures
            final(self).model() == (GpioModel { digital: value, ..old(self).model() }),
    ;

    fn write_analog_value(&mut self, value: u8)
        ensures
            final(self).model() == (GpioModel { analog: value, ..old(self).model() }),
    ;

    fn write_pwm_value(&mut self, value: u8)
        ensures
            final(self).model() == (GpioModel { pwm: value, ..old(self).model() }),
    ;

    fn get_pull(&mut self) -> (r: u8)
        ensures
            final(self).model() == old(self).model(),
            r == old(self).model().pull,
    ;

    fn get_direction(&mut self) -> (r: u8)
        ensures
            final(self).model() == old(self).model(),
            r == old(self).model().direction,
    ;

    fn read_digital_value(&mut self) -> (r: u8)
        ensures
            final(self).model() == old(self).model(),
            r == old(self).model().digital,
    ;

    fn read_analog_value(&mut self) -> (r: u8)
        ensures
            final(self).model() == old(self).model(),
            r == old(self).model().analog,
    ;

    /// Measures a pulse on the pin; nothing is promised about the result.
    fn read_pulse_length(&mut self) -> (r: u8)
        ensures
            final(self).model() == old(self).model(),
    ;

    fn set_interrupt(&mut self, interrupt: u8)
        ensures
            final(self).model() == (GpioModel { interrupt: interrupt, ..old(self).model() }),
    ;
}

/// The models of a whole pin bank, pin by pin.
pub open spec fn gpio_models<G: GPIO>(bank: Seq<G>) -> Seq<GpioModel> {
    Seq::new(bank.len(), |i: int| bank[i].model())
}

/// Updating one pin of a bank updates exactly that entry of its models.
pub proof fn lemma_gpio_models_update<G: GPIO>(bank: Seq<G>, i: int, g: G)
    requires
        0 <= i < bank.len(),
    ensures
        gpio_models(bank.update(i, g)) == gpio_models(bank).update(i, g.model()),
{
    assert(gpio_models(bank.update(i, g)) =~= gpio_models(bank).update(i, g.model()));
}

} // verus!
