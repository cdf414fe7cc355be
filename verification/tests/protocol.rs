use gossip::commands::{
    CMD_NOP, CMD_SLEEP, CMD_SPIENABLE, CMD_SPITRANSFER, CMD_SPIDISABLE, CMD_I2CENABLE,
    CMD_I2CDISABLE, CMD_UARTENABLE, CMD_UARTTRANSFER, CMD_UARTDISABLE, CMD_GPIO_SET_PULL,
    CMD_GPIO_SET_STATE, CMD_GPIO_GET_PULL, CMD_GPIO_GET_STATE,
};
use gossip::machine::IOStateMachine;
use gossip::mocks::{MockMCU, MockGPIO, MockI2C, MockSPI, MockUART};
use gossip::state::{State, NO_CHANGE};

fn fresh() -> IOStateMachine<MockSPI, MockI2C, MockUART, MockGPIO> {
    let m = MockMCU::new();
    IOStateMachine {
        state: State::Idle,
        repeat_remaining: 0,
        pin: 0,
        spi: m.spi,
        i2c: m.i2c,
        uart: m.uart,
        gpio: m.gpio,
        out: 0,
    }
}

#[test]
fn test_scenario_spi_enable_transfer_payload() {
    let mut s = fresh();
    let mut outgoing: Vec<u8> = Vec::new();
    s.handle_byte(0xA0, &mut outgoing);
    assert_eq!(s.state, State::SPIEnable);
    s.handle_byte(0xA1, &mut outgoing);
    assert_eq!(s.state, State::SPITransfer);
    s.handle_byte(200, &mut outgoing);
    assert_eq!(s.state, State::SPIEnable);
    assert_eq!(s.spi.out_reg, 200);
    assert!(outgoing.is_empty());
}

#[test]
fn test_scenario_repeat_two_transfers() {
    let mut s = fresh();
    let mut outgoing: Vec<u8> = Vec::new();
    let written = s.handle_buffer(&[0xA0, 0x02, 0xA1, 200, 200], &mut outgoing);
    assert_eq!(s.state, State::SPIEnable);
    assert_eq!(s.spi.out_reg, 200);
    assert_eq!(written, 0);
    assert!(outgoing.is_empty());
}

#[test]
fn test_scenario_disable_opcode_consumed_as_payload() {
    let mut s = fresh();
    let mut outgoing: Vec<u8> = Vec::new();
    s.handle_buffer(&[0xA0, 0xA1, 0xA2], &mut outgoing);
    // The DISABLE byte is indistinguishable from data in transfer state:
    // it is transferred, the bus stays enabled.
    assert_eq!(s.spi.out_reg, 0xA2);
    assert_eq!(s.state, State::SPIEnable);
    assert_eq!(s.spi.enable, true);
}

#[test]
fn test_scenario_spi_transfer_opcode_while_uart_open() {
    let mut s = fresh();
    let mut outgoing: Vec<u8> = Vec::new();
    s.handle_buffer(&[0xC0, 0xA1], &mut outgoing);
    assert_eq!(s.state, State::UARTEnable);
    assert_eq!(s.uart.out_reg, 0);
    assert_eq!(s.spi.out_reg, 0);
    assert_eq!(s.spi.enable, false);
}

#[test]
fn test_scenario_set_pull_echoes_each_phase() {
    let mut s = fresh();
    let mut outgoing: Vec<u8> = Vec::new();
    let written = s.handle_buffer(&[0xD0, 5, 6], &mut outgoing);
    assert_eq!(s.gpio[5].pull, 6);
    assert_eq!(written, 3);
    assert_eq!(outgoing, vec![0xD0, 5, 6]);
    assert_eq!(s.state, State::Idle);
}

#[test]
fn test_scenario_set_state_with_no_change_direction() {
    let mut s = fresh();
    let mut outgoing: Vec<u8> = Vec::new();
    let written = s.handle_buffer(&[0xD1, 5, 7, 0xFF], &mut outgoing);
    assert_eq!(s.gpio[5].digital_value, 7);
    // NO_CHANGE suppresses the direction setter; the byte is still echoed.
    assert_eq!(s.gpio[5].direction, 0);
    assert_eq!(written, 4);
    assert_eq!(outgoing, vec![0xD1, 5, 7, 0xFF]);
    assert_eq!(s.state, State::Idle);
}

#[test]
fn test_set_pull_no_change_value() {
    let mut s = fresh();
    let mut outgoing: Vec<u8> = Vec::new();
    s.handle_buffer(&[CMD_GPIO_SET_PULL, 5, NO_CHANGE], &mut outgoing);
    assert_eq!(s.gpio[5].pull, 0);
    assert_eq!(outgoing, vec![CMD_GPIO_SET_PULL, 5, NO_CHANGE]);
    assert_eq!(s.state, State::Idle);
}

#[test]
fn test_get_pull_responds_with_configured_value() {
    let mut s = fresh();
    let mut outgoing: Vec<u8> = Vec::new();
    s.handle_buffer(&[CMD_GPIO_SET_PULL, 5, 6], &mut outgoing);
    outgoing.clear();
    let written = s.handle_buffer(&[CMD_GPIO_GET_PULL, 5], &mut outgoing);
    assert_eq!(written, 2);
    assert_eq!(outgoing, vec![CMD_GPIO_GET_PULL, 6]);
    assert_eq!(s.state, State::Idle);
}

#[test]
fn test_get_state_responds_with_value_and_direction() {
    let mut s = fresh();
    let mut outgoing: Vec<u8> = Vec::new();
    s.handle_buffer(&[CMD_GPIO_SET_STATE, 5, 7, 9], &mut outgoing);
    outgoing.clear();
    let written = s.handle_buffer(&[CMD_GPIO_GET_STATE, 5, 0, 0], &mut outgoing);
    assert_eq!(written, 4);
    assert_eq!(outgoing, vec![CMD_GPIO_GET_STATE, 5, 7, 9]);
    assert_eq!(s.state, State::Idle);
}

#[test]
fn test_gpio_pin_out_of_range_is_ignored() {
    let mut s = fresh();
    let mut outgoing: Vec<u8> = Vec::new();
    // The bank has eight pins; pin 200 is out of range.  The phases still
    // advance, the bytes are still echoed, and no pin is touched.
    let written = s.handle_buffer(&[CMD_GPIO_SET_PULL, 200, 6], &mut outgoing);
    assert_eq!(written, 3);
    assert_eq!(outgoing, vec![CMD_GPIO_SET_PULL, 200, 6]);
    assert_eq!(s.state, State::Idle);
    for pin in 0..8 {
        assert_eq!(s.gpio[pin].pull, 0);
    }
    outgoing.clear();
    // A read of an out-of-range pin answers zero.
    let written = s.handle_buffer(&[CMD_GPIO_GET_PULL, 200], &mut outgoing);
    assert_eq!(written, 2);
    assert_eq!(outgoing, vec![CMD_GPIO_GET_PULL, 0]);
}

#[test]
fn test_repeat_full_count_acts_exactly_n_times() {
    let mut s = fresh();
    let mut outgoing: Vec<u8> = Vec::new();
    s.handle_byte(CMD_UARTENABLE, &mut outgoing);
    s.handle_byte(127, &mut outgoing);
    assert_eq!(s.state, State::ExpectRepeatCommand);
    s.handle_byte(CMD_UARTTRANSFER, &mut outgoing);
    for k in 0..126 {
        s.handle_byte(k, &mut outgoing);
        assert_eq!(s.state, State::UARTTransfer);
    }
    s.handle_byte(126, &mut outgoing);
    assert_eq!(s.state, State::UARTEnable);
    assert_eq!(s.uart.out_reg, 126);
    assert!(outgoing.is_empty());
}

#[test]
fn test_repeat_nop_runs_on_the_spot() {
    let mut s = fresh();
    let mut outgoing: Vec<u8> = Vec::new();
    let written = s.handle_buffer(&[CMD_I2CENABLE, 4, CMD_NOP], &mut outgoing);
    assert_eq!(written, 0);
    assert_eq!(s.state, State::Idle);
    assert_eq!(s.repeat_remaining, 0);
}

#[test]
fn test_repeat_sleep_runs_on_the_spot() {
    let mut s = fresh();
    let mut outgoing: Vec<u8> = Vec::new();
    let written = s.handle_buffer(&[CMD_SPIENABLE, 9, CMD_SLEEP], &mut outgoing);
    assert_eq!(written, 0);
    assert_eq!(s.state, State::Idle);
    assert_eq!(s.repeat_remaining, 0);
}

#[test]
fn test_unrecognized_repeat_command_keeps_count() {
    let mut s = fresh();
    let mut outgoing: Vec<u8> = Vec::new();
    s.handle_buffer(&[CMD_SPIENABLE, 5, 0xF0], &mut outgoing);
    // An unrecognized opcode after a repeat prefix is a no-op that keeps
    // both the state and the count.
    assert_eq!(s.state, State::ExpectRepeatCommand);
    assert_eq!(s.repeat_remaining, 5);
    // The stale count then couples to the next payload opcode.
    s.handle_byte(CMD_SPITRANSFER, &mut outgoing);
    assert_eq!(s.state, State::SPITransfer);
    assert_eq!(s.repeat_remaining, 5);
}

#[test]
fn test_enable_disable_round_trips() {
    let mut s = fresh();
    let mut outgoing: Vec<u8> = Vec::new();
    s.handle_buffer(&[CMD_SPIENABLE, CMD_SPIDISABLE], &mut outgoing);
    assert_eq!(s.state, State::Idle);
    s.handle_buffer(&[CMD_I2CENABLE, CMD_I2CDISABLE], &mut outgoing);
    assert_eq!(s.state, State::Idle);
    s.handle_buffer(&[CMD_UARTENABLE, CMD_UARTDISABLE], &mut outgoing);
    assert_eq!(s.state, State::Idle);
    assert!(outgoing.is_empty());
}

#[test]
fn test_every_byte_from_idle_leaves_machine_usable() {
    let mut s = fresh();
    let mut outgoing: Vec<u8> = Vec::new();
    let mut bytes: Vec<u8> = Vec::new();
    for b in 0..=255u8 {
        bytes.push(b);
    }
    let written = s.handle_buffer(&bytes, &mut outgoing);
    assert_eq!(written, outgoing.len());
    assert!(written <= bytes.len());
    // Whatever state the stream left behind, the machine still answers a
    // well-formed command sequence.
    let mut t = fresh();
    t.state = s.state;
    t.repeat_remaining = s.repeat_remaining;
    t.pin = s.pin;
    let mut out2: Vec<u8> = Vec::new();
    t.handle_buffer(&[CMD_NOP, CMD_NOP, CMD_NOP, CMD_NOP], &mut out2);
    t.handle_buffer(&[CMD_SPIENABLE, CMD_SPIDISABLE], &mut out2);
}

#[test]
fn test_determinism_equal_streams_equal_observables() {
    let mut a = fresh();
    let mut b = fresh();
    let mut out_a: Vec<u8> = Vec::new();
    let mut out_b: Vec<u8> = Vec::new();
    let stream = [0xA0, 0x03, 0xA1, 1, 2, 3, 0xA2, 0xD0, 2, 9, 0xD3, 2];
    let wa = a.handle_buffer(&stream, &mut out_a);
    let wb = b.handle_buffer(&stream, &mut out_b);
    assert_eq!(wa, wb);
    assert_eq!(out_a, out_b);
    assert_eq!(a.state, b.state);
    assert_eq!(a.repeat_remaining, b.repeat_remaining);
    assert_eq!(a.pin, b.pin);
    assert_eq!(a.out, b.out);
    assert_eq!(a.spi.out_reg, b.spi.out_reg);
    assert_eq!(a.gpio[2].pull, b.gpio[2].pull);
}

#[test]
fn test_return_byte_reports_last_byte() {
    let mut s = fresh();
    let mut outgoing: Vec<u8> = Vec::new();
    assert_eq!(s.return_byte(), 0);
    s.handle_byte(CMD_SPIENABLE, &mut outgoing);
    assert_eq!(s.return_byte(), CMD_SPIENABLE);
    s.handle_byte(3, &mut outgoing);
    assert_eq!(s.return_byte(), 3);
}

#[test]
fn test_handle_buffer_aggregates_responses() {
    let mut s = fresh();
    let mut outgoing: Vec<u8> = Vec::new();
    let written = s.handle_buffer(
        &[CMD_SPIENABLE, CMD_SPITRANSFER, 10, CMD_SPIDISABLE, CMD_GPIO_SET_PULL, 1, 2],
        &mut outgoing,
    );
    assert_eq!(written, 3);
    assert_eq!(outgoing, vec![CMD_GPIO_SET_PULL, 1, 2]);
    assert_eq!(s.spi.out_reg, 10);
    assert_eq!(s.spi.enable, false);
    assert_eq!(s.gpio[1].pull, 2);
    assert_eq!(s.state, State::Idle);
}

#[test]
fn test_get_pull_legal_from_open_bus() {
    let mut s = fresh();
    let mut outgoing: Vec<u8> = Vec::new();
    s.handle_buffer(&[CMD_GPIO_SET_PULL, 3, 4, CMD_SPIENABLE], &mut outgoing);
    outgoing.clear();
    let written = s.handle_buffer(&[CMD_GPIO_GET_PULL, 3], &mut outgoing);
    assert_eq!(written, 2);
    assert_eq!(outgoing, vec![CMD_GPIO_GET_PULL, 4]);
    assert_eq!(s.state, State::Idle);
    // The serial bus itself was never disabled.
    assert_eq!(s.spi.enable, true);
}
