//! Protocol-wide laws of the interpreter, proved over the
//! specification-level transition function.

use vstd::prelude::*;

use crate::commands::{
    CMD_BASE, CMD_NOP, CMD_SLEEP, CMD_SPIENABLE, CMD_SPITRANSFER, CMD_SPIDISABLE,
    CMD_SPISETCLOCKDIVISOR, CMD_SPISETMODE, CMD_SPISETROLE, CMD_SPISETFRAME, CMD_I2CENABLE,
    CMD_I2CWRITE, CMD_I2CREAD, CMD_I2CDISABLE, CMD_I2CSETMODE, CMD_I2CSETSLAVEADDRESS,
    CMD_UARTENABLE, CMD_UARTTRANSFER, CMD_UARTDISABLE, CMD_UARTSETBAUDRATE, CMD_UARTSETDATABITS,
    CMD_UARTSETPARITY, CMD_UARTSETSTOPBITS, CMD_GPIO_SET_PULL, CMD_GPIO_SET_STATE,
    CMD_GPIO_SET_INTERRUPT,
};
use crate::peripherals::{SpiModel, I2cModel, UartModel};
use crate::state::State;
use crate::step::{Model, step, run, lemma_seq_add_empty};

verus! {

/// The states an interpreter can actually be in: every variant except the
/// reserved codepoints that no transition ever enters.
pub open spec fn valid_state(s: State) -> bool {
    !(s == State::ID_Set || s == State::UARTReceive || s == State::GPIOSetState
        || s == State::GPIOGetState || s == State::GPIOReadAnalogValue
        || s == State::GPIOGetDirection)
}

/// No input byte can drive the interpreter into a reserved state.
pub proof fn lemma_step_preserves_valid_state(m: Model, byte: u8)
    requires
        valid_state(m.state),
    ensures
        valid_state(step(m, byte).m.state),
{
}

/// No byte sequence can drive the interpreter into a reserved state: fed
/// any input whatsoever, it stays within the enumerated state vocabulary.
pub proof fn lemma_run_preserves_valid_state(m: Model, bytes: Seq<u8>)
    requires
        valid_state(m.state),
    ensures
        valid_state(run(m, bytes).m.state),
    decreases bytes.len(),
{
    if bytes.len() > 0 {
        lemma_step_preserves_valid_state(m, bytes[0]);
        lemma_run_preserves_valid_state(step(m, bytes[0]).m, bytes.drop_first());
    }
}

/// `step` is a function: equal models fed equal bytes make equal
/// peripheral calls, reach equal successor models and emit equal response
/// bytes.
pub proof fn lemma_step_deterministic(m1: Model, m2: Model, b1: u8, b2: u8)
    requires
        m1 == m2,
        b1 == b2,
    ensures
        step(m1, b1) == step(m2, b2),
{
}

/// Unrolls a two-byte run into its two steps.
pub proof fn lemma_run_two(m: Model, a: u8, b: u8)
    ensures
        run(m, seq![a, b]).m == step(step(m, a).m, b).m,
{
    let s = seq![a, b];
    assert(s[0] == a);
    assert(s.drop_first() =~= seq![b]);
    assert(seq![b][0] == b);
    assert(seq![b].drop_first() =~= Seq::<u8>::empty());
    assert(run(step(step(m, a).m, b).m, Seq::<u8>::empty()).m == step(step(m, a).m, b).m);
    assert(run(step(m, a).m, seq![b]).m == step(step(m, a).m, b).m);
}

/// Unrolls a three-byte run into its three steps.
pub proof fn lemma_run_three(m: Model, a: u8, b: u8, c: u8)
    ensures
        run(m, seq![a, b, c]).m == step(step(step(m, a).m, b).m, c).m,
{
    let s = seq![a, b, c];
    assert(s[0] == a);
    assert(s.drop_first() =~= seq![b, c]);
    lemma_run_two(step(m, a).m, b, c);
}

/// Unrolls a four-byte run into its four steps.
pub proof fn lemma_run_four(m: Model, a: u8, b: u8, c: u8, d: u8)
    ensures
        run(m, seq![a, b, c, d]).m == step(step(step(step(m, a).m, b).m, c).m, d).m,
{
    let s = seq![a, b, c, d];
    assert(s[0] == a);
    assert(s.drop_first() =~= seq![b, c, d]);
    lemma_run_three(step(m, a).m, b, c, d);
}

/// An immediate top-level command (NOP or SLEEP) leaves the interpreter
/// in `Idle`.
pub proof fn lemma_immediate_command_keeps_idle(m: Model, byte: u8)
    requires
        m.state == State::Idle,
        byte == CMD_NOP || byte == CMD_SLEEP,
    ensures
        step(m, byte).m.state == State::Idle,
{
}

/// Disabling an open bus returns the interpreter to `Idle`.
pub proof fn lemma_disable_returns_to_idle(m: Model, byte: u8)
    requires
        (m.state == State::SPIEnable && byte == CMD_SPIDISABLE)
            || (m.state == State::I2CEnable && byte == CMD_I2CDISABLE)
            || (m.state == State::UARTEnable && byte == CMD_UARTDISABLE),
    ensures
        step(m, byte).m.state == State::Idle,
{
}

/// A one-operand configuration command issued from `Idle` consumes its
/// operand and returns the interpreter to `Idle`, whatever the operand.
pub proof fn lemma_config_returns_to_idle(m: Model, op: u8, operand: u8)
    requires
        m.state == State::Idle,
        op == CMD_SPISETCLOCKDIVISOR || op == CMD_SPISETMODE || op == CMD_SPISETROLE
            || op == CMD_SPISETFRAME || op == CMD_I2CSETSLAVEADDRESS || op == CMD_I2CSETMODE
            || op == CMD_UARTSETBAUDRATE || op == CMD_UARTSETDATABITS || op == CMD_UARTSETPARITY
            || op == CMD_UARTSETSTOPBITS,
    ensures
        run(m, seq![op, operand]).m.state == State::Idle,
{
    lemma_run_two(m, op, operand);
}

/// A pin-bank SET_PULL command issued from `Idle` consumes its two
/// operands and returns the interpreter to `Idle`.
pub proof fn lemma_gpio_set_pull_returns_to_idle(m: Model, pin: u8, value: u8)
    requires
        m.state == State::Idle,
    ensures
        run(m, seq![CMD_GPIO_SET_PULL, pin, value]).m.state == State::Idle,
{
    lemma_run_three(m, CMD_GPIO_SET_PULL, pin, value);
}

/// A pin-bank SET_STATE command issued from `Idle` consumes its three
/// operands and returns the interpreter to `Idle`.
pub proof fn lemma_gpio_set_state_returns_to_idle(m: Model, pin: u8, value: u8, direction: u8)
    requires
        m.state == State::Idle,
    ensures
        run(m, seq![CMD_GPIO_SET_STATE, pin, value, direction]).m.state == State::Idle,
{
    lemma_run_four(m, CMD_GPIO_SET_STATE, pin, value, direction);
}

/// A pin-bank SET_INTERRUPT command issued from `Idle` consumes its two
/// operands and returns the interpreter to `Idle`.
pub proof fn lemma_gpio_set_interrupt_returns_to_idle(m: Model, pin: u8, value: u8)
    requires
        m.state == State::Idle,
    ensures
        run(m, seq![CMD_GPIO_SET_INTERRUPT, pin, value]).m.state == State::Idle,
{
    lemma_run_three(m, CMD_GPIO_SET_INTERRUPT, pin, value);
}

/// Enabling and then disabling any one of the three buses from `Idle`
/// returns the interpreter to `Idle`.
pub proof fn lemma_enable_disable_round_trip(m: Model)
    requires
        m.state == State::Idle,
    ensures
        run(m, seq![CMD_SPIENABLE, CMD_SPIDISABLE]).m.state == State::Idle,
        run(m, seq![CMD_I2CENABLE, CMD_I2CDISABLE]).m.state == State::Idle,
        run(m, seq![CMD_UARTENABLE, CMD_UARTDISABLE]).m.state == State::Idle,
{
    lemma_run_two(m, CMD_SPIENABLE, CMD_SPIDISABLE);
    lemma_run_two(m, CMD_I2CENABLE, CMD_I2CDISABLE);
    lemma_run_two(m, CMD_UARTENABLE, CMD_UARTDISABLE);
}

/// Draining a serial-master payload run: with `repeat` holding the number
/// of payload bytes still owed, exactly those bytes are transferred and
/// the interpreter returns to the open bus.
pub proof fn lemma_spi_payload_drain(m: Model, payload: Seq<u8>)
    requires
        m.state == State::SPITransfer,
        m.repeat as int == payload.len(),
        payload.len() >= 1,
    ensures
        run(m, payload).m == (Model {
            state: State::SPIEnable,
            repeat: 0,
            out: payload.last(),
            spi: SpiModel { written: m.spi.written + payload, ..m.spi },
            ..m
        }),
        run(m, payload).out == Seq::<u8>::empty(),
    decreases payload.len(),
{
    let b = payload[0];
    let m1 = step(m, b).m;
    lemma_seq_add_empty(run(m1, payload.drop_first()).out);
    if payload.len() == 1 {
        assert(payload.drop_first() =~= Seq::<u8>::empty());
        assert(m.spi.written + payload =~= m.spi.written.push(b));
    } else {
        lemma_spi_payload_drain(m1, payload.drop_first());
        assert(m.spi.written.push(b) + payload.drop_first() =~= m.spi.written + payload);
        assert(payload.drop_first().last() == payload.last());
    }
}

/// A repeat prefix of `count` followed by the serial-master TRANSFER
/// opcode causes exactly `count` transfers — of exactly the `count`
/// payload bytes, in order — before the interpreter returns to the open
/// serial bus.
pub proof fn lemma_repeat_spi_transfer(m: Model, count: u8, payload: Seq<u8>)
    requires
        m.state == State::SPIEnable,
        1 <= count < CMD_BASE,
        payload.len() == count as int,
    ensures
        run(m, seq![count, CMD_SPITRANSFER] + payload).m == (Model {
            state: State::SPIEnable,
            repeat: 0,
            out: payload.last(),
            spi: SpiModel { written: m.spi.written + payload, ..m.spi },
            ..m
        }),
        run(m, seq![count, CMD_SPITRANSFER] + payload).out == Seq::<u8>::empty(),
{
    let s = seq![count, CMD_SPITRANSFER] + payload;
    assert(s[0] == count);
    assert(s.drop_first() =~= seq![CMD_SPITRANSFER] + payload);
    let m1 = step(m, count).m;
    let s1 = seq![CMD_SPITRANSFER] + payload;
    assert(s1[0] == CMD_SPITRANSFER);
    assert(s1.drop_first() =~= payload);
    let m2 = step(m1, CMD_SPITRANSFER).m;
    lemma_spi_payload_drain(m2, payload);
    lemma_seq_add_empty(run(m2, payload).out);
    lemma_seq_add_empty(run(m1, s1).out);
}

/// Draining a two-wire write run: exactly the owed payload bytes are
/// written, then the interpreter returns to the open bus.
pub proof fn lemma_i2c_write_drain(m: Model, payload: Seq<u8>)
    requires
        m.state == State::I2CWrite,
        m.repeat as int == payload.len(),
        payload.len() >= 1,
    ensures
        run(m, payload).m == (Model {
            state: State::I2CEnable,
            repeat: 0,
            out: payload.last(),
            i2c: I2cModel { written: m.i2c.written + payload, ..m.i2c },
            ..m
        }),
        run(m, payload).out == Seq::<u8>::empty(),
    decreases payload.len(),
{
    let b = payload[0];
    let m1 = step(m, b).m;
    lemma_seq_add_empty(run(m1, payload.drop_first()).out);
    if payload.len() == 1 {
        assert(payload.drop_first() =~= Seq::<u8>::empty());
        assert(m.i2c.written + payload =~= m.i2c.written.push(b));
    } else {
        lemma_i2c_write_drain(m1, payload.drop_first());
        assert(m.i2c.written.push(b) + payload.drop_first() =~= m.i2c.written + payload);
        assert(payload.drop_first().last() == payload.last());
    }
}

/// A repeat prefix of `count` followed by the two-wire WRITE opcode
/// causes exactly `count` writes of the payload bytes, in order, before
/// the interpreter returns to the open two-wire bus.
pub proof fn lemma_repeat_i2c_write(m: Model, count: u8, payload: Seq<u8>)
    requires
        m.state == State::I2CEnable,
        1 <= count < CMD_BASE,
        payload.len() == count as int,
    ensures
        run(m, seq![count, CMD_I2CWRITE] + payload).m == (Model {
            state: State::I2CEnable,
            repeat: 0,
            out: payload.last(),
            i2c: I2cModel { written: m.i2c.written + payload, ..m.i2c },
            ..m
        }),
        run(m, seq![count, CMD_I2CWRITE] + payload).out == Seq::<u8>::empty(),
{
    let s = seq![count, CMD_I2CWRITE] + payload;
    assert(s[0] == count);
    assert(s.drop_first() =~= seq![CMD_I2CWRITE] + payload);
    let m1 = step(m, count).m;
    let s1 = seq![CMD_I2CWRITE] + payload;
    assert(s1[0] == CMD_I2CWRITE);
    assert(s1.drop_first() =~= payload);
    let m2 = step(m1, CMD_I2CWRITE).m;
    lemma_i2c_write_drain(m2, payload);
    lemma_seq_add_empty(run(m2, payload).out);
    lemma_seq_add_empty(run(m1, s1).out);
}

/// Draining a two-wire read run: one read is performed for each owed
/// payload byte, then the interpreter returns to the open bus.
pub proof fn lemma_i2c_read_drain(m: Model, payload: Seq<u8>)
    requires
        m.state == State::I2CRead,
        m.repeat as int == payload.len(),
        payload.len() >= 1,
    ensures
        run(m, payload).m == (Model {
            state: State::I2CEnable,
            repeat: 0,
            out: payload.last(),
            i2c: I2cModel { reads: m.i2c.reads + payload.len(), ..m.i2c },
            ..m
        }),
        run(m, payload).out == Seq::<u8>::empty(),
    decreases payload.len(),
{
    let b = payload[0];
    let m1 = step(m, b).m;
    lemma_seq_add_empty(run(m1, payload.drop_first()).out);
    if payload.len() == 1 {
        assert(payload.drop_first() =~= Seq::<u8>::empty());
    } else {
        lemma_i2c_read_drain(m1, payload.drop_first());
        assert(payload.drop_first().last() == payload.last());
    }
}

/// A repeat prefix of `count` followed by the two-wire READ opcode causes
/// exactly `count` reads before the interpreter returns to the open
/// two-wire bus.
pub proof fn lemma_repeat_i2c_read(m: Model, count: u8, payload: Seq<u8>)
    requires
        m.state == State::I2CEnable,
        1 <= count < CMD_BASE,
        payload.len() == count as int,
    ensures
        run(m, seq![count, CMD_I2CREAD] + payload).m == (Model {
            state: State::I2CEnable,
            repeat: 0,
            out: payload.last(),
            i2c: I2cModel { reads: m.i2c.reads + payload.len(), ..m.i2c },
            ..m
        }),
        run(m, seq![count, CMD_I2CREAD] + payload).out == Seq::<u8>::empty(),
{
    let s = seq![count, CMD_I2CREAD] + payload;
    assert(s[0] == count);
    assert(s.drop_first() =~= seq![CMD_I2CREAD] + payload);
    let m1 = step(m, count).m;
    let s1 = seq![CMD_I2CREAD] + payload;
    assert(s1[0] == CMD_I2CREAD);
    assert(s1.drop_first() =~= payload);
    let m2 = step(m1, CMD_I2CREAD).m;
    lemma_i2c_read_drain(m2, payload);
    lemma_seq_add_empty(run(m2, payload).out);
    lemma_seq_add_empty(run(m1, s1).out);
}

/// Draining an asynchronous-serial payload run: exactly the owed payload
/// bytes are transferred, then the interpreter returns to the open bus.
pub proof fn lemma_uart_payload_drain(m: Model, payload: Seq<u8>)
    requires
        m.state == State::UARTTransfer,
        m.repeat as int == payload.len(),
        payload.len() >= 1,
    ensures
        run(m, payload).m == (Model {
            state: State::UARTEnable,
            repeat: 0,
            out: payload.last(),
            uart: UartModel { written: m.uart.written + payload, ..m.uart },
            ..m
        }),
        run(m, payload).out == Seq::<u8>::empty(),
    decreases payload.len(),
{
    let b = payload[0];
    let m1 = step(m, b).m;
    lemma_seq_add_empty(run(m1, payload.drop_first()).out);
    if payload.len() == 1 {
        assert(payload.drop_first() =~= Seq::<u8>::empty());
        assert(m.uart.written + payload =~= m.uart.written.push(b));
    } else {
        lemma_uart_payload_drain(m1, payload.drop_first());
        assert(m.uart.written.push(b) + payload.drop_first() =~= m.uart.written + payload);
        assert(payload.drop_first().last() == payload.last());
    }
}

/// A repeat prefix of `count` followed by the asynchronous-serial
/// TRANSFER opcode causes exactly `count` transfers of the payload bytes,
/// in order, before the interpreter returns to the open bus.
pub proof fn lemma_repeat_uart_transfer(m: Model, count: u8, payload: Seq<u8>)
    requires
        m.state == State::UARTEnable,
        1 <= count < CMD_BASE,
        payload.len() == count as int,
    ensures
        run(m, seq![count, CMD_UARTTRANSFER] + payload).m == (Model {
            state: State::UARTEnable,
            repeat: 0,
            out: payload.last(),
            uart: UartModel { written: m.uart.written + payload, ..m.uart },
            ..m
        }),
        run(m, seq![count, CMD_UARTTRANSFER] + payload).out == Seq::<u8>::empty(),
{
    let s = seq![count, CMD_UARTTRANSFER] + payload;
    assert(s[0] == count);
    assert(s.drop_first() =~= seq![CMD_UARTTRANSFER] + payload);
    let m1 = step(m, count).m;
    let s1 = seq![CMD_UARTTRANSFER] + payload;
    assert(s1[0] == CMD_UARTTRANSFER);
    assert(s1.drop_first() =~= payload);
    let m2 = step(m1, CMD_UARTTRANSFER).m;
    lemma_uart_payload_drain(m2, payload);
    lemma_seq_add_empty(run(m2, payload).out);
    lemma_seq_add_empty(run(m1, s1).out);
}

} // verus!
