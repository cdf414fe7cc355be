//! The command vocabulary of the wire protocol.
//!
//! A byte is an opcode iff it is `CMD_NOP` (`0x00`) or its high bit
//! (`CMD_BASE`) is set; every other byte is an operand or a repeat count.

use vstd::prelude::*;

verus! {

/// Base address: the high bit that marks a byte as an opcode.
pub const CMD_BASE: u8 = 0x80;

// General operations.
pub const CMD_NOP: u8 = 0x00;
pub const CMD_SLEEP: u8 = 0x90;

// Serial master (SPI) group.
pub const CMD_SPIENABLE: u8 = 0xA0;
pub const CMD_SPITRANSFER: u8 = 0xA1;
pub const CMD_SPIDISABLE: u8 = 0xA2;
pub const CMD_SPISETCLOCKDIVISOR: u8 = 0xA3;
pub const CMD_SPISETMODE: u8 = 0xA4;
pub const CMD_SPISETROLE: u8 = 0xA5;
pub const CMD_SPISETFRAME: u8 = 0xA6;

// Two-wire bus (I2C) group.
pub const CMD_I2CENABLE: u8 = 0xB0;
pub const CMD_I2CWRITE: u8 = 0xB1;
pub const CMD_I2CREAD: u8 = 0xB2;
pub const CMD_I2CDISABLE: u8 = 0xB3;
pub const CMD_I2CSETMODE: u8 = 0xB4;
pub const CMD_I2CSETSLAVEADDRESS: u8 = 0xB5;

// Asynchronous serial (UART) group.
pub const CMD_UARTENABLE: u8 = 0xC0;
pub const CMD_UARTTRANSFER: u8 = 0xC1;
pub const CMD_UARTRECEIVE: u8 = 0xC2;
pub const CMD_UARTDISABLE: u8 = 0xC3;
pub const CMD_UARTSETBAUDRATE: u8 = 0xC4;
pub const CMD_UARTSETDATABITS: u8 = 0xC5;
pub const CMD_UARTSETPARITY: u8 = 0xC6;
pub const CMD_UARTSETSTOPBITS: u8 = 0xC7;

// Pin bank (GPIO) group.
pub const CMD_GPIO_SET_PULL: u8 = 0xD0;
pub const CMD_GPIO_SET_STATE: u8 = 0xD1;
pub const CMD_GPIO_WRITE_PWM_VALUE: u8 = 0xD2;
pub const CMD_GPIO_GET_PULL: u8 = 0xD3;
pub const CMD_GPIO_GET_STATE: u8 = 0xD4;
pub const CMD_GPIO_READ_PULSE_LENGTH: u8 = 0xD5;
pub const CMD_GPIO_SET_INTERRUPT: u8 = 0xD6;

} // verus!
