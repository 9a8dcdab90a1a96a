//! Driver for a dual-bank, sixteen-pin I2C GPIO expander.
//!
//! The expander keeps a cached copy of the chip's eight 8-bit registers (input,
//! output, polarity inversion and configuration, for each of two banks) and
//! commits whole register bytes to the chip over an I2C bus. A bus keeps a
//! record of its transactions (`I2cBus::history`), which each bus call extends
//! by one transfer. The contract of every expander operation states exactly
//! which transfers it appended and how it used what the bus answered.
//!
//! * `bits`: register bytes seen as eight pin flags.
//! * `bus`: the bus the expander talks through, and its record of transfers.
//! * `expander`: the cached registers and the register protocol.
//! * `pin_ops`: what pin handles do to the shared expander.
//! * `pins`, `sync_state`: type-level tags and traits of pin handles.
//! * `laws`: properties that hold across calls.
//! * `example`: a stand-in bus for examples.
pub mod bits;
pub mod bus;
pub mod example;
pub mod expander;
pub mod laws;
pub mod pin_ops;
pub mod pins;
pub mod sync_state;
