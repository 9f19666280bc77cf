//! Decision logic of a point-to-point serial-wire conformance tester.
//!
//! Two serial ports are joined by a cable. A run checks that the handshake
//! lines of each port are seen at the other (Request-To-Send as Clear-To-Send,
//! Data-Terminal-Ready as Data-Set-Ready), and that a known pattern of bytes
//! crosses the cable unharmed in both directions, at several baud rates and
//! under every setting of the handshake lines.
//!
//! This crate holds the decisions of such a run and touches no port, clock or
//! terminal. Every test is a state machine: it names the next thing to do to
//! the hardware as a request, takes what came of it as an event, and ends with
//! a verdict. The caller carries the requests out.
//!
//! - [`wait`]: bounded polling of a fallible condition.
//! - [`status`]: reading modem-status lines out of a status register.
//! - [`lines`]: control lines, and settings of the four handshake lines.
//! - [`handshake`]: the test of one handshake line and its partner.
//! - [`transmit`]: the test of one transfer.
//! - [`fault`]: why a check failed, and how that is worded.
//! - [`text`]: styled text for a terminal.
//! - [`tap`]: the reporter, which numbers the checks and words their lines.
//! - [`suite`]: the checks of a run, in order, and the run itself.

pub mod fault;
pub mod handshake;
pub mod lines;
pub mod status;
pub mod suite;
pub mod tap;
pub mod text;
pub mod transmit;
pub mod wait;
