//! Interface to the host link.
//!
//! The byte transport itself (a UART in the device) lives outside this
//! crate; implementations of `Transport` carry complete messages across
//! it.

use vstd::prelude::*;

verus! {

use crate::messages::{Report, Setpoint};

/// A full-duplex message transport to the host: reports go out, setpoints
/// come in.
pub trait Transport {
    /// Send one report to the host.
    fn send_report(report: Report);

    /// Accept one setpoint received from the host.
    fn receive_setpoint(setpoint: Setpoint);
}

} // verus!
