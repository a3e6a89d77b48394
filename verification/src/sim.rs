//! Deterministic stand-ins for the bus connection and the vendor algorithm
//! library, so the session logic can be exercised end to end without
//! hardware.
//!
//! [`SimBus`] answers block transfers from a script; [`SimLink`] answers
//! the vendor library's operations from configured statuses and a fixed
//! snapshot, and counts every call, so a test can observe that a path
//! performed no traffic at all.

use crate::algo::{AlgoLink, RawFieldData, BME680_FORCED_MODE, BME680_SLEEP_MODE};
use crate::registry::BusHandle;
use crate::settings::AppliedSettings;
use vstd::prelude::*;

verus! {

/// Bump a call counter, sticking at the maximum rather than wrapping.
fn bump(c: u32) -> (r: u32)
    ensures
        c < u32::MAX ==> r == c + 1,
        c == u32::MAX ==> r == c,
{
    if c == u32::MAX {
        c
    } else {
        c + 1
    }
}

/// An owned copy of a byte sequence.
fn copy_bytes(data: &Vec<u8>) -> (r: Vec<u8>)
    ensures
        r@ == data@,
{
    let mut out: Vec<u8> = Vec::new();
    let mut i: usize = 0;
    while i < data.len()
        invariant
            i <= data@.len(),
            out@ == data@.subrange(0, i as int),
        decreases data@.len() - i,
    {
        out.push(data[i]);
        assert(out@ =~= data@.subrange(0, i + 1 as int));
        i = i + 1;
    }
    assert(out@ =~= data@);
    out
}

/// A scripted bus connection: block writes succeed or fail as configured,
/// and block reads hand back a copy of a configured byte sequence, whatever
/// length was requested — which is how a short or over-long bus answer is
/// staged.
pub struct SimBus {
    /// Whether block writes report success.
    pub write_ok: bool,
    /// What block reads return; `None` fails the read.
    pub read_data: Option<Vec<u8>>,
    pub write_calls: u32,
    pub read_calls: u32,
}

impl SimBus {
    pub fn new(write_ok: bool, read_data: Option<Vec<u8>>) -> (r: SimBus)
        ensures
            r.write_ok == write_ok,
            r.read_data == read_data,
            r.write_calls == 0,
            r.read_calls == 0,
    {
        SimBus { write_ok, read_data, write_calls: 0, read_calls: 0 }
    }
}

impl BusHandle for SimBus {
    fn block_write(&mut self, reg_addr: u8, data: &[u8]) -> (r: bool)
        ensures
            r == old(self).write_ok,
    {
        self.write_calls = bump(self.write_calls);
        self.write_ok
    }

    fn block_read(&mut self, reg_addr: u8, len: u8) -> (r: Option<Vec<u8>>)
        ensures
            r is Some <==> old(self).read_data is Some,
            r matches Some(d) ==> old(self).read_data matches Some(s) && d@ == s@,
    {
        self.read_calls = bump(self.read_calls);
        match &self.read_data {
            None => None,
            Some(d) => Some(copy_bytes(d)),
        }
    }
}

/// A scripted vendor algorithm library.  Every operation answers from the
/// configured fields, records what it was asked, and counts the call; the
/// session state machine can so be driven through every path — first-poll
/// confirmation, a device that never leaves sleep, failing statuses — with
/// a test observing exactly what traffic happened.
#[derive(Debug)]
pub struct SimLink {
    /// Native status `init` reports.
    pub init_status: i8,
    /// Native status `apply_settings` reports.
    pub apply_status: i8,
    /// Native status `set_mode` reports.
    pub mode_status: i8,
    /// Whether `get_mode` confirms forced mode; when false the device
    /// keeps reporting sleep, as a stuck chip would.
    pub confirm_forced: bool,
    /// What `get_profile_duration` reports, in milliseconds.
    pub profile_duration: u16,
    /// The snapshot `get_field_data` hands back.
    pub field_data: RawFieldData,
    /// Native status `get_field_data` reports.
    pub field_status: i8,
    /// Every link invocation, of any operation.
    pub calls: u32,
    /// Invocations of `apply_settings` alone.
    pub apply_calls: u32,
    /// The selector of the most recent `apply_settings`.
    pub last_selector: u16,
    /// The settings image of the most recent `apply_settings`.
    pub last_applied: Option<AppliedSettings>,
}

impl SimLink {
    /// A link for a healthy device: every status is success, forced mode
    /// confirms on the first poll, and the snapshot is all zero until a
    /// test configures it.
    pub fn new() -> (r: SimLink)
        ensures
            r.init_status == 0,
            r.apply_status == 0,
            r.mode_status == 0,
            r.confirm_forced,
            r.profile_duration == 25,
            r.field_data == RawFieldData::spec_zeroed(),
            r.field_status == 0,
            r.calls == 0,
            r.apply_calls == 0,
            r.last_applied is None,
    {
        SimLink {
            init_status: 0,
            apply_status: 0,
            mode_status: 0,
            confirm_forced: true,
            profile_duration: 25,
            field_data: RawFieldData::default(),
            field_status: 0,
            calls: 0,
            apply_calls: 0,
            last_selector: 0,
            last_applied: None,
        }
    }
}

impl AlgoLink for SimLink {
    fn init(&mut self) -> (r: i8)
        ensures
            r == old(self).init_status,
    {
        self.calls = bump(self.calls);
        self.init_status
    }

    fn apply_settings(&mut self, selector: u16, settings: &AppliedSettings) -> (r: i8)
        ensures
            r == old(self).apply_status,
            final(self).last_selector == selector,
            final(self).last_applied == Some(*settings),
    {
        self.calls = bump(self.calls);
        self.apply_calls = bump(self.apply_calls);
        self.last_selector = selector;
        self.last_applied = Some(*settings);
        self.apply_status
    }

    fn set_mode(&mut self, mode: u8) -> (r: i8)
        ensures
            r == old(self).mode_status,
    {
        self.calls = bump(self.calls);
        self.mode_status
    }

    fn get_mode(&mut self) -> (r: u8)
        ensures
            r == if old(self).confirm_forced {
                BME680_FORCED_MODE
            } else {
                BME680_SLEEP_MODE
            },
    {
        self.calls = bump(self.calls);
        if self.confirm_forced {
            BME680_FORCED_MODE
        } else {
            BME680_SLEEP_MODE
        }
    }

    fn get_profile_duration(&mut self) -> (r: u16)
        ensures
            r == old(self).profile_duration,
    {
        self.calls = bump(self.calls);
        self.profile_duration
    }

    fn delay_ms(&mut self, ms: u32) {
        self.calls = bump(self.calls);
    }

    fn get_field_data(&mut self) -> (r: (RawFieldData, i8))
        ensures
            r.0 == old(self).field_data,
            r.1 == old(self).field_status,
    {
        self.calls = bump(self.calls);
        (self.field_data, self.field_status)
    }
}

} // verus!
