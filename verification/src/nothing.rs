//! The Nothing Ear exchange: the two discovery requests and the parsing
//! of their notification frames.
//!
//! Discovery writes a firmware-version request and a serial-number request
//! to the everything-handle; answers come back as notifications whose
//! five-byte prefix names the topic.

use crate::apple_models::spec_find_byte;
use vstd::prelude::*;
use vstd::slice::{slice_subrange, slice_to_vec};

verus! {

/// The request for the firmware version.
pub open spec fn spec_version_request() -> Seq<u8> {
    seq![0x55u8, 0x20u8, 0x01u8, 0x42u8, 0xC0u8, 0u8, 0u8, 0u8, 0u8, 0u8]
}

/// The request for the serial number.
pub open spec fn spec_serial_request() -> Seq<u8> {
    seq![0x55u8, 0x20u8, 0x01u8, 0x06u8, 0xC0u8, 0u8, 0u8, 0x13u8, 0u8, 0u8]
}

/// Build the firmware-version request.
pub fn version_request() -> (r: Vec<u8>)
    ensures
        r@ == spec_version_request(),
{
    let mut v: Vec<u8> = Vec::new();
    v.push(0x55);
    v.push(0x20);
    v.push(0x01);
    v.push(0x42);
    v.push(0xC0);
    v.push(0);
    v.push(0);
    v.push(0);
    v.push(0);
    v.push(0);
    proof {
        assert(v@ =~= spec_version_request());
    }
    v
}

/// Build the serial-number request.
pub fn serial_request() -> (r: Vec<u8>)
    ensures
        r@ == spec_serial_request(),
{
    let mut v: Vec<u8> = Vec::new();
    v.push(0x55);
    v.push(0x20);
    v.push(0x01);
    v.push(0x06);
    v.push(0xC0);
    v.push(0);
    v.push(0);
    v.push(0x13);
    v.push(0);
    v.push(0);
    proof {
        assert(v@ =~= spec_serial_request());
    }
    v
}

/// Whether the frame starts with the firmware-version answer prefix.
pub open spec fn spec_is_version_frame(d: Seq<u8>) -> bool {
    d.len() >= 5 && d[0] == 0x55 && d[1] == 0x20 && d[2] == 0x01 && d[3] == 0x42 && d[4] == 0x40
}

/// Whether the frame starts with the serial-number answer prefix.
pub open spec fn spec_is_serial_frame(d: Seq<u8>) -> bool {
    d.len() >= 5 && d[0] == 0x55 && d[1] == 0x20 && d[2] == 0x01 && d[3] == 0x06 && d[4] == 0x40
}

/// Where the serial number starts in a serial frame: at the first `S`, or
/// at byte 8 when none occurs.
pub open spec fn spec_serial_start(d: Seq<u8>) -> int {
    match spec_find_byte(d, 83, 0) {
        Some(p) => p,
        None => 8,
    }
}

/// Where the serial number ends: at the first newline at or after its
/// start, or at the end of the frame.
pub open spec fn spec_serial_end(d: Seq<u8>) -> int {
    match spec_find_byte(d, 10, spec_serial_start(d)) {
        Some(p) => p,
        None => d.len() as int,
    }
}

/// What one Nothing notification frame carries.
#[derive(Clone, Debug)]
pub enum NothingFrame {
    /// The firmware version, as the bytes after the 8-byte answer header.
    FirmwareVersion { version: Vec<u8> },
    /// The serial number, from its `S` up to the newline.
    SerialNumber { serial: Vec<u8> },
    /// Anything else; logged and dropped.
    Other,
}

/// Find the first occurrence of a byte at or after `from`.
fn find_byte_from(s: &[u8], b: u8, from: usize) -> (r: Option<usize>)
    ensures
        spec_find_byte(s@, b, from as int) == (match r {
            Some(p) => Some(p as int),
            None => None::<int>,
        }),
        r matches Some(p) ==> from <= p < s@.len(),
{
    let n = s.len();
    if from >= n {
        return None;
    }
    let mut i: usize = from;
    while i < n
        invariant
            from <= i <= n,
            n == s@.len(),
            spec_find_byte(s@, b, from as int) == spec_find_byte(s@, b, i as int),
        decreases n - i,
    {
        if s[i] == b {
            return Some(i);
        }
        i = i + 1;
    }
    None
}

/// Decode one notification frame from the everything-read handle.  A
/// version answer yields the bytes past its header; a serial answer yields
/// the text from its `S` to the newline, and only when an `H` follows the
/// `S`; everything else — malformed frames included — is `Other`.
pub fn parse_nothing_frame(data: &[u8]) -> (r: NothingFrame)
    ensures
        r matches NothingFrame::FirmwareVersion { version } ==> spec_is_version_frame(data@)
            && data@.len() >= 8 && version@ == data@.subrange(8, data@.len() as int),
        r matches NothingFrame::SerialNumber { serial } ==> {
            let start = spec_serial_start(data@);
            let end = spec_serial_end(data@);
            &&& spec_is_serial_frame(data@)
            &&& start + 1 < data@.len()
            &&& data@[start + 1] == 72
            &&& serial@ == data@.subrange(start, end)
        },
        spec_is_version_frame(data@) && data@.len() >= 8 ==> r matches
            NothingFrame::FirmwareVersion { .. },
{
    let n = data.len();
    if n >= 8 && data[0] == 0x55 && data[1] == 0x20 && data[2] == 0x01 && data[3] == 0x42
        && data[4] == 0x40 {
        let version = slice_to_vec(slice_subrange(data, 8, n));
        return NothingFrame::FirmwareVersion { version };
    }
    if n >= 5 && data[0] == 0x55 && data[1] == 0x20 && data[2] == 0x01 && data[3] == 0x06
        && data[4] == 0x40 {
        let start = match find_byte_from(data, 83, 0) {
            Some(p) => p,
            None => 8,
        };
        let end = match find_byte_from(data, 10, start) {
            Some(p) => p,
            None => n,
        };
        if start + 1 < n && data[start + 1] == 72 && start <= end && end <= n {
            let serial = slice_to_vec(slice_subrange(data, start, end));
            return NothingFrame::SerialNumber { serial };
        }
        return NothingFrame::Other;
    }
    NothingFrame::Other
}

} // verus!
