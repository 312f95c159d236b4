//! Validation of the two command-line settings the driver takes: the
//! baud rate and the target resolution components.

use vstd::prelude::*;
use vstd::string::StringSliceAdditionalSpecFns;
use crate::digits::{parse_u32_from, spec_parse_u32};

verus! {

/// The serial rates the device can be driven at.
pub open spec fn is_supported_baud(v: u32) -> bool {
    v == 300 || v == 600 || v == 1200 || v == 2400 || v == 4800 || v == 9600 || v == 19200
        || v == 38400 || v == 57600 || v == 115200
}

/// Accepts a baud rate argument: a decimal number that names one of the
/// rates the device supports.  The error says which of the two checks
/// failed.
pub fn valid_baud(val: &str) -> (r: Result<(), String>)
    ensures
        match r {
            Ok(()) => (spec_parse_u32(val.spec_bytes()) matches Some(v) && is_supported_baud(v)),
            Err(m) => (spec_parse_u32(val.spec_bytes()) is None && m@ == "Invalid baud rate specified"@)
                || (spec_parse_u32(val.spec_bytes()) matches Some(v) && !is_supported_baud(v)
                    && m@ == "Unsupported baud rate"@),
        },
{
    let bytes: &[u8] = val.as_bytes();
    proof {
        assert(bytes@.skip(0) =~= bytes@);
    }
    match parse_u32_from(bytes, 0) {
        None => Err("Invalid baud rate specified".to_owned()),
        Some(v) => {
            if v == 300 || v == 600 || v == 1200 || v == 2400 || v == 4800 || v == 9600
                || v == 19200 || v == 38400 || v == 57600 || v == 115200 {
                Ok(())
            } else {
                Err("Unsupported baud rate".to_owned())
            }
        },
    }
}

/// Accepts a resolution argument: a decimal number of pixels that must
/// not be zero.  The error says which of the two checks failed.
pub fn valid_resolution(val: &str) -> (r: Result<(), String>)
    ensures
        match r {
            Ok(()) => (spec_parse_u32(val.spec_bytes()) matches Some(v) && v != 0),
            Err(m) => (spec_parse_u32(val.spec_bytes()) is None && m@ == "Invalid resolution specified"@)
                || (spec_parse_u32(val.spec_bytes()) == Some(0u32) && m@ == "Resolution can't be zero"@),
        },
{
    let bytes: &[u8] = val.as_bytes();
    proof {
        assert(bytes@.skip(0) =~= bytes@);
    }
    match parse_u32_from(bytes, 0) {
        None => Err("Invalid resolution specified".to_owned()),
        Some(v) => {
            if v == 0 {
                Err("Resolution can't be zero".to_owned())
            } else {
                Ok(())
            }
        },
    }
}

} // verus!
