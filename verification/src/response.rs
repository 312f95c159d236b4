//! Decoding one complete line of device output into a typed response.

use vstd::prelude::*;
use vstd::utf8::valid_utf8;
use crate::digits::{parse_u32_from, spec_parse_u32};
use crate::utf8check::is_valid_utf8;

verus! {

/// One line of device output, decoded.  Anything the protocol does not
/// recognize — noise, a malformed payload, bytes that are not valid
/// text — decodes to `Unknown` and is never an error.
#[derive(Debug, Clone, Copy, PartialEq, Eq, Structural)]
pub enum ExtronResponse {
    Unknown,
    Reconfig,
    ActivePixels(u32),
    ActiveLines(u32),
    InputHSizeSet,
    InputVSizeSet,
    HorizontalCenter,
    VerticalCenter,
}

/// The line is exactly the literal `Reconfig`.
pub open spec fn is_reconfig_line(s: Seq<u8>) -> bool {
    // The eight bytes of `Reconfig`.
    s.len() == 8 && s[0] == 0x52 && s[1] == 0x65 && s[2] == 0x63 && s[3] == 0x6f && s[4] == 0x6e
        && s[5] == 0x66 && s[6] == 0x69 && s[7] == 0x67
}

/// The line starts with the four tag bytes `t0 t1 t2 t3`.
pub open spec fn has_tag(s: Seq<u8>, t0: u8, t1: u8, t2: u8, t3: u8) -> bool {
    s.len() >= 4 && s[0] == t0 && s[1] == t1 && s[2] == t2 && s[3] == t3
}

/// The response a line of bytes decodes to.  A line shorter than four
/// bytes, or one that is not valid UTF-8, is `Unknown`; the literal
/// `Reconfig` is recognized whole; otherwise the first four bytes are a
/// tag, and for the two measurement tags the remainder must be a
/// decimal number that fits in `u32`.
pub open spec fn spec_decode(s: Seq<u8>) -> ExtronResponse {
    if s.len() < 4 {
        ExtronResponse::Unknown
    } else if !valid_utf8(s) {
        ExtronResponse::Unknown
    } else if is_reconfig_line(s) {
        ExtronResponse::Reconfig
    } else if has_tag(s, 0x41, 0x70, 0x69, 0x78)  /* `Apix` */ {
        match spec_parse_u32(s.skip(4)) {
            Some(v) => ExtronResponse::ActivePixels(v),
            None => ExtronResponse::Unknown,
        }
    } else if has_tag(s, 0x41, 0x6c, 0x69, 0x6e)  /* `Alin` */ {
        match spec_parse_u32(s.skip(4)) {
            Some(v) => ExtronResponse::ActiveLines(v),
            None => ExtronResponse::Unknown,
        }
    } else if has_tag(s, 0x48, 0x73, 0x69, 0x7a)  /* `Hsiz` */ {
        ExtronResponse::InputHSizeSet
    } else if has_tag(s, 0x56, 0x73, 0x69, 0x7a)  /* `Vsiz` */ {
        ExtronResponse::InputVSizeSet
    } else if has_tag(s, 0x48, 0x63, 0x74, 0x72)  /* `Hctr` */ {
        ExtronResponse::HorizontalCenter
    } else if has_tag(s, 0x56, 0x63, 0x74, 0x72)  /* `Vctr` */ {
        ExtronResponse::VerticalCenter
    } else {
        ExtronResponse::Unknown
    }
}

/// Decodes one already-delimited line of raw bytes (terminator
/// stripped) into the response it carries.
pub fn decode_response(buffer: Vec<u8>) -> (r: ExtronResponse)
    ensures
        r == spec_decode(buffer@),
{
    let n: usize = buffer.len();
    if n < 4 {
        return ExtronResponse::Unknown;
    }
    if !is_valid_utf8(buffer.as_slice()) {
        return ExtronResponse::Unknown;
    }
    if n == 8 && buffer[0] == 0x52 && buffer[1] == 0x65 && buffer[2] == 0x63 && buffer[3] == 0x6f
        && buffer[4] == 0x6e && buffer[5] == 0x66 && buffer[6] == 0x69 && buffer[7] == 0x67 {
        return ExtronResponse::Reconfig;
    }
    let b0: u8 = buffer[0];
    let b1: u8 = buffer[1];
    let b2: u8 = buffer[2];
    let b3: u8 = buffer[3];
    if b0 == 0x41 && b1 == 0x70 && b2 == 0x69 && b3 == 0x78 {
        match parse_u32_from(buffer.as_slice(), 4) {
            Some(v) => ExtronResponse::ActivePixels(v),
            None => ExtronResponse::Unknown,
        }
    } else if b0 == 0x41 && b1 == 0x6c && b2 == 0x69 && b3 == 0x6e {
        match parse_u32_from(buffer.as_slice(), 4) {
            Some(v) => ExtronResponse::ActiveLines(v),
            None => ExtronResponse::Unknown,
        }
    } else if b0 == 0x48 && b1 == 0x73 && b2 == 0x69 && b3 == 0x7a {
        ExtronResponse::InputHSizeSet
    } else if b0 == 0x56 && b1 == 0x73 && b2 == 0x69 && b3 == 0x7a {
        ExtronResponse::InputVSizeSet
    } else if b0 == 0x48 && b1 == 0x63 && b2 == 0x74 && b3 == 0x72 {
        ExtronResponse::HorizontalCenter
    } else if b0 == 0x56 && b1 == 0x63 && b2 == 0x74 && b3 == 0x72 {
        ExtronResponse::VerticalCenter
    } else {
        ExtronResponse::Unknown
    }
}

/// A line shorter than four bytes never decodes to anything: too little
/// arrived to name a command.
pub proof fn lemma_short_line_unknown(line: Seq<u8>)
    requires
        line.len() < 4,
    ensures
        spec_decode(line) == ExtronResponse::Unknown,
{
}

} // verus!
