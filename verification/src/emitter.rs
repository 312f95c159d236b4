//! Emitting the next command for the current configuration step.

use vstd::prelude::*;
use crate::digits::{decimal_digits, push_decimal};
use crate::protocol::{CommandFlow, State};

verus! {

/// The escape byte that opens every command.
pub const ESC: u8 = 0x1b;

/// The carriage return that closes every command.
pub const CR: u8 = 0x0d;

/// The device's zero point for its centering registers.
pub const CENTER_BIAS: u32 = 10240;

/// The centering offset for one axis: the register bias plus half the
/// output extent less half the input extent.  When the input overhangs
/// the output so far that the register would go below zero, the offset
/// is held at zero instead of wrapping.
pub open spec fn spec_center_offset(out_px: u32, in_px: u32) -> u32 {
    if in_px / 2 <= CENTER_BIAS + out_px / 2 {
        (CENTER_BIAS + out_px / 2 - in_px / 2) as u32
    } else {
        0
    }
}

/// Computes the centering offset for one axis.
pub fn center_offset(out_px: u32, in_px: u32) -> (r: u32)
    ensures
        r == spec_center_offset(out_px, in_px),
{
    let base: u32 = CENTER_BIAS + out_px / 2;
    let half: u32 = in_px / 2;
    if half <= base {
        base - half
    } else {
        0
    }
}

/// A command with no argument: escape byte, four tag bytes, carriage
/// return.
pub open spec fn spec_plain_command(t0: u8, t1: u8, t2: u8, t3: u8) -> Seq<u8> {
    seq![ESC, t0, t1, t2, t3, CR]
}

/// A command with a decimal argument: escape byte, the digits of `n`,
/// four tag bytes, carriage return.
pub open spec fn spec_numbered_command(n: u32, t0: u8, t1: u8, t2: u8, t3: u8) -> Seq<u8> {
    seq![ESC] + decimal_digits(n as nat) + seq![t0, t1, t2, t3, CR]
}

/// The command due after each step, or nothing while the session is
/// uninitialized: first the two measurement requests, then the scaled
/// size set to the measured input, then the two centering offsets.
pub open spec fn spec_next_command(s: State) -> Option<Seq<u8>> {
    match s.step {
        CommandFlow::Uninitialized => None,
        CommandFlow::Reconfig => Some(
            spec_plain_command(0x41, 0x50, 0x49, 0x58),  /* `APIX` */
        ),
        CommandFlow::GotHorizontalSize => Some(
            spec_plain_command(0x41, 0x4c, 0x49, 0x4e),  /* `ALIN` */
        ),
        CommandFlow::GotVerticalSize => Some(
            spec_numbered_command(s.input_size.h, 0x48, 0x53, 0x49, 0x5a),  /* `HSIZ` */
        ),
        CommandFlow::SetHSize => Some(
            spec_numbered_command(s.input_size.v, 0x56, 0x53, 0x49, 0x5a),  /* `VSIZ` */
        ),
        CommandFlow::SetVSize => Some(
            spec_numbered_command(
                spec_center_offset(s.output_size.h, s.input_size.h),
                0x48, 0x43, 0x54, 0x52,  /* `HCTR` */
            ),
        ),
        CommandFlow::SetHCenter => Some(
            spec_numbered_command(
                spec_center_offset(s.output_size.v, s.input_size.v),
                0x56, 0x43, 0x54, 0x52,  /* `VCTR` */
            ),
        ),
    }
}

/// Builds a command with no argument.
fn plain_command(t0: u8, t1: u8, t2: u8, t3: u8) -> (r: Vec<u8>)
    ensures
        r@ == spec_plain_command(t0, t1, t2, t3),
{
    let mut out: Vec<u8> = Vec::new();
    out.push(ESC);
    out.push(t0);
    out.push(t1);
    out.push(t2);
    out.push(t3);
    out.push(CR);
    assert(out@ =~= spec_plain_command(t0, t1, t2, t3));
    out
}

/// Builds a command with a decimal argument.
fn numbered_command(n: u32, t0: u8, t1: u8, t2: u8, t3: u8) -> (r: Vec<u8>)
    ensures
        r@ == spec_numbered_command(n, t0, t1, t2, t3),
{
    let mut out: Vec<u8> = Vec::new();
    out.push(ESC);
    push_decimal(&mut out, n);
    out.push(t0);
    out.push(t1);
    out.push(t2);
    out.push(t3);
    out.push(CR);
    assert(out@ =~= spec_numbered_command(n, t0, t1, t2, t3));
    out
}

/// The bytes to send for the current step, or nothing if no command is
/// due.  Reads the session without touching it; the caller suppresses
/// the send while an acknowledgment is still pending.
pub fn process_state(state: &State) -> (r: Option<Vec<u8>>)
    ensures
        match r {
            Some(cmd) => spec_next_command(*state) == Some(cmd@),
            None => spec_next_command(*state) is None,
        },
{
    match state.step {
        CommandFlow::Uninitialized => None,
        CommandFlow::Reconfig => Some(plain_command(0x41, 0x50, 0x49, 0x58)),
        CommandFlow::GotHorizontalSize => Some(plain_command(0x41, 0x4c, 0x49, 0x4e)),
        CommandFlow::GotVerticalSize => Some(
            numbered_command(state.input_size.h, 0x48, 0x53, 0x49, 0x5a),
        ),
        CommandFlow::SetHSize => Some(numbered_command(state.input_size.v, 0x56, 0x53, 0x49, 0x5a)),
        CommandFlow::SetVSize => Some(
            numbered_command(
                center_offset(state.output_size.h, state.input_size.h),
                0x48, 0x43, 0x54, 0x52,
            ),
        ),
        CommandFlow::SetHCenter => Some(
            numbered_command(
                center_offset(state.output_size.v, state.input_size.v),
                0x56, 0x43, 0x54, 0x52,
            ),
        ),
    }
}

/// While the session is uninitialized no command is due, whatever the
/// measured and target resolutions hold.
pub proof fn lemma_uninitialized_no_command(s: State)
    requires
        s.step is Uninitialized,
    ensures
        spec_next_command(s) is None,
{
}

} // verus!
