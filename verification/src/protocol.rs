//! The session state machine: what configuration step is in progress
//! and how each decoded response advances it.

use vstd::prelude::*;
use crate::response::ExtronResponse;

verus! {

/// A pair of horizontal and vertical pixel counts.
#[derive(Debug, Clone, Copy, PartialEq, Eq, Structural)]
pub struct Resolution {
    pub h: u32,
    pub v: u32,
}

/// The configuration stage most recently confirmed by the device.
/// `Uninitialized` is both the starting point and where the cycle
/// closes after the final centering acknowledgment.
#[derive(Debug, Clone, Copy, PartialEq, Eq, Structural)]
pub enum CommandFlow {
    Uninitialized,
    Reconfig,
    GotHorizontalSize,
    GotVerticalSize,
    SetHSize,
    SetVSize,
    SetHCenter,
}

/// One device session: configuration progress, the input resolution
/// measured from the device, the fixed target output resolution, and
/// whether a sent command still awaits its acknowledgment.
#[derive(Debug, Clone, Copy, PartialEq, Eq, Structural)]
pub struct State {
    pub step: CommandFlow,
    pub input_size: Resolution,
    pub output_size: Resolution,
    pub wait: bool,
}

impl State {
    /// Records the fixed target output resolution; nothing else moves.
    pub fn set_output_size(&mut self, r: Resolution)
        ensures
            *final(self) == (State { output_size: r, ..*old(self) }),
    {
        self.output_size = r;
    }

    /// Returns the session to its starting point: the step becomes
    /// uninitialized and the measured input resolution is cleared; the
    /// target output resolution and the acknowledgment flag keep their
    /// values.
    pub fn reset(&mut self)
        ensures
            *final(self) == (State {
                step: CommandFlow::Uninitialized,
                input_size: (Resolution { h: 0, v: 0 }),
                ..*old(self)
            }),
    {
        self.step = CommandFlow::Uninitialized;
        self.input_size = Resolution { h: 0, v: 0 };
    }
}

impl Default for State {
    /// A fresh session: uninitialized, both resolutions zeroed, no
    /// acknowledgment pending.
    fn default() -> (s: State)
        ensures
            s == (State {
                step: CommandFlow::Uninitialized,
                input_size: (Resolution { h: 0, v: 0 }),
                output_size: (Resolution { h: 0, v: 0 }),
                wait: false,
            }),
    {
        State {
            step: CommandFlow::Uninitialized,
            input_size: Resolution { h: 0, v: 0 },
            output_size: Resolution { h: 0, v: 0 },
            wait: false,
        }
    }
}

/// The transition table.  An `Unknown` line changes nothing; every
/// recognized response clears the acknowledgment flag; `Reconfig`
/// restarts the cycle with the measured resolution cleared; the two
/// measurements record their value; the four acknowledgments only move
/// the step, the last of them closing the cycle.
pub open spec fn spec_update(s: State, response: ExtronResponse) -> State {
    match response {
        ExtronResponse::Unknown => s,
        ExtronResponse::Reconfig => State {
            step: CommandFlow::Reconfig,
            input_size: Resolution { h: 0, v: 0 },
            wait: false,
            ..s
        },
        ExtronResponse::ActivePixels(h) => State {
            step: CommandFlow::GotHorizontalSize,
            input_size: Resolution { h, v: s.input_size.v },
            wait: false,
            ..s
        },
        ExtronResponse::ActiveLines(v) => State {
            step: CommandFlow::GotVerticalSize,
            input_size: Resolution { h: s.input_size.h, v },
            wait: false,
            ..s
        },
        ExtronResponse::InputHSizeSet => State { step: CommandFlow::SetHSize, wait: false, ..s },
        ExtronResponse::InputVSizeSet => State { step: CommandFlow::SetVSize, wait: false, ..s },
        ExtronResponse::HorizontalCenter => State {
            step: CommandFlow::SetHCenter,
            wait: false,
            ..s
        },
        ExtronResponse::VerticalCenter => State {
            step: CommandFlow::Uninitialized,
            wait: false,
            ..s
        },
    }
}

/// Advances the session by one decoded response, exactly as the
/// transition table says.
pub fn update_state(response: ExtronResponse, state: &mut State)
    ensures
        *final(state) == spec_update(*old(state), response),
{
    match response {
        ExtronResponse::Unknown => {
            // Noise from the device; leave everything as it stands.
        },
        ExtronResponse::Reconfig => {
            state.reset();
            state.step = CommandFlow::Reconfig;
            state.wait = false;
        },
        ExtronResponse::ActivePixels(h) => {
            state.input_size.h = h;
            state.step = CommandFlow::GotHorizontalSize;
            state.wait = false;
        },
        ExtronResponse::ActiveLines(v) => {
            state.input_size.v = v;
            state.step = CommandFlow::GotVerticalSize;
            state.wait = false;
        },
        ExtronResponse::InputHSizeSet => {
            state.step = CommandFlow::SetHSize;
            state.wait = false;
        },
        ExtronResponse::InputVSizeSet => {
            state.step = CommandFlow::SetVSize;
            state.wait = false;
        },
        ExtronResponse::HorizontalCenter => {
            state.step = CommandFlow::SetHCenter;
            state.wait = false;
        },
        ExtronResponse::VerticalCenter => {
            state.step = CommandFlow::Uninitialized;
            state.wait = false;
        },
    }
}

/// An unrecognized line is a no-op: whatever the session holds, an
/// `Unknown` response leaves it exactly as it was.
pub proof fn lemma_unknown_is_noop(s: State)
    ensures
        spec_update(s, ExtronResponse::Unknown) == s,
{
}

/// Every recognized response clears the acknowledgment flag: the device
/// has definitively replied, whether or not the step moves.
pub proof fn lemma_response_clears_wait(s: State, response: ExtronResponse)
    requires
        !(response is Unknown),
    ensures
        !spec_update(s, response).wait,
{
}

/// The full configuration walk: from any session, the response cycle
/// `Reconfig`, `ActivePixels(h)`, `ActiveLines(v)`, `InputHSizeSet`,
/// `InputVSizeSet`, `HorizontalCenter`, `VerticalCenter` visits the
/// seven steps in order and closes back at `Uninitialized`, with the
/// measured input resolution ending at `{h, v}` and the target output
/// resolution untouched.
pub proof fn lemma_full_cycle(s0: State, h: u32, v: u32)
    ensures
        ({
            let s1 = spec_update(s0, ExtronResponse::Reconfig);
            let s2 = spec_update(s1, ExtronResponse::ActivePixels(h));
            let s3 = spec_update(s2, ExtronResponse::ActiveLines(v));
            let s4 = spec_update(s3, ExtronResponse::InputHSizeSet);
            let s5 = spec_update(s4, ExtronResponse::InputVSizeSet);
            let s6 = spec_update(s5, ExtronResponse::HorizontalCenter);
            let s7 = spec_update(s6, ExtronResponse::VerticalCenter);
            s1.step == CommandFlow::Reconfig && s2.step == CommandFlow::GotHorizontalSize
                && s3.step == CommandFlow::GotVerticalSize && s4.step == CommandFlow::SetHSize
                && s5.step == CommandFlow::SetVSize && s6.step == CommandFlow::SetHCenter
                && s7.step == CommandFlow::Uninitialized && s7.input_size == (Resolution { h, v })
                && s7.output_size == s0.output_size
        }),
{
}

} // verus!
