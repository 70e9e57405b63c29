//! What the user does with the rotary encoder and its push button.

use vstd::prelude::*;
use crate::encoder::{EncoderDirection, MetaEncoderState};

verus! {

/// One thing the user did.
#[derive(Clone, Copy, Debug, PartialEq, Eq, Structural)]
pub enum UserInput {
    Clockwise,
    AntiClockwise,
    ButtonPress,
}

/// What a signal on the input lines amounts to, and the decoder after it.
///
/// A pressed button is a button press, whatever the phase lines show, and
/// leaves the decoder alone. Otherwise the phase lines are fed to the
/// decoder: a direction is the user's turn, and anything else is committed
/// and passed over.
pub open spec fn signal_outcome(
    decoder: MetaEncoderState,
    button_pressed: bool,
    clk: bool,
    dt: bool,
) -> (Option<UserInput>, MetaEncoderState) {
    if button_pressed {
        (Some(UserInput::ButtonPress), decoder)
    } else {
        let stepped = decoder.stepped(clk, dt);
        match stepped.direction() {
            EncoderDirection::Clockwise => (Some(UserInput::Clockwise), stepped),
            EncoderDirection::AntiClockwise => (Some(UserInput::AntiClockwise), stepped),
            EncoderDirection::Bounce => (None, stepped.committed()),
        }
    }
}

/// Takes one signal on the input lines: an edge on a phase line or a press
/// of the button. `Some` is what the user did; `None` means to wait for the
/// next signal with the same decoder.
///
/// `clk` and `dt` are the levels of the two phase lines as the decoder
/// counts them, sampled after the signal.
pub fn on_signal(
    decoder: &mut MetaEncoderState,
    button_pressed: bool,
    clk: bool,
    dt: bool,
) -> (input: Option<UserInput>)
    ensures
        (input, *final(decoder)) == signal_outcome(*old(decoder), button_pressed, clk, dt),
{
    if button_pressed {
        return Some(UserInput::ButtonPress);
    }
    decoder.next(clk, dt);
    let direction = decoder.get_direction();
    match direction {
        EncoderDirection::Clockwise => {
            return Some(UserInput::Clockwise);
        },
        EncoderDirection::AntiClockwise => {
            return Some(UserInput::AntiClockwise);
        },
        EncoderDirection::Bounce => (),
    }
    decoder.update_last();
    None
}

/// From a fresh decoder, no single signal on the phase lines is taken for a
/// turn, and a turn is never reported without a legal change of the phase
/// lines right before it.
pub proof fn lemma_turn_needs_two_changes(decoder: MetaEncoderState, clk: bool, dt: bool)
    ensures
        signal_outcome(MetaEncoderState::initial(), false, clk, dt).0 is None,
        signal_outcome(decoder, false, clk, dt).0 is Some ==> decoder.current.accepts(clk, dt),
{
}

} // verus!
