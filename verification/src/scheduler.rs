//! The decisions of the main loop: whether to reconnect before anything
//! else, which face to show, and what an input leads to.
//!
//! The loop itself belongs to the caller. Each time round it asks
//! [`plan_iteration`] what to do, races input, display and listening, and
//! hands an input that won the race to [`on_input`].

use vstd::prelude::*;
use crate::messages::Message;
use crate::re_input::UserInput;
use crate::select_face::{
    next_index, prev_index, selectable_faces, Faces, LocalFace, RemoteFace, NUM_FACES,
};
use crate::status::{FaceState, PicoState};

verus! {

/// Milliseconds to let pass after a button press before input is read
/// again, so that one press is not taken for two.
pub const DEBOUNCE_MILLIS: u64 = 250;

/// What the display follows, apart from the acknowledgement flags.
#[derive(Clone, Copy, Debug, PartialEq, Eq, Structural)]
pub struct Scheduler {
    /// Whether the device sleeps: the display is blank and only a button
    /// press is heeded.
    pub sleep_mode: bool,
    /// Whose face is shown when neither sleep nor a waiting message
    /// overrides it.
    pub face_state: FaceState,
}

/// What one round of the main loop starts with.
#[derive(Clone, Copy, Debug, PartialEq, Eq, Structural)]
pub enum Iteration {
    /// Restore the broker connection, report it with
    /// [`PicoState::socket_connected`], and plan again. Nothing is raced
    /// against this.
    Reconnect,
    /// Show this face while waiting for input and listening.
    Race(Faces),
}

/// What an input leads to, beyond the changes to the state.
#[derive(Clone, Copy, Debug, PartialEq, Eq, Structural)]
pub struct InputOutcome {
    /// The message to publish, if any.
    pub publish: Option<Message>,
    /// Milliseconds to let pass before input is read again.
    pub debounce_millis: u64,
}

/// The face to show: blank while asleep, the notice while a received face
/// waits for the user, and else the local or the peer's face, as the user
/// chose last.
pub open spec fn chosen_face(
    scheduler: Scheduler,
    state: PicoState,
    remote_face: RemoteFace,
    local_face: LocalFace,
) -> Faces {
    if scheduler.sleep_mode {
        Faces::SleepingFace
    } else if state.message_pending() {
        Faces::MessageWaiting
    } else {
        match scheduler.face_state {
            FaceState::Local => local_face.selected(),
            FaceState::Remote => remote_face.face,
        }
    }
}

/// The message that an input while awake asks to publish.
///
/// Only a button press publishes: the user's acknowledgement where a
/// received face waits for one, and else the face under the cursor, unless
/// the press gives control back from the peer's face or sends the device to
/// sleep.
pub open spec fn awake_publish(
    user_input: UserInput,
    cursor: nat,
    state: PicoState,
    scheduler: Scheduler,
) -> Option<Message> {
    if user_input != UserInput::ButtonPress {
        None
    } else if state.message_pending() {
        Some(Message::UserAck)
    } else if scheduler.face_state == FaceState::Remote {
        None
    } else if selectable_faces()[cursor as int] == Faces::GoToSleep {
        None
    } else {
        Some(Message::ChangeFace(selectable_faces()[cursor as int]))
    }
}

/// The acknowledgement flags after an input while awake: acknowledging a
/// waiting face clears its flag, and sending a face leaves both of its
/// acknowledgements outstanding.
pub open spec fn awake_state(
    user_input: UserInput,
    cursor: nat,
    state: PicoState,
    scheduler: Scheduler,
) -> PicoState {
    match awake_publish(user_input, cursor, state, scheduler) {
        Some(Message::UserAck) => state.with_local_ack(),
        Some(Message::ChangeFace(_)) => state.with_face_sent(),
        _ => state,
    }
}

/// The cursor after an input while awake: a turn moves it, but only while
/// no received face waits for the user.
pub open spec fn awake_cursor(user_input: UserInput, cursor: nat, state: PicoState) -> nat {
    if state.message_pending() {
        cursor
    } else {
        match user_input {
            UserInput::Clockwise => next_index(cursor),
            UserInput::AntiClockwise => prev_index(cursor),
            UserInput::ButtonPress => cursor,
        }
    }
}

/// What the display follows after an input while awake.
///
/// A turn that moves the cursor shows the local face. A press that
/// acknowledges a received face shows that face; the next press gives
/// control back to the local face; a press on the sleep entry after that
/// puts the device to sleep.
pub open spec fn awake_scheduler(
    user_input: UserInput,
    cursor: nat,
    state: PicoState,
    scheduler: Scheduler,
) -> Scheduler {
    match user_input {
        UserInput::ButtonPress => if state.message_pending() {
            Scheduler { face_state: FaceState::Remote, ..scheduler }
        } else if scheduler.face_state == FaceState::Remote {
            Scheduler { face_state: FaceState::Local, ..scheduler }
        } else if selectable_faces()[cursor as int] == Faces::GoToSleep {
            Scheduler { sleep_mode: true, ..scheduler }
        } else {
            scheduler
        },
        _ => if state.message_pending() {
            scheduler
        } else {
            Scheduler { face_state: FaceState::Local, ..scheduler }
        },
    }
}

impl Scheduler {
    /// Awake, showing the local face.
    pub fn new() -> (scheduler: Scheduler)
        ensures
            scheduler == (Scheduler { sleep_mode: false, face_state: FaceState::Local }),
    {
        Scheduler { sleep_mode: false, face_state: FaceState::Local }
    }
}

impl Default for Scheduler {
    fn default() -> (scheduler: Scheduler)
        ensures
            scheduler == (Scheduler { sleep_mode: false, face_state: FaceState::Local }),
    {
        Scheduler::new()
    }
}

/// Chooses the face to show; see [`chosen_face`].
pub fn use_state(
    state: &mut PicoState,
    scheduler: &Scheduler,
    remote_face: &mut RemoteFace,
    local_face: &LocalFace,
) -> (face: Faces)
    ensures
        face == chosen_face(*scheduler, *old(state), *old(remote_face), *local_face),
        *final(state) == *old(state),
        *final(remote_face) == *old(remote_face),
{
    if scheduler.sleep_mode {
        return Faces::SleepingFace;
    }
    if state.local_has_recieved_message() {
        return Faces::MessageWaiting;
    }
    match scheduler.face_state {
        FaceState::Local => *local_face.get_face(),
        FaceState::Remote => remote_face.get_face(),
    }
}

/// Says what a round of the main loop starts with: a broken transport is
/// restored before anything else, and otherwise the chosen face is shown
/// while input and network are waited for.
pub fn plan_iteration(
    state: &mut PicoState,
    scheduler: &Scheduler,
    remote_face: &mut RemoteFace,
    local_face: &LocalFace,
) -> (iteration: Iteration)
    ensures
        iteration == (if old(state).socket_connected {
            Iteration::Race(chosen_face(*scheduler, *old(state), *old(remote_face), *local_face))
        } else {
            Iteration::Reconnect
        }),
        *final(state) == *old(state),
        *final(remote_face) == *old(remote_face),
{
    if !state.is_socket_connected() {
        return Iteration::Reconnect;
    }
    Iteration::Race(use_state(state, scheduler, remote_face, local_face))
}

/// Handles an input while the device sleeps: a button press wakes it, and
/// everything else is ignored.
pub fn on_input_asleep(user_input: UserInput, scheduler: &mut Scheduler)
    ensures
        *final(scheduler) == (if user_input == UserInput::ButtonPress {
            Scheduler { sleep_mode: false, ..*old(scheduler) }
        } else {
            *old(scheduler)
        }),
{
    if user_input == UserInput::ButtonPress {
        scheduler.sleep_mode = false;
    }
}

/// Handles an input while the device is awake and returns the message to
/// publish, if the input asks for one.
pub fn on_input_awake(
    user_input: UserInput,
    local_face: &mut LocalFace,
    state: &mut PicoState,
    scheduler: &mut Scheduler,
) -> (publish: Option<Message>)
    ensures
        old(local_face).index() < NUM_FACES,
        publish == awake_publish(user_input, old(local_face).index(), *old(state), *old(scheduler)),
        *final(state) == awake_state(
            user_input,
            old(local_face).index(),
            *old(state),
            *old(scheduler),
        ),
        final(local_face).index() == awake_cursor(user_input, old(local_face).index(), *old(state)),
        *final(scheduler) == awake_scheduler(
            user_input,
            old(local_face).index(),
            *old(state),
            *old(scheduler),
        ),
{
    let here = *local_face.get_face();
    match user_input {
        UserInput::Clockwise => {
            if state.local_has_acked_message() {
                local_face.next();
                scheduler.face_state = FaceState::Local;
            }
            None
        },
        UserInput::AntiClockwise => {
            if state.local_has_acked_message() {
                local_face.prev();
                scheduler.face_state = FaceState::Local;
            }
            None
        },
        UserInput::ButtonPress => {
            if state.local_has_recieved_message() {
                state.local_acknowledge_recieved();
                scheduler.face_state = FaceState::Remote;
                Some(Message::UserAck)
            } else {
                if scheduler.face_state == FaceState::Remote {
                    scheduler.face_state = FaceState::Local;
                    None
                } else if here == Faces::GoToSleep {
                    scheduler.sleep_mode = true;
                    None
                } else {
                    state.send_face();
                    Some(Message::ChangeFace(here))
                }
            }
        },
    }
}

/// Handles an input that won the race of the main loop.
///
/// Asleep, only a button press counts, and all it does is wake the device.
/// Awake, the input goes to [`on_input_awake`]. Every button press is
/// followed by [`DEBOUNCE_MILLIS`] during which no input is read.
pub fn on_input(
    user_input: UserInput,
    local_face: &mut LocalFace,
    state: &mut PicoState,
    scheduler: &mut Scheduler,
) -> (outcome: InputOutcome)
    ensures
        outcome.debounce_millis == (if user_input == UserInput::ButtonPress {
            DEBOUNCE_MILLIS
        } else {
            0
        }),
        old(scheduler).sleep_mode ==> {
            &&& outcome.publish is None
            &&& *final(state) == *old(state)
            &&& final(local_face).index() == old(local_face).index()
            &&& *final(scheduler) == (if user_input == UserInput::ButtonPress {
                Scheduler { sleep_mode: false, ..*old(scheduler) }
            } else {
                *old(scheduler)
            })
        },
        !old(scheduler).sleep_mode ==> {
            &&& outcome.publish == awake_publish(
                user_input,
                old(local_face).index(),
                *old(state),
                *old(scheduler),
            )
            &&& *final(state) == awake_state(
                user_input,
                old(local_face).index(),
                *old(state),
                *old(scheduler),
            )
            &&& final(local_face).index() == awake_cursor(
                user_input,
                old(local_face).index(),
                *old(state),
            )
            &&& *final(scheduler) == awake_scheduler(
                user_input,
                old(local_face).index(),
                *old(state),
                *old(scheduler),
            )
        },
{
    let publish = if scheduler.sleep_mode {
        on_input_asleep(user_input, scheduler);
        None
    } else {
        on_input_awake(user_input, local_face, state, scheduler)
    };
    let debounce_millis: u64 = if user_input == UserInput::ButtonPress {
        DEBOUNCE_MILLIS
    } else {
        0
    };
    InputOutcome { publish, debounce_millis }
}

/// An acknowledging press is not repeated by the press that follows it: the
/// press on a waiting message publishes the user's acknowledgement and
/// clears the flag, and the next press publishes nothing, wherever the
/// cursor stands.
pub proof fn lemma_acknowledging_press_publishes_once(
    cursor: nat,
    state: PicoState,
    scheduler: Scheduler,
)
    requires
        state.message_pending(),
    ensures
        awake_publish(UserInput::ButtonPress, cursor, state, scheduler) == Some(Message::UserAck),
        awake_state(UserInput::ButtonPress, cursor, state, scheduler) == state.with_local_ack(),
        awake_publish(
            UserInput::ButtonPress,
            awake_cursor(UserInput::ButtonPress, cursor, state),
            awake_state(UserInput::ButtonPress, cursor, state, scheduler),
            awake_scheduler(UserInput::ButtonPress, cursor, state, scheduler),
        ) is None,
{
}

/// A face that is published is one the user can pick: it is under the
/// cursor, it is not one of the faces that the device shows on its own
/// account, and it is not the sleep entry.
pub proof fn lemma_published_face_is_selectable(
    user_input: UserInput,
    cursor: nat,
    state: PicoState,
    scheduler: Scheduler,
    face: Faces,
)
    requires
        cursor < NUM_FACES,
        awake_publish(user_input, cursor, state, scheduler) == Some(Message::ChangeFace(face)),
    ensures
        face == selectable_faces()[cursor as int],
        !face.is_internal(),
        face != Faces::GoToSleep,
        user_input == UserInput::ButtonPress,
        !state.message_pending(),
{
}

/// While a received face waits for the user, the display shows the notice
/// unless the device sleeps, and no turn of the encoder changes anything.
pub proof fn lemma_waiting_message_holds_the_display(
    user_input: UserInput,
    cursor: nat,
    state: PicoState,
    scheduler: Scheduler,
    remote_face: RemoteFace,
    local_face: LocalFace,
)
    requires
        state.message_pending(),
        !scheduler.sleep_mode,
        user_input != UserInput::ButtonPress,
    ensures
        chosen_face(scheduler, state, remote_face, local_face) == Faces::MessageWaiting,
        awake_publish(user_input, cursor, state, scheduler) is None,
        awake_state(user_input, cursor, state, scheduler) == state,
        awake_cursor(user_input, cursor, state) == cursor,
        awake_scheduler(user_input, cursor, state, scheduler) == scheduler,
{
}

} // verus!
