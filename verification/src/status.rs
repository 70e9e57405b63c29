//! Acknowledgement bookkeeping between the two devices.
//!
//! A face that this device sends is acknowledged twice: by the peer device
//! as soon as it arrives, and by the peer's user with a button press. A face
//! that this device receives waits for the local user's button press.

use vstd::prelude::*;

verus! {

/// Whether something that was sent or received has been acknowledged.
#[derive(Clone, Copy, Debug, PartialEq, Eq, Structural)]
pub enum AckState {
    Ack,
    NoAck,
}

/// Which face the display follows when nothing overrides it.
#[derive(Clone, Copy, Debug, PartialEq, Eq, Structural)]
pub enum FaceState {
    /// The face under the local cursor.
    Local,
    /// The face last received from the peer.
    Remote,
}

/// What the caller owes the peer after a message has been processed.
#[derive(Clone, Copy, Debug, PartialEq, Eq, Structural)]
pub enum ActionRequired {
    /// Nothing is owed.
    Nothing,
    /// The device-level acknowledgement of a received face.
    SendAck,
}

/// The acknowledgement flags of one device and the health of its transport.
#[derive(Clone, Copy, Debug, PartialEq, Eq, Structural)]
pub struct PicoState {
    /// Whether the peer device has acknowledged the face sent last.
    pub pico_sent_state: AckState,
    /// Whether the peer's user has acknowledged the face sent last.
    pub user_sent_state: AckState,
    /// Whether the local user has acknowledged the face received last.
    pub local_recieved_state: AckState,
    /// Whether the transport is believed to be healthy.
    pub socket_connected: bool,
}

impl PicoState {
    /// The state at startup: nothing is waiting for an acknowledgement and
    /// the transport is up.
    pub open spec fn initial() -> PicoState {
        PicoState {
            pico_sent_state: AckState::Ack,
            user_sent_state: AckState::Ack,
            local_recieved_state: AckState::Ack,
            socket_connected: true,
        }
    }

    /// The state after this device has sent a face: both acknowledgements of
    /// it are outstanding.
    pub open spec fn with_face_sent(self) -> PicoState {
        PicoState {
            pico_sent_state: AckState::NoAck,
            user_sent_state: AckState::NoAck,
            ..self
        }
    }

    /// The state after the peer device has acknowledged.
    pub open spec fn with_pico_ack(self) -> PicoState {
        PicoState { pico_sent_state: AckState::Ack, ..self }
    }

    /// The state after the peer's user has acknowledged.
    pub open spec fn with_user_ack(self) -> PicoState {
        PicoState { user_sent_state: AckState::Ack, ..self }
    }

    /// The state after a face has arrived from the peer.
    pub open spec fn with_face_recieved(self) -> PicoState {
        PicoState { local_recieved_state: AckState::NoAck, ..self }
    }

    /// The state after the local user has acknowledged what arrived.
    pub open spec fn with_local_ack(self) -> PicoState {
        PicoState { local_recieved_state: AckState::Ack, ..self }
    }

    /// The state with the transport marked as given.
    pub open spec fn with_socket(self, connected: bool) -> PicoState {
        PicoState { socket_connected: connected, ..self }
    }

    /// Whether a received face still waits for the local user.
    pub open spec fn message_pending(self) -> bool {
        self.local_recieved_state == AckState::NoAck
    }

    pub fn new() -> (state: PicoState)
        ensures
            state == PicoState::initial(),
    {
        PicoState {
            pico_sent_state: AckState::Ack,
            user_sent_state: AckState::Ack,
            local_recieved_state: AckState::Ack,
            socket_connected: true,
        }
    }

    /// Records that this device has sent a face.
    pub fn send_face(&mut self)
        ensures
            *final(self) == old(self).with_face_sent(),
    {
        self.pico_sent_state = AckState::NoAck;

        self.user_sent_state = AckState::NoAck;
    }

    /// Records the peer device's acknowledgement.
    pub fn recieve_pico_ack(&mut self)
        ensures
            *final(self) == old(self).with_pico_ack(),
    {
        self.pico_sent_state = AckState::Ack;
    }

    /// Records the acknowledgement of the peer's user.
    pub fn recieve_user_ack(&mut self)
        ensures
            *final(self) == old(self).with_user_ack(),
    {
        self.user_sent_state = AckState::Ack;
    }

    /// Records that a face has arrived from the peer.
    pub fn recieved_face(&mut self)
        ensures
            *final(self) == old(self).with_face_recieved(),
    {
        self.local_recieved_state = AckState::NoAck;
    }

    /// Records the local user's acknowledgement of what arrived.
    pub fn local_acknowledge_recieved(&mut self)
        ensures
            *final(self) == old(self).with_local_ack(),
    {
        self.local_recieved_state = AckState::Ack;
    }

    /// Whether a received face still waits for the local user.
    pub fn local_has_recieved_message(&mut self) -> (pending: bool)
        ensures
            pending == old(self).message_pending(),
            *final(self) == *old(self),
    {
        match self.local_recieved_state {
            AckState::Ack => false,
            AckState::NoAck => true,
        }
    }

    /// Whether nothing received waits for the local user.
    pub fn local_has_acked_message(&self) -> (acked: bool)
        ensures
            acked == !self.message_pending(),
    {
        match self.local_recieved_state {
            AckState::Ack => true,
            AckState::NoAck => false,
        }
    }

    /// Marks the transport as broken.
    pub fn socket_failure(&mut self)
        ensures
            *final(self) == old(self).with_socket(false),
    {
        self.socket_connected = false;
    }

    /// Marks the transport as restored.
    pub fn socket_connected(&mut self)
        ensures
            *final(self) == old(self).with_socket(true),
    {
        self.socket_connected = true;
    }

    pub fn is_socket_connected(&self) -> (connected: bool)
        ensures
            connected == self.socket_connected,
    {
        self.socket_connected
    }
}

impl Default for PicoState {
    fn default() -> (state: PicoState)
        ensures
            state == PicoState::initial(),
    {
        PicoState::new()
    }
}

/// Sending a face leaves both of its acknowledgements outstanding whatever
/// the state was before, and touches nothing else.
pub proof fn lemma_send_face_clears_both_acks(state: PicoState)
    ensures
        state.with_face_sent().pico_sent_state == AckState::NoAck,
        state.with_face_sent().user_sent_state == AckState::NoAck,
        state.with_face_sent().local_recieved_state == state.local_recieved_state,
        state.with_face_sent().socket_connected == state.socket_connected,
{
}

/// After a face was sent, each of the two acknowledgements sets its own flag
/// and leaves the other outstanding; they can arrive in either order, and
/// together they bring both flags back to `Ack`.
pub proof fn lemma_acks_are_independent(state: PicoState)
    ensures
        state.with_face_sent().with_pico_ack().pico_sent_state == AckState::Ack,
        state.with_face_sent().with_pico_ack().user_sent_state == AckState::NoAck,
        state.with_face_sent().with_user_ack().user_sent_state == AckState::Ack,
        state.with_face_sent().with_user_ack().pico_sent_state == AckState::NoAck,
        state.with_pico_ack().with_user_ack() == state.with_user_ack().with_pico_ack(),
        state.with_face_sent().with_pico_ack().with_user_ack().pico_sent_state == AckState::Ack,
        state.with_face_sent().with_pico_ack().with_user_ack().user_sent_state == AckState::Ack,
        state.with_pico_ack().local_recieved_state == state.local_recieved_state,
        state.with_pico_ack().socket_connected == state.socket_connected,
        state.with_user_ack().local_recieved_state == state.local_recieved_state,
        state.with_user_ack().socket_connected == state.socket_connected,
{
}

} // verus!
