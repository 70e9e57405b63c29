use distance_friend::status::{AckState, ActionRequired, FaceState, PicoState};

fn all_states() -> Vec<PicoState> {
    let mut states = Vec::new();
    for pico in [AckState::Ack, AckState::NoAck] {
        for user in [AckState::Ack, AckState::NoAck] {
            for local in [AckState::Ack, AckState::NoAck] {
                for socket in [true, false] {
                    states.push(PicoState {
                        pico_sent_state: pico,
                        user_sent_state: user,
                        local_recieved_state: local,
                        socket_connected: socket,
                    });
                }
            }
        }
    }
    states
}

#[test]
fn new_state_has_everything_acknowledged() {
    let state = PicoState::new();
    assert_eq!(
        state,
        PicoState {
            pico_sent_state: AckState::Ack,
            user_sent_state: AckState::Ack,
            local_recieved_state: AckState::Ack,
            socket_connected: true,
        }
    );
    assert_eq!(PicoState::default(), state);
    assert!(state.is_socket_connected());
}

#[test]
fn send_face_clears_both_acks_from_any_state() {
    for before in all_states() {
        let mut state = before;
        state.send_face();
        assert_eq!(state.pico_sent_state, AckState::NoAck);
        assert_eq!(state.user_sent_state, AckState::NoAck);
        assert_eq!(state.local_recieved_state, before.local_recieved_state);
        assert_eq!(state.socket_connected, before.socket_connected);
    }
}

#[test]
fn each_ack_flips_its_own_flag_only() {
    for before in all_states() {
        let mut state = before;
        state.send_face();
        let mut pico_first = state;
        pico_first.recieve_pico_ack();
        assert_eq!(pico_first.pico_sent_state, AckState::Ack);
        assert_eq!(pico_first.user_sent_state, AckState::NoAck);
        assert_eq!(pico_first.local_recieved_state, before.local_recieved_state);
        assert_eq!(pico_first.socket_connected, before.socket_connected);
        let mut user_first = state;
        user_first.recieve_user_ack();
        assert_eq!(user_first.user_sent_state, AckState::Ack);
        assert_eq!(user_first.pico_sent_state, AckState::NoAck);
        pico_first.recieve_user_ack();
        user_first.recieve_pico_ack();
        assert_eq!(pico_first, user_first);
        assert_eq!(pico_first.pico_sent_state, AckState::Ack);
        assert_eq!(pico_first.user_sent_state, AckState::Ack);
    }
}

#[test]
fn received_face_waits_until_locally_acknowledged() {
    for before in all_states() {
        let mut state = before;
        state.recieved_face();
        assert!(state.local_has_recieved_message());
        assert!(!state.local_has_acked_message());
        assert_eq!(state.local_recieved_state, AckState::NoAck);
        assert_eq!(state.pico_sent_state, before.pico_sent_state);
        assert_eq!(state.user_sent_state, before.user_sent_state);
        assert_eq!(state.socket_connected, before.socket_connected);
        state.local_acknowledge_recieved();
        assert!(!state.local_has_recieved_message());
        assert!(state.local_has_acked_message());
        assert_eq!(state.local_recieved_state, AckState::Ack);
        assert_eq!(state.pico_sent_state, before.pico_sent_state);
        assert_eq!(state.user_sent_state, before.user_sent_state);
    }
}

#[test]
fn socket_flag_follows_failure_and_recovery() {
    for before in all_states() {
        let mut state = before;
        state.socket_failure();
        assert!(!state.is_socket_connected());
        assert_eq!(state, PicoState { socket_connected: false, ..before });
        state.socket_connected();
        assert!(state.is_socket_connected());
        assert_eq!(state, PicoState { socket_connected: true, ..before });
    }
}

#[test]
fn small_enums_compare_by_variant() {
    assert_ne!(ActionRequired::Nothing, ActionRequired::SendAck);
    assert_ne!(FaceState::Local, FaceState::Remote);
    assert_ne!(AckState::Ack, AckState::NoAck);
}
