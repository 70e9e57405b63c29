use core::fmt;

use distance_friend::messages::{
    apply_message, decode_message, encode_message, message_frame, process_message, record_send,
    ListenStep, Listener, Message, INVALID_LIMIT, INVALID_PAUSE_SECS, MESSAGE_CAPACITY,
};
use distance_friend::mqtt::{publish_frame, Envelope};
use distance_friend::select_face::{Faces, RemoteFace};
use distance_friend::status::{AckState, ActionRequired, PicoState};
use serde::de::{self, Deserialize, Deserializer, EnumAccess, VariantAccess, Visitor};
use serde::ser::{Serialize, Serializer};

const ALL_FACES: [Faces; 13] = [
    Faces::Basic,
    Faces::BasicNoEyebrows,
    Faces::SemiCircleFace,
    Faces::CircleFace,
    Faces::BasicSmile,
    Faces::GoToSleep,
    Faces::Hello,
    Faces::GoodMorning,
    Faces::GoodNight,
    Faces::MessageWaiting,
    Faces::Connecting,
    Faces::ConnectionFailed,
    Faces::SleepingFace,
];

const FACE_NAMES: [&str; 13] = [
    "Basic",
    "BasicNoEyebrows",
    "SemiCircleFace",
    "CircleFace",
    "BasicSmile",
    "GoToSleep",
    "Hello",
    "GoodMorning",
    "GoodNight",
    "MessageWaiting",
    "Connecting",
    "ConnectionFailed",
    "SleepingFace",
];

const MESSAGE_NAMES: [&str; 3] = ["PicoAck", "UserAck", "ChangeFace"];

const PEER: &str = "friend/two";
const OWN: &str = "friend/one";

fn all_messages() -> Vec<Message> {
    let mut messages = vec![Message::PicoAck, Message::UserAck];
    for face in ALL_FACES {
        messages.push(Message::ChangeFace(face));
    }
    messages
}

/// A face as a plain enum with unit variants, written and read through
/// serde the way a derived impl does it: by the index of the variant.
#[derive(Clone, Copy, Debug, PartialEq)]
struct FaceMirror(u32);

/// A message the same way: two unit variants and one that wraps a face.
#[derive(Clone, Copy, Debug, PartialEq)]
enum MessageMirror {
    PicoAck,
    UserAck,
    ChangeFace(FaceMirror),
}

impl Serialize for FaceMirror {
    fn serialize<S: Serializer>(&self, serializer: S) -> Result<S::Ok, S::Error> {
        serializer.serialize_unit_variant("Faces", self.0, FACE_NAMES[self.0 as usize])
    }
}

impl Serialize for MessageMirror {
    fn serialize<S: Serializer>(&self, serializer: S) -> Result<S::Ok, S::Error> {
        match self {
            MessageMirror::PicoAck => serializer.serialize_unit_variant("Message", 0, "PicoAck"),
            MessageMirror::UserAck => serializer.serialize_unit_variant("Message", 1, "UserAck"),
            MessageMirror::ChangeFace(face) => {
                serializer.serialize_newtype_variant("Message", 2, "ChangeFace", face)
            }
        }
    }
}

struct FaceVisitor;

impl<'de> Visitor<'de> for FaceVisitor {
    type Value = FaceMirror;

    fn expecting(&self, formatter: &mut fmt::Formatter) -> fmt::Result {
        formatter.write_str("a face")
    }

    fn visit_enum<A: EnumAccess<'de>>(self, data: A) -> Result<FaceMirror, A::Error> {
        let (index, variant): (u32, A::Variant) = data.variant()?;
        if index >= 13 {
            return Err(de::Error::custom("no such face"));
        }
        variant.unit_variant()?;
        Ok(FaceMirror(index))
    }
}

impl<'de> Deserialize<'de> for FaceMirror {
    fn deserialize<D: Deserializer<'de>>(deserializer: D) -> Result<Self, D::Error> {
        deserializer.deserialize_enum("Faces", &FACE_NAMES, FaceVisitor)
    }
}

struct MessageVisitor;

impl<'de> Visitor<'de> for MessageVisitor {
    type Value = MessageMirror;

    fn expecting(&self, formatter: &mut fmt::Formatter) -> fmt::Result {
        formatter.write_str("a message")
    }

    fn visit_enum<A: EnumAccess<'de>>(self, data: A) -> Result<MessageMirror, A::Error> {
        let (index, variant): (u32, A::Variant) = data.variant()?;
        match index {
            0 => {
                variant.unit_variant()?;
                Ok(MessageMirror::PicoAck)
            }
            1 => {
                variant.unit_variant()?;
                Ok(MessageMirror::UserAck)
            }
            2 => Ok(MessageMirror::ChangeFace(variant.newtype_variant::<FaceMirror>()?)),
            _ => Err(de::Error::custom("no such message")),
        }
    }
}

impl<'de> Deserialize<'de> for MessageMirror {
    fn deserialize<D: Deserializer<'de>>(deserializer: D) -> Result<Self, D::Error> {
        deserializer.deserialize_enum("Message", &MESSAGE_NAMES, MessageVisitor)
    }
}

fn mirror(message: Message) -> MessageMirror {
    match message {
        Message::PicoAck => MessageMirror::PicoAck,
        Message::UserAck => MessageMirror::UserAck,
        Message::ChangeFace(face) => MessageMirror::ChangeFace(FaceMirror(face.wire_tag() as u32)),
    }
}

fn unmirror(message: MessageMirror) -> Message {
    match message {
        MessageMirror::PicoAck => Message::PicoAck,
        MessageMirror::UserAck => Message::UserAck,
        MessageMirror::ChangeFace(face) => Message::ChangeFace(ALL_FACES[face.0 as usize]),
    }
}

fn pending() -> PicoState {
    PicoState { local_recieved_state: AckState::NoAck, ..PicoState::new() }
}

#[test]
fn messages_have_their_exact_bytes() {
    assert_eq!(encode_message(&Message::PicoAck), vec![0u8]);
    assert_eq!(encode_message(&Message::UserAck), vec![1u8]);
    assert_eq!(encode_message(&Message::ChangeFace(Faces::Basic)), vec![2u8, 0]);
    assert_eq!(encode_message(&Message::ChangeFace(Faces::GoToSleep)), vec![2u8, 5]);
    assert_eq!(encode_message(&Message::ChangeFace(Faces::Hello)), vec![2u8, 6]);
    assert_eq!(encode_message(&Message::ChangeFace(Faces::SleepingFace)), vec![2u8, 12]);
}

#[test]
fn face_tags_count_the_faces_in_order() {
    for (index, face) in ALL_FACES.iter().enumerate() {
        assert_eq!(face.wire_tag() as usize, index);
        assert_eq!(Faces::from_wire_tag(index as u32), Some(*face));
    }
    assert_eq!(Faces::from_wire_tag(13), None);
    assert_eq!(Faces::from_wire_tag(u32::MAX), None);
}

#[test]
fn every_message_round_trips() {
    for message in all_messages() {
        let bytes = encode_message(&message);
        assert!(bytes.len() <= MESSAGE_CAPACITY);
        assert_eq!(decode_message(&bytes), Some(message));
        let mut longer = bytes.clone();
        longer.extend_from_slice(&[0xff, 0x00, 0x80]);
        assert_eq!(decode_message(&longer), Some(message));
    }
}

#[test]
fn encoding_is_what_postcard_writes() {
    for message in all_messages() {
        let mut buffer = [0u8; 32];
        let written = postcard::to_slice(&mirror(message), &mut buffer).unwrap();
        assert_eq!(encode_message(&message).as_slice(), &written[..]);
    }
}

#[test]
fn decoding_accepts_long_spellings_of_small_numbers() {
    assert_eq!(decode_message(&[0x80, 0x00]), Some(Message::PicoAck));
    assert_eq!(decode_message(&[0x81, 0x80, 0x00]), Some(Message::UserAck));
    assert_eq!(
        decode_message(&[0x82, 0x80, 0x80, 0x80, 0x00, 0x86, 0x00]),
        Some(Message::ChangeFace(Faces::Hello))
    );
    assert_eq!(decode_message(&[0x02, 0x8c, 0x80, 0x00]), Some(Message::ChangeFace(Faces::SleepingFace)));
}

#[test]
fn decoding_rejects_what_is_no_message() {
    assert_eq!(decode_message(&[]), None);
    assert_eq!(decode_message(&[3]), None);
    assert_eq!(decode_message(&[0x7f]), None);
    assert_eq!(decode_message(&[2]), None);
    assert_eq!(decode_message(&[2, 13]), None);
    assert_eq!(decode_message(&[2, 0x80]), None);
    assert_eq!(decode_message(&[0x80]), None);
    assert_eq!(decode_message(&[0x80, 0x01]), None);
    assert_eq!(decode_message(&[0x80, 0x80, 0x80, 0x80, 0x80, 0x00]), None);
    assert_eq!(decode_message(&[0x80, 0x80, 0x80, 0x80, 0x10]), None);
    assert_eq!(decode_message(&[0x80, 0x80, 0x80, 0x80, 0x0f]), None);
    assert_eq!(decode_message(b"hello"), None);
}

#[test]
fn decoding_agrees_with_postcard_on_short_payloads() {
    assert_eq!(decode_message(&[]), postcard::from_bytes::<MessageMirror>(&[]).ok().map(unmirror));
    for first in 0..=255u8 {
        let bytes = [first];
        let expected = postcard::from_bytes::<MessageMirror>(&bytes).ok().map(unmirror);
        assert_eq!(decode_message(&bytes), expected, "{:?}", bytes);
        for second in 0..=255u8 {
            let bytes = [first, second];
            let expected = postcard::from_bytes::<MessageMirror>(&bytes).ok().map(unmirror);
            assert_eq!(decode_message(&bytes), expected, "{:?}", bytes);
        }
    }
}

#[test]
fn decoding_agrees_with_postcard_on_long_spellings() {
    let alphabet = [0x00u8, 0x01, 0x02, 0x0c, 0x0d, 0x0f, 0x10, 0x80, 0x81, 0x82, 0x8c, 0x8d, 0xff];
    let mut bytes = [0u8; 6];
    let mut counter = vec![0usize; 6];
    loop {
        for (slot, digit) in bytes.iter_mut().zip(counter.iter()) {
            *slot = alphabet[*digit];
        }
        for length in 3..=6 {
            let payload = &bytes[..length];
            let expected = postcard::from_bytes::<MessageMirror>(payload).ok().map(unmirror);
            assert_eq!(decode_message(payload), expected, "{:?}", payload);
        }
        let mut place = 0;
        while place < 6 {
            counter[place] += 1;
            if counter[place] < alphabet.len() {
                break;
            }
            counter[place] = 0;
            place += 1;
        }
        if place == 6 {
            break;
        }
    }
    let ten = [0x82u8, 0x80, 0x80, 0x80, 0x00, 0x86, 0x80, 0x80, 0x80, 0x00];
    assert_eq!(
        decode_message(&ten),
        postcard::from_bytes::<MessageMirror>(&ten).ok().map(unmirror)
    );
    assert_eq!(decode_message(&ten), Some(Message::ChangeFace(Faces::Hello)));
}

#[test]
fn pico_ack_sets_the_device_flag() {
    let mut state = PicoState::new();
    state.send_face();
    let mut remote = RemoteFace::default();
    let action = process_message(&[0], &mut state, &mut remote);
    assert_eq!(action, ActionRequired::Nothing);
    assert_eq!(state.pico_sent_state, AckState::Ack);
    assert_eq!(state.user_sent_state, AckState::NoAck);
    assert_eq!(remote.face, Faces::Basic);
}

#[test]
fn user_ack_sets_the_user_flag() {
    let mut state = PicoState::new();
    state.send_face();
    let mut remote = RemoteFace { face: Faces::CircleFace };
    let action = process_message(&[1], &mut state, &mut remote);
    assert_eq!(action, ActionRequired::Nothing);
    assert_eq!(state.user_sent_state, AckState::Ack);
    assert_eq!(state.pico_sent_state, AckState::NoAck);
    assert_eq!(remote.face, Faces::CircleFace);
}

#[test]
fn change_face_replaces_the_remote_face_and_asks_for_ack() {
    let mut state = PicoState::new();
    let mut remote = RemoteFace::default();
    let action = process_message(&[2, 6], &mut state, &mut remote);
    assert_eq!(action, ActionRequired::SendAck);
    assert_eq!(remote.face, Faces::Hello);
    assert_eq!(state, pending());
}

#[test]
fn payload_that_is_no_message_changes_nothing() {
    let mut state = pending();
    let mut remote = RemoteFace { face: Faces::GoodNight };
    let action = process_message(b"not a message", &mut state, &mut remote);
    assert_eq!(action, ActionRequired::Nothing);
    assert_eq!(state, pending());
    assert_eq!(remote.face, Faces::GoodNight);
    let action = apply_message(None, &mut state, &mut remote);
    assert_eq!(action, ActionRequired::Nothing);
    assert_eq!(state, pending());
}

#[test]
fn apply_message_acts_on_each_variant() {
    let mut state = PicoState::new();
    state.send_face();
    let mut remote = RemoteFace::default();
    assert_eq!(apply_message(Some(Message::UserAck), &mut state, &mut remote), ActionRequired::Nothing);
    assert_eq!(apply_message(Some(Message::PicoAck), &mut state, &mut remote), ActionRequired::Nothing);
    assert_eq!(state, PicoState::new());
    assert_eq!(
        apply_message(Some(Message::ChangeFace(Faces::GoodMorning)), &mut state, &mut remote),
        ActionRequired::SendAck
    );
    assert_eq!(remote.face, Faces::GoodMorning);
    assert_eq!(state, pending());
}

#[test]
fn failed_send_marks_the_transport_broken() {
    let mut state = PicoState::new();
    record_send(&mut state, true);
    assert_eq!(state, PicoState::new());
    record_send(&mut state, false);
    assert_eq!(state, PicoState { socket_connected: false, ..PicoState::new() });
    record_send(&mut state, true);
    assert!(!state.is_socket_connected());
}

#[test]
fn message_frame_is_a_publish_on_the_own_topic() {
    let frame = message_frame(&Message::ChangeFace(Faces::Hello), OWN).unwrap();
    let mut expected = vec![0x30u8, 14, 0, 10];
    expected.extend_from_slice(OWN.as_bytes());
    expected.extend_from_slice(&[2, 6]);
    assert_eq!(frame, expected);
    assert_eq!(Some(frame), publish_frame(OWN, &[2, 6]));
    let long_topic = "t".repeat(2000);
    assert_eq!(message_frame(&Message::PicoAck, &long_topic), None);
}

#[test]
fn received_face_change_is_acknowledged_by_the_device() {
    let frame = publish_frame(PEER, &encode_message(&Message::ChangeFace(Faces::Hello))).unwrap();
    let mut listener = Listener::new();
    let mut state = PicoState::new();
    let mut remote = RemoteFace::default();
    assert_eq!(state.local_recieved_state, AckState::Ack);
    let step = listener.on_frame(Some(&frame), PEER, &mut state, &mut remote);
    assert_eq!(step, ListenStep::Reply(Message::PicoAck));
    assert_eq!(remote.face, Faces::Hello);
    assert_eq!(state.local_recieved_state, AckState::NoAck);
    assert!(state.is_socket_connected());
    assert_eq!(listener.invalid_count, 0);
}

#[test]
fn eleven_invalid_frames_break_the_transport() {
    let mut listener = Listener::new();
    let mut state = PicoState::new();
    state.send_face();
    let before = state;
    let mut remote = RemoteFace { face: Faces::CircleFace };
    for seen in 1..=10u32 {
        let step = listener.on_frame(Some(&[0u8, 0, 0, 0]), PEER, &mut state, &mut remote);
        assert_eq!(step, ListenStep::Pause { secs: 10 });
        assert_eq!(listener.invalid_count, seen);
        assert_eq!(state, before);
    }
    let step = listener.on_frame(Some(&[0u8, 0, 0, 0]), PEER, &mut state, &mut remote);
    assert_eq!(step, ListenStep::Stop);
    assert!(!state.is_socket_connected());
    assert_eq!(state, PicoState { socket_connected: false, ..before });
    assert_eq!(remote.face, Faces::CircleFace);
    assert_eq!(INVALID_LIMIT, 10);
    assert_eq!(INVALID_PAUSE_SECS, 10);
}

#[test]
fn failed_read_counts_as_invalid_frame() {
    let mut listener = Listener::new();
    let mut state = PicoState::new();
    let mut remote = RemoteFace::default();
    assert_eq!(listener.on_frame(None, PEER, &mut state, &mut remote), ListenStep::Pause { secs: 10 });
    assert_eq!(listener.invalid_count, 1);
    let mut listener = Listener { invalid_count: 10 };
    assert_eq!(listener.on_frame(None, PEER, &mut state, &mut remote), ListenStep::Stop);
    assert_eq!(listener.invalid_count, 10);
    assert!(!state.is_socket_connected());
}

#[test]
fn acknowledgements_keep_the_listener_reading() {
    let mut listener = Listener::new();
    let mut state = PicoState::new();
    state.send_face();
    let mut remote = RemoteFace::default();
    let pico = publish_frame(PEER, &[0]).unwrap();
    assert_eq!(listener.on_frame(Some(&pico), PEER, &mut state, &mut remote), ListenStep::Read);
    assert_eq!(state.pico_sent_state, AckState::Ack);
    assert_eq!(state.user_sent_state, AckState::NoAck);
    let user = publish_frame(PEER, &[1]).unwrap();
    assert_eq!(listener.on_frame(Some(&user), PEER, &mut state, &mut remote), ListenStep::Read);
    assert_eq!(state, PicoState::new());
    assert_eq!(listener.invalid_count, 0);
}

#[test]
fn undecodable_payload_does_not_count_against_the_budget() {
    let mut listener = Listener::new();
    let mut state = PicoState::new();
    let mut remote = RemoteFace::default();
    let frame = publish_frame(PEER, b"hello").unwrap();
    for _ in 0..20 {
        assert_eq!(listener.on_frame(Some(&frame), PEER, &mut state, &mut remote), ListenStep::Read);
    }
    assert_eq!(listener.invalid_count, 0);
    assert_eq!(state, PicoState::new());
    assert_eq!(remote.face, Faces::Basic);
}

#[test]
fn publish_on_another_topic_is_passed_over() {
    let mut listener = Listener::new();
    let mut state = PicoState::new();
    let mut remote = RemoteFace::default();
    let frame = publish_frame("friend/three", &[2, 6]).unwrap();
    assert_eq!(listener.on_frame(Some(&frame), PEER, &mut state, &mut remote), ListenStep::Read);
    assert_eq!(state, PicoState::new());
    assert_eq!(remote.face, Faces::Basic);
    let envelope = Envelope::Publish { topic: b"friend/tw".to_vec(), payload: vec![2, 6] };
    assert_eq!(listener.on_envelope(&envelope, PEER, &mut state, &mut remote), ListenStep::Read);
    assert_eq!(remote.face, Faces::Basic);
}

#[test]
fn other_packets_are_passed_over() {
    let mut listener = Listener { invalid_count: 4 };
    let mut state = pending();
    let mut remote = RemoteFace { face: Faces::Hello };
    assert_eq!(listener.on_envelope(&Envelope::Other, PEER, &mut state, &mut remote), ListenStep::Read);
    let connack = [0x20u8, 0x02, 0x00, 0x00];
    assert_eq!(listener.on_frame(Some(&connack), PEER, &mut state, &mut remote), ListenStep::Read);
    let pingresp = [0xd0u8, 0x00];
    assert_eq!(listener.on_frame(Some(&pingresp), PEER, &mut state, &mut remote), ListenStep::Read);
    assert_eq!(listener.invalid_count, 4);
    assert_eq!(state, pending());
    assert_eq!(remote.face, Faces::Hello);
}

#[test]
fn listener_on_envelope_dispatches_a_publish() {
    let mut listener = Listener::default();
    let mut state = PicoState::new();
    let mut remote = RemoteFace::default();
    let envelope = Envelope::Publish { topic: PEER.as_bytes().to_vec(), payload: vec![2, 8] };
    assert_eq!(
        listener.on_envelope(&envelope, PEER, &mut state, &mut remote),
        ListenStep::Reply(Message::PicoAck)
    );
    assert_eq!(remote.face, Faces::GoodNight);
    assert_eq!(state, pending());
    assert_eq!(
        listener.on_envelope(&Envelope::Invalid, PEER, &mut state, &mut remote),
        ListenStep::Pause { secs: 10 }
    );
    assert_eq!(listener.invalid_count, 1);
}
