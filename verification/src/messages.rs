//! The messages the two devices exchange, their wire format, and what a
//! device does when one arrives.
//!
//! A message travels as the payload of a publish. It starts with the number
//! of its variant; a face change is followed by the number of the face. Each
//! number is written as a little-endian base-128 varint of 32 bits, so every
//! message this device writes is one or two bytes long. A reader takes the
//! numbers in any spelling that such a varint allows and ignores whatever
//! follows the message.

use vstd::prelude::*;
use vstd::slice::slice_subrange;
use vstd::string::*;
use crate::mqtt::{
    frame_bytes, frame_envelope, publish_frame, publish_frame_bytes, read_frame, Envelope,
    EnvelopeView,
};
use crate::select_face::{Faces, RemoteFace};
use crate::status::{ActionRequired, PicoState};

verus! {

/// The unit of exchange between the two devices.
#[derive(Clone, Copy, Debug, PartialEq, Eq, Structural)]
pub enum Message {
    /// The peer device has received the face that was sent.
    PicoAck,
    /// The peer's user has acknowledged the face that was sent.
    UserAck,
    /// The peer's user has picked a face.
    ChangeFace(Faces),
}

/// The longest payload a reader has to expect from a well-behaved peer.
pub const MESSAGE_CAPACITY: usize = 32;

/// The number under which a face travels.
pub open spec fn face_tag(face: Faces) -> u8 {
    match face {
        Faces::Basic => 0,
        Faces::BasicNoEyebrows => 1,
        Faces::SemiCircleFace => 2,
        Faces::CircleFace => 3,
        Faces::BasicSmile => 4,
        Faces::GoToSleep => 5,
        Faces::Hello => 6,
        Faces::GoodMorning => 7,
        Faces::GoodNight => 8,
        Faces::MessageWaiting => 9,
        Faces::Connecting => 10,
        Faces::ConnectionFailed => 11,
        Faces::SleepingFace => 12,
    }
}

/// The faces in the order of the numbers under which they travel.
pub open spec fn wire_faces() -> Seq<Faces> {
    seq![
        Faces::Basic,
        Faces::BasicNoEyebrows,
        Faces::SemiCircleFace,
        Faces::CircleFace,
        Faces::BasicSmile,
        Faces::GoToSleep,
        Faces::Hello,
        Faces::GoodMorning,
        Faces::GoodNight,
        Faces::MessageWaiting,
        Faces::Connecting,
        Faces::ConnectionFailed,
        Faces::SleepingFace,
    ]
}

/// The face that travels under `tag`, if there is one.
pub open spec fn face_with_tag(tag: nat) -> Option<Faces> {
    if tag < wire_faces().len() {
        Some(wire_faces()[tag as int])
    } else {
        None
    }
}

/// The bytes under which a message travels.
pub open spec fn wire_bytes(message: Message) -> Seq<u8> {
    match message {
        Message::PicoAck => seq![0u8],
        Message::UserAck => seq![1u8],
        Message::ChangeFace(face) => seq![2u8, face_tag(face)],
    }
}

/// 128 to the power of `exponent`.
pub open spec fn pow128(exponent: nat) -> nat
    decreases exponent,
{
    if exponent == 0 {
        1
    } else {
        128 * pow128((exponent - 1) as nat)
    }
}

/// Where the varint that starts at the front of `bytes` ends, looking from
/// position `from` on: one past the first byte below 128, if that byte lies
/// among the first five.
pub open spec fn varint_end(bytes: Seq<u8>, from: nat) -> Option<nat>
    decreases 5 - from,
{
    if from >= 5 || from >= bytes.len() {
        None
    } else if bytes[from as int] < 128 {
        Some(from + 1)
    } else {
        varint_end(bytes, from + 1)
    }
}

/// The number that the first `count` bytes spell: seven bits from each byte,
/// the lowest first.
pub open spec fn varint_sum(bytes: Seq<u8>, count: nat) -> nat
    decreases count,
{
    if count == 0 {
        0
    } else {
        varint_sum(bytes, (count - 1) as nat) + (bytes[count - 1] as nat % 128) * pow128(
            (count - 1) as nat,
        )
    }
}

/// The 32-bit number at the front of `bytes` and how many bytes spell it.
///
/// There is none where the bytes run out or five bytes pass without one
/// below 128, nor where a fifth byte holds more than the four bits that are
/// left of 32.
pub open spec fn read_varint(bytes: Seq<u8>) -> Option<(u32, nat)> {
    match varint_end(bytes, 0) {
        Some(end) => if end == 5 && bytes[4] > 15 {
            None
        } else {
            Some((varint_sum(bytes, end) as u32, end))
        },
        None => None,
    }
}

/// The message that a payload holds, if it holds one.
pub open spec fn parse_message(bytes: Seq<u8>) -> Option<Message> {
    match read_varint(bytes) {
        Some((variant, used)) => if variant == 0 {
            Some(Message::PicoAck)
        } else if variant == 1 {
            Some(Message::UserAck)
        } else if variant == 2 {
            match read_varint(bytes.skip(used as int)) {
                Some((tag, _)) => match face_with_tag(tag as nat) {
                    Some(face) => Some(Message::ChangeFace(face)),
                    None => None,
                },
                None => None,
            }
        } else {
            None
        },
        None => None,
    }
}

proof fn lemma_pow128_values()
    ensures
        pow128(0) == 1,
        pow128(1) == 128,
        pow128(2) == 16384,
        pow128(3) == 2097152,
        pow128(4) == 268435456,
{
    reveal_with_fuel(pow128, 5);
}

proof fn lemma_varint_sum_bound(bytes: Seq<u8>, count: nat)
    requires
        count <= bytes.len(),
    ensures
        varint_sum(bytes, count) < pow128(count),
    decreases count,
{
    if count > 0 {
        let fewer = (count - 1) as nat;
        lemma_varint_sum_bound(bytes, fewer);
        let digit = bytes[count - 1] as nat % 128;
        assert(digit * pow128(fewer) <= 127 * pow128(fewer)) by (nonlinear_arith)
            requires
                digit <= 127,
        ;
    }
}

impl Faces {
    /// The number under which this face travels.
    pub fn wire_tag(self) -> (tag: u8)
        ensures
            tag == face_tag(self),
    {
        match self {
            Faces::Basic => 0,
            Faces::BasicNoEyebrows => 1,
            Faces::SemiCircleFace => 2,
            Faces::CircleFace => 3,
            Faces::BasicSmile => 4,
            Faces::GoToSleep => 5,
            Faces::Hello => 6,
            Faces::GoodMorning => 7,
            Faces::GoodNight => 8,
            Faces::MessageWaiting => 9,
            Faces::Connecting => 10,
            Faces::ConnectionFailed => 11,
            Faces::SleepingFace => 12,
        }
    }

    /// The face that travels under `tag`, if there is one.
    pub fn from_wire_tag(tag: u32) -> (face: Option<Faces>)
        ensures
            face == face_with_tag(tag as nat),
    {
        match tag {
            0 => Some(Faces::Basic),
            1 => Some(Faces::BasicNoEyebrows),
            2 => Some(Faces::SemiCircleFace),
            3 => Some(Faces::CircleFace),
            4 => Some(Faces::BasicSmile),
            5 => Some(Faces::GoToSleep),
            6 => Some(Faces::Hello),
            7 => Some(Faces::GoodMorning),
            8 => Some(Faces::GoodNight),
            9 => Some(Faces::MessageWaiting),
            10 => Some(Faces::Connecting),
            11 => Some(Faces::ConnectionFailed),
            12 => Some(Faces::SleepingFace),
            _ => None,
        }
    }
}

/// Reads the varint at the front of `bytes`.
fn take_varint(bytes: &[u8]) -> (found: Option<(u32, usize)>)
    ensures
        match found {
            Some((value, used)) => read_varint(bytes@) == Some((value, used as nat)) && used
                <= bytes@.len(),
            None => read_varint(bytes@) is None,
        },
{
    let mut sum: u64 = 0;
    let mut scale: u64 = 1;
    let mut at: usize = 0;
    proof {
        lemma_pow128_values();
    }
    while at < 5 && at < bytes.len()
        invariant
            at <= 5,
            at <= bytes.len(),
            varint_end(bytes@, 0) == varint_end(bytes@, at as nat),
            sum == varint_sum(bytes@, at as nat),
            at < 5 ==> scale == pow128(at as nat),
        decreases 5 - at,
    {
        let byte: u8 = bytes[at];
        proof {
            lemma_pow128_values();
            lemma_varint_sum_bound(bytes@, at as nat);
            assert((byte as nat % 128) * (scale as nat) <= 127 * (scale as nat))
                by (nonlinear_arith)
                requires
                    byte as nat % 128 <= 127,
            ;
        }
        if byte < 128 {
            if at == 4 && byte > 15 {
                return None;
            }
            proof {
                assert(byte as nat % 128 == byte as nat);
                if at == 4 {
                    assert((byte as nat) * (scale as nat) <= 15 * (scale as nat))
                        by (nonlinear_arith)
                        requires
                            byte as nat <= 15,
                    ;
                }
            }
            let value: u64 = sum + (byte as u64) * scale;
            return Some((value as u32, at + 1));
        }
        proof {
            assert(byte as nat % 128 == byte as nat - 128);
        }
        sum = sum + ((byte - 128) as u64) * scale;
        if at < 4 {
            scale = scale * 128;
        }
        at = at + 1;
    }
    None
}

/// Writes a message as it travels: one byte for an acknowledgement, two for
/// a face change.
pub fn encode_message(message: &Message) -> (bytes: Vec<u8>)
    ensures
        bytes@ == wire_bytes(*message),
        bytes@.len() <= MESSAGE_CAPACITY,
{
    let mut bytes: Vec<u8> = Vec::new();
    match message {
        Message::PicoAck => {
            bytes.push(0);
        },
        Message::UserAck => {
            bytes.push(1);
        },
        Message::ChangeFace(face) => {
            bytes.push(2);
            bytes.push(face.wire_tag());
        },
    }
    bytes
}

/// Reads the message at the front of a payload. `None` means that the
/// payload is not a message of this protocol.
pub fn decode_message(payload: &[u8]) -> (message: Option<Message>)
    ensures
        message == parse_message(payload@),
{
    match take_varint(payload) {
        Some((variant, used)) => {
            if variant == 0 {
                Some(Message::PicoAck)
            } else if variant == 1 {
                Some(Message::UserAck)
            } else if variant == 2 {
                let rest = slice_subrange(payload, used, payload.len());
                match take_varint(rest) {
                    Some((tag, _)) => match Faces::from_wire_tag(tag) {
                        Some(face) => Some(Message::ChangeFace(face)),
                        None => None,
                    },
                    None => None,
                }
            } else {
                None
            }
        },
        None => None,
    }
}

/// A payload whose first byte is below 128 starts with that number, spelt
/// in one byte.
proof fn lemma_single_byte_varint(bytes: Seq<u8>)
    requires
        bytes.len() > 0,
        bytes[0] < 128,
    ensures
        read_varint(bytes) == Some((bytes[0] as u32, 1nat)),
{
    reveal_with_fuel(varint_end, 2);
    reveal_with_fuel(varint_sum, 2);
    reveal_with_fuel(pow128, 2);
    assert(varint_end(bytes, 0) == Some(1nat));
    assert(varint_sum(bytes, 1) == bytes[0] as nat);
}

/// Reading what was written gives the message back, for every message and
/// whatever bytes follow it in the payload.
pub proof fn lemma_message_round_trip(message: Message, trailing: Seq<u8>)
    ensures
        parse_message(wire_bytes(message)) == Some(message),
        parse_message(wire_bytes(message) + trailing) == Some(message),
{
    let written = wire_bytes(message);
    let longer = written + trailing;
    assert(longer[0] == written[0]);
    lemma_single_byte_varint(written);
    lemma_single_byte_varint(longer);
    match message {
        Message::ChangeFace(face) => {
            assert(longer[1] == written[1]);
            assert(written.skip(1)[0] == face_tag(face));
            assert(longer.skip(1)[0] == face_tag(face));
            lemma_single_byte_varint(written.skip(1));
            lemma_single_byte_varint(longer.skip(1));
            assert(face_with_tag(face_tag(face) as nat) == Some(face));
        },
        _ => {},
    }
}

/// Two messages that travel under the same bytes are the same message.
pub proof fn lemma_wire_bytes_distinct(first: Message, second: Message)
    requires
        wire_bytes(first) == wire_bytes(second),
    ensures
        first == second,
{
    lemma_message_round_trip(first, Seq::empty());
    lemma_message_round_trip(second, Seq::empty());
}

/// The acknowledgement flags after a payload has been read as `message`;
/// `None` stands for a payload that is not a message of this protocol.
pub open spec fn state_after_message(message: Option<Message>, state: PicoState) -> PicoState {
    match message {
        Some(Message::PicoAck) => state.with_pico_ack(),
        Some(Message::UserAck) => state.with_user_ack(),
        Some(Message::ChangeFace(_)) => state.with_face_recieved(),
        None => state,
    }
}

/// The peer's face after a payload has been read as `message`.
pub open spec fn face_after_message(message: Option<Message>, remote: RemoteFace) -> RemoteFace {
    match message {
        Some(Message::ChangeFace(face)) => RemoteFace { face },
        _ => remote,
    }
}

/// What is owed to the peer after a payload has been read as `message`: the
/// device-level acknowledgement of a face change, and nothing otherwise.
pub open spec fn action_after_message(message: Option<Message>) -> ActionRequired {
    match message {
        Some(Message::ChangeFace(_)) => ActionRequired::SendAck,
        _ => ActionRequired::Nothing,
    }
}

/// Acts on what a payload was read as.
///
/// An acknowledgement sets its flag. A face change replaces the peer's face,
/// marks it as waiting for the local user and asks for the device-level
/// acknowledgement. A payload that is no message changes nothing.
pub fn apply_message(
    message: Option<Message>,
    state: &mut PicoState,
    remote_face: &mut RemoteFace,
) -> (action: ActionRequired)
    ensures
        *final(state) == state_after_message(message, *old(state)),
        *final(remote_face) == face_after_message(message, *old(remote_face)),
        action == action_after_message(message),
{
    match message {
        Some(recieved) => match recieved {
            Message::PicoAck => {
                state.recieve_pico_ack();
            },
            Message::ChangeFace(recieved_face) => {
                remote_face.set_face(recieved_face);
                state.recieved_face();
                return ActionRequired::SendAck;
            },
            Message::UserAck => {
                state.recieve_user_ack();
            },
        },
        None => {},
    }
    ActionRequired::Nothing
}

/// Reads the payload of a publish and acts on it.
pub fn process_message(
    payload: &[u8],
    state: &mut PicoState,
    remote_face: &mut RemoteFace,
) -> (action: ActionRequired)
    ensures
        *final(state) == state_after_message(parse_message(payload@), *old(state)),
        *final(remote_face) == face_after_message(parse_message(payload@), *old(remote_face)),
        action == action_after_message(parse_message(payload@)),
{
    apply_message(decode_message(payload), state, remote_face)
}

/// Builds the frame that publishes `message` on this device's own topic.
///
/// `None` means that the frame could not be built: the topic is too long for
/// it, or the codec refused.
pub fn message_frame(message: &Message, own_topic: &str) -> (frame: Option<Vec<u8>>)
    ensures
        frame_bytes(frame) == publish_frame_bytes(own_topic, wire_bytes(*message)),
{
    let payload = encode_message(message);
    publish_frame(own_topic, payload.as_slice())
}

/// Records how writing a frame to the transport went: a failure marks the
/// transport as broken, and nothing is sent again.
pub fn record_send(state: &mut PicoState, delivered: bool)
    ensures
        *final(state) == (if delivered {
            *old(state)
        } else {
            old(state).with_socket(false)
        }),
{
    if !delivered {
        state.socket_failure();
    }
}

/// How many invalid frames one call to listen puts up with.
pub const INVALID_LIMIT: u32 = 10;

/// Seconds to wait after an invalid frame before reading again.
pub const INVALID_PAUSE_SECS: u64 = 10;

/// What the caller of the listener has to do next.
#[derive(Clone, Copy, Debug, PartialEq, Eq, Structural)]
pub enum ListenStep {
    /// Read the next frame and hand it in.
    Read,
    /// Wait this many seconds, then read the next frame and hand it in.
    Pause { secs: u64 },
    /// Publish this message; with that, listening is over.
    Reply(Message),
    /// Listening is over: the transport has been marked as broken.
    Stop,
}

/// The bookkeeping of one call to listen.
#[derive(Clone, Copy, Debug, PartialEq, Eq, Structural)]
pub struct Listener {
    /// Invalid frames seen so far.
    pub invalid_count: u32,
}

/// Everything that handing one frame to the listener determines.
pub struct ListenOutcome {
    pub invalid_count: u32,
    pub state: PicoState,
    pub remote_face: RemoteFace,
    pub step: ListenStep,
}

/// What the listener makes of one frame.
///
/// A publish on the peer's topic is read as a message and acted on; a face
/// change ends listening with the device-level acknowledgement as reply. A
/// publish on another topic and any other well-formed frame are passed over.
/// An invalid frame is counted and answered with a pause, until one arrives
/// when [`INVALID_LIMIT`] have been counted already: that one marks the
/// transport as broken and ends listening.
pub open spec fn listen_outcome(
    invalid_count: u32,
    envelope: EnvelopeView,
    peer_topic: Seq<u8>,
    state: PicoState,
    remote_face: RemoteFace,
) -> ListenOutcome {
    match envelope {
        EnvelopeView::Publish { topic, payload } => if topic == peer_topic {
            let message = parse_message(payload);
            ListenOutcome {
                invalid_count,
                state: state_after_message(message, state),
                remote_face: face_after_message(message, remote_face),
                step: if action_after_message(message) == ActionRequired::SendAck {
                    ListenStep::Reply(Message::PicoAck)
                } else {
                    ListenStep::Read
                },
            }
        } else {
            ListenOutcome { invalid_count, state, remote_face, step: ListenStep::Read }
        },
        EnvelopeView::Other => ListenOutcome {
            invalid_count,
            state,
            remote_face,
            step: ListenStep::Read,
        },
        EnvelopeView::Invalid => if invalid_count >= INVALID_LIMIT {
            ListenOutcome {
                invalid_count,
                state: state.with_socket(false),
                remote_face,
                step: ListenStep::Stop,
            }
        } else {
            ListenOutcome {
                invalid_count: (invalid_count + 1) as u32,
                state,
                remote_face,
                step: ListenStep::Pause { secs: INVALID_PAUSE_SECS },
            }
        },
    }
}

/// Whether two runs of bytes are the same.
fn same_bytes(left: &[u8], right: &[u8]) -> (same: bool)
    ensures
        same == (left@ == right@),
{
    if left.len() != right.len() {
        return false;
    }
    let mut at: usize = 0;
    while at < left.len()
        invariant
            at <= left@.len(),
            left@.len() == right@.len(),
            forall|k: int| 0 <= k < at ==> left@[k] == right@[k],
        decreases left@.len() - at,
    {
        if left[at] != right[at] {
            return false;
        }
        at = at + 1;
    }
    assert(left@ =~= right@);
    true
}

impl Listener {
    /// A listener that has seen nothing yet.
    pub fn new() -> (listener: Listener)
        ensures
            listener.invalid_count == 0,
    {
        Listener { invalid_count: 0 }
    }

    /// Takes one frame in its decoded form; see [`listen_outcome`].
    pub fn on_envelope(
        &mut self,
        envelope: &Envelope,
        peer_topic: &str,
        state: &mut PicoState,
        remote_face: &mut RemoteFace,
    ) -> (step: ListenStep)
        ensures
            (ListenOutcome {
                invalid_count: final(self).invalid_count,
                state: *final(state),
                remote_face: *final(remote_face),
                step,
            }) == listen_outcome(
                old(self).invalid_count,
                envelope@,
                peer_topic.spec_bytes(),
                *old(state),
                *old(remote_face),
            ),
    {
        match envelope {
            Envelope::Publish { topic, payload } => {
                if same_bytes(topic.as_slice(), peer_topic.as_bytes()) {
                    match process_message(payload.as_slice(), state, remote_face) {
                        ActionRequired::SendAck => ListenStep::Reply(Message::PicoAck),
                        ActionRequired::Nothing => ListenStep::Read,
                    }
                } else {
                    ListenStep::Read
                }
            },
            Envelope::Other => ListenStep::Read,
            Envelope::Invalid => {
                if self.invalid_count >= INVALID_LIMIT {
                    state.socket_failure();
                    ListenStep::Stop
                } else {
                    self.invalid_count = self.invalid_count + 1;
                    ListenStep::Pause { secs: INVALID_PAUSE_SECS }
                }
            },
        }
    }

    /// Takes what one read from the transport gave: the bytes that arrived,
    /// or `None` where the read failed, which counts as an invalid frame.
    pub fn on_frame(
        &mut self,
        frame: Option<&[u8]>,
        peer_topic: &str,
        state: &mut PicoState,
        remote_face: &mut RemoteFace,
    ) -> (step: ListenStep)
        ensures
            (ListenOutcome {
                invalid_count: final(self).invalid_count,
                state: *final(state),
                remote_face: *final(remote_face),
                step,
            }) == listen_outcome(
                old(self).invalid_count,
                match frame {
                    Some(bytes) => frame_envelope(bytes@),
                    None => EnvelopeView::Invalid,
                },
                peer_topic.spec_bytes(),
                *old(state),
                *old(remote_face),
            ),
    {
        let envelope = match frame {
            Some(bytes) => read_frame(bytes),
            None => Envelope::Invalid,
        };
        self.on_envelope(&envelope, peer_topic, state, remote_face)
    }
}

impl Default for Listener {
    fn default() -> (listener: Listener)
        ensures
            listener.invalid_count == 0,
    {
        Listener::new()
    }
}

/// The outcome of one call to listen in which `envelopes` arrive one after
/// the other: each is handed to the listener as long as listening goes on,
/// and what arrives after a reply or a stop is not looked at.
pub open spec fn listen_run(
    start: ListenOutcome,
    envelopes: Seq<EnvelopeView>,
    peer_topic: Seq<u8>,
) -> ListenOutcome
    decreases envelopes.len(),
{
    if envelopes.len() == 0 {
        start
    } else {
        let before = listen_run(start, envelopes.drop_last(), peer_topic);
        if before.step is Reply || before.step is Stop {
            before
        } else {
            listen_outcome(
                before.invalid_count,
                envelopes.last(),
                peer_topic,
                before.state,
                before.remote_face,
            )
        }
    }
}

/// A face change that arrives on the peer's topic replaces the peer's face,
/// leaves it waiting for the local user and ends listening with the
/// device-level acknowledgement as reply, whatever the state was before.
pub proof fn lemma_face_change_is_acknowledged(
    invalid_count: u32,
    peer_topic: Seq<u8>,
    face: Faces,
    state: PicoState,
    remote_face: RemoteFace,
)
    ensures
        listen_outcome(
            invalid_count,
            EnvelopeView::Publish {
                topic: peer_topic,
                payload: wire_bytes(Message::ChangeFace(face)),
            },
            peer_topic,
            state,
            remote_face,
        ) == (ListenOutcome {
            invalid_count,
            state: state.with_face_recieved(),
            remote_face: RemoteFace { face },
            step: ListenStep::Reply(Message::PicoAck),
        }),
{
    lemma_message_round_trip(Message::ChangeFace(face), Seq::empty());
}

/// A call to listen that sees nothing but invalid frames pauses after each
/// of the first [`INVALID_LIMIT`] and touches nothing but its count; the
/// frame after those stops it with the transport marked as broken, and
/// still no message has been acted on.
pub proof fn lemma_invalid_frames_break_the_transport(
    start: ListenOutcome,
    envelopes: Seq<EnvelopeView>,
    peer_topic: Seq<u8>,
)
    requires
        start.invalid_count == 0,
        start.step == ListenStep::Read,
        envelopes.len() <= INVALID_LIMIT + 1,
        forall|k: int| 0 <= k < envelopes.len() ==> envelopes[k] is Invalid,
    ensures
        1 <= envelopes.len() <= INVALID_LIMIT ==> listen_run(start, envelopes, peer_topic) == (
        ListenOutcome {
            invalid_count: envelopes.len() as u32,
            state: start.state,
            remote_face: start.remote_face,
            step: ListenStep::Pause { secs: INVALID_PAUSE_SECS },
        }),
        envelopes.len() == INVALID_LIMIT + 1 ==> listen_run(start, envelopes, peer_topic) == (
        ListenOutcome {
            invalid_count: INVALID_LIMIT,
            state: start.state.with_socket(false),
            remote_face: start.remote_face,
            step: ListenStep::Stop,
        }),
    decreases envelopes.len(),
{
    if envelopes.len() > 0 {
        let earlier = envelopes.drop_last();
        assert forall|k: int| 0 <= k < earlier.len() implies earlier[k] is Invalid by {
            assert(earlier[k] == envelopes[k]);
        }
        lemma_invalid_frames_break_the_transport(start, earlier, peer_topic);
        assert(envelopes.last() is Invalid);
    }
}

} // verus!
