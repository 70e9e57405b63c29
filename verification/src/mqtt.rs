//! The frames that travel between a device and the broker.
//!
//! Frames are built and taken apart by the `mqttrs` codec. This module says
//! which frames the device sends, hands arriving bytes to the codec only when
//! their shape makes that safe, and orders the steps that bring a broker
//! connection up.

use vstd::prelude::*;
use vstd::string::*;

verus! {

/// Room for one outgoing frame, in bytes.
pub const FRAME_CAPACITY: usize = 1024;

/// The keep-alive written into the connect frame, in seconds: the largest
/// value below the one that the field can hold.
pub const CONNECT_KEEP_ALIVE: u16 = 65534;

/// The packet identifier of the one subscription a device makes.
pub const SUBSCRIBE_PID: u16 = 1;

/// The longest topic, in bytes, that a subscription can name.
pub const TOPIC_CAPACITY: usize = 256;

/// Seconds between keep-alive probes on the stream to the broker.
pub const STREAM_KEEP_ALIVE_SECS: u64 = 120;

/// Seconds of silence after which the stream to the broker is given up.
pub const STREAM_TIMEOUT_SECS: u64 = 240;

/// What a frame from the broker amounts to for this device.
#[derive(Debug, PartialEq, Eq)]
pub enum Envelope {
    /// A publish: the bytes of its topic name and its payload.
    Publish { topic: Vec<u8>, payload: Vec<u8> },
    /// A well-formed frame of any other kind.
    Other,
    /// Not a complete, well-formed frame.
    Invalid,
}

/// An [`Envelope`] as the contracts see it.
pub enum EnvelopeView {
    Publish { topic: Seq<u8>, payload: Seq<u8> },
    Other,
    Invalid,
}

impl View for Envelope {
    type V = EnvelopeView;

    open spec fn view(&self) -> EnvelopeView {
        match self {
            Envelope::Publish { topic, payload } => EnvelopeView::Publish {
                topic: topic@,
                payload: payload@,
            },
            Envelope::Other => EnvelopeView::Other,
            Envelope::Invalid => EnvelopeView::Invalid,
        }
    }
}

/// What `mqttrs::decode_slice` makes of a frame: a publish with its topic
/// name and payload, another packet, or nothing usable (an error, or a
/// packet that is not complete).
pub uninterp spec fn mqtt_decode(frame: Seq<u8>) -> EnvelopeView;

/// The bytes `mqttrs::encode_slice` writes for a connect packet of protocol
/// MQTT 3.1.1 without will or credentials, into a buffer of `room` bytes;
/// `None` where it reports an error.
pub uninterp spec fn mqtt_connect(
    client_id: Seq<char>,
    keep_alive: u16,
    clean_session: bool,
    room: nat,
) -> Option<Seq<u8>>;

/// The bytes `mqttrs::encode_slice` writes for a publish packet at quality
/// of service "at most once", into a buffer of `room` bytes; `None` where it
/// reports an error.
pub uninterp spec fn mqtt_publish(
    topic: Seq<char>,
    payload: Seq<u8>,
    dup: bool,
    retain: bool,
    room: nat,
) -> Option<Seq<u8>>;

/// The bytes `mqttrs::encode_slice` writes for a subscribe packet that names
/// one topic at quality of service "at most once", into a buffer of `room`
/// bytes; `None` where it reports an error.
pub uninterp spec fn mqtt_subscribe(topic: Seq<char>, pid: u16, room: nat) -> Option<Seq<u8>>;

/// The bytes of a frame that may or may not have been built.
pub open spec fn frame_bytes(frame: Option<Vec<u8>>) -> Option<Seq<u8>> {
    match frame {
        Some(bytes) => Some(bytes@),
        None => None,
    }
}

/// The remaining-length field of a frame, which starts at its second byte:
/// the length it spells and the number of bytes it takes, one to four.
pub open spec fn length_field(frame: Seq<u8>) -> Option<(nat, nat)> {
    if frame.len() >= 2 && frame[1] < 128 {
        Some((frame[1] as nat, 1nat))
    } else if frame.len() >= 3 && frame[2] < 128 {
        Some(((frame[1] - 128 + 128 * frame[2]) as nat, 2nat))
    } else if frame.len() >= 4 && frame[3] < 128 {
        Some(((frame[1] - 128 + 128 * (frame[2] - 128) + 16384 * frame[3]) as nat, 3nat))
    } else if frame.len() >= 5 && frame[4] < 128 {
        Some(
            ((frame[1] - 128 + 128 * (frame[2] - 128) + 16384 * (frame[3] - 128) + 2097152
                * frame[4]) as nat, 4nat),
        )
    } else {
        None
    }
}

/// Whether a frame has a shape that the codec can be asked about.
///
/// The frame must hold a whole packet of a kind that a broker sends; the
/// kind is the upper half of the first byte. A publish (kind 3) must have
/// its topic name, and its packet identifier where the quality of service in
/// bits 1 and 2 of the first byte is not zero, end inside the packet. The
/// two pings and the disconnect (kinds 12 to 14) have no body. Every other
/// kind that a broker sends (the acknowledgements of a connect, a publish, a
/// subscribe and an unsubscribe: kinds 2, 4 to 7, 9 and 11) must have room
/// for the two bytes it starts with.
pub open spec fn frame_is_sound(frame: Seq<u8>) -> bool {
    match length_field(frame) {
        None => false,
        Some((remaining, width)) => {
            let body: int = (1 + width) as int;
            let kind = frame[0] / 16;
            &&& body + remaining <= frame.len()
            &&& if kind == 3 {
                let identifier: nat = if (frame[0] / 2) % 4 == 0 {
                    0
                } else {
                    2
                };
                &&& remaining >= 2
                &&& remaining >= 2 + 256 * frame[body] + frame[body + 1] + identifier
            } else if kind == 12 || kind == 13 || kind == 14 {
                true
            } else if kind == 2 || kind == 4 || kind == 5 || kind == 6 || kind == 7 || kind == 9
                || kind == 11 {
                remaining >= 2
            } else {
                false
            }
        },
    }
}

/// Calls `mqttrs::decode_slice` on the frame and keeps what this device
/// reads of the result.
///
/// Trusted: the result is what the codec makes of these bytes, and the codec
/// returns on every frame that [`frame_is_sound`] admits. On other frames it
/// may read past the end of the buffer.
#[verifier::external_body]
fn decode_packet(frame: &[u8]) -> (envelope: Envelope)
    requires
        frame_is_sound(frame@),
    ensures
        envelope@ == mqtt_decode(frame@),
{
    match mqttrs::decode_slice(frame) {
        Ok(Some(mqttrs::Packet::Publish(publish))) => Envelope::Publish {
            topic: publish.topic_name.as_bytes().to_vec(),
            payload: publish.payload.to_vec(),
        },
        Ok(Some(_)) => Envelope::Other,
        _ => Envelope::Invalid,
    }
}

/// Calls `mqttrs::encode_slice` on a connect packet, with `buffer` as the
/// space to write to.
///
/// Trusted: the result is the bytes the codec wrote, and `None` where the
/// codec reported an error, which it does where the buffer is too small.
#[verifier::external_body]
fn encode_connect(
    client_id: &str,
    keep_alive: u16,
    clean_session: bool,
    buffer: Vec<u8>,
) -> (frame: Option<Vec<u8>>)
    requires
        client_id.spec_bytes().len() <= buffer@.len(),
    ensures
        frame_bytes(frame) == mqtt_connect(client_id@, keep_alive, clean_session, buffer@.len()),
{
    let mut space = buffer;
    let connect = mqttrs::Connect {
        protocol: mqttrs::Protocol::MQTT311,
        keep_alive,
        client_id,
        clean_session,
        last_will: None,
        username: None,
        password: None,
    };
    let written = mqttrs::encode_slice(&mqttrs::Packet::Connect(connect), &mut space).ok()?;
    space.truncate(written);
    Some(space)
}

/// Calls `mqttrs::encode_slice` on a publish packet at quality of service
/// "at most once", with `buffer` as the space to write to.
///
/// Trusted: the result is the bytes the codec wrote, and `None` where the
/// codec reported an error, which it does where the buffer is too small.
#[verifier::external_body]
fn encode_publish(
    topic: &str,
    payload: &[u8],
    dup: bool,
    retain: bool,
    buffer: Vec<u8>,
) -> (frame: Option<Vec<u8>>)
    requires
        topic.spec_bytes().len() <= buffer@.len(),
        payload@.len() <= buffer@.len(),
    ensures
        frame_bytes(frame) == mqtt_publish(topic@, payload@, dup, retain, buffer@.len()),
{
    let mut space = buffer;
    let qospid = mqttrs::QosPid::AtMostOnce;
    let publish = mqttrs::Publish { dup, qospid, retain, topic_name: topic, payload };
    let written = mqttrs::encode_slice(&mqttrs::Packet::Publish(publish), &mut space).ok()?;
    space.truncate(written);
    Some(space)
}

/// Calls `mqttrs::encode_slice` on a subscribe packet for one topic at
/// quality of service "at most once", with `buffer` as the space to write
/// to.
///
/// Trusted: the result is the bytes the codec wrote, and `None` where the
/// codec reported an error, which it does where the buffer is too small or
/// the identifier is zero. The topic has to fit the codec's topic string,
/// which holds 256 bytes.
#[verifier::external_body]
fn encode_subscribe(topic: &str, pid: u16, buffer: Vec<u8>) -> (frame: Option<Vec<u8>>)
    requires
        topic.spec_bytes().len() <= 256,
    ensures
        frame_bytes(frame) == mqtt_subscribe(topic@, pid, buffer@.len()),
{
    let mut space = buffer;
    let pid = mqttrs::Pid::try_from(pid).ok()?;
    let mut topics = heapless::Vec::new();
    let qos = mqttrs::QoS::AtMostOnce;
    let _ = topics.push(mqttrs::SubscribeTopic { topic_path: topic.into(), qos });
    let subscribe = mqttrs::Subscribe { pid, topics };
    let written = mqttrs::encode_slice(&mqttrs::Packet::Subscribe(subscribe), &mut space).ok()?;
    space.truncate(written);
    Some(space)
}

/// A buffer of `length` zero bytes.
fn blank_buffer(length: usize) -> (buffer: Vec<u8>)
    ensures
        buffer@.len() == length,
{
    let mut buffer: Vec<u8> = Vec::new();
    while buffer.len() < length
        invariant
            buffer@.len() <= length,
        decreases length - buffer@.len(),
    {
        buffer.push(0);
    }
    buffer
}

/// The bytes of the frame that opens a session with the broker: a clean
/// session under `client_id`, without credentials or will, with the
/// keep-alive as good as switched off. There is none where the frame does
/// not fit [`FRAME_CAPACITY`].
pub open spec fn connect_frame_bytes(client_id: &str) -> Option<Seq<u8>> {
    if client_id.spec_bytes().len() <= FRAME_CAPACITY {
        mqtt_connect(client_id@, CONNECT_KEEP_ALIVE, true, FRAME_CAPACITY as nat)
    } else {
        None
    }
}

/// The bytes of the frame that publishes `payload` on `topic`: delivered at
/// most once, not retained, not a duplicate. There is none where the frame
/// does not fit [`FRAME_CAPACITY`].
pub open spec fn publish_frame_bytes(topic: &str, payload: Seq<u8>) -> Option<Seq<u8>> {
    if topic.spec_bytes().len() <= FRAME_CAPACITY && payload.len() <= FRAME_CAPACITY {
        mqtt_publish(topic@, payload, false, false, FRAME_CAPACITY as nat)
    } else {
        None
    }
}

/// The bytes of the frame that subscribes to `topic`, delivered at most
/// once, under [`SUBSCRIBE_PID`]. There is none where the topic is longer
/// than [`TOPIC_CAPACITY`] or the frame does not fit [`FRAME_CAPACITY`].
pub open spec fn subscribe_frame_bytes(topic: &str) -> Option<Seq<u8>> {
    if topic.spec_bytes().len() <= TOPIC_CAPACITY {
        mqtt_subscribe(topic@, SUBSCRIBE_PID, FRAME_CAPACITY as nat)
    } else {
        None
    }
}

/// Builds the frame that opens a session with the broker.
pub fn connect_frame(client_id: &str) -> (frame: Option<Vec<u8>>)
    ensures
        frame_bytes(frame) == connect_frame_bytes(client_id),
{
    if client_id.as_bytes().len() > FRAME_CAPACITY {
        return None;
    }
    encode_connect(client_id, CONNECT_KEEP_ALIVE, true, blank_buffer(FRAME_CAPACITY))
}

/// Builds the frame that publishes `payload` on `topic`.
pub fn publish_frame(topic: &str, payload: &[u8]) -> (frame: Option<Vec<u8>>)
    ensures
        frame_bytes(frame) == publish_frame_bytes(topic, payload@),
{
    if topic.as_bytes().len() > FRAME_CAPACITY || payload.len() > FRAME_CAPACITY {
        return None;
    }
    encode_publish(topic, payload, false, false, blank_buffer(FRAME_CAPACITY))
}

/// Builds the frame that subscribes to `topic`.
pub fn subscribe_frame(topic: &str) -> (frame: Option<Vec<u8>>)
    ensures
        frame_bytes(frame) == subscribe_frame_bytes(topic),
{
    if topic.as_bytes().len() > TOPIC_CAPACITY {
        return None;
    }
    encode_subscribe(topic, SUBSCRIBE_PID, blank_buffer(FRAME_CAPACITY))
}

/// Reads the remaining-length field of a frame.
fn take_length_field(frame: &[u8]) -> (field: Option<(usize, usize)>)
    ensures
        match field {
            Some((remaining, width)) => length_field(frame@) == Some(
                (remaining as nat, width as nat),
            ),
            None => length_field(frame@) is None,
        },
{
    let available = frame.len();
    if available >= 2 && frame[1] < 128 {
        Some((frame[1] as usize, 1))
    } else if available >= 3 && frame[2] < 128 {
        let low: usize = (frame[1] - 128) as usize;
        Some((low + 128 * (frame[2] as usize), 2))
    } else if available >= 4 && frame[3] < 128 {
        let low: usize = (frame[1] - 128) as usize;
        let middle: usize = (frame[2] - 128) as usize;
        Some((low + 128 * middle + 16384 * (frame[3] as usize), 3))
    } else if available >= 5 && frame[4] < 128 {
        let low: usize = (frame[1] - 128) as usize;
        let middle: usize = (frame[2] - 128) as usize;
        let high: usize = (frame[3] - 128) as usize;
        Some((low + 128 * middle + 16384 * high + 2097152 * (frame[4] as usize), 4))
    } else {
        None
    }
}

/// Whether a frame has a shape that the codec can be asked about.
pub fn check_frame(frame: &[u8]) -> (sound: bool)
    ensures
        sound == frame_is_sound(frame@),
{
    match take_length_field(frame) {
        None => false,
        Some((remaining, width)) => {
            let body: usize = 1 + width;
            if remaining > frame.len() || body > frame.len() - remaining {
                return false;
            }
            let kind: u8 = frame[0] / 16;
            if kind == 3 {
                if remaining < 2 {
                    return false;
                }
                let identifier: usize = if (frame[0] / 2) % 4 == 0 {
                    0
                } else {
                    2
                };
                let topic: usize = 256 * (frame[body] as usize) + (frame[body + 1] as usize);
                remaining >= 2 + topic + identifier
            } else if kind == 12 || kind == 13 || kind == 14 {
                true
            } else if kind == 2 || kind == 4 || kind == 5 || kind == 6 || kind == 7 || kind == 9
                || kind == 11 {
                remaining >= 2
            } else {
                false
            }
        },
    }
}

/// What a frame from the broker amounts to: what the codec makes of it
/// where its shape is sound, and `Invalid` where it is not.
pub open spec fn frame_envelope(frame: Seq<u8>) -> EnvelopeView {
    if frame_is_sound(frame) {
        mqtt_decode(frame)
    } else {
        EnvelopeView::Invalid
    }
}

/// Takes a frame from the broker apart.
///
/// A frame whose shape is not sound is answered with `Invalid` and never
/// reaches the codec. Frames of the kinds that only a client sends are among
/// them.
pub fn read_frame(frame: &[u8]) -> (envelope: Envelope)
    ensures
        envelope@ == frame_envelope(frame@),
{
    if check_frame(frame) {
        decode_packet(frame)
    } else {
        Envelope::Invalid
    }
}

/// How far bringing up the broker connection has come. Each stage but the
/// last two names the step that is under way.
#[derive(Clone, Copy, Debug, PartialEq, Eq, Structural)]
pub enum SetupStage {
    /// Nothing has been asked for yet.
    Start,
    /// The broker's address is being looked up.
    Resolving,
    /// The stream to the broker is being opened.
    Opening,
    /// The connect frame is being sent.
    Greeting,
    /// The subscribe frame is being sent.
    Subscribing,
    /// The connection is up and subscribed.
    Ready,
    /// A step has failed; the whole sequence has to start over.
    Failed,
}

/// What the caller has to do next to bring the broker connection up.
#[derive(Debug, PartialEq, Eq)]
pub enum SetupAction {
    /// Look the broker's address up.
    Resolve,
    /// Open the stream with these keep-alive and timeout settings.
    Open { keep_alive_secs: u64, timeout_secs: u64 },
    /// Write this frame to the stream and flush it.
    Send(Vec<u8>),
    /// Nothing: the connection is ready for use.
    Finished,
    /// Nothing: drop the stream and report that there is no connection.
    Abandon,
}

impl SetupStage {
    /// Whether a step is under way at this stage, so that the caller has an
    /// outcome to report.
    pub open spec fn under_way(self) -> bool {
        self is Resolving || self is Opening || self is Greeting || self is Subscribing
    }

    /// The stage that follows this one when its step has succeeded.
    pub open spec fn following(self) -> SetupStage {
        match self {
            SetupStage::Start => SetupStage::Resolving,
            SetupStage::Resolving => SetupStage::Opening,
            SetupStage::Opening => SetupStage::Greeting,
            SetupStage::Greeting => SetupStage::Subscribing,
            SetupStage::Subscribing => SetupStage::Ready,
            SetupStage::Ready => SetupStage::Ready,
            SetupStage::Failed => SetupStage::Failed,
        }
    }

    /// The stage after the caller has reported how the step under way went,
    /// given the connect and the subscribe frame as far as they can be
    /// built.
    ///
    /// A failure, at any stage, fails the sequence. So does a frame that is
    /// due next and cannot be built.
    pub open spec fn advanced(
        self,
        succeeded: bool,
        connect: Option<Seq<u8>>,
        subscribe: Option<Seq<u8>>,
    ) -> SetupStage {
        if self is Failed || (self.under_way() && !succeeded) {
            SetupStage::Failed
        } else if self is Opening && connect is None {
            SetupStage::Failed
        } else if self is Greeting && subscribe is None {
            SetupStage::Failed
        } else {
            self.following()
        }
    }

    /// What the caller has to do at this stage.
    pub open spec fn action(self, connect: Option<Seq<u8>>, subscribe: Option<Seq<u8>>)
        -> SetupActionView {
        match self {
            SetupStage::Start => SetupActionView::Abandon,
            SetupStage::Resolving => SetupActionView::Resolve,
            SetupStage::Opening => SetupActionView::Open {
                keep_alive_secs: STREAM_KEEP_ALIVE_SECS,
                timeout_secs: STREAM_TIMEOUT_SECS,
            },
            SetupStage::Greeting => match connect {
                Some(frame) => SetupActionView::Send(frame),
                None => SetupActionView::Abandon,
            },
            SetupStage::Subscribing => match subscribe {
                Some(frame) => SetupActionView::Send(frame),
                None => SetupActionView::Abandon,
            },
            SetupStage::Ready => SetupActionView::Finished,
            SetupStage::Failed => SetupActionView::Abandon,
        }
    }
}

/// A [`SetupAction`] as the contracts see it.
pub enum SetupActionView {
    Resolve,
    Open { keep_alive_secs: u64, timeout_secs: u64 },
    Send(Seq<u8>),
    Finished,
    Abandon,
}

impl View for SetupAction {
    type V = SetupActionView;

    open spec fn view(&self) -> SetupActionView {
        match self {
            SetupAction::Resolve => SetupActionView::Resolve,
            SetupAction::Open { keep_alive_secs, timeout_secs } => SetupActionView::Open {
                keep_alive_secs: *keep_alive_secs,
                timeout_secs: *timeout_secs,
            },
            SetupAction::Send(frame) => SetupActionView::Send(frame@),
            SetupAction::Finished => SetupActionView::Finished,
            SetupAction::Abandon => SetupActionView::Abandon,
        }
    }
}

/// Moves the bring-up of the broker connection one step on, with the two
/// frames it may have to send handed in as far as they could be built.
///
/// The steps come in a fixed order: look the broker up, open the stream,
/// send the connect frame, send the subscribe frame. The first failure ends
/// the sequence with `Abandon`.
pub fn decide_setup(
    stage: &mut SetupStage,
    succeeded: bool,
    connect: Option<Vec<u8>>,
    subscribe: Option<Vec<u8>>,
) -> (action: SetupAction)
    ensures
        *final(stage) == old(stage).advanced(
            succeeded,
            frame_bytes(connect),
            frame_bytes(subscribe),
        ),
        action@ == final(stage).action(frame_bytes(connect), frame_bytes(subscribe)),
        *final(stage) != SetupStage::Start,
{
    let failed = match *stage {
        SetupStage::Failed => true,
        SetupStage::Start | SetupStage::Ready => false,
        _ => !succeeded,
    };
    if failed {
        *stage = SetupStage::Failed;
        return SetupAction::Abandon;
    }
    match *stage {
        SetupStage::Start => {
            *stage = SetupStage::Resolving;
            SetupAction::Resolve
        },
        SetupStage::Resolving => {
            *stage = SetupStage::Opening;
            SetupAction::Open {
                keep_alive_secs: STREAM_KEEP_ALIVE_SECS,
                timeout_secs: STREAM_TIMEOUT_SECS,
            }
        },
        SetupStage::Opening => match connect {
            Some(frame) => {
                *stage = SetupStage::Greeting;
                SetupAction::Send(frame)
            },
            None => {
                *stage = SetupStage::Failed;
                SetupAction::Abandon
            },
        },
        SetupStage::Greeting => match subscribe {
            Some(frame) => {
                *stage = SetupStage::Subscribing;
                SetupAction::Send(frame)
            },
            None => {
                *stage = SetupStage::Failed;
                SetupAction::Abandon
            },
        },
        SetupStage::Subscribing | SetupStage::Ready => {
            *stage = SetupStage::Ready;
            SetupAction::Finished
        },
        SetupStage::Failed => SetupAction::Abandon,
    }
}

/// Moves the bring-up of the broker connection one step on.
///
/// The caller starts at [`SetupStage::Start`], performs each action it is
/// handed and reports with `succeeded` how it went (the report is ignored at
/// the start). The connect frame is the one for `client_id`, the subscribe
/// frame the one for `peer_topic`.
pub fn setup_step(
    stage: &mut SetupStage,
    succeeded: bool,
    client_id: &str,
    peer_topic: &str,
) -> (action: SetupAction)
    ensures
        *final(stage) == old(stage).advanced(
            succeeded,
            connect_frame_bytes(client_id),
            subscribe_frame_bytes(peer_topic),
        ),
        action@ == final(stage).action(
            connect_frame_bytes(client_id),
            subscribe_frame_bytes(peer_topic),
        ),
        *final(stage) != SetupStage::Start,
{
    decide_setup(stage, succeeded, connect_frame(client_id), subscribe_frame(peer_topic))
}

/// A bring-up in which no step fails and both frames can be built is ready
/// after five steps, having asked for the four actions in their order.
pub proof fn lemma_setup_succeeds_in_order(connect: Seq<u8>, subscribe: Seq<u8>)
    ensures
        ({
            let first = SetupStage::Start.advanced(true, Some(connect), Some(subscribe));
            let second = first.advanced(true, Some(connect), Some(subscribe));
            let third = second.advanced(true, Some(connect), Some(subscribe));
            let fourth = third.advanced(true, Some(connect), Some(subscribe));
            let fifth = fourth.advanced(true, Some(connect), Some(subscribe));
            &&& first.action(Some(connect), Some(subscribe)) == SetupActionView::Resolve
            &&& second.action(Some(connect), Some(subscribe)) == (SetupActionView::Open {
                keep_alive_secs: STREAM_KEEP_ALIVE_SECS,
                timeout_secs: STREAM_TIMEOUT_SECS,
            })
            &&& third.action(Some(connect), Some(subscribe)) == SetupActionView::Send(connect)
            &&& fourth.action(Some(connect), Some(subscribe)) == SetupActionView::Send(subscribe)
            &&& fifth.action(Some(connect), Some(subscribe)) == SetupActionView::Finished
            &&& fifth == SetupStage::Ready
        }),
{
}

/// A failure reported while a step is under way ends the bring-up, and
/// nothing that is reported later revives it.
pub proof fn lemma_setup_failure_is_final(
    stage: SetupStage,
    later: bool,
    connect: Option<Seq<u8>>,
    subscribe: Option<Seq<u8>>,
)
    requires
        stage.under_way(),
    ensures
        stage.advanced(false, connect, subscribe) == SetupStage::Failed,
        SetupStage::Failed.advanced(later, connect, subscribe) == SetupStage::Failed,
        SetupStage::Failed.action(connect, subscribe) == SetupActionView::Abandon,
{
}

} // verus!
