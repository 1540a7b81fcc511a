//! The streaming transcription protocol: decoding what the service sends,
//! the connect/configure handshake and the event stream as a state machine,
//! and the outbound audio envelopes. The transport itself lives with the caller.
use vstd::prelude::*;
use base64::Engine;
use crate::convert::{CANONICAL_RATE, resample, resample_spec, resampled_len};

verus! {

/// The string member `key` of the JSON object written in `text`, if `text`
/// parses as JSON and that member exists and is a string.
pub uninterp spec fn json_string_member(text: Seq<char>, key: Seq<char>) -> Option<Seq<char>>;

/// The decimal text of the number member `key` of the JSON object in `text`.
pub uninterp spec fn json_number_member(text: Seq<char>, key: Seq<char>) -> Option<Seq<char>>;

/// The JSON text of member `key`, whatever its kind, of the JSON object in `text`.
pub uninterp spec fn json_member_text(text: Seq<char>, key: Seq<char>) -> Option<Seq<char>>;

/// Standard-alphabet, padded base64 of a byte sequence.
pub uninterp spec fn base64_standard(bytes: Seq<u8>) -> Seq<char>;

/// The view of an optional string.
pub open spec fn opt_view(o: Option<String>) -> Option<Seq<char>> {
    match o {
        Some(s) => Some(s@),
        None => None,
    }
}

/// Relies on `serde_json::from_str` into a `serde_json::Value`, `Value::get`
/// and the `Value::String` variant: the string member of a JSON object.
#[verifier::external_body]
fn string_member(text: &str, key: &str) -> (r: Option<String>)
    ensures
        opt_view(r) == json_string_member(text@, key@),
{
    match serde_json::from_str::<serde_json::Value>(text) {
        Ok(v) => match v.get(key) {
            Some(serde_json::Value::String(s)) => Some(s.clone()),
            _ => None,
        },
        Err(_) => None,
    }
}

/// Relies on `serde_json::from_str` into a `serde_json::Value`, `Value::get`
/// and `Number`'s `Display`: the text of a number member of a JSON object.
#[verifier::external_body]
fn number_member(text: &str, key: &str) -> (r: Option<String>)
    ensures
        opt_view(r) == json_number_member(text@, key@),
{
    match serde_json::from_str::<serde_json::Value>(text) {
        Ok(v) => match v.get(key) {
            Some(serde_json::Value::Number(n)) => Some(n.to_string()),
            _ => None,
        },
        Err(_) => None,
    }
}

/// Relies on `serde_json::from_str` into a `serde_json::Value`, `Value::get`
/// and `Value`'s `Display`: the JSON text of a member of a JSON object.
#[verifier::external_body]
fn member_text(text: &str, key: &str) -> (r: Option<String>)
    ensures
        opt_view(r) == json_member_text(text@, key@),
{
    match serde_json::from_str::<serde_json::Value>(text) {
        Ok(v) => match v.get(key) {
            Some(m) => Some(m.to_string()),
            None => None,
        },
        Err(_) => None,
    }
}

/// Relies on `base64::engine::general_purpose::STANDARD.encode`, which panics
/// only when the encoded length overflows `usize`.
#[verifier::external_body]
fn encode_base64(bytes: &Vec<u8>) -> (r: String)
    requires
        4 * ((bytes@.len() + 2) / 3) <= usize::MAX,
    ensures
        r@ == base64_standard(bytes@),
{
    base64::engine::general_purpose::STANDARD.encode(bytes)
}

/// A message from the service, decoded.
#[derive(Clone, Debug)]
pub enum ServerMessage {
    /// The session is ready.
    SessionCreated,
    /// The audio format configuration was accepted.
    SessionUpdated,
    /// The spoken language was detected.
    Language { code: String },
    /// Provisional text.
    TextDelta { text: String },
    /// A finalized segment; offsets in seconds, as the decimal text the service sent.
    Segment { text: String, start: String, end: String },
    /// The transcription is complete.
    Done { text: String },
    /// The service reports an error; `details` is its JSON text.
    Error { details: String },
    /// Anything that is none of the above.
    Unrecognized,
}

/// The kind of a decoded message, without its payload.
#[derive(Clone, Copy, Debug, PartialEq, Eq, Structural)]
pub enum MessageKind {
    SessionCreated,
    SessionUpdated,
    Language,
    TextDelta,
    Segment,
    Done,
    Error,
    Unrecognized,
}

/// The kind of a decoded message.
pub open spec fn kind_of(m: ServerMessage) -> MessageKind {
    match m {
        ServerMessage::SessionCreated => MessageKind::SessionCreated,
        ServerMessage::SessionUpdated => MessageKind::SessionUpdated,
        ServerMessage::Language { .. } => MessageKind::Language,
        ServerMessage::TextDelta { .. } => MessageKind::TextDelta,
        ServerMessage::Segment { .. } => MessageKind::Segment,
        ServerMessage::Done { .. } => MessageKind::Done,
        ServerMessage::Error { .. } => MessageKind::Error,
        ServerMessage::Unrecognized => MessageKind::Unrecognized,
    }
}

/// The members of an inbound message that decoding looks at.
pub struct MessageFields {
    pub tag: Option<String>,
    pub audio_language: Option<String>,
    pub text: Option<String>,
    pub start: Option<String>,
    pub end: Option<String>,
    pub error: Option<String>,
}

/// The kind of message that members with these views make: the `type` tag
/// decides, and each kind needs its own members to be present.
pub open spec fn kind_of_members(
    tag: Option<Seq<char>>,
    audio_language: Option<Seq<char>>,
    text: Option<Seq<char>>,
    start: Option<Seq<char>>,
    end: Option<Seq<char>>,
    error: Option<Seq<char>>,
) -> MessageKind {
    if tag == Some("session.created"@) {
        MessageKind::SessionCreated
    } else if tag == Some("session.updated"@) {
        MessageKind::SessionUpdated
    } else if tag == Some("transcription.language"@) && audio_language is Some {
        MessageKind::Language
    } else if tag == Some("transcription.text.delta"@) && text is Some {
        MessageKind::TextDelta
    } else if tag == Some("transcription.segment"@) && text is Some && start is Some && end is Some {
        MessageKind::Segment
    } else if tag == Some("transcription.done"@) && text is Some {
        MessageKind::Done
    } else if tag == Some("error"@) && error is Some {
        MessageKind::Error
    } else {
        MessageKind::Unrecognized
    }
}

/// A message carries exactly the payload found in these members.
pub open spec fn payload_matches(
    m: ServerMessage,
    audio_language: Option<Seq<char>>,
    text: Option<Seq<char>>,
    start: Option<Seq<char>>,
    end: Option<Seq<char>>,
    error: Option<Seq<char>>,
) -> bool {
    match m {
        ServerMessage::Language { code } => audio_language == Some(code@),
        ServerMessage::TextDelta { text: t } => text == Some(t@),
        ServerMessage::Segment { text: t, start: s, end: e } => text == Some(t@) && start == Some(
            s@,
        ) && end == Some(e@),
        ServerMessage::Done { text: t } => text == Some(t@),
        ServerMessage::Error { details } => error == Some(details@),
        _ => true,
    }
}

/// The kind of message that these members make.
pub open spec fn fields_kind(f: MessageFields) -> MessageKind {
    kind_of_members(
        opt_view(f.tag),
        opt_view(f.audio_language),
        opt_view(f.text),
        opt_view(f.start),
        opt_view(f.end),
        opt_view(f.error),
    )
}

fn is_text(o: &Option<String>, lit: &str) -> (r: bool)
    ensures
        r == (opt_view(*o) == Some(lit@)),
{
    match o {
        Some(s) => {
            let t = String::from_str(lit);
            s.eq(&t)
        },
        None => false,
    }
}

/// Build the message that the members of an inbound message describe.
pub fn classify(f: MessageFields) -> (r: ServerMessage)
    ensures
        kind_of(r) == fields_kind(f),
        payload_matches(
            r,
            opt_view(f.audio_language),
            opt_view(f.text),
            opt_view(f.start),
            opt_view(f.end),
            opt_view(f.error),
        ),
{
    if is_text(&f.tag, "session.created") {
        ServerMessage::SessionCreated
    } else if is_text(&f.tag, "session.updated") {
        ServerMessage::SessionUpdated
    } else if is_text(&f.tag, "transcription.language") && f.audio_language.is_some() {
        ServerMessage::Language { code: f.audio_language.unwrap() }
    } else if is_text(&f.tag, "transcription.text.delta") && f.text.is_some() {
        ServerMessage::TextDelta { text: f.text.unwrap() }
    } else if is_text(&f.tag, "transcription.segment") && f.text.is_some() && f.start.is_some()
        && f.end.is_some() {
        ServerMessage::Segment {
            text: f.text.unwrap(),
            start: f.start.unwrap(),
            end: f.end.unwrap(),
        }
    } else if is_text(&f.tag, "transcription.done") && f.text.is_some() {
        ServerMessage::Done { text: f.text.unwrap() }
    } else if is_text(&f.tag, "error") && f.error.is_some() {
        ServerMessage::Error { details: f.error.unwrap() }
    } else {
        ServerMessage::Unrecognized
    }
}

/// The kind of the message written in `text`.
pub open spec fn message_kind(text: Seq<char>) -> MessageKind {
    kind_of_members(
        json_string_member(text, "type"@),
        json_string_member(text, "audio_language"@),
        json_string_member(text, "text"@),
        json_number_member(text, "start"@),
        json_number_member(text, "end"@),
        json_member_text(text, "error"@),
    )
}

/// Decode one inbound text message. Text that is not JSON, or whose `type`
/// or members fit no known message, decodes as `Unrecognized`.
pub fn decode_message(text: &str) -> (r: ServerMessage)
    ensures
        kind_of(r) == message_kind(text@),
        payload_matches(
            r,
            json_string_member(text@, "audio_language"@),
            json_string_member(text@, "text"@),
            json_number_member(text@, "start"@),
            json_number_member(text@, "end"@),
            json_member_text(text@, "error"@),
        ),
{
    let f = MessageFields {
        tag: string_member(text, "type"),
        audio_language: string_member(text, "audio_language"),
        text: string_member(text, "text"),
        start: number_member(text, "start"),
        end: number_member(text, "end"),
        error: member_text(text, "error"),
    };
    classify(f)
}

/// An event of the transcription stream.
#[derive(Clone, Debug)]
pub enum TranscriptionEvent {
    Language { audio_language: String },
    TextDelta { text: String },
    /// Offsets in seconds, as the decimal text the service sent.
    Segment { text: String, start: String, end: String },
    Done { text: String },
    /// The stream failed; no further event follows.
    Error { message: String },
}

/// `ev` is the event that message `m` turns into.
pub open spec fn event_for(m: ServerMessage, ev: TranscriptionEvent) -> bool {
    match m {
        ServerMessage::Language { code } => ev == TranscriptionEvent::Language {
            audio_language: code,
        },
        ServerMessage::TextDelta { text } => ev == TranscriptionEvent::TextDelta { text },
        ServerMessage::Segment { text, start, end } => ev == TranscriptionEvent::Segment {
            text,
            start,
            end,
        },
        ServerMessage::Done { text } => ev == TranscriptionEvent::Done { text },
        ServerMessage::Error { details } => ev is Error && ev->message@ == "Erreur serveur: "@
            + details@,
        _ => false,
    }
}

/// Whether a message of this kind carries a transcription result.
pub open spec fn is_transcription(k: MessageKind) -> bool {
    k == MessageKind::Language || k == MessageKind::TextDelta || k == MessageKind::Segment || k
        == MessageKind::Done
}

/// The transcription event a message carries, if it carries one.
pub fn event_from_message(m: ServerMessage) -> (r: Option<TranscriptionEvent>)
    ensures
        r is Some <==> is_transcription(kind_of(m)),
        r matches Some(ev) ==> event_for(m, ev),
{
    match m {
        ServerMessage::Language { code } => Some(TranscriptionEvent::Language { audio_language: code }),
        ServerMessage::TextDelta { text } => Some(TranscriptionEvent::TextDelta { text }),
        ServerMessage::Segment { text, start, end } => Some(
            TranscriptionEvent::Segment { text, start, end },
        ),
        ServerMessage::Done { text } => Some(TranscriptionEvent::Done { text }),
        _ => None,
    }
}

/// Phases of one streaming session; `Closed` is terminal.
#[derive(Clone, Copy, Debug, PartialEq, Eq, Structural)]
pub enum SessionPhase {
    Connecting,
    AwaitingSessionCreated,
    ConfiguringFormat,
    AwaitingConfigAck,
    Streaming,
    /// End of audio was signalled; results are still arriving.
    Draining,
    Closed,
}

/// Why a session could not be set up.
#[derive(Debug)]
pub enum ConnectError {
    HandshakeFailed(String),
}

/// What the caller does after a message that arrived during the handshake.
#[derive(Debug)]
pub enum HandshakeStep {
    /// Keep waiting for the acknowledgment.
    Wait,
    /// The session is ready: send the format configuration.
    SendConfiguration,
    /// The format was accepted: audio may flow.
    Ready,
    /// The handshake failed; the session is closed.
    Failed(ConnectError),
}

/// How a transport failure ends a session.
#[derive(Debug)]
pub enum StreamEnd {
    /// It ended the handshake: the connection attempt fails.
    Handshake(ConnectError),
    /// It ended a live stream with this last event.
    Event(TranscriptionEvent),
    /// Nothing more is reported.
    Quiet,
}

/// Whether results may still arrive.
pub open spec fn is_live(p: SessionPhase) -> bool {
    p == SessionPhase::Streaming || p == SessionPhase::Draining
}

/// Whether the session is not yet ready for audio.
pub open spec fn in_handshake(p: SessionPhase) -> bool {
    p == SessionPhase::Connecting || p == SessionPhase::AwaitingSessionCreated || p
        == SessionPhase::ConfiguringFormat || p == SessionPhase::AwaitingConfigAck
}

/// Whether a live stream emits an event for a message of this kind.
pub open spec fn yields_event(p: SessionPhase, k: MessageKind) -> bool {
    is_live(p) && (is_transcription(k) || k == MessageKind::Error)
}

/// The phase after a message of kind `k` arrives on the event stream.
pub open spec fn next_phase(p: SessionPhase, k: MessageKind) -> SessionPhase {
    if is_live(p) && (k == MessageKind::Done || k == MessageKind::Error) {
        SessionPhase::Closed
    } else {
        p
    }
}

/// Number of events a stream in phase `p` emits for this sequence of messages.
pub open spec fn events_emitted(p: SessionPhase, kinds: Seq<MessageKind>) -> nat
    decreases kinds.len(),
{
    if kinds.len() == 0 {
        0
    } else {
        (if yields_event(p, kinds[0]) {
            1nat
        } else {
            0nat
        }) + events_emitted(next_phase(p, kinds[0]), kinds.drop_first())
    }
}

/// The phase after a message of kind `k` arrives during the handshake.
pub open spec fn handshake_phase(p: SessionPhase, k: MessageKind) -> SessionPhase {
    if p == SessionPhase::AwaitingSessionCreated && k == MessageKind::SessionCreated {
        SessionPhase::ConfiguringFormat
    } else if p == SessionPhase::AwaitingConfigAck && k == MessageKind::SessionUpdated {
        SessionPhase::Streaming
    } else if (p == SessionPhase::AwaitingSessionCreated || p == SessionPhase::AwaitingConfigAck)
        && k == MessageKind::Error {
        SessionPhase::Closed
    } else {
        p
    }
}

fn concat(prefix: &str, tail: &str) -> (r: String)
    ensures
        r@ == prefix@ + tail@,
{
    let mut s = String::from_str(prefix);
    s.append(tail);
    s
}

/// One streaming transcription session, seen through its protocol phase.
pub struct RealtimeSession {
    pub phase: SessionPhase,
}

impl RealtimeSession {
    /// A session whose transport is not open yet.
    pub fn new() -> (r: Self)
        ensures
            r.phase == SessionPhase::Connecting,
    {
        RealtimeSession { phase: SessionPhase::Connecting }
    }

    /// The transport is open: wait for the session to be ready.
    pub fn transport_opened(&mut self)
        ensures
            final(self).phase == (if old(self).phase == SessionPhase::Connecting {
                SessionPhase::AwaitingSessionCreated
            } else {
                old(self).phase
            }),
    {
        if self.phase == SessionPhase::Connecting {
            self.phase = SessionPhase::AwaitingSessionCreated;
        }
    }

    /// The format configuration was sent: wait for its acknowledgment.
    pub fn configuration_sent(&mut self)
        ensures
            final(self).phase == (if old(self).phase == SessionPhase::ConfiguringFormat {
                SessionPhase::AwaitingConfigAck
            } else {
                old(self).phase
            }),
    {
        if self.phase == SessionPhase::ConfiguringFormat {
            self.phase = SessionPhase::AwaitingConfigAck;
        }
    }

    /// Handle a message that arrived while waiting for an acknowledgment. Any
    /// message but the awaited one or an error is ignored.
    pub fn handshake_message(&mut self, m: &ServerMessage) -> (r: HandshakeStep)
        ensures
            final(self).phase == handshake_phase(old(self).phase, kind_of(*m)),
            match r {
                HandshakeStep::SendConfiguration => old(self).phase
                    == SessionPhase::AwaitingSessionCreated && kind_of(*m)
                    == MessageKind::SessionCreated,
                HandshakeStep::Ready => old(self).phase == SessionPhase::AwaitingConfigAck && kind_of(
                    *m,
                ) == MessageKind::SessionUpdated,
                HandshakeStep::Failed(ConnectError::HandshakeFailed(msg)) => kind_of(*m)
                    == MessageKind::Error && (old(self).phase == SessionPhase::AwaitingSessionCreated
                    ==> msg@ == "Realtime session error: "@ + m->details@) && (old(self).phase
                    == SessionPhase::AwaitingConfigAck ==> msg@ == "Realtime session.update error: "@
                    + m->details@) && final(self).phase == SessionPhase::Closed,
                HandshakeStep::Wait => final(self).phase == old(self).phase,
            },
    {
        match self.phase {
            SessionPhase::AwaitingSessionCreated => match m {
                ServerMessage::SessionCreated => {
                    self.phase = SessionPhase::ConfiguringFormat;
                    HandshakeStep::SendConfiguration
                },
                ServerMessage::Error { details } => {
                    self.phase = SessionPhase::Closed;
                    HandshakeStep::Failed(
                        ConnectError::HandshakeFailed(
                            concat("Realtime session error: ", details.as_str()),
                        ),
                    )
                },
                _ => HandshakeStep::Wait,
            },
            SessionPhase::AwaitingConfigAck => match m {
                ServerMessage::SessionUpdated => {
                    self.phase = SessionPhase::Streaming;
                    HandshakeStep::Ready
                },
                ServerMessage::Error { details } => {
                    self.phase = SessionPhase::Closed;
                    HandshakeStep::Failed(
                        ConnectError::HandshakeFailed(
                            concat("Realtime session.update error: ", details.as_str()),
                        ),
                    )
                },
                _ => HandshakeStep::Wait,
            },
            _ => HandshakeStep::Wait,
        }
    }

    /// Handle a message of the live event stream: transcription results become
    /// events; a server error becomes the last event; `Done` is the last
    /// event. Once closed, nothing more is emitted.
    pub fn on_message(&mut self, m: ServerMessage) -> (r: Option<TranscriptionEvent>)
        ensures
            final(self).phase == next_phase(old(self).phase, kind_of(m)),
            r is Some <==> yields_event(old(self).phase, kind_of(m)),
            r matches Some(ev) ==> event_for(m, ev),
    {
        match self.phase {
            SessionPhase::Streaming | SessionPhase::Draining => {},
            _ => {
                return None;
            },
        }
        match m {
            ServerMessage::Error { details } => {
                self.phase = SessionPhase::Closed;
                Some(
                    TranscriptionEvent::Error {
                        message: concat("Erreur serveur: ", details.as_str()),
                    },
                )
            },
            ServerMessage::Done { .. } => {
                self.phase = SessionPhase::Closed;
                event_from_message(m)
            },
            _ => event_from_message(m),
        }
    }

    /// End of audio was signalled: the stream drains.
    pub fn audio_ended(&mut self)
        ensures
            final(self).phase == (if old(self).phase == SessionPhase::Streaming {
                SessionPhase::Draining
            } else {
                old(self).phase
            }),
    {
        if self.phase == SessionPhase::Streaming {
            self.phase = SessionPhase::Draining;
        }
    }

    /// The transport closed. During the handshake the connection attempt fails.
    pub fn transport_closed(&mut self) -> (r: StreamEnd)
        ensures
            final(self).phase == SessionPhase::Closed,
            in_handshake(old(self).phase) <==> r is Handshake,
            !in_handshake(old(self).phase) ==> r is Quiet,
            r matches StreamEnd::Handshake(ConnectError::HandshakeFailed(msg)) ==> msg@ == (if old(
                self,
            ).phase == SessionPhase::AwaitingSessionCreated || old(self).phase
                == SessionPhase::Connecting {
                "WebSocket closed before session.created"@
            } else {
                "WebSocket closed before session.updated"@
            }),
    {
        let was = self.phase;
        self.phase = SessionPhase::Closed;
        match was {
            SessionPhase::Connecting | SessionPhase::AwaitingSessionCreated => StreamEnd::Handshake(
                ConnectError::HandshakeFailed(String::from_str("WebSocket closed before session.created")),
            ),
            SessionPhase::ConfiguringFormat | SessionPhase::AwaitingConfigAck => StreamEnd::Handshake(
                ConnectError::HandshakeFailed(String::from_str("WebSocket closed before session.updated")),
            ),
            _ => StreamEnd::Quiet,
        }
    }

    /// Reading from the transport failed. During the handshake the connection
    /// attempt fails; a live stream ends with an error event.
    pub fn transport_error(&mut self, detail: &str) -> (r: StreamEnd)
        ensures
            final(self).phase == SessionPhase::Closed,
            in_handshake(old(self).phase) <==> r is Handshake,
            is_live(old(self).phase) <==> r is Event,
            r matches StreamEnd::Handshake(ConnectError::HandshakeFailed(msg)) ==> msg@
                == "WebSocket read error: "@ + detail@,
            r matches StreamEnd::Event(ev) ==> ev is Error && ev->message@ == "WebSocket read error: "@
                + detail@,
    {
        let was = self.phase;
        self.phase = SessionPhase::Closed;
        match was {
            SessionPhase::Streaming | SessionPhase::Draining => StreamEnd::Event(
                TranscriptionEvent::Error { message: concat("WebSocket read error: ", detail) },
            ),
            SessionPhase::Closed => StreamEnd::Quiet,
            _ => StreamEnd::Handshake(
                ConnectError::HandshakeFailed(concat("WebSocket read error: ", detail)),
            ),
        }
    }
}

proof fn lemma_closed_stream_is_silent(kinds: Seq<MessageKind>)
    ensures
        events_emitted(SessionPhase::Closed, kinds) == 0,
    decreases kinds.len(),
{
    if kinds.len() > 0 {
        lemma_closed_stream_is_silent(kinds.drop_first());
    }
}

/// A live stream that receives a server error emits exactly one event for it,
/// and none for any message that follows.
pub proof fn error_ends_event_stream(p: SessionPhase, kinds: Seq<MessageKind>)
    requires
        is_live(p),
        kinds.len() > 0,
        kinds[0] == MessageKind::Error,
    ensures
        next_phase(p, kinds[0]) == SessionPhase::Closed,
        events_emitted(p, kinds) == 1,
{
    lemma_closed_stream_is_silent(kinds.drop_first());
}

/// A sample as an unsigned 16-bit pattern (two's complement).
pub open spec fn bits_of(s: i16) -> int {
    if s < 0 {
        s as int + 65536
    } else {
        s as int
    }
}

/// Little-endian bytes of 16-bit samples: low byte first.
pub open spec fn le_bytes_spec(s: Seq<i16>) -> Seq<u8> {
    Seq::new(
        2 * s.len(),
        |j: int|
            if j % 2 == 0 {
                (bits_of(s[j / 2]) % 256) as u8
            } else {
                (bits_of(s[j / 2]) / 256) as u8
            },
    )
}

/// Encode samples as little-endian 16-bit PCM bytes.
pub fn pcm_le_bytes(samples: &[i16]) -> (r: Vec<u8>)
    requires
        2 * samples@.len() <= usize::MAX,
    ensures
        r@ == le_bytes_spec(samples@),
{
    let mut out: Vec<u8> = Vec::new();
    let mut i: usize = 0;
    while i < samples.len()
        invariant
            i <= samples@.len(),
            out@.len() == 2 * i,
            forall|j: int| 0 <= j < 2 * i ==> #[trigger] out@[j] == le_bytes_spec(samples@)[j],
        decreases samples@.len() - i,
    {
        let v: i16 = samples[i];
        let u: u32 = if v < 0 {
            (v as i32 + 65536) as u32
        } else {
            v as u32
        };
        out.push((u % 256) as u8);
        out.push((u / 256) as u8);
        proof {
            assert((2 * i) / 2 == i);
            assert((2 * i + 1) / 2 == i);
        }
        i = i + 1;
    }
    assert(out@ =~= le_bytes_spec(samples@));
    out
}

/// Number of samples that resampling `n` samples from `from` Hz to `to` Hz yields.
pub open spec fn resampled_count(n: nat, from: u32, to: u32) -> int {
    if from == to || n == 0 {
        n as int
    } else if from == 0 || to == 0 {
        0
    } else {
        resampled_len(n, from, to)
    }
}

/// Whether a chunk of `n` samples at `rate` Hz can be resampled, encoded and
/// framed within the limits of memory.
pub open spec fn frame_fits(n: nat, rate: u32) -> bool {
    let m = resampled_count(n, rate, CANONICAL_RATE);
    &&& crate::convert::resample_fits(n, rate, CANONICAL_RATE)
    &&& 2 * m <= usize::MAX
    &&& 4 * ((2 * m + 2) / 3) <= usize::MAX
}

/// Whether a chunk of `n` samples at `rate` Hz can be framed for sending.
pub fn chunk_fits(n: usize, rate: u32) -> (r: bool)
    ensures
        r == frame_fits(n as nat, rate),
{
    let to: u128 = CANONICAL_RATE as u128;
    let m: u128 = if rate == CANONICAL_RATE || n == 0 {
        n as u128
    } else if rate == 0 {
        0
    } else {
        proof {
            assert(n * 16000 + rate - 1 <= 0xffff_ffff_ffff_ffff * 16000 + 0xffff_ffffu64)
                by (nonlinear_arith)
                requires n <= 0xffff_ffff_ffff_ffffu64, rate <= 0xffff_ffffu32;
        }
        (n as u128 * to + rate as u128 - 1) / rate as u128
    };
    proof {
        if rate != CANONICAL_RATE && n != 0 && rate != 0 {
            assert(m <= n * 16000 + rate) by (nonlinear_arith)
                requires m == (n * 16000 + rate - 1) / (rate as int), rate >= 1, n >= 0;
        }
    }
    let usize_max: u128 = usize::MAX as u128;
    let fits_resample: bool = rate == 0 || m <= usize_max;
    fits_resample && 2 * m <= usize_max && 4 * ((2 * m + 2) / 3) <= usize_max
}

/// The envelope that appends audio: the chunk resampled from `source_rate`
/// to the canonical rate, as base64 of its little-endian PCM bytes.
pub open spec fn append_audio_spec(samples: Seq<i16>, source_rate: u32) -> Seq<char> {
    "{\"type\":\"input_audio.append\",\"audio\":\""@ + base64_standard(
        le_bytes_spec(resample_spec(samples, source_rate, CANONICAL_RATE)),
    ) + "\"}"@
}

/// Frame a chunk of audio for sending.
pub fn append_audio_message(samples: &[i16], source_rate: u32) -> (r: String)
    requires
        frame_fits(samples@.len(), source_rate),
    ensures
        r@ == append_audio_spec(samples@, source_rate),
{
    let resampled = resample(samples, source_rate, CANONICAL_RATE);
    assert(resampled@.len() == resampled_count(samples@.len(), source_rate, CANONICAL_RATE));
    let bytes = pcm_le_bytes(&resampled);
    let encoded = encode_base64(&bytes);
    let mut msg = String::from_str("{\"type\":\"input_audio.append\",\"audio\":\"");
    msg.append(encoded.as_str());
    msg.append("\"}");
    msg
}

/// The envelope that configures the audio format: 16-bit little-endian PCM
/// at the canonical rate.
pub fn configure_format_message() -> (r: String)
    ensures
        r@ == "{\"type\":\"session.update\",\"session\":{\"audio_format\":{\"encoding\":\"pcm_s16le\",\"sample_rate\":16000}}}"@,
{
    String::from_str(
        "{\"type\":\"session.update\",\"session\":{\"audio_format\":{\"encoding\":\"pcm_s16le\",\"sample_rate\":16000}}}",
    )
}

/// The envelope that signals the end of audio.
pub fn end_audio_message() -> (r: String)
    ensures
        r@ == "{\"type\":\"input_audio.end\"}"@,
{
    String::from_str("{\"type\":\"input_audio.end\"}")
}

/// What the audio loop hands to the sending side.
pub enum AudioMsg {
    Chunk(Vec<i16>),
    End,
}

/// The sending side of a session: frames queued audio in order, and nothing
/// after the end of audio.
pub struct AudioOutbox {
    pub source_rate: u32,
    pub ended: bool,
}

impl AudioOutbox {
    /// The sending side for audio captured at `source_rate` Hz.
    pub fn new(source_rate: u32) -> (r: Self)
        ensures
            r.source_rate == source_rate,
            !r.ended,
    {
        AudioOutbox { source_rate, ended: false }
    }

    /// The text to transmit for the next queued message, if any.
    pub fn next_frame(&mut self, msg: AudioMsg) -> (r: Option<String>)
        requires
            msg matches AudioMsg::Chunk(c) ==> frame_fits(c@.len(), old(self).source_rate),
        ensures
            final(self).source_rate == old(self).source_rate,
            final(self).ended == (old(self).ended || msg is End),
            old(self).ended ==> r is None,
            !old(self).ended ==> match msg {
                AudioMsg::Chunk(c) => r is Some && r->0@ == append_audio_spec(c@, old(self).source_rate),
                AudioMsg::End => r is Some && r->0@ == "{\"type\":\"input_audio.end\"}"@,
            },
    {
        if self.ended {
            return None;
        }
        match msg {
            AudioMsg::Chunk(samples) => Some(append_audio_message(&samples, self.source_rate)),
            AudioMsg::End => {
                self.ended = true;
                Some(end_audio_message())
            },
        }
    }
}

} // verus!
