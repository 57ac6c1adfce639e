//! Multipart ingestion engine: an explicit state machine that turns the
//! events of a streaming multipart body into a validated upload intent,
//! without ever buffering more than `MAX_FILE_SIZE` payload bytes or
//! `MAX_FIELD_SIZE` bytes of a named field.
//!
//! The surrounding server reads parts and data chunks from the transport and
//! feeds them in as events; every decision — which parts matter, when a size
//! bound is crossed, when the stream is complete or malformed — is taken
//! here.

use vstd::prelude::*;
use vstd::string::StringExecFns;
use vstd::utf8::decode_utf8;
use vstd::utf8::valid_utf8;

use crate::MAX_FILE_SIZE;
use crate::address::Address;
use crate::address::AddressModel;
use crate::address::normalize_address_bytes;
use crate::address::normalize_key_bytes;
use crate::address::spec_parse_address;
use crate::address::valid_key_bytes;
use crate::address::wf_address;
use crate::errors::GatewayError;
use crate::text::utf8_to_string;

verus! {

/// Maximum size in bytes of a named field's value (`address` or `key`):
/// field values are short, unlike file payloads.
pub const MAX_FIELD_SIZE: u64 = 8 * 1024;

/// One event of a streaming multipart body, as the transport hands it over:
/// a part header with the part's name (and, for file parts, the declared
/// filename), a chunk of the current part's body, the end of the current
/// part, the end of the whole stream, or a transport failure.
pub enum IngestEvent {
    PartHeader { name: String, filename: Option<String> },
    Chunk { data: Vec<u8> },
    PartEnd,
    StreamEnd,
    TransportFailure,
}

/// Which named field is being read.
#[derive(PartialEq, Eq, Structural, Clone, Copy, Debug)]
pub enum FieldKind {
    AddressField,
    KeyField,
}

/// Where in the stream the machine stands: between parts, inside a named
/// field, inside the file part, or inside a part it will discard.
pub enum Phase {
    AwaitingPart,
    ReadingNamedField { kind: FieldKind, buf: Vec<u8> },
    ReadingFilePart,
    ReadingUnknownPart,
}

/// The ingestion state: the current phase plus everything accumulated so
/// far.
pub struct IngestState {
    pub phase: Phase,
    pub address: Option<Address>,
    pub key: Option<String>,
    pub filename: Option<String>,
    pub payload: Vec<u8>,
}

/// A validated upload request: a syntactically valid address, a non-empty
/// key, an optional declared filename, and a payload of at most
/// `MAX_FILE_SIZE` bytes (possibly empty: setting an empty value is
/// accepted).
pub struct UploadIntent {
    pub address: Address,
    pub key: String,
    pub filename: Option<String>,
    pub payload: Vec<u8>,
}

/// What one step of the machine yields: more reading to do, the terminal
/// success, or the terminal failure (always a client fault).
pub enum IngestStep {
    Reading(IngestState),
    Complete(UploadIntent),
    Failed(GatewayError),
}

/// Model of `Phase`.
#[verifier::ext_equal]
pub enum PhaseModel {
    Awaiting,
    Field { kind: FieldKind, buf: Seq<u8> },
    File,
    Unknown,
}

/// Model of `IngestState`.
#[verifier::ext_equal]
pub struct StateModel {
    pub phase: PhaseModel,
    pub address: Option<AddressModel>,
    pub key: Option<Seq<char>>,
    pub filename: Option<Seq<char>>,
    pub payload: Seq<u8>,
}

/// Model of `UploadIntent`.
#[verifier::ext_equal]
pub struct IntentModel {
    pub address: AddressModel,
    pub key: Seq<char>,
    pub filename: Option<Seq<char>>,
    pub payload: Seq<u8>,
}

/// Model of `IngestEvent`.
#[verifier::ext_equal]
pub enum EventModel {
    Header { name: Seq<char>, filename: Option<Seq<char>> },
    Chunk { data: Seq<u8> },
    PartEnd,
    StreamEnd,
    TransportFailure,
}

/// Model of `IngestStep`; every failure is a client fault carrying the given
/// message.
#[verifier::ext_equal]
pub enum StepModel {
    Reading(StateModel),
    Complete(IntentModel),
    Failed(Seq<char>),
}

/// The view of a maybe-absent string.
pub open spec fn opt_string_view(o: Option<String>) -> Option<Seq<char>> {
    match o {
        Some(s) => Some(s@),
        None => None,
    }
}

/// The view of a maybe-absent address.
pub open spec fn opt_address_view(o: Option<Address>) -> Option<AddressModel> {
    match o {
        Some(a) => Some(a@),
        None => None,
    }
}

impl View for Phase {
    type V = PhaseModel;

    open spec fn view(&self) -> PhaseModel {
        match self {
            Phase::AwaitingPart => PhaseModel::Awaiting,
            Phase::ReadingNamedField { kind, buf } => PhaseModel::Field {
                kind: *kind,
                buf: buf@,
            },
            Phase::ReadingFilePart => PhaseModel::File,
            Phase::ReadingUnknownPart => PhaseModel::Unknown,
        }
    }
}

impl View for IngestState {
    type V = StateModel;

    open spec fn view(&self) -> StateModel {
        StateModel {
            phase: self.phase@,
            address: opt_address_view(self.address),
            key: opt_string_view(self.key),
            filename: opt_string_view(self.filename),
            payload: self.payload@,
        }
    }
}

impl View for UploadIntent {
    type V = IntentModel;

    open spec fn view(&self) -> IntentModel {
        IntentModel {
            address: self.address@,
            key: self.key@,
            filename: opt_string_view(self.filename),
            payload: self.payload@,
        }
    }
}

impl View for IngestEvent {
    type V = EventModel;

    open spec fn view(&self) -> EventModel {
        match self {
            IngestEvent::PartHeader { name, filename } => EventModel::Header {
                name: name@,
                filename: opt_string_view(*filename),
            },
            IngestEvent::Chunk { data } => EventModel::Chunk { data: data@ },
            IngestEvent::PartEnd => EventModel::PartEnd,
            IngestEvent::StreamEnd => EventModel::StreamEnd,
            IngestEvent::TransportFailure => EventModel::TransportFailure,
        }
    }
}

impl View for IngestStep {
    type V = StepModel;

    open spec fn view(&self) -> StepModel {
        match self {
            IngestStep::Reading(s) => StepModel::Reading(s@),
            IngestStep::Complete(u) => StepModel::Complete(u@),
            IngestStep::Failed(e) => StepModel::Failed(e.spec_message()),
        }
    }
}

/// The machine's invariant: the payload and any field buffer stay within
/// their bounds, and everything already accepted is valid.
pub open spec fn wf_state(m: StateModel) -> bool {
    &&& m.payload.len() <= MAX_FILE_SIZE
    &&& (m.phase matches PhaseModel::Field { buf, .. } ==> buf.len() <= MAX_FIELD_SIZE)
    &&& (m.address matches Some(a) ==> wf_address(a))
    &&& (m.key matches Some(k) ==> valid_key_bytes(vstd::utf8::encode_utf8(k)))
}

/// Validity of a finished intent: the invariant of `UploadIntent`.
pub open spec fn wf_intent(u: IntentModel) -> bool {
    &&& wf_address(u.address)
    &&& valid_key_bytes(vstd::utf8::encode_utf8(u.key))
    &&& u.payload.len() <= MAX_FILE_SIZE
}

/// The state ingestion starts from: between parts, nothing accumulated.
pub open spec fn spec_init() -> StateModel {
    StateModel {
        phase: PhaseModel::Awaiting,
        address: None,
        key: None,
        filename: None,
        payload: Seq::empty(),
    }
}

/// The machine's transition function. Every failure is terminal and a client
/// fault; `Complete` is the only terminal success and requires both the
/// `address` and `key` fields to have been seen. Unknown parts are read
/// fully and discarded; they never leak into the intent.
pub open spec fn spec_step(m: StateModel, ev: EventModel) -> StepModel {
    match m.phase {
        PhaseModel::Awaiting => match ev {
            EventModel::Header { name, filename } => {
                if name == "address"@ {
                    StepModel::Reading(
                        StateModel {
                            phase: PhaseModel::Field {
                                kind: FieldKind::AddressField,
                                buf: Seq::empty(),
                            },
                            ..m
                        },
                    )
                } else if name == "key"@ {
                    StepModel::Reading(
                        StateModel {
                            phase: PhaseModel::Field { kind: FieldKind::KeyField, buf: Seq::empty() },
                            ..m
                        },
                    )
                } else if name == "file"@ {
                    StepModel::Reading(
                        StateModel { phase: PhaseModel::File, filename: filename, ..m },
                    )
                } else {
                    StepModel::Reading(StateModel { phase: PhaseModel::Unknown, ..m })
                }
            },
            EventModel::Chunk { .. } => StepModel::Failed("malformed multipart stream"@),
            EventModel::PartEnd => StepModel::Failed("malformed multipart stream"@),
            EventModel::StreamEnd => match (m.address, m.key) {
                (Some(a), Some(k)) => StepModel::Complete(
                    IntentModel { address: a, key: k, filename: m.filename, payload: m.payload },
                ),
                _ => StepModel::Failed("missing field"@),
            },
            EventModel::TransportFailure => StepModel::Failed("transport error"@),
        },
        PhaseModel::Field { kind, buf } => match ev {
            EventModel::Chunk { data } => {
                if buf.len() + data.len() > MAX_FIELD_SIZE {
                    StepModel::Failed("field too large"@)
                } else {
                    StepModel::Reading(
                        StateModel { phase: PhaseModel::Field { kind, buf: buf + data }, ..m },
                    )
                }
            },
            EventModel::PartEnd => match kind {
                FieldKind::AddressField => match spec_parse_address(buf) {
                    Some(a) => StepModel::Reading(
                        StateModel { phase: PhaseModel::Awaiting, address: Some(a), ..m },
                    ),
                    None => StepModel::Failed("invalid address"@),
                },
                FieldKind::KeyField => {
                    if !valid_utf8(buf) {
                        StepModel::Failed("invalid UTF-8 in field"@)
                    } else if !valid_key_bytes(buf) {
                        StepModel::Failed("invalid key"@)
                    } else {
                        StepModel::Reading(
                            StateModel {
                                phase: PhaseModel::Awaiting,
                                key: Some(decode_utf8(buf)),
                                ..m
                            },
                        )
                    }
                },
            },
            EventModel::Header { .. } => StepModel::Failed("malformed multipart stream"@),
            EventModel::StreamEnd => StepModel::Failed("truncated multipart stream"@),
            EventModel::TransportFailure => StepModel::Failed("transport error"@),
        },
        PhaseModel::File => match ev {
            EventModel::Chunk { data } => {
                if m.payload.len() + data.len() > MAX_FILE_SIZE {
                    StepModel::Failed("payload too large"@)
                } else {
                    StepModel::Reading(StateModel { payload: m.payload + data, ..m })
                }
            },
            EventModel::PartEnd => StepModel::Reading(
                StateModel { phase: PhaseModel::Awaiting, ..m },
            ),
            EventModel::Header { .. } => StepModel::Failed("malformed multipart stream"@),
            EventModel::StreamEnd => StepModel::Failed("truncated multipart stream"@),
            EventModel::TransportFailure => StepModel::Failed("transport error"@),
        },
        PhaseModel::Unknown => match ev {
            EventModel::Chunk { .. } => StepModel::Reading(m),
            EventModel::PartEnd => StepModel::Reading(
                StateModel { phase: PhaseModel::Awaiting, ..m },
            ),
            EventModel::Header { .. } => StepModel::Failed("malformed multipart stream"@),
            EventModel::StreamEnd => StepModel::Failed("truncated multipart stream"@),
            EventModel::TransportFailure => StepModel::Failed("transport error"@),
        },
    }
}

/// Feeding a whole event sequence to the machine, stopping at the first
/// terminal step. An exhausted sequence leaves the machine still reading.
pub open spec fn spec_run(m: StateModel, evs: Seq<EventModel>) -> StepModel
    decreases evs.len(),
{
    if evs.len() == 0 {
        StepModel::Reading(m)
    } else {
        match spec_step(m, evs.first()) {
            StepModel::Reading(m2) => spec_run(m2, evs.drop_first()),
            r => r,
        }
    }
}

/// One step from a well-formed state keeps the invariant — in particular,
/// never more than `MAX_FILE_SIZE` payload bytes are buffered — and every
/// finished intent is valid.
pub proof fn lemma_step_preserves_wf(m: StateModel, ev: EventModel)
    requires
        wf_state(m),
    ensures
        spec_step(m, ev) matches StepModel::Reading(m2) ==> wf_state(m2),
        spec_step(m, ev) matches StepModel::Complete(u) ==> wf_intent(u),
{
    match m.phase {
        PhaseModel::Field { kind, buf } => {
            if (ev matches EventModel::PartEnd) {
                match kind {
                    FieldKind::AddressField => {
                        crate::address::lemma_parsed_address_wf(buf);
                    },
                    FieldKind::KeyField => {
                        if valid_utf8(buf) {
                            vstd::utf8::decode_utf8_encode_utf8(buf);
                        }
                    },
                }
            }
        },
        _ => {},
    }
}

/// A whole run from a well-formed state keeps the invariant at every
/// intermediate state, and every finished intent is valid.
pub proof fn lemma_run_preserves_wf(m: StateModel, evs: Seq<EventModel>)
    requires
        wf_state(m),
    ensures
        spec_run(m, evs) matches StepModel::Reading(m2) ==> wf_state(m2),
        spec_run(m, evs) matches StepModel::Complete(u) ==> wf_intent(u),
    decreases evs.len(),
{
    if evs.len() > 0 {
        lemma_step_preserves_wf(m, evs.first());
        match spec_step(m, evs.first()) {
            StepModel::Reading(m2) => {
                lemma_run_preserves_wf(m2, evs.drop_first());
            },
            _ => {},
        }
    }
}

/// Running a concatenation runs the first part, then the second from
/// wherever the first left off; a terminal step in the first part stands.
pub proof fn lemma_run_append(m: StateModel, evs1: Seq<EventModel>, evs2: Seq<EventModel>)
    ensures
        spec_run(m, evs1 + evs2) == (match spec_run(m, evs1) {
            StepModel::Reading(m2) => spec_run(m2, evs2),
            r => r,
        }),
    decreases evs1.len(),
{
    if evs1.len() == 0 {
        assert(evs1 + evs2 =~= evs2);
    } else {
        assert((evs1 + evs2).first() == evs1.first());
        assert((evs1 + evs2).drop_first() =~= evs1.drop_first() + evs2);
        match spec_step(m, evs1.first()) {
            StepModel::Reading(m2) => {
                lemma_run_append(m2, evs1.drop_first(), evs2);
            },
            _ => {},
        }
    }
}

/// The chunk events that deliver a payload in pieces.
pub open spec fn chunk_events(chunks: Seq<Seq<u8>>) -> Seq<EventModel> {
    chunks.map_values(|c: Seq<u8>| EventModel::Chunk { data: c })
}

/// While the file part is being read: if the delivered pieces fit the bound
/// together with what is already buffered, all of them are accumulated in
/// order; as soon as they would cross it, ingestion fails, and the buffer
/// never grows past the bound.
pub proof fn lemma_run_file_chunks(m: StateModel, chunks: Seq<Seq<u8>>)
    requires
        m.phase is File,
        m.payload.len() <= MAX_FILE_SIZE,
    ensures
        m.payload.len() + chunks.flatten().len() <= MAX_FILE_SIZE ==> spec_run(
            m,
            chunk_events(chunks),
        ) == StepModel::Reading(StateModel { payload: m.payload + chunks.flatten(), ..m }),
        m.payload.len() + chunks.flatten().len() > MAX_FILE_SIZE ==> spec_run(
            m,
            chunk_events(chunks),
        ) == StepModel::Failed("payload too large"@),
    decreases chunks.len(),
{
    let evs = chunk_events(chunks);
    if chunks.len() == 0 {
        assert(chunks.flatten() =~= Seq::<u8>::empty());
        assert(StateModel { payload: m.payload + chunks.flatten(), ..m } =~~= m);
    } else {
        let c = chunks.first();
        let rest = chunks.drop_first();
        assert(chunks.flatten() == c + rest.flatten());
        assert(evs.len() == chunks.len());
        assert(evs.first() == EventModel::Chunk { data: c });
        assert(evs.drop_first() =~= chunk_events(rest));
        if m.payload.len() + c.len() > MAX_FILE_SIZE {
            assert(spec_step(m, evs.first()) == StepModel::Failed("payload too large"@));
        } else {
            let m2 = StateModel { payload: m.payload + c, ..m };
            assert(spec_step(m, evs.first()) == StepModel::Reading(m2));
            lemma_run_file_chunks(m2, rest);
            if m.payload.len() + chunks.flatten().len() <= MAX_FILE_SIZE {
                assert(m2.payload + rest.flatten() =~= m.payload + chunks.flatten());
                assert(StateModel { payload: m2.payload + rest.flatten(), ..m2 } =~~= StateModel {
                    payload: m.payload + chunks.flatten(),
                    ..m
                });
            }
        }
    }
}

/// The events of one well-formed upload: the `address` and `key` fields,
/// each in a single chunk, then the file part delivered in pieces, then the
/// end of the stream.
pub open spec fn upload_header_events(
    addr_text: Seq<u8>,
    key_text: Seq<u8>,
    filename: Option<Seq<char>>,
) -> Seq<EventModel> {
    seq![
        EventModel::Header { name: "address"@, filename: None },
        EventModel::Chunk { data: addr_text },
        EventModel::PartEnd,
        EventModel::Header { name: "key"@, filename: None },
        EventModel::Chunk { data: key_text },
        EventModel::PartEnd,
        EventModel::Header { name: "file"@, filename },
    ]
}

/// A complete upload: fields, file pieces, end of stream.
pub open spec fn upload_events(
    addr_text: Seq<u8>,
    key_text: Seq<u8>,
    filename: Option<Seq<char>>,
    chunks: Seq<Seq<u8>>,
) -> Seq<EventModel> {
    upload_header_events(addr_text, key_text, filename) + chunk_events(chunks) + seq![
        EventModel::PartEnd,
        EventModel::StreamEnd,
    ]
}

/// Ingestion of a well-formed upload: with a valid address, a valid key and
/// a payload that fits `MAX_FILE_SIZE`, ingestion completes with exactly the
/// parsed address, the decoded key, the declared filename and the payload in
/// order; with a payload over the bound — by even one byte — it fails as a
/// client fault, having never buffered more than the bound.
pub proof fn lemma_upload_ingestion(
    addr_text: Seq<u8>,
    key_text: Seq<u8>,
    filename: Option<Seq<char>>,
    chunks: Seq<Seq<u8>>,
)
    requires
        spec_parse_address(addr_text) is Some,
        addr_text.len() <= MAX_FIELD_SIZE,
        valid_utf8(key_text),
        valid_key_bytes(key_text),
        key_text.len() <= MAX_FIELD_SIZE,
    ensures
        chunks.flatten().len() <= MAX_FILE_SIZE ==> spec_run(
            spec_init(),
            upload_events(addr_text, key_text, filename, chunks),
        ) == StepModel::Complete(
            IntentModel {
                address: spec_parse_address(addr_text)->0,
                key: decode_utf8(key_text),
                filename,
                payload: chunks.flatten(),
            },
        ),
        chunks.flatten().len() > MAX_FILE_SIZE ==> spec_run(
            spec_init(),
            upload_events(addr_text, key_text, filename, chunks),
        ) == StepModel::Failed("payload too large"@),
{
    reveal_strlit("address");
    reveal_strlit("key");
    reveal_strlit("file");
    assert("address"@.len() == 7);
    assert("key"@.len() == 3);
    assert("file"@.len() == 4);
    assert("key"@ != "address"@);
    assert("file"@ != "address"@);
    assert("file"@ != "key"@);
    let m0 = spec_init();
    let h = upload_header_events(addr_text, key_text, filename);
    let a = spec_parse_address(addr_text)->0;

    // The seven header events, one at a time.
    let m1 = StateModel {
        phase: PhaseModel::Field { kind: FieldKind::AddressField, buf: Seq::empty() },
        ..m0
    };
    assert(spec_step(m0, h[0]) == StepModel::Reading(m1));
    let m2 = StateModel {
        phase: PhaseModel::Field { kind: FieldKind::AddressField, buf: Seq::empty() + addr_text },
        ..m1
    };
    assert(spec_step(m1, h[1]) == StepModel::Reading(m2));
    assert(Seq::empty() + addr_text =~= addr_text);
    let m3 = StateModel { phase: PhaseModel::Awaiting, address: Some(a), ..m2 };
    assert(spec_step(m2, h[2]) == StepModel::Reading(m3));
    let m4 = StateModel {
        phase: PhaseModel::Field { kind: FieldKind::KeyField, buf: Seq::empty() },
        ..m3
    };
    assert(spec_step(m3, h[3]) == StepModel::Reading(m4));
    let m5 = StateModel {
        phase: PhaseModel::Field { kind: FieldKind::KeyField, buf: Seq::empty() + key_text },
        ..m4
    };
    assert(spec_step(m4, h[4]) == StepModel::Reading(m5));
    assert(Seq::empty() + key_text =~= key_text);
    let m6 = StateModel { phase: PhaseModel::Awaiting, key: Some(decode_utf8(key_text)), ..m5 };
    assert(spec_step(m5, h[5]) == StepModel::Reading(m6));
    let m7 = StateModel { phase: PhaseModel::File, filename, ..m6 };
    assert(spec_step(m6, h[6]) == StepModel::Reading(m7));

    let h1 = h.drop_first();
    let h2 = h1.drop_first();
    let h3 = h2.drop_first();
    let h4 = h3.drop_first();
    let h5 = h4.drop_first();
    let h6 = h5.drop_first();
    assert(h6.drop_first() =~= Seq::<EventModel>::empty());
    assert(spec_run(m7, h6.drop_first()) == StepModel::Reading(m7));
    assert(h6.first() == h[6]);
    assert(spec_run(m6, h6) == StepModel::Reading(m7));
    assert(h5.first() == h[5]);
    assert(spec_run(m5, h5) == StepModel::Reading(m7));
    assert(h4.first() == h[4]);
    assert(spec_run(m4, h4) == StepModel::Reading(m7));
    assert(h3.first() == h[3]);
    assert(spec_run(m3, h3) == StepModel::Reading(m7));
    assert(h2.first() == h[2]);
    assert(spec_run(m2, h2) == StepModel::Reading(m7));
    assert(h1.first() == h[1]);
    assert(spec_run(m1, h1) == StepModel::Reading(m7));
    assert(h.first() == h[0]);
    assert(spec_run(m0, h) == StepModel::Reading(m7));

    // The file pieces.
    lemma_run_file_chunks(m7, chunks);
    lemma_run_append(m0, h, chunk_events(chunks));
    assert(upload_events(addr_text, key_text, filename, chunks) =~= (h + chunk_events(chunks))
        + seq![EventModel::PartEnd, EventModel::StreamEnd]);
    lemma_run_append(
        m0,
        h + chunk_events(chunks),
        seq![EventModel::PartEnd, EventModel::StreamEnd],
    );

    if chunks.flatten().len() <= MAX_FILE_SIZE {
        let m8 = StateModel { payload: m7.payload + chunks.flatten(), ..m7 };
        assert(m7.payload + chunks.flatten() =~= chunks.flatten());
        let m9 = StateModel { phase: PhaseModel::Awaiting, ..m8 };
        let tail = seq![EventModel::PartEnd, EventModel::StreamEnd];
        let intent = IntentModel {
            address: a,
            key: decode_utf8(key_text),
            filename,
            payload: chunks.flatten(),
        };
        assert(tail.first() == tail[0]);
        assert(spec_step(m8, tail[0]) == StepModel::Reading(m9));
        let t1 = tail.drop_first();
        assert(t1 =~= seq![EventModel::StreamEnd]);
        assert(t1.first() == EventModel::StreamEnd);
        assert(spec_step(m9, EventModel::StreamEnd) == StepModel::Complete(intent));
        assert(spec_run(m9, t1) == StepModel::Complete(intent));
        assert(spec_run(m8, tail) == StepModel::Complete(intent));
    }
}

impl IngestState {
    /// The state ingestion starts from.
    pub fn init() -> (s: IngestState)
        ensures
            s@ == spec_init(),
            wf_state(s@),
    {
        let s = IngestState {
            phase: Phase::AwaitingPart,
            address: None,
            key: None,
            filename: None,
            payload: Vec::new(),
        };
        proof {
            assert(s@ =~= spec_init());
        }
        s
    }

    /// Whether the machine's invariant holds of this state. `init` and every
    /// `Reading` step hand back states it holds of; a caller that cannot
    /// track that may test it before the next step.
    pub fn invariant_holds(&self) -> (r: bool)
        ensures
            r == wf_state(self@),
    {
        let bounds_ok = match &self.phase {
            Phase::ReadingNamedField { buf, .. } => buf.len() as u64 <= MAX_FIELD_SIZE,
            _ => true,
        };
        let address_ok = match &self.address {
            Some(Address::Evm { bytes }) => bytes.len() == 20,
            _ => true,
        };
        let key_ok = match &self.key {
            Some(k) => normalize_key_bytes(k.as_str().as_bytes()).is_ok(),
            None => true,
        };
        bounds_ok && address_ok && key_ok && self.payload.len() as u64 <= MAX_FILE_SIZE
    }
}

/// The models of a list of events.
pub open spec fn events_view(evs: Seq<IngestEvent>) -> Seq<EventModel> {
    evs.map_values(|e: IngestEvent| e@)
}

/// Run a whole recorded event list through the machine, stopping at the
/// first terminal step: exactly `spec_run` from the initial state. An event
/// list that runs out while the machine is still reading is a truncated
/// stream, a client fault.
#[verifier::loop_isolation(false)]
pub fn ingest(events: Vec<IngestEvent>) -> (r: Result<UploadIntent, GatewayError>)
    ensures
        match spec_run(spec_init(), events_view(events@)) {
            StepModel::Complete(u) => r matches Ok(intent) && intent@ == u && wf_intent(u),
            StepModel::Failed(msg) => r matches Err(e) && e.is_bad_request() && e.spec_message()
                == msg,
            StepModel::Reading(_) => r matches Err(e) && e.is_bad_request(),
        },
{
    let ghost all = events@;
    let mut events = events;
    let mut state = IngestState::init();
    while events.len() > 0
        invariant
            wf_state(state@),
            spec_run(spec_init(), events_view(all)) == spec_run(state@, events_view(events@)),
        decreases events@.len(),
    {
        let ghost before = events@;
        let ev = events.remove(0);
        proof {
            assert(events_view(before).first() == ev@);
            assert(events_view(events@) =~= events_view(before).drop_first());
        }
        match ingest_step(state, ev) {
            IngestStep::Reading(s2) => {
                state = s2;
            },
            IngestStep::Complete(u) => {
                proof {
                    assert(spec_run(state@, events_view(before)) == StepModel::Complete(u@));
                }
                return Ok(u);
            },
            IngestStep::Failed(e) => {
                proof {
                    assert(spec_run(state@, events_view(before)) == StepModel::Failed(
                        e.spec_message(),
                    ));
                }
                return Err(e);
            },
        }
    }
    proof {
        assert(events_view(events@) =~= Seq::<EventModel>::empty());
        assert(spec_run(state@, events_view(events@)) == StepModel::Reading(state@));
    }
    Err(bad_request("truncated multipart stream"))
}

/// A client fault with the given message.
fn bad_request(msg: &str) -> (e: GatewayError)
    ensures
        e.is_bad_request(),
        e.spec_message() == msg@,
{
    GatewayError::BadRequest(msg.to_owned())
}

/// Feed one event to the machine. The result is exactly the transition
/// `spec_step` describes, the invariant is preserved, and a finished intent
/// is valid.
pub fn ingest_step(s: IngestState, ev: IngestEvent) -> (r: IngestStep)
    requires
        wf_state(s@),
    ensures
        r@ == spec_step(s@, ev@),
        r@ matches StepModel::Reading(m) ==> wf_state(m),
        r@ matches StepModel::Complete(u) ==> wf_intent(u),
        r matches IngestStep::Failed(e) ==> e.is_bad_request(),
{
    let ghost pre = s@;
    let IngestState { phase, address, key, filename, payload } = s;
    match phase {
        Phase::AwaitingPart => match ev {
            IngestEvent::PartHeader { name, filename: part_filename } => {
                if name == String::from_str("address") {
                    let r = IngestStep::Reading(
                        IngestState {
                            phase: Phase::ReadingNamedField {
                                kind: FieldKind::AddressField,
                                buf: Vec::new(),
                            },
                            address,
                            key,
                            filename,
                            payload,
                        },
                    );
                    proof {
                        assert(r@ =~~= spec_step(pre, EventModel::Header {
                            name: name@,
                            filename: opt_string_view(part_filename),
                        }));
                    }
                    r
                } else if name == String::from_str("key") {
                    let r = IngestStep::Reading(
                        IngestState {
                            phase: Phase::ReadingNamedField {
                                kind: FieldKind::KeyField,
                                buf: Vec::new(),
                            },
                            address,
                            key,
                            filename,
                            payload,
                        },
                    );
                    proof {
                        assert(r@ =~~= spec_step(pre, EventModel::Header {
                            name: name@,
                            filename: opt_string_view(part_filename),
                        }));
                    }
                    r
                } else if name == String::from_str("file") {
                    let r = IngestStep::Reading(
                        IngestState {
                            phase: Phase::ReadingFilePart,
                            address,
                            key,
                            filename: part_filename,
                            payload,
                        },
                    );
                    proof {
                        assert(r@ =~~= spec_step(pre, ev@));
                    }
                    r
                } else {
                    let r = IngestStep::Reading(
                        IngestState {
                            phase: Phase::ReadingUnknownPart,
                            address,
                            key,
                            filename,
                            payload,
                        },
                    );
                    proof {
                        assert(r@ =~~= spec_step(pre, ev@));
                    }
                    r
                }
            },
            IngestEvent::Chunk { .. } => IngestStep::Failed(
                bad_request("malformed multipart stream"),
            ),
            IngestEvent::PartEnd => IngestStep::Failed(bad_request("malformed multipart stream")),
            IngestEvent::StreamEnd => match (address, key) {
                (Some(a), Some(k)) => {
                    let r = IngestStep::Complete(
                        UploadIntent { address: a, key: k, filename, payload },
                    );
                    proof {
                        assert(r@ =~~= spec_step(pre, ev@));
                    }
                    r
                },
                (a, k) => {
                    proof {
                        assert(spec_step(pre, ev@) == StepModel::Failed("missing field"@));
                    }
                    IngestStep::Failed(bad_request("missing field"))
                },
            },
            IngestEvent::TransportFailure => IngestStep::Failed(bad_request("transport error")),
        },
        Phase::ReadingNamedField { kind, buf } => match ev {
            IngestEvent::Chunk { data } => {
                let mut buf = buf;
                let mut data = data;
                if data.len() as u64 > MAX_FIELD_SIZE - buf.len() as u64 {
                    IngestStep::Failed(bad_request("field too large"))
                } else {
                    buf.append(&mut data);
                    let r = IngestStep::Reading(
                        IngestState {
                            phase: Phase::ReadingNamedField { kind, buf },
                            address,
                            key,
                            filename,
                            payload,
                        },
                    );
                    proof {
                        assert(r@ =~~= spec_step(pre, ev@));
                    }
                    r
                }
            },
            IngestEvent::PartEnd => match kind {
                FieldKind::AddressField => match normalize_address_bytes(buf.as_slice()) {
                    Ok(a) => {
                        let r = IngestStep::Reading(
                            IngestState {
                                phase: Phase::AwaitingPart,
                                address: Some(a),
                                key,
                                filename,
                                payload,
                            },
                        );
                        proof {
                            assert(r@ =~~= spec_step(pre, ev@));
                        }
                        r
                    },
                    Err(_) => IngestStep::Failed(bad_request("invalid address")),
                },
                FieldKind::KeyField => {
                    let ghost buf0 = buf@;
                    match utf8_to_string(buf) {
                    Some(text) => {
                        proof {
                            vstd::utf8::decode_utf8_encode_utf8(buf0);
                        }
                        match normalize_key_bytes(text.as_str().as_bytes()) {
                        Ok(_) => {
                            let r = IngestStep::Reading(
                                IngestState {
                                    phase: Phase::AwaitingPart,
                                    address,
                                    key: Some(text),
                                    filename,
                                    payload,
                                },
                            );
                            proof {
                                assert(r@ =~~= spec_step(pre, ev@));
                            }
                            r
                        },
                        Err(_) => IngestStep::Failed(bad_request("invalid key")),
                    }
                    },
                    None => IngestStep::Failed(bad_request("invalid UTF-8 in field")),
                }
                },
            },
            IngestEvent::PartHeader { .. } => IngestStep::Failed(
                bad_request("malformed multipart stream"),
            ),
            IngestEvent::StreamEnd => IngestStep::Failed(bad_request("truncated multipart stream")),
            IngestEvent::TransportFailure => IngestStep::Failed(bad_request("transport error")),
        },
        Phase::ReadingFilePart => match ev {
            IngestEvent::Chunk { data } => {
                let mut payload = payload;
                let mut data = data;
                if data.len() as u64 > MAX_FILE_SIZE - payload.len() as u64 {
                    IngestStep::Failed(bad_request("payload too large"))
                } else {
                    payload.append(&mut data);
                    let r = IngestStep::Reading(
                        IngestState {
                            phase: Phase::ReadingFilePart,
                            address,
                            key,
                            filename,
                            payload,
                        },
                    );
                    proof {
                        assert(r@ =~~= spec_step(pre, ev@));
                    }
                    r
                }
            },
            IngestEvent::PartEnd => {
                let r = IngestStep::Reading(
                    IngestState { phase: Phase::AwaitingPart, address, key, filename, payload },
                );
                proof {
                    assert(r@ =~~= spec_step(pre, ev@));
                }
                r
            },
            IngestEvent::PartHeader { .. } => IngestStep::Failed(
                bad_request("malformed multipart stream"),
            ),
            IngestEvent::StreamEnd => IngestStep::Failed(bad_request("truncated multipart stream")),
            IngestEvent::TransportFailure => IngestStep::Failed(bad_request("transport error")),
        },
        Phase::ReadingUnknownPart => match ev {
            IngestEvent::Chunk { .. } => {
                let r = IngestStep::Reading(
                    IngestState {
                        phase: Phase::ReadingUnknownPart,
                        address,
                        key,
                        filename,
                        payload,
                    },
                );
                proof {
                    assert(r@ =~~= spec_step(pre, ev@));
                }
                r
            },
            IngestEvent::PartEnd => {
                let r = IngestStep::Reading(
                    IngestState { phase: Phase::AwaitingPart, address, key, filename, payload },
                );
                proof {
                    assert(r@ =~~= spec_step(pre, ev@));
                }
                r
            },
            IngestEvent::PartHeader { .. } => IngestStep::Failed(
                bad_request("malformed multipart stream"),
            ),
            IngestEvent::StreamEnd => IngestStep::Failed(bad_request("truncated multipart stream")),
            IngestEvent::TransportFailure => IngestStep::Failed(bad_request("transport error")),
        },
    }
}

} // verus!
