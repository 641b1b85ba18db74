//! DAVE protocol state machine.
//!
//! Handles the MLS key exchange lifecycle that precedes E2EE media in
//! DAVE-enabled voice channels.  Discord drives this over voice gateway
//! opcodes `20..=28`.

use base64::Engine;
use vstd::prelude::*;
use vstd::utf8::encode_utf8;
use crate::json::{Json, JsonValue, lemma_member_index, lemma_members_model, member_index, members_model};

verus! {

/// DAVE gateway opcode: prepare transition.
pub const OP_DAVE_PREPARE_TRANSITION: u64 = 20;
/// DAVE gateway opcode: MLS external sender.
pub const OP_DAVE_MLS_EXTERNAL_SENDER: u64 = 21;
/// DAVE gateway opcode: MLS key package.
pub const OP_DAVE_MLS_KEY_PACKAGE: u64 = 22;
/// DAVE gateway opcode: MLS proposals.
pub const OP_DAVE_MLS_PROPOSALS: u64 = 23;
/// DAVE gateway opcode: MLS commit + welcome.
pub const OP_DAVE_MLS_COMMIT_WELCOME: u64 = 24;
/// DAVE gateway opcode: transition ready (client -> server).
pub const OP_DAVE_TRANSITION_READY: u64 = 25;
/// DAVE gateway opcode: execute transition.
pub const OP_DAVE_EXECUTE_TRANSITION: u64 = 28;

/// A parsed DAVE event emitted while processing voice gateway payloads.
#[derive(Debug, Clone, PartialEq, Eq)]
pub enum DaveEvent {
    /// Server began a new DAVE epoch transition.
    PrepareTransition { transition_id: u64, protocol_version: u64 },
    /// Server provided the MLS external sender payload.
    MlsExternalSender { bytes: Vec<u8> },
    /// Server provided an MLS key package payload.
    MlsKeyPackage { bytes: Vec<u8> },
    /// Server provided MLS proposals payload.
    MlsProposals { bytes: Vec<u8> },
    /// Server provided MLS commit/welcome payload.
    MlsCommitWelcome { bytes: Vec<u8> },
    /// Server activated a transition/epoch.
    ExecuteTransition { transition_id: u64 },
}

/// The current phase of a DAVE protocol negotiation.
#[derive(Debug, Clone, Copy, PartialEq, Eq, Structural)]
pub enum DavePhase {
    /// No DAVE negotiation in progress; using standard RTP encryption.
    Inactive,
    /// Discord has signalled a transition (op 20); we have acknowledged (op 25)
    /// and are waiting for the execute transition (op 28).
    PendingTransition {
        /// The transition ID assigned by Discord.
        transition_id: u64,
        /// The DAVE protocol version being negotiated.
        protocol_version: u64,
    },
    /// DAVE E2EE is active for this epoch.
    Active {
        /// The current epoch number.
        epoch: u64,
        /// The DAVE protocol version in use.
        protocol_version: u64,
    },
}

/// The contents of a list of byte payloads.
pub open spec fn payloads(v: Vec<Vec<u8>>) -> Seq<Seq<u8>> {
    v@.map_values(|b: Vec<u8>| b@)
}

/// The contents of an optional byte payload.
pub open spec fn payload(o: Option<Vec<u8>>) -> Option<Seq<u8>> {
    match o {
        Some(b) => Some(b@),
        None => None,
    }
}

/// Tracks DAVE protocol state for a single voice connection.
#[derive(Debug)]
pub struct DaveState {
    /// Current protocol phase.
    pub phase: DavePhase,
    /// MLS external sender public key (op 21), if received.
    pub external_sender: Option<Vec<u8>>,
    /// MLS key packages received (op 22).
    pub key_packages: Vec<Vec<u8>>,
    /// MLS proposals received (op 23).
    pub proposals: Vec<Vec<u8>>,
    /// MLS commit + welcome (op 24).
    pub commit_welcome: Option<Vec<u8>>,
}

/// What a [`DaveState`] holds: the phase and the contents of the MLS
/// payloads received.
pub struct DaveModel {
    pub phase: DavePhase,
    pub external_sender: Option<Seq<u8>>,
    pub key_packages: Seq<Seq<u8>>,
    pub proposals: Seq<Seq<u8>>,
    pub commit_welcome: Option<Seq<u8>>,
}

/// The state after one more key package (op 22) is stored.
pub open spec fn with_key_package(s: DaveModel, b: Seq<u8>) -> DaveModel {
    DaveModel { key_packages: s.key_packages.push(b), ..s }
}

/// The state after the key packages `pkgs` are stored, in order.
pub open spec fn with_key_packages(s: DaveModel, pkgs: Seq<Seq<u8>>) -> DaveModel
    decreases pkgs.len(),
{
    if pkgs.len() == 0 {
        s
    } else {
        with_key_package(with_key_packages(s, pkgs.drop_last()), pkgs.last())
    }
}

/// Storing key packages one after another keeps them all, in order, after
/// those already held: the count grows by one per package.
pub proof fn lemma_key_packages_accumulate(s: DaveModel, pkgs: Seq<Seq<u8>>)
    ensures
        with_key_packages(s, pkgs).key_packages == s.key_packages + pkgs,
        with_key_packages(s, pkgs).key_packages.len() == s.key_packages.len() + pkgs.len(),
        with_key_packages(s, pkgs).phase == s.phase,
    decreases pkgs.len(),
{
    if pkgs.len() > 0 {
        lemma_key_packages_accumulate(s, pkgs.drop_last());
        assert(s.key_packages + pkgs =~= (s.key_packages + pkgs.drop_last()).push(pkgs.last()));
    } else {
        assert(s.key_packages + pkgs =~= s.key_packages);
    }
}

impl View for DaveState {
    type V = DaveModel;

    open spec fn view(&self) -> DaveModel {
        DaveModel {
            phase: self.phase,
            external_sender: payload(self.external_sender),
            key_packages: payloads(self.key_packages),
            proposals: payloads(self.proposals),
            commit_welcome: payload(self.commit_welcome),
        }
    }
}

fn copy_payloads(v: &Vec<Vec<u8>>) -> (r: Vec<Vec<u8>>)
    ensures
        payloads(*&r) == payloads(*v),
{
    let mut out: Vec<Vec<u8>> = Vec::new();
    let n = v.len();
    let mut i: usize = 0;
    while i < n
        invariant
            n == v@.len(),
            i <= n,
            out@.len() == i,
            forall|k: int| 0 <= k < i ==> (#[trigger] out@[k])@ == v@[k]@,
        decreases n - i,
    {
        let b = v[i].clone();
        out.push(b);
        i = i + 1;
    }
    assert(payloads(out) =~= payloads(*v));
    out
}

fn copy_payload(o: &Option<Vec<u8>>) -> (r: Option<Vec<u8>>)
    ensures
        payload(r) == payload(*o),
{
    match o {
        Some(b) => Some(b.clone()),
        None => None,
    }
}

impl Clone for DaveState {
    fn clone(&self) -> (r: Self)
        ensures
            r.phase == self.phase,
            payload(r.external_sender) == payload(self.external_sender),
            payloads(r.key_packages) == payloads(self.key_packages),
            payloads(r.proposals) == payloads(self.proposals),
            payload(r.commit_welcome) == payload(self.commit_welcome),
    {
        DaveState {
            phase: self.phase,
            external_sender: copy_payload(&self.external_sender),
            key_packages: copy_payloads(&self.key_packages),
            proposals: copy_payloads(&self.proposals),
            commit_welcome: copy_payload(&self.commit_welcome),
        }
    }
}

impl Default for DaveState {
    fn default() -> (r: Self)
        ensures
            r.phase == DavePhase::Inactive,
            r.external_sender is None,
            r.key_packages@.len() == 0,
            r.proposals@.len() == 0,
            r.commit_welcome is None,
    {
        DaveState::new()
    }
}

impl DaveState {
    /// Create a new inactive DAVE state.
    pub fn new() -> (r: Self)
        ensures
            r.phase == DavePhase::Inactive,
            r.external_sender is None,
            r.key_packages@.len() == 0,
            r.proposals@.len() == 0,
            r.commit_welcome is None,
    {
        DaveState {
            phase: DavePhase::Inactive,
            external_sender: None,
            key_packages: Vec::new(),
            proposals: Vec::new(),
            commit_welcome: None,
        }
    }

    /// Whether DAVE E2EE is currently active.
    pub fn is_active(&self) -> (r: bool)
        ensures
            r == (self.phase is Active),
    {
        match self.phase {
            DavePhase::Active { .. } => true,
            _ => false,
        }
    }

    /// Handle a Prepare Transition (op 20).
    ///
    /// Returns the transition ID that should be sent back in op 25.  The MLS
    /// state of the previous epoch (key packages, proposals, commit/welcome)
    /// is cleared; the external sender is kept.
    pub fn prepare_transition(&mut self, transition_id: u64, protocol_version: u64) -> (r: u64)
        ensures
            r == transition_id,
            final(self).phase == (DavePhase::PendingTransition { transition_id, protocol_version }),
            payload(final(self).external_sender) == payload(old(self).external_sender),
            final(self).key_packages@.len() == 0,
            final(self).proposals@.len() == 0,
            final(self).commit_welcome is None,
    {
        self.phase = DavePhase::PendingTransition { transition_id, protocol_version };
        self.key_packages.clear();
        self.proposals.clear();
        self.commit_welcome = None;
        transition_id
    }

    /// Handle an Execute Transition (op 28).
    ///
    /// Moves to the Active phase with the transition's ID as epoch, keeping
    /// the protocol version of a pending transition (version 1 otherwise).
    pub fn execute_transition(&mut self, transition_id: u64)
        ensures
            final(self).phase == (DavePhase::Active {
                epoch: transition_id,
                protocol_version: match old(self).phase {
                    DavePhase::PendingTransition { protocol_version, .. } => protocol_version,
                    _ => 1,
                },
            }),
            payload(final(self).external_sender) == payload(old(self).external_sender),
            payloads(final(self).key_packages) == payloads(old(self).key_packages),
            payloads(final(self).proposals) == payloads(old(self).proposals),
            payload(final(self).commit_welcome) == payload(old(self).commit_welcome),
    {
        let protocol_version = match self.phase {
            DavePhase::PendingTransition { protocol_version, .. } => protocol_version,
            _ => 1,
        };
        self.phase = DavePhase::Active { epoch: transition_id, protocol_version };
    }

    /// Store an MLS external sender (op 21).
    pub fn set_external_sender(&mut self, data: Vec<u8>)
        ensures
            final(self).phase == old(self).phase,
            payload(final(self).external_sender) == Some(data@),
            payloads(final(self).key_packages) == payloads(old(self).key_packages),
            payloads(final(self).proposals) == payloads(old(self).proposals),
            payload(final(self).commit_welcome) == payload(old(self).commit_welcome),
    {
        self.external_sender = Some(data);
    }

    /// Store an MLS key package (op 22).
    pub fn add_key_package(&mut self, data: Vec<u8>)
        ensures
            final(self).phase == old(self).phase,
            payload(final(self).external_sender) == payload(old(self).external_sender),
            payloads(final(self).key_packages) == payloads(old(self).key_packages).push(data@),
            payloads(final(self).proposals) == payloads(old(self).proposals),
            payload(final(self).commit_welcome) == payload(old(self).commit_welcome),
            final(self)@ == with_key_package(old(self)@, data@),
    {
        self.key_packages.push(data);
        assert(payloads(self.key_packages) =~= payloads(old(self).key_packages).push(data@));
    }

    /// Store MLS proposals (op 23).
    pub fn add_proposals(&mut self, data: Vec<u8>)
        ensures
            final(self).phase == old(self).phase,
            payload(final(self).external_sender) == payload(old(self).external_sender),
            payloads(final(self).key_packages) == payloads(old(self).key_packages),
            payloads(final(self).proposals) == payloads(old(self).proposals).push(data@),
            payload(final(self).commit_welcome) == payload(old(self).commit_welcome),
    {
        self.proposals.push(data);
        assert(payloads(self.proposals) =~= payloads(old(self).proposals).push(data@));
    }

    /// Store an MLS commit + welcome (op 24).
    pub fn set_commit_welcome(&mut self, data: Vec<u8>)
        ensures
            final(self).phase == old(self).phase,
            payload(final(self).external_sender) == payload(old(self).external_sender),
            payloads(final(self).key_packages) == payloads(old(self).key_packages),
            payloads(final(self).proposals) == payloads(old(self).proposals),
            payload(final(self).commit_welcome) == Some(data@),
    {
        self.commit_welcome = Some(data);
    }
}

// ── Decoding DAVE payloads ────────────────────────────────────────────────

/// What decoding bytes as padded standard base64 gives.
pub uninterp spec fn base64_standard_decoded(input: Seq<u8>) -> Option<Seq<u8>>;

/// What decoding bytes as padded URL-safe base64 gives.
pub uninterp spec fn base64_url_safe_decoded(input: Seq<u8>) -> Option<Seq<u8>>;

/// What decoding bytes as unpadded URL-safe base64 gives.
pub uninterp spec fn base64_url_safe_no_pad_decoded(input: Seq<u8>) -> Option<Seq<u8>>;

/// Decodes bytes with the `base64` crate's `general_purpose::STANDARD`
/// engine (`Engine::decode`).  The contract names the result: it depends on
/// the input alone, `None` standing for a decode error.
#[verifier::external_body]
fn decode_standard(input: &[u8]) -> (r: Option<Vec<u8>>)
    ensures
        payload(r) == base64_standard_decoded(input@),
{
    match base64::engine::general_purpose::STANDARD.decode(input) {
        Ok(bytes) => Some(bytes),
        Err(_) => None,
    }
}

/// Decodes bytes with the `base64` crate's `general_purpose::URL_SAFE`
/// engine (`Engine::decode`).  The contract names the result: it depends on
/// the input alone, `None` standing for a decode error.
#[verifier::external_body]
fn decode_url_safe(input: &[u8]) -> (r: Option<Vec<u8>>)
    ensures
        payload(r) == base64_url_safe_decoded(input@),
{
    match base64::engine::general_purpose::URL_SAFE.decode(input) {
        Ok(bytes) => Some(bytes),
        Err(_) => None,
    }
}

/// Decodes bytes with the `base64` crate's `general_purpose::URL_SAFE_NO_PAD`
/// engine (`Engine::decode`).  The contract names the result: it depends on
/// the input alone, `None` standing for a decode error.
#[verifier::external_body]
fn decode_url_safe_no_pad(input: &[u8]) -> (r: Option<Vec<u8>>)
    ensures
        payload(r) == base64_url_safe_no_pad_decoded(input@),
{
    match base64::engine::general_purpose::URL_SAFE_NO_PAD.decode(input) {
        Ok(bytes) => Some(bytes),
        Err(_) => None,
    }
}

/// The bytes a text payload carries, given what decoding its UTF-8 bytes
/// as standard, URL-safe and unpadded URL-safe base64 gives: the first
/// decoding that succeeds, else the UTF-8 bytes themselves.
pub open spec fn pick_text_bytes(
    utf8: Seq<u8>,
    standard: Option<Seq<u8>>,
    url_safe: Option<Seq<u8>>,
    url_safe_no_pad: Option<Seq<u8>>,
) -> Seq<u8> {
    match standard {
        Some(b) => b,
        None => match url_safe {
            Some(b) => b,
            None => match url_safe_no_pad {
                Some(b) => b,
                None => utf8,
            },
        },
    }
}

/// The bytes a text payload carries.
pub open spec fn text_payload_spec(s: Seq<char>) -> Seq<u8> {
    let utf8 = encode_utf8(s);
    pick_text_bytes(
        utf8,
        base64_standard_decoded(utf8),
        base64_url_safe_decoded(utf8),
        base64_url_safe_no_pad_decoded(utf8),
    )
}

/// Pick the bytes of a text payload from its UTF-8 bytes and the three
/// base64 decodings tried on them, in order.
pub fn pick_text_payload(
    utf8: Vec<u8>,
    standard: Option<Vec<u8>>,
    url_safe: Option<Vec<u8>>,
    url_safe_no_pad: Option<Vec<u8>>,
) -> (r: Vec<u8>)
    ensures
        r@ == pick_text_bytes(utf8@, payload(standard), payload(url_safe), payload(url_safe_no_pad)),
{
    match standard {
        Some(b) => b,
        None => match url_safe {
            Some(b) => b,
            None => match url_safe_no_pad {
                Some(b) => b,
                None => utf8,
            },
        },
    }
}

/// The bytes a text payload carries: base64 or base64url (padded or not),
/// with the text's own UTF-8 bytes as a fallback.
pub fn decode_text_payload(s: &str) -> (r: Vec<u8>)
    ensures
        r@ == text_payload_spec(s@),
{
    let utf8 = s.as_bytes_vec();
    let standard = decode_standard(utf8.as_slice());
    let url_safe = decode_url_safe(utf8.as_slice());
    let url_safe_no_pad = decode_url_safe_no_pad(utf8.as_slice());
    pick_text_payload(utf8, standard, url_safe, url_safe_no_pad)
}

/// The bytes of an array payload: every element a non-negative integer,
/// each kept modulo 256.
pub open spec fn array_payload_spec(items: Seq<JsonValue>) -> Option<Seq<u8>> {
    if forall|i: int| 0 <= i < items.len() ==> (#[trigger] items[i]) is UInt {
        Some(Seq::new(items.len(), |i: int| (items[i]->UInt_0 % 256) as u8))
    } else {
        None
    }
}

fn decode_array_payload(items: &Vec<JsonValue>) -> (r: Option<Vec<u8>>)
    ensures
        payload(r) == array_payload_spec(items@),
{
    let mut out: Vec<u8> = Vec::new();
    let n = items.len();
    let mut i: usize = 0;
    while i < n
        invariant
            n == items@.len(),
            i <= n,
            out@.len() == i,
            forall|k: int| 0 <= k < i ==> (#[trigger] items@[k]) is UInt,
            forall|k: int| 0 <= k < i ==> #[trigger] out@[k] == (items@[k]->UInt_0 % 256) as u8,
        decreases n - i,
    {
        match items[i].as_u64() {
            Some(v) => out.push((v % 256) as u8),
            None => {
                assert(!(items@[i as int] is UInt));
                return None;
            },
        }
        i = i + 1;
    }
    assert(out@ =~= Seq::new(items@.len(), |k: int| (items@[k]->UInt_0 % 256) as u8));
    Some(out)
}

/// The position of the member of an object payload that wraps the bytes:
/// `data`, else `bytes`, else `payload`.
pub open spec fn wrapper_index(members: Seq<(String, JsonValue)>) -> Option<nat> {
    match member_index(members, "data"@) {
        Some(i) => Some(i),
        None => match member_index(members, "bytes"@) {
            Some(i) => Some(i),
            None => member_index(members, "payload"@),
        },
    }
}

/// The bytes a DAVE payload's `d` field carries.  Discord can encode these
/// as a raw byte array (`[1,2,3,...]`), as a string (base64/base64url,
/// UTF-8 fallback), or as an object wrapping one of `data`, `bytes` or
/// `payload`.
pub open spec fn payload_bytes_spec(v: JsonValue) -> Option<Seq<u8>>
    decreases v,
{
    match v {
        JsonValue::Array(items) => array_payload_spec(items@),
        JsonValue::Str(s) => Some(text_payload_spec(s@)),
        JsonValue::Object(members) => match wrapper_index(members@) {
            Some(i) => if i < members@.len() {
                payload_bytes_spec(members@[i as int].1)
            } else {
                None
            },
            None => None,
        },
        _ => None,
    }
}

/// Decode DAVE byte payloads from voice gateway `d` fields.
///
/// Discord can encode these as:
/// - a raw byte array (`[1,2,3,...]`)
/// - a string (base64/base64url; UTF-8 fallback)
/// - an object wrapper containing one of `data`, `bytes`, or `payload`
pub fn decode_payload_bytes(value: &JsonValue) -> (r: Option<Vec<u8>>)
    ensures
        payload(r) == payload_bytes_spec(*value),
    decreases value,
{
    match value {
        JsonValue::Array(items) => decode_array_payload(items),
        JsonValue::Str(s) => Some(decode_text_payload(s.as_str())),
        JsonValue::Object(members) => {
            proof {
                lemma_member_index(members@, "data"@);
                lemma_member_index(members@, "bytes"@);
                lemma_member_index(members@, "payload"@);
            }
            let inner = match value.get("data") {
                Some(x) => Some(x),
                None => match value.get("bytes") {
                    Some(x) => Some(x),
                    None => value.get("payload"),
                },
            };
            match inner {
                Some(x) => {
                    let ghost i = wrapper_index(members@)->0;
                    assert(*x == members@[i as int].1);
                    assert(decreases_to!(*value => *members));
                    assert(decreases_to!(*members => members@));
                    assert(decreases_to!(members@ => members@[i as int]));
                    assert(decreases_to!(members@[i as int] => members@[i as int].1));
                    decode_payload_bytes(x)
                },
                None => None,
            }
        },
        _ => None,
    }
}

/// The op 25 payload acknowledging a DAVE transition.
pub open spec fn transition_ready_json(transition_id: u64) -> Json {
    Json::Object(seq![
        ("op"@, Json::UInt(25)),
        ("d"@, Json::Object(seq![("transition_id"@, Json::UInt(transition_id))])),
    ])
}

/// Build the op 25 payload acknowledging a DAVE transition.
pub fn transition_ready_payload(transition_id: u64) -> (r: JsonValue)
    ensures
        r.model() == transition_ready_json(transition_id),
{
    let mut data: Vec<(String, JsonValue)> = Vec::new();
    data.push(("transition_id".to_owned(), JsonValue::UInt(transition_id)));
    proof {
        lemma_members_model(data@);
    }
    let ghost data_expected = seq![("transition_id"@, Json::UInt(transition_id))];
    assert(members_model(data@) =~= data_expected);
    let d = JsonValue::Object(data);
    assert(d.model() == Json::Object(data_expected));
    let mut top: Vec<(String, JsonValue)> = Vec::new();
    top.push(("op".to_owned(), JsonValue::UInt(OP_DAVE_TRANSITION_READY)));
    top.push(("d".to_owned(), d));
    proof {
        lemma_members_model(top@);
    }
    let ghost top_expected = seq![("op"@, Json::UInt(25)), ("d"@, Json::Object(data_expected))];
    assert(members_model(top@) =~= top_expected);
    let r = JsonValue::Object(top);
    assert(r.model() == Json::Object(top_expected));
    r
}

/// A field of a payload's data read as an unsigned integer.
pub open spec fn field_u64(d: JsonValue, key: Seq<char>) -> Option<u64> {
    match d.get_spec(key) {
        Some(v) => v.as_u64_spec(),
        None => None,
    }
}

fn get_u64(d: &JsonValue, key: &str) -> (r: Option<u64>)
    ensures
        r == field_u64(*d, key@),
{
    match d.get(key) {
        Some(v) => v.as_u64(),
        None => None,
    }
}

/// The bytes an event carries, if it carries any.
pub open spec fn event_bytes(e: DaveEvent) -> Option<Seq<u8>> {
    match e {
        DaveEvent::MlsExternalSender { bytes } => Some(bytes@),
        DaveEvent::MlsKeyPackage { bytes } => Some(bytes@),
        DaveEvent::MlsProposals { bytes } => Some(bytes@),
        DaveEvent::MlsCommitWelcome { bytes } => Some(bytes@),
        _ => None,
    }
}

/// What applying a DAVE gateway payload does: the event it yields and the
/// state that follows, or `None` (and no change) when the opcode is not a
/// DAVE opcode or its data is malformed.
pub open spec fn apply_spec(s: DaveModel, op: u64, d: JsonValue) -> Option<(DaveEvent, DaveModel)> {
    if op == OP_DAVE_PREPARE_TRANSITION {
        match field_u64(d, "transition_id"@) {
            Some(transition_id) => {
                let protocol_version = match field_u64(d, "protocol_version"@) {
                    Some(v) => v,
                    None => 1,
                };
                Some((
                    DaveEvent::PrepareTransition { transition_id, protocol_version },
                    DaveModel {
                        phase: DavePhase::PendingTransition { transition_id, protocol_version },
                        key_packages: Seq::empty(),
                        proposals: Seq::empty(),
                        commit_welcome: None,
                        ..s
                    },
                ))
            },
            None => None,
        }
    } else if op == OP_DAVE_EXECUTE_TRANSITION {
        match field_u64(d, "transition_id"@) {
            Some(transition_id) => Some((
                DaveEvent::ExecuteTransition { transition_id },
                DaveModel {
                    phase: DavePhase::Active {
                        epoch: transition_id,
                        protocol_version: match s.phase {
                            DavePhase::PendingTransition { protocol_version, .. } => protocol_version,
                            _ => 1,
                        },
                    },
                    ..s
                },
            )),
            None => None,
        }
    } else {
        arbitrary()
    }
}

impl DaveState {
    /// Apply a raw DAVE gateway payload (`op`, `d`) and update local state.
    ///
    /// Returns a typed [`DaveEvent`] when the opcode is DAVE-related and
    /// valid; otherwise returns `None` and leaves the state as it was.
    pub fn apply_gateway_payload(&mut self, op: u64, d: &JsonValue) -> (r: Option<DaveEvent>)
        ensures
            (op == OP_DAVE_PREPARE_TRANSITION || op == OP_DAVE_EXECUTE_TRANSITION) ==> match apply_spec(old(self)@, op, *d) {
                Some((e, m)) => r == Some(e) && final(self)@ == m,
                None => r is None && final(self)@ == old(self)@,
            },
            (OP_DAVE_MLS_EXTERNAL_SENDER <= op <= OP_DAVE_MLS_COMMIT_WELCOME) ==> match payload_bytes_spec(*d) {
                Some(b) => r matches Some(e) && event_bytes(e) == Some(b) && {
                    &&& op == OP_DAVE_MLS_EXTERNAL_SENDER ==> e is MlsExternalSender
                        && final(self)@ == (DaveModel { external_sender: Some(b), ..old(self)@ })
                    &&& op == OP_DAVE_MLS_KEY_PACKAGE ==> e is MlsKeyPackage
                        && final(self)@ == (DaveModel { key_packages: old(self)@.key_packages.push(b), ..old(self)@ })
                    &&& op == OP_DAVE_MLS_PROPOSALS ==> e is MlsProposals
                        && final(self)@ == (DaveModel { proposals: old(self)@.proposals.push(b), ..old(self)@ })
                    &&& op == OP_DAVE_MLS_COMMIT_WELCOME ==> e is MlsCommitWelcome
                        && final(self)@ == (DaveModel { commit_welcome: Some(b), ..old(self)@ })
                },
                None => r is None && final(self)@ == old(self)@,
            },
            !(op == OP_DAVE_PREPARE_TRANSITION || op == OP_DAVE_EXECUTE_TRANSITION
                || (OP_DAVE_MLS_EXTERNAL_SENDER <= op <= OP_DAVE_MLS_COMMIT_WELCOME)) ==> r is None && final(self)@ == old(self)@,
    {
        if op == OP_DAVE_PREPARE_TRANSITION {
            let transition_id = match get_u64(d, "transition_id") {
                Some(t) => t,
                None => return None,
            };
            let protocol_version = match get_u64(d, "protocol_version") {
                Some(v) => v,
                None => 1,
            };
            self.prepare_transition(transition_id, protocol_version);
            proof {
                assert(payloads(self.key_packages) =~= Seq::<Seq<u8>>::empty());
                assert(payloads(self.proposals) =~= Seq::<Seq<u8>>::empty());
            }
            return Some(DaveEvent::PrepareTransition { transition_id, protocol_version });
        }
        if op == OP_DAVE_EXECUTE_TRANSITION {
            let transition_id = match get_u64(d, "transition_id") {
                Some(t) => t,
                None => return None,
            };
            self.execute_transition(transition_id);
            return Some(DaveEvent::ExecuteTransition { transition_id });
        }
        if op == OP_DAVE_MLS_EXTERNAL_SENDER {
            let bytes = match decode_payload_bytes(d) {
                Some(b) => b,
                None => return None,
            };
            self.set_external_sender(bytes.clone());
            return Some(DaveEvent::MlsExternalSender { bytes });
        }
        if op == OP_DAVE_MLS_KEY_PACKAGE {
            let bytes = match decode_payload_bytes(d) {
                Some(b) => b,
                None => return None,
            };
            self.add_key_package(bytes.clone());
            return Some(DaveEvent::MlsKeyPackage { bytes });
        }
        if op == OP_DAVE_MLS_PROPOSALS {
            let bytes = match decode_payload_bytes(d) {
                Some(b) => b,
                None => return None,
            };
            self.add_proposals(bytes.clone());
            return Some(DaveEvent::MlsProposals { bytes });
        }
        if op == OP_DAVE_MLS_COMMIT_WELCOME {
            let bytes = match decode_payload_bytes(d) {
                Some(b) => b,
                None => return None,
            };
            self.set_commit_welcome(bytes.clone());
            return Some(DaveEvent::MlsCommitWelcome { bytes });
        }
        None
    }
}

/// Preparing a transition clears the MLS state of the previous epoch and
/// keeps the external sender; executing it then makes DAVE active in the
/// transition's epoch with the prepared protocol version.
pub proof fn lemma_prepare_then_execute(s: DaveModel, transition_id: u64, protocol_version: u64, epoch: u64, d1: JsonValue, d2: JsonValue)
    requires
        field_u64(d1, "transition_id"@) == Some(transition_id),
        field_u64(d1, "protocol_version"@) == Some(protocol_version),
        field_u64(d2, "transition_id"@) == Some(epoch),
    ensures
        ({
            let (_, prepared) = apply_spec(s, OP_DAVE_PREPARE_TRANSITION, d1)->0;
            let (_, active) = apply_spec(prepared, OP_DAVE_EXECUTE_TRANSITION, d2)->0;
            &&& prepared.key_packages.len() == 0
            &&& prepared.proposals.len() == 0
            &&& prepared.commit_welcome is None
            &&& prepared.external_sender == s.external_sender
            &&& active.phase == (DavePhase::Active { epoch, protocol_version })
            &&& active.external_sender == s.external_sender
        }),
{
}

} // verus!
