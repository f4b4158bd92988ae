//! Choosing the backend: the liveness probe with its retry policy, and the
//! steps that lead from the stored or entered address to one that answers.

use crate::error::SyncError;
use crate::protocol::{
    alive, health_request, health_request_of, is_alive, Reply, ReplyView, Request, RequestView,
};
use url::Url;
use vstd::prelude::*;
use vstd::string::{StringExecFns, StringSliceAdditionalSpecFns};
use vstd::utf8::{
    decode_utf8, encode_utf8, encode_utf8_decode_utf8, encode_utf8_valid_utf8,
    is_char_boundary_iff_not_is_continuation_byte, is_char_boundary_start_end_of_seq,
    is_continuation_byte,
};

verus! {

/// How often a backend address is probed, and how long to wait in between.
#[derive(Debug, Clone, Copy, PartialEq, Eq, Structural)]
pub struct RetryPolicy {
    /// Probes sent before an address is given up.
    pub max_attempts: u32,
    /// Seconds to wait before every probe but the first.
    pub delay_seconds: u64,
}

/// What follows one probe.
#[derive(Debug, Clone, Copy, PartialEq, Eq, Structural)]
pub enum Probe {
    /// The backend answered 200: the address is usable.
    Alive,
    /// Wait, then probe again.
    Retry { wait_seconds: u64 },
    /// Every attempt failed: the address is invalid.
    Unreachable,
}

/// Whether `Url::parse` accepts this text as an absolute URL.
pub uninterp spec fn parses_as_url(text: Seq<char>) -> bool;

/// `Url::parse`, for its verdict alone.
#[verifier::external_body]
fn url_parses(text: &str) -> (ok: bool)
    ensures
        ok == parses_as_url(text@),
{
    Url::parse(text).is_ok()
}

impl RetryPolicy {
    /// Three attempts, one second apart.
    pub fn standard() -> (policy: RetryPolicy)
        ensures
            policy == (RetryPolicy { max_attempts: 3, delay_seconds: 1 }),
    {
        RetryPolicy { max_attempts: 3, delay_seconds: 1 }
    }

    /// What follows the probe number `attempt`, counted from 1, that came
    /// back with `reply`.
    pub open spec fn after(self, attempt: u32, reply: ReplyView) -> Probe {
        if is_alive(reply) {
            Probe::Alive
        } else if attempt < self.max_attempts {
            Probe::Retry { wait_seconds: self.delay_seconds }
        } else {
            Probe::Unreachable
        }
    }
}

/// Decides what follows the probe number `attempt`, counted from 1: a 200
/// ends the probing at once; any other outcome leads to another probe after
/// the policy's delay, until the policy's attempts are used up.
pub fn check_health(policy: &RetryPolicy, attempt: u32, reply: &Reply) -> (probe: Probe)
    ensures
        probe == policy.after(attempt, reply@),
{
    if alive(reply) {
        Probe::Alive
    } else if attempt < policy.max_attempts {
        Probe::Retry { wait_seconds: policy.delay_seconds }
    } else {
        Probe::Unreachable
    }
}

/// Where the choice of the backend address stands.
#[derive(Debug, Clone)]
pub enum UrlState {
    /// The stored address has not been read yet.
    Start,
    /// The probe number `attempt` of `url` is in flight.
    Probing { url: String, attempt: u32 },
    /// The user is asked for an address.
    Asking,
    /// `url` answered: it is the backend address.
    Configured { url: String },
}

/// What happened outside.
#[derive(Debug, Clone)]
pub enum UrlEvent {
    /// The settings store was read; it held this address, or none.
    Stored(Option<String>),
    /// The probe in flight came back.
    Probed(Reply),
    /// The user entered this text.
    Entered(String),
}

/// Why the user is asked for an address.
#[derive(Debug, Clone)]
pub enum Complaint {
    /// No address is stored.
    Missing,
    /// The text entered is no URL.
    Invalid,
    /// The address did not answer.
    Unreachable { url: String },
}

impl Complaint {
    /// The failure that a complaint stands for; none where no address was
    /// stored, which is no failure.
    pub open spec fn failure(self) -> Option<SyncError> {
        match self {
            Complaint::Missing => None,
            Complaint::Invalid => Some(SyncError::InvalidBackendUrl),
            Complaint::Unreachable { .. } => Some(SyncError::UnreachableBackend),
        }
    }

    /// The failure that this complaint stands for.
    pub fn error(&self) -> (error: Option<SyncError>)
        ensures
            error == self.failure(),
    {
        match self {
            Complaint::Missing => None,
            Complaint::Invalid => Some(SyncError::InvalidBackendUrl),
            Complaint::Unreachable { .. } => Some(SyncError::UnreachableBackend),
        }
    }
}

/// What to do next outside.
#[derive(Debug, Clone)]
pub enum UrlAction {
    /// Store `url` if `save` is set, wait `wait_seconds`, then send `request`.
    Probe { request: Request, wait_seconds: u64, save: bool },
    /// Tell the user the complaint and ask for an address.
    Ask { complaint: Complaint },
    /// Use this address.
    Accept { url: String },
    /// The event is none that the state waits for: do nothing.
    Ignore,
}

/// The mathematical value of a `UrlState`.
pub enum UrlStateView {
    Start,
    Probing { url: Seq<char>, attempt: u32 },
    Asking,
    Configured { url: Seq<char> },
}

/// The mathematical value of a `UrlEvent`.
pub enum UrlEventView {
    Stored(Option<Seq<char>>),
    Probed(ReplyView),
    Entered(Seq<char>),
}

/// The mathematical value of a `Complaint`.
pub enum ComplaintView {
    Missing,
    Invalid,
    Unreachable { url: Seq<char> },
}

/// The mathematical value of a `UrlAction`.
pub enum UrlActionView {
    Probe { request: RequestView, wait_seconds: u64, save: bool },
    Ask { complaint: ComplaintView },
    Accept { url: Seq<char> },
    Ignore,
}

impl View for UrlState {
    type V = UrlStateView;

    open spec fn view(&self) -> UrlStateView {
        match self {
            UrlState::Start => UrlStateView::Start,
            UrlState::Probing { url, attempt } => UrlStateView::Probing {
                url: url@,
                attempt: *attempt,
            },
            UrlState::Asking => UrlStateView::Asking,
            UrlState::Configured { url } => UrlStateView::Configured { url: url@ },
        }
    }
}

impl View for UrlEvent {
    type V = UrlEventView;

    open spec fn view(&self) -> UrlEventView {
        match self {
            UrlEvent::Stored(stored) => UrlEventView::Stored(
                match stored {
                    Some(url) => Some(url@),
                    None => None,
                },
            ),
            UrlEvent::Probed(reply) => UrlEventView::Probed(reply@),
            UrlEvent::Entered(text) => UrlEventView::Entered(text@),
        }
    }
}

impl View for Complaint {
    type V = ComplaintView;

    open spec fn view(&self) -> ComplaintView {
        match self {
            Complaint::Missing => ComplaintView::Missing,
            Complaint::Invalid => ComplaintView::Invalid,
            Complaint::Unreachable { url } => ComplaintView::Unreachable { url: url@ },
        }
    }
}

impl View for UrlAction {
    type V = UrlActionView;

    open spec fn view(&self) -> UrlActionView {
        match self {
            UrlAction::Probe { request, wait_seconds, save } => UrlActionView::Probe {
                request: request@,
                wait_seconds: *wait_seconds,
                save: *save,
            },
            UrlAction::Ask { complaint } => UrlActionView::Ask { complaint: complaint@ },
            UrlAction::Accept { url } => UrlActionView::Accept { url: url@ },
            UrlAction::Ignore => UrlActionView::Ignore,
        }
    }
}

/// The first probe of `url`, sent at once.
pub open spec fn first_probe(url: Seq<char>, save: bool) -> (UrlStateView, UrlActionView) {
    (
        UrlStateView::Probing { url, attempt: 1 },
        UrlActionView::Probe { request: health_request_of(url), wait_seconds: 0, save },
    )
}

/// The step that `get_backend_url` takes.
///
/// - At the start, a stored address is probed; without one the user is asked.
/// - A probe that finds the backend alive settles the address. One that does
///   not is repeated after the policy's delay while attempts are left; then
///   the address is unreachable and the user is asked for another.
/// - Text that the user entered is stored and probed if it is a URL; if it is
///   none, the user is asked again.
/// - Any other event is ignored.
pub open spec fn url_step(
    policy: RetryPolicy,
    state: UrlStateView,
    event: UrlEventView,
    entered_is_url: bool,
) -> (UrlStateView, UrlActionView) {
    match (state, event) {
        (UrlStateView::Start, UrlEventView::Stored(Some(url))) => first_probe(url, false),
        (UrlStateView::Start, UrlEventView::Stored(None)) => (
            UrlStateView::Asking,
            UrlActionView::Ask { complaint: ComplaintView::Missing },
        ),
        (UrlStateView::Probing { url, attempt }, UrlEventView::Probed(reply)) => match policy.after(
            attempt,
            reply,
        ) {
            Probe::Alive => (UrlStateView::Configured { url }, UrlActionView::Accept { url }),
            Probe::Retry { wait_seconds } => (
                UrlStateView::Probing { url, attempt: (attempt + 1) as u32 },
                UrlActionView::Probe { request: health_request_of(url), wait_seconds, save: false },
            ),
            Probe::Unreachable => (
                UrlStateView::Asking,
                UrlActionView::Ask { complaint: ComplaintView::Unreachable { url } },
            ),
        },
        (UrlStateView::Asking, UrlEventView::Entered(text)) => if entered_is_url {
            first_probe(text, true)
        } else {
            (UrlStateView::Asking, UrlActionView::Ask { complaint: ComplaintView::Invalid })
        },
        _ => (state, UrlActionView::Ignore),
    }
}

/// Takes one step towards a backend address that answers, given the verdict
/// on the text that the user entered.
pub fn next_url_step(
    policy: &RetryPolicy,
    state: UrlState,
    event: UrlEvent,
    entered_is_url: bool,
) -> (r: (UrlState, UrlAction))
    ensures
        (r.0@, r.1@) == url_step(*policy, state@, event@, entered_is_url),
{
    match (state, event) {
        (UrlState::Start, UrlEvent::Stored(Some(url))) => {
            let request = health_request(url.as_str());
            (
                UrlState::Probing { url, attempt: 1 },
                UrlAction::Probe { request, wait_seconds: 0, save: false },
            )
        },
        (UrlState::Start, UrlEvent::Stored(None)) => (
            UrlState::Asking,
            UrlAction::Ask { complaint: Complaint::Missing },
        ),
        (UrlState::Probing { url, attempt }, UrlEvent::Probed(reply)) => {
            match check_health(policy, attempt, &reply) {
                Probe::Alive => {
                    let accepted = url.clone();
                    (UrlState::Configured { url }, UrlAction::Accept { url: accepted })
                },
                Probe::Retry { wait_seconds } => {
                    let request = health_request(url.as_str());
                    (
                        UrlState::Probing { url, attempt: attempt + 1 },
                        UrlAction::Probe { request, wait_seconds, save: false },
                    )
                },
                Probe::Unreachable => (
                    UrlState::Asking,
                    UrlAction::Ask { complaint: Complaint::Unreachable { url } },
                ),
            }
        },
        (UrlState::Asking, UrlEvent::Entered(text)) => {
            if entered_is_url {
                let request = health_request(text.as_str());
                (
                    UrlState::Probing { url: text, attempt: 1 },
                    UrlAction::Probe { request, wait_seconds: 0, save: true },
                )
            } else {
                (UrlState::Asking, UrlAction::Ask { complaint: Complaint::Invalid })
            }
        },
        (state, _) => (state, UrlAction::Ignore),
    }
}

/// The byte of a `/` in UTF-8. No other character holds it.
pub const SLASH: u8 = 0x2f;

/// The bytes without the slashes at their end.
pub open spec fn without_trailing_slashes(bytes: Seq<u8>) -> Seq<u8>
    decreases bytes.len(),
{
    if bytes.len() > 0 && bytes.last() == SLASH {
        without_trailing_slashes(bytes.drop_last())
    } else {
        bytes
    }
}

/// The text without the slashes at its end, so that a path can be put behind it.
pub open spec fn trimmed(text: Seq<char>) -> Seq<char> {
    decode_utf8(without_trailing_slashes(encode_utf8(text)))
}

/// Bytes that end in slashes from `k` on lose exactly those, and more if
/// slashes stand before `k` too.
proof fn lemma_trailing_slashes(bytes: Seq<u8>, k: int)
    requires
        0 <= k <= bytes.len(),
        forall|i: int| k <= i < bytes.len() ==> bytes[i] == SLASH,
    ensures
        without_trailing_slashes(bytes) == without_trailing_slashes(bytes.subrange(0, k)),
    decreases bytes.len() - k,
{
    if k < bytes.len() {
        assert(bytes.last() == SLASH);
        let shorter = bytes.drop_last();
        lemma_trailing_slashes(shorter, k);
        assert(shorter.subrange(0, k) =~= bytes.subrange(0, k));
    } else {
        assert(bytes.subrange(0, k) =~= bytes);
    }
}

/// A slash is never a continuation byte of UTF-8.
proof fn lemma_slash_starts_a_character(byte: u8)
    requires
        byte == SLASH,
    ensures
        !is_continuation_byte(byte),
{
    assert(byte == 0x2f ==> byte & 0xC0 != 0x80) by (bit_vector);
}

/// Cuts the slashes off the end of an address.
pub fn trim_url(text: &str) -> (url: &str)
    ensures
        url@ == trimmed(text@),
        url.spec_bytes() == without_trailing_slashes(text.spec_bytes()),
{
    let bytes = text.as_bytes();
    let mut k: usize = bytes.len();
    while k > 0 && bytes[k - 1] == SLASH
        invariant
            k <= bytes@.len(),
            bytes@ == text.spec_bytes(),
            forall|i: int| k <= i < bytes@.len() ==> bytes@[i] == SLASH,
        decreases k,
    {
        k -= 1;
    }
    proof {
        let all = text.spec_bytes();
        encode_utf8_valid_utf8(text@);
        if k < all.len() {
            lemma_slash_starts_a_character(all[k as int]);
            is_char_boundary_iff_not_is_continuation_byte(all, k as int);
        } else {
            is_char_boundary_start_end_of_seq(all);
        }
        lemma_trailing_slashes(all, k as int);
        assert(without_trailing_slashes(all.subrange(0, k as int)) == all.subrange(0, k as int));
    }
    let (url, _) = text.split_at(k);
    proof {
        encode_utf8_decode_utf8(url@);
    }
    url
}

/// The event as the steps take it: text that the user entered loses the
/// slashes at its end.
pub open spec fn normalized(event: UrlEventView) -> UrlEventView {
    match event {
        UrlEventView::Entered(text) => UrlEventView::Entered(trimmed(text)),
        _ => event,
    }
}

/// Whether the text that an event carries from the user is, without the
/// slashes at its end, a URL; `false` for every other event.
pub open spec fn entered_url(event: UrlEventView) -> bool {
    event matches UrlEventView::Entered(text) && parses_as_url(trimmed(text))
}

/// Takes one step towards a backend address that answers: the stored
/// address first, then whatever the user enters, each probed under the
/// policy before it is accepted. What the user enters is taken without the
/// slashes at its end.
pub fn get_backend_url(policy: &RetryPolicy, state: UrlState, event: UrlEvent) -> (r: (
    UrlState,
    UrlAction,
))
    ensures
        (r.0@, r.1@) == url_step(*policy, state@, normalized(event@), entered_url(event@)),
{
    match event {
        UrlEvent::Entered(text) => {
            let url = trim_url(text.as_str());
            let entered_is_url = url_parses(url);
            next_url_step(policy, state, UrlEvent::Entered(String::from_str(url)), entered_is_url)
        },
        other => next_url_step(policy, state, other, false),
    }
}

} // verus!
