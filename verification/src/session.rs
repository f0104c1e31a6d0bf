//! The run as a state machine.
//!
//! The orchestration is strict: load credentials, exchange them for a
//! token, fetch the profile, fetch the spaces, in that order, and any
//! failure aborts the run at once. The machine decides; the surrounding
//! program only performs what [`pending_request`] asks and hands the
//! outcome back as an [`Event`].

use vstd::prelude::*;
use crate::credentials::{extract_credentials, key_prefix_len, secret_prefix_len};
use crate::decode::{spec_token, spec_me_envelope, spec_spaces_envelope, spec_success,
    interpret_sign_in, interpret_me, interpret_spaces};
use crate::error::ApiError;
use crate::json::JsonValue;
use crate::records::{Me, MeView, Space, SpaceView};
use crate::request::{HttpRequest, RequestView, spec_sign_in_request, spec_me_request,
    spec_spaces_request, sign_in_request, me_request, spaces_request};

verus! {

/// Where the run stands: what it still needs, or how it ended.
#[derive(Debug)]
pub enum Phase {
    /// The credential file has not been read yet.
    NeedCredentials,
    /// Credentials are in hand; the sign-in exchange is pending.
    NeedToken { api_key: String, api_secret: String },
    /// Signed in; the profile fetch is pending.
    NeedProfile { token: String },
    /// Profile fetched; the spaces fetch is pending.
    NeedSpaces { token: String, me: Me },
    /// Everything was fetched.
    Complete { me: Me, spaces: Vec<Space> },
    /// A step failed; the run is over and nothing downstream runs.
    Failed { error: ApiError },
}

#[verifier::ext_equal]
pub enum PhaseView {
    NeedCredentials,
    NeedToken { api_key: Seq<char>, api_secret: Seq<char> },
    NeedProfile { token: Seq<char> },
    NeedSpaces { token: Seq<char>, me: MeView },
    Complete { me: MeView, spaces: Seq<SpaceView> },
    Failed { error: ApiError },
}

impl View for Phase {
    type V = PhaseView;

    open spec fn view(&self) -> PhaseView {
        match *self {
            Phase::NeedCredentials => PhaseView::NeedCredentials,
            Phase::NeedToken { api_key, api_secret } => PhaseView::NeedToken {
                api_key: api_key@,
                api_secret: api_secret@,
            },
            Phase::NeedProfile { token } => PhaseView::NeedProfile { token: token@ },
            Phase::NeedSpaces { token, me } => PhaseView::NeedSpaces { token: token@, me: me@ },
            Phase::Complete { me, spaces } => PhaseView::Complete {
                me: me@,
                spaces: spaces@.map_values(|s: Space| s@),
            },
            Phase::Failed { error } => PhaseView::Failed { error },
        }
    }
}

/// What the world reported back for the step the run was waiting on.
#[derive(Debug)]
pub enum Event {
    /// The credential file's first two lines.
    CredentialLines { line1: String, line2: String },
    /// The credential file is missing or unreadable.
    FileUnreadable,
    /// The pending request could not be sent, or timed out.
    Transport,
    /// The pending request got an answer: its status, and its body as
    /// JSON where the body parsed as JSON at all.
    Response { status: u16, body: Option<JsonValue> },
}

#[verifier::ext_equal]
pub enum EventView {
    CredentialLines { line1: Seq<char>, line2: Seq<char> },
    FileUnreadable,
    Transport,
    Response { status: u16, body: Option<JsonValue> },
}

impl View for Event {
    type V = EventView;

    open spec fn view(&self) -> EventView {
        match *self {
            Event::CredentialLines { line1, line2 } => EventView::CredentialLines {
                line1: line1@,
                line2: line2@,
            },
            Event::FileUnreadable => EventView::FileUnreadable,
            Event::Transport => EventView::Transport,
            Event::Response { status, body } => EventView::Response { status, body },
        }
    }
}

/// The transition table: from where the run stands and what the world
/// reported, to where it stands next. An event that does not answer
/// the pending step leaves the run where it was; a completed or failed
/// run never moves again.
pub open spec fn spec_advance(p: PhaseView, e: EventView) -> PhaseView {
    match p {
        PhaseView::NeedCredentials => match e {
            EventView::CredentialLines { line1, line2 } => {
                if line1.len() >= key_prefix_len() && line2.len() >= secret_prefix_len() {
                    PhaseView::NeedToken {
                        api_key: line1.skip(key_prefix_len()),
                        api_secret: line2.skip(secret_prefix_len()),
                    }
                } else {
                    PhaseView::Failed { error: ApiError::FileAccess }
                }
            },
            EventView::FileUnreadable => PhaseView::Failed { error: ApiError::FileAccess },
            _ => p,
        },
        PhaseView::NeedToken { .. } => match e {
            EventView::Transport => PhaseView::Failed { error: ApiError::Network },
            EventView::Response { status, body } => {
                if !spec_success(status) {
                    PhaseView::Failed { error: ApiError::Authentication }
                } else {
                    match body {
                        Some(v) => match spec_token(v) {
                            Some(t) => PhaseView::NeedProfile { token: t },
                            None => PhaseView::Failed { error: ApiError::Decode },
                        },
                        None => PhaseView::Failed { error: ApiError::Decode },
                    }
                }
            },
            _ => p,
        },
        PhaseView::NeedProfile { token } => match e {
            EventView::Transport => PhaseView::Failed { error: ApiError::Network },
            EventView::Response { status, body } => {
                if !spec_success(status) {
                    PhaseView::Failed { error: ApiError::Authorization }
                } else {
                    match body {
                        Some(v) => match spec_me_envelope(v) {
                            Some(m) => PhaseView::NeedSpaces { token, me: m },
                            None => PhaseView::Failed { error: ApiError::Decode },
                        },
                        None => PhaseView::Failed { error: ApiError::Decode },
                    }
                }
            },
            _ => p,
        },
        PhaseView::NeedSpaces { token, me } => match e {
            EventView::Transport => PhaseView::Failed { error: ApiError::Network },
            EventView::Response { status, body } => {
                if !spec_success(status) {
                    PhaseView::Failed { error: ApiError::Authorization }
                } else {
                    match body {
                        Some(v) => match spec_spaces_envelope(v) {
                            Some(s) => PhaseView::Complete { me, spaces: s },
                            None => PhaseView::Failed { error: ApiError::Decode },
                        },
                        None => PhaseView::Failed { error: ApiError::Decode },
                    }
                }
            },
            _ => p,
        },
        PhaseView::Complete { .. } => p,
        PhaseView::Failed { .. } => p,
    }
}

/// The request the run is waiting to send, if any: none while the
/// credential file is pending, and none once the run has completed or
/// failed.
pub open spec fn spec_pending(p: PhaseView) -> Option<RequestView> {
    match p {
        PhaseView::NeedCredentials => None,
        PhaseView::NeedToken { api_key, api_secret } => Some(spec_sign_in_request(api_key,
            api_secret)),
        PhaseView::NeedProfile { token } => Some(spec_me_request(token)),
        PhaseView::NeedSpaces { token, .. } => Some(spec_spaces_request(token)),
        PhaseView::Complete { .. } => None,
        PhaseView::Failed { .. } => None,
    }
}

/// Moves the run one step, exactly as [`spec_advance`] says.
pub fn advance(phase: Phase, event: Event) -> (r: Phase)
    ensures
        r@ == spec_advance(phase@, event@),
{
    match phase {
        Phase::NeedCredentials => match event {
            Event::CredentialLines { line1, line2 } => {
                if line1.as_str().unicode_len() >= 4 && line2.as_str().unicode_len() >= 7 {
                    let c = extract_credentials(line1.as_str(), line2.as_str());
                    Phase::NeedToken { api_key: c.api_key, api_secret: c.api_secret }
                } else {
                    Phase::Failed { error: ApiError::FileAccess }
                }
            },
            Event::FileUnreadable => Phase::Failed { error: ApiError::FileAccess },
            _ => Phase::NeedCredentials,
        },
        Phase::NeedToken { api_key, api_secret } => match event {
            Event::Transport => Phase::Failed { error: ApiError::Network },
            Event::Response { status, body } => match interpret_sign_in(status, body.as_ref()) {
                Ok(token) => Phase::NeedProfile { token },
                Err(e) => Phase::Failed { error: e },
            },
            _ => Phase::NeedToken { api_key, api_secret },
        },
        Phase::NeedProfile { token } => match event {
            Event::Transport => Phase::Failed { error: ApiError::Network },
            Event::Response { status, body } => match interpret_me(status, body.as_ref()) {
                Ok(me) => Phase::NeedSpaces { token, me },
                Err(e) => Phase::Failed { error: e },
            },
            _ => Phase::NeedProfile { token },
        },
        Phase::NeedSpaces { token, me } => match event {
            Event::Transport => Phase::Failed { error: ApiError::Network },
            Event::Response { status, body } => match interpret_spaces(status, body.as_ref()) {
                Ok(spaces) => Phase::Complete { me, spaces },
                Err(e) => Phase::Failed { error: e },
            },
            _ => Phase::NeedSpaces { token, me },
        },
        Phase::Complete { me, spaces } => Phase::Complete { me, spaces },
        Phase::Failed { error } => Phase::Failed { error },
    }
}

/// Builds the request the run is waiting to send, exactly as
/// [`spec_pending`] says.
pub fn pending_request(phase: &Phase) -> (r: Option<HttpRequest>)
    ensures
        match r {
            Some(req) => spec_pending(phase@) == Some(req@),
            None => spec_pending(phase@) is None,
        },
{
    match phase {
        Phase::NeedCredentials => None,
        Phase::NeedToken { api_key, api_secret } => Some(sign_in_request(api_key.as_str(),
            api_secret.as_str())),
        Phase::NeedProfile { token } => Some(me_request(token.as_str())),
        Phase::NeedSpaces { token, .. } => Some(spaces_request(token.as_str())),
        Phase::Complete { .. } => None,
        Phase::Failed { .. } => None,
    }
}

/// Every request the session issues carries the `Authorization` header
/// as its step demands: the sign-in request carries none, each
/// authorized fetch carries `Bearer <token>` for the session's token
/// exactly once (the header is a single optional field), and no other
/// step sends anything.
pub proof fn lemma_bearer_header(p: PhaseView)
    ensures
        match spec_pending(p) {
            Some(req) => match p {
                PhaseView::NeedToken { .. } => req.authorization is None,
                PhaseView::NeedProfile { token } => req.authorization
                    == Some(crate::request::spec_bearer(token)),
                PhaseView::NeedSpaces { token, .. } => req.authorization
                    == Some(crate::request::spec_bearer(token)),
                _ => false,
            },
            None => p matches PhaseView::NeedCredentials || p matches PhaseView::Complete { .. }
                || p matches PhaseView::Failed { .. },
        },
{
}

/// After a sign-in response that succeeds with token `t`, the next
/// request the session issues is the profile fetch, authorized with
/// exactly `Bearer t`.
pub proof fn lemma_sign_in_token_flows(p: PhaseView, status: u16, body: Option<JsonValue>)
    requires
        p matches PhaseView::NeedToken { .. },
        spec_success(status),
        body is Some,
        spec_token(body.unwrap()) is Some,
    ensures
        spec_advance(p, EventView::Response { status, body }) == (PhaseView::NeedProfile {
            token: spec_token(body.unwrap()).unwrap(),
        }),
        spec_pending(spec_advance(p, EventView::Response { status, body }))
            == Some(spec_me_request(spec_token(body.unwrap()).unwrap())),
{
}

/// A sign-in rejected by the server (any non-success status) fails the
/// run with an authentication error, and the failed run pends no
/// further request: no profile or spaces fetch ever follows.
pub proof fn lemma_sign_in_rejection_halts(p: PhaseView, status: u16, body: Option<JsonValue>)
    requires
        p matches PhaseView::NeedToken { .. },
        !spec_success(status),
    ensures
        spec_advance(p, EventView::Response { status, body }) == (PhaseView::Failed {
            error: ApiError::Authentication,
        }),
        spec_pending(spec_advance(p, EventView::Response { status, body })) is None,
{
}

/// A completed or failed run is terminal: no event moves it, and it
/// pends no request, so any failure aborts everything downstream.
pub proof fn lemma_terminal_states(p: PhaseView, e: EventView)
    requires
        p matches PhaseView::Complete { .. } || p matches PhaseView::Failed { .. },
    ensures
        spec_advance(p, e) == p,
        spec_pending(p) is None,
{
}

} // verus!
