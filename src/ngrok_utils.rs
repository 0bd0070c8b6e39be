//! The tunnel manager: makes sure the tunnel service's auth token is in
//! place, starts the tunnel, discovers its public URL and publishes the
//! node record. The manager decides; the caller performs each action and
//! hands back what came of it.

use vstd::prelude::*;
use crate::consts::SERVER_ENDPOINT;
use crate::diagnostics::{trim, trim_spec};
use crate::text::{contains, has_sub, split_once, split_once_spec};

verus! {

/// Polls of the tunnel's local API before discovery gives up.
pub const URL_POLLS: u32 = 10;

/// Marks the public URL in the tunnel's local API reply.
pub const PUBLIC_URL_KEY: &'static str = "\"public_url\":\"";

/// Ends the public URL in the tunnel's local API reply.
pub const PUBLIC_URL_END: &'static str = "\",\"";

/// The public URL in a reply of the tunnel's local API: the value after the
/// first `"public_url":"`, up to the next `","`.
pub open spec fn public_url_spec(body: Seq<char>) -> Option<Seq<char>> {
    match split_once_spec(body, PUBLIC_URL_KEY@) {
        Some((_, rest)) => match split_once_spec(rest, PUBLIC_URL_END@) {
            Some((url, _)) => Some(url),
            None => None,
        },
        None => None,
    }
}

/// Reads the public URL out of a reply of the tunnel's local API.
pub fn parse_public_url(body: &str) -> (r: Option<String>)
    ensures
        match public_url_spec(body@) {
            Some(u) => r matches Some(s) && s@ == u,
            None => r is None,
        },
{
    match split_once(body, PUBLIC_URL_KEY) {
        Some((_, rest)) => match split_once(rest, PUBLIC_URL_END) {
            Some((url, _)) => Some(String::from_str(url)),
            None => None,
        },
        None => None,
    }
}

/// Marks a token line in the tunnel's local config file.
pub const AUTHTOKEN_KEY: &'static str = "authtoken:";

/// The config file that `ngrok config check` names: everything from its
/// first `/` on, without surrounding whitespace.
pub open spec fn config_path_spec(check_output: Seq<char>) -> Option<Seq<char>> {
    match split_once_spec(check_output, "/"@) {
        Some((_, rest)) => Some(trim_spec("/"@ + rest)),
        None => None,
    }
}

/// Reads the config file path out of the output of `ngrok config check`.
pub fn config_path(check_output: &str) -> (r: Option<String>)
    ensures
        match config_path_spec(check_output@) {
            Some(p) => r matches Some(s) && s@ == p,
            None => r is None,
        },
{
    match split_once(check_output, "/") {
        Some((_, rest)) => {
            let full = String::from_str("/").concat(rest);
            Some(String::from_str(trim(full.as_str())))
        },
        None => None,
    }
}

/// Whether the tunnel's local config file already holds an auth token.
pub fn config_has_token(contents: &str) -> (r: bool)
    ensures
        r == has_sub(contents@, AUTHTOKEN_KEY@),
{
    contains(contents, AUTHTOKEN_KEY)
}

/// `<server><path>?email=<email>&pass_sha256=<hash>`.
pub open spec fn auth_url_spec(path: Seq<char>, email: Seq<char>, pass_sha256: Seq<char>) -> Seq<
    char,
> {
    SERVER_ENDPOINT@ + path + "?email="@ + email + "&pass_sha256="@ + pass_sha256
}

/// A control-plane URL that carries the caller's credentials.
pub fn auth_url(path: &str, email: &str, pass_sha256: &str) -> (r: String)
    ensures
        r@ == auth_url_spec(path@, email@, pass_sha256@),
{
    String::from_str(SERVER_ENDPOINT).concat(path).concat("?email=").concat(email).concat(
        "&pass_sha256=",
    ).concat(pass_sha256)
}

/// Where the tunnel manager stands.
pub enum TunnelPhase {
    /// Not known whether the local tunnel config holds a token.
    Unknown,
    /// Asking the control plane for the stored token.
    FetchRemote,
    /// Asking the user for a token.
    Prompt,
    /// Writing `token` into the local config; store it remotely after when
    /// `store` is set.
    Attach { token: String, store: bool },
    /// Saving the token (encrypted) on the control plane.
    Store,
    /// Waiting for the tunnel's public URL, with this many polls left.
    Polling { polls_left: u32 },
    /// Posting the node record that carries `url`.
    Publish { url: String },
    /// The node is reachable at `url`.
    Public { url: String },
    /// Bootstrap stops.
    Failed,
}

/// What came of the last action.
pub enum TunnelEvent {
    /// Whether the local tunnel config already holds a token.
    LocalConfig { has_token: bool },
    /// The stored token, when it was fetched and decrypted.
    Fetched(Option<String>),
    /// The token that the user typed.
    Entered(String),
    /// Whether `ngrok config add-authtoken` succeeded.
    Attached { ok: bool },
    /// Whether the control plane stored the token.
    Stored { ok: bool },
    /// The body of the tunnel API's reply, when the request got one.
    Polled(Option<String>),
    /// Whether the control plane accepted the node record.
    Published { ok: bool },
}

/// What the caller does next.
pub enum TunnelAction {
    FetchToken,
    PromptToken,
    AttachToken(String),
    StoreToken,
    /// Start the tunnel process, wait a tenth of the timeout, then poll.
    SpawnAndPoll,
    /// Wait a tenth of the timeout, then poll again.
    Poll,
    Publish(String),
    /// The tunnel is up at this URL: go on with bootstrap.
    Done(String),
    /// Stop bootstrap with this exit status.
    Exit(u8),
}

/// The public URL that a poll found, if any.
pub open spec fn polled_url(body: Option<String>) -> Option<Seq<char>> {
    match body {
        Some(b) => public_url_spec(b@),
        None => None,
    }
}

/// The transition table of the tunnel manager: from `phase`, on `event`,
/// the manager moves to `next` and asks for `action`. A token already in
/// the local config skips to the tunnel; a fetched token is attached; else
/// the user is asked, and the token is attached and then stored. A failed
/// attach and a discovery that runs out of polls are fatal; a failed store
/// and a rejected node record are not. An event that the phase did not ask
/// for stops bootstrap.
pub open spec fn tunnel_spec(
    phase: TunnelPhase,
    event: TunnelEvent,
    next: TunnelPhase,
    action: TunnelAction,
) -> bool {
    match (phase, event) {
        (TunnelPhase::Unknown, TunnelEvent::LocalConfig { has_token }) => if has_token {
            next == (TunnelPhase::Polling { polls_left: URL_POLLS }) && action
                == TunnelAction::SpawnAndPoll
        } else {
            next == TunnelPhase::FetchRemote && action == TunnelAction::FetchToken
        },
        (TunnelPhase::FetchRemote, TunnelEvent::Fetched(t)) => match t {
            Some(tok) => next == (TunnelPhase::Attach { token: tok, store: false }) && (
            action matches TunnelAction::AttachToken(a) && a@ == tok@),
            None => next == TunnelPhase::Prompt && action == TunnelAction::PromptToken,
        },
        (TunnelPhase::Prompt, TunnelEvent::Entered(tok)) => next == (TunnelPhase::Attach {
            token: tok,
            store: true,
        }) && (action matches TunnelAction::AttachToken(a) && a@ == tok@),
        (TunnelPhase::Attach { token, store }, TunnelEvent::Attached { ok }) => if !ok {
            next == TunnelPhase::Failed && action == TunnelAction::Exit(1)
        } else if store {
            next == TunnelPhase::Store && action == TunnelAction::StoreToken
        } else {
            next == (TunnelPhase::Polling { polls_left: URL_POLLS }) && action
                == TunnelAction::SpawnAndPoll
        },
        (TunnelPhase::Store, TunnelEvent::Stored { ok }) => next == (TunnelPhase::Polling {
            polls_left: URL_POLLS,
        }) && action == TunnelAction::SpawnAndPoll,
        (TunnelPhase::Polling { polls_left }, TunnelEvent::Polled(body)) => match polled_url(body) {
            Some(u) => (next matches TunnelPhase::Publish { url } && url@ == u) && (
            action matches TunnelAction::Publish(a) && a@ == u),
            None => if polls_left > 1 {
                next == (TunnelPhase::Polling { polls_left: (polls_left - 1) as u32 }) && action
                    == TunnelAction::Poll
            } else {
                next == TunnelPhase::Failed && action == TunnelAction::Exit(1)
            },
        },
        (TunnelPhase::Publish { url }, TunnelEvent::Published { ok }) => (
        next matches TunnelPhase::Public { url: u } && u@ == url@) && (
        action matches TunnelAction::Done(a) && a@ == url@),
        _ => next == TunnelPhase::Failed && action == TunnelAction::Exit(1),
    }
}

/// The first phase: the local config has not been looked at yet.
pub fn tunnel_start() -> (r: TunnelPhase)
    ensures
        r == TunnelPhase::Unknown,
{
    TunnelPhase::Unknown
}

/// One move of the tunnel manager.
pub fn tunnel_step(phase: TunnelPhase, event: TunnelEvent) -> (r: (TunnelPhase, TunnelAction))
    ensures
        tunnel_spec(phase, event, r.0, r.1),
{
    match (phase, event) {
        (TunnelPhase::Unknown, TunnelEvent::LocalConfig { has_token }) => if has_token {
            (TunnelPhase::Polling { polls_left: URL_POLLS }, TunnelAction::SpawnAndPoll)
        } else {
            (TunnelPhase::FetchRemote, TunnelAction::FetchToken)
        },
        (TunnelPhase::FetchRemote, TunnelEvent::Fetched(t)) => match t {
            Some(tok) => {
                let a = tok.clone();
                (TunnelPhase::Attach { token: tok, store: false }, TunnelAction::AttachToken(a))
            },
            None => (TunnelPhase::Prompt, TunnelAction::PromptToken),
        },
        (TunnelPhase::Prompt, TunnelEvent::Entered(tok)) => {
            let a = tok.clone();
            (TunnelPhase::Attach { token: tok, store: true }, TunnelAction::AttachToken(a))
        },
        (TunnelPhase::Attach { token, store }, TunnelEvent::Attached { ok }) => if !ok {
            (TunnelPhase::Failed, TunnelAction::Exit(1))
        } else if store {
            (TunnelPhase::Store, TunnelAction::StoreToken)
        } else {
            (TunnelPhase::Polling { polls_left: URL_POLLS }, TunnelAction::SpawnAndPoll)
        },
        (TunnelPhase::Store, TunnelEvent::Stored { ok }) => (
            TunnelPhase::Polling { polls_left: URL_POLLS },
            TunnelAction::SpawnAndPoll,
        ),
        (TunnelPhase::Polling { polls_left }, TunnelEvent::Polled(body)) => {
            let url = match &body {
                Some(b) => parse_public_url(b.as_str()),
                None => None,
            };
            match url {
                Some(u) => {
                    let a = u.clone();
                    (TunnelPhase::Publish { url: u }, TunnelAction::Publish(a))
                },
                None => if polls_left > 1 {
                    (TunnelPhase::Polling { polls_left: polls_left - 1 }, TunnelAction::Poll)
                } else {
                    (TunnelPhase::Failed, TunnelAction::Exit(1))
                },
            }
        },
        (TunnelPhase::Publish { url }, TunnelEvent::Published { ok }) => {
            let a = url.clone();
            (TunnelPhase::Public { url }, TunnelAction::Done(a))
        },
        _ => (TunnelPhase::Failed, TunnelAction::Exit(1)),
    }
}

/// Only discovery and attach are fatal: once a public URL is found the
/// node goes public whatever the control plane says of the node record,
/// and polls that keep finding no URL end bootstrap with status 1 once the
/// last one is spent.
pub proof fn lemma_tunnel_failure_only_at_discovery(
    url: String,
    ok: bool,
    next: TunnelPhase,
    action: TunnelAction,
)
    ensures
        tunnel_spec(TunnelPhase::Publish { url }, TunnelEvent::Published { ok }, next, action) ==> (
        next matches TunnelPhase::Public { url: u } && u@ == url@) && (
        action matches TunnelAction::Done(a) && a@ == url@),
        tunnel_spec(
            TunnelPhase::Polling { polls_left: 1 },
            TunnelEvent::Polled(None),
            next,
            action,
        ) ==> action == TunnelAction::Exit(1),
        tunnel_spec(TunnelPhase::Store, TunnelEvent::Stored { ok }, next, action) ==> next == (
        TunnelPhase::Polling { polls_left: URL_POLLS }),
{
}

/// A poll that finds no URL spends one poll, and the last one ends
/// bootstrap with status 1: discovery gives up after `URL_POLLS` polls
/// without a URL.
pub proof fn lemma_discovery_gives_up(
    polls_left: u32,
    body: Option<String>,
    next: TunnelPhase,
    action: TunnelAction,
)
    requires
        1 <= polls_left,
        polled_url(body) is None,
        tunnel_spec(TunnelPhase::Polling { polls_left }, TunnelEvent::Polled(body), next, action),
    ensures
        polls_left > 1 ==> next == (TunnelPhase::Polling { polls_left: (polls_left - 1) as u32 })
            && action == TunnelAction::Poll,
        polls_left == 1 ==> next == TunnelPhase::Failed && action == TunnelAction::Exit(1),
{
}

} // verus!
