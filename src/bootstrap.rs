//! The bootstrap sequence: login, identity, TLS material, container
//! runtime, tunnel, then serving. The sequencer decides; the caller does
//! the work that each action names and reports back.

use vstd::prelude::*;
use crate::global_state::GlobalState;
use crate::handlers::{host_supported, login_step, LoginStep};
use crate::identity::NodeIdentity;

verus! {

/// Where bootstrap stands.
#[derive(PartialEq, Eq, Structural, Clone, Copy)]
pub enum BootPhase {
    /// Waiting for the control plane's answer to the login.
    Login,
    /// Waiting for the API key derived from the login salt.
    Key,
    /// Waiting for the node identity.
    Identity,
    /// Waiting for the TLS material.
    Tls,
    /// Waiting for the container runtime.
    Docker,
    /// Waiting for the tunnel.
    Tunnel,
    /// Serving, or stopped.
    Finished,
}

/// What came of the last action.
pub enum BootEvent {
    /// The status of the login reply, and the credentials it was sent with.
    LoginReply { status: u16, email: String, pass_sha256: String, pass_sha384: String },
    KeyDerived(String),
    IdentityReady(NodeIdentity),
    /// The TLS material is in place.
    TlsReady,
    /// The container runtime is installed.
    DockerReady,
    /// The tunnel is up and the node published.
    TunnelUp,
}

/// What the caller does next.
pub enum BootAction {
    /// Ask for the credentials and send the login request.
    Login,
    /// Derive the API key from the salt in the login reply.
    DeriveKey,
    /// Load or create the node identity.
    LoadIdentity,
    /// Make sure the TLS material exists.
    EnsureTls,
    /// Make sure the container runtime is installed.
    EnsureDocker,
    /// Bring the tunnel up and publish the node.
    GoPublic,
    /// Bind the listener and serve with this session.
    Serve(GlobalState),
    /// Stop with this exit status.
    Exit(u8),
}

/// Model of the sequencer.
pub struct BootView {
    pub phase: BootPhase,
    pub private: bool,
    pub email: Seq<char>,
    pub pass_sha256: Seq<char>,
    pub pass_sha384: Seq<char>,
    pub tyb_apikey: Option<Seq<char>>,
    pub identity: Option<(Seq<char>, Seq<char>)>,
}

/// Sequences bootstrap.
pub struct Bootstrap {
    phase: BootPhase,
    private: bool,
    email: String,
    pass_sha256: String,
    pass_sha384: String,
    tyb_apikey: Option<String>,
    identity: Option<NodeIdentity>,
}

/// The session that bootstrap hands to the server carries exactly what
/// bootstrap gathered.
pub open spec fn session_of(v: BootView, s: GlobalState) -> bool {
    &&& s.populated()
    &&& v.tyb_apikey is Some && s.tyb_apikey.unwrap()@ == v.tyb_apikey.unwrap()
    &&& v.identity is Some && s.node_id.unwrap()@ == v.identity.unwrap().0
    &&& s.name.unwrap()@ == v.identity.unwrap().1
    &&& s.email.unwrap()@ == v.email
    &&& s.pass_sha256.unwrap()@ == v.pass_sha256
    &&& s.pass_sha384.unwrap()@ == v.pass_sha384
}

/// Once past the identity step, the key and the identity are known.
pub open spec fn boot_wf(v: BootView) -> bool {
    &&& v.phase == BootPhase::Identity ==> v.tyb_apikey is Some
    &&& (v.phase == BootPhase::Tls || v.phase == BootPhase::Docker || v.phase == BootPhase::Tunnel)
        ==> v.tyb_apikey is Some && v.identity is Some
}

/// One move of the sequencer: from `v`, on `e`, to `w` with `a`. Each step
/// happens in its phase only; anything else stops bootstrap with status 1.
pub open spec fn boot_spec(v: BootView, e: BootEvent, w: BootView, a: BootAction) -> bool {
    let stop = w == BootView { phase: BootPhase::Finished, ..v } && a == BootAction::Exit(1);
    match e {
        BootEvent::LoginReply { status, email, pass_sha256, pass_sha384 } => if v.phase
            == BootPhase::Login {
            if status == 403 {
                w == BootView { phase: BootPhase::Finished, ..v } && a == BootAction::Exit(0)
            } else if 200 <= status < 300 {
                w == BootView {
                    phase: BootPhase::Key,
                    email: email@,
                    pass_sha256: pass_sha256@,
                    pass_sha384: pass_sha384@,
                    ..v
                } && a == BootAction::DeriveKey
            } else {
                stop
            }
        } else {
            stop
        },
        BootEvent::KeyDerived(k) => if v.phase == BootPhase::Key {
            w == BootView { phase: BootPhase::Identity, tyb_apikey: Some(k@), ..v } && a
                == BootAction::LoadIdentity
        } else {
            stop
        },
        BootEvent::IdentityReady(id) => if v.phase == BootPhase::Identity {
            w == BootView {
                phase: BootPhase::Tls,
                identity: Some((id.node_id@, id.name@)),
                ..v
            } && a == BootAction::EnsureTls
        } else {
            stop
        },
        BootEvent::TlsReady => if v.phase == BootPhase::Tls {
            w == BootView { phase: BootPhase::Docker, ..v } && a == BootAction::EnsureDocker
        } else {
            stop
        },
        BootEvent::DockerReady => if v.phase == BootPhase::Docker {
            if v.private {
                w == BootView { phase: BootPhase::Finished, ..v } && (a matches BootAction::Serve(
                    s,
                ) && session_of(v, s))
            } else {
                w == BootView { phase: BootPhase::Tunnel, ..v } && a == BootAction::GoPublic
            }
        } else {
            stop
        },
        BootEvent::TunnelUp => if v.phase == BootPhase::Tunnel {
            w == BootView { phase: BootPhase::Finished, ..v } && (a matches BootAction::Serve(s)
                && session_of(v, s))
        } else {
            stop
        },
    }
}

impl Bootstrap {
    pub closed spec fn view(&self) -> BootView {
        BootView {
            phase: self.phase,
            private: self.private,
            email: self.email@,
            pass_sha256: self.pass_sha256@,
            pass_sha384: self.pass_sha384@,
            tyb_apikey: match self.tyb_apikey {
                Some(k) => Some(k@),
                None => None,
            },
            identity: match self.identity {
                Some(i) => Some((i.node_id@, i.name@)),
                None => None,
            },
        }
    }

    /// Starts bootstrap. A release build on a host other than Linux stops at
    /// once with status 0; `private` serves without the tunnel.
    pub fn start(is_linux: bool, debug: bool, private: bool) -> (r: (Bootstrap, BootAction))
        ensures
            r.0.view() == (BootView {
                phase: if is_linux || debug {
                    BootPhase::Login
                } else {
                    BootPhase::Finished
                },
                private,
                email: seq![],
                pass_sha256: seq![],
                pass_sha384: seq![],
                tyb_apikey: None,
                identity: None,
            }),
            r.1 == (if is_linux || debug {
                BootAction::Login
            } else {
                BootAction::Exit(0)
            }),
            boot_wf(r.0.view()),
    {
        let ok = host_supported(is_linux, debug);
        let b = Bootstrap {
            phase: if ok {
                BootPhase::Login
            } else {
                BootPhase::Finished
            },
            private,
            email: String::new(),
            pass_sha256: String::new(),
            pass_sha384: String::new(),
            tyb_apikey: None,
            identity: None,
        };
        (b, if ok {
            BootAction::Login
        } else {
            BootAction::Exit(0)
        })
    }

    fn stop(&mut self, code: u8) -> (a: BootAction)
        ensures
            final(self).view() == (BootView { phase: BootPhase::Finished, ..old(self).view() }),
            a == BootAction::Exit(code),
    {
        self.phase = BootPhase::Finished;
        BootAction::Exit(code)
    }

    fn session(&self) -> (s: GlobalState)
        requires
            self.view().tyb_apikey is Some,
            self.view().identity is Some,
        ensures
            session_of(self.view(), s),
    {
        let id = self.identity.as_ref().unwrap();
        let key = self.tyb_apikey.as_ref().unwrap();
        GlobalState::establish(
            id.node_id.clone(),
            id.name.clone(),
            self.email.clone(),
            self.pass_sha256.clone(),
            self.pass_sha384.clone(),
            key.clone(),
        )
    }

    /// Takes in what came of the last action and names the next one.
    pub fn step(&mut self, event: BootEvent) -> (a: BootAction)
        requires
            boot_wf(old(self).view()),
        ensures
            boot_spec(old(self).view(), event, final(self).view(), a),
            boot_wf(final(self).view()),
    {
        match event {
            BootEvent::LoginReply { status, email, pass_sha256, pass_sha384 } => {
                if self.phase != BootPhase::Login {
                    return self.stop(1);
                }
                match login_step(status) {
                    LoginStep::UseSalt => {
                        self.email = email;
                        self.pass_sha256 = pass_sha256;
                        self.pass_sha384 = pass_sha384;
                        self.phase = BootPhase::Key;
                        BootAction::DeriveKey
                    },
                    LoginStep::Exit(code) => self.stop(code),
                }
            },
            BootEvent::KeyDerived(k) => {
                if self.phase != BootPhase::Key {
                    return self.stop(1);
                }
                self.tyb_apikey = Some(k);
                self.phase = BootPhase::Identity;
                BootAction::LoadIdentity
            },
            BootEvent::IdentityReady(id) => {
                if self.phase != BootPhase::Identity {
                    return self.stop(1);
                }
                self.identity = Some(id);
                self.phase = BootPhase::Tls;
                BootAction::EnsureTls
            },
            BootEvent::TlsReady => {
                if self.phase != BootPhase::Tls {
                    return self.stop(1);
                }
                self.phase = BootPhase::Docker;
                BootAction::EnsureDocker
            },
            BootEvent::DockerReady => {
                if self.phase != BootPhase::Docker {
                    return self.stop(1);
                }
                if self.private {
                    let s = self.session();
                    self.phase = BootPhase::Finished;
                    BootAction::Serve(s)
                } else {
                    self.phase = BootPhase::Tunnel;
                    BootAction::GoPublic
                }
            },
            BootEvent::TunnelUp => {
                if self.phase != BootPhase::Tunnel {
                    return self.stop(1);
                }
                let s = self.session();
                self.phase = BootPhase::Finished;
                BootAction::Serve(s)
            },
        }
    }
}

/// The listener is bound only once bootstrap is complete: the one step
/// that asks to serve comes after the runtime check on a private node or
/// after the tunnel otherwise, and the session it carries has every field
/// populated with what bootstrap gathered.
pub proof fn lemma_serve_only_populated(v: BootView, e: BootEvent, w: BootView, a: BootAction)
    requires
        boot_spec(v, e, w, a),
        a is Serve,
    ensures
        (v.phase == BootPhase::Docker && v.private) || v.phase == BootPhase::Tunnel,
        a matches BootAction::Serve(s) && s.populated() && session_of(v, s),
{
}

} // verus!
