use tynkerbase_agent::bootstrap::{BootAction, BootEvent, Bootstrap};
use tynkerbase_agent::identity::NodeIdentity;

fn login(status: u16) -> BootEvent {
    BootEvent::LoginReply {
        status,
        email: "alice@example.com".to_string(),
        pass_sha256: "h256".to_string(),
        pass_sha384: "h384".to_string(),
    }
}

fn identity() -> BootEvent {
    BootEvent::IdentityReady(NodeIdentity {
        node_id: "abcdefghijklmnopqrstuvwxyzabcdef".to_string(),
        name: "edge-1".to_string(),
    })
}

#[test]
fn public_bootstrap_serves_populated_session() {
    let (mut b, a) = Bootstrap::start(true, false, false);
    assert!(matches!(a, BootAction::Login));
    assert!(matches!(b.step(login(200)), BootAction::DeriveKey));
    assert!(matches!(b.step(BootEvent::KeyDerived("key-from-abc".to_string())), BootAction::LoadIdentity));
    assert!(matches!(b.step(identity()), BootAction::EnsureTls));
    assert!(matches!(b.step(BootEvent::TlsReady), BootAction::EnsureDocker));
    assert!(matches!(b.step(BootEvent::DockerReady), BootAction::GoPublic));
    match b.step(BootEvent::TunnelUp) {
        BootAction::Serve(s) => {
            assert!(s.check_status());
            assert_eq!(s.node_id.as_deref(), Some("abcdefghijklmnopqrstuvwxyzabcdef"));
            assert_eq!(s.name.as_deref(), Some("edge-1"));
            assert_eq!(s.email.as_deref(), Some("alice@example.com"));
            assert_eq!(s.pass_sha256.as_deref(), Some("h256"));
            assert_eq!(s.pass_sha384.as_deref(), Some("h384"));
            assert_eq!(s.tyb_apikey.as_deref(), Some("key-from-abc"));
        }
        _ => panic!("expected to serve"),
    }
}

#[test]
fn private_bootstrap_skips_tunnel() {
    let (mut b, _) = Bootstrap::start(true, false, true);
    b.step(login(200));
    b.step(BootEvent::KeyDerived("k".to_string()));
    b.step(identity());
    b.step(BootEvent::TlsReady);
    match b.step(BootEvent::DockerReady) {
        BootAction::Serve(s) => assert!(s.check_status()),
        _ => panic!("expected to serve"),
    }
}

#[test]
fn wrong_password_exits_quietly() {
    let (mut b, _) = Bootstrap::start(true, false, false);
    assert!(matches!(b.step(login(403)), BootAction::Exit(0)));
}

#[test]
fn login_server_error_exits_with_failure() {
    let (mut b, _) = Bootstrap::start(true, false, false);
    assert!(matches!(b.step(login(502)), BootAction::Exit(1)));
}

#[test]
fn unsupported_host_exits_quietly() {
    let (_, a) = Bootstrap::start(false, false, false);
    assert!(matches!(a, BootAction::Exit(0)));
    let (_, a) = Bootstrap::start(false, true, false);
    assert!(matches!(a, BootAction::Login));
}

#[test]
fn out_of_order_event_stops() {
    let (mut b, _) = Bootstrap::start(true, false, false);
    assert!(matches!(b.step(BootEvent::TunnelUp), BootAction::Exit(1)));
    let (mut b, _) = Bootstrap::start(true, false, false);
    b.step(login(200));
    assert!(matches!(b.step(BootEvent::TlsReady), BootAction::Exit(1)));
}
