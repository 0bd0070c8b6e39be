use tynkerbase_agent::dep_utils::{
    accepts_install, docker, docker_gate, find_package_manager, install_exit_status, openssl,
    tls_gate, DepError, GateStep, PackageManager,
};
use tynkerbase_agent::ngrok_utils::{
    auth_url, parse_public_url, tunnel_start, tunnel_step, TunnelAction, TunnelEvent,
    TunnelPhase, URL_POLLS,
};
use tynkerbase_agent::tls_utils::{
    check_tls_cert, clear_tls_cert, gen_tls_cert, get_cert_paths, keys_dir,
};

const TUNNELS: &str = r#"{"tunnels":[{"name":"command_line","ID":"x","uri":"/api/tunnels/command_line","public_url":"https://ab12.ngrok-free.app","proto":"https"}],"uri":"/api/tunnels"}"#;

#[test]
fn public_url_found() {
    assert_eq!(parse_public_url(TUNNELS).as_deref(), Some("https://ab12.ngrok-free.app"));
}

#[test]
fn public_url_missing() {
    assert_eq!(parse_public_url(r#"{"tunnels":[],"uri":"/api/tunnels"}"#), None);
    assert_eq!(parse_public_url(r#"{"public_url":"https://x"}"#), None);
}

#[test]
fn control_plane_urls() {
    assert_eq!(
        auth_url("/ngrok/get-ng-auth", "alice@example.com", "h"),
        "https://tynkerbase-server.shuttleapp.rs/ngrok/get-ng-auth?email=alice@example.com&pass_sha256=h"
    );
}

#[test]
fn token_already_configured() {
    let (p, a) = tunnel_step(tunnel_start(), TunnelEvent::LocalConfig { has_token: true });
    assert!(matches!(p, TunnelPhase::Polling { polls_left: 10 }));
    assert!(matches!(a, TunnelAction::SpawnAndPoll));
}

#[test]
fn token_fetched_remotely() {
    let (p, a) = tunnel_step(tunnel_start(), TunnelEvent::LocalConfig { has_token: false });
    assert!(matches!(a, TunnelAction::FetchToken));
    let (p, a) = tunnel_step(p, TunnelEvent::Fetched(Some("tok".to_string())));
    assert!(matches!(a, TunnelAction::AttachToken(ref t) if t == "tok"));
    let (p, a) = tunnel_step(p, TunnelEvent::Attached { ok: true });
    assert!(matches!(a, TunnelAction::SpawnAndPoll));
    assert!(matches!(p, TunnelPhase::Polling { .. }));
}

#[test]
fn token_prompted_then_stored() {
    let (p, _) = tunnel_step(TunnelPhase::FetchRemote, TunnelEvent::Fetched(None));
    assert!(matches!(p, TunnelPhase::Prompt));
    let (p, a) = tunnel_step(p, TunnelEvent::Entered("typed".to_string()));
    assert!(matches!(a, TunnelAction::AttachToken(ref t) if t == "typed"));
    let (p, a) = tunnel_step(p, TunnelEvent::Attached { ok: true });
    assert!(matches!(a, TunnelAction::StoreToken));
    let (p, a) = tunnel_step(p, TunnelEvent::Stored { ok: false });
    assert!(matches!(a, TunnelAction::SpawnAndPoll));
    assert!(matches!(p, TunnelPhase::Polling { polls_left: 10 }));
}

#[test]
fn attach_failure_is_fatal() {
    let (_, a) = tunnel_step(
        TunnelPhase::Attach { token: "t".to_string(), store: false },
        TunnelEvent::Attached { ok: false },
    );
    assert!(matches!(a, TunnelAction::Exit(1)));
}

#[test]
fn rejected_publication_is_not_fatal() {
    let (p, a) = tunnel_step(TunnelPhase::Polling { polls_left: 10 }, TunnelEvent::Polled(Some(TUNNELS.to_string())));
    assert!(matches!(a, TunnelAction::Publish(ref u) if u == "https://ab12.ngrok-free.app"));
    let (p, a) = tunnel_step(p, TunnelEvent::Published { ok: false });
    assert!(matches!(a, TunnelAction::Done(ref u) if u == "https://ab12.ngrok-free.app"));
    assert!(matches!(p, TunnelPhase::Public { .. }));
}

#[test]
fn discovery_times_out() {
    let mut phase = TunnelPhase::Polling { polls_left: URL_POLLS };
    let mut polls = 0;
    loop {
        let (p, a) = tunnel_step(phase, TunnelEvent::Polled(None));
        polls += 1;
        match a {
            TunnelAction::Poll => phase = p,
            TunnelAction::Exit(code) => {
                assert_eq!(code, 1);
                break;
            }
            _ => panic!("unexpected action"),
        }
    }
    assert_eq!(polls, 10);
}

#[test]
fn unexpected_event_stops() {
    let (p, a) = tunnel_step(TunnelPhase::Unknown, TunnelEvent::Stored { ok: true });
    assert!(matches!(p, TunnelPhase::Failed));
    assert!(matches!(a, TunnelAction::Exit(1)));
}

#[test]
fn package_manager_choice() {
    assert!(find_package_manager(true, [false, true, true, false]) == Ok(PackageManager::Yum));
    assert!(find_package_manager(true, [true, true, true, true]) == Ok(PackageManager::AptGet));
    assert!(find_package_manager(true, [false, false, false, true]) == Ok(PackageManager::Pacman));
    assert!(find_package_manager(true, [false; 4]) == Err(DepError::NoPackageManager));
    assert!(find_package_manager(false, [true; 4]) == Err(DepError::UnsupportedOs));
    assert_eq!(PackageManager::Dnf.name(), "dnf");
}

#[test]
fn docker_install_commands() {
    assert_eq!(docker::get_install_command(PackageManager::AptGet), vec!["apt-get", "install", "-y", "docker.io"]);
    assert_eq!(docker::get_install_command(PackageManager::Pacman), vec!["pacman", "-Syu", "--noconfirm", "docker"]);
    assert_eq!(
        docker::install_commands(PackageManager::AptGet),
        vec![
            vec!["sudo", "apt-get", "update", "-y"],
            vec!["sudo", "apt-get", "install", "-y", "docker.io"],
        ]
    );
    assert_eq!(docker::install_commands(PackageManager::Dnf), vec![vec!["sudo", "dnf", "install", "-y", "docker"]]);
}

#[test]
fn openssl_install_commands() {
    assert_eq!(openssl::get_install_command(PackageManager::Yum), vec!["yum", "install", "-y", "openssl"]);
    assert_eq!(openssl::get_install_command(PackageManager::Pacman), vec!["pacman", "-S", "--noconfirm", "openssl"]);
}

#[test]
fn gates() {
    assert!(tls_gate(true, false) == GateStep::Ready);
    assert!(tls_gate(false, true) == GateStep::Generate);
    assert!(tls_gate(false, false) == GateStep::AskInstall);
    assert!(docker_gate(true) == GateStep::Ready);
    assert!(docker_gate(false) == GateStep::AskInstall);
    assert!(accepts_install("y") && accepts_install("Y"));
    assert!(!accepts_install("yes") && !accepts_install("n") && !accepts_install(""));
    assert_eq!(install_exit_status(false, false), 0);
    assert_eq!(install_exit_status(true, true), 0);
    assert_eq!(install_exit_status(true, false), 1);
}

#[test]
fn tls_paths() {
    assert!(check_tls_cert(true, true, true));
    assert!(!check_tls_cert(true, false, true));
    assert!(!check_tls_cert(false, true, true));
    assert_eq!(keys_dir("."), "./keys");
    let [cert, key] = get_cert_paths("/usr/share/tynkerbase-agent");
    assert_eq!(cert, "/usr/share/tynkerbase-agent/keys/tls-cert.pem");
    assert_eq!(key, "/usr/share/tynkerbase-agent/keys/tls-key.pem");
}

#[test]
fn tls_clear_plan() {
    let plan = clear_tls_cert(".", false, [true, true, true]);
    assert!(plan.create_keys_dir && plan.remove.is_empty());
    let plan = clear_tls_cert(".", true, [true, false, true]);
    assert!(!plan.create_keys_dir);
    assert_eq!(plan.remove, vec!["./keys/tls-key.pem".to_string(), "./keys/tls-csr.csr".to_string()]);
    let plan = clear_tls_cert(".", true, [false, false, false]);
    assert!(plan.remove.is_empty());
}

#[test]
fn tls_regeneration_leaves_two_files() {
    // Simulate the keys directory across two back-to-back generations.
    let mut files: Vec<String> = vec!["./keys/tls-csr.csr".to_string(), "./keys/other".to_string()];
    for _ in 0..2 {
        let present = [
            files.contains(&"./keys/tls-key.pem".to_string()),
            files.contains(&"./keys/tls-cert.pem".to_string()),
            files.contains(&"./keys/tls-csr.csr".to_string()),
        ];
        let plan = clear_tls_cert(".", true, present);
        files.retain(|f| !plan.remove.contains(f));
        let cmds = gen_tls_cert(".");
        files.push(cmds[0][7].clone());
        files.push(cmds[1][7].clone());
    }
    files.sort();
    assert_eq!(files, vec!["./keys/other", "./keys/tls-cert.pem", "./keys/tls-key.pem"]);
}

#[test]
fn tls_generation_commands() {
    let cmds = gen_tls_cert("/r");
    assert_eq!(cmds[0], vec!["openssl", "ecparam", "-name", "secp256r1", "-genkey", "-noout", "-out", "/r/keys/tls-key.pem"]);
    assert_eq!(
        cmds[1],
        vec!["openssl", "req", "-x509", "-new", "-key", "/r/keys/tls-key.pem", "-out", "/r/keys/tls-cert.pem", "-days", "36500"]
    );
}
