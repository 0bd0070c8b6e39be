use tynkerbase_agent::auth::{ApiKey, FORBIDDEN, TYB_APIKEY_HTTP_HEADER};
use tynkerbase_agent::consts::{
    container_name, get_proj_path, image_name, join_path, projects_root, AGENT_PORT,
};
use tynkerbase_agent::global_state::GlobalState;
use tynkerbase_agent::handlers::{
    create_proj_reply, daemon_status_reply, delete_proj_reply, handle_404, host_supported,
    login_step, needs_compression, text_reply, unit_reply, LoginStep,
};
use tynkerbase_agent::proj_utils::ProjError;

fn session() -> GlobalState {
    GlobalState::establish(
        "abcdefghijklmnopqrstuvwxyzabcdef".to_string(),
        "edge-1".to_string(),
        "alice@example.com".to_string(),
        "sha256-of-hunter2".to_string(),
        "sha384-of-hunter2".to_string(),
        "derived-key".to_string(),
    )
}

#[test]
fn blank_state_is_not_ready() {
    let s = GlobalState::new();
    assert!(!s.check_status());
    assert!(s.node_id.is_none() && s.tyb_apikey.is_none());
}

#[test]
fn established_state_is_populated() {
    let s = session();
    assert!(s.check_status());
    assert_eq!(s.email.as_deref(), Some("alice@example.com"));
    assert_eq!(s.tyb_apikey.as_deref(), Some("derived-key"));
}

#[test]
fn one_missing_field_fails_status() {
    let mut s = session();
    s.pass_sha384 = None;
    assert!(!s.check_status());
}

#[test]
fn auth_rejects_missing_header() {
    let s = session();
    assert_eq!(ApiKey::from_request(None, &s).err(), Some(403));
    assert_eq!(FORBIDDEN, 403);
    assert_eq!(TYB_APIKEY_HTTP_HEADER, "tyb-api-key");
}

#[test]
fn auth_rejects_wrong_header() {
    let s = session();
    assert_eq!(ApiKey::from_request(Some("derived-kez"), &s).err(), Some(403));
    assert_eq!(ApiKey::from_request(Some("derived-key "), &s).err(), Some(403));
    assert_eq!(ApiKey::from_request(Some(""), &s).err(), Some(403));
}

#[test]
fn auth_accepts_session_key() {
    let s = session();
    let k = ApiKey::from_request(Some("derived-key"), &s).ok().unwrap();
    assert_eq!(k.key(), "derived-key");
}

#[test]
fn auth_rejects_before_bootstrap() {
    let s = GlobalState::new();
    assert_eq!(ApiKey::from_request(Some("anything"), &s).err(), Some(403));
}

#[test]
fn derived_names() {
    assert_eq!(image_name("web"), "web__tyb_image");
    assert_eq!(container_name("web"), "web__tyb_container");
    assert_eq!(join_path("/var/tynkerbase-projects", "web"), "/var/tynkerbase-projects/web");
    assert_eq!(get_proj_path(true), ".");
    assert_eq!(get_proj_path(false), "/usr/share/tynkerbase-agent");
    assert_eq!(projects_root(false), "/var/tynkerbase-projects");
    assert_eq!(projects_root(true), "./tynkerbase-projects");
    assert_eq!(AGENT_PORT, 7462);
}

#[test]
fn create_reply_coalesces_without_confirm() {
    let r = create_proj_reply(Err(ProjError::AlreadyExists), Some(false));
    assert_eq!((r.status, r.body.as_str()), (200, "success"));
    let r = create_proj_reply(Err(ProjError::AlreadyExists), None);
    assert_eq!(r.status, 409);
    assert_eq!(r.body, "Project Already Exists -> Project already exists");
    let r = create_proj_reply(Ok(()), None);
    assert_eq!((r.status, r.body.as_str()), (200, "success"));
    let r = create_proj_reply(Err(ProjError::Io("disk full".to_string())), Some(false));
    assert_eq!((r.status, r.body.as_str()), (500, "disk full"));
}

#[test]
fn delete_reply_coalesces_without_confirm() {
    let r = delete_proj_reply(Err(ProjError::DoesNotExist), Some(false));
    assert_eq!((r.status, r.body.as_str()), (200, "success"));
    let r = delete_proj_reply(Err(ProjError::DoesNotExist), Some(true));
    assert_eq!(r.status, 409);
    assert_eq!(r.body, "Project does not exist -> Project does not exist");
    let r = delete_proj_reply(Err(ProjError::AlreadyExists), None);
    assert_eq!(r.status, 500);
}

#[test]
fn generic_replies() {
    let r = unit_reply(Err("boom".to_string()), "Failed to pause container -> ");
    assert_eq!((r.status, r.body.as_str()), (500, "Failed to pause container -> boom"));
    let r = unit_reply(Ok(()), "x");
    assert_eq!((r.status, r.body.as_str()), (200, "success"));
    let r = text_reply(Ok("IMAGE ID".to_string()), "Error getting images -> ");
    assert_eq!((r.status, r.body.as_str()), (200, "IMAGE ID"));
    let r = text_reply(Err("no daemon".to_string()), "Error getting images -> ");
    assert_eq!((r.status, r.body.as_str()), (500, "Error getting images -> no daemon"));
}

#[test]
fn daemon_status_replies() {
    assert_eq!(daemon_status_reply(Ok(true)).body, "true");
    assert_eq!(daemon_status_reply(Ok(false)).body, "false");
    let r = daemon_status_reply(Err("bad".to_string()));
    assert_eq!((r.status, r.body.as_str()), (500, "Error getting daemon status: bad"));
}

#[test]
fn not_found_reply() {
    let r = handle_404("/nope");
    assert_eq!(r.status, 404);
    assert_eq!(r.body, "404: `/nope` is not a valid path.");
}

#[test]
fn compression_threshold() {
    assert!(!needs_compression(5_000_000));
    assert!(needs_compression(5_000_001));
    assert!(!needs_compression(0));
}

#[test]
fn login_outcomes() {
    assert!(login_step(403) == LoginStep::Exit(0));
    assert!(login_step(500) == LoginStep::Exit(1));
    assert!(login_step(404) == LoginStep::Exit(1));
    assert!(login_step(200) == LoginStep::UseSalt);
    assert!(login_step(204) == LoginStep::UseSalt);
}

#[test]
fn host_guard() {
    assert!(host_supported(true, false));
    assert!(!host_supported(false, false));
    assert!(host_supported(false, true));
}
