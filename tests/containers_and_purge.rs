use tynkerbase_agent::docker_utils::{
    build_image_args, cli_result, delete_container_args, delete_image_args, end_daemon_args,
    engine_status_args, list_container_stats_args, list_containers_args, list_images_args,
    parse_engine_status, pause_container_args, start_container_args, start_daemon_args,
};
use tynkerbase_agent::proj_utils::ProjError;
use tynkerbase_agent::purge::{already_absent, PurgeCoordinator, PurgeStep};

fn strs(v: &[&str]) -> Vec<String> {
    v.iter().map(|s| s.to_string()).collect()
}

#[test]
fn daemon_commands() {
    assert_eq!(start_daemon_args(), strs(&["systemctl", "start", "docker"]));
    assert_eq!(end_daemon_args(), strs(&["service", "docker", "stop"]));
    assert_eq!(engine_status_args(), strs(&["systemctl", "status", "docker"]));
}

#[test]
fn image_commands() {
    assert_eq!(build_image_args("web__tyb_image"), strs(&["docker", "build", "-t", "web__tyb_image", "."]));
    assert_eq!(delete_image_args("web__tyb_image"), strs(&["docker", "rmi", "-f", "web__tyb_image"]));
    assert_eq!(list_images_args(), strs(&["docker", "images"]));
}

#[test]
fn container_commands() {
    assert_eq!(pause_container_args("c"), strs(&["docker", "stop", "c"]));
    assert_eq!(delete_container_args("c"), strs(&["docker", "rm", "-f", "c"]));
    assert_eq!(
        list_containers_args(),
        strs(&[
            "docker",
            "ps",
            "-a",
            "--format",
            "table {{.ID}}|||{{.Image}}|||{{.Command}}|||{{.CreatedAt}}|||{{.Status}}|||{{.Ports}}|||{{.Names}}",
        ])
    );
    assert_eq!(
        list_container_stats_args(),
        strs(&[
            "docker",
            "stats",
            "--no-stream",
            "--format",
            "table {{.ID}}|||{{.Container}}|||{{.CPUPerc}}|||{{.MemUsage}}|||{{.MemPerc}}|||{{.NetIO}}|||{{.BlockIO}}|||{{.PIDs}}",
        ])
    );
}

#[test]
fn run_command_with_mappings() {
    let ports = vec![[8080u16, 80u16], [0, 65535]];
    let volumes = vec![["/data".to_string(), "/srv".to_string()]];
    let args = start_container_args("web__tyb_image", "web__tyb_container", &ports, &volumes);
    assert_eq!(
        args,
        strs(&[
            "docker",
            "run",
            "-d",
            "--name",
            "web__tyb_container",
            "-p",
            "8080:80",
            "-p",
            "0:65535",
            "-v",
            "/data:/srv",
            "web__tyb_image",
        ])
    );
}

#[test]
fn run_command_without_mappings() {
    let args = start_container_args("i", "c", &vec![], &vec![]);
    assert_eq!(args, strs(&["docker", "run", "-d", "--name", "c", "i"]));
}

#[test]
fn cli_outcomes() {
    assert!(cli_result(true, Some("warning".to_string())).is_ok());
    assert_eq!(cli_result(false, Some("Error: boom".to_string())), Err("Error: boom".to_string()));
    assert_eq!(cli_result(false, None), Err("Unable to extract stderr".to_string()));
}

#[test]
fn engine_status_active() {
    let out = "● docker.service - Docker\n     Loaded: loaded\n     Active: active (running) since Mon\n";
    assert_eq!(parse_engine_status(out), Ok(true));
}

#[test]
fn engine_status_inactive() {
    let out = "     Active: inactive (dead)\n";
    assert_eq!(parse_engine_status(out), Ok(false));
}

#[test]
fn engine_status_unreadable() {
    let msg = "Error parsing `systemctl status docker` output".to_string();
    assert_eq!(parse_engine_status("Active: failed (Result: x)"), Err(msg.clone()));
    assert_eq!(parse_engine_status("no status here"), Err(msg.clone()));
    assert_eq!(parse_engine_status("Active: active"), Err(msg));
}

#[test]
fn absence_markers() {
    assert!(already_absent("Error response from daemon: No such container: ghost__tyb_container"));
    assert!(already_absent("Error: No such image: ghost__tyb_image"));
    assert!(!already_absent("permission denied"));
    assert!(!already_absent(""));
}

fn run_pass(
    p: &mut PurgeCoordinator,
    c: Result<(), String>,
    i: Result<(), String>,
) {
    match p.next_step() {
        PurgeStep::RunPass { container, image } => {
            let co = if container { Some(c) } else { None };
            let io = if image { Some(i) } else { None };
            p.record_pass(co, io);
        }
        _ => panic!("expected a pass"),
    }
}

#[test]
fn purge_of_nonexistent_project() {
    let mut p = PurgeCoordinator::new(None);
    assert!(matches!(p.next_step(), PurgeStep::RunPass { container: true, image: true }));
    run_pass(
        &mut p,
        Err("Error response from daemon: No such container: ghost__tyb_container".to_string()),
        Err("Error response from daemon: No such image: ghost__tyb_image:latest".to_string()),
    );
    assert!(matches!(p.next_step(), PurgeStep::DeleteProject));
    let r = PurgeCoordinator::finish(Err(ProjError::DoesNotExist));
    assert_eq!((r.status, r.body.as_str()), (200, "success"));
}

#[test]
fn purge_twice_succeeds_twice() {
    let mut first = PurgeCoordinator::new(None);
    run_pass(&mut first, Ok(()), Ok(()));
    assert!(matches!(first.next_step(), PurgeStep::DeleteProject));
    let r = PurgeCoordinator::finish(Ok(()));
    assert_eq!((r.status, r.body.as_str()), (200, "success"));

    let mut second = PurgeCoordinator::new(None);
    run_pass(
        &mut second,
        Err("No such container: web__tyb_container".to_string()),
        Err("No such image: web__tyb_image".to_string()),
    );
    assert!(matches!(second.next_step(), PurgeStep::DeleteProject));
    let r = PurgeCoordinator::finish(Err(ProjError::DoesNotExist));
    assert_eq!((r.status, r.body.as_str()), (200, "success"));
}

#[test]
fn purge_retries_only_what_failed() {
    let mut p = PurgeCoordinator::new(Some(3));
    run_pass(&mut p, Ok(()), Err("daemon busy".to_string()));
    assert!(matches!(p.next_step(), PurgeStep::RunPass { container: false, image: true }));
    run_pass(&mut p, Ok(()), Ok(()));
    assert!(matches!(p.next_step(), PurgeStep::DeleteProject));
}

#[test]
fn purge_gives_up_after_retries() {
    let mut p = PurgeCoordinator::new(Some(2));
    run_pass(&mut p, Err("c1".to_string()), Err("i1".to_string()));
    run_pass(&mut p, Err("c2".to_string()), Ok(()));
    match p.next_step() {
        PurgeStep::Fail(r) => {
            assert_eq!(r.status, 500);
            assert_eq!(r.body, "Failed to delete images and/or containers -> Error -> c2");
        }
        _ => panic!("expected failure"),
    }
}

#[test]
fn purge_failure_lists_both_errors() {
    let mut p = PurgeCoordinator::new(Some(1));
    run_pass(&mut p, Err("c1".to_string()), Err("i1".to_string()));
    match p.next_step() {
        PurgeStep::Fail(r) => {
            assert_eq!(r.body, "Failed to delete images and/or containers -> Error -> c1\nError -> i1");
        }
        _ => panic!("expected failure"),
    }
}

#[test]
fn purge_with_zero_retries_fails_at_once() {
    let p = PurgeCoordinator::new(Some(0));
    match p.next_step() {
        PurgeStep::Fail(r) => assert_eq!(
            r.body,
            "Failed to delete images and/or containers -> Error -> unknown error deleting container\nError -> unknown error deleting image"
        ),
        _ => panic!("expected failure"),
    }
}

#[test]
fn purge_directory_error_is_500() {
    let r = PurgeCoordinator::finish(Err(ProjError::Io("busy".to_string())));
    assert_eq!((r.status, r.body.as_str()), (500, "Failed to delete project files -> busy"));
}
