//! The container-runtime side of the agent: the exact argument vectors of
//! each host CLI call, the parse of the daemon status, and the mapping of a
//! CLI run to a result.

use vstd::prelude::*;
use crate::text::{dec_spec, dec_string, split_once, split_once_spec, same_text};

verus! {

/// Column layout of `docker ps`; consumers split rows on `|||`.
pub const CONTAINERS_FORMAT: &'static str = "table {{.ID}}|||{{.Image}}|||{{.Command}}|||{{.CreatedAt}}|||{{.Status}}|||{{.Ports}}|||{{.Names}}";

/// Column layout of `docker stats`; consumers split rows on `|||`.
pub const STATS_FORMAT: &'static str = "table {{.ID}}|||{{.Container}}|||{{.CPUPerc}}|||{{.MemUsage}}|||{{.MemPerc}}|||{{.NetIO}}|||{{.BlockIO}}|||{{.PIDs}}";

/// Stands in for stderr when it was not valid UTF-8.
pub const NO_STDERR: &'static str = "Unable to extract stderr";

/// Message of a daemon status that could not be read.
pub const STATUS_PARSE_ERROR: &'static str = "Error parsing `systemctl status docker` output";

/// The characters of an argument vector.
pub open spec fn argv_view(v: Seq<String>) -> Seq<Seq<char>> {
    v.map_values(|a: String| a@)
}

fn argv(parts: &[&str]) -> (r: Vec<String>)
    ensures
        r@.len() == parts@.len(),
        forall|i: int| 0 <= i < parts@.len() ==> r@[i]@ == parts@[i]@,
{
    let mut r: Vec<String> = Vec::new();
    let mut i: usize = 0;
    while i < parts.len()
        invariant
            i <= parts@.len(),
            r@.len() == i,
            forall|k: int| 0 <= k < i ==> r@[k]@ == parts@[k]@,
        decreases parts@.len() - i,
    {
        r.push(String::from_str(parts[i]));
        i = i + 1;
    }
    r
}

/// `systemctl start docker`.
pub fn start_daemon_args() -> (r: Vec<String>)
    ensures
        argv_view(r@) =~= seq!["systemctl"@, "start"@, "docker"@],
{
    argv(&["systemctl", "start", "docker"])
}

/// `service docker stop`.
pub fn end_daemon_args() -> (r: Vec<String>)
    ensures
        argv_view(r@) =~= seq!["service"@, "docker"@, "stop"@],
{
    argv(&["service", "docker", "stop"])
}

/// `systemctl status docker`.
pub fn engine_status_args() -> (r: Vec<String>)
    ensures
        argv_view(r@) =~= seq!["systemctl"@, "status"@, "docker"@],
{
    argv(&["systemctl", "status", "docker"])
}

/// `docker build -t <img> .`, run inside the project directory.
pub fn build_image_args(img_name: &str) -> (r: Vec<String>)
    ensures
        argv_view(r@) =~= seq!["docker"@, "build"@, "-t"@, img_name@, "."@],
{
    argv(&["docker", "build", "-t", img_name, "."])
}

/// `docker rmi -f <img>`.
pub fn delete_image_args(img_name: &str) -> (r: Vec<String>)
    ensures
        argv_view(r@) =~= seq!["docker"@, "rmi"@, "-f"@, img_name@],
{
    argv(&["docker", "rmi", "-f", img_name])
}

/// `docker images`.
pub fn list_images_args() -> (r: Vec<String>)
    ensures
        argv_view(r@) =~= seq!["docker"@, "images"@],
{
    argv(&["docker", "images"])
}

/// `docker ps -a --format <layout>`.
pub fn list_containers_args() -> (r: Vec<String>)
    ensures
        argv_view(r@) =~= seq!["docker"@, "ps"@, "-a"@, "--format"@, CONTAINERS_FORMAT@],
{
    argv(&["docker", "ps", "-a", "--format", CONTAINERS_FORMAT])
}

/// `docker stats --no-stream --format <layout>`.
pub fn list_container_stats_args() -> (r: Vec<String>)
    ensures
        argv_view(r@) =~= seq!["docker"@, "stats"@, "--no-stream"@, "--format"@, STATS_FORMAT@],
{
    argv(&["docker", "stats", "--no-stream", "--format", STATS_FORMAT])
}

/// `docker stop <container>`.
pub fn pause_container_args(container_name: &str) -> (r: Vec<String>)
    ensures
        argv_view(r@) =~= seq!["docker"@, "stop"@, container_name@],
{
    argv(&["docker", "stop", container_name])
}

/// `docker rm -f <container>`.
pub fn delete_container_args(container_name: &str) -> (r: Vec<String>)
    ensures
        argv_view(r@) =~= seq!["docker"@, "rm"@, "-f"@, container_name@],
{
    argv(&["docker", "rm", "-f", container_name])
}

/// `HOST:CONT` of one port mapping.
pub open spec fn port_spec(p: [u16; 2]) -> Seq<char> {
    dec_spec(p@[0] as nat) + ":"@ + dec_spec(p@[1] as nat)
}

/// `SRC:DST` of one volume mapping.
pub open spec fn volume_spec(v: [String; 2]) -> Seq<char> {
    v@[0]@ + ":"@ + v@[1]@
}

/// `-p HOST:CONT` for each port mapping, in order.
pub open spec fn port_flags(ports: Seq<[u16; 2]>) -> Seq<Seq<char>>
    decreases ports.len(),
{
    if ports.len() == 0 {
        seq![]
    } else {
        port_flags(ports.drop_last()) + seq!["-p"@, port_spec(ports.last())]
    }
}

/// `-v SRC:DST` for each volume mapping, in order.
pub open spec fn volume_flags(volumes: Seq<[String; 2]>) -> Seq<Seq<char>>
    decreases volumes.len(),
{
    if volumes.len() == 0 {
        seq![]
    } else {
        volume_flags(volumes.drop_last()) + seq!["-v"@, volume_spec(volumes.last())]
    }
}

/// `docker run -d --name <container> [-p HOST:CONT]... [-v SRC:DST]... <img>`.
pub open spec fn run_spec(
    img: Seq<char>,
    container: Seq<char>,
    ports: Seq<[u16; 2]>,
    volumes: Seq<[String; 2]>,
) -> Seq<Seq<char>> {
    seq!["docker"@, "run"@, "-d"@, "--name"@, container] + port_flags(ports) + volume_flags(volumes)
        + seq![img]
}

/// The argument vector that starts a project's container, with its port and
/// volume mappings in the order given.
pub fn start_container_args(
    img_name: &str,
    container_name: &str,
    ports: &Vec<[u16; 2]>,
    volumes: &Vec<[String; 2]>,
) -> (r: Vec<String>)
    ensures
        argv_view(r@) =~= run_spec(img_name@, container_name@, ports@, volumes@),
{
    let mut args = argv(&["docker", "run", "-d", "--name", container_name]);
    let ghost head = argv_view(args@);
    assert(head =~= seq!["docker"@, "run"@, "-d"@, "--name"@, container_name@]);
    let mut i: usize = 0;
    while i < ports.len()
        invariant
            i <= ports@.len(),
            argv_view(args@) =~= head + port_flags(ports@.subrange(0, i as int)),
        decreases ports@.len() - i,
    {
        let p = ports[i];
        let mapping = dec_string(p[0]).concat(":").concat(dec_string(p[1]).as_str());
        let ghost before = args@;
        args.push(String::from_str("-p"));
        args.push(mapping);
        proof {
            reveal_strlit("-p");
            let s = ports@.subrange(0, i + 1);
            assert(s.last() == ports@[i as int]);
            assert(s.drop_last() =~= ports@.subrange(0, i as int));
            assert(mapping@ == port_spec(p));
            assert(argv_view(args@) =~= argv_view(before) + seq!["-p"@, mapping@]);
        }
        i = i + 1;
    }
    assert(ports@.subrange(0, ports@.len() as int) =~= ports@);
    let ghost mid = argv_view(args@);
    let mut j: usize = 0;
    while j < volumes.len()
        invariant
            j <= volumes@.len(),
            argv_view(args@) =~= mid + volume_flags(volumes@.subrange(0, j as int)),
        decreases volumes@.len() - j,
    {
        let v = &volumes[j];
        let mapping = String::from_str(v[0].as_str()).concat(":").concat(v[1].as_str());
        let ghost before = args@;
        args.push(String::from_str("-v"));
        args.push(mapping);
        proof {
            reveal_strlit("-v");
            let s = volumes@.subrange(0, j + 1);
            assert(s.last() == volumes@[j as int]);
            assert(s.drop_last() =~= volumes@.subrange(0, j as int));
            assert(mapping@ == volume_spec(*v));
            assert(argv_view(args@) =~= argv_view(before) + seq!["-v"@, mapping@]);
        }
        j = j + 1;
    }
    assert(volumes@.subrange(0, volumes@.len() as int) =~= volumes@);
    let ghost before = args@;
    args.push(String::from_str(img_name));
    assert(argv_view(args@) =~= argv_view(before) + seq![img_name@]);
    args
}

/// The result of one CLI run: success on a zero exit status, else the
/// captured stderr (or a fixed note when stderr was not text).
pub fn cli_result(success: bool, stderr: Option<String>) -> (r: Result<(), String>)
    ensures
        success ==> r.is_ok(),
        !success ==> (r matches Err(e) && e@ == (match stderr {
            Some(s) => s@,
            None => NO_STDERR@,
        })),
{
    if success {
        Ok(())
    } else {
        match stderr {
            Some(s) => Err(s),
            None => Err(String::from_str(NO_STDERR)),
        }
    }
}

/// The word after `Active: ` in `systemctl status` output, up to the next
/// space.
pub open spec fn status_token(out: Seq<char>) -> Option<Seq<char>> {
    match split_once_spec(out, "Active: "@) {
        Some((_, rest)) => match split_once_spec(rest, " "@) {
            Some((word, _)) => Some(word),
            None => None,
        },
        None => None,
    }
}

/// Whether the daemon runs: `active` is true, `inactive` false, anything
/// else is an error.
pub open spec fn engine_status_spec(out: Seq<char>) -> Option<bool> {
    match status_token(out) {
        Some(w) => if w == "active"@ {
            Some(true)
        } else if w == "inactive"@ {
            Some(false)
        } else {
            None
        },
        None => None,
    }
}

/// Reads the daemon state out of `systemctl status docker` output.
pub fn parse_engine_status(out: &str) -> (r: Result<bool, String>)
    ensures
        match engine_status_spec(out@) {
            Some(b) => r == Ok::<bool, String>(b),
            None => r matches Err(e) && e@ == STATUS_PARSE_ERROR@,
        },
{
    let rest = match split_once(out, "Active: ") {
        Some((_, rest)) => rest,
        None => return Err(String::from_str(STATUS_PARSE_ERROR)),
    };
    let word = match split_once(rest, " ") {
        Some((word, _)) => word,
        None => return Err(String::from_str(STATUS_PARSE_ERROR)),
    };
    if same_text(word, "active") {
        Ok(true)
    } else if same_text(word, "inactive") {
        Ok(false)
    } else {
        Err(String::from_str(STATUS_PARSE_ERROR))
    }
}

} // verus!
