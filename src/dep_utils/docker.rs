//! Installing the container runtime.

use vstd::prelude::*;
use super::{words, PackageManager};

verus! {

/// The install command of the container runtime for each manager.
pub open spec fn docker_install_spec(pm: PackageManager) -> Seq<Seq<char>> {
    match pm {
        PackageManager::AptGet => seq!["apt-get"@, "install"@, "-y"@, "docker.io"@],
        PackageManager::Yum => seq!["yum"@, "install"@, "-y"@, "docker"@],
        PackageManager::Dnf => seq!["dnf"@, "install"@, "-y"@, "docker"@],
        PackageManager::Pacman => seq!["pacman"@, "-Syu"@, "--noconfirm"@, "docker"@],
    }
}

/// The command that installs the container runtime with `pm`.
pub fn get_install_command(pm: PackageManager) -> (r: Vec<&'static str>)
    ensures
        words(r@) =~= docker_install_spec(pm),
{
    match pm {
        PackageManager::AptGet => vec!["apt-get", "install", "-y", "docker.io"],
        PackageManager::Yum => vec!["yum", "install", "-y", "docker"],
        PackageManager::Dnf => vec!["dnf", "install", "-y", "docker"],
        PackageManager::Pacman => vec!["pacman", "-Syu", "--noconfirm", "docker"],
    }
}

/// The commands run, in order, to install the container runtime: with
/// `apt-get` the package lists are refreshed first; each runs under `sudo`.
pub fn install_commands(pm: PackageManager) -> (r: Vec<Vec<&'static str>>)
    ensures
        pm == PackageManager::AptGet ==> r@.len() == 2 && words(r@[0]@) =~= seq![
            "sudo"@,
            "apt-get"@,
            "update"@,
            "-y"@,
        ] && words(r@[1]@) =~= seq!["sudo"@] + docker_install_spec(pm),
        pm != PackageManager::AptGet ==> r@.len() == 1 && words(r@[0]@) =~= seq!["sudo"@]
            + docker_install_spec(pm),
{
    let mut install = vec!["sudo"];
    let cmd = get_install_command(pm);
    let mut i: usize = 0;
    while i < cmd.len()
        invariant
            i <= cmd@.len(),
            words(cmd@) =~= docker_install_spec(pm),
            words(install@) =~= seq!["sudo"@] + words(cmd@).subrange(0, i as int),
        decreases cmd@.len() - i,
    {
        let ghost before = install@;
        install.push(cmd[i]);
        assert(words(install@) =~= words(before).push(cmd@[i as int]@));
        assert(words(cmd@).subrange(0, i + 1) =~= words(cmd@).subrange(0, i as int).push(
            cmd@[i as int]@,
        ));
        i = i + 1;
    }
    assert(words(cmd@).subrange(0, cmd@.len() as int) =~= words(cmd@));
    if pm == PackageManager::AptGet {
        vec![vec!["sudo", "apt-get", "update", "-y"], install]
    } else {
        vec![install]
    }
}

} // verus!
