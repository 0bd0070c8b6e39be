//! The dependency gate: which package manager installs what, and what
//! bootstrap does when the container runtime or TLS material is missing.

use vstd::prelude::*;
use crate::text::same_text;

pub mod docker;
pub mod openssl;

verus! {

/// A host package manager that the agent knows how to drive.
#[derive(PartialEq, Eq, Structural, Clone, Copy)]
pub enum PackageManager {
    AptGet,
    Yum,
    Dnf,
    Pacman,
}

/// Why no package manager could be used.
#[derive(PartialEq, Eq, Structural, Clone, Copy)]
pub enum DepError {
    UnsupportedOs,
    NoPackageManager,
}

/// The managers in the order they are looked for.
pub open spec fn manager_at(i: int) -> PackageManager {
    if i == 0 {
        PackageManager::AptGet
    } else if i == 1 {
        PackageManager::Yum
    } else if i == 2 {
        PackageManager::Dnf
    } else {
        PackageManager::Pacman
    }
}

impl PackageManager {
    /// The manager's program name.
    pub fn name(&self) -> (r: &'static str)
        ensures
            r@ == (match self {
                PackageManager::AptGet => "apt-get"@,
                PackageManager::Yum => "yum"@,
                PackageManager::Dnf => "dnf"@,
                PackageManager::Pacman => "pacman"@,
            }),
    {
        match self {
            PackageManager::AptGet => "apt-get",
            PackageManager::Yum => "yum",
            PackageManager::Dnf => "dnf",
            PackageManager::Pacman => "pacman",
        }
    }
}

/// Picks the first of `apt-get`, `yum`, `dnf`, `pacman` that the host has;
/// `found[i]` says whether the `i`-th was found on the path. Only Linux is
/// supported.
pub fn find_package_manager(is_linux: bool, found: [bool; 4]) -> (r: Result<
    PackageManager,
    DepError,
>)
    ensures
        !is_linux ==> r == Err::<PackageManager, DepError>(DepError::UnsupportedOs),
        is_linux && (forall|i: int| 0 <= i < 4 ==> !found@[i]) ==> r == Err::<
            PackageManager,
            DepError,
        >(DepError::NoPackageManager),
        r matches Ok(pm) ==> exists|i: int|
            0 <= i < 4 && found@[i] && pm == manager_at(i) && forall|j: int| 0 <= j < i ==> !found@[j],
        is_linux && (exists|i: int| 0 <= i < 4 && found@[i]) ==> r is Ok,
{
    if !is_linux {
        return Err(DepError::UnsupportedOs);
    }
    if found[0] {
        assert(found@[0] && manager_at(0) == PackageManager::AptGet);
        Ok(PackageManager::AptGet)
    } else if found[1] {
        assert(found@[1] && manager_at(1) == PackageManager::Yum);
        Ok(PackageManager::Yum)
    } else if found[2] {
        assert(found@[2] && manager_at(2) == PackageManager::Dnf);
        Ok(PackageManager::Dnf)
    } else if found[3] {
        assert(found@[3] && manager_at(3) == PackageManager::Pacman);
        Ok(PackageManager::Pacman)
    } else {
        Err(DepError::NoPackageManager)
    }
}

/// How bootstrap proceeds about one dependency.
#[derive(PartialEq, Eq, Structural, Clone, Copy)]
pub enum GateStep {
    /// It is present: go on.
    Ready,
    /// Make it with the tool that is present.
    Generate,
    /// Offer to install what is missing.
    AskInstall,
}

/// TLS material present: go on; else generate it when the OpenSSL CLI is
/// there, or offer to install the CLI.
pub fn tls_gate(tls_present: bool, openssl_present: bool) -> (r: GateStep)
    ensures
        r == (if tls_present {
            GateStep::Ready
        } else if openssl_present {
            GateStep::Generate
        } else {
            GateStep::AskInstall
        }),
{
    if tls_present {
        GateStep::Ready
    } else if openssl_present {
        GateStep::Generate
    } else {
        GateStep::AskInstall
    }
}

/// Container runtime present: go on; else offer to install it.
pub fn docker_gate(docker_present: bool) -> (r: GateStep)
    ensures
        r == (if docker_present {
            GateStep::Ready
        } else {
            GateStep::AskInstall
        }),
{
    if docker_present {
        GateStep::Ready
    } else {
        GateStep::AskInstall
    }
}

/// Whether an answer to an install offer accepts it: `y` in either case.
pub fn accepts_install(answer: &str) -> (r: bool)
    ensures
        r == (answer@ == "y"@ || answer@ == "Y"@),
{
    same_text(answer, "y") || same_text(answer, "Y")
}

/// Exit status of bootstrap after an install offer: 0 when declined or
/// installed (the user restarts the agent), 1 when the install failed.
pub fn install_exit_status(accepted: bool, installed: bool) -> (r: u8)
    ensures
        r == (if accepted && !installed {
            1u8
        } else {
            0u8
        }),
{
    if accepted && !installed {
        1
    } else {
        0
    }
}

/// The characters of each word of a command.
pub open spec fn words(v: Seq<&'static str>) -> Seq<Seq<char>> {
    v.map_values(|w: &'static str| w@)
}

} // verus!
