//! Installing the OpenSSL command-line tool.

use vstd::prelude::*;
use super::{words, PackageManager};

verus! {

/// The install command of the OpenSSL tool for each manager.
pub open spec fn openssl_install_spec(pm: PackageManager) -> Seq<Seq<char>> {
    match pm {
        PackageManager::AptGet => seq!["apt-get"@, "install"@, "-y"@, "openssl"@],
        PackageManager::Yum => seq!["yum"@, "install"@, "-y"@, "openssl"@],
        PackageManager::Dnf => seq!["dnf"@, "install"@, "-y"@, "openssl"@],
        PackageManager::Pacman => seq!["pacman"@, "-S"@, "--noconfirm"@, "openssl"@],
    }
}

/// The command that installs the OpenSSL tool with `pm`; it runs under
/// `sudo`.
pub fn get_install_command(pm: PackageManager) -> (r: Vec<&'static str>)
    ensures
        words(r@) =~= openssl_install_spec(pm),
{
    match pm {
        PackageManager::AptGet => vec!["apt-get", "install", "-y", "openssl"],
        PackageManager::Yum => vec!["yum", "install", "-y", "openssl"],
        PackageManager::Dnf => vec!["dnf", "install", "-y", "openssl"],
        PackageManager::Pacman => vec!["pacman", "-S", "--noconfirm", "openssl"],
    }
}

} // verus!
