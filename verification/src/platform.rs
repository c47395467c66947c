//! Everything that depends on the machine the shell runs on, as functions of
//! an explicit platform tag: the sidecar's target triple and file name, the
//! path separator and the file-manager command.

use vstd::prelude::*;
use vstd::string::*;

verus! {

/// The operating-system family the shell was built for.
#[derive(Clone, Copy, Debug, PartialEq, Eq, Structural)]
pub enum OperatingSystem {
    Windows,
    Macos,
    Linux,
    /// Any other system; it is treated like Linux when naming the sidecar.
    Other,
}

/// The processor family the shell was built for.
#[derive(Clone, Copy, Debug, PartialEq, Eq, Structural)]
pub enum Architecture {
    Arm64,
    /// Any other processor; it is treated as 64-bit x86.
    Other,
}

/// The platforms for which a sidecar binary is bundled.
#[derive(Clone, Copy, Debug, PartialEq, Eq, Structural)]
pub enum SidecarTarget {
    WindowsX64,
    MacosArm64,
    MacosX64,
    LinuxArm64,
    LinuxX64,
}

/// The bundled target that serves a given system and processor. Windows has
/// a single build; every system that is neither Windows nor macOS takes the
/// Linux build of its processor.
pub open spec fn target_for(os: OperatingSystem, arch: Architecture) -> SidecarTarget {
    match os {
        OperatingSystem::Windows => SidecarTarget::WindowsX64,
        OperatingSystem::Macos => match arch {
            Architecture::Arm64 => SidecarTarget::MacosArm64,
            Architecture::Other => SidecarTarget::MacosX64,
        },
        _ => match arch {
            Architecture::Arm64 => SidecarTarget::LinuxArm64,
            Architecture::Other => SidecarTarget::LinuxX64,
        },
    }
}

/// The target triple that names a bundled build.
pub open spec fn triple_of(target: SidecarTarget) -> Seq<char> {
    match target {
        SidecarTarget::WindowsX64 => "x86_64-pc-windows-msvc"@,
        SidecarTarget::MacosArm64 => "aarch64-apple-darwin"@,
        SidecarTarget::MacosX64 => "x86_64-apple-darwin"@,
        SidecarTarget::LinuxArm64 => "aarch64-unknown-linux-gnu"@,
        SidecarTarget::LinuxX64 => "x86_64-unknown-linux-gnu"@,
    }
}

/// The file extension of executables on a target: `.exe` on Windows, none
/// elsewhere.
pub open spec fn extension_of(target: SidecarTarget) -> Seq<char> {
    match target {
        SidecarTarget::WindowsX64 => ".exe"@,
        _ => Seq::<char>::empty(),
    }
}

/// The sidecar's file name: the product's server prefix, the target triple
/// and the executable extension.
pub open spec fn sidecar_name_of(target: SidecarTarget) -> Seq<char> {
    "c3i-backup-one-server-"@ + triple_of(target) + extension_of(target)
}

/// The character that the system writes between path components.
pub open spec fn main_separator(os: OperatingSystem) -> char {
    match os {
        OperatingSystem::Windows => '\\',
        _ => '/',
    }
}

/// Whether the system reads `c` as a boundary between path components.
/// Windows accepts both slashes.
pub open spec fn is_separator(c: char, os: OperatingSystem) -> bool {
    c == '/' || (os == OperatingSystem::Windows && c == '\\')
}

/// The command that opens a directory in the system's file manager, where
/// one is known.
pub open spec fn opener_of(os: OperatingSystem) -> Option<Seq<char>> {
    match os {
        OperatingSystem::Linux => Some("xdg-open"@),
        OperatingSystem::Macos => Some("open"@),
        OperatingSystem::Windows => Some("explorer"@),
        OperatingSystem::Other => None,
    }
}

/// Chooses the bundled target for a system and processor.
pub fn sidecar_target(os: OperatingSystem, arch: Architecture) -> (r: SidecarTarget)
    ensures
        r == target_for(os, arch),
{
    match os {
        OperatingSystem::Windows => SidecarTarget::WindowsX64,
        OperatingSystem::Macos => match arch {
            Architecture::Arm64 => SidecarTarget::MacosArm64,
            Architecture::Other => SidecarTarget::MacosX64,
        },
        _ => match arch {
            Architecture::Arm64 => SidecarTarget::LinuxArm64,
            Architecture::Other => SidecarTarget::LinuxX64,
        },
    }
}

/// The target triple of a bundled build.
pub fn target_triple(target: SidecarTarget) -> (r: &'static str)
    ensures
        r@ == triple_of(target),
{
    match target {
        SidecarTarget::WindowsX64 => "x86_64-pc-windows-msvc",
        SidecarTarget::MacosArm64 => "aarch64-apple-darwin",
        SidecarTarget::MacosX64 => "x86_64-apple-darwin",
        SidecarTarget::LinuxArm64 => "aarch64-unknown-linux-gnu",
        SidecarTarget::LinuxX64 => "x86_64-unknown-linux-gnu",
    }
}

/// The executable extension of a target.
pub fn executable_extension(target: SidecarTarget) -> (r: &'static str)
    ensures
        r@ == extension_of(target),
{
    match target {
        SidecarTarget::WindowsX64 => ".exe",
        _ => {
            proof {
                reveal_strlit("");
            }
            assert(""@ =~= Seq::<char>::empty());
            ""
        },
    }
}

/// The file name under which the sidecar for `target` is bundled.
pub fn sidecar_file_name(target: SidecarTarget) -> (r: String)
    ensures
        r@ == sidecar_name_of(target),
{
    let mut name = String::from_str("c3i-backup-one-server-");
    name.append(target_triple(target));
    name.append(executable_extension(target));
    name
}

/// The separator the system writes between path components, as text.
pub fn separator_text(os: OperatingSystem) -> (r: &'static str)
    ensures
        r@ == seq![main_separator(os)],
{
    proof {
        reveal_strlit("\\");
        reveal_strlit("/");
    }
    match os {
        OperatingSystem::Windows => {
            assert("\\"@ =~= seq!['\\']);
            "\\"
        },
        _ => {
            assert("/"@ =~= seq!['/']);
            "/"
        },
    }
}

/// Decides whether `c` separates path components on `os`.
pub fn separates(c: char, os: OperatingSystem) -> (r: bool)
    ensures
        r == is_separator(c, os),
{
    c == '/' || (os == OperatingSystem::Windows && c == '\\')
}

/// The file-manager command of a system; `None` where the shell knows none
/// and opening a directory is silently skipped.
pub fn opener_command(os: OperatingSystem) -> (r: Option<&'static str>)
    ensures
        match r {
            Some(command) => opener_of(os) == Some(command@),
            None => opener_of(os) is None,
        },
{
    match os {
        OperatingSystem::Linux => Some("xdg-open"),
        OperatingSystem::Macos => Some("open"),
        OperatingSystem::Windows => Some("explorer"),
        OperatingSystem::Other => None,
    }
}

} // verus!
