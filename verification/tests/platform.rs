use sidecar_supervisor::platform::{
    executable_extension, opener_command, separates, separator_text, sidecar_file_name,
    sidecar_target, target_triple, Architecture, OperatingSystem, SidecarTarget,
};

#[test]
fn windows_has_a_single_target() {
    assert_eq!(
        sidecar_target(OperatingSystem::Windows, Architecture::Arm64),
        SidecarTarget::WindowsX64
    );
    assert_eq!(
        sidecar_target(OperatingSystem::Windows, Architecture::Other),
        SidecarTarget::WindowsX64
    );
}

#[test]
fn macos_targets_follow_the_processor() {
    assert_eq!(
        sidecar_target(OperatingSystem::Macos, Architecture::Arm64),
        SidecarTarget::MacosArm64
    );
    assert_eq!(
        sidecar_target(OperatingSystem::Macos, Architecture::Other),
        SidecarTarget::MacosX64
    );
}

#[test]
fn linux_and_unknown_systems_take_the_linux_build() {
    assert_eq!(
        sidecar_target(OperatingSystem::Linux, Architecture::Arm64),
        SidecarTarget::LinuxArm64
    );
    assert_eq!(
        sidecar_target(OperatingSystem::Linux, Architecture::Other),
        SidecarTarget::LinuxX64
    );
    assert_eq!(
        sidecar_target(OperatingSystem::Other, Architecture::Arm64),
        SidecarTarget::LinuxArm64
    );
    assert_eq!(
        sidecar_target(OperatingSystem::Other, Architecture::Other),
        SidecarTarget::LinuxX64
    );
}

#[test]
fn target_triples_are_the_five_known_ones() {
    assert_eq!(target_triple(SidecarTarget::WindowsX64), "x86_64-pc-windows-msvc");
    assert_eq!(target_triple(SidecarTarget::MacosArm64), "aarch64-apple-darwin");
    assert_eq!(target_triple(SidecarTarget::MacosX64), "x86_64-apple-darwin");
    assert_eq!(target_triple(SidecarTarget::LinuxArm64), "aarch64-unknown-linux-gnu");
    assert_eq!(target_triple(SidecarTarget::LinuxX64), "x86_64-unknown-linux-gnu");
}

#[test]
fn only_windows_has_an_extension() {
    assert_eq!(executable_extension(SidecarTarget::WindowsX64), ".exe");
    assert_eq!(executable_extension(SidecarTarget::MacosArm64), "");
    assert_eq!(executable_extension(SidecarTarget::MacosX64), "");
    assert_eq!(executable_extension(SidecarTarget::LinuxArm64), "");
    assert_eq!(executable_extension(SidecarTarget::LinuxX64), "");
}

#[test]
fn sidecar_file_names_are_exact() {
    assert_eq!(
        sidecar_file_name(SidecarTarget::WindowsX64),
        "c3i-backup-one-server-x86_64-pc-windows-msvc.exe"
    );
    assert_eq!(
        sidecar_file_name(SidecarTarget::MacosArm64),
        "c3i-backup-one-server-aarch64-apple-darwin"
    );
    assert_eq!(
        sidecar_file_name(SidecarTarget::MacosX64),
        "c3i-backup-one-server-x86_64-apple-darwin"
    );
    assert_eq!(
        sidecar_file_name(SidecarTarget::LinuxArm64),
        "c3i-backup-one-server-aarch64-unknown-linux-gnu"
    );
    assert_eq!(
        sidecar_file_name(SidecarTarget::LinuxX64),
        "c3i-backup-one-server-x86_64-unknown-linux-gnu"
    );
}

#[test]
fn separators_by_system() {
    assert_eq!(separator_text(OperatingSystem::Windows), "\\");
    assert_eq!(separator_text(OperatingSystem::Macos), "/");
    assert_eq!(separator_text(OperatingSystem::Linux), "/");
    assert_eq!(separator_text(OperatingSystem::Other), "/");
    assert!(separates('/', OperatingSystem::Linux));
    assert!(!separates('\\', OperatingSystem::Linux));
    assert!(separates('/', OperatingSystem::Windows));
    assert!(separates('\\', OperatingSystem::Windows));
    assert!(!separates('a', OperatingSystem::Windows));
}

#[test]
fn opener_commands_by_system() {
    assert_eq!(opener_command(OperatingSystem::Linux), Some("xdg-open"));
    assert_eq!(opener_command(OperatingSystem::Macos), Some("open"));
    assert_eq!(opener_command(OperatingSystem::Windows), Some("explorer"));
    assert_eq!(opener_command(OperatingSystem::Other), None);
}
