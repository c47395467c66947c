use sidecar_supervisor::layout::{join, DataLayout};
use sidecar_supervisor::platform::OperatingSystem;

#[test]
fn join_writes_one_separator() {
    assert_eq!(join("/var/lib/app", "cache", OperatingSystem::Linux), "/var/lib/app/cache");
    assert_eq!(join("~/data", "volumes", OperatingSystem::Macos), "~/data/volumes");
}

#[test]
fn join_keeps_a_trailing_separator() {
    assert_eq!(join("/var/lib/app/", "cache", OperatingSystem::Linux), "/var/lib/app/cache");
    assert_eq!(join("/", "cache", OperatingSystem::Linux), "/cache");
}

#[test]
fn join_onto_nothing_is_the_name() {
    assert_eq!(join("", "cache", OperatingSystem::Linux), "cache");
    assert_eq!(join("", "cache", OperatingSystem::Windows), "cache");
}

#[test]
fn join_on_windows_uses_the_backslash() {
    assert_eq!(
        join("C:\\Users\\me\\AppData", "cache", OperatingSystem::Windows),
        "C:\\Users\\me\\AppData\\cache"
    );
    assert_eq!(join("C:\\data\\", "cache", OperatingSystem::Windows), "C:\\data\\cache");
    assert_eq!(join("C:/data/", "cache", OperatingSystem::Windows), "C:/data/cache");
}

#[test]
fn backslash_is_no_separator_off_windows() {
    assert_eq!(join("odd\\", "cache", OperatingSystem::Linux), "odd\\/cache");
}

#[test]
fn join_counts_characters_not_bytes() {
    assert_eq!(join("/home/zoë", "cache", OperatingSystem::Linux), "/home/zoë/cache");
    assert_eq!(join("/home/日本/", "cache", OperatingSystem::Linux), "/home/日本/cache");
}

#[test]
fn layout_of_a_data_directory() {
    let layout = DataLayout::derive("~/data", OperatingSystem::Linux);
    assert_eq!(layout.data_dir, "~/data");
    assert_eq!(layout.database_file, "~/data/c3i-backup-one.db");
    assert_eq!(layout.repositories_dir, "~/data/repositories");
    assert_eq!(layout.volumes_dir, "~/data/volumes");
    assert_eq!(layout.cache_dir, "~/data/cache");
    assert_eq!(layout.credentials_file, "~/data/restic-pass");
}

#[test]
fn layout_on_windows() {
    let layout = DataLayout::derive("C:\\data", OperatingSystem::Windows);
    assert_eq!(layout.database_file, "C:\\data\\c3i-backup-one.db");
    assert_eq!(layout.credentials_file, "C:\\data\\restic-pass");
}

#[test]
fn directories_are_the_four_to_create_parents_first() {
    let layout = DataLayout::derive("/srv/app", OperatingSystem::Linux);
    assert_eq!(
        layout.directories(),
        vec![
            "/srv/app".to_string(),
            "/srv/app/repositories".to_string(),
            "/srv/app/volumes".to_string(),
            "/srv/app/cache".to_string(),
        ]
    );
}

#[test]
fn directories_never_repeat() {
    for data_dir in ["", "/", "a", "/srv/app", "/srv/app/", "repositories"] {
        let dirs = DataLayout::derive(data_dir, OperatingSystem::Linux).directories();
        for i in 0..dirs.len() {
            for j in 0..dirs.len() {
                if i != j {
                    assert_ne!(dirs[i], dirs[j]);
                }
            }
        }
    }
}

#[test]
fn deriving_twice_gives_the_same_layout() {
    let first = DataLayout::derive("/srv/app", OperatingSystem::Linux);
    let second = DataLayout::derive("/srv/app", OperatingSystem::Linux);
    assert_eq!(first, second);
    assert_eq!(first.directories(), second.directories());
}

#[test]
fn join_agrees_with_the_standard_library_on_this_system() {
    let os = if std::path::MAIN_SEPARATOR == '\\' {
        OperatingSystem::Windows
    } else {
        OperatingSystem::Linux
    };
    let dirs: [&str; 7] =
        ["", "/", "data", "data/", "/var/lib/app", "/var/lib/app/", "~/data"];
    let names = ["cache", "volumes", "repositories", "c3i-backup-one.db", "restic-pass", "bin"];
    for dir in dirs {
        for name in names {
            let expected = std::path::Path::new(dir).join(name).to_string_lossy().to_string();
            assert_eq!(join(dir, name, os), expected);
        }
    }
}
