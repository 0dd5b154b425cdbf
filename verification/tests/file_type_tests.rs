use term_core::file_type::{
    get_file_type_robust, is_executable, is_program_extension_name, FileType, Host, LinkMetadata,
    PathFacts, Platform,
};

fn facts(link: Option<LinkMetadata>, target_is_dir: bool, ext: Option<&str>) -> PathFacts {
    PathFacts { link, target_is_dir, extension: ext.map(|e| e.to_string()) }
}

fn meta(is_symlink: bool, is_dir: bool, mode: u32) -> Option<LinkMetadata> {
    Some(LinkMetadata { is_symlink, is_dir, mode })
}

#[test]
fn symlink_wins_whatever_it_points_at() {
    for platform in [Platform::Unix, Platform::Windows] {
        for is_dir in [false, true] {
            for target_is_dir in [false, true] {
                for mode in [0u32, 0o644, 0o755, 0o777] {
                    let f = facts(meta(true, is_dir, mode), target_is_dir, Some("exe"));
                    assert_eq!(get_file_type_robust(&f, platform), FileType::Symlink);
                }
            }
        }
    }
}

#[test]
fn rule_order() {
    let u = Platform::Unix;
    assert_eq!(get_file_type_robust(&facts(meta(false, true, 0o755), false, None), u), FileType::Directory);
    assert_eq!(get_file_type_robust(&facts(meta(false, false, 0o755), true, None), u), FileType::Executable);
    assert_eq!(get_file_type_robust(&facts(meta(false, false, 0o644), true, None), u), FileType::Regular);
}

#[test]
fn unix_executable_is_any_execute_bit() {
    let u = Platform::Unix;
    for (mode, expected) in [
        (0o100u32, true),
        (0o010, true),
        (0o001, true),
        (0o111, true),
        (0o644, false),
        (0o666, false),
        (0, false),
        (0o100644, false),
        (0o100744, true),
    ] {
        assert_eq!(is_executable(mode, &None, u), expected, "{:o}", mode);
        assert_eq!(is_executable(mode, &Some("exe".to_string()), u), expected, "{:o}", mode);
    }
}

#[test]
fn windows_executable_is_by_extension() {
    let w = Platform::Windows;
    for ext in ["exe", "bat", "cmd", "com", "ps1", "EXE", "Bat", "CMD", "Com", "PS1"] {
        assert!(is_executable(0, &Some(ext.to_string()), w), "{}", ext);
    }
    for ext in ["", "txt", "sh", "exe ", "ex", "exes", "ps", "msi"] {
        assert!(!is_executable(0o777, &Some(ext.to_string()), w), "{}", ext);
    }
    assert!(!is_executable(0o777, &None, w));
    let f = facts(meta(false, false, 0), false, Some("ExE"));
    assert_eq!(get_file_type_robust(&f, w), FileType::Executable);
    let f = facts(meta(false, false, 0o777), false, Some("txt"));
    assert_eq!(get_file_type_robust(&f, w), FileType::Regular);
}

#[test]
fn program_extensions_are_matched_as_given() {
    assert!(is_program_extension_name("exe"));
    assert!(is_program_extension_name("ps1"));
    assert!(!is_program_extension_name("EXE"));
    assert!(!is_program_extension_name(""));
}

#[test]
fn missing_metadata_falls_back_to_a_guess() {
    for platform in [Platform::Unix, Platform::Windows] {
        assert_eq!(get_file_type_robust(&facts(None, true, Some("exe")), platform), FileType::Directory);
        assert_eq!(get_file_type_robust(&facts(None, false, Some("exe")), platform), FileType::Regular);
    }
}

#[test]
fn hosts() {
    assert_eq!(Host::Linux.platform(), Platform::Unix);
    assert_eq!(Host::MacOs.platform(), Platform::Unix);
    assert_eq!(Host::Other.platform(), Platform::Unix);
    assert_eq!(Host::Windows.platform(), Platform::Windows);
    assert!(Host::Linux.supports_elevation());
    assert!(Host::MacOs.supports_elevation());
    assert!(!Host::Windows.supports_elevation());
    assert!(!Host::Other.supports_elevation());
    assert_eq!(Host::Linux.os_name(), "Linux");
    assert_eq!(Host::MacOs.os_name(), "macOS");
    assert_eq!(Host::Windows.os_name(), "Windows");
    assert_eq!(Host::Other.os_name(), "Unknown OS");
}
