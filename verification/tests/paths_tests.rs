use std::path::Path;
use term_core::file_type::Platform;
use term_core::paths::{
    choose_home, directory_to_list, expand_home_path, expand_path_argument, expand_read_path,
    expand_user_path, extract_path_from_ls_command, get_home_dir, home_dir_result,
    normalize_path, resolve_path, show_current_dir,
};

#[test]
fn target_of_a_listing_command() {
    assert_eq!(extract_path_from_ls_command("ls"), ".");
    assert_eq!(extract_path_from_ls_command("dir"), ".");
    assert_eq!(extract_path_from_ls_command("ls -la"), ".");
    assert_eq!(extract_path_from_ls_command("ls -la /tmp"), "/tmp");
    assert_eq!(extract_path_from_ls_command("ls /tmp -la"), "/tmp");
    assert_eq!(extract_path_from_ls_command("ls a b"), "b");
    assert_eq!(extract_path_from_ls_command("ls   src   "), "src");
    assert_eq!(extract_path_from_ls_command("dir /a"), "/a");
    assert_eq!(extract_path_from_ls_command("ls ls"), ".");
    assert_eq!(extract_path_from_ls_command("ls dir -l"), ".");
    assert_eq!(extract_path_from_ls_command(""), ".");
}

#[test]
fn resolve_on_unix_is_what_std_does() {
    let cases = [
        ("docs", "/home/alice"),
        ("docs", "/home/alice/"),
        ("/etc", "/home/alice"),
        (".", "/home/alice"),
        ("..", "/"),
        ("", "/home/alice"),
        ("a b/c", "/tmp"),
        ("x", ""),
        ("./x/../y", "/a//b"),
    ];
    for (path, dir) in cases {
        let expected = if Path::new(path).is_absolute() {
            Path::new(path).to_path_buf()
        } else {
            Path::new(dir).join(path)
        };
        assert_eq!(
            resolve_path(path, dir, Platform::Unix),
            expected.to_string_lossy(),
            "{:?} {:?}",
            path,
            dir
        );
    }
    assert_eq!(resolve_path("docs", "/home/alice", Platform::Unix), "/home/alice/docs");
    assert_eq!(resolve_path("/etc", "/home/alice", Platform::Unix), "/etc");
}

#[test]
fn resolve_on_windows() {
    let p = Platform::Windows;
    assert_eq!(resolve_path("docs", "C:\\Users\\alice", p), "C:\\Users\\alice\\docs");
    assert_eq!(resolve_path("docs", "C:\\", p), "C:\\docs");
    assert_eq!(resolve_path("D:\\x", "C:\\Users", p), "D:\\x");
    assert_eq!(resolve_path("D:/x", "C:\\Users", p), "D:/x");
    assert_eq!(resolve_path("\\\\server\\share", "C:\\Users", p), "\\\\server\\share");
    assert_eq!(resolve_path("\\Windows", "C:\\Users", p), "C:\\Windows");
    assert_eq!(resolve_path("/a", "C:\\Users", p), "C:/a");
    assert_eq!(resolve_path("D:x", "C:\\Users", p), "D:x");
    assert_eq!(resolve_path("\\x", "relative", p), "\\x");
    assert_eq!(resolve_path("docs", "C:", p), "C:docs");
    // a rooted path keeps the prefix of the directory, whatever kind it is
    assert_eq!(resolve_path("\\foo", "\\\\server\\share\\x", p), "\\\\server\\share\\foo");
    assert_eq!(resolve_path("/foo", "//server/share/x/y", p), "//server/share/foo");
    assert_eq!(resolve_path("\\foo", "\\\\server\\share", p), "\\\\server\\share\\foo");
    assert_eq!(resolve_path("\\foo", "\\\\server", p), "\\\\server\\foo");
    assert_eq!(resolve_path("\\foo", "\\\\.\\COM1\\x", p), "\\\\.\\COM1\\foo");
    assert_eq!(resolve_path("\\foo", "\\\\?\\C:\\x\\y", p), "\\\\?\\C:\\foo");
    assert_eq!(resolve_path("\\foo", "\\\\?\\vol\\x", p), "\\\\?\\vol\\foo");
    assert_eq!(
        resolve_path("\\foo", "\\\\?\\UNC\\server\\share\\x", p),
        "\\\\?\\UNC\\server\\share\\foo"
    );
    assert_eq!(resolve_path("x", "\\\\server\\share\\d", p), "\\\\server\\share\\d\\x");
    assert_eq!(resolve_path("docs", "C:/", p), "C:/docs");
    assert_eq!(resolve_path("docs", "", p), "docs");
}

#[test]
fn normalised_paths() {
    assert_eq!(normalize_path("a\\b//c", Platform::Unix), "a/b/c");
    assert_eq!(normalize_path("a///b", Platform::Unix), "a//b");
    assert_eq!(normalize_path("a////b", Platform::Unix), "a//b");
    assert_eq!(normalize_path("a\\\\b", Platform::Unix), "a/b");
    assert_eq!(normalize_path("a/b\\\\c", Platform::Windows), "a\\b\\c");
    assert_eq!(normalize_path("C:/Users//alice", Platform::Windows), "C:\\Users\\alice");
    assert_eq!(normalize_path("", Platform::Unix), "");
}

#[test]
fn home_is_chosen_from_the_environment() {
    let h = Some("/home/alice".to_string());
    let p = Some("C:\\Users\\alice".to_string());
    assert_eq!(choose_home(Platform::Unix, h.clone(), p.clone()), h);
    assert_eq!(choose_home(Platform::Windows, h.clone(), p.clone()), h);
    assert_eq!(choose_home(Platform::Windows, None, p.clone()), p);
    assert_eq!(choose_home(Platform::Unix, None, p.clone()), None);
    assert_eq!(choose_home(Platform::Windows, None, None), None);
}

#[test]
fn tilde_is_expanded() {
    let home = Some("/home/alice".to_string());
    assert_eq!(expand_home_path("~", &home), Ok("/home/alice".to_string()));
    assert_eq!(expand_home_path("~/docs", &home), Ok("/home/alice/docs".to_string()));
    assert_eq!(expand_home_path("~bob", &home), Ok("/home/alicebob".to_string()));
    assert_eq!(expand_home_path("docs/~", &home), Ok("docs/~".to_string()));
    assert_eq!(expand_home_path("", &home), Ok("".to_string()));
    assert_eq!(expand_home_path("/etc", &None), Ok("/etc".to_string()));
    assert_eq!(
        expand_home_path("~/docs", &None),
        Err("Cannot determine home directory".to_string())
    );
}

#[test]
fn paths_named_in_commands() {
    let home = Some("/home/alice".to_string());
    assert_eq!(expand_path_argument("~/x", &home), Ok("/home/alice/x".to_string()));
    assert_eq!(expand_path_argument("x", &None), Ok("x".to_string()));
    assert_eq!(
        expand_path_argument("~/x", &None),
        Err("Failed to expand path: Cannot determine home directory".to_string())
    );
    assert_eq!(directory_to_list(&None, &home), Ok(None));
    assert_eq!(directory_to_list(&Some(String::new()), &None), Ok(None));
    assert_eq!(directory_to_list(&Some("~".to_string()), &home), Ok(Some("/home/alice".to_string())));
    assert_eq!(directory_to_list(&Some("/tmp".to_string()), &None), Ok(Some("/tmp".to_string())));
    assert_eq!(
        directory_to_list(&Some("~".to_string()), &None),
        Err("Failed to expand path: Cannot determine home directory".to_string())
    );
}

#[test]
fn path_to_read_from() {
    let home = Some("/home/alice".to_string());
    let u = Platform::Unix;
    assert_eq!(expand_read_path("~/notes.txt", &home, u), "/home/alice/notes.txt");
    assert_eq!(expand_read_path("~//etc/passwd", &home, u), "/etc/passwd");
    assert_eq!(expand_read_path("~/", &home, u), "/home/alice/");
    assert_eq!(expand_read_path("~", &home, u), "~");
    assert_eq!(expand_read_path("~bob/x", &home, u), "~bob/x");
    assert_eq!(expand_read_path("/etc/hosts", &home, u), "/etc/hosts");
    assert_eq!(expand_read_path("~/notes.txt", &None, u), "~/notes.txt");
}

#[test]
fn current_directory_as_shown() {
    assert_eq!(show_current_dir("/home/alice"), "/home/alice");
    assert_eq!(show_current_dir("C:\\Users\\alice"), "./Users/alice");
    assert_eq!(show_current_dir("C:"), ".");
    assert_eq!(show_current_dir("a:b:c"), ".b:c");
    assert_eq!(show_current_dir(""), "");
}

#[test]
fn home_directory_answer() {
    assert_eq!(home_dir_result(Some("/home/alice".to_string())), Ok("/home/alice".to_string()));
    assert_eq!(home_dir_result(None), Err("Failed to get home directory".to_string()));
}

#[test]
fn home_directory_of_this_process() {
    match get_home_dir() {
        Ok(home) => {
            assert!(!home.is_empty());
            assert_eq!(expand_user_path("~/x", Platform::Unix), resolve_path("x", &home, Platform::Unix));
        }
        Err(e) => {
            assert_eq!(e, "Failed to get home directory");
            assert_eq!(expand_user_path("~/x", Platform::Unix), "~/x");
        }
    }
    assert_eq!(expand_user_path("/etc/hosts", Platform::Unix), "/etc/hosts");
}
