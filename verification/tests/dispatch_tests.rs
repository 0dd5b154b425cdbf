use term_core::dispatch::{
    classify_command, command_result, enhanced_listing_command, exit_sentinel, finish_listing,
    plan_listing, select_output, shell_invocation, spawn_failure, ShellAction,
};
use term_core::file_type::{FileType, Platform};

#[test]
fn output_selection_law() {
    assert_eq!(select_output("", "err"), "err");
    assert_eq!(select_output("out", ""), "out");
    assert_eq!(select_output("out", "err"), "out");
    assert_eq!(select_output("", ""), "Command executed successfully with no output.");
}

#[test]
fn output_selection_keeps_white_space() {
    assert_eq!(select_output(" \n", "err"), " \n");
    assert_eq!(select_output("", " "), " ");
}

#[test]
fn exit_is_recognised_on_the_trimmed_line() {
    assert_eq!(classify_command("exit"), ShellAction::Exit);
    assert_eq!(classify_command("  exit \n"), ShellAction::Exit);
    assert_eq!(classify_command("exit now"), ShellAction::Execute);
    assert_eq!(classify_command("exitx"), ShellAction::Execute);
    assert_eq!(exit_sentinel(), "__EXIT_SHELL__");
}

#[test]
fn listing_commands_are_routed_to_the_normaliser() {
    for line in ["ls", "dir", " ls ", "ls -la", "dir /a", "ls /tmp", "\tdir C:\\ "] {
        assert_eq!(classify_command(line), ShellAction::List, "{:?}", line);
    }
    for line in ["lsof", "dirname x", "echo ls", "", "  ", "l s", "LS"] {
        assert_eq!(classify_command(line), ShellAction::Execute, "{:?}", line);
    }
}

#[test]
fn invocation_by_platform() {
    let unix = shell_invocation("echo  hi ", Platform::Unix);
    assert_eq!((unix.program.as_str(), unix.flag.as_str(), unix.command.as_str()), ("sh", "-c", "echo  hi "));
    let win = shell_invocation("echo hi", Platform::Windows);
    assert_eq!((win.program.as_str(), win.flag.as_str(), win.command.as_str()), ("cmd", "/C", "echo hi"));
}

#[test]
fn only_a_failed_start_is_an_error() {
    assert_eq!(
        command_result(Ok(("".to_string(), "sh: nope: not found\n".to_string()))),
        Ok("sh: nope: not found\n".to_string())
    );
    assert_eq!(command_result(Ok(("a".to_string(), "b".to_string()))), Ok("a".to_string()));
    assert_eq!(
        command_result(Err("No such file or directory (os error 2)".to_string())),
        Err("Failed to run command: No such file or directory (os error 2)".to_string())
    );
    assert_eq!(spawn_failure("x"), "Failed to run command: x");
}

#[test]
fn enhanced_command_on_unix() {
    let p = Platform::Unix;
    assert_eq!(
        enhanced_listing_command("ls", "/home/alice", p),
        "ls -la --time-style=long-iso \"/home/alice\""
    );
    assert_eq!(enhanced_listing_command("ls src", "/x/src", p), "ls src -la --time-style=long-iso");
    assert_eq!(enhanced_listing_command("ls -l src", "/x/src", p), "ls -l src --time-style=long-iso");
    assert_eq!(enhanced_listing_command("ls -a", "/x", p), "ls -a --time-style=long-iso");
    assert_eq!(
        enhanced_listing_command("ls -l --time-style=iso", "/x", p),
        "ls -l --time-style=iso"
    );
    assert_eq!(enhanced_listing_command("ls --time-style=iso", "/x", p), "ls --time-style=iso");
    assert_eq!(enhanced_listing_command("dir", "/x", p), "dir");
    assert_eq!(enhanced_listing_command("dir src", "/x/src", p), "dir src");
}

#[test]
fn enhanced_command_on_windows() {
    let p = Platform::Windows;
    assert_eq!(enhanced_listing_command("dir", "C:\\Users", p), "dir /a \"C:\\Users\"");
    assert_eq!(enhanced_listing_command("ls -l x", "C:\\Users\\x", p), "dir /a \"C:\\Users\\x\"");
}

#[test]
fn listing_plan() {
    let plan = plan_listing("  ls  ", "/home/alice", Platform::Unix);
    assert_eq!(plan.absolute_path, "/home/alice/.");
    assert_eq!(plan.command, "ls -la --time-style=long-iso \"/home/alice/.\"");
    let plan = plan_listing("ls -l docs", "/home/alice", Platform::Unix);
    assert_eq!(plan.absolute_path, "/home/alice/docs");
    assert_eq!(plan.command, "ls -l docs --time-style=long-iso");
    let plan = plan_listing("ls /etc", "/home/alice", Platform::Unix);
    assert_eq!(plan.absolute_path, "/etc");
    let plan = plan_listing("dir Documents", "C:\\Users\\alice", Platform::Windows);
    assert_eq!(plan.absolute_path, "C:\\Users\\alice\\Documents");
    assert_eq!(plan.command, "dir /a \"C:\\Users\\alice\\Documents\"");
}

#[test]
fn listing_answer_is_the_error_output_where_nothing_else_came() {
    let types = vec![Some(FileType::Regular)];
    assert_eq!(
        finish_listing("", "ls: cannot access 'x': No such file or directory\n", &types, Platform::Unix),
        "ls: cannot access 'x': No such file or directory\n"
    );
    let line = "-rw-r--r-- 1 user group 12 2023-12-01 10:32 notes.txt\n";
    assert_eq!(
        finish_listing(line, "warning\n", &types, Platform::Unix),
        "{FILE}-rw-r--r-- 1 user group 12 2023-12-01 10:32 notes.txt{/FILE}\n"
    );
    assert_eq!(finish_listing("", "", &types, Platform::Unix), "");
}
