//! The command dispatcher: what a command line asks for, how it is handed to
//! the host's interpreter, and which part of the captured output is the
//! answer.

use crate::file_type::{FileType, Platform};
use crate::listing::{format_directory_listing_robust, normalized_listing};
use crate::paths::{extract_path_from_ls_command, joined, listing_target, resolve_path};
use crate::text::{
    chars_contain, chars_of, chars_start_with, contains, extend, same_chars, starts_with,
    string_of, trim, trim_chars,
};
use vstd::prelude::*;
use vstd::string::StringExecFns;

verus! {

/// What a command line asks the dispatcher to do.
#[derive(Clone, Copy, Debug, PartialEq, Eq, Structural)]
pub enum ShellAction {
    /// End the session; nothing is executed.
    Exit,
    /// List a directory through the listing normaliser.
    List,
    /// Hand the line to the host's command interpreter.
    Execute,
}

/// A bare listing verb, or one with arguments.
pub open spec fn is_listing_command(cmd: Seq<char>) -> bool {
    cmd == "ls"@ || starts_with(cmd, "ls "@) || cmd == "dir"@ || starts_with(cmd, "dir "@)
}

/// The action that the command line `command` asks for, decided on the line
/// without its surrounding white space.
pub open spec fn shell_action(command: Seq<char>) -> ShellAction {
    let cmd = trim(command);
    if cmd == "exit"@ {
        ShellAction::Exit
    } else if is_listing_command(cmd) {
        ShellAction::List
    } else {
        ShellAction::Execute
    }
}

/// The answer made of what a command wrote: its error output where that is all
/// it wrote, else its output, else a fixed message.
pub open spec fn selected_output(stdout: Seq<char>, stderr: Seq<char>) -> Seq<char> {
    if stderr.len() > 0 && stdout.len() == 0 {
        stderr
    } else if stdout.len() > 0 {
        stdout
    } else {
        "Command executed successfully with no output."@
    }
}

/// The command that lists `absolute_path` in a form that can be parsed. On
/// Unix the long and all-entries modes and a fixed time style are switched on,
/// each only where the user's own line does not already speak of it; a line
/// with arguments keeps them. On Windows all entries are listed.
pub open spec fn enhanced_command(platform: Platform, cmd: Seq<char>, absolute_path: Seq<char>) -> Seq<
    char,
> {
    match platform {
        Platform::Unix => if cmd == "ls"@ {
            "ls -la --time-style=long-iso \""@ + absolute_path + "\""@
        } else if starts_with(cmd, "ls "@) {
            if !contains(cmd, " -l"@) && !contains(cmd, " -a"@) && !contains(
                cmd,
                "--time-style"@,
            ) {
                cmd + " -la --time-style=long-iso"@
            } else if !contains(cmd, "--time-style"@) {
                cmd + " --time-style=long-iso"@
            } else {
                cmd
            }
        } else {
            cmd
        },
        Platform::Windows => "dir /a \""@ + absolute_path + "\""@,
    }
}

/// The answer to a listing command: the error output where the tool wrote
/// nothing else, and else its output normalised.
pub open spec fn listing_answer(
    platform: Platform,
    stdout: Seq<char>,
    stderr: Seq<char>,
    types: Seq<Option<FileType>>,
) -> Seq<char> {
    if stderr.len() > 0 && stdout.len() == 0 {
        stderr
    } else {
        normalized_listing(platform, stdout, types)
    }
}

/// How a listing command is carried out.
#[derive(Clone, Debug, PartialEq, Eq)]
pub struct ListingPlan {
    /// The directory that is listed, as an absolute path.
    pub absolute_path: String,
    /// The command line handed to the host's interpreter.
    pub command: String,
}

/// How a command line is handed to the host's interpreter.
#[derive(Clone, Debug, PartialEq, Eq)]
pub struct Invocation {
    pub program: String,
    pub flag: String,
    pub command: String,
}

/// The action that `command` asks for.
pub fn classify_command(command: &str) -> (a: ShellAction)
    ensures
        a == shell_action(command@),
{
    let cmd = trim_chars(&chars_of(command));
    if same_chars(&cmd, &chars_of("exit")) {
        ShellAction::Exit
    } else if same_chars(&cmd, &chars_of("ls")) || chars_start_with(&cmd, &chars_of("ls "))
        || same_chars(&cmd, &chars_of("dir")) || chars_start_with(&cmd, &chars_of("dir ")) {
        ShellAction::List
    } else {
        ShellAction::Execute
    }
}

/// The value that tells the caller to end the session.
pub fn exit_sentinel() -> (r: String)
    ensures
        r@ == "__EXIT_SHELL__"@,
{
    String::from_str("__EXIT_SHELL__")
}

/// The program and arguments that run `command` on `platform`: the Unix shell
/// with `-c`, or the Windows interpreter with `/C`.
pub fn shell_invocation(command: &str, platform: Platform) -> (r: Invocation)
    ensures
        r.command@ == command@,
        platform == Platform::Unix ==> r.program@ == "sh"@ && r.flag@ == "-c"@,
        platform == Platform::Windows ==> r.program@ == "cmd"@ && r.flag@ == "/C"@,
{
    match platform {
        Platform::Unix => Invocation {
            program: String::from_str("sh"),
            flag: String::from_str("-c"),
            command: String::from_str(command),
        },
        Platform::Windows => Invocation {
            program: String::from_str("cmd"),
            flag: String::from_str("/C"),
            command: String::from_str(command),
        },
    }
}

/// The answer made of what a command wrote to its two streams.
pub fn select_output(stdout: &str, stderr: &str) -> (r: String)
    ensures
        r@ == selected_output(stdout@, stderr@),
{
    let out_empty = stdout.is_empty();
    let err_empty = stderr.is_empty();
    if !err_empty && out_empty {
        String::from_str(stderr)
    } else if !out_empty {
        String::from_str(stdout)
    } else {
        String::from_str("Command executed successfully with no output.")
    }
}

/// The error reported where the interpreter could not be started; `detail` is
/// what the host said.
pub fn spawn_failure(detail: &str) -> (r: String)
    ensures
        r@ == "Failed to run command: "@ + detail@,
{
    let mut r = String::from_str("Failed to run command: ");
    r.append(detail);
    r
}

/// The result of running a command: its selected output where the interpreter
/// ran, whatever its exit code, and an error only where it could not be
/// started.
pub fn command_result(outcome: Result<(String, String), String>) -> (r: Result<String, String>)
    ensures
        match outcome {
            Ok((stdout, stderr)) => r matches Ok(s) && s@ == selected_output(stdout@, stderr@),
            Err(detail) => r matches Err(e) && e@ == "Failed to run command: "@ + detail@,
        },
{
    match outcome {
        Ok((stdout, stderr)) => Ok(select_output(stdout.as_str(), stderr.as_str())),
        Err(detail) => Err(spawn_failure(detail.as_str())),
    }
}

/// The command that lists `absolute_path` for the trimmed command line `cmd`.
pub fn enhanced_listing_command(cmd: &str, absolute_path: &str, platform: Platform) -> (r: String)
    ensures
        r@ == enhanced_command(platform, cmd@, absolute_path@),
{
    let c = chars_of(cmd);
    match platform {
        Platform::Unix => {
            if same_chars(&c, &chars_of("ls")) {
                let mut r = chars_of("ls -la --time-style=long-iso \"");
                extend(&mut r, &chars_of(absolute_path));
                extend(&mut r, &chars_of("\""));
                string_of(&r)
            } else if chars_start_with(&c, &chars_of("ls ")) {
                let styled = chars_contain(&c, &chars_of("--time-style"));
                let mut r = chars_of(cmd);
                if !chars_contain(&c, &chars_of(" -l")) && !chars_contain(&c, &chars_of(" -a"))
                    && !styled {
                    extend(&mut r, &chars_of(" -la --time-style=long-iso"));
                } else if !styled {
                    extend(&mut r, &chars_of(" --time-style=long-iso"));
                }
                string_of(&r)
            } else {
                string_of(&c)
            }
        },
        Platform::Windows => {
            let mut r = chars_of("dir /a \"");
            extend(&mut r, &chars_of(absolute_path));
            extend(&mut r, &chars_of("\""));
            string_of(&r)
        },
    }
}

/// How the listing command `command_line` is carried out from the
/// directory `current_dir`.
pub fn plan_listing(command_line: &str, current_dir: &str, platform: Platform) -> (plan:
    ListingPlan)
    ensures
        plan.absolute_path@ == joined(
            platform,
            current_dir@,
            listing_target(trim(command_line@)),
        ),
        plan.command@ == enhanced_command(
            platform,
            trim(command_line@),
            plan.absolute_path@,
        ),
{
    let cmd = string_of(&trim_chars(&chars_of(command_line)));
    let target = extract_path_from_ls_command(cmd.as_str());
    let absolute_path = resolve_path(target.as_str(), current_dir, platform);
    let command = enhanced_listing_command(cmd.as_str(), absolute_path.as_str(), platform);
    ListingPlan { absolute_path, command }
}

/// The answer to a listing command, made of what the listing tool wrote and of
/// the types found for the entries it named.
pub fn finish_listing(
    stdout: &str,
    stderr: &str,
    types: &Vec<Option<FileType>>,
    platform: Platform,
) -> (r: String)
    ensures
        r@ == listing_answer(platform, stdout@, stderr@, types@),
{
    if !stderr.is_empty() && stdout.is_empty() {
        String::from_str(stderr)
    } else {
        format_directory_listing_robust(stdout, types, platform)
    }
}

} // verus!
