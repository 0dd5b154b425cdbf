//! The privileged executor: how a command is run with elevated rights, which
//! files the attempt leaves on disk and removes again, and how the captured
//! output tells a rejected secret from success.

use crate::cache::{model_recorded, model_valid, SudoCache};
use crate::file_type::{elevation_supported, Host, Platform};
use crate::paths::{join_chars, joined};
use crate::text::{
    ascii_lowered, chars_contain, chars_of, chars_start_with, contains, contains_ignoring_case,
    decimal, decimal_chars, extend, has_at, lemma_lowering_keeps_occurrences, lower_chars,
    replace, replace_chars, slice_of, starts_with, string_of,
};
use vstd::prelude::*;

verus! {

/// Why an attempt to run a command with elevated rights failed.
#[derive(Clone, Debug, PartialEq, Eq)]
pub enum SudoError {
    /// The host has no elevation tool that this library drives.
    UnsupportedPlatform,
    /// A temporary file could not be made, changed or read; the text says
    /// which and why.
    Filesystem(String),
    /// The script could not be started; the text is what the host said.
    Spawn(String),
    /// The script did not end in time and was stopped.
    Timeout,
    /// The elevation tool rejected the secret.
    AuthenticationFailure,
}

/// A `SudoError` with its texts as sequences of characters.
pub enum SudoFailure {
    UnsupportedPlatform,
    Filesystem(Seq<char>),
    Spawn(Seq<char>),
    Timeout,
    AuthenticationFailure,
}

impl View for SudoError {
    type V = SudoFailure;

    open spec fn view(&self) -> SudoFailure {
        match self {
            SudoError::UnsupportedPlatform => SudoFailure::UnsupportedPlatform,
            SudoError::Filesystem(detail) => SudoFailure::Filesystem(detail@),
            SudoError::Spawn(detail) => SudoFailure::Spawn(detail@),
            SudoError::Timeout => SudoFailure::Timeout,
            SudoError::AuthenticationFailure => SudoFailure::AuthenticationFailure,
        }
    }
}

/// What the user is told of an error. A rejected secret is reported in fixed
/// words, without the secret and without what the tool wrote.
pub open spec fn error_text(e: SudoFailure) -> Seq<char> {
    match e {
        SudoFailure::UnsupportedPlatform => "Sudo is only supported on Linux and macOS"@,
        SudoFailure::Filesystem(detail) => detail,
        SudoFailure::Spawn(detail) => "Failed to execute script: "@ + detail,
        SudoFailure::Timeout => "Command timed out and was stopped"@,
        SudoFailure::AuthenticationFailure => "Incorrect password provided"@,
    }
}

/// A result of an elevation with its texts as sequences of characters.
pub open spec fn outcome_view(r: Result<String, SudoError>) -> Result<Seq<char>, SudoFailure> {
    match r {
        Ok(s) => Ok(s@),
        Err(e) => Err(e@),
    }
}

/// `command` without the elevation verb that the caller may have put first.
pub open spec fn target_command(command: Seq<char>) -> Seq<char> {
    if starts_with(command, "sudo "@) {
        command.skip(5)
    } else {
        command
    }
}

/// `s` with every double quote escaped for use between double quotes.
pub open spec fn quote_escaped(s: Seq<char>) -> Seq<char> {
    replace(s, "\""@, "\\\""@)
}

/// The script of one attempt: it pipes the secret into the elevation tool,
/// which runs the target command, sends all output to the output file, and
/// notes a failed exit there.
pub open spec fn script_text(password: Seq<char>, target: Seq<char>, output_path: Seq<char>) -> Seq<
    char,
> {
    "#!/bin/bash\necho \""@ + quote_escaped(password) + "\" | sudo -S "@ + quote_escaped(target)
        + " > \""@ + output_path
        + "\" 2>&1\nexit_code=$?\nif [ $exit_code -ne 0 ]; then\n    echo \"Command failed with exit code $exit_code\" >> \""@
        + output_path + "\"\nfi\n"@
}

/// The name that tells the files of one attempt from those of every other:
/// the process and the number of the attempt within it.
pub open spec fn attempt_suffix(pid: u32, attempt: u64) -> Seq<char> {
    decimal(pid as nat) + seq!['_'] + decimal(attempt as nat)
}

/// Where the output of an attempt is captured.
pub open spec fn output_file(temp_dir: Seq<char>, pid: u32, attempt: u64) -> Seq<char> {
    joined(Platform::Unix, temp_dir, "term_sudo_"@ + attempt_suffix(pid, attempt))
}

/// Where the script of an attempt is written.
pub open spec fn script_file(temp_dir: Seq<char>, pid: u32, attempt: u64) -> Seq<char> {
    joined(Platform::Unix, temp_dir, "term_sudo_script_"@ + attempt_suffix(pid, attempt))
}

/// The captured output shows that the elevation tool rejected the secret: it
/// holds one of the phrases by which the tool says that the password was
/// wrong, that authentication failed or that no password was given. The case
/// of letters does not count, nor what stands around the phrase.
pub open spec fn secret_rejected(output: Seq<char>) -> bool {
    contains_ignoring_case(output, "incorrect password"@) || contains_ignoring_case(
        output,
        "sorry, try again"@,
    ) || contains_ignoring_case(output, "authentication failure"@) || contains_ignoring_case(
        output,
        "no password was provided"@,
    )
}

/// The command line that runs `command` with elevated rights while the
/// elevation tool still remembers the last grant.
pub open spec fn elevated_command(command: Seq<char>) -> Seq<char> {
    "sudo "@ + target_command(command)
}

/// How a request to run a command with elevated rights is served.
#[derive(Clone, Debug, PartialEq, Eq)]
pub enum SudoPlan {
    /// Not at all: the host has no elevation tool that this library drives.
    Unsupported,
    /// Through the dispatcher, with this command line and without the secret:
    /// the cache vouches for elevation.
    Cached(String),
    /// By a fresh elevation with the secret.
    Fresh,
}

/// A `SudoPlan` with its text as a sequence of characters.
pub enum PlanModel {
    Unsupported,
    Cached(Seq<char>),
    Fresh,
}

impl View for SudoPlan {
    type V = PlanModel;

    open spec fn view(&self) -> PlanModel {
        match self {
            SudoPlan::Unsupported => PlanModel::Unsupported,
            SudoPlan::Cached(line) => PlanModel::Cached(line@),
            SudoPlan::Fresh => PlanModel::Fresh,
        }
    }
}

/// The plan for `command`: none on a host without elevation, before anything
/// is touched; the dispatcher where the cache vouches for elevation; else a
/// fresh elevation.
pub open spec fn planned(host: Host, valid: bool, command: Seq<char>) -> PlanModel {
    if !elevation_supported(host) {
        PlanModel::Unsupported
    } else if valid {
        PlanModel::Cached(elevated_command(command))
    } else {
        PlanModel::Fresh
    }
}

/// What the captured output of a fresh elevation comes to: an error where the
/// secret was rejected, else the output itself.
pub open spec fn verdict(output: Seq<char>) -> Result<Seq<char>, SudoFailure> {
    if secret_rejected(output) {
        Err(SudoFailure::AuthenticationFailure)
    } else {
        Ok(output)
    }
}

/// The stages of a fresh elevation, in the order in which they are gone
/// through.
#[derive(Clone, Copy, Debug, PartialEq, Eq, Structural)]
pub enum Stage {
    WriteScript,
    CheckScript,
    MakeExecutable,
    RunScript,
    RemoveScript,
    ReadOutput,
    RemoveOutput,
    Finished,
}

/// How the work of a stage ended, as far as the next stage depends on it.
#[derive(Clone, Copy, Debug, PartialEq, Eq, Structural)]
pub enum Ending {
    Done,
    Failed,
}

/// The stage that comes after `stage`. A step that fails before the script
/// has run sends the elevation straight to the removal of the script; once
/// the script is removed, the output is read only where nothing has failed
/// before; the output file is removed in every case.
pub open spec fn next_stage(stage: Stage, ending: Ending, failed_before: bool) -> Stage {
    match stage {
        Stage::WriteScript => if ending == Ending::Done {
            Stage::CheckScript
        } else {
            Stage::RemoveScript
        },
        Stage::CheckScript => if ending == Ending::Done {
            Stage::MakeExecutable
        } else {
            Stage::RemoveScript
        },
        Stage::MakeExecutable => if ending == Ending::Done {
            Stage::RunScript
        } else {
            Stage::RemoveScript
        },
        Stage::RunScript => Stage::RemoveScript,
        Stage::RemoveScript => if failed_before {
            Stage::RemoveOutput
        } else {
            Stage::ReadOutput
        },
        Stage::ReadOutput => Stage::RemoveOutput,
        Stage::RemoveOutput => Stage::Finished,
        Stage::Finished => Stage::Finished,
    }
}

/// The place of a stage in the order of stages.
pub open spec fn stage_rank(stage: Stage) -> int {
    match stage {
        Stage::WriteScript => 0,
        Stage::CheckScript => 1,
        Stage::MakeExecutable => 2,
        Stage::RunScript => 3,
        Stage::RemoveScript => 4,
        Stage::ReadOutput => 5,
        Stage::RemoveOutput => 6,
        Stage::Finished => 7,
    }
}

/// Stage `b` can come directly after stage `a`.
pub open spec fn follows(a: Stage, b: Stage) -> bool {
    exists|ending: Ending, failed: bool| b == #[trigger] next_stage(a, ending, failed)
}

/// `trace` is the stages of a fresh elevation from its first stage on, each
/// following from the one before.
pub open spec fn is_run(trace: Seq<Stage>) -> bool {
    &&& trace.len() > 0
    &&& trace[0] == Stage::WriteScript
    &&& forall|i: int| 0 <= i < trace.len() - 1 ==> follows(#[trigger] trace[i], trace[i + 1])
}

/// Every step moves on by one stage at least, and none jumps over the removal
/// of the script or over the removal of the output file.
pub proof fn lemma_stage_order(a: Stage, b: Stage)
    requires
        follows(a, b),
    ensures
        stage_rank(a) <= stage_rank(b),
        a != Stage::Finished ==> stage_rank(a) < stage_rank(b),
        stage_rank(a) < stage_rank(Stage::RemoveScript) ==> stage_rank(b) <= stage_rank(
            Stage::RemoveScript,
        ),
        stage_rank(a) < stage_rank(Stage::RemoveOutput) ==> stage_rank(b) <= stage_rank(
            Stage::RemoveOutput,
        ),
{
    let (ending, failed) = choose|ending: Ending, failed: bool|
        b == #[trigger] next_stage(a, ending, failed);
    assert(b == next_stage(a, ending, failed));
}

/// Along a run the rank of the stage never falls.
proof fn lemma_ranks_rise(trace: Seq<Stage>, i: int, j: int)
    requires
        is_run(trace),
        0 <= i <= j < trace.len(),
    ensures
        stage_rank(trace[i]) <= stage_rank(trace[j]),
    decreases j - i,
{
    if i < j {
        lemma_ranks_rise(trace, i, j - 1);
        assert(follows(trace[j - 1], trace[j - 1 + 1]));
        lemma_stage_order(trace[j - 1], trace[j]);
    }
}

/// A run that has come to the rank of a removal stage or beyond has been at
/// that stage.
proof fn lemma_run_passes(trace: Seq<Stage>, upto: int, through: Stage) -> (i: int)
    requires
        is_run(trace),
        0 <= upto < trace.len(),
        through == Stage::RemoveScript || through == Stage::RemoveOutput,
        stage_rank(trace[upto]) >= stage_rank(through),
    ensures
        0 <= i <= upto,
        trace[i] == through,
    decreases upto,
{
    if upto == 0 {
        0
    } else if stage_rank(trace[upto - 1]) >= stage_rank(through) {
        lemma_run_passes(trace, upto - 1, through)
    } else {
        assert(follows(trace[upto - 1], trace[upto - 1 + 1]));
        lemma_stage_order(trace[upto - 1], trace[upto]);
        upto
    }
}

/// Whatever happens on the way, a fresh elevation that comes to its end has
/// first removed its script and after that its output file: no exit leaves
/// either behind.
pub proof fn lemma_run_cleans_up(trace: Seq<Stage>) -> (r: (int, int))
    requires
        is_run(trace),
        trace.last() == Stage::Finished,
    ensures
        0 <= r.0 < r.1 < trace.len() - 1,
        trace[r.0] == Stage::RemoveScript,
        trace[r.1] == Stage::RemoveOutput,
{
    let end = trace.len() - 1;
    let i = lemma_run_passes(trace, end, Stage::RemoveScript);
    let j = lemma_run_passes(trace, end, Stage::RemoveOutput);
    if i >= j {
        lemma_ranks_rise(trace, j, i);
    }
    (i, j)
}

impl SudoError {
    /// What the user is told of this error.
    pub fn message(&self) -> (r: String)
        ensures
            r@ == error_text(self@),
    {
        match self {
            SudoError::UnsupportedPlatform => string_of(
                &chars_of("Sudo is only supported on Linux and macOS"),
            ),
            SudoError::Filesystem(detail) => detail.clone(),
            SudoError::Spawn(detail) => {
                let mut r = chars_of("Failed to execute script: ");
                extend(&mut r, &chars_of(detail.as_str()));
                string_of(&r)
            },
            SudoError::Timeout => string_of(&chars_of("Command timed out and was stopped")),
            SudoError::AuthenticationFailure => string_of(&chars_of("Incorrect password provided")),
        }
    }
}

/// `command` without a leading elevation verb.
pub fn strip_sudo_prefix(command: &str) -> (r: String)
    ensures
        r@ == target_command(command@),
{
    let c = chars_of(command);
    let verb = chars_of("sudo ");
    if chars_start_with(&c, &verb) {
        proof {
            reveal_strlit("sudo ");
            assert(c@.skip(5) =~= c@.subrange(5, c.len() as int));
        }
        string_of(&slice_of(&c, 5, c.len()))
    } else {
        string_of(&c)
    }
}

/// The characters of the name of attempt `attempt` of process `pid`.
fn attempt_suffix_chars(pid: u32, attempt: u64) -> (r: Vec<char>)
    ensures
        r@ == attempt_suffix(pid, attempt),
{
    let mut r = decimal_chars(pid as u64);
    r.push('_');
    extend(&mut r, &decimal_chars(attempt));
    r
}

/// The path of the file that captures the output of attempt `attempt` of
/// process `pid`, in the directory `temp_dir`.
pub fn sudo_output_path(temp_dir: &str, pid: u32, attempt: u64) -> (r: String)
    ensures
        r@ == output_file(temp_dir@, pid, attempt),
{
    let mut name = chars_of("term_sudo_");
    extend(&mut name, &attempt_suffix_chars(pid, attempt));
    string_of(&join_chars(Platform::Unix, &chars_of(temp_dir), &name))
}

/// The path of the script of attempt `attempt` of process `pid`, in the
/// directory `temp_dir`.
pub fn sudo_script_path(temp_dir: &str, pid: u32, attempt: u64) -> (r: String)
    ensures
        r@ == script_file(temp_dir@, pid, attempt),
{
    let mut name = chars_of("term_sudo_script_");
    extend(&mut name, &attempt_suffix_chars(pid, attempt));
    string_of(&join_chars(Platform::Unix, &chars_of(temp_dir), &name))
}

/// The script that runs `target` with elevated rights, feeding `password` to
/// the elevation tool and capturing all output in `output_path`.
pub fn sudo_script(password: &str, target: &str, output_path: &str) -> (r: String)
    ensures
        r@ == script_text(password@, target@, output_path@),
{
    let quote = chars_of("\"");
    let escaped_quote = chars_of("\\\"");
    let path = chars_of(output_path);
    let mut r = chars_of("#!/bin/bash\necho \"");
    extend(&mut r, &replace_chars(&chars_of(password), &quote, &escaped_quote));
    extend(&mut r, &chars_of("\" | sudo -S "));
    extend(&mut r, &replace_chars(&chars_of(target), &quote, &escaped_quote));
    extend(&mut r, &chars_of(" > \""));
    extend(&mut r, &path);
    extend(
        &mut r,
        &chars_of(
            "\" 2>&1\nexit_code=$?\nif [ $exit_code -ne 0 ]; then\n    echo \"Command failed with exit code $exit_code\" >> \"",
        ),
    );
    extend(&mut r, &path);
    extend(&mut r, &chars_of("\"\nfi\n"));
    string_of(&r)
}

/// Whether the captured output shows that the secret was rejected.
pub fn is_auth_failure(output: &str) -> (b: bool)
    ensures
        b == secret_rejected(output@),
{
    let o = lower_chars(&chars_of(output));
    chars_contain(&o, &lower_chars(&chars_of("incorrect password"))) || chars_contain(
        &o,
        &lower_chars(&chars_of("sorry, try again")),
    ) || chars_contain(&o, &lower_chars(&chars_of("authentication failure"))) || chars_contain(
        &o,
        &lower_chars(&chars_of("no password was provided")),
    )
}

/// How the request to run `command` with elevated rights is served on
/// `host`, given what the cache says at `now`.
pub fn plan_sudo(command: &str, host: Host, cache: &SudoCache, now: u64) -> (plan: SudoPlan)
    ensures
        plan@ == planned(host, model_valid(cache@, now), command@),
{
    if !host.supports_elevation() {
        SudoPlan::Unsupported
    } else if cache.is_valid(now) {
        let mut line = chars_of("sudo ");
        extend(&mut line, &chars_of(strip_sudo_prefix(command).as_str()));
        SudoPlan::Cached(string_of(&line))
    } else {
        SudoPlan::Fresh
    }
}

/// Closes a fresh elevation whose captured output is `output`. Where the
/// output shows that the secret was rejected, the result is an
/// authentication failure and the cache is left as it was; else the grant is
/// recorded at `now` and the output returned.
pub fn conclude_elevation(cache: &mut SudoCache, output: String, now: u64) -> (r: Result<
    String,
    SudoError,
>)
    ensures
        outcome_view(r) == verdict(output@),
        secret_rejected(output@) ==> final(cache)@ == old(cache)@,
        !secret_rejected(output@) ==> final(cache)@ == model_recorded(old(cache)@, now),
{
    if is_auth_failure(output.as_str()) {
        Err(SudoError::AuthenticationFailure)
    } else {
        cache.record_success(now);
        Ok(output)
    }
}

/// The mode that makes the script executable: read and execute for all,
/// write for the owner.
pub const SCRIPT_MODE: u32 = 0o755;

/// What the caller is asked to do next for a fresh elevation. A step is not
/// to be printed: the script it may carry holds the secret.
#[derive(Clone, PartialEq, Eq)]
pub enum SudoStep {
    /// Write `contents` to the file `path`.
    WriteScript { path: String, contents: String },
    /// Read the metadata of the file `path`.
    CheckScript { path: String },
    /// Give the file `path` the permission bits `mode`.
    MakeExecutable { path: String, mode: u32 },
    /// Run the file `path` as a child process and wait for its end, but not
    /// for ever: a child that does not end in time is stopped.
    RunScript { path: String },
    /// Delete the file `path`; whether that works does not matter.
    RemoveScript { path: String },
    /// Read the file `path` as text.
    ReadOutput { path: String },
    /// Delete the file `path`; whether that works does not matter.
    RemoveOutput { path: String },
    /// Nothing more: ask for the result.
    Finish,
}

/// A `SudoStep` with its texts as sequences of characters.
pub enum StepModel {
    WriteScript { path: Seq<char>, contents: Seq<char> },
    CheckScript { path: Seq<char> },
    MakeExecutable { path: Seq<char>, mode: u32 },
    RunScript { path: Seq<char> },
    RemoveScript { path: Seq<char> },
    ReadOutput { path: Seq<char> },
    RemoveOutput { path: Seq<char> },
    Finish,
}

impl View for SudoStep {
    type V = StepModel;

    open spec fn view(&self) -> StepModel {
        match self {
            SudoStep::WriteScript { path, contents } => StepModel::WriteScript {
                path: path@,
                contents: contents@,
            },
            SudoStep::CheckScript { path } => StepModel::CheckScript { path: path@ },
            SudoStep::MakeExecutable { path, mode } => StepModel::MakeExecutable {
                path: path@,
                mode: *mode,
            },
            SudoStep::RunScript { path } => StepModel::RunScript { path: path@ },
            SudoStep::RemoveScript { path } => StepModel::RemoveScript { path: path@ },
            SudoStep::ReadOutput { path } => StepModel::ReadOutput { path: path@ },
            SudoStep::RemoveOutput { path } => StepModel::RemoveOutput { path: path@ },
            SudoStep::Finish => StepModel::Finish,
        }
    }
}

/// How the caller's work on a step ended.
#[derive(Clone, Debug, PartialEq, Eq)]
pub enum StepOutcome {
    /// It was done.
    Done,
    /// It was done and gave this text.
    Output(String),
    /// It could not be done; the text is what the host said.
    Failed(String),
    /// It did not end in time and was stopped.
    TimedOut,
}

/// A `StepOutcome` with its texts as sequences of characters.
pub enum OutcomeModel {
    Done,
    Output(Seq<char>),
    Failed(Seq<char>),
    TimedOut,
}

impl View for StepOutcome {
    type V = OutcomeModel;

    open spec fn view(&self) -> OutcomeModel {
        match self {
            StepOutcome::Done => OutcomeModel::Done,
            StepOutcome::Output(text) => OutcomeModel::Output(text@),
            StepOutcome::Failed(detail) => OutcomeModel::Failed(detail@),
            StepOutcome::TimedOut => OutcomeModel::TimedOut,
        }
    }
}

/// The state of a fresh elevation.
pub struct RunModel {
    pub stage: Stage,
    pub script_path: Seq<char>,
    pub output_path: Seq<char>,
    pub script: Seq<char>,
    /// The first thing that went wrong, if anything did.
    pub failure: Option<SudoFailure>,
    /// What was read from the output file, if it was read.
    pub output: Option<Seq<char>>,
}

/// A fresh elevation as it starts: nothing done, nothing failed.
pub open spec fn started(
    command: Seq<char>,
    password: Seq<char>,
    temp_dir: Seq<char>,
    pid: u32,
    attempt: u64,
) -> RunModel {
    RunModel {
        stage: Stage::WriteScript,
        script_path: script_file(temp_dir, pid, attempt),
        output_path: output_file(temp_dir, pid, attempt),
        script: script_text(
            password,
            target_command(command),
            output_file(temp_dir, pid, attempt),
        ),
        failure: None,
        output: None,
    }
}

/// What the caller is asked to do in the state `m`.
pub open spec fn step_of(m: RunModel) -> StepModel {
    match m.stage {
        Stage::WriteScript => StepModel::WriteScript { path: m.script_path, contents: m.script },
        Stage::CheckScript => StepModel::CheckScript { path: m.script_path },
        Stage::MakeExecutable => StepModel::MakeExecutable {
            path: m.script_path,
            mode: SCRIPT_MODE,
        },
        Stage::RunScript => StepModel::RunScript { path: m.script_path },
        Stage::RemoveScript => StepModel::RemoveScript { path: m.script_path },
        Stage::ReadOutput => StepModel::ReadOutput { path: m.output_path },
        Stage::RemoveOutput => StepModel::RemoveOutput { path: m.output_path },
        Stage::Finished => StepModel::Finish,
    }
}

/// Whether an outcome counts as a failure of the step.
pub open spec fn ending_of(o: OutcomeModel) -> Ending {
    match o {
        OutcomeModel::Failed(_) => Ending::Failed,
        OutcomeModel::TimedOut => Ending::Failed,
        _ => Ending::Done,
    }
}

/// The error that a failed step of stage `stage` stands for. The two removals
/// never fail: what happens to them is ignored.
pub open spec fn failure_of(stage: Stage, o: OutcomeModel) -> Option<SudoFailure> {
    match stage {
        Stage::RemoveScript | Stage::RemoveOutput | Stage::Finished => None,
        _ => match o {
            OutcomeModel::TimedOut => Some(SudoFailure::Timeout),
            OutcomeModel::Failed(detail) => Some(
                match stage {
                    Stage::WriteScript => SudoFailure::Filesystem(
                        "Failed to create script: "@ + detail,
                    ),
                    Stage::CheckScript => SudoFailure::Filesystem(
                        "Failed to get file metadata: "@ + detail,
                    ),
                    Stage::MakeExecutable => SudoFailure::Filesystem(
                        "Failed to set permissions: "@ + detail,
                    ),
                    Stage::ReadOutput => SudoFailure::Filesystem(
                        "Failed to read output: "@ + detail,
                    ),
                    _ => SudoFailure::Spawn(detail),
                },
            ),
            _ => None,
        },
    }
}

/// The text that reading the output file gave; a step done without a text
/// gave the empty one.
pub open spec fn output_of(o: OutcomeModel) -> Option<Seq<char>> {
    match o {
        OutcomeModel::Output(text) => Some(text),
        OutcomeModel::Done => Some(Seq::empty()),
        _ => None,
    }
}

/// The state after the step of state `m` ended with `o`. A failure sends the
/// run to the removal of its script; after that the output is read only where
/// nothing has failed; both removals take place in every case.
pub open spec fn advanced(m: RunModel, o: OutcomeModel) -> RunModel {
    let failure = match m.failure {
        Some(f) => Some(f),
        None => failure_of(m.stage, o),
    };
    RunModel {
        stage: next_stage(
            m.stage,
            if failure_of(m.stage, o) is Some {
                Ending::Failed
            } else {
                Ending::Done
            },
            m.failure is Some,
        ),
        script_path: m.script_path,
        output_path: m.output_path,
        script: m.script,
        failure,
        output: if m.stage == Stage::ReadOutput {
            output_of(o)
        } else {
            m.output
        },
    }
}

/// What a run comes to once it is finished: the first failure where there was
/// one, else the verdict on the output that was read. A run that is not
/// finished has no result yet.
pub open spec fn result_of(m: RunModel) -> Option<Result<Seq<char>, SudoFailure>> {
    if m.stage != Stage::Finished {
        None
    } else {
        match (m.failure, m.output) {
            (Some(f), _) => Some(Err(f)),
            (None, Some(output)) => Some(verdict(output)),
            (None, None) => Some(verdict(Seq::empty())),
        }
    }
}

/// Whether closing the run `m` records a grant in the cache: only a finished
/// run without failure whose output does not show a rejected secret does.
pub open spec fn grants(m: RunModel) -> bool {
    result_of(m) matches Some(Ok(_))
}

/// Hands out the numbers by which the attempts of one process are told
/// apart: 0, 1, 2 and so on, none of them twice.
#[derive(Debug)]
pub struct AttemptCounter {
    issued: u64,
}

impl View for AttemptCounter {
    type V = nat;

    /// How many numbers were handed out.
    closed spec fn view(&self) -> nat {
        self.issued as nat
    }
}

impl AttemptCounter {
    /// A counter that has handed out nothing.
    pub fn new() -> (c: AttemptCounter)
        ensures
            c@ == 0,
    {
        AttemptCounter { issued: 0 }
    }

    /// The number of the next attempt: as many as were handed out before.
    /// `None`, and nothing changed, once every number is taken.
    pub fn next_attempt(&mut self) -> (r: Option<u64>)
        ensures
            match r {
                Some(n) => n == old(self)@ && final(self)@ == old(self)@ + 1,
                None => old(self)@ >= u64::MAX && final(self)@ == old(self)@,
            },
    {
        if self.issued == u64::MAX {
            None
        } else {
            let n = self.issued;
            self.issued = n + 1;
            Some(n)
        }
    }
}

/// What `SudoRun::begin` gives on `host` when `issued` attempts were numbered
/// before: an error where the host has no elevation or no number is left,
/// else a run in its first stage whose files carry the number `issued`.
pub open spec fn begun(
    r: Result<SudoRun, SudoError>,
    command: Seq<char>,
    password: Seq<char>,
    temp_dir: Seq<char>,
    pid: u32,
    issued: nat,
    host: Host,
) -> bool {
    if !elevation_supported(host) {
        r matches Err(e) && e@ == SudoFailure::UnsupportedPlatform
    } else if issued >= u64::MAX {
        r matches Err(e) && e@ == SudoFailure::Filesystem(
            "Failed to create script: every attempt number is taken"@,
        )
    } else {
        r matches Ok(run) && run@ == started(command, password, temp_dir, pid, issued as u64)
    }
}

/// A fresh elevation under way. The caller does the work of each step and
/// reports how it ended; the run decides what comes next.
pub struct SudoRun {
    stage: Stage,
    script_path: String,
    output_path: String,
    script: String,
    failure: Option<SudoError>,
    output: Option<String>,
}

impl View for SudoRun {
    type V = RunModel;

    closed spec fn view(&self) -> RunModel {
        RunModel {
            stage: self.stage,
            script_path: self.script_path@,
            output_path: self.output_path@,
            script: self.script@,
            failure: match self.failure {
                Some(e) => Some(e@),
                None => None,
            },
            output: match self.output {
                Some(text) => Some(text@),
                None => None,
            },
        }
    }
}

/// `detail` behind `prefix`.
fn prefixed(prefix: &str, detail: &String) -> (r: String)
    ensures
        r@ == prefix@ + detail@,
{
    let mut r = chars_of(prefix);
    extend(&mut r, &chars_of(detail.as_str()));
    string_of(&r)
}

/// The error that a step of stage `stage` which ended with `outcome` stands
/// for.
fn failure_for(stage: Stage, outcome: &StepOutcome) -> (r: Option<SudoError>)
    ensures
        match r {
            Some(e) => failure_of(stage, outcome@) == Some(e@),
            None => failure_of(stage, outcome@) is None,
        },
{
    match stage {
        Stage::RemoveScript | Stage::RemoveOutput | Stage::Finished => None,
        _ => match outcome {
            StepOutcome::TimedOut => Some(SudoError::Timeout),
            StepOutcome::Failed(detail) => Some(
                match stage {
                    Stage::WriteScript => SudoError::Filesystem(
                        prefixed("Failed to create script: ", detail),
                    ),
                    Stage::CheckScript => SudoError::Filesystem(
                        prefixed("Failed to get file metadata: ", detail),
                    ),
                    Stage::MakeExecutable => SudoError::Filesystem(
                        prefixed("Failed to set permissions: ", detail),
                    ),
                    Stage::ReadOutput => SudoError::Filesystem(
                        prefixed("Failed to read output: ", detail),
                    ),
                    _ => SudoError::Spawn(detail.clone()),
                },
            ),
            _ => None,
        },
    }
}

impl SudoRun {
    /// Starts a fresh elevation of `command` with the secret `password`. Its
    /// two files lie in `temp_dir` and are named after the process `pid` and
    /// the number that `counter` hands out for this attempt. On a host
    /// without elevation there is nothing to start: the error comes before
    /// any file is touched, and no number is used up.
    pub fn begin(
        command: &str,
        password: &str,
        temp_dir: &str,
        pid: u32,
        counter: &mut AttemptCounter,
        host: Host,
    ) -> (r: Result<SudoRun, SudoError>)
        ensures
            begun(r, command@, password@, temp_dir@, pid, old(counter)@, host),
            r is Ok ==> final(counter)@ == old(counter)@ + 1,
            r is Err ==> final(counter)@ == old(counter)@,
    {
        if !host.supports_elevation() {
            return Err(SudoError::UnsupportedPlatform);
        }
        match counter.next_attempt() {
            None => Err(
                SudoError::Filesystem(
                    string_of(&chars_of("Failed to create script: every attempt number is taken")),
                ),
            ),
            Some(attempt) => {
                let target = strip_sudo_prefix(command);
                let output_path = sudo_output_path(temp_dir, pid, attempt);
                let script = sudo_script(password, target.as_str(), output_path.as_str());
                Ok(
                    SudoRun {
                        stage: Stage::WriteScript,
                        script_path: sudo_script_path(temp_dir, pid, attempt),
                        output_path,
                        script,
                        failure: None,
                        output: None,
                    },
                )
            },
        }
    }

    /// The stage that the run is in.
    pub fn stage(&self) -> (stage: Stage)
        ensures
            stage == self@.stage,
    {
        self.stage
    }

    /// What the caller is asked to do now.
    pub fn step(&self) -> (step: SudoStep)
        ensures
            step@ == step_of(self@),
    {
        match self.stage {
            Stage::WriteScript => SudoStep::WriteScript {
                path: self.script_path.clone(),
                contents: self.script.clone(),
            },
            Stage::CheckScript => SudoStep::CheckScript { path: self.script_path.clone() },
            Stage::MakeExecutable => SudoStep::MakeExecutable {
                path: self.script_path.clone(),
                mode: SCRIPT_MODE,
            },
            Stage::RunScript => SudoStep::RunScript { path: self.script_path.clone() },
            Stage::RemoveScript => SudoStep::RemoveScript { path: self.script_path.clone() },
            Stage::ReadOutput => SudoStep::ReadOutput { path: self.output_path.clone() },
            Stage::RemoveOutput => SudoStep::RemoveOutput { path: self.output_path.clone() },
            Stage::Finished => SudoStep::Finish,
        }
    }

    /// Takes note of how the current step ended and moves on to the next
    /// stage.
    pub fn advance(&mut self, outcome: StepOutcome)
        ensures
            final(self)@ == advanced(old(self)@, outcome@),
            follows(old(self)@.stage, final(self)@.stage),
    {
        let failed_before = self.failure.is_some();
        let failure = failure_for(self.stage, &outcome);
        let failed_now = failure.is_some();
        let next = match self.stage {
            Stage::WriteScript => if failed_now {
                Stage::RemoveScript
            } else {
                Stage::CheckScript
            },
            Stage::CheckScript => if failed_now {
                Stage::RemoveScript
            } else {
                Stage::MakeExecutable
            },
            Stage::MakeExecutable => if failed_now {
                Stage::RemoveScript
            } else {
                Stage::RunScript
            },
            Stage::RunScript => Stage::RemoveScript,
            Stage::RemoveScript => if failed_before {
                Stage::RemoveOutput
            } else {
                Stage::ReadOutput
            },
            Stage::ReadOutput => Stage::RemoveOutput,
            Stage::RemoveOutput => Stage::Finished,
            Stage::Finished => Stage::Finished,
        };
        proof {
            assert(next == next_stage(
                self.stage,
                if failed_now {
                    Ending::Failed
                } else {
                    Ending::Done
                },
                failed_before,
            ));
        }
        if self.stage == Stage::ReadOutput {
            self.output = match outcome {
                StepOutcome::Output(text) => Some(text),
                StepOutcome::Done => Some(String::new()),
                _ => None,
            };
        }
        if !failed_before {
            self.failure = failure;
        }
        self.stage = next;
    }

    /// Closes the run: `None`, and nothing changed, while it is not
    /// finished; else its result. The grant is recorded in `cache` at `now`
    /// where the result is the captured output, and only there.
    pub fn conclude(self, cache: &mut SudoCache, now: u64) -> (r: Option<Result<String, SudoError>>)
        ensures
            match r {
                Some(result) => result_of(self@) == Some(outcome_view(result)),
                None => result_of(self@) is None,
            },
            grants(self@) ==> final(cache)@ == model_recorded(old(cache)@, now),
            !grants(self@) ==> final(cache)@ == old(cache)@,
    {
        if self.stage != Stage::Finished {
            return None;
        }
        match self.failure {
            Some(e) => Some(Err(e)),
            None => {
                let output = match self.output {
                    Some(text) => text,
                    None => String::new(),
                };
                Some(conclude_elevation(cache, output, now))
            },
        }
    }
}

/// The steps that `advance` takes make a run: from the first stage on, each
/// stage follows from the one before.
pub proof fn lemma_advance_makes_run(states: Seq<RunModel>, outcomes: Seq<OutcomeModel>)
    requires
        states.len() == outcomes.len() + 1,
        states[0].stage == Stage::WriteScript,
        forall|i: int|
            0 <= i < outcomes.len() ==> states[i + 1] == advanced(
                #[trigger] states[i],
                outcomes[i],
            ),
    ensures
        is_run(states.map_values(|m: RunModel| m.stage)),
{
    let trace = states.map_values(|m: RunModel| m.stage);
    assert forall|i: int| 0 <= i < trace.len() - 1 implies follows(
        #[trigger] trace[i],
        trace[i + 1],
    ) by {
        let m = states[i];
        let o = outcomes[i];
        assert(states[i + 1] == advanced(m, o));
        assert(trace[i + 1] == next_stage(
            trace[i],
            if failure_of(m.stage, o) is Some {
                Ending::Failed
            } else {
                Ending::Done
            },
            m.failure is Some,
        ));
    }
}

/// What occurs in a part of a text occurs in the text.
proof fn lemma_contains_transitive(s: Seq<char>, p: Seq<char>, q: Seq<char>)
    requires
        contains(s, p),
        contains(p, q),
    ensures
        contains(s, q),
{
    let i = choose|i: int| has_at(s, p, i);
    let j = choose|j: int| has_at(p, q, j);
    assert(s.subrange(i + j, i + j + q.len()) =~= q) by {
        assert forall|k: int| 0 <= k < q.len() implies s[i + j + k] == q[k] by {
            assert(p.subrange(j, j + q.len())[k] == p[j + k]);
            assert(s.subrange(i, i + p.len())[j + k] == s[i + j + k]);
        }
    }
    assert(has_at(s, q, i + j));
}

/// Whether an output counts as a rejection does not hang on the case of its
/// letters: two outputs that differ in nothing else are judged alike.
pub proof fn lemma_rejection_ignores_case(a: Seq<char>, b: Seq<char>)
    requires
        ascii_lowered(a) == ascii_lowered(b),
    ensures
        secret_rejected(a) == secret_rejected(b),
{
}

/// Every message by which the elevation tool is known to turn a secret down
/// counts as a rejection, wherever in the output it stands.
pub proof fn lemma_known_messages_rejected(output: Seq<char>)
    requires
        contains(output, "incorrect password"@) || contains(output, "Sorry, try again"@)
            || contains(output, "Authentication failure"@) || contains(
            output,
            "authentication failure"@,
        ) || contains(output, "sudo: no password was provided"@) || contains(
            output,
            "sudo: 1 incorrect password attempt"@,
        ),
    ensures
        secret_rejected(output),
{
    reveal_strlit("incorrect password");
    reveal_strlit("Sorry, try again");
    reveal_strlit("sorry, try again");
    reveal_strlit("Authentication failure");
    reveal_strlit("authentication failure");
    reveal_strlit("sudo: no password was provided");
    reveal_strlit("no password was provided");
    reveal_strlit("sudo: 1 incorrect password attempt");
    if contains(output, "incorrect password"@) {
        lemma_lowering_keeps_occurrences(output, "incorrect password"@);
    } else if contains(output, "Sorry, try again"@) {
        lemma_lowering_keeps_occurrences(output, "Sorry, try again"@);
        assert(ascii_lowered("Sorry, try again"@) =~= ascii_lowered("sorry, try again"@));
    } else if contains(output, "Authentication failure"@) {
        lemma_lowering_keeps_occurrences(output, "Authentication failure"@);
        assert(ascii_lowered("Authentication failure"@) =~= ascii_lowered(
            "authentication failure"@,
        ));
    } else if contains(output, "authentication failure"@) {
        lemma_lowering_keeps_occurrences(output, "authentication failure"@);
    } else if contains(output, "sudo: no password was provided"@) {
        let whole = "sudo: no password was provided"@;
        let part = "no password was provided"@;
        assert(whole.subrange(6, 6 + part.len() as int) =~= part);
        assert(has_at(whole, part, 6));
        lemma_contains_transitive(output, whole, part);
        lemma_lowering_keeps_occurrences(output, part);
    } else {
        let whole = "sudo: 1 incorrect password attempt"@;
        let part = "incorrect password"@;
        assert(whole.subrange(8, 8 + part.len() as int) =~= part);
        assert(has_at(whole, part, 8));
        lemma_contains_transitive(output, whole, part);
        lemma_lowering_keeps_occurrences(output, part);
    }
}

/// A rejected secret never grants: where the output that a run read shows
/// that the elevation tool rejected the secret, the run ends in an
/// authentication failure or in an earlier failure, and closing it leaves the
/// cache as it was.
pub proof fn lemma_rejected_secret_grants_nothing(m: RunModel)
    requires
        m.stage == Stage::Finished,
        m.output matches Some(output) && secret_rejected(output),
    ensures
        !grants(m),
        m.failure is None ==> result_of(m) == Some(
            Err::<Seq<char>, SudoFailure>(SudoFailure::AuthenticationFailure),
        ),
{
}

} // verus!
