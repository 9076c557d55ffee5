//! The bridge state machine.
//!
//! One invocation walks a fixed line: write the payload to the input temp
//! file, spawn the engine over it, read the output temp file back, delete
//! both files, finish. The machine holds the decision logic; the host
//! performs each requested [`Action`] and answers with the matching
//! [`Event`]. Every transition is stated by [`step_view`] and proved of
//! [`Bridge::step`].
//!
//! Documented hazard: the temp file names are fixed per temp directory, so
//! two bridges running at once share the same two files and may corrupt each
//! other's payloads (see [`lemma_shared_temp_paths`]).

use vstd::prelude::*;
use vstd::string::StringExecFns;

use crate::messages::{
    code_view, engine_failure_message, engine_failure_text, exit_code_text,
    lemma_failure_message_reports_outcome, lemma_spawn_message_names_path, read_error_message,
    read_error_text, spawn_error_message, spawn_error_text, write_error_message, write_error_text,
};
use crate::text::contains_seq;

verus! {

/// What the host observed of a finished engine process.
#[derive(Debug, PartialEq, Eq)]
pub struct ExitOutcome {
    /// Whether the exit status reported success.
    pub success: bool,
    /// The exit code, absent when the process ended without one.
    pub code: Option<i32>,
    /// Captured standard output, as text.
    pub stdout: String,
    /// Captured standard error, as text.
    pub stderr: String,
}

/// The mathematical shape of an exit outcome.
#[verifier::ext_equal]
pub struct ExitView {
    pub success: bool,
    pub code: Option<int>,
    pub stdout: Seq<char>,
    pub stderr: Seq<char>,
}

impl View for ExitOutcome {
    type V = ExitView;

    open spec fn view(&self) -> ExitView {
        ExitView {
            success: self.success,
            code: code_view(self.code),
            stdout: self.stdout@,
            stderr: self.stderr@,
        }
    }
}

/// The host's answer to the most recent action: how the requested filesystem
/// or process work turned out. Error payloads carry the host's error text.
#[derive(Debug, PartialEq, Eq)]
pub enum Event {
    /// The input payload was written, or failed with the given error text.
    WriteDone(Result<(), String>),
    /// The engine ran to completion, or could not be spawned.
    SpawnDone(Result<ExitOutcome, String>),
    /// The output file was read, or reading it failed.
    ReadDone(Result<String, String>),
    /// Both temp files were deleted as far as possible; failures are ignored.
    CleanupDone,
}

/// The mathematical shape of an event.
#[verifier::ext_equal]
pub enum EventView {
    WriteDone(Result<(), Seq<char>>),
    SpawnDone(Result<ExitView, Seq<char>>),
    ReadDone(Result<Seq<char>, Seq<char>>),
    CleanupDone,
}

impl View for Event {
    type V = EventView;

    open spec fn view(&self) -> EventView {
        match self {
            Event::WriteDone(r) => EventView::WriteDone(
                match r {
                    Ok(u) => Ok(*u),
                    Err(e) => Err(e@),
                },
            ),
            Event::SpawnDone(r) => EventView::SpawnDone(
                match r {
                    Ok(out) => Ok(out@),
                    Err(e) => Err(e@),
                },
            ),
            Event::ReadDone(r) => EventView::ReadDone(
                match r {
                    Ok(t) => Ok(t@),
                    Err(e) => Err(e@),
                },
            ),
            Event::CleanupDone => EventView::CleanupDone,
        }
    }
}

/// What the machine asks the host to do next.
#[derive(Debug, PartialEq, Eq)]
pub enum Action {
    /// Write `contents` to the file at `path`.
    WriteInput { path: String, contents: String },
    /// Spawn `program` with `args`, capture its output, and wait for it.
    SpawnEngine { program: String, args: Vec<String> },
    /// Read the file at `path` as text.
    ReadOutput { path: String },
    /// Best-effort delete both temp files; ignore deletion errors.
    RemoveBoth { input_path: String, output_path: String },
    /// The invocation is over; hand `result` to the caller.
    Finish { result: Result<String, String> },
}

/// The mathematical shape of an action.
#[verifier::ext_equal]
pub enum ActionView {
    WriteInput { path: Seq<char>, contents: Seq<char> },
    SpawnEngine { program: Seq<char>, args: Seq<Seq<char>> },
    ReadOutput { path: Seq<char> },
    RemoveBoth { input_path: Seq<char>, output_path: Seq<char> },
    Finish { result: Result<Seq<char>, Seq<char>> },
}

/// The view of a result whose both sides are text.
pub open spec fn res_view(r: Result<String, String>) -> Result<Seq<char>, Seq<char>> {
    match r {
        Ok(s) => Ok(s@),
        Err(s) => Err(s@),
    }
}

impl View for Action {
    type V = ActionView;

    open spec fn view(&self) -> ActionView {
        match self {
            Action::WriteInput { path, contents } => ActionView::WriteInput {
                path: path@,
                contents: contents@,
            },
            Action::SpawnEngine { program, args } => ActionView::SpawnEngine {
                program: program@,
                args: args@.map_values(|s: String| s@),
            },
            Action::ReadOutput { path } => ActionView::ReadOutput { path: path@ },
            Action::RemoveBoth { input_path, output_path } => ActionView::RemoveBoth {
                input_path: input_path@,
                output_path: output_path@,
            },
            Action::Finish { result } => ActionView::Finish { result: res_view(*result) },
        }
    }
}

/// Where an invocation stands: which event it is waiting for, and, once the
/// outcome is settled, what it is.
#[derive(Debug, PartialEq, Eq)]
pub enum Phase {
    AwaitingWrite,
    AwaitingSpawn,
    AwaitingRead,
    AwaitingCleanup { result: Result<String, String> },
    Finished { result: Result<String, String> },
}

/// The mathematical shape of a phase.
#[verifier::ext_equal]
pub enum PhaseView {
    AwaitingWrite,
    AwaitingSpawn,
    AwaitingRead,
    AwaitingCleanup { result: Result<Seq<char>, Seq<char>> },
    Finished { result: Result<Seq<char>, Seq<char>> },
}

impl View for Phase {
    type V = PhaseView;

    open spec fn view(&self) -> PhaseView {
        match self {
            Phase::AwaitingWrite => PhaseView::AwaitingWrite,
            Phase::AwaitingSpawn => PhaseView::AwaitingSpawn,
            Phase::AwaitingRead => PhaseView::AwaitingRead,
            Phase::AwaitingCleanup { result } => PhaseView::AwaitingCleanup {
                result: res_view(*result),
            },
            Phase::Finished { result } => PhaseView::Finished { result: res_view(*result) },
        }
    }
}

/// One invocation of the engine: the resolved engine path, the two temp file
/// paths, and the phase the invocation is in.
#[derive(Debug, PartialEq, Eq)]
pub struct Bridge {
    pub engine_path: String,
    pub input_path: String,
    pub output_path: String,
    pub phase: Phase,
}

/// The mathematical shape of a bridge.
#[verifier::ext_equal]
pub struct BridgeView {
    pub engine_path: Seq<char>,
    pub input_path: Seq<char>,
    pub output_path: Seq<char>,
    pub phase: PhaseView,
}

impl View for Bridge {
    type V = BridgeView;

    open spec fn view(&self) -> BridgeView {
        BridgeView {
            engine_path: self.engine_path@,
            input_path: self.input_path@,
            output_path: self.output_path@,
            phase: self.phase@,
        }
    }
}

/// The fixed name of the input temp file.
pub open spec fn input_file_text() -> Seq<char> {
    "contam_input.json"@
}

/// The fixed name of the output temp file.
pub open spec fn output_file_text() -> Seq<char> {
    "contam_output.json"@
}

/// A directory entry path: the directory, the separator, the file name.
pub open spec fn joined_path(dir: Seq<char>, sep: Seq<char>, name: Seq<char>) -> Seq<char> {
    dir + sep + name
}

/// The argument list the engine is invoked with:
/// `-i <input_path> -o <output_path> -v`.
pub open spec fn engine_args_text(input_path: Seq<char>, output_path: Seq<char>) -> Seq<Seq<char>> {
    seq!["-i"@, input_path, "-o"@, output_path, "-v"@]
}

/// Joins a directory, a separator, and a file name into one path.
pub fn temp_file_path(temp_dir: &str, sep: &str, name: &str) -> (r: String)
    ensures
        r@ == joined_path(temp_dir@, sep@, name@),
{
    let mut s = temp_dir.to_owned();
    s.append(sep);
    s.append(name);
    s
}

/// Builds the engine's argument list.
pub fn engine_args(input_path: &str, output_path: &str) -> (r: Vec<String>)
    ensures
        r@.map_values(|s: String| s@) == engine_args_text(input_path@, output_path@),
{
    let mut v: Vec<String> = Vec::new();
    v.push("-i".to_owned());
    v.push(input_path.to_owned());
    v.push("-o".to_owned());
    v.push(output_path.to_owned());
    v.push("-v".to_owned());
    proof {
        assert(v@.map_values(|s: String| s@) =~= engine_args_text(input_path@, output_path@));
    }
    v
}

/// Which event a phase is waiting for: the host must answer the action the
/// machine last issued, and a finished machine takes no event at all.
pub open spec fn event_fits(p: PhaseView, ev: EventView) -> bool {
    match ev {
        EventView::WriteDone(_) => p is AwaitingWrite,
        EventView::SpawnDone(_) => p is AwaitingSpawn,
        EventView::ReadDone(_) => p is AwaitingRead,
        EventView::CleanupDone => p is AwaitingCleanup,
    }
}

/// The machine a fresh invocation starts in, and its first action: writing
/// the payload to the input temp file.
pub open spec fn start_view(
    temp_dir: Seq<char>,
    sep: Seq<char>,
    engine_path: Seq<char>,
    input: Seq<char>,
) -> (BridgeView, ActionView) {
    let input_path = joined_path(temp_dir, sep, input_file_text());
    let output_path = joined_path(temp_dir, sep, output_file_text());
    (
        BridgeView { engine_path, input_path, output_path, phase: PhaseView::AwaitingWrite },
        ActionView::WriteInput { path: input_path, contents: input },
    )
}

/// Every transition of the machine: from the bridge and the event to the next
/// bridge and the action the host is asked to perform.
pub open spec fn step_view(b: BridgeView, ev: EventView) -> (BridgeView, ActionView) {
    match ev {
        EventView::WriteDone(r) => match r {
            Ok(_) => (
                BridgeView { phase: PhaseView::AwaitingSpawn, ..b },
                ActionView::SpawnEngine {
                    program: b.engine_path,
                    args: engine_args_text(b.input_path, b.output_path),
                },
            ),
            // The input file was never created, so nothing is cleaned up.
            Err(e) => (
                BridgeView { phase: PhaseView::Finished { result: Err(write_error_text(e)) }, ..b },
                ActionView::Finish { result: Err(write_error_text(e)) },
            ),
        },
        EventView::SpawnDone(r) => match r {
            Ok(out) => if out.success {
                (
                    BridgeView { phase: PhaseView::AwaitingRead, ..b },
                    ActionView::ReadOutput { path: b.output_path },
                )
            } else {
                (
                    BridgeView {
                        phase: PhaseView::AwaitingCleanup {
                            result: Err(engine_failure_text(out.code, out.stdout, out.stderr)),
                        },
                        ..b
                    },
                    ActionView::RemoveBoth { input_path: b.input_path, output_path: b.output_path },
                )
            },
            Err(e) => (
                BridgeView {
                    phase: PhaseView::AwaitingCleanup {
                        result: Err(spawn_error_text(b.engine_path, e)),
                    },
                    ..b
                },
                ActionView::RemoveBoth { input_path: b.input_path, output_path: b.output_path },
            ),
        },
        EventView::ReadDone(r) => match r {
            Ok(t) => (
                BridgeView { phase: PhaseView::AwaitingCleanup { result: Ok(t) }, ..b },
                ActionView::RemoveBoth { input_path: b.input_path, output_path: b.output_path },
            ),
            Err(e) => (
                BridgeView {
                    phase: PhaseView::AwaitingCleanup { result: Err(read_error_text(e)) },
                    ..b
                },
                ActionView::RemoveBoth { input_path: b.input_path, output_path: b.output_path },
            ),
        },
        EventView::CleanupDone => match b.phase {
            PhaseView::AwaitingCleanup { result } => (
                BridgeView { phase: PhaseView::Finished { result }, ..b },
                ActionView::Finish { result },
            ),
            _ => (b, ActionView::Finish { result: Err(Seq::empty()) }),
        },
    }
}

fn clone_result(r: &Result<String, String>) -> (o: Result<String, String>)
    ensures
        res_view(o) == res_view(*r),
{
    match r {
        Ok(s) => Ok(s.clone()),
        Err(s) => Err(s.clone()),
    }
}

/// Starts one invocation: fixes the temp file paths inside `temp_dir` and
/// asks the host to write the payload to the input file.
pub fn start(temp_dir: &str, sep: &str, engine_path: String, input: String) -> (r: (Bridge, Action))
    ensures
        (r.0@, r.1@) == start_view(temp_dir@, sep@, engine_path@, input@),
{
    let input_path = temp_file_path(temp_dir, sep, "contam_input.json");
    let output_path = temp_file_path(temp_dir, sep, "contam_output.json");
    let action = Action::WriteInput { path: input_path.clone(), contents: input };
    let bridge = Bridge { engine_path, input_path, output_path, phase: Phase::AwaitingWrite };
    (bridge, action)
}

impl Bridge {
    /// Takes the host's answer to the last action and returns the next one,
    /// exactly as [`step_view`] states.
    pub fn step(&mut self, ev: Event) -> (a: Action)
        requires
            event_fits(old(self)@.phase, ev@),
        ensures
            (final(self)@, a@) == step_view(old(self)@, ev@),
    {
        match ev {
            Event::WriteDone(r) => match r {
                Ok(_) => {
                    self.phase = Phase::AwaitingSpawn;
                    let args = engine_args(self.input_path.as_str(), self.output_path.as_str());
                    Action::SpawnEngine { program: self.engine_path.clone(), args }
                },
                Err(e) => {
                    let msg = write_error_message(e.as_str());
                    self.phase = Phase::Finished { result: Err(msg.clone()) };
                    Action::Finish { result: Err(msg) }
                },
            },
            Event::SpawnDone(r) => match r {
                Ok(out) => if out.success {
                    self.phase = Phase::AwaitingRead;
                    Action::ReadOutput { path: self.output_path.clone() }
                } else {
                    let msg = engine_failure_message(
                        out.code,
                        out.stdout.as_str(),
                        out.stderr.as_str(),
                    );
                    self.phase = Phase::AwaitingCleanup { result: Err(msg) };
                    Action::RemoveBoth {
                        input_path: self.input_path.clone(),
                        output_path: self.output_path.clone(),
                    }
                },
                Err(e) => {
                    let msg = spawn_error_message(self.engine_path.as_str(), e.as_str());
                    self.phase = Phase::AwaitingCleanup { result: Err(msg) };
                    Action::RemoveBoth {
                        input_path: self.input_path.clone(),
                        output_path: self.output_path.clone(),
                    }
                },
            },
            Event::ReadDone(r) => match r {
                Ok(t) => {
                    self.phase = Phase::AwaitingCleanup { result: Ok(t) };
                    Action::RemoveBoth {
                        input_path: self.input_path.clone(),
                        output_path: self.output_path.clone(),
                    }
                },
                Err(e) => {
                    let msg = read_error_message(e.as_str());
                    self.phase = Phase::AwaitingCleanup { result: Err(msg) };
                    Action::RemoveBoth {
                        input_path: self.input_path.clone(),
                        output_path: self.output_path.clone(),
                    }
                },
            },
            Event::CleanupDone => match &self.phase {
                Phase::AwaitingCleanup { result } => {
                    let r = clone_result(result);
                    self.phase = Phase::Finished { result: clone_result(&r) };
                    Action::Finish { result: r }
                },
                _ => vstd::pervasive::unreached(),
            },
        }
    }
}

/// Round-trip identity: when the engine behaves as a copying stub — every
/// step succeeds and the text read back from the output file is exactly the
/// payload that the first action wrote — the invocation finishes with that
/// same payload as its result, unchanged.
pub proof fn lemma_round_trip(
    temp_dir: Seq<char>,
    sep: Seq<char>,
    engine_path: Seq<char>,
    input: Seq<char>,
    out: ExitView,
)
    requires
        out.success,
    ensures
        ({
            let (b0, a0) = start_view(temp_dir, sep, engine_path, input);
            let (b1, _) = step_view(b0, EventView::WriteDone(Ok(())));
            let (b2, _) = step_view(b1, EventView::SpawnDone(Ok(out)));
            let (b3, _) = step_view(b2, EventView::ReadDone(Ok(input)));
            let (b4, a4) = step_view(b3, EventView::CleanupDone);
            &&& a0 == (ActionView::WriteInput {
                path: joined_path(temp_dir, sep, input_file_text()),
                contents: input,
            })
            &&& b4.phase == (PhaseView::Finished { result: Ok(input) })
            &&& a4 == (ActionView::Finish { result: Ok(input) })
        }),
{
}

/// An unsuccessful engine exit surfaces, after cleanup, an error message that
/// carries the exit code and the captured stdout and stderr verbatim.
pub proof fn lemma_engine_failure_surfaced(b: BridgeView, out: ExitView)
    requires
        b.phase is AwaitingSpawn,
        !out.success,
    ensures
        ({
            let msg = engine_failure_text(out.code, out.stdout, out.stderr);
            let (b1, a1) = step_view(b, EventView::SpawnDone(Ok(out)));
            let (b2, a2) = step_view(b1, EventView::CleanupDone);
            &&& a1 == (ActionView::RemoveBoth {
                input_path: b.input_path,
                output_path: b.output_path,
            })
            &&& b2.phase == (PhaseView::Finished { result: Err(msg) })
            &&& a2 == (ActionView::Finish { result: Err(msg) })
            &&& contains_seq(msg, exit_code_text(out.code))
            &&& contains_seq(msg, out.stdout)
            &&& contains_seq(msg, out.stderr)
        }),
{
    lemma_failure_message_reports_outcome(out.code, out.stdout, out.stderr);
}

/// A failed spawn attempt surfaces, after cleanup, an error message that
/// names the attempted engine path.
pub proof fn lemma_spawn_failure_surfaced(b: BridgeView, e: Seq<char>)
    requires
        b.phase is AwaitingSpawn,
    ensures
        ({
            let msg = spawn_error_text(b.engine_path, e);
            let (b1, a1) = step_view(b, EventView::SpawnDone(Err(e)));
            let (b2, a2) = step_view(b1, EventView::CleanupDone);
            &&& a1 == (ActionView::RemoveBoth {
                input_path: b.input_path,
                output_path: b.output_path,
            })
            &&& b2.phase == (PhaseView::Finished { result: Err(msg) })
            &&& a2 == (ActionView::Finish { result: Err(msg) })
            &&& contains_seq(msg, b.engine_path)
        }),
{
    lemma_spawn_message_names_path(b.engine_path, e);
}

/// The only way to finish without having issued a cleanup of both temp files
/// is the input-write failure, where no temp file was created yet.
pub proof fn lemma_cleanup_only_skipped_before_creation(b: BridgeView, ev: EventView)
    requires
        event_fits(b.phase, ev),
        step_view(b, ev).0.phase is Finished,
    ensures
        b.phase is AwaitingCleanup || ev matches EventView::WriteDone(Err(_)),
{
}

/// Every transition into the cleanup phase — engine failure, spawn failure,
/// read failure, or success — asks the host to delete both temp files.
pub proof fn lemma_cleanup_removes_both(b: BridgeView, ev: EventView)
    requires
        event_fits(b.phase, ev),
        step_view(b, ev).0.phase is AwaitingCleanup,
    ensures
        step_view(b, ev).1 == (ActionView::RemoveBoth {
            input_path: b.input_path,
            output_path: b.output_path,
        }),
{
}

/// Documented hazard: the temp file paths depend on the temp directory alone,
/// so two invocations started with different engines and different payloads
/// still target the very same two files and are not isolated from each other.
pub proof fn lemma_shared_temp_paths(
    temp_dir: Seq<char>,
    sep: Seq<char>,
    engine_a: Seq<char>,
    engine_b: Seq<char>,
    input_a: Seq<char>,
    input_b: Seq<char>,
)
    ensures
        start_view(temp_dir, sep, engine_a, input_a).0.input_path == start_view(
            temp_dir,
            sep,
            engine_b,
            input_b,
        ).0.input_path,
        start_view(temp_dir, sep, engine_a, input_a).0.output_path == start_view(
            temp_dir,
            sep,
            engine_b,
            input_b,
        ).0.output_path,
{
}

} // verus!
