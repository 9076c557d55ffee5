//! The failure messages the bridge returns, each built exactly as its spec
//! function states, so callers see which stage failed and why.

use vstd::prelude::*;
use vstd::string::StringExecFns;

use crate::decimal::{i32_to_string, int_to_dec};
use crate::text::{contains_seq, lemma_concat_contains};

verus! {

/// The view of an exit code as the engine hands it back: `Some` of the code,
/// or `None` when the process was ended without one (for example by a signal).
pub open spec fn code_view(code: Option<i32>) -> Option<int> {
    match code {
        Some(c) => Some(c as int),
        None => None,
    }
}

/// The text a reported exit code renders to: `Some(<code>)` or `None`.
pub open spec fn exit_code_text(code: Option<int>) -> Seq<char> {
    match code {
        Some(n) => "Some("@ + int_to_dec(n) + ")"@,
        None => "None"@,
    }
}

/// The message for a payload that could not be written to the input file.
pub open spec fn write_error_text(e: Seq<char>) -> Seq<char> {
    "Failed to write input file: "@ + e
}

/// The message for an engine that could not be spawned, naming the attempted
/// path and the underlying error.
pub open spec fn spawn_error_text(engine_path: Seq<char>, e: Seq<char>) -> Seq<char> {
    "Failed to run engine '"@ + engine_path + "': "@ + e
}

/// The message for an engine run that exited unsuccessfully, carrying the
/// exit code and the captured stdout and stderr verbatim.
pub open spec fn engine_failure_text(code: Option<int>, stdout: Seq<char>, stderr: Seq<char>) -> Seq<
    char,
> {
    "Engine failed (exit code "@ + exit_code_text(code) + "):\n"@ + stdout + "\n"@ + stderr
}

/// The message for an output file that could not be read back.
pub open spec fn read_error_text(e: Seq<char>) -> Seq<char> {
    "Failed to read output file: "@ + e
}

/// Renders an exit code as `Some(<code>)` or `None`.
pub fn format_exit_code(code: Option<i32>) -> (r: String)
    ensures
        r@ == exit_code_text(code_view(code)),
{
    match code {
        None => String::from_str("None"),
        Some(n) => {
            let mut s = String::from_str("Some(");
            s.append(i32_to_string(n).as_str());
            s.append(")");
            s
        },
    }
}

/// Builds the input-write failure message.
pub fn write_error_message(e: &str) -> (r: String)
    ensures
        r@ == write_error_text(e@),
{
    let mut s = String::from_str("Failed to write input file: ");
    s.append(e);
    s
}

/// Builds the spawn failure message around the attempted engine path.
pub fn spawn_error_message(engine_path: &str, e: &str) -> (r: String)
    ensures
        r@ == spawn_error_text(engine_path@, e@),
{
    let mut s = String::from_str("Failed to run engine '");
    s.append(engine_path);
    s.append("': ");
    s.append(e);
    s
}

/// Builds the unsuccessful-exit failure message.
pub fn engine_failure_message(code: Option<i32>, stdout: &str, stderr: &str) -> (r: String)
    ensures
        r@ == engine_failure_text(code_view(code), stdout@, stderr@),
{
    let mut s = String::from_str("Engine failed (exit code ");
    s.append(format_exit_code(code).as_str());
    s.append("):\n");
    s.append(stdout);
    s.append("\n");
    s.append(stderr);
    s
}

/// Builds the output-read failure message.
pub fn read_error_message(e: &str) -> (r: String)
    ensures
        r@ == read_error_text(e@),
{
    let mut s = String::from_str("Failed to read output file: ");
    s.append(e);
    s
}

/// The unsuccessful-exit message carries the exit code and the captured
/// stdout and stderr exactly as they were handed in.
pub proof fn lemma_failure_message_reports_outcome(
    code: Option<int>,
    stdout: Seq<char>,
    stderr: Seq<char>,
)
    ensures
        contains_seq(engine_failure_text(code, stdout, stderr), exit_code_text(code)),
        contains_seq(engine_failure_text(code, stdout, stderr), stdout),
        contains_seq(engine_failure_text(code, stdout, stderr), stderr),
{
    let msg = engine_failure_text(code, stdout, stderr);
    let head = "Engine failed (exit code "@;
    let tail = "):\n"@ + stdout + "\n"@ + stderr;
    assert(msg =~= head + exit_code_text(code) + tail);
    lemma_concat_contains(head, exit_code_text(code), tail);
    let before_out = head + exit_code_text(code) + "):\n"@;
    let after_out = "\n"@ + stderr;
    assert(msg =~= before_out + stdout + after_out);
    lemma_concat_contains(before_out, stdout, after_out);
    let before_err = before_out + stdout + "\n"@;
    assert(msg =~= before_err + stderr + Seq::<char>::empty());
    lemma_concat_contains(before_err, stderr, Seq::<char>::empty());
}

/// The spawn failure message carries the attempted engine path.
pub proof fn lemma_spawn_message_names_path(engine_path: Seq<char>, e: Seq<char>)
    ensures
        contains_seq(spawn_error_text(engine_path, e), engine_path),
{
    let head = "Failed to run engine '"@;
    let tail = "': "@ + e;
    assert(spawn_error_text(engine_path, e) =~= head + engine_path + tail);
    lemma_concat_contains(head, engine_path, tail);
}

} // verus!
