//! The agent subprocess: the fixed shape of its command line, and the
//! interpretation of how it terminated.

use vstd::prelude::*;
use vstd::utf8::{decode_utf8, valid_utf8};
use std::string::FromUtf8Error;
use crate::text::{trim, trimmed};

verus! {

/// The error of `String::from_utf8`, carried through unread.
#[verifier::external_type_specification]
#[verifier::external_body]
pub struct ExFromUtf8Error(FromUtf8Error);

/// What can go wrong on the way from a request to its response. Each
/// variant carries a human-readable detail.
#[derive(Debug, PartialEq, Eq)]
pub enum AgentError {
    /// The agent could not be started; the detail is the system's description.
    SpawnFailure(String),
    /// The agent exited with a failure status; the detail is its error output.
    NonZeroExit(String),
    /// The agent's standard output is not valid UTF-8.
    DecodeFailure(String),
    /// No URL was found in the reply; the detail is the whole trimmed reply.
    ExtractionFailure(String),
}

/// How a started agent process terminated: its status and both captured
/// streams.
pub struct ExecutionResult {
    pub exit_success: bool,
    pub stdout: Vec<u8>,
    pub stderr: Vec<u8>,
}

/// The agent's executable.
pub const AGENT_PROGRAM: &'static str = "codex";

/// The model the agent is asked to use.
pub const AGENT_MODEL: &'static str = "gpt-5.2";

/// A command line: the program and its arguments.
pub struct Invocation {
    pub program: String,
    pub args: Vec<String>,
}

/// The characters of each argument.
pub open spec fn arg_views(args: Seq<String>) -> Seq<Seq<char>> {
    args.map_values(|a: String| a@)
}

/// The arguments that run the agent non-interactively on `prompt`, with the
/// fixed model and without its repository check; the prompt comes last.
pub open spec fn agent_args(prompt: Seq<char>) -> Seq<Seq<char>> {
    seq!["exec"@, "--model"@, AGENT_MODEL@, "--skip-git-repo-check"@, prompt]
}

/// The command line that hands `prompt` to the agent as one argument.
pub fn agent_invocation(prompt: &str) -> (r: Invocation)
    ensures
        r.program@ == AGENT_PROGRAM@,
        arg_views(r.args@) == agent_args(prompt@),
{
    let mut args: Vec<String> = Vec::new();
    args.push(String::from_str("exec"));
    args.push(String::from_str("--model"));
    args.push(String::from_str(AGENT_MODEL));
    args.push(String::from_str("--skip-git-repo-check"));
    args.push(String::from_str(prompt));
    assert(arg_views(args@) =~= agent_args(prompt@));
    Invocation { program: String::from_str(AGENT_PROGRAM), args }
}

/// The command line that asks the agent for its version.
pub fn version_invocation() -> (r: Invocation)
    ensures
        r.program@ == AGENT_PROGRAM@,
        arg_views(r.args@) == seq!["--version"@],
{
    let mut args: Vec<String> = Vec::new();
    args.push(String::from_str("--version"));
    assert(arg_views(args@) =~= seq!["--version"@]);
    Invocation { program: String::from_str(AGENT_PROGRAM), args }
}

/// The answer of the availability probe to the outcome of the version
/// query: available exactly when the agent started and exited successfully.
/// A failure to start is no error here, only `false`.
pub fn agent_available(launch: &Result<ExecutionResult, String>) -> (r: bool)
    ensures
        r <==> (launch matches Ok(ex) && ex.exit_success),
        launch is Err ==> !r,
{
    match launch {
        Ok(ex) => ex.exit_success,
        Err(_) => false,
    }
}

impl AgentError {
    /// The detail that the error carries.
    pub open spec fn detail_view(&self) -> Seq<char> {
        match self {
            AgentError::SpawnFailure(d) => d@,
            AgentError::NonZeroExit(d) => d@,
            AgentError::DecodeFailure(d) => d@,
            AgentError::ExtractionFailure(d) => d@,
        }
    }

    /// The words that introduce the detail in the error's message.
    pub open spec fn headline(&self) -> Seq<char> {
        match self {
            AgentError::SpawnFailure(_) => "Failed to execute Codex CLI: "@,
            AgentError::NonZeroExit(_) => "Codex CLI error: "@,
            AgentError::DecodeFailure(_) => "Failed to parse Codex output: "@,
            AgentError::ExtractionFailure(_) => "Failed to extract image URL from response: "@,
        }
    }

    /// The detail that the error carries.
    pub fn detail(&self) -> (r: &str)
        ensures
            r@ == self.detail_view(),
    {
        match self {
            AgentError::SpawnFailure(d) => d.as_str(),
            AgentError::NonZeroExit(d) => d.as_str(),
            AgentError::DecodeFailure(d) => d.as_str(),
            AgentError::ExtractionFailure(d) => d.as_str(),
        }
    }

    /// The human-readable message: a headline naming the failure, then the
    /// detail.
    pub fn message(&self) -> (r: String)
        ensures
            r@ == self.headline() + self.detail_view(),
    {
        let mut r = match self {
            AgentError::SpawnFailure(_) => String::from_str("Failed to execute Codex CLI: "),
            AgentError::NonZeroExit(_) => String::from_str("Codex CLI error: "),
            AgentError::DecodeFailure(_) => String::from_str("Failed to parse Codex output: "),
            AgentError::ExtractionFailure(_) => String::from_str(
                "Failed to extract image URL from response: ",
            ),
        };
        r.append(self.detail());
        r
    }
}

/// Names what `String::from_utf8_lossy` makes of a byte sequence.
pub uninterp spec fn lossy_text(b: Seq<u8>) -> Seq<char>;

/// Relies on `String::from_utf8`: it succeeds exactly on valid UTF-8, and
/// then holds the decoded characters.
#[verifier::external_body]
fn decode_strict(bytes: Vec<u8>) -> (r: Result<String, FromUtf8Error>)
    ensures
        r is Ok <==> valid_utf8(bytes@),
        r matches Ok(s) ==> s@ == decode_utf8(bytes@),
{
    String::from_utf8(bytes)
}

/// Relies on `String::from_utf8_lossy`: invalid sequences are replaced,
/// never fatal, and valid UTF-8 is decoded as it stands.
#[verifier::external_body]
fn decode_lossy(bytes: &Vec<u8>) -> (r: String)
    ensures
        r@ == lossy_text(bytes@),
        valid_utf8(bytes@) ==> r@ == decode_utf8(bytes@),
{
    String::from_utf8_lossy(bytes).into_owned()
}

/// Relies on the `Display` text of a UTF-8 decoding error.
#[verifier::external_body]
fn describe_utf8_error(e: &FromUtf8Error) -> String {
    e.to_string()
}

/// Turns the outcome of one run of the agent into its response: the trimmed
/// standard output on success, else the error that fits the failure.
/// `launch` is the system's error text where the process could not start.
pub fn interpret_execution(launch: Result<ExecutionResult, String>) -> (r: Result<
    String,
    AgentError,
>)
    ensures
        match launch {
            Err(d) => r matches Err(AgentError::SpawnFailure(x)) && x@ == d@,
            Ok(ex) => if !ex.exit_success {
                r matches Err(AgentError::NonZeroExit(x)) && x@ == lossy_text(ex.stderr@)
            } else if !valid_utf8(ex.stdout@) {
                r matches Err(AgentError::DecodeFailure(_))
            } else {
                r matches Ok(s) && s@ == trimmed(decode_utf8(ex.stdout@))
            },
        },
{
    match launch {
        Err(d) => Err(AgentError::SpawnFailure(d)),
        Ok(ex) => {
            if !ex.exit_success {
                Err(AgentError::NonZeroExit(decode_lossy(&ex.stderr)))
            } else {
                match decode_strict(ex.stdout) {
                    Err(e) => Err(AgentError::DecodeFailure(describe_utf8_error(&e))),
                    Ok(text) => Ok(String::from_str(trim(text.as_str()))),
                }
            }
        },
    }
}

} // verus!
