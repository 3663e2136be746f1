//! The per-request pipeline, as a state machine.
//!
//! The pipeline alternates decisions (verified here) with outside work —
//! creating and removing the scratch directory, writing the source file,
//! running the sandboxed compiler — which the surrounding process performs.
//! Each call of [`step`] consumes the current state and the outcome of the
//! last action, and returns the next state and the next action. A request
//! runs: decode, create the workspace, resolve the module, write the
//! source, execute the sandbox command, capture the output, remove the
//! workspace, respond; every failure short-circuits to an error reply, and
//! a workspace, once created, is always removed before the reply is
//! released.

use vstd::prelude::*;
use vstd::string::*;
use vstd::utf8::{decode_utf8, valid_utf8};

use crate::decode::{decode_compile_request, parse_request};
use crate::errors::{message_of, Error};
use crate::output::{ansi_stripped, capture_output, combined_output};
use crate::resolver::{resolve_module, resolved_module};
use crate::sandbox::{arg_views, compile_args, SandboxCommand, Workspace};
use crate::wire::{error_reply_body, output_reply_body, respond, HttpReply};

verus! {

/// The captured output streams of the executed sandbox command.
pub struct RunOutput {
    /// The bytes of standard output.
    pub stdout: Vec<u8>,
    /// The bytes of standard error.
    pub stderr: Vec<u8>,
}

/// The state of one request between two steps.
pub enum State {
    /// The raw request body has arrived and nothing has been decided.
    Ready { body: String },
    /// The body decoded to source text; the workspace is being created.
    CreatingWorkspace { code: String },
    /// The module is resolved; the source is being written into the
    /// workspace.
    WritingSource { workspace: Workspace, module: String },
    /// The sandbox command is being executed.
    Running { workspace: Workspace },
    /// The reply is decided; the workspace is being removed.
    RemovingWorkspace { reply: HttpReply },
    /// The reply has been released.
    Done,
}

/// The outcome of the last action, reported back to the machine.
pub enum Event {
    /// Begin handling the request.
    Begin,
    /// The workspace directory was created at the given path, or creating
    /// it failed with the given cause.
    WorkspaceCreated { result: Result<String, String> },
    /// The source file was written, or writing it failed with the given
    /// cause.
    SourceWritten { result: Result<(), String> },
    /// The sandbox command ran and its streams were captured, or spawning
    /// it failed with the given cause.
    Ran { result: Result<RunOutput, String> },
    /// The workspace directory was removed.
    WorkspaceRemoved,
}

/// The outside work the machine asks for next.
pub enum Action {
    /// Create a fresh, exclusively owned scratch directory.
    CreateWorkspace,
    /// Write `contents` to the file at `path`, creating or truncating it.
    WriteSource { path: String, contents: String },
    /// Run the command and capture both output streams in full.
    Execute { command: SandboxCommand },
    /// Recursively remove the directory at `dir`.
    RemoveWorkspace { dir: String },
    /// Deliver the reply; the request is over.
    Respond { reply: HttpReply },
}

impl State {
    /// Any workspace held in the state is well-formed.
    pub open spec fn wf(&self) -> bool {
        match self {
            State::WritingSource { workspace, .. } => workspace.wf(),
            State::Running { workspace } => workspace.wf(),
            _ => true,
        }
    }
}

/// The directory of the workspace the state holds, if it holds one. A
/// workspace is held from the moment its directory exists until the
/// machine asks for its removal.
pub open spec fn holds_workspace(s: State) -> Option<Seq<char>> {
    match s {
        State::WritingSource { workspace, .. } => Some(workspace.dir@),
        State::Running { workspace } => Some(workspace.dir@),
        _ => None,
    }
}

/// Which event each state awaits.
pub open spec fn accepts(s: State, e: Event) -> bool {
    match (s, e) {
        (State::Ready { .. }, Event::Begin) => true,
        (State::CreatingWorkspace { .. }, Event::WorkspaceCreated { .. }) => true,
        (State::WritingSource { .. }, Event::SourceWritten { .. }) => true,
        (State::Running { .. }, Event::Ran { .. }) => true,
        (State::RemovingWorkspace { .. }, Event::WorkspaceRemoved) => true,
        _ => false,
    }
}

/// Advance one request by one step.
///
/// The exact transition relation is stated case by case below. Three laws
/// hold across all of them. First, a held workspace is never abandoned:
/// every step either keeps the same workspace in the next state or asks
/// for its removal, and the reply is released only after the removal is
/// confirmed — so the workspace of every request is removed exactly once,
/// on success and on failure alike. Second, once a request has failed —
/// in particular, once module resolution has failed — no source is
/// written and nothing is executed: from the cleanup state the only
/// remaining action is the reply. Third, success is owed: a completed run
/// whose standard output, and stripped standard error, are valid UTF-8 is
/// answered with status 200 and exactly the combined output — the
/// compiler's exit status plays no part — and any other completed run is
/// answered with the not-UTF-8 error envelope.
pub fn step(s: State, e: Event) -> (r: (State, Action))
    requires
        accepts(s, e),
        s.wf(),
    ensures
        r.0.wf(),
        holds_workspace(s) matches Some(d) ==> (holds_workspace(r.0) == Some::<Seq<char>>(d) || (
        r.1 matches Action::RemoveWorkspace { dir } && dir@ == d)),
        r.1 matches Action::RemoveWorkspace { .. } ==> r.0 matches State::RemovingWorkspace {
            ..
        },
        s matches State::RemovingWorkspace { .. } ==> r.1 matches Action::Respond { .. },
        r.1 matches Action::Respond { .. } ==> r.0 is Done,
        match (s, e) {
            (State::Ready { body }, Event::Begin) => {
                if body@.len() == 0 {
                    &&& r.0 is Done
                    &&& (r.1 matches Action::Respond { reply } && reply.status == 500
                        && reply.body@ == error_reply_body(message_of(Error::RequestMissing)))
                } else {
                    match parse_request(body@) {
                        Some(code) => {
                            &&& (r.0 matches State::CreatingWorkspace { code: c } && c@ == code)
                            &&& r.1 is CreateWorkspace
                        },
                        None => {
                            &&& r.0 is Done
                            &&& (r.1 matches Action::Respond { reply } && reply.status == 500
                                && reply.body@ == error_reply_body(
                                "Unable to deserialize request: "@ + "invalid request body"@,
                            ))
                        },
                    }
                }
            },
            (State::CreatingWorkspace { code }, Event::WorkspaceCreated { result }) => {
                match result {
                    Err(cause) => {
                        &&& r.0 is Done
                        &&& (r.1 matches Action::Respond { reply } && reply.status == 500
                            && reply.body@ == error_reply_body(
                            "Unable to create temporary directory: "@ + cause@,
                        ))
                    },
                    Ok(dir) => {
                        match resolved_module(code@) {
                            None => {
                                &&& (r.0 matches State::RemovingWorkspace { reply }
                                    && reply.status == 500 && reply.body@ == error_reply_body(
                                    message_of(Error::UnableToFindModule),
                                ))
                                &&& (r.1 matches Action::RemoveWorkspace { dir: d } && d@ == dir@)
                            },
                            Some(name) => {
                                &&& (r.0 matches State::WritingSource { workspace, module }
                                    && workspace.dir@ == dir@ && module@ == name)
                                &&& (r.1 matches Action::WriteSource { path, contents } && path@
                                    == dir@ + "/input.sv"@ && contents@ == code@)
                            },
                        }
                    },
                }
            },
            (State::WritingSource { workspace, module }, Event::SourceWritten { result }) => {
                match result {
                    Err(cause) => {
                        &&& (r.0 matches State::RemovingWorkspace { reply } && reply.status == 500
                            && reply.body@ == error_reply_body(
                            "Unable to create source file: "@ + cause@,
                        ))
                        &&& (r.1 matches Action::RemoveWorkspace { dir } && dir@ == workspace.dir@)
                    },
                    Ok(_) => {
                        &&& (r.0 matches State::Running { workspace: w } && w == workspace)
                        &&& (r.1 matches Action::Execute { command } && command.program@
                            == "docker"@ && arg_views(command.args@) == compile_args(
                            workspace.input_file@,
                            module@,
                        ))
                    },
                }
            },
            (State::Running { workspace }, Event::Ran { result }) => {
                match result {
                    Err(cause) => {
                        &&& (r.0 matches State::RemovingWorkspace { reply } && reply.status == 500
                            && reply.body@ == error_reply_body(
                            "Unable to execute the compiler: "@ + cause@,
                        ))
                        &&& (r.1 matches Action::RemoveWorkspace { dir } && dir@ == workspace.dir@)
                    },
                    Ok(out) => {
                        let clean = valid_utf8(out.stdout@) && valid_utf8(
                            ansi_stripped(out.stderr@),
                        );
                        &&& (r.1 matches Action::RemoveWorkspace { dir } && dir@ == workspace.dir@)
                        &&& (r.0 matches State::RemovingWorkspace { reply } && (reply.status == 200
                            <==> clean) && (clean ==> reply.body@ == output_reply_body(
                            combined_output(
                                decode_utf8(out.stdout@),
                                decode_utf8(ansi_stripped(out.stderr@)),
                            ),
                        )) && (!clean ==> reply.status == 500 && (exists|cause: Seq<char>|
                            reply.body@ == #[trigger] error_reply_body(
                                "Output was not valid UTF-8: "@ + cause,
                            ))))
                        &&& (out.stderr@.len() == 0 ==> ansi_stripped(out.stderr@).len() == 0)
                    },
                }
            },
            (State::RemovingWorkspace { reply }, Event::WorkspaceRemoved) => {
                r.1 matches Action::Respond { reply: released } && released == reply
            },
            _ => true,
        },
{
    match (s, e) {
        (State::Ready { body }, Event::Begin) => {
            match decode_compile_request(body.as_str()) {
                Err(err) => {
                    let reply = respond(Err(err));
                    (State::Done, Action::Respond { reply })
                },
                Ok(req) => (State::CreatingWorkspace { code: req.code }, Action::CreateWorkspace),
            }
        },
        (State::CreatingWorkspace { code }, Event::WorkspaceCreated { result }) => {
            match result {
                Err(cause) => {
                    let reply = respond(Err(Error::UnableToCreateTempDir { cause }));
                    (State::Done, Action::Respond { reply })
                },
                Ok(dir) => {
                    match resolve_module(code.as_str()) {
                        Err(err) => {
                            let reply = respond(Err(err));
                            (
                                State::RemovingWorkspace { reply },
                                Action::RemoveWorkspace { dir },
                            )
                        },
                        Ok(module) => {
                            let workspace = Workspace::new(dir);
                            let path = workspace.input_file.clone();
                            (
                                State::WritingSource { workspace, module },
                                Action::WriteSource { path, contents: code },
                            )
                        },
                    }
                },
            }
        },
        (State::WritingSource { workspace, module }, Event::SourceWritten { result }) => {
            match result {
                Err(cause) => {
                    let reply = respond(Err(Error::UnableToCreateSourceFile { cause }));
                    (
                        State::RemovingWorkspace { reply },
                        Action::RemoveWorkspace { dir: workspace.dir },
                    )
                },
                Ok(_) => {
                    let command = SandboxCommand::compile_command(&workspace, module.as_str());
                    (State::Running { workspace }, Action::Execute { command })
                },
            }
        },
        (State::Running { workspace }, Event::Ran { result }) => {
            match result {
                Err(cause) => {
                    let reply = respond(Err(Error::UnableToExecuteCompiler { cause }));
                    (
                        State::RemovingWorkspace { reply },
                        Action::RemoveWorkspace { dir: workspace.dir },
                    )
                },
                Ok(out) => {
                    let captured = capture_output(out.stdout, out.stderr);
                    let ghost outcome = captured;
                    let reply = respond(captured);
                    proof {
                        match outcome {
                            Err(Error::OutputNotUtf8 { cause }) => {
                                assert(reply.body@ == error_reply_body(
                                    "Output was not valid UTF-8: "@ + cause@,
                                ));
                            },
                            _ => {},
                        }
                    }
                    (
                        State::RemovingWorkspace { reply },
                        Action::RemoveWorkspace { dir: workspace.dir },
                    )
                },
            }
        },
        (State::RemovingWorkspace { reply }, Event::WorkspaceRemoved) => {
            (State::Done, Action::Respond { reply })
        },
        _ => {
            proof {
                assert(false);
            }
            (State::Done, Action::CreateWorkspace)
        },
    }
}

} // verus!
