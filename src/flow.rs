use vstd::prelude::*;
use vstd::utf8::{decode_utf8, valid_utf8};

use crate::command::{
    capability_command, classify_probe, ownership_command, spec_capability_command,
    spec_classify_probe, spec_ownership_command, CommandView, GrantCommand,
};
use crate::inspect::{getcore_path, spec_is_granted, FileMeta};
use crate::platform::Platform;

verus! {

/// Why a grant did not succeed. Each variant carries a readable message.
pub enum GrantError {
    /// The core binary's path could not be determined or canonicalized.
    Resolution(String),
    /// The elevation process could not be started.
    Spawn(String),
    /// The elevation process ran and exited unsuccessfully; the message is
    /// its standard error.
    Failed(String),
}

/// A grant error as character sequences.
pub enum ErrorView {
    Resolution(Seq<char>),
    Spawn(Seq<char>),
    Failed(Seq<char>),
}

impl View for GrantError {
    type V = ErrorView;

    open spec fn view(&self) -> ErrorView {
        match self {
            GrantError::Resolution(m) => ErrorView::Resolution(m@),
            GrantError::Spawn(m) => ErrorView::Spawn(m@),
            GrantError::Failed(m) => ErrorView::Failed(m@),
        }
    }
}

/// The message that an error view carries.
pub open spec fn spec_message(e: ErrorView) -> Seq<char> {
    match e {
        ErrorView::Resolution(m) => m,
        ErrorView::Spawn(m) => m,
        ErrorView::Failed(m) => m,
    }
}

impl GrantError {
    /// The readable message of the error.
    pub fn message(&self) -> (r: String)
        ensures
            r@ == spec_message(self@),
    {
        match self {
            GrantError::Resolution(m) => m.clone(),
            GrantError::Spawn(m) => m.clone(),
            GrantError::Failed(m) => m.clone(),
        }
    }
}

/// What a finished elevation process reported: whether it exited with
/// status zero, and its standard error.
pub struct ProcessOutput {
    pub success: bool,
    pub stderr: Vec<u8>,
}

/// The result of a piece of outside work, handed back to `advance`.
pub enum GrantEvent {
    /// The core binary's canonical path, or why it could not be had.
    Resolved(Result<String, String>),
    /// The metadata of the binary at `path`, or `None` where it could not be read.
    Inspected { path: String, meta: Option<FileMeta> },
    /// What the agent lookup printed for the binary at `path`, or `None`
    /// where the lookup could not run.
    Probed { path: String, stdout: Option<Vec<u8>> },
    /// How the elevation process ended, or why it could not be started.
    Ran(Result<ProcessOutput, String>),
}

/// The next piece of work for the caller.
pub enum GrantStep {
    /// Read the owner, group and mode of the binary at this path.
    ReadMetadata(String),
    /// Look up the graphical authorization agent, for the binary at this path.
    ProbeAgent(String),
    /// Run this command and report how it ended.
    Spawn(GrantCommand),
    /// The grant is over, with this outcome.
    Done(Result<(), GrantError>),
}

/// A step as character sequences.
pub enum StepView {
    ReadMetadata(Seq<char>),
    ProbeAgent(Seq<char>),
    Spawn(CommandView),
    Done(Result<(), ErrorView>),
}

impl View for GrantStep {
    type V = StepView;

    open spec fn view(&self) -> StepView {
        match self {
            GrantStep::ReadMetadata(p) => StepView::ReadMetadata(p@),
            GrantStep::ProbeAgent(p) => StepView::ProbeAgent(p@),
            GrantStep::Spawn(c) => StepView::Spawn(c@),
            GrantStep::Done(Ok(())) => StepView::Done(Ok(())),
            GrantStep::Done(Err(e)) => StepView::Done(Err(e@)),
        }
    }
}

/// The text of a process's standard error: its decoding where the bytes
/// are well-formed UTF-8, empty otherwise.
pub open spec fn stderr_text(bytes: Seq<u8>) -> Seq<char> {
    if valid_utf8(bytes) {
        decode_utf8(bytes)
    } else {
        Seq::empty()
    }
}

/// The step that follows `event` on `platform`.
///
/// A resolution failure ends the grant at once. A binary that already holds
/// the marks ends it with success and no command. Otherwise the ownership
/// platform runs its command directly, and the capability platform first
/// looks up the graphical agent. A process that exits with status zero ends
/// the grant with success; one that does not, with its standard error.
pub open spec fn spec_advance(platform: Platform, event: GrantEvent) -> StepView {
    match event {
        GrantEvent::Resolved(Ok(path)) => StepView::ReadMetadata(path@),
        GrantEvent::Resolved(Err(e)) => StepView::Done(Err(ErrorView::Resolution(e@))),
        GrantEvent::Inspected { path, meta } => if spec_is_granted(platform, meta) {
            StepView::Done(Ok(()))
        } else {
            match platform {
                Platform::MacOs => StepView::Spawn(spec_ownership_command(path@)),
                Platform::Linux => StepView::ProbeAgent(path@),
            }
        },
        GrantEvent::Probed { path, stdout } => StepView::Spawn(
            spec_capability_command(
                path@,
                spec_classify_probe(
                    match stdout {
                        Some(v) => Some(v@),
                        None => None,
                    },
                ),
            ),
        ),
        GrantEvent::Ran(Err(e)) => StepView::Done(Err(ErrorView::Spawn(e@))),
        GrantEvent::Ran(Ok(out)) => if out.success {
            StepView::Done(Ok(()))
        } else {
            StepView::Done(Err(ErrorView::Failed(stderr_text(out.stderr@))))
        },
    }
}

/// Relies on std::str::from_utf8: it accepts exactly the well-formed UTF-8
/// byte strings and returns the characters they encode.
#[verifier::external_body]
fn utf8_string(bytes: &Vec<u8>) -> (r: Option<String>)
    ensures
        r.is_some() == valid_utf8(bytes@),
        r matches Some(s) ==> s@ == decode_utf8(bytes@),
{
    match std::str::from_utf8(bytes) {
        Ok(s) => Some(s.to_string()),
        Err(_) => None,
    }
}

/// Decodes a process's standard error permissively: bytes that are not
/// UTF-8 give an empty text rather than a failure.
pub fn decode_stderr(bytes: &Vec<u8>) -> (r: String)
    ensures
        r@ == stderr_text(bytes@),
{
    match utf8_string(bytes) {
        Some(s) => s,
        None => String::new(),
    }
}

/// Decides what comes after `event` on `platform`.
pub fn advance(platform: Platform, event: GrantEvent) -> (r: GrantStep)
    ensures
        r@ == spec_advance(platform, event),
{
    match event {
        GrantEvent::Resolved(Ok(path)) => GrantStep::ReadMetadata(path),
        GrantEvent::Resolved(Err(e)) => GrantStep::Done(Err(GrantError::Resolution(e))),
        GrantEvent::Inspected { path, meta } => {
            if getcore_path(platform, &meta) {
                GrantStep::Done(Ok(()))
            } else {
                match platform {
                    Platform::MacOs => GrantStep::Spawn(ownership_command(path.as_str())),
                    Platform::Linux => GrantStep::ProbeAgent(path),
                }
            }
        },
        GrantEvent::Probed { path, stdout } => {
            let probe = classify_probe(&stdout);
            GrantStep::Spawn(capability_command(path.as_str(), probe))
        },
        GrantEvent::Ran(Err(e)) => GrantStep::Done(Err(GrantError::Spawn(e))),
        GrantEvent::Ran(Ok(out)) => {
            if out.success {
                GrantStep::Done(Ok(()))
            } else {
                GrantStep::Done(Err(GrantError::Failed(decode_stderr(&out.stderr))))
            }
        },
    }
}

/// A grant of an already-granted binary is a no-op: the resolved path is
/// inspected, and the inspection ends the grant with success and no command,
/// so every further call takes the same two steps again.
pub proof fn lemma_granted_grant_is_noop(platform: Platform, path: String, m: FileMeta)
    requires
        spec_is_granted(platform, Some(m)),
    ensures
        spec_advance(platform, GrantEvent::Resolved(Ok(path))) == StepView::ReadMetadata(path@),
        spec_advance(platform, GrantEvent::Inspected { path, meta: Some(m) }) == StepView::Done(
            Ok(()),
        ),
{
}

/// A path that cannot be resolved ends the grant with a resolution error,
/// before any inspection or command.
pub proof fn lemma_resolution_failure_ends_grant(platform: Platform, e: String)
    ensures
        spec_advance(platform, GrantEvent::Resolved(Err(e))) == StepView::Done(
            Err(ErrorView::Resolution(e@)),
        ),
{
}

/// An elevation process that fails ends the grant with an error whose
/// message is the process's standard error, where that is UTF-8.
pub proof fn lemma_failed_process_reports_stderr(platform: Platform, out: ProcessOutput)
    requires
        !out.success,
        valid_utf8(out.stderr@),
    ensures
        spec_advance(platform, GrantEvent::Ran(Ok(out))) == StepView::Done(
            Err(ErrorView::Failed(decode_utf8(out.stderr@))),
        ),
{
}

} // verus!
