//! Resolution: from the settings that the host holds and the outcome of the
//! availability probe to the launch command.

use vstd::prelude::*;
use crate::command::{build_command, launch_of, CommandView, LaunchCommand};
use crate::error::{ErrorView, ResolveError};
use crate::json::members;
use crate::settings::{
    decoded_members,
    decoding_view,
    read_settings,
    DecodeFault,
    PineconeSettings,
    SettingsView,
};

verus! {

/// The context server that this extension runs, and the name under which
/// the host holds its settings.
pub const SERVER_ID: &'static str = "pinecone-context-server";

/// How the probe ended that looks for the server's package before a launch.
#[derive(Debug, Clone, PartialEq, Eq)]
pub enum Preflight {
    /// No probe was made.
    Skipped,
    /// The probe ran to its end, with this exit status and this text on its
    /// standard error.
    Exited { status: i32, stderr: String },
    /// The probe could not be started, or did not end in time.
    Failed { reason: String },
}

/// The mathematical value of a [`Preflight`].
pub enum PreflightView {
    Skipped,
    Exited { status: i32, stderr: Seq<char> },
    Failed { reason: Seq<char> },
}

impl View for Preflight {
    type V = PreflightView;

    open spec fn view(&self) -> PreflightView {
        match self {
            Preflight::Skipped => PreflightView::Skipped,
            Preflight::Exited { status, stderr } => PreflightView::Exited {
                status: *status,
                stderr: stderr@,
            },
            Preflight::Failed { reason } => PreflightView::Failed { reason: reason@ },
        }
    }
}

/// What the probe reports against a launch, if anything: its standard error
/// where it ended with a status other than 0, the reason where it did not
/// run to its end.
pub open spec fn complaint(preflight: PreflightView) -> Option<Seq<char>> {
    match preflight {
        PreflightView::Skipped => None,
        PreflightView::Exited { status, stderr } => if status == 0 {
            None
        } else {
            Some(stderr)
        },
        PreflightView::Failed { reason } => Some(reason),
    }
}

/// The mathematical value of what resolution returns.
pub open spec fn resolution_view(outcome: Result<LaunchCommand, ResolveError>) -> Result<
    CommandView,
    ErrorView,
> {
    match outcome {
        Ok(launch) => Ok(launch@),
        Err(error) => Err(error@),
    }
}

/// What resolution returns. The first of these that fails gives the error:
/// the host holds settings; they decode; the probe reports nothing. The
/// command is built only where all of them pass. The server that the command
/// is asked for plays no part.
pub open spec fn resolved(
    settings: Option<Result<SettingsView, DecodeFault>>,
    preflight: PreflightView,
) -> Result<CommandView, ErrorView> {
    match settings {
        None => Err(ErrorView::MissingConfiguration),
        Some(Err(fault)) => Err(ErrorView::InvalidConfiguration(fault)),
        Some(Ok(settings)) => match complaint(preflight) {
            Some(report) => Err(ErrorView::DependencyMissing(report)),
            None => Ok(launch_of(settings)),
        },
    }
}

/// The mathematical value of settings that may be missing or undecodable.
pub open spec fn decoding_option_view(
    settings: Option<Result<PineconeSettings, DecodeFault>>,
) -> Option<Result<SettingsView, DecodeFault>> {
    match settings {
        Some(outcome) => Some(decoding_view(outcome)),
        None => None,
    }
}

/// What the host's settings value decodes to, where the host holds one.
pub open spec fn decoded_value(settings: Option<serde_json::Value>) -> Option<
    Result<SettingsView, DecodeFault>,
> {
    match settings {
        Some(value) => Some(decoded_members(members(value))),
        None => None,
    }
}

/// Judges the probe's outcome.
pub fn check_preflight(preflight: Preflight) -> (verdict: Result<(), ResolveError>)
    ensures
        verdict is Ok <==> complaint(preflight@) is None,
        verdict matches Err(error) ==> error@ == ErrorView::DependencyMissing(
            complaint(preflight@)->Some_0,
        ),
{
    match preflight {
        Preflight::Skipped => Ok(()),
        Preflight::Exited { status, stderr } => {
            if status == 0 {
                Ok(())
            } else {
                Err(ResolveError::DependencyMissing(stderr))
            }
        },
        Preflight::Failed { reason } => Err(ResolveError::DependencyMissing(reason)),
    }
}

/// Tells whether `server_id` names the server that this extension runs.
/// Resolution itself does not ask: this is for a caller that serves more
/// than one server.
pub fn check_identity(server_id: &str) -> (verdict: Result<(), ResolveError>)
    ensures
        verdict is Ok <==> server_id@ == SERVER_ID@,
        verdict matches Err(error) ==> error@ == ErrorView::UnrecognizedServerIdentity,
{
    if server_id.to_owned() == SERVER_ID.to_owned() {
        Ok(())
    } else {
        Err(ResolveError::UnrecognizedServerIdentity)
    }
}

/// Resolves the launch command from settings that were decoded already.
pub fn resolve_decoded(
    settings: Option<Result<PineconeSettings, DecodeFault>>,
    preflight: Preflight,
) -> (outcome: Result<LaunchCommand, ResolveError>)
    ensures
        resolution_view(outcome) == resolved(decoding_option_view(settings), preflight@),
        outcome matches Ok(launch) ==> launch@.wf(),
{
    let settings = match settings {
        None => {
            return Err(ResolveError::MissingConfiguration);
        },
        Some(Err(fault)) => {
            return Err(ResolveError::InvalidConfiguration(fault));
        },
        Some(Ok(settings)) => settings,
    };
    match check_preflight(preflight) {
        Err(error) => Err(error),
        Ok(_) => Ok(build_command(settings)),
    }
}

/// Resolves the launch command from the settings value that the host holds
/// for the server, if it holds one, and the outcome of the probe.
pub fn resolve_command(settings: Option<serde_json::Value>, preflight: Preflight) -> (outcome:
    Result<LaunchCommand, ResolveError>)
    ensures
        resolution_view(outcome) == resolved(decoded_value(settings), preflight@),
        outcome matches Ok(launch) ==> launch@.wf(),
{
    let decoded = match &settings {
        Some(value) => Some(read_settings(value)),
        None => None,
    };
    resolve_decoded(decoded, preflight)
}

} // verus!
