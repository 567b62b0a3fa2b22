//! The shutdown backend: which command stops the machine, and what the
//! command's outcome means.
//!
//! Two backends exist. The local one powers off the machine the daemon runs
//! on; the cloud one asks the provider's command-line tool to stop a compute
//! instance. Neither runs anything itself: [`ShutdownTarget::stop_command`]
//! says what to run and [`ShutdownTarget::stop_result`] judges what came back.

use vstd::prelude::*;
use vstd::string::*;
use vstd::utf8::*;

use crate::command::{
    push_text, text_of, CommandLine, CommandLineView, CommandOutcome, CommandOutcomeView,
    CommandOutput, CommandOutputView,
};
use crate::oci::{stop_instance_command, stop_instance_line, stop_instance_result, stop_instance_verdict};

verus! {

/// Why the machine was not stopped.
#[derive(Clone, Debug, PartialEq, Eq)]
pub enum ShutdownError {
    /// The command could not be started at all.
    Launch {
        /// What the system said about it.
        detail: String,
    },
    /// The local shutdown command ran and reported failure.
    CommandFailed {
        /// What it wrote to standard output.
        stdout: String,
        /// What it wrote to standard error.
        stderr: String,
    },
    /// The provider's tool ran and reported failure.
    StopInstanceFailed {
        /// What it wrote to standard error.
        stderr: String,
    },
    /// The command reported failure and its output is not UTF-8 text.
    UndecodableOutput,
}

/// A [`ShutdownError`] as plain text.
pub ghost enum ShutdownErrorView {
    /// The command could not be started at all.
    Launch {
        /// What the system said about it.
        detail: Seq<char>,
    },
    /// The local shutdown command ran and reported failure.
    CommandFailed {
        /// What it wrote to standard output.
        stdout: Seq<char>,
        /// What it wrote to standard error.
        stderr: Seq<char>,
    },
    /// The provider's tool ran and reported failure.
    StopInstanceFailed {
        /// What it wrote to standard error.
        stderr: Seq<char>,
    },
    /// The command reported failure and its output is not UTF-8 text.
    UndecodableOutput,
}

impl ShutdownErrorView {
    /// The error in words.
    pub open spec fn message(self) -> Seq<char> {
        match self {
            ShutdownErrorView::Launch { detail } => "failed to launch shutdown command: "@
                + detail,
            ShutdownErrorView::CommandFailed { stdout, stderr } => "shutdown command failed: stdout: ```"@
                + stdout + "``` stderr: ```"@ + stderr + "```"@,
            ShutdownErrorView::StopInstanceFailed { stderr } => "failed to stop instance: ```"@
                + stderr + "```"@,
            ShutdownErrorView::UndecodableOutput => "shutdown command failed and its output is not valid UTF-8"@,
        }
    }
}

impl View for ShutdownError {
    type V = ShutdownErrorView;

    open spec fn view(&self) -> ShutdownErrorView {
        match self {
            ShutdownError::Launch { detail } => ShutdownErrorView::Launch { detail: detail@ },
            ShutdownError::CommandFailed { stdout, stderr } => ShutdownErrorView::CommandFailed {
                stdout: stdout@,
                stderr: stderr@,
            },
            ShutdownError::StopInstanceFailed { stderr } => ShutdownErrorView::StopInstanceFailed {
                stderr: stderr@,
            },
            ShutdownError::UndecodableOutput => ShutdownErrorView::UndecodableOutput,
        }
    }
}

impl ShutdownError {
    /// Whether the command could not even be started.
    pub fn is_launch_failure(&self) -> (launch: bool)
        ensures
            launch == (self@ is Launch),
    {
        match self {
            ShutdownError::Launch { .. } => true,
            _ => false,
        }
    }

    /// The error in words, with the command's captured output.
    pub fn message(&self) -> (text: String)
        ensures
            text@ == self@.message(),
    {
        match self {
            ShutdownError::Launch { detail } => {
                let mut text = String::from_str("failed to launch shutdown command: ");
                text.append(detail.as_str());
                text
            },
            ShutdownError::CommandFailed { stdout, stderr } => {
                let mut text = String::from_str("shutdown command failed: stdout: ```");
                text.append(stdout.as_str());
                text.append("``` stderr: ```");
                text.append(stderr.as_str());
                text.append("```");
                text
            },
            ShutdownError::StopInstanceFailed { stderr } => {
                let mut text = String::from_str("failed to stop instance: ```");
                text.append(stderr.as_str());
                text.append("```");
                text
            },
            ShutdownError::UndecodableOutput => String::from_str(
                "shutdown command failed and its output is not valid UTF-8",
            ),
        }
    }
}

/// What a call for shutdown came to, as plain values.
pub open spec fn stop_view(result: Result<(), ShutdownError>) -> Result<(), ShutdownErrorView> {
    match result {
        Ok(()) => Ok(()),
        Err(error) => Err(error@),
    }
}

/// The command that powers off the machine the daemon runs on.
pub open spec fn local_shutdown_line() -> CommandLineView {
    CommandLineView { program: "sudo"@, args: seq!["shutdown"@, "-h"@, "now"@] }
}

/// What the output of a finished local shutdown command means: success where
/// the exit status says so, whatever was written; else the captured output as
/// text, or the bare fact that it is no text.
pub open spec fn local_shutdown_verdict(output: CommandOutputView) -> Result<
    (),
    ShutdownErrorView,
> {
    if output.exit_success {
        Ok(())
    } else if valid_utf8(output.stdout) && valid_utf8(output.stderr) {
        Err(
            ShutdownErrorView::CommandFailed {
                stdout: decode_utf8(output.stdout),
                stderr: decode_utf8(output.stderr),
            },
        )
    } else {
        Err(ShutdownErrorView::UndecodableOutput)
    }
}

/// The command that powers off the machine the daemon runs on.
pub fn local_shutdown_command() -> (command: CommandLine)
    ensures
        command@ == local_shutdown_line(),
{
    let mut args: Vec<String> = Vec::new();
    push_text(&mut args, "shutdown");
    push_text(&mut args, "-h");
    push_text(&mut args, "now");
    let command = CommandLine { program: String::from_str("sudo"), args };
    assert(command@.args =~= local_shutdown_line().args);
    command
}

/// Judges the output of a finished local shutdown command.
pub fn local_shutdown_result(output: CommandOutput) -> (result: Result<(), ShutdownError>)
    ensures
        stop_view(result) == local_shutdown_verdict(output@),
{
    if output.exit_success {
        return Ok(());
    }
    match text_of(output.stdout) {
        None => Err(ShutdownError::UndecodableOutput),
        Some(stdout) => match text_of(output.stderr) {
            None => Err(ShutdownError::UndecodableOutput),
            Some(stderr) => Err(ShutdownError::CommandFailed { stdout, stderr }),
        },
    }
}

/// What is to be stopped, chosen once at startup.
#[derive(Clone, Debug, PartialEq, Eq)]
pub enum ShutdownTarget {
    /// The machine the daemon runs on.
    Local,
    /// A compute instance, stopped through the cloud provider's tool.
    CloudInstance {
        /// Path of the provider's command-line tool.
        provider_cli_path: String,
        /// Path of the configuration file handed to the tool.
        config_file_path: String,
        /// Identifier of the instance.
        instance_id: String,
    },
}

/// A [`ShutdownTarget`] as plain text.
pub ghost enum ShutdownTargetView {
    /// The machine the daemon runs on.
    Local,
    /// A compute instance, stopped through the cloud provider's tool.
    CloudInstance {
        /// Path of the provider's command-line tool.
        provider_cli_path: Seq<char>,
        /// Path of the configuration file handed to the tool.
        config_file_path: Seq<char>,
        /// Identifier of the instance.
        instance_id: Seq<char>,
    },
}

impl ShutdownTargetView {
    /// Whether one call for shutdown is the last thing the daemon does. A
    /// one-shot target is asked once and the daemon leaves with the answer;
    /// any other is asked again at every tick that finds the server idle.
    pub open spec fn one_shot(self) -> bool {
        self is CloudInstance
    }

    /// The command that stops the target.
    pub open spec fn stop_line(self) -> CommandLineView {
        match self {
            ShutdownTargetView::Local => local_shutdown_line(),
            ShutdownTargetView::CloudInstance {
                provider_cli_path,
                config_file_path,
                instance_id,
            } => stop_instance_line(provider_cli_path, config_file_path, instance_id),
        }
    }

    /// What the outcome of running the stop command means.
    pub open spec fn stop_verdict(self, outcome: CommandOutcomeView) -> Result<
        (),
        ShutdownErrorView,
    > {
        match outcome {
            CommandOutcomeView::NotLaunched { detail } => Err(
                ShutdownErrorView::Launch { detail },
            ),
            CommandOutcomeView::Completed(output) => match self {
                ShutdownTargetView::Local => local_shutdown_verdict(output),
                ShutdownTargetView::CloudInstance { .. } => stop_instance_verdict(output),
            },
        }
    }

    /// Whether the daemon gives up after a call for shutdown that ended in
    /// `error`. It does for a one-shot target, and for any target when the
    /// command could not be started.
    pub open spec fn gives_up_on(self, error: ShutdownErrorView) -> bool {
        self.one_shot() || error is Launch
    }
}

impl View for ShutdownTarget {
    type V = ShutdownTargetView;

    open spec fn view(&self) -> ShutdownTargetView {
        match self {
            ShutdownTarget::Local => ShutdownTargetView::Local,
            ShutdownTarget::CloudInstance { provider_cli_path, config_file_path, instance_id } => {
                ShutdownTargetView::CloudInstance {
                    provider_cli_path: provider_cli_path@,
                    config_file_path: config_file_path@,
                    instance_id: instance_id@,
                }
            },
        }
    }
}

impl ShutdownTarget {
    /// Whether one call for shutdown is the last thing the daemon does.
    pub fn is_one_shot(&self) -> (one_shot: bool)
        ensures
            one_shot == self@.one_shot(),
    {
        match self {
            ShutdownTarget::Local => false,
            ShutdownTarget::CloudInstance { .. } => true,
        }
    }

    /// Whether the daemon gives up after a call for shutdown that ended in
    /// `error`.
    pub fn gives_up_on(&self, error: &ShutdownError) -> (fatal: bool)
        ensures
            fatal == self@.gives_up_on(error@),
    {
        self.is_one_shot() || error.is_launch_failure()
    }

    /// The command that stops the target.
    pub fn stop_command(&self) -> (command: CommandLine)
        ensures
            command@ == self@.stop_line(),
    {
        match self {
            ShutdownTarget::Local => local_shutdown_command(),
            ShutdownTarget::CloudInstance { provider_cli_path, config_file_path, instance_id } => {
                stop_instance_command(
                    provider_cli_path.as_str(),
                    config_file_path.as_str(),
                    instance_id.as_str(),
                )
            },
        }
    }

    /// Judges the outcome of running the stop command. The command is judged
    /// as it came back: nothing is retried here.
    pub fn stop_result(&self, outcome: CommandOutcome) -> (result: Result<(), ShutdownError>)
        ensures
            stop_view(result) == self@.stop_verdict(outcome@),
    {
        match outcome {
            CommandOutcome::NotLaunched { detail } => Err(ShutdownError::Launch { detail }),
            CommandOutcome::Completed(output) => match self {
                ShutdownTarget::Local => local_shutdown_result(output),
                ShutdownTarget::CloudInstance { .. } => stop_instance_result(output),
            },
        }
    }
}

} // verus!
