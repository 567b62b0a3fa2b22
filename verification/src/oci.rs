//! Stopping a compute instance through the cloud provider's command-line tool.

use vstd::prelude::*;
use vstd::string::*;
use vstd::utf8::*;

use crate::backend::{stop_view, ShutdownError, ShutdownErrorView};
use crate::command::{push_text, text_of, CommandLine, CommandLineView, CommandOutput, CommandOutputView};

verus! {

/// The call of the provider's tool that stops the instance `instance_id`:
/// the tool at `cli_path`, told to read `config_file` and to apply the
/// action `STOP` to the instance.
pub open spec fn stop_instance_line(
    cli_path: Seq<char>,
    config_file: Seq<char>,
    instance_id: Seq<char>,
) -> CommandLineView {
    CommandLineView {
        program: cli_path,
        args: seq![
            "--config-file"@,
            config_file,
            "compute"@,
            "instance"@,
            "action"@,
            "--action"@,
            "STOP"@,
            "--instance-id"@,
            instance_id,
        ],
    }
}

/// What the output of a finished stop call means: success where the exit
/// status says so, whatever was written; else what the tool wrote to standard
/// error, or the bare fact that it is no text.
pub open spec fn stop_instance_verdict(output: CommandOutputView) -> Result<(), ShutdownErrorView> {
    if output.exit_success {
        Ok(())
    } else if valid_utf8(output.stderr) {
        Err(ShutdownErrorView::StopInstanceFailed { stderr: decode_utf8(output.stderr) })
    } else {
        Err(ShutdownErrorView::UndecodableOutput)
    }
}

/// Builds the call of the provider's tool that stops the instance
/// `instance_id`.
pub fn stop_instance_command(cli_path: &str, config_file: &str, instance_id: &str) -> (command:
    CommandLine)
    ensures
        command@ == stop_instance_line(cli_path@, config_file@, instance_id@),
{
    let mut args: Vec<String> = Vec::new();
    push_text(&mut args, "--config-file");
    push_text(&mut args, config_file);
    push_text(&mut args, "compute");
    push_text(&mut args, "instance");
    push_text(&mut args, "action");
    push_text(&mut args, "--action");
    push_text(&mut args, "STOP");
    push_text(&mut args, "--instance-id");
    push_text(&mut args, instance_id);
    let command = CommandLine { program: String::from_str(cli_path), args };
    assert(command@.args =~= stop_instance_line(cli_path@, config_file@, instance_id@).args);
    command
}

/// Judges the output of a finished stop call. Standard error is read only
/// when the exit status reports failure.
pub fn stop_instance_result(output: CommandOutput) -> (result: Result<(), ShutdownError>)
    ensures
        stop_view(result) == stop_instance_verdict(output@),
{
    if output.exit_success {
        return Ok(());
    }
    match text_of(output.stderr) {
        Some(stderr) => Err(ShutdownError::StopInstanceFailed { stderr }),
        None => Err(ShutdownError::UndecodableOutput),
    }
}

} // verus!
