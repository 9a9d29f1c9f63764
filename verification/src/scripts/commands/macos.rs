//! Running a script on macOS and collecting what it printed.

use vstd::prelude::*;

use super::{build_macos_command, macos_command, output_of, CommandOutcome, CommandSpec, ScriptOutput};
use crate::scripts::{lossy_utf8, parse_args, parsed_args};
use crate::store::Script;

verus! {

/// What a run of a script on macOS produced, from what its command gave
/// back: the printed bytes decoded as UTF-8, bad sequences replaced, with the
/// exit code, 0 where a signal ended it; or, where the command could not be
/// run, the error's message with status code 1.
pub fn execute(outcome: CommandOutcome) -> (r: ScriptOutput)
    ensures
        match outcome {
            CommandOutcome::Finished { stdout, code } => {
                &&& r.logs@ == lossy_utf8(stdout@)
                &&& r.status_code == (match code { Some(c) => c, None => 0 })
            },
            CommandOutcome::Failed { message } => {
                &&& r.logs@ == message@
                &&& r.status_code == 1
            },
        },
{
    output_of(outcome)
}

/// The command that runs `script` on macOS, its arguments split as a POSIX
/// shell would, its standard output left to the caller.
pub fn get_command(script: &Script) -> (r: CommandSpec)
    ensures
        !r.stdout_piped,
        r@ == macos_command(script@.interpreter, script@.path, script@.name, script@.need_admin, parsed_args(script@.args), false),
{
    let parsed = parse_args(script.args.as_str());
    build_macos_command(&script.interpreter, &script.path, &script.name, script.need_admin, parsed, false)
}

} // verus!
