//! The life of a run on the board: a script is marked running, its output
//! arrives line by line, and when it ends its status is kept and the user
//! may be told.

use vstd::prelude::*;
use vstd::string::*;

use super::{decode_lossy, lossy_utf8};
use crate::notifications::{NotifStringEnum, NotifTypeEnum};
use crate::store::{scripts_view, stored_of, Script, ScriptView};

verus! {

/// The newline byte.
pub const NEWLINE: u8 = 10u8;

/// A script as its run starts: marked running, its output cleared, or, where
/// output is preserved between runs, followed by a newline.
pub open spec fn started(s: ScriptView) -> ScriptView {
    ScriptView {
        running: true,
        output: if s.preserve_output { s.output + "\n"@ } else { Seq::empty() },
        ..s
    }
}

/// Starting a run marks the script running, whatever its flags: its output
/// is cleared, or, where output is preserved, kept and followed by a
/// newline; every other field is kept.
pub proof fn lemma_start_marks_running(s: ScriptView)
    ensures
        started(s).running,
        !s.preserve_output ==> started(s).output.len() == 0,
        s.preserve_output ==> started(s).output.len() == s.output.len() + 1
            && started(s).output.take(s.output.len() as int) == s.output
            && started(s).output.last() == '\n',
        started(s).id == s.id,
        started(s).name == s.name,
        started(s).filename == s.filename,
        started(s).path == s.path,
        started(s).need_admin == s.need_admin,
        started(s).notifs_enabled == s.notifs_enabled,
        started(s).interpreter == s.interpreter,
        started(s).args == s.args,
        started(s).status_code == s.status_code,
        started(s).preserve_output == s.preserve_output,
{
    reveal_strlit("\n");
    if s.preserve_output {
        assert(started(s).output.take(s.output.len() as int) =~= s.output);
    }
}

/// Marks the script at `script_index` as running, clears or continues its
/// output as [`started`] says, and gives back the script to launch.
pub fn execute_script(scripts: &mut Vec<Script>, script_index: usize) -> (r: Script)
    requires
        script_index < old(scripts)@.len(),
    ensures
        r@ == started(old(scripts)@[script_index as int]@),
        r.running,
        final(scripts)@[script_index as int].running,
        final(scripts)@.len() == old(scripts)@.len(),
        r.output@ == (if old(scripts)@[script_index as int].preserve_output {
            old(scripts)@[script_index as int].output@ + "\n"@
        } else {
            Seq::<char>::empty()
        }),
        scripts_view(final(scripts)@) == scripts_view(old(scripts)@).update(
            script_index as int,
            started(old(scripts)@[script_index as int]@),
        ),
{
    let mut script = scripts[script_index].duplicate();
    script.running = true;
    if !script.preserve_output {
        script.output = String::new();
    } else {
        script.output.append("\n");
    }
    let r = script.duplicate();
    scripts.set(script_index, script);
    proof {
        assert(scripts_view(scripts@) =~= scripts_view(old(scripts)@).update(
            script_index as int,
            started(old(scripts)@[script_index as int]@),
        ));
    }
    r
}

/// The bytes kept after `byte` arrives with `pending` kept: a newline starts
/// a new line that holds only itself; any other byte is added.
pub open spec fn next_pending(pending: Seq<u8>, byte: u8) -> Seq<u8> {
    if byte == NEWLINE {
        seq![byte]
    } else {
        pending.push(byte)
    }
}

/// The line handed out when `byte` arrives with `pending` kept: all of
/// `pending` on a newline, nothing otherwise.
pub open spec fn completed_line(pending: Seq<u8>, byte: u8) -> Option<Seq<u8>> {
    if byte == NEWLINE {
        Some(pending)
    } else {
        None
    }
}

/// Takes one byte of a running script's output into `buffer`. On a newline
/// the bytes kept so far are handed out as a line, decoded as UTF-8 with bad
/// sequences replaced, and the newline alone is kept to start the next one.
pub fn push_output_byte(buffer: &mut Vec<u8>, byte: u8) -> (r: Option<String>)
    ensures
        final(buffer)@ == next_pending(old(buffer)@, byte),
        match completed_line(old(buffer)@, byte) {
            Some(line) => r is Some && r->0@ == lossy_utf8(line),
            None => r is None,
        },
{
    let mut r: Option<String> = None;
    if byte == NEWLINE {
        r = Some(decode_lossy(buffer.as_slice()));
        buffer.clear();
    }
    buffer.push(byte);
    proof {
        if byte == NEWLINE {
            assert(buffer@ =~= seq![byte]);
        }
    }
    r
}

/// Hands out what is left when a script's output ends: the bytes kept since
/// the last newline, decoded as UTF-8 with bad sequences replaced, where
/// there are any; nothing is kept afterwards. Calling it when the output
/// ends stores the whole output on the board, its last line too, also when
/// no newline ends it.
pub fn end_of_output(buffer: &mut Vec<u8>) -> (r: Option<String>)
    ensures
        final(buffer)@.len() == 0,
        r is Some <==> old(buffer)@.len() > 0,
        r matches Some(line) ==> line@ == lossy_utf8(old(buffer)@),
{
    if buffer.len() == 0 {
        return None;
    }
    let line = decode_lossy(buffer.as_slice());
    buffer.clear();
    Some(line)
}

/// The bytes [`end_of_output`] hands out from `pending`, as a list of at most
/// one line.
pub open spec fn tail_lines(pending: Seq<u8>) -> Seq<Seq<u8>> {
    if pending.len() > 0 {
        seq![pending]
    } else {
        Seq::empty()
    }
}

/// The lines handed out, and the bytes kept at the end, when `input` arrives
/// byte by byte at [`push_output_byte`] with `pending` kept.
pub open spec fn feed(pending: Seq<u8>, input: Seq<u8>) -> (Seq<Seq<u8>>, Seq<u8>)
    decreases input.len(),
{
    if input.len() == 0 {
        (Seq::empty(), pending)
    } else {
        let prev = feed(pending, input.drop_last());
        let byte = input.last();
        let lines = match completed_line(prev.1, byte) {
            Some(line) => prev.0.push(line),
            None => prev.0,
        };
        (lines, next_pending(prev.1, byte))
    }
}

/// The output reader neither loses, adds nor reorders bytes: the lines it
/// hands out, one after another, followed by what it still keeps, are the
/// bytes it kept before followed by the bytes that arrived.
pub proof fn lemma_output_keeps_every_byte(pending: Seq<u8>, input: Seq<u8>)
    ensures
        feed(pending, input).0.flatten() + feed(pending, input).1 == pending + input,
    decreases input.len(),
{
    if input.len() == 0 {
        assert(pending + input =~= pending);
        assert(Seq::<Seq<u8>>::empty().flatten() =~= Seq::<u8>::empty());
        assert(Seq::<u8>::empty() + pending =~= pending);
    } else {
        let front = input.drop_last();
        let byte = input.last();
        lemma_output_keeps_every_byte(pending, front);
        let prev = feed(pending, front);
        assert(input =~= front.push(byte));
        if byte == NEWLINE {
            prev.0.lemma_flatten_push(prev.1);
            assert(prev.0.push(prev.1).flatten() + seq![byte] =~= prev.0.flatten() + prev.1 + seq![byte]);
            assert(pending + input =~= (pending + front) + seq![byte]);
        } else {
            assert(prev.0.flatten() + prev.1.push(byte) =~= (prev.0.flatten() + prev.1).push(byte));
            assert(pending + input =~= (pending + front).push(byte));
        }
    }
}

/// Every byte of a script's output is handed out: starting with nothing
/// kept, the lines handed out while the bytes arrive, followed by the one
/// [`end_of_output`] hands out at the end, are the bytes that arrived.
pub proof fn lemma_all_output_is_handed_out(input: Seq<u8>)
    ensures
        (feed(Seq::empty(), input).0 + tail_lines(feed(Seq::empty(), input).1)).flatten() == input,
{
    let fed = feed(Seq::empty(), input);
    lemma_output_keeps_every_byte(Seq::empty(), input);
    assert(Seq::<u8>::empty() + input =~= input);
    if fed.1.len() > 0 {
        assert(fed.0 + tail_lines(fed.1) =~= fed.0.push(fed.1));
        fed.0.lemma_flatten_push(fed.1);
    } else {
        assert(fed.0 + tail_lines(fed.1) =~= fed.0);
        assert(fed.0.flatten() + fed.1 =~= fed.0.flatten());
    }
}

/// `s` holds a newline at its first position and nowhere else where `later`
/// holds, and no newline at all otherwise.
pub open spec fn line_shape(s: Seq<u8>, later: bool) -> bool {
    &&& later ==> s.len() > 0
    &&& forall|j: int| 0 <= j < s.len() ==> (#[trigger] s[j] == NEWLINE <==> (later && j == 0))
}

/// Starting with nothing kept, the first line the output reader hands out
/// holds no newline, and each later line, like the bytes it keeps once a
/// line was handed out, starts with the newline that ended the line before
/// and holds no other.
pub proof fn lemma_output_line_shape(input: Seq<u8>)
    ensures
        forall|k: int| 0 <= k < feed(Seq::empty(), input).0.len()
            ==> line_shape(#[trigger] feed(Seq::empty(), input).0[k], k > 0),
        line_shape(feed(Seq::empty(), input).1, feed(Seq::empty(), input).0.len() > 0),
    decreases input.len(),
{
    if input.len() > 0 {
        let front = input.drop_last();
        let byte = input.last();
        lemma_output_line_shape(front);
        let prev = feed(Seq::empty(), front);
        if byte == NEWLINE {
            let lines = prev.0.push(prev.1);
            assert forall|k: int| 0 <= k < lines.len() implies line_shape(#[trigger] lines[k], k > 0) by {
                if k < prev.0.len() {
                    assert(lines[k] == prev.0[k]);
                }
            }
            assert(line_shape(seq![byte], true));
        } else {
            let kept = prev.1.push(byte);
            assert forall|j: int| 0 <= j < kept.len() implies (#[trigger] kept[j] == NEWLINE <==> (prev.0.len() > 0 && j == 0)) by {
                if j < prev.1.len() {
                    assert(kept[j] == prev.1[j]);
                }
            }
        }
    }
}

/// Adds `line` to the output of the script at `script_index`.
pub fn update_script_output(scripts: &mut Vec<Script>, line: &str, script_index: usize)
    requires
        script_index < old(scripts)@.len(),
    ensures
        scripts_view(final(scripts)@) == scripts_view(old(scripts)@).update(
            script_index as int,
            ScriptView {
                output: old(scripts)@[script_index as int]@.output + line@,
                ..old(scripts)@[script_index as int]@
            },
        ),
{
    let mut script = scripts[script_index].duplicate();
    script.output.append(line);
    scripts.set(script_index, script);
    proof {
        assert(scripts_view(scripts@) =~= scripts_view(old(scripts)@).update(
            script_index as int,
            ScriptView {
                output: old(scripts)@[script_index as int]@.output + line@,
                ..old(scripts)@[script_index as int]@
            },
        ));
    }
}

/// What a finished run leaves of a script: no longer running; a status code
/// of -1 where its exit could not be waited for, 0 where it exited with 0,
/// and its former status code otherwise.
pub open spec fn finished(s: ScriptView, exit: Option<Option<i32>>) -> ScriptView {
    ScriptView {
        running: false,
        status_code: match exit {
            None => -1i32,
            Some(Some(code)) => if code == 0 { 0i32 } else { s.status_code },
            Some(None) => s.status_code,
        },
        ..s
    }
}

/// Ending a run leaves the script not running, whatever the exit. Its status
/// code becomes -1 where the exit could not be waited for, 0 where it was 0,
/// and stays as it was otherwise; every other field is kept.
pub proof fn lemma_finish_stops_running(s: ScriptView, exit: Option<Option<i32>>)
    ensures
        !finished(s, exit).running,
        exit is None ==> finished(s, exit).status_code == -1,
        exit == Some(Some(0i32)) ==> finished(s, exit).status_code == 0,
        (exit is Some && exit != Some(Some(0i32))) ==> finished(s, exit).status_code == s.status_code,
        finished(s, exit).id == s.id,
        finished(s, exit).name == s.name,
        finished(s, exit).filename == s.filename,
        finished(s, exit).path == s.path,
        finished(s, exit).need_admin == s.need_admin,
        finished(s, exit).notifs_enabled == s.notifs_enabled,
        finished(s, exit).interpreter == s.interpreter,
        finished(s, exit).args == s.args,
        finished(s, exit).output == s.output,
        finished(s, exit).preserve_output == s.preserve_output,
{
}

/// A run changes nothing that is saved of a script: starting it, adding to
/// its output and ending it keep its identifier, name, file, path,
/// interpreter, arguments, need of administrator rights and notifications.
pub proof fn lemma_runs_are_not_saved(s: ScriptView, line: Seq<char>, exit: Option<Option<i32>>)
    ensures
        stored_of(started(s)) == stored_of(s),
        stored_of(ScriptView { output: s.output + line, ..s }) == stored_of(s),
        stored_of(finished(s, exit)) == stored_of(s),
{
}

/// A way a run can go wrong: the script could not be started, its output
/// could not be read, or its end could not be waited for.
#[derive(Clone, Copy, Debug, PartialEq, Eq, Structural)]
pub enum RunFailure {
    SpawnFailed,
    NoOutput,
    WaitFailed,
}

/// What the board does when a run goes wrong: the notification it shows,
/// by its look, title and message, and whether the run is ended, with no
/// exit code, through [`finish_script_execution`].
#[derive(Debug)]
pub struct FailureResponse {
    pub variant: NotifTypeEnum,
    pub title: NotifStringEnum,
    pub message: NotifStringEnum,
    pub ends_run: bool,
}

/// The response to a failed run. A script that cannot be started is reported
/// with a pointer to the logs; one whose output cannot be read, or whose end
/// cannot be waited for, is reported as cancelled. Only a failed wait ends
/// the run; the other two leave the script marked as running.
pub fn on_run_failure(failure: RunFailure) -> (r: FailureResponse)
    ensures
        r.variant == NotifTypeEnum::Danger,
        failure == RunFailure::SpawnFailed ==> r.title == NotifStringEnum::ErrorSpawnScript
            && r.message == NotifStringEnum::CheckLogs && !r.ends_run,
        failure == RunFailure::NoOutput ==> r.title == NotifStringEnum::ErrorScriptOutput
            && r.message == NotifStringEnum::ScriptExecutionCancelled && !r.ends_run,
        failure == RunFailure::WaitFailed ==> r.title == NotifStringEnum::ErrorScriptOutput
            && r.message == NotifStringEnum::ScriptExecutionCancelled && r.ends_run,
{
    match failure {
        RunFailure::SpawnFailed => FailureResponse {
            variant: NotifTypeEnum::Danger,
            title: NotifStringEnum::ErrorSpawnScript,
            message: NotifStringEnum::CheckLogs,
            ends_run: false,
        },
        RunFailure::NoOutput => FailureResponse {
            variant: NotifTypeEnum::Danger,
            title: NotifStringEnum::ErrorScriptOutput,
            message: NotifStringEnum::ScriptExecutionCancelled,
            ends_run: false,
        },
        RunFailure::WaitFailed => FailureResponse {
            variant: NotifTypeEnum::Danger,
            title: NotifStringEnum::ErrorScriptOutput,
            message: NotifStringEnum::ScriptExecutionCancelled,
            ends_run: true,
        },
    }
}

/// A notification that a finished run asks for: its look, its title, and
/// the text it shows.
#[derive(Debug)]
pub struct RunNotification {
    pub variant: NotifTypeEnum,
    pub title: String,
    pub message: NotifStringEnum,
}

/// Ends the run of the script at `script_index`, given its exit code, as
/// [`finished`] says. Where the exit was waited for and the script's
/// notifications are on, a notification titled with the script's name is
/// asked for: a success where the exit code is 0, a failure otherwise.
pub fn finish_script_execution(
    scripts: &mut Vec<Script>,
    exit: Option<Option<i32>>,
    script_index: usize,
) -> (r: Option<RunNotification>)
    requires
        script_index < old(scripts)@.len(),
    ensures
        scripts_view(final(scripts)@) == scripts_view(old(scripts)@).update(
            script_index as int,
            finished(old(scripts)@[script_index as int]@, exit),
        ),
        !final(scripts)@[script_index as int].running,
        final(scripts)@.len() == old(scripts)@.len(),
        exit is None ==> final(scripts)@[script_index as int].status_code == -1,
        exit == Some(Some(0i32)) ==> final(scripts)@[script_index as int].status_code == 0,
        (exit is Some && exit != Some(Some(0i32))) ==> final(scripts)@[script_index as int].status_code
            == old(scripts)@[script_index as int].status_code,
        r is Some <==> (exit is Some && old(scripts)@[script_index as int]@.notifs_enabled),
        r matches Some(n) ==> {
            &&& n.title@ == old(scripts)@[script_index as int]@.name
            &&& (exit == Some(Some(0i32)) ==> n.variant == NotifTypeEnum::Success
                && n.message == NotifStringEnum::ScriptExecutionDone)
            &&& (exit != Some(Some(0i32)) ==> n.variant == NotifTypeEnum::Danger
                && n.message == NotifStringEnum::ScriptExecutionFailed)
        },
{
    let mut script = scripts[script_index].duplicate();
    script.running = false;
    let code = match exit {
        None => {
            script.status_code = -1;
            scripts.set(script_index, script);
            proof {
                assert(scripts_view(scripts@) =~= scripts_view(old(scripts)@).update(
                    script_index as int,
                    finished(old(scripts)@[script_index as int]@, exit),
                ));
            }
            return None;
        },
        Some(code) => code,
    };
    let succeeded = match code {
        Some(c) => c == 0,
        None => false,
    };
    let (variant, message) = if succeeded {
        script.status_code = 0;
        (NotifTypeEnum::Success, NotifStringEnum::ScriptExecutionDone)
    } else {
        (NotifTypeEnum::Danger, NotifStringEnum::ScriptExecutionFailed)
    };
    let notify = script.notifs_enabled;
    let title = script.name.clone();
    scripts.set(script_index, script);
    proof {
        assert(scripts_view(scripts@) =~= scripts_view(old(scripts)@).update(
            script_index as int,
            finished(old(scripts)@[script_index as int]@, exit),
        ));
    }
    if notify {
        Some(RunNotification { variant, title, message })
    } else {
        None
    }
}

} // verus!
