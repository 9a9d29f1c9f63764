//! The command that launches a script on each platform, and the record of
//! what a finished run printed.

pub mod linux;
pub mod macos;
pub mod windows;

use vstd::prelude::*;
use vstd::string::*;

use super::{decode_lossy, lossy_utf8, strings_view};
use crate::store::StoredScript;

verus! {

/// The Windows process creation flag `CREATE_NO_WINDOW`: the child gets no
/// console window of its own.
pub const CREATE_NO_WINDOW: u32 = 0x0800_0000u32;

/// A process to start: its program, its arguments, the Windows creation
/// flags to set, if any, and whether its standard output is piped back.
#[derive(Debug)]
pub struct CommandSpec {
    pub program: String,
    pub args: Vec<String>,
    pub creation_flags: Option<u32>,
    pub stdout_piped: bool,
}

/// The mathematical value of a [`CommandSpec`].
pub struct CommandSpecView {
    pub program: Seq<char>,
    pub args: Seq<Seq<char>>,
    pub creation_flags: Option<u32>,
    pub stdout_piped: bool,
}

impl View for CommandSpec {
    type V = CommandSpecView;

    open spec fn view(&self) -> CommandSpecView {
        CommandSpecView {
            program: self.program@,
            args: strings_view(self.args@),
            creation_flags: self.creation_flags,
            stdout_piped: self.stdout_piped,
        }
    }
}

/// `words` with `sep` between each two of them.
pub open spec fn joined(words: Seq<Seq<char>>, sep: Seq<char>) -> Seq<char>
    decreases words.len(),
{
    if words.len() == 0 {
        Seq::empty()
    } else if words.len() == 1 {
        words[0]
    } else {
        joined(words.drop_last(), sep) + sep + words.last()
    }
}

/// Joins `words` with `sep` between each two of them.
pub fn join_words(words: &Vec<String>, sep: &str) -> (r: String)
    ensures
        r@ == joined(strings_view(words@), sep@),
{
    let mut r = String::new();
    let n = words.len();
    for i in 0..n
        invariant
            n == words@.len(),
            r@ == joined(strings_view(words@.take(i as int)), sep@),
    {
        proof {
            assert(strings_view(words@.take(i + 1)).drop_last() =~= strings_view(words@.take(i as int)));
            assert(strings_view(words@.take(i + 1)).last() == words@[i as int]@);
        }
        if i != 0 {
            r.append(sep);
        }
        r.append(words[i].as_str());
        proof {
            if i == 0 {
                assert(strings_view(words@.take(1)) =~= seq![words@[0]@]);
            }
        }
    }
    assert(words@.take(n as int) =~= words@);
    r
}

/// The command that runs a script without administrator rights: the
/// interpreter, with the script's path and its arguments.
pub open spec fn plain_command(
    interpreter: Seq<char>,
    path: Seq<char>,
    args: Seq<Seq<char>>,
    piped: bool,
) -> CommandSpecView {
    CommandSpecView {
        program: interpreter,
        args: seq![path] + args,
        creation_flags: None,
        stdout_piped: piped,
    }
}

/// The command that runs a script on Linux: as [`plain_command`], or, with
/// administrator rights, through `pkexec` with the interpreter, the path and
/// the arguments.
pub open spec fn linux_command(
    interpreter: Seq<char>,
    path: Seq<char>,
    need_admin: bool,
    args: Seq<Seq<char>>,
    piped: bool,
) -> CommandSpecView {
    if !need_admin {
        plain_command(interpreter, path, args, piped)
    } else {
        CommandSpecView {
            program: "pkexec"@,
            args: seq![interpreter, path] + args,
            creation_flags: None,
            stdout_piped: piped,
        }
    }
}

/// The AppleScript line that runs a script with administrator rights,
/// prompting with the script's name.
pub open spec fn osascript_line(
    interpreter: Seq<char>,
    path: Seq<char>,
    args: Seq<Seq<char>>,
    name: Seq<char>,
) -> Seq<char> {
    "do shell script \""@ + interpreter + " "@ + path + " "@ + joined(args, " "@)
        + "\" with prompt \""@ + name + "\" with administrator privileges"@
}

/// The command that runs a script on macOS: as [`plain_command`], or, with
/// administrator rights, `osascript -e` with the line of [`osascript_line`].
pub open spec fn macos_command(
    interpreter: Seq<char>,
    path: Seq<char>,
    name: Seq<char>,
    need_admin: bool,
    args: Seq<Seq<char>>,
    piped: bool,
) -> CommandSpecView {
    if !need_admin {
        plain_command(interpreter, path, args, piped)
    } else {
        CommandSpecView {
            program: "osascript"@,
            args: seq!["-e"@, osascript_line(interpreter, path, args, name)],
            creation_flags: None,
            stdout_piped: piped,
        }
    }
}

/// The argument list that `Start-Process cmd` is given to run a script with
/// administrator rights.
pub open spec fn windows_elevated_line(
    interpreter: Seq<char>,
    path: Seq<char>,
    args: Seq<Seq<char>>,
) -> Seq<char> {
    "\"/C "@ + interpreter + " "@ + path + " "@ + joined(args, " "@) + "\""@
}

/// The command that runs a script on Windows, always without a console
/// window: the interpreter with `-File`, the path and the arguments, or,
/// with administrator rights, `Start-Process cmd -ArgumentList` with the
/// line of [`windows_elevated_line`].
pub open spec fn windows_command(
    interpreter: Seq<char>,
    path: Seq<char>,
    need_admin: bool,
    args: Seq<Seq<char>>,
    piped: bool,
) -> CommandSpecView {
    if !need_admin {
        CommandSpecView {
            program: interpreter,
            args: seq!["-File"@, path] + args,
            creation_flags: Some(CREATE_NO_WINDOW),
            stdout_piped: piped,
        }
    } else {
        CommandSpecView {
            program: "Start-Process"@,
            args: seq!["cmd"@, "-ArgumentList"@, windows_elevated_line(interpreter, path, args)],
            creation_flags: Some(CREATE_NO_WINDOW),
            stdout_piped: piped,
        }
    }
}

/// Every command pipes its standard output back exactly when asked, on
/// every platform, with or without administrator rights; only Windows
/// commands carry creation flags, and those hide the console window.
pub proof fn lemma_commands_pipe_as_asked(
    interpreter: Seq<char>,
    path: Seq<char>,
    name: Seq<char>,
    need_admin: bool,
    args: Seq<Seq<char>>,
    piped: bool,
)
    ensures
        linux_command(interpreter, path, need_admin, args, piped).stdout_piped == piped,
        macos_command(interpreter, path, name, need_admin, args, piped).stdout_piped == piped,
        windows_command(interpreter, path, need_admin, args, piped).stdout_piped == piped,
        linux_command(interpreter, path, need_admin, args, piped).creation_flags is None,
        macos_command(interpreter, path, name, need_admin, args, piped).creation_flags is None,
        windows_command(interpreter, path, need_admin, args, piped).creation_flags == Some(CREATE_NO_WINDOW),
{
}

/// Without administrator rights every platform runs the interpreter itself,
/// and the script's arguments come last, after the script's path.
pub proof fn lemma_plain_commands_run_the_interpreter(
    interpreter: Seq<char>,
    path: Seq<char>,
    name: Seq<char>,
    args: Seq<Seq<char>>,
    piped: bool,
)
    ensures
        linux_command(interpreter, path, false, args, piped).program == interpreter,
        macos_command(interpreter, path, name, false, args, piped).program == interpreter,
        windows_command(interpreter, path, false, args, piped).program == interpreter,
        linux_command(interpreter, path, false, args, piped).args[0] == path,
        macos_command(interpreter, path, name, false, args, piped).args[0] == path,
        windows_command(interpreter, path, false, args, piped).args[1] == path,
        linux_command(interpreter, path, false, args, piped).args.skip(1) == args,
        macos_command(interpreter, path, name, false, args, piped).args.skip(1) == args,
        windows_command(interpreter, path, false, args, piped).args.skip(2) == args,
{
    assert((seq![path] + args).skip(1) =~= args);
    assert((seq!["-File"@, path] + args).skip(2) =~= args);
}

/// With administrator rights, Linux runs `pkexec` with the interpreter, the
/// path and the arguments; macOS runs `osascript -e` with one AppleScript
/// line that names the interpreter, the path, the arguments and, as its
/// prompt, the script's name; Windows runs `Start-Process cmd -ArgumentList`
/// with one quoted `/C` line that names the interpreter, the path and the
/// arguments.
pub proof fn lemma_admin_commands(
    interpreter: Seq<char>,
    path: Seq<char>,
    name: Seq<char>,
    args: Seq<Seq<char>>,
    piped: bool,
)
    ensures
        linux_command(interpreter, path, true, args, piped).program == "pkexec"@,
        linux_command(interpreter, path, true, args, piped).args == seq![interpreter, path] + args,
        macos_command(interpreter, path, name, true, args, piped).program == "osascript"@,
        macos_command(interpreter, path, name, true, args, piped).args.len() == 2,
        macos_command(interpreter, path, name, true, args, piped).args[0] == "-e"@,
        macos_command(interpreter, path, name, true, args, piped).args[1] == "do shell script \""@
            + interpreter + " "@ + path + " "@ + joined(args, " "@) + "\" with prompt \""@ + name
            + "\" with administrator privileges"@,
        windows_command(interpreter, path, true, args, piped).program == "Start-Process"@,
        windows_command(interpreter, path, true, args, piped).args.len() == 3,
        windows_command(interpreter, path, true, args, piped).args[0] == "cmd"@,
        windows_command(interpreter, path, true, args, piped).args[1] == "-ArgumentList"@,
        windows_command(interpreter, path, true, args, piped).args[2] == "\"/C "@ + interpreter
            + " "@ + path + " "@ + joined(args, " "@) + "\""@,
{
}

/// Joining puts the separator between each two words and nowhere else: no
/// words give nothing, one word gives itself, and one more word adds the
/// separator and that word.
pub proof fn lemma_joined_separates(words: Seq<Seq<char>>, word: Seq<char>, sep: Seq<char>)
    ensures
        joined(Seq::empty(), sep) == Seq::<char>::empty(),
        joined(seq![word], sep) == word,
        words.len() > 0 ==> joined(words.push(word), sep) == joined(words, sep) + sep + word,
{
    if words.len() > 0 {
        assert(words.push(word).drop_last() =~= words);
    }
}

/// `first` followed by `rest`.
fn prepend(first: Vec<String>, rest: Vec<String>) -> (r: Vec<String>)
    ensures
        strings_view(r@) == strings_view(first@) + strings_view(rest@),
{
    let mut r = first;
    let mut rest = rest;
    let ghost head = r@;
    let ghost tail = rest@;
    r.append(&mut rest);
    assert(strings_view(r@) =~= strings_view(head) + strings_view(tail));
    r
}

/// The Linux command for a script.
pub(crate) fn build_linux_command(
    interpreter: &String,
    path: &String,
    need_admin: bool,
    parsed_args: Vec<String>,
    piped: bool,
) -> (r: CommandSpec)
    ensures
        r.stdout_piped == piped,
        r@ == linux_command(interpreter@, path@, need_admin, strings_view(parsed_args@), piped),
{
    let mut lead: Vec<String> = Vec::new();
    let program = if !need_admin {
        lead.push(path.clone());
        assert(strings_view(lead@) =~= seq![path@]);
        interpreter.clone()
    } else {
        lead.push(interpreter.clone());
        lead.push(path.clone());
        assert(strings_view(lead@) =~= seq![interpreter@, path@]);
        "pkexec".to_owned()
    };
    let args = prepend(lead, parsed_args);
    CommandSpec { program, args, creation_flags: None, stdout_piped: piped }
}

/// The macOS command for a script.
pub(crate) fn build_macos_command(
    interpreter: &String,
    path: &String,
    name: &String,
    need_admin: bool,
    parsed_args: Vec<String>,
    piped: bool,
) -> (r: CommandSpec)
    ensures
        r.stdout_piped == piped,
        r@ == macos_command(interpreter@, path@, name@, need_admin, strings_view(parsed_args@), piped),
{
    if !need_admin {
        let mut lead: Vec<String> = Vec::new();
        lead.push(path.clone());
        assert(strings_view(lead@) =~= seq![path@]);
        let args = prepend(lead, parsed_args);
        return CommandSpec { program: interpreter.clone(), args, creation_flags: None, stdout_piped: piped };
    }
    let mut line = "do shell script \"".to_owned();
    line.append(interpreter.as_str());
    line.append(" ");
    line.append(path.as_str());
    line.append(" ");
    let joined_args = join_words(&parsed_args, " ");
    line.append(joined_args.as_str());
    line.append("\" with prompt \"");
    line.append(name.as_str());
    line.append("\" with administrator privileges");
    let mut args: Vec<String> = Vec::new();
    args.push("-e".to_owned());
    args.push(line);
    assert(strings_view(args@) =~= seq![
        "-e"@,
        osascript_line(interpreter@, path@, strings_view(parsed_args@), name@),
    ]);
    CommandSpec { program: "osascript".to_owned(), args, creation_flags: None, stdout_piped: piped }
}

/// The Windows command for a script.
pub(crate) fn build_windows_command(
    interpreter: &String,
    path: &String,
    need_admin: bool,
    parsed_args: Vec<String>,
    piped: bool,
) -> (r: CommandSpec)
    ensures
        r.stdout_piped == piped,
        r@ == windows_command(interpreter@, path@, need_admin, strings_view(parsed_args@), piped),
{
    if !need_admin {
        let mut lead: Vec<String> = Vec::new();
        lead.push("-File".to_owned());
        lead.push(path.clone());
        assert(strings_view(lead@) =~= seq!["-File"@, path@]);
        let args = prepend(lead, parsed_args);
        return CommandSpec {
            program: interpreter.clone(),
            args,
            creation_flags: Some(CREATE_NO_WINDOW),
            stdout_piped: piped,
        };
    }
    let mut line = "\"/C ".to_owned();
    line.append(interpreter.as_str());
    line.append(" ");
    line.append(path.as_str());
    line.append(" ");
    let joined_args = join_words(&parsed_args, " ");
    line.append(joined_args.as_str());
    line.append("\"");
    let mut args: Vec<String> = Vec::new();
    args.push("cmd".to_owned());
    args.push("-ArgumentList".to_owned());
    args.push(line);
    assert(strings_view(args@) =~= seq![
        "cmd"@,
        "-ArgumentList"@,
        windows_elevated_line(interpreter@, path@, strings_view(parsed_args@)),
    ]);
    CommandSpec {
        program: "Start-Process".to_owned(),
        args,
        creation_flags: Some(CREATE_NO_WINDOW),
        stdout_piped: piped,
    }
}

/// The command that runs a saved script on Linux with `parsed_args`, its
/// standard output piped back.
pub fn get_linux_command(script: &StoredScript, parsed_args: Vec<String>) -> (r: CommandSpec)
    ensures
        r.stdout_piped,
        r@ == linux_command(script@.interpreter, script@.path, script@.need_admin, strings_view(parsed_args@), true),
{
    build_linux_command(&script.interpreter, &script.path, script.need_admin, parsed_args, true)
}

/// The command that runs a saved script on macOS with `parsed_args`, its
/// standard output piped back.
pub fn get_macos_command(script: &StoredScript, parsed_args: Vec<String>) -> (r: CommandSpec)
    ensures
        r.stdout_piped,
        r@ == macos_command(script@.interpreter, script@.path, script@.name, script@.need_admin, strings_view(parsed_args@), true),
{
    build_macos_command(&script.interpreter, &script.path, &script.name, script.need_admin, parsed_args, true)
}

/// The command that runs a saved script on Windows with `parsed_args`, its
/// standard output piped back.
pub fn get_windows_command(script: &StoredScript, parsed_args: Vec<String>) -> (r: CommandSpec)
    ensures
        r.stdout_piped,
        r@ == windows_command(script@.interpreter, script@.path, script@.need_admin, strings_view(parsed_args@), true),
{
    build_windows_command(&script.interpreter, &script.path, script.need_admin, parsed_args, true)
}

/// What running a command gave back: the bytes it printed and its exit code
/// (none where a signal ended it), or the message of the error that kept it
/// from running.
#[derive(Debug)]
pub enum CommandOutcome {
    Finished { stdout: Vec<u8>, code: Option<i32> },
    Failed { message: String },
}

/// What a finished run of a script printed, and its status code.
#[derive(Debug)]
pub struct ScriptOutput {
    pub logs: String,
    pub status_code: i32,
}

/// The record of a run: the printed bytes decoded as UTF-8, bad sequences
/// replaced, with the exit code, 0 where there was none; or the error's
/// message with status code 1.
pub(crate) fn output_of(outcome: CommandOutcome) -> (r: ScriptOutput)
    ensures
        match outcome {
            CommandOutcome::Finished { stdout, code } => {
                &&& r.logs@ == lossy_utf8(stdout@)
                &&& r.status_code == (match code { Some(c) => c, None => 0 })
            },
            CommandOutcome::Failed { message } => {
                &&& r.logs@ == message@
                &&& r.status_code == 1
            },
        },
{
    match outcome {
        CommandOutcome::Finished { stdout, code } => {
            let logs = decode_lossy(stdout.as_slice());
            let status_code = match code {
                Some(c) => c,
                None => 0,
            };
            ScriptOutput { logs, status_code }
        },
        CommandOutcome::Failed { message } => ScriptOutput { logs: message, status_code: 1 },
    }
}

} // verus!
