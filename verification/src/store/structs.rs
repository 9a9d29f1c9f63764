use vstd::prelude::*;

verus! {

/// A script as the board shows it: what is saved of it, and the state of its
/// last run.
#[derive(Debug)]
pub struct Script {
    pub id: String,
    pub name: String,
    pub filename: String,
    pub path: String,
    pub need_admin: bool,
    pub notifs_enabled: bool,
    pub interpreter: String,
    pub args: String,
    pub running: bool,
    pub output: String,
    pub status_code: i32,
    pub preserve_output: bool,
}

/// The mathematical value of a [`Script`].
pub struct ScriptView {
    pub id: Seq<char>,
    pub name: Seq<char>,
    pub filename: Seq<char>,
    pub path: Seq<char>,
    pub need_admin: bool,
    pub notifs_enabled: bool,
    pub interpreter: Seq<char>,
    pub args: Seq<char>,
    pub running: bool,
    pub output: Seq<char>,
    pub status_code: i32,
    pub preserve_output: bool,
}

impl View for Script {
    type V = ScriptView;

    open spec fn view(&self) -> ScriptView {
        ScriptView {
            id: self.id@,
            name: self.name@,
            filename: self.filename@,
            path: self.path@,
            need_admin: self.need_admin,
            notifs_enabled: self.notifs_enabled,
            interpreter: self.interpreter@,
            args: self.args@,
            running: self.running,
            output: self.output@,
            status_code: self.status_code,
            preserve_output: self.preserve_output,
        }
    }
}

impl Script {
    /// A copy with the same value.
    pub fn duplicate(&self) -> (r: Script)
        ensures
            r@ == self@,
    {
        Script {
            id: self.id.clone(),
            name: self.name.clone(),
            filename: self.filename.clone(),
            path: self.path.clone(),
            need_admin: self.need_admin,
            notifs_enabled: self.notifs_enabled,
            interpreter: self.interpreter.clone(),
            args: self.args.clone(),
            running: self.running,
            output: self.output.clone(),
            status_code: self.status_code,
            preserve_output: self.preserve_output,
        }
    }
}

/// The views of a sequence of scripts.
pub open spec fn scripts_view(v: Seq<Script>) -> Seq<ScriptView> {
    v.map_values(|s: Script| s@)
}

/// What the store keeps of a script.
#[derive(Debug)]
pub struct StoredScript {
    pub id: String,
    pub name: String,
    pub filename: String,
    pub path: String,
    pub need_admin: bool,
    pub notifs_enabled: bool,
    pub interpreter: String,
    pub args: String,
}

/// The mathematical value of a [`StoredScript`].
pub struct StoredScriptView {
    pub id: Seq<char>,
    pub name: Seq<char>,
    pub filename: Seq<char>,
    pub path: Seq<char>,
    pub need_admin: bool,
    pub notifs_enabled: bool,
    pub interpreter: Seq<char>,
    pub args: Seq<char>,
}

impl View for StoredScript {
    type V = StoredScriptView;

    open spec fn view(&self) -> StoredScriptView {
        StoredScriptView {
            id: self.id@,
            name: self.name@,
            filename: self.filename@,
            path: self.path@,
            need_admin: self.need_admin,
            notifs_enabled: self.notifs_enabled,
            interpreter: self.interpreter@,
            args: self.args@,
        }
    }
}

/// What is saved of a script: everything but the state of its last run.
pub open spec fn stored_of(s: ScriptView) -> StoredScriptView {
    StoredScriptView {
        id: s.id,
        name: s.name,
        filename: s.filename,
        path: s.path,
        need_admin: s.need_admin,
        notifs_enabled: s.notifs_enabled,
        interpreter: s.interpreter,
        args: s.args,
    }
}

/// A saved script as the board shows it when loaded: not running, with no
/// output, a status code of 0, and output not preserved between runs.
pub open spec fn loaded_of(s: StoredScriptView) -> ScriptView {
    ScriptView {
        id: s.id,
        name: s.name,
        filename: s.filename,
        path: s.path,
        need_admin: s.need_admin,
        notifs_enabled: s.notifs_enabled,
        interpreter: s.interpreter,
        args: s.args,
        running: false,
        output: Seq::empty(),
        status_code: 0,
        preserve_output: false,
    }
}

/// Saving a script keeps each saved field as it is, and loading a saved
/// script shows each saved field as it is; loading starts with no run:
/// not running, no output, status code 0, output not preserved.
pub proof fn lemma_saved_fields_kept(s: ScriptView, t: StoredScriptView)
    ensures
        stored_of(s).id == s.id,
        stored_of(s).name == s.name,
        stored_of(s).filename == s.filename,
        stored_of(s).path == s.path,
        stored_of(s).need_admin == s.need_admin,
        stored_of(s).notifs_enabled == s.notifs_enabled,
        stored_of(s).interpreter == s.interpreter,
        stored_of(s).args == s.args,
        loaded_of(t).id == t.id,
        loaded_of(t).name == t.name,
        loaded_of(t).filename == t.filename,
        loaded_of(t).path == t.path,
        loaded_of(t).need_admin == t.need_admin,
        loaded_of(t).notifs_enabled == t.notifs_enabled,
        loaded_of(t).interpreter == t.interpreter,
        loaded_of(t).args == t.args,
        !loaded_of(t).running,
        loaded_of(t).output.len() == 0,
        loaded_of(t).status_code == 0,
        !loaded_of(t).preserve_output,
{
}

/// Loading a saved script and saving it again gives back the same saved
/// script.
pub proof fn lemma_load_then_save(s: StoredScriptView)
    ensures
        stored_of(loaded_of(s)) == s,
{
}

/// Saving a script and loading it again keeps everything saved of it and
/// resets the state of its last run: not running, no output, status code 0,
/// output not preserved.
pub proof fn lemma_save_then_load(s: ScriptView)
    ensures
        loaded_of(stored_of(s)) == (ScriptView {
            running: false,
            output: Seq::empty(),
            status_code: 0,
            preserve_output: false,
            ..s
        }),
{
}

impl StoredScript {
    /// Keeps what is saved of `script`.
    pub fn from_script(script: Script) -> (r: StoredScript)
        ensures
            r.id@ == script.id@,
            r.name@ == script.name@,
            r.filename@ == script.filename@,
            r.path@ == script.path@,
            r.need_admin == script.need_admin,
            r.notifs_enabled == script.notifs_enabled,
            r.interpreter@ == script.interpreter@,
            r.args@ == script.args@,
            r@ == stored_of(script@),
    {
        StoredScript {
            id: script.id,
            name: script.name,
            filename: script.filename,
            path: script.path,
            need_admin: script.need_admin,
            notifs_enabled: script.notifs_enabled,
            interpreter: script.interpreter,
            args: script.args,
        }
    }

    /// The script as the board shows it once loaded.
    pub fn to_script(&self) -> (r: Script)
        ensures
            r.id@ == self.id@,
            r.name@ == self.name@,
            r.filename@ == self.filename@,
            r.path@ == self.path@,
            r.need_admin == self.need_admin,
            r.notifs_enabled == self.notifs_enabled,
            r.interpreter@ == self.interpreter@,
            r.args@ == self.args@,
            !r.running,
            r.output@.len() == 0,
            r.status_code == 0,
            !r.preserve_output,
            r@ == loaded_of(self@),
    {
        Script {
            id: self.id.clone(),
            name: self.name.clone(),
            filename: self.filename.clone(),
            path: self.path.clone(),
            need_admin: self.need_admin,
            notifs_enabled: self.notifs_enabled,
            interpreter: self.interpreter.clone(),
            args: self.args.clone(),
            running: false,
            output: String::new(),
            status_code: 0,
            preserve_output: false,
        }
    }

    /// A copy with the same value.
    pub fn duplicate(&self) -> (r: StoredScript)
        ensures
            r@ == self@,
    {
        StoredScript {
            id: self.id.clone(),
            name: self.name.clone(),
            filename: self.filename.clone(),
            path: self.path.clone(),
            need_admin: self.need_admin,
            notifs_enabled: self.notifs_enabled,
            interpreter: self.interpreter.clone(),
            args: self.args.clone(),
        }
    }
}

/// The settings and scripts kept between runs of the program.
#[derive(Debug)]
pub struct Store {
    pub default_interpreter: String,
    pub notif_timeout: i32,
    pub timeout_enabled: bool,
    /// The bits of the user interface's scale factor, an IEEE 754 single.
    pub scale_factor_bits: u32,
    pub language: String,
    pub scripts: Vec<StoredScript>,
}

/// The mathematical value of a [`Store`].
pub struct StoreView {
    pub default_interpreter: Seq<char>,
    pub notif_timeout: i32,
    pub timeout_enabled: bool,
    pub scale_factor_bits: u32,
    pub language: Seq<char>,
    pub scripts: Seq<StoredScriptView>,
}

impl View for Store {
    type V = StoreView;

    open spec fn view(&self) -> StoreView {
        StoreView {
            default_interpreter: self.default_interpreter@,
            notif_timeout: self.notif_timeout,
            timeout_enabled: self.timeout_enabled,
            scale_factor_bits: self.scale_factor_bits,
            language: self.language@,
            scripts: self.scripts@.map_values(|s: StoredScript| s@),
        }
    }
}

} // verus!
