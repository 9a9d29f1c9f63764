//! What the board does when the user acts on it: load a script, change its
//! settings, delete it, pick a language. The board's list and the store are
//! kept in step.

use vstd::prelude::*;

use crate::scripts::execute::{finished, lemma_runs_are_not_saved, started};
use crate::store::structs::lemma_load_then_save;
use crate::store::{
    add_script, is_uuid_v4_text, loaded_of, remove_script, scripts_view, set_default_interpreter, set_language,
    set_notif_timeout, set_timeout_enabled, stored_of, update_script, Script, ScriptView, Store,
    StoreView, StoredScriptView,
};

verus! {

/// The board's list and the saved scripts are in step: as many of each,
/// and each script on the board saves as the saved script at its place.
pub open spec fn mirrors(board: Seq<ScriptView>, saved: Seq<StoredScriptView>) -> bool {
    &&& board.len() == saved.len()
    &&& forall|i: int| 0 <= i < board.len() ==> stored_of(#[trigger] board[i]) == saved[i]
}

/// A board freshly loaded from the store is in step with it.
pub proof fn lemma_loaded_board_mirrors(saved: Seq<StoredScriptView>)
    ensures
        mirrors(saved.map_values(|s: StoredScriptView| loaded_of(s)), saved),
{
    let board = saved.map_values(|s: StoredScriptView| loaded_of(s));
    assert forall|i: int| 0 <= i < board.len() implies stored_of(#[trigger] board[i]) == saved[i] by {
        lemma_load_then_save(saved[i]);
    }
}

/// Runs keep the board in step with the store: starting a script, adding
/// to its output or ending its run, at any place, leaves a board in step
/// with the same saved scripts.
pub proof fn lemma_runs_keep_mirror(
    board: Seq<ScriptView>,
    saved: Seq<StoredScriptView>,
    i: int,
    line: Seq<char>,
    exit: Option<Option<i32>>,
)
    requires
        mirrors(board, saved),
        0 <= i < board.len(),
    ensures
        mirrors(board.update(i, started(board[i])), saved),
        mirrors(board.update(i, ScriptView { output: board[i].output + line, ..board[i] }), saved),
        mirrors(board.update(i, finished(board[i], exit)), saved),
{
    lemma_runs_are_not_saved(board[i], line, exit);
    let a = board.update(i, started(board[i]));
    let b = board.update(i, ScriptView { output: board[i].output + line, ..board[i] });
    let c = board.update(i, finished(board[i], exit));
    assert forall|j: int| 0 <= j < a.len() implies stored_of(#[trigger] a[j]) == saved[j] by {
        if j != i {
            assert(a[j] == board[j]);
        }
    }
    assert forall|j: int| 0 <= j < b.len() implies stored_of(#[trigger] b[j]) == saved[j] by {
        if j != i {
            assert(b[j] == board[j]);
        }
    }
    assert forall|j: int| 0 <= j < c.len() implies stored_of(#[trigger] c[j]) == saved[j] by {
        if j != i {
            assert(c[j] == board[j]);
        }
    }
}

/// `i` is the first place on the board of a script with identifier `id`.
pub open spec fn is_first_with_id(board: Seq<ScriptView>, id: Seq<char>, i: int) -> bool {
    &&& 0 <= i < board.len()
    &&& board[i].id == id
    &&& forall|j: int| 0 <= j < i ==> #[trigger] board[j].id != id
}

/// A board has at most one first place for an identifier, no script before
/// it has that identifier, and any script with that identifier is at it or
/// after it.
pub proof fn lemma_first_with_id_is_unique(board: Seq<ScriptView>, id: Seq<char>, i: int, j: int)
    requires
        is_first_with_id(board, id, i),
    ensures
        is_first_with_id(board, id, j) ==> i == j,
        0 <= j < board.len() && board[j].id == id ==> i <= j,
        0 <= j < i ==> board[j].id != id,
{
    if is_first_with_id(board, id, j) && i != j {
        if i < j {
            assert(board[i].id != id);
        } else {
            assert(board[j].id != id);
        }
    }
}

/// The first place on the board of a script with identifier `id`, if any.
pub fn find_script_position(scripts: &Vec<Script>, id: &String) -> (r: Option<usize>)
    ensures
        match r {
            Some(p) => is_first_with_id(scripts_view(scripts@), id@, p as int),
            None => forall|j: int| 0 <= j < scripts@.len() ==> #[trigger] scripts@[j]@.id != id@,
        },
{
    let n = scripts.len();
    for i in 0..n
        invariant
            n == scripts@.len(),
            forall|j: int| 0 <= j < i ==> #[trigger] scripts@[j]@.id != id@,
    {
        if scripts[i].id == *id {
            return Some(i);
        }
    }
    None
}

/// A script with the settings the user saved: its name, interpreter,
/// argument line, need of administrator rights and notifications.
pub open spec fn with_settings(
    s: ScriptView,
    name: Seq<char>,
    interpreter: Seq<char>,
    args: Seq<char>,
    admin: bool,
    notif: bool,
) -> ScriptView {
    ScriptView { name, interpreter, args, need_admin: admin, notifs_enabled: notif, ..s }
}

/// Saving a script's settings sets exactly the five edited fields, its
/// name, interpreter, argument line, need of administrator rights and
/// notifications, and keeps its identifier, file name, path and run state.
pub proof fn lemma_settings_change_five_fields(
    s: ScriptView,
    name: Seq<char>,
    interpreter: Seq<char>,
    args: Seq<char>,
    admin: bool,
    notif: bool,
)
    ensures
        with_settings(s, name, interpreter, args, admin, notif).name == name,
        with_settings(s, name, interpreter, args, admin, notif).interpreter == interpreter,
        with_settings(s, name, interpreter, args, admin, notif).args == args,
        with_settings(s, name, interpreter, args, admin, notif).need_admin == admin,
        with_settings(s, name, interpreter, args, admin, notif).notifs_enabled == notif,
        with_settings(s, name, interpreter, args, admin, notif).id == s.id,
        with_settings(s, name, interpreter, args, admin, notif).filename == s.filename,
        with_settings(s, name, interpreter, args, admin, notif).path == s.path,
        with_settings(s, name, interpreter, args, admin, notif).running == s.running,
        with_settings(s, name, interpreter, args, admin, notif).output == s.output,
        with_settings(s, name, interpreter, args, admin, notif).status_code == s.status_code,
        with_settings(s, name, interpreter, args, admin, notif).preserve_output == s.preserve_output,
{
}

/// Saves the settings the user gave for the first script on the board with
/// identifier `id`, on the board and in the store, and gives its place back.
pub fn save_script_settings(
    scripts: &mut Vec<Script>,
    store: &mut Store,
    id: &String,
    name: String,
    interpreter: String,
    args: String,
    admin: bool,
    notif: bool,
) -> (r: usize)
    requires
        exists|i: int|
            is_first_with_id(scripts_view(old(scripts)@), id@, i) && i < old(store)@.scripts.len(),
    ensures
        is_first_with_id(scripts_view(old(scripts)@), id@, r as int),
        final(scripts)@.len() == old(scripts)@.len(),
        final(scripts)@[r as int].name@ == name@,
        final(scripts)@[r as int].interpreter@ == interpreter@,
        final(scripts)@[r as int].args@ == args@,
        final(scripts)@[r as int].need_admin == admin,
        final(scripts)@[r as int].notifs_enabled == notif,
        final(scripts)@[r as int].id@ == old(scripts)@[r as int].id@,
        final(scripts)@[r as int].filename@ == old(scripts)@[r as int].filename@,
        final(scripts)@[r as int].path@ == old(scripts)@[r as int].path@,
        final(scripts)@[r as int].running == old(scripts)@[r as int].running,
        final(scripts)@[r as int].output@ == old(scripts)@[r as int].output@,
        final(scripts)@[r as int].status_code == old(scripts)@[r as int].status_code,
        final(scripts)@[r as int].preserve_output == old(scripts)@[r as int].preserve_output,
        final(store)@.scripts[r as int].filename == old(scripts)@[r as int].filename@,
        final(store)@.scripts[r as int].path == old(scripts)@[r as int].path@,
        final(store)@.scripts[r as int].id == old(scripts)@[r as int].id@,
        final(store)@.scripts[r as int].name == name@,
        scripts_view(final(scripts)@) == scripts_view(old(scripts)@).update(
            r as int,
            with_settings(old(scripts)@[r as int]@, name@, interpreter@, args@, admin, notif),
        ),
        final(store)@ == (StoreView {
            scripts: old(store)@.scripts.update(
                r as int,
                stored_of(with_settings(old(scripts)@[r as int]@, name@, interpreter@, args@, admin, notif)),
            ),
            ..old(store)@
        }),
        mirrors(scripts_view(old(scripts)@), old(store)@.scripts) ==> mirrors(
            scripts_view(final(scripts)@),
            final(store)@.scripts,
        ),
{
    let found = find_script_position(scripts, id);
    let script_pos = match found {
        Some(p) => p,
        None => {
            proof {
                let i = choose|i: int|
                    is_first_with_id(scripts_view(scripts@), id@, i) && i < store@.scripts.len();
                assert(scripts@[i]@.id == id@);
            }
            return 0;
        },
    };
    proof {
        let i = choose|i: int|
            is_first_with_id(scripts_view(scripts@), id@, i) && i < store@.scripts.len();
        if (script_pos as int) < i {
            assert(scripts_view(scripts@)[script_pos as int].id != id@);
        } else if i < script_pos as int {
            assert(scripts@[i]@.id != id@);
        }
    }
    let mut script = scripts[script_pos].duplicate();
    script.name = name;
    script.interpreter = interpreter;
    script.args = args;
    script.need_admin = admin;
    script.notifs_enabled = notif;
    let saved = script.duplicate();
    scripts.set(script_pos, script);
    update_script(store, script_pos, saved);
    proof {
        let new_view = with_settings(old(scripts)@[script_pos as int]@, name@, interpreter@, args@, admin, notif);
        assert(scripts_view(scripts@) =~= scripts_view(old(scripts)@).update(script_pos as int, new_view));
    }
    script_pos
}

/// Deletes the script at `script_index` from the board and from the store.
pub fn delete_script(scripts: &mut Vec<Script>, store: &mut Store, script_index: i32)
    requires
        0 <= script_index < old(scripts)@.len(),
        script_index < old(store)@.scripts.len(),
    ensures
        scripts_view(final(scripts)@) == scripts_view(old(scripts)@).remove(script_index as int),
        final(store)@ == (StoreView {
            scripts: old(store)@.scripts.remove(script_index as int),
            ..old(store)@
        }),
        mirrors(scripts_view(old(scripts)@), old(store)@.scripts) ==> mirrors(
            scripts_view(final(scripts)@),
            final(store)@.scripts,
        ),
{
    scripts.remove(script_index as usize);
    remove_script(store, script_index);
    proof {
        assert(scripts_view(scripts@) =~= scripts_view(old(scripts)@).remove(script_index as int));
        if mirrors(scripts_view(old(scripts)@), old(store)@.scripts) {
            assert forall|i: int| 0 <= i < scripts@.len() implies stored_of(
                #[trigger] scripts_view(scripts@)[i],
            ) == store@.scripts[i] by {
                if i >= script_index {
                    assert(scripts_view(scripts@)[i] == scripts_view(old(scripts)@)[i + 1]);
                } else {
                    assert(scripts_view(scripts@)[i] == scripts_view(old(scripts)@)[i]);
                }
            }
        }
    }
}

/// Adds `script` to the store under a fresh identifier and to the end of the
/// board with that identifier, and gives the identifier back; where no
/// random identifier can be had, neither changes and `None` comes back.
pub fn load_script(scripts: &mut Vec<Script>, store: &mut Store, script: Script) -> (r: Option<String>)
    ensures
        r is None ==> final(store)@ == old(store)@ && scripts_view(final(scripts)@) == scripts_view(old(scripts)@),
        r matches Some(id) ==> {
            &&& is_uuid_v4_text(id@)
            &&& scripts_view(final(scripts)@) == scripts_view(old(scripts)@).push(ScriptView { id: id@, ..script@ })
            &&& final(store)@ == (StoreView {
                scripts: old(store)@.scripts.push(StoredScriptView { id: id@, ..stored_of(script@) }),
                ..old(store)@
            })
        },
        mirrors(scripts_view(old(scripts)@), old(store)@.scripts) ==> mirrors(
            scripts_view(final(scripts)@),
            final(store)@.scripts,
        ),
{
    let mut script = script;
    let id = match add_script(store, script.duplicate()) {
        Some(id) => id,
        None => return None,
    };
    script.id = id.clone();
    scripts.push(script);
    proof {
        assert(scripts_view(scripts@) =~= scripts_view(old(scripts)@).push(ScriptView { id: id@, ..script@ }));
        let board = scripts_view(scripts@);
        if mirrors(scripts_view(old(scripts)@), old(store)@.scripts) {
            assert forall|i: int| 0 <= i < board.len() implies stored_of(#[trigger] board[i]) == store@.scripts[i] by {
                if i < old(scripts)@.len() {
                    assert(board[i] == scripts_view(old(scripts)@)[i]);
                }
            }
        }
    }
    Some(id)
}

/// Saves the settings page: the default interpreter, the language, the
/// bits of the scale factor, the notification timeout and whether
/// notifications close by themselves. The saved scripts stay as they are.
pub fn save_settings(
    store: &mut Store,
    def_interpreter: String,
    lang: String,
    scale_factor_bits: u32,
    timeout: i32,
    timeout_enabled: bool,
)
    ensures
        final(store)@ == (StoreView {
            default_interpreter: def_interpreter@,
            notif_timeout: timeout,
            timeout_enabled,
            scale_factor_bits,
            language: lang@,
            scripts: old(store)@.scripts,
        }),
{
    set_default_interpreter(store, def_interpreter);
    set_notif_timeout(store, timeout);
    set_timeout_enabled(store, timeout_enabled);
    store.scale_factor_bits = scale_factor_bits;
    set_language(store, lang);
}

/// The place of `language` among the language `options`.
pub fn get_language_current_index(options: &Vec<String>, language: &String) -> (r: i32)
    requires
        exists|i: int| 0 <= i < options@.len() && i <= i32::MAX && #[trigger] options@[i]@ == language@,
    ensures
        0 <= r < options@.len(),
        options@[r as int]@ == language@,
        forall|j: int| 0 <= j < r ==> #[trigger] options@[j]@ != language@,
{
    let n = options.len();
    let mut i: usize = 0;
    while i < n
        invariant
            n == options@.len(),
            i <= n,
            forall|j: int| 0 <= j < i ==> #[trigger] options@[j]@ != language@,
            exists|k: int| 0 <= k < options@.len() && k <= i32::MAX && #[trigger] options@[k]@ == language@,
        decreases n - i,
    {
        if options[i] == *language {
            proof {
                let k = choose|k: int| 0 <= k < options@.len() && k <= i32::MAX && #[trigger] options@[k]@ == language@;
                if k < i {
                    assert(options@[k]@ != language@);
                }
            }
            return i as i32;
        }
        i = i + 1;
    }
    proof {
        let k = choose|k: int| 0 <= k < options@.len() && k <= i32::MAX && #[trigger] options@[k]@ == language@;
        assert(options@[k]@ != language@);
    }
    0
}

} // verus!
