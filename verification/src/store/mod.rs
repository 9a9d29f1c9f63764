//! The persistent settings and the saved scripts.
//!
//! Every function here works on a [`Store`] value; reading it from disk,
//! guarding it between threads and writing it back is left to the caller.

pub mod structs;

use vstd::prelude::*;

pub use self::structs::{
    loaded_of, scripts_view, stored_of, Script, ScriptView, Store, StoreView, StoredScript, StoredScriptView,
};

verus! {

/// The bits of the single-precision number 1.0, the scale factor a new
/// store starts with.
pub const DEFAULT_SCALE_FACTOR_BITS: u32 = 0x3f80_0000u32;

/// The number of seconds a notification stays up in a new store.
pub const DEFAULT_NOTIF_TIMEOUT: i32 = 10i32;

/// The store a first start of the program writes: the platform's shell as
/// default interpreter (`powershell.exe` on Windows, `sh` elsewhere),
/// notifications that close after ten seconds, a scale factor of 1, English,
/// and no scripts.
pub fn default_store(on_windows: bool) -> (r: Store)
    ensures
        r@.default_interpreter == (if on_windows { "powershell.exe"@ } else { "sh"@ }),
        r@.notif_timeout == DEFAULT_NOTIF_TIMEOUT,
        r@.timeout_enabled,
        r@.scale_factor_bits == DEFAULT_SCALE_FACTOR_BITS,
        r@.language == "en"@,
        r@.scripts.len() == 0,
{
    let default_interpreter = if on_windows {
        "powershell.exe".to_owned()
    } else {
        "sh".to_owned()
    };
    let scripts: Vec<StoredScript> = Vec::new();
    Store {
        default_interpreter,
        notif_timeout: DEFAULT_NOTIF_TIMEOUT,
        timeout_enabled: true,
        scale_factor_bits: DEFAULT_SCALE_FACTOR_BITS,
        language: "en".to_owned(),
        scripts,
    }
}

/// The interpreter that new scripts are given.
pub fn get_default_interpreter(store: &Store) -> (r: String)
    ensures
        r@ == store@.default_interpreter,
{
    store.default_interpreter.clone()
}

/// Sets the interpreter that new scripts are given; nothing else changes.
pub fn set_default_interpreter(store: &mut Store, def_interpreter: String)
    ensures
        final(store)@ == (StoreView { default_interpreter: def_interpreter@, ..old(store)@ }),
{
    store.default_interpreter = def_interpreter;
}

/// How many seconds a notification stays up.
pub fn get_notif_timeout(store: &Store) -> (r: i32)
    ensures
        r == store@.notif_timeout,
{
    store.notif_timeout
}

/// Sets how many seconds a notification stays up; nothing else changes.
pub fn set_notif_timeout(store: &mut Store, timeout: i32)
    ensures
        final(store)@ == (StoreView { notif_timeout: timeout, ..old(store)@ }),
{
    store.notif_timeout = timeout;
}

/// Whether notifications close by themselves.
pub fn get_timeout_enabled(store: &Store) -> (r: bool)
    ensures
        r == store@.timeout_enabled,
{
    store.timeout_enabled
}

/// Sets whether notifications close by themselves; nothing else changes.
pub fn set_timeout_enabled(store: &mut Store, enabled: bool)
    ensures
        final(store)@ == (StoreView { timeout_enabled: enabled, ..old(store)@ }),
{
    store.timeout_enabled = enabled;
}

/// The language of the user interface.
pub fn get_language(store: &Store) -> (r: String)
    ensures
        r@ == store@.language,
{
    store.language.clone()
}

/// Sets the language of the user interface; nothing else changes.
pub fn set_language(store: &mut Store, lang: String)
    ensures
        final(store)@ == (StoreView { language: lang@, ..old(store)@ }),
{
    store.language = lang;
}

/// The saved scripts, in order, as the board shows them when loaded.
pub fn get_scripts(store: &Store) -> (r: Vec<Script>)
    ensures
        r@.map_values(|s: Script| s@) == store@.scripts.map_values(|s: StoredScriptView| loaded_of(s)),
{
    let mut r: Vec<Script> = Vec::new();
    let n = store.scripts.len();
    for i in 0..n
        invariant
            n == store.scripts@.len(),
            r@.len() == i,
            forall|j: int| 0 <= j < i ==> #[trigger] r@[j]@ == loaded_of(store.scripts@[j]@),
    {
        r.push(store.scripts[i].to_script());
    }
    assert(r@.map_values(|s: Script| s@) =~= store@.scripts.map_values(|s: StoredScriptView| loaded_of(s)));
    r
}

/// Writing one setting changes no other: after it, the setting reads back
/// what was written, and every other setting and the scripts read as before.
pub proof fn lemma_settings_are_independent(
    store: StoreView,
    def_interpreter: Seq<char>,
    timeout: i32,
    enabled: bool,
    lang: Seq<char>,
)
    ensures
        ({
            let s = StoreView { default_interpreter: def_interpreter, ..store };
            &&& s.default_interpreter == def_interpreter
            &&& s.notif_timeout == store.notif_timeout
            &&& s.timeout_enabled == store.timeout_enabled
            &&& s.language == store.language
            &&& s.scale_factor_bits == store.scale_factor_bits
            &&& s.scripts == store.scripts
        }),
        ({
            let s = StoreView { notif_timeout: timeout, ..store };
            &&& s.notif_timeout == timeout
            &&& s.default_interpreter == store.default_interpreter
            &&& s.timeout_enabled == store.timeout_enabled
            &&& s.language == store.language
            &&& s.scale_factor_bits == store.scale_factor_bits
            &&& s.scripts == store.scripts
        }),
        ({
            let s = StoreView { timeout_enabled: enabled, ..store };
            &&& s.timeout_enabled == enabled
            &&& s.default_interpreter == store.default_interpreter
            &&& s.notif_timeout == store.notif_timeout
            &&& s.language == store.language
            &&& s.scale_factor_bits == store.scale_factor_bits
            &&& s.scripts == store.scripts
        }),
        ({
            let s = StoreView { language: lang, ..store };
            &&& s.language == lang
            &&& s.default_interpreter == store.default_interpreter
            &&& s.notif_timeout == store.notif_timeout
            &&& s.timeout_enabled == store.timeout_enabled
            &&& s.scale_factor_bits == store.scale_factor_bits
            &&& s.scripts == store.scripts
        }),
{
}

/// Saves `script` under the identifier `id`, after the scripts already
/// saved, and gives `id` back.
pub fn add_script_with_id(store: &mut Store, script: Script, id: String) -> (r: String)
    ensures
        r@ == id@,
        final(store)@ == (StoreView {
            scripts: old(store)@.scripts.push(StoredScriptView { id: id@, ..stored_of(script@) }),
            ..old(store)@
        }),
{
    let mut stored_script = StoredScript::from_script(script);
    stored_script.id = id;
    let r = stored_script.id.clone();
    store.scripts.push(stored_script);
    proof {
        assert(store.scripts@.map_values(|s: StoredScript| s@) =~= old(store)@.scripts.push(
            StoredScriptView { id: r@, ..stored_of(script@) },
        ));
    }
    r
}

/// `s` has the shape of a UUID in its lower-case hyphenated form: 36
/// characters, hyphens at positions 8, 13, 18 and 23, lower-case
/// hexadecimal digits elsewhere.
pub open spec fn is_hyphenated_uuid(s: Seq<char>) -> bool {
    &&& s.len() == 36
    &&& forall|i: int| 0 <= i < 36 ==> {
        if i == 8 || i == 13 || i == 18 || i == 23 {
            #[trigger] s[i] == '-'
        } else {
            ('0' <= s[i] && s[i] <= '9') || ('a' <= s[i] && s[i] <= 'f')
        }
    }
}

/// `s` is the text of a version 4 UUID of the RFC 4122 variant: the
/// hyphenated lower-case form of [`is_hyphenated_uuid`], with the version
/// digit `4` at position 14 and a variant digit of `8`, `9`, `a` or `b` at
/// position 19.
pub open spec fn is_uuid_v4_text(s: Seq<char>) -> bool {
    &&& is_hyphenated_uuid(s)
    &&& s[14] == '4'
    &&& (s[19] == '8' || s[19] == '9' || s[19] == 'a' || s[19] == 'b')
}

/// The text that `uuid` writes for the version 4 UUID it builds from the
/// random `bytes` with `Builder::from_random_bytes`.
pub uninterp spec fn uuid_v4_text(bytes: Seq<u8>) -> Seq<char>;

/// Calls `getrandom::fill` on sixteen bytes: the bytes it wrote, or `None`
/// where the operating system's source of randomness failed. The bytes are
/// random; nothing is claimed of them but their number.
#[verifier::external_body]
fn random_bytes() -> (r: Option<[u8; 16]>)
{
    let mut bytes = [0u8; 16];
    match getrandom::fill(&mut bytes) {
        Ok(()) => Some(bytes),
        Err(_) => None,
    }
}

/// Calls `uuid::Builder::from_random_bytes` on `bytes`, takes the UUID it
/// builds and formats it with `to_string`. The text depends on `bytes`
/// alone and is given the name [`uuid_v4_text`]. The builder sets the version
/// bits to 4 and the variant bits to `10`, and the crate's `Display`
/// implementation writes every UUID in the hyphenated form in lower case, so
/// the text has the shape of [`is_uuid_v4_text`].
#[verifier::external_body]
fn format_uuid_v4(bytes: [u8; 16]) -> (r: String)
    ensures
        r@ == uuid_v4_text(bytes@),
        is_uuid_v4_text(r@),
{
    uuid::Builder::from_random_bytes(bytes).into_uuid().to_string()
}

/// The identifier made from what the random source gave: the version 4
/// UUID text of the bytes, or `None` where the source failed.
pub fn script_id_from(random: Option<[u8; 16]>) -> (r: Option<String>)
    ensures
        r is Some <==> random is Some,
        r matches Some(id) ==> id@ == uuid_v4_text(random->0@) && is_uuid_v4_text(id@),
{
    match random {
        Some(bytes) => Some(format_uuid_v4(bytes)),
        None => None,
    }
}

/// A fresh random identifier for a script, a version 4 UUID in its
/// lower-case hyphenated form, as [`is_uuid_v4_text`] says; or `None` where
/// the operating system's source of randomness failed.
pub fn new_script_id() -> (r: Option<String>)
    ensures
        r matches Some(id) ==> is_uuid_v4_text(id@),
{
    script_id_from(random_bytes())
}

/// Saves `script` under a fresh random identifier, after the scripts already
/// saved, and gives the identifier back; where no random identifier can be
/// had, nothing changes and `None` comes back.
pub fn add_script(store: &mut Store, script: Script) -> (r: Option<String>)
    ensures
        r is None ==> final(store)@ == old(store)@,
        r matches Some(id) ==> {
            &&& is_uuid_v4_text(id@)
            &&& final(store)@ == (StoreView {
                scripts: old(store)@.scripts.push(StoredScriptView { id: id@, ..stored_of(script@) }),
                ..old(store)@
            })
        },
{
    match new_script_id() {
        Some(id) => Some(add_script_with_id(store, script, id)),
        None => None,
    }
}

/// Replaces the saved script at `script_index` by what is saved of `script`.
pub fn update_script(store: &mut Store, script_index: usize, script: Script)
    requires
        script_index < old(store)@.scripts.len(),
    ensures
        final(store)@ == (StoreView {
            scripts: old(store)@.scripts.update(script_index as int, stored_of(script@)),
            ..old(store)@
        }),
{
    store.scripts[script_index] = StoredScript::from_script(script);
    proof {
        assert(store.scripts@.map_values(|s: StoredScript| s@) =~= old(store)@.scripts.update(
            script_index as int,
            stored_of(script@),
        ));
    }
}

/// Removes the saved script at `script_index`; the others keep their order.
pub fn remove_script(store: &mut Store, script_index: i32)
    requires
        0 <= script_index < old(store)@.scripts.len(),
    ensures
        final(store)@ == (StoreView {
            scripts: old(store)@.scripts.remove(script_index as int),
            ..old(store)@
        }),
{
    store.scripts.remove(script_index as usize);
    proof {
        assert(store.scripts@.map_values(|s: StoredScript| s@) =~= old(store)@.scripts.remove(
            script_index as int,
        ));
    }
}

} // verus!
