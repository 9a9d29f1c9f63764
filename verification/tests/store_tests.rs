use scriptboard::store::{
    add_script, add_script_with_id, default_store, get_default_interpreter, get_language,
    get_notif_timeout, get_scripts, get_timeout_enabled, new_script_id, remove_script,
    set_default_interpreter, set_language, set_notif_timeout, set_timeout_enabled, update_script,
    Script, Store, StoredScript, DEFAULT_SCALE_FACTOR_BITS,
};

fn script(id: &str, name: &str) -> Script {
    Script {
        id: id.to_string(),
        name: name.to_string(),
        filename: format!("{name}.sh"),
        path: format!("/home/user/{name}.sh"),
        need_admin: false,
        notifs_enabled: true,
        interpreter: "bash".to_string(),
        args: "-v".to_string(),
        running: true,
        output: "old output".to_string(),
        status_code: 3,
        preserve_output: true,
    }
}

#[test]
fn default_store_on_unix_uses_sh() {
    let store = default_store(false);
    assert_eq!(store.default_interpreter, "sh");
    assert_eq!(store.notif_timeout, 10);
    assert!(store.timeout_enabled);
    assert_eq!(store.scale_factor_bits, DEFAULT_SCALE_FACTOR_BITS);
    assert_eq!(f32::from_bits(store.scale_factor_bits), 1.0f32);
    assert_eq!(store.language, "en");
    assert!(store.scripts.is_empty());
}

#[test]
fn default_store_on_windows_uses_powershell() {
    let store = default_store(true);
    assert_eq!(store.default_interpreter, "powershell.exe");
}

#[test]
fn settings_read_back_what_was_written() {
    let mut store: Store = default_store(false);
    set_default_interpreter(&mut store, "zsh".to_string());
    set_notif_timeout(&mut store, 42);
    set_timeout_enabled(&mut store, false);
    set_language(&mut store, "fr".to_string());
    assert_eq!(get_default_interpreter(&store), "zsh");
    assert_eq!(get_notif_timeout(&store), 42);
    assert!(!get_timeout_enabled(&store));
    assert_eq!(get_language(&store), "fr");
}

#[test]
fn one_setting_leaves_the_others() {
    let mut store = default_store(false);
    set_language(&mut store, "de".to_string());
    assert_eq!(get_default_interpreter(&store), "sh");
    assert_eq!(get_notif_timeout(&store), 10);
    assert!(get_timeout_enabled(&store));
}

#[test]
fn add_script_with_id_saves_the_script_under_that_id() {
    let mut store = default_store(false);
    let id = add_script_with_id(&mut store, script("ignored", "backup"), "abc".to_string());
    assert_eq!(id, "abc");
    assert_eq!(store.scripts.len(), 1);
    assert_eq!(store.scripts[0].id, "abc");
    assert_eq!(store.scripts[0].name, "backup");
    assert_eq!(store.scripts[0].path, "/home/user/backup.sh");
    assert_eq!(store.scripts[0].interpreter, "bash");
    assert_eq!(store.scripts[0].args, "-v");
}

#[test]
fn add_script_gives_a_fresh_uuid() {
    let mut store = default_store(false);
    let id = add_script(&mut store, script("placeholder", "a")).unwrap();
    assert_eq!(id.len(), 36);
    assert_ne!(id, "placeholder");
    for (i, c) in id.chars().enumerate() {
        if i == 8 || i == 13 || i == 18 || i == 23 {
            assert_eq!(c, '-');
        } else {
            assert!(c.is_ascii_hexdigit() && !c.is_ascii_uppercase());
        }
    }
    assert_eq!(&id[14..15], "4");
    assert!(matches!(&id[19..20], "8" | "9" | "a" | "b"));
    assert_eq!(store.scripts[0].id, id);
    let second = add_script(&mut store, script("placeholder", "b")).unwrap();
    assert_ne!(id, second);
    assert_eq!(store.scripts.len(), 2);
    assert_eq!(store.scripts[1].name, "b");
}

#[test]
fn new_script_ids_have_uuid_shape() {
    let id = new_script_id().unwrap();
    assert_eq!(id.len(), 36);
    assert_eq!(&id[14..15], "4");
    assert!(matches!(&id[19..20], "8" | "9" | "a" | "b"));
}

#[test]
fn get_scripts_loads_with_a_fresh_run_state() {
    let mut store = default_store(false);
    add_script_with_id(&mut store, script("x", "first"), "1".to_string());
    add_script_with_id(&mut store, script("y", "second"), "2".to_string());
    let loaded = get_scripts(&store);
    assert_eq!(loaded.len(), 2);
    assert_eq!(loaded[0].id, "1");
    assert_eq!(loaded[1].id, "2");
    assert_eq!(loaded[1].name, "second");
    assert!(!loaded[0].running);
    assert_eq!(loaded[0].output, "");
    assert_eq!(loaded[0].status_code, 0);
    assert!(!loaded[0].preserve_output);
    assert!(loaded[0].notifs_enabled);
}

#[test]
fn update_script_replaces_only_that_place() {
    let mut store = default_store(false);
    add_script_with_id(&mut store, script("", "a"), "1".to_string());
    add_script_with_id(&mut store, script("", "b"), "2".to_string());
    update_script(&mut store, 1, script("2", "renamed"));
    assert_eq!(store.scripts[0].name, "a");
    assert_eq!(store.scripts[1].name, "renamed");
    assert_eq!(store.scripts[1].id, "2");
}

#[test]
fn remove_script_keeps_the_order_of_the_others() {
    let mut store = default_store(false);
    for (id, name) in [("1", "a"), ("2", "b"), ("3", "c")] {
        add_script_with_id(&mut store, script("", name), id.to_string());
    }
    remove_script(&mut store, 1);
    let ids: Vec<&str> = store.scripts.iter().map(|s| s.id.as_str()).collect();
    assert_eq!(ids, vec!["1", "3"]);
}

#[test]
fn load_then_save_gives_back_the_saved_script() {
    let saved = StoredScript {
        id: "7".to_string(),
        name: "n".to_string(),
        filename: "f".to_string(),
        path: "p".to_string(),
        need_admin: true,
        notifs_enabled: false,
        interpreter: "python3".to_string(),
        args: "--x 1".to_string(),
    };
    let again = StoredScript::from_script(saved.to_script());
    assert_eq!(again.id, saved.id);
    assert_eq!(again.name, saved.name);
    assert_eq!(again.filename, saved.filename);
    assert_eq!(again.path, saved.path);
    assert_eq!(again.need_admin, saved.need_admin);
    assert_eq!(again.notifs_enabled, saved.notifs_enabled);
    assert_eq!(again.interpreter, saved.interpreter);
    assert_eq!(again.args, saved.args);
}

#[test]
fn save_then_load_resets_the_run_state() {
    let loaded = StoredScript::from_script(script("9", "job")).to_script();
    assert_eq!(loaded.id, "9");
    assert_eq!(loaded.name, "job");
    assert!(!loaded.running);
    assert_eq!(loaded.output, "");
    assert_eq!(loaded.status_code, 0);
    assert!(!loaded.preserve_output);
}
