use scriptboard::file_storage::{get_file_storage_path, remove_script, store_script, StoredScript};
use scriptboard::scripts::select_script;
use scriptboard::store::{default_store, get_scripts, script_id_from, Script};
use scriptboard::ui::{
    delete_script, find_script_position, get_language_current_index, load_script,
    save_script_settings,
};
use scriptboard::utils::{
    data_dir_path, format_log_line, get_log_file_path, get_store_path, is_dev_environment,
};

fn new_script(name: &str) -> Script {
    Script {
        id: String::new(),
        name: name.to_string(),
        filename: format!("{name}.sh"),
        path: format!("/s/{name}.sh"),
        need_admin: false,
        notifs_enabled: true,
        interpreter: "sh".to_string(),
        args: String::new(),
        running: false,
        output: String::new(),
        status_code: 0,
        preserve_output: false,
    }
}

fn listed(id: i32, name: &str) -> StoredScript {
    StoredScript { id, description: format!("about {name}"), name: name.to_string(), path: format!("/{name}") }
}

#[test]
fn load_script_keeps_board_and_store_in_step() {
    let mut store = default_store(false);
    let mut board = get_scripts(&store);
    let a = load_script(&mut board, &mut store, new_script("a")).unwrap();
    let b = load_script(&mut board, &mut store, new_script("b")).unwrap();
    assert_eq!(board.len(), 2);
    assert_eq!(store.scripts.len(), 2);
    assert_eq!(board[0].id, a);
    assert_eq!(board[1].id, b);
    assert_eq!(store.scripts[0].id, a);
    assert_eq!(store.scripts[1].id, b);
    assert_eq!(store.scripts[1].name, "b");
}

#[test]
fn load_script_id_is_a_v4_uuid() {
    let mut store = default_store(false);
    let mut board = Vec::new();
    let id = load_script(&mut board, &mut store, new_script("a")).unwrap();
    assert_eq!(id.len(), 36);
    assert_eq!(&id[14..15], "4");
    assert!(matches!(&id[19..20], "8" | "9" | "a" | "b"));
}

#[test]
fn find_script_position_finds_the_first() {
    let mut board = vec![new_script("a"), new_script("b"), new_script("c")];
    board[0].id = "x".to_string();
    board[1].id = "y".to_string();
    board[2].id = "y".to_string();
    assert_eq!(find_script_position(&board, &"y".to_string()), Some(1));
    assert_eq!(find_script_position(&board, &"z".to_string()), None);
}

#[test]
fn save_script_settings_changes_board_and_store() {
    let mut store = default_store(false);
    let mut board = Vec::new();
    load_script(&mut board, &mut store, new_script("a")).unwrap();
    let id = load_script(&mut board, &mut store, new_script("b")).unwrap();
    let pos = save_script_settings(
        &mut board,
        &mut store,
        &id,
        "renamed".to_string(),
        "python3".to_string(),
        "-u".to_string(),
        true,
        false,
    );
    assert_eq!(pos, 1);
    assert_eq!(board[1].name, "renamed");
    assert_eq!(board[1].interpreter, "python3");
    assert_eq!(board[1].args, "-u");
    assert!(board[1].need_admin);
    assert!(!board[1].notifs_enabled);
    assert_eq!(board[1].path, "/s/b.sh");
    assert_eq!(store.scripts[1].name, "renamed");
    assert_eq!(store.scripts[1].interpreter, "python3");
    assert!(store.scripts[1].need_admin);
    assert_eq!(board[0].name, "a");
}

#[test]
fn delete_script_removes_from_both() {
    let mut store = default_store(false);
    let mut board = Vec::new();
    load_script(&mut board, &mut store, new_script("a")).unwrap();
    load_script(&mut board, &mut store, new_script("b")).unwrap();
    load_script(&mut board, &mut store, new_script("c")).unwrap();
    delete_script(&mut board, &mut store, 1);
    let names: Vec<&str> = board.iter().map(|s| s.name.as_str()).collect();
    assert_eq!(names, vec!["a", "c"]);
    let saved: Vec<&str> = store.scripts.iter().map(|s| s.name.as_str()).collect();
    assert_eq!(saved, vec!["a", "c"]);
}

#[test]
fn language_index_is_the_first_match() {
    let options = vec!["en".to_string(), "fr".to_string(), "de".to_string()];
    assert_eq!(get_language_current_index(&options, &"fr".to_string()), 1);
    assert_eq!(get_language_current_index(&options, &"en".to_string()), 0);
}

#[test]
fn file_storage_store_and_remove() {
    let mut scripts = vec![listed(1, "a"), listed(2, "b")];
    store_script(&mut scripts, listed(1, "c"));
    assert_eq!(scripts.len(), 3);
    assert_eq!(scripts[2].name, "c");
    let rest = remove_script(scripts, 1);
    assert_eq!(rest.len(), 1);
    assert_eq!(rest[0].id, 2);
    assert_eq!(rest[0].name, "b");
    assert_eq!(rest[0].description, "about b");
}

#[test]
fn file_storage_remove_of_an_unknown_id_keeps_all() {
    let scripts = vec![listed(1, "a"), listed(2, "b")];
    let rest = remove_script(scripts, 9);
    let names: Vec<&str> = rest.iter().map(|s| s.name.as_str()).collect();
    assert_eq!(names, vec!["a", "b"]);
    assert!(remove_script(Vec::new(), 1).is_empty());
}

#[test]
fn paths_below_the_local_data_dir() {
    let base = vec!["home".to_string(), ".local".to_string(), "share".to_string()];
    assert_eq!(data_dir_path(base.clone()), vec!["home", ".local", "share", "scriptboard"]);
    assert_eq!(get_store_path(base.clone()), vec!["home", ".local", "share", "scriptboard", "store.json"]);
    assert_eq!(get_log_file_path(base.clone()), vec!["home", ".local", "share", "scriptboard", "scriptboard.log"]);
    assert_eq!(get_file_storage_path(base), vec!["home", ".local", "share", "scriptboard.storage.json"]);
}

#[test]
fn dev_environment_when_unset_or_dev() {
    assert!(is_dev_environment(None));
    assert!(is_dev_environment(Some("dev".to_string())));
    assert!(!is_dev_environment(Some("prod".to_string())));
    assert!(!is_dev_environment(Some(String::new())));
}

#[test]
fn log_line_format() {
    assert_eq!(
        format_log_line("2024-01-01T00:00:00Z", "INFO", "scriptboard", "started"),
        "[2024-01-01T00:00:00Z] INFO scriptboard started"
    );
}

#[test]
fn save_settings_sets_five_fields_and_keeps_scripts() {
    let mut store = default_store(false);
    let mut board = Vec::new();
    load_script(&mut board, &mut store, new_script("a")).unwrap();
    scriptboard::ui::save_settings(&mut store, "fish".to_string(), "fr".to_string(), 1.5f32.to_bits(), 7, false);
    assert_eq!(store.default_interpreter, "fish");
    assert_eq!(store.language, "fr");
    assert_eq!(f32::from_bits(store.scale_factor_bits), 1.5);
    assert_eq!(store.notif_timeout, 7);
    assert!(!store.timeout_enabled);
    assert_eq!(store.scripts.len(), 1);
    assert_eq!(store.scripts[0].name, "a");
}

#[test]
fn select_script_keeps_name_and_path() {
    assert_eq!(
        select_script(Some("/home/user/backup.sh".to_string())),
        Some(("backup.sh".to_string(), "/home/user/backup.sh".to_string()))
    );
    assert_eq!(select_script(Some("/".to_string())), Some((String::new(), "/".to_string())));
    assert_eq!(select_script(None), None);
}

#[test]
fn script_id_from_random_bytes() {
    assert_eq!(script_id_from(None), None);
    let id = script_id_from(Some([0u8; 16])).unwrap();
    assert_eq!(id, "00000000-0000-4000-8000-000000000000");
    let id = script_id_from(Some([0xffu8; 16])).unwrap();
    assert_eq!(id, "ffffffff-ffff-4fff-bfff-ffffffffffff");
}
