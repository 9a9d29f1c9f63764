use scriptboard::notifications::{
    push_notification, remove_notification, timeout_millis, NotifStringEnum, NotifTypeEnum,
    NotificationData,
};
use scriptboard::scripts::execute::{
    on_run_failure, RunFailure, execute_script, finish_script_execution, push_output_byte, update_script_output, NEWLINE,
};
use scriptboard::store::Script;

fn script(name: &str, preserve_output: bool, notifs_enabled: bool) -> Script {
    Script {
        id: name.to_string(),
        name: name.to_string(),
        filename: String::new(),
        path: String::new(),
        need_admin: false,
        notifs_enabled,
        interpreter: "sh".to_string(),
        args: String::new(),
        running: false,
        output: "before".to_string(),
        status_code: 5,
        preserve_output,
    }
}

#[test]
fn execute_script_clears_output() {
    let mut board = vec![script("a", false, true), script("b", false, true)];
    let s = execute_script(&mut board, 1);
    assert!(s.running);
    assert_eq!(s.output, "");
    assert!(board[1].running);
    assert_eq!(board[1].output, "");
    assert!(!board[0].running);
    assert_eq!(board[0].output, "before");
}

#[test]
fn execute_script_preserving_output_adds_a_newline() {
    let mut board = vec![script("a", true, true)];
    let s = execute_script(&mut board, 0);
    assert_eq!(s.output, "before\n");
    assert_eq!(board[0].output, "before\n");
}

#[test]
fn output_bytes_become_lines_at_each_newline() {
    let mut buffer = Vec::new();
    let mut lines = Vec::new();
    for b in b"one\ntwo\nthree" {
        if let Some(line) = push_output_byte(&mut buffer, *b) {
            lines.push(line);
        }
    }
    assert_eq!(lines, vec!["one".to_string(), "\ntwo".to_string()]);
    assert_eq!(buffer, b"\nthree".to_vec());
    let mut all: Vec<u8> = lines.concat().into_bytes();
    all.extend_from_slice(&buffer);
    assert_eq!(all, b"one\ntwo\nthree".to_vec());
}

#[test]
fn newline_starts_the_kept_bytes() {
    let mut buffer = b"abc".to_vec();
    assert_eq!(push_output_byte(&mut buffer, NEWLINE), Some("abc".to_string()));
    assert_eq!(buffer, vec![NEWLINE]);
    assert_eq!(push_output_byte(&mut buffer, b'x'), None);
    assert_eq!(buffer, vec![NEWLINE, b'x']);
}

#[test]
fn output_line_with_bad_utf8_is_replaced() {
    let mut buffer = vec![0xc3];
    assert_eq!(push_output_byte(&mut buffer, NEWLINE), Some("\u{FFFD}".to_string()));
}

#[test]
fn update_script_output_appends() {
    let mut board = vec![script("a", false, true)];
    update_script_output(&mut board, " more", 0);
    assert_eq!(board[0].output, "before more");
}

#[test]
fn finish_with_zero_is_a_success() {
    let mut board = vec![script("job", false, true)];
    board[0].running = true;
    let n = finish_script_execution(&mut board, Some(Some(0)), 0).unwrap();
    assert_eq!(n.variant, NotifTypeEnum::Success);
    assert_eq!(n.message, NotifStringEnum::ScriptExecutionDone);
    assert_eq!(n.title, "job");
    assert!(!board[0].running);
    assert_eq!(board[0].status_code, 0);
}

#[test]
fn finish_with_failure_keeps_the_former_status() {
    let mut board = vec![script("job", false, true)];
    let n = finish_script_execution(&mut board, Some(Some(2)), 0).unwrap();
    assert_eq!(n.variant, NotifTypeEnum::Danger);
    assert_eq!(n.message, NotifStringEnum::ScriptExecutionFailed);
    assert_eq!(board[0].status_code, 5);
    let n = finish_script_execution(&mut board, Some(None), 0).unwrap();
    assert_eq!(n.variant, NotifTypeEnum::Danger);
}

#[test]
fn finish_without_exit_sets_minus_one_and_tells_nothing() {
    let mut board = vec![script("job", false, true)];
    board[0].running = true;
    assert!(finish_script_execution(&mut board, None, 0).is_none());
    assert_eq!(board[0].status_code, -1);
    assert!(!board[0].running);
}

#[test]
fn finish_with_notifications_off_tells_nothing() {
    let mut board = vec![script("job", false, false)];
    assert!(finish_script_execution(&mut board, Some(Some(0)), 0).is_none());
    assert_eq!(board[0].status_code, 0);
}

#[test]
fn notifications_show_newest_first() {
    let mut notifs = Vec::new();
    let make = |t: &str| NotificationData { variant: NotifTypeEnum::Success, title: t.to_string(), message: String::new() };
    push_notification(&mut notifs, make("first"));
    push_notification(&mut notifs, make("second"));
    assert_eq!(notifs[0].title, "second");
    assert_eq!(notifs[1].title, "first");
    remove_notification(&mut notifs, 0);
    assert_eq!(notifs.len(), 1);
    assert_eq!(notifs[0].title, "first");
}

#[test]
fn timeout_is_given_in_milliseconds() {
    assert_eq!(timeout_millis(10), 10_000);
    assert_eq!(timeout_millis(0), 0);
    assert_eq!(timeout_millis(-2), -2000);
}

#[test]
fn end_of_output_hands_out_the_tail() {
    let mut buffer = Vec::new();
    let mut lines = Vec::new();
    for b in b"one\ntwo" {
        if let Some(line) = push_output_byte(&mut buffer, *b) {
            lines.push(line);
        }
    }
    if let Some(line) = scriptboard::scripts::execute::end_of_output(&mut buffer) {
        lines.push(line);
    }
    assert!(buffer.is_empty());
    assert_eq!(lines.concat(), "one\ntwo");
    assert_eq!(lines, vec!["one".to_string(), "\ntwo".to_string()]);
}

#[test]
fn end_of_output_with_nothing_kept_hands_out_nothing() {
    let mut buffer = Vec::new();
    assert_eq!(scriptboard::scripts::execute::end_of_output(&mut buffer), None);
    let mut buffer = vec![0xff];
    assert_eq!(scriptboard::scripts::execute::end_of_output(&mut buffer), Some("\u{FFFD}".to_string()));
    assert!(buffer.is_empty());
}

#[test]
fn run_failures_are_reported() {
    let r = on_run_failure(RunFailure::SpawnFailed);
    assert_eq!(r.variant, NotifTypeEnum::Danger);
    assert_eq!(r.title, NotifStringEnum::ErrorSpawnScript);
    assert_eq!(r.message, NotifStringEnum::CheckLogs);
    assert!(!r.ends_run);
    let r = on_run_failure(RunFailure::NoOutput);
    assert_eq!(r.title, NotifStringEnum::ErrorScriptOutput);
    assert_eq!(r.message, NotifStringEnum::ScriptExecutionCancelled);
    assert!(!r.ends_run);
    let r = on_run_failure(RunFailure::WaitFailed);
    assert_eq!(r.title, NotifStringEnum::ErrorScriptOutput);
    assert_eq!(r.message, NotifStringEnum::ScriptExecutionCancelled);
    assert!(r.ends_run);
}
