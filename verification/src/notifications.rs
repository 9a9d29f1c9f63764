//! The in-application notifications: what each says and the list in which
//! they are shown, newest first.

use vstd::prelude::*;

verus! {

/// The look of a notification.
#[derive(Clone, Copy, Debug, PartialEq, Eq, Structural)]
pub enum NotifTypeEnum {
    Success,
    Danger,
}

/// The texts that a notification can show; each is translated into the
/// language of the user interface when shown.
#[derive(Clone, Copy, Debug, PartialEq, Eq, Structural)]
pub enum NotifStringEnum {
    ErrorSpawnScript,
    CheckLogs,
    ErrorScriptOutput,
    ScriptExecutionCancelled,
    ScriptExecutionDone,
    ScriptExecutionFailed,
    ErrorOpenOutputWindowTitle,
    ErrorOpenOutputWindowMessage,
}

/// A notification as shown: its look, its title and its message.
#[derive(Debug)]
pub struct NotificationData {
    pub variant: NotifTypeEnum,
    pub title: String,
    pub message: String,
}

/// Shows `notif` above the notifications already shown.
pub fn push_notification(notifs: &mut Vec<NotificationData>, notif: NotificationData)
    ensures
        final(notifs)@ == old(notifs)@.insert(0, notif),
{
    notifs.insert(0, notif);
}

/// Closes the notification at `index`; the others keep their order.
pub fn remove_notification(notifs: &mut Vec<NotificationData>, index: usize)
    requires
        index < old(notifs)@.len(),
    ensures
        final(notifs)@ == old(notifs)@.remove(index as int),
{
    notifs.remove(index);
}

/// How many milliseconds a notification stays up when the store says
/// `timeout` seconds.
pub fn timeout_millis(timeout: i32) -> (r: i32)
    requires
        i32::MIN <= timeout * 1000 <= i32::MAX,
    ensures
        r == timeout * 1000,
{
    timeout * 1000
}

} // verus!
