//! The error taxonomy of the core: every failure is per-command or
//! per-scheduled-task, never fatal.

use vstd::prelude::*;

use crate::model::command::ParseCommandError;
use crate::model::reminder::Reminder;

verus! {

/// The platform permission a rejected action would have needed.
#[derive(Debug, Clone, Copy, PartialEq, Eq, Structural)]
pub enum PermissionKind {
    MoveMembers,
    ManageGuild,
}

/// Why a command or a precondition check failed.
#[derive(Debug, Clone, PartialEq, Eq)]
pub enum Error {
    /// The guild's live state could not be read.
    InaccessibleGuild,
    /// The author is in no voice channel at scheduling time.
    NotInVoiceChannel,
    /// The line did not parse as a command.
    InvalidCommand(ParseCommandError),
    /// The author lacks the named platform permission.
    InsufficientPermission(PermissionKind),
    /// The requested instant lies before now, or the wall-clock time
    /// denotes no unique instant in the zone (then `specified` is empty).
    UnreachableTime { specified: Option<i64>, at: i64 },
    /// Removing a reminder that is not configured.
    NoSuchReminder(Reminder),
    /// Adding a reminder offset that is already configured.
    DuplicatedReminders(Reminder),
}

impl PermissionKind {
    /// The permission's name as the platform shows it.
    pub fn say(&self) -> String {
        match self {
            PermissionKind::MoveMembers => "Move Members".to_string(),
            PermissionKind::ManageGuild => "Manage Guild".to_string(),
        }
    }
}

impl Error {
    /// The user-facing account of the failure, in the bot's voice.
    pub fn say(&self) -> String {
        match self {
            Error::NotInVoiceChannel => "ボイスチャンネルに入った状態で使ってほしい".to_string(),
            Error::InvalidCommand(_) => "コマンドがわからない".to_string(),
            Error::UnreachableTime { specified: Some(_), .. } => "過去を変えることはできない".to_string(),
            Error::UnreachableTime { specified: None, .. } => "そんな時刻はない".to_string(),
            Error::InsufficientPermission(p) => {
                let mut out = p.say();
                out.append(" の権限が必要です");
                out
            },
            Error::NoSuchReminder(_) => "そんなリマインダはない".to_string(),
            Error::DuplicatedReminders(_) => "それはすでにある".to_string(),
            Error::InaccessibleGuild => "ダメそう".to_string(),
        }
    }
}

} // verus!
