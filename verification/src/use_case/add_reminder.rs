//! Configuring a new reminder offset: gated on the Manage Guild
//! permission, rejected when the offset is already configured.

use vstd::prelude::*;

use crate::error::{Error, PermissionKind};
use crate::model::reminder::Reminder;
use crate::setting::{spec_contains_reminder, GuildSettings};

verus! {

/// Add `reminder` to the guild's configuration. Succeeds exactly when
/// the author may manage the guild and the offset is new; the settings
/// change in no other case.
pub fn add_reminder(settings: &mut GuildSettings, has_manage_guild: bool, reminder: Reminder) -> (r:
    Result<(), Error>)
    requires
        old(settings).wf(),
    ensures
        final(settings).wf(),
        !has_manage_guild ==> r == Err::<(), Error>(
            Error::InsufficientPermission(PermissionKind::ManageGuild),
        ) && *final(settings) == *old(settings),
        has_manage_guild && spec_contains_reminder(old(settings).spec_reminders(), reminder@)
            ==> r == Err::<(), Error>(Error::DuplicatedReminders(reminder)) && *final(settings)
            == *old(settings),
        has_manage_guild && !spec_contains_reminder(old(settings).spec_reminders(), reminder@)
            ==> r is Ok && final(settings).spec_reminders() == old(
            settings,
        ).spec_reminders().push(reminder),
        final(settings).spec_timezone() == old(settings).spec_timezone(),
        final(settings).spec_requires_permission() == old(settings).spec_requires_permission(),
        final(settings).spec_reminds_random_kaisan() == old(
            settings,
        ).spec_reminds_random_kaisan(),
{
    if !has_manage_guild {
        return Err(Error::InsufficientPermission(PermissionKind::ManageGuild));
    }
    if !settings.add_reminder(reminder) {
        Err(Error::DuplicatedReminders(reminder))
    } else {
        Ok(())
    }
}

} // verus!
