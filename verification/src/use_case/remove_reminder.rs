//! Removing a configured reminder offset: gated on the Manage Guild
//! permission, rejected when no such offset is configured.

use vstd::prelude::*;

use crate::error::{Error, PermissionKind};
use crate::model::reminder::Reminder;
use crate::setting::{spec_contains_reminder, GuildSettings};

verus! {

/// Remove `reminder` from the guild's configuration. Succeeds exactly
/// when the author may manage the guild and the offset was configured;
/// afterwards it no longer is.
pub fn remove_reminder(
    settings: &mut GuildSettings,
    has_manage_guild: bool,
    reminder: Reminder,
) -> (r: Result<(), Error>)
    requires
        old(settings).wf(),
    ensures
        final(settings).wf(),
        !has_manage_guild ==> r == Err::<(), Error>(
            Error::InsufficientPermission(PermissionKind::ManageGuild),
        ) && *final(settings) == *old(settings),
        has_manage_guild && !spec_contains_reminder(old(settings).spec_reminders(), reminder@)
            ==> r == Err::<(), Error>(Error::NoSuchReminder(reminder)) && *final(settings)
            == *old(settings),
        has_manage_guild && spec_contains_reminder(old(settings).spec_reminders(), reminder@)
            ==> r is Ok && !spec_contains_reminder(final(settings).spec_reminders(), reminder@),
        final(settings).spec_timezone() == old(settings).spec_timezone(),
        final(settings).spec_requires_permission() == old(settings).spec_requires_permission(),
        final(settings).spec_reminds_random_kaisan() == old(
            settings,
        ).spec_reminds_random_kaisan(),
{
    if !has_manage_guild {
        return Err(Error::InsufficientPermission(PermissionKind::ManageGuild));
    }
    if !settings.remove_reminder(reminder) {
        Err(Error::NoSuchReminder(reminder))
    } else {
        Ok(())
    }
}

} // verus!
