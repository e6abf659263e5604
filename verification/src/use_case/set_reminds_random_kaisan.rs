//! Setting whether randomly timed disbandments get reminders too: gated
//! on the Manage Guild permission.

use vstd::prelude::*;

use crate::error::{Error, PermissionKind};
use crate::setting::GuildSettings;

verus! {

/// Store the random-reminder flag. Succeeds exactly when the author may
/// manage the guild; nothing else changes.
pub fn set_reminds_random_kaisan(
    settings: &mut GuildSettings,
    has_manage_guild: bool,
    reminds_random_kaisan: bool,
) -> (r: Result<(), Error>)
    requires
        old(settings).wf(),
    ensures
        final(settings).wf(),
        !has_manage_guild ==> r == Err::<(), Error>(
            Error::InsufficientPermission(PermissionKind::ManageGuild),
        ) && *final(settings) == *old(settings),
        has_manage_guild ==> r is Ok && final(settings).spec_reminds_random_kaisan()
            == reminds_random_kaisan,
        final(settings).spec_timezone() == old(settings).spec_timezone(),
        final(settings).spec_requires_permission() == old(settings).spec_requires_permission(),
        final(settings).spec_reminders() == old(settings).spec_reminders(),
{
    if !has_manage_guild {
        return Err(Error::InsufficientPermission(PermissionKind::ManageGuild));
    }
    settings.set_reminds_random_kaisan(reminds_random_kaisan);
    Ok(())
}

} // verus!
