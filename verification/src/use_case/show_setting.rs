//! Showing the guild's settings: read them all and answer with one
//! message that carries their values.

use vstd::prelude::*;

use crate::model::message::Message;
use crate::setting::GuildSettings;

verus! {

/// The message that shows every setting as it currently stands.
pub fn show_setting(settings: &GuildSettings) -> (m: Message)
    ensures
        m matches Message::Setting {
            requires_permission,
            timezone,
            reminders,
            reminds_random_kaisan,
        } && requires_permission == settings.spec_requires_permission() && timezone@
            == settings.spec_timezone() && reminders@ == settings.spec_reminders()
            && reminds_random_kaisan == settings.spec_reminds_random_kaisan(),
{
    Message::Setting {
        requires_permission: settings.requires_permission(),
        timezone: settings.timezone().duplicate(),
        reminders: settings.reminders_list(),
        reminds_random_kaisan: settings.reminds_random_kaisan(),
    }
}

} // verus!
