//! A guild's settings as one value: the timezone, the permission flag,
//! the random-reminder flag, and the configured reminder set. The
//! reminder list has set semantics: no two entries share an offset.

use vstd::prelude::*;

use crate::model::reminder::Reminder;
use crate::model::zone::ZoneId;

verus! {

/// Whether a reminder with these minutes stands in the run.
pub open spec fn spec_contains_reminder(rs: Seq<Reminder>, minutes: int) -> bool {
    exists|i: int| 0 <= i < rs.len() && rs[i]@ == minutes
}

/// The settings a guild keeps between commands.
#[derive(Debug, Clone, PartialEq, Eq)]
pub struct GuildSettings {
    timezone: ZoneId,
    requires_permission: bool,
    reminds_random_kaisan: bool,
    reminders: Vec<Reminder>,
}

impl GuildSettings {
    /// Set semantics of the reminder list: offsets never repeat.
    pub open spec fn wf(&self) -> bool {
        forall|i: int, j: int|
            0 <= i < j < self.spec_reminders().len() ==> self.spec_reminders()[i]@
                != self.spec_reminders()[j]@
    }

    pub closed spec fn spec_timezone(&self) -> Seq<char> {
        self.timezone@
    }

    pub closed spec fn spec_requires_permission(&self) -> bool {
        self.requires_permission
    }

    pub closed spec fn spec_reminds_random_kaisan(&self) -> bool {
        self.reminds_random_kaisan
    }

    pub closed spec fn spec_reminders(&self) -> Seq<Reminder> {
        self.reminders@
    }

    /// Fresh settings: permission is required of cross-user commands,
    /// random disbandments get no reminders, none are configured.
    pub fn new(timezone: ZoneId) -> (r: GuildSettings)
        ensures
            r.wf(),
            r.spec_timezone() == timezone@,
            r.spec_requires_permission(),
            !r.spec_reminds_random_kaisan(),
            r.spec_reminders().len() == 0,
    {
        GuildSettings {
            timezone,
            requires_permission: true,
            reminds_random_kaisan: false,
            reminders: Vec::new(),
        }
    }

    pub fn timezone(&self) -> (r: &ZoneId)
        ensures
            r@ == self.spec_timezone(),
    {
        &self.timezone
    }

    pub fn set_timezone(&mut self, timezone: ZoneId)
        ensures
            final(self).spec_timezone() == timezone@,
            final(self).spec_requires_permission() == old(self).spec_requires_permission(),
            final(self).spec_reminds_random_kaisan() == old(self).spec_reminds_random_kaisan(),
            final(self).spec_reminders() == old(self).spec_reminders(),
    {
        self.timezone = timezone;
    }

    pub fn requires_permission(&self) -> (r: bool)
        ensures
            r == self.spec_requires_permission(),
    {
        self.requires_permission
    }

    pub fn set_requires_permission(&mut self, requires_permission: bool)
        ensures
            final(self).spec_requires_permission() == requires_permission,
            final(self).spec_timezone() == old(self).spec_timezone(),
            final(self).spec_reminds_random_kaisan() == old(self).spec_reminds_random_kaisan(),
            final(self).spec_reminders() == old(self).spec_reminders(),
    {
        self.requires_permission = requires_permission;
    }

    pub fn reminds_random_kaisan(&self) -> (r: bool)
        ensures
            r == self.spec_reminds_random_kaisan(),
    {
        self.reminds_random_kaisan
    }

    pub fn set_reminds_random_kaisan(&mut self, reminds_random_kaisan: bool)
        ensures
            final(self).spec_reminds_random_kaisan() == reminds_random_kaisan,
            final(self).spec_timezone() == old(self).spec_timezone(),
            final(self).spec_requires_permission() == old(self).spec_requires_permission(),
            final(self).spec_reminders() == old(self).spec_reminders(),
    {
        self.reminds_random_kaisan = reminds_random_kaisan;
    }

    pub fn reminders(&self) -> (r: &Vec<Reminder>)
        ensures
            r@ == self.spec_reminders(),
    {
        &self.reminders
    }

    /// The configured reminders as an owned list, in configuration
    /// order.
    pub fn reminders_list(&self) -> (r: Vec<Reminder>)
        ensures
            r@ == self.spec_reminders(),
    {
        let mut out: Vec<Reminder> = Vec::new();
        let n = self.reminders.len();
        let mut i: usize = 0;
        while i < n
            invariant
                i <= n,
                n == self.spec_reminders().len(),
                out@ == self.spec_reminders().subrange(0, i as int),
            decreases n - i,
        {
            out.push(self.reminders[i]);
            i = i + 1;
            assert(out@ =~= self.spec_reminders().subrange(0, i as int));
        }
        assert(out@ =~= self.spec_reminders());
        out
    }

    /// Whether a reminder with this offset is configured.
    pub fn has_reminder(&self, reminder: Reminder) -> (r: bool)
        ensures
            r == spec_contains_reminder(self.spec_reminders(), reminder@),
    {
        let n = self.reminders.len();
        let mut i: usize = 0;
        while i < n
            invariant
                i <= n,
                n == self.spec_reminders().len(),
                forall|j: int| 0 <= j < i ==> self.spec_reminders()[j]@ != reminder@,
            decreases n - i,
        {
            if self.reminders[i].minutes() == reminder.minutes() {
                return true;
            }
            i = i + 1;
        }
        false
    }

    /// Add a reminder; with set semantics, an offset already present is
    /// left alone. The result says whether membership changed.
    pub fn add_reminder(&mut self, reminder: Reminder) -> (changed: bool)
        requires
            old(self).wf(),
        ensures
            final(self).wf(),
            changed == !spec_contains_reminder(old(self).spec_reminders(), reminder@),
            changed ==> final(self).spec_reminders() == old(self).spec_reminders().push(reminder),
            !changed ==> *final(self) == *old(self),
            final(self).spec_timezone() == old(self).spec_timezone(),
            final(self).spec_requires_permission() == old(self).spec_requires_permission(),
            final(self).spec_reminds_random_kaisan() == old(self).spec_reminds_random_kaisan(),
    {
        if self.has_reminder(reminder) {
            return false;
        }
        self.reminders.push(reminder);
        proof {
            let olds = old(self).spec_reminders();
            let news = self.spec_reminders();
            assert(news == olds.push(reminder));
            assert forall|a: int, b: int| 0 <= a < b < news.len() implies news[a]@ != news[b]@ by {
                if b == news.len() - 1 {
                    assert(news[a] == olds[a]);
                    assert(news[b] == reminder);
                    assert(!spec_contains_reminder(olds, reminder@));
                } else {
                    assert(news[a] == olds[a]);
                    assert(news[b] == olds[b]);
                }
            }
        }
        true
    }

    /// Remove a reminder; the result says whether one with this offset
    /// was there to remove.
    pub fn remove_reminder(&mut self, reminder: Reminder) -> (changed: bool)
        requires
            old(self).wf(),
        ensures
            final(self).wf(),
            changed == spec_contains_reminder(old(self).spec_reminders(), reminder@),
            !changed ==> *final(self) == *old(self),
            changed ==> exists|i: int|
                0 <= i < old(self).spec_reminders().len() && old(self).spec_reminders()[i]@
                    == reminder@ && final(self).spec_reminders() == old(
                    self,
                ).spec_reminders().remove(i),
            changed ==> !spec_contains_reminder(final(self).spec_reminders(), reminder@),
            final(self).spec_timezone() == old(self).spec_timezone(),
            final(self).spec_requires_permission() == old(self).spec_requires_permission(),
            final(self).spec_reminds_random_kaisan() == old(self).spec_reminds_random_kaisan(),
    {
        let n = self.reminders.len();
        let mut i: usize = 0;
        while i < n
            invariant
                i <= n,
                n == self.spec_reminders().len(),
                *self == *old(self),
                old(self).wf(),
                forall|j: int| 0 <= j < i ==> self.spec_reminders()[j]@ != reminder@,
            decreases n - i,
        {
            if self.reminders[i].minutes() == reminder.minutes() {
                let ghost before = old(self).spec_reminders();
                self.reminders.remove(i);
                proof {
                    assert(before[i as int]@ == reminder@);
                    assert(self.spec_reminders() == before.remove(i as int));
                    assert forall|a: int, b: int|
                        0 <= a < b < self.spec_reminders().len() implies self.spec_reminders()[a]@
                        != self.spec_reminders()[b]@ by {
                        let sa: int = if a < i { a } else { a + 1 };
                        let sb: int = if b < i { b } else { b + 1 };
                        assert(self.spec_reminders()[a] == before[sa]);
                        assert(self.spec_reminders()[b] == before[sb]);
                        assert(before[sa]@ != before[sb]@);
                    }
                    assert forall|a: int|
                        0 <= a < self.spec_reminders().len() implies self.spec_reminders()[a]@
                        != reminder@ by {
                        let sa: int = if a < i { a } else { a + 1 };
                        assert(self.spec_reminders()[a] == before[sa]);
                        if sa != i {
                            assert(before[sa]@ != before[i as int]@);
                        }
                    }
                }
                return true;
            }
            i = i + 1;
        }
        false
    }
}

} // verus!
