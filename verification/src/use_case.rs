pub mod add_reminder;
pub mod help;
pub mod remove_reminder;
pub mod schedule_kaisan;
pub mod set_reminds_random_kaisan;
pub mod set_requires_permission;
pub mod set_timezone;
pub mod show_setting;
