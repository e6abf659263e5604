//! The messages the bot sends back, and how they are phrased. Phrasing
//! is presentation: the render functions are total and carry no
//! contracts beyond what the scheduler's plans pin down elsewhere.

use vstd::prelude::*;
use vstd::string::StringExecFns;

use crate::error::Error;
use crate::model::kaisanee::{KaisaneeSpecifier, UserId};
use crate::model::reminder::Reminder;
use crate::model::time::TimeSpecifier;
use crate::model::zone::{CivilInstant, ZoneId};
use crate::say::{dec_u64, say_duration, say_mentions, Say, SayJoined};

verus! {

/// A resolved target instant as the confirmation message shows it: the
/// instant and now, their local calendar views where they exist, the
/// specifier that produced it, and whether the real fire instant is a
/// random one no later than it.
#[derive(Debug, Clone, PartialEq, Eq)]
pub struct CalculatedDateTime {
    pub time: i64,
    pub now: i64,
    pub time_civil: Option<CivilInstant>,
    pub now_civil: Option<CivilInstant>,
    pub spec: TimeSpecifier,
    pub is_random: bool,
}

/// Everything the bot ever says.
#[derive(Debug, Clone, PartialEq, Eq)]
pub enum Message {
    Help,
    Scheduled { calculated_time: CalculatedDateTime, kaisanee: KaisaneeSpecifier },
    Kaisan(Vec<UserId>),
    Remind(Vec<UserId>, Reminder),
    Setting {
        requires_permission: bool,
        timezone: ZoneId,
        reminders: Vec<Reminder>,
        reminds_random_kaisan: bool,
    },
    HandleError(Error),
    KaisanError(Error),
    RemindError(Error),
}

/// The help text, listing every command form.
pub fn help_message() -> String {
    "メンションか `!kaisan` でコマンドが実行できます。

・`!kaisan help`: ヘルプ

**解散コマンド** 省略された場合、`TARGET` は全員になります
・`!kaisan [TARGET] at TIME`: `TARGET` を `TIME` に解散する
・`!kaisan [TARGET] after DURATION`: `TARGET` を `DURATION` 後に解散する
・`!kaisan [TARGET] by TIME`: `TARGET` を `TIME` までのランダムな時間に解散する
・`!kaisan [TARGET] within DURATION`: `TARGET` を `DURATION` 後までのランダムな時間に解散する
・その他さまざまな糖衣構文

*解散コマンド例*
・`@解散担当大臣 1時間30分後`
・`!kaisan me after 10min`
・`明日の一時 @解散担当大臣`
・`!kaisan @someone at 10:30`

**設定コマンド** 設定には Manage Guild 権限が必要です
・`!kaisan show-setting`: 設定表示
・`!kaisan timezone TIMEZONE`: タイムゾーンを設定
・`!kaisan require-permission BOOLEAN`: 他人を解散するのに Move Members 権限を必要とするか設定
・`!kaisan add-reminder N`: 解散の `N` 分前にリマインドを設定
・`!kaisan remove-reminder N`: 解散の `N` 分前のリマインドを削除
・`!kaisan remind-random BOOLEAN`: 解散時刻がランダムな場合にもリマインダを使うかどうか設定
".to_string()
}

impl CalculatedDateTime {
    /// The phrase for the calculated time: calendar parts only where
    /// they differ from now's, then the relative duration, then the
    /// random marker.
    pub fn render(&self) -> String {
        let mut out = String::new();
        let interested_in_time = self.spec.is_interested_in_time();
        let interested_in_duration = self.spec.is_interested_in_duration();
        if interested_in_time {
            match (&self.time_civil, &self.now_civil) {
                (Some(t), Some(nw)) => {
                    if t.day != nw.day {
                        out.append(dec_u64(t.month as u64).as_str());
                        out.append("/");
                        out.append(dec_u64(t.day_of_month as u64).as_str());
                        out.append(" ");
                    }
                    let t_hour = t.second_of_day / 3600;
                    let t_minute = (t.second_of_day / 60) % 60;
                    let now_hour = nw.second_of_day / 3600;
                    if t_hour != now_hour {
                        out.append(dec_u64(t_hour as u64).as_str());
                        out.append("時");
                        if t_minute != 0 {
                            out.append(dec_u64(t_minute as u64).as_str());
                            out.append("分");
                        }
                    } else {
                        out.append(dec_u64(t_minute as u64).as_str());
                        out.append("分");
                    }
                },
                _ => {},
            }
        }
        if interested_in_time && interested_in_duration {
            out.append("、");
        }
        if interested_in_duration {
            let gap: i128 = (self.time as i128) - (self.now as i128);
            let dur: u64 = if gap < 0 {
                0
            } else if gap > u64::MAX as i128 {
                u64::MAX
            } else {
                gap as u64
            };
            out.append(say_duration(dur).as_str());
            out.append("後");
        }
        if self.is_random {
            out.append("まで");
        }
        out
    }
}

impl Message {
    /// The chat text of this message.
    pub fn render(&self) -> String {
        match self {
            Message::Help => help_message(),
            Message::Scheduled { calculated_time, kaisanee } => {
                let mut out = calculated_time.render();
                out.append("に");
                out.append(kaisanee.say().as_str());
                out.append("を解散します");
                out
            },
            Message::Kaisan(ids) => {
                let mut out = say_mentions(ids);
                out.append(" 解散！");
                out
            },
            Message::Remind(ids, reminder) => {
                let mut out = say_mentions(ids);
                out.append(" あと");
                out.append(say_duration(reminder.before_duration()).as_str());
                out.append("で解散です");
                out
            },
            Message::Setting { requires_permission, timezone, reminders, reminds_random_kaisan } => {
                let mut out = String::new();
                out.append("他人を解散させるのに権限を必要とする: ");
                out.append(requires_permission.say().as_str());
                out.append("\n");
                out.append("タイムゾーン: ");
                out.append(timezone.say().as_str());
                out.append("\n");
                out.append("リマインダ: ");
                let mut items: Vec<String> = Vec::new();
                let mut i: usize = 0;
                while i < reminders.len()
                    decreases reminders.len() - i,
                {
                    items.push(reminders[i].say());
                    i = i + 1;
                }
                let joined = SayJoined::of(items, "、").with_alternative("設定されていません");
                out.append(joined.render().as_str());
                out.append("\n");
                out.append("解散時刻がランダムな場合にもリマインダを使う: ");
                out.append(reminds_random_kaisan.say().as_str());
                out.append("\n");
                out
            },
            Message::HandleError(e) => e.say(),
            Message::KaisanError(e) => {
                let mut out = "解散できませんでした: ".to_string();
                out.append(e.say().as_str());
                out
            },
            Message::RemindError(e) => {
                let mut out = "リマインドできませんでした: ".to_string();
                out.append(e.say().as_str());
                out
            },
        }
    }
}

} // verus!
