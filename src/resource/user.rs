//! The user's account and the people they share projects with.
use vstd::prelude::*;
use super::ID;

verus! {

/// Someone who shares a project with the user.
#[derive(Debug, Clone, Default)]
pub struct Collaborator {
    /// The collaborator's user ID.
    pub id: ID,
    /// The collaborator's email.
    pub email: String,
    /// The collaborator's time zone.
    pub timezone: String,
    /// The collaborator's avatar.
    pub image_id: String,
}

/// Whether the user has verified their email address.
#[derive(Debug, Clone, Copy, PartialEq, Eq)]
pub enum VerificationStatus {
    /// Not verified yet.
    Unverified,
    /// Verified.
    Verified,
    /// Not verified within the allowed time.
    Blocked,
    /// Signed up before verification was asked.
    Legacy,
}

/// Special features that the user has turned on.
#[derive(Debug, Clone)]
pub struct Features {
    /// 1 if the user has turned on beta features, otherwise 0.
    pub beta: i32,
    pub dateist_inline_disabled: bool,
    pub dateist_lang: Option<String>,
    pub gold_theme: bool,
    pub has_push_reminders: bool,
    pub karma_disabled: bool,
    pub karma_vacation: bool,
    pub restriction: i32,
}

/// The user's time zone.
#[derive(Debug, Clone)]
pub struct TimeZoneInfo {
    /// The zone's name, such as `Europe/Rome`.
    pub timezone: String,
    /// Hours east of UTC.
    pub hours: i32,
    /// Minutes, added to `hours`.
    pub minutes: i32,
    /// Whether daylight saving time is in effect.
    pub is_dst: bool,
}

/// The account the library acts for.
#[derive(Debug, Clone)]
pub struct User {
    /// The user's ID.
    pub id: ID,
    /// The user's email.
    pub email: String,
    /// The user's full name.
    pub full_name: String,
    /// The ID of the user's inbox project.
    pub inbox_project: ID,
    /// The ID of the team's inbox project.
    pub team_inbox: ID,
    /// Whether the user has a premium account.
    pub is_premium: bool,
    /// When the premium account ends, as the server wrote it.
    pub premium_until: Option<String>,
    /// The date format: DD-MM-YY (0) or MM-DD-YY (1).
    pub date_format: isize,
    /// The time format: 24h (0) or 12h (1).
    pub time_format: isize,
    /// The first day of the week, Monday (1) to Sunday (7).
    pub start_day: isize,
    /// The day that tasks of "next week" move to.
    pub next_week: isize,
    /// The day that weekend tasks move to.
    pub weekend_start_day: isize,
    /// The order of items: oldest first (0) or newest first (1).
    pub sort_order: isize,
    /// The default view.
    pub start_page: String,
    /// The user's language.
    pub lang: String,
    /// Default reminder time, in minutes.
    pub auto_reminder: i32,
    /// The number of tasks the user aims to finish each day.
    pub daily_goal: i32,
    /// The trend of the user's karma, such as `up`.
    pub karma_trend: String,
    /// The user's avatar.
    pub image_id: String,
    /// The user's API token.
    pub token: String,
    /// The user's time zone.
    pub tz_info: TimeZoneInfo,
    /// Special features the user has turned on.
    pub features: Features,
    /// Whether the email address is verified.
    pub verification_status: Option<VerificationStatus>,
}

impl Features {
    /// Whether every field holds its default: zero, `false` or `None`.
    pub open spec fn is_default(self) -> bool {
        &&& self.beta == 0
        &&& !self.dateist_inline_disabled
        &&& self.dateist_lang is None
        &&& !self.gold_theme
        &&& !self.has_push_reminders
        &&& !self.karma_disabled
        &&& !self.karma_vacation
        &&& self.restriction == 0
    }
}

impl TimeZoneInfo {
    /// Whether every field holds its default: empty, zero or `false`.
    pub open spec fn is_default(self) -> bool {
        &&& self.timezone@.len() == 0
        &&& self.hours == 0
        &&& self.minutes == 0
        &&& !self.is_dst
    }
}

impl User {
    /// Whether every field holds its default: zero, empty, `false` or `None`.
    pub open spec fn is_default(self) -> bool {
        &&& self.id == 0
        &&& self.email@.len() == 0
        &&& self.full_name@.len() == 0
        &&& self.inbox_project == 0
        &&& self.team_inbox == 0
        &&& !self.is_premium
        &&& self.premium_until is None
        &&& self.date_format == 0
        &&& self.time_format == 0
        &&& self.start_day == 0
        &&& self.next_week == 0
        &&& self.weekend_start_day == 0
        &&& self.sort_order == 0
        &&& self.start_page@.len() == 0
        &&& self.lang@.len() == 0
        &&& self.auto_reminder == 0
        &&& self.daily_goal == 0
        &&& self.karma_trend@.len() == 0
        &&& self.image_id@.len() == 0
        &&& self.token@.len() == 0
        &&& self.tz_info.is_default()
        &&& self.features.is_default()
        &&& self.verification_status is None
    }
}

impl Default for Features {
    fn default() -> (r: Features)
        ensures
            r.is_default(),
    {
        Features {
            beta: 0,
            dateist_inline_disabled: false,
            dateist_lang: None,
            gold_theme: false,
            has_push_reminders: false,
            karma_disabled: false,
            karma_vacation: false,
            restriction: 0,
        }
    }
}

impl Default for TimeZoneInfo {
    fn default() -> (r: TimeZoneInfo)
        ensures
            r.is_default(),
    {
        TimeZoneInfo { timezone: String::new(), hours: 0, minutes: 0, is_dst: false }
    }
}

impl Default for User {
    fn default() -> (r: User)
        ensures
            r.is_default(),
    {
        User {
            id: 0,
            email: String::new(),
            full_name: String::new(),
            inbox_project: 0,
            team_inbox: 0,
            is_premium: false,
            premium_until: None,
            date_format: 0,
            time_format: 0,
            start_day: 0,
            next_week: 0,
            weekend_start_day: 0,
            sort_order: 0,
            start_page: String::new(),
            lang: String::new(),
            auto_reminder: 0,
            daily_goal: 0,
            karma_trend: String::new(),
            image_id: String::new(),
            token: String::new(),
            tz_info: TimeZoneInfo::default(),
            features: Features::default(),
            verification_status: None,
        }
    }
}

} // verus!
