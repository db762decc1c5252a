//! Reminders and live notifications.
use vstd::prelude::*;
use super::{Language, User, ID};
use crate::date::Date;

verus! {

/// How a user is told of a reminder.
#[derive(Debug, Clone, Copy, PartialEq, Eq)]
pub enum NotificationService {
    Email,
    Mobile,
    Push,
    /// No service chosen; the user's default applies.
    NoDefault,
}

impl Default for NotificationService {
    fn default() -> (r: NotificationService)
        ensures
            r == NotificationService::NoDefault,
    {
        NotificationService::NoDefault
    }
}

/// When a location reminder fires.
#[derive(Debug, Clone, Copy, PartialEq, Eq)]
pub enum NotificationTrigger {
    OnEnter,
    OnLeave,
}

/// What triggers a reminder: a time (relative or absolute) or a location.
#[derive(Debug, Clone, Copy, PartialEq, Eq)]
pub enum NotificationType {
    /// No trigger set.
    Unset,
    Relative,
    Absolute,
    Location,
}

impl Default for NotificationType {
    fn default() -> (r: NotificationType)
        ensures
            r == NotificationType::Unset,
    {
        NotificationType::Unset
    }
}

/// A reminder on an item.
#[derive(Debug, Clone, Default)]
pub struct Reminder {
    /// The reminder's unique ID.
    pub id: ID,
    /// The user to notify.
    pub notify_uid: ID,
    /// The item the reminder is on.
    pub item_id: ID,
    /// How the user is notified.
    pub service: NotificationService,
    /// What triggers the reminder.
    pub typ: NotificationType,
    /// When the reminder fires, in free text.
    pub date_string: Option<String>,
    /// The language of `date_string`.
    pub date_lang: Language,
    /// When the reminder fires.
    pub due_date_utc: Option<Date>,
    /// Minutes before the item is due.
    pub mm_offset: Option<isize>,
    /// The location's name.
    pub name: Option<String>,
    /// The location's latitude.
    pub loc_lat: Option<isize>,
    /// The location's longitude.
    pub loc_long: Option<isize>,
    /// When the location reminder fires.
    pub loc_trigger: Option<NotificationTrigger>,
    /// The radius around the location, in meters.
    pub radius: Option<isize>,
    /// Set when the reminder has been deleted.
    pub is_deleted: isize,
}

/// A notification shown to the user as it happens.
#[derive(Debug, Default)]
pub struct LiveNotification {
    /// The notification's ID.
    pub id: ID,
    /// When it was added, in Unix time.
    pub add: i64,
    /// The user it comes from.
    pub from_uid: ID,
    /// A unique key for the notification.
    pub notification_key: String,
    /// The notification's sequence number.
    pub seq_no: isize,
    /// Whether it is unread.
    pub is_unread: isize,
    /// The user who invites, for an invitation.
    pub from_user: Option<User>,
    /// The project's name, for an invitation.
    pub project_name: Option<String>,
    /// The invitation's ID.
    pub invitation_id: Option<ID>,
    /// The secret that accepts or rejects the invitation.
    pub invitation_secret: Option<String>,
    /// The invitation's state.
    pub state: Option<String>,
    /// The name of a user removed from a project.
    pub removed_name: Option<String>,
    /// The ID of a user removed from a project.
    pub removed_uid: Option<ID>,
    /// The number of users in a business account.
    pub quantity: Option<isize>,
    /// The business plan's name.
    pub plan: Option<String>,
    /// When the business account ends, in Unix time.
    pub active_until: Option<i64>,
    /// The amount due, in hundredths of the currency.
    pub amount_due: Option<isize>,
    /// The number of payment attempts so far.
    pub attempt_count: Option<isize>,
    /// The currency, a three-letter code.
    pub currency: Option<String>,
    /// The invoice's description.
    pub description: Option<String>,
    /// The next payment attempt, in Unix time.
    pub next_payment_attempt: Option<i64>,
    /// The invitation's message.
    pub invitation_message: Option<String>,
    /// The business account's name.
    pub account_name: Option<String>,
}

/// The kinds of live notification.
#[derive(Debug, Clone, Copy, PartialEq, Eq)]
pub enum LiveNotificationType {
    ShareInvitationSent,
    ShareInvitationAccepted,
    ShareInvitationRejected,
    UserRemovedFromProject,
    ItemAssigned,
    ItemCompleted,
    ItemUncompleted,
    NoteAdded,
    BusinessPolicyDisallowedInvitation,
    BusinessPolicyRejectInvitation,
    BusinessTrialWillEnd,
    BusinessPaymentFailed,
    BusinessAccountDisabled,
    BusinessInvitationAdded,
    BusinessInvitationAccepted,
    BusinessInvitationRejected,
}

} // verus!
