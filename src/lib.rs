//! A client library for a task service's sync protocol: a local mirror of
//! projects, items, labels and collaborators, merged from incremental sync
//! responses, and batches of commands reconciled against per-command status.

pub mod cache;
pub mod client;
pub mod color;
pub mod command;
pub mod date;
pub mod due;
pub mod error;
pub mod intbool;
pub mod json;
pub mod protocol;
pub mod resource;
pub mod text;

pub use cache::Cache;
pub use client::{Client, Transaction};
pub use color::{Color, UnknownColorErr};
pub use command::{Command, CommandArgs};
pub use date::Date;
pub use due::{CalendarDate, ClockTime, DateParseError, DueDate, DueDateType, DueKind};
pub use error::Error;
pub use intbool::IntBool;
pub use protocol::{
    CommandError, CommandErrors, CommandId, CommandResponse, CommandStatus, Resource, ResourceType,
    SyncResponse,
};
pub use resource::{
    Attachment, Collaborator, Features, Filter, Item, Label, Language, LiveNotification,
    LiveNotificationType, Note, NotificationService, NotificationTrigger, NotificationType,
    Priority, Project, ProjectNote, Reminder, Section, Thumbnail, TimeZoneInfo, UploadState, User,
    VerificationStatus, ViewStyle, ID,
};
