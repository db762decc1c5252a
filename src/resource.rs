//! The records that the service synchronizes, each kept by its ID.
use vstd::prelude::*;

pub mod filter;
pub mod item;
pub mod label;
pub mod note;
pub mod notification;
pub mod project;
pub mod section;
pub mod user;

pub use filter::Filter;
pub use item::Item;
pub use label::Label;
pub use note::{Attachment, Note, ProjectNote, Thumbnail, UploadState};
pub use notification::{
    LiveNotification, LiveNotificationType, NotificationService, NotificationTrigger,
    NotificationType, Reminder,
};
pub use project::{Project, ViewStyle};
pub use section::Section;
pub use user::{Collaborator, Features, TimeZoneInfo, User, VerificationStatus};

verus! {

/// An identifier that the server gives a record, unique within its kind.
pub type ID = usize;

/// How important an item is, a number from 1 to 4.
pub type Priority = u8;

/// A two-letter language code, such as `en` or `de`.
pub type Language = String;

/// A record that is kept by its ID.
pub trait Record: Sized {
    /// The record's ID.
    spec fn key_of(&self) -> ID;

    /// The record's ID.
    fn key(&self) -> (r: ID)
        ensures
            r == self.key_of(),
    ;
}

impl Record for Project {
    open spec fn key_of(&self) -> ID {
        self.id
    }

    fn key(&self) -> (r: ID) {
        self.id
    }
}

impl Record for Item {
    open spec fn key_of(&self) -> ID {
        self.id
    }

    fn key(&self) -> (r: ID) {
        self.id
    }
}

impl Record for Label {
    open spec fn key_of(&self) -> ID {
        self.id
    }

    fn key(&self) -> (r: ID) {
        self.id
    }
}

impl Record for Collaborator {
    open spec fn key_of(&self) -> ID {
        self.id
    }

    fn key(&self) -> (r: ID) {
        self.id
    }
}

} // verus!
