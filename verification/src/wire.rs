//! The messages exchanged between a notifier client and its server.

use std::borrow::Borrow;
use std::hash::{Hash, Hasher};
use vstd::prelude::*;
use vstd::std_specs::cmp::PartialEqSpecImpl;

verus! {

/// What a notification is on the mathematical side: its id and its text.
pub struct Notification {
    pub id: nat,
    pub content: Seq<char>,
}

/// One notification as it is stored and sent.
///
/// Its identity is the id alone: two values with the same id are the same
/// notification whatever their content.
#[derive(Debug)]
pub struct NotificationContent {
    pub id: usize,
    pub content: String,
}

impl View for NotificationContent {
    type V = Notification;

    open spec fn view(&self) -> Notification {
        Notification { id: self.id as nat, content: self.content@ }
    }
}

impl Clone for NotificationContent {
    fn clone(&self) -> (copy: Self)
        ensures
            copy == *self,
    {
        NotificationContent { id: self.id, content: self.content.clone() }
    }
}

impl Borrow<usize> for NotificationContent {
    fn borrow(&self) -> &usize
        returns
            &self.id,
    {
        &self.id
    }
}

impl PartialEq for NotificationContent {
    fn eq(&self, other: &Self) -> (same: bool) {
        self.id == other.id
    }
}

impl PartialEqSpecImpl for NotificationContent {
    open spec fn obeys_eq_spec() -> bool {
        true
    }

    open spec fn eq_spec(&self, other: &Self) -> bool {
        self.id == other.id
    }
}

impl Eq for NotificationContent {}

/// `usize`'s own `Hash::hash` feeds the number to the hasher. Nothing is
/// claimed of the hasher's state afterwards.
pub assume_specification<H: Hasher>[ <usize as Hash>::hash ](value: &usize, state: &mut H);

impl Hash for NotificationContent {
    fn hash<H: Hasher>(&self, state: &mut H) {
        self.id.hash(state);
    }
}

/// A request to store `content` as a new notification under `tag`.
#[derive(Debug)]
pub struct CreateNotification {
    pub tag: String,
    pub content: String,
}

/// The answer to a [`CreateNotification`]: the id given to the notification.
#[derive(Debug, Clone, Copy, PartialEq, Eq, Structural)]
pub enum CreateNotificationResult {
    /// The notification was stored under this id.
    Created(usize),
    /// The notification was not stored.
    Failed,
}

/// A request for every live notification under `tag`.
#[derive(Debug)]
pub struct GetNotifications {
    pub tag: String,
}

/// The answer to a [`GetNotifications`].
#[derive(Debug)]
pub enum GetNotificationsResult {
    /// The live notifications of the tag.
    Found(Vec<NotificationContent>),
    /// Nothing was ever stored under the tag.
    TagDoesNotExist,
}

/// A request to remove the notification `id` from `tag`.
#[derive(Debug)]
pub struct DeleteNotification {
    pub tag: String,
    pub id: usize,
}

/// The answer to a [`DeleteNotification`].
#[derive(Debug, Clone, Copy, PartialEq, Eq, Structural)]
pub enum DeleteNotificationResult {
    /// The notification was removed.
    Deleted,
    /// Nothing was ever stored under the tag.
    TagDoesNotExist,
    /// The tag holds no live notification with that id.
    IdDoesNotExist,
}

} // verus!
