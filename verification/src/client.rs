//! The client's side of the protocol: the requests to send, and what each
//! reply means to the caller.

use crate::text::{decimal, push_decimal};
use crate::wire::{
    CreateNotification, CreateNotificationResult, DeleteNotification, DeleteNotificationResult,
    GetNotifications, GetNotificationsResult, Notification, NotificationContent,
};
use vstd::prelude::*;
use vstd::string::StringExecFns;

verus! {

/// Why a request came to nothing, as far as the server's reply says.
#[derive(Debug, Clone, Copy, PartialEq, Eq, Structural)]
pub enum ReplyError {
    /// Nothing was ever stored under the tag.
    TagDoesNotExist,
    /// The tag holds no live notification with that id.
    IdDoesNotExist,
    /// The server did not store the notification and gave no reason.
    Unknown,
}

/// The request for the notifications of `tag`.
pub fn get_request(tag: String) -> (request: GetNotifications)
    ensures
        request.tag == tag,
{
    GetNotifications { tag }
}

/// The request to store `content` under `tag`.
pub fn push_request(tag: String, content: String) -> (request: CreateNotification)
    ensures
        request.tag == tag,
        request.content == content,
{
    CreateNotification { tag, content }
}

/// The request to delete the notification `id` of `tag`.
pub fn delete_request(tag: String, id: usize) -> (request: DeleteNotification)
    ensures
        request.tag == tag,
        request.id == id,
{
    DeleteNotification { tag, id }
}

/// The line that shows a notification: its id in decimal, a colon, a space
/// and its content.
pub open spec fn line_of(notification: Notification) -> Seq<char> {
    decimal(notification.id) + seq![':', ' '] + notification.content
}

/// The line that shows `notification`.
pub fn show(notification: &NotificationContent) -> (line: String)
    ensures
        line@ == line_of(notification@),
{
    let mut line = String::new();
    push_decimal(&mut line, notification.id);
    proof {
        reveal_strlit(": ");
    }
    line.append(": ");
    line.append(notification.content.as_str());
    assert(line@ =~= line_of(notification@));
    line
}

/// What the reply to a get means: the lines to show, one for each
/// notification and in the reply's order, or that the tag does not exist.
pub fn read_get_reply(reply: &GetNotificationsResult) -> (outcome: Result<Vec<String>, ReplyError>)
    ensures
        match *reply {
            GetNotificationsResult::Found(list) => outcome matches Ok(lines) && lines.len()
                == list.len() && forall|i: int|
                0 <= i < list.len() ==> (#[trigger] lines[i])@ == line_of(list[i]@),
            GetNotificationsResult::TagDoesNotExist => outcome == Err::<Vec<String>, ReplyError>(
                ReplyError::TagDoesNotExist,
            ),
        },
{
    match reply {
        GetNotificationsResult::Found(list) => {
            let mut lines: Vec<String> = Vec::new();
            let mut at: usize = 0;
            while at < list.len()
                invariant
                    at <= list.len(),
                    lines.len() == at,
                    forall|i: int| 0 <= i < at ==> (#[trigger] lines[i])@ == line_of(list[i]@),
                decreases list.len() - at,
            {
                lines.push(show(&list[at]));
                at += 1;
            }
            Ok(lines)
        },
        GetNotificationsResult::TagDoesNotExist => Err(ReplyError::TagDoesNotExist),
    }
}

/// What the reply to a push means: the id of the new notification, or that
/// the server did not store it.
pub fn read_push_reply(reply: CreateNotificationResult) -> (outcome: Result<usize, ReplyError>)
    ensures
        outcome == match reply {
            CreateNotificationResult::Created(id) => Ok::<usize, ReplyError>(id),
            CreateNotificationResult::Failed => Err::<usize, ReplyError>(ReplyError::Unknown),
        },
{
    match reply {
        CreateNotificationResult::Created(id) => Ok(id),
        CreateNotificationResult::Failed => Err(ReplyError::Unknown),
    }
}

/// What the reply to a delete means: that the notification is gone, or
/// which of the two it was that does not exist.
pub fn read_delete_reply(reply: DeleteNotificationResult) -> (outcome: Result<(), ReplyError>)
    ensures
        outcome == match reply {
            DeleteNotificationResult::Deleted => Ok::<(), ReplyError>(()),
            DeleteNotificationResult::TagDoesNotExist => Err::<(), ReplyError>(
                ReplyError::TagDoesNotExist,
            ),
            DeleteNotificationResult::IdDoesNotExist => Err::<(), ReplyError>(
                ReplyError::IdDoesNotExist,
            ),
        },
{
    match reply {
        DeleteNotificationResult::Deleted => Ok(()),
        DeleteNotificationResult::TagDoesNotExist => Err(ReplyError::TagDoesNotExist),
        DeleteNotificationResult::IdDoesNotExist => Err(ReplyError::IdDoesNotExist),
    }
}

} // verus!
