//! The server's side of the protocol: one function for each kind of request.
//!
//! Each takes the store and a decoded request, and gives the reply to encode.
//! A miss is an ordinary reply, never a failure of the server.

use crate::model::{lists, views, StoreError};
use crate::store::TagStore;
use crate::wire::{
    CreateNotification, CreateNotificationResult, DeleteNotification, DeleteNotificationResult,
    GetNotifications, GetNotificationsResult,
};
use vstd::prelude::*;

verus! {

/// Stores the notification of `request` and replies with its id.
///
/// The one request that is turned down is for a tag whose ids are used up:
/// the store then stays as it was.
pub fn add_notif(store: &mut TagStore, request: CreateNotification) -> (reply:
    CreateNotificationResult)
    ensures
        old(store)@.next_id(request.tag@) < usize::MAX ==> final(store)@ == old(store)@.create(
            request.tag@,
            request.content@,
        ) && reply == CreateNotificationResult::Created(
            old(store)@.next_id(request.tag@) as usize,
        ),
        old(store)@.next_id(request.tag@) >= usize::MAX ==> final(store)@ == old(store)@ && reply
            == CreateNotificationResult::Failed,
{
    let CreateNotification { tag, content } = request;
    if store.next_id(tag.as_str()) < usize::MAX {
        CreateNotificationResult::Created(store.create(tag, content))
    } else {
        CreateNotificationResult::Failed
    }
}

/// Replies with the live notifications of the tag of `request`, by
/// increasing id.
pub fn get_notifs(store: &TagStore, request: &GetNotifications) -> (reply: GetNotificationsResult)
    ensures
        match reply {
            GetNotificationsResult::Found(list) => store@.has_tag(request.tag@) && lists(
                views(list@),
                store@.tags[request.tag@].live,
            ),
            GetNotificationsResult::TagDoesNotExist => !store@.has_tag(request.tag@),
        },
{
    match store.get(request.tag.as_str()) {
        Ok(list) => GetNotificationsResult::Found(list),
        Err(_) => GetNotificationsResult::TagDoesNotExist,
    }
}

/// What a delete is answered with on the wire.
pub open spec fn delete_reply(result: Result<(), StoreError>) -> DeleteNotificationResult {
    match result {
        Ok(_) => DeleteNotificationResult::Deleted,
        Err(StoreError::TagNotFound) => DeleteNotificationResult::TagDoesNotExist,
        Err(StoreError::IdNotFound) => DeleteNotificationResult::IdDoesNotExist,
    }
}

/// Removes the notification that `request` names and replies how that went.
pub fn delete_notif(store: &mut TagStore, request: &DeleteNotification) -> (reply:
    DeleteNotificationResult)
    ensures
        reply == delete_reply(old(store)@.delete_result(request.tag@, request.id as nat)),
        final(store)@ == old(store)@.delete(request.tag@, request.id as nat),
{
    match store.delete(request.tag.as_str(), request.id) {
        Ok(_) => DeleteNotificationResult::Deleted,
        Err(StoreError::TagNotFound) => DeleteNotificationResult::TagDoesNotExist,
        Err(StoreError::IdNotFound) => DeleteNotificationResult::IdDoesNotExist,
    }
}

} // verus!
