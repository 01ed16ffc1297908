//! Histories: what a store is after a sequence of requests.
//!
//! Every request is one step of the model. A run of the store is a sequence
//! of such steps, in the order in which the store served them.

use crate::model::{StoreError, StoreModel};
use vstd::prelude::*;

verus! {

/// One request to the store.
pub enum Operation {
    /// Store `content` under `tag`.
    Create { tag: Seq<char>, content: Seq<char> },
    /// Read the live notifications of `tag`.
    Get { tag: Seq<char> },
    /// Remove the notification `id` from `tag`.
    Delete { tag: Seq<char>, id: nat },
}

/// What the store answers to a request.
pub enum Answer {
    /// The new notification got this id.
    Created { id: nat },
    /// The live notifications of the tag, from id to content.
    Listed { live: Map<nat, Seq<char>> },
    /// The notification was removed.
    Deleted,
    /// The request was turned down.
    Refused { error: StoreError },
}

impl Operation {
    /// Whether the request stores a notification under `tag`.
    pub open spec fn creates_under(self, tag: Seq<char>) -> bool {
        self matches Operation::Create { tag: under, .. } && under == tag
    }
}

impl StoreModel {
    /// The store after it served `request`.
    pub open spec fn apply(self, request: Operation) -> StoreModel {
        match request {
            Operation::Create { tag, content } => self.create(tag, content),
            Operation::Get { tag } => self,
            Operation::Delete { tag, id } => self.delete(tag, id),
        }
    }

    /// What the store answers to `request`.
    pub open spec fn answer(self, request: Operation) -> Answer {
        match request {
            Operation::Create { tag, content } => Answer::Created { id: self.next_id(tag) },
            Operation::Get { tag } => if self.has_tag(tag) {
                Answer::Listed { live: self.tags[tag].live }
            } else {
                Answer::Refused { error: StoreError::TagNotFound }
            },
            Operation::Delete { tag, id } => match self.delete_result(tag, id) {
                Ok(_) => Answer::Deleted,
                Err(error) => Answer::Refused { error },
            },
        }
    }

    /// The store after it served `requests`, one after the other.
    pub open spec fn after(self, requests: Seq<Operation>) -> StoreModel
        decreases requests.len(),
    {
        if requests.len() == 0 {
            self
        } else {
            self.after(requests.drop_last()).apply(requests.last())
        }
    }
}

/// How many of `requests` store a notification under `tag`.
pub open spec fn creates_under(requests: Seq<Operation>, tag: Seq<char>) -> nat
    decreases requests.len(),
{
    if requests.len() == 0 {
        0
    } else {
        let before = creates_under(requests.drop_last(), tag);
        if requests.last().creates_under(tag) {
            before + 1
        } else {
            before
        }
    }
}

} // verus!
