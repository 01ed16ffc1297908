//! The notification store as mathematics.
//!
//! A store maps each tag that was ever written to the state of that tag: the
//! id that its next notification gets, and its live notifications from id to
//! content. The executable store is specified against these values.

use crate::wire::{Notification, NotificationContent};
use vstd::prelude::*;

verus! {

/// What the store keeps for one tag.
pub struct TagModel {
    /// The id that the next notification under the tag gets.
    pub next_id: nat,
    /// The live notifications, from id to content.
    pub live: Map<nat, Seq<char>>,
}

impl TagModel {
    /// A tag that nothing was written to yet.
    pub open spec fn fresh() -> TagModel {
        TagModel { next_id: 0, live: Map::empty() }
    }

    /// Finitely many notifications are live, and every live id was handed
    /// out before.
    pub open spec fn valid(self) -> bool {
        &&& self.live.dom().finite()
        &&& forall|id: nat| self.live.contains_key(id) ==> id < self.next_id
    }

    /// The tag after `content` was stored under the id `self.next_id`.
    pub open spec fn create(self, content: Seq<char>) -> TagModel {
        TagModel { next_id: self.next_id + 1, live: self.live.insert(self.next_id, content) }
    }

    /// The tag after the notification `id` was removed. The counter stays.
    pub open spec fn delete(self, id: nat) -> TagModel {
        TagModel { next_id: self.next_id, live: self.live.remove(id) }
    }
}

/// The mathematical side of a list of stored notifications.
pub open spec fn views(list: Seq<NotificationContent>) -> Seq<Notification> {
    Seq::new(list.len(), |i: int| list[i]@)
}

/// `entries` lists the notifications of `live`: every live notification,
/// with its content, once, by increasing id.
pub open spec fn lists(entries: Seq<Notification>, live: Map<nat, Seq<char>>) -> bool {
    &&& forall|i: int, j: int| 0 <= i < j < entries.len() ==> entries[i].id < entries[j].id
    &&& forall|i: int|
        0 <= i < entries.len() ==> live.contains_key(#[trigger] entries[i].id)
            && live[entries[i].id] == entries[i].content
    &&& forall|id: nat| #[trigger]
        live.contains_key(id) ==> exists|i: int| 0 <= i < entries.len() && entries[i].id == id
}

/// A listing stays one when a notification with an id above all others is
/// appended and made live.
pub proof fn lemma_lists_push(
    entries: Seq<Notification>,
    live: Map<nat, Seq<char>>,
    added: Notification,
)
    requires
        lists(entries, live),
        forall|i: int| 0 <= i < entries.len() ==> (#[trigger] entries[i]).id < added.id,
    ensures
        lists(entries.push(added), live.insert(added.id, added.content)),
{
    let longer = entries.push(added);
    let wider = live.insert(added.id, added.content);
    assert forall|id: nat| #[trigger] wider.contains_key(id) implies exists|i: int|
        0 <= i < longer.len() && longer[i].id == id by {
        if id == added.id {
            assert(longer[entries.len() as int].id == id);
        } else {
            let i = choose|i: int| 0 <= i < entries.len() && entries[i].id == id;
            assert(longer[i].id == id);
        }
    }
}

/// A listing stays one when an entry is taken out and its id is no longer
/// live.
pub proof fn lemma_lists_remove(entries: Seq<Notification>, live: Map<nat, Seq<char>>, at: int)
    requires
        lists(entries, live),
        0 <= at < entries.len(),
    ensures
        lists(entries.remove(at), live.remove(entries[at].id)),
{
    let shorter = entries.remove(at);
    let narrower = live.remove(entries[at].id);
    assert forall|i: int| 0 <= i < shorter.len() implies narrower.contains_key(
        #[trigger] shorter[i].id,
    ) && narrower[shorter[i].id] == shorter[i].content by {
        if i < at {
            assert(shorter[i] == entries[i]);
        } else {
            assert(shorter[i] == entries[i + 1]);
        }
    }
    assert forall|id: nat| #[trigger] narrower.contains_key(id) implies exists|i: int|
        0 <= i < shorter.len() && shorter[i].id == id by {
        let i = choose|i: int| 0 <= i < entries.len() && entries[i].id == id;
        if i < at {
            assert(shorter[i].id == id);
        } else {
            assert(shorter[i - 1].id == id);
        }
    }
}

/// A notification is live exactly if the listing has an entry with its id.
pub proof fn lemma_lists_finds(entries: Seq<Notification>, live: Map<nat, Seq<char>>, id: nat)
    requires
        lists(entries, live),
    ensures
        live.contains_key(id) <==> exists|i: int| 0 <= i < entries.len() && entries[i].id == id,
{
    if exists|i: int| 0 <= i < entries.len() && entries[i].id == id {
        let i = choose|i: int| 0 <= i < entries.len() && entries[i].id == id;
        assert(live.contains_key(entries[i].id));
    }
}

/// Why the store turned a request down.
#[derive(Debug, Clone, Copy, PartialEq, Eq, Structural)]
pub enum StoreError {
    /// Nothing was ever stored under the tag.
    TagNotFound,
    /// The tag holds no live notification with that id.
    IdNotFound,
}

/// The whole store: the state of every tag that was ever written to.
pub struct StoreModel {
    pub tags: Map<Seq<char>, TagModel>,
}

impl StoreModel {
    /// The store at start: no tag.
    pub open spec fn empty() -> StoreModel {
        StoreModel { tags: Map::empty() }
    }

    /// Whether anything was ever stored under `tag`.
    pub open spec fn has_tag(self, tag: Seq<char>) -> bool {
        self.tags.contains_key(tag)
    }

    /// The state of `tag`; that of a fresh tag where nothing was stored yet.
    pub open spec fn state_of(self, tag: Seq<char>) -> TagModel {
        if self.has_tag(tag) {
            self.tags[tag]
        } else {
            TagModel::fresh()
        }
    }

    /// The id that the next notification under `tag` gets.
    pub open spec fn next_id(self, tag: Seq<char>) -> nat {
        self.state_of(tag).next_id
    }

    /// Whether `tag` holds a live notification `id`.
    pub open spec fn is_live(self, tag: Seq<char>, id: nat) -> bool {
        self.has_tag(tag) && self.tags[tag].live.contains_key(id)
    }

    /// Finitely many tags, each of them valid.
    pub open spec fn valid(self) -> bool {
        &&& self.tags.dom().finite()
        &&& forall|tag: Seq<char>| #[trigger] self.has_tag(tag) ==> self.tags[tag].valid()
    }

    /// The store after `content` was stored under `tag`. The tag comes into
    /// being with its first notification.
    pub open spec fn create(self, tag: Seq<char>, content: Seq<char>) -> StoreModel {
        StoreModel { tags: self.tags.insert(tag, self.state_of(tag).create(content)) }
    }

    /// What a request to delete `id` from `tag` is answered with.
    pub open spec fn delete_result(self, tag: Seq<char>, id: nat) -> Result<(), StoreError> {
        if !self.has_tag(tag) {
            Err(StoreError::TagNotFound)
        } else if !self.tags[tag].live.contains_key(id) {
            Err(StoreError::IdNotFound)
        } else {
            Ok(())
        }
    }

    /// The store after a request to delete `id` from `tag`: without that
    /// notification where it was live, unchanged where the request fails.
    pub open spec fn delete(self, tag: Seq<char>, id: nat) -> StoreModel {
        if self.is_live(tag, id) {
            StoreModel { tags: self.tags.insert(tag, self.tags[tag].delete(id)) }
        } else {
            self
        }
    }
}

} // verus!
