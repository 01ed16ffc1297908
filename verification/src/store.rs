//! The executable store.
//!
//! [`TagState`] keeps the notifications of one tag, [`TagStore`] the states of
//! all tags. Every operation takes the store by `&mut` or `&`, so it sees and
//! leaves a whole state: what it does is stated as one step of the model.

use crate::model::{
    lemma_lists_finds, lemma_lists_push, lemma_lists_remove, lists, views, StoreError, StoreModel,
    TagModel,
};
use crate::wire::{Notification, NotificationContent};
use vstd::hash_map::StringHashMap;
use vstd::prelude::*;

verus! {

/// The notifications of one tag, in the order in which they were created.
pub struct TagState {
    next_id: usize,
    notifications: Vec<NotificationContent>,
    live: Ghost<Map<nat, Seq<char>>>,
}

impl View for TagState {
    type V = TagModel;

    closed spec fn view(&self) -> TagModel {
        TagModel { next_id: self.next_id as nat, live: self.live@ }
    }
}

impl TagState {
    /// The list holds the live notifications by increasing id, all of them
    /// below the counter.
    #[verifier::type_invariant]
    spec fn wf(&self) -> bool {
        &&& self.live@.dom().finite()
        &&& lists(views(self.notifications@), self.live@)
        &&& forall|i: int|
            0 <= i < self.notifications.len() ==> (#[trigger] self.notifications[i]).id
                < self.next_id
    }

    /// A tag that nothing was written to yet.
    pub fn new() -> (state: TagState)
        ensures
            state@ == TagModel::fresh(),
            state@.valid(),
    {
        TagState { next_id: 0, notifications: Vec::new(), live: Ghost(Map::empty()) }
    }

    /// The id that the next notification gets.
    pub fn next_id(&self) -> (id: usize)
        ensures
            id == self@.next_id,
    {
        self.next_id
    }

    /// The live notifications, by increasing id. The list is a copy: what
    /// happens to the tag later does not change it.
    pub fn list(&self) -> (list: Vec<NotificationContent>)
        ensures
            lists(views(list@), self@.live),
    {
        proof {
            use_type_invariant(self);
        }
        let list = self.notifications.clone();
        assert(views(list@) =~= views(self.notifications@));
        list
    }

    /// Stores `content` as a new notification and returns its id.
    pub fn create(&mut self, content: String) -> (id: usize)
        requires
            old(self)@.next_id < usize::MAX,
        ensures
            final(self)@ == old(self)@.create(content@),
            final(self)@.valid(),
            id == old(self)@.next_id,
    {
        let TagState { next_id: id, mut notifications, live } = self.take();
        let ghost text = content@;
        notifications.push(NotificationContent { id, content });
        proof {
            let before = views(old(self).notifications@);
            let added = Notification { id: id as nat, content: text };
            assert(views(notifications@) =~= before.push(added));
            assert forall|i: int| 0 <= i < before.len() implies (#[trigger] before[i]).id
                < added.id by {
                assert(before[i] == old(self).notifications[i]@);
            }
            lemma_lists_push(before, live@, added);
        }
        *self = TagState {
            next_id: id + 1,
            notifications,
            live: Ghost(live@.insert(id as nat, text)),
        };
        id
    }

    /// Removes the notification `id` and says whether there was one. The
    /// counter stays, so the id is not given out again.
    pub fn delete(&mut self, id: usize) -> (removed: bool)
        ensures
            removed == old(self)@.live.contains_key(id as nat),
            final(self)@ == old(self)@.delete(id as nat),
            final(self)@.valid(),
    {
        match self.position(id) {
            None => {
                proof {
                    use_type_invariant(&*self);
                    assert(self.live@.remove(id as nat) =~= self.live@);
                }
                false
            },
            Some(at) => {
                let TagState { next_id, mut notifications, live } = self.take();
                let ghost before = views(notifications@);
                notifications.remove(at);
                proof {
                    assert(views(notifications@) =~= before.remove(at as int));
                    lemma_lists_remove(before, live@, at as int);
                }
                *self = TagState { next_id, notifications, live: Ghost(live@.remove(id as nat)) };
                true
            },
        }
    }

    /// Where in the list the notification `id` stands, if it is live.
    fn position(&self, id: usize) -> (found: Option<usize>)
        ensures
            found is Some <==> self@.live.contains_key(id as nat),
            found matches Some(at) ==> at < self.notifications.len()
                && self.notifications[at as int].id == id,
    {
        proof {
            use_type_invariant(self);
            lemma_lists_finds(views(self.notifications@), self.live@, id as nat);
        }
        let ghost entries = views(self.notifications@);
        let mut low: usize = 0;
        let mut high: usize = self.notifications.len();
        while low < high
            invariant
                low <= high <= self.notifications.len(),
                entries == views(self.notifications@),
                lists(entries, self.live@),
                forall|i: int| 0 <= i < low ==> (#[trigger] entries[i]).id < id,
                forall|i: int| high <= i < entries.len() ==> (#[trigger] entries[i]).id > id,
            decreases high - low,
        {
            let middle = low + (high - low) / 2;
            let here = self.notifications[middle].id;
            assert(entries[middle as int].id == here);
            if here == id {
                return Some(middle);
            }
            if here < id {
                low = middle + 1;
            } else {
                high = middle;
            }
        }
        None
    }

    /// A well-formed state stands for a valid model.
    proof fn lemma_wf_valid(&self)
        requires
            self.wf(),
        ensures
            self@.valid(),
    {
        let entries = views(self.notifications@);
        assert forall|id: nat| self.live@.contains_key(id) implies id < self.next_id by {
            let i = choose|i: int| 0 <= i < entries.len() && entries[i].id == id;
            assert(self.notifications[i].id < self.next_id);
        }
    }

    /// Moves the state out and leaves a fresh one in its place, so that an
    /// update can work on the parts and put a whole state back.
    fn take(&mut self) -> (state: TagState)
        ensures
            state == *old(self),
            state.wf(),
    {
        let mut state = TagState::new();
        proof {
            use_type_invariant(&*self);
            use_type_invariant(&state);
        }
        core::mem::swap(self, &mut state);
        state
    }
}

impl Default for TagState {
    fn default() -> (state: TagState)
        ensures
            state@ == TagModel::fresh(),
    {
        TagState::new()
    }
}

/// The states of all tags.
///
/// A tag comes into being with its first notification and stays for good,
/// so each tag owns one slot of `states` for ever, and `index` finds it.
pub struct TagStore {
    index: StringHashMap<usize>,
    states: Vec<TagState>,
}

impl View for TagStore {
    type V = StoreModel;

    closed spec fn view(&self) -> StoreModel {
        StoreModel {
            tags: Map::new(
                |tag: Seq<char>| self.index@.contains_key(tag),
                |tag: Seq<char>| self.states[self.index@[tag] as int]@,
            ),
        }
    }
}

impl TagStore {
    /// Every tag has a slot, no two tags share one, and every slot is well
    /// formed.
    #[verifier::type_invariant]
    spec fn wf(&self) -> bool {
        &&& self.index@.dom().finite()
        &&& forall|tag: Seq<char>| #[trigger]
            self.index@.contains_key(tag) ==> self.index@[tag] < self.states.len()
        &&& forall|a: Seq<char>, b: Seq<char>|
            #![trigger self.index@[a], self.index@[b]]
            self.index@.contains_key(a) && self.index@.contains_key(b) && self.index@[a]
                == self.index@[b] ==> a == b
        &&& forall|i: int| 0 <= i < self.states.len() ==> (#[trigger] self.states[i]).wf()
    }

    /// A store without tags.
    pub fn new() -> (store: TagStore)
        ensures
            store@ == StoreModel::empty(),
            store@.valid(),
    {
        let store = TagStore { index: StringHashMap::new(), states: Vec::new() };
        assert(store@.tags =~= StoreModel::empty().tags);
        store
    }

    /// Whether anything was ever stored under `tag`.
    pub fn has_tag(&self, tag: &str) -> (known: bool)
        ensures
            known == self@.has_tag(tag@),
    {
        self.index.contains_key(tag)
    }

    /// The id that the next notification under `tag` gets.
    pub fn next_id(&self, tag: &str) -> (id: usize)
        ensures
            id == self@.next_id(tag@),
    {
        proof {
            use_type_invariant(self);
        }
        match self.index.get(tag) {
            Some(slot) => self.states[*slot].next_id(),
            None => 0,
        }
    }

    /// Stores `content` as a new notification under `tag` and returns its
    /// id. A tag that was not there before comes into being.
    pub fn create(&mut self, tag: String, content: String) -> (id: usize)
        requires
            old(self)@.next_id(tag@) < usize::MAX,
        ensures
            final(self)@ == old(self)@.create(tag@, content@),
            final(self)@.valid(),
            id == old(self)@.next_id(tag@),
    {
        let TagStore { mut index, mut states } = self.take();
        let known = match index.get(tag.as_str()) {
            Some(slot) => Some(*slot),
            None => None,
        };
        let id = match known {
            Some(slot) => {
                let state = &mut states[slot];
                let id = state.create(content);
                proof {
                    use_type_invariant(&*state);
                }
                id
            },
            None => {
                let mut state = TagState::new();
                let id = state.create(content);
                proof {
                    use_type_invariant(&state);
                }
                let slot = states.len();
                states.push(state);
                index.insert(tag, slot);
                id
            },
        };
        *self = TagStore { index, states };
        proof {
            use_type_invariant(&*self);
            self.lemma_wf_valid();
            assert(self@.tags =~= old(self)@.create(tag@, content@).tags);
        }
        id
    }

    /// Every live notification under `tag`, by increasing id. The list is a
    /// copy: later changes to the store do not reach it.
    pub fn get(&self, tag: &str) -> (result: Result<Vec<NotificationContent>, StoreError>)
        ensures
            match result {
                Ok(list) => self@.has_tag(tag@) && lists(views(list@), self@.tags[tag@].live),
                Err(error) => error == StoreError::TagNotFound && !self@.has_tag(tag@),
            },
    {
        proof {
            use_type_invariant(self);
        }
        match self.index.get(tag) {
            Some(slot) => Ok(self.states[*slot].list()),
            None => Err(StoreError::TagNotFound),
        }
    }

    /// Removes the notification `id` from `tag`. The tag stays, also when
    /// its last notification goes, and so does its counter.
    pub fn delete(&mut self, tag: &str, id: usize) -> (result: Result<(), StoreError>)
        ensures
            result == old(self)@.delete_result(tag@, id as nat),
            final(self)@ == old(self)@.delete(tag@, id as nat),
            final(self)@.valid(),
    {
        let slot = match self.index.get(tag) {
            Some(slot) => *slot,
            None => {
                proof {
                    use_type_invariant(&*self);
                    self.lemma_wf_valid();
                }
                return Err(StoreError::TagNotFound);
            },
        };
        let TagStore { index, mut states } = self.take();
        let ghost before = states[slot as int]@;
        let state = &mut states[slot];
        let removed = state.delete(id);
        proof {
            use_type_invariant(&*state);
            if !removed {
                assert(before.live.remove(id as nat) =~= before.live);
            }
        }
        *self = TagStore { index, states };
        proof {
            use_type_invariant(&*self);
            self.lemma_wf_valid();
            assert(self@.tags =~= old(self)@.delete(tag@, id as nat).tags);
        }
        if removed {
            Ok(())
        } else {
            Err(StoreError::IdNotFound)
        }
    }

    /// A well-formed store stands for a valid model.
    proof fn lemma_wf_valid(&self)
        requires
            self.wf(),
        ensures
            self@.valid(),
    {
        assert(self@.tags.dom() =~= self.index@.dom());
        assert forall|tag: Seq<char>| #[trigger] self@.has_tag(tag) implies self@.tags[tag].valid() by {
            self.states[self.index@[tag] as int].lemma_wf_valid();
        }
    }

    /// Moves the store out and leaves an empty one in its place, so that an
    /// update can work on the parts and put a whole store back.
    fn take(&mut self) -> (store: TagStore)
        ensures
            store == *old(self),
            store.wf(),
    {
        let mut store = TagStore::new();
        proof {
            use_type_invariant(&*self);
            use_type_invariant(&store);
        }
        core::mem::swap(self, &mut store);
        store
    }
}

impl Default for TagStore {
    fn default() -> (store: TagStore)
        ensures
            store@ == StoreModel::empty(),
    {
        TagStore::new()
    }
}

} // verus!
