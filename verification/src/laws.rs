//! What holds of every store and every history.
//!
//! The executable store is specified by the steps of the model, so each of
//! these statements holds of it on every run.

use crate::history::{creates_under, Answer, Operation};
use crate::model::{lists, StoreError, StoreModel, TagModel};
use crate::wire::Notification;
use vstd::prelude::*;

verus! {

/// The empty store is valid.
pub proof fn law_empty_is_valid()
    ensures
        StoreModel::empty().valid(),
{
}

/// No request takes a store out of the valid ones.
pub proof fn law_requests_keep_valid(store: StoreModel, request: Operation)
    requires
        store.valid(),
    ensures
        store.apply(request).valid(),
{
    match request {
        Operation::Create { tag, content } => {
            let next = store.create(tag, content);
            if store.has_tag(tag) {
                assert(store.tags[tag].valid());
            }
            assert(next.tags[tag].valid());
            assert(next.tags.dom() =~= store.tags.dom().insert(tag));
            assert forall|other: Seq<char>| #[trigger] next.has_tag(other) implies next.tags[other].valid() by {
                if other != tag {
                    assert(store.has_tag(other));
                }
            }
        },
        Operation::Get { tag } => {},
        Operation::Delete { tag, id } => {
            if store.is_live(tag, id) {
                let next = store.delete(tag, id);
                assert(store.has_tag(tag));
                assert(next.tags[tag].valid());
                assert(next.tags.dom() =~= store.tags.dom());
                assert forall|other: Seq<char>| #[trigger] next.has_tag(other) implies next.tags[other].valid() by {
                    assert(store.has_tag(other));
                }
            }
        },
    }
}

/// In a valid store the id that the next notification of a tag gets is not
/// live, and lies above every live id of the tag.
pub proof fn law_next_id_is_unused(store: StoreModel, tag: Seq<char>)
    requires
        store.valid(),
    ensures
        !store.is_live(tag, store.next_id(tag)),
        forall|id: nat| store.is_live(tag, id) ==> id < store.next_id(tag),
{
    if store.has_tag(tag) {
        assert(store.tags[tag].valid());
    }
}

/// Ids count the creates. After any history, whatever it deleted or read in
/// between, the next id of a tag is the one it had at the start plus the
/// number of notifications that the history stored under the tag.
pub proof fn law_ids_count_creates(start: StoreModel, requests: Seq<Operation>, tag: Seq<char>)
    ensures
        start.after(requests).next_id(tag) == start.next_id(tag) + creates_under(requests, tag),
    decreases requests.len(),
{
    if requests.len() > 0 {
        law_ids_count_creates(start, requests.drop_last(), tag);
    }
}

/// From the empty store the first notification of every tag gets the id 0,
/// and each further one the number of those that the tag got before.
pub proof fn law_ids_start_at_zero(requests: Seq<Operation>, tag: Seq<char>)
    ensures
        StoreModel::empty().next_id(tag) == 0,
        StoreModel::empty().after(requests).next_id(tag) == creates_under(requests, tag),
{
    law_ids_count_creates(StoreModel::empty(), requests, tag);
}

/// A longer history has stored at least as many notifications under a tag
/// as each of its beginnings.
pub proof fn law_creates_grow(requests: Seq<Operation>, upto: int, tag: Seq<char>)
    requires
        0 <= upto <= requests.len(),
    ensures
        creates_under(requests.take(upto), tag) <= creates_under(requests, tag),
    decreases requests.len(),
{
    if upto == requests.len() {
        assert(requests.take(upto) =~= requests);
    } else {
        assert(requests.drop_last().take(upto) =~= requests.take(upto));
        law_creates_grow(requests.drop_last(), upto, tag);
    }
}

/// Ids rise strictly. Of two creates under one tag in a history, the later
/// one gets the greater id, whatever was deleted in between: no id is given
/// out twice.
pub proof fn law_ids_rise_strictly(
    start: StoreModel,
    requests: Seq<Operation>,
    earlier: int,
    later: int,
    tag: Seq<char>,
)
    requires
        0 <= earlier < later < requests.len(),
        requests[earlier].creates_under(tag),
        requests[later].creates_under(tag),
    ensures
        start.after(requests.take(earlier)).answer(requests[earlier]) matches Answer::Created {
            id: first,
        } && start.after(requests.take(later)).answer(requests[later]) matches Answer::Created {
            id: second,
        } && first < second,
{
    law_ids_count_creates(start, requests.take(earlier), tag);
    law_ids_count_creates(start, requests.take(later), tag);
    let upto = requests.take(later);
    assert(upto.take(earlier + 1) =~= requests.take(earlier + 1));
    law_creates_grow(upto, earlier + 1, tag);
    assert(requests.take(earlier + 1).drop_last() =~= requests.take(earlier));
    assert(requests.take(earlier + 1).last() == requests[earlier]);
}

/// A create brings its tag into being.
pub proof fn law_create_makes_tag(store: StoreModel, tag: Seq<char>, content: Seq<char>)
    ensures
        store.create(tag, content).has_tag(tag),
{
}

/// No request removes a tag.
pub proof fn law_requests_keep_tags(store: StoreModel, request: Operation, tag: Seq<char>)
    requires
        store.has_tag(tag),
    ensures
        store.apply(request).has_tag(tag),
{
}

/// Tags are immortal. Once a history has stored a notification under a tag,
/// the tag is there after every continuation, also when all its
/// notifications were deleted: reading it is never refused.
pub proof fn law_tags_are_immortal(
    start: StoreModel,
    requests: Seq<Operation>,
    at: int,
    tag: Seq<char>,
)
    requires
        0 <= at < requests.len(),
        requests[at].creates_under(tag),
    ensures
        start.after(requests).has_tag(tag),
        start.after(requests).answer(Operation::Get { tag }) is Listed,
    decreases requests.len(),
{
    let before = start.after(requests.drop_last());
    if at == requests.len() - 1 {
        assert(requests.last() == requests[at]);
    } else {
        assert(requests.drop_last()[at] == requests[at]);
        law_tags_are_immortal(start, requests.drop_last(), at, tag);
        law_requests_keep_tags(before, requests.last(), tag);
    }
}

/// A delete succeeds once. Where deleting a notification succeeded, deleting
/// it again is refused for the id, and changes nothing.
pub proof fn law_second_delete_fails(store: StoreModel, tag: Seq<char>, id: nat)
    requires
        store.delete_result(tag, id) is Ok,
    ensures
        store.delete(tag, id).delete_result(tag, id) == Err::<(), StoreError>(
            StoreError::IdNotFound,
        ),
        store.delete(tag, id).delete(tag, id) == store.delete(tag, id),
{
}

/// A refused delete changes nothing, so asking again is refused the same way.
pub proof fn law_refused_delete_repeats(store: StoreModel, tag: Seq<char>, id: nat)
    requires
        store.delete_result(tag, id) is Err,
    ensures
        store.delete(tag, id) == store,
{
}

/// Tags are isolated. A create or a delete under one tag leaves every other
/// tag as it was: whether it is there, its counter and its notifications.
pub proof fn law_other_tags_untouched(store: StoreModel, request: Operation, other: Seq<char>)
    requires
        match request {
            Operation::Create { tag, .. } => tag != other,
            Operation::Get { .. } => true,
            Operation::Delete { tag, .. } => tag != other,
        },
    ensures
        store.apply(request).has_tag(other) == store.has_tag(other),
        store.apply(request).state_of(other) == store.state_of(other),
{
}

/// The requests that store `contents`, one after the other, under `tag`.
pub open spec fn creates_of(tag: Seq<char>, contents: Seq<Seq<char>>) -> Seq<Operation> {
    Seq::new(contents.len(), |i: int| Operation::Create { tag, content: contents[i] })
}

/// Creates on a fresh tag get the ids 0, 1, 2 and so on. In whatever order
/// the store serves N creates on a tag that was not there, the i-th served
/// gets the id i, and afterwards exactly the ids below N are live, each with
/// the content that came with it: no id is missing and none is given twice.
pub proof fn law_fresh_tag_ids_are_dense(
    start: StoreModel,
    tag: Seq<char>,
    contents: Seq<Seq<char>>,
)
    requires
        !start.has_tag(tag),
    ensures
        forall|i: int|
            0 <= i < contents.len() ==> #[trigger] start.after(
                creates_of(tag, contents).take(i),
            ).next_id(tag) == i,
        start.after(creates_of(tag, contents)).state_of(tag).live.dom() =~= Set::new(
            |id: nat| id < contents.len(),
        ),
        forall|id: nat|
            id < contents.len() ==> #[trigger] start.after(creates_of(tag, contents)).state_of(
                tag,
            ).live[id] == contents[id as int],
    decreases contents.len(),
{
    let requests = creates_of(tag, contents);
    assert forall|i: int| 0 <= i < contents.len() implies #[trigger] start.after(
        requests.take(i),
    ).next_id(tag) == i by {
        lemma_count_creates_of(tag, contents.take(i));
        assert(requests.take(i) =~= creates_of(tag, contents.take(i)));
        law_ids_count_creates(start, requests.take(i), tag);
    }
    if contents.len() > 0 {
        let shorter = contents.drop_last();
        law_fresh_tag_ids_are_dense(start, tag, shorter);
        assert(requests.drop_last() =~= creates_of(tag, shorter));
        lemma_count_creates_of(tag, shorter);
        law_ids_count_creates(start, requests.drop_last(), tag);
        let before = start.after(requests.drop_last());
        let end = start.after(requests);
        assert(end == before.create(tag, contents.last()));
        assert(before.next_id(tag) == shorter.len());
        assert(end.state_of(tag).live =~= before.state_of(tag).live.insert(
            shorter.len(),
            contents.last(),
        ));
    }
}

/// Every request of `creates_of` counts as a create under its tag.
proof fn lemma_count_creates_of(tag: Seq<char>, contents: Seq<Seq<char>>)
    ensures
        creates_under(creates_of(tag, contents), tag) == contents.len(),
    decreases contents.len(),
{
    if contents.len() > 0 {
        assert(creates_of(tag, contents).drop_last() =~= creates_of(tag, contents.drop_last()));
        lemma_count_creates_of(tag, contents.drop_last());
    }
}

/// A map has one listing only.
pub proof fn law_listing_is_unique(
    one: Seq<Notification>,
    other: Seq<Notification>,
    live: Map<nat, Seq<char>>,
)
    requires
        lists(one, live),
        lists(other, live),
    ensures
        one == other,
    decreases one.len(),
{
    if one.len() == 0 {
        if other.len() > 0 {
            assert(live.contains_key(other[0].id));
        }
    } else {
        let top = one.last();
        assert(live.contains_key(top.id));
        let at = choose|i: int| 0 <= i < other.len() && other[i].id == top.id;
        if at != other.len() - 1 {
            let above = other.last();
            assert(live.contains_key(above.id));
            let back = choose|i: int| 0 <= i < one.len() && one[i].id == above.id;
            assert(one[back].id <= top.id);
            assert(other[at].id < above.id);
        }
        crate::model::lemma_lists_remove(one, live, one.len() - 1);
        crate::model::lemma_lists_remove(other, live, other.len() - 1);
        assert(one.remove(one.len() - 1) =~= one.drop_last());
        assert(other.remove(other.len() - 1) =~= other.drop_last());
        law_listing_is_unique(one.drop_last(), other.drop_last(), live.remove(top.id));
        assert(one =~= one.drop_last().push(top));
        assert(other =~= other.drop_last().push(other.last()));
    }
}

/// A listing is as long as the map has notifications.
pub proof fn law_listing_length(entries: Seq<Notification>, live: Map<nat, Seq<char>>)
    requires
        lists(entries, live),
    ensures
        live.dom().finite(),
        entries.len() == live.dom().len(),
    decreases entries.len(),
{
    if entries.len() == 0 {
        assert(live.dom() =~= Set::empty());
    } else {
        let top = entries.last();
        assert(live.contains_key(top.id));
        crate::model::lemma_lists_remove(entries, live, entries.len() - 1);
        assert(entries.remove(entries.len() - 1) =~= entries.drop_last());
        law_listing_length(entries.drop_last(), live.remove(top.id));
        assert(live.dom() =~= live.remove(top.id).dom().insert(top.id));
    }
}

/// A fresh tag is valid and has nothing to list.
pub proof fn law_fresh_tag_is_empty()
    ensures
        TagModel::fresh().valid(),
        lists(Seq::empty(), TagModel::fresh().live),
{
}

} // verus!
