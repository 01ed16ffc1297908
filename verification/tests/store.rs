use notifier::model::StoreError;
use notifier::store::{TagState, TagStore};
use notifier::wire::NotificationContent;

fn pairs(list: &[NotificationContent]) -> Vec<(usize, String)> {
    list.iter().map(|n| (n.id, n.content.clone())).collect()
}

fn text(s: &str) -> String {
    String::from(s)
}

#[test]
fn create_get_delete_scenario() {
    let mut store = TagStore::new();
    assert_eq!(store.create(text("x"), text("hello")), 0);
    assert_eq!(store.create(text("x"), text("world")), 1);

    let both = store.get("x").unwrap();
    assert_eq!(both.len(), 2);
    assert_eq!(pairs(&both), vec![(0, text("hello")), (1, text("world"))]);

    assert_eq!(store.delete("x", 0), Ok(()));
    let one = store.get("x").unwrap();
    assert_eq!(pairs(&one), vec![(1, text("world"))]);

    assert_eq!(store.delete("x", 0), Err(StoreError::IdNotFound));
    assert_eq!(store.get("y").unwrap_err(), StoreError::TagNotFound);
}

#[test]
fn new_store_has_no_tags() {
    let store = TagStore::new();
    assert!(!store.has_tag("x"));
    assert!(!store.has_tag(""));
    assert_eq!(store.next_id("x"), 0);
    assert_eq!(store.get("x").unwrap_err(), StoreError::TagNotFound);
}

#[test]
fn default_store_is_empty() {
    let mut store = TagStore::default();
    assert!(!store.has_tag("x"));
    assert_eq!(store.delete("x", 0), Err(StoreError::TagNotFound));
    assert_eq!(store.create(text("x"), text("a")), 0);
}

#[test]
fn ids_rise_from_zero() {
    let mut store = TagStore::new();
    for expected in 0..50usize {
        assert_eq!(store.next_id("tag"), expected);
        assert_eq!(store.create(text("tag"), format!("n{}", expected)), expected);
    }
    assert_eq!(store.next_id("tag"), 50);
}

#[test]
fn deleted_ids_are_not_given_again() {
    let mut store = TagStore::new();
    assert_eq!(store.create(text("t"), text("a")), 0);
    assert_eq!(store.create(text("t"), text("b")), 1);
    assert_eq!(store.delete("t", 1), Ok(()));
    assert_eq!(store.create(text("t"), text("c")), 2);
    assert_eq!(store.delete("t", 0), Ok(()));
    assert_eq!(store.delete("t", 2), Ok(()));
    assert_eq!(store.create(text("t"), text("d")), 3);
    assert_eq!(pairs(&store.get("t").unwrap()), vec![(3, text("d"))]);
}

#[test]
fn tag_stays_when_its_last_notification_goes() {
    let mut store = TagStore::new();
    assert_eq!(store.create(text("t"), text("only")), 0);
    assert_eq!(store.delete("t", 0), Ok(()));
    assert!(store.has_tag("t"));
    let list = store.get("t").unwrap();
    assert!(list.is_empty());
    assert_eq!(store.delete("t", 0), Err(StoreError::IdNotFound));
    assert_eq!(store.next_id("t"), 1);
    assert_eq!(store.create(text("t"), text("next")), 1);
}

#[test]
fn a_delete_succeeds_once() {
    let mut store = TagStore::new();
    store.create(text("t"), text("a"));
    store.create(text("t"), text("b"));
    assert_eq!(store.delete("t", 1), Ok(()));
    assert_eq!(store.delete("t", 1), Err(StoreError::IdNotFound));
    assert_eq!(store.delete("t", 1), Err(StoreError::IdNotFound));
    assert_eq!(pairs(&store.get("t").unwrap()), vec![(0, text("a"))]);
}

#[test]
fn delete_of_an_id_never_given_is_refused() {
    let mut store = TagStore::new();
    store.create(text("t"), text("a"));
    assert_eq!(store.delete("t", 1), Err(StoreError::IdNotFound));
    assert_eq!(store.delete("t", usize::MAX), Err(StoreError::IdNotFound));
    assert_eq!(pairs(&store.get("t").unwrap()), vec![(0, text("a"))]);
}

#[test]
fn delete_under_an_unknown_tag_is_refused() {
    let mut store = TagStore::new();
    store.create(text("t"), text("a"));
    assert_eq!(store.delete("u", 0), Err(StoreError::TagNotFound));
    assert!(!store.has_tag("u"));
    assert_eq!(pairs(&store.get("t").unwrap()), vec![(0, text("a"))]);
}

#[test]
fn tags_do_not_touch_each_other() {
    let mut store = TagStore::new();
    assert_eq!(store.create(text("a"), text("a0")), 0);
    assert_eq!(store.create(text("b"), text("b0")), 0);
    assert_eq!(store.create(text("a"), text("a1")), 1);
    assert_eq!(store.create(text("a"), text("a2")), 2);
    assert_eq!(store.next_id("b"), 1);
    assert_eq!(pairs(&store.get("b").unwrap()), vec![(0, text("b0"))]);

    assert_eq!(store.delete("a", 0), Ok(()));
    assert_eq!(pairs(&store.get("b").unwrap()), vec![(0, text("b0"))]);
    assert_eq!(store.delete("b", 0), Ok(()));
    assert_eq!(pairs(&store.get("a").unwrap()), vec![(1, text("a1")), (2, text("a2"))]);
    assert_eq!(store.next_id("a"), 3);
    assert_eq!(store.next_id("b"), 1);
}

#[test]
fn creates_on_a_fresh_tag_are_dense() {
    let mut store = TagStore::new();
    store.create(text("other"), text("noise"));
    let mut ids = Vec::new();
    for i in 0..20 {
        ids.push(store.create(text("fresh"), format!("c{}", i)));
    }
    assert_eq!(ids, (0..20).collect::<Vec<usize>>());
    let list = store.get("fresh").unwrap();
    assert_eq!(list.len(), 20);
    for (i, n) in list.iter().enumerate() {
        assert_eq!(n.id, i);
        assert_eq!(n.content, format!("c{}", i));
    }
}

#[test]
fn empty_tag_and_empty_content_are_ordinary() {
    let mut store = TagStore::new();
    assert_eq!(store.create(text(""), text("")), 0);
    assert_eq!(store.create(text(""), text("x")), 1);
    assert!(store.has_tag(""));
    assert!(!store.has_tag(" "));
    assert_eq!(pairs(&store.get("").unwrap()), vec![(0, text("")), (1, text("x"))]);
    assert_eq!(store.delete("", 0), Ok(()));
    assert_eq!(pairs(&store.get("").unwrap()), vec![(1, text("x"))]);
}

#[test]
fn tags_are_told_apart_by_every_character() {
    let mut store = TagStore::new();
    store.create(text("tag"), text("a"));
    store.create(text("Tag"), text("b"));
    store.create(text("tag "), text("c"));
    store.create(text("täg"), text("d"));
    assert_eq!(pairs(&store.get("tag").unwrap()), vec![(0, text("a"))]);
    assert_eq!(pairs(&store.get("Tag").unwrap()), vec![(0, text("b"))]);
    assert_eq!(pairs(&store.get("tag ").unwrap()), vec![(0, text("c"))]);
    assert_eq!(pairs(&store.get("täg").unwrap()), vec![(0, text("d"))]);
    assert_eq!(store.get("ta").unwrap_err(), StoreError::TagNotFound);
}

#[test]
fn same_content_twice_makes_two_notifications() {
    let mut store = TagStore::new();
    assert_eq!(store.create(text("t"), text("same")), 0);
    assert_eq!(store.create(text("t"), text("same")), 1);
    assert_eq!(pairs(&store.get("t").unwrap()), vec![(0, text("same")), (1, text("same"))]);
}

#[test]
fn a_list_is_a_snapshot() {
    let mut store = TagStore::new();
    store.create(text("t"), text("a"));
    store.create(text("t"), text("b"));
    let before = store.get("t").unwrap();
    store.delete("t", 0).unwrap();
    store.create(text("t"), text("c"));
    assert_eq!(pairs(&before), vec![(0, text("a")), (1, text("b"))]);
    assert_eq!(pairs(&store.get("t").unwrap()), vec![(1, text("b")), (2, text("c"))]);
}

#[test]
fn deletes_find_every_position() {
    let mut store = TagStore::new();
    for i in 0..64usize {
        store.create(text("t"), format!("{}", i));
    }
    // Take out every third, from the middle outwards and from both ends.
    let mut expected: Vec<usize> = (0..64).collect();
    for id in [31usize, 0, 63, 32, 1, 62, 15, 47, 16, 48] {
        assert_eq!(store.delete("t", id), Ok(()));
        expected.retain(|e| *e != id);
        let live: Vec<usize> = store.get("t").unwrap().iter().map(|n| n.id).collect();
        assert_eq!(live, expected);
        assert_eq!(store.delete("t", id), Err(StoreError::IdNotFound));
    }
    for n in store.get("t").unwrap() {
        assert_eq!(n.content, format!("{}", n.id));
    }
    assert_eq!(store.next_id("t"), 64);
}

#[test]
fn many_tags_keep_their_own_state() {
    let mut store = TagStore::new();
    for round in 0..3usize {
        for t in 0..40usize {
            let id = store.create(format!("tag{}", t), format!("{}-{}", t, round));
            assert_eq!(id, round);
        }
    }
    for t in (0..40usize).step_by(2) {
        assert_eq!(store.delete(&format!("tag{}", t), 1), Ok(()));
    }
    for t in 0..40usize {
        let live: Vec<usize> = store.get(&format!("tag{}", t)).unwrap().iter().map(|n| n.id).collect();
        if t % 2 == 0 {
            assert_eq!(live, vec![0, 2]);
        } else {
            assert_eq!(live, vec![0, 1, 2]);
        }
        assert_eq!(store.next_id(&format!("tag{}", t)), 3);
    }
    assert!(!store.has_tag("tag40"));
}

#[test]
fn tag_state_counts_and_lists() {
    let mut state = TagState::new();
    assert_eq!(state.next_id(), 0);
    assert!(state.list().is_empty());
    assert_eq!(state.create(text("a")), 0);
    assert_eq!(state.create(text("b")), 1);
    assert_eq!(state.create(text("c")), 2);
    assert_eq!(state.next_id(), 3);
    assert!(state.delete(1));
    assert!(!state.delete(1));
    assert!(!state.delete(3));
    assert_eq!(pairs(&state.list()), vec![(0, text("a")), (2, text("c"))]);
    assert_eq!(state.next_id(), 3);
    assert_eq!(state.create(text("d")), 3);
    assert_eq!(pairs(&state.list()), vec![(0, text("a")), (2, text("c")), (3, text("d"))]);
}

#[test]
fn default_tag_state_is_fresh() {
    let state = TagState::default();
    assert_eq!(state.next_id(), 0);
    assert!(state.list().is_empty());
}
