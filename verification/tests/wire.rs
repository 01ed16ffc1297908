use notifier::wire::{
    CreateNotificationResult, DeleteNotificationResult, NotificationContent,
};
use std::borrow::Borrow;
use std::collections::hash_map::DefaultHasher;
use std::collections::HashSet;
use std::hash::{Hash, Hasher};

fn note(id: usize, content: &str) -> NotificationContent {
    NotificationContent { id, content: content.to_string() }
}

fn hash_of<T: Hash>(value: &T) -> u64 {
    let mut hasher = DefaultHasher::new();
    value.hash(&mut hasher);
    hasher.finish()
}

#[test]
fn a_notification_is_its_id() {
    assert!(note(3, "a") == note(3, "b"));
    assert!(note(3, "a") == note(3, "a"));
    assert!(note(3, "a") != note(4, "a"));
    assert!(note(0, "") != note(1, ""));
}

#[test]
fn equal_notifications_hash_alike() {
    assert_eq!(hash_of(&note(3, "a")), hash_of(&note(3, "b")));
    assert_eq!(hash_of(&note(9, "x")), hash_of(&9usize));
}

#[test]
fn a_notification_borrows_as_its_id() {
    let n = note(12, "text");
    let id: &usize = n.borrow();
    assert_eq!(*id, 12);
}

#[test]
fn a_set_of_notifications_is_keyed_by_id() {
    let mut set: HashSet<NotificationContent> = HashSet::new();
    assert!(set.insert(note(0, "hello")));
    assert!(set.insert(note(1, "world")));
    assert!(!set.insert(note(0, "other")));
    assert_eq!(set.len(), 2);
    assert!(set.contains(&0usize));
    assert!(!set.contains(&2usize));
    assert_eq!(set.get(&0usize).unwrap().content, "hello");
    assert!(set.remove(&0usize));
    assert!(!set.remove(&0usize));
    assert_eq!(set.len(), 1);
}

#[test]
fn a_clone_keeps_id_and_content() {
    let n = note(5, "five");
    let copy = n.clone();
    assert_eq!(copy.id, 5);
    assert_eq!(copy.content, "five");
}

#[test]
fn replies_compare_by_variant_and_payload() {
    assert_eq!(CreateNotificationResult::Created(1), CreateNotificationResult::Created(1));
    assert_ne!(CreateNotificationResult::Created(1), CreateNotificationResult::Created(2));
    assert_ne!(CreateNotificationResult::Created(0), CreateNotificationResult::Failed);
    assert_ne!(DeleteNotificationResult::Deleted, DeleteNotificationResult::IdDoesNotExist);
    assert_ne!(
        DeleteNotificationResult::TagDoesNotExist,
        DeleteNotificationResult::IdDoesNotExist
    );
}
