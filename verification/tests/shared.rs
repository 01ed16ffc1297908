use notifier::store::TagStore;
use std::sync::{Arc, Mutex};

#[test]
fn interleaved_creates_behind_one_lock_are_dense() {
    let store = Arc::new(Mutex::new(TagStore::new()));
    let workers: usize = 8;
    let each: usize = 25;
    let handles: Vec<Arc<Mutex<TagStore>>> = (0..workers).map(|_| Arc::clone(&store)).collect();
    let mut ids: Vec<Vec<usize>> = vec![Vec::new(); workers];

    // The workers take turns in an order that changes from round to round.
    for round in 0..each {
        for turn in 0..workers {
            let w = (turn * 3 + round) % workers;
            let mut guard = handles[w].lock().unwrap();
            ids[w].push(guard.create(String::from("shared"), format!("{}-{}", w, round)));
        }
    }

    let mut all: Vec<usize> = Vec::new();
    for of_worker in &ids {
        assert_eq!(of_worker.len(), each);
        for pair in of_worker.windows(2) {
            assert!(pair[0] < pair[1]);
        }
        all.extend(of_worker);
    }
    all.sort();
    assert_eq!(all, (0..workers * each).collect::<Vec<usize>>());

    let guard = store.lock().unwrap();
    let live: Vec<usize> = guard.get("shared").unwrap().iter().map(|n| n.id).collect();
    assert_eq!(live, (0..workers * each).collect::<Vec<usize>>());
    assert_eq!(guard.next_id("shared"), workers * each);
}
