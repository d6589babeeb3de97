//! Tests of the four store operations.

use todo_tasks::store::TaskStore;
use todo_tasks::task::{Task, Todo};

fn add(store: &mut TaskStore, description: &str) -> bool {
    Task::insert(Todo { description: description.to_string() }, store)
}

#[test]
fn insert_lists_new_task() {
    let mut store = TaskStore::new();
    assert!(add(&mut store, "water the plants"));
    let all = Task::all(&store);
    assert_eq!(all.len(), 1);
    assert_eq!(all[0].id, 1);
    assert_eq!(all[0].description, "water the plants");
    assert!(!all[0].completed);
}

#[test]
fn insert_assigns_sequential_ids() {
    let mut store = TaskStore::new();
    assert!(add(&mut store, "first"));
    assert!(add(&mut store, "second"));
    assert!(add(&mut store, "third"));
    let all = Task::all(&store);
    let ids: Vec<i32> = all.iter().map(|t| t.id).collect();
    assert_eq!(ids, vec![3, 2, 1]);
}

#[test]
fn listing_is_newest_first() {
    let mut store = TaskStore::new();
    assert!(add(&mut store, "A"));
    assert!(add(&mut store, "B"));
    assert!(add(&mut store, "C"));
    let all = Task::all(&store);
    let descriptions: Vec<&str> = all.iter().map(|t| t.description.as_str()).collect();
    assert_eq!(descriptions, vec!["C", "B", "A"]);
}

#[test]
fn toggle_flips_only_target() {
    let mut store = TaskStore::new();
    assert!(add(&mut store, "A"));
    assert!(add(&mut store, "B"));
    assert!(Task::toggle_with_id(1, &mut store));
    let all = Task::all(&store);
    assert_eq!(all.len(), 2);
    assert_eq!(all[0].id, 2);
    assert!(!all[0].completed);
    assert_eq!(all[1].id, 1);
    assert!(all[1].completed);
    assert_eq!(all[1].description, "A");
}

#[test]
fn toggle_twice_restores() {
    let mut store = TaskStore::new();
    assert!(add(&mut store, "A"));
    assert!(Task::toggle_with_id(1, &mut store));
    assert!(Task::toggle_with_id(1, &mut store));
    let all = Task::all(&store);
    assert_eq!(all.len(), 1);
    assert!(!all[0].completed);
    assert_eq!(all[0].description, "A");
}

#[test]
fn toggle_missing_id_is_failure_and_noop() {
    let mut store = TaskStore::new();
    assert!(add(&mut store, "A"));
    assert!(!Task::toggle_with_id(7, &mut store));
    let all = Task::all(&store);
    assert_eq!(all.len(), 1);
    assert_eq!(all[0].id, 1);
    assert!(!all[0].completed);
}

#[test]
fn delete_removes_only_target() {
    let mut store = TaskStore::new();
    assert!(add(&mut store, "A"));
    assert!(add(&mut store, "B"));
    assert!(add(&mut store, "C"));
    assert!(Task::delete_with_id(2, &mut store));
    let all = Task::all(&store);
    let ids: Vec<i32> = all.iter().map(|t| t.id).collect();
    assert_eq!(ids, vec![3, 1]);
    assert_eq!(all[0].description, "C");
    assert_eq!(all[1].description, "A");
}

#[test]
fn delete_missing_id_keeps_listing() {
    let mut store = TaskStore::new();
    assert!(add(&mut store, "A"));
    // The policy matches the underlying delete-by-id: zero affected rows
    // still count as a successful statement.
    assert!(Task::delete_with_id(9, &mut store));
    let all = Task::all(&store);
    assert_eq!(all.len(), 1);
    assert_eq!(all[0].description, "A");
}

#[test]
fn ids_are_not_reused_after_delete() {
    let mut store = TaskStore::new();
    assert!(add(&mut store, "A"));
    assert!(add(&mut store, "B"));
    assert!(Task::delete_with_id(2, &mut store));
    assert!(add(&mut store, "C"));
    let all = Task::all(&store);
    let ids: Vec<i32> = all.iter().map(|t| t.id).collect();
    assert_eq!(ids, vec![3, 1]);
}

#[test]
fn empty_store_lists_nothing() {
    let store = TaskStore::new();
    assert!(Task::all(&store).is_empty());
}
