use nexus_pls::collector::{
    CenterDataCollectorTask, CollectorMessage, COLLECTION_INTERVAL, RETRY_INTERVAL,
};
use nexus_pls::tracking::{AllUsers, TrackingManager, UserData};

fn cache_with_subscribers() -> TrackingManager {
    let mut cache = TrackingManager::new(Some(AllUsers::from(vec![42, 43, 44])));
    cache.cache_user_data(42, Some(UserData::from((vec![7, 9], 555))));
    cache.cache_user_data(43, Some(UserData::from((vec![9], 556))));
    cache.cache_user_data(44, Some(UserData::from((vec![], 557))));
    cache
}

#[test]
fn a_new_scheduler_is_due_at_once() {
    let task = CenterDataCollectorTask::new();
    assert!(task.is_due(0));
    assert_eq!(task.next_collection_time(), None);
}

#[test]
fn the_intervals_are_fifteen_seconds_and_one_second() {
    assert_eq!(COLLECTION_INTERVAL, 15_000);
    assert_eq!(RETRY_INTERVAL, 1_000);
}

#[test]
fn a_tick_asks_for_each_tracked_center_once() {
    let cache = cache_with_subscribers();
    let mut task = CenterDataCollectorTask::new();
    let mut messages = task.poll(100, Some(&cache));
    messages.sort_by_key(|m| match m {
        CollectorMessage::RequestSlotsForCenter(center) => *center,
        _ => u32::MAX,
    });
    assert_eq!(
        messages,
        vec![
            CollectorMessage::RequestSlotsForCenter(7),
            CollectorMessage::RequestSlotsForCenter(9),
        ]
    );
    assert_eq!(task.next_collection_time(), Some(15_100));
}

#[test]
fn a_tick_without_subscribers_asks_for_nothing() {
    let cache = TrackingManager::new(None);
    let mut task = CenterDataCollectorTask::new();
    assert_eq!(task.poll(0, Some(&cache)), vec![]);
    assert_eq!(task.next_collection_time(), Some(15_000));
}

#[test]
fn a_locked_cache_defers_the_collection_by_one_second() {
    let mut task = CenterDataCollectorTask::new();
    assert_eq!(task.poll(100, None), vec![]);
    assert_eq!(task.next_collection_time(), Some(1_100));
    assert!(!task.is_due(1_099));
    assert!(task.is_due(1_100));
}

#[test]
fn a_locked_cache_loses_no_center() {
    let cache = cache_with_subscribers();
    let mut task = CenterDataCollectorTask::new();
    assert_eq!(task.poll(100, None), vec![]);
    assert_eq!(task.poll(1_100, Some(&cache)).len(), 2);
    assert_eq!(task.next_collection_time(), Some(16_100));
}

#[test]
fn a_tick_before_the_due_time_changes_nothing() {
    let cache = cache_with_subscribers();
    let mut task = CenterDataCollectorTask::new();
    assert_eq!(task.poll(100, Some(&cache)).len(), 2);
    assert!(!task.is_due(15_099));
    assert_eq!(task.poll(15_099, Some(&cache)), vec![]);
    assert_eq!(task.poll(15_099, None), vec![]);
    assert_eq!(task.next_collection_time(), Some(15_100));
    assert!(task.is_due(15_100));
    assert_eq!(task.poll(15_100, Some(&cache)).len(), 2);
    assert_eq!(task.next_collection_time(), Some(30_100));
}

#[test]
fn a_tick_that_is_not_due_may_come_at_any_time() {
    let cache = cache_with_subscribers();
    let mut task = CenterDataCollectorTask::new();
    assert_eq!(task.poll(u64::MAX - COLLECTION_INTERVAL, Some(&cache)).len(), 2);
    assert_eq!(task.next_collection_time(), Some(u64::MAX));
    assert_eq!(task.poll(u64::MAX - 1, None), vec![]);
    assert_eq!(task.next_collection_time(), Some(u64::MAX));
}
