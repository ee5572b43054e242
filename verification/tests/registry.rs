use soundboard::registry::TrackManager;
use soundboard::report::SignalOutcome;

const S1: u64 = 1001;
const S2: u64 = 2002;

fn stops(_handle: &u32) -> SignalOutcome {
    SignalOutcome::Stopped
}

#[test]
fn new_registry_is_empty() {
    let manager: TrackManager<u32> = TrackManager::new();
    assert_eq!(manager.server_count(), 0);
    assert!(!manager.is_active(S1));
    assert_eq!(manager.active_playbacks(S1), Vec::<i32>::new());
}

#[test]
fn stop_on_idle_server_returns_nothing() {
    let mut manager: TrackManager<u32> = TrackManager::new();
    let report = manager.stop_playback(S1, stops);
    assert!(report.is_empty());
    assert_eq!(report.len(), 0);
    assert_eq!(report.ids(), Vec::<i32>::new());
    assert_eq!(report.stopped(), Vec::<i32>::new());
    assert_eq!(report.failed(), Vec::<i32>::new());
}

#[test]
fn stop_on_idle_server_creates_no_entry() {
    let mut manager: TrackManager<u32> = TrackManager::new();
    manager.register_playback(S2, 3, 30);
    let report = manager.stop_playback(S1, stops);
    assert!(report.is_empty());
    assert!(!manager.is_active(S1));
    assert_eq!(manager.server_count(), 1);
    assert_eq!(manager.active_playbacks(S2), vec![3]);
}

#[test]
fn play_then_stop_returns_the_record() {
    let mut manager: TrackManager<u32> = TrackManager::new();
    manager.register_playback(S1, 7, 100);
    assert!(manager.is_active(S1));
    let report = manager.stop_playback(S1, stops);
    assert_eq!(report.ids(), vec![7]);
    assert_eq!(report.stopped(), vec![7]);
    assert!(report.is_clean());
}

#[test]
fn entry_is_absent_after_stop() {
    let mut manager: TrackManager<u32> = TrackManager::new();
    manager.register_playback(S1, 1, 10);
    manager.register_playback(S1, 2, 20);
    let report = manager.stop_playback(S1, stops);
    assert_eq!(report.len(), 2);
    assert!(!manager.is_active(S1));
    assert_eq!(manager.server_count(), 0);
    assert_eq!(manager.active_playbacks(S1), Vec::<i32>::new());
}

#[test]
fn registration_keeps_the_order() {
    let mut manager: TrackManager<u32> = TrackManager::new();
    manager.register_playback(S1, 5, 50);
    manager.register_playback(S1, 3, 30);
    manager.register_playback(S1, 9, 90);
    assert_eq!(manager.active_playbacks(S1), vec![5, 3, 9]);
    assert_eq!(manager.server_count(), 1);
}

#[test]
fn stop_signals_every_handle_once_and_in_order() {
    let mut manager: TrackManager<u32> = TrackManager::new();
    manager.register_playback(S1, 5, 50);
    manager.register_playback(S1, 3, 30);
    manager.register_playback(S1, 9, 90);
    let signalled = std::cell::RefCell::new(Vec::new());
    let report = manager.stop_playback(S1, |handle: &u32| {
        signalled.borrow_mut().push(*handle);
        SignalOutcome::Stopped
    });
    assert_eq!(signalled.into_inner(), vec![50, 30, 90]);
    assert_eq!(report.ids(), vec![5, 3, 9]);
}

#[test]
fn servers_do_not_share_playbacks() {
    let mut manager: TrackManager<u32> = TrackManager::new();
    manager.register_playback(S1, 1, 10);
    manager.register_playback(S2, 2, 20);
    manager.register_playback(S1, 3, 30);
    assert_eq!(manager.server_count(), 2);
    let report = manager.stop_playback(S1, stops);
    assert_eq!(report.ids(), vec![1, 3]);
    assert_eq!(manager.active_playbacks(S2), vec![2]);
    assert!(manager.is_active(S2));
    assert_eq!(manager.server_count(), 1);
}

#[test]
fn registering_many_then_stopping_returns_all() {
    let mut manager: TrackManager<u32> = TrackManager::new();
    let mut expected = Vec::new();
    for id in 0..100 {
        manager.register_playback(S1, id, 7);
        expected.push(id);
    }
    let report = manager.stop_playback(S1, stops);
    assert_eq!(report.ids(), expected);
    assert_eq!(report.len(), 100);
}

#[test]
fn registrations_from_several_holders_of_one_lock_are_all_kept() {
    let manager = std::sync::Mutex::new(TrackManager::<u32>::new());
    for turn in 0..50 {
        for holder in 0..4 {
            let mut guard = manager.lock().unwrap();
            guard.register_playback(S1, holder * 50 + turn, 0);
        }
    }
    let report = manager.lock().unwrap().stop_playback(S1, stops);
    let mut ids = report.ids();
    ids.sort();
    let expected: Vec<i32> = (0..200).collect();
    assert_eq!(ids, expected);
}

#[test]
fn failed_signal_does_not_stop_the_others() {
    let mut manager: TrackManager<u32> = TrackManager::new();
    manager.register_playback(S1, 1, 10);
    manager.register_playback(S1, 2, 0);
    manager.register_playback(S1, 3, 30);
    let report = manager.stop_playback(S1, |handle: &u32| {
        if *handle == 0 {
            SignalOutcome::Failed
        } else {
            SignalOutcome::Stopped
        }
    });
    assert_eq!(
        report.lines(),
        vec![
            (1, SignalOutcome::Stopped),
            (2, SignalOutcome::Failed),
            (3, SignalOutcome::Stopped),
        ]
    );
    assert_eq!(report.ids(), vec![1, 2, 3]);
    assert_eq!(report.stopped(), vec![1, 3]);
    assert_eq!(report.failed(), vec![2]);
    assert!(!report.is_clean());
    assert!(!manager.is_active(S1));
}

#[test]
fn completion_before_stop_leaves_nothing_to_stop() {
    let mut manager: TrackManager<u32> = TrackManager::new();
    manager.register_playback(S1, 9, 100);
    assert_eq!(manager.finish_playback(S1, 9), Some(100));
    assert!(!manager.is_active(S1));
    let report = manager.stop_playback(S1, stops);
    assert_eq!(report.ids(), Vec::<i32>::new());
}

#[test]
fn completion_after_stop_is_a_no_op() {
    let mut manager: TrackManager<u32> = TrackManager::new();
    manager.register_playback(S1, 4, 40);
    manager.register_playback(S2, 6, 60);
    let report = manager.stop_playback(S1, stops);
    assert_eq!(report.ids(), vec![4]);
    assert_eq!(manager.finish_playback(S1, 4), None);
    assert_eq!(manager.finish_playback(S1, 4), None);
    assert!(!manager.is_active(S1));
    assert_eq!(manager.active_playbacks(S2), vec![6]);
    assert_eq!(manager.server_count(), 1);
}

#[test]
fn completion_removes_only_its_own_playback() {
    let mut manager: TrackManager<u32> = TrackManager::new();
    manager.register_playback(S1, 1, 10);
    manager.register_playback(S1, 2, 20);
    manager.register_playback(S1, 3, 30);
    assert_eq!(manager.finish_playback(S1, 2), Some(20));
    assert_eq!(manager.active_playbacks(S1), vec![1, 3]);
    assert_eq!(manager.finish_playback(S1, 2), None);
    assert_eq!(manager.active_playbacks(S1), vec![1, 3]);
    let report = manager.stop_playback(S1, stops);
    assert_eq!(report.ids(), vec![1, 3]);
}

#[test]
fn completion_on_another_server_finds_nothing() {
    let mut manager: TrackManager<u32> = TrackManager::new();
    manager.register_playback(S1, 1, 10);
    assert_eq!(manager.finish_playback(S2, 1), None);
    assert_eq!(manager.active_playbacks(S1), vec![1]);
    assert!(!manager.is_active(S2));
}

#[test]
fn completion_takes_the_oldest_of_a_shared_record() {
    let mut manager: TrackManager<u32> = TrackManager::new();
    manager.register_playback(S1, 8, 1);
    manager.register_playback(S1, 8, 2);
    assert_eq!(manager.finish_playback(S1, 8), Some(1));
    assert_eq!(manager.active_playbacks(S1), vec![8]);
    assert_eq!(manager.finish_playback(S1, 8), Some(2));
    assert!(!manager.is_active(S1));
}

#[test]
fn last_completion_removes_the_entry() {
    let mut manager: TrackManager<u32> = TrackManager::new();
    manager.register_playback(S1, 1, 10);
    manager.register_playback(S1, 2, 20);
    assert_eq!(manager.finish_playback(S1, 1), Some(10));
    assert!(manager.is_active(S1));
    assert_eq!(manager.finish_playback(S1, 2), Some(20));
    assert!(!manager.is_active(S1));
    assert_eq!(manager.server_count(), 0);
}
