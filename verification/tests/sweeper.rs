use bundle_store::auto_delete::{
    AutoDelete, SweepAction, SweepEvent, SweepStage, DEFAULT_CHECK_INTERVAL,
    DEFAULT_DELETE_OLDER_THAN,
};
use bundle_store::data_source::DataSource;
use std::collections::HashMap;

fn sweeper() -> AutoDelete {
    AutoDelete { interval: 120, delete_older_than: 1000 }
}

#[test]
fn zero_switches_the_sweeper_off() {
    let source = DataSource::new("data".to_string(), 1048576);
    assert_eq!(source.start_auto_delete(0, 172800), None);
    assert_eq!(source.start_auto_delete(120, 0), None);
    assert_eq!(source.start_auto_delete(0, 0), None);
    assert_eq!(
        source.start_auto_delete(DEFAULT_CHECK_INTERVAL, DEFAULT_DELETE_OLDER_THAN),
        Some(AutoDelete { interval: 120, delete_older_than: 172800 })
    );
}

#[test]
fn expiry_is_at_the_limit() {
    let settings = sweeper();
    assert!(!settings.is_expired(0));
    assert!(!settings.is_expired(999));
    assert!(settings.is_expired(1000));
    assert!(settings.is_expired(1001));
    assert!(settings.is_expired(u64::MAX));
}

#[test]
fn a_sweep_visits_every_entry_and_removes_the_expired() {
    let settings = sweeper();
    let ages = [Some(1001u64), Some(999), None, Some(1000)];
    let mut removed: Vec<usize> = Vec::new();
    let mut inspected: Vec<usize> = Vec::new();
    let mut stage = SweepStage::Idle;
    let mut event = SweepEvent::Awake;
    let mut slept = None;
    for _ in 0..32 {
        let (next, action) = settings.advance(stage, event);
        stage = next;
        event = match action {
            SweepAction::List => SweepEvent::Listed(ages.len()),
            SweepAction::Inspect(i) => {
                inspected.push(i);
                SweepEvent::Age(ages[i])
            }
            SweepAction::Remove(i) => {
                removed.push(i);
                SweepEvent::Removed
            }
            SweepAction::Sleep(seconds) => {
                slept = Some(seconds);
                break;
            }
        };
    }
    assert_eq!(slept, Some(120));
    assert_eq!(stage, SweepStage::Idle);
    assert_eq!(inspected, vec![0, 1, 2, 3]);
    assert_eq!(removed, vec![0, 3]);
}

#[test]
fn a_sweep_goes_on_after_failures() {
    let settings = sweeper();
    assert_eq!(
        settings.advance(SweepStage::Idle, SweepEvent::Awake),
        (SweepStage::Listing, SweepAction::List)
    );
    assert_eq!(
        settings.advance(SweepStage::Listing, SweepEvent::Listed(0)),
        (SweepStage::Idle, SweepAction::Sleep(120))
    );
    assert_eq!(
        settings.advance(SweepStage::Listing, SweepEvent::Failed),
        (SweepStage::Idle, SweepAction::Sleep(120))
    );
    assert_eq!(
        settings.advance(SweepStage::Inspecting { index: 0, count: 2 }, SweepEvent::Failed),
        (SweepStage::Inspecting { index: 1, count: 2 }, SweepAction::Inspect(1))
    );
    assert_eq!(
        settings.advance(SweepStage::Removing { index: 0, count: 2 }, SweepEvent::Failed),
        (SweepStage::Inspecting { index: 1, count: 2 }, SweepAction::Inspect(1))
    );
    assert_eq!(
        settings.advance(SweepStage::Removing { index: 1, count: 2 }, SweepEvent::Removed),
        (SweepStage::Idle, SweepAction::Sleep(120))
    );
    assert_eq!(
        settings.advance(
            SweepStage::Inspecting { index: usize::MAX, count: usize::MAX },
            SweepEvent::Age(Some(5000))
        ),
        (SweepStage::Idle, SweepAction::Sleep(120))
    );
}

#[test]
fn retention_removes_what_is_past_the_limit_only() {
    let settings = AutoDelete { interval: 5, delete_older_than: 172800 };
    let mut disk: HashMap<String, Vec<u8>> = HashMap::new();
    disk.insert("old".to_string(), b"a".to_vec());
    disk.insert("young".to_string(), b"b".to_vec());
    disk.insert("unknown".to_string(), b"c".to_vec());
    let listing = ["old", "young", "unknown"];
    let ages = [Some(172801u64), Some(172799), None];
    let mut stage = SweepStage::Idle;
    let mut event = SweepEvent::Awake;
    loop {
        let (next, action) = settings.advance(stage, event);
        stage = next;
        event = match action {
            SweepAction::List => SweepEvent::Listed(listing.len()),
            SweepAction::Inspect(i) => SweepEvent::Age(ages[i]),
            SweepAction::Remove(i) => {
                disk.remove(listing[i]);
                SweepEvent::Removed
            }
            SweepAction::Sleep(seconds) => {
                assert_eq!(seconds, 5);
                break;
            }
        };
    }
    assert_eq!(disk.get("old"), None);
    assert_eq!(disk.get("young"), Some(&b"b".to_vec()));
    assert_eq!(disk.get("unknown"), Some(&b"c".to_vec()));
}
