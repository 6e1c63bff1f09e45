use follow_audit::collector::{CollectAction, CollectEvent, CollectPhase, Collector};
use follow_audit::filter::filter_deleted;
use follow_audit::model::{Relation, RequestError, Snapshot};

fn entry(mid: u64) -> Relation {
    Relation { mid, mtime: 1_600_000_000 + mid, uname: format!("user{}", mid) }
}

fn page(first_mid: u64, count: u64, total: u16) -> Snapshot {
    Snapshot { list: (first_mid..first_mid + count).map(entry).collect(), total }
}

/// Drives a collection to its end with pages of 50 entries for a list of
/// `total` entries, and returns the collector with the actions it gave.
fn collect(total: u16) -> (Collector, Vec<CollectAction>) {
    let mut actions = Vec::new();
    let (mut collector, mut action) = Collector::new().step(CollectEvent::Start);
    let mut left = u64::from(total);
    let mut next_mid = 1;
    loop {
        actions.push(action);
        let event = match action {
            CollectAction::Fetch { .. } => {
                let count = left.min(50);
                let event = CollectEvent::Page(page(next_mid, count, total));
                left -= count;
                next_mid += count;
                event
            }
            CollectAction::Pause => CollectEvent::Paused,
            CollectAction::Finish | CollectAction::Abort(_) => return (collector, actions),
        };
        (collector, action) = collector.step(event);
    }
}

fn fetches(actions: &[CollectAction]) -> Vec<u16> {
    actions
        .iter()
        .filter_map(|action| match action {
            CollectAction::Fetch { page } => Some(*page),
            _ => None,
        })
        .collect()
}

fn pauses(actions: &[CollectAction]) -> usize {
    actions.iter().filter(|action| **action == CollectAction::Pause).count()
}

#[test]
fn new_collector_is_idle() {
    let collector = Collector::new();
    assert_eq!(collector.phase(), CollectPhase::Idle);
    assert_eq!(collector.requested(), 0);
    assert_eq!(collector.pauses(), 0);
    assert_eq!(collector.total(), 0);
    assert!(collector.list().is_empty());
    assert_eq!(collector.into_snapshot(), None);
}

#[test]
fn empty_list_takes_one_request() {
    let (collector, action) = Collector::new().step(CollectEvent::Start);
    assert_eq!(action, CollectAction::Fetch { page: 1 });
    assert_eq!(collector.phase(), CollectPhase::Fetching);
    let (collector, action) = collector.step(CollectEvent::Page(page(1, 0, 0)));
    assert_eq!(action, CollectAction::Finish);
    assert_eq!(collector.phase(), CollectPhase::Finished);
    assert_eq!(collector.requested(), 1);
    assert_eq!(collector.pauses(), 0);
    let snapshot = collector.into_snapshot().unwrap();
    assert_eq!(snapshot, Snapshot { list: vec![], total: 0 });
    assert_eq!(filter_deleted(&snapshot), vec![]);
}

#[test]
fn total_120_takes_three_requests_and_two_pauses() {
    let (collector, actions) = collect(120);
    assert_eq!(
        actions,
        vec![
            CollectAction::Fetch { page: 1 },
            CollectAction::Pause,
            CollectAction::Fetch { page: 2 },
            CollectAction::Pause,
            CollectAction::Fetch { page: 3 },
            CollectAction::Finish,
        ]
    );
    assert_eq!(collector.requested(), 3);
    assert_eq!(collector.pauses(), 2);
    let snapshot = collector.into_snapshot().unwrap();
    assert_eq!(snapshot.total, 120);
    assert_eq!(snapshot.list, (1..=120).map(entry).collect::<Vec<_>>());
}

#[test]
fn requests_are_total_over_fifty_rounded_up() {
    for (total, pages) in [(1u16, 1u16), (49, 1), (50, 1), (51, 2), (100, 2), (101, 3), (65535, 1311)] {
        let (collector, actions) = collect(total);
        assert_eq!(fetches(&actions), (1..=pages).collect::<Vec<_>>(), "total {}", total);
        assert_eq!(pauses(&actions), usize::from(pages) - 1, "total {}", total);
        assert_eq!(collector.requested(), pages);
        assert_eq!(collector.pauses(), pages - 1);
        assert_eq!(collector.total(), total);
        assert_eq!(collector.list().len(), usize::from(total));
    }
}

#[test]
fn pages_are_kept_in_order() {
    let (collector, _) = Collector::new().step(CollectEvent::Start);
    let first = Snapshot { list: vec![entry(9), entry(3)], total: 51 };
    let (collector, action) = collector.step(CollectEvent::Page(first));
    assert_eq!(action, CollectAction::Pause);
    assert_eq!(collector.phase(), CollectPhase::Pausing);
    let (collector, action) = collector.step(CollectEvent::Paused);
    assert_eq!(action, CollectAction::Fetch { page: 2 });
    let second = Snapshot { list: vec![entry(7), entry(1)], total: 51 };
    let (collector, action) = collector.step(CollectEvent::Page(second));
    assert_eq!(action, CollectAction::Finish);
    assert_eq!(collector.list(), &vec![entry(9), entry(3), entry(7), entry(1)]);
}

#[test]
fn later_totals_are_not_taken_up() {
    let (collector, _) = Collector::new().step(CollectEvent::Start);
    let (collector, action) = collector.step(CollectEvent::Page(page(1, 50, 60)));
    assert_eq!(action, CollectAction::Pause);
    let (collector, _) = collector.step(CollectEvent::Paused);
    // The list grew on the server in the meantime: the second page reports more.
    let (collector, action) = collector.step(CollectEvent::Page(page(51, 50, 160)));
    assert_eq!(action, CollectAction::Finish);
    assert_eq!(collector.requested(), 2);
    let snapshot = collector.into_snapshot().unwrap();
    assert_eq!(snapshot.total, 60);
    assert_eq!(snapshot.list.len(), 100);
}

#[test]
fn first_page_with_entries_but_no_total_is_kept() {
    let (collector, _) = Collector::new().step(CollectEvent::Start);
    let (collector, action) = collector.step(CollectEvent::Page(page(1, 2, 0)));
    assert_eq!(action, CollectAction::Finish);
    assert_eq!(collector.requested(), 1);
    assert_eq!(collector.into_snapshot(), Some(Snapshot { list: vec![entry(1), entry(2)], total: 0 }));
}

#[test]
fn network_failure_stops_the_collection() {
    let (collector, _) = Collector::new().step(CollectEvent::Start);
    let (collector, action) = collector.step(CollectEvent::Failed(RequestError::Network));
    assert_eq!(action, CollectAction::Abort(RequestError::Network));
    assert_eq!(collector.phase(), CollectPhase::Failed(RequestError::Network));
    let (collector, action) = collector.step(CollectEvent::Page(page(1, 0, 0)));
    assert_eq!(action, CollectAction::Abort(RequestError::Network));
    assert_eq!(collector.into_snapshot(), None);
}

#[test]
fn protocol_failure_on_a_later_page_stops_the_collection() {
    let (collector, _) = Collector::new().step(CollectEvent::Start);
    let (collector, _) = collector.step(CollectEvent::Page(page(1, 50, 120)));
    let (collector, _) = collector.step(CollectEvent::Paused);
    let (collector, action) = collector.step(CollectEvent::Failed(RequestError::Protocol));
    assert_eq!(action, CollectAction::Abort(RequestError::Protocol));
    assert_eq!(collector.requested(), 2);
    assert_eq!(collector.list().len(), 50);
    assert_eq!(collector.into_snapshot(), None);
}

#[test]
fn event_out_of_turn_stops_the_collection() {
    let (collector, action) = Collector::new().step(CollectEvent::Paused);
    assert_eq!(action, CollectAction::Abort(RequestError::Protocol));
    assert_eq!(collector.phase(), CollectPhase::Failed(RequestError::Protocol));

    let (collector, _) = Collector::new().step(CollectEvent::Start);
    let (collector, action) = collector.step(CollectEvent::Start);
    assert_eq!(action, CollectAction::Abort(RequestError::Protocol));
    assert_eq!(collector.into_snapshot(), None);

    let (collector, _) = Collector::new().step(CollectEvent::Start);
    let (collector, _) = collector.step(CollectEvent::Page(page(1, 50, 99)));
    let (_, action) = collector.step(CollectEvent::Page(page(51, 49, 99)));
    assert_eq!(action, CollectAction::Abort(RequestError::Protocol));
}

#[test]
fn finished_collection_stays_finished() {
    let (collector, _) = collect(10);
    let (collector, action) = collector.step(CollectEvent::Failed(RequestError::Network));
    assert_eq!(action, CollectAction::Finish);
    let (collector, action) = collector.step(CollectEvent::Start);
    assert_eq!(action, CollectAction::Finish);
    assert_eq!(collector.phase(), CollectPhase::Finished);
    assert_eq!(collector.into_snapshot().unwrap().list.len(), 10);
}
