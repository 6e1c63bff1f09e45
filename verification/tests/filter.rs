use follow_audit::filter::{filter_deleted, is_deleted, DELETED_UNAME};
use follow_audit::model::{Relation, Snapshot};

fn entry(mid: u64, uname: &str) -> Relation {
    Relation { mid, mtime: 1_700_000_000 + mid, uname: uname.to_string() }
}

#[test]
fn deleted_name_is_the_servers() {
    assert_eq!(DELETED_UNAME, "账号已注销");
    assert_eq!(DELETED_UNAME.chars().count(), 5);
}

#[test]
fn filter_on_empty_snapshot_finds_nothing() {
    assert_eq!(filter_deleted(&Snapshot { list: vec![], total: 0 }), vec![]);
}

#[test]
fn filter_finds_the_two_deleted_of_five() {
    let snapshot = Snapshot {
        list: vec![
            entry(11, "alice"),
            entry(12, "账号已注销"),
            entry(13, "bob"),
            entry(14, "账号已注销"),
            entry(15, "carol"),
        ],
        total: 5,
    };
    assert_eq!(filter_deleted(&snapshot), vec![entry(12, "账号已注销"), entry(14, "账号已注销")]);
    // The snapshot itself is left as it was.
    assert_eq!(snapshot.list.len(), 5);
    assert_eq!(snapshot.total, 5);
}

#[test]
fn filter_keeps_order_and_repeats() {
    let snapshot = Snapshot {
        list: vec![
            entry(3, "账号已注销"),
            entry(1, "账号已注销"),
            entry(2, "x"),
            entry(3, "账号已注销"),
        ],
        total: 4,
    };
    let found = filter_deleted(&snapshot);
    assert_eq!(found.iter().map(|r| r.mid).collect::<Vec<_>>(), vec![3, 1, 3]);
    assert!(found.iter().all(|r| r.uname == DELETED_UNAME));
}

#[test]
fn filter_matches_the_name_exactly() {
    for uname in ["", "账号已注销 ", " 账号已注销", "账号已注", "账号已注销!", "已注销", "賬號已註銷", "deleted"] {
        assert!(!is_deleted(&entry(1, uname)), "{:?}", uname);
    }
    assert!(is_deleted(&entry(1, "账号已注销")));
    assert!(is_deleted(&entry(0, DELETED_UNAME)));
}

#[test]
fn filter_takes_all_where_all_are_deleted() {
    let list: Vec<Relation> = (0..120).map(|mid| entry(mid, DELETED_UNAME)).collect();
    let snapshot = Snapshot { list: list.clone(), total: 120 };
    assert_eq!(filter_deleted(&snapshot), list);
}

#[test]
fn filter_goes_by_the_list_not_the_total() {
    let snapshot = Snapshot { list: vec![entry(5, DELETED_UNAME)], total: 0 };
    assert_eq!(filter_deleted(&snapshot), vec![entry(5, DELETED_UNAME)]);
}
