use pg_analytics::cache::SessionCache;
use pg_analytics::classify::{
    is_pushdown_eligible, maybe_delegate_view, reconcile_search_path, view_query_pushdown,
    PlannedStatementInfo, TableHandler, TableRef, ViewDecision, ViewError, ViewRelation,
};

fn acquire_or_open(cache: &mut SessionCache, id: u32) -> Option<(u32, u64)> {
    match cache.acquire(id) {
        Some(_) => None,
        None => cache.insert(id, id as u64),
    }
}

#[test]
fn cache_capacity_is_never_exceeded() {
    // Capacity 128; acquiring 129 distinct ids keeps the size at 128 and
    // evicts exactly the least recently used id, which is the first one.
    let mut cache = SessionCache::new(128);
    let mut evicted: Vec<(u32, u64)> = Vec::new();
    for id in 0..=128u32 {
        if let Some(e) = acquire_or_open(&mut cache, id) {
            evicted.push(e);
        }
        assert!(cache.len() <= 128);
    }
    assert_eq!(cache.len(), 128);
    assert_eq!(evicted, vec![(0, 0)]);
    assert!(!cache.contains(0));
    for id in 1..=128u32 {
        assert!(cache.contains(id));
    }
}

#[test]
fn cache_acquire_reorders_to_most_recent() {
    // After touching an already-cached id, a capacity-triggered eviction
    // removes some other id untouched since, never the touched one.
    let mut cache = SessionCache::new(3);
    assert!(cache.insert(10, 100).is_none());
    assert!(cache.insert(20, 200).is_none());
    assert!(cache.insert(30, 300).is_none());
    // Touch the least recently used id: it moves to most recently used.
    assert_eq!(cache.acquire(10), Some(100));
    // The next insertion under pressure evicts id 20, not id 10.
    let evicted = cache.insert(40, 400);
    assert_eq!(evicted, Some((20, 200)));
    assert!(cache.contains(10));
    assert!(cache.contains(30));
    assert!(cache.contains(40));
    assert_eq!(cache.keys(), vec![30, 10, 40]);
}

#[test]
fn cache_miss_leaves_cache_unchanged() {
    let mut cache = SessionCache::new(2);
    assert!(cache.insert(1, 11).is_none());
    assert_eq!(cache.acquire(9), None);
    assert_eq!(cache.len(), 1);
    assert_eq!(cache.handles(), vec![11]);
}

fn backed(handler: TableHandler) -> TableRef {
    TableRef { is_foreign: true, handler }
}

#[test]
fn classifier_rejects_empty_reference_list() {
    let tables: Vec<TableRef> = Vec::new();
    assert!(!is_pushdown_eligible(&tables));
}

#[test]
fn classifier_accepts_only_fully_engine_backed_lists() {
    let all_backed = vec![backed(TableHandler::Parquet), backed(TableHandler::Csv)];
    assert!(is_pushdown_eligible(&all_backed));

    let with_native = vec![
        backed(TableHandler::Parquet),
        TableRef { is_foreign: false, handler: TableHandler::Other },
    ];
    assert!(!is_pushdown_eligible(&with_native));

    let with_foreign_other = vec![
        backed(TableHandler::Delta),
        TableRef { is_foreign: true, handler: TableHandler::Other },
    ];
    assert!(!is_pushdown_eligible(&with_foreign_other));
}

#[test]
fn search_path_is_filtered_to_engine_schemas() {
    let host = vec![
        "pg_catalog".to_string(),
        "public".to_string(),
        "analytics".to_string(),
    ];
    let engine = vec!["public".to_string(), "analytics".to_string(), "main".to_string()];
    let reconciled = reconcile_search_path(&host, &engine);
    assert_eq!(reconciled, vec!["public".to_string(), "analytics".to_string()]);
}

#[test]
fn view_delegation_rejects_three_part_names() {
    let relations = vec![ViewRelation {
        name: "db.schema.table".to_string(),
        name_parts: 3,
        resolves_unqualified: false,
        table: backed(TableHandler::Parquet),
    }];
    match maybe_delegate_view(&relations) {
        Err(ViewError::UnsupportedQualification(name)) => {
            assert_eq!(name, "db.schema.table");
        }
        _ => panic!("a three-part name must be a hard error"),
    }
}

#[test]
fn view_delegation_falls_back_naming_the_offender() {
    let relations = vec![
        ViewRelation {
            name: "good".to_string(),
            name_parts: 2,
            resolves_unqualified: false,
            table: backed(TableHandler::Parquet),
        },
        ViewRelation {
            name: "bad".to_string(),
            name_parts: 1,
            resolves_unqualified: false,
            table: backed(TableHandler::Parquet),
        },
    ];
    match maybe_delegate_view(&relations) {
        Ok(ViewDecision::FallbackToNative(name)) => assert_eq!(name, "bad"),
        _ => panic!("an unresolvable unqualified name must fall back"),
    }
}

#[test]
fn view_delegation_delegates_fully_backed_views() {
    let relations = vec![
        ViewRelation {
            name: "t1".to_string(),
            name_parts: 1,
            resolves_unqualified: true,
            table: backed(TableHandler::Csv),
        },
        ViewRelation {
            name: "s.t2".to_string(),
            name_parts: 2,
            resolves_unqualified: false,
            table: backed(TableHandler::Iceberg),
        },
    ];
    match maybe_delegate_view(&relations) {
        Ok(ViewDecision::Delegate) => {}
        _ => panic!("a fully engine-backed view must be delegated"),
    }
}

#[test]
fn view_query_pushdown_requires_all_eligible_selects() {
    let all_good = vec![
        PlannedStatementInfo { is_select: true, eligible: true },
        PlannedStatementInfo { is_select: true, eligible: true },
    ];
    assert!(view_query_pushdown(&all_good));

    let one_bad = vec![
        PlannedStatementInfo { is_select: true, eligible: true },
        PlannedStatementInfo { is_select: false, eligible: true },
    ];
    assert!(!view_query_pushdown(&one_bad));
}
