use capsolver::browser::pool::{check_pool_shape, PoolSlots};
use capsolver::PoolError;

type Slots = PoolSlots<()>;

#[test]
fn test_rejects_zero_capacity() {
    assert!(check_pool_shape(2, 0).is_err());
}

#[test]
fn test_zero_pool_size_is_rejected() {
    assert!(check_pool_shape(0, 2).is_err());
}

#[test]
fn test_zero_tabs_is_rejected() {
    assert!(check_pool_shape(1, 0).is_err());
}

#[test]
fn pool_shape_error_message() {
    match check_pool_shape(0, 0) {
        Err(e) => assert_eq!(
            e.message(),
            "Invalid configuration: browser_pool_size and tabs_per_process must both be greater than zero"
        ),
        Ok(_) => panic!("an empty pool must be refused"),
    }
    assert!(check_pool_shape(1, 1).is_ok());
}

#[test]
fn pool_test_capacity_stats() {
    let pool = Slots::new(2, 3, 9600).unwrap();
    let stats = pool.capacity_stats(2);

    assert_eq!(stats.total, 6);
    assert_eq!(stats.available, 6);
    assert_eq!(stats.active, 0);
}

#[test]
fn test_acquire_release_keeps_capacity_constant() {
    let mut pool = Slots::new(2, 3, 9600).unwrap();
    let ports = vec![9600, 9601];

    let context = pool.acquire_slot(&ports).unwrap();
    assert_eq!(pool.capacity_stats(2).active, 1);

    pool.release_slot(context).unwrap();
    let stats = pool.capacity_stats(2);
    assert_eq!(stats.active, 0);
    assert_eq!(stats.available, 6);
}

#[test]
fn integration_tests_test_capacity_stats() {
    let pool = Slots::new(2, 3, 9222).unwrap();
    let stats = pool.capacity_stats(2);

    assert_eq!(stats.total, 6, "Total capacity should be 2*3=6");
    assert_eq!(stats.available, 6);
    assert_eq!(stats.active, 0);
    assert_eq!(stats.processes, 2);
}

#[test]
fn test_context_acquisition() {
    let mut pool = Slots::new(1, 2, 9222).unwrap();
    let ports = vec![9222];

    let ctx1 = pool.acquire_slot(&ports).expect("first acquire");
    let stats = pool.capacity_stats(1);
    assert_eq!(stats.available, 1);
    assert_eq!(stats.active, 1);

    let ctx2 = pool.acquire_slot(&ports).expect("second acquire");
    let stats = pool.capacity_stats(1);
    assert_eq!(stats.available, 0);
    assert_eq!(stats.active, 2);

    pool.release_slot(ctx1).unwrap();
    pool.release_slot(ctx2).unwrap();
}

#[test]
fn test_context_release() {
    let mut pool = Slots::new(1, 1, 9222).unwrap();
    let ports = vec![9222];

    let ctx = pool.acquire_slot(&ports).expect("Acquisition failed");
    assert_eq!(pool.capacity_stats(1).available, 0);

    pool.release_slot(ctx).unwrap();
    assert_eq!(pool.capacity_stats(1).available, 1);
}

#[test]
fn test_capacity_is_stable_across_cycles() {
    let mut pool = Slots::new(1, 2, 9222).unwrap();
    let ports = vec![9222];

    for _ in 0..5 {
        let ctx = pool.acquire_slot(&ports).expect("acquire");
        pool.release_slot(ctx).unwrap();
    }

    let stats = pool.capacity_stats(1);
    assert_eq!(stats.total, 2, "capacity must not drift across cycles");
    assert_eq!(stats.available, 2);
    assert_eq!(stats.active, 0);

    // A third concurrent acquire must not over-subscribe the pool.
    let a = pool.acquire_slot(&ports).expect("acquire a");
    let b = pool.acquire_slot(&ports).expect("acquire b");
    assert!(
        matches!(pool.acquire_slot(&ports), Err(PoolError::CapacityExhausted)),
        "pool must block once every slot is handed out"
    );

    pool.release_slot(a).unwrap();
    pool.release_slot(b).unwrap();
}

#[test]
fn slots_are_laid_out_per_process() {
    let mut pool = Slots::new(2, 2, 9300).unwrap();
    let ports: Vec<u16> = vec![9300, 9301];
    let mut seen = Vec::new();
    for _ in 0..4 {
        let ctx = pool.acquire_slot(&ports).unwrap();
        assert!(ctx.browser_context_id.is_none());
        assert!(ctx.cdp_session.is_none());
        assert_eq!(ctx.context_id.len(), 36);
        seen.push((ctx.process_index, ctx.port));
    }
    assert_eq!(seen, vec![(0, 9300), (0, 9300), (1, 9301), (1, 9301)]);
}

#[test]
fn acquired_slot_follows_restarted_process_port() {
    let mut pool = Slots::new(1, 1, 9300).unwrap();
    let ctx = pool.acquire_slot(&vec![9444]).unwrap();
    assert_eq!(ctx.port, 9444);
    pool.release_slot(ctx).unwrap();
    let ctx = pool.acquire_slot(&Vec::new()).unwrap();
    assert_eq!(ctx.port, 9444);
}

#[test]
fn released_slot_comes_back_clean_and_last() {
    let mut pool: PoolSlots<u8> = PoolSlots::new(1, 2, 9222).unwrap();
    let ports = vec![9222];
    let mut first = pool.acquire_slot(&ports).unwrap();
    let first_id = first.context_id.clone();
    first.browser_context_id = Some("BC".to_string());
    first.cdp_session = Some(7);
    pool.release_slot(first).unwrap();
    let second = pool.acquire_slot(&ports).unwrap();
    assert_ne!(second.context_id, first_id);
    let third = pool.acquire_slot(&ports).unwrap();
    assert_eq!(third.context_id, first_id);
    assert!(third.browser_context_id.is_none());
    assert!(third.cdp_session.is_none());
}

#[test]
fn every_slot_gets_its_own_identifier() {
    let pool = Slots::new(3, 4, 9500).unwrap();
    let mut pool = pool;
    let mut ids = Vec::new();
    while let Ok(ctx) = pool.acquire_slot(&Vec::new()) {
        assert_eq!(ctx.context_id.len(), 36);
        ids.push(ctx.context_id);
    }
    assert_eq!(ids.len(), 12);
    let mut sorted = ids.clone();
    sorted.sort();
    sorted.dedup();
    assert_eq!(sorted.len(), 12);
}

#[test]
fn a_pool_is_built_from_one_distinct_id_per_slot() {
    let ids = |names: &[&str]| names.iter().map(|n| n.to_string()).collect::<Vec<String>>();
    let mut pool = Slots::from_ids(2, 2, 9400, ids(&["a", "b", "c", "d"])).unwrap();
    let mut seen = Vec::new();
    while let Ok(ctx) = pool.acquire_slot(&Vec::new()) {
        seen.push((ctx.context_id.clone(), ctx.process_index, ctx.port));
    }
    assert_eq!(
        seen,
        vec![
            ("a".to_string(), 0, 9400),
            ("b".to_string(), 0, 9400),
            ("c".to_string(), 1, 9401),
            ("d".to_string(), 1, 9401),
        ]
    );
    assert!(Slots::from_ids(2, 2, 9400, ids(&["a", "b", "c"])).is_none());
    assert!(Slots::from_ids(2, 2, 9400, ids(&["a", "b", "c", "a"])).is_none());
    assert!(Slots::from_ids(0, 3, 9400, Vec::new()).is_some());
    assert!(Slots::new(0, 3, 9400).is_some());
}

#[test]
fn a_slot_that_was_not_handed_out_is_refused() {
    let mut pool = Slots::from_ids(1, 2, 9400, vec!["a".to_string(), "b".to_string()]).unwrap();
    let ctx = pool.acquire_slot(&Vec::new()).unwrap();
    let mut stranger = Slots::from_ids(1, 1, 9400, vec!["z".to_string()])
        .unwrap()
        .acquire_slot(&Vec::new())
        .unwrap();
    stranger.process_index = 0;
    match pool.release_slot(stranger) {
        Err(e) => assert!(matches!(e, PoolError::ContextNotFound)),
        Ok(()) => panic!("the slot was never handed out by this pool"),
    }
    assert_eq!(pool.counts(), (1, 1));
    pool.release_slot(ctx).unwrap();
    assert_eq!(pool.counts(), (2, 0));
}
