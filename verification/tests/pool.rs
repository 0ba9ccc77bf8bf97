use auto_pool::config::{AutoPoolConfig, PickStrategy};
use auto_pool::pool::AutoPool;
use std::ops::Deref;

#[test]
fn test_create() {
    let pool = AutoPool::new(vec![1, 2, 3]);
    assert_eq!(pool.size(), 3);
}

#[test]
fn test_take() {
    let mut pool = AutoPool::new(vec![1, 2, 3]);
    let obj1 = pool.extract_object();
    assert_eq!(pool.size(), 2);
    assert_eq!(*obj1.as_ref().unwrap().deref(), 3);
}

#[test]
fn test_add() {
    let mut pool = AutoPool::new(vec![1]);
    pool.add(2);
    assert_eq!(pool.size(), 2);
}

#[test]
fn test_workflow() {
    let config = AutoPoolConfig {
        wait_duration: std::time::Duration::from_millis(5),
        ..Default::default()
    };
    let mut pool = AutoPool::new_with_config(config, vec![1, 2, 3]);
    assert_eq!(pool.size(), 3);

    let obj1 = pool.extract_object();
    assert_eq!(pool.size(), 2);
    assert_eq!(*obj1.as_ref().unwrap().deref(), 3);

    let obj2 = pool.extract_object();
    assert_eq!(*obj2.as_ref().unwrap().deref(), 2);
    let obj3 = pool.extract_object();
    assert_eq!(pool.size(), 0);
    assert_eq!(*obj3.as_ref().unwrap().deref(), 1);

    let obj4 = pool.extract_object();
    assert!(obj4.is_none());
}

#[test]
fn test_pick_strategy_lifo() {
    let config = AutoPoolConfig {
        wait_duration: std::time::Duration::from_millis(5),
        pick_strategy: PickStrategy::LIFO,
        ..Default::default()
    };
    let mut pool = AutoPool::new_with_config(config, vec![1, 2, 3]);
    for _ in 0..1000 {
        let obj1 = pool.extract_object();
        assert_eq!(*obj1.as_ref().unwrap().deref(), 3);
        // Returning the object, as dropping its wrapper does.
        pool.add(obj1.unwrap());
    }
}

#[test]
fn test_pick_strategy_random() {
    let config = AutoPoolConfig {
        wait_duration: std::time::Duration::from_millis(5),
        pick_strategy: PickStrategy::RANDOM,
        ..Default::default()
    };
    let mut pool = AutoPool::new_with_config(config, vec![1, 2, 3]);
    let mut values = Vec::new();
    for _ in 0..3 {
        values.push(pool.extract_object().unwrap());
    }
    values.sort_unstable();
    assert_eq!(values, [1, 2, 3]);
    assert!(pool.extract_object().is_none());
}

#[test]
fn test_return_preserves_mutation_and_release_removes_item() {
    let mut pool = AutoPool::new(vec![String::from("hello")]);
    {
        let mut item = pool.extract_object().unwrap();
        item.push_str(" world");
        assert_eq!(pool.size(), 0);
        pool.add(item);
    }
    assert_eq!(pool.size(), 1);
    assert_eq!(pool.extract_object().unwrap(), "hello world");
    assert_eq!(pool.size(), 0);
}

#[test]
fn test_zero_timeout_checks_available_items() {
    let mut pool = AutoPool::new_with_config(
        AutoPoolConfig {
            wait_duration: std::time::Duration::ZERO,
            ..Default::default()
        },
        vec![7],
    );
    assert_eq!(pool.extract_object().unwrap(), 7);
    assert!(pool.extract_object().is_none());
}

#[test]
fn new_keeps_the_default_policy_and_the_items() {
    let pool = AutoPool::new(vec![4, 5]);
    let config = pool.config();
    assert_eq!(config.pick_strategy, PickStrategy::LIFO);
    assert_eq!(config.wait_duration, std::time::Duration::MAX);
    assert_eq!(pool.size(), 2);
}

#[test]
fn lifo_hands_out_the_last_returned_object() {
    let mut pool = AutoPool::new(vec![1, 2, 3]);
    pool.add(9);
    assert_eq!(pool.extract_object(), Some(9));
    assert_eq!(pool.extract_object(), Some(3));
}

#[test]
fn random_extraction_takes_the_drawn_index_and_moves_the_last_object_there() {
    let config = AutoPoolConfig { pick_strategy: PickStrategy::RANDOM, ..Default::default() };
    let mut pool = AutoPool::new_with_config(config, vec![10, 20, 30, 40]);
    // 5 % 4 == 1: the object at index 1 leaves and 40 takes its place.
    assert_eq!(pool.extract_with(5), Some(20));
    assert_eq!(pool.extract_with(1), Some(40));
    // [10, 30] remain: 2 % 2 == 0.
    assert_eq!(pool.extract_with(2), Some(10));
    assert_eq!(pool.extract_with(7), Some(30));
    assert_eq!(pool.extract_with(0), None);
}

#[test]
fn lifo_extraction_ignores_the_draw() {
    let mut pool = AutoPool::new(vec![10, 20, 30]);
    assert_eq!(pool.extract_with(0), Some(30));
    assert_eq!(pool.extract_with(12345), Some(20));
    assert_eq!(pool.size(), 1);
}

#[test]
fn checkout_then_return_keeps_the_same_objects() {
    let config = AutoPoolConfig { pick_strategy: PickStrategy::RANDOM, ..Default::default() };
    let mut pool = AutoPool::new_with_config(config, vec![1, 2, 3, 4, 5]);
    for _ in 0..50 {
        let item = pool.extract_object().unwrap();
        assert!((1..=5).contains(&item));
        assert_eq!(pool.size(), 4);
        pool.add(item);
    }
    let mut values = Vec::new();
    while let Some(item) = pool.extract_object() {
        values.push(item);
    }
    values.sort_unstable();
    assert_eq!(values, [1, 2, 3, 4, 5]);
}

#[test]
fn shrink_to_fit_keeps_the_available_objects() {
    let mut pool = AutoPool::new(Vec::with_capacity(64));
    pool.add(1);
    pool.add(2);
    pool.shrink_to_fit();
    assert_eq!(pool.size(), 2);
    assert_eq!(pool.extract_object(), Some(2));
    assert_eq!(pool.extract_object(), Some(1));
}
