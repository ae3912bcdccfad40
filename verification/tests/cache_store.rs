use image_cache::cache::BytesCache;

#[test]
fn missing_key_is_a_miss() {
    let cache = BytesCache::new(1024);
    assert!(cache.get(&"http://example.com/a.png".to_string()).is_none());
}

#[test]
fn stored_bytes_are_read_back_unchanged() {
    let mut cache = BytesCache::new(1024);
    let key = "http://example.com/a.png".to_string();
    assert_eq!(cache.set(key.clone(), vec![1, 2, 3]), Ok(()));
    let entry = cache.get(&key).unwrap();
    assert_eq!(entry.bytes, vec![1, 2, 3]);
}

#[test]
fn a_second_write_replaces_the_payload() {
    let mut cache = BytesCache::new(1024);
    let key = "http://example.com/a.png".to_string();
    assert_eq!(cache.set(key.clone(), vec![1, 2, 3]), Ok(()));
    assert_eq!(cache.set(key.clone(), vec![9, 9]), Ok(()));
    assert_eq!(cache.get(&key).unwrap().bytes, vec![9, 9]);
}

#[test]
fn writes_do_not_disturb_other_keys() {
    let mut cache = BytesCache::new(1024);
    let a = "http://example.com/a.png".to_string();
    let b = "http://example.com/b.png".to_string();
    assert_eq!(cache.set(a.clone(), vec![1]), Ok(()));
    assert_eq!(cache.set(b.clone(), vec![2]), Ok(()));
    assert_eq!(cache.set(a.clone(), vec![3]), Ok(()));
    assert_eq!(cache.get(&a).unwrap().bytes, vec![3]);
    assert_eq!(cache.get(&b).unwrap().bytes, vec![2]);
}

#[test]
fn an_oversized_entry_is_rejected_and_nothing_changes() {
    let mut cache = BytesCache::new(4);
    let key = "http://example.com/a.png".to_string();
    assert_eq!(cache.set(key.clone(), vec![1, 2]), Ok(()));
    assert_eq!(cache.set(key.clone(), vec![0; 5]), Err(()));
    assert_eq!(cache.get(&key).unwrap().bytes, vec![1, 2]);
}

#[test]
fn an_entry_of_exactly_the_capacity_is_accepted() {
    let mut cache = BytesCache::new(4);
    let key = "http://example.com/a.png".to_string();
    assert_eq!(cache.set(key.clone(), vec![7; 4]), Ok(()));
    assert_eq!(cache.get(&key).unwrap().bytes, vec![7; 4]);
}
