use magic_nix_cache::StringSet;

#[test]
fn insert_contains_remove() {
    let mut s = StringSet::new();
    let a = "abc".to_string();
    let b = "def".to_string();
    assert!(!s.contains(&a));
    s.insert(a.clone());
    s.insert(a.clone());
    s.insert(b.clone());
    assert!(s.contains(&a));
    assert!(s.contains(&b));
    s.remove(&a);
    assert!(!s.contains(&a));
    assert!(s.contains(&b));
    s.remove(&a);
    assert!(s.contains(&b));
}
