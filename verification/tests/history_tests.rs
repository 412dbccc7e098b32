use arto::history::HistoryManager;

#[test]
fn test_new_history_manager() {
    let manager = HistoryManager::new();
    assert!(manager.is_empty());
    assert_eq!(manager.current(), None);
    assert!(!manager.can_go_back());
    assert!(!manager.can_go_forward());
}

#[test]
fn test_push_first_item() {
    let mut manager = HistoryManager::new();
    let path = "/test/file1.md".to_string();
    manager.push(path.clone());

    assert_eq!(manager.len(), 1);
    assert_eq!(manager.current(), Some(&path));
    assert!(!manager.can_go_back());
    assert!(!manager.can_go_forward());
}

#[test]
fn test_push_multiple_items() {
    let mut manager = HistoryManager::new();
    let path1 = "/test/file1.md".to_string();
    let path2 = "/test/file2.md".to_string();
    let path3 = "/test/file3.md".to_string();

    manager.push(path1);
    manager.push(path2.clone());
    manager.push(path3.clone());

    assert_eq!(manager.len(), 3);
    assert_eq!(manager.current(), Some(&path3));
    assert!(manager.can_go_back());
    assert!(!manager.can_go_forward());
}

#[test]
fn test_go_back() {
    let mut manager = HistoryManager::new();
    let path1 = "/test/file1.md".to_string();
    let path2 = "/test/file2.md".to_string();

    manager.push(path1.clone());
    manager.push(path2);

    let back = manager.go_back();
    assert_eq!(back, Some(path1.clone()));
    assert_eq!(manager.current(), Some(&path1));
    assert!(!manager.can_go_back());
    assert!(manager.can_go_forward());
}

#[test]
fn test_go_forward() {
    let mut manager = HistoryManager::new();
    let path1 = "/test/file1.md".to_string();
    let path2 = "/test/file2.md".to_string();

    manager.push(path1);
    manager.push(path2.clone());
    manager.go_back();

    let forward = manager.go_forward();
    assert_eq!(forward, Some(path2.clone()));
    assert_eq!(manager.current(), Some(&path2));
    assert!(manager.can_go_back());
    assert!(!manager.can_go_forward());
}

#[test]
fn test_push_clears_forward_history() {
    let mut manager = HistoryManager::new();
    let path1 = "/test/file1.md".to_string();
    let path2 = "/test/file2.md".to_string();
    let path3 = "/test/file3.md".to_string();

    manager.push(path1.clone());
    manager.push(path2);
    manager.go_back();

    manager.push(path3.clone());

    assert_eq!(manager.len(), 2);
    assert_eq!(manager.current(), Some(&path3));
    assert!(manager.can_go_back());
    assert!(!manager.can_go_forward());
}

#[test]
fn test_push_duplicate_does_nothing() {
    let mut manager = HistoryManager::new();
    let path = "/test/file1.md".to_string();

    manager.push(path.clone());
    manager.push(path.clone());

    assert_eq!(manager.len(), 1);
}
