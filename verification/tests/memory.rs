use pgbridge::host::HostState;
use pgbridge::memory::{get_current_ctx, MemoryContext};

#[test]
fn allocation_is_zero_filled_at_exact_length() {
    let mut st = HostState::new();
    let root = get_current_ctx(&st);
    for &size in &[0usize, 1, 4096] {
        let r = root.allocate(&mut st, size);
        let bytes = r.read(&st).expect("a fresh allocation is readable");
        assert_eq!(bytes.len(), size);
        assert!(bytes.iter().all(|&b| b == 0));
    }
}

#[test]
fn alloc_undef_has_exact_length() {
    let mut st = HostState::new();
    let root = get_current_ctx(&st);
    let r = root.alloc_undef(&mut st, 33);
    assert_eq!(r.read(&st).expect("readable").len(), 33);
}

#[test]
fn deleting_a_parent_invalidates_descendant_allocations() {
    let mut st = HostState::new();
    let root = get_current_ctx(&st);
    let parent = MemoryContext::create_allocset(&mut st, Some(&root), 0, 8192, 8192 * 1024);
    let child = MemoryContext::create_allocset(&mut st, Some(&parent), 0, 8192, 8192 * 1024);
    let in_child = child.allocate(&mut st, 64);
    let in_parent = parent.allocate(&mut st, 64);
    let in_root = root.allocate(&mut st, 64);
    assert!(in_child.read(&st).is_some());
    parent.delete(&mut st);
    // descendants go with the parent ...
    assert!(in_parent.read(&st).is_none());
    assert!(in_child.read(&st).is_none());
    // ... but unrelated contexts stay
    assert!(in_root.read(&st).is_some());
    // fresh allocations never show stale content
    let again = MemoryContext::create_allocset(&mut st, Some(&root), 0, 8192, 8192 * 1024);
    let fresh = again.allocate(&mut st, 64);
    let bytes = fresh.read(&st).expect("readable");
    assert!(bytes.iter().all(|&b| b == 0));
}

#[test]
fn set_current_switches_the_ambient_context() {
    let mut st = HostState::new();
    let root = get_current_ctx(&st);
    let other = MemoryContext::create_allocset(&mut st, None, 0, 1024, 1024 * 1024);
    other.set_current(&mut st);
    assert_eq!(get_current_ctx(&st).id(), other.id());
    root.set_current(&mut st);
    assert_eq!(get_current_ctx(&st).id(), root.id());
}

#[test]
fn deleting_a_child_keeps_the_parent() {
    let mut st = HostState::new();
    let root = get_current_ctx(&st);
    let parent = MemoryContext::create_allocset(&mut st, Some(&root), 0, 8192, 8192 * 1024);
    let child = MemoryContext::create_allocset(&mut st, Some(&parent), 0, 8192, 8192 * 1024);
    let in_parent = parent.allocate(&mut st, 8);
    child.delete(&mut st);
    assert!(in_parent.read(&st).is_some());
}
