use perfjail::listener::process_info::ProcessInfo;
use perfjail::listener::sighandler::SighandlerState;
use perfjail::process::timeout::TimeoutRegistry;
use perfjail::settings::set_perf_timeout_thread_count;
use perfjail::util::fixed_map::FixedMap;
use perfjail::util::fixed_map::FixedMapBucket;

#[test]
fn bucket_takes_as_many_keys_as_it_has_slots() {
    let mut bucket = FixedMapBucket::new(2);
    assert_eq!(bucket.get(5), None);
    assert!(bucket.can_insert(5));
    bucket.insert(5, 50);
    assert!(bucket.can_insert(6));
    bucket.insert(6, 60);
    assert_eq!(bucket.get(5), Some(50));
    assert_eq!(bucket.get(6), Some(60));
    assert!(!bucket.can_insert(7));
    assert!(bucket.can_insert(5));
    bucket.insert(5, 51);
    assert_eq!(bucket.get(5), Some(51));
    assert_eq!(bucket.get(6), Some(60));
    bucket.remove(5);
    assert_eq!(bucket.get(5), None);
    assert!(bucket.can_insert(7));
    bucket.insert(7, 70);
    assert_eq!(bucket.get(7), Some(70));
    assert_eq!(bucket.get(6), Some(60));
    assert!(!bucket.can_insert(5));
    bucket.remove(9);
    assert!(!bucket.can_insert(5));
    bucket.remove(6);
    bucket.remove(7);
    assert_eq!(bucket.get(6), None);
    assert_eq!(bucket.get(7), None);
    assert!(bucket.can_insert(5));
    let empty = FixedMapBucket::new(0);
    assert!(!empty.can_insert(1));
    assert_eq!(empty.get(1), None);
}

#[test]
fn table_maps_descriptors_to_descriptors() {
    let mut map = FixedMap::new(4, 2);
    assert_eq!(map.get(3), None);
    map.insert(3, 30);
    map.insert(7, 70);
    map.insert(4, 40);
    map.insert(0, 1);
    assert_eq!(map.get(3), Some(30));
    assert_eq!(map.get(7), Some(70));
    assert_eq!(map.get(4), Some(40));
    assert_eq!(map.get(0), Some(1));
    assert_eq!(map.get(11), None);
    assert!(!map.can_insert(11));
    assert!(map.can_insert(3));
    assert!(!map.can_insert(8));
    assert!(map.can_insert(9));
    map.insert(3, 31);
    assert_eq!(map.get(3), Some(31));
    assert_eq!(map.get(7), Some(70));
    map.remove(7);
    assert_eq!(map.get(7), None);
    assert_eq!(map.get(3), Some(31));
    assert!(map.can_insert(11));
    map.insert(11, 110);
    assert_eq!(map.get(11), Some(110));
    map.remove(100);
    map.remove(3);
    map.remove(11);
    assert_eq!(map.get(3), None);
    assert_eq!(map.get(11), None);
    assert_eq!(map.get(4), Some(40));
    map.insert(2_147_483_647, -5);
    assert_eq!(map.get(2_147_483_647), Some(-5));
}

#[test]
fn routes_lead_from_counters_to_supervisors() {
    let mut state = SighandlerState::new();
    assert!(!state.is_started());
    assert_eq!(state.notification_target(5), None);
    assert!(!state.can_register(5));
    set_perf_timeout_thread_count(&mut state, 2);
    assert!(state.is_started());
    assert!(state.can_register(5));
    assert!(!state.can_register(-1));
    state.register(5, 105);
    state.register(25, 125);
    assert_eq!(state.notification_target(5), Some(105));
    assert_eq!(state.notification_target(25), Some(125));
    assert_eq!(state.notification_target(45), None);
    assert_eq!(state.notification_target(-1), None);
    assert_eq!(state.notification_target(-7), None);
    assert!(!state.can_register(45));
    assert!(state.can_register(6));
    state.register(5, 106);
    assert_eq!(state.notification_target(5), Some(106));
    state.unregister(5);
    state.unregister(-1);
    state.unregister(77);
    assert_eq!(state.notification_target(5), None);
    assert_eq!(state.notification_target(25), Some(125));
    assert!(state.can_register(45));
    assert!(!state.init_sighandler(9));
    assert_eq!(state.notification_target(25), Some(125));
}

#[test]
fn routing_state_is_set_up_once() {
    let mut state = SighandlerState::new();
    assert!(state.init_sighandler(0));
    assert!(state.is_started());
    assert!(!state.can_register(1));
    assert_eq!(state.notification_target(1), None);
    state.unregister(1);
    assert!(!state.init_sighandler(3));
    assert!(!state.can_register(1));
    let mut other = SighandlerState::new();
    assert!(other.init_sighandler(1));
    assert!(other.can_register(1));
    other.register(1, 2);
    assert!(other.can_register(1));
    assert!(!other.can_register(11));
    assert!(other.can_register(2));
}

#[test]
fn registry_holds_each_thread_once() {
    let mut registry = TimeoutRegistry::new();
    assert!(registry.threads_to_signal().is_empty());
    assert!(!registry.is_registered(10));
    registry.add_timeout_thread(10);
    registry.add_timeout_thread(20);
    registry.add_timeout_thread(10);
    let mut threads = registry.threads_to_signal();
    threads.sort();
    assert_eq!(threads, vec![10, 20]);
    assert!(registry.is_registered(10));
    assert!(registry.is_registered(20));
    assert!(!registry.is_registered(30));
    registry.remove_timeout_thread(10);
    assert_eq!(registry.threads_to_signal(), vec![20]);
    assert!(!registry.is_registered(10));
    registry.add_timeout_thread(10);
    registry.remove_timeout_thread(20);
    registry.remove_timeout_thread(10);
    assert!(registry.threads_to_signal().is_empty());
}

#[test]
fn registry_serves_supervisors_back_to_back() {
    let mut registry = TimeoutRegistry::new();
    for tid in [7, 7, 8] {
        assert!(!registry.is_registered(tid));
        registry.add_timeout_thread(tid);
        assert_eq!(registry.threads_to_signal(), vec![tid]);
        registry.remove_timeout_thread(tid);
        assert!(registry.threads_to_signal().is_empty());
    }
}

#[test]
fn process_tree_starts_with_its_root() {
    let tree = ProcessInfo::new(100);
    assert_eq!(tree.get_pid(), 100);
    assert!(tree.get_process(100));
    assert!(!tree.get_process(101));
    assert_eq!(tree.get_parent(100), None);
    assert_eq!(tree.get_parent(101), None);
    assert!(!tree.get_child(100, 101));
    assert!(tree.is_descendant(100, 100));
    assert!(!tree.is_descendant(101, 100));
}

#[test]
fn process_tree_grows_by_children() {
    let mut tree = ProcessInfo::new(1);
    tree.add_child(1, 2);
    tree.add_child(1, 3);
    tree.add_child(2, 4);
    tree.add_child(4, 5);
    assert_eq!(tree.get_pid(), 1);
    for pid in [1, 2, 3, 4, 5] {
        assert!(tree.get_process(pid));
    }
    assert!(!tree.get_process(6));
    assert_eq!(tree.get_parent(2), Some(1));
    assert_eq!(tree.get_parent(3), Some(1));
    assert_eq!(tree.get_parent(4), Some(2));
    assert_eq!(tree.get_parent(5), Some(4));
    assert_eq!(tree.get_parent(1), None);
    assert!(tree.get_child(1, 2));
    assert!(tree.get_child(2, 4));
    assert!(!tree.get_child(1, 4));
    assert!(!tree.get_child(4, 2));
    assert!(!tree.get_child(1, 1));
    assert!(tree.is_descendant(5, 2));
    assert!(tree.is_descendant(5, 1));
    assert!(tree.is_descendant(5, 5));
    assert!(tree.is_descendant(4, 2));
    assert!(!tree.is_descendant(5, 3));
    assert!(!tree.is_descendant(2, 5));
    assert!(!tree.is_descendant(1, 2));
    assert!(!tree.is_descendant(3, 2));
}

#[test]
fn deleting_a_child_takes_its_descendants_along() {
    let mut tree = ProcessInfo::new(1);
    tree.add_child(1, 2);
    tree.add_child(1, 3);
    tree.add_child(2, 4);
    tree.add_child(4, 5);
    tree.add_child(3, 6);
    tree.delete_child(1, 2);
    assert!(tree.get_process(1));
    assert!(tree.get_process(3));
    assert!(tree.get_process(6));
    assert!(!tree.get_process(2));
    assert!(!tree.get_process(4));
    assert!(!tree.get_process(5));
    assert_eq!(tree.get_parent(5), None);
    assert_eq!(tree.get_parent(6), Some(3));
    assert!(!tree.get_child(1, 2));
    assert!(tree.get_child(1, 3));
    tree.add_child(6, 4);
    tree.add_child(1, 2);
    assert_eq!(tree.get_parent(4), Some(6));
    assert_eq!(tree.get_parent(2), Some(1));
    assert!(tree.is_descendant(4, 3));
    assert!(!tree.is_descendant(4, 2));
    tree.delete_child(6, 4);
    assert!(!tree.get_process(4));
    assert!(tree.get_process(6));
    tree.delete_child(1, 3);
    assert!(!tree.get_process(3));
    assert!(!tree.get_process(6));
    assert!(tree.get_process(2));
    tree.delete_child(1, 2);
    assert!(!tree.get_process(2));
    assert!(tree.get_process(1));
    assert_eq!(tree.get_pid(), 1);
}
