use gcdevproxy::device::{DeviceHandle, DeviceManager, SendError};
use gcdevproxy::queue::{RequestQueue, QUEUE_CAPACITY};

#[test]
fn get_after_add_returns_the_latest_handle() {
    let mut manager: DeviceManager<u32> = DeviceManager::new();
    assert!(manager.get("cam1").is_none());
    assert!(manager.add("cam1", 1, DeviceHandle::new()).is_none());
    assert_eq!(manager.session_of("cam1"), Some(1));
    assert!(manager.add("cam2", 7, DeviceHandle::new()).is_none());
    let displaced = manager.add("cam1", 2, DeviceHandle::new());
    assert!(displaced.is_some());
    assert_eq!(manager.session_of("cam1"), Some(2));
    assert_eq!(manager.session_of("cam2"), Some(7));
    assert_eq!(manager.len(), 2);
}

#[test]
fn remove_with_a_stale_session_changes_nothing() {
    let mut manager: DeviceManager<u32> = DeviceManager::new();
    manager.add("cam1", 1, DeviceHandle::new());
    manager.add("cam1", 2, DeviceHandle::new());
    assert!(manager.remove("cam1", Some(1)).is_none());
    assert_eq!(manager.session_of("cam1"), Some(2));
    assert!(manager.remove("cam1", Some(2)).is_some());
    assert!(manager.get("cam1").is_none());
    assert_eq!(manager.len(), 0);
}

#[test]
fn remove_without_a_session_is_unconditional() {
    let mut manager: DeviceManager<u32> = DeviceManager::new();
    manager.add("cam1", 5, DeviceHandle::new());
    assert!(manager.remove("cam1", None).is_some());
    assert!(manager.remove("cam1", None).is_none());
    assert!(manager.remove("unknown", Some(5)).is_none());
}

#[test]
fn registering_cam1_twice_displaces_the_old_handle_once() {
    let mut manager: DeviceManager<&'static str> = DeviceManager::new();
    assert!(manager.connect("cam1", 1).is_empty());
    assert_eq!(manager.send_request("cam1", "first").is_ok(), true);
    assert_eq!(manager.send_request("cam1", "second").is_ok(), true);

    // The second registration closes the first tunnel: what waited for it
    // comes back, once.
    let abandoned = manager.connect("cam1", 2);
    assert_eq!(abandoned, vec!["first", "second"]);
    assert_eq!(manager.session_of("cam1"), Some(2));
    assert_eq!(manager.get("cam1").map(|handle| handle.pending()), Some(0));
    assert_eq!(manager.get("cam1").map(|handle| handle.is_closed()), Some(false));

    // The task of the first session ends later and finds nothing to close.
    assert!(manager.disconnect("cam1", 1).is_empty());
    assert_eq!(manager.session_of("cam1"), Some(2));
    assert_eq!(manager.len(), 1);

    assert!(manager.disconnect("cam1", 2).is_empty());
    assert!(manager.get("cam1").is_none());
}

#[test]
fn requests_beyond_the_capacity_wait_for_a_free_place() {
    let mut manager: DeviceManager<u32> = DeviceManager::new();
    manager.connect("cam1", 9);
    for request in 0..4u32 {
        assert!(manager.send_request("cam1", request).is_ok());
    }
    match manager.send_request("cam1", 4) {
        Err(SendError::Full(request)) => assert_eq!(request, 4),
        _ => panic!("the fifth request must be handed back"),
    }
    assert_eq!(manager.get("cam1").map(|handle| handle.pending()), Some(4));

    // A stale forwarding task gets nothing.
    assert_eq!(manager.next_request("cam1", 8), None);
    assert_eq!(manager.next_request("cam1", 9), Some(0));
    assert!(manager.send_request("cam1", 4).is_ok());

    let mut served = Vec::new();
    while let Some(request) = manager.next_request("cam1", 9) {
        served.push(request);
    }
    assert_eq!(served, vec![1, 2, 3, 4]);
    assert_eq!(manager.next_request("cam1", 9), None);
}

#[test]
fn a_request_for_an_unknown_or_closed_device_is_disconnected() {
    let mut manager: DeviceManager<u32> = DeviceManager::new();
    match manager.send_request("cam1", 1) {
        Err(SendError::Disconnected(request)) => assert_eq!(request, 1),
        _ => panic!("an unknown device is disconnected"),
    }
    let mut handle: DeviceHandle<u32> = DeviceHandle::new();
    assert!(handle.send_request(1).is_ok());
    assert_eq!(handle.close(), vec![1]);
    assert!(handle.is_closed());
    match handle.send_request(2) {
        Err(SendError::Disconnected(request)) => assert_eq!(request, 2),
        _ => panic!("a closed handle is disconnected"),
    }
    assert_eq!(handle.next_request(), None);
}

#[test]
fn the_queue_hands_requests_out_in_order() {
    let mut queue: RequestQueue<u8> = RequestQueue::new();
    assert_eq!(QUEUE_CAPACITY, 4);
    assert_eq!(queue.take(), None);
    for request in 1..=4u8 {
        assert_eq!(queue.offer(request), Ok(()));
    }
    assert!(queue.is_full());
    assert_eq!(queue.offer(5), Err(5));
    assert_eq!(queue.len(), 4);
    assert_eq!(queue.take(), Some(1));
    assert_eq!(queue.offer(5), Ok(()));
    assert_eq!(queue.drain(), vec![2, 3, 4, 5]);
    assert_eq!(queue.len(), 0);
}
