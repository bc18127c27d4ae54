use rascam::bridge::{camera_buffer_callback, camera_control_callback, is_frame_boundary};
use rascam::{BufferPool, ControlEvent, Delivery, ErrorKind, PoolState};

#[test]
fn frame_boundary_merges_frame_end_and_transmission_failure() {
    assert!(is_frame_boundary(4));
    assert!(is_frame_boundary(1024));
    assert!(is_frame_boundary(4132));
    assert!(is_frame_boundary(4108));
    assert!(!is_frame_boundary(8));
    assert!(!is_frame_boundary(4096 | 32));
    assert!(!is_frame_boundary(0));
}

#[test]
fn buffer_callback_decisions() {
    assert_eq!(camera_buffer_callback(false, 100, 4), Delivery::Unattended);
    assert_eq!(camera_buffer_callback(true, 100, 4), Delivery::Data { frame_end: true });
    assert_eq!(camera_buffer_callback(true, 100, 0), Delivery::Data { frame_end: false });
    assert_eq!(camera_buffer_callback(true, 0, 4), Delivery::EndOfStream);
    assert_eq!(camera_buffer_callback(true, 0, 0), Delivery::EndOfStream);
}

#[test]
fn control_callback_events() {
    assert_eq!(camera_control_callback(0x4843_5045), ControlEvent::ParameterChanged);
    assert_eq!(camera_control_callback(0x4f52_5245), ControlEvent::SensorError);
    assert_eq!(camera_control_callback(7), ControlEvent::Unexpected);
}

#[test]
fn drain_and_return_cycle_restores_the_pool() {
    let mut pool = BufferPool::new(3);
    let initial = pool.state();
    assert_eq!(pool.drain_into(), 3);
    assert_eq!(pool.state(), PoolState { capacity: 3, free: 0, at_port: 3, held: 0 });
    let a = pool.deliver(0, 10, false);
    let b = pool.deliver(0, 10, false);
    let c = pool.deliver(0, 10, true);
    assert_eq!(pool.state(), PoolState { capacity: 3, free: 0, at_port: 0, held: 3 });
    assert!(!pool.release(a, false));
    assert!(!pool.release(b, false));
    assert!(!pool.release(c, false));
    assert_eq!(pool.state(), initial);
}

#[test]
fn guard_release_requeues_while_the_port_is_enabled() {
    let mut pool = BufferPool::new(2);
    pool.drain_into();
    let g = pool.deliver(0, 5, true);
    assert!(g.is_frame_end());
    assert!(pool.release(g, true));
    assert_eq!(pool.state(), PoolState { capacity: 2, free: 0, at_port: 2, held: 0 });
    pool.release_terminal();
    assert_eq!(pool.state(), PoolState { capacity: 2, free: 1, at_port: 1, held: 0 });
    pool.requeue_refused();
    assert_eq!(pool.state(), PoolState { capacity: 2, free: 2, at_port: 0, held: 0 });
}

#[test]
fn send_buffer_fails_fast() {
    let mut pool = BufferPool::new(2);
    pool.send_buffer(0).unwrap();
    let before = pool.state();
    let e = pool.send_buffer(3).unwrap_err();
    assert!(matches!(e.kind(), ErrorKind::Mmal(m)
        if m.message() == "Unable to send a buffer to camera output port" && m.status_code() == 3));
    assert_eq!(pool.state(), before);
    assert_eq!(pool.free_count(), 1);
    let e = BufferPool::missing_buffer();
    assert!(matches!(e.kind(), ErrorKind::Mmal(m) if m.status_code() == 0x7fff_ffff));
}

#[test]
fn guard_bytes_are_the_valid_range() {
    let mut pool = BufferPool::new(1);
    pool.drain_into();
    let data: Vec<u8> = (0u8..16).collect();
    let g = pool.deliver(4, 5, false);
    assert_eq!(g.get_bytes(&data), &[4, 5, 6, 7, 8]);
    assert_eq!(g.len(), 5);
    assert!(!g.is_frame_end());
    pool.release(g, false);
}
