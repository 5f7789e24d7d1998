use openharmony_ability::shared::{
    drain_pending_window_closes, notify_window_close, update_cursor_position, CursorPosition, Shared,
};

#[test]
fn close_requests_come_out_in_order_and_once() {
    let mut queue: Shared<Vec<i32>> = Shared::new(Vec::new());
    assert_eq!(drain_pending_window_closes(&mut queue), Vec::<i32>::new());
    notify_window_close(&mut queue, 7);
    notify_window_close(&mut queue, -3);
    notify_window_close(&mut queue, 7);
    assert_eq!(drain_pending_window_closes(&mut queue), vec![7, -3, 7]);
    notify_window_close(&mut queue, 1);
    assert_eq!(drain_pending_window_closes(&mut queue), vec![1]);
    assert_eq!(drain_pending_window_closes(&mut queue), Vec::<i32>::new());
}

#[test]
fn poisoned_queue_still_takes_requests_and_gives_none() {
    let mut queue: Shared<Vec<i32>> = Shared::new(Vec::new());
    notify_window_close(&mut queue, 1);
    queue.poison();
    notify_window_close(&mut queue, 2);
    assert_eq!(drain_pending_window_closes(&mut queue), Vec::<i32>::new());
    assert_eq!(queue.value, vec![1, 2]);
}

#[test]
fn cursor_keeps_the_bits_of_its_coordinates() {
    let mut position = CursorPosition::new();
    assert_eq!(f64::from_bits(position.x), 0.0);
    update_cursor_position(&mut position, 12.5f64.to_bits(), (-0.25f64).to_bits());
    assert_eq!(f64::from_bits(position.x), 12.5);
    assert_eq!(f64::from_bits(position.y), -0.25);
}
