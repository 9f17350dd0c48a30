use happy::controller::Controller;
use happy::screen_sync::{controller_step, frame_means, frame_step, toggle_screen_sync, Capture, FrameAction};

#[test]
fn uniform_frame_means() {
    let frame: Vec<u8> = [10u8, 20, 30, 255].repeat(6);
    assert_eq!(frame_means(&frame), (10, 20, 30));
}

#[test]
fn mixed_frame_means_round_down() {
    // channel 0: (0 + 255) / 2 = 127.5 -> 127
    let frame: Vec<u8> = vec![0, 1, 2, 0, 255, 2, 5, 0];
    assert_eq!(frame_means(&frame), (127, 1, 3));
}

#[test]
fn empty_frame_means_are_zero() {
    assert_eq!(frame_means(&[]), (0, 0, 0));
}

#[test]
fn partial_last_pixel_counts() {
    // seven bytes: one whole pixel and three bytes of a second; divided by 7/4
    let frame: Vec<u8> = vec![255, 255, 100, 0, 255, 0, 100];
    let (a, b, c) = frame_means(&frame);
    assert_eq!(a, 255); // 4 * 510 / 7 = 291, capped
    assert_eq!(b, 145); // 4 * 255 / 7 = 145
    assert_eq!(c, 114); // 4 * 200 / 7 = 114
}

#[test]
fn frame_step_actions() {
    let frame: Vec<u8> = vec![1, 2, 3, 4];
    assert_eq!(frame_step(Capture::Frame(&frame)), FrameAction::Send(1, 2, 3));
    assert_eq!(frame_step(Capture::WouldBlock), FrameAction::Wait);
    assert_eq!(frame_step(Capture::Failed), FrameAction::Stop);
}

#[test]
fn controller_step_swaps_channels() {
    let mut c: Controller<String, u32> = Controller::new();
    c.set_peripheral("p".to_string());
    c.set_char(2);
    let w = controller_step(&c, Some((1, 2, 3))).unwrap();
    assert_eq!(w.data, vec![86, 3, 2, 1, 0, 240, 170]);
    assert!(controller_step(&c, None).is_none());
}

#[test]
fn toggling_twice_restores() {
    let t = toggle_screen_sync(false);
    assert!(t.sync_on && t.start_tasks);
    let u = toggle_screen_sync(t.sync_on);
    assert!(!u.sync_on && !u.start_tasks);
}
