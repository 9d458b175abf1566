use servo_bridge::repaint::{frame_copy, FrameCopy, RepaintFlag};

#[test]
fn one_paint_per_frame() {
    let mut f = RepaintFlag::new();
    assert!(!f.needs_repaint());
    assert!(!f.take_repaint());
    f.notify_new_frame_ready();
    f.notify_new_frame_ready();
    assert!(f.needs_repaint());
    assert!(f.take_repaint());
    assert!(!f.take_repaint());
}

#[test]
fn frame_copy_layout() {
    assert_eq!(
        frame_copy(800, 600),
        FrameCopy { x: 0, y: 0, width: 800, height: 600, pitch: 3200 }
    );
}
