use moq_player::renderer::Frame;
use moq_player::renderer::Renderer;

fn frame(handle: u64, width: u32, height: u32) -> Frame {
    Frame { handle, width, height }
}

#[test]
fn frames_show_in_fifo_order() {
    let mut renderer = Renderer::new(1);
    let f1 = frame(1, 640, 480);
    let f2 = frame(2, 1280, 720);
    let f3 = frame(3, 640, 480);
    assert!(renderer.push(f1));
    assert_eq!(renderer.render(), Some(f1));
    assert!(renderer.push(f2));
    assert_eq!(renderer.render(), Some(f2));
    assert!(renderer.push(f3));
    assert_eq!(renderer.render(), Some(f3));
    assert_eq!(renderer.queue.len(), 0);
}

#[test]
fn at_most_one_callback_outstanding() {
    let mut renderer = Renderer::new(1);
    assert!(renderer.push(frame(1, 10, 10)));
    assert!(!renderer.push(frame(2, 10, 10)));
    assert!(!renderer.push(frame(3, 10, 10)));
    let _ = renderer.render();
    // The callback was spent; only the next push arms a new one.
    assert!(renderer.push(frame(4, 10, 10)));
}

#[test]
fn tick_on_empty_queue_shows_nothing() {
    let mut renderer = Renderer::new(1);
    assert_eq!(renderer.render(), None);
    assert!(!renderer.scheduled);
}

#[test]
fn backlog_drains_oldest_first_without_rearming() {
    let mut renderer = Renderer::new(1);
    let f1 = frame(1, 10, 10);
    let f2 = frame(2, 20, 20);
    renderer.push(f1);
    renderer.push(f2);
    assert_eq!(renderer.render(), Some(f1));
    // The remaining backlog does not re-arm a callback by itself.
    assert!(!renderer.scheduled);
    assert_eq!(renderer.render(), Some(f2));
}
