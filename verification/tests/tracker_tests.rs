use klipbored::content::ClipboardContent;
use klipbored::content::ImageDataOwned;
use klipbored::tracker::ClipboardTracker;

fn image(bytes: Vec<u8>) -> ImageDataOwned {
    assert!(bytes.len() % 4 == 0);
    let pixels = bytes.len() / 4;
    ImageDataOwned::new(pixels, 1, bytes)
}

#[test]
fn first_observation_of_text_is_an_event() {
    let mut tracker = ClipboardTracker::new();
    let event = tracker.poll_tick(0, Some("abc".to_string()), None);
    match event {
        Some(ClipboardContent::Text { full, display }) => {
            assert_eq!(full, "abc");
            assert_eq!(display, "abc");
        }
        other => panic!("expected a text event, got {:?}", other),
    }
}

#[test]
fn same_text_on_consecutive_ticks_is_one_event() {
    // Observing "abc" on tick 1 and "abc" again on tick 2 yields exactly one
    // new-item event, not two.
    let mut tracker = ClipboardTracker::new();
    let first = tracker.poll_tick(0, Some("abc".to_string()), None);
    assert!(first.is_some());
    let second = tracker.poll_tick(800, Some("abc".to_string()), None);
    assert!(second.is_none());
}

#[test]
fn empty_text_is_never_an_event() {
    let mut tracker = ClipboardTracker::new();
    assert!(tracker.poll_tick(0, Some(String::new()), None).is_none());
}

#[test]
fn absent_text_and_image_is_no_event() {
    let mut tracker = ClipboardTracker::new();
    assert!(tracker.poll_tick(0, None, None).is_none());
}

#[test]
fn self_write_suppression_window_and_priming() {
    // record_self_write("xyz") at time T: a poll at T+1000 observing "xyz"
    // produces no event; a poll at T+2000 observing a different text
    // produces an event (the window is 1500 ms, keyed off the write time).
    let mut tracker = ClipboardTracker::new();
    let t = 10_000u64;
    let written = ClipboardContent::new_text("xyz".to_string());
    tracker.record_self_write(&written, t);
    assert!(tracker.poll_tick(t + 1000, Some("xyz".to_string()), None).is_none());
    let event = tracker.poll_tick(t + 2000, Some("xyz2".to_string()), None);
    match event {
        Some(ClipboardContent::Text { full, .. }) => assert_eq!(full, "xyz2"),
        other => panic!("expected a text event, got {:?}", other),
    }
}

#[test]
fn self_written_text_is_not_redetected_after_the_window() {
    let mut tracker = ClipboardTracker::new();
    let written = ClipboardContent::new_text("xyz".to_string());
    tracker.record_self_write(&written, 1_000);
    // Far past the window, the primed text still does not count as new.
    assert!(tracker.poll_tick(60_000, Some("xyz".to_string()), None).is_none());
}

#[test]
fn inside_the_window_even_new_text_is_ignored() {
    let mut tracker = ClipboardTracker::new();
    let written = ClipboardContent::new_text("xyz".to_string());
    tracker.record_self_write(&written, 1_000);
    assert!(tracker.poll_tick(2_400, Some("fresh".to_string()), None).is_none());
    // The same text right after the window is an event: the window, not the
    // tick, decided above.
    assert!(tracker.poll_tick(2_500, Some("fresh".to_string()), None).is_some());
}

#[test]
fn new_image_is_an_event_and_repeat_is_not() {
    let mut tracker = ClipboardTracker::new();
    let first = tracker.poll_tick(0, None, Some(image(vec![1, 2, 3, 4])));
    match first {
        Some(ClipboardContent::Image { raw }) => {
            assert_eq!(raw.width, 1);
            assert_eq!(raw.height, 1);
            assert_eq!(raw.data, vec![1, 2, 3, 4]);
        }
        other => panic!("expected an image event, got {:?}", other),
    }
    let second = tracker.poll_tick(800, None, Some(image(vec![1, 2, 3, 4])));
    assert!(second.is_none());
    let third = tracker.poll_tick(1600, None, Some(image(vec![9, 9, 9, 9])));
    assert!(third.is_some());
}

#[test]
fn empty_image_bytes_are_never_an_event() {
    let mut tracker = ClipboardTracker::new();
    assert!(tracker.poll_tick(0, None, Some(image(Vec::new()))).is_none());
}

#[test]
fn text_takes_priority_over_image_in_one_tick() {
    let mut tracker = ClipboardTracker::new();
    let event = tracker.poll_tick(
        0,
        Some("words".to_string()),
        Some(image(vec![5, 6, 7, 8])),
    );
    assert!(matches!(event, Some(ClipboardContent::Text { .. })));
    // The image was not consumed: it is still new on the next tick.
    let event = tracker.poll_tick(800, Some("words".to_string()), Some(image(vec![5, 6, 7, 8])));
    assert!(matches!(event, Some(ClipboardContent::Image { .. })));
}

#[test]
fn self_write_of_image_primes_the_hash() {
    let mut tracker = ClipboardTracker::new();
    let img = image(vec![1, 2, 3, 4]);
    let written = ClipboardContent::new_image(img);
    tracker.record_self_write(&written, 0);
    assert!(tracker.poll_tick(5_000, None, Some(image(vec![1, 2, 3, 4]))).is_none());
    assert!(tracker.poll_tick(10_000, None, Some(image(vec![4, 3, 2, 1]))).is_some());
}
