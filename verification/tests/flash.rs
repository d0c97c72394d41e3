use axum_sass_template::flash::{Level, Message, Messages};

#[test]
fn flash_is_shown_once() {
    let mut queue = Messages::new();
    queue.success("Saved".to_string());
    let first = queue.take();
    assert_eq!(first.len(), 1);
    assert_eq!(first[0].level, Level::Success);
    assert_eq!(first[0].text, "Saved");
    let second = queue.take();
    assert!(second.is_empty());
    assert_eq!(queue.len(), 0);
}

#[test]
fn flash_keeps_order_and_level() {
    let mut queue = Messages::new();
    assert_eq!(queue.len(), 0);
    queue.error("first".to_string());
    queue.success("second".to_string());
    queue.push(Message { level: Level::Error, text: "third".to_string() });
    assert_eq!(queue.len(), 3);
    let shown = queue.take();
    let seen: Vec<(Level, &str)> = shown.iter().map(|m| (m.level, m.text.as_str())).collect();
    assert_eq!(
        seen,
        vec![(Level::Error, "first"), (Level::Success, "second"), (Level::Error, "third")]
    );
    assert!(queue.take().is_empty());
}

#[test]
fn flash_after_take_starts_again() {
    let mut queue = Messages::new();
    queue.error("one".to_string());
    assert_eq!(queue.take().len(), 1);
    queue.error("two".to_string());
    let shown = queue.take();
    assert_eq!(shown.len(), 1);
    assert_eq!(shown[0].text, "two");
}
