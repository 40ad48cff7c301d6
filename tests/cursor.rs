use std::time::Duration;

use winit::{
    ActiveEventLoop, BadAnimation, CustomCursor, CustomCursorError, CustomCursorExtWeb,
    EventLoop, PlatformCustomCursorSource, PlatformSpecificEventLoopAttributes,
};

fn new_loop() -> EventLoop {
    EventLoop::new(&PlatformSpecificEventLoopAttributes::default()).unwrap()
}

fn still(target: &ActiveEventLoop) -> CustomCursor {
    target.create_custom_cursor(CustomCursor::from_url("a.png".to_string(), 1, 2))
}

#[test]
fn from_url_keeps_its_arguments() {
    let s = CustomCursor::from_url("cursor.png".to_string(), 3, 9);
    match s.inner {
        PlatformCustomCursorSource::Url { url, hotspot_x, hotspot_y } => {
            assert_eq!(url, "cursor.png");
            assert_eq!((hotspot_x, hotspot_y), (3, 9));
        }
        _ => panic!("expected a URL source"),
    }
}

#[test]
fn animation_of_nothing_is_empty() {
    let r = CustomCursor::from_animation(Duration::from_millis(100), Vec::new());
    assert!(matches!(r, Err(BadAnimation::Empty)));
}

#[test]
fn animation_of_animation_is_refused() {
    let l = new_loop();
    let target = l.window_target();
    let a = still(target);
    let b = still(target);
    let anim = target
        .create_custom_cursor(CustomCursor::from_animation(Duration::from_millis(10), vec![a, b]).unwrap());
    assert!(anim.is_animation());
    let r = CustomCursor::from_animation(Duration::from_millis(10), vec![anim]);
    assert!(matches!(r, Err(BadAnimation::Animation)));
    let r = CustomCursor::from_animation(Duration::from_millis(10), vec![a, anim, b]);
    assert!(matches!(r, Err(BadAnimation::Animation)));
}

#[test]
fn animation_of_stills_is_animation() {
    let l = new_loop();
    let target = l.window_target();
    let c1 = still(target);
    let c2 = still(target);
    assert!(!c1.is_animation());
    let s = CustomCursor::from_animation(Duration::from_millis(250), vec![c1, c2]).unwrap();
    match &s.inner {
        PlatformCustomCursorSource::Animation { duration, cursors } => {
            assert_eq!(*duration, Duration::from_millis(250));
            assert_eq!(cursors.len(), 2);
        }
        _ => panic!("expected an animation source"),
    }
    assert!(target.create_custom_cursor(s).is_animation());
}

#[test]
fn error_messages() {
    assert_eq!(BadAnimation::Empty.to_string(), "No cursors supplied");
    assert_eq!(BadAnimation::Animation.to_string(), "A supplied cursor is an animtion");
    assert_eq!(CustomCursorError::Blob.to_string(), "failed to create `Blob`");
    assert_eq!(
        CustomCursorError::Decode("bad header".to_string()).to_string(),
        "failed to decode image: bad header"
    );
}
