use bishbash::bindings::Key;
use bishbash::colour::{circular_distance, FULL_TURN, HUE_THRESHOLD};
use bishbash::placement::{PlacementError, RandomPositionStrategy, SequentialPositionStrategy, Size};
use bishbash::session::{Action, Event, FrameState};

fn key_down(key: Key, repeat: bool) -> Event {
    Event::KeyDown { key, repeat }
}

#[test]
fn new_session_is_empty_with_contrasting_background() {
    let state = FrameState::new(SequentialPositionStrategy::new());
    assert!(state.drawables().is_empty());
    assert!(state.background_hue() < FULL_TURN);
    assert!(circular_distance(state.background_hue(), 0) >= HUE_THRESHOLD);
}

#[test]
fn pressing_a_places_one_glyph_and_holding_it_does_not() {
    let mut state = FrameState::new(RandomPositionStrategy {});
    let background = state.background_hue();
    let bounds = Size { w: 800, h: 600 };
    match state.handle_event(key_down(Key::Char('A'), false)) {
        Action::Press { glyph: Some(g), cue, image } => {
            assert_eq!(g.label, 'A');
            assert!(circular_distance(g.hue, background) >= HUE_THRESHOLD);
            assert_eq!(cue, Some("alpha-a"));
            assert_eq!(image, None);
        }
        other => panic!("unexpected action {:?}", other),
    }
    let r = state.place_drawable(1, Size { w: 90, h: 130 }, bounds).unwrap();
    assert_eq!(state.drawables().len(), 1);
    assert_eq!(state.drawables()[0].handle, 1);
    assert_eq!(state.drawables()[0].placement, r);
    assert!(r.x + r.w <= 800 && r.y + r.h <= 600);
    assert!(matches!(state.handle_event(key_down(Key::Char('A'), true)), Action::Ignore));
    assert_eq!(state.drawables().len(), 1);
    assert_eq!(state.background_hue(), background);
}

#[test]
fn return_clears_and_changes_background() {
    let mut state = FrameState::new(SequentialPositionStrategy::new());
    let bounds = Size { w: 800, h: 600 };
    state.place_drawable(1, Size { w: 90, h: 130 }, bounds).unwrap();
    state.place_drawable(2, Size { w: 90, h: 130 }, bounds).unwrap();
    let before = state.background_hue();
    assert!(matches!(state.handle_event(key_down(Key::Return, false)), Action::Reset));
    assert!(state.drawables().is_empty());
    assert_eq!(state.strategy().next_x, 0);
    assert!(circular_distance(state.background_hue(), before) >= HUE_THRESHOLD);
}

#[test]
fn unmapped_key_does_nothing() {
    let mut state = FrameState::new(SequentialPositionStrategy::new());
    state.place_drawable(1, Size { w: 90, h: 130 }, Size { w: 800, h: 600 }).unwrap();
    let background = state.background_hue();
    let drawables = state.drawables().clone();
    for event in [key_down(Key::Other, false), key_down(Key::Char('-'), false), key_down(Key::Escape, false), Event::Other] {
        assert!(matches!(state.handle_event(event), Action::Ignore));
    }
    assert_eq!(state.background_hue(), background);
    assert_eq!(*state.drawables(), drawables);
    assert_eq!(state.strategy().next_x, 90);
}

#[test]
fn quit_and_held_escape_terminate() {
    let mut state = FrameState::new(RandomPositionStrategy {});
    assert!(matches!(state.handle_event(Event::Quit), Action::Terminate));
    assert!(matches!(state.handle_event(key_down(Key::Escape, true)), Action::Terminate));
}

#[test]
fn held_return_is_ignored() {
    let mut state = FrameState::new(SequentialPositionStrategy::new());
    state.place_drawable(1, Size { w: 90, h: 130 }, Size { w: 800, h: 600 }).unwrap();
    assert!(matches!(state.handle_event(key_down(Key::Return, true)), Action::Ignore));
    assert_eq!(state.drawables().len(), 1);
}

#[test]
fn function_key_plays_without_glyph() {
    let mut state = FrameState::new(RandomPositionStrategy {});
    match state.handle_event(key_down(Key::Function(2), false)) {
        Action::Press { glyph, cue, image } => {
            assert_eq!(glyph, None);
            assert_eq!(cue, Some("38b"));
            assert_eq!(image, None);
        }
        other => panic!("unexpected action {:?}", other),
    }
}

#[test]
fn t_draws_glyph_plays_and_shows_image() {
    let mut state = FrameState::new(RandomPositionStrategy {});
    match state.handle_event(key_down(Key::Char('T'), false)) {
        Action::Press { glyph, cue, image } => {
            assert_eq!(glyph.map(|g| g.label), Some('T'));
            assert_eq!(cue, Some("alpha-t"));
            assert_eq!(image, Some("T"));
        }
        other => panic!("unexpected action {:?}", other),
    }
}

#[test]
fn oversized_drawable_is_dropped() {
    let mut state = FrameState::new(RandomPositionStrategy {});
    let r = state.place_drawable(1, Size { w: 900, h: 10 }, Size { w: 800, h: 600 });
    assert_eq!(r, Err(PlacementError::PlacementOverflow));
    assert!(state.drawables().is_empty());
}

#[test]
fn glyph_and_image_follow_the_sequential_cursor() {
    let mut state = FrameState::new(SequentialPositionStrategy::new());
    let bounds = Size { w: 800, h: 600 };
    let a = state.place_drawable(1, Size { w: 90, h: 130 }, bounds).unwrap();
    let b = state.place_drawable(2, Size { w: 64, h: 64 }, bounds).unwrap();
    assert_eq!((a.x, a.y), (0, 300));
    assert_eq!((b.x, b.y), (90, 300));
    assert_eq!(state.strategy().next_x, 154);
    assert_eq!(state.drawables()[1].handle, 2);
}
