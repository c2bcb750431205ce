use game_tutorial::driver::step;
use game_tutorial::driver::Entity;
use game_tutorial::driver::LoopAction;
use game_tutorial::driver::LoopState;
use game_tutorial::geometry::Point;
use game_tutorial::input::should_quit;
use game_tutorial::input::InputEvent;
use game_tutorial::input::KeyCode;

#[test]
fn no_events_means_no_quit() {
    let events: Vec<InputEvent> = Vec::new();
    assert!(!should_quit(&events));
}

#[test]
fn harmless_events_do_not_quit() {
    let events = vec![
        InputEvent::Other,
        InputEvent::KeyDown(KeyCode::Other),
        InputEvent::Other,
    ];
    assert!(!should_quit(&events));
}

#[test]
fn explicit_quit_event_quits() {
    let events = vec![InputEvent::Other, InputEvent::Quit];
    assert!(should_quit(&events));
}

#[test]
fn escape_key_quits() {
    let events = vec![InputEvent::KeyDown(KeyCode::Other), InputEvent::KeyDown(KeyCode::Escape)];
    assert!(should_quit(&events));
}

#[test]
fn quit_event_halts_before_any_update() {
    let mut state = LoopState::new();
    let mut entity = Entity::new(Point { x: 0, y: 0 });
    let before_state = state;
    let before_entity = entity;
    let events = vec![InputEvent::Quit];
    let action = step(&mut state, &mut entity, &events, 500, 800, 600);
    assert!(matches!(action, LoopAction::Halt));
    assert_eq!(state, before_state);
    assert_eq!(entity, before_entity);
}

#[test]
fn normal_iteration_renders_the_owed_frame() {
    let mut state = LoopState::new();
    let mut entity = Entity::new(Point { x: 0, y: 0 });
    let events: Vec<InputEvent> = Vec::new();
    let action = step(&mut state, &mut entity, &events, 130, 800, 600);
    assert_eq!(state.counter, 1);
    assert_eq!(entity.position, Point { x: 0, y: 0 });
    assert_eq!(entity.display_region.x, 64);
    assert_eq!(entity.display_region.y, 0);
    assert_eq!(entity.display_region.width, 64);
    assert_eq!(entity.display_region.height, 64);
    match action {
        LoopAction::Halt => panic!("a quiet iteration must render"),
        LoopAction::Render(cmd) => {
            assert_eq!((cmd.background.r, cmd.background.g, cmd.background.b), (1, 64, 254));
            assert_eq!(cmd.sprite_src, entity.display_region);
            assert_eq!(cmd.sprite_dest.x, 400);
            assert_eq!(cmd.sprite_dest.y, 300);
            assert_eq!(cmd.sprite_dest.width, 64);
            assert_eq!(cmd.sprite_dest.height, 64);
        }
    }
}

#[test]
fn entity_update_changes_only_the_region_origin() {
    let mut entity = Entity::new(Point { x: 3, y: -4 });
    entity.update(250);
    assert_eq!(entity.position, Point { x: 3, y: -4 });
    assert_eq!(entity.display_region.x, 128);
    assert_eq!(entity.display_region.y, 0);
    assert_eq!(entity.display_region.width, 64);
    assert_eq!(entity.display_region.height, 64);
}

#[test]
fn counter_wraps_across_many_iterations() {
    let mut state = LoopState::new();
    let mut entity = Entity::new(Point { x: 0, y: 0 });
    let events: Vec<InputEvent> = Vec::new();
    for n in 1..=510u64 {
        let action = step(&mut state, &mut entity, &events, n * 16, 800, 600);
        assert!(matches!(action, LoopAction::Render(_)));
        assert_eq!(u64::from(state.counter), n % 255);
    }
}

#[test]
fn nonzero_position_is_shifted_in_the_render_command() {
    let mut state = LoopState::new();
    let mut entity = Entity::new(Point { x: -100, y: 50 });
    let events: Vec<InputEvent> = Vec::new();
    let action = step(&mut state, &mut entity, &events, 0, 640, 480);
    match action {
        LoopAction::Halt => panic!("a quiet iteration must render"),
        LoopAction::Render(cmd) => {
            assert_eq!(cmd.sprite_dest.x, 220);
            assert_eq!(cmd.sprite_dest.y, 290);
        }
    }
}
