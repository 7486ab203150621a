use replicon_demo::components::MoveDirection;
use replicon_demo::components::PlayerSpawnedComponent;
use replicon_demo::counter::spawn_count_label;
use replicon_demo::counter::InputsCount;
use replicon_demo::input::input_action;
use replicon_demo::input::movement_direction;
use replicon_demo::input::movement_event;
use replicon_demo::input::ClientAction;
use replicon_demo::input::PlayerInput;
use replicon_demo::timer::Timmy;
use replicon_demo::timer::RESPAWN_DELAY_MILLIS;

#[test]
fn movement_single_keys() {
    assert_eq!(movement_direction(true, false, false, false), MoveDirection { x: 1, y: 0 });
    assert_eq!(movement_direction(false, true, false, false), MoveDirection { x: -1, y: 0 });
    assert_eq!(movement_direction(false, false, true, false), MoveDirection { x: 0, y: 1 });
    assert_eq!(movement_direction(false, false, false, true), MoveDirection { x: 0, y: -1 });
}

#[test]
fn movement_opposing_keys_cancel() {
    assert_eq!(movement_direction(true, true, false, false), MoveDirection { x: 0, y: 0 });
    assert_eq!(movement_direction(true, true, true, true), MoveDirection { x: 0, y: 0 });
}

#[test]
fn movement_diagonal() {
    assert_eq!(movement_direction(true, false, false, true), MoveDirection { x: 1, y: -1 });
}

#[test]
fn movement_event_only_on_net_intent() {
    assert_eq!(movement_event(false, false, false, false), None);
    assert_eq!(movement_event(true, true, true, true), None);
    assert_eq!(
        movement_event(false, true, true, false),
        Some(PlayerInput::Movement(MoveDirection { x: -1, y: 1 }))
    );
}

#[test]
fn input_action_prefers_spawn() {
    assert_eq!(input_action(true, true), ClientAction::SpawnDecoy);
    assert_eq!(input_action(true, false), ClientAction::SpawnDecoy);
    assert_eq!(input_action(false, true), ClientAction::SendOther);
    assert_eq!(input_action(false, false), ClientAction::Idle);
}

#[test]
fn counter_starts_at_zero_and_counts() {
    let mut c = InputsCount::default();
    assert_eq!(c.count(), 0);
    c.record_spawn();
    c.record_spawn();
    c.record_spawn();
    assert_eq!(c.count(), 3);
}

#[test]
fn label_of_zero() {
    assert_eq!(spawn_count_label(0), "0 total");
}

#[test]
fn label_of_small_numbers() {
    assert_eq!(spawn_count_label(7), "7 total");
    assert_eq!(spawn_count_label(10), "10 total");
    assert_eq!(spawn_count_label(42), "42 total");
    assert_eq!(spawn_count_label(1000000), "1000000 total");
}

#[test]
fn label_of_largest_count() {
    assert_eq!(spawn_count_label(u64::MAX), "18446744073709551615 total");
}

#[test]
fn counter_label_matches_free_function() {
    let mut c = InputsCount::default();
    for _ in 0..12 {
        c.record_spawn();
    }
    assert_eq!(c.label(), "12 total");
}

#[test]
fn timer_fires_immediately_then_waits() {
    let mut t = Timmy::default();
    assert_eq!(t.time_left, 0);
    assert!(t.tick(16));
    assert_eq!(t.time_left, RESPAWN_DELAY_MILLIS);
    assert!(!t.tick(1000));
    assert_eq!(t.time_left, 4000);
    assert!(!t.tick(3999));
    assert_eq!(t.time_left, 1);
}

#[test]
fn timer_fires_on_exact_boundary() {
    let mut t = Timmy { time_left: 250 };
    assert!(t.tick(250));
    assert_eq!(t.time_left, RESPAWN_DELAY_MILLIS);
}

#[test]
fn dud_component_defaults_to_zeros() {
    let c = PlayerSpawnedComponent::default();
    assert_eq!(c.random_stuff, [0u64; 20]);
    assert_eq!(c.other_random_stuff, [0u64; 13]);
}
