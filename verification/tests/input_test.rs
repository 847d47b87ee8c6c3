use highfives::input::{InputState, Key};

#[test]
fn new_input_holds_nothing() {
    let input = InputState::new();
    assert_eq!(input, InputState { xaxis: 0, yaxis: 0, fire: false, any_key: false });
    assert_eq!(InputState::default(), input);
}

#[test]
fn direction_keys_set_their_axis() {
    let cases = [
        (Key::W, 0, 1),
        (Key::Up, 0, 1),
        (Key::S, 0, -1),
        (Key::Down, 0, -1),
        (Key::A, -1, 0),
        (Key::Left, -1, 0),
        (Key::D, 1, 0),
        (Key::Right, 1, 0),
    ];
    for (key, x, y) in cases {
        let mut input = InputState::new();
        input.key_down(key);
        assert_eq!(input, InputState { xaxis: x, yaxis: y, fire: false, any_key: true });
    }
}

#[test]
fn space_is_the_fire_button() {
    let mut input = InputState::new();
    input.key_down(Key::Space);
    assert_eq!(input, InputState { xaxis: 0, yaxis: 0, fire: true, any_key: true });
    input.key_up(Key::Space);
    assert_eq!(input, InputState::new());
}

#[test]
fn any_key_follows_every_key() {
    let mut input = InputState::new();
    input.key_down(Key::Other);
    assert_eq!(input, InputState { xaxis: 0, yaxis: 0, fire: false, any_key: true });
    input.key_up(Key::Other);
    assert_eq!(input, InputState::new());
}

#[test]
fn last_event_on_an_axis_wins() {
    let mut input = InputState::new();
    input.key_down(Key::A);
    input.key_down(Key::D);
    assert_eq!(input.xaxis, 1);
    input.key_down(Key::Left);
    assert_eq!(input.xaxis, -1);
    // releasing either key of the axis centres it, whichever is still held
    input.key_up(Key::D);
    assert_eq!(input.xaxis, 0);
}

#[test]
fn release_centres_only_the_axis_of_the_key() {
    let mut input = InputState::new();
    input.key_down(Key::W);
    input.key_down(Key::D);
    input.key_down(Key::Space);
    input.key_up(Key::Up);
    assert_eq!(input, InputState { xaxis: 1, yaxis: 0, fire: true, any_key: false });
    input.key_up(Key::Right);
    assert_eq!(input, InputState { xaxis: 0, yaxis: 0, fire: true, any_key: false });
}

#[test]
fn held_keys_persist_without_events() {
    let mut input = InputState::new();
    input.key_down(Key::S);
    let held = input;
    assert_eq!(held.yaxis, -1);
    assert_eq!(input, held);
}
