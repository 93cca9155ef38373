use bevy_agb::{
    button_mapping, connect_gamepad, update_gamepad, ButtonChange, ButtonController, ConnectionInfo,
    GamepadButton, GamepadInput, GbaButton, RawGamepadEvent,
};

fn change(button: GamepadButton, pressed: bool) -> ButtonChange {
    ButtonChange { button, pressed }
}

fn connected_input() -> GamepadInput {
    let mut input = GamepadInput::new(0);
    let events = connect_gamepad(&mut input);
    assert_eq!(events.connections.len(), 1);
    input
}

#[test]
fn mapping_table_is_total_and_injective() {
    let table = button_mapping();
    assert_eq!(table.len(), 10);
    let all = [
        GbaButton::A,
        GbaButton::B,
        GbaButton::Select,
        GbaButton::Start,
        GbaButton::Right,
        GbaButton::Left,
        GbaButton::Up,
        GbaButton::Down,
        GbaButton::R,
        GbaButton::L,
    ];
    for b in all {
        assert_eq!(table.iter().filter(|(s, _)| *s == b).count(), 1);
        assert_eq!(table.iter().filter(|(_, t)| *t == b.to_gamepad_button()).count(), 1);
    }
    assert_eq!(table[0], (GbaButton::A, GamepadButton::East));
    assert_eq!(table[1], (GbaButton::B, GamepadButton::South));
    assert_eq!(table[9], (GbaButton::L, GamepadButton::LeftTrigger));
}

#[test]
fn button_bits_follow_the_register() {
    assert_eq!(GbaButton::A.bit(), 1);
    assert_eq!(GbaButton::Start.bit(), 8);
    assert_eq!(GbaButton::R.bit(), 0x100);
    assert_eq!(GbaButton::L.bit(), 0x200);
}

#[test]
fn controller_edges() {
    let mut c = ButtonController::new(0);
    assert!(!c.is_just_pressed(GbaButton::A));
    c.update(GbaButton::A.bit());
    assert!(c.is_pressed(GbaButton::A));
    assert!(c.is_just_pressed(GbaButton::A));
    assert!(!c.is_just_released(GbaButton::A));
    c.update(GbaButton::A.bit());
    assert!(c.is_pressed(GbaButton::A));
    assert!(!c.is_just_pressed(GbaButton::A));
    c.update(0);
    assert!(c.is_just_released(GbaButton::A));
    assert!(!c.is_pressed(GbaButton::A));
}

#[test]
fn held_at_start_is_not_a_press() {
    let c = ButtonController::new(GbaButton::B.bit());
    assert!(c.is_pressed(GbaButton::B));
    assert!(c.changes().is_empty());
}

#[test]
fn connection_is_sent_to_both_sinks_once() {
    let mut input = GamepadInput::new(0);
    let events = connect_gamepad(&mut input);
    assert_eq!(events.connections.len(), 1);
    assert_eq!(events.connections[0].name, "GameBoy Advance Gamepad");
    assert_eq!(events.connections[0].vendor_id, None);
    assert_eq!(events.connections[0].product_id, None);
    assert_eq!(events.raw.len(), 1);
    assert_eq!(events.raw[0], RawGamepadEvent::Connected(ConnectionInfo {
            name: "GameBoy Advance Gamepad".to_string(),
            vendor_id: None,
            product_id: None,
        }));
    assert!(events.buttons.is_empty());
    let again = connect_gamepad(&mut input);
    assert!(again.raw.is_empty());
    assert!(again.connections.is_empty());
}

#[test]
fn cold_boot_no_input() {
    let mut input = GamepadInput::new(0);
    let events = connect_gamepad(&mut input);
    let mut connections = events.connections.len();
    let mut button_events = 0;
    let mut ticks: u32 = 0;
    let mut last_now = bevy_agb::elapsed_nanos(ticks);
    for _ in 0..3 {
        let frame = update_gamepad(&mut input, 0);
        connections += frame.connections.len();
        button_events += frame.buttons.len() + frame.raw.len();
        for _ in 0..4 {
            ticks = bevy_agb::next_tick(ticks);
        }
        let now = bevy_agb::elapsed_nanos(ticks);
        assert!(now > last_now);
        last_now = now;
    }
    assert_eq!(connections, 1);
    assert_eq!(button_events, 0);
}

#[test]
fn press_and_release_a() {
    let mut input = connected_input();
    let f1 = update_gamepad(&mut input, GbaButton::A.bit());
    assert_eq!(f1.buttons, vec![change(GamepadButton::East, true)]);
    assert_eq!(f1.raw, vec![RawGamepadEvent::ButtonChanged(change(GamepadButton::East, true))]);
    let f2 = update_gamepad(&mut input, GbaButton::A.bit());
    assert!(f2.buttons.is_empty());
    assert!(f2.raw.is_empty());
    let f3 = update_gamepad(&mut input, 0);
    assert_eq!(f3.buttons, vec![change(GamepadButton::East, false)]);
    assert_eq!(f3.raw, vec![RawGamepadEvent::ButtonChanged(change(GamepadButton::East, false))]);
}

#[test]
fn simultaneous_l_and_r() {
    let mut input = connected_input();
    let f = update_gamepad(&mut input, GbaButton::L.bit() | GbaButton::R.bit());
    assert_eq!(
        f.buttons,
        vec![change(GamepadButton::RightTrigger, true), change(GamepadButton::LeftTrigger, true)]
    );
    assert_eq!(f.raw.len(), 2);
    for (raw, typed) in f.raw.iter().zip(f.buttons.iter()) {
        assert_eq!(*raw, RawGamepadEvent::ButtonChanged(*typed));
    }
}

#[test]
fn every_button_round_trip() {
    let mut input = connected_input();
    let table = button_mapping();
    for (source, target) in table {
        let down = update_gamepad(&mut input, source.bit());
        assert_eq!(down.buttons.last(), Some(&change(target, true)));
        let up = update_gamepad(&mut input, 0);
        assert_eq!(up.buttons, vec![change(target, false)]);
    }
}

#[test]
fn unmapped_register_bits_are_ignored() {
    let mut input = connected_input();
    let f = update_gamepad(&mut input, 0xFC00);
    assert!(f.buttons.is_empty());
    assert!(f.raw.is_empty());
}

#[test]
fn swap_press_and_release_in_one_frame() {
    let mut input = connected_input();
    update_gamepad(&mut input, GbaButton::Up.bit());
    let f = update_gamepad(&mut input, GbaButton::Down.bit());
    assert_eq!(
        f.buttons,
        vec![change(GamepadButton::DPadUp, false), change(GamepadButton::DPadDown, true)]
    );
}
