use bevy_agb::{make_object, render_objects, Oam, OamCursor, ObjectAttributes, Renderable, Sprite, OAM_SLOTS};

fn sprite_at(handle: usize, x: i32, y: i32) -> Renderable {
    Renderable {
        sprite: Sprite { handle, horizontal_flipped: false, vertical_flipped: false },
        x,
        y,
    }
}

#[test]
fn cursor_is_single_pass() {
    let mut c = OamCursor::new();
    for i in 0..OAM_SLOTS {
        assert_eq!(c.next_slot(), Some(i));
    }
    assert_eq!(c.next_slot(), None);
    assert_eq!(c.next_slot(), None);
}

#[test]
fn oam_overflow_keeps_the_first_128() {
    let mut oam = Oam::new();
    let sprites: Vec<Renderable> = (0..130).map(|i| sprite_at(i as usize, i, 2 * i)).collect();
    let written = render_objects(&mut oam, &sprites);
    assert_eq!(written, 128);
    assert_eq!(oam.slots.len(), 128);
    for i in 0..128 {
        assert_eq!(oam.slots[i], Some(make_object(&sprites[i])));
    }
    for r in &sprites[128..] {
        assert!(!oam.slots.iter().any(|s| s.map(|o| o.handle) == Some(r.sprite.handle)));
    }
}

#[test]
fn sprite_flip_and_position() {
    let mut oam = Oam::new();
    let (x, y) = (10.9f32, -3.2f32);
    let r = Renderable {
        sprite: Sprite { handle: 5, horizontal_flipped: true, vertical_flipped: false },
        x: x as i32,
        y: y as i32,
    };
    assert_eq!(render_objects(&mut oam, &vec![r]), 1);
    assert_eq!(
        oam.slots[0],
        Some(ObjectAttributes { handle: 5, visible: true, x: 10, y: -3, hflip: true, vflip: false })
    );
    assert_eq!(oam.slots[1], None);
}

#[test]
fn no_renderables_hides_everything() {
    let mut oam = Oam::new();
    assert_eq!(render_objects(&mut oam, &Vec::new()), 0);
    assert!(oam.slots.iter().all(|s| s.is_none()));
}

#[test]
fn stale_slots_are_hidden_when_count_drops() {
    let mut oam = Oam::new();
    let many: Vec<Renderable> = (0..5).map(|i| sprite_at(i, i as i32, 0)).collect();
    assert_eq!(render_objects(&mut oam, &many), 5);
    assert_eq!(oam.previous_written, 5);
    let few = vec![sprite_at(9, 1, 1), sprite_at(8, 2, 2)];
    assert_eq!(render_objects(&mut oam, &few), 2);
    assert_eq!(oam.slots[0], Some(make_object(&few[0])));
    assert_eq!(oam.slots[1], Some(make_object(&few[1])));
    for i in 2..OAM_SLOTS {
        assert_eq!(oam.slots[i], None);
    }
    assert_eq!(oam.previous_written, 2);
}

#[test]
fn exactly_full_table() {
    let mut oam = Oam::new();
    let sprites: Vec<Renderable> = (0..128).map(|i| sprite_at(i, -(i as i32), 0)).collect();
    assert_eq!(render_objects(&mut oam, &sprites), 128);
    assert!(oam.slots.iter().all(|s| s.is_some()));
    assert_eq!(oam.slots[127].unwrap().x, -127);
}
