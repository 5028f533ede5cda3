use client::animation::SpriteCycle;

#[test]
fn enemy_flips_every_twelve_ticks() {
    let mut c = SpriteCycle::new(vec![11, 12], 12);
    assert_eq!(c.current_frame(), 11);
    let mut switches = Vec::new();
    for tick in 0u32..50 {
        if let Some(f) = c.on_tick() {
            switches.push((tick, f));
        }
    }
    assert_eq!(switches, vec![(0, 11), (12, 12), (24, 11), (36, 12), (48, 11)]);
    assert_eq!(c.current_frame(), 11);
}

#[test]
fn frame_holds_between_switches() {
    let mut c = SpriteCycle::new(vec![5, 6, 7], 3);
    assert_eq!(c.on_tick(), Some(5));
    assert_eq!(c.on_tick(), None);
    assert_eq!(c.on_tick(), None);
    assert_eq!(c.current_frame(), 5);
    assert_eq!(c.on_tick(), Some(6));
    for _ in 0..2 {
        assert_eq!(c.on_tick(), None);
    }
    assert_eq!(c.on_tick(), Some(7));
    c.on_tick();
    c.on_tick();
    assert_eq!(c.on_tick(), Some(5));
}

#[test]
fn single_frame_never_changes() {
    let mut c = SpriteCycle::new(vec![9], 1);
    for _ in 0..5 {
        assert_eq!(c.on_tick(), Some(9));
    }
}
