use game_of_life::Cell;

#[test]
fn live_cell_follows_the_table() {
    let expected = [
        Cell::Dead,
        Cell::Dead,
        Cell::Alive,
        Cell::Alive,
        Cell::Dead,
        Cell::Dead,
        Cell::Dead,
        Cell::Dead,
        Cell::Dead,
    ];
    for n in 0u8..=8 {
        assert_eq!(Cell::Alive.next_state(n), expected[n as usize]);
    }
}

#[test]
fn dead_cell_follows_the_table() {
    let expected = [
        Cell::Dead,
        Cell::Dead,
        Cell::Dead,
        Cell::Alive,
        Cell::Dead,
        Cell::Dead,
        Cell::Dead,
        Cell::Dead,
        Cell::Dead,
    ];
    for n in 0u8..=8 {
        assert_eq!(Cell::Dead.next_state(n), expected[n as usize]);
    }
}

#[test]
fn underpopulation_kills() {
    assert_eq!(Cell::Alive.next_state(0), Cell::Dead);
    assert_eq!(Cell::Alive.next_state(1), Cell::Dead);
}

#[test]
fn overpopulation_kills() {
    assert_eq!(Cell::Alive.next_state(4), Cell::Dead);
    assert_eq!(Cell::Alive.next_state(8), Cell::Dead);
}

#[test]
fn reproduction_needs_exactly_three() {
    assert_eq!(Cell::Dead.next_state(2), Cell::Dead);
    assert_eq!(Cell::Dead.next_state(3), Cell::Alive);
    assert_eq!(Cell::Dead.next_state(4), Cell::Dead);
}

#[test]
fn cell_bytes() {
    assert_eq!(Cell::Dead.to_byte(), 0);
    assert_eq!(Cell::Alive.to_byte(), 1);
}

#[test]
fn cell_from_bool() {
    assert_eq!(Cell::from_bool(true), Cell::Alive);
    assert_eq!(Cell::from_bool(false), Cell::Dead);
}
