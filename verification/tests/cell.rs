use game_of_life::Cell;

#[test]
fn count_of_dead_is_zero() {
    assert_eq!(Cell::Dead.count(), 0);
}

#[test]
fn count_of_alive_is_one() {
    assert_eq!(Cell::Alive.count(), 1);
}

#[test]
fn live_cell_dies_of_underpopulation() {
    assert_eq!(Cell::Alive.evolve(0), Cell::Dead);
    assert_eq!(Cell::Alive.evolve(1), Cell::Dead);
}

#[test]
fn live_cell_survives_with_two_or_three() {
    assert_eq!(Cell::Alive.evolve(2), Cell::Alive);
    assert_eq!(Cell::Alive.evolve(3), Cell::Alive);
}

#[test]
fn live_cell_dies_of_overpopulation() {
    for neighbors in 4..=8 {
        assert_eq!(Cell::Alive.evolve(neighbors), Cell::Dead, "{}", neighbors);
    }
    assert_eq!(Cell::Alive.evolve(255), Cell::Dead);
}

#[test]
fn dead_cell_is_born_with_exactly_three() {
    assert_eq!(Cell::Dead.evolve(3), Cell::Alive);
}

#[test]
fn dead_cell_stays_dead_otherwise() {
    for neighbors in [0u8, 1, 2, 4, 5, 6, 7, 8, 255] {
        assert_eq!(Cell::Dead.evolve(neighbors), Cell::Dead, "{}", neighbors);
    }
}
