use game_of_life::{Cell, Universe};

const HOLLOW: char = '\u{25FB}';
const FILLED: char = '\u{25FC}';

#[test]
fn render_two_by_two_diagonal() {
    let cells = vec![Cell::Alive, Cell::Dead, Cell::Dead, Cell::Alive];
    let universe = Universe::from_cells(2, 2, cells).unwrap();
    let text = universe.render();
    assert_eq!(text, "\u{25FC}\u{25FB}\n\u{25FB}\u{25FC}\n");
    assert_eq!(text, "◼◻\n◻◼\n");
    let lines: Vec<&str> = text.lines().collect();
    assert_eq!(lines.len(), 2);
    assert_eq!(lines[0].chars().count(), 2);
    assert_eq!(lines[1].chars().count(), 2);
    assert!(text.ends_with('\n'));
    assert!(!text.ends_with("\n\n"));
}

#[test]
fn render_single_cell() {
    let dead = Universe::from_cells(1, 1, vec![Cell::Dead]).unwrap();
    assert_eq!(dead.render(), "\u{25FB}\n");
    let alive = Universe::from_cells(1, 1, vec![Cell::Alive]).unwrap();
    assert_eq!(alive.render(), "\u{25FC}\n");
}

#[test]
fn render_is_row_major() {
    let a = Cell::Alive;
    let d = Cell::Dead;
    let wide = Universe::from_cells(3, 2, vec![a, a, d, d, d, a]).unwrap();
    assert_eq!(wide.render(), "◼◼◻\n◻◻◼\n");
    let tall = Universe::from_cells(2, 3, vec![a, a, d, d, d, a]).unwrap();
    assert_eq!(tall.render(), "◼◼\n◻◻\n◻◼\n");
}

#[test]
fn render_single_row_and_single_column() {
    let a = Cell::Alive;
    let d = Cell::Dead;
    let row = Universe::from_cells(3, 1, vec![d, a, d]).unwrap();
    assert_eq!(row.render(), "◻◼◻\n");
    let column = Universe::from_cells(1, 3, vec![d, a, d]).unwrap();
    assert_eq!(column.render(), "◻\n◼\n◻\n");
}

#[test]
fn render_of_init_has_64_lines_of_64_glyphs() {
    let universe = Universe::init();
    let text = universe.render();
    assert_eq!(text.chars().count(), 64 * 65);
    let cells = universe.cells();
    let mut rows = 0;
    for (row, line) in text.lines().enumerate() {
        let glyphs: Vec<char> = line.chars().collect();
        assert_eq!(glyphs.len(), 64);
        for (col, glyph) in glyphs.iter().enumerate() {
            let expected = match cells[row * 64 + col] {
                Cell::Dead => HOLLOW,
                Cell::Alive => FILLED,
            };
            assert_eq!(*glyph, expected, "row {} column {}", row, col);
        }
        rows += 1;
    }
    assert_eq!(rows, 64);
    assert!(text.starts_with("◼◻◼◻◼◻◼◼◼◻"));
}

#[test]
fn render_does_not_change_the_universe() {
    let universe = Universe::new(4, 4).unwrap();
    let before: Vec<Cell> = universe.cells().to_vec();
    let first = universe.render();
    let second = universe.render();
    assert_eq!(first, second);
    assert_eq!(universe.cells(), &before[..]);
}

#[test]
fn render_follows_the_generation() {
    let a = Cell::Alive;
    let d = Cell::Dead;
    let mut universe = Universe::from_cells(3, 3, vec![d, d, d, a, a, a, d, d, d]).unwrap();
    assert_eq!(universe.render(), "◻◻◻\n◼◼◼\n◻◻◻\n");
    universe.tick();
    assert_eq!(universe.render(), "◼◼◼\n◼◼◼\n◼◼◼\n");
    universe.tick();
    assert_eq!(universe.render(), "◻◻◻\n◻◻◻\n◻◻◻\n");
}
