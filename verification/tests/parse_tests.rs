use rust_of_life::parse::grid_from_lines;

fn lines_of(texts: &[&str]) -> Vec<String> {
    texts.iter().map(|t| t.to_string()).collect()
}

#[test]
fn parses_two_line_grid() {
    let lines = lines_of(&["oo_", "___"]);
    let grid = grid_from_lines(&lines).expect("well-shaped input must parse");
    assert_eq!(grid.width(), 3);
    assert_eq!(grid.height(), 2);
    for y in 0..2 {
        for x in 0..3 {
            let expected = y == 0 && (x == 0 || x == 1);
            assert_eq!(grid.get_cell(x, y).is_alive(), expected);
        }
    }
}

#[test]
fn any_character_but_o_is_dead() {
    let lines = lines_of(&["xXo", "Oo."]);
    let grid = grid_from_lines(&lines).expect("well-shaped input must parse");
    assert!(!grid.get_cell(0, 0).is_alive());
    assert!(!grid.get_cell(1, 0).is_alive());
    assert!(grid.get_cell(2, 0).is_alive());
    assert!(!grid.get_cell(0, 1).is_alive());
    assert!(grid.get_cell(1, 1).is_alive());
    assert!(!grid.get_cell(2, 1).is_alive());
}

#[test]
fn single_line_parses() {
    let lines = lines_of(&["_o_"]);
    let grid = grid_from_lines(&lines).expect("well-shaped input must parse");
    assert_eq!(grid.width(), 3);
    assert_eq!(grid.height(), 1);
    assert!(grid.get_cell(1, 0).is_alive());
}

#[test]
fn empty_input_is_rejected() {
    let lines: Vec<String> = Vec::new();
    assert!(grid_from_lines(&lines).is_none());
}

#[test]
fn short_line_is_rejected() {
    let lines = lines_of(&["ooo", "o"]);
    assert!(grid_from_lines(&lines).is_none());
}

#[test]
fn long_line_is_rejected() {
    let lines = lines_of(&["ooo", "ooooo"]);
    assert!(grid_from_lines(&lines).is_none());
}
