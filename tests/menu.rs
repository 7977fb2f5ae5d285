use chip8::menu::{menu_lines, trim_line_end};

#[test]
fn menu_lays_out_four_padded_names_per_row() {
    let names: Vec<String> = ["PONG", "TETRIS", "INVADERS", "MAZE", "UFO", "VERYLONGNAME1"]
        .iter()
        .map(|s| s.to_string())
        .collect();
    let lines = menu_lines(&names);
    assert_eq!(lines.len(), 2);
    assert_eq!(lines[0], "PONG      TETRIS    INVADERS  MAZE      ");
    assert_eq!(lines[1], "UFO       VERYLONGNAME1");
}

#[test]
fn menu_of_no_names_is_empty() {
    assert!(menu_lines(&Vec::new()).is_empty());
}

#[test]
fn typed_line_loses_its_line_ending_only() {
    assert_eq!(trim_line_end("PONG\r\n"), "PONG");
    assert_eq!(trim_line_end("PONG 2\n"), "PONG 2");
    assert_eq!(trim_line_end("\n"), "");
    assert_eq!(trim_line_end("BRIX"), "BRIX");
}
