use gb_core::saves::{save_path_for, state_path_for};

#[test]
fn save_path_swaps_extension() {
    assert_eq!(save_path_for("/games/tetris.gb"), "/games/tetris.sav");
    assert_eq!(save_path_for("zelda.gbc"), "zelda.sav");
}

#[test]
fn save_path_adds_extension_when_missing() {
    assert_eq!(save_path_for("rom"), "rom.sav");
}

#[test]
fn state_path_swaps_extension() {
    assert_eq!(state_path_for("/g/tetris.gb"), "/g/tetris.state");
}

#[test]
fn extension_rules_for_dots_in_directories_and_hidden_files() {
    assert_eq!(save_path_for("/my.games/tetris"), "/my.games/tetris.sav");
    assert_eq!(save_path_for(".hidden"), ".hidden.sav");
    assert_eq!(save_path_for("a.b.gb"), "a.b.sav");
}
