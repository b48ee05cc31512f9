use png_edge::form::FormEntry;
use png_edge::mode::{parse_mode, select_mode, OptimizationMode};

fn field(text: &str) -> FormEntry {
    FormEntry::Field(text.to_string())
}

#[test]
fn the_six_levels_are_parsed() {
    assert_eq!(parse_mode("1"), Some(OptimizationMode::Level1));
    assert_eq!(parse_mode("2"), Some(OptimizationMode::Level2));
    assert_eq!(parse_mode("3"), Some(OptimizationMode::Level3));
    assert_eq!(parse_mode("4"), Some(OptimizationMode::Level4));
    assert_eq!(parse_mode("5"), Some(OptimizationMode::Level5));
    assert_eq!(parse_mode("6"), Some(OptimizationMode::Level6));
}

#[test]
fn other_texts_name_no_level() {
    for text in ["", "0", "7", "9", "10", "06", "6 ", " 6", "+6", "-1", "1.0", "six", "١", "1\n", "66"] {
        assert_eq!(parse_mode(text), None, "{:?}", text);
    }
}

#[test]
fn levels_map_to_their_numbers() {
    assert_eq!(OptimizationMode::Level1.level(), 1);
    assert_eq!(OptimizationMode::Level2.level(), 2);
    assert_eq!(OptimizationMode::Level3.level(), 3);
    assert_eq!(OptimizationMode::Level4.level(), 4);
    assert_eq!(OptimizationMode::Level5.level(), 5);
    assert_eq!(OptimizationMode::Level6.level(), 6);
    assert_eq!(OptimizationMode::fallback(), OptimizationMode::Level6);
}

#[test]
fn mode_field_selects_its_level() {
    assert_eq!(select_mode(Some(&field("1"))), OptimizationMode::Level1);
    assert_eq!(select_mode(Some(&field("3"))), OptimizationMode::Level3);
    assert_eq!(select_mode(Some(&field("3"))).level(), 3);
    assert_eq!(select_mode(Some(&field("6"))), OptimizationMode::Level6);
}

#[test]
fn absent_mode_selects_level_six() {
    assert_eq!(select_mode(None), OptimizationMode::Level6);
    assert_eq!(select_mode(None).level(), 6);
}

#[test]
fn invalid_mode_selects_level_six() {
    for text in ["", "0", "7", "255", "256", "-3", "2.5", "fast", "06", " 1", "1 "] {
        assert_eq!(select_mode(Some(&field(text))).level(), 6, "{:?}", text);
    }
}

#[test]
fn file_under_the_mode_key_selects_level_six() {
    assert_eq!(select_mode(Some(&FormEntry::File)), OptimizationMode::Level6);
}
