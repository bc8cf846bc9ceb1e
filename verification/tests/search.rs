use dwm_cheatsheet::keybindings::{Category, Keybinding};
use dwm_cheatsheet::search::{any_field_contains, refines_search, same_search};

fn binding(modifiers: &[&str], key: &str, function: &str, description: &str) -> Keybinding {
    Keybinding {
        modifiers: modifiers.iter().map(|m| m.to_string()).collect(),
        key: key.to_string(),
        function: function.to_string(),
        description: description.to_string(),
        category: Category::System,
    }
}

#[test]
fn any_field_contains_finds_needle_in_function() {
    assert!(any_field_contains("volume down", "", "", "", "lume"));
}

#[test]
fn any_field_contains_finds_needle_in_description() {
    assert!(any_field_contains("", "decrease volume by 5%", "", "", "by 5"));
}

#[test]
fn any_field_contains_finds_needle_in_modifiers() {
    assert!(any_field_contains("", "", "super shift", "", "r s"));
}

#[test]
fn any_field_contains_finds_needle_in_key() {
    assert!(any_field_contains("", "", "", "return", "turn"));
}

#[test]
fn any_field_contains_rejects_needle_in_no_field() {
    assert!(!any_field_contains("volume down", "decrease volume", "super", "u", "mute"));
}

#[test]
fn any_field_contains_does_not_join_fields() {
    assert!(!any_field_contains("ab", "cd", "ef", "gh", "bc"));
}

#[test]
fn any_field_contains_compares_texts_as_given() {
    assert!(!any_field_contains("Volume Down", "", "", "", "volume"));
    assert!(!any_field_contains("volume down", "", "", "", "Volume"));
}

#[test]
fn any_field_contains_empty_needle() {
    assert!(any_field_contains("", "", "", "", ""));
    assert!(any_field_contains("a", "b", "c", "d", ""));
}

#[test]
fn any_field_contains_needle_longer_than_fields() {
    assert!(!any_field_contains("ab", "ab", "ab", "ab", "abc"));
}

#[test]
fn is_match_lowercases_the_function() {
    let kb = binding(&[], "", "Volume Down", "");
    assert!(kb.is_match("volume down"));
}

#[test]
fn is_match_lowercases_the_description() {
    let kb = binding(&[], "", "", "Launch VS Code");
    assert!(kb.is_match("vs code"));
}

#[test]
fn is_match_lowercases_the_key() {
    let kb = binding(&[], "XF86AudioMute", "", "");
    assert!(kb.is_match("xf86audiomute"));
}

#[test]
fn is_match_lowercases_the_modifiers() {
    let kb = binding(&["Super"], "", "", "");
    assert!(kb.is_match("super"));
}

#[test]
fn is_match_joins_modifiers_with_one_space() {
    let kb = binding(&["Super", "Ctrl", "Shift"], "d", "Default Gaps", "Reset gaps to default");
    assert!(kb.is_match("super ctrl shift"));
    assert!(kb.is_match("ctrl shift"));
    assert!(!kb.is_match("superctrl"));
    assert!(!kb.is_match("super  ctrl"));
    assert!(!kb.is_match("super shift"));
}

#[test]
fn is_match_across_modifier_boundary() {
    let kb = binding(&["Super", "Shift"], "e", "Code Editor", "Launch VS Code");
    assert!(kb.is_match("er s"));
}

#[test]
fn is_match_does_not_join_modifiers_and_key() {
    let kb = binding(&["Super"], "Space", "", "");
    assert!(!kb.is_match("super space"));
    assert!(!kb.is_match("r s"));
}

#[test]
fn is_match_takes_the_needle_as_given() {
    let kb = binding(&[], "", "Volume Down", "");
    assert!(!kb.is_match("VOLUME"));
    assert!(!kb.is_match("Volume"));
}

#[test]
fn is_match_with_empty_modifiers_and_empty_needle() {
    let kb = binding(&[], "", "", "");
    assert!(kb.is_match(""));
    assert!(!kb.is_match(" "));
}

#[test]
fn is_visible_for_empty_query() {
    let kb = binding(&[], "", "", "");
    assert!(kb.is_visible(""));
}

#[test]
fn is_visible_lowercases_the_query() {
    let kb = binding(&["Super"], "u", "Screenshot (Select)", "Take selected area screenshot to clipboard");
    assert!(kb.is_visible("SCREENSHOT"));
    assert!(kb.is_visible("ScreenShot (sel"));
    assert!(kb.is_visible("SUPER"));
    assert!(!kb.is_visible("MENU"));
}

#[test]
fn is_visible_with_letters_outside_ascii() {
    let kb = binding(&[], "", "Größe ÄNDERN", "");
    assert!(kb.is_visible("größe"));
    assert!(kb.is_visible("GRÖ"));
    assert!(kb.is_visible("ändern"));
    assert!(!kb.is_visible("GRÖSSE"));
}

#[test]
fn is_visible_does_not_trim_the_query() {
    let kb = binding(&["Super"], "u", "Screenshot", "Take it");
    assert!(kb.is_visible(" "));
    assert!(!kb.is_visible("  "));
    assert!(!kb.is_visible(" screenshot"));
}

#[test]
fn same_search_ignores_case() {
    assert!(same_search("volume", "VOLUME"));
    assert!(same_search("Volume Up", "vOLUME uP"));
    assert!(same_search("", ""));
}

#[test]
fn same_search_tells_queries_apart() {
    assert!(!same_search("volume", "volum"));
    assert!(!same_search("", " "));
    assert!(!same_search("a", ""));
    assert!(!same_search("super shift", "super  shift"));
}

#[test]
fn same_search_does_not_fold_sharp_s() {
    assert!(!same_search("\u{df}", "SS"));
    assert!(same_search("ss", "SS"));
}

#[test]
fn refines_search_for_a_prefix() {
    assert!(refines_search("", ""));
    assert!(refines_search("", "tag"));
    assert!(refines_search("ta", "tag"));
    assert!(refines_search("TA", "tag view"));
    assert!(refines_search("tag", "TAG"));
}

#[test]
fn refines_search_for_a_part_in_the_middle() {
    assert!(refines_search("olu", "Volume"));
}

#[test]
fn refines_search_rejects_a_longer_or_other_text() {
    assert!(!refines_search("tag", "ta"));
    assert!(!refines_search("tag", ""));
    assert!(!refines_search("tab", "tag"));
}

#[test]
fn refines_search_with_final_sigma() {
    assert!(!refines_search("A\u{3a3}", "A\u{3a3}B"));
    assert!(refines_search("\u{3a3}", "\u{3a3}B"));
}
