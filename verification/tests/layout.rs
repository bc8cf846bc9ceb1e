use dwm_cheatsheet::chord::ChordPart;
use dwm_cheatsheet::grouping::compute_view;
use dwm_cheatsheet::keybindings::{get_keybindings, Category, Keybinding};

fn binding(modifiers: &[&str], key: &str) -> Keybinding {
    Keybinding {
        modifiers: modifiers.iter().map(|m| m.to_string()).collect(),
        key: key.to_string(),
        function: "Action".to_string(),
        description: "Does it".to_string(),
        category: Category::System,
    }
}

fn cap(name: &str) -> ChordPart {
    ChordPart::Key(name.to_string())
}

#[test]
fn one_column_holds_every_category() {
    let view = compute_view(&get_keybindings(), "");
    assert_eq!(
        view.columns(1),
        vec![vec![
            Category::Media,
            Category::Screenshot,
            Category::Applications,
            Category::WindowManagement,
            Category::Layout,
            Category::Gaps,
            Category::Navigation,
            Category::Tags,
            Category::System,
            Category::Borders,
        ]]
    );
}

#[test]
fn two_columns_take_categories_in_turn() {
    let view = compute_view(&get_keybindings(), "");
    assert_eq!(
        view.columns(2),
        vec![
            vec![
                Category::Media,
                Category::Applications,
                Category::Layout,
                Category::Navigation,
                Category::System,
            ],
            vec![
                Category::Screenshot,
                Category::WindowManagement,
                Category::Gaps,
                Category::Tags,
                Category::Borders,
            ],
        ]
    );
}

#[test]
fn three_columns_take_categories_in_turn() {
    let view = compute_view(&get_keybindings(), "");
    assert_eq!(
        view.columns(3),
        vec![
            vec![Category::Media, Category::WindowManagement, Category::Navigation, Category::Borders],
            vec![Category::Screenshot, Category::Layout, Category::Tags],
            vec![Category::Applications, Category::Gaps, Category::System],
        ]
    );
}

#[test]
fn a_category_keeps_its_column_when_others_are_hidden() {
    let view = compute_view(&get_keybindings(), "tag");
    assert_eq!(view.columns(2), vec![vec![Category::Navigation], vec![Category::Tags]]);
    assert_eq!(view.columns(3), vec![vec![Category::Navigation], vec![Category::Tags], vec![]]);
    let view = compute_view(&get_keybindings(), "alt");
    assert_eq!(
        view.columns(3),
        vec![vec![], vec![Category::Screenshot], vec![Category::Applications, Category::System]]
    );
}

#[test]
fn more_columns_than_categories() {
    let view = compute_view(&get_keybindings(), "");
    let columns = view.columns(12);
    assert_eq!(columns.len(), 12);
    assert_eq!(columns[0], vec![Category::Media]);
    assert_eq!(columns[9], vec![Category::Borders]);
    assert!(columns[10].is_empty());
    assert!(columns[11].is_empty());
}

#[test]
fn no_columns_hold_nothing() {
    let view = compute_view(&get_keybindings(), "");
    assert!(view.columns(0).is_empty());
}

#[test]
fn columns_of_an_empty_view_are_empty() {
    let view = compute_view(&get_keybindings(), "zzz-no-match");
    assert_eq!(view.columns(3), vec![Vec::<Category>::new(), Vec::new(), Vec::new()]);
}

#[test]
fn chord_of_a_key_alone() {
    assert_eq!(binding(&[], "XF86AudioMute").chord(), vec![cap("XF86AudioMute")]);
}

#[test]
fn chord_of_one_modifier_and_key() {
    assert_eq!(binding(&["Super"], "b").chord(), vec![cap("Super"), ChordPart::Plus, cap("b")]);
}

#[test]
fn chord_of_three_modifiers_and_key() {
    assert_eq!(
        binding(&["Super", "Ctrl", "Shift"], "d").chord(),
        vec![
            cap("Super"),
            ChordPart::Plus,
            cap("Ctrl"),
            ChordPart::Plus,
            cap("Shift"),
            ChordPart::Plus,
            cap("d"),
        ]
    );
}

#[test]
fn chord_without_key_has_no_trailing_plus() {
    assert_eq!(
        binding(&["Super", "Shift"], "").chord(),
        vec![cap("Super"), ChordPart::Plus, cap("Shift")]
    );
    assert_eq!(binding(&["Alt"], "").chord(), vec![cap("Alt")]);
}

#[test]
fn chord_of_nothing_is_empty() {
    assert_eq!(binding(&[], "").chord(), Vec::<ChordPart>::new());
}

#[test]
fn chords_of_the_catalog_end_with_the_key() {
    for kb in get_keybindings().iter() {
        let parts = kb.chord();
        assert_eq!(parts.len(), 2 * kb.modifiers.len() + 1);
        assert_eq!(parts[parts.len() - 1], cap(&kb.key));
    }
}
