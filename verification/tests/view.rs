use dwm_cheatsheet::grouping::{compute_view, select_category, select_visible, Grouping};
use dwm_cheatsheet::keybindings::{get_keybindings, Category, Keybinding};

fn names(view: &Grouping, category: Category) -> Vec<String> {
    match view.get(&category) {
        Some(entries) => entries.iter().map(|kb| kb.function.clone()).collect(),
        None => Vec::new(),
    }
}

fn sizes(view: &Grouping) -> Vec<(Category, usize)> {
    view.groups().iter().map(|g| (g.category, g.keybindings.len())).collect()
}

fn binding(category: Category, function: &str) -> Keybinding {
    Keybinding {
        modifiers: vec!["Super".to_string()],
        key: "x".to_string(),
        function: function.to_string(),
        description: "Plain words".to_string(),
        category,
    }
}

fn is_subsequence(part: &[String], whole: &[String]) -> bool {
    let mut rest = whole.iter();
    part.iter().all(|p| rest.any(|w| w == p))
}

#[test]
fn empty_query_returns_all_ten_categories() {
    let view = compute_view(&get_keybindings(), "");
    assert_eq!(view.len(), 10);
    assert_eq!(
        sizes(&view),
        vec![
            (Category::Media, 8),
            (Category::Screenshot, 3),
            (Category::Applications, 6),
            (Category::WindowManagement, 6),
            (Category::Layout, 6),
            (Category::Gaps, 4),
            (Category::Navigation, 7),
            (Category::Tags, 3),
            (Category::System, 5),
            (Category::Borders, 3),
        ]
    );
}

#[test]
fn query_volume_returns_two_media_entries() {
    let view = compute_view(&get_keybindings(), "volume");
    assert_eq!(view.categories(), vec![Category::Media]);
    assert_eq!(names(&view, Category::Media), vec!["Volume Down", "Volume Up"]);
}

#[test]
fn query_screenshot_returns_the_screenshot_category() {
    let view = compute_view(&get_keybindings(), "screenshot");
    assert_eq!(view.categories(), vec![Category::Screenshot]);
    assert_eq!(
        names(&view, Category::Screenshot),
        vec!["Screenshot (Full)", "Screenshot (Select)", "Screenshot Menu"]
    );
}

#[test]
fn query_without_match_returns_nothing() {
    let view = compute_view(&get_keybindings(), "zzz-no-match");
    assert!(view.is_empty());
    assert_eq!(view.len(), 0);
    assert_eq!(view.categories(), Vec::<Category>::new());
    assert!(view.get(&Category::Media).is_none());
}

#[test]
fn query_super_returns_entries_with_the_super_modifier() {
    let view = compute_view(&get_keybindings(), "super");
    assert_eq!(
        sizes(&view),
        vec![
            (Category::Screenshot, 3),
            (Category::Applications, 6),
            (Category::WindowManagement, 6),
            (Category::Layout, 6),
            (Category::Gaps, 4),
            (Category::Navigation, 7),
            (Category::Tags, 3),
            (Category::System, 3),
            (Category::Borders, 3),
        ]
    );
    assert!(!view.contains_key(&Category::Media));
    assert_eq!(names(&view, Category::System), vec!["Quit DWM", "Restart DWM", "Keyboard Layout"]);
    for group in view.groups().iter() {
        for kb in group.keybindings.iter() {
            assert!(kb.modifiers.iter().any(|m| m == "Super"));
        }
    }
}

#[test]
fn empty_query_keeps_every_entry_in_catalog_order() {
    let table = get_keybindings();
    let view = compute_view(&table, "");
    let mut total = 0;
    for group in view.groups().iter() {
        let filed: Vec<&Keybinding> = table.iter().filter(|kb| kb.category == group.category).collect();
        assert_eq!(group.keybindings.len(), filed.len());
        for (shown, original) in group.keybindings.iter().zip(filed.iter()) {
            assert_eq!(shown.modifiers, original.modifiers);
            assert_eq!(shown.key, original.key);
            assert_eq!(shown.function, original.function);
            assert_eq!(shown.description, original.description);
            assert_eq!(shown.category, original.category);
        }
        total += group.keybindings.len();
    }
    assert_eq!(total, table.len());
}

#[test]
fn upper_and_lower_case_queries_agree() {
    let table = get_keybindings();
    for query in ["volume", "super", "Tag", "xf86", "Increase All", "er s", "zzz"] {
        let plain = compute_view(&table, query);
        let upper = compute_view(&table, &query.to_uppercase());
        let lower = compute_view(&table, &query.to_lowercase());
        assert_eq!(sizes(&plain), sizes(&upper));
        assert_eq!(sizes(&plain), sizes(&lower));
        for category in plain.categories() {
            assert_eq!(names(&plain, category), names(&upper, category));
            assert_eq!(names(&plain, category), names(&lower, category));
        }
    }
}

#[test]
fn longer_query_narrows_the_view() {
    let table = get_keybindings();
    let steps = ["", "t", "ta", "tag", "tag ", "tag v", "tag vi", "tag vie", "tag view"];
    for pair in steps.windows(2) {
        let before = compute_view(&table, pair[0]);
        let after = compute_view(&table, pair[1]);
        for category in after.categories() {
            assert!(before.contains_key(&category));
            assert!(is_subsequence(&names(&after, category), &names(&before, category)));
        }
    }
    assert_eq!(sizes(&compute_view(&table, "ta")).len(), 4);
    assert_eq!(
        sizes(&compute_view(&table, "tag")),
        vec![(Category::Navigation, 3), (Category::Tags, 3)]
    );
    assert_eq!(sizes(&compute_view(&table, "tag view")), vec![(Category::Tags, 1)]);
}

#[test]
fn no_returned_category_is_empty() {
    let table = get_keybindings();
    for query in ["", "a", "shift", "alt", "ctrl", "1-9", "%", "window", "zzz", " ", "  "] {
        let view = compute_view(&table, query);
        for group in view.groups().iter() {
            assert!(!group.keybindings.is_empty());
        }
    }
}

#[test]
fn entries_keep_their_catalog_order() {
    let table = get_keybindings();
    let all: Vec<String> = table.iter().map(|kb| kb.function.clone()).collect();
    for query in ["", "e", "super", "shift", "window", "tag"] {
        let view = compute_view(&table, query);
        for category in view.categories() {
            assert!(is_subsequence(&names(&view, category), &all));
        }
    }
}

#[test]
fn categories_come_in_display_order() {
    let table = get_keybindings();
    let view = compute_view(&table, "ta");
    assert_eq!(
        view.categories(),
        vec![Category::Screenshot, Category::Navigation, Category::Tags, Category::System]
    );
    let view = compute_view(&table, "master");
    assert_eq!(view.categories(), vec![Category::WindowManagement, Category::Layout]);
}

#[test]
fn every_query_gives_a_view() {
    let table = get_keybindings();
    let long = "super ".repeat(5000);
    for query in ["ß", "é", "日本語", "🔍", "\u{0}", "\n", "+-*/", "((", "\\", long.as_str()] {
        let view = compute_view(&table, query);
        assert!(view.is_empty());
    }
    assert_eq!(sizes(&compute_view(&table, "%")), vec![(Category::Media, 2)]);
    assert_eq!(sizes(&compute_view(&table, "(")), vec![(Category::Screenshot, 2)]);
    assert_eq!(sizes(&compute_view(&table, "/")), vec![(Category::Media, 1), (Category::WindowManagement, 1), (Category::Gaps, 1)]);
}

#[test]
fn query_matching_a_modifier_name() {
    let view = compute_view(&get_keybindings(), "shift");
    assert_eq!(
        sizes(&view),
        vec![
            (Category::Applications, 2),
            (Category::WindowManagement, 3),
            (Category::Layout, 1),
            (Category::Gaps, 1),
            (Category::Navigation, 2),
            (Category::Tags, 1),
            (Category::System, 1),
            (Category::Borders, 3),
        ]
    );
    for group in view.groups().iter() {
        for kb in group.keybindings.iter() {
            assert!(kb.modifiers.iter().any(|m| m == "Shift"));
        }
    }
}

#[test]
fn query_across_two_modifier_names() {
    let view = compute_view(&get_keybindings(), "er s");
    assert_eq!(
        sizes(&view),
        vec![
            (Category::Applications, 2),
            (Category::WindowManagement, 3),
            (Category::Layout, 1),
            (Category::Navigation, 2),
            (Category::Tags, 1),
            (Category::System, 1),
            (Category::Borders, 3),
        ]
    );
    assert_eq!(names(&view, Category::Applications), vec!["Code Editor", "App Launcher"]);
}

#[test]
fn query_of_one_space_matches_every_description() {
    let view = compute_view(&get_keybindings(), " ");
    assert_eq!(view.len(), 10);
    let total: usize = view.groups().iter().map(|g| g.keybindings.len()).sum();
    assert_eq!(total, 51);
}

#[test]
fn query_of_two_spaces_matches_nothing() {
    assert!(compute_view(&get_keybindings(), "  ").is_empty());
}

#[test]
fn query_matching_a_key_label() {
    let view = compute_view(&get_keybindings(), "1-9");
    assert_eq!(view.categories(), vec![Category::Tags]);
    assert_eq!(names(&view, Category::Tags), vec!["View Tag", "Move to Tag", "Toggle Tag View"]);
}

#[test]
fn query_alt_finds_alt_only_entries() {
    let view = compute_view(&get_keybindings(), "alt");
    assert_eq!(
        sizes(&view),
        vec![(Category::Screenshot, 1), (Category::Applications, 1), (Category::System, 2)]
    );
    assert_eq!(names(&view, Category::System), vec!["Lock Screen", "Power Menu"]);
}

#[test]
fn view_of_an_empty_catalog_is_empty() {
    let none: Vec<Keybinding> = Vec::new();
    assert!(compute_view(&none, "").is_empty());
    assert!(compute_view(&none, "super").is_empty());
    assert!(Grouping::from_catalog(&none).is_empty());
}

#[test]
fn mixed_catalog_is_split_in_display_order() {
    let table = vec![
        binding(Category::Navigation, "first"),
        binding(Category::Borders, "second"),
        binding(Category::Layout, "third"),
        binding(Category::Navigation, "fourth"),
        binding(Category::Media, "fifth"),
        binding(Category::Layout, "sixth"),
    ];
    let view = Grouping::from_catalog(&table);
    assert_eq!(
        view.categories(),
        vec![Category::Media, Category::Layout, Category::Navigation, Category::Borders]
    );
    assert_eq!(names(&view, Category::Media), vec!["fifth"]);
    assert_eq!(names(&view, Category::Layout), vec!["third", "sixth"]);
    assert_eq!(names(&view, Category::Navigation), vec!["first", "fourth"]);
    assert_eq!(names(&view, Category::Borders), vec!["second"]);
    assert!(!view.contains_key(&Category::System));
    let cut = view.filtered("TH");
    assert_eq!(cut.categories(), vec![Category::Media, Category::Layout, Category::Navigation]);
    assert_eq!(names(&cut, Category::Media), vec!["fifth"]);
    assert_eq!(names(&cut, Category::Layout), vec!["third", "sixth"]);
    assert_eq!(names(&cut, Category::Navigation), vec!["fourth"]);
}

#[test]
fn filtering_the_split_catalog_equals_computing_the_view() {
    let table = get_keybindings();
    let split = Grouping::from_catalog(&table);
    for query in ["", "volume", "Super", "er s", "zzz"] {
        let direct = compute_view(&table, query);
        let cut = split.filtered(query);
        assert_eq!(sizes(&direct), sizes(&cut));
        for category in direct.categories() {
            assert_eq!(names(&direct, category), names(&cut, category));
        }
    }
}

#[test]
fn filtering_twice_equals_filtering_by_the_longer_query() {
    let split = Grouping::from_catalog(&get_keybindings());
    let twice = split.filtered("tag").filtered("tag v");
    let once = split.filtered("tag v");
    assert_eq!(sizes(&twice), sizes(&once));
    assert_eq!(names(&twice, Category::Tags), vec!["Toggle Tag View"]);
}

#[test]
fn select_category_keeps_catalog_order() {
    let table = get_keybindings();
    let gaps = select_category(&table, Category::Gaps);
    let got: Vec<&str> = gaps.iter().map(|kb| kb.function.as_str()).collect();
    assert_eq!(got, vec!["Toggle Gaps", "Increase All Gaps", "Decrease All Gaps", "Default Gaps"]);
}

#[test]
fn select_visible_keeps_matching_entries() {
    let table = get_keybindings();
    let shown = select_visible(&table, "Brightness");
    let got: Vec<&str> = shown.iter().map(|kb| kb.function.as_str()).collect();
    assert_eq!(got, vec!["Brightness Up", "Brightness Down"]);
    assert_eq!(select_visible(&table, "").len(), 51);
}

#[test]
fn grouping_clone_holds_the_same_sections() {
    let view = compute_view(&get_keybindings(), "gaps");
    let copy = view.clone();
    assert_eq!(sizes(&view), sizes(&copy));
    assert_eq!(names(&view, Category::Gaps), names(&copy, Category::Gaps));
}
