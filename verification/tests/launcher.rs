use vibewm::catalog::{
    clone_entries, lex_le_chars, load_catalog, ranked_matches, sort_by_name, sort_by_score,
    DescriptorFile,
};
use vibewm::command_center::{
    CommandCenter, CommandCenterLayout, CommandCenterSection, ANIMATION_DURATION_MS,
    GLOW_CYCLE_MS,
};
use vibewm::desktop_entry::AppEntry;
use vibewm::fuzzy::fuzzy_match;

fn file(name: &str, command: &str) -> DescriptorFile {
    DescriptorFile {
        path: format!("/apps/{}.desktop", command),
        content: format!("[Desktop Entry]\nName={}\nExec={}\n", name, command),
    }
}

fn entry(name: &str, score: i32) -> AppEntry {
    AppEntry {
        name: name.to_string(),
        command: name.to_lowercase(),
        icon: None,
        desktop_file: String::new(),
        score,
    }
}

fn names(entries: &Vec<AppEntry>) -> Vec<String> {
    entries.iter().map(|e| e.name.clone()).collect()
}

fn chars(s: &str) -> Vec<char> {
    s.chars().collect()
}

fn center() -> CommandCenter {
    let files = vec![
        file("Thunderbird", "thunderbird"),
        file("Firefox", "firefox"),
        file("Files", "nautilus"),
        file("terminal", "foot"),
        file("Fire Alarm", "alarm"),
    ];
    CommandCenter::new(&files, 0)
}

fn type_text(center: &mut CommandCenter, text: &str) {
    for c in text.chars() {
        center.handle_char(c);
    }
}

fn progress(center: &CommandCenter) -> f64 {
    center.animation_ms() as f64 / ANIMATION_DURATION_MS as f64
}

#[test]
fn strings_are_ordered_as_in_the_dictionary() {
    assert!(lex_le_chars(&chars(""), &chars("")));
    assert!(lex_le_chars(&chars(""), &chars("a")));
    assert!(!lex_le_chars(&chars("a"), &chars("")));
    assert!(lex_le_chars(&chars("abc"), &chars("abc")));
    assert!(lex_le_chars(&chars("ab"), &chars("abc")));
    assert!(!lex_le_chars(&chars("abc"), &chars("ab")));
    assert!(lex_le_chars(&chars("abc"), &chars("abd")));
    assert!(!lex_le_chars(&chars("b"), &chars("abc")));
    assert!(lex_le_chars(&chars("Z"), &chars("a")));
    assert!(lex_le_chars(&chars("z"), &chars("é")));
}

fn samples() -> Vec<String> {
    let mut seed: u32 = 12345;
    let letters = ['a', 'B', 'c', 'A', 'b', 'é', 'Z', ' ', '0'];
    let mut out = Vec::new();
    for _ in 0..60 {
        let mut name = String::new();
        seed = seed.wrapping_mul(1103515245).wrapping_add(12345);
        let len = (seed >> 16) % 4;
        for _ in 0..len {
            seed = seed.wrapping_mul(1103515245).wrapping_add(12345);
            name.push(letters[((seed >> 16) % letters.len() as u32) as usize]);
        }
        out.push(name);
    }
    out
}

#[test]
fn the_order_of_strings_is_that_of_the_standard_library() {
    let samples = samples();
    for a in &samples {
        for b in &samples {
            assert_eq!(lex_le_chars(&chars(a), &chars(b)), a <= b);
        }
    }
}

#[test]
fn sort_by_name_agrees_with_a_stable_sort_of_the_standard_library() {
    let entries: Vec<AppEntry> =
        samples().iter().enumerate().map(|(i, name)| entry(name, i as i32)).collect();
    let mut expected = entries.clone();
    expected.sort_by(|a, b| a.name.to_lowercase().cmp(&b.name.to_lowercase()));
    let sorted = sort_by_name(entries);
    assert_eq!(names(&sorted), names(&expected));
    let order: Vec<i32> = sorted.iter().map(|e| e.score).collect();
    let expected_order: Vec<i32> = expected.iter().map(|e| e.score).collect();
    assert_eq!(order, expected_order);
}

#[test]
fn sort_by_score_agrees_with_a_stable_sort_of_the_standard_library() {
    let entries: Vec<AppEntry> = samples()
        .iter()
        .enumerate()
        .map(|(i, name)| entry(&format!("{}{}", name, i), name.len() as i32))
        .collect();
    let mut expected = entries.clone();
    expected.sort_by(|a, b| b.score.cmp(&a.score));
    let sorted = sort_by_score(entries);
    assert_eq!(names(&sorted), names(&expected));
}

#[test]
fn sort_by_score_puts_the_best_first_and_keeps_ties_in_order() {
    let sorted = sort_by_score(vec![
        entry("a", 10),
        entry("b", 30),
        entry("c", 10),
        entry("d", 20),
        entry("e", 30),
    ]);
    assert_eq!(names(&sorted), vec!["b", "e", "d", "a", "c"]);
    assert!(sort_by_score(Vec::new()).is_empty());
}

#[test]
fn sort_by_name_ignores_case_and_keeps_ties_in_order() {
    let sorted = sort_by_name(vec![
        entry("zeta", 1),
        entry("Alpha", 2),
        entry("beta", 3),
        entry("alpha", 4),
        entry("ALPHA", 5),
        entry("Beta", 6),
    ]);
    assert_eq!(names(&sorted), vec!["Alpha", "alpha", "ALPHA", "beta", "Beta", "zeta"]);
    let scores: Vec<i32> = sorted.iter().map(|e| e.score).collect();
    assert_eq!(scores, vec![2, 4, 5, 3, 6, 1]);
}

#[test]
fn load_catalog_reads_the_descriptors_and_orders_them_by_name() {
    let files = vec![
        file("zsh", "zsh"),
        DescriptorFile { path: "/apps/broken.desktop".into(), content: "Name=Broken".into() },
        file("Editor", "gedit"),
        DescriptorFile {
            path: "/apps/hidden.desktop".into(),
            content: "[Desktop Entry]\nName=Hidden\nExec=hidden\nNoDisplay=true".into(),
        },
        file("browser", "firefox"),
    ];
    let catalog = load_catalog(&files);
    assert_eq!(names(&catalog), vec!["browser", "Editor", "zsh"]);
    assert_eq!(catalog[0].command, "firefox");
    assert_eq!(catalog[0].desktop_file, "/apps/firefox.desktop");
    assert_eq!(catalog[1].score, 0);
    assert!(load_catalog(&Vec::new()).is_empty());
}

#[test]
fn ranked_matches_keeps_what_matches_and_ranks_it() {
    let catalog = vec![entry("Files", 0), entry("Firefox", 0), entry("Thunderbird", 0)];
    let ranked = ranked_matches(&catalog, &chars("fi"));
    assert_eq!(names(&ranked), vec!["Files", "Firefox"]);
    assert_eq!(ranked[0].score, 1095);
    assert_eq!(ranked[1].score, 1093);
    let ranked = ranked_matches(&catalog, &chars("r"));
    assert_eq!(names(&ranked), vec!["Firefox", "Thunderbird"]);
    assert_eq!(ranked[0].score, 593);
    assert_eq!(ranked[1].score, 589);
    assert!(ranked_matches(&catalog, &chars("q")).is_empty());
    assert_eq!(catalog[0].score, 0);
}

#[test]
fn clone_entries_copies_every_entry() {
    let entries = vec![entry("a", 1), entry("b", 2)];
    let copy = clone_entries(&entries);
    assert_eq!(names(&copy), vec!["a", "b"]);
    assert_eq!(copy[1].score, 2);
    assert_eq!(copy[1].command, "b");
}

#[test]
fn a_new_command_center_is_closed_and_shows_the_whole_catalog() {
    let center = center();
    assert!(!center.visible());
    assert_eq!(center.animation_ms(), 0);
    assert_eq!(center.animation_start(), None);
    assert_eq!(center.search_query(), "");
    assert_eq!(center.selected_index(), 0);
    assert_eq!(center.section(), CommandCenterSection::Search);
    assert_eq!(center.glow_phase_ms(), 0);
    assert_eq!(center.last_frame(), 0);
    let sorted = vec!["Files", "Fire Alarm", "Firefox", "terminal", "Thunderbird"];
    assert_eq!(names(center.all_apps()), sorted);
    assert_eq!(names(center.filtered_apps()), sorted);
}

#[test]
fn opening_takes_two_hundred_milliseconds() {
    let mut center = center();
    center.toggle(1000);
    assert!(center.visible());
    assert_eq!(center.animation_start(), Some(1000));
    assert_eq!(progress(&center), 0.0);
    center.update(1100);
    assert_eq!(progress(&center), 0.5);
    assert_eq!(center.animation_start(), Some(1000));
    center.update(1250);
    assert_eq!(progress(&center), 1.0);
    assert_eq!(center.animation_start(), None);
    center.update(5000);
    assert_eq!(progress(&center), 1.0);
    assert_eq!(center.animation_start(), None);
}

#[test]
fn the_transition_ends_once_more_time_than_it_takes_has_passed() {
    let mut center = center();
    center.toggle(1000);
    center.update(1200);
    assert_eq!(center.animation_ms(), 200);
    assert_eq!(center.animation_start(), Some(1000));
    center.update(1201);
    assert_eq!(center.animation_ms(), 200);
    assert_eq!(center.animation_start(), None);
}

#[test]
fn closing_runs_the_progress_down() {
    let mut center = center();
    center.toggle(0);
    center.update(300);
    center.toggle(1000);
    assert!(!center.visible());
    assert_eq!(center.animation_ms(), 200);
    center.update(1050);
    assert_eq!(progress(&center), 0.75);
    center.update(1100);
    assert_eq!(progress(&center), 0.5);
    center.update(1400);
    assert_eq!(progress(&center), 0.0);
    assert_eq!(center.animation_start(), None);
}

#[test]
fn an_update_before_the_toggle_counts_as_no_time() {
    let mut center = center();
    center.update(500);
    center.toggle(1000);
    center.update(900);
    assert_eq!(center.animation_ms(), 0);
    assert_eq!(center.animation_start(), Some(1000));
    assert_eq!(center.last_frame(), 900);
    assert_eq!(center.glow_phase_ms(), 900);
    center.update(700);
    assert_eq!(center.last_frame(), 700);
    assert_eq!(center.glow_phase_ms(), 900);
    center.update(710);
    assert_eq!(center.glow_phase_ms(), 910);
}

#[test]
fn the_glow_pulses_every_two_seconds_whether_visible_or_not() {
    assert_eq!(GLOW_CYCLE_MS, 2000);
    let mut center = center();
    center.update(500);
    assert_eq!(center.glow_phase_ms(), 500);
    center.update(1900);
    assert_eq!(center.glow_phase_ms(), 1900);
    center.update(2100);
    assert_eq!(center.glow_phase_ms(), 100);
    center.toggle(2100);
    center.update(9200);
    assert_eq!(center.glow_phase_ms(), 1200);
    center.update(u64::MAX);
    assert_eq!(center.glow_phase_ms(), ((u64::MAX - 9200) % 2000 + 1200) % 2000);
}

#[test]
fn typing_filters_and_ranks_the_catalog() {
    let mut center = center();
    center.toggle(0);
    type_text(&mut center, "fi");
    assert_eq!(center.search_query(), "fi");
    assert_eq!(names(center.filtered_apps()), vec!["Files", "Firefox", "Fire Alarm"]);
    let scores: Vec<i32> = center.filtered_apps().iter().map(|e| e.score).collect();
    assert_eq!(scores, vec![1095, 1093, 1090]);
    center.handle_char('r');
    assert_eq!(names(center.filtered_apps()), vec!["Firefox", "Fire Alarm"]);
    let scores: Vec<i32> = center.filtered_apps().iter().map(|e| e.score).collect();
    assert_eq!(scores, vec![1093, 1090]);
    center.handle_char('f');
    assert_eq!(names(center.filtered_apps()), vec!["Firefox"]);
    assert_eq!(center.filtered_apps()[0].score, 15 + 20 + 25 + 15);
    type_text(&mut center, "zz");
    assert!(center.filtered_apps().is_empty());
    assert_eq!(center.search_query(), "firfzz");
}

#[test]
fn every_edit_of_the_query_selects_the_first_entry() {
    let mut center = center();
    center.toggle(0);
    center.select_next();
    center.select_next();
    assert_eq!(center.selected_index(), 2);
    center.handle_char('f');
    assert_eq!(center.selected_index(), 0);
    center.select_next();
    assert_eq!(center.selected_index(), 1);
    center.handle_backspace();
    assert_eq!(center.selected_index(), 0);
    center.select_next();
    center.handle_backspace();
    assert_eq!(center.selected_index(), 0);
    assert_eq!(center.search_query(), "");
}

#[test]
fn the_filtered_list_holds_no_entry_that_the_query_scores_nothing() {
    for query in ["f", "fi", "T", "x", "er", "fa", "qq", "ird", " "] {
        let mut center = center();
        center.toggle(0);
        type_text(&mut center, query);
        assert_eq!(center.selected_index(), 0);
        for entry in center.filtered_apps() {
            assert!(fuzzy_match(query, &entry.name) > 0);
            assert_eq!(entry.score, fuzzy_match(query, &entry.name));
        }
        let kept = center.filtered_apps().len();
        let matching = center.all_apps().iter().filter(|e| fuzzy_match(query, &e.name) > 0).count();
        assert_eq!(kept, matching);
    }
}

#[test]
fn every_character_typed_goes_into_the_query() {
    let mut center = center();
    center.toggle(0);
    let text = "Fire Alarm ".repeat(40);
    type_text(&mut center, &text);
    assert_eq!(center.search_query(), text);
    assert!(center.filtered_apps().is_empty());
    assert_eq!(center.selected_index(), 0);
    for _ in 0..text.chars().count() - 4 {
        center.handle_backspace();
    }
    assert_eq!(center.search_query(), "Fire");
    assert_eq!(names(center.filtered_apps()), vec!["Firefox", "Fire Alarm"]);
}

#[test]
fn backspace_takes_the_last_character() {
    let mut center = center();
    center.toggle(0);
    type_text(&mut center, "thé");
    assert_eq!(center.search_query(), "thé");
    center.handle_backspace();
    assert_eq!(center.search_query(), "th");
    assert_eq!(names(center.filtered_apps()), vec!["Thunderbird"]);
    center.handle_backspace();
    center.handle_backspace();
    assert_eq!(center.search_query(), "");
    assert_eq!(center.filtered_apps().len(), 5);
    assert_eq!(center.filtered_apps()[0].score, 0);
    center.handle_backspace();
    assert_eq!(center.search_query(), "");
    assert_eq!(center.filtered_apps().len(), 5);
}

#[test]
fn the_selection_stays_within_the_list() {
    let mut center = center();
    center.toggle(0);
    center.select_prev();
    assert_eq!(center.selected_index(), 0);
    for _ in 0..10 {
        center.select_next();
    }
    assert_eq!(center.selected_index(), 4);
    center.select_prev();
    assert_eq!(center.selected_index(), 3);
    type_text(&mut center, "zzz");
    center.select_next();
    assert_eq!(center.selected_index(), 0);
    center.select_prev();
    assert_eq!(center.selected_index(), 0);
}

#[test]
fn launching_gives_the_command_and_closes() {
    let mut center = center();
    center.toggle(0);
    center.update(500);
    type_text(&mut center, "fire");
    center.select_next();
    assert_eq!(center.launch_selected(700), Some("alarm".to_string()));
    assert!(!center.visible());
    assert_eq!(center.animation_start(), Some(700));
    assert_eq!(center.search_query(), "fire");
}

#[test]
fn launching_from_an_empty_list_does_nothing() {
    let mut center = center();
    center.toggle(0);
    type_text(&mut center, "zzz");
    assert_eq!(center.launch_selected(700), None);
    assert!(center.visible());
    assert_eq!(center.animation_start(), Some(0));
    let mut empty = CommandCenter::new(&Vec::new(), 0);
    empty.toggle(5);
    assert_eq!(empty.launch_selected(9), None);
    assert!(empty.visible());
}

#[test]
fn opening_again_starts_from_an_empty_query() {
    let mut center = center();
    center.toggle(0);
    type_text(&mut center, "fire");
    center.select_next();
    center.toggle(100);
    assert_eq!(center.search_query(), "fire");
    assert_eq!(center.selected_index(), 1);
    assert_eq!(center.filtered_apps().len(), 2);
    center.toggle(200);
    assert!(center.visible());
    assert_eq!(center.search_query(), "");
    assert_eq!(center.selected_index(), 0);
    assert_eq!(center.filtered_apps().len(), 5);
}

#[test]
fn the_clock_shows_hours_and_minutes() {
    let center = center();
    assert_eq!(center.get_time_string(0), "00:00");
    assert_eq!(center.get_time_string(59), "00:00");
    assert_eq!(center.get_time_string(3661), "01:01");
    assert_eq!(center.get_time_string(86399), "23:59");
    assert_eq!(center.get_time_string(86400), "00:00");
    assert_eq!(center.get_time_string(1_700_000_000), "22:13");
}

#[test]
fn the_layout_on_full_hd() {
    let layout = CommandCenterLayout::calculate(1920, 1080);
    assert_eq!(layout.total_width, 1920);
    assert_eq!(layout.total_height, 1080);
    assert_eq!(
        (layout.container_x, layout.container_y, layout.container_width, layout.container_height),
        (560, 240, 800, 600)
    );
    assert_eq!(
        (layout.search_x, layout.search_y, layout.search_width, layout.search_height),
        (584, 264, 752, 56)
    );
    assert_eq!(
        (layout.apps_x, layout.apps_y, layout.apps_width, layout.apps_height),
        (584, 336, 752, 416)
    );
    assert_eq!((layout.app_card_width, layout.app_card_height, layout.app_columns), (180, 64, 3));
    assert_eq!(
        (layout.system_x, layout.system_y, layout.system_width, layout.system_height),
        (584, 768, 752, 48)
    );
}

#[test]
fn the_layout_on_a_small_screen() {
    let layout = CommandCenterLayout::calculate(1000, 500);
    assert_eq!(
        (layout.container_x, layout.container_y, layout.container_width, layout.container_height),
        (200, 75, 600, 350)
    );
    let layout = CommandCenterLayout::calculate(1333, 857);
    assert_eq!((layout.container_width, layout.container_height), (799, 599));
    let layout = CommandCenterLayout::calculate(1334, 858);
    assert_eq!((layout.container_width, layout.container_height), (800, 600));
    let layout = CommandCenterLayout::calculate(0, 0);
    assert_eq!(
        (layout.container_x, layout.container_y, layout.container_width, layout.container_height),
        (0, 0, 0, 0)
    );
    assert_eq!(layout.apps_height, -184);
    let layout = CommandCenterLayout::calculate(i32::MAX, i32::MAX);
    assert_eq!((layout.container_width, layout.container_height), (800, 600));
    assert_eq!(layout.container_x, (i32::MAX - 800) / 2);
}
