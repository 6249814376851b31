use vitray_widget::shortcuts::{Shortcut, ShortcutError, ShortcutRecord, Shortcuts};

fn shortcut(name: &str, command: &str, created_at: u64) -> Shortcut {
    Shortcut { name: name.to_string(), command: command.to_string(), created_at }
}

fn store_of(names: &[&str]) -> Shortcuts {
    let mut store = Shortcuts::default();
    for (at, name) in names.iter().enumerate() {
        store.items.push(shortcut(name, &format!("run {}", name), 100 + at as u64));
    }
    store
}

fn names_of(store: &Shortcuts) -> Vec<String> {
    store.items.iter().map(|item| item.name.clone()).collect()
}

#[test]
fn default_store_is_empty() {
    assert!(Shortcuts::default().items.is_empty());
}

#[test]
fn add_stores_the_slug_of_the_name() {
    let mut store = Shortcuts::default();
    assert_eq!(store.add_at("  Deploy Prod ".to_string(), "make deploy".to_string(), 42), Ok(()));
    assert_eq!(store.items, vec![shortcut("deploy-prod", "make deploy", 42)]);
}

#[test]
fn add_puts_a_hyphen_for_every_space() {
    let mut store = Shortcuts::default();
    store.add_at("a b  c".to_string(), "x".to_string(), 1).unwrap();
    assert_eq!(names_of(&store), vec!["a-b--c"]);
}

#[test]
fn add_lowers_letters_beyond_ascii() {
    let mut store = Shortcuts::default();
    store.add_at("\u{c4}RGER \u{c9}T\u{c9}".to_string(), "x".to_string(), 1).unwrap();
    assert_eq!(names_of(&store), vec!["\u{e4}rger-\u{e9}t\u{e9}"]);
}

#[test]
fn add_trims_white_space_of_every_kind() {
    let mut store = Shortcuts::default();
    store.add_at("\t\u{a0} top \u{2003}\n".to_string(), "htop".to_string(), 1).unwrap();
    assert_eq!(names_of(&store), vec!["top"]);
}

#[test]
fn add_keeps_the_order_of_adding() {
    let mut store = Shortcuts::default();
    store.add_at("b".to_string(), "2".to_string(), 1).unwrap();
    store.add_at("a".to_string(), "1".to_string(), 2).unwrap();
    store.add_at("c".to_string(), "3".to_string(), 3).unwrap();
    assert_eq!(
        store.items,
        vec![shortcut("b", "2", 1), shortcut("a", "1", 2), shortcut("c", "3", 3)]
    );
}

#[test]
fn add_of_the_same_slug_is_refused() {
    let mut store = Shortcuts::default();
    assert_eq!(store.add("Deploy Prod".to_string(), "make deploy".to_string()), Ok(()));
    let outcome = store.add("deploy-prod".to_string(), "other".to_string());
    assert_eq!(outcome, Err(ShortcutError::DuplicateName("deploy-prod".to_string())));
    assert_eq!(names_of(&store), vec!["deploy-prod"]);
    assert_eq!(store.items[0].command, "make deploy");
}

#[test]
fn add_of_the_same_name_in_another_case_is_refused() {
    let mut store = Shortcuts::default();
    store.add_at("monitor".to_string(), "htop".to_string(), 7).unwrap();
    for name in ["Monitor", "MONITOR", " monitor ", "mOnItOr"] {
        let outcome = store.add_at(name.to_string(), "top".to_string(), 8);
        assert_eq!(outcome, Err(ShortcutError::DuplicateName("monitor".to_string())));
    }
    assert_eq!(store.items, vec![shortcut("monitor", "htop", 7)]);
}

#[test]
fn add_compares_with_stored_names_in_lowercase() {
    let mut store = store_of(&["Build"]);
    let outcome = store.add_at("build".to_string(), "make".to_string(), 5);
    assert_eq!(outcome, Err(ShortcutError::DuplicateName("build".to_string())));
    assert_eq!(names_of(&store), vec!["Build"]);
}

#[test]
fn add_leaves_the_store_unchanged_when_refused() {
    let mut store = store_of(&["one", "two", "three"]);
    let before = store_of(&["one", "two", "three"]);
    assert!(store.add_at("TWO".to_string(), "x".to_string(), 9).is_err());
    assert_eq!(store, before);
}

#[test]
fn add_stamps_the_current_time() {
    let mut store = Shortcuts::default();
    store.add("now".to_string(), "date".to_string()).unwrap();
    let stamped = store.items[0].created_at;
    let clock = std::time::SystemTime::now()
        .duration_since(std::time::UNIX_EPOCH)
        .unwrap()
        .as_secs();
    assert!(stamped > 1_600_000_000);
    assert!(stamped <= clock);
    assert!(clock - stamped < 60);
}

#[test]
fn duplicate_name_is_reported_in_words() {
    let error = ShortcutError::DuplicateName("deploy-prod".to_string());
    assert_eq!(error.message(), "Shortcut 'deploy-prod' already exists");
    assert_eq!(ShortcutError::DuplicateName(String::new()).message(), "Shortcut '' already exists");
}

#[test]
fn missing_shortcut_is_reported_in_words() {
    assert_eq!(ShortcutError::NotFound.message(), "Shortcut not found");
}

#[test]
fn remove_takes_out_the_shortcut_of_that_name() {
    let mut store = store_of(&["one", "two", "three"]);
    assert!(store.remove_by_name("two"));
    assert_eq!(store.items, vec![shortcut("one", "run one", 100), shortcut("three", "run three", 102)]);
}

#[test]
fn remove_of_a_missing_name_changes_nothing() {
    let mut store = store_of(&["one", "two"]);
    assert!(!store.remove_by_name("three"));
    assert_eq!(store, store_of(&["one", "two"]));
    let mut empty = Shortcuts::default();
    assert!(!empty.remove_by_name("one"));
}

#[test]
fn remove_matches_the_name_exactly() {
    let mut store = store_of(&["deploy-prod"]);
    assert!(!store.remove_by_name("Deploy Prod"));
    assert!(!store.remove_by_name("DEPLOY-PROD"));
    assert!(!store.remove_by_name(" deploy-prod"));
    assert!(!store.remove_by_name("deploy"));
    assert_eq!(names_of(&store), vec!["deploy-prod"]);
    assert!(store.remove_by_name("deploy-prod"));
    assert!(store.items.is_empty());
}

#[test]
fn remove_takes_only_the_first_of_equal_names() {
    let mut store = Shortcuts::default();
    store.items.push(shortcut("twin", "first", 1));
    store.items.push(shortcut("other", "x", 2));
    store.items.push(shortcut("twin", "second", 3));
    assert!(store.remove_by_name("twin"));
    assert_eq!(store.items, vec![shortcut("other", "x", 2), shortcut("twin", "second", 3)]);
}

#[test]
fn rename_to_the_same_name_updates_only_the_command() {
    let mut store = store_of(&["new", "old", "last"]);
    assert_eq!(store.rename("old", "old".to_string(), "fresh command".to_string()), Ok(()));
    assert_eq!(
        store.items,
        vec![
            shortcut("new", "run new", 100),
            shortcut("old", "fresh command", 101),
            shortcut("last", "run last", 102),
        ]
    );
}

#[test]
fn rename_changes_name_and_command_in_place() {
    let mut store = store_of(&["one", "two", "three"]);
    assert_eq!(store.rename("two", "deux".to_string(), "echo 2".to_string()), Ok(()));
    assert_eq!(
        store.items,
        vec![
            shortcut("one", "run one", 100),
            shortcut("deux", "echo 2", 101),
            shortcut("three", "run three", 102),
        ]
    );
}

#[test]
fn rename_keeps_the_shortcut_under_the_slug_of_the_new_name() {
    let mut store = store_of(&["one", "two"]);
    assert_eq!(store.rename("one", "  Big Name ".to_string(), "x".to_string()), Ok(()));
    assert_eq!(names_of(&store), vec!["big-name", "two"]);
    assert_eq!(store.rename("two", "\u{c4}RGER".to_string(), "y".to_string()), Ok(()));
    assert_eq!(names_of(&store), vec!["big-name", "\u{e4}rger"]);
    assert_eq!(store.find("big-name"), Some(shortcut("big-name", "x", 100)));
    assert_eq!(store.find("Big Name"), None);
}

#[test]
fn rename_to_a_name_taken_in_another_case_is_refused() {
    let mut store = Shortcuts::default();
    store.add_at("a".to_string(), "1".to_string(), 10).unwrap();
    store.add_at("b".to_string(), "2".to_string(), 11).unwrap();
    let outcome = store.rename("a", "B".to_string(), "3".to_string());
    assert_eq!(outcome, Err(ShortcutError::DuplicateName("B".to_string())));
    assert_eq!(store.items, vec![shortcut("a", "1", 10), shortcut("b", "2", 11)]);
}

#[test]
fn rename_to_a_name_whose_slug_is_taken_is_refused() {
    let mut store = store_of(&["big-name", "x"]);
    let outcome = store.rename("x", "Big Name".to_string(), "y".to_string());
    assert_eq!(outcome, Err(ShortcutError::DuplicateName("Big Name".to_string())));
    assert_eq!(store, store_of(&["big-name", "x"]));
    let outcome = store.rename("x", " BIG-NAME ".to_string(), "y".to_string());
    assert_eq!(outcome, Err(ShortcutError::DuplicateName(" BIG-NAME ".to_string())));
    assert_eq!(store, store_of(&["big-name", "x"]));
}

#[test]
fn rename_is_refused_by_a_stored_name_that_is_no_slug() {
    let mut store = store_of(&["Big Name", "x"]);
    let outcome = store.rename("x", "big name".to_string(), "y".to_string());
    assert_eq!(outcome, Err(ShortcutError::DuplicateName("big name".to_string())));
    assert_eq!(store, store_of(&["Big Name", "x"]));
}

#[test]
fn rename_to_the_own_name_in_another_case_is_no_duplicate() {
    let mut store = store_of(&["one", "two"]);
    assert_eq!(store.rename("two", "TWO".to_string(), "fresh".to_string()), Ok(()));
    assert_eq!(store.items, vec![shortcut("one", "run one", 100), shortcut("two", "fresh", 101)]);
}

#[test]
fn rename_to_the_same_name_leaves_a_name_that_is_no_slug_alone() {
    let mut store = store_of(&["Build It", "two"]);
    assert_eq!(store.rename("Build It", "Build It".to_string(), "make".to_string()), Ok(()));
    assert_eq!(store.items, vec![shortcut("Build It", "make", 100), shortcut("two", "run two", 101)]);
}

#[test]
fn rename_to_a_taken_name_is_refused() {
    let mut store = store_of(&["one", "two"]);
    let outcome = store.rename("one", "two".to_string(), "x".to_string());
    assert_eq!(outcome, Err(ShortcutError::DuplicateName("two".to_string())));
    assert_eq!(store, store_of(&["one", "two"]));
}

#[test]
fn rename_of_a_missing_shortcut_is_refused() {
    let mut store = store_of(&["one", "two"]);
    let outcome = store.rename("three", "four".to_string(), "x".to_string());
    assert_eq!(outcome, Err(ShortcutError::NotFound));
    assert_eq!(store, store_of(&["one", "two"]));
    assert_eq!(store.rename("three", "three".to_string(), "x".to_string()), Err(ShortcutError::NotFound));
    let mut empty = Shortcuts::default();
    assert_eq!(empty.rename("a", "b".to_string(), "x".to_string()), Err(ShortcutError::NotFound));
}

#[test]
fn rename_reports_the_taken_name_before_the_missing_one() {
    let mut store = store_of(&["one", "two"]);
    let outcome = store.rename("three", "two".to_string(), "x".to_string());
    assert_eq!(outcome, Err(ShortcutError::DuplicateName("two".to_string())));
}

#[test]
fn rename_compares_names_without_regard_to_case() {
    let mut store = store_of(&["one", "two"]);
    let outcome = store.rename("one", "TWO".to_string(), "x".to_string());
    assert_eq!(outcome, Err(ShortcutError::DuplicateName("TWO".to_string())));
    assert_eq!(store, store_of(&["one", "two"]));
    let outcome = store.rename("one", "Two".to_string(), "x".to_string());
    assert_eq!(outcome, Err(ShortcutError::DuplicateName("Two".to_string())));
    assert_eq!(names_of(&store), vec!["one", "two"]);
}

#[test]
fn rename_finds_the_old_name_by_exact_match() {
    let mut store = store_of(&["one", "two"]);
    assert_eq!(store.rename("ONE", "three".to_string(), "x".to_string()), Err(ShortcutError::NotFound));
    assert_eq!(store, store_of(&["one", "two"]));
}

#[test]
fn names_stay_apart_in_lowercase_through_adds_and_renames() {
    let mut store = Shortcuts::default();
    let asked = ["Deploy Prod", "deploy-prod", "Build", "BUILD", "test", " Test ", "lint"];
    for (at, name) in asked.iter().enumerate() {
        let _ = store.add_at(name.to_string(), "x".to_string(), at as u64);
    }
    let _ = store.rename("lint", "TEST".to_string(), "y".to_string());
    let _ = store.rename("lint", "Deploy Prod".to_string(), "y".to_string());
    let _ = store.rename("lint", "Check All".to_string(), "y".to_string());
    let _ = store.rename("build", "Test".to_string(), "y".to_string());
    assert_eq!(names_of(&store), vec!["deploy-prod", "build", "test", "check-all"]);
    let lowered: Vec<String> = store.items.iter().map(|item| item.name.to_lowercase()).collect();
    for i in 0..lowered.len() {
        for j in 0..i {
            assert_ne!(lowered[i], lowered[j]);
        }
    }
}

#[test]
fn find_gives_the_shortcut_of_that_name() {
    let store = store_of(&["one", "two", "three"]);
    assert_eq!(store.find("two"), Some(shortcut("two", "run two", 101)));
    assert_eq!(store.find("one"), Some(shortcut("one", "run one", 100)));
}

#[test]
fn find_of_a_missing_name_gives_nothing() {
    let store = store_of(&["one", "two"]);
    assert_eq!(store.find("three"), None);
    assert_eq!(store.find("ONE"), None);
    assert_eq!(store.find(""), None);
    assert_eq!(Shortcuts::default().find("one"), None);
}

#[test]
fn find_gives_the_first_of_equal_names() {
    let mut store = Shortcuts::default();
    store.items.push(shortcut("twin", "first", 1));
    store.items.push(shortcut("twin", "second", 2));
    assert_eq!(store.find("twin"), Some(shortcut("twin", "first", 1)));
}

#[test]
fn load_without_a_file_gives_the_empty_store() {
    assert_eq!(Shortcuts::load(None), Shortcuts::default());
    assert_eq!(Shortcuts::load_at(None, 5), Shortcuts::default());
}

#[test]
fn load_keeps_the_shortcuts_of_the_file_in_order() {
    let records = vec![
        ShortcutRecord { name: "b".to_string(), command: "2".to_string(), created_at: Some(20) },
        ShortcutRecord { name: "a".to_string(), command: "1".to_string(), created_at: Some(10) },
    ];
    let store = Shortcuts::load_at(Some(records), 99);
    assert_eq!(store.items, vec![shortcut("b", "2", 20), shortcut("a", "1", 10)]);
}

#[test]
fn load_fills_a_missing_time_of_creation() {
    let records = vec![
        ShortcutRecord { name: "old".to_string(), command: "x".to_string(), created_at: None },
        ShortcutRecord { name: "new".to_string(), command: "y".to_string(), created_at: Some(0) },
    ];
    let store = Shortcuts::load_at(Some(records), 1_700_000_000);
    assert_eq!(store.items, vec![shortcut("old", "x", 1_700_000_000), shortcut("new", "y", 0)]);
}

#[test]
fn load_fills_a_missing_time_of_creation_from_the_clock() {
    let records = vec![
        ShortcutRecord { name: "old".to_string(), command: "x".to_string(), created_at: None },
        ShortcutRecord { name: "new".to_string(), command: "y".to_string(), created_at: Some(3) },
    ];
    let store = Shortcuts::load(Some(records));
    assert_eq!(store.items.len(), 2);
    assert_eq!(store.items[0].name, "old");
    assert!(store.items[0].created_at > 1_600_000_000);
    assert_eq!(store.items[1], shortcut("new", "y", 3));
}

#[test]
fn load_of_an_empty_file_gives_the_empty_store() {
    assert_eq!(Shortcuts::load_at(Some(Vec::new()), 1), Shortcuts::default());
}

#[test]
fn save_writes_every_shortcut_with_its_time() {
    let store = store_of(&["one", "two"]);
    assert_eq!(
        store.save(),
        vec![
            ShortcutRecord {
                name: "one".to_string(),
                command: "run one".to_string(),
                created_at: Some(100),
            },
            ShortcutRecord {
                name: "two".to_string(),
                command: "run two".to_string(),
                created_at: Some(101),
            },
        ]
    );
    assert!(Shortcuts::default().save().is_empty());
}

#[test]
fn saved_store_loads_as_itself() {
    let store = store_of(&["one", "Two Words", "three"]);
    assert_eq!(Shortcuts::load_at(Some(store.save()), 0), store);
    assert_eq!(Shortcuts::load(Some(store.save())), store);
}

#[test]
fn cloned_shortcut_is_equal() {
    let first = shortcut("one", "run one", 5);
    assert_eq!(first.clone(), first);
}
