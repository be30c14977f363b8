use the_bot::bot::BotState;
use the_bot::quotes::{load_from_parsed, pick_random_quote, LoadError, QuoteStore};

fn strings(items: &[&str]) -> Vec<String> {
    items.iter().map(|s| s.to_string()).collect()
}

#[test]
fn load_from_folder_aggregates_files() {
    let files = vec![Some(strings(&["A1", "A2"])), Some(strings(&["B1", "B2"]))];
    let quotes = load_from_parsed(true, files).unwrap();
    assert_eq!(quotes.len(), 4);
}

#[test]
fn load_from_folder_missing_returns_error() {
    let res = load_from_parsed(false, vec![]);
    assert!(res.is_err());
    assert_eq!(res.unwrap_err(), LoadError::FolderNotFound);
}

#[test]
fn load_keeps_file_order() {
    let files = vec![Some(strings(&["A1", "A2"])), Some(strings(&["B1"]))];
    assert_eq!(load_from_parsed(true, files).unwrap(), strings(&["A1", "A2", "B1"]));
}

#[test]
fn load_counts_files_times_records() {
    let files: Vec<Option<Vec<String>>> = (0..3)
        .map(|f| Some((0..5).map(|q| format!("file {} quote {}", f, q)).collect()))
        .collect();
    let quotes = load_from_parsed(true, files).unwrap();
    assert_eq!(quotes.len(), 15);
    assert!(quotes.contains(&"file 2 quote 4".to_string()));
}

#[test]
fn load_of_empty_folder_is_empty() {
    assert_eq!(load_from_parsed(true, vec![]).unwrap(), Vec::<String>::new());
}

#[test]
fn load_fails_on_unparsed_file() {
    let files = vec![Some(strings(&["A1"])), None, None];
    assert_eq!(load_from_parsed(true, files).unwrap_err(), LoadError::FileNotParsed { index: 1 });
}

#[test]
fn pick_random_on_empty_store_is_none() {
    let store = QuoteStore::new(vec![]);
    assert_eq!(store.len(), 0);
    assert!(store.pick_random().is_none());
    assert!(pick_random_quote(&[]).is_none());
}

#[test]
fn pick_random_returns_a_stored_quote() {
    let store = QuoteStore::new(strings(&["only"]));
    assert_eq!(store.pick_random().unwrap(), "only");
    let many = strings(&["a", "b", "c"]);
    for _ in 0..20 {
        let q = pick_random_quote(&many).unwrap();
        assert!(many.contains(&q));
    }
}

#[test]
fn bot_state_new_loads_quotes_from_folder() {
    let files = vec![
        Some(strings(&["Hello world", "General Kenobi"])),
        Some(strings(&["Foo", "Bar"])),
    ];
    let state = BotState::new(true, files).expect("BotState::new should succeed for valid folder");
    let quotes = state.quotes.quotes();
    assert_eq!(quotes.len(), 4, "Expected all quotes from both files to be loaded");
    assert!(quotes.contains(&"Hello world".to_string()));
    assert!(quotes.contains(&"General Kenobi".to_string()));
    assert!(quotes.contains(&"Foo".to_string()));
    assert!(quotes.contains(&"Bar".to_string()));
}

#[test]
fn bot_state_new_with_missing_folder_returns_error() {
    let res = BotState::new(false, vec![]);
    assert!(res.is_err(), "Expected error when folder does not exist");
}
