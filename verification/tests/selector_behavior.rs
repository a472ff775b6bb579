use cw_trainer::selector::{
    eligible_indices, find_last_dot, is_eligible, placeholder_chars, select, selection_of_entry,
    FileEntry, SelectError,
};

fn chars(s: &str) -> Vec<char> {
    s.chars().collect()
}

fn entry(name: &str) -> FileEntry {
    FileEntry { name: chars(name), decodable: true }
}

#[test]
fn eligible_extensions_are_exactly_mp3_ogg_wav() {
    assert!(is_eligible(&chars("a.mp3")));
    assert!(is_eligible(&chars("b.ogg")));
    assert!(is_eligible(&chars("c.wav")));
    assert!(is_eligible(&chars("K.wav")));
    assert!(is_eligible(&chars("a.b.wav")));
    assert!(!is_eligible(&chars("d.txt")));
    assert!(!is_eligible(&chars("e")));
    assert!(!is_eligible(&chars(".wav")));
    assert!(!is_eligible(&chars("f.")));
    assert!(!is_eligible(&chars("g.mp3.txt")));
    assert!(!is_eligible(&chars("")));
}

#[test]
fn extension_match_is_case_sensitive() {
    assert!(!is_eligible(&chars("f.WAV")));
    assert!(!is_eligible(&chars("f.Mp3")));
    assert!(!is_eligible(&chars("f.OGG")));
}

#[test]
fn find_last_dot_positions() {
    assert_eq!(find_last_dot(&chars("K.wav")), Some(1));
    assert_eq!(find_last_dot(&chars("a.b.wav")), Some(3));
    assert_eq!(find_last_dot(&chars("nodot")), None);
    assert_eq!(find_last_dot(&chars("")), None);
    assert_eq!(find_last_dot(&chars(".wav")), Some(0));
}

#[test]
fn eligible_indices_filters_in_order() {
    let entries = vec![
        entry("K.wav"),
        entry("readme.txt"),
        entry("M.ogg"),
        entry("cover.png"),
        entry("S.mp3"),
    ];
    let idx = eligible_indices(&entries);
    assert_eq!(idx, vec![0, 2, 4]);
}

#[test]
fn select_returns_only_eligible() {
    let entries = vec![
        entry("K.wav"),
        entry("readme.txt"),
        entry("M.ogg"),
        entry("cover.png"),
        entry("S.mp3"),
    ];
    for _ in 0..40 {
        let sel = select(&entries).expect("eligible entries exist");
        let name: String = sel.file_name.iter().collect();
        assert!(name == "K.wav" || name == "M.ogg" || name == "S.mp3");
        let answer: String = sel.answer.iter().collect();
        assert!(answer == "K" || answer == "M" || answer == "S");
    }
}

#[test]
fn select_on_empty_directory_fails() {
    let entries: Vec<FileEntry> = Vec::new();
    assert!(matches!(select(&entries), Err(SelectError::NoEligibleFiles)));
}

#[test]
fn select_without_eligible_files_fails() {
    let entries = vec![entry("readme.txt"), entry("cover.png"), entry("notes.md")];
    assert!(matches!(select(&entries), Err(SelectError::NoEligibleFiles)));
}

#[test]
fn select_single_file_is_deterministic() {
    let entries = vec![entry("readme.txt"), entry("K.wav")];
    for _ in 0..10 {
        let sel = select(&entries).expect("one eligible entry exists");
        assert_eq!(sel.file_name, chars("K.wav"));
        assert_eq!(sel.answer, chars("K"));
    }
}

#[test]
fn selection_strips_extension_only_at_last_dot() {
    let sel = selection_of_entry(&entry("a.b.wav"));
    assert_eq!(sel.file_name, chars("a.b.wav"));
    assert_eq!(sel.answer, chars("a.b"));
}

#[test]
fn undecodable_name_gets_placeholder_answer() {
    let e = FileEntry { name: chars("K.wav"), decodable: false };
    let sel = selection_of_entry(&e);
    assert_eq!(sel.file_name, chars("K.wav"));
    assert_eq!(sel.answer, placeholder_chars());
    assert_eq!(sel.answer, chars("Unbekannt"));
}
