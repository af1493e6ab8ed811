use frontend::notes::{after_save, after_save_failure, Note, NotesPage, SaveRequest};

fn note(id: usize, title: &str, content: &str) -> Note {
    Note { id, title: title.to_string(), content: content.to_string() }
}

#[test]
fn edits_without_selection_do_nothing() {
    let mut p = NotesPage::new();
    p.edit_title("t".to_string());
    p.edit_content("c".to_string());
    assert!(p.selected.is_none());
    assert_eq!(p.title_text(), "");
    assert_eq!(p.content_text(), "");
    assert_eq!(p.word_count(), 0);
    assert!(p.autosave().is_none());
}

#[test]
fn edits_change_only_the_selected_copy() {
    let mut p = NotesPage::new();
    p.load(vec![note(1, "a", "x"), note(2, "b", "y")]);
    p.select(note(2, "b", "y"));
    p.edit_title("new title".to_string());
    p.edit_content("one  two\nthree".to_string());
    assert_eq!(p.title_text(), "new title");
    assert_eq!(p.content_text(), "one  two\nthree");
    assert_eq!(p.word_count(), 3);
    assert_eq!(p.titles(), vec!["a".to_string(), "b".to_string()]);
    assert_eq!(p.selected.as_ref().map(|n| n.id), Some(2));
}

#[test]
fn autosave_updates_then_falls_back_to_create() {
    let mut p = NotesPage::new();
    p.select(note(42, "t", "c"));
    let req = p.autosave().expect("a save request");
    match &req {
        SaveRequest::Update { url, note } => {
            assert_eq!(url, "http://localhost:8000/api/update/42/");
            assert_eq!(note.id, 42);
        }
        _ => panic!("expected an update"),
    }
    let fallback = after_save_failure(req).expect("a fallback");
    match &fallback {
        SaveRequest::Create { url, note } => {
            assert_eq!(url, "http://localhost:8000/api/notes/");
            assert_eq!(note.title, "t");
        }
        _ => panic!("expected a creation"),
    }
    assert!(after_save_failure(fallback).is_none());
}

#[test]
fn copy_keeps_fields() {
    let n = note(7, "t", "c");
    let m = n.copy();
    assert_eq!((m.id, m.title, m.content), (7, "t".to_string(), "c".to_string()));
}

#[test]
fn save_fallback_follows_the_put_outcome() {
    let update = || SaveRequest::Update { url: "u".to_string(), note: note(3, "t", "c") };
    assert!(after_save(update(), Some(200)).is_none());
    assert!(after_save(update(), Some(204)).is_none());
    for outcome in [None, Some(404), Some(500), Some(199), Some(300)] {
        match after_save(update(), outcome) {
            Some(SaveRequest::Create { url, note }) => {
                assert_eq!(url, "http://localhost:8000/api/notes/");
                assert_eq!(note.id, 3);
            }
            _ => panic!("expected a creation after {:?}", outcome),
        }
    }
    let create = SaveRequest::Create { url: "c".to_string(), note: note(3, "t", "c") };
    assert!(after_save(create, Some(500)).is_none());
}
