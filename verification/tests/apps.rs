use auv_cli::apps::{note_compare_result, NotesApp, TextEdit};

#[test]
fn textedit_hands_out_its_current_document() {
    let mut app = TextEdit::new(7u32);
    let document = app.current_document();
    assert_eq!(document.app_id, "com.apple.TextEdit");
    *document.driver += 1;
    let again = app.current_document();
    assert_eq!(*again.driver, 8);
}

#[test]
fn notes_hands_out_its_current_note() {
    let mut app = NotesApp::from_driver(vec![1u8]);
    let note = app.current_note();
    assert_eq!(note.app_id, "com.apple.Notes");
    note.driver.push(2);
    assert_eq!(app.current_note().driver.len(), 2);
}

#[test]
fn a_notes_compare_looks_for_the_expected_text_in_what_was_matched() {
    assert_eq!(note_compare_result(Some("Groceries: milk, eggs".to_string()), "milk"), Ok(true));
    assert_eq!(note_compare_result(Some("Groceries".to_string()), "milk"), Ok(false));
    assert_eq!(note_compare_result(Some("anything".to_string()), ""), Ok(true));
    assert_eq!(
        note_compare_result(None, "milk"),
        Err("Notes compare completed without a verification value".to_string())
    );
}
