//! App-owned entry points for the supported macOS applications: each owns
//! its UI driver and hands out a short-lived handle to what is currently
//! open, addressed by the application's bundle id.

use vstd::prelude::*;
use crate::text::{contains_seq, contains_text, owned};

verus! {

/// The bundle id of TextEdit.
pub open spec fn textedit_app_id() -> Seq<char> {
    "com.apple.TextEdit"@
}

/// The bundle id of Apple Notes.
pub open spec fn notes_app_id() -> Seq<char> {
    "com.apple.Notes"@
}

/// App-owned entry point for operating on TextEdit's current document.
pub struct TextEdit<D> {
    driver: D,
    app_id: String,
}

impl<D> TextEdit<D> {
    pub closed spec fn driver_spec(&self) -> D {
        self.driver
    }

    pub closed spec fn app_id_spec(&self) -> Seq<char> {
        self.app_id@
    }

    /// Wraps a driver; the handle addresses TextEdit by its bundle id.
    pub fn new(driver: D) -> (app: Self)
        ensures
            app.driver_spec() == driver,
            app.app_id_spec() == textedit_app_id(),
    {
        TextEdit { driver, app_id: owned("com.apple.TextEdit") }
    }

    /// A short-lived handle to the document TextEdit currently shows; it
    /// borrows the app, so no two handles drive the UI at once.
    pub fn current_document(&mut self) -> (document: Document<'_, D>)
        ensures
            *document.driver == old(self).driver_spec(),
            document.app_id@ == old(self).app_id_spec(),
            final(self).app_id_spec() == old(self).app_id_spec(),
    {
        Document { driver: &mut self.driver, app_id: self.app_id.as_str() }
    }
}

/// A live view of TextEdit's current document.
pub struct Document<'app, D> {
    pub driver: &'app mut D,
    pub app_id: &'app str,
}

/// App-owned entry point for common Apple Notes operations.
pub struct NotesApp<D> {
    app_id: String,
    driver: D,
}

impl<D> NotesApp<D> {
    pub closed spec fn driver_spec(&self) -> D {
        self.driver
    }

    pub closed spec fn app_id_spec(&self) -> Seq<char> {
        self.app_id@
    }

    /// Builds an app around an existing driver.
    pub fn from_driver(driver: D) -> (app: Self)
        ensures
            app.driver_spec() == driver,
            app.app_id_spec() == notes_app_id(),
    {
        NotesApp { app_id: owned("com.apple.Notes"), driver }
    }

    /// A handle to the note currently selected in the Notes window.
    pub fn current_note(&mut self) -> (note: Note<'_, D>)
        ensures
            *note.driver == old(self).driver_spec(),
            note.app_id@ == old(self).app_id_spec(),
            final(self).app_id_spec() == old(self).app_id_spec(),
    {
        Note { app_id: self.app_id.as_str(), driver: &mut self.driver }
    }
}

/// A handle to the note currently selected in Apple Notes.
pub struct Note<'a, D> {
    pub app_id: &'a str,
    pub driver: &'a mut D,
}

/// What a Notes compare answers from the driver's verification of the
/// note body: the text it matched contains the expected text, or an error
/// when the driver reported no verification.
pub fn note_compare_result(matched_text: Option<String>, expected: &str) -> (r: Result<bool, String>)
    ensures
        match matched_text {
            Some(text) => r == Ok::<bool, String>(contains_seq(text@, expected@)),
            None => r matches Err(e) && e@ == "Notes compare completed without a verification value"@,
        },
{
    match matched_text {
        Some(text) => Ok(contains_text(text.as_str(), expected)),
        None => Err(owned("Notes compare completed without a verification value")),
    }
}

} // verus!
