//! A page of the knowledge base on screen.

use vstd::prelude::*;
use vstd::string::StringExecFns;

verus! {

/// A page of the knowledge base, by the path of its file.
#[derive(Clone, Debug, Default)]
pub struct MarkDownPage {
    pub path: String,
}

/// What is shown for a page.
#[derive(Debug)]
pub enum MarkDownUi {
    /// The text of the page.
    Page(String),
    /// A line that says that the page is missing.
    Label(String),
}

/// The line that says that the page at `path` is missing.
pub open spec fn not_found(path: Seq<char>) -> Seq<char> {
    "Asset Not Found: "@ + path
}

impl MarkDownPage {
    pub fn new(path: String) -> (r: Self)
        ensures
            r.path@ == path@,
    {
        Self { path }
    }

    /// Says what is shown for the page at `path`: its text, if the file was
    /// found and read, and else a line that names the path. `text` is the
    /// text that was read, if any was.
    pub fn markdown_ui(text: Option<String>, path: &str) -> (r: MarkDownUi)
        ensures
            match (text, r) {
                (Some(text), MarkDownUi::Page(shown)) => shown@ == text@,
                (None, MarkDownUi::Label(label)) => label@ == not_found(path@),
                _ => false,
            },
    {
        match text {
            Some(text) => MarkDownUi::Page(text),
            None => {
                let mut label = String::from_str("Asset Not Found: ");
                label.append(path);
                MarkDownUi::Label(label)
            },
        }
    }

    /// Says what is shown for this page.
    pub fn page_ui(&self, text: Option<String>) -> (r: MarkDownUi)
        ensures
            match (text, r) {
                (Some(text), MarkDownUi::Page(shown)) => shown@ == text@,
                (None, MarkDownUi::Label(label)) => label@ == not_found(self.path@),
                _ => false,
            },
    {
        Self::markdown_ui(text, self.path.as_str())
    }
}

} // verus!
