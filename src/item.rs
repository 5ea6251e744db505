//! Finished completion items and the builder that assembles them.
use vstd::prelude::*;

verus! {

/// A finished, presentable completion suggestion.
#[derive(Debug, Clone)]
pub struct CompletionItem {
    pub label: String,
    pub insert_text: String,
    pub detail: Option<String>,
}

impl CompletionItem {
    /// A builder for an item shown as `label`.
    pub fn new(label: String) -> (r: Builder)
        ensures
            r.label == label,
            r.insert_text is None,
            r.detail is None,
    {
        Builder { label, insert_text: None, detail: None }
    }
}

/// An item under construction.
#[derive(Debug)]
pub struct Builder {
    pub label: String,
    pub insert_text: Option<String>,
    pub detail: Option<String>,
}

impl Builder {
    /// Sets the text inserted when the item is accepted.
    pub fn insert_text(self, text: String) -> (r: Builder)
        ensures
            r.label == self.label,
            r.insert_text == Some(text),
            r.detail == self.detail,
    {
        Builder { insert_text: Some(text), ..self }
    }

    /// Sets the detail shown beside the label.
    pub fn detail(self, detail: String) -> (r: Builder)
        ensures
            r.label == self.label,
            r.insert_text == self.insert_text,
            r.detail == Some(detail),
    {
        Builder { detail: Some(detail), ..self }
    }

    /// The finished item; without an explicit insert text, the label is inserted.
    pub open spec fn spec_build(self) -> CompletionItem {
        CompletionItem {
            label: self.label,
            insert_text: match self.insert_text {
                Some(t) => t,
                None => self.label,
            },
            detail: self.detail,
        }
    }

    pub fn build(self) -> (r: CompletionItem)
        ensures
            r == self.spec_build(),
    {
        let insert_text = match self.insert_text {
            Some(t) => t,
            None => self.label.clone(),
        };
        CompletionItem { label: self.label, insert_text, detail: self.detail }
    }
}

} // verus!
