//! The errors that end an extraction.

use vstd::prelude::*;

verus! {

/// The kind of a structural event.
#[derive(Debug, Clone, Copy, PartialEq, Eq, Structural)]
pub enum EventKind {
    /// An element opens.
    ElementOpen,
    /// An element closes.
    ElementClose,
    /// Text content.
    Text,
    /// The document ends.
    DocumentEnd,
    /// Anything else: a comment, white space, a processing instruction.
    Other,
}

impl EventKind {
    /// The kind in words, as it stands in the description of an error.
    pub open spec fn words(self) -> Seq<char> {
        match self {
            EventKind::ElementOpen => "an opening tag"@,
            EventKind::ElementClose => "a closing tag"@,
            EventKind::Text => "text"@,
            EventKind::DocumentEnd => "the end of the document"@,
            EventKind::Other => "something that is neither tag nor text"@,
        }
    }

    /// The kind in words.
    pub fn name(self) -> (name: &'static str)
        ensures
            name@ == self.words(),
    {
        match self {
            EventKind::ElementOpen => "an opening tag",
            EventKind::ElementClose => "a closing tag",
            EventKind::Text => "text",
            EventKind::DocumentEnd => "the end of the document",
            EventKind::Other => "something that is neither tag nor text",
        }
    }
}

/// Why an extraction failed. Every error is fatal: a failed run yields no
/// record. `path` is the rendered path of the element at which the run
/// stopped.
#[derive(Debug, PartialEq, Eq)]
pub enum ExtractError {
    /// The events ran out before the document, or a region that must be
    /// there, was complete.
    PrematureEnd { path: String },
    /// An element that the binding table knows was not followed at once by
    /// its text; `found` is the kind of the event that came instead.
    MissingText { path: String, found: EventKind },
    /// The element lacks an attribute that its binding requires.
    MissingAttribute { path: String, attribute: String },
    /// A field of a repeated group came before the first member of the
    /// group was started.
    FieldOutsideGroup { path: String },
    /// An element closed that was never opened.
    UnbalancedClose,
}

/// The view of [`ExtractError`].
pub enum ExtractErrorView {
    PrematureEnd { path: Seq<char> },
    MissingText { path: Seq<char>, found: EventKind },
    MissingAttribute { path: Seq<char>, attribute: Seq<char> },
    FieldOutsideGroup { path: Seq<char> },
    UnbalancedClose,
}

impl View for ExtractError {
    type V = ExtractErrorView;

    open spec fn view(&self) -> ExtractErrorView {
        match *self {
            ExtractError::PrematureEnd { path } => ExtractErrorView::PrematureEnd { path: path@ },
            ExtractError::MissingText { path, found } => ExtractErrorView::MissingText {
                path: path@,
                found,
            },
            ExtractError::MissingAttribute { path, attribute } => {
                ExtractErrorView::MissingAttribute { path: path@, attribute: attribute@ }
            },
            ExtractError::FieldOutsideGroup { path } => ExtractErrorView::FieldOutsideGroup {
                path: path@,
            },
            ExtractError::UnbalancedClose => ExtractErrorView::UnbalancedClose,
        }
    }
}

impl ExtractErrorView {
    /// The error in words: what went wrong, and at which path.
    pub open spec fn description(self) -> Seq<char> {
        match self {
            ExtractErrorView::PrematureEnd { path } => "the document ended too early, at `"@ + path
                + "`"@,
            ExtractErrorView::MissingText { path, found } => "`"@ + path
                + "` should hold text, but is followed by "@ + found.words(),
            ExtractErrorView::MissingAttribute { path, attribute } => "`"@ + path
                + "` lacks the attribute `"@ + attribute + "`"@,
            ExtractErrorView::FieldOutsideGroup { path } => "`"@ + path
                + "` came before the first member of its group"@,
            ExtractErrorView::UnbalancedClose => "an element closed that was never opened"@,
        }
    }
}

impl ExtractError {
    /// The error in words: what went wrong, and at which path.
    pub fn describe(&self) -> (r: String)
        ensures
            r@ == self@.description(),
    {
        match self {
            ExtractError::PrematureEnd { path } => {
                let mut r = String::from_str("the document ended too early, at `");
                r.append(path.as_str());
                r.append("`");
                r
            },
            ExtractError::MissingText { path, found } => {
                let mut r = String::from_str("`");
                r.append(path.as_str());
                r.append("` should hold text, but is followed by ");
                r.append(found.name());
                r
            },
            ExtractError::MissingAttribute { path, attribute } => {
                let mut r = String::from_str("`");
                r.append(path.as_str());
                r.append("` lacks the attribute `");
                r.append(attribute.as_str());
                r.append("`");
                r
            },
            ExtractError::FieldOutsideGroup { path } => {
                let mut r = String::from_str("`");
                r.append(path.as_str());
                r.append("` came before the first member of its group");
                r
            },
            ExtractError::UnbalancedClose => String::from_str(
                "an element closed that was never opened",
            ),
        }
    }
}

} // verus!
