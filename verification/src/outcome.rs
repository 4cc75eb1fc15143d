//! What a command comes to: a notice for the user and an action to carry
//! out.

use crate::api::{DocumentShape, DocumentShapeView};
use crate::generate::{RenderedDocument, RenderedDocumentView};
use crate::text::joined;
use vstd::prelude::*;
use vstd::string::StringExecFns;

verus! {

/// Something to tell the user that is no failure.
#[derive(Debug, Clone, PartialEq, Eq)]
pub enum Notice {
    /// The command of this name is not known.
    UnrecognizedCommand(String),
    /// No command was given.
    NoCommand,
    /// `list` was asked for something other than the configuration.
    UnknownListing,
    /// `set` was asked for a section of this name, which is not known.
    UnrecognizedSection(String),
    /// `set` was asked for no section.
    NoSection,
}

/// What Rust prints for a text that is formatted with `{:#?}`: the text
/// between double quotes, with the characters escaped that `Debug` escapes.
pub uninterp spec fn debug_text(text: Seq<char>) -> Seq<char>;

/// `format!` with `{:#?}` writes a text as the standard library's `Debug`
/// for `str` does. What is written depends on the text alone.
#[verifier::external_body]
fn quoted(text: &str) -> (r: String)
    ensures
        r@ == debug_text(text@),
{
    format!("{:#?}", text)
}

impl Notice {
    /// The notice in words. A name that it speaks of is shown as `Debug`
    /// prints it.
    pub open spec fn message_text(&self) -> Seq<char> {
        match self {
            Notice::UnrecognizedCommand(name) => self.message_with(debug_text(name@)),
            Notice::UnrecognizedSection(name) => self.message_with(debug_text(name@)),
            _ => self.message_with(Seq::empty()),
        }
    }

    /// The notice in words, given the name that it speaks of as it is to be
    /// shown; a notice that speaks of no name ignores `shown`.
    pub open spec fn message_with(&self, shown: Seq<char>) -> Seq<char> {
        match self {
            Notice::UnrecognizedCommand(_) => "Subcommand "@ + shown + " not recognized"@,
            Notice::NoCommand => "No matches found for subcommand..."@,
            Notice::UnknownListing => "Unknown subcommand ... "@,
            Notice::UnrecognizedSection(_) => "Subcommand "@ + shown + " not recognized."@,
            Notice::NoSection => "No matches found for subcommand..."@,
        }
    }

    /// The notice in words, with the name that it speaks of written as
    /// `shown`.
    pub fn worded(&self, shown: &str) -> (r: String)
        ensures
            r@ == self.message_with(shown@),
    {
        match self {
            Notice::UnrecognizedCommand(_) => {
                let mut text = joined("Subcommand ", shown);
                text.append(" not recognized");
                text
            },
            Notice::NoCommand => "No matches found for subcommand...".to_string(),
            Notice::UnknownListing => "Unknown subcommand ... ".to_string(),
            Notice::UnrecognizedSection(_) => {
                let mut text = joined("Subcommand ", shown);
                text.append(" not recognized.");
                text
            },
            Notice::NoSection => "No matches found for subcommand...".to_string(),
        }
    }

    /// The notice in words. A name that it speaks of stands between double
    /// quotes.
    pub fn message(&self) -> (r: String)
        ensures
            r@ == self.message_text(),
    {
        match self {
            Notice::UnrecognizedCommand(name) => self.worded(quoted(name.as_str()).as_str()),
            Notice::UnrecognizedSection(name) => self.worded(quoted(name.as_str()).as_str()),
            _ => self.worded(""),
        }
    }
}

/// What a value of [`Notice`] is in contracts: each text as the sequence of
/// its characters, each list as the sequence of its items.
pub enum NoticeView {
    UnrecognizedCommand(Seq<char>),
    NoCommand,
    UnknownListing,
    UnrecognizedSection(Seq<char>),
    NoSection,
}

impl View for Notice {
    type V = NoticeView;

    open spec fn view(&self) -> NoticeView {
        match self {
            Notice::UnrecognizedCommand(name) => NoticeView::UnrecognizedCommand(name@),
            Notice::NoCommand => NoticeView::NoCommand,
            Notice::UnknownListing => NoticeView::UnknownListing,
            Notice::UnrecognizedSection(name) => NoticeView::UnrecognizedSection(name@),
            Notice::NoSection => NoticeView::NoSection,
        }
    }
}

/// What is to be done for a command once the library has decided.
#[derive(Debug, Clone, PartialEq, Eq)]
pub enum Action {
    /// Nothing is to be done.
    Nothing,
    /// The record is to be shown.
    Show(DocumentShape),
    /// The record is to be stored in place of the old one.
    Store(DocumentShape),
    /// The page is to be turned into bytes and written to its file.
    Render(RenderedDocument),
}

/// What a value of [`Action`] is in contracts: each text as the sequence of
/// its characters, each list as the sequence of its items.
pub enum ActionView {
    Nothing,
    Show(DocumentShapeView),
    Store(DocumentShapeView),
    Render(RenderedDocumentView),
}

impl View for Action {
    type V = ActionView;

    open spec fn view(&self) -> ActionView {
        match self {
            Action::Nothing => ActionView::Nothing,
            Action::Show(shape) => ActionView::Show(shape@),
            Action::Store(shape) => ActionView::Store(shape@),
            Action::Render(page) => ActionView::Render(page@),
        }
    }
}

/// What a command comes to: something to tell the user, or nothing, and
/// something to do.
#[derive(Debug, Clone, PartialEq, Eq)]
pub struct Outcome {
    pub notice: Option<Notice>,
    pub action: Action,
}

/// What a value of [`Outcome`] is in contracts: each text as the sequence of
/// its characters, each list as the sequence of its items.
pub struct OutcomeView {
    pub notice: Option<NoticeView>,
    pub action: ActionView,
}

impl View for Outcome {
    type V = OutcomeView;

    open spec fn view(&self) -> OutcomeView {
        OutcomeView {
            notice: match self.notice {
                Some(notice) => Some(notice@),
                None => None,
            },
            action: self.action@,
        }
    }
}

} // verus!
