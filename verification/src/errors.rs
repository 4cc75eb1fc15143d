//! What can go wrong between the stored record and the finished page.

use crate::text::joined;
use vstd::prelude::*;
use vstd::string::StringExecFns;

verus! {

/// The stored record could not be used.
#[derive(Debug, Clone, PartialEq, Eq)]
pub enum PersistenceError {
    /// The record is there and could not be read.
    Unreadable(String),
    /// The record could not be written.
    Unwritable(String),
    /// The record was read and is not a résumé record.
    Unparsable(String),
}

/// What a value of [`PersistenceError`] is in contracts: each text as the sequence of
/// its characters, each list as the sequence of its items.
pub enum PersistenceErrorView {
    Unreadable(Seq<char>),
    Unwritable(Seq<char>),
    Unparsable(Seq<char>),
}

impl View for PersistenceError {
    type V = PersistenceErrorView;

    open spec fn view(&self) -> PersistenceErrorView {
        match self {
            PersistenceError::Unreadable(detail) => PersistenceErrorView::Unreadable(detail@),
            PersistenceError::Unwritable(detail) => PersistenceErrorView::Unwritable(detail@),
            PersistenceError::Unparsable(detail) => PersistenceErrorView::Unparsable(detail@),
        }
    }
}

/// The record lacks something that a page cannot be made without.
#[derive(Debug, Clone, PartialEq, Eq)]
pub enum ResolutionError {
    /// The field of this name is unset.
    MissingField(String),
}

/// What a value of [`ResolutionError`] is in contracts: each text as the sequence of
/// its characters, each list as the sequence of its items.
pub enum ResolutionErrorView {
    MissingField(Seq<char>),
}

impl View for ResolutionError {
    type V = ResolutionErrorView;

    open spec fn view(&self) -> ResolutionErrorView {
        match self {
            ResolutionError::MissingField(name) => ResolutionErrorView::MissingField(name@),
        }
    }
}

/// A font or another fixed resource is not available.
#[derive(Debug, Clone, PartialEq, Eq)]
pub struct AssetError {
    /// Where the resource was looked for.
    pub path: String,
    /// What went wrong there.
    pub detail: String,
}

/// What a value of [`AssetError`] is in contracts: each text as the sequence of
/// its characters, each list as the sequence of its items.
pub struct AssetErrorView {
    pub path: Seq<char>,
    pub detail: Seq<char>,
}

impl View for AssetError {
    type V = AssetErrorView;

    open spec fn view(&self) -> AssetErrorView {
        AssetErrorView { path: self.path@, detail: self.detail@ }
    }
}

/// The finished page could not be turned into bytes.
#[derive(Debug, Clone, PartialEq, Eq)]
pub struct SerializationError {
    pub detail: String,
}

/// What a value of [`SerializationError`] is in contracts: each text as the sequence of
/// its characters, each list as the sequence of its items.
pub struct SerializationErrorView {
    pub detail: Seq<char>,
}

impl View for SerializationError {
    type V = SerializationErrorView;

    open spec fn view(&self) -> SerializationErrorView {
        SerializationErrorView { detail: self.detail@ }
    }
}

/// Any of the failures above.
#[derive(Debug, Clone, PartialEq, Eq)]
pub enum Error {
    Persistence(PersistenceError),
    Resolution(ResolutionError),
    Asset(AssetError),
    Serialization(SerializationError),
}

/// What a value of [`Error`] is in contracts: each text as the sequence of
/// its characters, each list as the sequence of its items.
pub enum ErrorView {
    Persistence(PersistenceErrorView),
    Resolution(ResolutionErrorView),
    Asset(AssetErrorView),
    Serialization(SerializationErrorView),
}

impl View for Error {
    type V = ErrorView;

    open spec fn view(&self) -> ErrorView {
        match self {
            Error::Persistence(e) => ErrorView::Persistence(e@),
            Error::Resolution(e) => ErrorView::Resolution(e@),
            Error::Asset(e) => ErrorView::Asset(e@),
            Error::Serialization(e) => ErrorView::Serialization(e@),
        }
    }
}

impl PersistenceError {
    /// The failure in words.
    pub open spec fn message_text(&self) -> Seq<char> {
        match self {
            PersistenceError::Unreadable(detail) => "cannot read the configuration: "@ + detail@,
            PersistenceError::Unwritable(detail) => "cannot write the configuration: "@ + detail@,
            PersistenceError::Unparsable(detail) => "cannot parse the configuration: "@ + detail@,
        }
    }

    /// The failure in words.
    pub fn message(&self) -> (r: String)
        ensures
            r@ == self.message_text(),
    {
        match self {
            PersistenceError::Unreadable(detail) => joined(
                "cannot read the configuration: ",
                detail.as_str(),
            ),
            PersistenceError::Unwritable(detail) => joined(
                "cannot write the configuration: ",
                detail.as_str(),
            ),
            PersistenceError::Unparsable(detail) => joined(
                "cannot parse the configuration: ",
                detail.as_str(),
            ),
        }
    }
}

impl ResolutionError {
    /// The failure in words.
    pub open spec fn message_text(&self) -> Seq<char> {
        match self {
            ResolutionError::MissingField(name) => "missing required field: "@ + name@,
        }
    }

    /// The failure in words.
    pub fn message(&self) -> (r: String)
        ensures
            r@ == self.message_text(),
    {
        match self {
            ResolutionError::MissingField(name) => joined(
                "missing required field: ",
                name.as_str(),
            ),
        }
    }
}

impl AssetError {
    /// The failure in words.
    pub open spec fn message_text(&self) -> Seq<char> {
        "cannot load "@ + self.path@ + ": "@ + self.detail@
    }

    /// The failure in words.
    pub fn message(&self) -> (r: String)
        ensures
            r@ == self.message_text(),
    {
        let mut text = joined("cannot load ", self.path.as_str());
        text.append(": ");
        text.append(self.detail.as_str());
        text
    }
}

impl SerializationError {
    /// The failure in words.
    pub open spec fn message_text(&self) -> Seq<char> {
        "cannot assemble the document: "@ + self.detail@
    }

    /// The failure in words.
    pub fn message(&self) -> (r: String)
        ensures
            r@ == self.message_text(),
    {
        joined("cannot assemble the document: ", self.detail.as_str())
    }
}

impl Error {
    /// The failure in words: the message of the failure that it holds.
    pub open spec fn message_text(&self) -> Seq<char> {
        match self {
            Error::Persistence(e) => e.message_text(),
            Error::Resolution(e) => e.message_text(),
            Error::Asset(e) => e.message_text(),
            Error::Serialization(e) => e.message_text(),
        }
    }

    /// The failure in words: the message of the failure that it holds.
    pub fn message(&self) -> (r: String)
        ensures
            r@ == self.message_text(),
    {
        match self {
            Error::Persistence(e) => e.message(),
            Error::Resolution(e) => e.message(),
            Error::Asset(e) => e.message(),
            Error::Serialization(e) => e.message(),
        }
    }
}

} // verus!
