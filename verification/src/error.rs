//! What can go wrong while a configuration is located, read and decoded.

use vstd::prelude::*;

verus! {

/// A directory that the platform is asked for.
#[derive(Debug, Clone, Copy, PartialEq, Eq, Structural)]
pub enum Directory {
    /// The per-user configuration directory.
    Config,
    /// The user's home directory.
    Home,
}

/// A place in a configuration document: the document itself, one of its keys, or
/// one of the four slots of a color scheme.
#[derive(Debug, Clone, Copy, PartialEq, Eq, Structural)]
pub enum Field {
    Document,
    Default,
    MatchVimExitBehavior,
    Exec,
    IgnoreCase,
    Color,
    DirFg,
    FileFg,
    SymlinkFg,
    DirtyFg,
}

/// Why a text is not a configuration.
#[derive(Debug, Clone, PartialEq, Eq)]
pub enum Fault {
    /// The text is not one well-formed YAML document; the parser's message.
    Syntax(String),
    /// A key occurs more than once.
    Duplicate(Field),
    /// What stands at this place has the wrong type, or is no color.
    Mismatch(Field),
    /// A color scheme lacks this slot.
    Missing(Field),
}

/// The mathematical value of a [`Fault`].
pub enum FaultView {
    Syntax(Seq<char>),
    Duplicate(Field),
    Mismatch(Field),
    Missing(Field),
}

impl View for Fault {
    type V = FaultView;

    open spec fn view(&self) -> FaultView {
        match self {
            Fault::Syntax(message) => FaultView::Syntax(message@),
            Fault::Duplicate(field) => FaultView::Duplicate(*field),
            Fault::Mismatch(field) => FaultView::Mismatch(*field),
            Fault::Missing(field) => FaultView::Missing(*field),
        }
    }
}

/// The failures of loading. That no configuration file exists is none of them.
#[derive(Debug, Clone, PartialEq, Eq)]
pub enum FxError {
    /// The platform could not name a directory that the search needs.
    Dirs(Directory),
    /// The file that was found could not be read; the reader's message.
    FileOperation(String),
    /// The file was read and is not a configuration.
    Deserialization(Fault),
}

/// The mathematical value of an [`FxError`].
pub enum FxErrorView {
    Dirs(Directory),
    FileOperation(Seq<char>),
    Deserialization(FaultView),
}

impl View for FxError {
    type V = FxErrorView;

    open spec fn view(&self) -> FxErrorView {
        match self {
            FxError::Dirs(directory) => FxErrorView::Dirs(*directory),
            FxError::FileOperation(message) => FxErrorView::FileOperation(message@),
            FxError::Deserialization(fault) => FxErrorView::Deserialization(fault@),
        }
    }
}

} // verus!
