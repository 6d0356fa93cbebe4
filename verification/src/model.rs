//! The data that an invocation works on, and its mathematical model.

use vstd::prelude::*;

verus! {

/// The text of an optional string.
pub open spec fn opt_text(o: Option<String>) -> Option<Seq<char>> {
    match o {
        Some(s) => Some(s@),
        None => None,
    }
}

/// One file or object scheduled for a single transfer. For an upload `source`
/// is the local file and `target` the remote key; for a download `source` is
/// the remote key and `target` the local file.
#[derive(Debug)]
pub struct WorkItem {
    pub source: String,
    pub target: String,
}

pub struct WorkItemView {
    pub source: Seq<char>,
    pub target: Seq<char>,
}

impl View for WorkItem {
    type V = WorkItemView;

    open spec fn view(&self) -> WorkItemView {
        WorkItemView { source: self.source@, target: self.target@ }
    }
}

/// One entry of a glob expansion: a path that matched, or the description of
/// an entry that could not be read.
#[derive(Debug)]
pub enum GlobEntry {
    Found(String),
    Failed(String),
}

pub enum GlobEntryView {
    Found(Seq<char>),
    Failed(Seq<char>),
}

impl View for GlobEntry {
    type V = GlobEntryView;

    open spec fn view(&self) -> GlobEntryView {
        match self {
            GlobEntry::Found(p) => GlobEntryView::Found(p@),
            GlobEntry::Failed(e) => GlobEntryView::Failed(e@),
        }
    }
}

/// What enumeration made of one entry.
#[derive(Debug)]
pub enum Enumerated {
    /// The entry is transferred.
    Transfer(WorkItem),
    /// The path matched the exclusion pattern and is left out.
    Excluded(String),
    /// The entry could not be read and is left out.
    Unresolved(String),
    /// The path or key has no file name to go by and is left out.
    Unnamed(String),
}

pub enum EnumeratedView {
    Transfer(WorkItemView),
    Excluded(Seq<char>),
    Unresolved(Seq<char>),
    Unnamed(Seq<char>),
}

impl View for Enumerated {
    type V = EnumeratedView;

    open spec fn view(&self) -> EnumeratedView {
        match self {
            Enumerated::Transfer(w) => EnumeratedView::Transfer(w@),
            Enumerated::Excluded(p) => EnumeratedView::Excluded(p@),
            Enumerated::Unresolved(e) => EnumeratedView::Unresolved(e@),
            Enumerated::Unnamed(p) => EnumeratedView::Unnamed(p@),
        }
    }
}

/// A field of the build's identity.
#[derive(Clone, Copy, Debug, PartialEq, Eq, Structural)]
pub enum IdentityField {
    BuildId,
    BuildName,
    BuildJobName,
    BuildPipelineName,
    BuildTeamName,
}

/// A fault in the configuration of an invocation. It ends the invocation
/// before any transfer begins.
#[derive(Clone, Copy, Debug, PartialEq, Eq, Structural)]
pub enum ConfigError {
    /// No source was given.
    MissingSource,
    /// No parameters were given.
    MissingParams,
    /// The build's identity lacks a field that is needed.
    MissingIdentity(IdentityField),
    /// The exclusion pattern is no regular expression.
    InvalidExceptRegex,
}

} // verus!
