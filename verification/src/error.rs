//! Why a build or a load did not produce a running module.

use crate::entry::EntryPoint;
use vstd::prelude::*;
use vstd::string::*;

verus! {

/// The build could not be carried out.
#[derive(Clone, Debug, PartialEq, Eq)]
pub enum BuildError {
    /// The toolchain's process could not be started; the text is what the
    /// operating system reported.
    SpawnFailed(String),
}

/// The artifact could not be turned into a usable library.
#[derive(Clone, Debug, PartialEq, Eq)]
pub enum LoadError {
    /// The artifact is missing or is no dynamic library of this platform; the
    /// text is what the loader reported.
    OpenFailed(String),
    /// The library was opened but does not export this entry point.
    MissingSymbol(EntryPoint),
}

/// Why the bridge is in its failed state.
#[derive(Clone, Debug, PartialEq, Eq)]
pub enum FailureReason {
    Build(BuildError),
    Load(LoadError),
}

/// A failure as plain text and plain values.
pub enum Failure {
    SpawnFailed(Seq<char>),
    OpenFailed(Seq<char>),
    MissingSymbol(EntryPoint),
}

impl View for BuildError {
    type V = Failure;

    open spec fn view(&self) -> Failure {
        match self {
            BuildError::SpawnFailed(text) => Failure::SpawnFailed(text@),
        }
    }
}

impl View for LoadError {
    type V = Failure;

    open spec fn view(&self) -> Failure {
        match self {
            LoadError::OpenFailed(text) => Failure::OpenFailed(text@),
            LoadError::MissingSymbol(entry) => Failure::MissingSymbol(*entry),
        }
    }
}

impl View for FailureReason {
    type V = Failure;

    open spec fn view(&self) -> Failure {
        match self {
            FailureReason::Build(e) => e@,
            FailureReason::Load(e) => e@,
        }
    }
}

impl Failure {
    /// The line a host writes to its log for this failure.
    pub open spec fn message(self) -> Seq<char> {
        match self {
            Failure::SpawnFailed(text) => "Failed to compile game: "@ + text,
            Failure::OpenFailed(text) => "Can not load dll library of game: "@ + text,
            Failure::MissingSymbol(entry) => "Can not load dll library of game: missing symbol "@
                + entry.spec_symbol_name(),
        }
    }
}

impl BuildError {
    /// The line a host writes to its log for this failure.
    pub fn message(&self) -> (line: String)
        ensures
            line@ == self@.message(),
    {
        match self {
            BuildError::SpawnFailed(text) => {
                let mut line = String::from_str("Failed to compile game: ");
                line.append(text.as_str());
                line
            },
        }
    }
}

impl LoadError {
    /// The line a host writes to its log for this failure.
    pub fn message(&self) -> (line: String)
        ensures
            line@ == self@.message(),
    {
        match self {
            LoadError::OpenFailed(text) => {
                let mut line = String::from_str("Can not load dll library of game: ");
                line.append(text.as_str());
                line
            },
            LoadError::MissingSymbol(entry) => {
                let mut line = String::from_str(
                    "Can not load dll library of game: missing symbol ",
                );
                line.append(entry.symbol_name());
                line
            },
        }
    }
}

impl FailureReason {
    /// The line a host writes to its log for this failure.
    pub fn message(&self) -> (line: String)
        ensures
            line@ == self@.message(),
    {
        match self {
            FailureReason::Build(e) => e.message(),
            FailureReason::Load(e) => e.message(),
        }
    }
}

} // verus!
