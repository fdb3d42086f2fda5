//! What can go wrong while the boot files of a generation are laid out.

use vstd::prelude::*;
use vstd::string::StringExecFns;

use crate::system::System;

verus! {

/// Why the paths of a generation could not be computed.
#[derive(Clone, Debug, PartialEq, Eq)]
pub enum EspError {
    /// The system double names no supported system. Holds the double.
    UnsupportedArchitecture(String),
    /// The generation was built for another system than the one installed for.
    ArchitectureMismatch { expected: System, found: System },
    /// A store path has no parent directory with a name. Holds the path.
    UnresolvablePath(String),
    /// The generation has no initrd.
    MissingInitrd,
}

/// An [`EspError`] with its texts as sequences of characters.
pub enum EspErrorView {
    UnsupportedArchitecture(Seq<char>),
    ArchitectureMismatch { expected: System, found: System },
    UnresolvablePath(Seq<char>),
    MissingInitrd,
}

impl View for EspError {
    type V = EspErrorView;

    open spec fn view(&self) -> EspErrorView {
        match self {
            EspError::UnsupportedArchitecture(double) => EspErrorView::UnsupportedArchitecture(
                double@,
            ),
            EspError::ArchitectureMismatch { expected, found } => {
                EspErrorView::ArchitectureMismatch { expected: *expected, found: *found }
            },
            EspError::UnresolvablePath(path) => EspErrorView::UnresolvablePath(path@),
            EspError::MissingInitrd => EspErrorView::MissingInitrd,
        }
    }
}

impl EspErrorView {
    /// The text shown to the operator for this error.
    pub open spec fn message(self) -> Seq<char> {
        match self {
            EspErrorView::UnsupportedArchitecture(double) => {
                "Unsupported NixOS system double: "@ + double
                    + ", please open an issue or a PR if you think this should be supported."@
            },
            EspErrorView::ArchitectureMismatch { expected, found } => {
                "Generation was built for "@ + found.system_double() + ", but the installation targets "@
                    + expected.system_double()
            },
            EspErrorView::UnresolvablePath(path) => {
                "Failed to extract final component from: \""@ + path + "\""@
            },
            EspErrorView::MissingInitrd => "Lanzaboote does not support missing initrd yet"@,
        }
    }
}

impl EspError {
    /// The text shown to the operator for this error.
    pub fn message(&self) -> (text: String)
        ensures
            text@ == self@.message(),
    {
        match self {
            EspError::UnsupportedArchitecture(double) => {
                let mut text = String::from_str("Unsupported NixOS system double: ");
                text.append(double.as_str());
                text.append(", please open an issue or a PR if you think this should be supported.");
                text
            },
            EspError::ArchitectureMismatch { expected, found } => {
                let mut text = String::from_str("Generation was built for ");
                text.append(found.to_system_double());
                text.append(", but the installation targets ");
                text.append(expected.to_system_double());
                text
            },
            EspError::UnresolvablePath(path) => {
                let mut text = String::from_str("Failed to extract final component from: \"");
                text.append(path.as_str());
                text.append("\"");
                text
            },
            EspError::MissingInitrd => String::from_str(
                "Lanzaboote does not support missing initrd yet",
            ),
        }
    }
}

} // verus!
