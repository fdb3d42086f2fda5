//! What is known of a generation when its boot files are laid out.

use vstd::prelude::*;
use vstd::string::StringExecFns;

verus! {

/// A path into the store, with the target of the link where the path is a
/// symbolic link.
#[derive(Clone, Debug, PartialEq, Eq)]
pub struct StoreReference {
    pub path: String,
    pub link_target: Option<String>,
}

/// A [`StoreReference`] with its paths as sequences of characters.
pub struct StoreReferenceView {
    pub path: Seq<char>,
    pub link_target: Option<Seq<char>>,
}

impl StoreReferenceView {
    /// The path that the reference stands for: the target where the path is
    /// a link, the path itself where it is not.
    pub open spec fn resolved(self) -> Seq<char> {
        match self.link_target {
            Some(target) => target,
            None => self.path,
        }
    }
}

impl View for StoreReference {
    type V = StoreReferenceView;

    open spec fn view(&self) -> StoreReferenceView {
        StoreReferenceView {
            path: self.path@,
            link_target: match self.link_target {
                Some(target) => Some(target@),
                None => None,
            },
        }
    }
}

impl StoreReference {
    /// A reference to a path that is no link.
    pub fn new(path: &str) -> (reference: Self)
        ensures
            reference@ == (StoreReferenceView { path: path@, link_target: None }),
    {
        Self { path: String::from_str(path), link_target: None }
    }

    /// A reference to a path that is a link to `target`.
    pub fn link(path: &str, target: &str) -> (reference: Self)
        ensures
            reference@ == (StoreReferenceView { path: path@, link_target: Some(target@) }),
    {
        Self { path: String::from_str(path), link_target: Some(String::from_str(target)) }
    }

    /// The path that the reference stands for.
    pub fn resolved(&self) -> (path: &str)
        ensures
            path@ == self@.resolved(),
    {
        match &self.link_target {
            Some(target) => target.as_str(),
            None => self.path.as_str(),
        }
    }
}

/// A generation of the system, as far as its boot files depend on it.
#[derive(Clone, Debug, PartialEq, Eq)]
pub struct Generation {
    /// Number of the generation in its profile.
    pub version: u64,
    /// Name of the specialisation, where the generation is one.
    pub specialisation_name: Option<String>,
    /// The system double that the generation was built for.
    pub system: String,
    /// The kernel image in the store.
    pub kernel: StoreReference,
    /// The initrd in the store.
    pub initrd: Option<StoreReference>,
}

/// A [`Generation`] with its texts as sequences of characters.
pub struct GenerationView {
    pub version: nat,
    pub specialisation_name: Option<Seq<char>>,
    pub system: Seq<char>,
    pub kernel: StoreReferenceView,
    pub initrd: Option<StoreReferenceView>,
}

impl View for Generation {
    type V = GenerationView;

    open spec fn view(&self) -> GenerationView {
        GenerationView {
            version: self.version as nat,
            specialisation_name: match self.specialisation_name {
                Some(name) => Some(name@),
                None => None,
            },
            system: self.system@,
            kernel: self.kernel@,
            initrd: match self.initrd {
                Some(reference) => Some(reference@),
                None => None,
            },
        }
    }
}

impl Generation {
    /// The name of the specialisation, where the generation is one.
    pub fn is_specialised(&self) -> (name: Option<&String>)
        ensures
            match name {
                Some(name) => self@.specialisation_name == Some(name@),
                None => self@.specialisation_name is None,
            },
    {
        match &self.specialisation_name {
            Some(name) => Some(name),
            None => None,
        }
    }
}

} // verus!
