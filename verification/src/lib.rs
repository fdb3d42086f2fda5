//! Boot file layout on the EFI System Partition, and the export of the
//! measurement registers that cover companion initrds.
//!
//! Paths are held as text with `/` between their components, as they are on
//! the systems this crate installs to.

pub mod error;
pub mod esp;
pub mod generation;
pub mod initrd;
pub mod path;
pub mod system;
pub mod text;
