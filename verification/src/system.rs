//! Supported systems and the firmware file names that belong to each.

use vstd::prelude::*;
use vstd::string::StringExecFns;

use crate::error::{EspError, EspErrorView};

verus! {

/// Supported system
#[derive(Clone, Copy, Debug, PartialEq, Eq, Structural)]
#[non_exhaustive]
pub enum System {
    X86,
    AArch64,
}

/// The system that a NixOS system double names, if it is a supported one.
/// Only the exact doubles are known: nothing is trimmed or folded.
pub open spec fn parse_system(system_double: Seq<char>) -> Option<System> {
    if system_double == "x86_64-linux"@ {
        Some(System::X86)
    } else if system_double == "aarch64-linux"@ {
        Some(System::AArch64)
    } else {
        None
    }
}

impl System {
    /// The NixOS system double of this system.
    pub open spec fn system_double(self) -> Seq<char> {
        match self {
            System::X86 => "x86_64-linux"@,
            System::AArch64 => "aarch64-linux"@,
        }
    }

    /// File name of the systemd stub for this system.
    pub open spec fn stub_name(self) -> Seq<char> {
        match self {
            System::X86 => "linuxx64.efi.stub"@,
            System::AArch64 => "linuxaa64.efi.stub"@,
        }
    }

    /// File name under which systemd-boot is installed for this system.
    pub open spec fn boot_loader_name(self) -> Seq<char> {
        match self {
            System::X86 => "systemd-bootx64.efi"@,
            System::AArch64 => "systemd-bootaa64.efi"@,
        }
    }

    /// File name that the firmware loads from removable media on this system.
    pub open spec fn fallback_name(self) -> Seq<char> {
        match self {
            System::X86 => "BOOTX64.EFI"@,
            System::AArch64 => "BOOTAA64.EFI"@,
        }
    }

    pub fn systemd_stub_filename(&self) -> (name: &'static str)
        ensures
            name@ == self.stub_name(),
    {
        match self {
            System::X86 => "linuxx64.efi.stub",
            System::AArch64 => "linuxaa64.efi.stub",
        }
    }

    pub fn systemd_filename(&self) -> (name: &'static str)
        ensures
            name@ == self.boot_loader_name(),
    {
        match self {
            System::X86 => "systemd-bootx64.efi",
            System::AArch64 => "systemd-bootaa64.efi",
        }
    }

    pub fn efi_fallback_filename(&self) -> (name: &'static str)
        ensures
            name@ == self.fallback_name(),
    {
        match self {
            System::X86 => "BOOTX64.EFI",
            System::AArch64 => "BOOTAA64.EFI",
        }
    }

    /// The NixOS system double of this system.
    pub fn to_system_double(&self) -> (double: &'static str)
        ensures
            double@ == self.system_double(),
    {
        match self {
            System::X86 => "x86_64-linux",
            System::AArch64 => "aarch64-linux",
        }
    }

    /// Converts from a NixOS system double to a supported system
    pub fn from_str(system_double: &str) -> (parsed: Result<System, EspError>)
        ensures
            match parse_system(system_double@) {
                Some(system) => parsed == Ok::<System, EspError>(system),
                None => parsed is Err && parsed->Err_0@ == EspErrorView::UnsupportedArchitecture(
                    system_double@,
                ),
            },
    {
        let double = String::from_str(system_double);
        if double == String::from_str("x86_64-linux") {
            Ok(System::X86)
        } else if double == String::from_str("aarch64-linux") {
            Ok(System::AArch64)
        } else {
            Err(EspError::UnsupportedArchitecture(double))
        }
    }
}

/// Exactly the two known doubles name a system; each system's double names
/// it again, and the stub of a named system is one of the two stub files.
pub proof fn lemma_supported_systems(system_double: Seq<char>)
    ensures
        parse_system(system_double) is Some <==> (system_double == "x86_64-linux"@
            || system_double == "aarch64-linux"@),
        parse_system(system_double) matches Some(system) ==> {
            &&& system.system_double() == system_double
            &&& (system.stub_name() == "linuxx64.efi.stub"@ || system.stub_name()
                == "linuxaa64.efi.stub"@)
        },
        forall|system: System| parse_system(#[trigger] system.system_double()) == Some(system),
{
    reveal_strlit("x86_64-linux");
    reveal_strlit("aarch64-linux");
    assert("x86_64-linux"@.len() != "aarch64-linux"@.len());
}

} // verus!
