use std::path::Path;

use lanzaboote::error::EspError;
use lanzaboote::esp::{
    generation_path, nixos_file_name_for, nixos_path, EspGenerationPaths, EspPaths,
};
use lanzaboote::generation::{Generation, StoreReference};
use lanzaboote::path::{final_component_of_parent, join};
use lanzaboote::system::System;
use lanzaboote::text::decimal_string;

fn generation() -> Generation {
    Generation {
        version: 42,
        specialisation_name: None,
        system: String::from("x86_64-linux"),
        kernel: StoreReference::new("/nix/store/aaaa-linux-6.1.1/bzImage"),
        initrd: Some(StoreReference::new("/nix/store/bbbb-initrd-linux-6.1.1/initrd")),
    }
}

#[test]
fn nixos_path_creates_correct_filename_from_nix_store_path() -> Result<(), EspError> {
    let path = "/nix/store/xqplddjjjy1lhzyzbcv4dza11ccpcfds-initrd-linux-6.1.1/initrd";

    let generated_filename = nixos_path(path, "initrd")?;

    let expected_filename =
        String::from("xqplddjjjy1lhzyzbcv4dza11ccpcfds-initrd-linux-6.1.1-initrd.efi");

    assert_eq!(generated_filename, expected_filename);
    Ok(())
}

#[test]
fn supported_system_doubles_are_parsed() {
    assert_eq!(System::from_str("x86_64-linux").unwrap(), System::X86);
    assert_eq!(System::from_str("aarch64-linux").unwrap(), System::AArch64);
}

#[test]
fn system_doubles_are_matched_exactly() {
    for double in ["", "x86_64", "X86_64-linux", "x86_64-linux ", "i686-linux", "riscv64-linux"] {
        match System::from_str(double) {
            Err(EspError::UnsupportedArchitecture(offending)) => assert_eq!(offending, double),
            other => panic!("{:?} was taken for {:?}", double, other),
        }
    }
}

#[test]
fn unsupported_system_message_names_the_double() {
    let error = System::from_str("riscv64-linux").unwrap_err();
    assert_eq!(
        error.message(),
        "Unsupported NixOS system double: riscv64-linux, please open an issue or a PR if you think this should be supported."
    );
}

#[test]
fn system_file_names_are_exact() {
    assert_eq!(System::X86.systemd_stub_filename(), "linuxx64.efi.stub");
    assert_eq!(System::AArch64.systemd_stub_filename(), "linuxaa64.efi.stub");
    assert_eq!(System::X86.systemd_filename(), "systemd-bootx64.efi");
    assert_eq!(System::AArch64.systemd_filename(), "systemd-bootaa64.efi");
    assert_eq!(System::X86.efi_fallback_filename(), "BOOTX64.EFI");
    assert_eq!(System::AArch64.efi_fallback_filename(), "BOOTAA64.EFI");
    assert_eq!(System::X86.to_system_double(), "x86_64-linux");
    assert_eq!(System::AArch64.to_system_double(), "aarch64-linux");
}

#[test]
fn every_system_double_names_its_system_again() {
    for system in [System::X86, System::AArch64] {
        assert_eq!(System::from_str(system.to_system_double()).unwrap(), system);
    }
}

#[test]
fn join_agrees_with_std_paths() {
    let bases = ["", "/", "/boot", "/boot/", "boot", "boot/efi", "/boot//", "."];
    let rels = ["EFI", "loader.conf", "a/b", "", "/abs", "/", "-x.efi", "über"];
    for base in bases {
        for rel in rels {
            let expected = Path::new(base).join(rel);
            assert_eq!(join(base, rel), expected.to_str().unwrap(), "{:?} {:?}", base, rel);
        }
    }
}

#[test]
fn join_puts_one_separator_between() {
    assert_eq!(join("/boot", "EFI"), "/boot/EFI");
    assert_eq!(join("/boot/", "EFI"), "/boot/EFI");
    assert_eq!(join("", "EFI"), "EFI");
    assert_eq!(join("/boot", "/EFI"), "/EFI");
}

#[test]
fn esp_paths_are_laid_out_below_the_root() {
    let paths = EspPaths::new("/boot");
    assert_eq!(paths.esp, "/boot");
    assert_eq!(paths.efi, "/boot/EFI");
    assert_eq!(paths.nixos, "/boot/EFI/nixos");
    assert_eq!(paths.linux, "/boot/EFI/Linux");
    assert_eq!(paths.efi_fallback_dir, "/boot/EFI/BOOT");
    assert_eq!(paths.systemd, "/boot/EFI/systemd");
    assert_eq!(paths.loader, "/boot/loader");
    assert_eq!(paths.systemd_boot_loader_config, "/boot/loader/loader.conf");
}

#[test]
fn esp_paths_come_out_in_fixed_order() {
    let paths = EspPaths::new("/efi");
    let listed: Vec<String> = paths.to_iter().into_iter().cloned().collect();
    assert_eq!(
        listed,
        vec![
            "/efi",
            "/efi/EFI",
            "/efi/EFI/nixos",
            "/efi/EFI/Linux",
            "/efi/EFI/BOOT",
            "/efi/EFI/systemd",
            "/efi/loader",
            "/efi/loader/loader.conf",
        ]
    );
}

#[test]
fn esp_paths_start_with_the_root() {
    for root in ["", "/", "/boot", "/boot/", "mnt/esp", "/mnt/ä"] {
        let paths = EspPaths::new(root);
        let listed = paths.to_iter();
        assert_eq!(listed.len(), 8);
        for path in listed {
            assert!(path.starts_with(root), "{:?} {:?}", root, path);
        }
    }
}

#[test]
fn esp_paths_are_the_same_for_the_same_root() {
    assert_eq!(EspPaths::new("/boot"), EspPaths::new("/boot"));
    assert_ne!(EspPaths::new("/boot"), EspPaths::new("/efi"));
}

#[test]
fn esp_paths_agree_with_std_paths() {
    for root in ["", "/", "/boot", "/boot/", "mnt/esp"] {
        let paths = EspPaths::new(root);
        let esp = Path::new(root);
        let efi = esp.join("EFI");
        let loader = esp.join("loader");
        assert_eq!(Path::new(&paths.efi), efi);
        assert_eq!(paths.nixos, efi.join("nixos").to_str().unwrap());
        assert_eq!(paths.linux, efi.join("Linux").to_str().unwrap());
        assert_eq!(paths.efi_fallback_dir, efi.join("BOOT").to_str().unwrap());
        assert_eq!(paths.systemd, efi.join("systemd").to_str().unwrap());
        assert_eq!(paths.loader, loader.to_str().unwrap());
        assert_eq!(
            paths.systemd_boot_loader_config,
            loader.join("loader.conf").to_str().unwrap()
        );
    }
}

#[test]
fn final_component_is_the_name_of_the_parent() {
    assert_eq!(
        final_component_of_parent("/nix/store/abc-linux/bzImage"),
        Some(String::from("abc-linux"))
    );
    assert_eq!(final_component_of_parent("abc/initrd"), Some(String::from("abc")));
    assert_eq!(final_component_of_parent("/nix/store/abc//initrd/"), Some(String::from("abc")));
    assert_eq!(final_component_of_parent("../abc/initrd"), Some(String::from("abc")));
}

#[test]
fn final_component_is_missing_without_a_named_parent() {
    assert_eq!(final_component_of_parent("/"), None);
    assert_eq!(final_component_of_parent(""), None);
    assert_eq!(final_component_of_parent("initrd"), None);
    assert_eq!(final_component_of_parent("/initrd"), None);
    assert_eq!(final_component_of_parent("../initrd"), None);
}

#[test]
fn nixos_file_name_joins_component_and_name() {
    assert_eq!(nixos_file_name_for("abc-linux-6.1", "bzImage"), "abc-linux-6.1-bzImage.efi");
    assert_eq!(nixos_file_name_for("", ""), "-.efi");
}

#[test]
fn nixos_path_of_a_root_is_unresolvable() {
    match nixos_path("/", "initrd") {
        Err(EspError::UnresolvablePath(path)) => assert_eq!(path, "/"),
        other => panic!("{:?}", other),
    }
    let error = nixos_path("initrd", "initrd").unwrap_err();
    assert_eq!(error.message(), "Failed to extract final component from: \"initrd\"");
}

#[test]
fn decimal_strings_are_exact() {
    assert_eq!(decimal_string(0), "0");
    assert_eq!(decimal_string(7), "7");
    assert_eq!(decimal_string(10), "10");
    assert_eq!(decimal_string(1234567890), "1234567890");
    assert_eq!(decimal_string(u64::MAX), "18446744073709551615");
    for n in [9u64, 11, 99, 100, 101, 4096, 999_999] {
        assert_eq!(decimal_string(n), n.to_string());
    }
}

#[test]
fn generation_path_names_the_generation() {
    assert_eq!(generation_path(&generation()), "nixos-generation-42.efi");
}

#[test]
fn generation_path_names_the_specialisation() {
    let mut specialised = generation();
    specialised.specialisation_name = Some(String::from("gnome"));
    let file_name = generation_path(&specialised);
    assert_eq!(file_name, "nixos-generation-42-specialisation-gnome.efi");
    assert!(file_name.contains("-specialisation-gnome"));
    assert!(!generation_path(&generation()).contains("-specialisation-"));
    assert_ne!(file_name, generation_path(&generation()));
}

#[test]
fn generation_paths_are_computed() {
    let esp = EspPaths::new("/boot");
    let paths = EspGenerationPaths::new(&esp, &generation(), System::X86).unwrap();
    assert_eq!(paths.kernel, "/boot/EFI/nixos/aaaa-linux-6.1.1-bzImage.efi");
    assert_eq!(paths.initrd, "/boot/EFI/nixos/bbbb-initrd-linux-6.1.1-initrd.efi");
    assert_eq!(paths.lanzaboote_image, "/boot/EFI/Linux/nixos-generation-42.efi");
    assert_eq!(paths.systemd_boot, "/boot/EFI/systemd/systemd-bootx64.efi");
    assert_eq!(paths.efi_fallback, "/boot/EFI/BOOT/BOOTX64.EFI");
}

#[test]
fn generation_paths_come_out_in_fixed_order() {
    let esp = EspPaths::new("/boot");
    let mut aarch64 = generation();
    aarch64.system = String::from("aarch64-linux");
    let paths = EspGenerationPaths::new(&esp, &aarch64, System::AArch64).unwrap();
    let listed: Vec<String> = paths.to_iter().into_iter().cloned().collect();
    assert_eq!(
        listed,
        vec![
            "/boot/EFI/nixos/aaaa-linux-6.1.1-bzImage.efi",
            "/boot/EFI/nixos/bbbb-initrd-linux-6.1.1-initrd.efi",
            "/boot/EFI/Linux/nixos-generation-42.efi",
            "/boot/EFI/BOOT/BOOTAA64.EFI",
            "/boot/EFI/systemd/systemd-bootaa64.efi",
        ]
    );
}

#[test]
fn links_are_followed_to_their_targets() {
    let esp = EspPaths::new("/boot");
    let mut linked = generation();
    linked.kernel = StoreReference::link("/run/current-system/kernel", "/nix/store/cccc-linux/bzImage");
    assert_eq!(linked.kernel.resolved(), "/nix/store/cccc-linux/bzImage");
    assert_eq!(generation().kernel.resolved(), "/nix/store/aaaa-linux-6.1.1/bzImage");
    let paths = EspGenerationPaths::new(&esp, &linked, System::X86).unwrap();
    assert_eq!(paths.kernel, "/boot/EFI/nixos/cccc-linux-bzImage.efi");
}

#[test]
fn generations_of_different_store_objects_do_not_collide() {
    let esp = EspPaths::new("/boot");
    let first = EspGenerationPaths::new(&esp, &generation(), System::X86).unwrap();
    let mut other = generation();
    other.version = 43;
    other.kernel = StoreReference::new("/nix/store/dddd-linux-6.1.1/bzImage");
    other.initrd = Some(StoreReference::new("/nix/store/eeee-initrd-linux-6.1.1/initrd"));
    let second = EspGenerationPaths::new(&esp, &other, System::X86).unwrap();
    assert_ne!(first.kernel, second.kernel);
    assert_ne!(first.initrd, second.initrd);
    assert_ne!(first.kernel, second.initrd);
    assert_ne!(first.lanzaboote_image, second.lanzaboote_image);
}

#[test]
fn missing_initrd_is_refused() {
    let esp = EspPaths::new("/boot");
    let mut bare = generation();
    bare.initrd = None;
    let error = EspGenerationPaths::new(&esp, &bare, System::X86).unwrap_err();
    assert_eq!(error, EspError::MissingInitrd);
    assert_eq!(error.message(), "Lanzaboote does not support missing initrd yet");
}

#[test]
fn other_system_is_refused() {
    let esp = EspPaths::new("/boot");
    let error = EspGenerationPaths::new(&esp, &generation(), System::AArch64).unwrap_err();
    assert_eq!(
        error,
        EspError::ArchitectureMismatch { expected: System::AArch64, found: System::X86 }
    );
    assert_eq!(
        error.message(),
        "Generation was built for x86_64-linux, but the installation targets aarch64-linux"
    );
}

#[test]
fn other_system_is_refused_before_paths_are_looked_at() {
    let esp = EspPaths::new("/boot");
    let mut broken = generation();
    broken.kernel = StoreReference::new("/");
    broken.initrd = None;
    let error = EspGenerationPaths::new(&esp, &broken, System::AArch64).unwrap_err();
    assert_eq!(
        error,
        EspError::ArchitectureMismatch { expected: System::AArch64, found: System::X86 }
    );
}

#[test]
fn unsupported_system_is_refused() {
    let esp = EspPaths::new("/boot");
    let mut unknown = generation();
    unknown.system = String::from("riscv64-linux");
    let error = EspGenerationPaths::new(&esp, &unknown, System::X86).unwrap_err();
    assert_eq!(error, EspError::UnsupportedArchitecture(String::from("riscv64-linux")));
}

#[test]
fn unresolvable_store_paths_are_refused() {
    let esp = EspPaths::new("/boot");
    let mut broken = generation();
    broken.kernel = StoreReference::new("bzImage");
    let error = EspGenerationPaths::new(&esp, &broken, System::X86).unwrap_err();
    assert_eq!(error, EspError::UnresolvablePath(String::from("bzImage")));

    let mut broken = generation();
    broken.initrd = Some(StoreReference::link("/nix/store/bbbb/initrd", "/"));
    let error = EspGenerationPaths::new(&esp, &broken, System::X86).unwrap_err();
    assert_eq!(error, EspError::UnresolvablePath(String::from("/")));
}

#[test]
fn is_specialised_gives_the_name() {
    assert_eq!(generation().is_specialised(), None);
    let mut specialised = generation();
    specialised.specialisation_name = Some(String::from("gnome"));
    assert_eq!(specialised.is_specialised(), Some(&String::from("gnome")));
}
