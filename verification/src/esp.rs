//! The files on the EFI System Partition: those that every generation
//! shares, and those that belong to one generation.

use vstd::prelude::*;
use vstd::string::StringExecFns;

use crate::error::{EspError, EspErrorView};
use crate::generation::{Generation, GenerationView};
use crate::path::{
    final_component_of_parent, is_absolute, join, joined, lemma_joined_has_prefix,
    lemma_joined_is_injective, parent_final_component,
};
use crate::system::{parse_system, System};
use crate::text::{
    contains_text, decimal, decimal_string, is_digit, lemma_decimal_is_digits,
    lemma_decimal_is_injective,
};

verus! {

/// Paths to the boot files that are not specific to a generation.
#[derive(Clone, Debug, PartialEq, Eq)]
pub struct EspPaths {
    pub esp: String,
    pub efi: String,
    pub nixos: String,
    pub linux: String,
    pub efi_fallback_dir: String,
    pub systemd: String,
    pub loader: String,
    pub systemd_boot_loader_config: String,
}

/// An [`EspPaths`] with its paths as sequences of characters.
pub struct EspPathsView {
    pub esp: Seq<char>,
    pub efi: Seq<char>,
    pub nixos: Seq<char>,
    pub linux: Seq<char>,
    pub efi_fallback_dir: Seq<char>,
    pub systemd: Seq<char>,
    pub loader: Seq<char>,
    pub systemd_boot_loader_config: Seq<char>,
}

impl View for EspPaths {
    type V = EspPathsView;

    open spec fn view(&self) -> EspPathsView {
        EspPathsView {
            esp: self.esp@,
            efi: self.efi@,
            nixos: self.nixos@,
            linux: self.linux@,
            efi_fallback_dir: self.efi_fallback_dir@,
            systemd: self.systemd@,
            loader: self.loader@,
            systemd_boot_loader_config: self.systemd_boot_loader_config@,
        }
    }
}

impl EspPathsView {
    /// Whether every path is the one that belongs below the root `esp`.
    pub open spec fn is_layout(self) -> bool {
        self == esp_layout(self.esp)
    }

    /// The paths in the order in which they are kept as garbage collection
    /// roots.
    pub open spec fn to_seq(self) -> Seq<Seq<char>> {
        seq![
            self.esp,
            self.efi,
            self.nixos,
            self.linux,
            self.efi_fallback_dir,
            self.systemd,
            self.loader,
            self.systemd_boot_loader_config,
        ]
    }
}

/// The directories and files below the partition mounted at `root`.
pub open spec fn esp_layout(root: Seq<char>) -> EspPathsView {
    let efi = joined(root, "EFI"@);
    let loader = joined(root, "loader"@);
    EspPathsView {
        esp: root,
        efi,
        nixos: joined(efi, "nixos"@),
        linux: joined(efi, "Linux"@),
        efi_fallback_dir: joined(efi, "BOOT"@),
        systemd: joined(efi, "systemd"@),
        loader,
        systemd_boot_loader_config: joined(loader, "loader.conf"@),
    }
}

impl EspPaths {
    pub fn new(esp: &str) -> (paths: Self)
        ensures
            paths@ == esp_layout(esp@),
            paths@.is_layout(),
            forall|i: int| 0 <= i < 8 ==> esp@.is_prefix_of(#[trigger] paths@.to_seq()[i]),
    {
        proof {
            lemma_layout_under_root(esp@);
        }
        let efi = join(esp, "EFI");
        let efi_nixos = join(efi.as_str(), "nixos");
        let efi_linux = join(efi.as_str(), "Linux");
        let efi_systemd = join(efi.as_str(), "systemd");
        let efi_efi_fallback_dir = join(efi.as_str(), "BOOT");
        let loader = join(esp, "loader");
        let systemd_boot_loader_config = join(loader.as_str(), "loader.conf");

        Self {
            esp: String::from_str(esp),
            efi,
            nixos: efi_nixos,
            linux: efi_linux,
            efi_fallback_dir: efi_efi_fallback_dir,
            systemd: efi_systemd,
            loader,
            systemd_boot_loader_config,
        }
    }

    /// Return the used file paths to store as garbage collection roots.
    pub fn to_iter(&self) -> (paths: Vec<&String>)
        ensures
            paths@.len() == 8,
            forall|i: int| 0 <= i < 8 ==> (#[trigger] paths@[i])@ == self@.to_seq()[i],
    {
        let mut paths: Vec<&String> = Vec::new();
        paths.push(&self.esp);
        paths.push(&self.efi);
        paths.push(&self.nixos);
        paths.push(&self.linux);
        paths.push(&self.efi_fallback_dir);
        paths.push(&self.systemd);
        paths.push(&self.loader);
        paths.push(&self.systemd_boot_loader_config);
        paths
    }
}

/// Paths to the boot files of a specific generation.
#[derive(Clone, Debug, PartialEq, Eq)]
pub struct EspGenerationPaths {
    pub kernel: String,
    pub initrd: String,
    pub lanzaboote_image: String,
    pub efi_fallback: String,
    pub systemd_boot: String,
}

/// An [`EspGenerationPaths`] with its paths as sequences of characters.
pub struct EspGenerationPathsView {
    pub kernel: Seq<char>,
    pub initrd: Seq<char>,
    pub lanzaboote_image: Seq<char>,
    pub efi_fallback: Seq<char>,
    pub systemd_boot: Seq<char>,
}

impl View for EspGenerationPaths {
    type V = EspGenerationPathsView;

    open spec fn view(&self) -> EspGenerationPathsView {
        EspGenerationPathsView {
            kernel: self.kernel@,
            initrd: self.initrd@,
            lanzaboote_image: self.lanzaboote_image@,
            efi_fallback: self.efi_fallback@,
            systemd_boot: self.systemd_boot@,
        }
    }
}

impl EspGenerationPathsView {
    /// The paths in the order in which they are kept as garbage collection
    /// roots.
    pub open spec fn to_seq(self) -> Seq<Seq<char>> {
        seq![
            self.kernel,
            self.initrd,
            self.lanzaboote_image,
            self.efi_fallback,
            self.systemd_boot,
        ]
    }
}

/// The file name under which a file of the store object named `component`
/// is kept, where `name` says which of the object's files it is.
pub open spec fn nixos_file_name(component: Seq<char>, name: Seq<char>) -> Seq<char> {
    component + "-"@ + name + ".efi"@
}

/// The file name for the file at the store path `path`, which is named after
/// the directory that holds the file.
pub open spec fn nixos_path_of(path: Seq<char>, name: Seq<char>) -> Result<
    Seq<char>,
    EspErrorView,
> {
    match parent_final_component(path) {
        Some(component) => Ok(nixos_file_name(component, name)),
        None => Err(EspErrorView::UnresolvablePath(path)),
    }
}

/// The file name of the boot image of a generation.
pub open spec fn generation_file_name(version: nat, specialisation: Option<Seq<char>>) -> Seq<
    char,
> {
    match specialisation {
        Some(name) => "nixos-generation-"@ + decimal(version) + "-specialisation-"@ + name
            + ".efi"@,
        None => "nixos-generation-"@ + decimal(version) + ".efi"@,
    }
}

/// The paths of the boot files of `generation` below `esp`, when installing
/// for `target`, or the reason why the generation cannot be installed.
pub open spec fn generation_paths(
    esp: EspPathsView,
    generation: GenerationView,
    target: System,
) -> Result<EspGenerationPathsView, EspErrorView> {
    match parse_system(generation.system) {
        None => Err(EspErrorView::UnsupportedArchitecture(generation.system)),
        Some(system) => if system != target {
            Err(EspErrorView::ArchitectureMismatch { expected: target, found: system })
        } else {
            match nixos_path_of(generation.kernel.resolved(), "bzImage"@) {
                Err(error) => Err(error),
                Ok(kernel) => match generation.initrd {
                    None => Err(EspErrorView::MissingInitrd),
                    Some(reference) => match nixos_path_of(reference.resolved(), "initrd"@) {
                        Err(error) => Err(error),
                        Ok(initrd) => Ok(
                            EspGenerationPathsView {
                                kernel: joined(esp.nixos, kernel),
                                initrd: joined(esp.nixos, initrd),
                                lanzaboote_image: joined(
                                    esp.linux,
                                    generation_file_name(
                                        generation.version,
                                        generation.specialisation_name,
                                    ),
                                ),
                                efi_fallback: joined(esp.efi_fallback_dir, system.fallback_name()),
                                systemd_boot: joined(esp.systemd, system.boot_loader_name()),
                            },
                        ),
                    },
                },
            }
        },
    }
}

impl EspGenerationPaths {
    pub fn new(esp_paths: &EspPaths, generation: &Generation, target: System) -> (paths: Result<
        Self,
        EspError,
    >)
        ensures
            match generation_paths(esp_paths@, generation@, target) {
                Ok(expected) => paths is Ok && paths->Ok_0@ == expected,
                Err(error) => paths is Err && paths->Err_0@ == error,
            },
    {
        let system = match System::from_str(generation.system.as_str()) {
            Ok(system) => system,
            Err(error) => { return Err(error); },
        };
        if system != target {
            return Err(EspError::ArchitectureMismatch { expected: target, found: system });
        }
        let kernel = match nixos_path(generation.kernel.resolved(), "bzImage") {
            Ok(kernel) => kernel,
            Err(error) => { return Err(error); },
        };
        let initrd = match &generation.initrd {
            Some(reference) => match nixos_path(reference.resolved(), "initrd") {
                Ok(initrd) => initrd,
                Err(error) => { return Err(error); },
            },
            None => { return Err(EspError::MissingInitrd); },
        };
        let image = generation_path(generation);

        Ok(
            Self {
                kernel: join(esp_paths.nixos.as_str(), kernel.as_str()),
                initrd: join(esp_paths.nixos.as_str(), initrd.as_str()),
                lanzaboote_image: join(esp_paths.linux.as_str(), image.as_str()),
                systemd_boot: join(esp_paths.systemd.as_str(), system.systemd_filename()),
                efi_fallback: join(
                    esp_paths.efi_fallback_dir.as_str(),
                    system.efi_fallback_filename(),
                ),
            },
        )
    }

    /// Return the used file paths to store as garbage collection roots.
    pub fn to_iter(&self) -> (paths: Vec<&String>)
        ensures
            paths@.len() == 5,
            forall|i: int| 0 <= i < 5 ==> (#[trigger] paths@[i])@ == self@.to_seq()[i],
    {
        let mut paths: Vec<&String> = Vec::new();
        paths.push(&self.kernel);
        paths.push(&self.initrd);
        paths.push(&self.lanzaboote_image);
        paths.push(&self.efi_fallback);
        paths.push(&self.systemd_boot);
        paths
    }
}

/// The file name under which a file of the store object named `component`
/// is kept.
pub fn nixos_file_name_for(component: &str, name: &str) -> (file_name: String)
    ensures
        file_name@ == nixos_file_name(component@, name@),
{
    let mut file_name = String::from_str(component);
    file_name.append("-");
    file_name.append(name);
    file_name.append(".efi");
    file_name
}

/// The file name for the file at the store path `path`. A link has to be
/// followed before: the name is taken from the path as it is given.
pub fn nixos_path(path: &str, name: &str) -> (file_name: Result<String, EspError>)
    ensures
        match nixos_path_of(path@, name@) {
            Ok(expected) => file_name is Ok && file_name->Ok_0@ == expected,
            Err(error) => file_name is Err && file_name->Err_0@ == error,
        },
{
    match final_component_of_parent(path) {
        Some(component) => Ok(nixos_file_name_for(component.as_str(), name)),
        None => Err(EspError::UnresolvablePath(String::from_str(path))),
    }
}

/// The file name of the boot image of `generation`.
pub fn generation_path(generation: &Generation) -> (file_name: String)
    ensures
        file_name@ == generation_file_name(generation@.version, generation@.specialisation_name),
{
    let mut file_name = String::from_str("nixos-generation-");
    file_name.append(decimal_string(generation.version).as_str());
    if let Some(specialisation_name) = generation.is_specialised() {
        file_name.append("-specialisation-");
        file_name.append(specialisation_name.as_str());
    }
    file_name.append(".efi");
    file_name
}

/// Every path of the layout starts with the root it was built for, and the
/// eight of them stand in the order: root, `EFI`, `EFI/nixos`, `EFI/Linux`,
/// `EFI/BOOT`, `EFI/systemd`, `loader`, `loader/loader.conf`.
pub proof fn lemma_layout_under_root(root: Seq<char>)
    ensures
        esp_layout(root).to_seq().len() == 8,
        forall|i: int| 0 <= i < 8 ==> root.is_prefix_of(#[trigger] esp_layout(root).to_seq()[i]),
        esp_layout(root).to_seq()[0] == root,
        esp_layout(root).to_seq()[1] == joined(root, "EFI"@),
        esp_layout(root).to_seq()[2] == joined(joined(root, "EFI"@), "nixos"@),
        esp_layout(root).to_seq()[3] == joined(joined(root, "EFI"@), "Linux"@),
        esp_layout(root).to_seq()[4] == joined(joined(root, "EFI"@), "BOOT"@),
        esp_layout(root).to_seq()[5] == joined(joined(root, "EFI"@), "systemd"@),
        esp_layout(root).to_seq()[6] == joined(root, "loader"@),
        esp_layout(root).to_seq()[7] == joined(joined(root, "loader"@), "loader.conf"@),
{
    reveal_strlit("EFI");
    reveal_strlit("nixos");
    reveal_strlit("Linux");
    reveal_strlit("BOOT");
    reveal_strlit("systemd");
    reveal_strlit("loader");
    reveal_strlit("loader.conf");
    let efi = joined(root, "EFI"@);
    let loader = joined(root, "loader"@);
    lemma_joined_has_prefix(root, "EFI"@);
    lemma_joined_has_prefix(root, "loader"@);
    lemma_joined_has_prefix(efi, "nixos"@);
    lemma_joined_has_prefix(efi, "Linux"@);
    lemma_joined_has_prefix(efi, "BOOT"@);
    lemma_joined_has_prefix(efi, "systemd"@);
    lemma_joined_has_prefix(loader, "loader.conf"@);
}

/// Two layouts built for the same root hold the same paths.
pub proof fn lemma_layout_is_determined(first: EspPaths, second: EspPaths, root: Seq<char>)
    requires
        first@ == esp_layout(root),
        second@ == esp_layout(root),
    ensures
        first@ == second@,
        first@.to_seq() == second@.to_seq(),
{
}

/// The file name of a store object's file is a relative path, unless the
/// object's name is itself an absolute path.
pub proof fn lemma_nixos_file_name_is_relative(component: Seq<char>, name: Seq<char>)
    requires
        !is_absolute(component),
    ensures
        !is_absolute(nixos_file_name(component, name)),
{
    reveal_strlit("-");
    reveal_strlit(".efi");
}

/// The files of two store objects with different names are kept under
/// different file names, and so at different paths in one directory.
pub proof fn lemma_store_objects_do_not_collide(
    directory: Seq<char>,
    first: Seq<char>,
    second: Seq<char>,
    name: Seq<char>,
)
    requires
        first != second,
    ensures
        nixos_file_name(first, name) != nixos_file_name(second, name),
        !is_absolute(first) && !is_absolute(second) ==> joined(
            directory,
            nixos_file_name(first, name),
        ) != joined(directory, nixos_file_name(second, name)),
{
    let tail = "-"@ + name + ".efi"@;
    let a = nixos_file_name(first, name);
    let b = nixos_file_name(second, name);
    assert(a =~= first + tail);
    assert(b =~= second + tail);
    if a == b {
        assert(first.len() == second.len());
        assert(a.subrange(0, first.len() as int) =~= first);
        assert(b.subrange(0, second.len() as int) =~= second);
    }
    if !is_absolute(first) && !is_absolute(second) {
        lemma_nixos_file_name_is_relative(first, name);
        lemma_nixos_file_name_is_relative(second, name);
        lemma_joined_is_injective(directory, a, b);
    }
}

/// A kernel and an initrd are never kept under the same file name, whatever
/// store objects they belong to.
pub proof fn lemma_kernel_and_initrd_do_not_collide(
    directory: Seq<char>,
    kernel: Seq<char>,
    initrd: Seq<char>,
)
    ensures
        nixos_file_name(kernel, "bzImage"@) != nixos_file_name(initrd, "initrd"@),
        !is_absolute(kernel) && !is_absolute(initrd) ==> joined(
            directory,
            nixos_file_name(kernel, "bzImage"@),
        ) != joined(directory, nixos_file_name(initrd, "initrd"@)),
{
    reveal_strlit("-");
    reveal_strlit(".efi");
    reveal_strlit("bzImage");
    reveal_strlit("initrd");
    let a = nixos_file_name(kernel, "bzImage"@);
    let b = nixos_file_name(initrd, "initrd"@);
    assert(a[a.len() - 5] == 'e');
    assert(b[b.len() - 5] == 'd');
    if !is_absolute(kernel) && !is_absolute(initrd) {
        lemma_nixos_file_name_is_relative(kernel, "bzImage"@);
        lemma_nixos_file_name_is_relative(initrd, "initrd"@);
        lemma_joined_is_injective(directory, a, b);
    }
}

/// Two generations that can both be installed below one layout, and whose
/// kernels (or initrds) lie in store objects with different names, get
/// different kernel (or initrd) paths; and no kernel path of one is the
/// initrd path of the other. A store object is named by one path component,
/// which starts with no `/`.
pub proof fn lemma_generations_do_not_collide(
    esp: EspPathsView,
    first: GenerationView,
    second: GenerationView,
    target: System,
)
    requires
        generation_paths(esp, first, target) is Ok,
        generation_paths(esp, second, target) is Ok,
        !is_absolute(parent_final_component(first.kernel.resolved())->Some_0),
        !is_absolute(parent_final_component(second.kernel.resolved())->Some_0),
        !is_absolute(parent_final_component(first.initrd->Some_0.resolved())->Some_0),
        !is_absolute(parent_final_component(second.initrd->Some_0.resolved())->Some_0),
    ensures
        parent_final_component(first.kernel.resolved()) != parent_final_component(
            second.kernel.resolved(),
        ) ==> generation_paths(esp, first, target)->Ok_0.kernel != generation_paths(
            esp,
            second,
            target,
        )->Ok_0.kernel,
        parent_final_component(first.initrd->Some_0.resolved()) != parent_final_component(
            second.initrd->Some_0.resolved(),
        ) ==> generation_paths(esp, first, target)->Ok_0.initrd != generation_paths(
            esp,
            second,
            target,
        )->Ok_0.initrd,
        generation_paths(esp, first, target)->Ok_0.kernel != generation_paths(
            esp,
            second,
            target,
        )->Ok_0.initrd,
        generation_paths(esp, first, target)->Ok_0.kernel != generation_paths(
            esp,
            first,
            target,
        )->Ok_0.initrd,
{
    let first_kernel = parent_final_component(first.kernel.resolved())->Some_0;
    let second_kernel = parent_final_component(second.kernel.resolved())->Some_0;
    let first_initrd = parent_final_component(first.initrd->Some_0.resolved())->Some_0;
    let second_initrd = parent_final_component(second.initrd->Some_0.resolved())->Some_0;
    if first_kernel != second_kernel {
        lemma_store_objects_do_not_collide(esp.nixos, first_kernel, second_kernel, "bzImage"@);
    }
    if first_initrd != second_initrd {
        lemma_store_objects_do_not_collide(esp.nixos, first_initrd, second_initrd, "initrd"@);
    }
    lemma_kernel_and_initrd_do_not_collide(esp.nixos, first_kernel, second_initrd);
    lemma_kernel_and_initrd_do_not_collide(esp.nixos, first_kernel, first_initrd);
}

/// The boot image of a specialisation carries the specialisation's name
/// behind `-specialisation-`.
pub proof fn lemma_specialisation_is_named(version: nat, name: Seq<char>)
    ensures
        contains_text(generation_file_name(version, Some(name)), "-specialisation-"@ + name),
{
    let head = "nixos-generation-"@ + decimal(version);
    let part = "-specialisation-"@ + name;
    let text = generation_file_name(version, Some(name));
    assert(text =~= head + part + ".efi"@);
    assert(text.subrange(head.len() as int, (head.len() + part.len()) as int) =~= part);
}

/// The boot image of a generation that is no specialisation has no
/// `-specialisation-` in its name.
pub proof fn lemma_plain_generation_is_unmarked(version: nat)
    ensures
        !contains_text(generation_file_name(version, None), "-specialisation-"@),
{
    reveal_strlit("nixos-generation-");
    reveal_strlit("-specialisation-");
    reveal_strlit(".efi");
    lemma_decimal_is_digits(version);
    let text = generation_file_name(version, None);
    let part = "-specialisation-"@;
    let digits = decimal(version);
    assert forall|k: int| 0 <= k < text.len() implies text[k] != 'p' by {
        if k < 17 {
        } else if k < 17 + digits.len() {
            assert(text[k] == digits[k - 17]);
            assert(is_digit(digits[k - 17]));
        } else {
        }
    }
    assert forall|i: int| 0 <= i <= text.len() - part.len() implies #[trigger] text.subrange(
        i,
        i + part.len(),
    ) != part by {
        assert(text.subrange(i, i + part.len())[2] == text[i + 2]);
        assert(part[2] == 'p');
    }
}

/// For one generation number, the boot images of two different
/// specialisations, or of a specialisation and of the generation itself,
/// have different file names.
pub proof fn lemma_specialisations_do_not_collide(
    version: nat,
    first: Option<Seq<char>>,
    second: Option<Seq<char>>,
)
    requires
        first != second,
    ensures
        generation_file_name(version, first) != generation_file_name(version, second),
{
    reveal_strlit("-specialisation-");
    reveal_strlit(".efi");
    let head = "nixos-generation-"@ + decimal(version);
    let mark = "-specialisation-"@;
    let a = generation_file_name(version, first);
    let b = generation_file_name(version, second);
    match (first, second) {
        (Some(x), Some(y)) => {
            let stem = head + mark;
            assert(a =~= stem + x + ".efi"@);
            assert(b =~= stem + y + ".efi"@);
            if a == b {
                assert(x.len() == y.len());
                assert(a.subrange(stem.len() as int, (stem.len() + x.len()) as int) =~= x);
                assert(b.subrange(stem.len() as int, (stem.len() + y.len()) as int) =~= y);
            }
        },
        (Some(x), None) => {
            assert(a.len() == head.len() + 16 + x.len() + 4);
            assert(b.len() == head.len() + 4);
        },
        (None, Some(y)) => {
            assert(b.len() == head.len() + 16 + y.len() + 4);
            assert(a.len() == head.len() + 4);
        },
        (None, None) => {},
    }
}

/// What follows the generation number in the file name of a boot image.
pub open spec fn boot_image_suffix(specialisation: Option<Seq<char>>) -> Seq<char> {
    match specialisation {
        Some(name) => "-specialisation-"@ + name + ".efi"@,
        None => ".efi"@,
    }
}

/// Two boot images have the same file name only where they belong to the
/// same generation number and to the same specialisation, or both to none.
pub proof fn lemma_boot_images_do_not_collide(
    first_version: nat,
    first: Option<Seq<char>>,
    second_version: nat,
    second: Option<Seq<char>>,
)
    requires
        generation_file_name(first_version, first) == generation_file_name(second_version, second),
    ensures
        first_version == second_version,
        first == second,
{
    reveal_strlit("nixos-generation-");
    reveal_strlit("-specialisation-");
    reveal_strlit(".efi");
    lemma_decimal_is_digits(first_version);
    lemma_decimal_is_digits(second_version);
    let head = "nixos-generation-"@;
    let a = generation_file_name(first_version, first);
    let b = generation_file_name(second_version, second);
    let da = decimal(first_version);
    let db = decimal(second_version);
    let ta = boot_image_suffix(first);
    let tb = boot_image_suffix(second);
    assert(a =~= head + da + ta);
    assert(b =~= head + db + tb);
    assert(ta.len() > 0 && !is_digit(ta[0]));
    assert(tb.len() > 0 && !is_digit(tb[0]));
    let na = da.len() as int;
    let nb = db.len() as int;
    if na < nb {
        assert(a[17 + na] == ta[0]);
        assert(b[17 + na] == db[na]);
        assert(is_digit(db[na]));
    } else if nb < na {
        assert(b[17 + nb] == tb[0]);
        assert(a[17 + nb] == da[nb]);
        assert(is_digit(da[nb]));
    }
    assert(na == nb);
    assert(a.subrange(17, 17 + na) =~= da);
    assert(b.subrange(17, 17 + nb) =~= db);
    lemma_decimal_is_injective(first_version, second_version);
    if first != second {
        lemma_specialisations_do_not_collide(first_version, first, second);
    }
}

/// A generation without an initrd cannot be installed. Where its system is
/// the one installed for and its kernel has a store object, the lack of the
/// initrd is the reason given.
pub proof fn lemma_missing_initrd_is_refused(
    esp: EspPathsView,
    generation: GenerationView,
    target: System,
)
    requires
        generation.initrd is None,
    ensures
        generation_paths(esp, generation, target) is Err,
        parse_system(generation.system) == Some(target) && parent_final_component(
            generation.kernel.resolved(),
        ) is Some ==> generation_paths(esp, generation, target) == Err::<
            EspGenerationPathsView,
            EspErrorView,
        >(EspErrorView::MissingInitrd),
{
}

/// A generation built for another system than the one installed for cannot
/// be installed, whatever its paths are.
pub proof fn lemma_other_system_is_refused(
    esp: EspPathsView,
    generation: GenerationView,
    target: System,
)
    ensures
        parse_system(generation.system) matches Some(system) && system != target
            ==> generation_paths(esp, generation, target) == Err::<
            EspGenerationPathsView,
            EspErrorView,
        >(
            EspErrorView::ArchitectureMismatch {
                expected: target,
                found: parse_system(generation.system)->Some_0,
            },
        ),
        generation_paths(esp, generation, target) is Ok ==> parse_system(generation.system)
            == Some(target),
{
}

} // verus!
