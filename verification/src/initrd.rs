//! Companion initrds, and the export of the registers that their
//! measurements went to.
//!
//! The firmware's variable store is not reached from here. [`PcrExport`]
//! says which variable is to be written next, is told how the write went,
//! and says when the export is over.

use vstd::prelude::*;

verus! {

/// An archive that is handed to the kernel beside the initrd.
#[derive(Clone, Debug, PartialEq, Eq)]
pub struct Cpio {
    pub buffer: Vec<u8>,
}

#[derive(Clone, Debug, PartialEq, Eq)]
pub enum CompanionInitrd {
    Credentials(Cpio),
    GlobalCredentials(Cpio),
    SystemExtension(Cpio),
    PcrSignature(Cpio),
    PcrPublicKey(Cpio),
}

impl CompanionInitrd {
    /// Whether the archive is measured as part of the kernel parameters.
    pub open spec fn is_kernel_parameter(self) -> bool {
        self is Credentials || self is GlobalCredentials
    }

    /// Whether the archive is measured as a system extension.
    pub open spec fn is_system_extension(self) -> bool {
        self is SystemExtension
    }
}

/// Which kinds of measurement were made for a set of companion initrds.
#[derive(Clone, Copy, Debug, PartialEq, Eq, Structural)]
pub struct MeasurementFlags {
    pub has_kernel_params_measurement: bool,
    pub has_sysext_measurement: bool,
}

/// The measurements that the archives in `initrds` call for: one kind for
/// credentials of either sort, one for system extensions. Signatures and
/// public keys call for none.
pub open spec fn measured(initrds: Seq<CompanionInitrd>) -> MeasurementFlags {
    MeasurementFlags {
        has_kernel_params_measurement: exists|i: int|
            0 <= i < initrds.len() && (#[trigger] initrds[i]).is_kernel_parameter(),
        has_sysext_measurement: exists|i: int|
            0 <= i < initrds.len() && (#[trigger] initrds[i]).is_system_extension(),
    }
}

/// Says which kinds of measurement the archives in `initrds` call for.
pub fn classify(initrds: &Vec<CompanionInitrd>) -> (flags: MeasurementFlags)
    ensures
        flags == measured(initrds@),
{
    let mut has_kernel_params_measurement = false;
    let mut has_sysext_measurement = false;
    let mut n: usize = 0;
    while n < initrds.len()
        invariant
            n <= initrds.len(),
            has_kernel_params_measurement == exists|i: int|
                0 <= i < n && (#[trigger] initrds@[i]).is_kernel_parameter(),
            has_sysext_measurement == exists|i: int|
                0 <= i < n && (#[trigger] initrds@[i]).is_system_extension(),
        decreases initrds.len() - n,
    {
        match &initrds[n] {
            CompanionInitrd::Credentials(_) => {
                has_kernel_params_measurement = true;
            },
            CompanionInitrd::GlobalCredentials(_) => {
                has_kernel_params_measurement = true;
            },
            CompanionInitrd::SystemExtension(_) => {
                has_sysext_measurement = true;
            },
            _ => {},
        }
        n += 1;
    }
    MeasurementFlags { has_kernel_params_measurement, has_sysext_measurement }
}

/// Register that the kernel parameters are measured into.
pub const TPM_PCR_INDEX_KERNEL_PARAMETERS: u32 = 12;

/// Register that the system extensions are measured into.
pub const TPM_PCR_INDEX_INITRD_SYSEXTS: u32 = 13;

/// The vendor namespace of the variables that the boot loader exports.
pub const BOOT_LOADER_VENDOR_UUID: &'static str = "4a67b082-0a4c-41cf-b6c7-440b29bb8c4f";

/// The variable can be read while boot services run.
pub const BOOTSERVICE_ACCESS: u32 = 0x02;

/// The variable can be read once the operating system runs.
pub const RUNTIME_ACCESS: u32 = 0x04;

/// The four bytes of `value`, lowest first.
pub open spec fn le_bytes(value: u32) -> Seq<u8> {
    seq![
        (value % 256) as u8,
        (value / 256 % 256) as u8,
        (value / 65536 % 256) as u8,
        (value / 16777216) as u8,
    ]
}

/// A variable that tells the operating system which register holds a
/// measurement.
#[derive(Clone, Copy, Debug, PartialEq, Eq, Structural)]
pub enum PcrVariable {
    KernelParameters,
    InitrdSysExts,
}

impl PcrVariable {
    /// The name of the variable.
    pub open spec fn name_text(self) -> Seq<char> {
        match self {
            PcrVariable::KernelParameters => "StubPcrKernelParameters"@,
            PcrVariable::InitrdSysExts => "StubPcrInitRDSysExts"@,
        }
    }

    /// The register that the variable tells of.
    pub open spec fn register(self) -> u32 {
        match self {
            PcrVariable::KernelParameters => TPM_PCR_INDEX_KERNEL_PARAMETERS,
            PcrVariable::InitrdSysExts => TPM_PCR_INDEX_INITRD_SYSEXTS,
        }
    }

    /// The name of the variable.
    pub fn name(&self) -> (name: &'static str)
        ensures
            name@ == self.name_text(),
    {
        match self {
            PcrVariable::KernelParameters => "StubPcrKernelParameters",
            PcrVariable::InitrdSysExts => "StubPcrInitRDSysExts",
        }
    }

    /// The namespace that the variable is written to.
    pub fn vendor(&self) -> (vendor: &'static str)
        ensures
            vendor@ == BOOT_LOADER_VENDOR_UUID@,
    {
        BOOT_LOADER_VENDOR_UUID
    }

    /// The attributes that the variable is written with: it can be read
    /// both before and after the operating system takes over.
    pub fn attributes(&self) -> (attributes: u32)
        ensures
            attributes == 0x06,
            attributes == BOOTSERVICE_ACCESS | RUNTIME_ACCESS,
    {
        assert(0x02u32 | 0x04u32 == 0x06u32) by (bit_vector);
        BOOTSERVICE_ACCESS | RUNTIME_ACCESS
    }

    /// The register that the variable tells of.
    pub fn pcr_index(&self) -> (index: u32)
        ensures
            index == self.register(),
    {
        match self {
            PcrVariable::KernelParameters => TPM_PCR_INDEX_KERNEL_PARAMETERS,
            PcrVariable::InitrdSysExts => TPM_PCR_INDEX_INITRD_SYSEXTS,
        }
    }

    /// The value that the variable is written with: the number of the
    /// register in four bytes, lowest first.
    pub fn value(&self) -> (bytes: [u8; 4])
        ensures
            bytes@ == le_bytes(self.register()),
    {
        let index: u32 = self.pcr_index();
        let bytes: [u8; 4] = [
            (index % 256) as u8,
            (index / 256 % 256) as u8,
            (index / 65536 % 256) as u8,
            (index / 16777216) as u8,
        ];
        assert(bytes@ =~= le_bytes(self.register()));
        bytes
    }
}

/// The variables to write for `flags`, in the order in which they are
/// written: one for each kind of measurement that was made, and none for a
/// kind that was not.
pub open spec fn planned_writes(flags: MeasurementFlags) -> Seq<PcrVariable> {
    let kernel_parameters = if flags.has_kernel_params_measurement {
        seq![PcrVariable::KernelParameters]
    } else {
        Seq::<PcrVariable>::empty()
    };
    let system_extensions = if flags.has_sysext_measurement {
        seq![PcrVariable::InitrdSysExts]
    } else {
        Seq::<PcrVariable>::empty()
    };
    kernel_parameters + system_extensions
}

/// How a write to the variable store went.
#[derive(Clone, Copy, Debug, PartialEq, Eq)]
pub enum WriteOutcome {
    Written,
    /// The store refused the write, with this status.
    Refused(usize),
}

/// Why an export ended early.
#[derive(Clone, Copy, Debug, PartialEq, Eq)]
pub enum ExportError {
    /// The variable store refused to write `variable`, with `status`.
    VariableWriteFailed { variable: PcrVariable, status: usize },
}

/// What is to be done next in an export.
#[derive(Clone, Copy, Debug, PartialEq, Eq)]
pub enum ExportAction {
    /// Write this variable, and report how it went.
    Write(PcrVariable),
    /// Every variable is written: the export succeeded.
    Finish,
    /// A write was refused: the export failed, and nothing more is written.
    Fail(ExportError),
}

/// An export of measurement registers under way.
#[derive(Clone, Copy, Debug, PartialEq, Eq)]
pub struct PcrExport {
    /// The measurements that were made.
    pub flags: MeasurementFlags,
    /// How many variables were written so far.
    pub written: usize,
    /// The write that was refused, if one was.
    pub failure: Option<ExportError>,
}

impl PcrExport {
    /// What is to be done next.
    pub open spec fn action(self) -> ExportAction {
        match self.failure {
            Some(error) => ExportAction::Fail(error),
            None => if self.written < planned_writes(self.flags).len() {
                ExportAction::Write(planned_writes(self.flags)[self.written as int])
            } else {
                ExportAction::Finish
            },
        }
    }

    /// The export after the write that was asked for went as `outcome`
    /// says. An export that asked for no write stays as it is.
    pub open spec fn after(self, outcome: WriteOutcome) -> PcrExport {
        match self.action() {
            ExportAction::Write(variable) => match outcome {
                WriteOutcome::Written => PcrExport {
                    flags: self.flags,
                    written: (self.written + 1) as usize,
                    failure: None,
                },
                WriteOutcome::Refused(status) => PcrExport {
                    flags: self.flags,
                    written: self.written,
                    failure: Some(ExportError::VariableWriteFailed { variable, status }),
                },
            },
            _ => self,
        }
    }

    /// An export for `flags` of which nothing is written yet.
    pub fn new(flags: MeasurementFlags) -> (export: Self)
        ensures
            export == (PcrExport { flags, written: 0, failure: None }),
    {
        PcrExport { flags, written: 0, failure: None }
    }

    /// What is to be done next.
    pub fn next_action(&self) -> (action: ExportAction)
        ensures
            action == self.action(),
    {
        if let Some(error) = self.failure {
            return ExportAction::Fail(error);
        }
        let kernel_parameters = self.flags.has_kernel_params_measurement;
        let system_extensions = self.flags.has_sysext_measurement;
        if self.written == 0 && kernel_parameters {
            ExportAction::Write(PcrVariable::KernelParameters)
        } else if self.written == 0 && system_extensions {
            ExportAction::Write(PcrVariable::InitrdSysExts)
        } else if self.written == 1 && kernel_parameters && system_extensions {
            ExportAction::Write(PcrVariable::InitrdSysExts)
        } else {
            ExportAction::Finish
        }
    }

    /// Takes note of how the write that was asked for went, and says what
    /// is to be done next.
    pub fn step(self, outcome: WriteOutcome) -> (next: (Self, ExportAction))
        ensures
            next.0 == self.after(outcome),
            next.1 == self.after(outcome).action(),
    {
        let export = match self.next_action() {
            ExportAction::Write(variable) => match outcome {
                WriteOutcome::Written => PcrExport {
                    flags: self.flags,
                    written: self.written + 1,
                    failure: None,
                },
                WriteOutcome::Refused(status) => PcrExport {
                    flags: self.flags,
                    written: self.written,
                    failure: Some(ExportError::VariableWriteFailed { variable, status }),
                },
            },
            _ => self,
        };
        let action = export.next_action();
        (export, action)
    }
}

/// The variables that an export asks to write, one after the other, when
/// its writes go as `outcomes` say, and the export after the last of them.
pub open spec fn run(export: PcrExport, outcomes: Seq<WriteOutcome>) -> (Seq<PcrVariable>, PcrExport)
    decreases outcomes.len(),
{
    match export.action() {
        ExportAction::Write(variable) => if outcomes.len() > 0 {
            let rest = run(export.after(outcomes[0]), outcomes.drop_first());
            (seq![variable] + rest.0, rest.1)
        } else {
            (Seq::<PcrVariable>::empty(), export)
        },
        _ => (Seq::<PcrVariable>::empty(), export),
    }
}

/// A variable is planned exactly where its kind of measurement was made,
/// the one for the kernel parameters before the one for the system
/// extensions, and none twice.
pub proof fn lemma_planned_iff_measured(flags: MeasurementFlags)
    ensures
        planned_writes(flags).contains(PcrVariable::KernelParameters)
            <==> flags.has_kernel_params_measurement,
        planned_writes(flags).contains(PcrVariable::InitrdSysExts) <==> flags.has_sysext_measurement,
        planned_writes(flags).no_duplicates(),
        planned_writes(flags).len() == 2 ==> planned_writes(flags) == seq![
            PcrVariable::KernelParameters,
            PcrVariable::InitrdSysExts,
        ],
{
    let plan = planned_writes(flags);
    if flags.has_kernel_params_measurement {
        assert(plan[0] == PcrVariable::KernelParameters);
    }
    if flags.has_sysext_measurement {
        assert(plan[plan.len() - 1] == PcrVariable::InitrdSysExts);
    }
    if plan.len() == 2 {
        assert(plan =~= seq![PcrVariable::KernelParameters, PcrVariable::InitrdSysExts]);
    }
}

/// Where every write succeeds, an export that is told of at least two
/// outcomes has asked for exactly the planned variables, and then finishes.
pub proof fn lemma_export_writes_the_plan(flags: MeasurementFlags, outcomes: Seq<WriteOutcome>)
    requires
        outcomes.len() >= 2,
        forall|i: int| 0 <= i < outcomes.len() ==> outcomes[i] == WriteOutcome::Written,
    ensures
        run(PcrExport { flags, written: 0, failure: None }, outcomes).0 == planned_writes(flags),
        run(PcrExport { flags, written: 0, failure: None }, outcomes).1.action()
            == ExportAction::Finish,
{
    reveal_with_fuel(run, 4);
    let start = PcrExport { flags, written: 0, failure: None };
    let rest = outcomes.drop_first();
    assert(rest[0] == outcomes[1]);
    assert(run(start, outcomes).0 =~= planned_writes(flags));
}

/// Where a write is refused, the export fails with the refused variable and
/// the store's status, and asks for no further write.
pub proof fn lemma_refused_write_ends_export(export: PcrExport, status: usize)
    requires
        export.action() is Write,
    ensures
        export.after(WriteOutcome::Refused(status)).action() == ExportAction::Fail(
            ExportError::VariableWriteFailed { variable: export.action()->Write_0, status },
        ),
        forall|outcomes: Seq<WriteOutcome>|
            (#[trigger] run(export.after(WriteOutcome::Refused(status)), outcomes)).0.len() == 0,
{
    assert forall|outcomes: Seq<WriteOutcome>|
        (#[trigger] run(export.after(WriteOutcome::Refused(status)), outcomes)).0.len() == 0 by {
        reveal_with_fuel(run, 2);
    }
}

/// Whatever the outcomes, an export asks only for planned variables, in
/// the planned order: what it asks for is a prefix of the plan.
pub proof fn lemma_export_stays_in_plan(flags: MeasurementFlags, outcomes: Seq<WriteOutcome>)
    ensures
        run(PcrExport { flags, written: 0, failure: None }, outcomes).0.is_prefix_of(
            planned_writes(flags),
        ),
{
    reveal_with_fuel(run, 4);
    let start = PcrExport { flags, written: 0, failure: None };
    let writes = run(start, outcomes).0;
    let plan = planned_writes(flags);
    if outcomes.len() > 0 {
        let rest = outcomes.drop_first();
        if rest.len() > 0 {
            let last = rest.drop_first();
            assert(run(start.after(outcomes[0]).after(rest[0]), last).0.len() == 0);
        }
    }
    assert(writes.len() <= plan.len());
    assert(writes =~= plan.subrange(0, writes.len() as int));
}

} // verus!
