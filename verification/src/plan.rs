//! The command dispatcher: turns a subcommand and an architecture into the
//! ordered list of steps the driver performs. Every parameter of every step
//! is derived from the same architecture entry and project root, so one
//! command execution is consistent throughout.

use vstd::prelude::*;

use crate::arch::{Arch, arch_info, spec_objcopy_arch, spec_target};
use crate::cmdline::{
    cargo_build_args, needs_objcopy, objcopy_args, qemu_args, qemu_program, spec_cargo_build_args,
    spec_objcopy_args, spec_qemu_args,
};
use crate::paths::{
    bin_path, config_dst_path, config_src_path, disk_path, elf_path, manifest_path, spec_bin_path,
    spec_config_dst, spec_config_src, spec_disk_path, spec_elf_path, spec_manifest_path,
};

verus! {

/// A subcommand of the tool.
#[derive(Clone, Copy, PartialEq, Eq, Structural, Debug)]
pub enum Cmd {
    Build,
    Run,
}

/// One step of a command's execution. The driver performs the steps in
/// order and halts at the first failure.
#[derive(Debug, PartialEq, Eq)]
pub enum Step {
    /// Copy the per-architecture config `src` over `dst`.
    InstallConfig { src: String, dst: String },
    /// Run the compile driver with these arguments.
    RunCargo { args: Vec<String> },
    /// Write the fabricated disk image at `path`.
    FabricateDisk { path: String },
    /// Run the object converter with these arguments.
    RunObjcopy { args: Vec<String> },
    /// Run the emulator binary `program` with these arguments.
    RunQemu { program: String, args: Vec<String> },
}

/// The mathematical model of a step.
#[verifier::ext_equal]
pub enum StepSpec {
    InstallConfig { src: Seq<char>, dst: Seq<char> },
    RunCargo { args: Seq<Seq<char>> },
    FabricateDisk { path: Seq<char> },
    RunObjcopy { args: Seq<Seq<char>> },
    RunQemu { program: Seq<char>, args: Seq<Seq<char>> },
}

impl DeepView for Step {
    type V = StepSpec;

    open spec fn deep_view(&self) -> StepSpec {
        match self {
            Step::InstallConfig { src, dst } => StepSpec::InstallConfig {
                src: src@,
                dst: dst@,
            },
            Step::RunCargo { args } => StepSpec::RunCargo { args: args.deep_view() },
            Step::FabricateDisk { path } => StepSpec::FabricateDisk { path: path@ },
            Step::RunObjcopy { args } => StepSpec::RunObjcopy { args: args.deep_view() },
            Step::RunQemu { program, args } => StepSpec::RunQemu {
                program: program@,
                args: args.deep_view(),
            },
        }
    }
}

/// The steps of one command: install the config and invoke the compile
/// driver; for `run`, additionally fabricate the disk image, convert the ELF
/// to a raw binary (on every architecture but `x86_64`), and launch the
/// emulator.
pub open spec fn spec_plan(cmd: Cmd, arch: Arch, root: Seq<char>) -> Seq<StepSpec> {
    let install = StepSpec::InstallConfig {
        src: spec_config_src(root, arch),
        dst: spec_config_dst(root),
    };
    let cargo = StepSpec::RunCargo {
        args: spec_cargo_build_args(spec_target(arch), spec_manifest_path(root)),
    };
    match cmd {
        Cmd::Build => seq![install, cargo],
        Cmd::Run => {
            let elf = spec_elf_path(root, spec_target(arch));
            let bin = spec_bin_path(root, spec_target(arch));
            let disk = spec_disk_path(root);
            let fabricate = StepSpec::FabricateDisk { path: disk };
            let qemu = StepSpec::RunQemu {
                program: "qemu-system-"@ + arch.spec_key(),
                args: spec_qemu_args(arch, elf, bin, disk),
            };
            if arch == Arch::X86_64 {
                seq![install, cargo, fabricate, qemu]
            } else {
                let objcopy = StepSpec::RunObjcopy {
                    args: spec_objcopy_args(spec_objcopy_arch(arch), elf, bin),
                };
                seq![install, cargo, fabricate, objcopy, qemu]
            }
        },
    }
}

/// Builds the step plan for one command execution.
pub fn plan(cmd: Cmd, arch: Arch, root: &str) -> (r: Vec<Step>)
    ensures
        r.deep_view() == spec_plan(cmd, arch, root@),
{
    let info = arch_info(arch);
    let src = config_src_path(root, arch);
    let dst = config_dst_path(root);
    let manifest = manifest_path(root);
    let cargo = cargo_build_args(info.target, manifest.as_str());
    let mut r: Vec<Step> = Vec::new();
    r.push(Step::InstallConfig { src, dst });
    r.push(Step::RunCargo { args: cargo });
    match cmd {
        Cmd::Build => {},
        Cmd::Run => {
            let elf = elf_path(root, info.target);
            let bin = bin_path(root, info.target);
            let disk = disk_path(root);
            r.push(Step::FabricateDisk { path: disk.clone() });
            if needs_objcopy(arch) {
                r.push(
                    Step::RunObjcopy {
                        args: objcopy_args(info.objcopy_arch, elf.as_str(), bin.as_str()),
                    },
                );
            }
            r.push(
                Step::RunQemu {
                    program: qemu_program(arch),
                    args: qemu_args(arch, elf.as_str(), bin.as_str(), disk.as_str()),
                },
            );
        },
    }
    assert(r.deep_view() =~~= spec_plan(cmd, arch, root@));
    r
}

} // verus!
