use xtask::arch::Arch;
use xtask::cmdline::{cargo_build_args, objcopy_args, qemu_args, qemu_program};
use xtask::messages::{
    build_complete_message, cargo_failed_message, cargo_spawn_message, copy_failed_message,
    created_disk_message, disk_create_failed_message, installed_config_message,
    missing_config_message, objcopy_failed_message, objcopy_spawn_message,
    qemu_spawn_failed_message,
};
use xtask::paths::{
    bin_path, config_dst_path, config_src_path, disk_path, elf_path, manifest_path, project_root,
};
use xtask::plan::{plan, Cmd, Step};

#[test]
fn derived_paths() {
    assert_eq!(project_root("/r"), "/r");
    assert_eq!(config_src_path("/r", Arch::Riscv64), "/r/configs/riscv64.toml");
    assert_eq!(config_src_path("/r", Arch::Aarch64), "/r/configs/aarch64.toml");
    assert_eq!(config_dst_path("/r"), "/r/.axconfig.toml");
    assert_eq!(manifest_path("/r"), "/r/Cargo.toml");
    assert_eq!(
        elf_path("/r", "x86_64-unknown-none"),
        "/r/target/x86_64-unknown-none/release/arceos-readblk"
    );
    assert_eq!(
        bin_path("/r", "x86_64-unknown-none"),
        "/r/target/x86_64-unknown-none/release/arceos-readblk.bin"
    );
    assert_eq!(disk_path("/r"), "/r/target/disk.img");
}

#[test]
fn build_plan_installs_config_then_compiles() {
    let steps = plan(Cmd::Build, Arch::Aarch64, "/r");
    assert_eq!(
        steps,
        vec![
            Step::InstallConfig {
                src: "/r/configs/aarch64.toml".to_string(),
                dst: "/r/.axconfig.toml".to_string(),
            },
            Step::RunCargo {
                args: cargo_build_args("aarch64-unknown-none-softfloat", "/r/Cargo.toml"),
            },
        ]
    );
}

#[test]
fn run_plan_riscv64_has_objcopy_before_qemu() {
    let steps = plan(Cmd::Run, Arch::Riscv64, "/r");
    let elf = elf_path("/r", "riscv64gc-unknown-none-elf");
    let bin = bin_path("/r", "riscv64gc-unknown-none-elf");
    let disk = disk_path("/r");
    assert_eq!(
        steps,
        vec![
            Step::InstallConfig {
                src: "/r/configs/riscv64.toml".to_string(),
                dst: "/r/.axconfig.toml".to_string(),
            },
            Step::RunCargo {
                args: cargo_build_args("riscv64gc-unknown-none-elf", "/r/Cargo.toml"),
            },
            Step::FabricateDisk { path: disk.clone() },
            Step::RunObjcopy { args: objcopy_args("riscv64", &elf, &bin) },
            Step::RunQemu {
                program: qemu_program(Arch::Riscv64),
                args: qemu_args(Arch::Riscv64, &elf, &bin, &disk),
            },
        ]
    );
}

#[test]
fn run_plan_x86_64_skips_objcopy() {
    let steps = plan(Cmd::Run, Arch::X86_64, "/r");
    assert_eq!(steps.len(), 4);
    assert!(steps.iter().all(|s| !matches!(s, Step::RunObjcopy { .. })));
    assert!(matches!(steps[3], Step::RunQemu { .. }));
}

#[test]
fn run_plan_compiles_before_emulating() {
    for arch in [Arch::Riscv64, Arch::Aarch64, Arch::X86_64, Arch::Loongarch64] {
        let steps = plan(Cmd::Run, arch, "/r");
        let cargo = steps.iter().position(|s| matches!(s, Step::RunCargo { .. })).unwrap();
        let qemu = steps.iter().position(|s| matches!(s, Step::RunQemu { .. })).unwrap();
        let install = steps.iter().position(|s| matches!(s, Step::InstallConfig { .. })).unwrap();
        assert!(install < cargo);
        assert!(cargo < qemu);
        assert_eq!(qemu, steps.len() - 1);
    }
}

#[test]
fn repeated_build_plans_are_identical() {
    for arch in [Arch::Riscv64, Arch::Aarch64, Arch::X86_64, Arch::Loongarch64] {
        let first = plan(Cmd::Build, arch, "/r");
        let second = plan(Cmd::Build, arch, "/r");
        assert_eq!(first, second);
        // The destination is the same well-known file for every architecture,
        // so a later install simply overwrites an earlier one.
        match &first[0] {
            Step::InstallConfig { src, dst } => {
                assert_eq!(src, &config_src_path("/r", arch));
                assert_eq!(dst, "/r/.axconfig.toml");
            }
            other => panic!("first step is not a config install: {:?}", other),
        }
    }
}

#[test]
fn diagnostic_and_progress_lines() {
    assert_eq!(
        missing_config_message("/r/configs/aarch64.toml"),
        "Error: config file not found: /r/configs/aarch64.toml"
    );
    assert_eq!(
        copy_failed_message("/r/configs/riscv64.toml", "/r/.axconfig.toml", "denied"),
        "Error: failed to copy /r/configs/riscv64.toml -> /r/.axconfig.toml: denied"
    );
    assert_eq!(
        installed_config_message("/r/configs/riscv64.toml"),
        "Installed config: /r/configs/riscv64.toml -> .axconfig.toml"
    );
    assert_eq!(
        disk_create_failed_message("/r/target/disk.img", "denied"),
        "Error: failed to create disk image /r/target/disk.img: denied"
    );
    assert_eq!(
        created_disk_message("/r/target/disk.img"),
        "Created disk image: /r/target/disk.img (64MB)"
    );
    assert_eq!(cargo_failed_message(), "Error: cargo build failed");
    assert_eq!(cargo_spawn_message(), "failed to execute cargo build");
    assert_eq!(objcopy_failed_message(), "Error: rust-objcopy failed");
    assert_eq!(
        objcopy_spawn_message(),
        "failed to execute rust-objcopy (install with: cargo install cargo-binutils)"
    );
    assert_eq!(
        qemu_spawn_failed_message("qemu-system-riscv64", "not found"),
        "Error: failed to run qemu-system-riscv64: not found"
    );
    assert_eq!(
        build_complete_message("riscv64", "riscv64gc-unknown-none-elf"),
        "Build complete for riscv64 (riscv64gc-unknown-none-elf)"
    );
}
