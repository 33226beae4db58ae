use xtask::arch::{arch_info, Arch};
use xtask::messages::unsupported_arch_message;

#[test]
fn riscv64_entry() {
    let info = arch_info(Arch::Riscv64);
    assert_eq!(info.target, "riscv64gc-unknown-none-elf");
    assert_eq!(info.platform, "riscv64-qemu-virt");
    assert_eq!(info.objcopy_arch, "riscv64");
}

#[test]
fn aarch64_entry() {
    let info = arch_info(Arch::Aarch64);
    assert_eq!(info.target, "aarch64-unknown-none-softfloat");
    assert_eq!(info.platform, "aarch64-qemu-virt");
    assert_eq!(info.objcopy_arch, "aarch64");
}

#[test]
fn x86_64_entry() {
    let info = arch_info(Arch::X86_64);
    assert_eq!(info.target, "x86_64-unknown-none");
    assert_eq!(info.platform, "x86-pc");
    assert_eq!(info.objcopy_arch, "x86_64");
}

#[test]
fn loongarch64_entry() {
    let info = arch_info(Arch::Loongarch64);
    assert_eq!(info.target, "loongarch64-unknown-none");
    assert_eq!(info.platform, "loongarch64-qemu-virt");
    assert_eq!(info.objcopy_arch, "loongarch64");
}

#[test]
fn entries_nonempty_and_targets_distinct() {
    let arches = [Arch::Riscv64, Arch::Aarch64, Arch::X86_64, Arch::Loongarch64];
    for a in arches {
        let info = arch_info(a);
        assert!(!info.target.is_empty());
        assert!(!info.platform.is_empty());
        assert!(!info.objcopy_arch.is_empty());
    }
    for i in 0..arches.len() {
        for j in 0..arches.len() {
            if i != j {
                assert_ne!(arch_info(arches[i]).target, arch_info(arches[j]).target);
            }
        }
    }
}

#[test]
fn keys_round_trip() {
    let arches = [Arch::Riscv64, Arch::Aarch64, Arch::X86_64, Arch::Loongarch64];
    for a in arches {
        assert_eq!(Arch::from_key(a.key()), Some(a));
    }
    assert_eq!(Arch::Riscv64.key(), "riscv64");
    assert_eq!(Arch::Aarch64.key(), "aarch64");
    assert_eq!(Arch::X86_64.key(), "x86_64");
    assert_eq!(Arch::Loongarch64.key(), "loongarch64");
}

#[test]
fn unknown_arch_rejected() {
    assert_eq!(Arch::from_key("mips"), None);
    assert_eq!(Arch::from_key(""), None);
    assert_eq!(Arch::from_key("riscv"), None);
    assert_eq!(Arch::from_key("riscv64 "), None);
}

#[test]
fn unsupported_arch_diagnostic_lists_supported_set() {
    let msg = unsupported_arch_message("mips");
    assert_eq!(
        msg,
        "Error: unsupported architecture 'mips'. \
         Supported: riscv64, aarch64, x86_64, loongarch64"
    );
    assert!(msg.contains("riscv64"));
    assert!(msg.contains("aarch64"));
    assert!(msg.contains("x86_64"));
    assert!(msg.contains("loongarch64"));
}
