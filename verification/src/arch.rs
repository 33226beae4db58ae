//! The architecture dispatch table: the four supported CPU architectures and
//! the toolchain parameters attached to each.

use vstd::prelude::*;

verus! {

/// A supported CPU architecture.
#[derive(Clone, Copy, PartialEq, Eq, Structural, Debug)]
pub enum Arch {
    Riscv64,
    Aarch64,
    X86_64,
    Loongarch64,
}

/// Toolchain parameters attached to one architecture: the code-generation
/// target triple, a descriptive platform tag, and the architecture name the
/// object converter expects.
pub struct ArchInfo {
    pub target: &'static str,
    pub platform: &'static str,
    pub objcopy_arch: &'static str,
}

impl Arch {
    /// The short key naming this architecture on the command line.
    pub open spec fn spec_key(self) -> Seq<char> {
        match self {
            Arch::Riscv64 => "riscv64"@,
            Arch::Aarch64 => "aarch64"@,
            Arch::X86_64 => "x86_64"@,
            Arch::Loongarch64 => "loongarch64"@,
        }
    }

    /// Returns the short key of this architecture.
    pub fn key(self) -> (r: &'static str)
        ensures
            r@ == self.spec_key(),
    {
        match self {
            Arch::Riscv64 => "riscv64",
            Arch::Aarch64 => "aarch64",
            Arch::X86_64 => "x86_64",
            Arch::Loongarch64 => "loongarch64",
        }
    }

    /// Parses an architecture key; `None` exactly on the keys the table does
    /// not recognize.
    pub fn from_key(key: &str) -> (r: Option<Arch>)
        ensures
            match r {
                Some(a) => key@ == a.spec_key(),
                None => forall|a: Arch| key@ != a.spec_key(),
            },
    {
        if str_eq(key, "riscv64") {
            Some(Arch::Riscv64)
        } else if str_eq(key, "aarch64") {
            Some(Arch::Aarch64)
        } else if str_eq(key, "x86_64") {
            Some(Arch::X86_64)
        } else if str_eq(key, "loongarch64") {
            Some(Arch::Loongarch64)
        } else {
            proof {
                assert forall|a: Arch| key@ != a.spec_key() by {
                    match a {
                        Arch::Riscv64 => assert(key@ != "riscv64"@),
                        Arch::Aarch64 => assert(key@ != "aarch64"@),
                        Arch::X86_64 => assert(key@ != "x86_64"@),
                        Arch::Loongarch64 => assert(key@ != "loongarch64"@),
                    }
                }
            }
            None
        }
    }
}

/// Compares two string slices by content.
pub fn str_eq(a: &str, b: &str) -> (r: bool)
    ensures
        r == (a@ == b@),
{
    let sa: String = a.to_owned();
    let sb: String = b.to_owned();
    sa.eq(&sb)
}

/// The target triple the compile driver is given for `arch`.
pub open spec fn spec_target(arch: Arch) -> Seq<char> {
    match arch {
        Arch::Riscv64 => "riscv64gc-unknown-none-elf"@,
        Arch::Aarch64 => "aarch64-unknown-none-softfloat"@,
        Arch::X86_64 => "x86_64-unknown-none"@,
        Arch::Loongarch64 => "loongarch64-unknown-none"@,
    }
}

/// The platform tag attached to `arch`.
pub open spec fn spec_platform(arch: Arch) -> Seq<char> {
    match arch {
        Arch::Riscv64 => "riscv64-qemu-virt"@,
        Arch::Aarch64 => "aarch64-qemu-virt"@,
        Arch::X86_64 => "x86-pc"@,
        Arch::Loongarch64 => "loongarch64-qemu-virt"@,
    }
}

/// The architecture name the object converter is given for `arch`.
pub open spec fn spec_objcopy_arch(arch: Arch) -> Seq<char> {
    match arch {
        Arch::Riscv64 => "riscv64"@,
        Arch::Aarch64 => "aarch64"@,
        Arch::X86_64 => "x86_64"@,
        Arch::Loongarch64 => "loongarch64"@,
    }
}

/// The dispatch table: a total function from architecture to its entry.
pub fn arch_info(arch: Arch) -> (info: ArchInfo)
    ensures
        info.target@ == spec_target(arch),
        info.platform@ == spec_platform(arch),
        info.objcopy_arch@ == spec_objcopy_arch(arch),
{
    match arch {
        Arch::Riscv64 => ArchInfo {
            target: "riscv64gc-unknown-none-elf",
            platform: "riscv64-qemu-virt",
            objcopy_arch: "riscv64",
        },
        Arch::Aarch64 => ArchInfo {
            target: "aarch64-unknown-none-softfloat",
            platform: "aarch64-qemu-virt",
            objcopy_arch: "aarch64",
        },
        Arch::X86_64 => ArchInfo {
            target: "x86_64-unknown-none",
            platform: "x86-pc",
            objcopy_arch: "x86_64",
        },
        Arch::Loongarch64 => ArchInfo {
            target: "loongarch64-unknown-none",
            platform: "loongarch64-qemu-virt",
            objcopy_arch: "loongarch64",
        },
    }
}

/// Every architecture's table entry has non-empty fields, and the target
/// triples of distinct architectures differ.
pub proof fn lemma_arch_table_fields(a: Arch, b: Arch)
    ensures
        spec_target(a).len() > 0,
        spec_platform(a).len() > 0,
        spec_objcopy_arch(a).len() > 0,
        a != b ==> spec_target(a) != spec_target(b),
{
    reveal_strlit("riscv64gc-unknown-none-elf");
    reveal_strlit("aarch64-unknown-none-softfloat");
    reveal_strlit("x86_64-unknown-none");
    reveal_strlit("loongarch64-unknown-none");
    reveal_strlit("riscv64-qemu-virt");
    reveal_strlit("aarch64-qemu-virt");
    reveal_strlit("x86-pc");
    reveal_strlit("loongarch64-qemu-virt");
    reveal_strlit("riscv64");
    reveal_strlit("aarch64");
    reveal_strlit("x86_64");
    reveal_strlit("loongarch64");
}

} // verus!
