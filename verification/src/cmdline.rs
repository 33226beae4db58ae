//! Command lines for the three external programs the tool drives: the
//! compile driver, the object converter, and the machine emulator. The
//! library only assembles the argument vectors; the driver spawns the
//! processes and waits for them.

use vstd::prelude::*;
use vstd::string::StringExecFns;

use crate::arch::Arch;

verus! {

/// Name of the external compile driver.
pub fn cargo_program() -> (r: &'static str)
    ensures
        r@ == "cargo"@,
{
    "cargo"
}

/// The compile driver's arguments: a release build of the given target
/// triple with the `axstd` feature, against the given kernel manifest.
pub open spec fn spec_cargo_build_args(target: Seq<char>, manifest: Seq<char>) -> Seq<Seq<char>> {
    seq![
        "build"@,
        "--release"@,
        "--target"@,
        target,
        "--features"@,
        "axstd"@,
        "--manifest-path"@,
        manifest,
    ]
}

/// Assembles the compile driver's argument vector.
pub fn cargo_build_args(target: &str, manifest: &str) -> (r: Vec<String>)
    ensures
        r.deep_view() == spec_cargo_build_args(target@, manifest@),
{
    let mut r: Vec<String> = Vec::new();
    r.push(String::from_str("build"));
    r.push(String::from_str("--release"));
    r.push(String::from_str("--target"));
    r.push(String::from_str(target));
    r.push(String::from_str("--features"));
    r.push(String::from_str("axstd"));
    r.push(String::from_str("--manifest-path"));
    r.push(String::from_str(manifest));
    assert(r.deep_view() =~= spec_cargo_build_args(target@, manifest@));
    r
}

/// Name of the external object converter.
pub fn objcopy_program() -> (r: &'static str)
    ensures
        r@ == "rust-objcopy"@,
{
    "rust-objcopy"
}

/// The object converter's arguments: strip the ELF at `elf` and write its
/// loadable segments as a flat binary to `bin`.
pub open spec fn spec_objcopy_args(objcopy_arch: Seq<char>, elf: Seq<char>, bin: Seq<char>) -> Seq<
    Seq<char>,
> {
    seq![
        "--binary-architecture="@ + objcopy_arch,
        elf,
        "--strip-all"@,
        "-O"@,
        "binary"@,
        bin,
    ]
}

/// Assembles the object converter's argument vector.
pub fn objcopy_args(objcopy_arch: &str, elf: &str, bin: &str) -> (r: Vec<String>)
    ensures
        r.deep_view() == spec_objcopy_args(objcopy_arch@, elf@, bin@),
{
    let mut r: Vec<String> = Vec::new();
    r.push(String::from_str("--binary-architecture=").concat(objcopy_arch));
    r.push(String::from_str(elf));
    r.push(String::from_str("--strip-all"));
    r.push(String::from_str("-O"));
    r.push(String::from_str("binary"));
    r.push(String::from_str(bin));
    assert(r.deep_view() =~= spec_objcopy_args(objcopy_arch@, elf@, bin@));
    r
}

/// Whether the object converter runs for `arch`: every architecture but
/// `x86_64`, whose emulator consumes the ELF directly.
pub fn needs_objcopy(arch: Arch) -> (r: bool)
    ensures
        r == (arch != Arch::X86_64),
{
    match arch {
        Arch::X86_64 => false,
        _ => true,
    }
}

/// The emulator binary for `arch`: `qemu-system-<arch>`.
pub fn qemu_program(arch: Arch) -> (r: String)
    ensures
        r@ == "qemu-system-"@ + arch.spec_key(),
{
    String::from_str("qemu-system-").concat(arch.key())
}

/// Arguments common to every architecture: 128 MiB of memory, one hart, no
/// graphical output.
pub open spec fn spec_common_args() -> Seq<Seq<char>> {
    seq!["-m"@, "128M"@, "-smp"@, "1"@, "-nographic"@]
}

/// The architecture-specific block: machine (and, where needed, CPU or
/// firmware) selection, then `-kernel` with the raw binary — except on
/// `x86_64`, where the emulator boots the ELF itself.
pub open spec fn spec_arch_args(arch: Arch, elf: Seq<char>, bin: Seq<char>) -> Seq<Seq<char>> {
    match arch {
        Arch::Riscv64 => seq!["-machine"@, "virt"@, "-bios"@, "default"@, "-kernel"@, bin],
        Arch::Aarch64 => seq!["-cpu"@, "cortex-a72"@, "-machine"@, "virt"@, "-kernel"@, bin],
        Arch::X86_64 => seq!["-machine"@, "q35"@, "-kernel"@, elf],
        Arch::Loongarch64 => seq!["-machine"@, "virt"@, "-kernel"@, bin],
    }
}

/// The `-drive` argument attaching the disk image as a raw backing file.
pub open spec fn spec_drive_arg(disk: Seq<char>) -> Seq<char> {
    "file="@ + disk + ",format=raw,if=none,id=disk0"@
}

/// The unconditional tail: attach the disk, then expose it as a virtio
/// block device over PCI.
pub open spec fn spec_disk_args(disk: Seq<char>) -> Seq<Seq<char>> {
    seq!["-drive"@, spec_drive_arg(disk), "-device"@, "virtio-blk-pci,drive=disk0"@]
}

/// The full emulator command line for `arch`.
pub open spec fn spec_qemu_args(arch: Arch, elf: Seq<char>, bin: Seq<char>, disk: Seq<char>) -> Seq<
    Seq<char>,
> {
    spec_common_args() + spec_arch_args(arch, elf, bin) + spec_disk_args(disk)
}

/// Assembles the emulator's argument vector.
pub fn qemu_args(arch: Arch, elf: &str, bin: &str, disk: &str) -> (r: Vec<String>)
    ensures
        r.deep_view() == spec_qemu_args(arch, elf@, bin@, disk@),
{
    let mut r: Vec<String> = Vec::new();
    r.push(String::from_str("-m"));
    r.push(String::from_str("128M"));
    r.push(String::from_str("-smp"));
    r.push(String::from_str("1"));
    r.push(String::from_str("-nographic"));
    match arch {
        Arch::Riscv64 => {
            r.push(String::from_str("-machine"));
            r.push(String::from_str("virt"));
            r.push(String::from_str("-bios"));
            r.push(String::from_str("default"));
            r.push(String::from_str("-kernel"));
            r.push(String::from_str(bin));
        },
        Arch::Aarch64 => {
            r.push(String::from_str("-cpu"));
            r.push(String::from_str("cortex-a72"));
            r.push(String::from_str("-machine"));
            r.push(String::from_str("virt"));
            r.push(String::from_str("-kernel"));
            r.push(String::from_str(bin));
        },
        Arch::X86_64 => {
            r.push(String::from_str("-machine"));
            r.push(String::from_str("q35"));
            r.push(String::from_str("-kernel"));
            r.push(String::from_str(elf));
        },
        Arch::Loongarch64 => {
            r.push(String::from_str("-machine"));
            r.push(String::from_str("virt"));
            r.push(String::from_str("-kernel"));
            r.push(String::from_str(bin));
        },
    }
    r.push(String::from_str("-drive"));
    r.push(String::from_str("file=").concat(disk).concat(",format=raw,if=none,id=disk0"));
    r.push(String::from_str("-device"));
    r.push(String::from_str("virtio-blk-pci,drive=disk0"));
    assert(r.deep_view() =~= spec_qemu_args(arch, elf@, bin@, disk@));
    r
}

/// Index of the `-kernel` flag within the emulator command line.
pub open spec fn spec_kernel_flag_index(arch: Arch) -> int {
    match arch {
        Arch::Riscv64 => 9,
        Arch::Aarch64 => 9,
        Arch::X86_64 => 7,
        Arch::Loongarch64 => 7,
    }
}

/// The emulator command line passes `-kernel` followed by the ELF image on
/// `x86_64` and by the raw binary on every other architecture; and on
/// `x86_64`, where the raw binary is the ELF path with `.bin` appended, that
/// `.bin` path appears nowhere in the command line.
pub proof fn lemma_kernel_argument(arch: Arch, elf: Seq<char>, bin: Seq<char>, disk: Seq<char>)
    ensures
        ({
            let args = spec_qemu_args(arch, elf, bin, disk);
            let k = spec_kernel_flag_index(arch);
            &&& 0 <= k && k + 1 < args.len()
            &&& args[k] == "-kernel"@
            &&& args[k + 1] == if arch == Arch::X86_64 {
                elf
            } else {
                bin
            }
        }),
        arch == Arch::X86_64 && bin == elf + ".bin"@ ==> forall|i: int|
            0 <= i < spec_qemu_args(arch, elf, bin, disk).len() ==> spec_qemu_args(
                arch,
                elf,
                bin,
                disk,
            )[i] != bin,
{
    if arch == Arch::X86_64 && bin == elf + ".bin"@ {
        let args = spec_qemu_args(arch, elf, bin, disk);
        reveal_strlit(".bin");
        reveal_strlit("-m");
        reveal_strlit("128M");
        reveal_strlit("-smp");
        reveal_strlit("1");
        reveal_strlit("-nographic");
        reveal_strlit("-machine");
        reveal_strlit("q35");
        reveal_strlit("-kernel");
        reveal_strlit("-drive");
        reveal_strlit("file=");
        reveal_strlit(",format=raw,if=none,id=disk0");
        reveal_strlit("-device");
        reveal_strlit("virtio-blk-pci,drive=disk0");
        assert(bin.len() == elf.len() + 4);
        assert(bin[bin.len() - 1] == 'n');
        assert forall|i: int| 0 <= i < args.len() implies args[i] != bin by {
            assert(args.len() == 13);
            if i == 8 {
                // The ELF path itself: four bytes shorter than the raw path.
                assert(args[8] == elf);
            } else if i == 10 {
                // The drive argument ends in '0', the raw path in 'n'.
                let d = spec_drive_arg(disk);
                assert(args[10] == d);
                assert(d.len() == disk.len() + 33);
                assert(d[d.len() - 1] == ",format=raw,if=none,id=disk0"@[27]);
                assert(d[d.len() - 1] == '0');
            } else {
                // Every fixed word ends in a character other than 'n'.
            }
        }
    }
}

/// Every emulator command line contains `-nographic` and ends with the two
/// disk-attachment arguments, in the order `-drive <file> -device
/// virtio-blk-pci,drive=disk0`.
pub proof fn lemma_disk_attachment(arch: Arch, elf: Seq<char>, bin: Seq<char>, disk: Seq<char>)
    ensures
        ({
            let args = spec_qemu_args(arch, elf, bin, disk);
            let n = args.len();
            &&& n >= 9
            &&& args[4] == "-nographic"@
            &&& args[n - 4] == "-drive"@
            &&& args[n - 3] == spec_drive_arg(disk)
            &&& args[n - 2] == "-device"@
            &&& args[n - 1] == "virtio-blk-pci,drive=disk0"@
        }),
{
}

} // verus!
