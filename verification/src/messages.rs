//! The tool's user-visible lines: progress lines for standard output and
//! diagnostics for standard error. Each is a pure function of its inputs, so
//! the driver prints exactly what the contracts state.

use vstd::prelude::*;
use vstd::string::StringExecFns;

verus! {

/// `parts` joined by `sep`: empty for no parts, and otherwise each part
/// separated from the next by one occurrence of `sep`.
pub open spec fn spec_join(parts: Seq<Seq<char>>, sep: Seq<char>) -> Seq<char>
    decreases parts.len(),
{
    if parts.len() == 0 {
        Seq::empty()
    } else if parts.len() == 1 {
        parts[0]
    } else {
        spec_join(parts.drop_last(), sep) + sep + parts.last()
    }
}

/// Joins the parts with the separator.
pub fn join(parts: &Vec<String>, sep: &str) -> (r: String)
    ensures
        r@ == spec_join(parts.deep_view(), sep@),
{
    let mut r = String::new();
    let mut i: usize = 0;
    while i < parts.len()
        invariant
            i <= parts.len(),
            r@ == spec_join(parts.deep_view().take(i as int), sep@),
        decreases parts.len() - i,
    {
        if i > 0 {
            r.append(sep);
        }
        r.append(parts[i].as_str());
        proof {
            let dv = parts.deep_view();
            assert(dv.take(i + 1).drop_last() =~= dv.take(i as int));
            assert(dv.take(i + 1).last() == parts[i as int]@);
        }
        i = i + 1;
    }
    proof {
        assert(parts.deep_view().take(parts.len() as int) =~= parts.deep_view());
    }
    r
}

/// Diagnostic for an architecture key outside the dispatch table; it names
/// the offending key and the supported set.
pub fn unsupported_arch_message(arch: &str) -> (r: String)
    ensures
        r@ == "Error: unsupported architecture '"@ + arch@
            + "'. Supported: riscv64, aarch64, x86_64, loongarch64"@,
{
    String::from_str("Error: unsupported architecture '").concat(arch).concat(
        "'. Supported: riscv64, aarch64, x86_64, loongarch64",
    )
}

/// Diagnostic for a missing per-architecture config source.
pub fn missing_config_message(src: &str) -> (r: String)
    ensures
        r@ == "Error: config file not found: "@ + src@,
{
    String::from_str("Error: config file not found: ").concat(src)
}

/// Diagnostic for a failed config copy, with the underlying cause.
pub fn copy_failed_message(src: &str, dst: &str, cause: &str) -> (r: String)
    ensures
        r@ == "Error: failed to copy "@ + src@ + " -> "@ + dst@ + ": "@ + cause@,
{
    String::from_str("Error: failed to copy ").concat(src).concat(" -> ").concat(dst).concat(
        ": ",
    ).concat(cause)
}

/// Progress line after a config install.
pub fn installed_config_message(src: &str) -> (r: String)
    ensures
        r@ == "Installed config: "@ + src@ + " -> .axconfig.toml"@,
{
    String::from_str("Installed config: ").concat(src).concat(" -> .axconfig.toml")
}

/// Diagnostic for a failed disk-image creation, with the underlying cause.
pub fn disk_create_failed_message(path: &str, cause: &str) -> (r: String)
    ensures
        r@ == "Error: failed to create disk image "@ + path@ + ": "@ + cause@,
{
    String::from_str("Error: failed to create disk image ").concat(path).concat(": ").concat(
        cause,
    )
}

/// Progress line after fabricating the disk image, with its size in MiB.
pub fn created_disk_message(path: &str) -> (r: String)
    ensures
        r@ == "Created disk image: "@ + path@ + " (64MB)"@,
{
    String::from_str("Created disk image: ").concat(path).concat(" (64MB)")
}

/// Diagnostic when the compile driver exits with a failure.
pub fn cargo_failed_message() -> (r: String)
    ensures
        r@ == "Error: cargo build failed"@,
{
    String::from_str("Error: cargo build failed")
}

/// Diagnostic when the compile driver cannot be spawned.
pub fn cargo_spawn_message() -> (r: String)
    ensures
        r@ == "failed to execute cargo build"@,
{
    String::from_str("failed to execute cargo build")
}

/// Diagnostic when the object converter exits with a failure.
pub fn objcopy_failed_message() -> (r: String)
    ensures
        r@ == "Error: rust-objcopy failed"@,
{
    String::from_str("Error: rust-objcopy failed")
}

/// Installation hint when the object converter cannot be spawned.
pub fn objcopy_spawn_message() -> (r: String)
    ensures
        r@ == "failed to execute rust-objcopy (install with: cargo install cargo-binutils)"@,
{
    String::from_str("failed to execute rust-objcopy (install with: cargo install cargo-binutils)")
}

/// Diagnostic when the emulator cannot be spawned, with the underlying cause.
pub fn qemu_spawn_failed_message(qemu: &str, cause: &str) -> (r: String)
    ensures
        r@ == "Error: failed to run "@ + qemu@ + ": "@ + cause@,
{
    String::from_str("Error: failed to run ").concat(qemu).concat(": ").concat(cause)
}

/// Progress line printed before the emulator starts: the full command line.
pub fn running_message(program: &str, args: &Vec<String>) -> (r: String)
    ensures
        r@ == "Running: "@ + program@ + " "@ + spec_join(args.deep_view(), " "@),
{
    String::from_str("Running: ").concat(program).concat(" ").concat(join(args, " ").as_str())
}

/// Completion line for a finished build.
pub fn build_complete_message(arch_key: &str, target: &str) -> (r: String)
    ensures
        r@ == "Build complete for "@ + arch_key@ + " ("@ + target@ + ")"@,
{
    String::from_str("Build complete for ").concat(arch_key).concat(" (").concat(target).concat(
        ")",
    )
}

} // verus!
