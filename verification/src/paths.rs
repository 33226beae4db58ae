//! Filesystem paths derived from the project root and the chosen
//! architecture. Paths are plain strings; the thin driver around the library
//! turns them into operating-system paths.

use vstd::prelude::*;
use vstd::string::StringExecFns;

use crate::arch::Arch;

verus! {

/// The location of the project checkout: the directory that holds `configs/`
/// and the kernel's `Cargo.toml`. The driver determines it once at process
/// start and hands it in as a plain string.
pub fn project_root(manifest_dir: &str) -> (r: String)
    ensures
        r@ == manifest_dir@,
{
    manifest_dir.to_owned()
}

/// The per-architecture kernel config file under the project root.
pub open spec fn spec_config_src(root: Seq<char>, arch: Arch) -> Seq<char> {
    root + "/configs/"@ + arch.spec_key() + ".toml"@
}

/// Returns `<root>/configs/<arch>.toml`, the config file to install.
pub fn config_src_path(root: &str, arch: Arch) -> (r: String)
    ensures
        r@ == spec_config_src(root@, arch),
{
    root.to_owned().concat("/configs/").concat(arch.key()).concat(".toml")
}

/// The well-known config destination under the project root.
pub open spec fn spec_config_dst(root: Seq<char>) -> Seq<char> {
    root + "/.axconfig.toml"@
}

/// Returns `<root>/.axconfig.toml`, overwritten on every install.
pub fn config_dst_path(root: &str) -> (r: String)
    ensures
        r@ == spec_config_dst(root@),
{
    root.to_owned().concat("/.axconfig.toml")
}

/// The kernel manifest handed to the compile driver.
pub open spec fn spec_manifest_path(root: Seq<char>) -> Seq<char> {
    root + "/Cargo.toml"@
}

/// Returns `<root>/Cargo.toml`.
pub fn manifest_path(root: &str) -> (r: String)
    ensures
        r@ == spec_manifest_path(root@),
{
    root.to_owned().concat("/Cargo.toml")
}

/// The ELF image the compile driver produces for a target triple.
pub open spec fn spec_elf_path(root: Seq<char>, target: Seq<char>) -> Seq<char> {
    root + "/target/"@ + target + "/release/arceos-readblk"@
}

/// Returns `<root>/target/<target>/release/arceos-readblk`.
pub fn elf_path(root: &str, target: &str) -> (r: String)
    ensures
        r@ == spec_elf_path(root@, target@),
{
    root.to_owned().concat("/target/").concat(target).concat("/release/arceos-readblk")
}

/// The raw binary beside the ELF image: the same path with a `.bin`
/// extension appended (the ELF name carries no extension of its own).
pub open spec fn spec_bin_path(root: Seq<char>, target: Seq<char>) -> Seq<char> {
    spec_elf_path(root, target) + ".bin"@
}

/// Returns `<root>/target/<target>/release/arceos-readblk.bin`.
pub fn bin_path(root: &str, target: &str) -> (r: String)
    ensures
        r@ == spec_bin_path(root@, target@),
{
    elf_path(root, target).concat(".bin")
}

/// The fabricated disk image under the build output tree.
pub open spec fn spec_disk_path(root: Seq<char>) -> Seq<char> {
    root + "/target/disk.img"@
}

/// Returns `<root>/target/disk.img`.
pub fn disk_path(root: &str) -> (r: String)
    ensures
        r@ == spec_disk_path(root@),
{
    root.to_owned().concat("/target/disk.img")
}

/// What the destination file holds after a config install: the source bytes,
/// whatever the destination held before.
pub open spec fn spec_installed_config(prior: Seq<u8>, source: Seq<u8>) -> Seq<u8> {
    source
}

/// Installing a config is idempotent: a second install of the same source
/// over the first one's result changes nothing, and after each install the
/// destination is byte-equal to the per-architecture source.
pub proof fn lemma_config_install_idempotent(prior: Seq<u8>, source: Seq<u8>)
    ensures
        spec_installed_config(spec_installed_config(prior, source), source)
            == spec_installed_config(prior, source),
        spec_installed_config(prior, source) == source,
{
}

} // verus!
