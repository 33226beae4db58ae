//! Build-and-run automation for a small operating-system kernel image across
//! four CPU architectures (riscv64, aarch64, x86_64, loongarch64).
//!
//! The library holds the verified core of the tool: the architecture dispatch
//! table, the derived filesystem paths, the fabricated disk image's boot
//! sector, the command lines handed to the external compile driver, object
//! converter and emulator, and the step plan that a thin driver executes.
//! All file and process I/O is left to that driver; every function here is
//! pure and carries a contract that pins its result down exactly.

pub mod arch;
pub mod cmdline;
pub mod disk;
pub mod messages;
pub mod paths;
pub mod plan;
