//! The fabricated virtual disk image: a 64 MiB file whose first sector
//! carries a FAT-style signature and whose remainder is zero-filled.
//!
//! The library computes the 512-byte boot sector and states what the whole
//! image looks like; the driver writes the sector at offset 0 and extends the
//! file to [`DISK_SIZE`] bytes (the tail may be backed sparsely).

use vstd::prelude::*;

verus! {

/// Exact length of the fabricated disk image in bytes (64 MiB).
pub const DISK_SIZE: u64 = 0x0400_0000;

/// Length of the signed boot sector at the start of the image.
pub const SECTOR_SIZE: usize = 512;

/// The byte at offset `i` of the boot sector: a short-jump opcode, its
/// displacement and a no-op; the eight ASCII bytes of the OEM ID `mkfs.fat`;
/// a little-endian bytes-per-sector of 512; and zeroes up to offset 512.
pub open spec fn spec_sector_byte(i: int) -> u8 {
    if i == 0 {
        0xEB
    } else if i == 1 {
        0x3C
    } else if i == 2 {
        0x90
    } else if 3 <= i < 11 {
        spec_oem_id()[i - 3]
    } else if i == 12 {
        0x02
    } else {
        0x00
    }
}

/// The OEM ID bytes at offsets 3..11: the ASCII text `mkfs.fat`.
pub open spec fn spec_oem_id() -> Seq<u8> {
    seq![0x6Du8, 0x6B, 0x66, 0x73, 0x2E, 0x66, 0x61, 0x74]
}

/// The full 512-byte boot sector.
pub open spec fn spec_boot_sector() -> Seq<u8> {
    Seq::new(512, |i: int| spec_sector_byte(i))
}

/// The whole fabricated image: the boot sector followed by zeroes up to
/// exactly 64 MiB.
pub open spec fn spec_disk_image() -> Seq<u8> {
    Seq::new(0x0400_0000, |i: int| if i < 512 { spec_boot_sector()[i] } else { 0u8 })
}

/// The OEM ID is the UTF-8 (here pure ASCII) encoding of `mkfs.fat`.
pub proof fn lemma_oem_id_is_ascii_text()
    ensures
        spec_oem_id() =~= "mkfs.fat"@.map_values(|c: char| c as u8),
        forall|i: int| 0 <= i < spec_oem_id().len() ==> spec_oem_id()[i] < 128,
{
    reveal_strlit("mkfs.fat");
}

/// Builds the 512-byte boot sector.
pub fn boot_sector() -> (r: Vec<u8>)
    ensures
        r@ == spec_boot_sector(),
{
    let mut r: Vec<u8> = Vec::new();
    // Short jump over the (absent) BPB, displacement, no-op.
    r.push(0xEB);
    r.push(0x3C);
    r.push(0x90);
    // OEM ID "mkfs.fat".
    r.push(0x6D);
    r.push(0x6B);
    r.push(0x66);
    r.push(0x73);
    r.push(0x2E);
    r.push(0x66);
    r.push(0x61);
    r.push(0x74);
    // Bytes per sector: 512, little-endian.
    r.push(0x00);
    r.push(0x02);
    assert(forall|i: int| 0 <= i < r@.len() ==> r@[i] == spec_sector_byte(i));
    while r.len() < 512
        invariant
            13 <= r@.len() <= 512,
            forall|i: int| 0 <= i < r@.len() ==> r@[i] == spec_sector_byte(i),
        decreases 512 - r@.len(),
    {
        r.push(0x00);
    }
    assert(r@ =~= spec_boot_sector());
    r
}

/// The fabricated image is exactly 67 108 864 bytes long; its first 13 bytes
/// are the fixed signature, and every byte from offset 13 on is zero.
pub proof fn lemma_disk_image_layout()
    ensures
        spec_disk_image().len() == 67_108_864,
        spec_disk_image().take(13) =~= seq![
            0xEBu8,
            0x3C,
            0x90,
            0x6D,
            0x6B,
            0x66,
            0x73,
            0x2E,
            0x66,
            0x61,
            0x74,
            0x00,
            0x02,
        ],
        forall|i: int| 13 <= i < spec_disk_image().len() ==> spec_disk_image()[i] == 0,
        spec_disk_image().take(512) =~= spec_boot_sector(),
{
}

/// Fabrication does not depend on what the target file held before: any two
/// fabricated images agree on their first 512 bytes and on their length.
pub proof fn lemma_refabrication_identical(first: Seq<u8>, second: Seq<u8>)
    requires
        first == spec_disk_image(),
        second == spec_disk_image(),
    ensures
        first.take(512) == second.take(512),
        first.len() == second.len(),
{
}

} // verus!
