//! Disk layout planner: the fixed geometry of the produced image.
//!
//! The image is a GPT disk holding a 512 MiB EFI System Partition and a
//! root partition of the configured size. The first 2048 sectors are
//! reserved for the ESP-plus-alignment region and 34 sectors at the end
//! of the disk for the GPT backup metadata.

use vstd::prelude::*;

verus! {

/// Size of the fixed EFI System Partition: 512 MiB.
pub const ESP_SIZE_BYTES: u64 = 512 * 1024 * 1024;

/// Size of one disk sector in bytes.
pub const SECTOR_SIZE_BYTES: u64 = 512;

/// Sectors reserved at the start of the disk for the ESP-plus-alignment
/// region: the first usable LBA of the partition table.
pub const ESP_REGION_SECTORS: u64 = 2048;

/// Sectors reserved at the end of the disk for the GPT backup metadata.
pub const GPT_BACKUP_SECTORS: u64 = 34;

/// Total size of the backing image file: the requested root size plus
/// the fixed ESP.
pub open spec fn spec_disk_size(root_size: u64) -> int {
    root_size + ESP_SIZE_BYTES
}

/// Sector count of the root partition: the root size in sectors, less
/// the reserved region at the start and the GPT backup at the end.
pub open spec fn spec_root_sectors(root_size: u64) -> int {
    root_size / SECTOR_SIZE_BYTES - ESP_REGION_SECTORS - GPT_BACKUP_SECTORS
}

/// A root size the planner accepts: large enough that the reserved
/// sectors fit inside it, and small enough that the whole disk size
/// fits in a byte count.
pub open spec fn valid_root_size(root_size: u64) -> bool {
    &&& root_size + ESP_SIZE_BYTES <= u64::MAX
    &&& root_size / SECTOR_SIZE_BYTES >= ESP_REGION_SECTORS + GPT_BACKUP_SECTORS
}

/// Computes the total image size for a requested root partition size.
pub fn disk_size(root_size: u64) -> (size: u64)
    requires
        valid_root_size(root_size),
    ensures
        size == spec_disk_size(root_size),
{
    root_size + ESP_SIZE_BYTES
}

/// Computes the sector count of the root partition for a requested
/// root partition size.
pub fn root_sector_count(root_size: u64) -> (sectors: u64)
    requires
        valid_root_size(root_size),
    ensures
        sectors == spec_root_sectors(root_size),
{
    root_size / SECTOR_SIZE_BYTES - ESP_REGION_SECTORS - GPT_BACKUP_SECTORS
}

/// Law: for any root size that is a whole number of sectors, the
/// planned disk size is the root size plus 512 MiB, and the planned
/// root partition sector count is the root size divided by 512, less
/// the 2048 reserved sectors and the 34 GPT backup sectors.
pub proof fn lemma_disk_layout(root_size: u64)
    requires
        root_size % SECTOR_SIZE_BYTES == 0,
        valid_root_size(root_size),
    ensures
        spec_disk_size(root_size) == root_size + 512 * 1024 * 1024,
        spec_root_sectors(root_size) == root_size / 512 - 2048 - 34,
{
}

} // verus!
