//! Boot subsystem: UEFI entries and the EFI System Partition.

pub mod efi;
pub mod efi_laws;
pub mod esp;
pub mod snapshot;
