//! Disk subsystem: block inventory, identity and udev enrichment.

pub mod identity;
pub mod lsblk;
pub mod smart;
pub mod blkid;
pub mod udev;
pub mod report;
