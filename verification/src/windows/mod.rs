//! Windows installation: prerequisite checklist, `autounattend.xml`,
//! removable media, the optimized small stick and the disk method.

pub mod checklist;
pub mod flow;
pub mod diskboot;
pub mod diskboot_laws;
pub mod media;
pub mod smallusb;
pub mod unattend;
pub mod no_password;
