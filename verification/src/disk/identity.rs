//! Disk identity with revalidation — the anti-hot-plug barrier.
//!
//! A destructive operation carries the identity recorded at planning time
//! and compares it with a fresh probe just before running: any divergence of
//! model, serial or size aborts with `SF-DISK-009`.

use vstd::prelude::*;

use crate::disk::lsblk::{probe_device, trimmed_nonempty, LsblkDevice};
use crate::disk::udev::{enrich_from_udev, enriched};
use crate::error::{error_code, opt_debug, push_opt_debug, ErrorDomain, SysforgeError};
use crate::executor::ExecResult;
use crate::props::PropertyMap;
use crate::text::{clone_string, dec, opt_view, push_dec, push_str, trim};

verus! {

#[derive(Debug, Clone, PartialEq, Eq)]
pub struct DiskIdentity {
    /// Canonical path, e.g. /dev/sda
    pub path: String,
    pub model: Option<String>,
    pub serial: Option<String>,
    pub size_bytes: u64,
    /// Test fixture — never real; revalidation is a no-op.
    pub synthetic: bool,
}

/// The canonical path of a device: its path, else `/dev/<name>`.
pub open spec fn device_path(dev: LsblkDevice) -> Seq<char> {
    match dev.path {
        Some(p) => p@,
        None => "/dev/"@ + dev.name@,
    }
}

pub open spec fn identity_matches(a: DiskIdentity, b: DiskIdentity) -> bool {
    opt_view(a.model) == opt_view(b.model) && opt_view(a.serial) == opt_view(b.serial)
        && a.size_bytes == b.size_bytes
}

fn opt_eq(a: &Option<String>, b: &Option<String>) -> (r: bool)
    ensures
        r == (opt_view(*a) == opt_view(*b)),
{
    match (a, b) {
        (Some(x), Some(y)) => crate::text::str_eq(x.as_str(), y.as_str()),
        (None, None) => true,
        _ => false,
    }
}

/// Trimmed text, absent when empty (on a view).
pub open spec fn trimmed_view(o: Option<Seq<char>>) -> Option<Seq<char>> {
    match o {
        Some(s) => if trim(s).len() > 0 {
            Some(trim(s))
        } else {
            None
        },
        None => None,
    }
}

impl DiskIdentity {
    /// Identity of the device at `path`: the `lsblk` probe of it (`r`, with
    /// its decoded output `decoded`, see [`probe_device`]), completed from
    /// udev (`udev` are the properties of its udev entry).
    pub fn probe(path: &str, r: &ExecResult, decoded: Result<Vec<LsblkDevice>, SysforgeError>, udev: &PropertyMap) -> (out: Result<Self, SysforgeError>)
        ensures
            r.exit_code != Some(0i32) ==> (out matches Err(e) && e.code@ == error_code(ErrorDomain::Disk, 1)
                && e.message@ == "Dispositivo "@ + path@ + " não encontrado"@),
            r.exit_code == Some(0i32) ==> match decoded {
                Err(e) => out == Err::<DiskIdentity, SysforgeError>(e),
                Ok(v) => if v.len() > 0 {
                    out matches Ok(id) && id.path@ == device_path(v[0]) && id.size_bytes == v[0].size && !id.synthetic
                        && (v[0].majmin is None ==> opt_view(id.model) == trimmed_nonempty(v[0].model)
                            && opt_view(id.serial) == trimmed_nonempty(v[0].serial))
                        && (v[0].majmin is Some ==> opt_view(id.model) == trimmed_view(enriched(v[0].model, udev.view(), "ID_MODEL"@))
                            && opt_view(id.serial) == trimmed_view(enriched(v[0].serial, udev.view(), "ID_SERIAL_SHORT"@)))
                } else {
                    out matches Err(e) && e.code@ == error_code(ErrorDomain::Disk, 1)
                },
            },
    {
        let mut dev = match probe_device(path, r, decoded) {
            Ok(d) => d,
            Err(e) => {
                return Err(e);
            },
        };
        enrich_from_udev(&mut dev, udev);
        let id = Self::from_device(&dev);
        proof {
            if dev.majmin is Some {
                assert(trimmed_nonempty(dev.model) == trimmed_view(opt_view(dev.model)));
                assert(trimmed_nonempty(dev.serial) == trimmed_view(opt_view(dev.serial)));
            }
        }
        Ok(id)
    }

    pub fn from_device(dev: &LsblkDevice) -> (id: Self)
        ensures
            id.path@ == device_path(*dev),
            opt_view(id.model) == trimmed_nonempty(dev.model),
            opt_view(id.serial) == trimmed_nonempty(dev.serial),
            id.size_bytes == dev.size,
            !id.synthetic,
    {
        let path = match &dev.path {
            Some(p) => clone_string(p),
            None => {
                let mut s = String::from_str("/dev/");
                push_str(&mut s, dev.name.as_str());
                s
            },
        };
        DiskIdentity {
            path,
            model: dev.model_trimmed(),
            serial: dev.serial_trimmed(),
            size_bytes: dev.size,
            synthetic: false,
        }
    }

    /// Identity of a disk from an inventory already collected (no new probe).
    pub fn from_disk(dev: &LsblkDevice) -> (id: Self)
        ensures
            id.path@ == device_path(*dev),
            opt_view(id.model) == trimmed_nonempty(dev.model),
            opt_view(id.serial) == trimmed_nonempty(dev.serial),
            id.size_bytes == dev.size,
            !id.synthetic,
    {
        Self::from_device(dev)
    }

    /// A fixture identity that never exists on a real machine.
    pub fn synthetic_for_tests(path: &str) -> (id: Self)
        ensures
            id.path@ == path@,
            opt_view(id.model) == Some("SYNTHETIC DISK"@),
            opt_view(id.serial) == Some("SYNTHETIC-SERIAL"@),
            id.size_bytes == 1073741824,
            id.synthetic,
    {
        DiskIdentity {
            path: String::from_str(path),
            model: Some(String::from_str("SYNTHETIC DISK")),
            serial: Some(String::from_str("SYNTHETIC-SERIAL")),
            size_bytes: 1073741824,
            synthetic: true,
        }
    }

    /// Revalidates this identity against a fresh probe of the same path
    /// (`current`). A synthetic identity always passes without a probe; a
    /// failed probe is the error; a model/serial/size divergence is
    /// `SF-DISK-009`.
    pub fn revalidate_now(&self, current: Result<DiskIdentity, SysforgeError>) -> (r: Result<
        (),
        SysforgeError,
    >)
        ensures
            self.synthetic ==> r is Ok,
            !self.synthetic ==> match current {
                Err(e) => r == Err::<(), SysforgeError>(e),
                Ok(c) => if identity_matches(c, *self) {
                    r is Ok
                } else {
                    r matches Err(e) && e.code@ == error_code(ErrorDomain::Disk, 9) && e.message@
                        == "A identidade do disco "@ + self.path@
                        + " mudou desde o planejamento — operação abortada"@ && e.technical@
                        == "planejado: model="@ + opt_debug(opt_view(self.model)) + " serial="@
                        + opt_debug(opt_view(self.serial)) + " size="@ + dec(self.size_bytes as nat)
                        + "; atual: model="@ + opt_debug(opt_view(c.model)) + " serial="@
                        + opt_debug(opt_view(c.serial)) + " size="@ + dec(c.size_bytes as nat)
                },
            },
    {
        if self.synthetic {
            return Ok(());
        }
        let current = match current {
            Err(e) => return Err(e),
            Ok(c) => c,
        };
        if !opt_eq(&current.model, &self.model) || !opt_eq(&current.serial, &self.serial)
            || current.size_bytes != self.size_bytes {
            let mut msg = String::from_str("A identidade do disco ");
            push_str(&mut msg, self.path.as_str());
            push_str(&mut msg, " mudou desde o planejamento — operação abortada");
            let mut tech = String::from_str("planejado: model=");
            push_opt_debug(&mut tech, &self.model);
            push_str(&mut tech, " serial=");
            push_opt_debug(&mut tech, &self.serial);
            push_str(&mut tech, " size=");
            push_dec(&mut tech, self.size_bytes);
            push_str(&mut tech, "; atual: model=");
            push_opt_debug(&mut tech, &current.model);
            push_str(&mut tech, " serial=");
            push_opt_debug(&mut tech, &current.serial);
            push_str(&mut tech, " size=");
            push_dec(&mut tech, current.size_bytes);
            return Err(SysforgeError::new(ErrorDomain::Disk, 9, msg.as_str()).with_technical(
                tech.as_str(),
            ).with_recommendation(
                "Isto indica hot-plug/renumeração de dispositivos. Redimensione o plano com o novo inventário de discos antes de prosseguir.",
            ));
        }
        Ok(())
    }
}

} // verus!
