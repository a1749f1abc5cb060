# sysforge

The verified core of SYSFORGE, an operating-system manager for Linux
machines: disk inventory and health, UEFI boot control (BootNext one-shot,
reboot into the firmware setup), a Windows 11 installation flow, and a
privileged daemon that authorizes every effectful request.

The library in `src/` is written in Verus and its contracts are proved.
Where a result rests on the clock or on whether the terminal takes
colours, the contract states what holds of every outcome; the calls into
outside crates are small wrappers whose contracts say what those crates
document. It holds the
decisions; the program in `app/` reads the machine, runs commands, talks
to the daemon socket and prints.

## Layout

- `src/text.rs` — text primitives with specifications (trim, split, lines,
  decimal rendering, case folding).
- `src/error.rs` — `SysforgeError` and its stable `SF-<DOMAIN>-<NNN>` codes.
- `src/executor.rs` — commands as program + arguments (never a shell
  string), risk classes, dry-run planning and the guards in front of every
  destructive command (operation id, live-disk guard, identity
  revalidation).
- `src/disk/` — lsblk devices, udev enrichment, blkid, disk identity,
  SMART health and the inventory as the terminal shows it.
- `src/boot/` — the `efibootmgr` parser, the ESP, boot snapshots.
- `src/state.rs`, `src/canonical.rs` — the operation state machine, its
  history, and the checksum over the record's canonical text.
- `src/daemon.rs`, `src/handlers.rs`, `src/ipc/` — daemon modes,
  authorization, request routing, the wire protocol and client outcomes.
- `src/windows/` — the Windows 11 checklist, `autounattend.xml` (with the
  proof that it never holds a password tag), removable media, the small
  stick build as a state machine, the disk method and the apply flow.
- `src/doctor.rs` — the environment diagnosis.
- `src/capability.rs`, `src/net.rs`, `src/backup.rs`, `src/power.rs`,
  `src/hw/` — tools present, network, backup planning, power and firmware
  reboot, system facts.
- `src/ui.rs` — badges, tables, sizes and uptime for the terminal. Every
  rendering function states its text with styles off, and with styles on
  the same layout with each styled piece as colored may render it (the
  text itself, or the text in the style's escape codes).
- `tests/` — tests of the library on concrete values.
- `app/` — the `sysforge` command line, the `osd` daemon entry, and the
  operation records on disk (sealed by the library after each transition,
  written atomically, checked on load).

## Daemon methods

The daemon answers the methods of its protocol registry: echo, system,
disk, boot-entry, capability and daemon information; the boot writes
(BootNext, clearing it, removing an entry, snapshots, arming the firmware
setup); reboot, power-off and daemon shutdown. The Windows installation
steps (disk method readiness, preparation, arming and revert; small-stick
plan and build) run from the command line only; asked of the daemon, they
are answered as unknown methods, because the protocol registry names none
of them.
