use sysforge::boot::efi::{boot_order_line, boot_rows, parse_efibootmgr};
use sysforge::boot::esp::parse_mounts_line;
use sysforge::daemon::proc_start_time;
use sysforge::disk::blkid::parse_blkid_export;
use sysforge::disk::udev::udev_properties;
use sysforge::hw::system::{
    os_info_from_map, parse_cpuinfo, parse_meminfo_kb, parse_os_release, power_from, read_secure_boot, SupplyFiles,
};
use sysforge::net::{parse_devices, parse_wifi};

/// Real efibootmgr output (excerpt).
const EFI_FIXTURE: &str = "BootCurrent: 0000\nTimeout: 0 seconds\nBootOrder: 0000,001C,0010,0011,0013,0016,0012,0014,0015,0018,0017,0019,001A,001B\nBoot0000* Ubuntu\tHD(1,GPT,5ce4e0d9-d391-4161-ab54-980fafc5ffea,0x800,0x100000)/File(\\EFI\\ubuntu\\shimx64.efi)\nBoot0010  Setup\tFvFile(721c8b66-426c-4e86-8e99-3457c46ab0b9)\nBoot0013* Hard Drive\tVenMsg(bc7838d2-0f82-4d60-8316-c068ee79d25b,f5b01cc8ce8e9841b3a8fb94b6dfefee)\nBoot001C* WIN_INSTALL\tPciRoot(0x0)/Pci(0x1f,0x2)/Sata(1,0,0)/HD(1,GPT,5ce4e0d9-d391-4161-ab54-980fafc5ffea,0x800,0x100000)/File()\n";

#[test]
fn parses_real_efibootmgr_output() {
    let s = parse_efibootmgr(EFI_FIXTURE);
    assert_eq!(s.boot_current.as_deref(), Some("0000"));
    assert_eq!(s.timeout_secs, Some(0));
    assert_eq!(&s.boot_order[..3], &["0000", "001C", "0010"]);
    assert_eq!(s.entries.len(), 4);

    let ubuntu = s.entries.iter().find(|e| e.id == "0000").unwrap();
    assert!(ubuntu.active);
    assert_eq!(ubuntu.name, "Ubuntu");
    assert_eq!(ubuntu.loader_path.as_deref(), Some("\\EFI\\ubuntu\\shimx64.efi"));
    assert!(ubuntu.device_path.as_deref().unwrap().starts_with("HD(1,GPT,5ce4e0d9"));

    let setup = s.entries.iter().find(|e| e.id == "0010").unwrap();
    assert!(!setup.active);
    assert_eq!(setup.name, "Setup");
    assert_eq!(setup.loader_path, None);
    assert!(setup.device_path.as_deref().unwrap().starts_with("FvFile("));

    let win = s.entries.iter().find(|e| e.id == "001C").unwrap();
    assert_eq!(win.loader_path, None);
    assert!(win.device_path.is_some());
}

#[test]
fn efibootmgr_continuation_line_carries_device_path() {
    let out = "BootCurrent: 0001\nBoot0001* Debian\n      HD(2,GPT,abc)/File(\\EFI\\debian\\grubx64.efi)\n";
    let s = parse_efibootmgr(out);
    assert_eq!(s.entries.len(), 1);
    assert_eq!(s.entries[0].loader_path.as_deref(), Some("\\EFI\\debian\\grubx64.efi"));
    assert_eq!(s.timeout_secs, None);
    assert!(s.boot_order.is_empty());
}

#[test]
fn parses_proc_mounts_line() {
    let line = "/dev/sda1 /boot/efi vfat rw,relatime,fmask=0077,umask=0077 0 0";
    let e = parse_mounts_line(line).unwrap();
    assert_eq!(e.device, "/dev/sda1");
    assert_eq!(e.mount_point, "/boot/efi");
    assert_eq!(e.fs_type, "vfat");
    assert!(e.options.contains("umask=0077"));
}

#[test]
fn mounts_line_unescapes_space_and_tab() {
    let line = "/dev/sdb1 /media/u/My\\040Disk\\011x vfat rw 0 0";
    let e = parse_mounts_line(line).unwrap();
    assert_eq!(e.mount_point, "/media/u/My Disk\tx");
}

#[test]
fn short_mounts_line_is_rejected() {
    assert!(parse_mounts_line("/dev/sda1 /boot/efi").is_none());
}

#[test]
fn parses_export_format() {
    let sample = "DEVNAME=/dev/sda1\nLABEL=\"ESP\"\nUUID=\"C065-50C0\"\nVERSION=\"FAT32\"\nTYPE=\"vfat\"\nUSAGE=\"filesystem\"\n";
    let m = parse_blkid_export(sample);
    assert_eq!(m.get("TYPE").unwrap(), "vfat");
    assert_eq!(m.get("UUID").unwrap(), "C065-50C0");
    assert_eq!(m.get("DEVNAME").unwrap(), "/dev/sda1");
}

#[test]
fn parses_real_udev_entry() {
    let sample = "P:/devices/pci0000:00/0000:00:1f.2/ata1/host0/target0:0:0/0:0:0:0/block/sda\nN:sda\nL:0\nS:disk/by-id/ata-WDC_WD10SPZX-75Z10T2_WX61A79A2TDH\nE:DEVNAME=/dev/sda\nE:DEVTYPE=disk\nE:MAJOR=8\nE:MINOR=0\nE:SUBSYSTEM=block\nE:ID_PART_TABLE_TYPE=gpt\nE:ID_BUS=ata\nE:ID_MODEL=WDC_WD10SPZX-75Z10T2\nE:ID_SERIAL_SHORT=WX61A79A2TDH\nE:ID_ATA_ROTATION_RATE_RPM=5400\n";
    let props = udev_properties(sample);
    assert_eq!(props.get("ID_SERIAL_SHORT").unwrap(), "WX61A79A2TDH");
    assert_eq!(props.get("ID_PART_TABLE_TYPE").unwrap(), "gpt");
    assert!(props.get("N:sda").is_none());
}

#[test]
fn os_release_parse_mint() {
    let sample = "NAME=\"Linux Mint\"\nVERSION=\"22.3 (Zena)\"\nID=linuxmint\nID_LIKE=\"ubuntu debian\"\nPRETTY_NAME=\"Linux Mint 22.3\"\nVERSION_ID=\"22.3\"\nHOME_URL=\"https://www.linuxmint.com/\"\nVERSION_CODENAME=zena\n";
    let m = parse_os_release(sample);
    assert_eq!(m.get("ID").unwrap(), "linuxmint");
    assert_eq!(m.get("PRETTY_NAME").unwrap(), "Linux Mint 22.3");
    let os = os_info_from_map(&m);
    assert_eq!(os.id.as_deref(), Some("linuxmint"));
    assert_eq!(os.version_codename.as_deref(), Some("zena"));
}

#[test]
fn meminfo_parse() {
    let sample = "MemTotal:       16256040 kB\nMemFree:         1234560 kB\nMemAvailable:    8123456 kB\n";
    let m = parse_meminfo_kb(sample);
    assert_eq!(m.total_kb, 16256040);
    assert_eq!(m.available_kb, 8123456);
}

#[test]
fn cpuinfo_parse() {
    let sample = "processor\t: 0\nvendor_id\t: GenuineIntel\nmodel name\t: Intel(R) Core(TM) i5-4210U CPU @ 1.70GHz\nprocessor\t: 1\nmodel name\t: Intel(R) Core(TM) i5-4210U CPU @ 1.70GHz\n";
    let (cpus, model) = parse_cpuinfo(sample, Some(8));
    assert_eq!(cpus, 2);
    assert_eq!(model.unwrap(), "Intel(R) Core(TM) i5-4210U CPU @ 1.70GHz");
}

#[test]
fn cpuinfo_without_processor_lines_uses_parallelism() {
    let (cpus, model) = parse_cpuinfo("Hardware\t: BCM2835\n", Some(4));
    assert_eq!(cpus, 4);
    assert!(model.is_none());
}

#[test]
fn secure_boot_efivar_offset() {
    // 4 bytes of attributes (06 00 00 00), then the value 00: disabled.
    let info = read_secure_boot(true, Some(vec![6, 0, 0, 0, 0]));
    assert_eq!(info.enabled.is_some(), true);
    assert_eq!(info.enabled, Some(false));
    let on = read_secure_boot(true, Some(vec![6, 0, 0, 0, 1]));
    assert_eq!(on.enabled, Some(true));
    assert_eq!(read_secure_boot(true, None).enabled, None);
}

#[test]
fn parse_terse_fields() {
    let d: Vec<&str> = "wlp3s0:wifi:conectado:MinhaRede".split(':').collect();
    assert!(d.len() >= 4 && d[0] == "wlp3s0");
    let w: Vec<&str> = "sim:CasaNET:82:WPA2".split(':').collect();
    assert!(w[1] == "CasaNET" && w[2] == "82");

    let devs = parse_devices("wlp3s0:wifi:conectado:MinhaRede\n:loopback:x:y\nshort:line\n");
    assert_eq!(devs.len(), 1);
    assert_eq!(devs[0].name, "wlp3s0");
    assert_eq!(devs[0].connection, "MinhaRede");
    let nets = parse_wifi("sim:CasaNET:82:WPA2\n");
    assert_eq!(nets.len(), 1);
    assert_eq!(nets[0].ssid, "CasaNET");
    assert_eq!(nets[0].signal, 82);
    assert!(nets[0].active);
}

#[test]
fn wifi_is_sorted_strongest_first_and_stable() {
    let out = "no:A:40:WPA2\nyes:B:90:WPA2\nno:C:40:--\nno::70:hidden\nno:D:abc:WPA1\n";
    let nets = parse_wifi(out);
    let names: Vec<&str> = nets.iter().map(|n| n.ssid.as_str()).collect();
    assert_eq!(names, vec!["B", "A", "C", "D"]);
    assert_eq!(nets[3].signal, 0);
    assert!(nets[0].active && !nets[1].active);
}

#[test]
fn proc_start_time_parses_comm_with_spaces() {
    let line = "1234 (pk exec agent) S 1 1234 1234 0 -1 4194560 100 0 0 0 5 3 0 0 20 0 1 0 987654 5000000 0 0 0 0";
    let after = line.split_once(')').unwrap();
    let token = after.1.split_whitespace().nth(19).unwrap();
    assert_eq!(token, "987654");
    assert_eq!(proc_start_time(line).unwrap(), 987654);
}

#[test]
fn proc_start_time_rejects_garbage() {
    assert_eq!(proc_start_time("no parenthesis here").unwrap_err().code, "SF-AUTH-011");
}

#[test]
fn boot_table_rows_mark_current_entry_and_fall_back_to_device_path() {
    let out = "BootCurrent: 0001\nBootOrder: 0001,0002,0003\nBoot0001* Debian\tHD(2,GPT,abc)/File(\\EFI\\debian\\grubx64.efi)\nBoot0002  Setup\tFvFile(1234)\nBoot0003* Bare\n";
    let s = parse_efibootmgr(out);
    let rows = boot_rows(&s, false);
    assert_eq!(rows.len(), 3);
    assert_eq!(rows[0], vec!["▶ AQUI", "0001", "sim", "Debian", "\\EFI\\debian\\grubx64.efi"]);
    assert_eq!(rows[1], vec!["", "0002", "não", "Setup (firmware)", "FvFile(1234)"]);
    assert_eq!(rows[2], vec!["", "0003", "sim", "Bare", "—"]);
    assert_eq!(boot_order_line(&s), "0001 → 0002 → 0003");
    assert_eq!(boot_order_line(&parse_efibootmgr("")), "—");
}

fn supply(name: &str, kind: &str, capacity: Option<&str>, status: Option<&str>, online: Option<&str>) -> SupplyFiles {
    SupplyFiles {
        name: name.to_string(),
        kind: Some(kind.to_string()),
        capacity: capacity.map(|c| c.to_string()),
        status: status.map(|c| c.to_string()),
        online: online.map(|c| c.to_string()),
    }
}

#[test]
fn power_supplies_give_batteries_and_ac() {
    let p = power_from(&vec![
        supply("AC", "Mains\n", None, None, Some("1\n")),
        supply("BAT0", "Battery\n", Some("87\n"), Some("Discharging\n"), None),
        supply("ucsi-source-psy-1", "USB\n", None, None, Some("0\n")),
        supply("BAT1", "Battery\n", Some("300\n"), None, None),
    ]);
    assert_eq!(p.ac_online, Some(true));
    assert_eq!(p.batteries.len(), 2);
    assert_eq!(p.batteries[0].name, "BAT0");
    assert_eq!(p.batteries[0].capacity_pct, Some(87));
    assert_eq!(p.batteries[0].status.as_deref(), Some("Discharging"));
    assert_eq!(p.batteries[1].capacity_pct, None);
    assert_eq!(p.batteries[1].status, None);
    let desktop = power_from(&vec![supply("ADP1", "Mains", None, None, None)]);
    assert_eq!(desktop.ac_online, None);
    assert!(desktop.batteries.is_empty());
    assert_eq!(power_from(&vec![]).ac_online, None);
}
