use vmctl::vmx::hardware::{read_vmdk_size_gb, vmdk_total_sectors};
use vmctl::vmx::{VmxError, VmxFile};
use vmctl::vmx::same_key;
use vmctl::vmx::write::line_round_trips;

const SAMPLE: &str = ".encoding = \"UTF-8\"\n# a comment\nnumvcpus = \"2\"\nmemsize = \"4096\"\nguestOS = \"ubuntu-64\"\nfirmware = \"efi\"\nethernet0.present = \"TRUE\"\nethernet0.connectionType = \"nat\"\nethernet0.generatedAddress = \"00:0c:29:02:5f:34\"\nnvme0:0.present = \"TRUE\"\nnvme0:0.fileName = \"disk.vmdk\"\n";

#[test]
fn parse_reads_pairs_and_keeps_other_lines() {
    let f = VmxFile::parse("/vms/Ubuntu.vmwarevm/Ubuntu.vmx".to_string(), SAMPLE);
    assert_eq!(f.get("numvcpus"), Some("2"));
    assert_eq!(f.get("memsize"), Some("4096"));
    assert_eq!(f.get(".encoding"), Some("UTF-8"));
    assert_eq!(f.get("missing"), None);
    assert_eq!(f.entries.len(), 11);
    assert_eq!(f.path, "/vms/Ubuntu.vmwarevm/Ubuntu.vmx");
}

#[test]
fn get_ignores_key_case() {
    let f = VmxFile::parse("a.vmx".to_string(), SAMPLE);
    assert_eq!(f.get("guestos"), Some("ubuntu-64"));
    assert_eq!(f.get("GUESTOS"), Some("ubuntu-64"));
    assert_eq!(f.get("GuestOS"), Some("ubuntu-64"));
}

#[test]
fn later_pair_wins() {
    let f = VmxFile::parse("a.vmx".to_string(), "numvcpus = \"2\"\nnumvcpus = \"8\"\n");
    assert_eq!(f.get("numvcpus"), Some("8"));
}

#[test]
fn parse_line_cases() {
    assert_eq!(VmxFile::parse_line("a = \"b\""), Some(("a".to_string(), "b".to_string())));
    assert_eq!(VmxFile::parse_line("  Key=value  "), Some(("key".to_string(), "value".to_string())));
    assert_eq!(VmxFile::parse_line("x = \"a=b\""), Some(("x".to_string(), "a=b".to_string())));
    assert_eq!(VmxFile::parse_line("no equals sign"), None);
    assert_eq!(VmxFile::parse_line(" = \"v\""), None);
    assert_eq!(VmxFile::parse_line("k = \""), Some(("k".to_string(), "\"".to_string())));
}

#[test]
fn set_replaces_last_pair_or_appends() {
    let mut f = VmxFile::parse("a.vmx".to_string(), SAMPLE);
    f.set("NumVCPUs", "4");
    assert_eq!(f.get("numvcpus"), Some("4"));
    assert_eq!(f.entries.len(), 11);
    f.set("newKey", "x");
    assert_eq!(f.get("newkey"), Some("x"));
    assert_eq!(f.entries.len(), 12);
    assert_eq!(f.get("memsize"), Some("4096"));
}

#[test]
fn to_content_writes_pairs_quoted_and_text_verbatim() {
    let mut f = VmxFile::parse("a.vmx".to_string(), "# head\nNumVCPUs = 2\n\nmemsize = \"1024\"\n");
    f.set("numvcpus", "6");
    assert_eq!(f.to_content(), "# head\nnumvcpus = \"6\"\n\nmemsize = \"1024\"\n");
}

#[test]
fn save_then_reload_gives_value_set() {
    let mut f = VmxFile::parse("a.vmx".to_string(), SAMPLE);
    f.set("memsize", "8192");
    let again = VmxFile::parse("a.vmx".to_string(), f.to_content().as_str());
    assert_eq!(again.get("memsize"), Some("8192"));
    assert_eq!(again.get("numvcpus"), Some("2"));
    assert_eq!(again.to_content(), f.to_content());
}

#[test]
fn hardware_config_reads_settings() {
    let f = VmxFile::parse("/vms/Ubuntu.vmwarevm/Ubuntu.vmx".to_string(), SAMPLE);
    let c = f.hardware_config();
    assert_eq!(c.cpu_count, 2);
    assert_eq!(c.memory_mb, 4096);
    assert_eq!(c.guest_os, "ubuntu-64");
    assert_eq!(c.firmware, "efi");
    assert_eq!(c.networks.len(), 1);
    assert_eq!(c.networks[0].index, 0);
    assert_eq!(c.networks[0].connection_type, "nat");
    assert_eq!(c.networks[0].mac_address, Some("00:0c:29:02:5f:34".to_string()));
    assert_eq!(c.disks.len(), 1);
    assert_eq!(c.disks[0].controller, "nvme0");
    assert_eq!(c.disks[0].unit, 0);
    assert_eq!(c.disks[0].file_name, "disk.vmdk");
    assert_eq!(c.disks[0].full_path, "/vms/Ubuntu.vmwarevm/disk.vmdk");
    assert_eq!(c.disks[0].size_gb, None);
    assert_eq!(c.disk_paths(), vec!["/vms/Ubuntu.vmwarevm/disk.vmdk".to_string()]);
}

#[test]
fn hardware_config_defaults() {
    let f = VmxFile::parse("x.vmx".to_string(), "");
    let c = f.hardware_config();
    assert_eq!(c.cpu_count, 1);
    assert_eq!(c.memory_mb, 0);
    assert_eq!(c.guest_os, "unknown");
    assert_eq!(c.firmware, "bios");
    assert!(c.networks.is_empty());
    assert!(c.disks.is_empty());
}

#[test]
fn hardware_config_skips_absent_and_non_vmdk() {
    let content = "ethernet1.present = \"FALSE\"\nethernet2.present = \"true\"\nscsi0:1.present = \"TRUE\"\nscsi0:1.fileName = \"cd.iso\"\nsata0:2.present = \"TRUE\"\nsata0:2.fileName = \"data.vmdk\"\n";
    let c = VmxFile::parse("/d/x.vmx".to_string(), content).hardware_config();
    assert_eq!(c.networks.len(), 1);
    assert_eq!(c.networks[0].index, 2);
    assert_eq!(c.networks[0].connection_type, "unknown");
    assert_eq!(c.networks[0].mac_address, None);
    assert_eq!(c.disks.len(), 1);
    assert_eq!(c.disks[0].controller, "sata0");
    assert_eq!(c.disks[0].unit, 2);
}

#[test]
fn set_disk_sizes_records_sizes_in_order() {
    let f = VmxFile::parse("/vms/Ubuntu.vmwarevm/Ubuntu.vmx".to_string(), SAMPLE);
    let mut c = f.hardware_config();
    c.set_disk_sizes(&vec![Some(40)]);
    assert_eq!(c.disks[0].size_gb, Some(40));
    c.set_disk_sizes(&vec![]);
    assert_eq!(c.disks[0].size_gb, Some(40));
}

#[test]
fn vmdk_size_from_extents() {
    let vmdk = "# Disk DescriptorFile\nversion=1\nRW 41943040 SPARSE \"disk-s001.vmdk\"\nRW 41943040 SPARSE \"disk-s002.vmdk\"\n";
    assert_eq!(vmdk_total_sectors(vmdk), Some(83886080));
    assert_eq!(read_vmdk_size_gb(vmdk), Some(40));
    assert_eq!(read_vmdk_size_gb("no extents here\n"), None);
    assert_eq!(vmdk_total_sectors("RDONLY 2048 FLAT \"a.vmdk\" 0\n"), Some(2048));
}

#[test]
fn vmx_error_messages() {
    assert_eq!(VmxError::Io("disk full".to_string()).message(), "IO 错误: disk full");
    assert_eq!(VmxError::VmNotStopped.message(), "虚拟机必须停止后才能修改配置");
    assert_eq!(VmxError::BackupFailed("denied".to_string()).message(), "备份失败: denied");
}

#[test]
fn setting_twice_keeps_one_line_with_last_value() {
    let mut f = VmxFile::parse("a.vmx".to_string(), "memsize = \"512\"\n");
    f.set("cpuid.coresPerSocket", "2");
    f.set("CPUID.CoresPerSocket", "4");
    assert_eq!(f.entries.len(), 2);
    assert_eq!(f.get("cpuid.corespersocket"), Some("4"));
    assert_eq!(f.to_content(), "memsize = \"512\"\ncpuid.corespersocket = \"4\"\n");
}

#[test]
fn saved_content_reads_back_the_same() {
    let f = VmxFile::parse("a.vmx".to_string(), SAMPLE);
    let c = f.saved_content().expect("every line reads back");
    let g = VmxFile::parse("a.vmx".to_string(), &c);
    assert_eq!(g.entries.len(), f.entries.len());
    for k in ["numvcpus", "memsize", ".encoding", "guestos", "ethernet0.generatedaddress"] {
        assert_eq!(g.get(k), f.get(k));
    }
    assert_eq!(c.lines().nth(1), Some("# a comment"));
    assert!(line_round_trips(&f.entries[1]));
    let odd = VmxFile::parse("a.vmx".to_string(), "Key = \"v\"\n");
    assert!(odd.writes_back_exactly());
    let crlf = VmxFile::parse("a.vmx".to_string(), "# note\r\n");
    assert!(crlf.writes_back_exactly());
    let mut bad = VmxFile::parse("a.vmx".to_string(), "ok = \"1\"\n");
    bad.entries.push(vmctl::vmx::VmxEntry::Other("k = v".to_string()));
    assert!(!bad.writes_back_exactly());
    assert!(bad.saved_content().is_none());
}

#[test]
fn set_and_save_gives_the_value_back() {
    let mut f = VmxFile::parse("a.vmx".to_string(), SAMPLE);
    let c = f.set_and_save("MemSize", "2048").expect("reads back");
    let g = VmxFile::parse("a.vmx".to_string(), &c);
    assert_eq!(g.get("memsize"), Some("2048"));
    assert_eq!(g.get("numvcpus"), Some("2"));
    let mut h = VmxFile::parse("a.vmx".to_string(), SAMPLE);
    assert!(h.set_and_save("bad key", "x\ny").is_none());
    assert_eq!(h.get("bad key"), Some("x\ny"));
}

#[test]
fn keys_compare_without_case() {
    assert!(same_key("GuestOS", "guestos"));
    assert!(!same_key("guestos", "guestos2"));
}

#[test]
fn ascii_file_with_crlf_writes_back_exactly() {
    let content = "MemSize = \"512\"\r\n# note\r\n\r\nno pair here\r\nGuestOS = other\r\n";
    let f = VmxFile::parse("a.vmx".to_string(), content);
    assert!(f.writes_back_exactly());
    let c = f.saved_content().expect("an ASCII file writes back");
    assert_eq!(
        c,
        "memsize = \"512\"\n# note\n\nno pair here\nguestos = \"other\"\n"
    );
    let g = VmxFile::parse("a.vmx".to_string(), &c);
    assert_eq!(g.get("MEMSIZE"), Some("512"));
    assert_eq!(g.get("guestos"), Some("other"));
    assert_eq!(g.entries.len(), f.entries.len());
}

#[test]
fn setting_one_key_leaves_the_others() {
    let mut f = VmxFile::parse("a.vmx".to_string(), SAMPLE);
    let before = f.get("numvcpus").map(|s| s.to_string());
    f.set("MEMSIZE", "4096");
    assert_eq!(f.get("memsize"), Some("4096"));
    assert_eq!(f.get("numvcpus").map(|s| s.to_string()), before);
}

#[test]
fn stray_carriage_return_does_not_write_back() {
    let f = VmxFile::parse("a.vmx".to_string(), "k = \"v\"\nlast\r");
    assert!(!f.writes_back_exactly());
    assert!(f.saved_content().is_none());
}
