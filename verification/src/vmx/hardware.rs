//! Hardware settings read from a `.vmx` file, and disk sizes read from the
//! `.vmdk` descriptors it names.
use vstd::prelude::*;
use crate::paths::{path_join, path_parent, std_path_join, std_path_parent};
use crate::text::{
    chars_of, contains, contains_sub, dec, dec_string, has_prefix, has_suffix, join2, join3,
    lemma_char_vec_deep_view, lines, lines_spec, lowercase_chars, owned, parse_uint,
    parse_uint_spec, starts_with, str_lowercase, string_of, trim, trim_chars, words, words_spec,
    ends_with,
};
use super::{get_spec, VmxError, VmxFile, VmxLine};

verus! {

/// The hardware settings of a virtual machine.
#[derive(Debug, Clone)]
pub struct HardwareConfig {
    /// Number of virtual CPUs.
    pub cpu_count: u32,
    /// Memory size in MB.
    pub memory_mb: u32,
    /// The network adapters that are present.
    pub networks: Vec<NetworkAdapter>,
    /// The virtual disks that are present.
    pub disks: Vec<DiskEntry>,
    /// The guest operating system type.
    pub guest_os: String,
    /// The firmware type (bios/efi).
    pub firmware: String,
}

/// One network adapter.
#[derive(Debug, Clone)]
pub struct NetworkAdapter {
    /// Adapter number (0, 1, 2...).
    pub index: u8,
    /// Connection type (nat, bridged, hostonly).
    pub connection_type: String,
    /// MAC address.
    pub mac_address: Option<String>,
}

/// One virtual disk.
#[derive(Debug, Clone)]
pub struct DiskEntry {
    /// Controller name (scsi0, sata0, nvme0).
    pub controller: String,
    /// Unit number on the controller.
    pub unit: u8,
    /// The `.vmdk` file name as the configuration gives it.
    pub file_name: String,
    /// Capacity in GB, when the descriptor gives it.
    pub size_gb: Option<u64>,
    /// The `.vmdk` file's full path.
    pub full_path: String,
}

/// An optional string by its view.
pub open spec fn opt_view(o: Option<String>) -> Option<Seq<char>> {
    match o {
        Some(s) => Some(s@),
        None => None,
    }
}

impl View for NetworkAdapter {
    type V = (int, Seq<char>, Option<Seq<char>>);

    open spec fn view(&self) -> (int, Seq<char>, Option<Seq<char>>) {
        (self.index as int, self.connection_type@, opt_view(self.mac_address))
    }
}

impl View for DiskEntry {
    type V = (Seq<char>, int, Seq<char>, Option<u64>, Seq<char>);

    open spec fn view(&self) -> (Seq<char>, int, Seq<char>, Option<u64>, Seq<char>) {
        (self.controller@, self.unit as int, self.file_name@, self.size_gb, self.full_path@)
    }
}

/// The value of `key`, or `default` when it is not set.
pub open spec fn setting_or(lines: Seq<VmxLine>, key: Seq<char>, default: Seq<char>) -> Seq<char> {
    match get_spec(lines, key) {
        Some(v) => v,
        None => default,
    }
}

/// The value of `key` read as a decimal number of at most `max`, or
/// `default` when it is not set or not such a number.
pub open spec fn uint_setting(lines: Seq<VmxLine>, key: Seq<char>, default: int, max: int) -> int {
    match get_spec(lines, key) {
        Some(v) => match parse_uint_spec(v, 10, max) {
            Some(n) => n,
            None => default,
        },
        None => default,
    }
}

/// Whether `key` is set to `true` (in any case).
pub open spec fn is_true(lines: Seq<VmxLine>, key: Seq<char>) -> bool {
    get_spec(lines, key) matches Some(p) && str_lowercase(p) == "true"@
}

/// The key `ethernet<i><suffix>`.
pub open spec fn eth_key(i: nat, suffix: Seq<char>) -> Seq<char> {
    "ethernet"@ + dec(i) + suffix
}

/// Adapter `i`, when it is present.
pub open spec fn net_spec(lines: Seq<VmxLine>, i: nat) -> Option<(int, Seq<char>, Option<Seq<char>>)> {
    if is_true(lines, eth_key(i, ".present"@)) {
        Some(
            (
                i as int,
                setting_or(lines, eth_key(i, ".connectiontype"@), "unknown"@),
                match get_spec(lines, eth_key(i, ".generatedaddress"@)) {
                    Some(m) => Some(m),
                    None => get_spec(lines, eth_key(i, ".address"@)),
                },
            ),
        )
    } else {
        None
    }
}

/// The present adapters among `0..n`, in order.
pub open spec fn nets_upto(lines: Seq<VmxLine>, n: nat) -> Seq<(int, Seq<char>, Option<Seq<char>>)>
    decreases n,
{
    if n == 0 {
        Seq::empty()
    } else {
        let prev = nets_upto(lines, (n - 1) as nat);
        match net_spec(lines, (n - 1) as nat) {
            Some(a) => prev.push(a),
            None => prev,
        }
    }
}

/// The adapters read among `ethernet0..n-1` are exactly the present ones,
/// in increasing order of their number. Each has its connection type
/// (`unknown` when unset), and its MAC address is the generated address
/// when one is set and otherwise the static `ethernetN.address`.
pub proof fn law_network_adapters(lines: Seq<VmxLine>, n: nat)
    ensures
        forall|p: int|
            #![trigger nets_upto(lines, n)[p]]
            0 <= p < nets_upto(lines, n).len() ==> {
                let a = nets_upto(lines, n)[p];
                let i = a.0 as nat;
                &&& 0 <= a.0 < n
                &&& is_true(lines, eth_key(i, ".present"@))
                &&& a.1 == setting_or(lines, eth_key(i, ".connectiontype"@), "unknown"@)
                &&& (get_spec(lines, eth_key(i, ".generatedaddress"@)) matches Some(m) ==> a.2
                    == Some(m))
                &&& (get_spec(lines, eth_key(i, ".generatedaddress"@)) is None ==> a.2 == get_spec(
                    lines,
                    eth_key(i, ".address"@),
                ))
            },
        forall|p: int, q: int|
            0 <= p < q < nets_upto(lines, n).len() ==> #[trigger] nets_upto(lines, n)[p].0
                < #[trigger] nets_upto(lines, n)[q].0,
        forall|i: nat|
            i < n && #[trigger] is_true(lines, eth_key(i, ".present"@)) ==> exists|p: int|
                0 <= p < nets_upto(lines, n).len() && #[trigger] nets_upto(lines, n)[p].0 == i,
    decreases n,
{
    if n > 0 {
        let m = (n - 1) as nat;
        law_network_adapters(lines, m);
        let prev = nets_upto(lines, m);
        let cur = nets_upto(lines, n);
        assert forall|p: int| 0 <= p < prev.len() implies #[trigger] cur[p] == prev[p] && prev[p].0
            < m by {}
        assert forall|i: nat| i < n && #[trigger] is_true(lines, eth_key(i, ".present"@)) implies exists|
            p: int,
        | 0 <= p < cur.len() && #[trigger] cur[p].0 == i by {
            if i < m {
                let p = choose|p: int| 0 <= p < prev.len() && #[trigger] prev[p].0 == i;
                assert(cur[p] == prev[p]);
            } else {
                assert(cur[prev.len() as int].0 == i);
            }
        }
    }
}

/// The disk controllers that are looked at, in order.
pub open spec fn controller_name(c: nat) -> Seq<char> {
    if c == 0 {
        "scsi0"@
    } else if c == 1 {
        "scsi1"@
    } else if c == 2 {
        "sata0"@
    } else if c == 3 {
        "sata1"@
    } else {
        "nvme0"@
    }
}

/// The key `<controller>:<unit><suffix>`.
pub open spec fn disk_key(c: Seq<char>, unit: nat, suffix: Seq<char>) -> Seq<char> {
    c + ":"@ + dec(unit) + suffix
}

/// The directory the `.vmx` file is in (`.` when its path has no parent).
pub open spec fn vmx_dir(path: Seq<char>) -> Seq<char> {
    match std_path_parent(path) {
        Some(p) => p,
        None => "."@,
    }
}

/// The disk at position `n` of the scan (controller `n / 4`, unit `n % 4`),
/// when it is present and names a `.vmdk` file; its size is not read here.
pub open spec fn disk_spec(lines: Seq<VmxLine>, dir: Seq<char>, n: nat) -> Option<
    (Seq<char>, int, Seq<char>, Option<u64>, Seq<char>),
> {
    let c = controller_name(n / 4);
    let u = n % 4;
    if is_true(lines, disk_key(c, u, ".present"@)) {
        match get_spec(lines, disk_key(c, u, ".filename"@)) {
            Some(f) => if has_suffix(f, ".vmdk"@) {
                Some((c, u as int, f, None, std_path_join(dir, f)))
            } else {
                None
            },
            None => None,
        }
    } else {
        None
    }
}

/// The disks found among the first `n` positions of the scan, in order.
pub open spec fn disks_upto(lines: Seq<VmxLine>, dir: Seq<char>, n: nat) -> Seq<
    (Seq<char>, int, Seq<char>, Option<u64>, Seq<char>),
>
    decreases n,
{
    if n == 0 {
        Seq::empty()
    } else {
        let prev = disks_upto(lines, dir, (n - 1) as nat);
        match disk_spec(lines, dir, (n - 1) as nat) {
            Some(d) => prev.push(d),
            None => prev,
        }
    }
}


/// The sector count an extent line of a `.vmdk` descriptor gives: a line
/// that (trimmed) starts with `RW ` or `RDONLY `, mentions `SPARSE`, `FLAT`
/// or `VMFS`, and whose second word is a decimal `u64`.
pub open spec fn extent_sectors(line: Seq<char>) -> Option<int> {
    let t = trim(line);
    if (has_prefix(t, "RW "@) || has_prefix(t, "RDONLY "@)) && (contains_sub(t, "SPARSE"@)
        || contains_sub(t, "FLAT"@) || contains_sub(t, "VMFS"@)) {
        let w = words_spec(t);
        if w.len() >= 2 {
            parse_uint_spec(w[1], 10, u64::MAX as int)
        } else {
            None
        }
    } else {
        None
    }
}

/// The sum of the sectors the extent lines among `ls` give.
pub open spec fn sectors_sum(ls: Seq<Seq<char>>) -> int
    decreases ls.len(),
{
    if ls.len() == 0 {
        0
    } else {
        sectors_sum(ls.drop_last()) + match extent_sectors(ls.last()) {
            Some(n) => n,
            None => 0,
        }
    }
}

/// The total number of sectors a `.vmdk` descriptor's extents give.
pub open spec fn vmdk_sectors(content: Seq<char>) -> int {
    sectors_sum(lines_spec(content))
}

/// The capacity in GB (rounded down) of a `.vmdk` descriptor, when it gives
/// a positive number of 512-byte sectors.
pub open spec fn vmdk_size_spec(content: Seq<char>) -> Option<int> {
    let t = vmdk_sectors(content);
    if t > 0 {
        Some(t * 512 / 1024 / 1024 / 1024)
    } else {
        None
    }
}

/// Sector sums never decrease as lines are added.
proof fn lemma_sectors_mono(ls: Seq<Seq<char>>, k: int)
    requires
        0 <= k <= ls.len(),
    ensures
        0 <= sectors_sum(ls.take(k)) <= sectors_sum(ls),
    decreases ls.len() - k,
{
    if k == ls.len() {
        assert(ls.take(k) =~= ls);
        lemma_sectors_nonneg(ls);
    } else {
        lemma_sectors_mono(ls, k + 1);
        assert(ls.take(k + 1).drop_last() =~= ls.take(k));
        assert(ls.take(k + 1).last() == ls[k]);
        lemma_extent_nonneg(ls[k]);
        lemma_sectors_nonneg(ls.take(k));
    }
}

/// Sector sums are not negative.
proof fn lemma_sectors_nonneg(ls: Seq<Seq<char>>)
    ensures
        sectors_sum(ls) >= 0,
    decreases ls.len(),
{
    if ls.len() > 0 {
        lemma_sectors_nonneg(ls.drop_last());
        lemma_extent_nonneg(ls.last());
    }
}

/// Extent lines give no negative counts.
proof fn lemma_extent_nonneg(line: Seq<char>)
    ensures
        extent_sectors(line) matches Some(n) ==> n >= 0,
{
    let w = words_spec(trim(line));
    if w.len() >= 2 {
        crate::text::lemma_parse_uint_range(w[1], 10, u64::MAX as int);
    }
}

/// The sectors an extent line gives.
fn extent_sectors_exec(line: &Vec<char>) -> (res: Option<u64>)
    ensures
        match res {
            Some(n) => extent_sectors(line@) == Some(n as int),
            None => extent_sectors(line@) is None,
        },
{
    let t = trim_chars(line);
    let rw = chars_of("RW ");
    let ro = chars_of("RDONLY ");
    let sp = chars_of("SPARSE");
    let fl = chars_of("FLAT");
    let vf = chars_of("VMFS");
    if (starts_with(&t, &rw) || starts_with(&t, &ro)) && (contains(&t, &sp) || contains(&t, &fl)
        || contains(&t, &vf)) {
        let w = words(&t);
        if w.len() >= 2 {
            proof {
                lemma_char_vec_deep_view(&w[1]);
            }
            parse_uint(&w[1], 10, u64::MAX)
        } else {
            None
        }
    } else {
        None
    }
}

/// The total sectors of a `.vmdk` descriptor, when the total fits in a `u64`.
pub fn vmdk_total_sectors(content: &str) -> (res: Option<u64>)
    ensures
        match res {
            Some(t) => t as int == vmdk_sectors(content@),
            None => vmdk_sectors(content@) > u64::MAX,
        },
{
    let cs = chars_of(content);
    let ls = lines(&cs);
    let ghost lv = ls.deep_view();
    let mut total: u64 = 0;
    let mut i: usize = 0;
    while i < ls.len()
        invariant
            i <= ls.len(),
            lv == ls.deep_view(),
            lv == lines_spec(content@),
            total as int == sectors_sum(lv.take(i as int)),
        decreases ls.len() - i,
    {
        assert(lv.take(i + 1).drop_last() =~= lv.take(i as int));
        proof {
            lemma_char_vec_deep_view(&ls[i as int]);
        }
        match extent_sectors_exec(&ls[i]) {
            Some(n) => {
                if total > u64::MAX - n {
                    proof {
                        lemma_sectors_mono(lv, i + 1);
                    }
                    return None;
                }
                total = total + n;
            },
            None => {},
        }
        i = i + 1;
    }
    assert(lv.take(ls.len() as int) =~= lv);
    Some(total)
}

/// The capacity in GB of a `.vmdk` descriptor, from its extent lines; none
/// when they give no sectors.
pub fn read_vmdk_size_gb(content: &str) -> (res: Option<u64>)
    requires
        vmdk_sectors(content@) * 512 <= u64::MAX,
    ensures
        match res {
            Some(g) => vmdk_size_spec(content@) == Some(g as int),
            None => vmdk_size_spec(content@) is None,
        },
{
    match vmdk_total_sectors(content) {
        Some(t) => {
            if t > 0 {
                Some(t * 512 / 1024 / 1024 / 1024)
            } else {
                None
            }
        },
        None => None,
    }
}

/// `c` holds the hardware settings that the configuration `f` gives, as
/// `VmxFile::hardware_config` reads them (disk sizes unknown).
pub open spec fn is_config_of(c: HardwareConfig, f: VmxFile) -> bool {
    &&& c.cpu_count as int == uint_setting(f@, "numvcpus"@, 1, u32::MAX as int)
    &&& c.memory_mb as int == uint_setting(f@, "memsize"@, 0, u32::MAX as int)
    &&& c.guest_os@ == setting_or(f@, "guestos"@, "unknown"@)
    &&& c.firmware@ == setting_or(f@, "firmware"@, "bios"@)
    &&& c.networks_view() == nets_upto(f@, 4)
    &&& c.disks_view() == disks_upto(f@, vmx_dir(f.path@), 20)
}

/// `b` is `a` with disk `i` given `sizes[i]`; disks without an entry keep
/// their size.
pub open spec fn sizes_recorded(a: HardwareConfig, b: HardwareConfig, sizes: Seq<Option<u64>>) -> bool {
    &&& b.cpu_count == a.cpu_count
    &&& b.memory_mb == a.memory_mb
    &&& b.networks == a.networks
    &&& b.guest_os == a.guest_os
    &&& b.firmware == a.firmware
    &&& b.disks@.len() == a.disks@.len()
    &&& forall|i: int|
        0 <= i < a.disks@.len() ==> {
            let d = #[trigger] b.disks@[i];
            let o = a.disks@[i];
            &&& d.controller == o.controller
            &&& d.unit == o.unit
            &&& d.file_name == o.file_name
            &&& d.full_path == o.full_path
            &&& d.size_gb == if i < sizes.len() {
                sizes[i]
            } else {
                o.size_gb
            }
        }
}

impl HardwareConfig {
    /// The adapters, by their views.
    pub open spec fn networks_view(&self) -> Seq<(int, Seq<char>, Option<Seq<char>>)> {
        self.networks@.map_values(|a: NetworkAdapter| a@)
    }

    /// The disks, by their views.
    pub open spec fn disks_view(&self) -> Seq<(Seq<char>, int, Seq<char>, Option<u64>, Seq<char>)> {
        self.disks@.map_values(|d: DiskEntry| d@)
    }

    /// The full paths of the disks, in order, for reading their sizes.
    pub fn disk_paths(&self) -> (res: Vec<String>)
        ensures
            res@.len() == self.disks@.len(),
            forall|i: int| 0 <= i < res@.len() ==> #[trigger] res@[i]@ == self.disks@[i].full_path@,
    {
        let mut res: Vec<String> = Vec::new();
        let mut i: usize = 0;
        while i < self.disks.len()
            invariant
                i <= self.disks.len(),
                res@.len() == i,
                forall|j: int| 0 <= j < i ==> #[trigger] res@[j]@ == self.disks@[j].full_path@,
            decreases self.disks.len() - i,
        {
            res.push(owned(self.disks[i].full_path.as_str()));
            i = i + 1;
        }
        res
    }

    /// Records the disk sizes read from the descriptors: disk `i` gets
    /// `sizes[i]`; disks without an entry are left as they are.
    pub fn set_disk_sizes(&mut self, sizes: &Vec<Option<u64>>)
        ensures
            sizes_recorded(*old(self), *final(self), sizes@),
    {
        let mut i: usize = 0;
        while i < self.disks.len() && i < sizes.len()
            invariant
                i <= self.disks.len(),
                i <= sizes.len(),
                self.cpu_count == old(self).cpu_count,
                self.memory_mb == old(self).memory_mb,
                self.networks == old(self).networks,
                self.guest_os == old(self).guest_os,
                self.firmware == old(self).firmware,
                self.disks@.len() == old(self).disks@.len(),
                forall|j: int|
                    0 <= j < old(self).disks@.len() ==> {
                        let d = #[trigger] self.disks@[j];
                        let o = old(self).disks@[j];
                        &&& d.controller == o.controller
                        &&& d.unit == o.unit
                        &&& d.file_name == o.file_name
                        &&& d.full_path == o.full_path
                        &&& d.size_gb == if j < i {
                            sizes@[j]
                        } else {
                            o.size_gb
                        }
                    },
            decreases self.disks.len() - i,
        {
            let size = sizes[i];
            let mut d = self.disks.remove(i);
            d.size_gb = size;
            self.disks.insert(i, d);
            i = i + 1;
        }
    }
}

/// Whether `key` is set to `true` (in any case).
fn setting_is_true(f: &VmxFile, key: &str) -> (res: bool)
    ensures
        res == is_true(f@, key@),
{
    match f.get(key) {
        Some(p) => {
            let pc = chars_of(p);
            let lower = lowercase_chars(&pc);
            let t = chars_of("true");
            crate::text::chars_eq(&lower, &t)
        },
        None => false,
    }
}

/// The value of `key`, or `default`.
fn setting_or_exec(f: &VmxFile, key: &str, default: &str) -> (res: String)
    ensures
        res@ == setting_or(f@, key@, default@),
{
    match f.get(key) {
        Some(v) => owned(v),
        None => owned(default),
    }
}

/// The value of `key` as a decimal number of at most `max`, or `default`.
fn uint_setting_exec(f: &VmxFile, key: &str, default: u64, max: u64) -> (res: u64)
    requires
        default <= max,
    ensures
        res as int == uint_setting(f@, key@, default as int, max as int),
        res <= max,
{
    match f.get(key) {
        Some(v) => {
            let vc = chars_of(v);
            match parse_uint(&vc, 10, max) {
                Some(n) => n,
                None => default,
            }
        },
        None => default,
    }
}

/// The name of controller `c` of the scan.
fn controller_name_exec(c: u8) -> (res: &'static str)
    requires
        c < 5,
    ensures
        res@ == controller_name(c as nat),
{
    if c == 0 {
        "scsi0"
    } else if c == 1 {
        "scsi1"
    } else if c == 2 {
        "sata0"
    } else if c == 3 {
        "sata1"
    } else {
        "nvme0"
    }
}

impl VmxFile {
    /// Adapter `i`, when present.
    fn network_adapter(&self, i: u8) -> (res: Option<NetworkAdapter>)
        ensures
            match res {
                Some(a) => net_spec(self@, i as nat) == Some(a@),
                None => net_spec(self@, i as nat) is None,
            },
    {
        let n = dec_string(i as u64);
        let present = join3("ethernet", n.as_str(), ".present");
        if !setting_is_true(self, present.as_str()) {
            return None;
        }
        let conn = join3("ethernet", n.as_str(), ".connectiontype");
        let gen = join3("ethernet", n.as_str(), ".generatedaddress");
        let addr = join3("ethernet", n.as_str(), ".address");
        let connection_type = setting_or_exec(self, conn.as_str(), "unknown");
        let mac_address = match self.get(gen.as_str()) {
            Some(m) => Some(owned(m)),
            None => match self.get(addr.as_str()) {
                Some(m) => Some(owned(m)),
                None => None,
            },
        };
        Some(NetworkAdapter { index: i, connection_type, mac_address })
    }

    /// The disk at position `n` of the scan, when present.
    fn disk_entry(&self, dir: &str, n: u8) -> (res: Option<DiskEntry>)
        requires
            n < 20,
        ensures
            match res {
                Some(d) => disk_spec(self@, dir@, n as nat) == Some(d@),
                None => disk_spec(self@, dir@, n as nat) is None,
            },
    {
        let c = controller_name_exec(n / 4);
        let u = n % 4;
        let us = dec_string(u as u64);
        let pk = join3(c, ":", us.as_str());
        let present = join2(pk.as_str(), ".present");
        let fk = join2(pk.as_str(), ".filename");
        assert(present@ =~= disk_key(c@, u as nat, ".present"@));
        assert(fk@ =~= disk_key(c@, u as nat, ".filename"@));
        if !setting_is_true(self, present.as_str()) {
            return None;
        }
        match self.get(fk.as_str()) {
            Some(f) => {
                let fc = chars_of(f);
                let ext = chars_of(".vmdk");
                if ends_with(&fc, &ext) {
                    Some(
                        DiskEntry {
                            controller: owned(c),
                            unit: u,
                            file_name: owned(f),
                            size_gb: None,
                            full_path: path_join(dir, f),
                        },
                    )
                } else {
                    None
                }
            },
            None => None,
        }
    }

    /// The hardware settings: CPU count (`numvcpus`, default 1), memory
    /// (`memsize`, default 0), guest OS (default `unknown`), firmware
    /// (default `bios`), the present adapters among `ethernet0..3` and the
    /// present `.vmdk` disks on units 0..3 of scsi0, scsi1, sata0, sata1 and
    /// nvme0. Disk sizes are left unknown; `set_disk_sizes` records them.
    pub fn hardware_config(&self) -> (res: HardwareConfig)
        ensures
            is_config_of(res, *self),
            res.cpu_count as int == uint_setting(self@, "numvcpus"@, 1, u32::MAX as int),
            res.memory_mb as int == uint_setting(self@, "memsize"@, 0, u32::MAX as int),
            res.guest_os@ == setting_or(self@, "guestos"@, "unknown"@),
            res.firmware@ == setting_or(self@, "firmware"@, "bios"@),
            res.networks_view() == nets_upto(self@, 4),
            res.disks_view() == disks_upto(self@, vmx_dir(self.path@), 20),
    {
        let cpu_count = uint_setting_exec(self, "numvcpus", 1, u32::MAX as u64) as u32;
        let memory_mb = uint_setting_exec(self, "memsize", 0, u32::MAX as u64) as u32;
        let guest_os = setting_or_exec(self, "guestos", "unknown");
        let firmware = setting_or_exec(self, "firmware", "bios");
        let mut networks: Vec<NetworkAdapter> = Vec::new();
        let mut i: u8 = 0;
        while i < 4
            invariant
                i <= 4,
                networks@.map_values(|a: NetworkAdapter| a@) =~= nets_upto(self@, i as nat),
            decreases 4 - i,
        {
            match self.network_adapter(i) {
                Some(a) => {
                    networks.push(a);
                },
                None => {},
            }
            i = i + 1;
        }
        let dir = match path_parent(self.path.as_str()) {
            Some(p) => p,
            None => owned("."),
        };
        let mut disks: Vec<DiskEntry> = Vec::new();
        let mut n: u8 = 0;
        while n < 20
            invariant
                n <= 20,
                dir@ == vmx_dir(self.path@),
                disks@.map_values(|d: DiskEntry| d@) =~= disks_upto(self@, dir@, n as nat),
            decreases 20 - n,
        {
            match self.disk_entry(dir.as_str(), n) {
                Some(d) => {
                    disks.push(d);
                },
                None => {},
            }
            n = n + 1;
        }
        HardwareConfig { cpu_count, memory_mb, networks, disks, guest_os, firmware }
    }
}

/// The arguments of `vmware-vdiskmanager` that grow a disk to `size_gb`.
pub fn expand_disk_args(vmdk_path: &str, size_gb: u64) -> (res: Vec<String>)
    ensures
        res@.len() == 3,
        res@[0]@ == "-x"@,
        res@[1]@ == dec(size_gb as nat) + "GB"@,
        res@[2]@ == vmdk_path@,
{
    let n = dec_string(size_gb);
    let mut v: Vec<String> = Vec::new();
    v.push(owned("-x"));
    v.push(join2(n.as_str(), "GB"));
    v.push(owned(vmdk_path));
    v
}

/// The message of a disk grown to `size_gb`.
pub fn expand_disk_message(size_gb: u64) -> (res: String)
    ensures
        res@ == "磁盘已扩容到 "@ + dec(size_gb as nat) + "GB"@,
{
    let n = dec_string(size_gb);
    join3("磁盘已扩容到 ", n.as_str(), "GB")
}

/// The error of a failed growth, from what the tool printed on standard
/// error (trimmed).
pub fn expand_disk_failure(stderr: &str) -> (res: VmxError)
    ensures
        res matches VmxError::Io(m) && m@ == "磁盘扩容失败: "@ + trim(stderr@),
{
    let t = string_of(&trim_chars(&chars_of(stderr)));
    VmxError::Io(join2("磁盘扩容失败: ", t.as_str()))
}

} // verus!
