//! The rows of the detail view.
use vstd::prelude::*;
use crate::text::{append, dec, dec_string, join2, owned};
use crate::vmx::{DiskEntry, HardwareConfig, NetworkAdapter};
use super::state::{DetailRow, DetailState, EditField};

verus! {

impl View for DetailRow {
    type V = (Seq<char>, Seq<char>, bool, Option<EditField>);

    open spec fn view(&self) -> (Seq<char>, Seq<char>, bool, Option<EditField>) {
        (self.label@, self.value@, self.editable, self.edit_field)
    }
}

/// The row of a network adapter: `网络 eth<i>` and `<type> (<mac or ->)`.
pub open spec fn net_row(a: (int, Seq<char>, Option<Seq<char>>)) -> (Seq<char>, Seq<char>, bool, Option<EditField>) {
    (
        "网络 eth"@ + dec(a.0 as nat),
        a.1 + " ("@ + match a.2 {
            Some(m) => m,
            None => "-"@,
        } + ")"@,
        false,
        None,
    )
}

/// The row of disk number `idx`: `磁盘 <controller>:<unit>` and
/// `<file> (<size>GB or 未知)`, editable when its size is known.
pub open spec fn disk_row(idx: int, d: (Seq<char>, int, Seq<char>, Option<u64>, Seq<char>)) -> (Seq<char>, Seq<char>, bool, Option<EditField>) {
    (
        "磁盘 "@ + d.0 + ":"@ + dec(d.1 as nat),
        d.2 + " ("@ + match d.3 {
            Some(gb) => dec(gb as nat) + "GB"@,
            None => "未知"@,
        } + ")"@,
        d.3 is Some,
        Some(EditField::DiskSize(idx as usize)),
    )
}

/// The rows of the detail view: CPU and memory (editable), guest OS and
/// firmware, then one row per network adapter and one per disk.
pub open spec fn detail_rows_spec(c: &HardwareConfig) -> Seq<(Seq<char>, Seq<char>, bool, Option<EditField>)> {
    seq![
        ("CPU"@, dec(c.cpu_count as nat), true, Some(EditField::CpuCount)),
        ("内存"@, dec(c.memory_mb as nat), true, Some(EditField::MemoryMb)),
        ("系统"@, c.guest_os@, false, None::<EditField>),
        ("固件"@, c.firmware@, false, None::<EditField>),
    ] + c.networks_view().map_values(|a: (int, Seq<char>, Option<Seq<char>>)| net_row(a))
        + c.disks_view().map(
        |i: int, d: (Seq<char>, int, Seq<char>, Option<u64>, Seq<char>)| disk_row(i, d),
    )
}

fn net_row_exec(a: &NetworkAdapter) -> (res: DetailRow)
    ensures
        res@ == net_row(a@),
{
    let n = dec_string(a.index as u64);
    let label = join2("网络 eth", n.as_str());
    let mut value = owned(a.connection_type.as_str());
    append(&mut value, " (");
    match &a.mac_address {
        Some(m) => append(&mut value, m.as_str()),
        None => append(&mut value, "-"),
    }
    append(&mut value, ")");
    DetailRow { label, value, editable: false, edit_field: None }
}

fn disk_row_exec(idx: usize, d: &DiskEntry) -> (res: DetailRow)
    ensures
        res@ == disk_row(idx as int, d@),
{
    let u = dec_string(d.unit as u64);
    let mut label = join2("磁盘 ", d.controller.as_str());
    append(&mut label, ":");
    append(&mut label, u.as_str());
    let mut value = owned(d.file_name.as_str());
    append(&mut value, " (");
    match d.size_gb {
        Some(gb) => {
            let g = dec_string(gb);
            append(&mut value, g.as_str());
            append(&mut value, "GB");
        },
        None => append(&mut value, "未知"),
    }
    append(&mut value, ")");
    DetailRow { label, value, editable: d.size_gb.is_some(), edit_field: Some(EditField::DiskSize(idx)) }
}

/// The rows of the detail view, as `detail_rows_spec` says.
pub fn get_detail_rows(ds: &DetailState) -> (res: Vec<DetailRow>)
    ensures
        res@.map_values(|r: DetailRow| r@) == detail_rows_spec(&ds.config),
{
    let c = &ds.config;
    let mut rows: Vec<DetailRow> = Vec::new();
    rows.push(DetailRow { label: owned("CPU"), value: dec_string(c.cpu_count as u64), editable: true, edit_field: Some(EditField::CpuCount) });
    rows.push(DetailRow { label: owned("内存"), value: dec_string(c.memory_mb as u64), editable: true, edit_field: Some(EditField::MemoryMb) });
    rows.push(DetailRow { label: owned("系统"), value: owned(c.guest_os.as_str()), editable: false, edit_field: None });
    rows.push(DetailRow { label: owned("固件"), value: owned(c.firmware.as_str()), editable: false, edit_field: None });
    let ghost head = seq![
        ("CPU"@, dec(c.cpu_count as nat), true, Some(EditField::CpuCount)),
        ("内存"@, dec(c.memory_mb as nat), true, Some(EditField::MemoryMb)),
        ("系统"@, c.guest_os@, false, None::<EditField>),
        ("固件"@, c.firmware@, false, None::<EditField>),
    ];
    let ghost nets = c.networks_view().map_values(|a: (int, Seq<char>, Option<Seq<char>>)| net_row(a));
    let ghost disks = c.disks_view().map(
        |i: int, d: (Seq<char>, int, Seq<char>, Option<u64>, Seq<char>)| disk_row(i, d),
    );
    assert(rows@.map_values(|r: DetailRow| r@) =~= head);
    let mut i: usize = 0;
    while i < c.networks.len()
        invariant
            i <= c.networks.len(),
            nets == c.networks_view().map_values(|a: (int, Seq<char>, Option<Seq<char>>)| net_row(a)),
            rows@.map_values(|r: DetailRow| r@) =~= head + nets.take(i as int),
        decreases c.networks.len() - i,
    {
        let row = net_row_exec(&c.networks[i]);
        let ghost before = rows@.map_values(|r: DetailRow| r@);
        rows.push(row);
        assert(rows@.map_values(|r: DetailRow| r@) =~= before.push(row@));
        assert(nets.take(i + 1) =~= nets.take(i as int).push(nets[i as int]));
        i = i + 1;
    }
    assert(nets.take(c.networks.len() as int) =~= nets);
    let mut k: usize = 0;
    while k < c.disks.len()
        invariant
            k <= c.disks.len(),
            nets.len() == c.networks.len(),
            disks == c.disks_view().map(
                |i: int, d: (Seq<char>, int, Seq<char>, Option<u64>, Seq<char>)| disk_row(i, d),
            ),
            rows@.map_values(|r: DetailRow| r@) =~= head + nets + disks.take(k as int),
        decreases c.disks.len() - k,
    {
        let row = disk_row_exec(k, &c.disks[k]);
        let ghost before = rows@.map_values(|r: DetailRow| r@);
        rows.push(row);
        assert(rows@.map_values(|r: DetailRow| r@) =~= before.push(row@));
        assert(disks.take(k + 1) =~= disks.take(k as int).push(disks[k as int]));
        k = k + 1;
    }
    assert(disks.take(c.disks.len() as int) =~= disks);
    rows
}

} // verus!
