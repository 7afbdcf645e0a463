//! Keys in the detail view, while a field is edited and in the save
//! dialog, and the outcomes of reading, growing and saving.
use vstd::prelude::*;
use crate::text::{
    byte_len, byte_len_of, chars_of, dec, dec_string, join2, join3, owned, parse_uint,
    parse_uint_spec, pop_char, push_char,
};
use crate::ui::detail::{detail_rows_spec, get_detail_rows};
use crate::ui::state::{AppMode, DetailState, EditField, EditState};
use crate::vm::{Vm, VmState};
use crate::vmx::hardware::{is_config_of, sizes_recorded};
use crate::vmx::{parse_spec, render_spec, HardwareConfig, VmxError, VmxFile};
use super::{
    cleared, only_said, reads, same_except, said, vm_state_at, vm_state_of, Action, AppState,
    Key, Part, Pending,
};

verus! {

/// The text an edit of field `f` starts with: the disk's size for a disk
/// (empty when unknown), otherwise the row's value.
pub open spec fn edit_init(f: EditField, value: Seq<char>, c: HardwareConfig) -> Seq<char> {
    match f {
        EditField::DiskSize(idx) => if idx < c.disks@.len() {
            match c.disks@[idx as int].size_gb {
                Some(g) => dec(g as nat),
                None => Seq::empty(),
            }
        } else {
            Seq::empty()
        },
        _ => value,
    }
}

/// `d` is `ds` with the row `r` selected.
pub open spec fn row_moved(ds: DetailState, d: DetailState, r: usize) -> bool {
    &&& d.selected_row == r
    &&& d.vmx_file == ds.vmx_file
    &&& d.config == ds.config
    &&& d.dirty == ds.dirty
    &&& d.vm_name == ds.vm_name
    &&& d.vmx_path == ds.vmx_path
}

/// What a key does in the detail view (which is open).
pub open spec fn detail_key_spec(a: AppState, b: AppState, key: Key, vms: Vec<Vm>, act: Action) -> bool {
    let ds = a.detail_state->0;
    let rows = detail_rows_spec(&ds.config);
    let stopped = vm_state_at(vms, ds.vmx_path@) == Some(VmState::Stopped);
    if key == Key::Esc || key == Key::Char('i') {
        &&& act is Idle
        &&& b.app_mode == AppMode::List
        &&& b.detail_state is None
        &&& cleared(a, b, set![Part::Mode, Part::Detail])
    } else if key == Key::Down || key == Key::Char('s') {
        &&& act is Idle
        &&& same_except(a, b, set![Part::Detail])
        &&& b.detail_state matches Some(d) && row_moved(
            ds,
            d,
            if ds.selected_row + 1 < rows.len() {
                (ds.selected_row + 1) as usize
            } else {
                ds.selected_row
            },
        )
    } else if key == Key::Up || key == Key::Char('w') {
        &&& act is Idle
        &&& same_except(a, b, set![Part::Detail])
        &&& b.detail_state matches Some(d) && row_moved(
            ds,
            d,
            if ds.selected_row > 0 {
                (ds.selected_row - 1) as usize
            } else {
                ds.selected_row
            },
        )
    } else if key == Key::Char('e') {
        &&& act is Idle
        &&& if ds.selected_row < rows.len() && rows[ds.selected_row as int].2 {
            if stopped {
                match rows[ds.selected_row as int].3 {
                    Some(f) => {
                        let init = edit_init(f, rows[ds.selected_row as int].1, ds.config);
                        &&& b.edit_state matches Some(es) && es.field == f && es.buffer@ == init
                            && es.original_value@ == init
                        &&& b.app_mode == AppMode::Editing
                        &&& cleared(a, b, set![Part::Mode, Part::Edit])
                    },
                    None => b == a,
                }
            } else {
                only_said(a, b, "✗ 虚拟机必须停止后才能编辑配置"@)
            }
        } else {
            b == a
        }
    } else if key == Key::Char('W') {
        &&& act is Idle
        &&& if ds.dirty {
            if stopped {
                b.app_mode == AppMode::Confirm && same_except(a, b, set![Part::Mode])
            } else {
                only_said(a, b, "✗ 虚拟机必须停止后才能保存配置"@)
            }
        } else {
            b == a
        }
    } else if key == Key::Char('u') {
        if ds.dirty {
            &&& reads(act, ds.vmx_path@)
            &&& b.pending matches Some(Pending::ReloadDetail)
            &&& same_except(a, b, set![Part::Pending])
        } else {
            b == a && act is Idle
        }
    } else {
        b == a && act is Idle
    }
}

/// Handles a key in the detail view.
pub fn handle_detail_event(state: &mut AppState, key: Key, vms: &Vec<Vm>) -> (act: Action)
    requires
        old(state).detail_state is Some,
    ensures
        detail_key_spec(*old(state), *final(state), key, *vms, act),
{
    let ghost a = *state;
    let rows = match &state.detail_state {
        Some(ds) => get_detail_rows(ds),
        None => Vec::new(),
    };
    let row_count = rows.len();
    proof {
        let ds = a.detail_state->0;
        assert(rows@.map_values(|r: crate::ui::state::DetailRow| r@).len() == rows@.len());
        assert(row_count == detail_rows_spec(&ds.config).len());
    }
    if key == Key::Esc || key == Key::Char('i') {
        state.app_mode = AppMode::List;
        state.detail_state = None;
        state.message = None;
        Action::Idle
    } else if key == Key::Down || key == Key::Char('s') {
        match &mut state.detail_state {
            Some(ds) => {
                if ds.selected_row < row_count && ds.selected_row + 1 < row_count {
                    ds.selected_row = ds.selected_row + 1;
                }
            },
            None => {},
        }
        Action::Idle
    } else if key == Key::Up || key == Key::Char('w') {
        match &mut state.detail_state {
            Some(ds) => {
                if ds.selected_row > 0 {
                    ds.selected_row = ds.selected_row - 1;
                }
            },
            None => {},
        }
        Action::Idle
    } else if key == Key::Char('e') {
        let mut edit: Option<EditState> = None;
        let mut refused = false;
        match &state.detail_state {
            Some(ds) => {
                if ds.selected_row < rows.len() {
                    let row = &rows[ds.selected_row];
                    proof {
                        assert(row@ == detail_rows_spec(&ds.config)[ds.selected_row as int]);
                    }
                    if row.editable {
                        if vm_state_of(vms, ds.vmx_path.as_str()) == Some(VmState::Stopped) {
                            match row.edit_field {
                                Some(f) => {
                                    let init = match f {
                                        EditField::DiskSize(idx) => {
                                            if idx < ds.config.disks.len() {
                                                match ds.config.disks[idx].size_gb {
                                                    Some(g) => dec_string(g),
                                                    None => String::new(),
                                                }
                                            } else {
                                                String::new()
                                            }
                                        },
                                        _ => owned(row.value.as_str()),
                                    };
                                    let original = owned(init.as_str());
                                    edit = Some(EditState { field: f, buffer: init, original_value: original });
                                },
                                None => {},
                            }
                        } else {
                            refused = true;
                        }
                    }
                }
            },
            None => {},
        }
        if refused {
            state.set_message(owned("✗ 虚拟机必须停止后才能编辑配置"));
        } else if edit.is_some() {
            state.edit_state = edit;
            state.app_mode = AppMode::Editing;
            state.message = None;
        }
        Action::Idle
    } else if key == Key::Char('W') {
        let mut confirm = false;
        let mut refused = false;
        match &state.detail_state {
            Some(ds) => {
                if ds.dirty {
                    if vm_state_of(vms, ds.vmx_path.as_str()) == Some(VmState::Stopped) {
                        confirm = true;
                    } else {
                        refused = true;
                    }
                }
            },
            None => {},
        }
        if confirm {
            state.app_mode = AppMode::Confirm;
        } else if refused {
            state.set_message(owned("✗ 虚拟机必须停止后才能保存配置"));
        }
        Action::Idle
    } else if key == Key::Char('u') {
        let path = match &state.detail_state {
            Some(ds) => if ds.dirty {
                Some(owned(ds.vmx_path.as_str()))
            } else {
                None
            },
            None => None,
        };
        match path {
            Some(p) => {
                state.pending = Some(Pending::ReloadDetail);
                Action::ReadFile(p)
            },
            None => Action::Idle,
        }
    } else {
        Action::Idle
    }
}

/// Whether `v` is an allowed value for field `f`: 1 to 128 CPUs, 128 to
/// 1048576 MB of memory, or a disk size above the current one (0 when
/// unknown) and at most 65536 GB.
pub open spec fn edit_valid(f: EditField, v: int, c: HardwareConfig) -> bool {
    match f {
        EditField::CpuCount => 1 <= v <= 128,
        EditField::MemoryMb => 128 <= v <= 1048576,
        EditField::DiskSize(idx) => idx < c.disks@.len() && v > match c.disks@[idx as int].size_gb {
            Some(g) => g as int,
            None => 0,
        } && v <= 65536,
    }
}

/// The hint shown with an invalid value.
pub open spec fn edit_hint(f: EditField, c: HardwareConfig) -> Seq<char> {
    match f {
        EditField::CpuCount => "CPU 数量范围: 1-128"@,
        EditField::MemoryMb => "内存范围: 128-1048576 MB"@,
        EditField::DiskSize(idx) => "磁盘只能扩容，须大于当前 "@ + dec(
            if idx < c.disks@.len() {
                match c.disks@[idx as int].size_gb {
                    Some(g) => g as nat,
                    None => 0,
                }
            } else {
                0
            },
        ) + "GB"@,
    }
}

/// The value typed: the buffer read as a decimal `u64`, 0 when it is not one.
pub open spec fn typed_value(buf: Seq<char>) -> int {
    match parse_uint_spec(buf, 10, u64::MAX as int) {
        Some(n) => n,
        None => 0,
    }
}

/// `b`'s detail view holds the configuration `f`, its settings read anew
/// and marked changed, the rest of `ds` kept.
pub open spec fn detail_changed(ds: DetailState, d: DetailState, f: VmxFile) -> bool {
    &&& d.vmx_file == f
    &&& is_config_of(d.config, f)
    &&& d.dirty
    &&& d.selected_row == ds.selected_row
    &&& d.vm_name == ds.vm_name
    &&& d.vmx_path == ds.vmx_path
}

/// The action reads the sizes of the disks of `c`, in order.
pub open spec fn reads_sizes(act: Action, c: HardwareConfig) -> bool {
    act matches Action::ReadDiskSizes(ps) && ps@.len() == c.disks@.len() && forall|i: int|
        0 <= i < ps@.len() ==> (#[trigger] ps@[i])@ == c.disks@[i].full_path@
}

/// What Enter does while a field is edited: the value typed is checked and
/// applied, or the reason it is refused shown.
pub open spec fn edit_enter_spec(a: AppState, b: AppState, act: Action) -> bool {
    &&& b.app_mode == AppMode::Detail
    &&& b.edit_state is None
    &&& match (a.edit_state, a.detail_state) {
        (Some(es), Some(ds)) => {
            let v = typed_value(es.buffer@);
            if !edit_valid(es.field, v, ds.config) {
                act is Idle && said(b, "✗ 无效值。"@ + edit_hint(es.field, ds.config))
                    && same_except(a, b, set![Part::Mode, Part::Edit, Part::Message, Part::Timer])
            } else {
                match es.field {
                    EditField::DiskSize(idx) => {
                        &&& act matches Action::ExpandDisk { path, size_gb } && path@
                            == ds.config.disks@[idx as int].full_path@ && size_gb == v
                        &&& b.pending matches Some(Pending::DiskExpanded)
                        &&& same_except(a, b, set![Part::Mode, Part::Edit, Part::Pending])
                    },
                    _ => {
                        let key = if es.field == EditField::CpuCount {
                            "numvcpus"@
                        } else {
                            "memsize"@
                        };
                        &&& b.detail_state matches Some(d) && d.vmx_file@ == crate::vmx::set_spec(
                            ds.vmx_file@,
                            key,
                            es.buffer@,
                        ) && d.vmx_file.path == ds.vmx_file.path && detail_changed(ds, d, d.vmx_file)
                            && reads_sizes(act, d.config)
                        &&& b.pending matches Some(Pending::DiskSizes)
                        &&& cleared(
                            a,
                            b,
                            set![Part::Mode, Part::Edit, Part::Detail, Part::Pending],
                        )
                    },
                }
            }
        },
        _ => act is Idle && same_except(a, b, set![Part::Mode, Part::Edit]),
    }
}

/// What a key does while a field is edited.
pub open spec fn editing_key_spec(a: AppState, b: AppState, key: Key, act: Action) -> bool {
    if key == Key::Esc {
        act is Idle && b.app_mode == AppMode::Detail && b.edit_state is None && same_except(
            a,
            b,
            set![Part::Mode, Part::Edit],
        )
    } else if key == Key::Enter {
        edit_enter_spec(a, b, act)
    } else if key == Key::Backspace {
        &&& act is Idle
        &&& same_except(a, b, set![Part::Edit])
        &&& match a.edit_state {
            Some(es) => b.edit_state matches Some(e2) && e2.field == es.field && e2.original_value
                == es.original_value && e2.buffer@ == if es.buffer@.len() > 0 {
                es.buffer@.drop_last()
            } else {
                es.buffer@
            },
            None => b.edit_state is None,
        }
    } else if key matches Key::Char(c) && '0' <= c <= '9' {
        &&& act is Idle
        &&& same_except(a, b, set![Part::Edit])
        &&& match a.edit_state {
            Some(es) => b.edit_state matches Some(e2) && e2.field == es.field && e2.original_value
                == es.original_value && e2.buffer@ == if byte_len(es.buffer@) < 7 {
                es.buffer@.push(key->0)
            } else {
                es.buffer@
            },
            None => b.edit_state is None,
        }
    } else {
        b == a && act is Idle
    }
}

/// The value typed in a buffer.
fn typed(buf: &str) -> (res: u64)
    ensures
        res as int == typed_value(buf@),
{
    let v = chars_of(buf);
    match parse_uint(&v, 10, u64::MAX) {
        Some(n) => n,
        None => 0,
    }
}

/// Handles a key while a field is edited.
pub fn handle_editing_event(state: &mut AppState, key: Key) -> (act: Action)
    ensures
        editing_key_spec(*old(state), *final(state), key, act),
{
    match key {
        Key::Esc => {
            state.edit_state = None;
            state.app_mode = AppMode::Detail;
            Action::Idle
        },
        Key::Enter => {
            let act = edit_enter(state);
            state.edit_state = None;
            state.app_mode = AppMode::Detail;
            act
        },
        Key::Backspace => {
            match &mut state.edit_state {
                Some(es) => {
                    pop_char(&mut es.buffer);
                },
                None => {},
            }
            Action::Idle
        },
        Key::Char(c) => {
            if '0' <= c && c <= '9' {
                match &mut state.edit_state {
                    Some(es) => {
                        if byte_len_of(es.buffer.as_str()) < 7 {
                            push_char(&mut es.buffer, c);
                        }
                    },
                    None => {},
                }
            }
            Action::Idle
        },
        _ => Action::Idle,
    }
}

/// Checks and applies the value typed.
fn edit_enter(state: &mut AppState) -> (act: Action)
    ensures
        match (old(state).edit_state, old(state).detail_state) {
            (Some(es), Some(ds)) => {
                let v = typed_value(es.buffer@);
                if !edit_valid(es.field, v, ds.config) {
                    act is Idle && said(*final(state), "✗ 无效值。"@ + edit_hint(es.field, ds.config))
                        && same_except(*old(state), *final(state), set![Part::Message, Part::Timer])
                } else {
                    match es.field {
                        EditField::DiskSize(idx) => {
                            &&& act matches Action::ExpandDisk { path, size_gb } && path@
                                == ds.config.disks@[idx as int].full_path@ && size_gb == v
                            &&& final(state).pending matches Some(Pending::DiskExpanded)
                            &&& same_except(*old(state), *final(state), set![Part::Pending])
                        },
                        _ => {
                            let key = if es.field == EditField::CpuCount {
                                "numvcpus"@
                            } else {
                                "memsize"@
                            };
                            &&& final(state).detail_state matches Some(d) && d.vmx_file@
                                == crate::vmx::set_spec(ds.vmx_file@, key, es.buffer@)
                                && d.vmx_file.path == ds.vmx_file.path && detail_changed(
                                ds,
                                d,
                                d.vmx_file,
                            ) && reads_sizes(act, d.config)
                            &&& final(state).pending matches Some(Pending::DiskSizes)
                            &&& cleared(
                                *old(state),
                                *final(state),
                                set![Part::Detail, Part::Pending],
                            )
                        },
                    }
                }
            },
            _ => act is Idle && *final(state) == *old(state),
        },
{
    let (field, buffer) = match &state.edit_state {
        Some(es) => (es.field, owned(es.buffer.as_str())),
        None => {
            return Action::Idle;
        },
    };
    let value = typed(buffer.as_str());
    let mut hint: Option<String> = None;
    let mut grow: Option<Action> = None;
    match &mut state.detail_state {
        Some(ds) => {
            let valid = match field {
                EditField::CpuCount => 1 <= value && value <= 128,
                EditField::MemoryMb => 128 <= value && value <= 1048576,
                EditField::DiskSize(idx) => {
                    if idx < ds.config.disks.len() {
                        let current: u64 = match ds.config.disks[idx].size_gb {
                            Some(g) => g,
                            None => 0,
                        };
                        value > current && value <= 65536
                    } else {
                        false
                    }
                },
            };
            if !valid {
                let h = match field {
                    EditField::CpuCount => owned("CPU 数量范围: 1-128"),
                    EditField::MemoryMb => owned("内存范围: 128-1048576 MB"),
                    EditField::DiskSize(idx) => {
                        let current: u64 = if idx < ds.config.disks.len() {
                            match ds.config.disks[idx].size_gb {
                                Some(g) => g,
                                None => 0,
                            }
                        } else {
                            0
                        };
                        let n = dec_string(current);
                        join3("磁盘只能扩容，须大于当前 ", n.as_str(), "GB")
                    },
                };
                hint = Some(h);
            } else {
                match field {
                    EditField::DiskSize(idx) => {
                        grow = Some(
                            Action::ExpandDisk {
                                path: owned(ds.config.disks[idx].full_path.as_str()),
                                size_gb: value,
                            },
                        );
                    },
                    _ => {
                        let key = if field == EditField::CpuCount {
                            "numvcpus"
                        } else {
                            "memsize"
                        };
                        ds.vmx_file.set(key, buffer.as_str());
                        ds.config = ds.vmx_file.hardware_config();
                        ds.dirty = true;
                    },
                }
            }
        },
        None => {
            return Action::Idle;
        },
    }
    match hint {
        Some(h) => {
            state.set_message(join2("✗ 无效值。", h.as_str()));
            return Action::Idle;
        },
        None => {},
    }
    match grow {
        Some(act) => {
            state.pending = Some(Pending::DiskExpanded);
            act
        },
        None => {
            state.message = None;
            state.pending = Some(Pending::DiskSizes);
            match &state.detail_state {
                Some(ds) => Action::ReadDiskSizes(ds.config.disk_paths()),
                None => Action::Idle,
            }
        },
    }
}

/// What a key does in the save dialog.
pub open spec fn confirm_key_spec(a: AppState, b: AppState, key: Key, act: Action) -> bool {
    if key == Key::Char('y') {
        &&& b.app_mode == AppMode::Detail
        &&& match a.detail_state {
            Some(ds) => {
                &&& act matches Action::SaveVmx { path, content } && path@ == ds.vmx_file.path@
                    && content@ == render_spec(ds.vmx_file@)
                &&& b.pending matches Some(Pending::Saved)
                &&& same_except(a, b, set![Part::Mode, Part::Pending])
            },
            None => act is Idle && same_except(a, b, set![Part::Mode]),
        }
    } else if key == Key::Char('n') || key == Key::Esc {
        act is Idle && b.app_mode == AppMode::Detail && same_except(a, b, set![Part::Mode])
    } else {
        b == a && act is Idle
    }
}

/// Handles a key in the save dialog.
pub fn handle_confirm_event(state: &mut AppState, key: Key) -> (act: Action)
    ensures
        confirm_key_spec(*old(state), *final(state), key, act),
{
    if key == Key::Char('y') {
        state.app_mode = AppMode::Detail;
        let act = match &state.detail_state {
            Some(ds) => Action::SaveVmx {
                path: owned(ds.vmx_file.path.as_str()),
                content: ds.vmx_file.to_content(),
            },
            None => {
                return Action::Idle;
            },
        };
        state.pending = Some(Pending::Saved);
        act
    } else if key == Key::Char('n') || key == Key::Esc {
        state.app_mode = AppMode::Detail;
        Action::Idle
    } else {
        Action::Idle
    }
}

/// After the configuration file was read for the detail view: the view
/// opens on it, and the disk sizes are read next; or the error is shown.
pub open spec fn detail_opened_spec(
    a: AppState,
    b: AppState,
    vmx_path: Seq<char>,
    vm_name: Seq<char>,
    r: Result<String, String>,
    act: Action,
) -> bool {
    match r {
        Ok(content) => {
            &&& b.detail_state matches Some(d) && d.vmx_file@ == parse_spec(content@)
                && d.vmx_file.path@ == vmx_path && is_config_of(d.config, d.vmx_file)
                && d.selected_row == 0 && !d.dirty && d.vm_name@ == vm_name && d.vmx_path@
                == vmx_path && reads_sizes(act, d.config)
            &&& b.app_mode == AppMode::Detail
            &&& b.pending matches Some(Pending::DiskSizes)
            &&& cleared(a, b, set![Part::Detail, Part::Mode, Part::Pending])
        },
        Err(e) => act is Idle && b.pending is None && only_said(
            a,
            b,
            "✗ 无法读取配置: "@ + VmxError::Io(e).message_spec(),
        ),
    }
}

/// Opens the detail view on the configuration read.
pub fn detail_opened(state: &mut AppState, vmx_path: String, vm_name: String, r: Result<String, String>) -> (act: Action)
    requires
        old(state).pending is None,
    ensures
        detail_opened_spec(*old(state), *final(state), vmx_path@, vm_name@, r, act),
{
    match r {
        Ok(content) => {
            let vmx_file = VmxFile::parse(owned(vmx_path.as_str()), content.as_str());
            let config = vmx_file.hardware_config();
            let paths = config.disk_paths();
            state.detail_state = Some(
                DetailState { vmx_file, config, selected_row: 0, dirty: false, vm_name, vmx_path },
            );
            state.app_mode = AppMode::Detail;
            state.message = None;
            state.pending = Some(Pending::DiskSizes);
            Action::ReadDiskSizes(paths)
        },
        Err(e) => {
            let err = VmxError::Io(e);
            let m = err.message();
            state.set_message(join2("✗ 无法读取配置: ", m.as_str()));
            Action::Idle
        },
    }
}

/// After the configuration file was read again: the changes are dropped
/// and the disk sizes read next; or the error is shown.
pub open spec fn detail_reloaded_spec(a: AppState, b: AppState, r: Result<String, String>, act: Action) -> bool {
    match a.detail_state {
        Some(ds) => match r {
            Ok(content) => {
                &&& b.detail_state matches Some(d) && d.vmx_file@ == parse_spec(content@)
                    && d.vmx_file.path@ == ds.vmx_path@ && is_config_of(d.config, d.vmx_file)
                    && !d.dirty && d.selected_row == ds.selected_row && d.vm_name == ds.vm_name
                    && d.vmx_path == ds.vmx_path && reads_sizes(act, d.config)
                &&& said(b, "✓ 已撤销所有修改"@)
                &&& b.pending matches Some(Pending::DiskSizes)
                &&& same_except(a, b, set![Part::Detail, Part::Message, Part::Timer, Part::Pending])
            },
            Err(e) => act is Idle && b.pending is None && only_said(
                a,
                b,
                "✗ 重新加载失败: "@ + VmxError::Io(e).message_spec(),
            ),
        },
        None => act is Idle && b == a,
    }
}

/// Drops the changes, from the file read again.
pub fn detail_reloaded(state: &mut AppState, r: Result<String, String>) -> (act: Action)
    requires
        old(state).pending is None,
    ensures
        detail_reloaded_spec(*old(state), *final(state), r, act),
{
    match r {
        Ok(content) => {
            let paths = match &mut state.detail_state {
                Some(ds) => {
                    let vmx_file = VmxFile::parse(owned(ds.vmx_path.as_str()), content.as_str());
                    ds.config = vmx_file.hardware_config();
                    ds.vmx_file = vmx_file;
                    ds.dirty = false;
                    ds.config.disk_paths()
                },
                None => {
                    return Action::Idle;
                },
            };
            state.set_message(owned("✓ 已撤销所有修改"));
            state.pending = Some(Pending::DiskSizes);
            Action::ReadDiskSizes(paths)
        },
        Err(e) => {
            if state.detail_state.is_none() {
                return Action::Idle;
            }
            let err = VmxError::Io(e);
            let m = err.message();
            state.set_message(join2("✗ 重新加载失败: ", m.as_str()));
            Action::Idle
        },
    }
}

/// After the disk sizes were read: the detail view records them.
pub open spec fn sizes_read_spec(a: AppState, b: AppState, sizes: Seq<Option<u64>>) -> bool {
    &&& same_except(a, b, set![Part::Detail])
    &&& match a.detail_state {
        Some(ds) => b.detail_state matches Some(d) && sizes_recorded(ds.config, d.config, sizes)
            && d.vmx_file == ds.vmx_file && d.selected_row == ds.selected_row && d.dirty == ds.dirty
            && d.vm_name == ds.vm_name && d.vmx_path == ds.vmx_path,
        None => b.detail_state is None,
    }
}

/// Records the disk sizes read.
pub fn sizes_read(state: &mut AppState, sizes: Vec<Option<u64>>)
    ensures
        sizes_read_spec(*old(state), *final(state), sizes@),
{
    match &mut state.detail_state {
        Some(ds) => {
            ds.config.set_disk_sizes(&sizes);
        },
        None => {},
    }
}

/// After a disk was grown: the message, and the settings read anew with
/// their disk sizes next; or the error.
pub open spec fn disk_expanded_spec(a: AppState, b: AppState, r: Result<String, String>, act: Action) -> bool {
    match r {
        Ok(m) => {
            &&& said(b, "✓ "@ + m@)
            &&& match a.detail_state {
                Some(ds) => {
                    &&& b.detail_state matches Some(d) && is_config_of(d.config, ds.vmx_file)
                        && d.vmx_file == ds.vmx_file && d.selected_row == ds.selected_row && d.dirty
                        == ds.dirty && d.vm_name == ds.vm_name && d.vmx_path == ds.vmx_path
                        && reads_sizes(act, d.config)
                    &&& b.pending matches Some(Pending::DiskSizes)
                    &&& same_except(a, b, set![Part::Detail, Part::Message, Part::Timer, Part::Pending])
                },
                None => act is Idle && b.pending is None && same_except(
                    a,
                    b,
                    set![Part::Message, Part::Timer],
                ),
            }
        },
        Err(e) => act is Idle && b.pending is None && only_said(a, b, "✗ "@ + e@),
    }
}

/// Completes the growth of a disk.
pub fn disk_expanded(state: &mut AppState, r: Result<String, String>) -> (act: Action)
    requires
        old(state).pending is None,
    ensures
        disk_expanded_spec(*old(state), *final(state), r, act),
{
    match r {
        Ok(m) => {
            state.set_message(join2("✓ ", m.as_str()));
            let paths = match &mut state.detail_state {
                Some(ds) => {
                    ds.config = ds.vmx_file.hardware_config();
                    ds.config.disk_paths()
                },
                None => {
                    return Action::Idle;
                },
            };
            state.pending = Some(Pending::DiskSizes);
            Action::ReadDiskSizes(paths)
        },
        Err(e) => {
            state.set_message(join2("✗ ", e.as_str()));
            Action::Idle
        },
    }
}

/// After the configuration was saved: the message, and no unsaved
/// changes; or the error.
pub open spec fn saved_spec(a: AppState, b: AppState, r: Result<String, String>) -> bool {
    match r {
        Ok(_) => {
            &&& said(b, "✓ 配置已保存"@)
            &&& same_except(a, b, set![Part::Detail, Part::Message, Part::Timer])
            &&& match a.detail_state {
                Some(ds) => b.detail_state matches Some(d) && !d.dirty && d.vmx_file == ds.vmx_file
                    && d.config == ds.config && d.selected_row == ds.selected_row && d.vm_name
                    == ds.vm_name && d.vmx_path == ds.vmx_path,
                None => b.detail_state is None,
            }
        },
        Err(e) => only_said(a, b, "✗ 保存失败: "@ + e@),
    }
}

/// Completes a save.
pub fn saved(state: &mut AppState, r: Result<String, String>)
    ensures
        saved_spec(*old(state), *final(state), r),
{
    match r {
        Ok(_) => {
            state.set_message(owned("✓ 配置已保存"));
            match &mut state.detail_state {
                Some(ds) => {
                    ds.dirty = false;
                },
                None => {},
            }
        },
        Err(e) => {
            state.set_message(join2("✗ 保存失败: ", e.as_str()));
        },
    }
}

} // verus!
