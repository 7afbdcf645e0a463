//! The interface's modes and the state of each view.
use vstd::prelude::*;
use crate::text::owned;
use crate::vm::Vm;
use crate::vmrun::PortForwarding;
use crate::vmx::{HardwareConfig, VmxFile};

verus! {

/// Which view or dialog has the keyboard.
#[derive(Clone, Copy, Debug, PartialEq, Eq, Structural)]
pub enum AppMode {
    /// The machine list.
    List,
    /// The hardware details of a machine.
    Detail,
    /// Editing one detail field.
    Editing,
    /// Confirming that the changed configuration is saved.
    Confirm,
    /// The snapshot list.
    Snapshot,
    /// Entering a new snapshot's name.
    SnapshotInput,
    /// Confirming a snapshot deletion or revert.
    SnapshotConfirm,
    /// Entering a clone's name.
    CloneInput,
    /// The port forwarding rules.
    PortForward,
    /// Entering a new rule.
    PortForwardInput,
    /// Confirming a rule deletion.
    PortForwardConfirm,
    /// Confirming a machine deletion.
    DeleteConfirm,
    /// The shared folders.
    SharedFolder,
    /// Entering a new shared folder.
    SharedFolderInput,
    /// Confirming a shared folder removal.
    SharedFolderConfirm,
    /// The guest file browser.
    GuestFiles,
    /// Entering guest credentials.
    GuestLogin,
    /// Entering a path for a guest file operation.
    GuestFileInput,
    /// Confirming a guest file deletion.
    GuestFileConfirm,
    /// Entering SSH connection settings.
    SshLogin,
}

/// A field that can be edited in the detail view.
#[derive(Clone, Copy, Debug, PartialEq, Eq, Structural)]
pub enum EditField {
    CpuCount,
    MemoryMb,
    /// The size of disk number `n` of the configuration.
    DiskSize(usize),
}

/// The detail view: the file being edited and what it says.
pub struct DetailState {
    /// The configuration file (changed in memory until it is saved).
    pub vmx_file: VmxFile,
    /// The hardware settings the file gives.
    pub config: HardwareConfig,
    /// The selected row.
    pub selected_row: usize,
    /// Whether there are unsaved changes.
    pub dirty: bool,
    /// The machine's name.
    pub vm_name: String,
    /// The machine's `.vmx` path.
    pub vmx_path: String,
}

/// A field being edited.
pub struct EditState {
    /// The field.
    pub field: EditField,
    /// What has been typed.
    pub buffer: String,
    /// The value before editing.
    pub original_value: String,
}

/// One row of the detail view.
#[derive(Debug, Clone)]
pub struct DetailRow {
    /// Label.
    pub label: String,
    /// Shown value.
    pub value: String,
    /// Whether the row can be edited.
    pub editable: bool,
    /// The field the row edits.
    pub edit_field: Option<EditField>,
}

/// The snapshot view.
pub struct SnapshotState {
    /// Snapshot names.
    pub snapshots: Vec<String>,
    /// Selected index.
    pub selected: usize,
    /// The machine's name.
    pub vm_name: String,
    /// The machine's `.vmx` path.
    pub vmx_path: String,
}

/// A snapshot name being entered.
pub struct SnapshotInputState {
    /// What has been typed.
    pub buffer: String,
}

/// The snapshot operation awaiting confirmation.
#[derive(Debug, Clone)]
pub enum SnapshotAction {
    /// Delete the named snapshot.
    Delete(String),
    /// Revert to the named snapshot.
    Revert(String),
}

/// A clone being set up.
pub struct CloneInputState {
    /// The new machine's name, as typed.
    pub buffer: String,
    /// The source machine's `.vmx` path.
    pub source_vmx: String,
    /// The source machine's name.
    pub source_name: String,
    /// Full or linked.
    pub clone_type: CloneType,
}

/// The kind of clone.
#[derive(Clone, Copy, Debug, PartialEq, Eq, Structural)]
pub enum CloneType {
    Full,
    Linked,
}

impl CloneType {
    /// The name `vmrun clone` takes.
    pub fn as_str(&self) -> (res: &'static str)
        ensures
            res@ == match self {
                CloneType::Full => "full"@,
                CloneType::Linked => "linked"@,
            },
    {
        match self {
            CloneType::Full => "full",
            CloneType::Linked => "linked",
        }
    }

    /// The name shown.
    pub fn display_name(&self) -> (res: &'static str)
        ensures
            res@ == match self {
                CloneType::Full => "完整克隆"@,
                CloneType::Linked => "链接克隆"@,
            },
    {
        match self {
            CloneType::Full => "完整克隆",
            CloneType::Linked => "链接克隆",
        }
    }
}

/// The port forwarding view.
pub struct PortForwardState {
    /// The NAT network (such as vmnet8).
    pub network: String,
    /// Its rules.
    pub rules: Vec<PortForwarding>,
    /// Selected index.
    pub selected: usize,
}

/// A new rule being entered.
pub struct PortForwardInputState {
    /// The field being typed: 0 protocol, 1 host port, 2 guest IP, 3 guest
    /// port, 4 description.
    pub field_index: usize,
    /// The fields' text.
    pub fields: [String; 5],
}

impl PortForwardInputState {
    /// An empty form, protocol `tcp`, on the first field.
    pub fn new() -> (res: Self)
        ensures
            res.field_index == 0,
            res.fields@[0]@ == "tcp"@,
            forall|i: int| 1 <= i < 5 ==> (#[trigger] res.fields@[i])@ == Seq::<char>::empty(),
    {
        Self {
            field_index: 0,
            fields: [owned("tcp"), String::new(), String::new(), String::new(), String::new()],
        }
    }

    /// The label of field `index` (empty past the last field).
    pub fn field_label(&self, index: usize) -> (res: &'static str)
        ensures
            res@ == if index == 0 {
                "协议 (tcp/udp)"@
            } else if index == 1 {
                "宿主端口"@
            } else if index == 2 {
                "客户 IP"@
            } else if index == 3 {
                "客户端口"@
            } else if index == 4 {
                "描述"@
            } else {
                ""@
            },
    {
        if index == 0 {
            "协议 (tcp/udp)"
        } else if index == 1 {
            "宿主端口"
        } else if index == 2 {
            "客户 IP"
        } else if index == 3 {
            "客户端口"
        } else if index == 4 {
            "描述"
        } else {
            ""
        }
    }

    /// The field being typed.
    pub fn current_field(&self) -> (res: &String)
        requires
            self.field_index < 5,
        ensures
            *res == self.fields@[self.field_index as int],
    {
        &self.fields[self.field_index]
    }

    /// The field being typed, to change it.
    pub fn current_field_mut(&mut self) -> (res: &mut String)
        requires
            old(self).field_index < 5,
        ensures
            *res == old(self).fields@[old(self).field_index as int],
            final(self).field_index == old(self).field_index,
            final(self).fields@ == old(self).fields@.update(old(self).field_index as int, *final(res)),
    {
        &mut self.fields[self.field_index]
    }
}

/// The shared folder view.
pub struct SharedFolderState {
    /// The machine's name.
    pub vm_name: String,
    /// The machine's `.vmx` path.
    pub vmx_path: String,
    /// The shared folders.
    pub folders: Vec<SharedFolderEntry>,
    /// Selected index.
    pub selected: usize,
    /// Whether shared folders are enabled.
    pub enabled: bool,
}

/// One shared folder.
#[derive(Debug, Clone)]
pub struct SharedFolderEntry {
    /// The name the guest sees.
    pub name: String,
    /// The host directory.
    pub host_path: String,
    /// Whether the guest may write.
    pub writable: bool,
}

impl View for SharedFolderEntry {
    type V = (Seq<char>, Seq<char>, bool);

    open spec fn view(&self) -> (Seq<char>, Seq<char>, bool) {
        (self.name@, self.host_path@, self.writable)
    }
}

/// A new shared folder being entered.
pub struct SharedFolderInputState {
    /// The field being typed: 0 name, 1 host path.
    pub field_index: usize,
    /// The fields' text.
    pub fields: [String; 2],
}

impl SharedFolderInputState {
    /// An empty form on the first field.
    pub fn new() -> (res: Self)
        ensures
            res.field_index == 0,
            res.fields@[0]@ == Seq::<char>::empty(),
            res.fields@[1]@ == Seq::<char>::empty(),
    {
        Self { field_index: 0, fields: [String::new(), String::new()] }
    }

    /// The label of field `index` (empty past the last field).
    pub fn field_label(&self, index: usize) -> (res: &'static str)
        ensures
            res@ == if index == 0 {
                "共享名称"@
            } else if index == 1 {
                "宿主路径"@
            } else {
                ""@
            },
    {
        if index == 0 {
            "共享名称"
        } else if index == 1 {
            "宿主路径"
        } else {
            ""
        }
    }
}

/// The guest file browser.
pub struct GuestFilesState {
    /// The machine's `.vmx` path.
    pub vmx_path: String,
    /// The machine's name.
    pub vm_name: String,
    /// Guest user.
    pub user: String,
    /// Guest password.
    pub pass: String,
    /// The directory shown.
    pub current_dir: String,
    /// Its entries.
    pub entries: Vec<String>,
    /// Selected index.
    pub selected: usize,
}

/// Guest credentials being entered.
pub struct GuestLoginState {
    /// The field being typed: 0 user, 1 password.
    pub field_index: usize,
    /// The fields' text.
    pub fields: [String; 2],
    /// The machine's `.vmx` path.
    pub vmx_path: String,
    /// The machine's name.
    pub vm_name: String,
}

/// A path being entered for a guest file operation.
pub struct GuestFileInputState {
    /// The operation.
    pub action: GuestFileAction,
    /// What has been typed.
    pub buffer: String,
}

/// A guest file operation.
#[derive(Debug, Clone)]
pub enum GuestFileAction {
    /// Upload: the host file's path is typed.
    Upload,
    /// Download the given guest file: the host path to save to is typed.
    Download(String),
    /// Make a directory: its name is typed.
    Mkdir,
}

/// SSH settings being entered.
pub struct SshLoginState {
    /// The field being typed: 0 user, 1 port.
    pub field_index: usize,
    /// The fields' text.
    pub fields: [String; 2],
    /// The guest's IP address.
    pub ip: String,
    /// The machine's name.
    pub vm_name: String,
}

/// The machine list's selection: the selected row and the selected
/// machine's `.vmx` path.
pub struct VmListState {
    /// The selected row.
    pub selected: Option<usize>,
    /// The selected machine's `.vmx` path.
    pub selected_vmx: Option<String>,
}

impl VmListState {
    /// Nothing selected.
    pub fn new() -> (res: Self)
        ensures
            res.selected is None,
            res.selected_vmx is None,
    {
        VmListState { selected: None, selected_vmx: None }
    }

    /// Selects row `index` (and, when it is a row of `vms`, that machine's
    /// path; otherwise the path stays), or clears the selection.
    pub fn with_selection(&mut self, vms: &Vec<Vm>, index: Option<usize>)
        ensures
            final(self).selected == index,
            match index {
                Some(i) => if i < vms@.len() {
                    final(self).selected_vmx matches Some(p) && p@ == vms@[i as int].vmx_path@
                } else {
                    final(self).selected_vmx == old(self).selected_vmx
                },
                None => final(self).selected_vmx is None,
            },
    {
        match index {
            Some(i) => {
                self.selected = Some(i);
                if i < vms.len() {
                    self.selected_vmx = Some(owned(vms[i].vmx_path.as_str()));
                }
            },
            None => {
                self.selected = None;
                self.selected_vmx = None;
            },
        }
    }
}

} // verus!
