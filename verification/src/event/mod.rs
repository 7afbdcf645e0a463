//! What the interface does with each key and with each outcome of the work
//! it asks for.
//!
//! The interface is a state machine: a key, or the outcome of an action
//! that the program around it performed, changes the `AppState` and names
//! the next action. Actions that need an outcome leave a `Pending` step in
//! the state, which the outcome completes.
pub mod list;
pub mod detail;
pub mod snapshot;
pub mod clone;
pub mod portfwd;
pub mod shared;
pub mod guest;
pub mod ssh;
pub mod laws;

use vstd::prelude::*;
use crate::manager::{find_vm_index, index_of_path, vms_view};
use crate::text::{byte_len, join3, owned};
use crate::ui::state::{
    AppMode, CloneInputState, CloneType, DetailState, EditState, GuestFileInputState,
    GuestFilesState, GuestLoginState, PortForwardInputState, PortForwardState,
    SharedFolderInputState, SharedFolderState, SnapshotAction, SnapshotInputState, SnapshotState,
    SshLoginState, VmListState,
};
use crate::vm::{Vm, VmState};
use crate::vmrun::{strs, VmrunError};
use self::clone::{clone_key_spec, cloned, cloned_spec, handle_clone_input_event};
use self::detail::{
    confirm_key_spec, detail_key_spec, detail_opened, detail_opened_spec, detail_reloaded,
    detail_reloaded_spec, disk_expanded, disk_expanded_spec, editing_key_spec,
    handle_confirm_event, handle_detail_event, handle_editing_event, saved, saved_spec,
    sizes_read, sizes_read_spec,
};
use self::guest::{
    guest_confirm_spec, guest_deleted, guest_deleted_spec, guest_entered, guest_entered_spec,
    guest_file_done, guest_file_done_spec, guest_files_spec, guest_input_spec, guest_logged_in,
    guest_logged_in_spec, guest_login_spec, guest_refreshed, guest_refreshed_spec,
    handle_guest_file_confirm_event, handle_guest_file_input_event, handle_guest_files_event,
    handle_guest_login_event,
};
use self::list::{
    delete_confirm_spec, handle_delete_confirm_event, handle_list_event, list_key_spec,
    operation_done, operation_done_spec, vm_deleted, vm_deleted_spec, vmrest_done,
    vmrest_done_spec,
};
use self::portfwd::{
    handle_portfwd_confirm_event, handle_portfwd_event, handle_portfwd_input_event, nat_networks,
    nat_networks_spec, portfwd_confirm_spec, portfwd_input_spec, portfwd_key_spec,
    portfwd_opened, portfwd_opened_spec, rule_added, rule_added_text, rule_deleted,
    rule_done_spec, rules_refreshed, rules_refreshed_spec,
};
use self::shared::{
    handle_shared_confirm_event, handle_shared_event, handle_shared_input_event,
    shared_added, shared_added_spec, shared_confirm_spec, shared_input_spec, shared_key_spec,
    shared_opened, shared_opened_spec, shared_removed, shared_removed_spec, shared_toggled,
    shared_toggled_spec,
};
use self::snapshot::{
    handle_snapshot_confirm_event, handle_snapshot_event, handle_snapshot_input_event,
    snapshot_confirm_spec, snapshot_created, snapshot_deleted, snapshot_done_spec,
    snapshot_input_spec, snapshot_key_spec, snapshot_reverted, snapshots_opened,
    snapshots_opened_spec, snapshots_refreshed, snapshots_refreshed_spec,
};
use self::ssh::{handle_ssh_login_event, ssh_key_spec};

verus! {

/// The time at which a message was shown.
#[verifier::external_type_specification]
#[verifier::external_body]
pub struct ExInstant(std::time::Instant);

/// The current time (`Instant::now`); nothing is claimed of its value.
#[verifier::external_body]
fn now() -> std::time::Instant {
    std::time::Instant::now()
}

/// A key the interface reacts to.
#[derive(Clone, Copy, Debug, PartialEq, Eq, Structural)]
pub enum Key {
    Char(char),
    Up,
    Down,
    Enter,
    Esc,
    Tab,
    BackTab,
    Backspace,
    /// Any other key.
    Other,
}

/// A power operation on a machine.
#[derive(Clone, Copy, Debug, PartialEq, Eq, Structural)]
pub enum VmOp {
    Start,
    Stop,
    Suspend,
    Resume,
}

/// What the interface asks the program around it to do next.
pub enum Action {
    /// Nothing.
    Idle,
    /// Leave the program.
    Quit,
    /// Run `vmrun` with these arguments; the outcome is `Reply::Output`.
    Vmrun(Vec<String>),
    /// Start the REST service; the outcome is `Reply::Done`.
    StartVmrest,
    /// Stop the REST service; the outcome is `Reply::Done`.
    StopVmrest,
    /// Read a text file; the outcome is `Reply::Text`.
    ReadFile(String),
    /// Read the capacity in GB of each of these disks; the outcome is
    /// `Reply::Sizes`.
    ReadDiskSizes(Vec<String>),
    /// Back up the configuration file at `path` and write `content` in its
    /// place; the outcome is `Reply::Done`.
    SaveVmx { path: String, content: String },
    /// Grow the disk at `path` to `size_gb`; the outcome is `Reply::Done`
    /// with the message to show.
    ExpandDisk { path: String, size_gb: u64 },
    /// Read the machine's state again into the machine list; no outcome.
    RefreshVmState(String),
}

/// The outcome of an action.
pub enum Reply {
    /// What `vmrun` printed, or why it failed.
    Output(Result<String, VmrunError>),
    /// The text read, or the message of the error.
    Text(Result<String, String>),
    /// The capacity read for each disk, in order.
    Sizes(Vec<Option<u64>>),
    /// The message of a finished operation, or of its error.
    Done(Result<String, String>),
}

/// The step that waits for an action's outcome.
pub enum Pending {
    /// The REST service is being started.
    VmrestStarted,
    /// The REST service is being stopped.
    VmrestStopped,
    /// A configuration file is being read to open the detail view.
    OpenDetail { vmx_path: String, vm_name: String },
    /// The configuration file is being read again, dropping the changes.
    ReloadDetail,
    /// The disk sizes of the detail view are being read.
    DiskSizes,
    /// A disk is being grown.
    DiskExpanded,
    /// The configuration is being saved.
    Saved,
    /// The snapshot list is being read to open the snapshot view.
    OpenSnapshots { vmx_path: String, vm_name: String },
    /// A snapshot is being created.
    SnapshotCreated { name: String },
    /// A snapshot is being deleted.
    SnapshotDeleted { name: String },
    /// A machine is being reverted to a snapshot.
    SnapshotReverted { name: String },
    /// The snapshot list is being read again (after a deletion when
    /// `after_delete`).
    SnapshotsRefreshed { after_delete: bool },
    /// A machine is being cloned.
    Cloned { name: String, clone_type: CloneType },
    /// The host networks are being listed.
    NatNetworks,
    /// The rules of a network are being read to open the rule view.
    OpenPortForward { network: String },
    /// A rule is being added.
    RuleAdded { protocol: String, host_port: u16, guest_ip: String, guest_port: u16 },
    /// A rule is being deleted.
    RuleDeleted { protocol: String, host_port: u16 },
    /// The rules are being read again (after a deletion when `after_delete`).
    RulesRefreshed { after_delete: bool },
    /// A configuration file is being read to open the shared folder view.
    OpenShared { vmx_path: String, vm_name: String },
    /// Shared folders are being switched on or off.
    SharedToggled,
    /// A shared folder is being added.
    SharedAdded { name: String, host_path: String },
    /// A shared folder is being removed.
    SharedRemoved { name: String },
    /// A power operation is running on a machine.
    Operation { op: VmOp, vmx_path: String },
    /// A machine is being deleted.
    VmDeleted { vm_name: String },
    /// The guest's root directory is being listed with new credentials.
    GuestLogin { vmx_path: String, vm_name: String, user: String, pass: String },
    /// A guest directory is being listed to enter it.
    GuestEnter { dir: String },
    /// A guest file operation is running; `message` is shown when it succeeds.
    GuestFileDone { message: String },
    /// A guest file is being deleted.
    GuestDeleted { entry: String },
    /// The guest directory is being listed again (after a deletion when
    /// `after_delete`).
    GuestRefreshed { after_delete: bool },
}

/// A request to open an SSH session.
pub struct SshExecRequest {
    pub user: String,
    pub ip: String,
    pub port: String,
}

/// The interface's whole state.
pub struct AppState {
    pub app_mode: AppMode,
    pub detail_state: Option<DetailState>,
    pub edit_state: Option<EditState>,
    pub snapshot_state: Option<SnapshotState>,
    pub snapshot_input: Option<SnapshotInputState>,
    pub snapshot_action: Option<SnapshotAction>,
    pub clone_input: Option<CloneInputState>,
    pub portfwd_state: Option<PortForwardState>,
    pub portfwd_input: Option<PortForwardInputState>,
    pub shared_state: Option<SharedFolderState>,
    pub shared_input: Option<SharedFolderInputState>,
    pub guest_state: Option<GuestFilesState>,
    pub guest_login: Option<GuestLoginState>,
    pub guest_file_input: Option<GuestFileInputState>,
    pub ssh_login: Option<SshLoginState>,
    /// An SSH session to open; the program around the interface takes it.
    pub ssh_exec: Option<SshExecRequest>,
    /// The message in the status line.
    pub message: Option<String>,
    /// When the message was shown, if it is to go away after a while.
    pub message_timer: Option<std::time::Instant>,
    /// The step waiting for the outcome of the last action.
    pub pending: Option<Pending>,
}

/// A part of the state, to say which parts an event leaves alone.
pub enum Part {
    Mode,
    Detail,
    Edit,
    Snapshot,
    SnapshotInput,
    SnapshotAction,
    CloneInput,
    PortFwd,
    PortFwdInput,
    Shared,
    SharedInput,
    Guest,
    GuestLogin,
    GuestFileInput,
    SshLogin,
    SshExec,
    Message,
    Timer,
    Pending,
}

/// `b` equals `a` in every part outside `parts`.
pub open spec fn same_except(a: AppState, b: AppState, parts: Set<Part>) -> bool {
    &&& (!parts.contains(Part::Mode) ==> b.app_mode == a.app_mode)
    &&& (!parts.contains(Part::Detail) ==> b.detail_state == a.detail_state)
    &&& (!parts.contains(Part::Edit) ==> b.edit_state == a.edit_state)
    &&& (!parts.contains(Part::Snapshot) ==> b.snapshot_state == a.snapshot_state)
    &&& (!parts.contains(Part::SnapshotInput) ==> b.snapshot_input == a.snapshot_input)
    &&& (!parts.contains(Part::SnapshotAction) ==> b.snapshot_action == a.snapshot_action)
    &&& (!parts.contains(Part::CloneInput) ==> b.clone_input == a.clone_input)
    &&& (!parts.contains(Part::PortFwd) ==> b.portfwd_state == a.portfwd_state)
    &&& (!parts.contains(Part::PortFwdInput) ==> b.portfwd_input == a.portfwd_input)
    &&& (!parts.contains(Part::Shared) ==> b.shared_state == a.shared_state)
    &&& (!parts.contains(Part::SharedInput) ==> b.shared_input == a.shared_input)
    &&& (!parts.contains(Part::Guest) ==> b.guest_state == a.guest_state)
    &&& (!parts.contains(Part::GuestLogin) ==> b.guest_login == a.guest_login)
    &&& (!parts.contains(Part::GuestFileInput) ==> b.guest_file_input == a.guest_file_input)
    &&& (!parts.contains(Part::SshLogin) ==> b.ssh_login == a.ssh_login)
    &&& (!parts.contains(Part::SshExec) ==> b.ssh_exec == a.ssh_exec)
    &&& (!parts.contains(Part::Message) ==> b.message == a.message)
    &&& (!parts.contains(Part::Timer) ==> b.message_timer == a.message_timer)
    &&& (!parts.contains(Part::Pending) ==> b.pending == a.pending)
}

/// `b` shows the message `m`, with its timer started.
pub open spec fn said(b: AppState, m: Seq<char>) -> bool {
    &&& b.message matches Some(s) && s@ == m
    &&& b.message_timer is Some
}

/// `b` is `a` showing the message `m` with its timer started, and nothing
/// else changed.
pub open spec fn only_said(a: AppState, b: AppState, m: Seq<char>) -> bool {
    &&& said(b, m)
    &&& same_except(a, b, set![Part::Message, Part::Timer])
}

/// `b` is `a` with the message cleared (its timer left as it was).
pub open spec fn cleared(a: AppState, b: AppState, parts: Set<Part>) -> bool {
    &&& b.message is None
    &&& same_except(a, b, parts.insert(Part::Message))
}

/// The action is to run `vmrun` with exactly these arguments.
pub open spec fn runs(act: Action, args: Seq<Seq<char>>) -> bool {
    act matches Action::Vmrun(v) && strs(v) == args
}

/// The action is to read the file at `path`.
pub open spec fn reads(act: Action, path: Seq<char>) -> bool {
    act matches Action::ReadFile(p) && p@ == path
}

/// The index of the first machine of `vms` with the given path, or -1.
pub open spec fn vm_index(vms: Vec<Vm>, path: Seq<char>) -> int {
    index_of_path(vms_view(vms), path, 0)
}

/// The name of the first machine with the given path; empty when none.
pub open spec fn vm_name_at(vms: Vec<Vm>, path: Seq<char>) -> Seq<char> {
    let i = vm_index(vms, path);
    if i == -1 {
        Seq::empty()
    } else {
        vms@[i].name@
    }
}

/// The state of the first machine with the given path, if any.
pub open spec fn vm_state_at(vms: Vec<Vm>, path: Seq<char>) -> Option<VmState> {
    let i = vm_index(vms, path);
    if i == -1 {
        None
    } else {
        Some(vms@[i].state)
    }
}

proof fn lemma_vm_index(vms: Vec<Vm>, path: Seq<char>)
    ensures
        vm_index(vms, path) == -1 || 0 <= vm_index(vms, path) < vms@.len(),
{
    crate::manager::lemma_index_of_path(vms_view(vms), path, 0);
}

/// The name of the first machine with the given path (empty when none).
pub(crate) fn vm_name_of(vms: &Vec<Vm>, path: &str) -> (res: String)
    ensures
        res@ == vm_name_at(*vms, path@),
{
    proof {
        lemma_vm_index(*vms, path@);
    }
    match find_vm_index(vms, path) {
        Some(i) => owned(vms[i].name.as_str()),
        None => String::new(),
    }
}

/// The state of the first machine with the given path, if any.
pub(crate) fn vm_state_of(vms: &Vec<Vm>, path: &str) -> (res: Option<VmState>)
    ensures
        res == vm_state_at(*vms, path@),
{
    proof {
        lemma_vm_index(*vms, path@);
    }
    match find_vm_index(vms, path) {
        Some(i) => Some(vms[i].state),
        None => None,
    }
}

/// `"✗ "` followed by a `vmrun` error's message, after `prefix`.
pub(crate) fn failure(prefix: &str, e: &VmrunError) -> (res: String)
    ensures
        res@ == prefix@ + e.message_spec(),
{
    let m = e.message();
    crate::text::join2(prefix, m.as_str())
}

/// `prefix`, the text, then `suffix`.
pub(crate) fn framed(prefix: &str, s: &str, suffix: &str) -> (res: String)
    ensures
        res@ == prefix@ + s@ + suffix@,
{
    join3(prefix, s, suffix)
}

/// The selection of a list that now has `len` items: it moves back by one
/// when it is past the end (and not the first row).
pub open spec fn kept_in(sel: usize, len: nat) -> usize {
    if sel >= len && sel > 0 {
        (sel - 1) as usize
    } else {
        sel
    }
}

/// When the selected item of a list is removed, the selection stays on an
/// item of the shorter list (unless that list is empty).
pub proof fn law_selection_after_removal(sel: usize, len: nat)
    requires
        sel <= len,
    ensures
        len == 0 || kept_in(sel, len) < len,
{
}

/// A text after Backspace: its last character removed, if any.
pub open spec fn backspaced(s: Seq<char>) -> Seq<char> {
    if s.len() > 0 {
        s.drop_last()
    } else {
        s
    }
}

/// A text after typing `c` into a field of at most `max` bytes: `c` is
/// added while the text is shorter than `max` bytes.
pub open spec fn typed_char(s: Seq<char>, c: char, max: usize) -> Seq<char> {
    if byte_len(s) < max {
        s.push(c)
    } else {
        s
    }
}

/// `new` is `old` with field `i` holding the text `v`.
pub open spec fn field_set(old: Seq<String>, new: Seq<String>, i: int, v: Seq<char>) -> bool {
    &&& new.len() == old.len()
    &&& new[i]@ == v
    &&& forall|j: int| 0 <= j < old.len() && j != i ==> new[j] == old[j]
}

/// A guest path in directory `dir`: `dir`, a `/` unless `dir` ends with
/// one, and `name`.
pub open spec fn in_dir(dir: Seq<char>, name: Seq<char>) -> Seq<char> {
    if dir.len() > 0 && dir.last() == '/' {
        dir + name
    } else {
        dir + "/"@ + name
    }
}

/// A guest path in a directory.
pub(crate) fn in_dir_of(dir: &str, name: &str) -> (res: String)
    ensures
        res@ == in_dir(dir@, name@),
{
    let d = crate::text::chars_of(dir);
    if d.len() > 0 && d[d.len() - 1] == '/' {
        crate::text::join2(dir, name)
    } else {
        join3(dir, "/", name)
    }
}

/// Removes the last character of field `i`.
pub(crate) fn backspace_field<const N: usize>(fields: &mut [String; N], i: usize)
    requires
        i < N,
    ensures
        field_set(old(fields)@, final(fields)@, i as int, backspaced(old(fields)@[i as int]@)),
{
    crate::text::pop_char(&mut fields[i]);
}

/// Types `c` into field `i` of at most `max` bytes.
pub(crate) fn type_into_field<const N: usize>(fields: &mut [String; N], i: usize, c: char, max: usize)
    requires
        i < N,
    ensures
        field_set(old(fields)@, final(fields)@, i as int, typed_char(old(fields)@[i as int]@, c, max)),
{
    if crate::text::byte_len_of(fields[i].as_str()) < max {
        crate::text::push_char(&mut fields[i], c);
    }
}

/// Adds `c` to field `i`.
pub(crate) fn push_field<const N: usize>(fields: &mut [String; N], i: usize, c: char)
    requires
        i < N,
    ensures
        field_set(old(fields)@, final(fields)@, i as int, old(fields)@[i as int]@.push(c)),
{
    crate::text::push_char(&mut fields[i], c);
}

/// Removes the last character of a text.
pub(crate) fn backspace(s: &mut String)
    ensures
        final(s)@ == backspaced(old(s)@),
{
    crate::text::pop_char(s);
}

/// Types `c` into a text of at most `max` bytes.
pub(crate) fn type_char(s: &mut String, c: char, max: usize)
    ensures
        final(s)@ == typed_char(old(s)@, c, max),
{
    if crate::text::byte_len_of(s.as_str()) < max {
        crate::text::push_char(s, c);
    }
}

impl AppState {
    /// The list view, with nothing open and no message.
    pub fn new() -> (res: Self)
        ensures
            res.app_mode == AppMode::List,
            res.detail_state is None,
            res.edit_state is None,
            res.snapshot_state is None,
            res.snapshot_input is None,
            res.snapshot_action is None,
            res.clone_input is None,
            res.portfwd_state is None,
            res.portfwd_input is None,
            res.shared_state is None,
            res.shared_input is None,
            res.guest_state is None,
            res.guest_login is None,
            res.guest_file_input is None,
            res.ssh_login is None,
            res.ssh_exec is None,
            res.message is None,
            res.message_timer is None,
            res.pending is None,
        res.wf(),
    {
        AppState {
            app_mode: AppMode::List,
            detail_state: None,
            edit_state: None,
            snapshot_state: None,
            snapshot_input: None,
            snapshot_action: None,
            clone_input: None,
            portfwd_state: None,
            portfwd_input: None,
            shared_state: None,
            shared_input: None,
            guest_state: None,
            guest_login: None,
            guest_file_input: None,
            ssh_login: None,
            ssh_exec: None,
            message: None,
            message_timer: None,
            pending: None,
        }
    }

    /// The state's invariant: the detail view is open while the detail view,
    /// an edit or the save dialog is shown, and each input form's field
    /// index names one of its fields.
    pub open spec fn wf(&self) -> bool {
        &&& (self.app_mode == AppMode::Detail || self.app_mode == AppMode::Editing
            || self.app_mode == AppMode::Confirm) ==> self.detail_state is Some
        &&& self.guest_login matches Some(g) ==> g.field_index < 2
        &&& self.ssh_login matches Some(s) ==> s.field_index < 2
        &&& self.shared_input matches Some(s) ==> s.field_index < 2
        &&& self.portfwd_input matches Some(p) ==> p.field_index < 5
    }

    /// Whether the state's invariant holds.
    pub fn is_well_formed(&self) -> (res: bool)
        ensures
            res == self.wf(),
    {
        let detail_ok = match self.app_mode {
            AppMode::Detail | AppMode::Editing | AppMode::Confirm => self.detail_state.is_some(),
            _ => true,
        };
        let guest_ok = match &self.guest_login {
            Some(g) => g.field_index < 2,
            None => true,
        };
        let ssh_ok = match &self.ssh_login {
            Some(s) => s.field_index < 2,
            None => true,
        };
        let shared_ok = match &self.shared_input {
            Some(s) => s.field_index < 2,
            None => true,
        };
        let portfwd_ok = match &self.portfwd_input {
            Some(p) => p.field_index < 5,
            None => true,
        };
        detail_ok && guest_ok && ssh_ok && shared_ok && portfwd_ok
    }

    /// Clears the message once more than three seconds have passed since its
    /// timer started; `elapsed_nanos` is that time in nanoseconds, when a
    /// timer runs.
    pub fn expire_message(&mut self, elapsed_nanos: Option<u128>)
        ensures
            if old(self).message_timer is Some && (elapsed_nanos matches Some(n) && n
                > 3_000_000_000) {
                &&& final(self).message is None
                &&& final(self).message_timer is None
                &&& same_except(*old(self), *final(self), set![Part::Message, Part::Timer])
            } else {
                *final(self) == *old(self)
            },
    {
        if self.message_timer.is_some() {
            match elapsed_nanos {
                Some(n) => {
                    if n > 3_000_000_000 {
                        self.message = None;
                        self.message_timer = None;
                    }
                },
                None => {},
            }
        }
    }

    /// Shows a message and starts its timer.
    pub fn set_message(&mut self, msg: String)
        ensures
            final(self).message == Some(msg),
            final(self).message_timer is Some,
            same_except(*old(self), *final(self), set![Part::Message, Part::Timer]),
    {
        self.message = Some(msg);
        self.message_timer = Some(now());
    }
}

/// What a key does in the state's mode; the list's selection changes only
/// on the list and in the machine deletion dialog.
pub open spec fn key_spec(
    a: AppState,
    b: AppState,
    key: Key,
    vms: Vec<Vm>,
    la: VmListState,
    lb: VmListState,
    vmrest_running: bool,
    act: Action,
) -> bool {
    match a.app_mode {
        AppMode::List => list_key_spec(a, b, key, vms, la, lb, vmrest_running, act),
        AppMode::DeleteConfirm => delete_confirm_spec(a, b, key, vms, la, lb, act),
        AppMode::Detail => lb == la && detail_key_spec(a, b, key, vms, act),
        AppMode::Editing => lb == la && editing_key_spec(a, b, key, act),
        AppMode::Confirm => lb == la && confirm_key_spec(a, b, key, act),
        AppMode::Snapshot => lb == la && snapshot_key_spec(a, b, key, act),
        AppMode::SnapshotInput => lb == la && snapshot_input_spec(a, b, key, act),
        AppMode::SnapshotConfirm => lb == la && snapshot_confirm_spec(a, b, key, act),
        AppMode::CloneInput => lb == la && clone_key_spec(a, b, key, act),
        AppMode::PortForward => lb == la && portfwd_key_spec(a, b, key, act),
        AppMode::PortForwardInput => lb == la && portfwd_input_spec(a, b, key, act),
        AppMode::PortForwardConfirm => lb == la && portfwd_confirm_spec(a, b, key, act),
        AppMode::SharedFolder => lb == la && shared_key_spec(a, b, key, act),
        AppMode::SharedFolderInput => lb == la && shared_input_spec(a, b, key, act),
        AppMode::SharedFolderConfirm => lb == la && shared_confirm_spec(a, b, key, act),
        AppMode::GuestLogin => lb == la && guest_login_spec(a, b, key, act),
        AppMode::GuestFiles => lb == la && guest_files_spec(a, b, key, act),
        AppMode::GuestFileInput => lb == la && guest_input_spec(a, b, key, act),
        AppMode::GuestFileConfirm => lb == la && guest_confirm_spec(a, b, key, act),
        AppMode::SshLogin => lb == la && ssh_key_spec(a, b, key, act),
    }
}

/// Hands a key to the handler of the state's mode.
pub fn handle_event(
    state: &mut AppState,
    key: Key,
    vms: &Vec<Vm>,
    list_state: &mut VmListState,
    vmrest_running: bool,
) -> (act: Action)
    requires
        old(state).wf(),
    ensures
        key_spec(
            *old(state),
            *final(state),
            key,
            *vms,
            *old(list_state),
            *final(list_state),
            vmrest_running,
            act,
        ),
        final(state).wf(),
{
    match state.app_mode {
        AppMode::List => handle_list_event(state, key, vms, list_state, vmrest_running),
        AppMode::DeleteConfirm => handle_delete_confirm_event(state, key, vms, list_state),
        AppMode::Detail => handle_detail_event(state, key, vms),
        AppMode::Editing => handle_editing_event(state, key),
        AppMode::Confirm => handle_confirm_event(state, key),
        AppMode::Snapshot => handle_snapshot_event(state, key),
        AppMode::SnapshotInput => handle_snapshot_input_event(state, key),
        AppMode::SnapshotConfirm => handle_snapshot_confirm_event(state, key),
        AppMode::CloneInput => handle_clone_input_event(state, key),
        AppMode::PortForward => handle_portfwd_event(state, key),
        AppMode::PortForwardInput => handle_portfwd_input_event(state, key),
        AppMode::PortForwardConfirm => handle_portfwd_confirm_event(state, key),
        AppMode::SharedFolder => handle_shared_event(state, key),
        AppMode::SharedFolderInput => handle_shared_input_event(state, key),
        AppMode::SharedFolderConfirm => handle_shared_confirm_event(state, key),
        AppMode::GuestLogin => handle_guest_login_event(state, key),
        AppMode::GuestFiles => handle_guest_files_event(state, key),
        AppMode::GuestFileInput => handle_guest_file_input_event(state, key),
        AppMode::GuestFileConfirm => handle_guest_file_confirm_event(state, key),
        AppMode::SshLogin => handle_ssh_login_event(state, key),
    }
}

/// `a` with no step waiting.
pub open spec fn unpended(a: AppState) -> AppState {
    AppState { pending: None, ..a }
}

/// What an outcome does: it completes the waiting step, with `a`'s step
/// taken off first; an outcome of another kind than the step waits for
/// only drops the step, and with no step waiting nothing happens.
pub open spec fn reply_spec(
    a: AppState,
    b: AppState,
    reply: Reply,
    la: VmListState,
    lb: VmListState,
    act: Action,
) -> bool {
    let a0 = unpended(a);
    match (a.pending, reply) {
        (Some(Pending::VmDeleted { vm_name }), Reply::Output(out)) => act is Idle && vm_deleted_spec(
            a0,
            b,
            vm_name@,
            out,
            la,
            lb,
        ),
        _ => lb == la && match (a.pending, reply) {
            (None, _) => b == a && act is Idle,
            (Some(Pending::VmrestStarted), Reply::Done(r)) => act is Idle && vmrest_done_spec(
                a0,
                b,
                true,
                r,
            ),
            (Some(Pending::VmrestStopped), Reply::Done(r)) => act is Idle && vmrest_done_spec(
                a0,
                b,
                false,
                r,
            ),
            (Some(Pending::OpenDetail { vmx_path, vm_name }), Reply::Text(r)) => detail_opened_spec(
                a0,
                b,
                vmx_path@,
                vm_name@,
                r,
                act,
            ),
            (Some(Pending::ReloadDetail), Reply::Text(r)) => detail_reloaded_spec(a0, b, r, act),
            (Some(Pending::DiskSizes), Reply::Sizes(sizes)) => act is Idle && sizes_read_spec(
                a0,
                b,
                sizes@,
            ),
            (Some(Pending::DiskExpanded), Reply::Done(r)) => disk_expanded_spec(a0, b, r, act),
            (Some(Pending::Saved), Reply::Done(r)) => act is Idle && saved_spec(a0, b, r),
            (Some(Pending::OpenSnapshots { vmx_path, vm_name }), Reply::Output(out)) => act is Idle
                && snapshots_opened_spec(a0, b, vmx_path@, vm_name@, out),
            (Some(Pending::SnapshotCreated { name }), Reply::Output(out)) => snapshot_done_spec(
                a0,
                b,
                out,
                "✓ 快照 \""@ + name@ + "\" 已创建"@,
                "✗ 创建快照失败: "@,
                Some(false),
                act,
            ),
            (Some(Pending::SnapshotDeleted { name }), Reply::Output(out)) => snapshot_done_spec(
                a0,
                b,
                out,
                "✓ 快照 \""@ + name@ + "\" 已删除"@,
                "✗ 删除快照失败: "@,
                Some(true),
                act,
            ),
            (Some(Pending::SnapshotReverted { name }), Reply::Output(out)) => snapshot_done_spec(
                a0,
                b,
                out,
                "✓ 已恢复到快照 \""@ + name@ + "\""@,
                "✗ 恢复快照失败: "@,
                None,
                act,
            ),
            (Some(Pending::SnapshotsRefreshed { after_delete }), Reply::Output(out)) => act is Idle
                && snapshots_refreshed_spec(a0, b, after_delete, out),
            (Some(Pending::Cloned { name, clone_type }), Reply::Output(out)) => act is Idle
                && cloned_spec(a0, b, name@, clone_type, out),
            (Some(Pending::NatNetworks), Reply::Output(out)) => nat_networks_spec(a0, b, out, act),
            (Some(Pending::OpenPortForward { network }), Reply::Output(out)) => act is Idle
                && portfwd_opened_spec(a0, b, network@, out),
            (
                Some(Pending::RuleAdded { protocol, host_port, guest_ip, guest_port }),
                Reply::Output(out),
            ) => rule_done_spec(
                a0,
                b,
                out,
                rule_added_text(protocol@, host_port, guest_ip@, guest_port),
                "✗ 添加失败: "@,
                false,
                act,
            ),
            (Some(Pending::RuleDeleted { protocol, host_port }), Reply::Output(out)) => rule_done_spec(
                a0,
                b,
                out,
                "✓ 已删除 "@ + protocol@ + " :"@ + crate::text::dec(host_port as nat),
                "✗ 删除失败: "@,
                true,
                act,
            ),
            (Some(Pending::RulesRefreshed { after_delete }), Reply::Output(out)) => act is Idle
                && rules_refreshed_spec(a0, b, after_delete, out),
            (Some(Pending::OpenShared { vmx_path, vm_name }), Reply::Text(r)) => act is Idle
                && shared_opened_spec(a0, b, vmx_path@, vm_name@, r),
            (Some(Pending::SharedToggled), Reply::Output(out)) => act is Idle && shared_toggled_spec(
                a0,
                b,
                out,
            ),
            (Some(Pending::SharedAdded { name, host_path }), Reply::Output(out)) => act is Idle
                && shared_added_spec(a0, b, name@, host_path@, out),
            (Some(Pending::SharedRemoved { name }), Reply::Output(out)) => act is Idle
                && shared_removed_spec(a0, b, name@, out),
            (Some(Pending::Operation { op, vmx_path }), Reply::Output(out)) => operation_done_spec(
                a0,
                b,
                op,
                vmx_path@,
                out,
                act,
            ),
            (Some(Pending::GuestLogin { vmx_path, vm_name, user, pass }), Reply::Output(out)) => act is Idle
                && guest_logged_in_spec(a0, b, vmx_path@, vm_name@, user@, pass@, out),
            (Some(Pending::GuestEnter { dir }), Reply::Output(out)) => act is Idle
                && guest_entered_spec(a0, b, dir@, out),
            (Some(Pending::GuestFileDone { message }), Reply::Output(out)) => guest_file_done_spec(
                a0,
                b,
                message@,
                out,
                act,
            ),
            (Some(Pending::GuestDeleted { entry }), Reply::Output(out)) => guest_deleted_spec(
                a0,
                b,
                entry@,
                out,
                act,
            ),
            (Some(Pending::GuestRefreshed { after_delete }), Reply::Output(out)) => act is Idle
                && guest_refreshed_spec(a0, b, after_delete, out),
            _ => b == a0 && act is Idle,
        },
    }
}

/// Hands an action's outcome to the step waiting for it.
pub fn handle_reply(state: &mut AppState, reply: Reply, list_state: &mut VmListState) -> (act: Action)
    requires
        old(state).wf(),
    ensures
        reply_spec(*old(state), *final(state), reply, *old(list_state), *final(list_state), act),
        final(state).wf(),
{
    let mut waiting: Option<Pending> = None;
    std::mem::swap(&mut waiting, &mut state.pending);
    let w = match waiting {
        Some(w) => w,
        None => {
            state.pending = None;
            return Action::Idle;
        },
    };
    match (w, reply) {
        (Pending::VmDeleted { vm_name }, Reply::Output(out)) => {
            vm_deleted(state, vm_name, out, list_state);
            Action::Idle
        },
        (Pending::VmrestStarted, Reply::Done(r)) => {
            vmrest_done(state, true, r);
            Action::Idle
        },
        (Pending::VmrestStopped, Reply::Done(r)) => {
            vmrest_done(state, false, r);
            Action::Idle
        },
        (Pending::OpenDetail { vmx_path, vm_name }, Reply::Text(r)) => detail_opened(
            state,
            vmx_path,
            vm_name,
            r,
        ),
        (Pending::ReloadDetail, Reply::Text(r)) => detail_reloaded(state, r),
        (Pending::DiskSizes, Reply::Sizes(sizes)) => {
            sizes_read(state, sizes);
            Action::Idle
        },
        (Pending::DiskExpanded, Reply::Done(r)) => disk_expanded(state, r),
        (Pending::Saved, Reply::Done(r)) => {
            saved(state, r);
            Action::Idle
        },
        (Pending::OpenSnapshots { vmx_path, vm_name }, Reply::Output(out)) => {
            snapshots_opened(state, vmx_path, vm_name, out);
            Action::Idle
        },
        (Pending::SnapshotCreated { name }, Reply::Output(out)) => snapshot_created(state, name, out),
        (Pending::SnapshotDeleted { name }, Reply::Output(out)) => snapshot_deleted(state, name, out),
        (Pending::SnapshotReverted { name }, Reply::Output(out)) => snapshot_reverted(
            state,
            name,
            out,
        ),
        (Pending::SnapshotsRefreshed { after_delete }, Reply::Output(out)) => {
            snapshots_refreshed(state, after_delete, out);
            Action::Idle
        },
        (Pending::Cloned { name, clone_type }, Reply::Output(out)) => {
            cloned(state, name, clone_type, out);
            Action::Idle
        },
        (Pending::NatNetworks, Reply::Output(out)) => nat_networks(state, out),
        (Pending::OpenPortForward { network }, Reply::Output(out)) => {
            portfwd_opened(state, network, out);
            Action::Idle
        },
        (Pending::RuleAdded { protocol, host_port, guest_ip, guest_port }, Reply::Output(out)) => {
            rule_added(state, protocol, host_port, guest_ip, guest_port, out)
        },
        (Pending::RuleDeleted { protocol, host_port }, Reply::Output(out)) => rule_deleted(
            state,
            protocol,
            host_port,
            out,
        ),
        (Pending::RulesRefreshed { after_delete }, Reply::Output(out)) => {
            rules_refreshed(state, after_delete, out);
            Action::Idle
        },
        (Pending::OpenShared { vmx_path, vm_name }, Reply::Text(r)) => {
            shared_opened(state, vmx_path, vm_name, r);
            Action::Idle
        },
        (Pending::SharedToggled, Reply::Output(out)) => {
            shared_toggled(state, out);
            Action::Idle
        },
        (Pending::SharedAdded { name, host_path }, Reply::Output(out)) => {
            shared_added(state, name, host_path, out);
            Action::Idle
        },
        (Pending::SharedRemoved { name }, Reply::Output(out)) => {
            shared_removed(state, name, out);
            Action::Idle
        },
        (Pending::Operation { op, vmx_path }, Reply::Output(out)) => operation_done(
            state,
            op,
            vmx_path,
            out,
        ),
        (Pending::GuestLogin { vmx_path, vm_name, user, pass }, Reply::Output(out)) => {
            guest_logged_in(state, vmx_path, vm_name, user, pass, out);
            Action::Idle
        },
        (Pending::GuestEnter { dir }, Reply::Output(out)) => {
            guest_entered(state, dir, out);
            Action::Idle
        },
        (Pending::GuestFileDone { message }, Reply::Output(out)) => guest_file_done(
            state,
            message,
            out,
        ),
        (Pending::GuestDeleted { entry }, Reply::Output(out)) => guest_deleted(state, entry, out),
        (Pending::GuestRefreshed { after_delete }, Reply::Output(out)) => {
            guest_refreshed(state, after_delete, out);
            Action::Idle
        },
        _ => Action::Idle,
    }
}

} // verus!
