//! Taking in a fresh device or backup scan while keeping the user's place: the row the
//! cursor was on stays selected when it is still listed, and targets that vanished are
//! dropped.

use vstd::prelude::*;
use crate::provision::{ProvisionStage, ProvisionState};
use crate::state::{
    disk_position, path_position, selectable_path, spec_count_for, spec_disk_position,
    spec_distinct_paths, spec_has_disk, spec_hits_for, spec_path_position,
    spec_retain_selectable, spec_selectable_path, spec_usable_positions, spec_value_position,
    value_position, AppState, BackupItem, DeviceRow, Workspace,
};

verus! {

/// Where the cursor lands after a rescan: on the row at source position `source` (as
/// its place among the matches while a filter is active), else on the first row.
pub open spec fn spec_reselect(source: Option<usize>, filter_active: bool, matches: Seq<usize>) -> usize {
    match source {
        None => 0,
        Some(i) => if filter_active {
            match spec_value_position(matches, i) {
                Some(q) => q,
                None => 0,
            }
        } else {
            i
        },
    }
}

/// `new` is `old` after a device rescan returned `devices`: a pinned or targeted disk
/// that is gone is dropped (sending Provision back to its disk list), the device list
/// filter is rebuilt, and the device the cursor was on stays selected.
pub open spec fn spec_devices_replaced(old: AppState, new: AppState, devices: Seq<DeviceRow>) -> bool {
    let sel_disk: Option<u32> = if old.workspace == Workspace::Devices {
        match old.spec_selected_device() {
            Some(row) => Some(row.disk),
            None => None,
        }
    } else {
        None
    };
    let pinned = match old.pinned_disk {
        Some(d) => if spec_has_disk(devices, d) {
            Some(d)
        } else {
            None
        },
        None => None,
    };
    let target = match old.provision.target_disk {
        Some(d) => if spec_has_disk(devices, d) {
            Some(d)
        } else {
            None
        },
        None => None,
    };
    let base = AppState {
        devices: new.devices,
        pinned_disk: pinned,
        provision: ProvisionState { target_disk: target, ..old.provision },
        device_scan_pending: false,
        ..old
    };
    &&& new.devices@ == devices
    &&& match old.workspace {
        Workspace::Provision => {
            let count = spec_usable_positions(devices).len();
            let to_list = pinned is None || base.spec_selected_device() is None;
            if to_list {
                &&& new == (AppState {
                    pinned_disk: None,
                    provision: ProvisionState { stage: ProvisionStage::SelectDisk, ..base.provision },
                    item_count: new.item_count,
                    selected: new.selected,
                    ..base
                })
                &&& new.item_count == count
                &&& new.selected == crate::state::spec_clamp_selection(old.selected, count as usize)
            } else {
                new == base
            }
        },
        Workspace::Devices => {
            &&& new == (AppState {
                selected: new.selected,
                item_count: new.item_count,
                search_matches: new.search_matches,
                search_cursor: new.search_cursor,
                ..base
            })
            &&& new.search_matches@ == spec_hits_for(
                Workspace::Devices,
                devices,
                old.backups@,
                old.spec_active_query(),
            )
            &&& new.item_count == spec_count_for(
                Workspace::Devices,
                devices,
                old.backups@,
                old.spec_active_query(),
            )
            &&& new.search_cursor == 0
            &&& new.selected == spec_reselect(
                match sel_disk {
                    Some(d) => spec_disk_position(devices, d),
                    None => None,
                },
                old.spec_filter_active(),
                new.search_matches@,
            )
        },
        Workspace::Backups => new == base,
    }
}

/// `new` is `old` after a backup rescan returned `backups`: the batch selection keeps
/// only paths that still name a backup with a content digest, the backup list filter is
/// rebuilt, and the backup the cursor was on stays selected.
pub open spec fn spec_backups_replaced(old: AppState, new: AppState, backups: Seq<BackupItem>) -> bool {
    let sel_path: Option<Seq<char>> = match old.spec_selected_backup() {
        Some(row) => Some(row.path@),
        None => None,
    };
    let base = AppState {
        backups: new.backups,
        backup_selection: new.backup_selection,
        backup_scan_pending: false,
        ..old
    };
    &&& new.backups@ == backups
    &&& new.backup_selection@ == spec_retain_selectable(old.backup_selection@, backups)
    &&& old.workspace != Workspace::Backups ==> new == base
    &&& old.workspace == Workspace::Backups ==> {
        &&& new == (AppState {
            selected: new.selected,
            item_count: new.item_count,
            search_matches: new.search_matches,
            search_cursor: new.search_cursor,
            ..base
        })
        &&& new.search_matches@ == spec_hits_for(
            Workspace::Backups,
            old.devices@,
            backups,
            old.spec_active_query(),
        )
        &&& new.item_count == spec_count_for(
            Workspace::Backups,
            old.devices@,
            backups,
            old.spec_active_query(),
        )
        &&& new.search_cursor == 0
        &&& new.selected == spec_reselect(
            match sel_path {
                Some(p) => spec_path_position(backups, p),
                None => None,
            },
            old.spec_filter_active(),
            new.search_matches@,
        )
    }
}

/// Whether `disk` is among `rows`.
fn has_disk(rows: &Vec<DeviceRow>, disk: u32) -> (r: bool)
    ensures
        r == spec_has_disk(rows@, disk),
{
    disk_position(rows, disk).is_some()
}

/// The paths of `selection` that still name a backup with a digest among `rows`.
fn retain_selectable(selection: &Vec<String>, rows: &Vec<BackupItem>) -> (r: Vec<String>)
    requires
        spec_distinct_paths(selection@),
    ensures
        r@ == spec_retain_selectable(selection@, rows@),
        spec_distinct_paths(r@),
{
    let mut kept: Vec<String> = Vec::new();
    let mut i: usize = 0;
    while i < selection.len()
        invariant
            i <= selection.len(),
            spec_distinct_paths(selection@),
            kept@ == spec_retain_selectable(selection@.take(i as int), rows@),
            spec_distinct_paths(kept@),
            forall|k: int|
                0 <= k < kept@.len() ==> exists|j: int|
                    0 <= j < i && (#[trigger] kept@[k])@ == selection@[j]@,
        decreases selection.len() - i,
    {
        proof {
            assert(selection@.take(i + 1).drop_last() =~= selection@.take(i as int));
        }
        if selectable_path(rows, &selection[i]) {
            let path = selection[i].clone();
            proof {
                assert forall|k: int| 0 <= k < kept@.len() implies (#[trigger] kept@[k])@ != path@ by {
                    let j = choose|j: int| 0 <= j < i && kept@[k]@ == selection@[j]@;
                    assert(selection@[j]@ != selection@[i as int]@);
                }
            }
            kept.push(path);
            proof {
                assert forall|a: int, b: int| 0 <= a < b < kept@.len() implies (#[trigger] kept@[a])@
                    != (#[trigger] kept@[b])@ by {
                    if b < kept@.len() - 1 {
                        assert(kept@[a] == kept@.drop_last()[a]);
                        assert(kept@[b] == kept@.drop_last()[b]);
                    }
                }
                assert forall|k: int| 0 <= k < kept@.len() implies exists|j: int|
                    0 <= j < i + 1 && (#[trigger] kept@[k])@ == selection@[j]@ by {
                    if k < kept@.len() - 1 {
                        let j = choose|j: int| 0 <= j < i && kept@.drop_last()[k]@ == selection@[j]@;
                        assert(kept@[k] == kept@.drop_last()[k]);
                        assert(0 <= j < i + 1 && kept@[k]@ == selection@[j]@);
                    } else {
                        assert(kept@[k]@ == selection@[i as int]@);
                    }
                }
            }
        }
        i = i + 1;
    }
    assert(selection@.take(selection.len() as int) =~= selection@);
    kept
}

impl AppState {
    /// Take in a fresh device scan.
    #[verifier::rlimit(40)]
    pub fn replace_devices(&mut self, devices: Vec<DeviceRow>)
        requires
            old(self).wf(),
        ensures
            final(self).wf(),
            spec_devices_replaced(*old(self), *final(self), devices@),
    {
        let ghost devs = devices@;
        let selected_disk = if self.workspace == Workspace::Devices {
            self.selected_device_disk()
        } else {
            None
        };
        if let Some(disk) = self.pinned_disk {
            if !has_disk(&devices, disk) {
                self.pinned_disk = None;
            }
        }
        if let Some(disk) = self.provision.target_disk {
            if !has_disk(&devices, disk) {
                self.provision.target_disk = None;
            }
        }
        self.devices = devices;
        self.device_scan_pending = false;
        if self.workspace == Workspace::Provision {
            if self.pinned_disk.is_none() || self.selected_device().is_none() {
                self.pinned_disk = None;
                self.provision.stage = ProvisionStage::SelectDisk;
                let n = self.provision_selectable_count();
                self.set_item_count(n);
            }
        }
        if self.workspace == Workspace::Devices {
            let ghost before = *self;
            self.rebuild_workspace_filter();
            if let Some(disk) = selected_disk {
                let source_index = disk_position(&self.devices, disk);
                self.selected = match source_index {
                    Some(index) => {
                        if self.workspace_filter_active() {
                            match value_position(&self.search_matches, index) {
                                Some(p) => p,
                                None => 0,
                            }
                        } else {
                            index
                        }
                    },
                    None => 0,
                };
            }
            proof {
                assert(before.spec_active_query() == old(self).spec_active_query());
            }
        }
    }

    /// Take in a fresh backup scan.
    pub fn replace_backups(&mut self, backups: Vec<BackupItem>)
        requires
            old(self).wf(),
        ensures
            final(self).wf(),
            spec_backups_replaced(*old(self), *final(self), backups@),
    {
        let selected_path = if self.workspace == Workspace::Backups {
            self.selected_backup_path()
        } else {
            None
        };
        let kept = retain_selectable(&self.backup_selection, &backups);
        self.backups = backups;
        self.backup_selection = kept;
        self.backup_scan_pending = false;
        if self.workspace == Workspace::Backups {
            self.rebuild_workspace_filter();
            if let Some(path) = selected_path {
                let source_index = path_position(&self.backups, path.as_str());
                self.selected = match source_index {
                    Some(index) => {
                        if self.workspace_filter_active() {
                            match value_position(&self.search_matches, index) {
                                Some(p) => p,
                                None => 0,
                            }
                        } else {
                            index
                        }
                    },
                    None => 0,
                };
            }
        }
    }
}

proof fn lemma_disk_position(rows: Seq<DeviceRow>, disk: u32)
    requires
        rows.len() <= usize::MAX,
    ensures
        spec_disk_position(rows, disk) matches Some(p) ==> p < rows.len() && rows[p as int].disk == disk,
    decreases rows.len(),
{
    if rows.len() > 0 {
        lemma_disk_position(rows.drop_last(), disk);
        if let Some(p) = spec_disk_position(rows.drop_last(), disk) {
            assert(rows.drop_last()[p as int] == rows[p as int]);
        }
    }
}

/// In the unfiltered device list, a rescan that still lists the device under the
/// cursor keeps the cursor on it.
pub proof fn lemma_rescan_keeps_selected_device(old: AppState, new: AppState, devices: Seq<DeviceRow>, disk: u32)
    requires
        spec_devices_replaced(old, new, devices),
        old.workspace == Workspace::Devices,
        !old.spec_filter_active(),
        old.spec_selected_device() matches Some(row) && row.disk == disk,
        spec_has_disk(devices, disk),
    ensures
        new.spec_selected_device() matches Some(row) && row.disk == disk,
{
    broadcast use vstd::std_specs::vec::group_vec_axioms;

    assert(new.devices@.len() == new.devices.len());
    lemma_disk_position(devices, disk);
}

} // verus!
