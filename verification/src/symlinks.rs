//! The symlink that reveals or hides the task description.

use vstd::prelude::*;
use crate::client::text_of;
use crate::input_parser::{SymlinkInfo, SymlinkInfoView};
use crate::shared_data::{SharedData, SharedDataView};

verus! {

/// A request to make the symlink at `symlink_path` point at `target`.
#[derive(Debug)]
pub struct SymlinkOrder {
    pub symlink_path: String,
    pub target: String,
}

/// The mathematical model of a [`SymlinkOrder`].
pub struct SymlinkOrderView {
    pub symlink_path: Seq<char>,
    pub target: Seq<char>,
}

impl View for SymlinkOrder {
    type V = SymlinkOrderView;

    open spec fn view(&self) -> SymlinkOrderView {
        SymlinkOrderView { symlink_path: self.symlink_path@, target: self.target@ }
    }
}

/// The request that reveals the task description.
pub open spec fn unlock_order_of(info: SymlinkInfoView) -> SymlinkOrderView {
    SymlinkOrderView { symlink_path: info.symlink_path, target: info.real_target }
}

/// The request that hides the task description.
pub open spec fn lock_order_of(info: SymlinkInfoView) -> SymlinkOrderView {
    SymlinkOrderView { symlink_path: info.symlink_path, target: info.dummy_target }
}

/// The request that reveals the task description, for the symlink of this state.
pub open spec fn unlock_order(shared: SharedDataView) -> SymlinkOrderView {
    unlock_order_of(shared.symlink_info)
}

/// The request that hides the task description, for the symlink of this state.
pub open spec fn lock_order(shared: SharedDataView) -> SymlinkOrderView {
    lock_order_of(shared.symlink_info)
}

/// Prepares the switch of a symlink to the real task description.
pub fn unlock_target(info: &SymlinkInfo) -> (order: SymlinkOrder)
    ensures
        order@ == unlock_order_of(info@),
{
    SymlinkOrder { symlink_path: info.symlink_path.clone(), target: info.real_target.clone() }
}

/// Prepares the switch of a symlink to the dummy.
pub fn lock_target(info: &SymlinkInfo) -> (order: SymlinkOrder)
    ensures
        order@ == lock_order_of(info@),
{
    SymlinkOrder { symlink_path: info.symlink_path.clone(), target: info.dummy_target.clone() }
}

/// Prepares the switch of the symlink to the real task description.
pub fn unlock_taskdescription(shared_data: &SharedData) -> (order: SymlinkOrder)
    ensures
        order@ == unlock_order(shared_data@),
{
    unlock_target(&shared_data.symlink_info)
}

/// Prepares the switch of the symlink to the dummy.
pub fn lock_taskdescription(shared_data: &SharedData) -> (order: SymlinkOrder)
    ensures
        order@ == lock_order(shared_data@),
{
    lock_target(&shared_data.symlink_info)
}

/// Replaces the cached target of the symlink by what was just read from it; `None`
/// stands for a link that is missing or unreadable.
pub fn update_symlink_status(shared_data: &mut SharedData, target: Option<String>)
    ensures
        final(shared_data)@ == (SharedDataView {
            symlink_target: text_of(target),
            ..old(shared_data)@
        }),
        old(shared_data).wf() ==> final(shared_data).wf(),
{
    shared_data.symlink_target = target;
}

} // verus!
