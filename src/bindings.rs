use crate::error::HarnessError;
use crate::grid::ElementLayout;
use vstd::prelude::*;

verus! {

/// One resource slot of the binding layout, in group zero.
#[derive(Clone, Copy, Debug, PartialEq, Eq, Structural)]
pub struct BindingEntry {
    pub slot: u32,
    pub read_only: bool,
    pub min_size: u64,
}

/// Slot 0 reads the input; slot 1 is the output, read and written.
pub open spec fn bind_spec_spec(in_layout: ElementLayout, out_layout: ElementLayout) -> Seq<
    BindingEntry,
> {
    seq![
        BindingEntry { slot: 0, read_only: true, min_size: in_layout.min_size },
        BindingEntry { slot: 1, read_only: false, min_size: out_layout.min_size },
    ]
}

/// The binding layout that the harness declares.
pub fn bind_spec(in_layout: &ElementLayout, out_layout: &ElementLayout) -> (r: Vec<BindingEntry>)
    ensures
        r@ == bind_spec_spec(*in_layout, *out_layout),
{
    let r = vec![
        BindingEntry { slot: 0, read_only: true, min_size: in_layout.min_size },
        BindingEntry { slot: 1, read_only: false, min_size: out_layout.min_size },
    ];
    assert(r@ =~= bind_spec_spec(*in_layout, *out_layout));
    r
}

pub open spec fn declares_slot(declared: Seq<BindingEntry>, slot: u32) -> bool {
    exists|i: int| 0 <= i < declared.len() && (#[trigger] declared[i]).slot == slot
}

/// Every declared slot is one the kernel uses, and every slot the kernel uses
/// is declared.
pub open spec fn slots_agree(declared: Seq<BindingEntry>, kernel_slots: Seq<u32>) -> bool {
    &&& forall|i: int| 0 <= i < declared.len() ==> kernel_slots.contains(#[trigger] declared[i].slot)
    &&& forall|j: int| 0 <= j < kernel_slots.len() ==> declares_slot(declared, #[trigger] kernel_slots[j])
}

fn find_declared(declared: &Vec<BindingEntry>, slot: u32) -> (r: bool)
    ensures
        r == declares_slot(declared@, slot),
{
    let mut i: usize = 0;
    while i < declared.len()
        invariant
            0 <= i <= declared.len(),
            forall|k: int| 0 <= k < i ==> (#[trigger] declared@[k]).slot != slot,
        decreases declared.len() - i,
    {
        if declared[i].slot == slot {
            return true;
        }
        i = i + 1;
    }
    false
}

fn find_slot(slots: &Vec<u32>, slot: u32) -> (r: bool)
    ensures
        r == slots@.contains(slot),
{
    let mut i: usize = 0;
    while i < slots.len()
        invariant
            0 <= i <= slots.len(),
            forall|k: int| 0 <= k < i ==> #[trigger] slots@[k] != slot,
        decreases slots.len() - i,
    {
        if slots[i] == slot {
            return true;
        }
        i = i + 1;
    }
    false
}

/// Checks the declared layout against the slots the kernel uses; any slot on
/// one side only is a `BindGroupMismatch`.
pub fn check_bindings(declared: &Vec<BindingEntry>, kernel_slots: &Vec<u32>) -> (r: Result<
    (),
    HarnessError,
>)
    ensures
        r is Ok <==> slots_agree(declared@, kernel_slots@),
        r matches Err(e) ==> e == HarnessError::BindGroupMismatch,
{
    let mut i: usize = 0;
    while i < declared.len()
        invariant
            0 <= i <= declared.len(),
            forall|k: int| 0 <= k < i ==> kernel_slots@.contains(#[trigger] declared@[k].slot),
        decreases declared.len() - i,
    {
        if !find_slot(kernel_slots, declared[i].slot) {
            return Err(HarnessError::BindGroupMismatch);
        }
        i = i + 1;
    }
    let mut j: usize = 0;
    while j < kernel_slots.len()
        invariant
            0 <= j <= kernel_slots.len(),
            forall|k: int| 0 <= k < declared.len() ==> kernel_slots@.contains(#[trigger] declared@[k].slot),
            forall|k: int| 0 <= k < j ==> declares_slot(declared@, #[trigger] kernel_slots@[k]),
        decreases kernel_slots.len() - j,
    {
        if !find_declared(declared, kernel_slots[j]) {
            return Err(HarnessError::BindGroupMismatch);
        }
        j = j + 1;
    }
    Ok(())
}

} // verus!
